//! Body wiring: every [`GlobeTemplate`] must resolve by name.
use globe::GlobeTemplate;

#[test]
fn template_names_round_trip() {
    for t in GlobeTemplate::ALL {
        assert_eq!(
            GlobeTemplate::from_name(t.name()),
            Some(t),
            "from_name({:?}) did not round-trip",
            t.name()
        );
    }
}

#[test]
fn template_names_match_all() {
    assert_eq!(
        GlobeTemplate::NAMES.len(),
        GlobeTemplate::ALL.len(),
        "NAMES length does not match ALL length"
    );
    for (i, t) in GlobeTemplate::ALL.iter().enumerate() {
        assert_eq!(
            GlobeTemplate::NAMES[i],
            t.name(),
            "NAMES[{}] does not match ALL[{}]",
            i,
            i
        );
    }
}
