//! Built-in globe templates: one solar system body each.

use vstd::prelude::*;

use crate::text::str_is;

verus! {

/// Built-in globe template: one solar system body.
///
/// Each template carries a baked map; earth also carries a night side.
/// Bodies without a night map have no terminator, which is also what makes
/// the sun emissive.
#[derive(Clone, Copy, PartialEq, Eq, Debug, Structural)]
pub enum GlobeTemplate {
    Earth,
    Sun,
    Mercury,
    Venus,
    Moon,
    Mars,
    Jupiter,
    Saturn,
    Uranus,
    Neptune,
}

/// Stable lowercase name of a template.
pub open spec fn spec_template_name(t: GlobeTemplate) -> Seq<char> {
    match t {
        GlobeTemplate::Earth => "earth"@,
        GlobeTemplate::Sun => "sun"@,
        GlobeTemplate::Mercury => "mercury"@,
        GlobeTemplate::Venus => "venus"@,
        GlobeTemplate::Moon => "moon"@,
        GlobeTemplate::Mars => "mars"@,
        GlobeTemplate::Jupiter => "jupiter"@,
        GlobeTemplate::Saturn => "saturn"@,
        GlobeTemplate::Uranus => "uranus"@,
        GlobeTemplate::Neptune => "neptune"@,
    }
}

/// Every template, in menu order.
pub open spec fn spec_all_templates() -> Seq<GlobeTemplate> {
    seq![
        GlobeTemplate::Earth,
        GlobeTemplate::Sun,
        GlobeTemplate::Mercury,
        GlobeTemplate::Venus,
        GlobeTemplate::Moon,
        GlobeTemplate::Mars,
        GlobeTemplate::Jupiter,
        GlobeTemplate::Saturn,
        GlobeTemplate::Uranus,
        GlobeTemplate::Neptune,
    ]
}

/// The template named `s`, if any.
pub open spec fn spec_template_from_name(s: Seq<char>) -> Option<GlobeTemplate> {
    if s == "earth"@ {
        Some(GlobeTemplate::Earth)
    } else if s == "sun"@ {
        Some(GlobeTemplate::Sun)
    } else if s == "mercury"@ {
        Some(GlobeTemplate::Mercury)
    } else if s == "venus"@ {
        Some(GlobeTemplate::Venus)
    } else if s == "moon"@ {
        Some(GlobeTemplate::Moon)
    } else if s == "mars"@ {
        Some(GlobeTemplate::Mars)
    } else if s == "jupiter"@ {
        Some(GlobeTemplate::Jupiter)
    } else if s == "saturn"@ {
        Some(GlobeTemplate::Saturn)
    } else if s == "uranus"@ {
        Some(GlobeTemplate::Uranus)
    } else if s == "neptune"@ {
        Some(GlobeTemplate::Neptune)
    } else {
        None
    }
}

/// File names of a template's baked day map and, for earth, night map.
pub open spec fn spec_template_maps(t: GlobeTemplate) -> (Seq<char>, Option<Seq<char>>) {
    match t {
        GlobeTemplate::Earth => ("earth_hd.gidx"@, Some("earth_night_hd.gidx"@)),
        GlobeTemplate::Sun => ("sun_hd.gidx"@, None),
        GlobeTemplate::Mercury => ("mercury_hd.gidx"@, None),
        GlobeTemplate::Venus => ("venus_hd.gidx"@, None),
        GlobeTemplate::Moon => ("moon_hd.gidx"@, None),
        GlobeTemplate::Mars => ("mars_hd.gidx"@, None),
        GlobeTemplate::Jupiter => ("jupiter_hd.gidx"@, None),
        GlobeTemplate::Saturn => ("saturn_hd.gidx"@, None),
        GlobeTemplate::Uranus => ("uranus_hd.gidx"@, None),
        GlobeTemplate::Neptune => ("neptune_hd.gidx"@, None),
    }
}

impl GlobeTemplate {
    /// Every template, in menu order.
    pub const ALL: [GlobeTemplate; 10] = [
        GlobeTemplate::Earth,
        GlobeTemplate::Sun,
        GlobeTemplate::Mercury,
        GlobeTemplate::Venus,
        GlobeTemplate::Moon,
        GlobeTemplate::Mars,
        GlobeTemplate::Jupiter,
        GlobeTemplate::Saturn,
        GlobeTemplate::Uranus,
        GlobeTemplate::Neptune,
    ];

    /// Names of every template, for menus and command line validation.
    pub const NAMES: [&'static str; 10] = [
        "earth",
        "sun",
        "mercury",
        "venus",
        "moon",
        "mars",
        "jupiter",
        "saturn",
        "uranus",
        "neptune",
    ];

    /// Stable lowercase name, as accepted by [`GlobeTemplate::from_name`].
    pub fn name(self) -> (r: &'static str)
        ensures
            r@ == spec_template_name(self),
    {
        match self {
            GlobeTemplate::Earth => "earth",
            GlobeTemplate::Sun => "sun",
            GlobeTemplate::Mercury => "mercury",
            GlobeTemplate::Venus => "venus",
            GlobeTemplate::Moon => "moon",
            GlobeTemplate::Mars => "mars",
            GlobeTemplate::Jupiter => "jupiter",
            GlobeTemplate::Saturn => "saturn",
            GlobeTemplate::Uranus => "uranus",
            GlobeTemplate::Neptune => "neptune",
        }
    }

    /// Parses a [`GlobeTemplate::name`].
    pub fn from_name(name: &str) -> (r: Option<GlobeTemplate>)
        ensures
            r == spec_template_from_name(name@),
    {
        if str_is(name, "earth") {
            Some(GlobeTemplate::Earth)
        } else if str_is(name, "sun") {
            Some(GlobeTemplate::Sun)
        } else if str_is(name, "mercury") {
            Some(GlobeTemplate::Mercury)
        } else if str_is(name, "venus") {
            Some(GlobeTemplate::Venus)
        } else if str_is(name, "moon") {
            Some(GlobeTemplate::Moon)
        } else if str_is(name, "mars") {
            Some(GlobeTemplate::Mars)
        } else if str_is(name, "jupiter") {
            Some(GlobeTemplate::Jupiter)
        } else if str_is(name, "saturn") {
            Some(GlobeTemplate::Saturn)
        } else if str_is(name, "uranus") {
            Some(GlobeTemplate::Uranus)
        } else if str_is(name, "neptune") {
            Some(GlobeTemplate::Neptune)
        } else {
            None
        }
    }

    /// File names of the baked day map, plus the night map for bodies that
    /// have one.
    pub fn maps(self) -> (r: (&'static str, Option<&'static str>))
        ensures
            r.0@ == spec_template_maps(self).0,
            match r.1 {
                Some(n) => spec_template_maps(self).1 == Some(n@),
                None => spec_template_maps(self).1 is None,
            },
    {
        match self {
            GlobeTemplate::Earth => ("earth_hd.gidx", Some("earth_night_hd.gidx")),
            GlobeTemplate::Sun => ("sun_hd.gidx", None),
            GlobeTemplate::Mercury => ("mercury_hd.gidx", None),
            GlobeTemplate::Venus => ("venus_hd.gidx", None),
            GlobeTemplate::Moon => ("moon_hd.gidx", None),
            GlobeTemplate::Mars => ("mars_hd.gidx", None),
            GlobeTemplate::Jupiter => ("jupiter_hd.gidx", None),
            GlobeTemplate::Saturn => ("saturn_hd.gidx", None),
            GlobeTemplate::Uranus => ("uranus_hd.gidx", None),
            GlobeTemplate::Neptune => ("neptune_hd.gidx", None),
        }
    }
}

/// Template names are told apart by their length and first two letters.
proof fn lemma_template_name_letters()
    ensures
        "earth"@.len() == 5 && "earth"@[0] == 'e' && "earth"@[1] == 'a',
        "sun"@.len() == 3 && "sun"@[0] == 's' && "sun"@[1] == 'u',
        "mercury"@.len() == 7 && "mercury"@[0] == 'm' && "mercury"@[1] == 'e',
        "venus"@.len() == 5 && "venus"@[0] == 'v' && "venus"@[1] == 'e',
        "moon"@.len() == 4 && "moon"@[0] == 'm' && "moon"@[1] == 'o',
        "mars"@.len() == 4 && "mars"@[0] == 'm' && "mars"@[1] == 'a',
        "jupiter"@.len() == 7 && "jupiter"@[0] == 'j' && "jupiter"@[1] == 'u',
        "saturn"@.len() == 6 && "saturn"@[0] == 's' && "saturn"@[1] == 'a',
        "uranus"@.len() == 6 && "uranus"@[0] == 'u' && "uranus"@[1] == 'r',
        "neptune"@.len() == 7 && "neptune"@[0] == 'n' && "neptune"@[1] == 'e',
{
    reveal_strlit("earth");
    reveal_strlit("sun");
    reveal_strlit("mercury");
    reveal_strlit("venus");
    reveal_strlit("moon");
    reveal_strlit("mars");
    reveal_strlit("jupiter");
    reveal_strlit("saturn");
    reveal_strlit("uranus");
    reveal_strlit("neptune");
}

/// Every template's name parses back to that template.
pub proof fn lemma_template_name_round_trip(t: GlobeTemplate)
    ensures
        spec_template_from_name(spec_template_name(t)) == Some(t),
{
    lemma_template_name_letters();
}

/// A name that parses is the parsed template's own name.
pub proof fn lemma_template_from_name_sound(s: Seq<char>)
    ensures
        spec_template_from_name(s) matches Some(t) ==> spec_template_name(t) == s,
{
}

/// `ALL` lists every template exactly once.
pub proof fn lemma_all_templates_complete(t: GlobeTemplate)
    ensures
        spec_all_templates().len() == 10,
        spec_all_templates().contains(t),
        spec_all_templates().no_duplicates(),
{
    let all = spec_all_templates();
    match t {
        GlobeTemplate::Earth => assert(all[0] == t),
        GlobeTemplate::Sun => assert(all[1] == t),
        GlobeTemplate::Mercury => assert(all[2] == t),
        GlobeTemplate::Venus => assert(all[3] == t),
        GlobeTemplate::Moon => assert(all[4] == t),
        GlobeTemplate::Mars => assert(all[5] == t),
        GlobeTemplate::Jupiter => assert(all[6] == t),
        GlobeTemplate::Saturn => assert(all[7] == t),
        GlobeTemplate::Uranus => assert(all[8] == t),
        GlobeTemplate::Neptune => assert(all[9] == t),
    }
}

/// `ALL` is the menu order and `NAMES` names it entry by entry.
pub proof fn lemma_names_match_all()
    ensures
        GlobeTemplate::ALL@ == spec_all_templates(),
        GlobeTemplate::NAMES@.len() == GlobeTemplate::ALL@.len(),
        forall|i: int|
            0 <= i < 10 ==> (#[trigger] GlobeTemplate::NAMES@[i])@ == spec_template_name(
                GlobeTemplate::ALL@[i],
            ),
{
    assert(GlobeTemplate::ALL@ =~= spec_all_templates());
}

/// Only earth carries a night map.
pub proof fn lemma_only_earth_has_night(t: GlobeTemplate)
    ensures
        spec_template_maps(t).1 is Some <==> t == GlobeTemplate::Earth,
{
}

/// Every template's day map is the baked file named after the body,
/// `<name>_hd.gidx`; earth's night map is `earth_night_hd.gidx`.
pub proof fn lemma_maps_follow_names(t: GlobeTemplate)
    ensures
        spec_template_maps(t).0 == spec_template_name(t) + "_hd.gidx"@,
        t == GlobeTemplate::Earth ==> spec_template_maps(t).1 == Some(
            spec_template_name(t) + "_night_hd.gidx"@,
        ),
{
    reveal_strlit("_hd.gidx");
    reveal_strlit("_night_hd.gidx");
    reveal_strlit("earth_night_hd.gidx");
    reveal_strlit("earth");
    reveal_strlit("earth_hd.gidx");
    reveal_strlit("sun");
    reveal_strlit("sun_hd.gidx");
    reveal_strlit("mercury");
    reveal_strlit("mercury_hd.gidx");
    reveal_strlit("venus");
    reveal_strlit("venus_hd.gidx");
    reveal_strlit("moon");
    reveal_strlit("moon_hd.gidx");
    reveal_strlit("mars");
    reveal_strlit("mars_hd.gidx");
    reveal_strlit("jupiter");
    reveal_strlit("jupiter_hd.gidx");
    reveal_strlit("saturn");
    reveal_strlit("saturn_hd.gidx");
    reveal_strlit("uranus");
    reveal_strlit("uranus_hd.gidx");
    reveal_strlit("neptune");
    reveal_strlit("neptune_hd.gidx");
    assert(spec_template_maps(t).0 =~= spec_template_name(t) + "_hd.gidx"@);
    if t == GlobeTemplate::Earth {
        assert("earth_night_hd.gidx"@ =~= "earth"@ + "_night_hd.gidx"@);
    }
}

} // verus!
