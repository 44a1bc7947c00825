//! Globe textures: one palette level per texel, with an optional night side.

use vstd::prelude::*;

use crate::baked::{Baked, BakedView};
use crate::error::TextureError;
use crate::image::{
    image_fits_memory, image_indexable, image_palette, image_size,
    lemma_image_levels_len, spec_image_levels, spec_lines, index_image,
};
use crate::text::chars_eq;

verus! {

/// Texel levels: borrowed straight out of a baked image, or owned.
pub enum Levels {
    /// Level bytes of a baked image, used in place.
    Borrowed(&'static [u8]),
    /// Level bytes indexed from an ascii image.
    Owned(Vec<u8>),
}

impl View for Levels {
    type V = Seq<u8>;

    open spec fn view(&self) -> Seq<u8> {
        match self {
            Levels::Borrowed(s) => s@,
            Levels::Owned(v) => v@,
        }
    }
}

impl Levels {
    /// The level bytes.
    pub fn as_slice(&self) -> (r: &[u8])
        ensures
            r@ == self@,
    {
        match self {
            Levels::Borrowed(s) => s,
            Levels::Owned(v) => v.as_slice(),
        }
    }
}

/// Abstract value of a texture.
pub struct TextureView {
    /// Day side levels, row major.
    pub day: Seq<u8>,
    /// Night side levels, if any.
    pub night: Option<Seq<u8>>,
    /// Palette glyphs: level `i` renders as `palette[i]`.
    pub palette: Seq<char>,
    /// Size in texels as `(columns, rows)`.
    pub size: (usize, usize),
}

/// Day and night levels both fill the texel grid.
pub open spec fn texture_well_formed(t: TextureView) -> bool {
    &&& t.day.len() == t.size.0 * t.size.1
    &&& t.night matches Some(n) ==> n.len() == t.day.len()
}

/// Globe texture: one palette level per texel.
pub struct Texture {
    day: Levels,
    night: Option<Levels>,
    palette: Vec<char>,
    size: (usize, usize),
}

/// The view of optional levels.
pub open spec fn levels_opt_view(n: Option<Levels>) -> Option<Seq<u8>> {
    match n {
        Some(l) => Some(l@),
        None => None,
    }
}

impl View for Texture {
    type V = TextureView;

    closed spec fn view(&self) -> TextureView {
        TextureView {
            day: self.day@,
            night: levels_opt_view(self.night),
            palette: self.palette@,
            size: self.size,
        }
    }
}

/// The texture an ascii image gives with palette `p`.
pub open spec fn ascii_texture(p: Seq<char>, s: Seq<char>) -> TextureView {
    TextureView {
        day: spec_image_levels(p, s),
        night: None,
        palette: image_palette(p, s),
        size: (image_size(s).0 as usize, image_size(s).1 as usize),
    }
}

/// The texture a baked day image and optional baked night image give.
pub open spec fn baked_texture(day: BakedView, night: Option<BakedView>) -> TextureView {
    TextureView {
        day: day.levels,
        night: match night {
            Some(n) => Some(n.levels),
            None => None,
        },
        palette: day.palette,
        size: day.size,
    }
}

/// Whether a night image of `size` fits a day image of `day_size`.
pub open spec fn same_size(size: (nat, nat), day_size: (usize, usize)) -> bool {
    size.0 == day_size.0 && size.1 == day_size.1
}

/// The error indexing the ascii image `s` fails with, when it fails.
pub open spec fn index_error(s: Seq<char>) -> TextureError {
    if !image_fits_memory(s) {
        TextureError::ImageTooLarge
    } else {
        TextureError::PaletteOverflow
    }
}

/// Why a baked night image cannot join a day side with `palette` and
/// `size`, if it cannot: its palette is checked first, then its size.
pub open spec fn baked_night_error(
    night: BakedView,
    palette: Seq<char>,
    size: (usize, usize),
) -> Option<TextureError> {
    if night.palette != palette {
        Some(TextureError::NightPaletteMismatch)
    } else if night.size != size {
        Some(TextureError::NightSizeMismatch)
    } else {
        None
    }
}

/// Checks a baked night image against the day side's palette and size.
fn check_baked_night(night: &Baked, palette: &[char], size: (usize, usize)) -> (r: Option<
    TextureError,
>)
    ensures
        r == baked_night_error(night@, palette@, size),
        r is None ==> night@.levels.len() == size.0 * size.1,
{
    if !chars_eq(night.palette(), palette) {
        return Some(TextureError::NightPaletteMismatch);
    }
    let night_size = night.size();
    if night_size.0 != size.0 || night_size.1 != size.1 {
        return Some(TextureError::NightSizeMismatch);
    }
    None
}

/// An indexed image has one level per texel.
proof fn lemma_ascii_texture_well_formed(p: Seq<char>, s: Seq<char>)
    requires
        image_fits_memory(s),
    ensures
        texture_well_formed(ascii_texture(p, s)),
{
    lemma_image_levels_len(image_palette(p, s), spec_lines(s), image_size(s).0);
    assert(spec_lines(s).len() * image_size(s).0 == image_size(s).0 * image_size(s).1)
        by (nonlinear_arith)
        requires
            spec_lines(s).len() == image_size(s).1,
    ;
}

impl Texture {
    /// Day and night levels both fill the texel grid.
    #[verifier::type_invariant]
    pub open spec fn inv(self) -> bool {
        texture_well_formed(self@)
    }

    /// Where the day levels are stored: borrowed from a baked image, or owned.
    pub closed spec fn day_storage(&self) -> Levels {
        self.day
    }

    /// Where the night levels are stored, if there is a night side.
    pub closed spec fn night_storage(&self) -> Option<Levels> {
        self.night
    }

    /// Builds a texture from a baked day image and an optional baked night
    /// image, borrowing their levels in place. Both must share palette and
    /// size so levels can be blended.
    pub fn from_baked(day: &Baked, night: Option<&Baked>) -> (r: Result<Texture, TextureError>)
        ensures
            match r {
                Ok(t) => {
                    &&& night matches Some(n) ==> baked_night_error(n@, day@.palette, day@.size) is None
                    &&& t@ == baked_texture(
                        day@,
                        match night {
                            Some(n) => Some(n@),
                            None => None,
                        },
                    )
                    &&& t.day_storage() == Levels::Borrowed(day.data())
                    &&& t.night_storage() == match night {
                        Some(n) => Some(Levels::Borrowed(n.data())),
                        None => None,
                    }
                },
                Err(e) => night matches Some(n) && baked_night_error(n@, day@.palette, day@.size)
                    == Some(e),
            },
    {
        let day_levels = day.levels();
        let palette = day.palette_owned();
        let size = day.size();
        let night_levels = match night {
            Some(n) => {
                match check_baked_night(n, palette.as_slice(), size) {
                    Some(e) => {
                        return Err(e);
                    },
                    None => {},
                }
                let l = n.levels();
                Some(Levels::Borrowed(l))
            },
            None => None,
        };
        Ok(Texture { day: Levels::Borrowed(day_levels), night: night_levels, palette, size })
    }

    /// Builds a texture from an ascii image: one glyph per texel, first row
    /// on top, columns reversed (longitude runs west). Ragged rows are
    /// padded and glyphs missing from the palette are appended to it, so
    /// any image renders exactly as written. Fails when the image cannot be
    /// indexed.
    pub fn from_ascii(image: &str, palette: Option<Vec<char>>) -> (r: Result<Texture, TextureError>)
        ensures
            ({
                let p = palette_opt_view(palette);
                match r {
                    Ok(t) => {
                        &&& image_indexable(p, image@)
                        &&& t@ == ascii_texture(p, image@)
                        &&& t.day_storage() is Owned
                    },
                    Err(e) => !image_indexable(p, image@) && e == index_error(image@),
                }
            }),
    {
        let mut pal = match palette {
            Some(p) => p,
            None => Vec::new(),
        };
        let ghost p0 = pal@;
        match index_image(image, &mut pal) {
            Ok((day, size)) => {
                proof {
                    lemma_ascii_texture_well_formed(p0, image@);
                }
                Ok(Texture { day: Levels::Owned(day), night: None, palette: pal, size })
            },
            Err(e) => Err(e),
        }
    }

    /// Sets the night side image, indexed with this texture's palette, or
    /// fails, leaving the texture as it was, when the image cannot be
    /// indexed or its size differs from the day image's.
    pub fn set_night_ascii(&mut self, image: &str) -> (r: Result<(), TextureError>)
        ensures
            ({
                let p = old(self)@.palette;
                match r {
                    Ok(()) => {
                        &&& image_indexable(p, image@)
                        &&& same_size(image_size(image@), old(self)@.size)
                        &&& final(self)@ == (TextureView {
                            night: Some(spec_image_levels(p, image@)),
                            palette: image_palette(p, image@),
                            ..old(self)@
                        })
                        &&& final(self).day_storage() == old(self).day_storage()
                        &&& final(self).night_storage() matches Some(Levels::Owned(_))
                    },
                    Err(e) => {
                        &&& *final(self) == *old(self)
                        &&& !image_indexable(p, image@) ==> e == index_error(image@)
                        &&& image_indexable(p, image@) ==> !same_size(image_size(image@), old(self)@.size)
                            && e == TextureError::NightSizeMismatch
                    },
                }
            }),
    {
        proof {
            use_type_invariant(&*self);
        }
        let mut pal = self.palette.clone();
        let ghost p0 = pal@;
        match index_image(image, &mut pal) {
            Ok((night, size)) => {
                if size.0 != self.size.0 || size.1 != self.size.1 {
                    return Err(TextureError::NightSizeMismatch);
                }
                proof {
                    lemma_ascii_texture_well_formed(p0, image@);
                }
                self.palette = pal;
                self.night = Some(Levels::Owned(night));
                Ok(())
            },
            Err(e) => Err(e),
        }
    }

    /// Sets the night side from a baked image, borrowing its levels in
    /// place, or fails, leaving the texture as it was, when its palette or
    /// size differs from this texture's.
    pub fn set_baked_night(&mut self, night: Baked) -> (r: Result<(), TextureError>)
        ensures
            match r {
                Ok(()) => {
                    &&& baked_night_error(night@, old(self)@.palette, old(self)@.size) is None
                    &&& final(self)@ == (TextureView { night: Some(night@.levels), ..old(self)@ })
                    &&& final(self).day_storage() == old(self).day_storage()
                    &&& final(self).night_storage() == Some(Levels::Borrowed(night.data()))
                },
                Err(e) => {
                    &&& *final(self) == *old(self)
                    &&& baked_night_error(night@, old(self)@.palette, old(self)@.size) == Some(e)
                },
            },
    {
        proof {
            use_type_invariant(&*self);
        }
        match check_baked_night(&night, self.palette.as_slice(), self.size) {
            Some(e) => {
                return Err(e);
            },
            None => {},
        }
        let l = night.levels();
        self.night = Some(Levels::Borrowed(l));
        Ok(())
    }

    /// Texture dimensions in texels.
    pub fn size(&self) -> (r: (usize, usize))
        ensures
            r == self@.size,
            texture_well_formed(self@),
    {
        proof {
            use_type_invariant(self);
        }
        self.size
    }

    /// Palette glyphs.
    pub fn palette(&self) -> (r: &[char])
        ensures
            r@ == self@.palette,
    {
        self.palette.as_slice()
    }

    /// Day side levels, row major.
    pub fn day(&self) -> (r: &[u8])
        ensures
            r@ == self@.day,
            texture_well_formed(self@),
    {
        proof {
            use_type_invariant(self);
        }
        self.day.as_slice()
    }

    /// Night side levels, row major, if the texture has a night side.
    pub fn night(&self) -> (r: Option<&[u8]>)
        ensures
            match r {
                Some(n) => self@.night == Some(n@),
                None => self@.night is None,
            },
            texture_well_formed(self@),
    {
        proof {
            use_type_invariant(self);
        }
        match &self.night {
            Some(n) => Some(n.as_slice()),
            None => None,
        }
    }
}

/// One texture source: an ascii image, indexed when the texture is built,
/// or a baked image, used in place.
pub enum ImageSource {
    /// Ascii image.
    Ascii(String),
    /// Baked image.
    Baked(Baked),
}

/// Abstract value of a texture source.
pub enum SourceView {
    /// Characters of an ascii image.
    Ascii(Seq<char>),
    /// A baked image.
    Baked(BakedView),
}

impl View for ImageSource {
    type V = SourceView;

    open spec fn view(&self) -> SourceView {
        match self {
            ImageSource::Ascii(s) => SourceView::Ascii(s@),
            ImageSource::Baked(b) => SourceView::Baked(b@),
        }
    }
}

impl Clone for ImageSource {
    fn clone(&self) -> (r: ImageSource)
        ensures
            r@ == self@,
    {
        match self {
            ImageSource::Ascii(s) => ImageSource::Ascii(s.clone()),
            ImageSource::Baked(b) => ImageSource::Baked(b.clone()),
        }
    }
}

/// The view of an optional source.
pub open spec fn source_opt_view(o: Option<ImageSource>) -> Option<SourceView> {
    match o {
        Some(s) => Some(s@),
        None => None,
    }
}

/// The view of an optional palette: no palette is the empty palette.
pub open spec fn palette_opt_view(o: Option<Vec<char>>) -> Seq<char> {
    match o {
        Some(p) => p@,
        None => Seq::<char>::empty(),
    }
}

/// Day side of an assembled texture: levels, palette and size.
pub open spec fn assemble_day(day: SourceView, palette: Seq<char>) -> Result<
    (Seq<u8>, Seq<char>, (usize, usize)),
    TextureError,
> {
    match day {
        SourceView::Ascii(s) => {
            if image_indexable(palette, s) {
                let t = ascii_texture(palette, s);
                Ok((t.day, t.palette, t.size))
            } else {
                Err(index_error(s))
            }
        },
        SourceView::Baked(b) => Ok((b.levels, b.palette, b.size)),
    }
}

/// Night side of an assembled texture, given the day palette and size:
/// its levels and the final palette.
pub open spec fn assemble_night(
    night: Option<SourceView>,
    palette: Seq<char>,
    size: (usize, usize),
) -> Result<(Option<Seq<u8>>, Seq<char>), TextureError> {
    match night {
        None => Ok((None, palette)),
        Some(SourceView::Ascii(s)) => {
            if !image_indexable(palette, s) {
                Err(index_error(s))
            } else if !same_size(image_size(s), size) {
                Err(TextureError::NightSizeMismatch)
            } else {
                Ok((Some(spec_image_levels(palette, s)), image_palette(palette, s)))
            }
        },
        Some(SourceView::Baked(b)) => {
            if b.palette != palette {
                Err(TextureError::NightPaletteMismatch)
            } else if b.size != size {
                Err(TextureError::NightSizeMismatch)
            } else {
                Ok((Some(b.levels), palette))
            }
        },
    }
}

/// The texture its day and night images give. Ascii images share one
/// palette; a baked night image must arrive with the day palette and size.
pub open spec fn spec_assemble(
    day: SourceView,
    night: Option<SourceView>,
    palette: Seq<char>,
) -> Result<TextureView, TextureError> {
    match assemble_day(day, palette) {
        Err(e) => Err(e),
        Ok((levels, p1, size)) => match assemble_night(night, p1, size) {
            Err(e) => Err(e),
            Ok((n, p2)) => Ok(TextureView { day: levels, night: n, palette: p2, size }),
        },
    }
}

/// Builds a texture from its day and night images. Ascii images share one
/// palette; a baked night image must arrive with the same palette and size.
pub fn assemble(day: ImageSource, night: Option<ImageSource>, palette: Option<Vec<char>>) -> (r:
    Result<Texture, TextureError>)
    ensures
        match r {
            Ok(t) => spec_assemble(day@, source_opt_view(night), palette_opt_view(palette)) == Ok::<
                TextureView,
                TextureError,
            >(t@),
            Err(e) => spec_assemble(day@, source_opt_view(night), palette_opt_view(palette)) == Err::<
                TextureView,
                TextureError,
            >(e),
        },
{
    let ghost p0 = palette_opt_view(palette);
    let (day_levels, mut pal, size) = match day {
        ImageSource::Ascii(image) => {
            let mut pal = match palette {
                Some(p) => p,
                None => Vec::new(),
            };
            proof {
                if image_fits_memory(image@) {
                    lemma_ascii_texture_well_formed(p0, image@);
                }
            }
            match index_image(image.as_str(), &mut pal) {
                Ok((levels, size)) => (Levels::Owned(levels), pal, size),
                Err(e) => {
                    return Err(e);
                },
            }
        },
        ImageSource::Baked(b) => {
            let l = b.levels();
            (Levels::Borrowed(l), b.palette_owned(), b.size())
        },
    };
    assert(day_levels@.len() == size.0 * size.1);
    let ghost p1 = pal@;
    let night_levels = match night {
        None => None,
        Some(ImageSource::Ascii(image)) => {
            match index_image(image.as_str(), &mut pal) {
                Ok((levels, night_size)) => {
                    if night_size.0 != size.0 || night_size.1 != size.1 {
                        return Err(TextureError::NightSizeMismatch);
                    }
                    proof {
                        lemma_ascii_texture_well_formed(p1, image@);
                    }
                    Some(Levels::Owned(levels))
                },
                Err(e) => {
                    return Err(e);
                },
            }
        },
        Some(ImageSource::Baked(b)) => {
            match check_baked_night(&b, pal.as_slice(), size) {
                Some(e) => {
                    return Err(e);
                },
                None => {},
            }
            let l = b.levels();
            Some(Levels::Borrowed(l))
        },
    };
    Ok(Texture { day: day_levels, night: night_levels, palette: pal, size })
}

/// The day and night images a configuration resolves to. An explicit day
/// image replaces the whole template (a custom map blended with a built-in
/// night side would mix two unrelated palettes and sizes); otherwise the
/// template supplies the day map and, unless one is given, the night map.
pub open spec fn resolve_sources(
    template: Option<(BakedView, Option<BakedView>)>,
    day: Option<SourceView>,
    night: Option<SourceView>,
) -> (Option<SourceView>, Option<SourceView>) {
    match template {
        Some((td, tn)) if day is None => (
            Some(SourceView::Baked(td)),
            if night is None {
                match tn {
                    Some(n) => Some(SourceView::Baked(n)),
                    None => None,
                }
            } else {
                night
            },
        ),
        _ => (day, night),
    }
}

/// The texture a configuration builds: with no day image the night image
/// shows on both sides, and with neither there is no texture.
pub open spec fn spec_build_texture(
    template: Option<(BakedView, Option<BakedView>)>,
    day: Option<SourceView>,
    night: Option<SourceView>,
    palette: Seq<char>,
) -> Result<TextureView, TextureError> {
    match resolve_sources(template, day, night) {
        (Some(d), n) => spec_assemble(d, n, palette),
        (None, Some(n)) => spec_assemble(n, Some(n), palette),
        (None, None) => Err(TextureError::NoTexture),
    }
}

/// The view of an optional template map pair.
pub open spec fn template_opt_view(o: Option<(Baked, Option<Baked>)>) -> Option<
    (BakedView, Option<BakedView>),
> {
    match o {
        Some((d, n)) => Some(
            (
                d@,
                match n {
                    Some(n) => Some(n@),
                    None => None,
                },
            ),
        ),
        None => None,
    }
}

/// Builds the texture of a globe configuration from the template's baked
/// maps (if a template was chosen) and the explicitly given images.
pub fn build_texture(
    template: Option<(Baked, Option<Baked>)>,
    day: Option<ImageSource>,
    night: Option<ImageSource>,
    palette: Option<Vec<char>>,
) -> (r: Result<Texture, TextureError>)
    ensures
        match r {
            Ok(t) => spec_build_texture(
                template_opt_view(template),
                source_opt_view(day),
                source_opt_view(night),
                palette_opt_view(palette),
            ) == Ok::<TextureView, TextureError>(t@),
            Err(e) => spec_build_texture(
                template_opt_view(template),
                source_opt_view(day),
                source_opt_view(night),
                palette_opt_view(palette),
            ) == Err::<TextureView, TextureError>(e),
        },
{
    let (day, night) = match template {
        Some((td, tn)) => {
            if day.is_none() {
                let night = match night {
                    None => match tn {
                        Some(n) => Some(ImageSource::Baked(n)),
                        None => None,
                    },
                    Some(n) => Some(n),
                };
                (Some(ImageSource::Baked(td)), night)
            } else {
                (day, night)
            }
        },
        None => (day, night),
    };
    match (day, night) {
        (Some(d), n) => assemble(d, n, palette),
        (None, Some(n)) => {
            let d = n.clone();
            assemble(d, Some(n), palette)
        },
        (None, None) => Err(TextureError::NoTexture),
    }
}

/// An explicit day image replaces the whole template: the template's maps,
/// night side included, play no part.
pub proof fn lemma_day_image_replaces_template(
    template: (BakedView, Option<BakedView>),
    day: SourceView,
    night: Option<SourceView>,
    palette: Seq<char>,
)
    ensures
        spec_build_texture(Some(template), Some(day), night, palette) == spec_build_texture(
            None,
            Some(day),
            night,
            palette,
        ),
{
}

/// With a template and no day image, an explicitly given night image is
/// the night side: the texture is the template's day map assembled with
/// that image, whatever night map the template carries (its night map only
/// fills in when no night image is given).
pub proof fn lemma_explicit_night_is_kept(
    template: (BakedView, Option<BakedView>),
    night: SourceView,
    palette: Seq<char>,
)
    ensures
        spec_build_texture(Some(template), None, Some(night), palette) == spec_assemble(
            SourceView::Baked(template.0),
            Some(night),
            palette,
        ),
        spec_build_texture(Some(template), None, Some(night), palette) matches Ok(t) ==> {
            &&& night matches SourceView::Baked(b) ==> t.night == Some(b.levels)
            &&& night matches SourceView::Ascii(a) ==> t.night == Some(
                spec_image_levels(template.0.palette, a),
            )
        },
{
}

/// With a template and no images given, the texture is the template's day
/// map with its night map, if it has one.
pub proof fn lemma_template_alone(
    template: (BakedView, Option<BakedView>),
    palette: Seq<char>,
)
    ensures
        spec_build_texture(Some(template), None, None, palette) == spec_assemble(
            SourceView::Baked(template.0),
            match template.1 {
                Some(n) => Some(SourceView::Baked(n)),
                None => None,
            },
            palette,
        ),
{
}

/// Only a template with a night map gives a night side on its own: a body
/// without one builds a texture with no night side, so the night switch
/// changes nothing for it, while a night map always yields one.
pub proof fn lemma_template_night_side(
    day: BakedView,
    night: Option<BakedView>,
    palette: Seq<char>,
)
    ensures
        spec_build_texture(Some((day, night)), None, None, palette) matches Ok(t) ==> (t.night
            is Some <==> night is Some),
{
}

} // verus!
