//! Scenarios for the library's contracts and laws on concrete values.
use globe::baked::Baked;
use globe::canvas::window_canvas;
use globe::diff::change_runs;
use globe::sky::SkyStar;
use globe::dither::{bayer_rank, dot_bit, dot_mask};
use globe::image::{find_index, split_lines, index_image};
use globe::ramp::{fade, ramp_idx};
use globe::sky::{
    band_cell, band_pick, band_star, dust_star, field_cell, field_glyph, field_star, rift_cell, sky_cell, star_coord,
    star_depth, star_glyph, star_hash, star_level,
};
use globe::texture::{assemble, build_texture, ImageSource};
use globe::{fullscreen_canvas, glyph_for, Canvas, GidxError, GlobeTemplate, Glyph, Texture, TextureError};

fn leak(bytes: Vec<u8>) -> &'static [u8] {
    Box::leak(bytes.into_boxed_slice())
}

/// A `GIDX1` file of `cols` by `rows` texels with the given palette.
fn gidx(cols: u32, rows: u32, palette: &str, levels: &[u8]) -> &'static [u8] {
    let mut out = b"GIDX1\n".to_vec();
    out.extend_from_slice(&cols.to_le_bytes());
    out.extend_from_slice(&rows.to_le_bytes());
    out.push(palette.len() as u8);
    out.extend_from_slice(palette.as_bytes());
    out.extend_from_slice(levels);
    leak(out)
}

#[test]
fn ramp_indices_follow_the_ramp() {
    assert_eq!(ramp_idx(' '), Some(0));
    assert_eq!(ramp_idx('.'), Some(1));
    assert_eq!(ramp_idx(':'), Some(3));
    assert_eq!(ramp_idx(';'), Some(4));
    assert_eq!(ramp_idx('+'), Some(5));
    assert_eq!(ramp_idx('*'), Some(6));
    assert_eq!(ramp_idx('@'), None);
}

#[test]
fn fade_steps_one_glyph_at_a_time() {
    assert_eq!(fade('*', '*'), '*');
    assert_eq!(fade(' ', '*'), '.');
    assert_eq!(fade('*', ' '), '+');
    assert_eq!(fade('+', ' '), ';');
    assert_eq!(fade(';', ' '), ':');
    assert_eq!(fade(':', ' '), '.');
    assert_eq!(fade('.', ' '), ' ');
}

#[test]
fn fade_into_sky_from_a_globe_glyph_starts_diffuse() {
    assert_eq!(fade('@', ' '), ' ');
    assert_eq!(fade('@', '*'), '+');
    assert_eq!(fade('@', ':'), '.');
    assert_eq!(fade('W', '.'), '.');
}

#[test]
fn fade_reaches_any_target_within_five_frames() {
    for cur in [' ', '.', ':', ';', '+', '*'] {
        for target in [' ', '.', ':', ';', '+', '*'] {
            let mut c = cur;
            for _ in 0..5 {
                c = fade(c, target);
            }
            assert_eq!(c, target, "{cur:?} -> {target:?}");
            assert_eq!(fade(c, target), target);
        }
    }
}

#[test]
fn fade_brightens_through_the_ramp() {
    assert_eq!(fade('.', ':'), ':');
    assert_eq!(fade(fade('.', ':'), ':'), ':');
    assert_eq!(fade('.', '*'), ':');
    assert_eq!(fade(':', '*'), ';');
    assert_eq!(fade(';', '*'), '+');
    assert_eq!(fade('+', '*'), '*');
}

#[test]
fn braille_glyphs_encode_the_dot_mask() {
    assert_eq!(glyph_for(Glyph::Braille, 0), '\u{2800}');
    assert_eq!(glyph_for(Glyph::Braille, 0xff), '\u{28ff}');
    assert_eq!(glyph_for(Glyph::Braille, 0x41) as u32 - 0x2800, 0x41);
}

#[test]
fn half_blocks_read_the_two_low_bits() {
    assert_eq!(glyph_for(Glyph::Half, 0), ' ');
    assert_eq!(glyph_for(Glyph::Half, 1), '\u{2580}');
    assert_eq!(glyph_for(Glyph::Half, 2), '\u{2584}');
    assert_eq!(glyph_for(Glyph::Half, 3), '\u{2588}');
    assert_eq!(glyph_for(Glyph::Half, 0xfd), '\u{2580}');
    assert_eq!(glyph_for(Glyph::Ascii, 3), ' ');
}

#[test]
fn bayer_ranks_tile_every_eight_sub_cells() {
    assert_eq!(bayer_rank(0, 0), 0);
    assert_eq!(bayer_rank(1, 0), 32);
    assert_eq!(bayer_rank(0, 1), 48);
    assert_eq!(bayer_rank(7, 7), 21);
    assert_eq!(bayer_rank(9, 17), bayer_rank(1, 1));
    let mut seen = [false; 64];
    for y in 0..8 {
        for x in 0..8 {
            let r = bayer_rank(x, y) as usize;
            assert!(!seen[r], "rank {r} used twice");
            seen[r] = true;
        }
    }
}

#[test]
fn dot_masks_set_one_bit_per_lit_sample() {
    assert_eq!(dot_bit(0, 3), 0x40);
    assert_eq!(dot_bit(1, 3), 0x80);
    assert_eq!(dot_bit(1, 0), 0x08);
    assert_eq!(dot_mask(&[true; 8], 2, 4), 0xff);
    assert_eq!(dot_mask(&[false; 8], 2, 4), 0);
    // row major samples: (0,0) (1,0) (0,1) (1,1) ...
    assert_eq!(dot_mask(&[false, true, false, false, false, false, true, false], 2, 4), 0x08 | 0x40);
    assert_eq!(dot_mask(&[true, false], 1, 2), 1);
    assert_eq!(dot_mask(&[false, true], 1, 2), 2);
    assert_eq!(dot_mask(&[true], 1, 1), 1);
    assert_eq!(glyph_for(Glyph::Half, dot_mask(&[true, true], 1, 2)), '\u{2588}');
}

/// The hash as the renderer writes it, for comparison.
fn reference_hash(hy: u32, hxz: u32, sx: isize, sz: isize) -> (u32, u32) {
    let mut h: u32 = hy.wrapping_mul(2246822519).wrapping_add(hxz.wrapping_mul(3266489917));
    h = (h ^ (h >> 15)).wrapping_mul(2654435761);
    h ^= h >> 13;
    let depth = (h >> 27) & 3;
    let mut sh: u32 = (sx as u32)
        .wrapping_mul(374761393)
        .wrapping_add((sz as u32).wrapping_mul(668265263))
        .wrapping_add(depth.wrapping_mul(2246822519));
    sh = (sh ^ (sh >> 13)).wrapping_mul(1274126177);
    sh ^= sh >> 16;
    (depth, sh)
}

#[test]
fn star_hashes_match_the_field() {
    for (hy, hxz, sx, sz) in [(0u32, 0u32, 0isize, 0isize), (997, 571, -40, 12), (u32::MAX, 12345, 99999, -99999)] {
        let (depth, sh) = reference_hash(hy, hxz, sx, sz);
        assert_eq!(star_depth(hy, hxz), depth);
        assert!(depth < 4);
        assert_eq!(star_hash(sx, sz, depth), sh);
    }
}

#[test]
fn star_coordinates_shift_toward_zero() {
    assert_eq!(star_coord(10, 8, 0), 12);
    assert_eq!(star_coord(10, -7, 0), 9);
    assert_eq!(star_coord(10, -7, 3), 3);
    assert_eq!(star_coord(-5, 7, 1), -2);
}

#[test]
fn sky_cells_decide_their_stars() {
    // rift: r = sh % 1000; a star iff r % 10 < 7 and r < 90
    assert!(dust_star(1_000_012));
    assert!(!dust_star(18));
    assert!(!dust_star(95));
    assert_eq!(band_pick(7 << 9), 0);
    assert_eq!(band_pick(9 << 9), 2);
    // clamped to the ramp, core star, fill
    assert_eq!(band_star(100, 9, false), Some(6));
    assert_eq!(band_star(13 * 10, 5, true), Some(6));
    assert_eq!(band_star(131, 5, true), Some(5));
    assert_eq!(band_star(300, 3, false), None);
    assert_eq!(band_star(300, 3, true), Some(3));
    // sparse field
    assert_eq!(field_star(29, 0), Some(0));
    assert_eq!(field_star(30, 0), None);
    let sh: u32 = (12 << 24) + 418;
    assert_eq!(sh % 1000, 10);
    assert_eq!(field_star(sh, 3), Some(12));
    assert_eq!(field_star(sh + 40, 3), Some(12));
    assert_eq!(field_star(sh + 40, 2), None);
    assert_eq!(field_glyph(3, 0), '.');
    assert_eq!(field_glyph(9, 0), ':');
    assert_eq!(field_glyph(10, 0), ';');
    assert_eq!(field_glyph(11, 0), '+');
    assert_eq!(field_glyph(12, 1), '*');
    assert_eq!(field_glyph(12, 2), ':');
}

#[test]
fn sky_cells_pick_rift_band_or_field() {
    // inside the dust lane of the core: the rift keeps a few faint stars
    assert_eq!(sky_cell(1_000_012, 0, true, true, true, 9), SkyStar::Dust);
    assert_eq!(sky_cell(18, 0, true, true, true, 9), SkyStar::Blank);
    // the dust lane only cuts through the core
    assert_eq!(sky_cell(300, 0, true, false, true, 3), SkyStar::Blank);
    assert_eq!(sky_cell(300, 0, true, true, false, 3), SkyStar::Band(3));
    assert_eq!(sky_cell(100, 0, true, false, false, 9), SkyStar::Band(6));
    // off the milky way the tier is not read
    assert_eq!(sky_cell(29, 0, false, false, false, 9), SkyStar::Field(0));
    assert_eq!(sky_cell(30, 0, false, true, true, 9), SkyStar::Blank);
}

#[test]
fn lines_split_like_str_lines() {
    for text in ["", "a", "a\n", "a\r\nb", "a\r", "\n\nx\r\n", "ab\r\ncd\r\n", "x\ry\n"] {
        let chars: Vec<char> = text.chars().collect();
        let lines = split_lines(&chars);
        let expected: Vec<Vec<char>> = text.lines().map(|l| l.chars().collect()).collect();
        assert_eq!(lines, expected, "{text:?}");
    }
}

#[test]
fn palette_lookup_finds_the_first_occurrence() {
    assert_eq!(find_index('b', &['a', 'b', 'b']), Some(1));
    assert_eq!(find_index('z', &['a', 'b']), None);
    assert_eq!(find_index('a', &[]), None);
}

#[test]
fn ascii_images_index_mirrored_rows_padded_with_level_zero() {
    let texture = Texture::from_ascii("ab\nabc", None).unwrap();
    assert_eq!(texture.day(), &[0, 1, 0, 2, 0, 1]);
    assert!(texture.night().is_none());
    // an explicit palette is kept in front
    let texture = Texture::from_ascii("xy", Some(vec!['y', ' '])).unwrap();
    assert_eq!(texture.palette(), &['y', ' ', 'x']);
    assert_eq!(texture.day(), &[0, 2]);
    assert_eq!(texture.size(), (2, 1));
}

#[test]
fn ascii_images_render_as_written() {
    let image = "  .:\n;+*@\nab";
    let texture = Texture::from_ascii(image, None).unwrap();
    let (cols, rows) = texture.size();
    for (y, line) in image.lines().enumerate() {
        let line: Vec<char> = line.chars().collect();
        for x in 0..cols {
            let level = texture.day()[y * cols + x] as usize;
            if x < line.len() {
                assert_eq!(texture.palette()[level], line[line.len() - 1 - x]);
            } else {
                assert_eq!(level, 0);
            }
        }
    }
    assert_eq!(rows, 3);
}

#[test]
fn crlf_images_drop_the_carriage_return() {
    let texture = Texture::from_ascii("ab\r\ncd\r\n", None).unwrap();
    assert_eq!(texture.size(), (2, 2));
    assert!(!texture.palette().contains(&'\r'));
}

#[test]
fn night_images_share_the_palette_and_size() {
    let mut texture = Texture::from_ascii("ab\ncd", None).unwrap();
    texture.set_night_ascii("de\nfa").unwrap();
    assert_eq!(texture.palette(), &['b', 'a', 'd', 'c', 'e', 'f']);
    assert_eq!(texture.night(), Some(&[4u8, 2, 1, 5][..]));
    assert_eq!(texture.day(), &[0, 1, 2, 3]);
}

#[test]
fn a_refused_night_image_leaves_the_texture_alone() {
    let mut texture = Texture::from_ascii("ab", None).unwrap();
    assert_eq!(texture.set_night_ascii("xyz"), Err(TextureError::NightSizeMismatch));
    assert_eq!(texture.palette(), &['b', 'a']);
    assert!(texture.night().is_none());
}

fn distinct_glyphs(n: u32) -> String {
    (0..n).map(|i| char::from_u32(0x100 + i).unwrap()).collect()
}

#[test]
fn palettes_hold_at_most_255_glyphs() {
    let mut palette = Vec::new();
    assert!(index_image(&distinct_glyphs(255), &mut palette).is_ok());
    assert_eq!(palette.len(), 255);
    let mut palette = Vec::new();
    assert_eq!(
        index_image(&distinct_glyphs(256), &mut palette).err(),
        Some(TextureError::PaletteOverflow)
    );
    assert!(palette.is_empty());
    // a full 256-glyph starting palette is fine while nothing is appended
    let mut palette: Vec<char> = distinct_glyphs(256).chars().collect();
    let (levels, size) = index_image(&distinct_glyphs(3), &mut palette).unwrap();
    assert_eq!(size, (3, 1));
    assert_eq!(levels, vec![2, 1, 0]);
    // but its last glyph still renders as written
    let glyph = palette[255];
    let texture = Texture::from_ascii(&glyph.to_string(), Some(palette.clone())).unwrap();
    assert_eq!(texture.palette()[texture.day()[0] as usize], glyph);
}

#[test]
fn long_palettes_serve_images_that_use_their_first_256_glyphs() {
    let big: Vec<char> = distinct_glyphs(300).chars().collect();
    // every glyph used sits below index 256: the image indexes as written
    let image: String = [big[255], big[0], big[7]].iter().collect();
    let texture = Texture::from_ascii(&image, Some(big.clone())).unwrap();
    assert_eq!(texture.size(), (3, 1));
    assert_eq!(texture.day(), &[7, 0, 255]);
    assert_eq!(texture.palette(), &big[..]);
    let t = assemble(ImageSource::Ascii(image.clone()), Some(ImageSource::Ascii(image.clone())), Some(big.clone()))
        .unwrap();
    assert_eq!(t.size(), (3, 1));
    assert_eq!(t.night(), Some(&[7u8, 0, 255][..]));
    // a glyph at index 256 has no level byte
    let mut palette = big.clone();
    assert_eq!(
        index_image(&big[256].to_string(), &mut palette).err(),
        Some(TextureError::PaletteOverflow)
    );
    assert_eq!(palette, big);
    // nor can such a palette take a new glyph
    assert_eq!(
        Texture::from_ascii("\u{1}", Some(big.clone())).err(),
        Some(TextureError::PaletteOverflow)
    );
}

#[test]
fn baked_images_parse_in_place() {
    let data = gidx(3, 2, " .@", &[0, 1, 2, 2, 1, 0]);
    let baked = Baked::parse(data).unwrap();
    assert_eq!(baked.size(), (3, 2));
    assert_eq!(baked.palette(), &[' ', '.', '@']);
    assert_eq!(baked.levels(), &[0, 1, 2, 2, 1, 0]);
    // trailing bytes are not texels
    let longer = gidx(1, 1, "x", &[0, 9, 9]);
    assert_eq!(Baked::parse(longer).unwrap().levels(), &[0]);
}

#[test]
fn malformed_baked_images_are_refused() {
    assert_eq!(Baked::parse(leak(b"GIDX2\n........".to_vec())).err(), Some(GidxError::BadMagic));
    assert_eq!(Baked::parse(leak(b"GIDX1\n".to_vec())).err(), Some(GidxError::BadMagic));
    assert_eq!(Baked::parse(gidx(2, 2, "ab", &[0, 1, 0])).err(), Some(GidxError::Truncated));
    assert_eq!(Baked::parse(gidx(0, 2, "ab", &[])).err(), Some(GidxError::Truncated));
    assert_eq!(Baked::parse(gidx(1, 1, "", &[0])).err(), Some(GidxError::Truncated));
    assert_eq!(Baked::parse(gidx(u32::MAX, u32::MAX, "a", &[0])).err(), Some(GidxError::Truncated));
    assert_eq!(GidxError::BadMagic.message(), "not a GIDX1 texture");
    assert_eq!(GidxError::Truncated.message(), "truncated GIDX1 texture");
}

#[test]
fn baked_textures_borrow_day_and_night() {
    let day = Baked::parse(gidx(2, 1, "ab", &[0, 1])).unwrap();
    let night = Baked::parse(gidx(2, 1, "ab", &[1, 1])).unwrap();
    let texture = Texture::from_baked(&day, Some(&night)).unwrap();
    assert_eq!(texture.day(), &[0, 1]);
    assert_eq!(texture.night(), Some(&[1u8, 1][..]));
    let odd = Baked::parse(gidx(2, 1, "ba", &[1, 1])).unwrap();
    let small = Baked::parse(gidx(1, 1, "ab", &[1])).unwrap();
    assert_eq!(Texture::from_baked(&day, Some(&odd)).err(), Some(TextureError::NightPaletteMismatch));
    assert_eq!(Texture::from_baked(&day, Some(&small)).err(), Some(TextureError::NightSizeMismatch));
    let mut texture = Texture::from_baked(&day, None).unwrap();
    assert_eq!(texture.set_baked_night(small), Err(TextureError::NightSizeMismatch));
    assert!(texture.night().is_none());
    assert!(texture.night().is_none());
    texture.set_baked_night(night.clone()).unwrap();
    assert_eq!(texture.night(), Some(&[1u8, 1][..]));
}

#[test]
fn assembling_checks_the_night_image() {
    let day = Baked::parse(gidx(2, 1, "ab", &[0, 1])).unwrap();
    let other_palette = Baked::parse(gidx(2, 1, "ba", &[0, 1])).unwrap();
    let other_size = Baked::parse(gidx(1, 1, "ab", &[0])).unwrap();
    let r = assemble(ImageSource::Baked(day.clone()), Some(ImageSource::Baked(other_palette)), None);
    assert_eq!(r.err(), Some(TextureError::NightPaletteMismatch));
    let r = assemble(ImageSource::Baked(day.clone()), Some(ImageSource::Baked(other_size)), None);
    assert_eq!(r.err(), Some(TextureError::NightSizeMismatch));
    let r = assemble(ImageSource::Baked(day.clone()), Some(ImageSource::Ascii("xy".to_string())), None);
    let texture = r.unwrap();
    assert_eq!(texture.palette(), &['a', 'b', 'y', 'x']);
    assert_eq!(texture.night(), Some(&[2u8, 3][..]));
    let r = assemble(ImageSource::Ascii("ab".to_string()), Some(ImageSource::Ascii("abc".to_string())), None);
    assert_eq!(r.err(), Some(TextureError::NightSizeMismatch));
    let r = assemble(ImageSource::Ascii(distinct_glyphs(256)), None, None);
    assert_eq!(r.err(), Some(TextureError::PaletteOverflow));
}

#[test]
fn building_a_texture_resolves_template_and_images() {
    let map = Baked::parse(gidx(2, 1, "ab", &[0, 1])).unwrap();
    let night = Baked::parse(gidx(2, 1, "ab", &[1, 0])).unwrap();
    // neither
    assert_eq!(build_texture(None, None, None, None).err(), Some(TextureError::NoTexture));
    // the template supplies both sides
    let t = build_texture(Some((map.clone(), Some(night.clone()))), None, None, None).unwrap();
    assert_eq!(t.day(), &[0, 1]);
    assert_eq!(t.night(), Some(&[1u8, 0][..]));
    // an explicit day map replaces the whole template
    let t = build_texture(
        Some((map.clone(), Some(night.clone()))),
        Some(ImageSource::Ascii("zz".to_string())),
        None,
        None,
    )
    .unwrap();
    assert_eq!(t.palette(), &['z']);
    assert!(t.night().is_none());
    // night only: the day side shows the same image
    let t = build_texture(None, None, Some(ImageSource::Ascii("pq".to_string())), None).unwrap();
    assert_eq!(t.day(), &[0, 1]);
    assert_eq!(t.night(), Some(&[0u8, 1][..]));
    // an explicit palette applies to ascii images
    let t = build_texture(None, Some(ImageSource::Ascii("q".to_string())), None, Some(vec!['q'])).unwrap();
    assert_eq!(t.palette(), &['q']);
}

#[test]
fn texture_errors_carry_their_messages() {
    assert_eq!(
        TextureError::NightSizeMismatch.message(),
        "night texture must match the day texture size"
    );
    assert_eq!(
        TextureError::NightPaletteMismatch.message(),
        "day and night textures need the same palette"
    );
    assert_eq!(TextureError::NoTexture.message(), "texture not provided");
    assert_eq!(TextureError::PaletteOverflow.message(), "palette overflow");
    assert_eq!(TextureError::ImageTooLarge.message(), "texture image too large");
}

#[test]
fn canvases_are_blank_cell_grids() {
    let mut canvas = Canvas::new(4, 3, None);
    assert_eq!(canvas.get_size(), (4, 3));
    assert_eq!(canvas.char_pix, (4, 8));
    assert!(canvas.matrix.iter().all(|c| *c == ' '));
    canvas.draw(1, 2, '*', false);
    assert_eq!(canvas.row(2), &[' ', '*', ' ', ' ']);
    assert_eq!(canvas.matrix[2 * 4 + 1], '*');
    canvas.draw(1, 2, ' ', true);
    assert_eq!(canvas.row(2)[1], '+');
    canvas.clear();
    assert!(canvas.matrix.iter().all(|c| *c == ' '));
    assert_eq!(Canvas::new(2, 2, Some((10, 20))).char_pix, (10, 20));
    assert_eq!(Canvas::new(0, 5, None).matrix.len(), 0);
}

#[test]
fn terminal_canvases_fit_the_screen() {
    assert_eq!(fullscreen_canvas((80, 24)).get_size(), (80, 24));
    assert_eq!(window_canvas((120, 30)).get_size(), (60, 30));
    assert_eq!(window_canvas((40, 50)).get_size(), (40, 20));
    assert_eq!(window_canvas((1, 5)).get_size(), (1, 1));
    assert_eq!(window_canvas((3, 3)).get_size(), (3, 1));
}

#[test]
fn only_earth_names_a_night_map() {
    for t in GlobeTemplate::ALL {
        let (day, night) = t.maps();
        assert!(day.starts_with(t.name()));
        assert_eq!(night.is_some(), t == GlobeTemplate::Earth);
    }
    assert_eq!(GlobeTemplate::Earth.maps(), ("earth_hd.gidx", Some("earth_night_hd.gidx")));
    assert_eq!(GlobeTemplate::from_name("pluto"), None);
}

#[test]
fn changed_cells_batch_into_maximal_runs() {
    let prev: Vec<char> = "abcdefgh".chars().collect();
    let row: Vec<char> = "aXYdeZgW".chars().collect();
    assert_eq!(change_runs(&row, &prev), vec![(1, 3), (5, 6), (7, 8)]);
    assert_eq!(change_runs(&prev, &prev), vec![]);
    let all: Vec<char> = "ABCDEFGH".chars().collect();
    assert_eq!(change_runs(&all, &prev), vec![(0, 8)]);
    assert_eq!(change_runs(&[], &[]), vec![]);
}

#[test]
fn sky_cells_look_alike_in_every_alphabet() {
    let cells = [
        SkyStar::Blank,
        SkyStar::Dust,
        SkyStar::Band(0),
        SkyStar::Band(3),
        SkyStar::Band(6),
        SkyStar::Field(0),
        SkyStar::Field(9),
        SkyStar::Field(10),
        SkyStar::Field(11),
        SkyStar::Field(12),
    ];
    for star in cells {
        for depth in 0..4 {
            assert_eq!(star_glyph(star, depth) == ' ', star_level(star) == 0, "{star:?}");
        }
    }
    assert_eq!(star_level(SkyStar::Dust), 12);
    assert_eq!(star_level(SkyStar::Band(3)) as f32 / 60., 3. / 6.);
    assert_eq!(star_level(SkyStar::Field(11)) as f32 / 60., 0.95);
    assert_eq!(star_glyph(SkyStar::Band(4), 0), ';');
    assert_eq!(star_glyph(SkyStar::Field(12), 3), ':');
    assert_eq!(rift_cell(1_000_012), SkyStar::Dust);
    assert_eq!(band_cell(300, 3, false), SkyStar::Blank);
    assert_eq!(field_cell(29, 0), SkyStar::Field(0));
}
