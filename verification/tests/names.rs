use dualcut_engine::color::{argb_channels, parse_color};
use dualcut_engine::hash::fxhash;
use dualcut_engine::text::{decimal_string, same_text};
use dualcut_engine::thumbs::thumbnail_file_name;
use dualcut_engine::vector::{shape_file_name, ShapeKind};

#[test]
fn fxhash_of_empty_text_is_the_offset_basis() {
    assert_eq!(fxhash(""), 0xcbf29ce484222325);
}

#[test]
fn fxhash_matches_known_fnv1a_values() {
    assert_eq!(fxhash("a"), 0xaf63dc4c8601ec8c);
    assert_eq!(fxhash("foobar"), 0x85944171f73967e8);
}

#[test]
fn fxhash_hashes_utf8_bytes() {
    // "é" is the two bytes 0xc3 0xa9.
    let mut h: u64 = 0xcbf29ce484222325;
    for b in [0xc3u8, 0xa9] {
        h ^= b as u64;
        h = h.wrapping_mul(0x100000001b3);
    }
    assert_eq!(fxhash("é"), h);
}

#[test]
fn thumbnail_name_is_sixteen_hex_digits_of_the_hash() {
    assert_eq!(thumbnail_file_name("a"), "thumb-af63dc4c8601ec8c.png");
    assert_eq!(thumbnail_file_name(""), "thumb-cbf29ce484222325.png");
    let name = thumbnail_file_name("file:///tmp/clip.mp4");
    assert_eq!(name.len(), 26);
    assert_eq!(name, format!("thumb-{:016x}.png", fxhash("file:///tmp/clip.mp4")));
}

#[test]
fn thumbnail_name_pads_small_hashes_with_zeros() {
    // Whatever the URI, the hex part is exactly sixteen digits.
    for uri in ["x", "file:///a", "https://example.com/v.webm"] {
        let name = thumbnail_file_name(uri);
        let hex = &name[6..22];
        assert_eq!(hex.len(), 16);
        assert!(hex.chars().all(|c| c.is_ascii_hexdigit() && !c.is_ascii_uppercase()));
    }
}

#[test]
fn decimal_rendering_matches_display() {
    for n in [0u64, 7, 10, 99, 100, 4294967295, u64::MAX] {
        assert_eq!(decimal_string(n), n.to_string());
    }
}

#[test]
fn same_text_compares_characters() {
    assert!(same_text("/project", "/project"));
    assert!(!same_text("/project", "/projects"));
    assert!(!same_text("/status", "/statuz"));
    assert!(same_text("", ""));
}

#[test]
fn shape_name_lists_kind_fill_size_feather() {
    assert_eq!(
        shape_file_name(ShapeKind::Rect, "#ff0000", 64, 32, "0", false),
        "shape-Rect-ff0000-64x32-f0.png"
    );
    assert_eq!(
        shape_file_name(ShapeKind::Circle, "#0000ff", 60, 60, "8", true),
        "shape-Circle-0000ff-60x60-f8-inv.png"
    );
}

#[test]
fn shape_name_drops_every_leading_hash() {
    assert_eq!(
        shape_file_name(ShapeKind::Star, "##12#3456", 32, 32, "0", false),
        "shape-Star-12#3456-32x32-f0.png"
    );
    assert_eq!(
        shape_file_name(ShapeKind::Line, "abc", 1, 2, "1.5", false),
        "shape-Line-abc-1x2-f1.5.png"
    );
}

#[test]
fn every_kind_has_its_debug_name() {
    for kind in [
        ShapeKind::Rect,
        ShapeKind::Circle,
        ShapeKind::Ellipse,
        ShapeKind::Star,
        ShapeKind::Polygon,
        ShapeKind::Line,
        ShapeKind::Arrow,
    ] {
        assert_eq!(kind.label(), format!("{kind:?}"));
    }
}

#[test]
fn distinct_kinds_sizes_and_inversion_give_distinct_names() {
    let rect = shape_file_name(ShapeKind::Rect, "#ffffff", 32, 32, "0", false);
    let circle = shape_file_name(ShapeKind::Circle, "#ffffff", 32, 32, "0", false);
    let wide = shape_file_name(ShapeKind::Rect, "#ffffff", 321, 2, "0", false);
    let tall = shape_file_name(ShapeKind::Rect, "#ffffff", 32, 12, "0", false);
    let inverted = shape_file_name(ShapeKind::Rect, "#ffffff", 32, 32, "0", true);
    assert_ne!(rect, circle);
    assert_ne!(wide, tall);
    assert_ne!(rect, inverted);
    assert_eq!(rect, shape_file_name(ShapeKind::Rect, "#ffffff", 32, 32, "0", false));
}

#[test]
fn colours_parse_to_packed_argb() {
    assert_eq!(parse_color("#ff0000"), 0xffff0000);
    assert_eq!(parse_color("00ff00"), 0xff00ff00);
    assert_eq!(parse_color("#ABCDEF"), 0xffabcdef);
    assert_eq!(parse_color("#11223344"), 0x44112233);
}

#[test]
fn text_that_is_not_a_colour_is_opaque_white() {
    assert_eq!(parse_color("red"), 0xffffffff);
    assert_eq!(parse_color("#12345"), 0xffffffff);
    assert_eq!(parse_color("#12345g"), 0xffffffff);
    assert_eq!(parse_color(""), 0xffffffff);
    assert_eq!(parse_color("##123456"), 0xffffffff);
}

#[test]
fn argb_splits_into_rgba_bytes() {
    assert_eq!(argb_channels(0x80112233), (0x11, 0x22, 0x33, 0x80));
    assert_eq!(argb_channels(parse_color("#123456")), (0x12, 0x34, 0x56, 0xff));
}

#[test]
fn fxhash_continues_over_appended_text() {
    let s = "file:///media/";
    let t = "clip-é.mp4";
    let continued = t
        .bytes()
        .fold(fxhash(s), |h, b| (h ^ b as u64).wrapping_mul(0x100000001b3));
    assert_eq!(fxhash(&format!("{s}{t}")), continued);
}

#[test]
fn fill_and_feather_also_tell_cache_files_apart() {
    let a = shape_file_name(ShapeKind::Rect, "#ff0000", 32, 32, "0", false);
    let b = shape_file_name(ShapeKind::Rect, "#ff0001", 32, 32, "0", false);
    let c = shape_file_name(ShapeKind::Rect, "#ff0000", 32, 32, "8", false);
    let d = shape_file_name(ShapeKind::Circle, "#00ff00", 60, 40, "2.5", true);
    assert_ne!(a, b);
    assert_ne!(a, c);
    assert_ne!(a, d);
    // Leading '#' characters are not part of the name.
    assert_eq!(a, shape_file_name(ShapeKind::Rect, "ff0000", 32, 32, "0", false));
}
