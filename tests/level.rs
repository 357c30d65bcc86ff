use colorbubble::fixed::{IVec2, UVec2, Vec2};
use colorbubble::level::{Level, LevelError, Rect, URect};
use std::io::Cursor;

const SOLID: [u8; 4] = [255, 255, 255, 255];
const HAZARD: [u8; 4] = [0, 0, 100, 255];
const ENTRY: [u8; 4] = [0, 99, 0, 255];
const PORTAL: [u8; 4] = [0, 98, 0, 255];

/// Encodes a PNG of `w` by `h` pixels; `pixels` gives (x, row from the top, colour).
fn png(w: u32, h: u32, pixels: &[(u32, u32, [u8; 4])]) -> Vec<u8> {
    let mut img = image::RgbaImage::new(w, h);
    for &(x, y, c) in pixels {
        img.put_pixel(x, y, image::Rgba(c));
    }
    let mut buf = Cursor::new(Vec::new());
    img.write_to(&mut buf, image::ImageFormat::Png).unwrap();
    buf.into_inner()
}

fn sample_level() -> std::sync::Arc<Level> {
    // 4 by 3; image row 2 is the level's bottom row (y = 0).
    let bytes = png(
        4,
        3,
        &[(0, 2, SOLID), (3, 2, HAZARD), (1, 0, ENTRY), (2, 1, PORTAL), (1, 1, SOLID)],
    );
    Level::load_from_binary(&bytes).unwrap()
}

#[test]
fn load_classifies_marker_pixels_bottom_up() {
    let level = sample_level();
    assert_eq!(level.size, UVec2 { x: 4, y: 3 });
    assert_eq!(level.extent(), UVec2 { x: 4, y: 3 });
    assert!(level.is_hit(IVec2 { x: 0, y: 0 }));
    assert!(level.is_hit(IVec2 { x: 1, y: 1 }));
    assert!(!level.is_hit(IVec2 { x: 0, y: 2 }));
    assert!(level.is_death(IVec2 { x: 3, y: 0 }));
    assert!(!level.is_death(IVec2 { x: 0, y: 0 }));
    assert!(!level.is_death(IVec2 { x: 2, y: 2 }));
    assert!(!level.is_hit(IVec2 { x: 3, y: 0 }));
    assert_eq!(level.entry_point, UVec2 { x: 1, y: 2 });
    assert_eq!(level.portal, UVec2 { x: 2, y: 1 });
}

#[test]
fn load_keeps_image_with_rows_reversed() {
    let level = sample_level();
    assert_eq!(level.image.len(), 4 * 4 * 3);
    // Level pixel (0, 0) is the image's bottom-left pixel.
    assert_eq!(&level.image[0..4], &SOLID);
    // Level pixel (1, 2) is the image's top row.
    let i = 4 * (2 * 4 + 1);
    assert_eq!(&level.image[i..i + 4], &ENTRY);
}

#[test]
fn load_ignores_alpha_of_markers() {
    let bytes = png(2, 1, &[(0, 0, [255, 255, 255, 7]), (1, 0, [0, 0, 100, 0])]);
    let level = Level::load_from_binary(&bytes).unwrap();
    assert!(level.is_hit(IVec2 { x: 0, y: 0 }));
    assert!(level.is_death(IVec2 { x: 1, y: 0 }));
    assert_eq!(&level.image[0..4], &[255, 255, 255, 7]);
}

#[test]
fn load_takes_last_marker_in_scan_order() {
    // Scan order runs bottom row first, left to right.
    let bytes = png(3, 2, &[(0, 0, ENTRY), (2, 1, ENTRY), (1, 1, ENTRY)]);
    let level = Level::load_from_binary(&bytes).unwrap();
    assert_eq!(level.entry_point, UVec2 { x: 0, y: 1 });
    assert_eq!(level.portal, UVec2 { x: 0, y: 0 });
}

#[test]
fn load_rejects_bytes_that_are_no_png() {
    let r = Level::load_from_binary(&[1, 2, 3, 4, 5]);
    assert!(matches!(r, Err(LevelError::Decode(_))));
}

#[test]
fn load_file_tree_loads_all_in_order() {
    let files = vec![png(2, 2, &[(0, 1, SOLID)]), png(5, 1, &[])];
    let levels = Level::load_file_tree(&files).unwrap();
    assert_eq!(levels.len(), 2);
    assert!(levels[0].is_hit(IVec2 { x: 0, y: 0 }));
    assert_eq!(levels[1].extent(), UVec2 { x: 5, y: 1 });
}

#[test]
fn load_file_tree_fails_on_one_bad_file() {
    let files = vec![png(2, 2, &[]), vec![0u8; 10], png(1, 1, &[])];
    assert!(matches!(Level::load_file_tree(&files), Err(LevelError::Decode(_))));
}

#[test]
fn both_negative_is_never_hit_and_always_death() {
    let level = sample_level();
    for p in [IVec2 { x: -1, y: -1 }, IVec2 { x: -100, y: -3 }, IVec2 { x: i64::MIN, y: -1 }] {
        assert!(!level.is_hit(p));
        assert!(level.is_death(p));
    }
}

#[test]
fn outside_map_is_not_hit_but_death() {
    let level = sample_level();
    for p in [IVec2 { x: -1, y: 0 }, IVec2 { x: 0, y: -1 }, IVec2 { x: 4, y: 0 }, IVec2 { x: 0, y: 3 }] {
        assert!(!level.is_hit(p));
        assert!(level.is_death(p));
    }
}

#[test]
fn queries_are_stable() {
    let level = sample_level();
    for x in -2..6 {
        for y in -2..5 {
            let p = IVec2 { x, y };
            assert_eq!(level.is_hit(p), level.is_hit(p));
            assert_eq!(level.is_death(p), level.is_death(p));
            assert!(!(level.is_hit(p) && level.is_death(p)) || !(0..4).contains(&x) || !(0..3).contains(&y));
        }
    }
}

#[test]
fn collision_rectu_tests_covered_pixels() {
    let level = sample_level();
    let r = |a: u32, b: u32, c: u32, d: u32| URect { min: UVec2 { x: a, y: b }, max: UVec2 { x: c, y: d } };
    assert!(level.collision_rectu(r(0, 0, 1, 1)));
    assert!(level.collision_rectu(r(1, 1, 2, 2)));
    assert!(!level.collision_rectu(r(2, 0, 4, 3)));
    assert!(!level.collision_rectu(r(1, 0, 1, 3)));
    assert!(level.collision_rectu(r(1, 1, 100, 100)));
    assert!(!level.collision_rectu(r(5, 5, 100, 100)));
}

#[test]
fn collision_rect_includes_upper_corner_pixel() {
    let level = sample_level();
    // From (0.2, 0.2) to (0.9, 0.8): pixel (0, 0) only.
    let rect = Rect { min: Vec2 { x: 200, y: 200 }, max: Vec2 { x: 900, y: 800 } };
    assert!(level.collision_rect(rect));
    // From (2.5, 0.2) to (0.9, 0.8): the corners are sorted, pixel (1, 0) only.
    let rect = Rect { min: Vec2 { x: 2500, y: 200 }, max: Vec2 { x: 900, y: 800 } };
    assert!(!level.collision_rect(rect));
    let rect = Rect { min: Vec2 { x: 2100, y: 2100 }, max: Vec2 { x: 3900, y: 2900 } };
    assert!(!level.collision_rect(rect));
    let rect = Rect { min: Vec2 { x: -5000, y: -5000 }, max: Vec2 { x: 0, y: 0 } };
    assert!(level.collision_rect(rect));
}
