//! A level: its decoded image, and the collision oracle built from it.
use crate::fixed::{IVec2, UVec2, Vec2, to_pixel_spec};
use crate::raster::{
    decode_png_rgba, gray_dims, gray_get, gray_new, gray_pixels, gray_put, gray_size, png_rgba,
    GrayMap,
};
use std::sync::Arc;
use vstd::arithmetic::div_mod::lemma_fundamental_div_mod_converse;
use vstd::prelude::*;

verus! {

/// Class value of a solid pixel in the collision map.
pub const COLLISION_LUMA: u8 = 255;

/// Class value of a hazard pixel in the collision map.
pub const DEATH_LUMA: u8 = 1;

/// Why a level could not be loaded.
#[derive(Debug)]
pub enum LevelError {
    /// The bytes are no PNG image that the decoder accepts.
    Decode(image::ImageError),
}

/// A level. Pixel `(x, y)` counts `y` from the bottom row.
#[derive(Debug)]
pub struct Level {
    pub size: UVec2,
    /// RGBA bytes, bottom row first.
    pub image: Vec<u8>,
    /// One class per pixel: `COLLISION_LUMA`, `DEATH_LUMA` or 0.
    pub collision_map: GrayMap,
    pub entry_point: UVec2,
    pub portal: UVec2,
}

/// An axis-aligned rectangle in sub-pixel steps.
#[derive(Clone, Copy, Debug, PartialEq, Eq, Structural)]
pub struct Rect {
    pub min: Vec2,
    pub max: Vec2,
}

/// The pixels `min.x <= x < max.x`, `min.y <= y < max.y`.
#[derive(Clone, Copy, Debug, PartialEq, Eq, Structural)]
pub struct URect {
    pub min: UVec2,
    pub max: UVec2,
}

/// The RGB of pixel `i` of RGBA bytes.
pub open spec fn rgb_at(px: Seq<u8>, i: int) -> (u8, u8, u8) {
    (px[4 * i], px[4 * i + 1], px[4 * i + 2])
}

pub open spec fn entry_rgb() -> (u8, u8, u8) {
    (0, 99, 0)
}

pub open spec fn portal_rgb() -> (u8, u8, u8) {
    (0, 98, 0)
}

pub open spec fn death_rgb() -> (u8, u8, u8) {
    (0, 0, 100)
}

pub open spec fn collision_rgb() -> (u8, u8, u8) {
    (255, 255, 255)
}

/// The collision class that a pixel colour stands for.
pub open spec fn class_of(c: (u8, u8, u8)) -> u8 {
    if c == collision_rgb() {
        COLLISION_LUMA
    } else if c == death_rgb() {
        DEATH_LUMA
    } else {
        0
    }
}

/// Index, in rows stored top row first, of the pixel `(x, y)` whose `y`
/// counts from the bottom.
pub open spec fn source_index(w: int, h: int, x: int, y: int) -> int {
    (h - 1 - y) * w + x
}

/// Byte `j` of the image with its rows in reverse order.
pub open spec fn flip_byte(px: Seq<u8>, w: int, h: int, j: int) -> u8 {
    px[4 * source_index(w, h, (j / 4) % w, (j / 4) / w) + j % 4]
}

/// The image with its rows in reverse order.
pub open spec fn flipped(px: Seq<u8>, w: int, h: int) -> Seq<u8> {
    Seq::new((4 * (w * h)) as nat, |j: int| flip_byte(px, w, h, j))
}

proof fn lemma_row_bounds(w: int, h: int, y: int)
    requires
        0 <= y < h,
        0 <= w,
    ensures
        0 <= (h - 1 - y) * w,
        (h - 1 - y) * w + w <= w * h,
        (y + 1) * w == y * w + w,
        y * w + w <= w * h,
{
    assert(0 <= (h - 1 - y) * w) by (nonlinear_arith)
        requires 0 <= y < h, 0 <= w;
    assert((h - 1 - y) * w + w <= w * h) by (nonlinear_arith)
        requires 0 <= y < h, 0 <= w;
    assert((y + 1) * w == y * w + w) by (nonlinear_arith);
    assert(y * w + w <= w * h) by (nonlinear_arith)
        requires 0 <= y < h, 0 <= w;
}

proof fn lemma_pixel_index(w: int, h: int, x: int, y: int)
    requires
        0 <= x < w,
        0 <= y < h,
    ensures
        0 <= source_index(w, h, x, y) < w * h,
        (y * w + x) % w == x,
        (y * w + x) / w == y,
        y * w + x < w * h,
{
    lemma_row_bounds(w, h, y);
    lemma_fundamental_div_mod_converse(y * w + x, w, y, x);
}

/// The last pixel of colour `c` among the first `n` pixels in scan order
/// (bottom row first, left to right), or the origin where there is none.
pub open spec fn last_marker(px: Seq<u8>, w: int, h: int, c: (u8, u8, u8), n: nat) -> UVec2
    decreases n,
{
    if n == 0 {
        UVec2 { x: 0, y: 0 }
    } else {
        let k = n - 1;
        if rgb_at(px, source_index(w, h, k % w, k / w)) == c {
            UVec2 { x: (k % w) as u32, y: (k / w) as u32 }
        } else {
            last_marker(px, w, h, c, (n - 1) as nat)
        }
    }
}

/// The pixel that a point of a rectangle falls on, clamped to `u32`.
pub open spec fn to_upixel_spec(v: Vec2) -> UVec2 {
    let p = to_pixel_spec(v);
    UVec2 {
        x: if p.x < 0 { 0 } else if p.x > u32::MAX { u32::MAX } else { p.x as u32 },
        y: if p.y < 0 { 0 } else if p.y > u32::MAX { u32::MAX } else { p.y as u32 },
    }
}

pub open spec fn succ_sat(v: u32) -> u32 {
    if v == u32::MAX { v } else { (v + 1) as u32 }
}

pub open spec fn min_u32(a: u32, b: u32) -> u32 {
    if a <= b { a } else { b }
}

pub open spec fn max_u32(a: u32, b: u32) -> u32 {
    if a >= b { a } else { b }
}

/// The pixels that a rectangle covers: from the pixel of its lower corner to
/// the pixel of its upper corner, both included.
pub open spec fn covered_pixels(rect: Rect) -> URect {
    let a = to_upixel_spec(rect.min);
    let b = to_upixel_spec(rect.max);
    let b1 = UVec2 { x: succ_sat(b.x), y: succ_sat(b.y) };
    URect {
        min: UVec2 { x: min_u32(a.x, b1.x), y: min_u32(a.y, b1.y) },
        max: UVec2 { x: max_u32(a.x, b1.x), y: max_u32(a.y, b1.y) },
    }
}

/// The bytes decode as a PNG image.
pub open spec fn decodes(bytes: Seq<u8>) -> bool {
    png_rgba(bytes) is Some
}

/// `level` is what loading `bytes` gives.
pub open spec fn loads_as(bytes: Seq<u8>, level: Level) -> bool {
    png_rgba(bytes) matches Some((w, h, px)) && level.loaded_from(w, h, px)
}

/// File `i` is the first that does not decode.
pub open spec fn first_failure(files: Seq<Vec<u8>>, i: int) -> bool {
    &&& 0 <= i < files.len()
    &&& forall|k: int| 0 <= k < i ==> decodes(#[trigger] files[k]@)
    &&& !decodes(files[i]@)
}

impl Level {
    /// `px` holds the decoded RGBA rows of a `w` by `h` image, top row first.
    pub open spec fn loaded_from(self, w: u32, h: u32, px: Seq<u8>) -> bool {
        &&& self.size == (UVec2 { x: w, y: h })
        &&& gray_size(self.collision_map) == (w, h)
        &&& forall|x: u32, y: u32|
            x < w && y < h ==> #[trigger] gray_pixels(self.collision_map)[(x, y)] == class_of(
                rgb_at(px, source_index(w as int, h as int, x as int, y as int)),
            )
        &&& self.image@ == flipped(px, w as int, h as int)
        &&& self.entry_point == last_marker(px, w as int, h as int, entry_rgb(), (w * h) as nat)
        &&& self.portal == last_marker(px, w as int, h as int, portal_rgb(), (w * h) as nat)
    }

    pub open spec fn in_bounds(self, p: IVec2) -> bool {
        0 <= p.x < gray_size(self.collision_map).0 && 0 <= p.y < gray_size(self.collision_map).1
    }

    pub open spec fn class_at(self, p: IVec2) -> u8 {
        gray_pixels(self.collision_map)[(p.x as u32, p.y as u32)]
    }

    /// A solid pixel; nothing outside the map is solid.
    pub open spec fn hit_spec(self, p: IVec2) -> bool {
        self.in_bounds(p) && self.class_at(p) == COLLISION_LUMA
    }

    /// A hazard pixel; everything outside the map is a hazard.
    pub open spec fn death_spec(self, p: IVec2) -> bool {
        (p.x < 0 && p.y < 0) || !self.in_bounds(p) || self.class_at(p) == DEATH_LUMA
    }

    /// Some pixel of `rect` inside the map is solid.
    pub open spec fn rect_hit_spec(self, rect: URect) -> bool {
        exists|x: u32, y: u32|
            rect.min.x <= x < rect.max.x && rect.min.y <= y < rect.max.y
                && #[trigger] self.hit_spec(IVec2 { x: x as i64, y: y as i64 })
    }

    /// Decodes a PNG level: the collision classes come from the marker
    /// colours (alpha ignored), the entry point and portal from the last pixel
    /// of their colour in scan order.
    pub fn load_from_binary(bytes: &[u8]) -> (r: Result<Arc<Level>, LevelError>)
        ensures
            match r {
                Ok(level) => loads_as(bytes@, *level),
                Err(LevelError::Decode(_)) => png_rgba(bytes@) is None,
            },
    {
        let (w, h, px) = match decode_png_rgba(bytes) {
            Ok(t) => t,
            Err(e) => {
                return Err(LevelError::Decode(e));
            },
        };
        let n = px.len();
        assert(n == 4 * (w * h));
        let level = Self::from_rgba(w, h, &px);
        Ok(Arc::new(level))
    }

    fn from_rgba(w: u32, h: u32, px: &Vec<u8>) -> (level: Level)
        requires
            px@.len() == 4 * (w * h),
            4 * (w * h) <= usize::MAX,
        ensures
            level.loaded_from(w, h, px@),
    {
        let ghost wi = w as int;
        let ghost hi = h as int;
        let mut collision_map = gray_new(w, h);
        let mut image: Vec<u8> = Vec::new();
        let mut entry_point = UVec2 { x: 0, y: 0 };
        let mut portal = UVec2 { x: 0, y: 0 };
        let mut y: u32 = 0;
        while y < h
            invariant
                wi == w,
                hi == h,
                y <= h,
                px@.len() == 4 * (w * h),
                4 * (w * h) <= usize::MAX,
                gray_size(collision_map) == (w, h),
                forall|x0: u32, y0: u32|
                    x0 < w && y0 < h ==> #[trigger] gray_pixels(collision_map)[(x0, y0)] == if y0 < y {
                        class_of(rgb_at(px@, source_index(wi, hi, x0 as int, y0 as int)))
                    } else {
                        0
                    },
                image@.len() == 4 * (y * w),
                forall|j: int| 0 <= j < image@.len() ==> #[trigger] image@[j] == flip_byte(px@, wi, hi, j),
                entry_point == last_marker(px@, wi, hi, entry_rgb(), (y * w) as nat),
                portal == last_marker(px@, wi, hi, portal_rgb(), (y * w) as nat),
            decreases h - y,
        {
            proof {
                lemma_row_bounds(wi, hi, y as int);
            }
            let row = (h - 1 - y) as usize * w as usize;
            let mut x: u32 = 0;
            assert forall|x0: u32, y0: u32| x0 < w && y0 < h implies #[trigger] gray_pixels(
                collision_map,
            )[(x0, y0)] == if y0 < y || (y0
                == y && x0 < x) {
                class_of(rgb_at(px@, source_index(wi, hi, x0 as int, y0 as int)))
            } else {
                0
            } by {
                assert(y0 < y || (y0 == y && x0 < x) <==> y0 < y);
            }
            while x < w
                invariant
                    wi == w,
                    hi == h,
                    x <= w,
                    y < h,
                    row == (h - 1 - y) * w,
                    px@.len() == 4 * (w * h),
                    4 * (w * h) <= usize::MAX,
                    gray_size(collision_map) == (w, h),
                    forall|x0: u32, y0: u32|
                        x0 < w && y0 < h ==> #[trigger] gray_pixels(collision_map)[(x0, y0)] == if y0 < y || (y0 == y && x0 < x) {
                            class_of(rgb_at(px@, source_index(wi, hi, x0 as int, y0 as int)))
                        } else {
                            0
                        },
                    image@.len() == 4 * (y * w + x),
                    forall|j: int| 0 <= j < image@.len() ==> #[trigger] image@[j] == flip_byte(px@, wi, hi, j),
                    entry_point == last_marker(px@, wi, hi, entry_rgb(), (y * w + x) as nat),
                    portal == last_marker(px@, wi, hi, portal_rgb(), (y * w + x) as nat),
                decreases w - x,
            {
                let ghost n: int = y * w + x;
                proof {
                    lemma_pixel_index(wi, hi, x as int, y as int);
                }
                let i = 4 * (row + x as usize);
                assert(i == 4 * source_index(wi, hi, x as int, y as int));
                let r = px[i];
                let g = px[i + 1];
                let b = px[i + 2];
                let a = px[i + 3];
                let ghost before = image@;
                image.push(r);
                image.push(g);
                image.push(b);
                image.push(a);
                assert forall|j: int| 0 <= j < image@.len() implies #[trigger] image@[j] == flip_byte(
                    px@,
                    wi,
                    hi,
                    j,
                ) by {
                    if j >= 4 * n {
                        assert(j / 4 == n);
                        assert(j % 4 == j - 4 * n);
                    } else {
                        assert(image@[j] == before[j]);
                    }
                }
                let ghost c = (r, g, b);
                assert(c == rgb_at(px@, source_index(wi, hi, x as int, y as int)));
                if r == 0 && g == 99 && b == 0 {
                    entry_point = UVec2 { x, y };
                } else if r == 0 && g == 98 && b == 0 {
                    portal = UVec2 { x, y };
                } else if r == 255 && g == 255 && b == 255 {
                    gray_put(&mut collision_map, x, y, COLLISION_LUMA);
                } else if r == 0 && g == 0 && b == 100 {
                    gray_put(&mut collision_map, x, y, DEATH_LUMA);
                }
                assert(entry_point == last_marker(px@, wi, hi, entry_rgb(), (n + 1) as nat));
                assert(portal == last_marker(px@, wi, hi, portal_rgb(), (n + 1) as nat));
                x += 1;
            }
            assert forall|x0: u32, y0: u32| x0 < w && y0 < h implies #[trigger] gray_pixels(
                collision_map,
            )[(x0, y0)] == if y0 < y + 1 {
                class_of(rgb_at(px@, source_index(wi, hi, x0 as int, y0 as int)))
            } else {
                0
            } by {
                assert(y0 < y + 1 <==> (y0 < y || (y0 == y && x0 < x)));
            }
            y += 1;
        }
        assert(y * w == w * h) by (nonlinear_arith)
            requires y == h;
        assert(image@ =~= flipped(px@, wi, hi)) by {
            assert forall|j: int| 0 <= j < image@.len() implies #[trigger] image@[j] == flipped(
                px@,
                wi,
                hi,
            )[j] by {
                assert(image@[j] == flip_byte(px@, wi, hi, j));
            }
        }
        Level { size: UVec2 { x: w, y: h }, image, collision_map, entry_point, portal }
    }

    /// Loads every level, in order; the first failure is returned.
    pub fn load_file_tree(files: &Vec<Vec<u8>>) -> (r: Result<Vec<Arc<Level>>, LevelError>)
        ensures
            match r {
                Ok(levels) => levels@.len() == files@.len() && forall|i: int|
                    0 <= i < files@.len() ==> loads_as(#[trigger] files@[i]@, *levels@[i]),
                Err(_) => exists|i: int| #[trigger] first_failure(files@, i),
            },
    {
        let mut levels: Vec<Arc<Level>> = Vec::new();
        let mut i: usize = 0;
        while i < files.len()
            invariant
                i <= files@.len(),
                levels@.len() == i,
                forall|k: int| 0 <= k < i ==> loads_as(#[trigger] files@[k]@, *levels@[k]),
            decreases files@.len() - i,
        {
            let level = Self::load_from_binary(files[i].as_slice());
            match level {
                Ok(l) => levels.push(l),
                Err(e) => {
                    assert forall|k: int| 0 <= k < i implies decodes(#[trigger] files@[k]@) by {
                        assert(loads_as(files@[k]@, *levels@[k]));
                    }
                    assert(first_failure(files@, i as int));
                    return Err(e);
                },
            }
            i += 1;
        }
        Ok(levels)
    }

    /// Whether any pixel of the rectangle, inside the map, is solid.
    pub fn collision_rectu(&self, rect: URect) -> (r: bool)
        ensures
            r == self.rect_hit_spec(rect),
    {
        let (w, h) = gray_dims(&self.collision_map);
        let x_end = if rect.max.x < w { rect.max.x } else { w };
        let y_end = if rect.max.y < h { rect.max.y } else { h };
        let mut y = rect.min.y;
        while y < y_end
            invariant
                (w, h) == gray_size(self.collision_map),
                x_end <= w,
                y_end <= h,
                x_end == min_u32(rect.max.x, w),
                y_end == min_u32(rect.max.y, h),
                rect.min.y <= y,
                forall|x0: u32, y0: u32|
                    rect.min.x <= x0 < rect.max.x && rect.min.y <= y0 < y && y0 < rect.max.y
                        ==> !#[trigger] self.hit_spec(IVec2 { x: x0 as i64, y: y0 as i64 }),
            decreases y_end - y,
        {
            let mut x = rect.min.x;
            while x < x_end
                invariant
                    (w, h) == gray_size(self.collision_map),
                    x_end <= w,
                    y < y_end,
                    y_end <= h,
                    x_end == min_u32(rect.max.x, w),
                    y_end == min_u32(rect.max.y, h),
                    rect.min.y <= y,
                    rect.min.x <= x,
                    forall|x0: u32, y0: u32|
                        rect.min.x <= x0 < rect.max.x && rect.min.y <= y0 < y && y0 < rect.max.y
                            ==> !#[trigger] self.hit_spec(IVec2 { x: x0 as i64, y: y0 as i64 }),
                    forall|x0: u32|
                        rect.min.x <= x0 < x ==> !#[trigger] self.hit_spec(IVec2 { x: x0 as i64, y: y as i64 }),
                decreases x_end - x,
            {
                if gray_get(&self.collision_map, x, y) == COLLISION_LUMA {
                    assert(self.hit_spec(IVec2 { x: x as i64, y: y as i64 }));
                    return true;
                }
                x += 1;
            }
            assert forall|x0: u32, y0: u32|
                rect.min.x <= x0 < rect.max.x && rect.min.y <= y0 < y + 1 && y0 < rect.max.y
                    implies !#[trigger] self.hit_spec(IVec2 { x: x0 as i64, y: y0 as i64 }) by {
                if y0 == y && x0 >= x_end {
                    assert(!self.in_bounds(IVec2 { x: x0 as i64, y: y0 as i64 }));
                }
            }
            y += 1;
        }
        assert forall|x0: u32, y0: u32|
            rect.min.x <= x0 < rect.max.x && rect.min.y <= y0 < rect.max.y
                implies !#[trigger] self.hit_spec(IVec2 { x: x0 as i64, y: y0 as i64 }) by {
            if y0 >= y {
                assert(!self.in_bounds(IVec2 { x: x0 as i64, y: y0 as i64 }));
            }
        }
        false
    }

    /// Whether any pixel covered by the rectangle, inside the map, is solid.
    pub fn collision_rect(&self, rect: Rect) -> (r: bool)
        ensures
            r == self.rect_hit_spec(covered_pixels(rect)),
    {
        let a = to_upixel(rect.min);
        let b = to_upixel(rect.max);
        let bx = if b.x == u32::MAX { b.x } else { b.x + 1 };
        let by = if b.y == u32::MAX { b.y } else { b.y + 1 };
        let urect = URect {
            min: UVec2 { x: if a.x <= bx { a.x } else { bx }, y: if a.y <= by { a.y } else { by } },
            max: UVec2 { x: if a.x >= bx { a.x } else { bx }, y: if a.y >= by { a.y } else { by } },
        };
        self.collision_rectu(urect)
    }

    /// Whether the pixel is solid. Both coordinates negative is never solid;
    /// nothing outside the map is solid.
    pub fn is_hit(&self, pos: IVec2) -> (r: bool)
        ensures
            r == self.hit_spec(pos),
    {
        if pos.x < 0 && pos.y < 0 {
            false
        } else {
            let (w, h) = gray_dims(&self.collision_map);
            if 0 <= pos.x && pos.x < w as i64 && 0 <= pos.y && pos.y < h as i64 {
                gray_get(&self.collision_map, pos.x as u32, pos.y as u32) == COLLISION_LUMA
            } else {
                false
            }
        }
    }

    /// Whether the pixel is deadly. Both coordinates negative is always
    /// deadly, and so is everything outside the map.
    pub fn is_death(&self, pos: IVec2) -> (r: bool)
        ensures
            r == self.death_spec(pos),
    {
        if pos.x < 0 && pos.y < 0 {
            true
        } else {
            let (w, h) = gray_dims(&self.collision_map);
            if 0 <= pos.x && pos.x < w as i64 && 0 <= pos.y && pos.y < h as i64 {
                gray_get(&self.collision_map, pos.x as u32, pos.y as u32) == DEATH_LUMA
            } else {
                true
            }
        }
    }

    /// Width and height of the collision map.
    pub fn extent(&self) -> (r: UVec2)
        ensures
            (r.x, r.y) == gray_size(self.collision_map),
    {
        let (w, h) = gray_dims(&self.collision_map);
        UVec2 { x: w, y: h }
    }
}

/// A point with both coordinates negative is never solid and always deadly.
pub proof fn lemma_both_negative(level: &Level, p: IVec2)
    requires
        p.x < 0 && p.y < 0,
    ensures
        !level.hit_spec(p),
        level.death_spec(p),
{
}

/// Classification depends on the level and the point alone: asking again, of
/// the same level, gives the same answers, and inside the map no pixel is both
/// solid and deadly.
pub proof fn lemma_classification_stable(a: &Level, b: &Level, p: IVec2)
    requires
        a.collision_map == b.collision_map,
    ensures
        a.hit_spec(p) == b.hit_spec(p),
        a.death_spec(p) == b.death_spec(p),
        a.in_bounds(p) ==> !(a.hit_spec(p) && a.death_spec(p)),
{
}

fn to_upixel(v: Vec2) -> (r: UVec2)
    ensures
        r == to_upixel_spec(v),
{
    let p = v.to_pixel();
    UVec2 {
        x: if p.x < 0 { 0 } else if p.x > u32::MAX as i64 { u32::MAX } else { p.x as u32 },
        y: if p.y < 0 { 0 } else if p.y > u32::MAX as i64 { u32::MAX } else { p.y as u32 },
    }
}

} // verus!
