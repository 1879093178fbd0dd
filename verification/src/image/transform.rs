//! Deterministic pixel transforms on RGBA (4 bytes per pixel) and mask
//! (1 byte per pixel) buffers: nearest-neighbour resize, canvas fit,
//! clockwise rotation, flips and simple per-pixel filters.

use vstd::prelude::*;

verus! {

pub open spec fn at_least_one(v: u32) -> int {
    if v == 0 {
        1
    } else {
        v as int
    }
}

/// The source row (or column) nearest-neighbour scaling reads for target
/// index `i`: `i * old / new`, kept inside the source.
pub open spec fn nearest_source(i: int, old: int, new: int) -> int {
    let s = i * old / new;
    if s <= old - 1 {
        s
    } else {
        old - 1
    }
}

/// Nearest-neighbour scaling of a `old_w` x `old_h` buffer with `channels`
/// bytes per pixel to `new_w` x `new_h` (all sizes taken as at least 1).
/// Pixels whose source bytes are missing keep `fill`.
pub open spec fn resized_nearest(
    data: Seq<u8>,
    old_w: u32,
    old_h: u32,
    new_w: u32,
    new_h: u32,
    channels: int,
    fill: u8,
) -> Seq<u8> {
    let ow = at_least_one(old_w);
    let oh = at_least_one(old_h);
    let nw = at_least_one(new_w);
    let nh = at_least_one(new_h);
    Seq::new(
        (nw * nh * channels) as nat,
        |k: int|
            {
                let p = k / channels;
                let src = (nearest_source(p / nw, oh, nh) * ow + nearest_source(p % nw, ow, nw)) * channels;
                if src + channels - 1 < data.len() {
                    data[src + k % channels]
                } else {
                    fill
                }
            },
    )
}

/// The byte indices scaling computes stay within `u32` (the type the
/// source offsets are computed in) and the target buffer's size fits a
/// `usize`.
pub open spec fn resize_fits(old_w: u32, old_h: u32, new_w: u32, new_h: u32, channels: int) -> bool {
    &&& at_least_one(old_w) * at_least_one(old_h) * channels <= u32::MAX + channels
    &&& at_least_one(new_w) * at_least_one(new_h) * channels <= u32::MAX + channels
    &&& at_least_one(new_w) * at_least_one(new_h) * channels <= usize::MAX
}

pub proof fn lemma_index_split(k: int, d: int, q: int, r: int)
    requires
        d > 0,
        0 <= r < d,
        k == q * d + r,
    ensures
        k / d == q,
        k % d == r,
{
    vstd::arithmetic::div_mod::lemma_fundamental_div_mod_converse(k, d, q, r);
}

proof fn lemma_nearest_source_bounds(i: int, old: int, new: int)
    requires
        0 <= i < new,
        old >= 1,
        new >= 1,
    ensures
        0 <= i * old / new <= old - 1,
        nearest_source(i, old, new) == i * old / new,
{
    assert(0 <= i * old < new * old) by (nonlinear_arith)
        requires
            0 <= i < new,
            old >= 1,
    ;
    vstd::arithmetic::div_mod::lemma_div_pos_is_pos(i * old, new);
    vstd::arithmetic::div_mod::lemma_fundamental_div_mod(i * old, new);
    let q = i * old / new;
    let r = i * old % new;
    assert(q <= old - 1) by (nonlinear_arith)
        requires
            i * old == new * q + r,
            0 <= r,
            i * old < new * old,
            new >= 1,
    ;
}

/// Position `p` of a row-major grid `width` wide lies at row `p / width`,
/// column `p % width`, inside a grid of `height` rows.
pub proof fn lemma_grid_position(p: int, width: int, height: int)
    requires
        0 <= p < width * height,
        width >= 1,
    ensures
        0 <= p / width < height,
        0 <= p % width < width,
{
    vstd::arithmetic::div_mod::lemma_fundamental_div_mod(p, width);
    vstd::arithmetic::div_mod::lemma_div_pos_is_pos(p, width);
    vstd::arithmetic::div_mod::lemma_mod_bound(p, width);
    let q = p / width;
    let r = p % width;
    assert(q < height) by (nonlinear_arith)
        requires
            p == width * q + r,
            0 <= r,
            p < width * height,
            width >= 1,
    ;
}

fn resize_nearest(data: &[u8], old_w: u32, old_h: u32, new_w: u32, new_h: u32, channels: u32, fill: u8) -> (out: Vec<u8>)
    requires
        channels == 1 || channels == 4,
        resize_fits(old_w, old_h, new_w, new_h, channels as int),
    ensures
        out@ == resized_nearest(data@, old_w, old_h, new_w, new_h, channels as int, fill),
{
    let new_w = if new_w == 0 { 1 } else { new_w };
    let new_h = if new_h == 0 { 1 } else { new_h };
    let old_w = if old_w == 0 { 1 } else { old_w };
    let old_h = if old_h == 0 { 1 } else { old_h };
    let ghost spec_out = resized_nearest(data@, old_w, old_h, new_w, new_h, channels as int, fill);
    let ch = channels as usize;
    assert(new_w * new_h <= new_w * new_h * channels) by (nonlinear_arith)
        requires
            channels >= 1,
    ;
    let total = new_w as usize * new_h as usize;
    let mut out = vec![fill; total * ch];
    let mut p: usize = 0;
    while p < total
        invariant
            spec_out == resized_nearest(data@, old_w, old_h, new_w, new_h, channels as int, fill),
            channels == 1 || channels == 4,
            ch == channels,
            new_w >= 1 && new_h >= 1 && old_w >= 1 && old_h >= 1,
            total == new_w * new_h,
            old_w * old_h * channels <= u32::MAX + channels,
            new_w * new_h * channels <= u32::MAX + channels,
            total * ch <= usize::MAX,
            p <= total,
            out@.len() == total * ch,
            forall|k: int| 0 <= k < total * ch ==> out@[k] == (if k / (ch as int) < p { spec_out[k] } else { fill }),
        decreases total - p,
    {
        proof {
            lemma_grid_position(p as int, new_w as int, new_h as int);
        }
        let x = (p % (new_w as usize)) as u32;
        let y = (p / (new_w as usize)) as u32;
        proof {
            lemma_nearest_source_bounds(y as int, old_h as int, new_h as int);
            lemma_nearest_source_bounds(x as int, old_w as int, new_w as int);
            assert(x * old_w <= u64::MAX) by (nonlinear_arith)
                requires
                    x <= u32::MAX,
                    old_w <= u32::MAX,
            ;
            assert(y * old_h <= u64::MAX) by (nonlinear_arith)
                requires
                    y <= u32::MAX,
                    old_h <= u32::MAX,
            ;
        }
        let src_x = (x as u64 * old_w as u64 / new_w as u64) as u32;
        let src_y = (y as u64 * old_h as u64 / new_h as u64) as u32;
        let sx = if src_x <= old_w - 1 { src_x } else { old_w - 1 };
        let sy = if src_y <= old_h - 1 { src_y } else { old_h - 1 };
        assert(sy * old_w + sx <= old_w * old_h - 1) by (nonlinear_arith)
            requires
                sy <= old_h - 1,
                sx <= old_w - 1,
        ;
        assert((sy * old_w + sx) * channels <= u32::MAX) by (nonlinear_arith)
            requires
                sy * old_w + sx <= old_w * old_h - 1,
                old_w * old_h * channels <= u32::MAX + channels,
                channels >= 1,
        ;
        let src = ((sy * old_w + sx) * channels) as usize;
        assert(p * ch + ch <= total * ch) by (nonlinear_arith)
            requires
                p < total,
        ;
        if src + (ch - 1) < data.len() {
            let mut c: usize = 0;
            while c < ch
                invariant
                    spec_out == resized_nearest(data@, old_w, old_h, new_w, new_h, channels as int, fill),
                    channels == 1 || channels == 4,
                    ch == channels,
                    new_w >= 1 && new_h >= 1 && old_w >= 1 && old_h >= 1,
                    total == new_w * new_h,
                    total * ch <= usize::MAX,
                    p < total,
                    p * ch + ch <= total * ch,
                    x == (p as int) % (new_w as int),
                    y == (p as int) / (new_w as int),
                    src == (nearest_source(y as int, old_h as int, new_h as int) * old_w
                        + nearest_source(x as int, old_w as int, new_w as int)) * channels,
                    src + ch - 1 < data@.len(),
                    c <= ch,
                    out@.len() == total * ch,
                    forall|k: int| 0 <= k < total * ch ==> out@[k] == (
                        if k / (ch as int) < p || (k / (ch as int) == p && k % (ch as int) < c) {
                            spec_out[k]
                        } else {
                            fill
                        }),
                decreases ch - c,
            {
                proof {
                    lemma_index_split((p * ch + c) as int, ch as int, p as int, c as int);
                }
                out.set(p * ch + c, data[src + c]);
                proof {
                    assert forall|k: int| 0 <= k < total * ch implies out@[k] == (
                        if k / (ch as int) < p || (k / (ch as int) == p && k % (ch as int) < c + 1) {
                            spec_out[k]
                        } else {
                            fill
                        }) by {
                        vstd::arithmetic::div_mod::lemma_fundamental_div_mod(k, ch as int);
                        if k / (ch as int) == p && k % (ch as int) == c {
                            assert(k == p * ch + c) by (nonlinear_arith)
                                requires
                                    k == (ch as int) * (k / (ch as int)) + k % (ch as int),
                                    k / (ch as int) == p,
                                    k % (ch as int) == c,
                            ;
                        }
                    }
                }
                c += 1;
            }
        } else {
            proof {
                assert forall|k: int| 0 <= k < total * ch && k / (ch as int) == p implies spec_out[k] == fill by {
                }
            }
        }
        p += 1;
    }
    proof {
        assert forall|k: int| 0 <= k < total * ch implies out@[k] == spec_out[k] by {
            assert((ch as int) * (total as int) == (total as int) * (ch as int)) by (nonlinear_arith);
            lemma_grid_position(k, ch as int, total as int);
        }
    }
    assert(out@ =~= spec_out);
    out
}


/// Nearest-neighbour scaling of an RGBA buffer; missing source pixels give
/// transparent black.
pub fn resize_rgba_nearest(data: &[u8], old_w: u32, old_h: u32, new_w: u32, new_h: u32) -> (out: Vec<u8>)
    requires
        resize_fits(old_w, old_h, new_w, new_h, 4),
    ensures
        out@ == resized_nearest(data@, old_w, old_h, new_w, new_h, 4, 0u8),
{
    resize_nearest(data, old_w, old_h, new_w, new_h, 4, 0u8)
}

/// Nearest-neighbour scaling of a mask; missing source pixels give 255.
pub fn resize_mask_nearest(data: &[u8], old_w: u32, old_h: u32, new_w: u32, new_h: u32) -> (out: Vec<u8>)
    requires
        resize_fits(old_w, old_h, new_w, new_h, 1),
    ensures
        out@ == resized_nearest(data@, old_w, old_h, new_w, new_h, 1, 255u8),
{
    resize_nearest(data, old_w, old_h, new_w, new_h, 1, 255u8)
}

/// The buffer placed at the top-left of a `new_w` x `new_h` canvas: the
/// overlapping rows are copied when the source holds them whole, the rest is
/// `fill`.
pub open spec fn fitted_to_canvas(
    data: Seq<u8>,
    old_w: u32,
    old_h: u32,
    new_w: u32,
    new_h: u32,
    channels: int,
    fill: u8,
) -> Seq<u8> {
    let copy_w = if old_w <= new_w { old_w as int } else { new_w as int };
    let copy_h = if old_h <= new_h { old_h as int } else { new_h as int };
    Seq::new(
        (new_w * new_h * channels) as nat,
        |k: int|
            {
                let row = k / (new_w * channels);
                let b = k % (new_w * channels);
                if row < copy_h && b < copy_w * channels && row * old_w * channels + copy_w * channels <= data.len() {
                    data[row * old_w * channels + b]
                } else {
                    fill
                }
            },
    )
}

/// The row offsets fitting computes stay within `u32` and the canvas's byte
/// count fits a `usize`.
pub open spec fn fit_fits(old_w: u32, old_h: u32, new_w: u32, new_h: u32, channels: int) -> bool {
    let copy_w = if old_w <= new_w { old_w as int } else { new_w as int };
    let copy_h = if old_h <= new_h { old_h as int } else { new_h as int };
    &&& new_w * new_h * channels <= usize::MAX
    &&& copy_w * channels <= u32::MAX
    &&& copy_h > 0 ==> (copy_h - 1) * old_w * channels <= u32::MAX && (copy_h - 1) * new_w * channels <= u32::MAX
}

fn fit_to_canvas(data: &[u8], old_w: u32, old_h: u32, new_w: u32, new_h: u32, channels: u32, fill: u8) -> (out: Vec<u8>)
    requires
        channels == 1 || channels == 4,
        fit_fits(old_w, old_h, new_w, new_h, channels as int),
    ensures
        out@ == fitted_to_canvas(data@, old_w, old_h, new_w, new_h, channels as int, fill),
{
    let ghost spec_out = fitted_to_canvas(data@, old_w, old_h, new_w, new_h, channels as int, fill);
    if new_w == 0 || new_h == 0 {
        assert(new_w * new_h * channels == 0) by (nonlinear_arith)
            requires
                new_w == 0 || new_h == 0,
        ;
        let empty: Vec<u8> = Vec::new();
        assert(empty@ =~= spec_out);
        return empty;
    }
    let ch = channels as usize;
    let data_len = data.len();
    assert(new_w * new_h <= new_w * new_h * ch) by (nonlinear_arith)
        requires
            ch >= 1,
    ;
    let total = new_w as usize * new_h as usize * ch;
    let mut out = vec![fill; total];
    proof {
        let d = (new_w * ch) as int;
        assert(d >= 1) by (nonlinear_arith)
            requires
                d == new_w * ch,
                new_w >= 1,
                ch >= 1,
        ;
        assert forall|k: int| 0 <= k < total implies out@[k] == (if k / d < 0 { spec_out[k] } else { fill }) by {
            vstd::arithmetic::div_mod::lemma_div_pos_is_pos(k, d);
        }
    }
    let copy_w = if old_w <= new_w { old_w } else { new_w };
    let copy_h = if old_h <= new_h { old_h } else { new_h };
    let mut y: u32 = 0;
    while y < copy_h
        invariant
            spec_out == fitted_to_canvas(data@, old_w, old_h, new_w, new_h, channels as int, fill),
            fit_fits(old_w, old_h, new_w, new_h, channels as int),
            channels == 1 || channels == 4,
            ch == channels,
            total == new_w * new_h * ch,
            copy_w == (if old_w <= new_w { old_w } else { new_w }),
            copy_h == (if old_h <= new_h { old_h } else { new_h }),
            y <= copy_h,
            out@.len() == total,
            new_w >= 1,
            new_h >= 1,
            data_len == data@.len(),
            forall|k: int| 0 <= k < total ==> out@[k] == (
                if k / (new_w * ch) < y { spec_out[k] } else { fill }),
        decreases copy_h - y,
    {
        assert(y * old_w * channels <= (copy_h - 1) * old_w * channels) by (nonlinear_arith)
            requires
                y < copy_h,
        ;
        assert(y * new_w * channels <= (copy_h - 1) * new_w * channels) by (nonlinear_arith)
            requires
                y < copy_h,
        ;
        assert(y * old_w <= y * old_w * channels && y * new_w <= y * new_w * channels) by (nonlinear_arith)
            requires
                channels >= 1,
        ;
        let src = (y * old_w * channels) as usize;
        let dst = (y * new_w * channels) as usize;
        let len = (copy_w * channels) as usize;
        assert(dst + len <= total) by (nonlinear_arith)
            requires
                dst == y * new_w * ch,
                len == copy_w * ch,
                copy_w <= new_w,
                y < copy_h,
                copy_h <= new_h,
                total == new_w * new_h * ch,
        ;
        if src <= data_len && len <= data_len - src {
            let mut b: usize = 0;
            while b < len
                invariant
                    spec_out == fitted_to_canvas(data@, old_w, old_h, new_w, new_h, channels as int, fill),
                    channels == 1 || channels == 4,
                    ch == channels,
                    total == new_w * new_h * ch,
                    copy_w == (if old_w <= new_w { old_w } else { new_w }),
                    copy_h == (if old_h <= new_h { old_h } else { new_h }),
                    y < copy_h,
                    src == y * old_w * channels,
                    dst == y * new_w * channels,
                    len == copy_w * channels,
                    src + len <= data@.len(),
                    data_len == data@.len(),
                    dst + len <= total,
                    b <= len,
                    out@.len() == total,
                    new_w > 0,
                    forall|k: int| 0 <= k < total ==> out@[k] == (
                        if k / (new_w * ch) < y || (k / (new_w * ch) == y && k % (new_w * ch) < b) {
                            spec_out[k]
                        } else {
                            fill
                        }),
                decreases len - b,
            {
                proof {
                    assert(copy_w <= new_w);
                    assert(len <= new_w * ch) by (nonlinear_arith)
                        requires
                            len == copy_w * ch,
                            copy_w <= new_w,
                    ;
                    assert(y * new_w * channels == y * (new_w * ch)) by (nonlinear_arith)
                        requires
                            ch == channels,
                    ;
                    lemma_index_split((dst + b) as int, (new_w * ch) as int, y as int, b as int);
                }
                out.set(dst + b, data[src + b]);
                proof {
                    let d = (new_w * ch) as int;
                    assert forall|k: int| 0 <= k < total implies out@[k] == (
                        if k / d < y || (k / d == y && k % d < b + 1) { spec_out[k] } else { fill }) by {
                        vstd::arithmetic::div_mod::lemma_fundamental_div_mod(k, d);
                        if k / d == y && k % d == b {
                            assert(k == y * d + b) by (nonlinear_arith)
                                requires
                                    k == d * (k / d) + k % d,
                                    k / d == y,
                                    k % d == b,
                            ;
                        }
                    }
                }
                b += 1;
            }
            proof {
                let d = (new_w * ch) as int;
                assert forall|k: int| 0 <= k < total && k / d == y && k % d >= len implies spec_out[k] == fill by {
                }
            }
        } else {
            proof {
                let d = (new_w * ch) as int;
                assert forall|k: int| 0 <= k < total && k / d == y implies spec_out[k] == fill by {
                    assert(y * old_w * channels == src);
                }
            }
        }
        y += 1;
    }
    proof {
        if new_w > 0 {
            let d = (new_w * ch) as int;
            assert forall|k: int| 0 <= k < total && k / d >= copy_h implies spec_out[k] == fill by {
            }
        }
    }
    assert(out@ =~= spec_out);
    out
}

/// The RGBA buffer on a `new_w` x `new_h` canvas, anchored top-left; new
/// area is transparent black.
pub fn fit_rgba_to_canvas(data: &[u8], old_w: u32, old_h: u32, new_w: u32, new_h: u32) -> (out: Vec<u8>)
    requires
        fit_fits(old_w, old_h, new_w, new_h, 4),
    ensures
        out@ == fitted_to_canvas(data@, old_w, old_h, new_w, new_h, 4, 0u8),
{
    fit_to_canvas(data, old_w, old_h, new_w, new_h, 4, 0u8)
}

/// The mask on a `new_w` x `new_h` canvas, anchored top-left; new area is
/// 255 (fully kept).
pub fn fit_mask_to_canvas(data: &[u8], old_w: u32, old_h: u32, new_w: u32, new_h: u32) -> (out: Vec<u8>)
    requires
        fit_fits(old_w, old_h, new_w, new_h, 1),
    ensures
        out@ == fitted_to_canvas(data@, old_w, old_h, new_w, new_h, 1, 255u8),
{
    fit_to_canvas(data, old_w, old_h, new_w, new_h, 1, 255u8)
}

/// Source pixel of output pixel `p` when a `width` x `height` grid is turned
/// a quarter clockwise: the output is `height` wide, and its pixel at column
/// `p % height`, row `p / height` comes from column `p / height`, row
/// `height - 1 - p % height` of the source.
pub open spec fn rotated_source(p: int, width: int, height: int) -> int {
    (height - 1 - p % height) * width + p / height
}

/// A `width` x `height` buffer with `channels` bytes per pixel turned a
/// quarter clockwise; pixels whose source bytes are missing keep `fill`.
pub open spec fn rotated_clockwise(data: Seq<u8>, width: u32, height: u32, channels: int, fill: u8) -> Seq<u8> {
    Seq::new(
        (width * height * channels) as nat,
        |k: int|
            {
                let src = rotated_source(k / channels, width as int, height as int) * channels;
                if src + channels - 1 < data.len() {
                    data[src + k % channels]
                } else {
                    fill
                }
            },
    )
}

/// The byte offsets of a `width` x `height` grid stay within `u32` and its
/// byte count fits a `usize`.
pub open spec fn grid_fits(width: u32, height: u32, channels: int) -> bool {
    &&& width * height * channels <= u32::MAX + channels
    &&& width * height * channels <= usize::MAX
}

proof fn lemma_rotated_source_bounds(p: int, width: int, height: int)
    requires
        0 <= p < width * height,
        width >= 1,
        height >= 1,
    ensures
        0 <= p / height < width,
        0 <= p % height < height,
        0 <= rotated_source(p, width, height) < width * height,
{
    assert(p < height * width) by (nonlinear_arith)
        requires
            p < width * height,
    ;
    lemma_grid_position(p, height, width);
    let r = height - 1 - p % height;
    let c = p / height;
    assert(r * width + c < width * height) by (nonlinear_arith)
        requires
            0 <= r < height,
            0 <= c < width,
    ;
    assert(r * width + c >= 0) by (nonlinear_arith)
        requires
            0 <= r,
            0 <= c,
            width >= 1,
    ;
}

fn rotate_clockwise(data: &[u8], width: u32, height: u32, channels: u32, fill: u8) -> (out: Vec<u8>)
    requires
        channels == 1 || channels == 4,
        grid_fits(width, height, channels as int),
    ensures
        out@ == rotated_clockwise(data@, width, height, channels as int, fill),
{
    let ghost spec_out = rotated_clockwise(data@, width, height, channels as int, fill);
    if width == 0 || height == 0 {
        assert(width * height * channels == 0) by (nonlinear_arith)
            requires
                width == 0 || height == 0,
        ;
        let empty: Vec<u8> = Vec::new();
        assert(empty@ =~= spec_out);
        return empty;
    }
    let ch = channels as usize;
    let data_len = data.len();
    assert(width * height <= width * height * ch) by (nonlinear_arith)
        requires
            ch >= 1,
    ;
    let total = width as usize * height as usize;
    let mut out = vec![fill; total * ch];
    let mut p: usize = 0;
    while p < total
        invariant
            spec_out == rotated_clockwise(data@, width, height, channels as int, fill),
            channels == 1 || channels == 4,
            ch == channels,
            width >= 1 && height >= 1,
            total == width * height,
            width * height * channels <= u32::MAX + channels,
            total * ch <= usize::MAX,
            data_len == data@.len(),
            p <= total,
            out@.len() == total * ch,
            forall|k: int| 0 <= k < total * ch ==> out@[k] == (if k / (ch as int) < p { spec_out[k] } else { fill }),
        decreases total - p,
    {
        proof {
            lemma_rotated_source_bounds(p as int, width as int, height as int);
        }
        let col = (p / (height as usize)) as u32;
        let row = height - 1 - (p % (height as usize)) as u32;
        assert(row * width + col <= width * height - 1) by (nonlinear_arith)
            requires
                row <= height - 1,
                col <= width - 1,
        ;
        assert((row * width + col) * channels <= u32::MAX) by (nonlinear_arith)
            requires
                row * width + col <= width * height - 1,
                width * height * channels <= u32::MAX + channels,
                channels >= 1,
        ;
        let src = ((row * width + col) * channels) as usize;
        assert(p * ch + ch <= total * ch) by (nonlinear_arith)
            requires
                p < total,
        ;
        if src + (ch - 1) < data_len {
            let mut c: usize = 0;
            while c < ch
                invariant
                    spec_out == rotated_clockwise(data@, width, height, channels as int, fill),
                    channels == 1 || channels == 4,
                    ch == channels,
                    width >= 1 && height >= 1,
                    total == width * height,
                    total * ch <= usize::MAX,
                    p < total,
                    p * ch + ch <= total * ch,
                    src == rotated_source(p as int, width as int, height as int) * channels,
                    src + ch - 1 < data@.len(),
                    c <= ch,
                    out@.len() == total * ch,
                    forall|k: int| 0 <= k < total * ch ==> out@[k] == (
                        if k / (ch as int) < p || (k / (ch as int) == p && k % (ch as int) < c) {
                            spec_out[k]
                        } else {
                            fill
                        }),
                decreases ch - c,
            {
                proof {
                    lemma_index_split((p * ch + c) as int, ch as int, p as int, c as int);
                }
                out.set(p * ch + c, data[src + c]);
                proof {
                    assert forall|k: int| 0 <= k < total * ch implies out@[k] == (
                        if k / (ch as int) < p || (k / (ch as int) == p && k % (ch as int) < c + 1) {
                            spec_out[k]
                        } else {
                            fill
                        }) by {
                        vstd::arithmetic::div_mod::lemma_fundamental_div_mod(k, ch as int);
                        if k / (ch as int) == p && k % (ch as int) == c {
                            assert(k == p * ch + c) by (nonlinear_arith)
                                requires
                                    k == (ch as int) * (k / (ch as int)) + k % (ch as int),
                                    k / (ch as int) == p,
                                    k % (ch as int) == c,
                            ;
                        }
                    }
                }
                c += 1;
            }
        } else {
            proof {
                assert forall|k: int| 0 <= k < total * ch && k / (ch as int) == p implies spec_out[k] == fill by {
                }
            }
        }
        p += 1;
    }
    proof {
        assert forall|k: int| 0 <= k < total * ch implies out@[k] == spec_out[k] by {
            assert((ch as int) * (total as int) == (total as int) * (ch as int)) by (nonlinear_arith);
            lemma_grid_position(k, ch as int, total as int);
        }
    }
    assert(out@ =~= spec_out);
    out
}

/// An RGBA buffer turned a quarter clockwise; the result is `height` wide
/// and `width` tall. Missing source pixels give transparent black.
pub fn rotate_rgba_clockwise(data: &[u8], width: u32, height: u32) -> (out: Vec<u8>)
    requires
        grid_fits(width, height, 4),
    ensures
        out@ == rotated_clockwise(data@, width, height, 4, 0u8),
{
    rotate_clockwise(data, width, height, 4, 0u8)
}

/// A mask turned a quarter clockwise; missing source pixels give 255.
pub fn rotate_mask_clockwise(data: &[u8], width: u32, height: u32) -> (out: Vec<u8>)
    requires
        grid_fits(width, height, 1),
    ensures
        out@ == rotated_clockwise(data@, width, height, 1, 255u8),
{
    rotate_clockwise(data, width, height, 1, 255u8)
}

/// Pixel `p` of a `width`-wide grid mirrored left to right.
pub open spec fn mirrored_column(p: int, width: int) -> int {
    (p / width) * width + (width - 1 - p % width)
}

/// Pixel `p` of a `width` x `height` grid mirrored top to bottom.
pub open spec fn mirrored_row(p: int, width: int, height: int) -> int {
    (height - 1 - p / width) * width + p % width
}

/// The bytes of `data` with its first `width * height` pixels of
/// `channels` bytes mirrored left to right; bytes past them are unchanged.
pub open spec fn flipped_horizontal(data: Seq<u8>, width: u32, height: u32, channels: int) -> Seq<u8> {
    Seq::new(
        data.len(),
        |k: int|
            if k < width * height * channels {
                data[mirrored_column(k / channels, width as int) * channels + k % channels]
            } else {
                data[k]
            },
    )
}

/// The bytes of `data` with its first `width * height` pixels of
/// `channels` bytes mirrored top to bottom; bytes past them are unchanged.
pub open spec fn flipped_vertical(data: Seq<u8>, width: u32, height: u32, channels: int) -> Seq<u8> {
    Seq::new(
        data.len(),
        |k: int|
            if k < width * height * channels {
                data[mirrored_row(k / channels, width as int, height as int) * channels + k % channels]
            } else {
                data[k]
            },
    )
}

proof fn lemma_mirror_bounds(p: int, width: int, height: int)
    requires
        0 <= p < width * height,
        width >= 1,
    ensures
        0 <= mirrored_column(p, width) < width * height,
        0 <= mirrored_row(p, width, height) < width * height,
        mirrored_column(p, width) / width == p / width,
        mirrored_column(p, width) % width == width - 1 - p % width,
        mirrored_row(p, width, height) / width == height - 1 - p / width,
        mirrored_row(p, width, height) % width == p % width,
{
    lemma_grid_position(p, width, height);
    let r = p / width;
    let c = p % width;
    assert((width - 1 - c) + r * width < width * height && (width - 1 - c) + r * width >= 0) by (nonlinear_arith)
        requires
            0 <= r < height,
            0 <= c < width,
    ;
    assert(c + (height - 1 - r) * width < width * height && c + (height - 1 - r) * width >= 0) by (nonlinear_arith)
        requires
            0 <= r < height,
            0 <= c < width,
    ;
    lemma_index_split(mirrored_column(p, width), width, r, width - 1 - c);
    lemma_index_split(mirrored_row(p, width, height), width, height - 1 - r, c);
}

/// Pixel `k / channels`, channel `k % channels` of a grid of `count` pixels.
proof fn lemma_pixel_byte(k: int, channels: int, count: int)
    requires
        0 <= k < count * channels,
        channels >= 1,
    ensures
        0 <= k / channels < count,
        0 <= k % channels < channels,
        k == (k / channels) * channels + k % channels,
{
    assert(k < channels * count) by (nonlinear_arith)
        requires
            k < count * channels,
    ;
    lemma_grid_position(k, channels, count);
    vstd::arithmetic::div_mod::lemma_fundamental_div_mod(k, channels);
    assert(k == (k / channels) * channels + k % channels) by (nonlinear_arith)
        requires
            k == channels * (k / channels) + k % channels,
    ;
}

/// Byte `c` of pixel `q` lies below `count * channels`, and splits back
/// into `q` and `c`.
proof fn lemma_byte_of_pixel(q: int, c: int, channels: int, count: int)
    requires
        0 <= q < count,
        0 <= c < channels,
    ensures
        0 <= q * channels + c < count * channels,
        (q * channels + c) / channels == q,
        (q * channels + c) % channels == c,
{
    assert(0 <= q * channels + c < count * channels) by (nonlinear_arith)
        requires
            0 <= q < count,
            0 <= c < channels,
    ;
    lemma_index_split(q * channels + c, channels, q, c);
}

fn flip_pixels(data: &[u8], width: u32, height: u32, channels: u32, vertical: bool) -> (out: Vec<u8>)
    requires
        channels == 1 || channels == 4,
        width * height * channels <= data@.len(),
    ensures
        vertical ==> out@ == flipped_vertical(data@, width, height, channels as int),
        !vertical ==> out@ == flipped_horizontal(data@, width, height, channels as int),
{
    let ghost spec_out = if vertical {
        flipped_vertical(data@, width, height, channels as int)
    } else {
        flipped_horizontal(data@, width, height, channels as int)
    };
    let len = data.len();
    let ch = channels as usize;
    assert(width * height <= width * height * ch) by (nonlinear_arith)
        requires
            ch >= 1,
    ;
    let w = width as usize;
    let h = height as usize;
    let n = w * h * ch;
    let mut out: Vec<u8> = Vec::new();
    let mut k: usize = 0;
    while k < len
        invariant
            spec_out == (if vertical {
                flipped_vertical(data@, width, height, channels as int)
            } else {
                flipped_horizontal(data@, width, height, channels as int)
            }),
            channels == 1 || channels == 4,
            ch == channels,
            w == width,
            h == height,
            n == width * height * channels,
            n <= len,
            len == data@.len(),
            k <= len,
            out@.len() == k,
            forall|j: int| 0 <= j < k ==> out@[j] == spec_out[j],
        decreases len - k,
    {
        if k < n {
            proof {
                lemma_pixel_byte(k as int, ch as int, (w * h) as int);
            }
            let p = k / ch;
            let c = k % ch;
            let row = p / w;
            let col = p % w;
            proof {
                lemma_mirror_bounds(p as int, w as int, h as int);
                lemma_byte_of_pixel(mirrored_column(p as int, w as int), c as int, ch as int, (w * h) as int);
                lemma_byte_of_pixel(mirrored_row(p as int, w as int, h as int), c as int, ch as int, (w * h) as int);
            }
            let q = if vertical {
                (h - 1 - row) * w + col
            } else {
                row * w + (w - 1 - col)
            };
            out.push(data[q * ch + c]);
        } else {
            out.push(data[k]);
        }
        k += 1;
    }
    assert(out@ =~= spec_out);
    out
}

/// The RGBA pixels mirrored left to right.
pub fn flip_rgba_horizontal(data: &[u8], width: u32, height: u32) -> (out: Vec<u8>)
    requires
        width * height * 4 <= data@.len(),
    ensures
        out@ == flipped_horizontal(data@, width, height, 4),
{
    flip_pixels(data, width, height, 4, false)
}

/// The RGBA pixels mirrored top to bottom.
pub fn flip_rgba_vertical(data: &[u8], width: u32, height: u32) -> (out: Vec<u8>)
    requires
        width * height * 4 <= data@.len(),
    ensures
        out@ == flipped_vertical(data@, width, height, 4),
{
    flip_pixels(data, width, height, 4, true)
}

/// The mask mirrored left to right.
pub fn flip_mask_horizontal(data: &[u8], width: u32, height: u32) -> (out: Vec<u8>)
    requires
        width * height <= data@.len(),
    ensures
        out@ == flipped_horizontal(data@, width, height, 1),
{
    flip_pixels(data, width, height, 1, false)
}

/// The mask mirrored top to bottom.
pub fn flip_mask_vertical(data: &[u8], width: u32, height: u32) -> (out: Vec<u8>)
    requires
        width * height <= data@.len(),
    ensures
        out@ == flipped_vertical(data@, width, height, 1),
{
    flip_pixels(data, width, height, 1, true)
}

/// Mirroring left to right twice gives the buffer back.
pub proof fn law_flip_horizontal_twice(data: Seq<u8>, width: u32, height: u32, channels: int)
    requires
        channels >= 1,
        width * height * channels <= data.len(),
    ensures
        flipped_horizontal(flipped_horizontal(data, width, height, channels), width, height, channels) == data,
{
    let once = flipped_horizontal(data, width, height, channels);
    let twice = flipped_horizontal(once, width, height, channels);
    let count = width * height;
    assert forall|k: int| 0 <= k < data.len() implies twice[k] == data[k] by {
        if k < width * height * channels {
            lemma_pixel_byte(k, channels, count);
            let p = k / channels;
            let c = k % channels;
            assert(width >= 1) by (nonlinear_arith)
                requires
                    0 <= p < width * height,
            ;
            lemma_mirror_bounds(p, width as int, height as int);
            let m = mirrored_column(p, width as int);
            lemma_byte_of_pixel(m, c, channels, count);
            lemma_mirror_bounds(m, width as int, height as int);
            vstd::arithmetic::div_mod::lemma_fundamental_div_mod(p, width as int);
            assert(mirrored_column(m, width as int) == p) by (nonlinear_arith)
                requires
                    m / (width as int) == p / (width as int),
                    m % (width as int) == width - 1 - p % (width as int),
                    p == (width as int) * (p / (width as int)) + p % (width as int),
                    mirrored_column(m, width as int) == (m / (width as int)) * width + (width - 1 - m % (width as int)),
            ;
            assert(twice[k] == once[m * channels + c]);
            assert(once[m * channels + c] == data[p * channels + c]);
        }
    }
    assert(twice =~= data);
}

/// Mirroring top to bottom twice gives the buffer back.
pub proof fn law_flip_vertical_twice(data: Seq<u8>, width: u32, height: u32, channels: int)
    requires
        channels >= 1,
        width * height * channels <= data.len(),
    ensures
        flipped_vertical(flipped_vertical(data, width, height, channels), width, height, channels) == data,
{
    let once = flipped_vertical(data, width, height, channels);
    let twice = flipped_vertical(once, width, height, channels);
    let count = width * height;
    assert forall|k: int| 0 <= k < data.len() implies twice[k] == data[k] by {
        if k < width * height * channels {
            lemma_pixel_byte(k, channels, count);
            let p = k / channels;
            let c = k % channels;
            assert(width >= 1) by (nonlinear_arith)
                requires
                    0 <= p < width * height,
            ;
            lemma_mirror_bounds(p, width as int, height as int);
            let m = mirrored_row(p, width as int, height as int);
            lemma_byte_of_pixel(m, c, channels, count);
            lemma_mirror_bounds(m, width as int, height as int);
            vstd::arithmetic::div_mod::lemma_fundamental_div_mod(p, width as int);
        }
    }
    assert(twice =~= data);
}

/// On a whole buffer, byte `c` of rotated pixel `q` is byte `c` of its
/// source pixel.
proof fn lemma_rotated_byte(data: Seq<u8>, width: u32, height: u32, channels: int, fill: u8, q: int, c: int)
    requires
        channels >= 1,
        data.len() == width * height * channels,
        0 <= q < width * height,
        0 <= c < channels,
    ensures
        0 <= rotated_source(q, width as int, height as int) < width * height,
        rotated_clockwise(data, width, height, channels, fill)[q * channels + c]
            == data[rotated_source(q, width as int, height as int) * channels + c],
{
    assert(width >= 1 && height >= 1) by (nonlinear_arith)
        requires
            0 <= q < width * height,
    ;
    lemma_rotated_source_bounds(q, width as int, height as int);
    lemma_byte_of_pixel(q, c, channels, width * height);
    let src = rotated_source(q, width as int, height as int);
    assert(src * channels + channels - 1 < width * height * channels) by (nonlinear_arith)
        requires
            0 <= src < width * height,
            channels >= 1,
    ;
}

/// The rotation source of the pixel at row `r`, column `c` of the
/// `height`-wide output.
proof fn lemma_rotated_source_at(r: int, c: int, width: int, height: int)
    requires
        0 <= r < width,
        0 <= c < height,
    ensures
        rotated_source(r * height + c, width, height) == (height - 1 - c) * width + r,
        0 <= (height - 1 - c) * width + r < width * height,
{
    lemma_index_split(r * height + c, height, r, c);
    assert(0 <= (height - 1 - c) * width + r < width * height) by (nonlinear_arith)
        requires
            0 <= r < width,
            0 <= c < height,
    ;
}

/// Turning a whole buffer a quarter clockwise moves the pixel at column `x`,
/// row `y` to column `height - 1 - y`, row `x` of the `height`-wide result,
/// every byte of it unchanged.
pub proof fn law_rotate_moves_pixel(
    data: Seq<u8>,
    width: u32,
    height: u32,
    channels: int,
    fill: u8,
    x: int,
    y: int,
    c: int,
)
    requires
        channels >= 1,
        data.len() == width * height * channels,
        0 <= x < width,
        0 <= y < height,
        0 <= c < channels,
    ensures
        rotated_clockwise(data, width, height, channels, fill)[(x * height + (height - 1 - y)) * channels + c]
            == data[(y * width + x) * channels + c],
{
    let w = width as int;
    let h = height as int;
    let q = x * h + (h - 1 - y);
    lemma_rotated_source_at(x, h - 1 - y, w, h);
    assert(0 <= q < w * h) by (nonlinear_arith)
        requires
            0 <= x < w,
            0 <= y < h,
            q == x * h + (h - 1 - y),
    ;
    lemma_rotated_byte(data, width, height, channels, fill, q, c);
}

/// Turning a whole buffer a quarter clockwise four times gives it back.
pub proof fn law_rotate_four_times(data: Seq<u8>, width: u32, height: u32, channels: int, fill: u8)
    requires
        channels >= 1,
        data.len() == width * height * channels,
    ensures
        rotated_clockwise(
            rotated_clockwise(
                rotated_clockwise(rotated_clockwise(data, width, height, channels, fill), height, width, channels, fill),
                width,
                height,
                channels,
                fill,
            ),
            height,
            width,
            channels,
            fill,
        ) == data,
{
    let w = width as int;
    let h = height as int;
    let r1 = rotated_clockwise(data, width, height, channels, fill);
    let r2 = rotated_clockwise(r1, height, width, channels, fill);
    let r3 = rotated_clockwise(r2, width, height, channels, fill);
    let r4 = rotated_clockwise(r3, height, width, channels, fill);
    assert(h * w * channels == w * h * channels) by (nonlinear_arith);
    assert(h * w == w * h) by (nonlinear_arith);
    assert forall|k: int| 0 <= k < data.len() implies r4[k] == data[k] by {
        lemma_pixel_byte(k, channels, w * h);
        let p = k / channels;
        let c = k % channels;
        assert(w >= 1) by (nonlinear_arith)
            requires
                0 <= p < w * h,
                w >= 0,
                h >= 0,
        ;
        lemma_grid_position(p, w, h);
        let row = p / w;
        let col = p % w;
        vstd::arithmetic::div_mod::lemma_fundamental_div_mod(p, w);
        assert(p == row * w + col) by (nonlinear_arith)
            requires
                p == w * (p / w) + p % w,
                row == p / w,
                col == p % w,
        ;
        lemma_rotated_source_at(row, col, h, w);
        let s1 = (w - 1 - col) * h + row;
        lemma_rotated_source_at(w - 1 - col, row, w, h);
        let s2 = (h - 1 - row) * w + (w - 1 - col);
        lemma_rotated_source_at(h - 1 - row, w - 1 - col, h, w);
        let s3 = col * h + (h - 1 - row);
        lemma_rotated_source_at(col, h - 1 - row, w, h);
        lemma_rotated_byte(r3, height, width, channels, fill, p, c);
        lemma_rotated_byte(r2, width, height, channels, fill, s1, c);
        lemma_rotated_byte(r1, height, width, channels, fill, s2, c);
        lemma_rotated_byte(data, width, height, channels, fill, s3, c);
    }
    assert(r4 =~= data);
}

/// Scaling a whole buffer to its own size gives it back.
pub proof fn law_resize_to_same_size(data: Seq<u8>, width: u32, height: u32, channels: int, fill: u8)
    requires
        width >= 1,
        height >= 1,
        channels >= 1,
        data.len() == width * height * channels,
    ensures
        resized_nearest(data, width, height, width, height, channels, fill) == data,
{
    let w = width as int;
    let h = height as int;
    let out = resized_nearest(data, width, height, width, height, channels, fill);
    assert forall|k: int| 0 <= k < data.len() implies out[k] == data[k] by {
        lemma_pixel_byte(k, channels, w * h);
        let p = k / channels;
        let c = k % channels;
        lemma_grid_position(p, w, h);
        let row = p / w;
        let col = p % w;
        vstd::arithmetic::div_mod::lemma_fundamental_div_mod(p, w);
        lemma_nearest_source_bounds(row, h, h);
        lemma_nearest_source_bounds(col, w, w);
        vstd::arithmetic::div_mod::lemma_div_multiples_vanish(row, h);
        vstd::arithmetic::div_mod::lemma_div_multiples_vanish(col, w);
        assert(row * h == h * row && col * w == w * col) by (nonlinear_arith);
        assert(nearest_source(row, h, h) == row);
        assert(nearest_source(col, w, w) == col);
        assert((row * w + col) * channels == p * channels) by (nonlinear_arith)
            requires
                p == w * row + col,
        ;
        lemma_byte_of_pixel(p, c, channels, w * h);
        assert(p * channels + channels - 1 < data.len()) by (nonlinear_arith)
            requires
                0 <= p < w * h,
                data.len() == w * h * channels,
                channels >= 1,
        ;
    }
    assert(out =~= data);
}

/// Putting a whole buffer on a canvas of its own size gives it back.
pub proof fn law_fit_to_same_size(data: Seq<u8>, width: u32, height: u32, channels: int, fill: u8)
    requires
        channels >= 1,
        data.len() == width * height * channels,
    ensures
        fitted_to_canvas(data, width, height, width, height, channels, fill) == data,
{
    let w = width as int;
    let h = height as int;
    let out = fitted_to_canvas(data, width, height, width, height, channels, fill);
    assert forall|k: int| 0 <= k < data.len() implies out[k] == data[k] by {
        let d = w * channels;
        assert(d >= 1 && k < d * h) by (nonlinear_arith)
            requires
                0 <= k < w * h * channels,
                d == w * channels,
                channels >= 1,
                w >= 0,
                h >= 0,
        ;
        lemma_grid_position(k, d, h);
        let row = k / d;
        let b = k % d;
        vstd::arithmetic::div_mod::lemma_fundamental_div_mod(k, d);
        assert(row * w * channels + b == k && row * w * channels + w * channels <= data.len()) by (nonlinear_arith)
            requires
                k == d * row + b,
                d == w * channels,
                0 <= row < h,
                data.len() == w * h * channels,
        ;
    }
    assert(out =~= data);
}

} // verus!
