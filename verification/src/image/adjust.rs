//! Per-pixel filters on 4-byte pixels: deterministic noise, inversion and
//! a weighted grey. The fourth byte of every pixel (alpha) is left alone.

use vstd::prelude::*;

verus! {

/// A byte value pulled into 0..=255.
pub open spec fn clamp_byte(v: int) -> u8 {
    if v < 0 {
        0u8
    } else if v > 255 {
        255u8
    } else {
        v as u8
    }
}

/// The offset, in -15..=15, that noise adds at column `x`, row `y`: a hash
/// of the position, so the same image always gets the same noise.
pub open spec fn noise_offset(x: int, y: int) -> int {
    (((x * 73_856_093) as u64 ^ (y * 19_349_663) as u64) % 31) as int - 15
}

/// `data` with the noise offset added (and clamped) to the first three
/// bytes of each of the first `width * height` pixels.
pub open spec fn noised(data: Seq<u8>, width: u32, height: u32) -> Seq<u8> {
    Seq::new(
        data.len(),
        |k: int|
            if k / 4 < width * height && k % 4 < 3 {
                clamp_byte(data[k] + noise_offset((k / 4) % (width as int), (k / 4) / (width as int)))
            } else {
                data[k]
            },
    )
}

/// `data` with every byte but each pixel's fourth replaced by `255 - byte`.
pub open spec fn inverted(data: Seq<u8>) -> Seq<u8> {
    Seq::new(data.len(), |k: int| if k % 4 == 3 { data[k] } else { (255 - data[k]) as u8 })
}

/// The grey of a pixel whose first three bytes are `b`, `g`, `r`.
pub open spec fn grey_of(b: u8, g: u8, r: u8) -> u8 {
    ((r * 30 + g * 59 + b * 11) / 100) as u8
}

/// `data` with the first three bytes of every pixel set to the pixel's grey.
pub open spec fn greyed(data: Seq<u8>) -> Seq<u8> {
    Seq::new(
        data.len(),
        |k: int|
            if k % 4 < 3 {
                let i = k - k % 4;
                grey_of(data[i], data[i + 1], data[i + 2])
            } else {
                data[k]
            },
    )
}

/// Noise reaches the third byte of the last of `width * height` pixels.
pub open spec fn noise_fits(len: int, width: u32, height: u32) -> bool {
    width * height * 4 <= len + 1
}

/// Every pixel that starts inside the buffer has its first three bytes.
pub open spec fn grey_fits(len: int) -> bool {
    len % 4 == 0 || len % 4 == 3
}

/// Adds deterministic noise in -15..=15 to the colour bytes of each pixel.
pub fn filter_noise(data: &mut Vec<u8>, width: u32, height: u32)
    requires
        noise_fits(old(data)@.len() as int, width, height),
    ensures
        final(data)@ == noised(old(data)@, width, height),
{
    let len = data.len();
    assert(width * height <= usize::MAX) by (nonlinear_arith)
        requires
            width * height * 4 <= len + 1,
            len <= usize::MAX,
    ;
    let count = width as usize * height as usize;
    let w = width as usize;
    let mut out: Vec<u8> = Vec::new();
    let mut k: usize = 0;
    while k < len
        invariant
            len == data@.len(),
            data@ == old(data)@,
            count == width * height,
            w == width,
            k <= len,
            out@.len() == k,
            forall|j: int| 0 <= j < k ==> out@[j] == noised(old(data)@, width, height)[j],
        decreases len - k,
    {
        let p = k / 4;
        if p < count && k % 4 < 3 {
            proof {
                crate::image::transform::lemma_grid_position(p as int, w as int, height as int);
            }
            let x = (p % w) as u64;
            let y = (p / w) as u64;
            assert(x * 73_856_093 <= u64::MAX && y * 19_349_663 <= u64::MAX) by (nonlinear_arith)
                requires
                    x <= u32::MAX,
                    y <= u32::MAX,
            ;
            let n = ((x * 73_856_093) ^ (y * 19_349_663)) % 31;
            let v = data[k] as u64 + n;
            let b = if v < 15 {
                0u8
            } else if v - 15 > 255 {
                255u8
            } else {
                (v - 15) as u8
            };
            out.push(b);
        } else {
            out.push(data[k]);
        }
        k += 1;
    }
    assert(out@ =~= noised(old(data)@, width, height));
    *data = out;
}

/// Inverts the colour bytes of every pixel, keeping alpha.
pub fn filter_invert(data: &mut Vec<u8>)
    ensures
        final(data)@ == inverted(old(data)@),
{
    let len = data.len();
    let mut k: usize = 0;
    while k < len
        invariant
            len == data@.len(),
            len == old(data)@.len(),
            k <= len,
            forall|j: int| 0 <= j < k ==> data@[j] == inverted(old(data)@)[j],
            forall|j: int| k <= j < len ==> data@[j] == old(data)@[j],
        decreases len - k,
    {
        if k % 4 != 3 {
            let v = data[k];
            data.set(k, 255 - v);
        }
        k += 1;
    }
    assert(data@ =~= inverted(old(data)@));
}

/// Sets the colour bytes of every pixel to its weighted grey
/// (30% of the third byte, 59% of the second, 11% of the first).
pub fn filter_grayscale(data: &mut Vec<u8>)
    requires
        grey_fits(old(data)@.len() as int),
    ensures
        final(data)@ == greyed(old(data)@),
{
    let len = data.len();
    let mut out: Vec<u8> = Vec::new();
    let mut k: usize = 0;
    while k < len
        invariant
            len == data@.len(),
            data@ == old(data)@,
            grey_fits(len as int),
            k <= len,
            out@.len() == k,
            forall|j: int| 0 <= j < k ==> out@[j] == greyed(old(data)@)[j],
        decreases len - k,
    {
        if k % 4 < 3 {
            let i = k - k % 4;
            assert(i + 2 < len) by (nonlinear_arith)
                requires
                    i == k - k % 4,
                    k < len,
                    k % 4 < 3,
                    len % 4 == 0 || len % 4 == 3,
                    k == 4 * (k / 4) + k % 4,
                    len == 4 * (len / 4) + len % 4,
                    0 <= k % 4,
            ;
            let b = data[i] as u32;
            let g = data[i + 1] as u32;
            let r = data[i + 2] as u32;
            let grey = ((r * 30 + g * 59 + b * 11) / 100) as u8;
            out.push(grey);
        } else {
            out.push(data[k]);
        }
        k += 1;
    }
    assert(out@ =~= greyed(old(data)@));
    *data = out;
}

/// Grayscale works pixel by pixel: the three colour bytes of pixel `p`
/// (bytes `4p`, `4p + 1`, `4p + 2`, read as blue, green, red) all become
/// `(red * 30 + green * 59 + blue * 11) / 100` of that pixel's own bytes,
/// its alpha byte stays, and the buffer keeps its length.
pub proof fn law_grayscale_per_pixel(data: Seq<u8>, p: int)
    requires
        0 <= p,
        4 * p + 2 < data.len(),
    ensures
        greyed(data).len() == data.len(),
        greyed(data)[4 * p] == ((data[4 * p + 2] * 30 + data[4 * p + 1] * 59 + data[4 * p] * 11) / 100) as u8,
        greyed(data)[4 * p + 1] == greyed(data)[4 * p],
        greyed(data)[4 * p + 2] == greyed(data)[4 * p],
        4 * p + 3 < data.len() ==> greyed(data)[4 * p + 3] == data[4 * p + 3],
{
    assert((4 * p) % 4 == 0 && (4 * p + 1) % 4 == 1 && (4 * p + 2) % 4 == 2 && (4 * p + 3) % 4 == 3)
        by (nonlinear_arith)
        requires
            0 <= p,
    ;
}

/// A pixel that is already grey (three equal colour bytes) keeps its colour
/// under grayscale.
pub proof fn law_grayscale_keeps_grey(data: Seq<u8>, p: int)
    requires
        0 <= p,
        4 * p + 2 < data.len(),
        data[4 * p] == data[4 * p + 1],
        data[4 * p + 1] == data[4 * p + 2],
    ensures
        greyed(data)[4 * p] == data[4 * p],
        greyed(data)[4 * p + 1] == data[4 * p],
        greyed(data)[4 * p + 2] == data[4 * p],
{
    law_grayscale_per_pixel(data, p);
    let v = data[4 * p] as int;
    assert((v * 30 + v * 59 + v * 11) / 100 == v) by (nonlinear_arith);
}

/// Inversion works pixel by pixel: each colour byte `b` of pixel `p`
/// becomes `255 - b` and its alpha byte stays.
pub proof fn law_invert_per_pixel(data: Seq<u8>, p: int)
    requires
        0 <= p,
        4 * p + 3 < data.len(),
    ensures
        inverted(data).len() == data.len(),
        inverted(data)[4 * p] == 255 - data[4 * p],
        inverted(data)[4 * p + 1] == 255 - data[4 * p + 1],
        inverted(data)[4 * p + 2] == 255 - data[4 * p + 2],
        inverted(data)[4 * p + 3] == data[4 * p + 3],
        inverted(inverted(data)) == data,
{
    assert((4 * p) % 4 == 0 && (4 * p + 1) % 4 == 1 && (4 * p + 2) % 4 == 2 && (4 * p + 3) % 4 == 3)
        by (nonlinear_arith)
        requires
            0 <= p,
    ;
    assert(inverted(inverted(data)) =~= data);
}

/// Noise works pixel by pixel: the three colour bytes of pixel `p` (at
/// column `p % width`, row `p / width` of the image) all get the same offset
/// of that position, in -15..=15, clamped to a byte; its alpha byte stays,
/// and pixels beyond `width * height` are untouched.
pub proof fn law_noise_per_pixel(data: Seq<u8>, width: u32, height: u32, p: int, c: int)
    requires
        0 <= p,
        0 <= c < 3,
        4 * p + 3 < data.len(),
    ensures
        noised(data, width, height).len() == data.len(),
        -15 <= noise_offset(p % (width as int), p / (width as int)) <= 15,
        p < width * height ==> noised(data, width, height)[4 * p + c] == clamp_byte(
            data[4 * p + c] + noise_offset(p % (width as int), p / (width as int)),
        ),
        p >= width * height ==> noised(data, width, height)[4 * p + c] == data[4 * p + c],
        noised(data, width, height)[4 * p + 3] == data[4 * p + 3],
{
    assert((4 * p + c) / 4 == p && (4 * p + c) % 4 == c && (4 * p + 3) % 4 == 3 && (4 * p + 3) / 4 == p)
        by (nonlinear_arith)
        requires
            0 <= p,
            0 <= c < 3,
    ;
}

} // verus!
