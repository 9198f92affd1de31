//! The transform pipeline: image buffers and the two reversible transforms.
//!
//! An image is a plain pixel buffer with its dimensions and channel count.
//! Two independent toggles act on it: grayscale (standard luma mapping,
//! computed by the `image` crate and tagged single-channel) and mirror
//! (horizontal flip, same dimensions).  The displayed image is always
//! recomputed from the unmodified base, never from an already-transformed
//! buffer, so toggling never accumulates loss.

use vstd::prelude::*;
use vstd::arithmetic::div_mod::{
    lemma_fundamental_div_mod, lemma_fundamental_div_mod_converse, lemma_mod_bound,
};

verus! {

/// A decoded image: `channels` bytes per pixel, rows of `width` pixels,
/// `height` rows, row-major.
pub struct ImageData {
    pub width: usize,
    pub height: usize,
    pub channels: usize,
    pub pixels: Vec<u8>,
}

/// The mathematical value of an [`ImageData`].
#[verifier::ext_equal]
pub ghost struct ImageView {
    pub width: nat,
    pub height: nat,
    pub channels: nat,
    pub pixels: Seq<u8>,
}

impl View for ImageData {
    type V = ImageView;

    open spec fn view(&self) -> ImageView {
        ImageView {
            width: self.width as nat,
            height: self.height as nat,
            channels: self.channels as nat,
            pixels: self.pixels@,
        }
    }
}

impl ImageView {
    /// A well-formed image: grayscale or RGB, dimensions that the decoder
    /// could have produced, and a buffer of exactly the right length.
    pub open spec fn wf(self) -> bool {
        &&& self.channels == 1 || self.channels == 3
        &&& self.width <= u32::MAX
        &&& self.height <= u32::MAX
        &&& self.pixels.len() == self.width * self.height * self.channels
    }
}

impl Clone for ImageData {
    fn clone(&self) -> (r: Self)
        ensures
            r@ == self@,
    {
        ImageData {
            width: self.width,
            height: self.height,
            channels: self.channels,
            pixels: self.pixels.clone(),
        }
    }
}

/// Names the buffer that `image::imageops::grayscale` computes from an RGB
/// buffer of the given dimensions; it depends on those three values alone.
pub uninterp spec fn luma_of(pixels: Seq<u8>, width: nat, height: nat) -> Seq<u8>;

/// Relies on `image::imageops::grayscale` (through `RgbImage::from_raw` and
/// `ImageBuffer::into_raw`, which only wrap and unwrap the buffer): it maps
/// each RGB pixel to one luma byte, keeping the dimensions, and its result
/// is a function of the buffer and dimensions alone.
#[verifier::external_body]
pub(crate) fn grayscale_rgb(pixels: &Vec<u8>, width: usize, height: usize) -> (r: Vec<u8>)
    requires
        pixels@.len() == width * height * 3,
        width <= u32::MAX,
        height <= u32::MAX,
    ensures
        r@ == luma_of(pixels@, width as nat, height as nat),
        r@.len() == width * height,
{
    let buf: image::RgbImage = image::RgbImage::from_raw(width as u32, height as u32, pixels.clone())
        .expect("buffer length matches the dimensions");
    image::imageops::grayscale(&buf).into_raw()
}

/// The grayscale transform on image values: an already-grayscale image is
/// left alone, an RGB image becomes the single-channel luma image.
pub open spec fn gray_view(v: ImageView) -> ImageView {
    if v.channels == 1 {
        v
    } else {
        ImageView {
            width: v.width,
            height: v.height,
            channels: 1,
            pixels: luma_of(v.pixels, v.width, v.height),
        }
    }
}

/// The buffer index that a horizontal flip reads pixel-for-pixel: same row,
/// mirrored column, same channel.
pub open spec fn flip_index(i: int, w: int, ch: int) -> int {
    let row_len = w * ch;
    let row = i / row_len;
    let x = (i % row_len) / ch;
    let c = (i % row_len) % ch;
    row * row_len + (w - 1 - x) * ch + c
}

/// A horizontally flipped buffer.
pub open spec fn flip_pixels(p: Seq<u8>, w: int, ch: int) -> Seq<u8> {
    Seq::new(p.len(), |i: int| p[flip_index(i, w, ch)])
}

/// The mirror transform on image values: same dimensions, flipped buffer.
pub open spec fn flip_view(v: ImageView) -> ImageView {
    ImageView {
        width: v.width,
        height: v.height,
        channels: v.channels,
        pixels: flip_pixels(v.pixels, v.width as int, v.channels as int),
    }
}

/// What the two toggles make of a base image: grayscale first if on, then
/// mirror if on.  The displayed image is always this function of the
/// unmodified base and the toggles.
pub open spec fn apply_transforms(v: ImageView, black_and_white: bool, mirrored: bool) -> ImageView {
    let g = if black_and_white {
        gray_view(v)
    } else {
        v
    };
    if mirrored {
        flip_view(g)
    } else {
        g
    }
}

/// Decomposing a flat buffer index built from a row, a column and a channel
/// recovers exactly those three coordinates.
proof fn lemma_flat_index(row: int, x: int, c: int, w: int, ch: int)
    requires
        0 < ch,
        0 <= row,
        0 <= x < w,
        0 <= c < ch,
    ensures
        ({
            let i = row * (w * ch) + x * ch + c;
            &&& i / (w * ch) == row
            &&& (i % (w * ch)) / ch == x
            &&& (i % (w * ch)) % ch == c
        }),
{
    let rl = w * ch;
    let i = row * rl + x * ch + c;
    assert(0 <= x * ch + c < w * ch && 0 < w * ch) by (nonlinear_arith)
        requires
            0 < ch,
            0 <= x < w,
            0 <= c < ch,
    ;
    lemma_fundamental_div_mod_converse(i, rl, row, x * ch + c);
    lemma_fundamental_div_mod_converse(x * ch + c, ch, x, c);
}

/// Every index of a buffer decomposes into a row, a column and a channel,
/// and the flip index swaps the column within the same row; applying it
/// twice returns to the original index.
proof fn lemma_flip_index_maps(i: int, w: int, h: int, ch: int)
    requires
        0 < w,
        0 < h,
        0 < ch,
        0 <= i < w * h * ch,
    ensures
        0 <= flip_index(i, w, ch) < w * h * ch,
        flip_index(flip_index(i, w, ch), w, ch) == i,
{
    let rl = w * ch;
    assert(0 < w * ch && w * h * ch == h * (w * ch)) by (nonlinear_arith)
        requires
            0 < w && 0 < h && 0 < ch,
    ;
    let row = i / rl;
    let rem = i % rl;
    let x = rem / ch;
    let c = rem % ch;
    lemma_fundamental_div_mod(i, rl);
    lemma_mod_bound(i, rl);
    lemma_fundamental_div_mod(rem, ch);
    lemma_mod_bound(rem, ch);
    assert(0 <= row && row < h) by (nonlinear_arith)
        requires
            0 < rl,
            0 <= i < h * rl,
            i == rl * row + rem,
            0 <= rem < rl,
    ;
    assert(0 <= x && x < w) by (nonlinear_arith)
        requires
            0 < ch,
            0 <= rem < w * ch,
            rem == ch * x + c,
            0 <= c < ch,
    ;
    let j = row * rl + (w - 1 - x) * ch + c;
    assert(i == row * rl + x * ch + c) by (nonlinear_arith)
        requires
            i == rl * row + rem,
            rem == ch * x + c,
    ;
    assert(flip_index(i, w, ch) == j) by {
        lemma_flat_index(row, x, c, w, ch);
    }
    assert(0 <= j < h * rl) by (nonlinear_arith)
        requires
            0 < ch,
            0 <= row < h,
            0 <= w - 1 - x < w,
            0 <= c < ch,
            rl == w * ch,
            j == row * rl + (w - 1 - x) * ch + c,
    ;
    lemma_flat_index(row, w - 1 - x, c, w, ch);
    assert(flip_index(j, w, ch) == row * rl + (w - 1 - (w - 1 - x)) * ch + c);
    assert(flip_index(j, w, ch) == i) by (nonlinear_arith)
        requires
            flip_index(j, w, ch) == row * rl + (w - 1 - (w - 1 - x)) * ch + c,
            i == row * rl + x * ch + c,
    ;
}

/// Mirroring is an involution: flipping a buffer twice restores it
/// bit-for-bit.
pub proof fn lemma_flip_pixels_involution(p: Seq<u8>, w: int, h: int, ch: int)
    requires
        0 <= w,
        0 <= h,
        0 < ch,
        p.len() == w * h * ch,
    ensures
        flip_pixels(flip_pixels(p, w, ch), w, ch) == p,
{
    let q = flip_pixels(p, w, ch);
    let r = flip_pixels(q, w, ch);
    if p.len() == 0 {
        assert(r =~= p);
    } else {
        assert(0 < w && 0 < h) by (nonlinear_arith)
            requires
                0 <= w,
                0 <= h,
                0 < ch,
                0 < w * h * ch,
        ;
        assert forall|i: int| 0 <= i < p.len() implies r[i] == p[i] by {
            lemma_flip_index_maps(i, w, h, ch);
        }
        assert(r =~= p);
    }
}

/// Mirroring an image twice restores it exactly.
pub proof fn lemma_mirror_round_trip(v: ImageView)
    requires
        v.wf(),
    ensures
        flip_view(flip_view(v)) == v,
{
    lemma_flip_pixels_involution(v.pixels, v.width as int, v.height as int, v.channels as int);
    assert(flip_view(flip_view(v)) =~= v);
}

/// Round trips of the toggles on the displayed image: with both toggles
/// off the base image shows unchanged, so switching a toggle on and back
/// off reproduces the unmodified image bit-for-bit; and switching one
/// toggle off leaves exactly the other's effect.
pub proof fn lemma_transform_round_trip(v: ImageView)
    requires
        v.wf(),
    ensures
        apply_transforms(v, false, false) == v,
        apply_transforms(v, false, true) == flip_view(v),
        apply_transforms(v, true, false) == gray_view(v),
{
}

/// A horizontally flipped copy of a pixel buffer: same dimensions, each
/// row reversed pixel-wise, channels kept in order within a pixel.
pub fn flip_horizontal(pixels: &Vec<u8>, width: usize, height: usize, channels: usize) -> (r: Vec<
    u8,
>)
    requires
        0 < channels,
        pixels@.len() == width * height * channels,
    ensures
        r@ == flip_pixels(pixels@, width as int, channels as int),
{
    let ghost w = width as int;
    let ghost h = height as int;
    let ghost chn = channels as int;
    let total: usize = pixels.len();
    let mut out: Vec<u8> = Vec::new();
    let mut y: usize = 0;
    while y < height
        invariant
            0 < channels,
            pixels@.len() == width * height * channels,
            width * height * channels <= usize::MAX,
            y <= height,
            out@.len() == y * width * channels,
            forall|k: int|
                0 <= k < out@.len() ==> #[trigger] out@[k] == pixels@[flip_index(
                    k,
                    width as int,
                    channels as int,
                )],
        decreases height - y,
    {
        let mut x: usize = 0;
        while x < width
            invariant
                0 < channels,
                pixels@.len() == width * height * channels,
                width * height * channels <= usize::MAX,
                y < height,
                x <= width,
                out@.len() == (y * width + x) * channels,
                forall|k: int|
                    0 <= k < out@.len() ==> #[trigger] out@[k] == pixels@[flip_index(
                        k,
                        width as int,
                        channels as int,
                    )],
            decreases width - x,
        {
            let mut c: usize = 0;
            while c < channels
                invariant
                    0 < channels,
                    pixels@.len() == width * height * channels,
                    width * height * channels <= usize::MAX,
                    y < height,
                    x < width,
                    c <= channels,
                    out@.len() == (y * width + x) * channels + c,
                    forall|k: int|
                        0 <= k < out@.len() ==> #[trigger] out@[k] == pixels@[flip_index(
                            k,
                            width as int,
                            channels as int,
                        )],
                decreases channels - c,
            {
                proof {
                    assert(y * width + (width - 1 - x) < width * height && width * height <= width
                        * height * channels && (y * width + (width - 1 - x)) * channels + c < width
                        * height * channels && (y * width + x) * channels + c < width * height
                        * channels) by (nonlinear_arith)
                        requires
                            0 < channels,
                            y < height,
                            x < width,
                            c < channels,
                    ;
                    let wi = width as int;
                    let ci = channels as int;
                    let idx: int = (y * width + x) * channels + c;
                    assert(idx == (y as int) * (wi * ci) + (x as int) * ci + (c as int))
                        by (nonlinear_arith)
                        requires
                            idx == (y * width + x) * channels + c,
                            wi == width as int,
                            ci == channels as int,
                    ;
                    lemma_flat_index(y as int, x as int, c as int, wi, ci);
                    assert(flip_index(idx, wi, ci) == (y as int) * (wi * ci) + (wi - 1 - x) * ci
                        + c);
                    assert((y as int) * (wi * ci) + (wi - 1 - x) * ci + c == (y * width + (width - 1
                        - x)) * channels + c) by (nonlinear_arith)
                        requires
                            wi == width as int,
                            ci == channels as int,
                            x < width,
                    ;
                }
                let src: usize = (y * width + (width - 1 - x)) * channels + c;
                out.push(pixels[src]);
                c += 1;
            }
            proof {
                assert((y * width + x) * channels + channels == (y * width + (x + 1)) * channels)
                    by (nonlinear_arith);
            }
            x += 1;
        }
        proof {
            assert((y * width + width) * channels == (y + 1) * width * channels)
                by (nonlinear_arith);
        }
        y += 1;
    }
    proof {
        assert(height * width * channels == width * height * channels) by (nonlinear_arith);
        assert(out@ =~= flip_pixels(pixels@, w, chn));
    }
    out
}

} // verus!
