//! Album-art handling: raw bytes from the native source are decoded,
//! optionally stripped of a known watermark, downscaled when larger than
//! 1000 px on the long edge, re-encoded as PNG and wrapped in a
//! `data:image/png;base64,` URI.
//!
//! A decoded image is opaque pixel data; the contracts observe it through
//! named readings — its dimensions, its top-left pixel, its PNG rendering —
//! and every decision (which file a URL names, whether to crop, the exact
//! target dimensions) is verified against them. The pixel work itself is
//! done by the image codec behind trusted wrappers.

use vstd::prelude::*;
use vstd::string::StringSliceAdditionalSpecFns;
use vstd::utf8::encode_utf8;
use base64::Engine;
use image::GenericImageView;
use crate::parse::spec_match_at;

verus! {

/// The longest edge an emitted album-art image may have, in pixels.
pub const MAX_EDGE: u32 = 1000;

/// Where the fixed inner rectangle of a watermarked cover starts and how
/// large it is.
pub const WATERMARK_CROP_X: u32 = 34;

pub const WATERMARK_CROP_Y: u32 = 1;

pub const WATERMARK_CROP_W: u32 = 233;

pub const WATERMARK_CROP_H: u32 = 233;

#[verifier::external_type_specification]
#[verifier::external_body]
pub struct ExDynamicImage(image::DynamicImage);

/// The width and height of a decoded image: what its dimension readers
/// return.
pub uninterp spec fn image_dims(img: image::DynamicImage) -> (u32, u32);

/// The top-left pixel of a decoded image as RGBA, or nothing for an image
/// without pixels: what walking its pixels from the top-left yields first.
pub uninterp spec fn image_top_left(img: image::DynamicImage) -> Option<(u8, u8, u8, u8)>;

/// The PNG rendering of a decoded image, or nothing when the encoder
/// refuses it.
pub uninterp spec fn image_png(img: image::DynamicImage) -> Option<Seq<u8>>;

/// Whether an image carries floating-point samples — the one sample family
/// the PNG encoder refuses.
pub uninterp spec fn image_float(img: image::DynamicImage) -> bool;

/// What decoding a byte sequence yields: nothing for bytes no codec reads,
/// else the decoded image's dimensions, top-left pixel, and whether its
/// samples are floating-point. The result depends on the bytes alone.
pub uninterp spec fn spec_decode(b: Seq<u8>) -> Option<
    ((u32, u32), Option<(u8, u8, u8, u8)>, bool),
>;

/// Relies on image::load_from_memory: decodes an image from raw bytes, in
/// whatever container format the bytes carry, deterministically; a failure
/// becomes `None`.
#[verifier::external_body]
fn load_image(bytes: &Vec<u8>) -> (r: Option<image::DynamicImage>)
    ensures
        match r {
            Some(img) => spec_decode(bytes@) == Some(
                (image_dims(img), image_top_left(img), image_float(img)),
            ),
            None => spec_decode(bytes@) is None,
        },
{
    match image::load_from_memory(bytes.as_slice()) {
        Ok(img) => Some(img),
        Err(_) => None,
    }
}

/// Relies on DynamicImage::width.
#[verifier::external_body]
fn image_width(img: &image::DynamicImage) -> (r: u32)
    ensures
        r == image_dims(*img).0,
{
    img.width()
}

/// Relies on DynamicImage::height.
#[verifier::external_body]
fn image_height(img: &image::DynamicImage) -> (r: u32)
    ensures
        r == image_dims(*img).1,
{
    img.height()
}

/// Relies on GenericImageView::pixels: the iterator starts at the top-left
/// pixel. The caller establishes that the image has at least one pixel in
/// each dimension; the iterator's first step stays in bounds only then.
#[verifier::external_body]
fn top_left_pixel(img: &image::DynamicImage) -> (r: Option<(u8, u8, u8, u8)>)
    requires
        image_dims(*img).0 > 0,
        image_dims(*img).1 > 0,
    ensures
        r == image_top_left(*img),
        r is Some,
{
    img.pixels().next().map(|(_, _, p)| (p.0[0], p.0[1], p.0[2], p.0[3]))
}

/// A rectangle cut at `(x, y)` of size `w` by `h` out of an image of the
/// given dimensions, clamped to its bounds — the arithmetic the image
/// crate's cropping performs.
pub open spec fn spec_crop_dims(dims: (u32, u32), x: u32, y: u32, w: u32, h: u32) -> (u32, u32) {
    let cx = if x < dims.0 {
        x
    } else {
        dims.0
    };
    let cy = if y < dims.1 {
        y
    } else {
        dims.1
    };
    let cw = if w <= dims.0 - cx {
        w
    } else {
        (dims.0 - cx) as u32
    };
    let ch = if h <= dims.1 - cy {
        h
    } else {
        (dims.1 - cy) as u32
    };
    (cw, ch)
}

/// Relies on DynamicImage::crop_imm: cuts out the given rectangle, clamped
/// to the image's bounds, so the result has exactly the clamped dimensions;
/// the cut keeps the image's sample family.
#[verifier::external_body]
fn crop_image(img: &image::DynamicImage, x: u32, y: u32, w: u32, h: u32) -> (r:
    image::DynamicImage)
    ensures
        image_dims(r) == spec_crop_dims(image_dims(*img), x, y, w, h),
        image_float(r) == image_float(*img),
{
    img.crop_imm(x, y, w, h)
}

/// Relies on DynamicImage::resize_exact with the triangle filter: the
/// result has exactly the given dimensions and keeps the image's sample
/// family.
#[verifier::external_body]
fn resize_image(img: &image::DynamicImage, w: u32, h: u32) -> (r: image::DynamicImage)
    ensures
        image_dims(r) == (w, h),
        image_float(r) == image_float(*img),
{
    img.resize_exact(w, h, image::imageops::FilterType::Triangle)
}

/// Relies on DynamicImage::write_to with the PNG format: yields the image's
/// PNG rendering; a failure becomes `None`. The encoder refuses only a zero
/// dimension or floating-point samples, and a write into memory cannot
/// fail, so success is owed for every other image of bounded dimensions.
#[verifier::external_body]
fn encode_png(img: &image::DynamicImage) -> (r: Option<Vec<u8>>)
    ensures
        match r {
            Some(p) => image_png(*img) == Some(p@),
            None => image_png(*img) is None,
        },
        image_dims(*img).0 >= 1 && image_dims(*img).1 >= 1 && image_dims(*img).0 <= 0x7fffffff
            && image_dims(*img).1 <= 0x7fffffff && !image_float(*img) ==> r is Some,
{
    let mut bytes: Vec<u8> = Vec::new();
    match img.write_to(&mut std::io::Cursor::new(&mut bytes), image::ImageFormat::Png) {
        Ok(()) => Some(bytes),
        Err(_) => None,
    }
}

/// The standard base64 rendering, with padding, of a byte sequence.
pub uninterp spec fn base64_of(b: Seq<u8>) -> Seq<char>;

/// Relies on base64's STANDARD engine: encodes with the standard alphabet
/// and padding, four characters for every started group of three bytes. The
/// result depends on the bytes alone. The engine's one panic, an
/// encoded-length overflow, needs an input of more than three quarters of
/// the address space — longer than any vector std lets exist, since no
/// allocation exceeds `isize::MAX` bytes — so the call returns for every
/// real input.
#[verifier::external_body]
fn base64_encode(b: &Vec<u8>) -> (r: String)
    ensures
        r@ == base64_of(b@),
        r@.len() == 4 * ((b@.len() + 2) / 3),
{
    base64::prelude::BASE64_STANDARD.encode(b.as_slice())
}

/// An ASCII hexadecimal digit, either case.
pub open spec fn is_hex_u8(b: u8) -> bool {
    (48 <= b && b <= 57) || (65 <= b && b <= 70) || (97 <= b && b <= 102)
}

/// The value of an ASCII hexadecimal digit.
pub open spec fn hex_val_u8(b: u8) -> int {
    if 48 <= b && b <= 57 {
        b - 48
    } else if 65 <= b && b <= 70 {
        b - 55
    } else {
        b - 87
    }
}

/// Percent-decoding of a byte sequence: every `%` followed by two
/// hexadecimal digits becomes the byte they name; any other byte, a `%`
/// without two hexadecimal digits included, passes through unchanged.
pub open spec fn spec_pct_decode(s: Seq<u8>) -> Seq<u8>
    decreases s.len(),
{
    if s.len() == 0 {
        Seq::empty()
    } else if s[0] == 37 && s.len() >= 3 && is_hex_u8(s[1]) && is_hex_u8(s[2]) {
        seq![(hex_val_u8(s[1]) * 16 + hex_val_u8(s[2])) as u8] + spec_pct_decode(s.skip(3))
    } else {
        seq![s[0]] + spec_pct_decode(s.skip(1))
    }
}

/// Relies on percent_encoding::percent_decode_str: decodes every `%`
/// followed by two hexadecimal digits and passes all other bytes through.
#[verifier::external_body]
fn percent_decode_bytes(s: &str) -> (r: Vec<u8>)
    ensures
        r@ == spec_pct_decode(s.spec_bytes()),
{
    percent_encoding::percent_decode_str(s).collect::<Vec<u8>>()
}

/// The dimensions an image of size `w` by `h` is scaled to, if it needs
/// scaling at all: nothing when both edges are within the limit; otherwise
/// the long edge becomes exactly the limit and the short edge its rounded
/// proportional length, at least one pixel.
pub open spec fn spec_scaled(w: int, h: int) -> Option<(int, int)> {
    if w <= MAX_EDGE && h <= MAX_EDGE {
        None
    } else if w >= h {
        Some((MAX_EDGE as int, spec_short_edge(w, h)))
    } else {
        Some((spec_short_edge(h, w), MAX_EDGE as int))
    }
}

/// The scaled short edge for a long edge `long` and short edge `short`:
/// `1000 * short / long` rounded to the nearest pixel, and never below one.
pub open spec fn spec_short_edge(long: int, short: int) -> int {
    let rounded = (1000 * short + long / 2) / long;
    if rounded < 1 {
        1
    } else {
        rounded
    }
}

/// Decides how an image is downscaled. An image within the limit on both
/// edges is left alone; a larger one gets its long edge set to exactly the
/// limit and its short edge to the rounded proportional length.
pub fn scaled_dimensions(w: u32, h: u32) -> (r: Option<(u32, u32)>)
    requires
        w >= 1,
        h >= 1,
    ensures
        match r {
            Some(d) => spec_scaled(w as int, h as int) == Some((d.0 as int, d.1 as int)),
            None => spec_scaled(w as int, h as int) is None,
        },
{
    if w <= MAX_EDGE && h <= MAX_EDGE {
        return None;
    }
    if w >= h {
        Some((MAX_EDGE, short_edge(w, h)))
    } else {
        Some((short_edge(h, w), MAX_EDGE))
    }
}

fn short_edge(long: u32, short: u32) -> (r: u32)
    requires
        1 <= short <= long,
        long > MAX_EDGE,
    ensures
        r == spec_short_edge(long as int, short as int),
        1 <= r <= MAX_EDGE,
{
    let lw: u64 = long as u64;
    let sw: u64 = short as u64;
    let rounded: u64 = (1000 * sw + lw / 2) / lw;
    proof {
        lemma_short_edge_bound(long as int, short as int);
    }
    if rounded < 1 {
        1
    } else {
        rounded as u32
    }
}

proof fn lemma_short_edge_bound(long: int, short: int)
    requires
        1 <= short <= long,
    ensures
        0 <= (1000 * short + long / 2) / long <= 1000,
{
    let x = 1000 * short + long / 2;
    let y = long * 1000 + long / 2;
    vstd::arithmetic::div_mod::lemma_div_is_ordered(x, y, long);
    vstd::arithmetic::div_mod::lemma_div_multiples_vanish_fancy(1000, long / 2, long);
    vstd::arithmetic::div_mod::lemma_div_pos_is_pos(x, long);
}

/// The scaled short edge misses the exact proportional length by at most
/// half a pixel: aspect ratio is preserved within one pixel. Stated for the
/// non-degenerate case in which the rounded edge is at least one pixel; an
/// extreme sliver such as 5000 by 1 is clamped to one pixel instead.
pub proof fn lemma_short_edge_aspect(long: int, short: int)
    requires
        1 <= short <= long,
        (1000 * short + long / 2) / long >= 1,
    ensures
        2 * crate::status::abs_diff(1000 * short, spec_short_edge(long, short) * long) <= long,
{
    let x = 1000 * short + long / 2;
    let q = x / long;
    let r = x % long;
    vstd::arithmetic::div_mod::lemma_fundamental_div_mod(x, long);
    assert(x == long * q + r);
    vstd::arithmetic::div_mod::lemma_mod_bound(x, long);
    assert(0 <= r < long);
    assert(q * long - 1000 * short == long / 2 - r) by (nonlinear_arith)
        requires
            x == long * q + r,
            x == 1000 * short + long / 2,
    ;
    assert(spec_short_edge(long, short) == q);
}

/// Whether the top-left pixel marks a watermarked cover: fully transparent
/// black.
pub fn is_watermark_pixel(r: u8, g: u8, b: u8, a: u8) -> (res: bool)
    ensures
        res == (r == 0 && g == 0 && b == 0 && a == 0),
{
    r == 0 && g == 0 && b == 0 && a == 0
}

/// Whether a decoded image's top-left reading marks a watermarked cover.
pub open spec fn spec_watermarked(top_left: Option<(u8, u8, u8, u8)>) -> bool {
    top_left == Some((0u8, 0u8, 0u8, 0u8))
}

/// The local file named by an album-art URL: the path behind a `file://`
/// prefix, percent-decoded to bytes. Any other URL names no local file.
pub fn art_file_path(url: &str) -> (r: Option<Vec<u8>>)
    ensures
        match r {
            Some(p) => spec_match_at(url@, 0, "file://"@) && p@ == spec_pct_decode(
                encode_utf8(url@.subrange("file://"@.len() as int, url@.len() as int)),
            ),
            None => !spec_match_at(url@, 0, "file://"@),
        },
{
    proof {
        reveal_strlit("file://");
    }
    let len = url.unicode_len();
    if !crate::parse::match_at(url, 0, "file://") {
        return None;
    }
    let rest = url.substring_char(7, len);
    Some(percent_decode_bytes(rest))
}

/// The dimensions the rendering pipeline hands to the PNG encoder for given
/// cover bytes: those of the decoded image, after the watermark crop when
/// asked for and marked, after downscaling when over the limit. Nothing
/// when the bytes decode to no image or the working image has a zero edge.
pub open spec fn spec_render_dims(b: Seq<u8>, strip_watermark: bool) -> Option<(u32, u32)> {
    match spec_decode(b) {
        None => None,
        Some(dec) => {
            let dims = dec.0;
            if dims.0 == 0 || dims.1 == 0 {
                None
            } else {
                let work = if strip_watermark && spec_watermarked(dec.1) {
                    spec_crop_dims(
                        dims,
                        WATERMARK_CROP_X,
                        WATERMARK_CROP_Y,
                        WATERMARK_CROP_W,
                        WATERMARK_CROP_H,
                    )
                } else {
                    dims
                };
                if work.0 == 0 || work.1 == 0 {
                    None
                } else {
                    match spec_scaled(work.0 as int, work.1 as int) {
                        Some(nd) => Some((nd.0 as u32, nd.1 as u32)),
                        None => Some(work),
                    }
                }
            }
        },
    }
}

/// Whether rendering is owed a result: the bytes decode to an image with
/// integral samples whose working dimensions are nonzero. A floating-sample
/// image — the one family the PNG encoder refuses — is the codec's own
/// failure, not a promise broken here.
pub open spec fn spec_render_ok(b: Seq<u8>, strip_watermark: bool) -> bool {
    &&& spec_render_dims(b, strip_watermark) is Some
    &&& match spec_decode(b) {
        Some(dec) => !dec.2,
        None => false,
    }
}

/// Decodes raw album-art bytes, strips the watermark rectangle when asked
/// to and the top-left pixel marks it, downscales to the edge limit, and
/// re-encodes as PNG. Bytes that decode to no image give nothing; an
/// integral-sample image with workable dimensions is owed a result; and a
/// rendered PNG comes with its dimensions, which are exactly the ones the
/// decision chain names.
pub fn render_album_art(bytes: &Vec<u8>, strip_watermark: bool) -> (r: Option<(Vec<u8>, (u32, u32))>)
    ensures
        spec_decode(bytes@) is None ==> r is None,
        spec_render_ok(bytes@, strip_watermark) ==> r is Some,
        r matches Some(out) ==> spec_render_dims(bytes@, strip_watermark) == Some(out.1),
{
    let decoded = match load_image(bytes) {
        Some(img) => img,
        None => {
            return None;
        },
    };
    let w0 = image_width(&decoded);
    let h0 = image_height(&decoded);
    if w0 == 0 || h0 == 0 {
        return None;
    }
    let top_left = top_left_pixel(&decoded);
    let mut img = decoded;
    let mut w = w0;
    let mut h = h0;
    if strip_watermark {
        let marked = match top_left {
            Some((r, g, b, a)) => is_watermark_pixel(r, g, b, a),
            None => false,
        };
        if marked {
            img = crop_image(
                &img,
                WATERMARK_CROP_X,
                WATERMARK_CROP_Y,
                WATERMARK_CROP_W,
                WATERMARK_CROP_H,
            );
            w = image_width(&img);
            h = image_height(&img);
        }
    }
    if w == 0 || h == 0 {
        return None;
    }
    match scaled_dimensions(w, h) {
        Some((nw, nh)) => {
            proof {
                if w >= h {
                    lemma_short_edge_bound(w as int, h as int);
                } else {
                    lemma_short_edge_bound(h as int, w as int);
                }
            }
            img = resize_image(&img, nw, nh);
            w = nw;
            h = nh;
        },
        None => {},
    }
    match encode_png(&img) {
        Some(p) => Some((p, (w, h))),
        None => None,
    }
}

/// The data URI that carries PNG bytes to the parent.
pub open spec fn spec_data_uri(png: Seq<u8>) -> Seq<char> {
    "data:image/png;base64,"@ + base64_of(png)
}

/// Wraps PNG bytes in their `data:image/png;base64,` URI.
pub fn album_art_data_uri(png: &Vec<u8>) -> (r: String)
    ensures
        r@ == spec_data_uri(png@),
{
    let mut out = String::new();
    out.append("data:image/png;base64,");
    let encoded = base64_encode(png);
    out.append(encoded.as_str());
    proof {
        assert(out@ =~= spec_data_uri(png@));
    }
    out
}

/// The full album-art answer for raw cover bytes: the rendered PNG together
/// with its one `AlbumArt` protocol line — exactly the AlbumArt line of
/// that PNG's data URI. Bytes that decode to no image give nothing; an
/// integral-sample image with workable dimensions is owed its one answer.
pub fn album_art_response(bytes: &Vec<u8>, strip_watermark: bool) -> (r: Option<(Vec<u8>, String)>)
    ensures
        spec_decode(bytes@) is None ==> r is None,
        spec_render_ok(bytes@, strip_watermark) ==> r is Some,
        r matches Some(out) ==> out.1@ == crate::protocol::spec_album_art_line(
            spec_data_uri(out.0@),
        ) && spec_render_dims(bytes@, strip_watermark) is Some,
{
    let (png, _dims) = match render_album_art(bytes, strip_watermark) {
        Some(out) => out,
        None => {
            return None;
        },
    };
    let uri = album_art_data_uri(&png);
    let line = crate::protocol::encode_album_art(uri.as_str());
    Some((png, line))
}

} // verus!
