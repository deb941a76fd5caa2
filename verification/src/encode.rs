//! Thumbnail serialization: PNG encoding, cover-art decoding and the
//! two-pass cover resample, with optional provenance text chunks.
//!
//! The byte-level work is done by the `png` and `image` crates behind
//! trusted wrappers; what each call returns is named by an uninterpreted
//! function of its inputs, and everything around the calls is verified
//! against those names.

use vstd::prelude::*;

verus! {

use crate::arith::lemma_mul_bound;
use crate::dims::{scale_thumbnail_dimensions, scaled_dims};
use crate::error::{Error, ErrorKind};

/// The PNG serialization of a `width` x `height` RGB8 image with the
/// given tEXt chunks (keyword/text pairs, in order).
pub uninterp spec fn png_image_of(
    width: int,
    height: int,
    rgb: Seq<u8>,
    texts: Seq<(Seq<char>, Seq<char>)>,
) -> Seq<u8>;

/// What decoding an encoded image yields: its pixel dimensions and its
/// RGB8 bytes, or nothing when the bytes cannot be decoded.
pub uninterp spec fn decoded_image_of(bytes: Seq<u8>) -> Option<(u32, u32, Seq<u8>)>;

/// The nearest-neighbor resample of a `w` x `h` RGB8 buffer to `nw` x `nh`.
pub uninterp spec fn nearest_resized_of(rgb: Seq<u8>, w: int, h: int, nw: int, nh: int) -> Seq<u8>;

/// The triangle-filter resample of a `w` x `h` RGB8 buffer to `nw` x `nh`.
pub uninterp spec fn triangle_resized_of(rgb: Seq<u8>, w: int, h: int, nw: int, nh: int) -> Seq<u8>;

/// Whether every character of the text is representable in Latin-1.
pub open spec fn latin1(s: Seq<char>) -> bool {
    forall|i: int| 0 <= i < s.len() ==> (#[trigger] s[i] as u32) <= 255
}

/// Whether a keyword/text pair can be written as a PNG tEXt chunk: the
/// keyword has 1 to 79 characters and both strings are Latin-1.
pub open spec fn chunk_encodable(keyword: Seq<char>, text: Seq<char>) -> bool {
    &&& 1 <= keyword.len() <= 79
    &&& latin1(keyword)
    &&& latin1(text)
}

/// Whether every keyword/text pair of a chunk list is encodable.
pub open spec fn texts_encodable(texts: Seq<(Seq<char>, Seq<char>)>) -> bool {
    forall|i: int| 0 <= i < texts.len()
        ==> chunk_encodable((#[trigger] texts[i]).0, texts[i].1)
}

/// The views of a list of owned keyword/text pairs.
pub open spec fn text_views(texts: Seq<(String, String)>) -> Seq<(Seq<char>, Seq<char>)> {
    texts.map_values(|p: (String, String)| (p.0@, p.1@))
}

/// Relies on `png::Encoder` with `png::ColorType::Rgb` writing into a byte
/// vector: the result is a function of the dimensions, pixel bytes and
/// text chunks alone. Encoding succeeds exactly when both dimensions are
/// nonzero, the buffer holds exactly `3 * width * height` bytes, and every
/// text chunk has a Latin-1 keyword of 1 to 79 characters and Latin-1
/// text; writing into a vector cannot fail otherwise.
#[verifier::external_body]
fn png_encode_rgb(
    width: u32,
    height: u32,
    rgb: &[u8],
    texts: &Vec<(String, String)>,
) -> (r: Option<Vec<u8>>)
    requires
        rgb@.len() == 3 * width * height,
    ensures
        r is Some <==> {
            &&& width >= 1
            &&& height >= 1
            &&& texts_encodable(text_views(texts@))
        },
        r matches Some(b) ==> b@ == png_image_of(
            width as int, height as int, rgb@, text_views(texts@)),
{
    let mut out: Vec<u8> = Vec::new();
    let mut encoder = png::Encoder::new(&mut out, width, height);
    encoder.set_color(png::ColorType::Rgb);
    for (keyword, text) in texts.iter() {
        if encoder.add_text_chunk(keyword.clone(), text.clone()).is_err() {
            return None;
        }
    }
    match encoder.write_header().and_then(|mut w| w.write_image_data(rgb)) {
        Ok(()) => Some(out),
        Err(_) => None,
    }
}

/// Relies on `image::load_from_memory` and `DynamicImage::to_rgb8`:
/// decoding is a function of the bytes alone, failing exactly on bytes it
/// cannot decode, and the RGB8 conversion yields 3 bytes per pixel.
#[verifier::external_body]
fn decode_cover(bytes: &[u8]) -> (r: Option<(u32, u32, Vec<u8>)>)
    ensures
        match r {
            Some(t) => decoded_image_of(bytes@) == Some((t.0, t.1, t.2@))
                && t.2@.len() == 3 * t.0 * t.1,
            None => decoded_image_of(bytes@) is None,
        },
{
    match image::load_from_memory(bytes) {
        Ok(img) => {
            let rgb = img.to_rgb8();
            let width = rgb.width();
            let height = rgb.height();
            Some((width, height, rgb.into_raw()))
        }
        Err(_) => None,
    }
}

/// Relies on `image::imageops::resize` with the nearest-neighbor filter,
/// via `ImageBuffer::from_raw` on an RGB8 buffer: the result is a function
/// of the buffer and the dimensions alone, with exactly `3 * nw * nh`
/// bytes; `from_raw` accepts any buffer of exactly `3 * w * h` bytes.
#[verifier::external_body]
fn resize_rgb_nearest(rgb: &[u8], w: u32, h: u32, nw: u32, nh: u32) -> (r: Vec<u8>)
    requires
        rgb@.len() == 3 * w * h,
        3 * nw * nh <= usize::MAX,
    ensures
        r@ == nearest_resized_of(rgb@, w as int, h as int, nw as int, nh as int),
        r@.len() == 3 * nw * nh,
{
    let img = image::ImageBuffer::<image::Rgb<u8>, Vec<u8>>::from_raw(w, h, rgb.to_vec()).unwrap();
    image::imageops::resize(&img, nw, nh, image::imageops::FilterType::Nearest).into_raw()
}

/// Relies on `image::imageops::resize` with the triangle filter, via
/// `ImageBuffer::from_raw` on an RGB8 buffer: the result is a function of
/// the buffer and the dimensions alone, with exactly `3 * nw * nh` bytes.
#[verifier::external_body]
fn resize_rgb_triangle(rgb: &[u8], w: u32, h: u32, nw: u32, nh: u32) -> (r: Vec<u8>)
    requires
        rgb@.len() == 3 * w * h,
        3 * nw * nh <= usize::MAX,
    ensures
        r@ == triangle_resized_of(rgb@, w as int, h as int, nw as int, nh as int),
        r@.len() == 3 * nw * nh,
{
    let img = image::ImageBuffer::<image::Rgb<u8>, Vec<u8>>::from_raw(w, h, rgb.to_vec()).unwrap();
    image::imageops::resize(&img, nw, nh, image::imageops::FilterType::Triangle).into_raw()
}

/// The character for a single decimal digit.
pub open spec fn dec_digit_char(d: int) -> char {
    if d == 0 { '0' }
    else if d == 1 { '1' }
    else if d == 2 { '2' }
    else if d == 3 { '3' }
    else if d == 4 { '4' }
    else if d == 5 { '5' }
    else if d == 6 { '6' }
    else if d == 7 { '7' }
    else if d == 8 { '8' }
    else { '9' }
}

/// The decimal digits of a natural number, most significant first.
pub open spec fn dec_digits(n: nat) -> Seq<char>
    decreases n,
{
    if n < 10 {
        seq![dec_digit_char(n as int)]
    } else {
        dec_digits(n / 10) + seq![dec_digit_char((n % 10) as int)]
    }
}

/// The decimal digits of an integer, with a leading minus sign when
/// negative.
pub open spec fn dec_digits_signed(m: int) -> Seq<char> {
    if m < 0 {
        seq!['-'] + dec_digits((-m) as nat)
    } else {
        dec_digits(m as nat)
    }
}

/// The one-character string for a decimal digit.
fn digit_str(d: u64) -> (r: &'static str)
    requires
        d < 10,
    ensures
        r@ == seq![dec_digit_char(d as int)],
{
    proof {
        reveal_strlit("0");
        reveal_strlit("1");
        reveal_strlit("2");
        reveal_strlit("3");
        reveal_strlit("4");
        reveal_strlit("5");
        reveal_strlit("6");
        reveal_strlit("7");
        reveal_strlit("8");
        reveal_strlit("9");
    }
    let r = if d == 0 { "0" }
    else if d == 1 { "1" }
    else if d == 2 { "2" }
    else if d == 3 { "3" }
    else if d == 4 { "4" }
    else if d == 5 { "5" }
    else if d == 6 { "6" }
    else if d == 7 { "7" }
    else if d == 8 { "8" }
    else { "9" };
    proof {
        assert(r@ =~= seq![dec_digit_char(d as int)]);
    }
    r
}

/// Formats a natural number in decimal.
pub fn u64_to_decimal(n: u64) -> (s: String)
    ensures
        s@ == dec_digits(n as nat),
    decreases n,
{
    if n < 10 {
        String::from_str(digit_str(n))
    } else {
        let rest = u64_to_decimal(n / 10);
        let s = rest.concat(digit_str(n % 10));
        proof {
            assert(s@ =~= dec_digits(n as nat));
        }
        s
    }
}

/// Formats an integer in decimal, with a leading minus sign when negative.
pub fn i64_to_decimal(m: i64) -> (s: String)
    ensures
        s@ == dec_digits_signed(m as int),
{
    if m >= 0 {
        u64_to_decimal(m as u64)
    } else {
        let magnitude: u64 = (-(m as i128)) as u64;
        proof {
            reveal_strlit("-");
        }
        let s = String::from_str("-").concat(u64_to_decimal(magnitude).as_str());
        proof {
            assert(s@ =~= dec_digits_signed(m as int));
        }
        s
    }
}

/// Decimal digit strings are Latin-1.
proof fn lemma_dec_digits_latin1(n: nat)
    ensures
        latin1(dec_digits(n)),
    decreases n,
{
    if n >= 10 {
        lemma_dec_digits_latin1(n / 10);
    }
}

/// Signed decimal digit strings are Latin-1.
proof fn lemma_dec_digits_signed_latin1(m: int)
    ensures
        latin1(dec_digits_signed(m)),
{
    if m < 0 {
        lemma_dec_digits_latin1((-m) as nat);
    } else {
        lemma_dec_digits_latin1(m as nat);
    }
}

/// Provenance of the source of a thumbnail, recorded as optional PNG text
/// chunks: the source locator, its modification time (Unix seconds, if
/// known), its byte length, and the identifier of the producing software.
#[derive(Debug)]
pub struct Provenance {
    pub uri: String,
    pub mtime: Option<i64>,
    pub size: u64,
    pub software: String,
}

/// The text chunks recording a source's provenance. The modification time
/// is omitted when unavailable; nothing else changes, and its absence
/// never fails an encode.
pub open spec fn provenance_texts(p: Provenance) -> Seq<(Seq<char>, Seq<char>)> {
    let head = if p.mtime is Some {
        seq![("Thumb::URI"@, p.uri@), ("Thumb::MTime"@, dec_digits_signed(p.mtime->0 as int))]
    } else {
        seq![("Thumb::URI"@, p.uri@)]
    };
    head + seq![("Thumb::Size"@, dec_digits(p.size as nat)), ("Software"@, p.software@)]
}

/// Builds the provenance text chunks, omitting the modification time when
/// it is unavailable.
pub fn provenance_text_chunks(p: &Provenance) -> (r: Vec<(String, String)>)
    ensures
        text_views(r@) == provenance_texts(*p),
{
    let mut chunks: Vec<(String, String)> = Vec::new();
    chunks.push((String::from_str("Thumb::URI"), p.uri.clone()));
    match &p.mtime {
        Some(m) => {
            chunks.push((String::from_str("Thumb::MTime"), i64_to_decimal(*m)));
        }
        None => {}
    }
    chunks.push((String::from_str("Thumb::Size"), u64_to_decimal(p.size)));
    chunks.push((String::from_str("Software"), p.software.clone()));
    proof {
        assert(text_views(chunks@) =~= provenance_texts(*p));
    }
    chunks
}

/// Provenance chunks are encodable whenever the locator and the software
/// identifier are Latin-1: the keywords are fixed short ASCII names, and
/// decimal digits are Latin-1.
pub proof fn lemma_provenance_texts_encodable(p: Provenance)
    requires
        latin1(p.uri@),
        latin1(p.software@),
    ensures
        texts_encodable(provenance_texts(p)),
{
    reveal_strlit("Thumb::URI");
    reveal_strlit("Thumb::MTime");
    reveal_strlit("Thumb::Size");
    reveal_strlit("Software");
    lemma_dec_digits_latin1(p.size as nat);
    if p.mtime is Some {
        lemma_dec_digits_signed_latin1(p.mtime->0 as int);
    }
    assert forall|i: int| 0 <= i < provenance_texts(p).len()
        implies chunk_encodable((#[trigger] provenance_texts(p)[i]).0, provenance_texts(p)[i].1) by {
    }
}

/// Serializes a tightly packed RGB8 frame as a PNG image with the given
/// text chunks. Succeeds exactly when both dimensions are nonzero and
/// every chunk is encodable; otherwise the encode fails.
pub fn encode_frame_png(
    width: u32,
    height: u32,
    rgb: &Vec<u8>,
    texts: &Vec<(String, String)>,
) -> (r: Result<Vec<u8>, Error>)
    requires
        rgb@.len() == 3 * width * height,
    ensures
        (r is Ok) <==> (width >= 1 && height >= 1 && texts_encodable(text_views(texts@))),
        r matches Ok(b) ==> b@ == png_image_of(
            width as int, height as int, rgb@, text_views(texts@)),
        r matches Err(e) ==> e.kind == ErrorKind::EncodeFailed,
{
    match png_encode_rgb(width, height, rgb.as_slice(), texts) {
        Some(b) => Ok(b),
        None => Err(Error::new(
            ErrorKind::EncodeFailed,
            String::from_str("Failed encoding the thumbnail as PNG"),
        )),
    }
}

/// Scales a decoded cover image down to the thumbnail dimensions with the
/// two-pass resample: a fast nearest-neighbor pre-shrink to exactly twice
/// the target size, then a higher-quality triangle-filter resample down
/// to the target.
pub fn resize_cover_image(rgb: &Vec<u8>, w: u32, h: u32, tw: u32, th: u32) -> (r: Vec<u8>)
    requires
        rgb@.len() == 3 * w * h,
        tw <= 0xffff,
        th <= 0xffff,
        12 * tw * th <= usize::MAX,
    ensures
        r@ == triangle_resized_of(
            nearest_resized_of(rgb@, w as int, h as int, 2 * tw as int, 2 * th as int),
            2 * tw as int, 2 * th as int, tw as int, th as int),
        r@.len() == 3 * tw * th,
{
    proof {
        assert(3 * (2 * tw as int) * (2 * th as int) == 12 * tw as int * th as int)
            by (nonlinear_arith);
        assert(3 * tw as int * th as int <= 12 * tw as int * th as int) by (nonlinear_arith)
            requires tw as int >= 0, th as int >= 0;
    }
    let pre = resize_rgb_nearest(rgb.as_slice(), w, h, 2 * tw, 2 * th);
    resize_rgb_triangle(pre.as_slice(), 2 * tw, 2 * th, tw, th)
}

/// What turning embedded cover bytes into a thumbnail PNG yields: the
/// decoded image, scaled to the thumbnail budget (cover art carries no
/// pixel-aspect-ratio, so the ratio is 1/1) by the two-pass resample and
/// serialized as a PNG without text chunks. It fails exactly when the
/// bytes cannot be decoded, when a target dimension rounds to zero, or
/// when the intermediate buffer would not fit in this machine's address
/// space.
pub open spec fn cover_png_outcome(bytes: Seq<u8>, size: int, r: Result<Vec<u8>, Error>) -> bool {
    match decoded_image_of(bytes) {
        Option::None => r matches Err(e) && e.kind == ErrorKind::EncodeFailed,
        Option::Some(t) => {
            let dims = scaled_dims(t.0 as int, t.1 as int, 1, 1, size);
            let pre = nearest_resized_of(t.2, t.0 as int, t.1 as int, 2 * dims.0, 2 * dims.1);
            let scaled = triangle_resized_of(pre, 2 * dims.0, 2 * dims.1, dims.0, dims.1);
            if dims.0 >= 1 && dims.1 >= 1 && 12 * dims.0 * dims.1 <= usize::MAX {
                r matches Ok(b) && b@ == png_image_of(
                    dims.0, dims.1, scaled, Seq::<(Seq<char>, Seq<char>)>::empty())
            } else {
                r matches Err(e) && e.kind == ErrorKind::EncodeFailed
            }
        }
    }
}

/// Decodes an embedded cover image, scales it to the thumbnail budget,
/// and serializes it as a PNG; see `cover_png_outcome` for the exact
/// result.
pub fn cover_thumbnail_png(bytes: &Vec<u8>, size: u16) -> (r: Result<Vec<u8>, Error>)
    requires
        size >= 1,
    ensures
        cover_png_outcome(bytes@, size as int, r),
{
    match decode_cover(bytes.as_slice()) {
        None => Err(Error::new(
            ErrorKind::EncodeFailed,
            String::from_str("Could not decode the embedded cover image"),
        )),
        Some((w, h, data)) => {
            let (tw, th) = scale_thumbnail_dimensions(w, h, 1, 1, size);
            proof {
                lemma_mul_bound(12 * tw as int, 12 * 0xffffint, th as int, 0xffff);
            }
            if 12 * (tw as u64) * (th as u64) > usize::MAX as u64 {
                return Err(Error::new(
                    ErrorKind::EncodeFailed,
                    String::from_str("Thumbnail dimensions exceed this machine's address space"),
                ));
            }
            let scaled = resize_cover_image(&data, w, h, tw, th);
            let texts: Vec<(String, String)> = Vec::new();
            proof {
                assert(text_views(texts@) =~= Seq::<(Seq<char>, Seq<char>)>::empty());
            }
            match png_encode_rgb(tw, th, scaled.as_slice(), &texts) {
                Some(b) => Ok(b),
                None => Err(Error::new(
                    ErrorKind::EncodeFailed,
                    String::from_str("Failed encoding the thumbnail as PNG"),
                )),
            }
        }
    }
}

} // verus!

