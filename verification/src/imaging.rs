//! Pixel buffers: channel conversion, dimension alignment, masks, and the
//! PNG, animated GIF and Base64 encodings images travel to the UI in.
use vstd::prelude::*;
use image::ImageEncoder;
use base64::Engine;
use crate::text::{decimal, push_decimal, push_str};
use crate::types::GeneratedImage;

verus! {

// ---------------------------------------------------------------------------
// Channels
// ---------------------------------------------------------------------------

/// RGB bytes widened to RGBA with an opaque alpha; a trailing partial pixel is
/// dropped.
pub open spec fn rgba_of(src: Seq<u8>) -> Seq<u8> {
    Seq::new(
        ((src.len() / 3) * 4) as nat,
        |i: int| if i % 4 == 3 { 255u8 } else { src[(i / 4) * 3 + i % 4] },
    )
}

/// sd.cpp's output as RGBA: three-channel data is widened, anything else is
/// passed through unchanged.
pub open spec fn as_rgba(src: Seq<u8>, channels: u32) -> Seq<u8> {
    if channels == 3 {
        rgba_of(src)
    } else {
        src
    }
}

/// Widen RGB pixels to RGBA with an opaque alpha channel.
pub fn rgb_to_rgba(src: &[u8]) -> (out: Vec<u8>)
    requires
        (src@.len() / 3) * 4 <= usize::MAX,
    ensures
        out@ == rgba_of(src@),
{
    let n = src.len() / 3;
    let mut out: Vec<u8> = Vec::new();
    let mut p: usize = 0;
    while p < n
        invariant
            n == src@.len() / 3,
            n * 4 <= usize::MAX,
            p <= n,
            out@.len() == p * 4,
            forall|i: int| 0 <= i < p * 4 ==> out@[i] == rgba_of(src@)[i],
        decreases n - p,
    {
        let ghost before = out@;
        let base = p * 3;
        out.push(src[base]);
        out.push(src[base + 1]);
        out.push(src[base + 2]);
        out.push(255u8);
        assert forall|i: int| 0 <= i < (p + 1) * 4 implies out@[i] == rgba_of(src@)[i] by {
            if i >= p * 4 {
                assert(i / 4 == p);
                assert(i % 4 == i - p * 4);
            }
        }
        p = p + 1;
    }
    out
}

/// sd.cpp's output pixels as RGBA: three channels are widened, any other
/// channel count is copied as it is.
pub fn to_rgba(src: &[u8], channels: u32) -> (out: Vec<u8>)
    requires
        (src@.len() / 3) * 4 <= usize::MAX,
    ensures
        out@ == as_rgba(src@, channels),
{
    if channels == 3 {
        rgb_to_rgba(src)
    } else {
        let mut out: Vec<u8> = Vec::new();
        let mut i: usize = 0;
        while i < src.len()
            invariant
                i <= src@.len(),
                out@ == src@.take(i as int),
            decreases src.len() - i,
        {
            out.push(src[i]);
            assert(src@.take(i + 1) =~= src@.take(i as int).push(src@[i as int]));
            i = i + 1;
        }
        assert(src@.take(src@.len() as int) =~= src@);
        out
    }
}

// ---------------------------------------------------------------------------
// Dimensions and masks
// ---------------------------------------------------------------------------

/// The alignment sd.cpp rounds img2img dimensions up to.
pub const SPATIAL_ALIGN: u32 = 64;

/// Round a dimension up to the next multiple of 64, the spatial multiple
/// every supported architecture needs for img2img.
pub fn align_up_64(x: u32) -> (r: u32)
    requires
        x + 63 <= u32::MAX,
    ensures
        r % 64 == 0,
        x <= r < x + 64,
        r == ((x + 63) / 64) * 64,
{
    ((x + 63) / 64) * 64
}

/// The mask that lets img2img modify every pixel: all 255, one byte per
/// pixel.
pub fn full_mask(width: u32, height: u32) -> (m: Vec<u8>)
    requires
        width * height <= u32::MAX,
    ensures
        m@.len() == width * height,
        forall|i: int| 0 <= i < m@.len() ==> m@[i] == 255u8,
{
    let n = (width * height) as usize;
    let mut m: Vec<u8> = Vec::new();
    let mut i: usize = 0;
    while i < n
        invariant
            n == width * height,
            i <= n,
            m@.len() == i,
            forall|j: int| 0 <= j < i ==> m@[j] == 255u8,
        decreases n - i,
    {
        m.push(255u8);
        i = i + 1;
    }
    m
}

// ---------------------------------------------------------------------------
// PNG and Base64
// ---------------------------------------------------------------------------

/// What `PngEncoder::write_image` produces for exactly `4 * width * height`
/// RGBA bytes: the PNG file, or the encoder's error text. A function of the
/// pixels and dimensions alone.
pub uninterp spec fn png_rgba_encoding(pixels: Seq<u8>, width: u32, height: u32) -> Result<Seq<u8>, Seq<char>>;

/// The character of a six-bit value in the standard Base64 alphabet:
/// `A`–`Z`, `a`–`z`, `0`–`9`, `+`, `/`.
pub open spec fn b64_char(v: int) -> char {
    if v < 26 {
        (65 + v) as char
    } else if v < 52 {
        (97 + v - 26) as char
    } else if v < 62 {
        (48 + v - 52) as char
    } else if v == 62 {
        '+'
    } else {
        '/'
    }
}

/// Base64 with the standard alphabet and padding: every three bytes become
/// four characters of six bits each, and a final group of one or two bytes
/// is padded with `=` to four characters.
pub open spec fn base64_standard(data: Seq<u8>) -> Seq<char>
    decreases data.len(),
{
    if data.len() == 0 {
        Seq::empty()
    } else if data.len() == 1 {
        let a = data[0] as int;
        seq![b64_char(a / 4), b64_char((a % 4) * 16), '=', '=']
    } else if data.len() == 2 {
        let (a, b) = (data[0] as int, data[1] as int);
        seq![b64_char(a / 4), b64_char((a % 4) * 16 + b / 16), b64_char((b % 16) * 4), '=']
    } else {
        let (a, b, c) = (data[0] as int, data[1] as int, data[2] as int);
        seq![b64_char(a / 4), b64_char((a % 4) * 16 + b / 16), b64_char((b % 16) * 4 + c / 64), b64_char(c % 64)]
            + base64_standard(data.skip(3))
    }
}

/// What decoding standard padded Base64 yields for a text: the bytes, or the
/// decoder's error text.
pub uninterp spec fn base64_standard_decoding(text: Seq<char>) -> Result<Seq<u8>, Seq<char>>;

/// The view of a byte-or-message result.
pub open spec fn bytes_result(r: Result<Vec<u8>, String>) -> Result<Seq<u8>, Seq<char>> {
    match r {
        Ok(v) => Ok(v@),
        Err(e) => Err(e@),
    }
}

/// Encode RGBA pixels as PNG (`image::codecs::png::PngEncoder::write_image`
/// with `ExtendedColorType::Rgba8`). The contract claims only that the result
/// is the encoder's output for these pixels and dimensions, with an error
/// carried as its text; the encoder asserts the exact buffer length, which
/// the precondition guarantees.
#[verifier::external_body]
fn png_encode_rgba(pixels: &[u8], width: u32, height: u32) -> (r: Result<Vec<u8>, String>)
    requires
        pixels@.len() == 4 * width * height,
    ensures
        bytes_result(r) == png_rgba_encoding(pixels@, width, height),
{
    let mut out: Vec<u8> = Vec::new();
    let written = image::codecs::png::PngEncoder::new(&mut out).write_image(
        pixels,
        width,
        height,
        image::ExtendedColorType::Rgba8,
    );
    written.map(|()| out).map_err(|e| e.to_string())
}

/// Base64 text takes four characters for every started group of three
/// bytes.
pub proof fn law_base64_length(data: Seq<u8>)
    ensures
        base64_standard(data).len() == 4 * ((data.len() + 2) / 3),
    decreases data.len(),
{
    if data.len() >= 3 {
        law_base64_length(data.skip(3));
    }
}

/// Encode bytes as standard padded Base64
/// (`base64::engine::general_purpose::STANDARD.encode`). The contract claims
/// the result is the standard padded Base64 text of the input, four
/// characters for every started group of three bytes. The
/// crate panics only when that length overflows `usize`, which takes a slice
/// longer than `isize::MAX` bytes; Rust never allocates one.
#[verifier::external_body]
fn base64_encode(data: &[u8]) -> (s: String)
    ensures
        s@ == base64_standard(data@),
{
    base64::engine::general_purpose::STANDARD.encode(data)
}

/// Decode standard padded Base64
/// (`base64::engine::general_purpose::STANDARD.decode`). The contract claims
/// the result is the decoder's outcome for this text, an error carried as its
/// text.
#[verifier::external_body]
fn base64_decode(text: &str) -> (r: Result<Vec<u8>, String>)
    ensures
        bytes_result(r) == base64_standard_decoding(text@),
{
    base64::engine::general_purpose::STANDARD.decode(text).map_err(|e| e.to_string())
}

/// The first `n` bytes of `data`.
fn prefix_bytes(data: &[u8], n: usize) -> (out: Vec<u8>)
    requires
        n <= data@.len(),
    ensures
        out@ == data@.take(n as int),
{
    let mut out: Vec<u8> = Vec::new();
    let mut i: usize = 0;
    while i < n
        invariant
            n <= data@.len(),
            i <= n,
            out@ == data@.take(i as int),
        decreases n - i,
    {
        out.push(data[i]);
        assert(data@.take(i + 1) =~= data@.take(i as int).push(data@[i as int]));
        i = i + 1;
    }
    out
}

/// The number of bytes `width` × `height` RGBA pixels take.
pub open spec fn rgba_len(width: u32, height: u32) -> int {
    4 * width * height
}

/// The PNG file of an RGBA image, as the generation and upscale commands
/// build it: the buffer must hold at least `4 * width * height` bytes, of
/// which the first that many are encoded. The dimension error names the
/// dimensions, and the buffer's length when `with_len`.
pub open spec fn png_of(rgba: Seq<u8>, width: u32, height: u32, invalid: Seq<char>, with_len: bool, failed: Seq<char>) -> Result<Seq<u8>, Seq<char>> {
    if rgba_len(width, height) > rgba.len() {
        let dims = invalid + decimal(width as nat) + "x"@ + decimal(height as nat);
        Err(if with_len { dims + " with "@ + decimal(rgba.len()) + " bytes"@ } else { dims })
    } else {
        match png_rgba_encoding(rgba.take(rgba_len(width, height)), width, height) {
            Ok(png) => Ok(png),
            Err(e) => Err(failed + e),
        }
    }
}

fn png_with_messages(rgba: &[u8], width: u32, height: u32, invalid: &str, with_len: bool, failed: &str) -> (r:
    Result<Vec<u8>, String>)
    ensures
        bytes_result(r) == png_of(rgba@, width, height, invalid@, with_len, failed@),
{
    assert((width as int) * (height as int) <= 0xffff_ffffint * 0xffff_ffffint) by (nonlinear_arith)
        requires
            width <= 0xffff_ffffu32,
            height <= 0xffff_ffffu32,
    ;
    let wh: u128 = (width as u128) * (height as u128);
    let need: u128 = 4 * wh;
    assert(need == rgba_len(width, height)) by (nonlinear_arith)
        requires
            wh == (width as int) * (height as int),
            need == 4 * wh,
    ;
    if need > rgba.len() as u128 {
        let mut e = String::from_str(invalid);
        push_decimal(&mut e, width as u64);
        push_str(&mut e, "x");
        push_decimal(&mut e, height as u64);
        if with_len {
            push_str(&mut e, " with ");
            push_decimal(&mut e, rgba.len() as u64);
            push_str(&mut e, " bytes");
            assert(e@ =~= invalid@ + decimal(width as nat) + "x"@ + decimal(height as nat) + " with "@
                + decimal(rgba@.len()) + " bytes"@);
        }
        return Err(e);
    }
    let pixels = prefix_bytes(rgba, need as usize);
    match png_encode_rgba(pixels.as_slice(), width, height) {
        Ok(png) => Ok(png),
        Err(e) => {
            let mut m = String::from_str(failed);
            push_str(&mut m, e.as_str());
            Err(m)
        },
    }
}

/// Encode a generated RGBA image as PNG.
pub fn encode_image_to_png(rgba: &[u8], width: u32, height: u32) -> (r: Result<Vec<u8>, String>)
    ensures
        bytes_result(r) == png_of(
            rgba@,
            width,
            height,
            "Invalid image dimensions: "@,
            true,
            "Failed to encode PNG: "@,
        ),
{
    png_with_messages(rgba, width, height, "Invalid image dimensions: ", true, "Failed to encode PNG: ")
}

/// The view of a text-or-message result.
pub open spec fn text_result(r: Result<String, String>) -> Result<Seq<char>, Seq<char>> {
    match r {
        Ok(v) => Ok(v@),
        Err(e) => Err(e@),
    }
}

/// The Base64 text of a PNG result, errors passed through.
pub open spec fn base64_of(r: Result<Seq<u8>, Seq<char>>) -> Result<Seq<char>, Seq<char>> {
    match r {
        Ok(png) => Ok(base64_standard(png)),
        Err(e) => Err(e),
    }
}

/// Base64 of a PNG result, errors passed through.
fn png_to_base64(r: Result<Vec<u8>, String>) -> (t: Result<String, String>)
    ensures
        text_result(t) == base64_of(bytes_result(r)),
{
    match r {
        Ok(png) => Ok(base64_encode(png.as_slice())),
        Err(e) => Err(e),
    }
}

/// A generated image as the UI receives it: Base64 of its PNG.
pub fn generated_image_base64(rgba: &[u8], width: u32, height: u32) -> (r: Result<String, String>)
    ensures
        text_result(r) == base64_of(
            png_of(rgba@, width, height, "Invalid image dimensions: "@, true, "Failed to encode PNG: "@),
        ),
{
    png_to_base64(encode_image_to_png(rgba, width, height))
}

/// An upscaled image as the UI receives it: Base64 of its PNG.
pub fn upscaled_image_base64(rgba: &[u8], width: u32, height: u32) -> (r: Result<String, String>)
    ensures
        text_result(r) == base64_of(
            png_of(
                rgba@,
                width,
                height,
                "Invalid upscaled image dimensions: "@,
                false,
                "Failed to encode upscaled PNG: "@,
            ),
        ),
{
    png_to_base64(
        png_with_messages(
            rgba,
            width,
            height,
            "Invalid upscaled image dimensions: ",
            false,
            "Failed to encode upscaled PNG: ",
        ),
    )
}

/// The decoded bytes of Base64 text, or the decoder's error after `prefix`.
pub open spec fn decoded_with(text: Seq<char>, prefix: Seq<char>) -> Result<Seq<u8>, Seq<char>> {
    match base64_standard_decoding(text) {
        Ok(b) => Ok(b),
        Err(e) => Err(prefix + e),
    }
}

fn decode_with_prefix(text: &str, prefix: &str) -> (r: Result<Vec<u8>, String>)
    ensures
        bytes_result(r) == decoded_with(text@, prefix@),
{
    match base64_decode(text) {
        Ok(b) => Ok(b),
        Err(e) => {
            let mut m = String::from_str(prefix);
            push_str(&mut m, e.as_str());
            Err(m)
        },
    }
}

/// The PNG bytes of an image sent to the gallery as Base64.
pub fn decode_gallery_image(image_base64: &str) -> (r: Result<Vec<u8>, String>)
    ensures
        bytes_result(r) == decoded_with(image_base64@, "Failed to decode base64: "@),
{
    decode_with_prefix(image_base64, "Failed to decode base64: ")
}

/// Check an upscale request and decode its image: the factor must be 1 to
/// 4, then the Base64 image must decode.
pub fn prepare_upscale(image_base64: &str, factor: u32) -> (r: Result<Vec<u8>, String>)
    ensures
        !(1 <= factor <= 4) ==> bytes_result(r) == Err::<Seq<u8>, Seq<char>>(
            "Upscale factor must be between 1 and 4"@,
        ),
        1 <= factor <= 4 ==> bytes_result(r) == decoded_with(
            image_base64@,
            "Failed to decode base64 image: "@,
        ),
{
    if factor < 1 || factor > 4 {
        return Err(String::from_str("Upscale factor must be between 1 and 4"));
    }
    decode_with_prefix(image_base64, "Failed to decode base64 image: ")
}


// ---------------------------------------------------------------------------
// Animated GIF
// ---------------------------------------------------------------------------

/// What `image`'s `GifEncoder` writes for these frames (each its RGBA bytes,
/// exactly four per pixel, its width and its height), set to repeat forever
/// with 125 ms per frame; or the encoder's error text. A function of the
/// frames alone.
pub uninterp spec fn gif_animation_encoding(frames: Seq<(Seq<u8>, u32, u32)>) -> Result<Seq<u8>, Seq<char>>;

/// An image as plain values: its bytes, width and height.
pub open spec fn image_view(f: GeneratedImage) -> (Seq<u8>, u32, u32) {
    (f.data@, f.width, f.height)
}

/// Images as plain values.
pub open spec fn images_view(frames: Seq<GeneratedImage>) -> Seq<(Seq<u8>, u32, u32)> {
    frames.map_values(|f: GeneratedImage| image_view(f))
}

/// Whether a frame's buffer holds all of its pixels.
pub open spec fn frame_fits(f: GeneratedImage) -> bool {
    rgba_len(f.width, f.height) <= f.data@.len()
}

/// The index of the first frame whose buffer is too short, or the number of
/// frames when none is.
pub open spec fn first_short_frame(frames: Seq<GeneratedImage>) -> nat
    decreases frames.len(),
{
    if frames.len() == 0 {
        0
    } else if !frame_fits(frames[0]) {
        0
    } else {
        1 + first_short_frame(frames.drop_first())
    }
}

/// The GIF of a sequence of frames as the video command builds it: frames are
/// encoded in order, so an encoding error in the frames before the first
/// short one wins over that frame's dimension error.
pub open spec fn gif_of(frames: Seq<GeneratedImage>) -> Result<Seq<u8>, Seq<char>> {
    let k = first_short_frame(frames);
    match gif_animation_encoding(images_view(frames.take(k as int))) {
        Err(e) => Err("Failed to encode GIF frame: "@ + e),
        Ok(gif) => if k < frames.len() {
            let f = frames[k as int];
            Err("Invalid frame dimensions: "@ + decimal(f.width as nat) + "x"@ + decimal(f.height as nat)
                + " with "@ + decimal(f.data@.len()) + " bytes"@)
        } else {
            Ok(gif)
        },
    }
}

/// Encode the first `count` frames as an endlessly repeating GIF at 125 ms
/// per frame (`image::codecs::gif::GifEncoder`: `new`, `set_repeat` with
/// `Repeat::Infinite`, then `encode_frames`, each frame made by
/// `ImageBuffer::from_raw` and `Frame::from_parts`). The contract claims the
/// result is the encoder's output for those frames, an error carried as its
/// text. Each of them must hold exactly four bytes per pixel: `from_raw`
/// refuses fewer, and the encoder asserts against more. `set_repeat` on an
/// encoder that has written nothing only records the setting.
#[verifier::external_body]
fn gif_encode(frames: &Vec<GeneratedImage>, count: usize) -> (r: Result<Vec<u8>, String>)
    requires
        count <= frames@.len(),
        forall|i: int| 0 <= i < count ==> (#[trigger] frames@[i]).data@.len() == rgba_len(frames@[i].width, frames@[i].height),
    ensures
        bytes_result(r) == gif_animation_encoding(images_view(frames@.take(count as int))),
{
    let mut buf: Vec<u8> = Vec::new();
    {
        let mut encoder = image::codecs::gif::GifEncoder::new(&mut buf);
        encoder.set_repeat(image::codecs::gif::Repeat::Infinite).map_err(|e| e.to_string())?;
        let delay = image::Delay::from_numer_denom_ms(125, 1);
        let converted = frames[..count].iter().map(|f| {
            image::Frame::from_parts(image::RgbaImage::from_raw(f.width, f.height, f.data.clone()).unwrap(), 0, 0, delay)
        });
        encoder.encode_frames(converted).map_err(|e| e.to_string())?;
    }
    Ok(buf)
}

proof fn lemma_first_short_frame(frames: Seq<GeneratedImage>, i: int)
    requires
        0 <= i <= frames.len(),
        forall|j: int| 0 <= j < i ==> frame_fits(#[trigger] frames[j]),
        i == frames.len() || !frame_fits(frames[i]),
    ensures
        first_short_frame(frames) == i,
    decreases i,
{
    if i > 0 {
        let rest = frames.drop_first();
        assert forall|j: int| 0 <= j < i - 1 implies frame_fits(#[trigger] rest[j]) by {
            assert(rest[j] == frames[j + 1]);
        }
        if i < frames.len() {
            assert(rest[i - 1] == frames[i]);
        }
        lemma_first_short_frame(rest, i - 1);
        assert(frame_fits(frames[0]));
    }
}

proof fn lemma_prefix_fits(frames: Seq<GeneratedImage>, i: int)
    requires
        0 <= i < first_short_frame(frames),
    ensures
        i < frames.len(),
        frame_fits(frames[i]),
    decreases i,
{
    if i > 0 {
        lemma_prefix_fits(frames.drop_first(), i - 1);
        assert(frames.drop_first()[i - 1] == frames[i]);
    }
}

/// The frames before the first one whose buffer is too short, and the index
/// of that frame, or the number of frames.
fn fitting_prefix(frames: &Vec<GeneratedImage>) -> (r: (Vec<GeneratedImage>, usize))
    requires
        forall|i: int| 0 <= i < frames@.len() ==> (#[trigger] frames@[i]).data@.len() <= rgba_len(frames@[i].width, frames@[i].height),
    ensures
        r.1 == first_short_frame(frames@),
        r.1 <= frames@.len(),
        r.0@.len() == r.1,
        forall|i: int| 0 <= i < r.1 ==> image_view(#[trigger] r.0@[i]) == image_view(frames@[i]),
{
    let mut out: Vec<GeneratedImage> = Vec::new();
    let mut i: usize = 0;
    while i < frames.len()
        invariant
            i <= frames@.len(),
            out@.len() == i,
            forall|j: int| 0 <= j < i ==> image_view(#[trigger] out@[j]) == image_view(frames@[j]),
            forall|j: int| 0 <= j < i ==> frame_fits(#[trigger] frames@[j]),
            forall|j: int| 0 <= j < frames@.len() ==> (#[trigger] frames@[j]).data@.len() <= rgba_len(frames@[j].width, frames@[j].height),
        decreases frames.len() - i,
    {
        let f = &frames[i];
        assert((f.width as int) * (f.height as int) <= 0xffff_ffffint * 0xffff_ffffint) by (nonlinear_arith)
            requires
                f.width <= 0xffff_ffffu32,
                f.height <= 0xffff_ffffu32,
        ;
        let wh: u128 = (f.width as u128) * (f.height as u128);
        let need: u128 = 4 * wh;
        assert(need == rgba_len(f.width, f.height)) by (nonlinear_arith)
            requires
                wh == (f.width as int) * (f.height as int),
                need == 4 * wh,
        ;
        if need > f.data.len() as u128 {
            proof {
                lemma_first_short_frame(frames@, i as int);
            }
            return (out, i);
        }
        out.push(GeneratedImage { data: f.data.clone(), width: f.width, height: f.height });
        i = i + 1;
    }
    proof {
        lemma_first_short_frame(frames@, i as int);
    }
    (out, i)
}

/// Encode frames as a GIF that loops forever at about eight frames a
/// second. Every frame's buffer is at most the bytes its pixels take (the
/// encoder asserts against longer ones).
pub fn encode_frames_to_gif(frames: Vec<GeneratedImage>) -> (r: Result<Vec<u8>, String>)
    requires
        forall|i: int| 0 <= i < frames@.len() ==> (#[trigger] frames@[i]).data@.len() <= rgba_len(frames@[i].width, frames@[i].height),
    ensures
        bytes_result(r) == gif_of(frames@),
{
    let (prefix, k) = fitting_prefix(&frames);
    assert(prefix@.take(k as int) =~= prefix@);
    assert(images_view(prefix@) =~= images_view(frames@.take(k as int)));
    assert forall|i: int| 0 <= i < k implies (#[trigger] prefix@[i]).data@.len() == rgba_len(prefix@[i].width, prefix@[i].height) by {
        assert(image_view(prefix@[i]) == image_view(frames@[i]));
        assert(frame_fits(frames@[i])) by {
            lemma_prefix_fits(frames@, i);
        }
    }
    match gif_encode(&prefix, k) {
        Err(e) => {
            let mut m = String::from_str("Failed to encode GIF frame: ");
            push_str(&mut m, e.as_str());
            Err(m)
        },
        Ok(gif) => {
            if k < frames.len() {
                let f = &frames[k];
                let mut e = String::from_str("Invalid frame dimensions: ");
                push_decimal(&mut e, f.width as u64);
                push_str(&mut e, "x");
                push_decimal(&mut e, f.height as u64);
                push_str(&mut e, " with ");
                push_decimal(&mut e, f.data.len() as u64);
                push_str(&mut e, " bytes");
                assert(e@ =~= "Invalid frame dimensions: "@ + decimal(f.width as nat) + "x"@ + decimal(
                    f.height as nat,
                ) + " with "@ + decimal(f.data@.len()) + " bytes"@);
                Err(e)
            } else {
                Ok(gif)
            }
        },
    }
}

/// A finished video as the UI receives it: Base64 of its GIF, with the
/// width and height of its first frame. A video without frames is an error.
pub fn video_gif_base64(frames: Vec<GeneratedImage>) -> (r: Result<(String, u32, u32), String>)
    requires
        forall|i: int| 0 <= i < frames@.len() ==> (#[trigger] frames@[i]).data@.len() <= rgba_len(frames@[i].width, frames@[i].height),
    ensures
        frames@.len() == 0 ==> (r matches Err(m) && m@ == "No frames generated"@),
        frames@.len() > 0 ==> match gif_of(frames@) {
            Err(e) => r matches Err(m) && m@ == e,
            Ok(gif) => r matches Ok(v) && v.0@ == base64_standard(gif) && v.1 == frames@[0].width && v.2 == frames@[0].height,
        },
{
    if frames.len() == 0 {
        return Err(String::from_str("No frames generated"));
    }
    let width = frames[0].width;
    let height = frames[0].height;
    match encode_frames_to_gif(frames) {
        Ok(gif) => Ok((base64_encode(gif.as_slice()), width, height)),
        Err(e) => Err(e),
    }
}

} // verus!
