//! The images a generation hands to sd.cpp: the img2img start image resized
//! to the aligned dimensions sd.cpp works at, its mask, the reference images
//! of an editing model and the ControlNet image, all decoded to raw pixels,
//! and the input of an upscale.
use vstd::prelude::*;
use crate::engine::{check_lora_paths, first_nul_path, lora_nul_message};
use crate::error::SdError;
use crate::imaging::{align_up_64, bytes_result, full_mask, image_view, images_view};
use crate::text::{decimal, push_decimal, push_str};
use crate::types::GeneratedImage;

verus! {

// ---------------------------------------------------------------------------
// Decoding with the `image` crate
// ---------------------------------------------------------------------------

/// What `image::load_from_memory` followed by a conversion to 8-bit RGB
/// makes of an image file: the pixels, the width and the height; or the
/// decoder's error text. A function of the bytes alone.
pub uninterp spec fn decoded_rgb(bytes: Seq<u8>) -> Result<(Seq<u8>, u32, u32), Seq<char>>;

/// What decoding an image file and resizing it to exactly `width` ×
/// `height` with the Lanczos3 filter makes of it, as 8-bit RGB; or the
/// decoder's error text.
pub uninterp spec fn resized_rgb(bytes: Seq<u8>, width: u32, height: u32) -> Result<Seq<u8>, Seq<char>>;

/// What decoding an image file and resizing it to exactly `width` ×
/// `height` with the nearest-neighbour filter makes of it, as 8-bit
/// grey levels; or the decoder's error text.
pub uninterp spec fn resized_luma(bytes: Seq<u8>, width: u32, height: u32) -> Result<Seq<u8>, Seq<char>>;

/// The view of a decoded image result.
pub open spec fn rgb_result(r: Result<(Vec<u8>, u32, u32), String>) -> Result<(Seq<u8>, u32, u32), Seq<char>> {
    match r {
        Ok(v) => Ok((v.0@, v.1, v.2)),
        Err(e) => Err(e@),
    }
}

/// Decode an image file to 8-bit RGB (`image::load_from_memory`, then
/// `DynamicImage::to_rgb8`, `dimensions` and `into_raw`). The contract
/// claims the result is the decoder's outcome for these bytes, an error
/// carried as its text, and that the pixels are three bytes for each of the
/// width × height pixels, as an `ImageBuffer` holds them.
#[verifier::external_body]
fn decode_rgb(bytes: &[u8]) -> (r: Result<(Vec<u8>, u32, u32), String>)
    ensures
        rgb_result(r) == decoded_rgb(bytes@),
        r matches Ok(v) ==> v.0@.len() == 3 * v.1 * v.2,
{
    let img = image::load_from_memory(bytes).map_err(|e| e.to_string())?;
    let rgb = img.to_rgb8();
    let (w, h) = rgb.dimensions();
    Ok((rgb.into_raw(), w, h))
}

/// Whether resizing to `width` × `height` fits in memory: `resize` works
/// through a four-channel `f32` buffer, sixteen bytes a pixel, and an
/// `ImageBuffer` whose length overflows panics.
pub open spec fn fits_resize(width: u32, height: u32) -> bool {
    16 * (width * height) <= isize::MAX
}

/// Decode an image file and resize it to exactly `width` × `height` with the
/// Lanczos3 filter, as 8-bit RGB (`image::load_from_memory`, then
/// `DynamicImage::resize_exact`, `to_rgb8` and `into_raw`). The contract
/// claims the result is that outcome for these bytes and dimensions, an
/// error carried as its text, with three bytes for each pixel.
#[verifier::external_body]
fn resize_rgb(bytes: &[u8], width: u32, height: u32) -> (r: Result<Vec<u8>, String>)
    requires
        fits_resize(width, height),
    ensures
        bytes_result(r) == resized_rgb(bytes@, width, height),
        r matches Ok(v) ==> v@.len() == 3 * width * height,
{
    let img = image::load_from_memory(bytes).map_err(|e| e.to_string())?;
    Ok(img.resize_exact(width, height, image::imageops::FilterType::Lanczos3).to_rgb8().into_raw())
}

/// Decode an image file and resize it to exactly `width` × `height` with the
/// nearest-neighbour filter, as 8-bit grey levels (`image::load_from_memory`,
/// then `DynamicImage::resize_exact`, `to_luma8` and `into_raw`). The
/// contract claims the result is that outcome for these bytes and
/// dimensions, an error carried as its text, with one byte for each pixel.
#[verifier::external_body]
fn resize_luma(bytes: &[u8], width: u32, height: u32) -> (r: Result<Vec<u8>, String>)
    requires
        fits_resize(width, height),
    ensures
        bytes_result(r) == resized_luma(bytes@, width, height),
        r matches Ok(v) ==> v@.len() == width * height,
{
    let img = image::load_from_memory(bytes).map_err(|e| e.to_string())?;
    Ok(img.resize_exact(width, height, image::imageops::FilterType::Nearest).to_luma8().into_raw())
}

// ---------------------------------------------------------------------------
// What a generation hands to sd.cpp
// ---------------------------------------------------------------------------

/// A dimension rounded up to the next multiple of 64.
pub open spec fn aligned(x: u32) -> int {
    ((x + 63) / 64) * 64
}

/// Whether an img2img start image of `width` × `height` can be worked with:
/// the aligned dimensions fit `u32`, so does the mask's pixel count, and
/// resizing to them fits in memory.
pub open spec fn aligned_fits(width: u32, height: u32) -> bool {
    &&& width + 63 <= u32::MAX
    &&& height + 63 <= u32::MAX
    &&& aligned(width) * aligned(height) <= u32::MAX
    &&& 16 * (aligned(width) * aligned(height)) <= isize::MAX
}

/// The bytes of an optional image file.
pub open spec fn opt_bytes(o: Option<&[u8]>) -> Option<Seq<u8>> {
    match o {
        Some(b) => Some(b@),
        None => None,
    }
}

/// Whether the start image, if any, can be worked with once decoded.
pub open spec fn input_fits(input: Option<Seq<u8>>) -> bool {
    match input {
        Some(b) => match decoded_rgb(b) {
            Ok(d) => aligned_fits(d.1, d.2),
            Err(_) => true,
        },
        None => true,
    }
}

/// The dimensions sd.cpp generates at and the RGB pixels it starts from:
/// the request's dimensions for txt2img; for img2img the start image's own
/// dimensions rounded up to a multiple of 64, the image resized to them.
pub open spec fn init_part(width: u32, height: u32, input: Option<Seq<u8>>) -> Result<(u32, u32, Option<Seq<u8>>), Seq<char>> {
    match input {
        None => Ok((width, height, None)),
        Some(b) => match decoded_rgb(b) {
            Err(e) => Err("Failed to decode input image: "@ + e),
            Ok(d) => {
                let (aw, ah) = (aligned(d.1) as u32, aligned(d.2) as u32);
                match resized_rgb(b, aw, ah) {
                    Err(e) => Err("Failed to decode input image: "@ + e),
                    Ok(px) => Ok((aw, ah, Some(px))),
                }
            },
        },
    }
}

/// The error for reference image `i`.
pub open spec fn ref_message(i: nat, e: Seq<char>) -> Seq<char> {
    "Failed to decode ref_image["@ + decimal(i) + "]: "@ + e
}

/// The reference images decoded to RGB, `first` being the index of the first
/// of them; the first that fails to decode is reported.
pub open spec fn refs_from(refs: Seq<Seq<u8>>, first: nat) -> Result<Seq<(Seq<u8>, u32, u32)>, Seq<char>>
    decreases refs.len(),
{
    if refs.len() == 0 {
        Ok(Seq::empty())
    } else {
        match decoded_rgb(refs[0]) {
            Err(e) => Err(ref_message(first, e)),
            Ok(d) => match refs_from(refs.drop_first(), first + 1) {
                Ok(rest) => Ok(seq![d] + rest),
                Err(m) => Err(m),
            },
        }
    }
}

/// The ControlNet image decoded to RGB, if there is one.
pub open spec fn control_part(control: Option<Seq<u8>>) -> Result<Option<(Seq<u8>, u32, u32)>, Seq<char>> {
    match control {
        None => Ok(None),
        Some(b) => match decoded_rgb(b) {
            Err(e) => Err("Failed to decode control image: "@ + e),
            Ok(d) => Ok(Some(d)),
        },
    }
}

/// The img2img mask at the aligned dimensions: the mask image resized with
/// the nearest-neighbour filter, or all 255 (change everything) without
/// one. txt2img has no mask.
pub open spec fn mask_part(img2img: bool, mask: Option<Seq<u8>>, width: u32, height: u32) -> Result<Option<Seq<u8>>, Seq<char>> {
    if !img2img {
        Ok(None)
    } else {
        match mask {
            None => Ok(Some(Seq::new((width * height) as nat, |i: int| 255u8))),
            Some(m) => match resized_luma(m, width, height) {
                Err(e) => Err("Failed to decode mask image: "@ + e),
                Ok(px) => Ok(Some(px)),
            },
        }
    }
}

/// A generation's images as plain values.
pub struct InputsView {
    pub width: u32,
    pub height: u32,
    pub init_image: Option<Seq<u8>>,
    pub mask: Option<Seq<u8>>,
    pub ref_images: Seq<(Seq<u8>, u32, u32)>,
    pub control_image: Option<(Seq<u8>, u32, u32)>,
}

/// The images a generation hands to sd.cpp, prepared in the engine's order:
/// the start image, the reference images, the LoRA paths (which must be C
/// strings), the ControlNet image, then the mask.
pub open spec fn generation_inputs(
    width: u32,
    height: u32,
    input: Option<Seq<u8>>,
    mask: Option<Seq<u8>>,
    refs: Seq<Seq<u8>>,
    loras: Seq<Seq<char>>,
    control: Option<Seq<u8>>,
) -> Result<InputsView, Seq<char>> {
    match init_part(width, height, input) {
        Err(e) => Err(e),
        Ok(init) => match refs_from(refs, 0) {
            Err(e) => Err(e),
            Ok(rs) => match first_nul_path(loras) {
                Some(p) => Err(lora_nul_message(p)),
                None => match control_part(control) {
                    Err(e) => Err(e),
                    Ok(c) => match mask_part(input is Some, mask, init.0, init.1) {
                        Err(e) => Err(e),
                        Ok(m) => Ok(
                            InputsView {
                                width: init.0,
                                height: init.1,
                                init_image: init.2,
                                mask: m,
                                ref_images: rs,
                                control_image: c,
                            },
                        ),
                    },
                },
            },
        },
    }
}

/// The images a generation hands to sd.cpp. Images are 8-bit RGB, the mask
/// one byte a pixel.
#[derive(Debug, Clone)]
pub struct GenerationInputs {
    /// The dimensions sd.cpp generates at.
    pub width: u32,
    pub height: u32,
    /// The img2img start image at those dimensions.
    pub init_image: Option<Vec<u8>>,
    /// The img2img mask at those dimensions.
    pub mask: Option<Vec<u8>>,
    pub ref_images: Vec<GeneratedImage>,
    pub control_image: Option<GeneratedImage>,
}

/// The view of an optional image.
pub open spec fn opt_image_view(o: Option<GeneratedImage>) -> Option<(Seq<u8>, u32, u32)> {
    match o {
        Some(g) => Some(image_view(g)),
        None => None,
    }
}

/// The view of an optional byte buffer.
pub open spec fn opt_vec_view(o: Option<Vec<u8>>) -> Option<Seq<u8>> {
    match o {
        Some(v) => Some(v@),
        None => None,
    }
}

/// A generation's images as plain values.
pub open spec fn inputs_view(g: GenerationInputs) -> InputsView {
    InputsView {
        width: g.width,
        height: g.height,
        init_image: opt_vec_view(g.init_image),
        mask: opt_vec_view(g.mask),
        ref_images: images_view(g.ref_images@),
        control_image: opt_image_view(g.control_image),
    }
}

/// The view of a preparation's result: the images, or the reason of the
/// invalid-parameter error.
pub open spec fn inputs_result(r: Result<GenerationInputs, SdError>) -> Result<InputsView, Seq<char>> {
    match r {
        Ok(g) => Ok(inputs_view(g)),
        Err(SdError::InvalidParams { reason }) => Err(reason@),
        Err(_) => Err(Seq::empty()),
    }
}

/// An invalid-parameter error: `prefix` and the decoder's message.
fn invalid_with(prefix: &str, e: String) -> (r: SdError)
    ensures
        r matches SdError::InvalidParams { reason } && reason@ == prefix@ + e@,
{
    let mut reason = String::from_str(prefix);
    push_str(&mut reason, e.as_str());
    SdError::InvalidParams { reason }
}

/// The reference images decoded to RGB.
fn decode_refs(refs: &Vec<Vec<u8>>) -> (r: Result<Vec<GeneratedImage>, SdError>)
    ensures
        match refs_from(refs@.map_values(|b: Vec<u8>| b@), 0) {
            Ok(v) => r matches Ok(x) && images_view(x@) == v,
            Err(m) => r matches Err(SdError::InvalidParams { reason }) && reason@ == m,
        },
{
    let ghost all = refs@.map_values(|b: Vec<u8>| b@);
    let mut out: Vec<GeneratedImage> = Vec::new();
    let mut i: usize = 0;
    assert(all.skip(0) =~= all);
    assert(images_view(out@) =~= Seq::<(Seq<u8>, u32, u32)>::empty());
    assert(refs_from(all, 0) == match refs_from(all.skip(0), 0) {
        Ok(rest) => Ok(images_view(out@) + rest),
        Err(m) => Err::<Seq<(Seq<u8>, u32, u32)>, Seq<char>>(m),
    }) by {
        match refs_from(all, 0) {
            Ok(rest) => assert(images_view(out@) + rest =~= rest),
            Err(_) => {},
        }
    }
    while i < refs.len()
        invariant
            i <= refs@.len(),
            all == refs@.map_values(|b: Vec<u8>| b@),
            refs_from(all, 0) == match refs_from(all.skip(i as int), i as nat) {
                Ok(rest) => Ok(images_view(out@) + rest),
                Err(m) => Err::<Seq<(Seq<u8>, u32, u32)>, Seq<char>>(m),
            },
        decreases refs.len() - i,
    {
        let ghost tail = all.skip(i as int);
        assert(tail[0] == refs@[i as int]@);
        assert(tail.drop_first() =~= all.skip(i + 1));
        match decode_rgb(refs[i].as_slice()) {
            Err(e) => {
                let mut reason = String::from_str("Failed to decode ref_image[");
                push_decimal(&mut reason, i as u64);
                push_str(&mut reason, "]: ");
                push_str(&mut reason, e.as_str());
                return Err(SdError::InvalidParams { reason });
            },
            Ok((data, w, h)) => {
                let ghost before = out@;
                out.push(GeneratedImage { data, width: w, height: h });
                proof {
                    assert(images_view(out@) =~= images_view(before).push((data@, w, h)));
                    match refs_from(all.skip(i + 1), (i + 1) as nat) {
                        Ok(rest) => {
                            assert(images_view(before) + (seq![(data@, w, h)] + rest) =~= images_view(out@) + rest);
                        },
                        Err(_) => {},
                    }
                }
            },
        }
        i = i + 1;
    }
    proof {
        assert(all.skip(i as int).len() == 0);
        assert(images_view(out@) + Seq::<(Seq<u8>, u32, u32)>::empty() =~= images_view(out@));
    }
    Ok(out)
}

/// Decode the images of a generation for sd.cpp, in the engine's order: the
/// img2img start image (resized to its dimensions rounded up to a multiple
/// of 64, which sd.cpp asserts), the reference images, the LoRA paths, the
/// ControlNet image, then the img2img mask. The start image, once decoded,
/// must be small enough to be worked with at its aligned size.
pub fn prepare_generation_inputs(
    width: u32,
    height: u32,
    input: Option<&[u8]>,
    mask: Option<&[u8]>,
    ref_images: &Vec<Vec<u8>>,
    lora_paths: &Vec<String>,
    control: Option<&[u8]>,
) -> (r: Result<GenerationInputs, SdError>)
    requires
        input_fits(opt_bytes(input)),
    ensures
        inputs_result(r) == generation_inputs(
            width,
            height,
            opt_bytes(input),
            opt_bytes(mask),
            ref_images@.map_values(|b: Vec<u8>| b@),
            lora_paths@.map_values(|p: String| p@),
            opt_bytes(control),
        ),
        r matches Err(e) ==> e is InvalidParams,
        r matches Ok(g) ==> (input is None ==> g.width == width && g.height == height && g.init_image is None
            && g.mask is None),
        r matches Ok(g) ==> (input is Some ==> {
            &&& g.width % 64 == 0 && g.height % 64 == 0
            &&& g.init_image matches Some(px) && px@.len() == 3 * g.width * g.height
            &&& g.mask matches Some(m) && m@.len() == g.width * g.height
        }),
{
    let (w, h, init): (u32, u32, Option<Vec<u8>>) = match input {
        None => (width, height, None),
        Some(b) => {
            let (_, ow, oh) = match decode_rgb(b) {
                Ok(d) => d,
                Err(e) => return Err(invalid_with("Failed to decode input image: ", e)),
            };
            let aw = align_up_64(ow);
            let ah = align_up_64(oh);
            match resize_rgb(b, aw, ah) {
                Ok(px) => (aw, ah, Some(px)),
                Err(e) => return Err(invalid_with("Failed to decode input image: ", e)),
            }
        },
    };
    let refs = match decode_refs(ref_images) {
        Ok(v) => v,
        Err(e) => return Err(e),
    };
    match check_lora_paths(lora_paths) {
        Ok(()) => {},
        Err(e) => return Err(e),
    }
    let control_image = match control {
        None => None,
        Some(c) => match decode_rgb(c) {
            Ok((data, cw, ch)) => Some(GeneratedImage { data, width: cw, height: ch }),
            Err(e) => return Err(invalid_with("Failed to decode control image: ", e)),
        },
    };
    let mask_pixels = match input {
        None => None,
        Some(_) => match mask {
            None => {
                let m = full_mask(w, h);
                assert(m@ =~= Seq::new((w * h) as nat, |i: int| 255u8));
                Some(m)
            },
            Some(mb) => match resize_luma(mb, w, h) {
                Ok(px) => Some(px),
                Err(e) => return Err(invalid_with("Failed to decode mask image: ", e)),
            },
        },
    };
    Ok(GenerationInputs { width: w, height: h, init_image: init, mask: mask_pixels, ref_images: refs, control_image })
}

/// Whether the start image, if any, is small enough to be worked with at its
/// aligned size once decoded.
pub fn input_image_fits(input: Option<&[u8]>) -> (b: bool)
    ensures
        b == input_fits(opt_bytes(input)),
{
    if let Some(bytes) = input {
        if let Ok((_, ow, oh)) = decode_rgb(bytes) {
            if ow > u32::MAX - 63 || oh > u32::MAX - 63 {
                return false;
            }
            let aw = align_up_64(ow) as u128;
            let ah = align_up_64(oh) as u128;
            assert(aw * ah <= 0xffff_ffffu128 * 0xffff_ffffu128) by (nonlinear_arith)
                requires
                    aw <= 0xffff_ffffu128,
                    ah <= 0xffff_ffffu128,
            ;
            let area = aw * ah;
            assert(area == aligned(ow) * aligned(oh));
            return area <= u32::MAX as u128 && 16 * area <= isize::MAX as u128;
        }
    }
    true
}

/// Decode the images of a generation, when the start image (if any) is
/// small enough to be worked with at its aligned size; `None` when it is
/// not.
pub fn prepare_generation(
    width: u32,
    height: u32,
    input: Option<&[u8]>,
    mask: Option<&[u8]>,
    ref_images: &Vec<Vec<u8>>,
    lora_paths: &Vec<String>,
    control: Option<&[u8]>,
) -> (r: Option<Result<GenerationInputs, SdError>>)
    ensures
        r is None <==> !input_fits(opt_bytes(input)),
        r matches Some(res) ==> inputs_result(res) == generation_inputs(
            width,
            height,
            opt_bytes(input),
            opt_bytes(mask),
            ref_images@.map_values(|b: Vec<u8>| b@),
            lora_paths@.map_values(|p: String| p@),
            opt_bytes(control),
        ),
        r matches Some(Err(e)) ==> e is InvalidParams,
{
    if !input_image_fits(input) {
        return None;
    }
    Some(prepare_generation_inputs(width, height, input, mask, ref_images, lora_paths, control))
}

/// The start image of a video as sd.cpp takes it: decoded and resized to
/// its dimensions rounded up to a multiple of 64.
pub open spec fn video_start(input: Option<Seq<u8>>) -> Result<Option<(Seq<u8>, u32, u32)>, Seq<char>> {
    match input {
        None => Ok(None),
        Some(b) => match init_part(0, 0, Some(b)) {
            Err(e) => Err(e),
            Ok(init) => Ok(Some((init.2->0, init.0, init.1))),
        },
    }
}

/// The view of a start-image result.
pub open spec fn start_result(r: Result<Option<GeneratedImage>, SdError>) -> Result<Option<(Seq<u8>, u32, u32)>, Seq<char>> {
    match r {
        Ok(o) => Ok(opt_image_view(o)),
        Err(SdError::InvalidParams { reason }) => Err(reason@),
        Err(_) => Err(Seq::empty()),
    }
}

/// Decode a video's start image, if there is one, resized to its aligned
/// dimensions. The image, once decoded, must be small enough to be worked
/// with at that size.
pub fn prepare_video_start(input: Option<&[u8]>) -> (r: Result<Option<GeneratedImage>, SdError>)
    requires
        input_fits(opt_bytes(input)),
    ensures
        start_result(r) == video_start(opt_bytes(input)),
        r matches Err(e) ==> e is InvalidParams,
{
    match input {
        None => Ok(None),
        Some(b) => {
            let (_, ow, oh) = match decode_rgb(b) {
                Ok(d) => d,
                Err(e) => return Err(invalid_with("Failed to decode input image: ", e)),
            };
            let aw = align_up_64(ow);
            let ah = align_up_64(oh);
            match resize_rgb(b, aw, ah) {
                Ok(px) => Ok(Some(GeneratedImage { data: px, width: aw, height: ah })),
                Err(e) => Err(invalid_with("Failed to decode input image: ", e)),
            }
        },
    }
}

/// Decode a video's start image when it is small enough to be worked with
/// at its aligned size; `None` when it is not.
pub fn prepare_video(input: Option<&[u8]>) -> (r: Option<Result<Option<GeneratedImage>, SdError>>)
    ensures
        r is None <==> !input_fits(opt_bytes(input)),
        r matches Some(res) ==> start_result(res) == video_start(opt_bytes(input)),
{
    if !input_image_fits(input) {
        return None;
    }
    Some(prepare_video_start(input))
}

/// The image to upscale decoded to RGB.
pub fn decode_upscale_input(bytes: &[u8]) -> (r: Result<GeneratedImage, SdError>)
    ensures
        match decoded_rgb(bytes@) {
            Ok(d) => r matches Ok(g) && image_view(g) == d,
            Err(e) => r matches Err(SdError::InvalidParams { reason }) && reason@ == "Failed to decode input image: "@ + e,
        },
{
    match decode_rgb(bytes) {
        Ok((data, width, height)) => Ok(GeneratedImage { data, width, height }),
        Err(e) => Err(invalid_with("Failed to decode input image: ", e)),
    }
}

} // verus!
