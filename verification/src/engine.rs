//! The inference thread's protocol: what a wait for the model load or for a
//! generation's reply amounts to, the checks on the paths handed to sd.cpp,
//! and what the images, previews and video frames sd.cpp hands back become.
use vstd::prelude::*;
use crate::error::SdError;
use crate::text::{push_str, starts_with};
use crate::imaging::{as_rgba, image_view, rgb_to_rgba, rgba_of, to_rgba};
use crate::types::{has_nul, str_has_nul, GeneratedImage};

verus! {

/// The end of a bounded wait on a channel.
#[derive(Debug, Clone, PartialEq, Eq)]
pub enum Wait<T> {
    /// A value arrived in time.
    Received(T),
    /// Nothing arrived before the deadline.
    TimedOut,
    /// The sending side is gone: the inference thread stopped.
    Disconnected,
}

/// The error text of each way a model load can fail.
pub open spec fn load_failure(w: Wait<Result<(), String>>) -> Option<Seq<char>> {
    match w {
        Wait::Received(Ok(())) => None,
        Wait::Received(Err(e)) => Some("Model failed to load: "@ + e@),
        Wait::TimedOut => Some("Model loading timed out after 5 minutes"@),
        Wait::Disconnected => Some("Inference thread crashed during model loading"@),
    }
}

/// What waiting for the inference thread's load report amounts to: success,
/// or a context-creation failure that says why.
pub fn model_load_result(w: Wait<Result<(), String>>) -> (r: Result<(), SdError>)
    ensures
        match load_failure(w) {
            None => r is Ok,
            Some(t) => r matches Err(SdError::ContextCreationFailed { reason }) && reason@ == t,
        },
{
    match w {
        Wait::Received(Ok(())) => Ok(()),
        Wait::Received(Err(e)) => {
            let mut reason = String::from_str("Model failed to load: ");
            push_str(&mut reason, e.as_str());
            Err(SdError::ContextCreationFailed { reason })
        },
        Wait::TimedOut => Err(
            SdError::ContextCreationFailed {
                reason: String::from_str("Model loading timed out after 5 minutes"),
            },
        ),
        Wait::Disconnected => Err(
            SdError::ContextCreationFailed {
                reason: String::from_str("Inference thread crashed during model loading"),
            },
        ),
    }
}

/// The error when the inference thread could not be started.
pub fn spawn_failure(e: &str) -> (r: SdError)
    ensures
        r matches SdError::ContextCreationFailed { reason } && reason@ == "Failed to spawn inference thread: "@ + e@,
{
    let mut reason = String::from_str("Failed to spawn inference thread: ");
    push_str(&mut reason, e);
    SdError::ContextCreationFailed { reason }
}

/// The error when a command cannot be handed to the inference thread.
pub fn inference_stopped() -> (r: SdError)
    ensures
        r matches SdError::ContextCreationFailed { reason } && reason@ == "Inference thread has stopped"@,
{
    SdError::ContextCreationFailed { reason: String::from_str("Inference thread has stopped") }
}

/// What waiting for a generation's reply amounts to: the reply itself, or an
/// engine failure when it timed out or the thread died.
pub fn inference_reply<T>(w: Wait<Result<T, SdError>>) -> (r: Result<T, SdError>)
    ensures
        match w {
            Wait::Received(reply) => r == reply,
            Wait::TimedOut => r matches Err(SdError::FfiPanic { message }) && message@
                == "Generation timed out after 30 minutes"@,
            Wait::Disconnected => r matches Err(SdError::FfiPanic { message }) && message@
                == "Inference thread crashed during generation"@,
        },
{
    match w {
        Wait::Received(reply) => reply,
        Wait::TimedOut => Err(
            SdError::FfiPanic { message: String::from_str("Generation timed out after 30 minutes") },
        ),
        Wait::Disconnected => Err(
            SdError::FfiPanic {
                message: String::from_str("Inference thread crashed during generation"),
            },
        ),
    }
}

/// A model load that was reported in time and without error is the only one
/// that succeeds.
pub proof fn law_only_a_clean_report_loads(w: Wait<Result<(), String>>)
    ensures
        load_failure(w) is None <==> (w matches Wait::Received(Ok(_))),
{
}

/// The first LoRA path that holds a NUL character, if any.
pub open spec fn first_nul_path(paths: Seq<Seq<char>>) -> Option<Seq<char>>
    decreases paths.len(),
{
    if paths.len() == 0 {
        None
    } else if has_nul(paths[0]) {
        Some(paths[0])
    } else {
        first_nul_path(paths.drop_first())
    }
}

proof fn lemma_first_nul_skip(paths: Seq<Seq<char>>, i: int)
    requires
        0 <= i <= paths.len(),
        forall|j: int| 0 <= j < i ==> !has_nul(#[trigger] paths[j]),
    ensures
        first_nul_path(paths) == first_nul_path(paths.skip(i)),
    decreases i,
{
    if i > 0 {
        let rest = paths.drop_first();
        assert forall|j: int| 0 <= j < i - 1 implies !has_nul(#[trigger] rest[j]) by {
            assert(rest[j] == paths[j + 1]);
        }
        lemma_first_nul_skip(rest, i - 1);
        assert(rest.skip(i - 1) =~= paths.skip(i));
    } else {
        assert(paths.skip(0) =~= paths);
    }
}

/// The error for a LoRA path that holds a NUL character.
pub open spec fn lora_nul_message(path: Seq<char>) -> Seq<char> {
    "LoRA path contains interior NUL byte: "@ + path
}

/// Check the LoRA paths of a generation: each must be a valid C string, and
/// the first that is not is reported.
pub fn check_lora_paths(paths: &Vec<String>) -> (r: Result<(), SdError>)
    ensures
        match first_nul_path(paths@.map_values(|p: String| p@)) {
            None => r is Ok,
            Some(p) => r matches Err(SdError::InvalidParams { reason }) && reason@ == lora_nul_message(p),
        },
{
    let ghost pv = paths@.map_values(|p: String| p@);
    let mut i: usize = 0;
    while i < paths.len()
        invariant
            i <= paths@.len(),
            pv == paths@.map_values(|p: String| p@),
            forall|j: int| 0 <= j < i ==> !has_nul(#[trigger] pv[j]),
        decreases paths.len() - i,
    {
        if str_has_nul(paths[i].as_str()) {
            proof {
                lemma_first_nul_skip(pv, i as int);
                assert(pv.skip(i as int)[0] == pv[i as int]);
            }
            let mut reason = String::from_str("LoRA path contains interior NUL byte: ");
            push_str(&mut reason, paths[i].as_str());
            return Err(SdError::InvalidParams { reason });
        }
        i = i + 1;
    }
    proof {
        lemma_first_nul_skip(pv, i as int);
    }
    Ok(())
}

/// Check an upscaler model path before it is handed to sd.cpp: the file must
/// exist and the path must be a valid C string.
pub fn check_upscaler_path(esrgan_path: &str, exists: bool) -> (r: Result<(), SdError>)
    ensures
        !exists ==> (r matches Err(SdError::ModelNotFound { path }) && path@ == esrgan_path@),
        exists && has_nul(esrgan_path@) ==> (r matches Err(SdError::InvalidParams { reason })
            && reason@ == "esrgan_path contains interior NUL byte"@),
        exists && !has_nul(esrgan_path@) ==> r is Ok,
{
    if !exists {
        return Err(SdError::ModelNotFound { path: String::from_str(esrgan_path) });
    }
    if str_has_nul(esrgan_path) {
        return Err(
            SdError::InvalidParams { reason: String::from_str("esrgan_path contains interior NUL byte") },
        );
    }
    Ok(())
}

// ---------------------------------------------------------------------------
// What sd.cpp hands back
// ---------------------------------------------------------------------------

/// The last look at Cancel before control passes to sd.cpp: everything
/// since the first check (decoding, resizing, the mask) is a window in which
/// a cancel must still win, because sd.cpp clears the flag when it starts.
pub fn check_cancel_before_engine(cancelled: bool) -> (r: Result<(), SdError>)
    ensures
        cancelled ==> r == Err::<(), SdError>(SdError::Cancelled),
        !cancelled ==> r is Ok,
{
    if cancelled {
        Err(SdError::Cancelled)
    } else {
        Ok(())
    }
}

/// One image as sd.cpp hands it back, its pixels copied out (width × height
/// × channels bytes); `None` when its data pointer was null.
#[derive(Debug, Clone)]
pub struct EngineImage {
    pub data: Option<Vec<u8>>,
    pub width: u32,
    pub height: u32,
    pub channel: u32,
}

/// Whether an image holds pixels.
pub open spec fn has_pixels(img: EngineImage) -> bool {
    img.data matches Some(d) && d@.len() > 0
}

/// Whether an image's pixels can be widened to RGBA in memory.
pub open spec fn widenable(img: EngineImage) -> bool {
    img.data matches Some(d) ==> (d@.len() / 3) * 4 <= usize::MAX
}

/// An image with pixels as Blink keeps it: RGBA, with its dimensions.
pub open spec fn converted(img: EngineImage) -> (Seq<u8>, u32, u32) {
    (as_rgba(img.data->0@, img.channel), img.width, img.height)
}

/// An image with pixels, widened to RGBA.
fn convert(img: &EngineImage) -> (g: GeneratedImage)
    requires
        has_pixels(*img),
        widenable(*img),
    ensures
        image_view(g) == converted(*img),
{
    match &img.data {
        Some(d) => GeneratedImage { data: to_rgba(d.as_slice(), img.channel), width: img.width, height: img.height },
        None => GeneratedImage { data: Vec::new(), width: 0, height: 0 },
    }
}

/// The image a finished generation yields. `reply` is the first image when
/// sd.cpp reported success with at least one, else `None`; a failure is a
/// cancellation when one was requested, else an engine failure, and so is an
/// image without pixels.
pub fn generation_image(reply: Option<EngineImage>, cancel_requested: bool) -> (r: Result<GeneratedImage, SdError>)
    requires
        reply matches Some(img) ==> widenable(img),
    ensures
        reply is None && cancel_requested ==> r == Err::<GeneratedImage, SdError>(SdError::Cancelled),
        reply is None && !cancel_requested ==> r == Err::<GeneratedImage, SdError>(SdError::InferenceReturnedNull),
        reply matches Some(img) ==> if has_pixels(img) {
            r matches Ok(g) && image_view(g) == converted(img)
        } else {
            r == Err::<GeneratedImage, SdError>(SdError::InferenceReturnedNull)
        },
{
    match reply {
        None => if cancel_requested {
            Err(SdError::Cancelled)
        } else {
            Err(SdError::InferenceReturnedNull)
        },
        Some(img) => match &img.data {
            Some(d) => if d.len() > 0 {
                Ok(convert(&img))
            } else {
                Err(SdError::InferenceReturnedNull)
            },
            None => Err(SdError::InferenceReturnedNull),
        },
    }
}

/// The image an upscale yields: an engine failure when it has no pixels.
pub fn upscale_image(img: EngineImage) -> (r: Result<GeneratedImage, SdError>)
    requires
        widenable(img),
    ensures
        has_pixels(img) ==> (r matches Ok(g) && image_view(g) == converted(img)),
        !has_pixels(img) ==> r == Err::<GeneratedImage, SdError>(SdError::InferenceReturnedNull),
{
    generation_image(Some(img), false)
}

/// The live preview a sampling step shows: nothing when the frame's data
/// pointer was null or a dimension is zero, else the frame widened to RGBA.
pub fn preview_image(frame: EngineImage) -> (p: Option<GeneratedImage>)
    requires
        widenable(frame),
    ensures
        frame.data is None || frame.width == 0 || frame.height == 0 ==> p is None,
        !(frame.data is None || frame.width == 0 || frame.height == 0) ==> (p matches Some(g) && image_view(g)
            == (as_rgba(frame.data->0@, frame.channel), frame.width, frame.height)),
{
    if frame.width == 0 || frame.height == 0 {
        return None;
    }
    match &frame.data {
        Some(d) => Some(GeneratedImage { data: to_rgba(d.as_slice(), frame.channel), width: frame.width, height: frame.height }),
        None => None,
    }
}

/// Grey pixels as RGBA: each level repeated in red, green and blue, with an
/// opaque alpha.
pub open spec fn grey_rgba_of(src: Seq<u8>) -> Seq<u8> {
    Seq::new(src.len() * 4, |i: int| if i % 4 == 3 { 255u8 } else { src[i / 4] })
}

/// Widen grey pixels to RGBA.
fn grey_to_rgba(src: &[u8]) -> (out: Vec<u8>)
    requires
        src@.len() * 4 <= usize::MAX,
    ensures
        out@ == grey_rgba_of(src@),
{
    let mut out: Vec<u8> = Vec::new();
    let mut p: usize = 0;
    while p < src.len()
        invariant
            src@.len() * 4 <= usize::MAX,
            p <= src@.len(),
            out@.len() == p * 4,
            forall|i: int| 0 <= i < p * 4 ==> out@[i] == grey_rgba_of(src@)[i],
        decreases src.len() - p,
    {
        let g = src[p];
        out.push(g);
        out.push(g);
        out.push(g);
        out.push(255u8);
        assert forall|i: int| 0 <= i < (p + 1) * 4 implies out@[i] == grey_rgba_of(src@)[i] by {
            if i >= p * 4 {
                assert(i / 4 == p);
                assert(i % 4 == i - p * 4);
            }
        }
        p = p + 1;
    }
    assert(out@ =~= grey_rgba_of(src@));
    out
}

/// Whether a video frame holds exactly its pixels, width × height × channels
/// bytes, few enough to be widened to RGBA in memory.
pub open spec fn frame_sized(f: EngineImage) -> bool {
    f.data matches Some(d) ==> d@.len() == f.width * f.height * f.channel && d@.len() * 4 <= usize::MAX
}

/// Whether a video frame can become an RGBA image: it holds pixels, of one
/// (grey), three (RGB) or four (RGBA) channels.
pub open spec fn rgba_frame_ok(f: EngineImage) -> bool {
    has_pixels(f) && (f.channel == 1 || f.channel == 3 || f.channel == 4)
}

/// A video frame's pixels as RGBA.
pub open spec fn frame_rgba(f: EngineImage) -> Seq<u8> {
    let d = f.data->0@;
    if f.channel == 3 {
        rgba_of(d)
    } else if f.channel == 1 {
        grey_rgba_of(d)
    } else {
        d
    }
}

/// Every frame can become an RGBA image.
pub open spec fn all_frames_ok(frames: Seq<EngineImage>) -> bool {
    forall|i: int| 0 <= i < frames.len() ==> rgba_frame_ok(#[trigger] frames[i])
}

/// A usable video frame as an RGBA image of its own dimensions.
fn frame_to_rgba(f: &EngineImage) -> (g: GeneratedImage)
    requires
        rgba_frame_ok(*f),
        frame_sized(*f),
    ensures
        image_view(g) == (frame_rgba(*f), f.width, f.height),
        g.data@.len() == 4 * f.width * f.height,
{
    let d = match &f.data {
        Some(d) => d,
        None => return GeneratedImage { data: Vec::new(), width: 0, height: 0 },
    };
    let ghost wh: int = f.width as int * f.height as int;
    let data = if f.channel == 3 {
        assert((wh * 3) / 3 == wh) by (nonlinear_arith);
        assert(d@.len() == wh * 3) by (nonlinear_arith)
            requires
                d@.len() == f.width * f.height * f.channel,
                f.channel == 3,
                wh == f.width as int * f.height as int,
        ;
        rgb_to_rgba(d.as_slice())
    } else if f.channel == 1 {
        assert(d@.len() == wh) by (nonlinear_arith)
            requires
                d@.len() == f.width * f.height * f.channel,
                f.channel == 1,
                wh == f.width as int * f.height as int,
        ;
        grey_to_rgba(d.as_slice())
    } else {
        assert(d@.len() == wh * 4) by (nonlinear_arith)
            requires
                d@.len() == f.width * f.height * f.channel,
                f.channel == 4,
                wh == f.width as int * f.height as int,
        ;
        d.clone()
    };
    assert(4 * f.width * f.height == wh * 4) by (nonlinear_arith)
        requires
            wh == f.width as int * f.height as int,
    ;
    GeneratedImage { data, width: f.width, height: f.height }
}

/// The frames a finished video yields, one RGBA image per frame the engine
/// returned, each of its frame's dimensions. `reply` is the frame list sd.cpp
/// returned, `None` when it returned none. No frames, or a frame without
/// pixels or of a channel count other than one, three or four, is an engine
/// failure.
pub fn video_frames(reply: Option<Vec<EngineImage>>) -> (r: Result<Vec<GeneratedImage>, SdError>)
    requires
        reply matches Some(fs) ==> forall|i: int| 0 <= i < fs@.len() ==> frame_sized(#[trigger] fs@[i]),
    ensures
        reply is None ==> r == Err::<Vec<GeneratedImage>, SdError>(SdError::InferenceReturnedNull),
        reply matches Some(fs) ==> if fs@.len() == 0 || !all_frames_ok(fs@) {
            r == Err::<Vec<GeneratedImage>, SdError>(SdError::InferenceReturnedNull)
        } else {
            r matches Ok(v) && v@.len() == fs@.len() && forall|i: int| 0 <= i < fs@.len() ==> {
                &&& image_view(#[trigger] v@[i]) == (frame_rgba(fs@[i]), fs@[i].width, fs@[i].height)
                &&& v@[i].data@.len() == 4 * fs@[i].width * fs@[i].height
            }
        },
{
    match reply {
        None => Err(SdError::InferenceReturnedNull),
        Some(fs) => frames_to_rgba(&fs),
    }
}

/// Every frame as an RGBA image; an engine failure when there are none or
/// one cannot become one.
fn frames_to_rgba(frames: &Vec<EngineImage>) -> (r: Result<Vec<GeneratedImage>, SdError>)
    requires
        forall|i: int| 0 <= i < frames@.len() ==> frame_sized(#[trigger] frames@[i]),
    ensures
        if frames@.len() == 0 || !all_frames_ok(frames@) {
            r == Err::<Vec<GeneratedImage>, SdError>(SdError::InferenceReturnedNull)
        } else {
            r matches Ok(v) && v@.len() == frames@.len() && forall|i: int| 0 <= i < frames@.len() ==> {
                &&& image_view(#[trigger] v@[i]) == (frame_rgba(frames@[i]), frames@[i].width, frames@[i].height)
                &&& v@[i].data@.len() == 4 * frames@[i].width * frames@[i].height
            }
        },
{
    if frames.len() == 0 {
        return Err(SdError::InferenceReturnedNull);
    }
    let mut out: Vec<GeneratedImage> = Vec::new();
    let mut i: usize = 0;
    while i < frames.len()
        invariant
            i <= frames@.len(),
            forall|j: int| 0 <= j < frames@.len() ==> frame_sized(#[trigger] frames@[j]),
            forall|j: int| 0 <= j < i ==> rgba_frame_ok(#[trigger] frames@[j]),
            out@.len() == i,
            forall|j: int| 0 <= j < i ==> {
                &&& image_view(#[trigger] out@[j]) == (frame_rgba(frames@[j]), frames@[j].width, frames@[j].height)
                &&& out@[j].data@.len() == 4 * frames@[j].width * frames@[j].height
            },
        decreases frames.len() - i,
    {
        let f = &frames[i];
        let ok = match &f.data {
            Some(d) => d.len() > 0 && (f.channel == 1 || f.channel == 3 || f.channel == 4),
            None => false,
        };
        if !ok {
            assert(!rgba_frame_ok(frames@[i as int]));
            assert(!all_frames_ok(frames@));
            return Err(SdError::InferenceReturnedNull);
        }
        let g = frame_to_rgba(f);
        out.push(g);
        i = i + 1;
    }
    Ok(out)
}

} // verus!
