//! Engine configuration and the checks a request passes before it reaches
//! sd.cpp.
use vstd::prelude::*;
use crate::error::SdError;
use crate::text::chars_of;

verus! {

/// How sd.cpp should apply LoRA weights.
///
/// `Auto` mirrors sd.cpp's own choice; `Immediately` merges LoRA into the
/// weights up front; `AtRuntime` applies it during the forward pass.
#[derive(Debug, Clone, Copy, PartialEq, Eq, Structural)]
pub enum LoraApplyMode {
    Auto,
    Immediately,
    AtRuntime,
}

/// Everything needed to create an sd.cpp context.
#[derive(Debug, Clone)]
pub struct ContextConfig {
    pub model_path: Option<String>,
    pub vae_path: Option<String>,
    pub clip_l_path: Option<String>,
    pub t5xxl_path: Option<String>,
    pub diffusion_model_path: Option<String>,
    pub llm_path: Option<String>,
    pub n_threads: i32,
    /// Let sd.cpp place diffusion/TE/VAE from measured VRAM.
    pub auto_fit: bool,
    /// Force every parameter to CPU RAM. Overrides `auto_fit`.
    pub low_memory: bool,
    pub control_net_path: Option<String>,
    pub taesd_path: Option<String>,
    pub lora_apply_mode: LoraApplyMode,
}

impl ContextConfig {
    /// Whether sd.cpp should be asked to auto-fit parameter placement:
    /// `low_memory` wins, since sd.cpp overwrites an explicit placement
    /// whenever auto-fit is set.
    pub fn uses_auto_fit(&self) -> (b: bool)
        ensures
            b == (!self.low_memory && self.auto_fit),
    {
        !self.low_memory && self.auto_fit
    }
}

impl Default for ContextConfig {
    /// No paths, four threads, auto-fit on, low-memory off, LoRA mode `Auto`.
    fn default() -> (c: Self)
        ensures
            c.model_path is None,
            c.vae_path is None,
            c.clip_l_path is None,
            c.t5xxl_path is None,
            c.diffusion_model_path is None,
            c.llm_path is None,
            c.n_threads == 4,
            c.auto_fit,
            !c.low_memory,
            c.control_net_path is None,
            c.taesd_path is None,
            c.lora_apply_mode == LoraApplyMode::Auto,
    {
        ContextConfig {
            model_path: None,
            vae_path: None,
            clip_l_path: None,
            t5xxl_path: None,
            diffusion_model_path: None,
            llm_path: None,
            n_threads: 4,
            auto_fit: true,
            low_memory: false,
            control_net_path: None,
            taesd_path: None,
            lora_apply_mode: LoraApplyMode::Auto,
        }
    }
}

/// A decoded image: pixel bytes and dimensions.
#[derive(Debug, Clone)]
pub struct GeneratedImage {
    pub data: Vec<u8>,
    pub width: u32,
    pub height: u32,
}

/// The samplers Blink offers.
#[derive(Debug, Clone, Copy, PartialEq, Eq, Structural)]
pub enum SampleMethod {
    Euler,
    EulerA,
    Heun,
    Dpm2,
    DpmPlusPlus2m,
    Lcm,
}

// ---------------------------------------------------------------------------
// Interior NUL bytes
// ---------------------------------------------------------------------------

/// Whether a string cannot become a C string: it holds a NUL character.
pub open spec fn has_nul(s: Seq<char>) -> bool {
    s.contains('\0')
}

/// Whether `s` holds a NUL character.
pub fn str_has_nul(s: &str) -> (b: bool)
    ensures
        b == has_nul(s@),
{
    let v = chars_of(s);
    let mut i: usize = 0;
    while i < v.len()
        invariant
            i <= v@.len(),
            v@ == s@,
            forall|j: int| 0 <= j < i ==> v@[j] != '\0',
        decreases v.len() - i,
    {
        if v[i] == '\0' {
            assert(v@[i as int] == '\0');
            return true;
        }
        i = i + 1;
    }
    false
}

/// Whether an optional path cannot become a C string.
pub open spec fn opt_has_nul(p: Option<String>) -> bool {
    match p {
        Some(s) => has_nul(s@),
        None => false,
    }
}

fn opt_str_has_nul(p: &Option<String>) -> (b: bool)
    ensures
        b == opt_has_nul(*p),
{
    match p {
        Some(s) => str_has_nul(s.as_str()),
        None => false,
    }
}

fn invalid(reason: &str) -> (e: SdError)
    ensures
        e matches SdError::InvalidParams { reason: r } && r@ == reason@,
{
    SdError::InvalidParams { reason: String::from_str(reason) }
}

// ---------------------------------------------------------------------------
// Context creation
// ---------------------------------------------------------------------------

/// The error, if any, that creating a context from `c` fails with before
/// sd.cpp is called. `model_exists` and `diffusion_exists` tell whether the
/// files named by `model_path` and `diffusion_model_path` exist.
pub open spec fn context_config_error(c: ContextConfig, model_exists: bool, diffusion_exists: bool) -> Option<(int, Seq<char>)> {
    if c.model_path is None && c.diffusion_model_path is None {
        Some((0, "No model path provided — set model_path (SD/SDXL) or diffusion_model_path (Flux)"@))
    } else if c.model_path is Some && !model_exists {
        Some((1, c.model_path->0@))
    } else if c.diffusion_model_path is Some && !diffusion_exists {
        Some((1, c.diffusion_model_path->0@))
    } else if opt_has_nul(c.model_path) {
        Some((0, "model_path contains interior NUL byte"@))
    } else if opt_has_nul(c.vae_path) {
        Some((0, "vae_path contains interior NUL byte"@))
    } else if opt_has_nul(c.clip_l_path) {
        Some((0, "clip_l_path contains interior NUL byte"@))
    } else if opt_has_nul(c.t5xxl_path) {
        Some((0, "t5xxl_path contains interior NUL byte"@))
    } else if opt_has_nul(c.diffusion_model_path) {
        Some((0, "diffusion_model_path contains interior NUL byte"@))
    } else if opt_has_nul(c.llm_path) {
        Some((0, "llm_path contains interior NUL byte"@))
    } else if opt_has_nul(c.control_net_path) {
        Some((0, "control_net_path contains interior NUL byte"@))
    } else if opt_has_nul(c.taesd_path) {
        Some((0, "taesd_path contains interior NUL byte"@))
    } else {
        None
    }
}

/// Whether `e` is the error that `context_config_error` describes:
/// kind 0 is `InvalidParams` with that reason, kind 1 `ModelNotFound` with
/// that path.
pub open spec fn is_described_error(e: SdError, d: (int, Seq<char>)) -> bool {
    if d.0 == 0 {
        e matches SdError::InvalidParams { reason } && reason@ == d.1
    } else {
        e matches SdError::ModelNotFound { path } && path@ == d.1
    }
}

/// Check a context configuration before any model is loaded: at least one of
/// `model_path` and `diffusion_model_path` must be given, the given ones must
/// exist, and no path may hold a NUL character.
pub fn check_context_config(c: &ContextConfig, model_exists: bool, diffusion_exists: bool) -> (r:
    Result<(), SdError>)
    ensures
        match context_config_error(*c, model_exists, diffusion_exists) {
            None => r is Ok,
            Some(d) => r matches Err(e) && is_described_error(e, d),
        },
{
    if c.model_path.is_none() && c.diffusion_model_path.is_none() {
        return Err(
            invalid(
                "No model path provided — set model_path (SD/SDXL) or diffusion_model_path (Flux)",
            ),
        );
    }
    if let Some(mp) = &c.model_path {
        if !model_exists {
            return Err(SdError::ModelNotFound { path: mp.clone() });
        }
    }
    if let Some(dp) = &c.diffusion_model_path {
        if !diffusion_exists {
            return Err(SdError::ModelNotFound { path: dp.clone() });
        }
    }
    if opt_str_has_nul(&c.model_path) {
        return Err(invalid("model_path contains interior NUL byte"));
    }
    if opt_str_has_nul(&c.vae_path) {
        return Err(invalid("vae_path contains interior NUL byte"));
    }
    if opt_str_has_nul(&c.clip_l_path) {
        return Err(invalid("clip_l_path contains interior NUL byte"));
    }
    if opt_str_has_nul(&c.t5xxl_path) {
        return Err(invalid("t5xxl_path contains interior NUL byte"));
    }
    if opt_str_has_nul(&c.diffusion_model_path) {
        return Err(invalid("diffusion_model_path contains interior NUL byte"));
    }
    if opt_str_has_nul(&c.llm_path) {
        return Err(invalid("llm_path contains interior NUL byte"));
    }
    if opt_str_has_nul(&c.control_net_path) {
        return Err(invalid("control_net_path contains interior NUL byte"));
    }
    if opt_str_has_nul(&c.taesd_path) {
        return Err(invalid("taesd_path contains interior NUL byte"));
    }
    Ok(())
}

/// How the engine is set up for a configuration, beyond its file paths.
#[derive(Debug, Clone, Copy, PartialEq, Eq, Structural)]
pub struct EngineParams {
    pub n_threads: i32,
    /// Let sd.cpp detect the weight type from the model file.
    pub detect_weight_type: bool,
    pub flash_attn: bool,
    pub diffusion_flash_attn: bool,
    pub enable_mmap: bool,
    /// Keep parameters in CPU RAM with compute on the GPU.
    pub params_on_cpu: bool,
    /// Let sd.cpp plan parameter placement from measured VRAM.
    pub auto_fit: bool,
    pub lora_apply_mode: LoraApplyMode,
}

/// The engine settings for a configuration: the thread count and LoRA mode
/// it names, the weight type detected from the file, flash attention (also
/// in the diffusion model) and memory-mapped loading always on, and either
/// parameters kept in CPU RAM (low-memory) or auto-fit placement when asked
/// for; never both.
pub fn engine_params(c: &ContextConfig) -> (p: EngineParams)
    ensures
        p == (EngineParams {
            n_threads: c.n_threads,
            detect_weight_type: true,
            flash_attn: true,
            diffusion_flash_attn: true,
            enable_mmap: true,
            params_on_cpu: c.low_memory,
            auto_fit: !c.low_memory && c.auto_fit,
            lora_apply_mode: c.lora_apply_mode,
        }),
        !(p.params_on_cpu && p.auto_fit),
{
    EngineParams {
        n_threads: c.n_threads,
        detect_weight_type: true,
        flash_attn: true,
        diffusion_flash_attn: true,
        enable_mmap: true,
        params_on_cpu: c.low_memory,
        auto_fit: c.uses_auto_fit(),
        lora_apply_mode: c.lora_apply_mode,
    }
}

// ---------------------------------------------------------------------------
// Generation requests
// ---------------------------------------------------------------------------

/// The largest width or height sd.cpp is asked to render.
pub const MAX_DIMENSION: u32 = 4096;

/// The reason text for each request check that fails, in check order; `None`
/// when all pass or the request was cancelled.
pub open spec fn generation_reason(
    width: u32,
    height: u32,
    steps: u32,
    prompt: Seq<char>,
    negative_prompt: Seq<char>,
) -> Option<Seq<char>> {
    if width == 0 || height == 0 {
        Some("width and height must be > 0"@)
    } else if width > MAX_DIMENSION || height > MAX_DIMENSION {
        Some("width and height must be <= 4096"@)
    } else if steps == 0 {
        Some("steps must be > 0"@)
    } else if has_nul(prompt) {
        Some("prompt contains interior NUL byte"@)
    } else if has_nul(negative_prompt) {
        Some("negative_prompt contains interior NUL byte"@)
    } else {
        None
    }
}

/// Width and height are checked alike: swapping them never changes the
/// verdict on an image request.
pub proof fn law_generation_dimensions_alike(width: u32, height: u32, steps: u32, prompt: Seq<char>, negative_prompt: Seq<char>)
    ensures
        generation_reason(width, height, steps, prompt, negative_prompt) == generation_reason(
            height,
            width,
            steps,
            prompt,
            negative_prompt,
        ),
{
}

/// Each dimension is held to 4096 on its own: a request with positive
/// dimensions, one of them above 4096, is refused for its size.
pub proof fn law_oversized_dimension_refused(width: u32, height: u32, steps: u32, prompt: Seq<char>, negative_prompt: Seq<char>)
    requires
        width > 0,
        height > 0,
        width > 4096 || height > 4096,
    ensures
        generation_reason(width, height, steps, prompt, negative_prompt) == Some("width and height must be <= 4096"@),
{
}

/// A request with a zero dimension is refused for it, whatever else it asks.
pub proof fn law_zero_dimension_refused(width: u32, height: u32, steps: u32, prompt: Seq<char>, negative_prompt: Seq<char>)
    requires
        width == 0 || height == 0,
    ensures
        generation_reason(width, height, steps, prompt, negative_prompt) == Some("width and height must be > 0"@),
{
}

/// A request within the limits, with steps and prompts that are C strings,
/// passes every check.
pub proof fn law_valid_request_passes(width: u32, height: u32, steps: u32, prompt: Seq<char>, negative_prompt: Seq<char>)
    requires
        0 < width <= 4096,
        0 < height <= 4096,
        steps > 0,
        !prompt.contains('\0'),
        !negative_prompt.contains('\0'),
    ensures
        generation_reason(width, height, steps, prompt, negative_prompt) is None,
{
}

/// The checks an image request passes first: a cancel already pending wins;
/// then positive dimensions of at most 4096, at least one step, and prompts
/// that hold no NUL character.
pub fn check_generation_request(
    cancelled: bool,
    width: u32,
    height: u32,
    steps: u32,
    prompt: &str,
    negative_prompt: &str,
) -> (r: Result<(), SdError>)
    ensures
        cancelled ==> r == Err::<(), SdError>(SdError::Cancelled),
        !cancelled ==> match generation_reason(width, height, steps, prompt@, negative_prompt@) {
            None => r is Ok,
            Some(t) => r matches Err(SdError::InvalidParams { reason }) && reason@ == t,
        },
{
    if cancelled {
        return Err(SdError::Cancelled);
    }
    if width == 0 || height == 0 {
        return Err(invalid("width and height must be > 0"));
    }
    if width > MAX_DIMENSION || height > MAX_DIMENSION {
        return Err(invalid("width and height must be <= 4096"));
    }
    if steps == 0 {
        return Err(invalid("steps must be > 0"));
    }
    if str_has_nul(prompt) {
        return Err(invalid("prompt contains interior NUL byte"));
    }
    if str_has_nul(negative_prompt) {
        return Err(invalid("negative_prompt contains interior NUL byte"));
    }
    Ok(())
}

/// The reason text for each video request check that fails, in check order.
pub open spec fn video_reason(
    width: u32,
    height: u32,
    frames: u32,
    prompt: Seq<char>,
    negative_prompt: Seq<char>,
) -> Option<Seq<char>> {
    if width == 0 || height == 0 {
        Some("width and height must be > 0"@)
    } else if frames == 0 {
        Some("video_frames must be > 0"@)
    } else if has_nul(prompt) {
        Some("prompt contains interior NUL byte"@)
    } else if has_nul(negative_prompt) {
        Some("negative_prompt contains interior NUL byte"@)
    } else {
        None
    }
}

/// Width and height are checked alike on a video request too.
pub proof fn law_video_dimensions_alike(width: u32, height: u32, frames: u32, prompt: Seq<char>, negative_prompt: Seq<char>)
    ensures
        video_reason(width, height, frames, prompt, negative_prompt) == video_reason(
            height,
            width,
            frames,
            prompt,
            negative_prompt,
        ),
{
}

/// The checks a video request passes first: a pending cancel wins; then
/// positive dimensions, at least one frame, and prompts without NUL.
pub fn check_video_request(
    cancelled: bool,
    width: u32,
    height: u32,
    frames: u32,
    prompt: &str,
    negative_prompt: &str,
) -> (r: Result<(), SdError>)
    ensures
        cancelled ==> r == Err::<(), SdError>(SdError::Cancelled),
        !cancelled ==> match video_reason(width, height, frames, prompt@, negative_prompt@) {
            None => r is Ok,
            Some(t) => r matches Err(SdError::InvalidParams { reason }) && reason@ == t,
        },
{
    if cancelled {
        return Err(SdError::Cancelled);
    }
    if width == 0 || height == 0 {
        return Err(invalid("width and height must be > 0"));
    }
    if frames == 0 {
        return Err(invalid("video_frames must be > 0"));
    }
    if str_has_nul(prompt) {
        return Err(invalid("prompt contains interior NUL byte"));
    }
    if str_has_nul(negative_prompt) {
        return Err(invalid("negative_prompt contains interior NUL byte"));
    }
    Ok(())
}

} // verus!
