//! Where a model's weights live: the per-load placement decision, and the
//! context configuration it produces.
use vstd::prelude::*;
use crate::text::{decimal, push_decimal, push_str};
use crate::types::{ContextConfig, LoraApplyMode};

verus! {

/// The user's only placement choice. When off, Blink still forces low-memory
/// placement when the model will not fit the GPU.
#[derive(Debug, Clone, Copy, PartialEq, Eq, Structural)]
pub struct PerfSettings {
    pub low_memory: bool,
}

impl Default for PerfSettings {
    /// Low-memory mode off.
    fn default() -> (p: Self)
        ensures
            !p.low_memory,
    {
        PerfSettings { low_memory: false }
    }
}

/// Progress while a model is read off disk; the counts are tensors.
#[derive(Debug, Clone, Copy, PartialEq, Eq, Structural)]
pub struct ModelLoadProgressEvent {
    pub step: u32,
    pub total_steps: u32,
}

/// The files a model consists of.
#[derive(Debug, Clone)]
pub struct ModelPaths {
    pub model_path: Option<String>,
    pub vae_path: Option<String>,
    pub clip_l_path: Option<String>,
    pub t5xxl_path: Option<String>,
    pub diffusion_model_path: Option<String>,
    pub llm_path: Option<String>,
    pub control_net_path: Option<String>,
    pub taesd_path: Option<String>,
}

/// A model's files as plain values.
pub struct PathsView {
    pub model: Option<Seq<char>>,
    pub vae: Option<Seq<char>>,
    pub clip_l: Option<Seq<char>>,
    pub t5xxl: Option<Seq<char>>,
    pub diffusion_model: Option<Seq<char>>,
    pub llm: Option<Seq<char>>,
    pub control_net: Option<Seq<char>>,
    pub taesd: Option<Seq<char>>,
}

/// The view of an optional path.
pub open spec fn path_view(o: Option<String>) -> Option<Seq<char>> {
    match o {
        Some(s) => Some(s@),
        None => None,
    }
}

/// The files of a model as plain values.
pub open spec fn paths_view(p: ModelPaths) -> PathsView {
    PathsView {
        model: path_view(p.model_path),
        vae: path_view(p.vae_path),
        clip_l: path_view(p.clip_l_path),
        t5xxl: path_view(p.t5xxl_path),
        diffusion_model: path_view(p.diffusion_model_path),
        llm: path_view(p.llm_path),
        control_net: path_view(p.control_net_path),
        taesd: path_view(p.taesd_path),
    }
}

/// The files of a single-checkpoint model.
pub open spec fn single_file_paths(path: Seq<char>) -> PathsView {
    PathsView {
        model: Some(path),
        vae: None,
        clip_l: None,
        t5xxl: None,
        diffusion_model: None,
        llm: None,
        control_net: None,
        taesd: None,
    }
}

/// The files of a single-checkpoint model.
pub fn single_file_model(path: String) -> (p: ModelPaths)
    ensures
        paths_view(p) == single_file_paths(path@),
{
    ModelPaths {
        model_path: Some(path),
        vae_path: None,
        clip_l_path: None,
        t5xxl_path: None,
        diffusion_model_path: None,
        llm_path: None,
        control_net_path: None,
        taesd_path: None,
    }
}

/// VRAM sd.cpp's auto-fit keeps aside for compute buffers before it places a
/// model's parameters on the GPU.
pub const SDCPP_COMPUTE_RESERVE_MB: u64 = 2048;

/// VRAM sd.cpp subtracts from the device's free VRAM before budgeting.
pub const SDCPP_FREE_MARGIN_MB: u64 = 512;

/// VRAM the GPU must offer for the model to stay on it.
pub open spec fn needed_mb(primary_model_mb: u64) -> int {
    primary_model_mb + SDCPP_COMPUTE_RESERVE_MB
}

/// Free VRAM after sd.cpp's margin, never below zero.
pub open spec fn usable_mb(free: u64) -> int {
    if free >= SDCPP_FREE_MARGIN_MB {
        free - SDCPP_FREE_MARGIN_MB
    } else {
        0
    }
}

/// Whether weights must be forced into CPU RAM: the user asked for it, free
/// VRAM is unknown, or the usable VRAM is below what the model needs.
pub open spec fn needs_low_memory(user_low_memory: bool, free_vram_mb: Option<u64>, primary_model_mb: u64) -> bool {
    user_low_memory || match free_vram_mb {
        None => true,
        Some(free) => usable_mb(free) < needed_mb(primary_model_mb),
    }
}

/// The one-line reason logged with the placement decision.
pub open spec fn placement_reason(
    user_low_memory: bool,
    free_vram_mb: Option<u64>,
    primary_model_mb: u64,
) -> Seq<char> {
    let need = decimal(needed_mb(primary_model_mb) as nat);
    if user_low_memory {
        "user setting"@
    } else {
        match free_vram_mb {
            None => "free VRAM unknown; model needs ~"@ + need + " MiB on the GPU"@,
            Some(free) => {
                let usable = decimal(usable_mb(free) as nat);
                if usable_mb(free) >= needed_mb(primary_model_mb) {
                    usable + " MiB usable >= "@ + need + " MiB needed"@
                } else {
                    "auto: "@ + usable + " MiB usable < "@ + need
                        + " MiB needed; auto_fit would move diffusion compute to CPU"@
                }
            },
        }
    }
}

/// Whether to force weights into CPU RAM (`low_memory`) rather than let
/// sd.cpp's auto-fit plan placement, with a one-line reason for the log.
///
/// The user's explicit choice always wins. When free VRAM cannot be read the
/// answer is low-memory. Otherwise the model fits when the free VRAM, less
/// sd.cpp's margin, covers the model plus sd.cpp's compute reserve.
pub fn low_memory_for(user_low_memory: bool, free_vram_mb: Option<u64>, primary_model_mb: u64) -> (r:
    (bool, String))
    requires
        primary_model_mb + SDCPP_COMPUTE_RESERVE_MB <= u64::MAX,
    ensures
        r.0 == needs_low_memory(user_low_memory, free_vram_mb, primary_model_mb),
        r.1@ == placement_reason(user_low_memory, free_vram_mb, primary_model_mb),
{
    if user_low_memory {
        return (true, String::from_str("user setting"));
    }
    let need_mb = primary_model_mb + SDCPP_COMPUTE_RESERVE_MB;
    match free_vram_mb {
        None => {
            let mut s = String::from_str("free VRAM unknown; model needs ~");
            push_decimal(&mut s, need_mb);
            push_str(&mut s, " MiB on the GPU");
            (true, s)
        },
        Some(free) => {
            let usable = free.saturating_sub(SDCPP_FREE_MARGIN_MB);
            if usable >= need_mb {
                let mut s = String::new();
                push_decimal(&mut s, usable);
                push_str(&mut s, " MiB usable >= ");
                push_decimal(&mut s, need_mb);
                push_str(&mut s, " MiB needed");
                assert(s@ =~= placement_reason(user_low_memory, free_vram_mb, primary_model_mb));
                (false, s)
            } else {
                let mut s = String::from_str("auto: ");
                push_decimal(&mut s, usable);
                push_str(&mut s, " MiB usable < ");
                push_decimal(&mut s, need_mb);
                push_str(&mut s, " MiB needed; auto_fit would move diffusion compute to CPU");
                (true, s)
            }
        },
    }
}

/// The model file whose size decides placement: the diffusion model of a
/// split stack, else the single checkpoint.
pub open spec fn primary_path(paths: ModelPaths) -> Option<String> {
    if paths.diffusion_model_path is Some {
        paths.diffusion_model_path
    } else {
        paths.model_path
    }
}

/// The path of the model file that has to fit on the GPU.
pub fn primary_model_path(paths: &ModelPaths) -> (p: Option<String>)
    ensures
        p == primary_path(*paths),
{
    match &paths.diffusion_model_path {
        Some(d) => Some(d.clone()),
        None => paths.model_path.clone(),
    }
}

/// Whole MiB in a byte count.
pub fn mib_of_bytes(len: u64) -> (mb: u64)
    ensures
        mb == len / 1048576u64,
{
    len / (1024 * 1024)
}

/// The context configuration a load uses: the model's files, the thread
/// count, and the placement decided for this load (auto-fit exactly when not
/// low-memory), with LoRA applied the way sd.cpp chooses.
pub fn context_config_for(paths: ModelPaths, n_threads: i32, low_memory: bool) -> (c: ContextConfig)
    ensures
        c.model_path == paths.model_path,
        c.vae_path == paths.vae_path,
        c.clip_l_path == paths.clip_l_path,
        c.t5xxl_path == paths.t5xxl_path,
        c.diffusion_model_path == paths.diffusion_model_path,
        c.llm_path == paths.llm_path,
        c.control_net_path == paths.control_net_path,
        c.taesd_path == paths.taesd_path,
        c.n_threads == n_threads,
        c.auto_fit == !low_memory,
        c.low_memory == low_memory,
        c.lora_apply_mode == LoraApplyMode::Auto,
{
    ContextConfig {
        model_path: paths.model_path,
        vae_path: paths.vae_path,
        clip_l_path: paths.clip_l_path,
        t5xxl_path: paths.t5xxl_path,
        diffusion_model_path: paths.diffusion_model_path,
        llm_path: paths.llm_path,
        n_threads,
        auto_fit: !low_memory,
        low_memory,
        control_net_path: paths.control_net_path,
        taesd_path: paths.taesd_path,
        lora_apply_mode: LoraApplyMode::Auto,
    }
}

// ---------------------------------------------------------------------------
// Laws
// ---------------------------------------------------------------------------

/// The user's low-memory choice always wins.
pub proof fn law_user_choice_wins(free_vram_mb: Option<u64>, primary_model_mb: u64)
    ensures
        needs_low_memory(true, free_vram_mb, primary_model_mb),
        placement_reason(true, free_vram_mb, primary_model_mb) == "user setting"@,
{
}

/// Unknown free VRAM always means low-memory.
pub proof fn law_unknown_vram_is_low_memory(user: bool, primary_model_mb: u64)
    ensures
        needs_low_memory(user, None, primary_model_mb),
{
}

/// More free VRAM never turns auto-fit into low-memory.
pub proof fn law_more_vram_never_hurts(free1: u64, free2: u64, primary_model_mb: u64)
    requires
        free1 <= free2,
        !needs_low_memory(false, Some(free1), primary_model_mb),
    ensures
        !needs_low_memory(false, Some(free2), primary_model_mb),
{
}

/// A smaller model never turns auto-fit into low-memory.
pub proof fn law_smaller_model_never_hurts(free: u64, mb1: u64, mb2: u64)
    requires
        mb2 <= mb1,
        !needs_low_memory(false, Some(free), mb1),
    ensures
        !needs_low_memory(false, Some(free), mb2),
{
}

/// The fit test is inclusive: a model fits exactly when the free VRAM is at
/// least the model plus the compute reserve plus the free margin.
pub proof fn law_fit_boundary(free: u64, primary_model_mb: u64)
    ensures
        !needs_low_memory(false, Some(free), primary_model_mb) <==> free >= primary_model_mb
            + SDCPP_COMPUTE_RESERVE_MB + SDCPP_FREE_MARGIN_MB,
{
}

/// An automatic low-memory decision explains itself with a reason that
/// starts with `auto:`.
pub proof fn law_auto_reason_prefix(free: u64, primary_model_mb: u64)
    requires
        needs_low_memory(false, Some(free), primary_model_mb),
    ensures
        placement_reason(false, Some(free), primary_model_mb).subrange(0, 5) == "auto:"@,
{
    reveal_strlit("auto: ");
    reveal_strlit("auto:");
    let usable = decimal(usable_mb(free) as nat);
    let need = decimal(needed_mb(primary_model_mb) as nat);
    let r = "auto: "@ + usable + " MiB usable < "@ + need
        + " MiB needed; auto_fit would move diffusion compute to CPU"@;
    assert(r.subrange(0, 5) =~= "auto:"@);
}

} // verus!
