use blink::placement::{
    context_config_for, low_memory_for, mib_of_bytes, primary_model_path, ModelPaths, PerfSettings,
    SDCPP_COMPUTE_RESERVE_MB, SDCPP_FREE_MARGIN_MB,
};

const ZIMAGE_Q8_MB: u64 = 6272;

#[test]
fn user_choice_always_wins() {
    let (low, reason) = low_memory_for(true, Some(20_000), 1_000);
    assert!(low);
    assert_eq!(reason, "user setting");
}

#[test]
fn twelve_gb_card_fits_zimage_so_auto_fit() {
    let (low, _) = low_memory_for(false, Some(11_069), ZIMAGE_Q8_MB);
    assert!(!low);
}

#[test]
fn nine_gib_budget_fits_but_eight_does_not() {
    let (low_at_9, _) = low_memory_for(false, Some(9 * 1024), ZIMAGE_Q8_MB);
    let (low_at_8, reason) = low_memory_for(false, Some(8 * 1024), ZIMAGE_Q8_MB);
    assert!(!low_at_9);
    assert!(low_at_8);
    assert!(reason.starts_with("auto:"), "reason was: {reason}");
}

#[test]
fn small_model_on_six_gb_card_stays_auto_fit() {
    let (low, _) = low_memory_for(false, Some(6_144), 1_600);
    assert!(!low);
}

#[test]
fn small_model_on_four_gb_card_is_low_memory() {
    let (low, _) = low_memory_for(false, Some(4_096), 1_600);
    assert!(low);
}

#[test]
fn unknown_vram_is_low_memory() {
    let (low, reason) = low_memory_for(false, None, ZIMAGE_Q8_MB);
    assert!(low);
    assert!(reason.contains("unknown"));
}

#[test]
fn boundary_is_inclusive() {
    let need = ZIMAGE_Q8_MB + SDCPP_COMPUTE_RESERVE_MB;
    let (low, _) = low_memory_for(false, Some(need + SDCPP_FREE_MARGIN_MB), ZIMAGE_Q8_MB);
    assert!(!low);
    let (low, _) = low_memory_for(false, Some(need + SDCPP_FREE_MARGIN_MB - 1), ZIMAGE_Q8_MB);
    assert!(low);
}

#[test]
fn placement_reasons_are_exact() {
    assert_eq!(
        low_memory_for(false, None, 6272).1,
        "free VRAM unknown; model needs ~8320 MiB on the GPU"
    );
    assert_eq!(
        low_memory_for(false, Some(11_069), 6272).1,
        "10557 MiB usable >= 8320 MiB needed"
    );
    assert_eq!(
        low_memory_for(false, Some(8192), 6272).1,
        "auto: 7680 MiB usable < 8320 MiB needed; auto_fit would move diffusion compute to CPU"
    );
    // Less free VRAM than the margin counts as none usable.
    assert_eq!(
        low_memory_for(false, Some(100), 0).1,
        "auto: 0 MiB usable < 2048 MiB needed; auto_fit would move diffusion compute to CPU"
    );
}

#[test]
fn more_vram_never_turns_auto_fit_into_low_memory() {
    let mut was_low = true;
    for free in (0..20_000u64).step_by(97) {
        let (low, _) = low_memory_for(false, Some(free), 1_600);
        assert!(!(was_low == false && low), "flipped back at {free}");
        was_low = low;
    }
}

fn paths(model: Option<&str>, diffusion: Option<&str>) -> ModelPaths {
    ModelPaths {
        model_path: model.map(String::from),
        vae_path: None,
        clip_l_path: None,
        t5xxl_path: None,
        diffusion_model_path: diffusion.map(String::from),
        llm_path: Some("llm.gguf".into()),
        control_net_path: None,
        taesd_path: None,
    }
}

#[test]
fn primary_model_prefers_the_diffusion_model() {
    assert_eq!(
        primary_model_path(&paths(Some("Z:/definitely/not/here.safetensors"), Some("Z:/also/not/here.gguf"))),
        Some("Z:/also/not/here.gguf".to_string())
    );
    assert_eq!(primary_model_path(&paths(Some("sd.ckpt"), None)), Some("sd.ckpt".to_string()));
    assert_eq!(primary_model_path(&paths(None, None)), None);
    assert_eq!(mib_of_bytes(6272 * 1024 * 1024 + 5), 6272);
    assert_eq!(mib_of_bytes(1024 * 1024 - 1), 0);
}

#[test]
fn context_config_follows_the_placement() {
    let c = context_config_for(paths(None, Some("z.gguf")), 8, true);
    assert!(c.low_memory && !c.auto_fit && !c.uses_auto_fit());
    assert_eq!(c.n_threads, 8);
    assert_eq!(c.llm_path.as_deref(), Some("llm.gguf"));
    let c = context_config_for(paths(None, Some("z.gguf")), 8, false);
    assert!(c.uses_auto_fit());
    assert!(!PerfSettings::default().low_memory);
}
