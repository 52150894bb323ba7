use blink::types::{
    check_context_config, check_generation_request, check_video_request, str_has_nul,
    ContextConfig, LoraApplyMode,
};
use blink::SdError;

#[test]
fn context_config_defaults_to_auto_fit() {
    let config = ContextConfig::default();
    assert!(config.auto_fit);
    assert!(!config.low_memory);
    assert!(config.uses_auto_fit());
}

#[test]
fn low_memory_overrides_auto_fit() {
    let config = ContextConfig {
        low_memory: true,
        ..ContextConfig::default()
    };
    assert!(config.auto_fit);
    assert!(!config.uses_auto_fit());
}

#[test]
fn context_config_default_values() {
    let c = ContextConfig::default();
    assert_eq!(c.n_threads, 4);
    assert_eq!(c.lora_apply_mode, LoraApplyMode::Auto);
    assert!(c.model_path.is_none() && c.diffusion_model_path.is_none());
}

#[test]
fn new_context_with_missing_model_returns_error() {
    let config = ContextConfig {
        model_path: Some("/nonexistent/model.gguf".into()),
        ..ContextConfig::default()
    };
    match check_context_config(&config, false, false) {
        Err(SdError::ModelNotFound { path }) => assert!(path.contains("nonexistent")),
        other => panic!("Expected ModelNotFound, got: {:?}", other),
    }
}

#[test]
fn context_config_without_any_model_is_invalid() {
    match check_context_config(&ContextConfig::default(), true, true) {
        Err(SdError::InvalidParams { reason }) => assert!(reason.starts_with("No model path provided")),
        other => panic!("unexpected: {:?}", other),
    }
}

#[test]
fn context_config_checks_diffusion_path_and_nul_bytes() {
    let config = ContextConfig {
        diffusion_model_path: Some("flux.gguf".into()),
        vae_path: Some("ae\0.safetensors".into()),
        ..ContextConfig::default()
    };
    match check_context_config(&config, false, false) {
        Err(SdError::ModelNotFound { path }) => assert_eq!(path, "flux.gguf"),
        other => panic!("unexpected: {:?}", other),
    }
    match check_context_config(&config, false, true) {
        Err(SdError::InvalidParams { reason }) => {
            assert_eq!(reason, "vae_path contains interior NUL byte")
        }
        other => panic!("unexpected: {:?}", other),
    }
    let ok = ContextConfig { vae_path: None, ..config };
    assert!(check_context_config(&ok, false, true).is_ok());
}

#[test]
fn generation_request_checks_in_order() {
    assert!(matches!(
        check_generation_request(true, 0, 0, 0, "", ""),
        Err(SdError::Cancelled)
    ));
    let reason = |r: Result<(), SdError>| match r {
        Err(SdError::InvalidParams { reason }) => reason,
        other => panic!("unexpected: {:?}", other),
    };
    assert_eq!(reason(check_generation_request(false, 0, 512, 20, "a", "")), "width and height must be > 0");
    assert_eq!(reason(check_generation_request(false, 4097, 512, 20, "a", "")), "width and height must be <= 4096");
    assert_eq!(reason(check_generation_request(false, 512, 512, 0, "a", "")), "steps must be > 0");
    assert_eq!(reason(check_generation_request(false, 512, 512, 4, "a\0b", "")), "prompt contains interior NUL byte");
    assert_eq!(reason(check_generation_request(false, 512, 512, 4, "a", "\0")), "negative_prompt contains interior NUL byte");
    assert!(check_generation_request(false, 4096, 4096, 1, "a cat", "blurry").is_ok());
}

#[test]
fn video_request_checks_in_order() {
    assert!(matches!(check_video_request(true, 1, 1, 1, "", ""), Err(SdError::Cancelled)));
    match check_video_request(false, 512, 512, 0, "", "") {
        Err(SdError::InvalidParams { reason }) => assert_eq!(reason, "video_frames must be > 0"),
        other => panic!("unexpected: {:?}", other),
    }
    assert!(check_video_request(false, 512, 512, 16, "waves", "").is_ok());
}

#[test]
fn nul_detection() {
    assert!(str_has_nul("a\0"));
    assert!(!str_has_nul("plain text ünïcode"));
}
