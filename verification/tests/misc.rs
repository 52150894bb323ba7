use blink::engine::{
    check_lora_paths, check_upscaler_path, inference_reply, inference_stopped, model_load_result,
    spawn_failure, Wait,
};
use blink::gpu::compiled_backend;
use blink::imaging::{
    align_up_64, decode_gallery_image, encode_image_to_png, full_mask, generated_image_base64,
    prepare_upscale, rgb_to_rgba, to_rgba, upscaled_image_base64,
};
use blink::settings::{endpoint_url, enhance_user_message, AppSettings, ENHANCE_SYSTEM_PROMPT};
use blink::{AppError, GpuBackend, SdError};

#[test]
fn backend_names() {
    assert_eq!(compiled_backend(), GpuBackend::Cpu);
    assert_eq!(GpuBackend::Cpu.name(), "CPU");
    assert_eq!(GpuBackend::Cuda.name(), "CUDA");
}

#[test]
fn error_texts() {
    assert_eq!(
        SdError::InsufficientDiskSpace { needed_mb: 9000, available_mb: 12 }.message(),
        "Insufficient disk space: need 9000MB, have 12MB"
    );
    assert_eq!(
        SdError::ModelHashMismatch { expected: "aa".into(), actual: "bb".into() }.message(),
        "Model file corrupted — SHA256 mismatch (expected aa, got bb)"
    );
    assert_eq!(SdError::Io { message: "denied".into() }.message(), "IO error: denied");
}

#[test]
fn app_errors_carry_recovery_hints() {
    let a = AppError::from(SdError::ModelNotFound { path: "/m.gguf".into() });
    assert_eq!(a.message, "Model file not found: /m.gguf");
    assert_eq!(a.recovery.as_deref(), Some("Re-download the model from the Model Browser."));
    let a = AppError::from(SdError::Cancelled);
    assert_eq!(a.message, "Generation cancelled.");
    assert!(a.recovery.is_none());
    let a = AppError::from(SdError::GpuBackendUnavailable { backend: "CUDA".into() });
    assert_eq!(a.message, "GPU backend unavailable: CUDA — falling back to CPU");
    assert!(a.recovery.is_none());
    let a = AppError::from(SdError::OutOfVram { needed_mb: 10, available_mb: 4 });
    assert_eq!(a.to_display_string(), "Out of VRAM: model needs ~10MB, GPU has 4MB");
    assert!(a.recovery.is_some());
}

#[test]
fn inference_waits() {
    assert!(model_load_result(Wait::Received(Ok(()))).is_ok());
    match model_load_result(Wait::Received(Err("bad file".into()))) {
        Err(SdError::ContextCreationFailed { reason }) => assert_eq!(reason, "Model failed to load: bad file"),
        other => panic!("unexpected {:?}", other),
    }
    match model_load_result(Wait::TimedOut) {
        Err(SdError::ContextCreationFailed { reason }) => assert_eq!(reason, "Model loading timed out after 5 minutes"),
        other => panic!("unexpected {:?}", other),
    }
    match inference_reply::<u8>(Wait::Disconnected) {
        Err(SdError::FfiPanic { message }) => assert_eq!(message, "Inference thread crashed during generation"),
        other => panic!("unexpected {:?}", other),
    }
    assert_eq!(inference_reply(Wait::Received(Ok(7u8))), Ok(7));
    assert!(matches!(inference_stopped(), SdError::ContextCreationFailed { .. }));
    assert_eq!(spawn_failure("no threads").message(), "Failed to create model context: Failed to spawn inference thread: no threads");
}

#[test]
fn path_checks() {
    assert!(check_lora_paths(&vec!["a.safetensors".into(), "b.gguf".into()]).is_ok());
    match check_lora_paths(&vec!["a".into(), "b\0".into(), "c\0".into()]) {
        Err(SdError::InvalidParams { reason }) => assert_eq!(reason, "LoRA path contains interior NUL byte: b\0"),
        other => panic!("unexpected {:?}", other),
    }
    assert!(matches!(check_upscaler_path("x.pth", false), Err(SdError::ModelNotFound { .. })));
    assert!(matches!(check_upscaler_path("x\0.pth", true), Err(SdError::InvalidParams { .. })));
    assert!(check_upscaler_path("x.pth", true).is_ok());
}

#[test]
fn pixel_conversions() {
    assert_eq!(rgb_to_rgba(&[1, 2, 3, 4, 5, 6, 7]), vec![1, 2, 3, 255, 4, 5, 6, 255]);
    assert_eq!(to_rgba(&[9, 9, 9, 9], 4), vec![9, 9, 9, 9]);
    assert_eq!(to_rgba(&[1, 2, 3], 3), vec![1, 2, 3, 255]);
    assert_eq!(align_up_64(1), 64);
    assert_eq!(align_up_64(64), 64);
    assert_eq!(align_up_64(65), 128);
    assert_eq!(align_up_64(0), 0);
    assert_eq!(full_mask(3, 2), vec![255u8; 6]);
}

#[test]
fn png_and_base64_round_trip() {
    let rgba: Vec<u8> = (0..16u8).collect();
    let png = encode_image_to_png(&rgba, 2, 2).unwrap();
    assert_eq!(&png[1..4], b"PNG");
    let b64 = generated_image_base64(&rgba, 2, 2).unwrap();
    assert_eq!(b64.len(), 4 * ((png.len() + 2) / 3));
    assert_ne!(b64.as_bytes(), png.as_slice());
    assert_eq!(decode_gallery_image(&b64).unwrap(), png);
    // Extra bytes are ignored, like ImageBuffer::from_raw does.
    let mut longer = rgba.clone();
    longer.extend_from_slice(&[1, 2, 3]);
    assert_eq!(encode_image_to_png(&longer, 2, 2).unwrap(), png);
}

#[test]
fn image_errors() {
    assert_eq!(
        encode_image_to_png(&[0u8; 15], 2, 2).err(),
        Some("Invalid image dimensions: 2x2 with 15 bytes".to_string())
    );
    assert_eq!(
        upscaled_image_base64(&[0u8; 3], 1, 1).err(),
        Some("Invalid upscaled image dimensions: 1x1".to_string())
    );
    assert!(decode_gallery_image("not base64!").unwrap_err().starts_with("Failed to decode base64: "));
    assert_eq!(prepare_upscale("AAAA", 5).err(), Some("Upscale factor must be between 1 and 4".to_string()));
    assert_eq!(prepare_upscale("AAAA", 0).err(), Some("Upscale factor must be between 1 and 4".to_string()));
    assert_eq!(prepare_upscale("AAAA", 2).unwrap(), vec![0, 0, 0]);
    assert!(prepare_upscale("%%%", 2).unwrap_err().starts_with("Failed to decode base64 image: "));
}

#[test]
fn settings_defaults_and_urls() {
    let s = AppSettings::default();
    assert_eq!(s.theme, "system");
    assert_eq!(s.gallery_columns, 4);
    assert!(s.auto_save_gallery && !s.show_advanced);
    assert_eq!(endpoint_url("http://localhost:11434///", "/api/chat"), "http://localhost:11434/api/chat");
    assert_eq!(endpoint_url("http://h:1", "/v1/models"), "http://h:1/v1/models");
    assert_eq!(enhance_user_message("cat"), "Enhance this image generation prompt:\n\ncat");
    assert!(ENHANCE_SYSTEM_PROMPT.ends_with("No explanation, no quotes, no other text."));
}

#[test]
fn backend_follows_the_enabled_feature() {
    assert_eq!(blink::gpu::backend_for_features(true, true, true), GpuBackend::Metal);
    assert_eq!(blink::gpu::backend_for_features(false, true, true), GpuBackend::Cuda);
    assert_eq!(blink::gpu::backend_for_features(false, false, true), GpuBackend::Vulkan);
    assert_eq!(blink::gpu::backend_for_features(false, false, false), GpuBackend::Cpu);
}
