use blink::engine::{generation_image, upscale_image, video_frames, EngineImage};
use blink::imaging::encode_image_to_png;
use blink::inputs::{input_image_fits, prepare_video, prepare_video_start};
use blink::SdError;

fn engine(data: Option<Vec<u8>>, w: u32, h: u32, ch: u32) -> EngineImage {
    EngineImage { data, width: w, height: h, channel: ch }
}

#[test]
fn generation_replies() {
    assert_eq!(generation_image(None, true).err(), Some(SdError::Cancelled));
    assert_eq!(generation_image(None, false).err(), Some(SdError::InferenceReturnedNull));
    assert_eq!(generation_image(Some(engine(None, 1, 1, 3)), true).err(), Some(SdError::InferenceReturnedNull));
    assert_eq!(generation_image(Some(engine(Some(vec![]), 0, 0, 3)), false).err(), Some(SdError::InferenceReturnedNull));
    let g = generation_image(Some(engine(Some(vec![1, 2, 3, 4, 5, 6]), 2, 1, 3)), false).unwrap();
    assert_eq!(g.data, vec![1, 2, 3, 255, 4, 5, 6, 255]);
    assert_eq!((g.width, g.height), (2, 1));
    let g = upscale_image(engine(Some(vec![9, 9, 9, 9]), 1, 1, 4)).unwrap();
    assert_eq!(g.data, vec![9, 9, 9, 9]);
    assert_eq!(upscale_image(engine(None, 4, 4, 3)).err(), Some(SdError::InferenceReturnedNull));
}

#[test]
fn video_replies_give_one_rgba_image_per_frame() {
    assert_eq!(video_frames(None).err(), Some(SdError::InferenceReturnedNull));
    assert_eq!(video_frames(Some(vec![])).err(), Some(SdError::InferenceReturnedNull));
    // A frame without pixels fails the video rather than vanishing from it.
    assert_eq!(
        video_frames(Some(vec![engine(Some(vec![1, 1, 1]), 1, 1, 3), engine(None, 1, 1, 3)])).err(),
        Some(SdError::InferenceReturnedNull)
    );
    assert_eq!(
        video_frames(Some(vec![engine(Some(vec![1, 2]), 1, 1, 2)])).err(),
        Some(SdError::InferenceReturnedNull)
    );
    let frames = video_frames(Some(vec![
        engine(Some(vec![1, 1, 1, 2, 2, 2]), 2, 1, 3),
        engine(Some(vec![7, 8]), 2, 1, 1),
        engine(Some(vec![1, 2, 3, 4, 5, 6, 7, 8]), 2, 1, 4),
    ]))
    .unwrap();
    assert_eq!(frames.len(), 3);
    for f in &frames {
        assert_eq!((f.width, f.height, f.data.len()), (2, 1, 8));
    }
    assert_eq!(frames[0].data, vec![1, 1, 1, 255, 2, 2, 2, 255]);
    assert_eq!(frames[1].data, vec![7, 7, 7, 255, 8, 8, 8, 255]);
    assert_eq!(frames[2].data, vec![1, 2, 3, 4, 5, 6, 7, 8]);
}

#[test]
fn video_start_images_are_aligned() {
    let png = encode_image_to_png(&vec![5u8; 65 * 3 * 4], 65, 3).unwrap();
    assert!(input_image_fits(Some(&png)) && input_image_fits(None));
    let g = prepare_video_start(Some(&png)).unwrap().unwrap();
    assert_eq!((g.width, g.height, g.data.len()), (128, 64, 3 * 128 * 64));
    assert!(prepare_video_start(None).unwrap().is_none());
    assert!(prepare_video(Some(&b"junk"[..])).unwrap().is_err());
}

#[test]
fn previews_need_pixels_and_size() {
    assert!(blink::engine::preview_image(engine(None, 2, 2, 3)).is_none());
    assert!(blink::engine::preview_image(engine(Some(vec![1, 2, 3]), 0, 1, 3)).is_none());
    let p = blink::engine::preview_image(engine(Some(vec![1, 2, 3]), 1, 1, 3)).unwrap();
    assert_eq!(p.data, vec![1, 2, 3, 255]);
}

#[test]
fn engine_log_lines_are_trimmed_and_noted() {
    let mut st = blink::progress::PhaseState::new();
    assert_eq!(blink::progress::note_engine_log(&mut st, "  \n\t"), None);
    assert_eq!(blink::progress::current_phase(&st), blink::Phase::Loading);
    assert_eq!(
        blink::progress::note_engine_log(&mut st, "  sampling using Euler method\n").as_deref(),
        Some("  sampling using Euler method")
    );
    assert_eq!(blink::progress::current_phase(&st), blink::Phase::Sampling);
    assert!(!st.is_latched());
    assert_eq!(blink::text::trim_end_str("a b \r\n"), "a b");
}

#[test]
fn last_cancel_check_and_engine_settings() {
    assert_eq!(blink::engine::check_cancel_before_engine(true).err(), Some(SdError::Cancelled));
    assert!(blink::engine::check_cancel_before_engine(false).is_ok());
    let mut c = blink::ContextConfig::default();
    c.n_threads = 12;
    let p = blink::types::engine_params(&c);
    assert!(p.flash_attn && p.diffusion_flash_attn && p.enable_mmap && p.detect_weight_type);
    assert!(p.auto_fit && !p.params_on_cpu);
    assert_eq!(p.n_threads, 12);
    c.low_memory = true;
    let p = blink::types::engine_params(&c);
    assert!(p.params_on_cpu && !p.auto_fit);
}
