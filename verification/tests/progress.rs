use blink::progress::{
    current_phase, note_log_line, note_progress, phase_from_log_line, reset_phase, Phase, PhaseState,
};

/// A fresh phase record, as every generation starts with.
fn guard() -> PhaseState {
    let mut st = PhaseState::new();
    reset_phase(&mut st);
    st
}

#[test]
fn canary_phase_from_log_line_detects_diffusion_model_load() {
    let line = "stable-diffusion.cpp:721  - loading diffusion model from \
                'C:\\Users\\Brad\\AppData\\Roaming\\com.beargle.blink\\models\\z-image\\z_image_turbo-Q8_0.gguf'";
    assert_eq!(phase_from_log_line(line), Some(Phase::Loading));
}

#[test]
fn canary_phase_from_log_line_detects_single_file_model_load() {
    let line = "stable-diffusion.cpp:714  - loading model from \
                'C:\\Users\\Brad\\AppData\\Roaming\\com.beargle.blink\\models\\z-image\\z_image_turbo-Q8_0.gguf'";
    assert_eq!(phase_from_log_line(line), Some(Phase::Loading));
}

#[test]
fn canary_phase_from_log_line_detects_text_encoder_load() {
    let line = "stable-diffusion.cpp:778  - loading llm from \
                'C:\\Users\\Brad\\AppData\\Roaming\\com.beargle.blink\\models\\z-image\\Qwen3-4B-Instruct-2507-Q4_K_M.gguf'";
    assert_eq!(phase_from_log_line(line), Some(Phase::Loading));
    assert_eq!(
        phase_from_log_line("loading clip_l from 'clip_l.safetensors'"),
        Some(Phase::Loading)
    );
    assert_eq!(
        phase_from_log_line("loading t5xxl from 't5xxl.safetensors'"),
        Some(Phase::Loading)
    );
}

#[test]
fn phase_from_log_line_detects_sampling() {
    assert_eq!(
        phase_from_log_line("stable-diffusion.cpp:4397 - sampling using Euler method"),
        Some(Phase::Sampling)
    );
}

#[test]
fn phase_from_log_line_detects_decoding() {
    assert_eq!(
        phase_from_log_line("stable-diffusion.cpp:5342 - decoding 1 latents"),
        Some(Phase::Decoding)
    );
}

#[test]
fn phase_from_log_line_ignores_unrelated_lines() {
    for line in [
        "stable-diffusion.cpp:1761 - total params memory size = 9988.08MB (VRAM 9988.08MB, RAM 0.00MB)",
        "model_loader.cpp:1243 - loading tensors completed, taking 0.98s",
        "model_loader.cpp:983 - loading 386/398 tensors from Qwen3-4B-Instruct-2507-Q4_K_M.gguf",
        "stable-diffusion.cpp:5700 - generating image: 1/1 - seed 42",
    ] {
        assert_eq!(phase_from_log_line(line), None, "unexpected match: {line}");
    }
}

#[test]
fn note_progress_reports_loading_when_total_steps_differs() {
    let mut st = guard();
    assert_eq!(note_progress(&mut st, 100, 386, 4), Phase::Loading);
}

#[test]
fn note_progress_reports_sampling_on_matching_step_count() {
    let mut st = guard();
    assert_eq!(note_progress(&mut st, 1, 4, 4), Phase::Sampling);
}

#[test]
fn note_progress_latches_sampling_against_later_loads() {
    let mut st = guard();
    assert_eq!(note_progress(&mut st, 1, 4, 4), Phase::Sampling);
    assert_eq!(note_progress(&mut st, 40, 452, 4), Phase::Sampling);
}

#[test]
fn sample_step_zero_tick_does_not_latch() {
    let mut st = guard();
    assert_eq!(note_progress(&mut st, 0, 4, 4), Phase::Loading, "trace line 103");
    assert!(
        !st.is_latched(),
        "sample()'s opening step=0 tick must not latch"
    );
    assert_eq!(note_progress(&mut st, 40, 452, 4), Phase::Loading, "trace line 106");
    assert_eq!(note_progress(&mut st, 1, 4, 4), Phase::Sampling, "trace line 116");
    assert!(st.is_latched(), "real sampling must latch");
}

#[test]
fn sampling_marker_alone_does_not_latch() {
    let mut st = guard();
    note_log_line(&mut st, "stable-diffusion.cpp:4397 - sampling using Euler method");
    assert_eq!(current_phase(&st), Phase::Sampling, "the marker upgrades the phase");
    assert_eq!(
        note_progress(&mut st, 100, 386, 4),
        Phase::Loading,
        "the lazy load after the sampling marker must still read as loading"
    );
}

#[test]
fn decoding_marker_does_latch() {
    let mut st = guard();
    note_log_line(&mut st, "stable-diffusion.cpp:5342 - decoding 1 latents");
    assert_eq!(note_progress(&mut st, 386, 386, 4), Phase::Decoding);
}

#[test]
fn log_markers_cannot_downgrade_sampling_to_loading() {
    let mut st = guard();
    assert_eq!(note_progress(&mut st, 4, 4, 4), Phase::Sampling);
    note_log_line(&mut st, "stable-diffusion.cpp:778  - loading llm from 'Qwen3-4B.gguf'");
    assert_eq!(current_phase(&st), Phase::Sampling);
}

#[test]
fn reset_phase_clears_the_latch() {
    let mut st = guard();
    assert_eq!(note_progress(&mut st, 1, 4, 4), Phase::Sampling);
    assert!(st.is_latched());
    reset_phase(&mut st);
    assert!(!st.is_latched());
    assert_eq!(current_phase(&st), Phase::Loading);
    assert_eq!(note_progress(&mut st, 100, 386, 4), Phase::Loading);
}

#[test]
fn context_creation_window_defers_to_the_log_markers() {
    let mut st = guard();
    assert_eq!(note_progress(&mut st, 386, 386, 0), Phase::Loading);
    note_log_line(&mut st, "stable-diffusion.cpp:721  - loading diffusion model from 'z_image_turbo-Q8_0.gguf'");
    assert_eq!(note_progress(&mut st, 0, 452, 0), Phase::Loading);
}

// Further checks of the machine.

#[test]
fn phase_names_are_the_wire_names() {
    assert_eq!(Phase::Loading.as_str(), "loading");
    assert_eq!(Phase::Sampling.as_str(), "sampling");
    assert_eq!(Phase::Decoding.as_str(), "decoding");
}

#[test]
fn phase_bytes_round_trip_and_unknown_reads_as_loading() {
    for p in [Phase::Loading, Phase::Sampling, Phase::Decoding] {
        assert_eq!(Phase::from_u8(p.to_u8()), p);
    }
    assert_eq!(Phase::Sampling.to_u8(), 1);
    assert_eq!(Phase::from_u8(200), Phase::Loading);
}

#[test]
fn decoding_marker_then_sampling_marker_keeps_the_latch() {
    let mut st = guard();
    note_log_line(&mut st, "decoding 1 latents");
    note_log_line(&mut st, "sampling using Euler method");
    assert_eq!(current_phase(&st), Phase::Sampling);
    assert!(st.is_latched());
    assert_eq!(note_progress(&mut st, 3, 400, 4), Phase::Sampling);
}

#[test]
fn latched_phase_is_never_reported_as_loading() {
    let mut st = guard();
    note_progress(&mut st, 2, 20, 20);
    for (step, total) in [(0u32, 20u32), (5, 386), (386, 386), (0, 0)] {
        assert_ne!(note_progress(&mut st, step, total, 20), Phase::Loading);
    }
}

#[test]
fn decoding_needs_both_words() {
    assert_eq!(phase_from_log_line("decoding tiles"), None);
    assert_eq!(phase_from_log_line("3 latents ready"), None);
}
