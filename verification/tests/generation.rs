use blink::generation::{
    begin_generation, cancel_generation, finish_generation, parse_enhance_response, parse_sampler,
    GenerationOutcome, GenerationState,
};
use blink::{SampleMethod, SdError};

#[test]
fn sampler_names_map_to_samplers() {
    assert_eq!(parse_sampler("euler"), SampleMethod::Euler);
    assert_eq!(parse_sampler("euler_a"), SampleMethod::EulerA);
    assert_eq!(parse_sampler("heun"), SampleMethod::Heun);
    assert_eq!(parse_sampler("dpm2"), SampleMethod::Dpm2);
    assert_eq!(parse_sampler("dpm++2m"), SampleMethod::DpmPlusPlus2m);
    assert_eq!(parse_sampler("lcm"), SampleMethod::Lcm);
    assert_eq!(parse_sampler("Euler"), SampleMethod::EulerA);
    assert_eq!(parse_sampler(""), SampleMethod::EulerA);
}

#[test]
fn enhance_reply_in_the_requested_format() {
    let e = parse_enhance_response(
        "PROMPT: a red apple, studio lighting, 8k\nNEGATIVE: blurry, low quality".to_string(),
    );
    assert_eq!(e.prompt, "a red apple, studio lighting, 8k");
    assert_eq!(e.negative_prompt, "blurry, low quality");
}

#[test]
fn enhance_reply_tolerates_whitespace_and_crlf() {
    let e = parse_enhance_response(
        "Sure!\r\n   PROMPT:   a cat \r\n\r\n NEGATIVE:\tbad hands  \r\n".to_string(),
    );
    assert_eq!(e.prompt, "a cat");
    assert_eq!(e.negative_prompt, "bad hands");
}

#[test]
fn enhance_reply_without_labels_is_the_prompt() {
    let text = "  just an enhanced prompt\nwith two lines ".to_string();
    let e = parse_enhance_response(text.clone());
    assert_eq!(e.prompt, text);
    assert_eq!(e.negative_prompt, "");
}

#[test]
fn enhance_reply_last_label_wins() {
    let e = parse_enhance_response("PROMPT: one\nPROMPT: two\nNEGATIVE: x\nNEGATIVE:".to_string());
    assert_eq!(e.prompt, "two");
    assert_eq!(e.negative_prompt, "");
    // A label in the middle of a line does not count.
    let e = parse_enhance_response("say PROMPT: no".to_string());
    assert_eq!(e.prompt, "say PROMPT: no");
}

#[test]
fn only_one_generation_at_a_time() {
    let mut st = GenerationState { generating: false, cancel_requested: true };
    assert_eq!(
        begin_generation(&mut st, false),
        Err("No model loaded. Please download and select a model first.".to_string())
    );
    assert!(begin_generation(&mut st, true).is_ok());
    assert_eq!(st, GenerationState { generating: true, cancel_requested: false });
    assert_eq!(begin_generation(&mut st, true), Err("Generation already in progress".to_string()));
    assert_eq!(finish_generation(&mut st, &Ok(())), GenerationOutcome::Completed);
    assert!(!st.generating);
}

#[test]
fn cancel_before_dequeue_produces_no_image() {
    let mut st = GenerationState { generating: false, cancel_requested: false };
    begin_generation(&mut st, true).unwrap();
    cancel_generation(&mut st);
    assert_eq!(st, GenerationState { generating: false, cancel_requested: true });
    // Even a generation that completes is not delivered.
    assert_eq!(finish_generation(&mut st, &Ok(())), GenerationOutcome::Cancelled);
}

#[test]
fn engine_errors_are_reported_with_their_text() {
    let mut st = GenerationState { generating: true, cancel_requested: false };
    assert_eq!(
        finish_generation(&mut st, &Err(SdError::Cancelled)),
        GenerationOutcome::Cancelled
    );
    st.generating = true;
    assert_eq!(
        finish_generation(&mut st, &Err(SdError::InferenceReturnedNull)),
        GenerationOutcome::Failed(
            "Inference returned null — model may be corrupted or incompatible".to_string()
        )
    );
}

#[test]
fn reference_images_need_an_editing_model() {
    assert!(blink::generation::check_reference_images("flux-kontext", 2).is_ok());
    assert!(blink::generation::check_reference_images("z-image", 0).is_ok());
    assert_eq!(
        blink::generation::check_reference_images("z-image", 1).err().as_deref(),
        Some("Edit Mode needs an editing model such as Flux Kontext; reference images cannot be used with a z-image model")
    );
}

#[test]
fn starting_refuses_references_before_the_guard_closes() {
    let mut st = blink::generation::GenerationState { generating: false, cancel_requested: true };
    let e = blink::generation::start_generation(&mut st, true, "z-image", 1).unwrap_err();
    assert!(e.starts_with("Edit Mode needs an editing model"));
    assert_eq!(st, blink::generation::GenerationState { generating: false, cancel_requested: true });
    assert!(blink::generation::start_generation(&mut st, true, "flux-kontext", 1).is_ok());
    assert_eq!(st, blink::generation::GenerationState { generating: true, cancel_requested: false });
    assert_eq!(blink::generation::start_generation(&mut st, true, "z-image", 0).unwrap_err(), "Generation already in progress");
    let mut idle = blink::generation::GenerationState { generating: false, cancel_requested: false };
    assert_eq!(
        blink::generation::start_generation(&mut idle, false, "sd1", 0).unwrap_err(),
        "No model loaded. Please download and select a model first."
    );
}

#[test]
fn one_cancel_records_and_reaches_the_engine() {
    let mut st = blink::generation::GenerationState { generating: true, cancel_requested: false };
    let mut h = blink::cancel::CancelHandle::new();
    assert_eq!(h.set(77), None);
    assert_eq!(blink::generation::request_cancel(&mut st, &mut h), Some(77));
    assert!(!st.generating && st.cancel_requested);
    let mut loading = blink::cancel::CancelHandle::new();
    assert_eq!(blink::generation::request_cancel(&mut st, &mut loading), None);
    assert!(loading.is_pending());
}
