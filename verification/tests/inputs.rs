use blink::imaging::encode_image_to_png;
use blink::inputs::{decode_upscale_input, prepare_generation, prepare_generation_inputs};
use blink::SdError;

fn png(w: u32, h: u32, fill: u8) -> Vec<u8> {
    encode_image_to_png(&vec![fill; (w * h * 4) as usize], w, h).unwrap()
}

fn reason(e: SdError) -> String {
    match e {
        SdError::InvalidParams { reason } => reason,
        other => panic!("unexpected error {other:?}"),
    }
}

#[test]
fn txt2img_keeps_the_requested_size_and_decodes_references() {
    let refs = vec![png(3, 2, 9), png(1, 1, 200)];
    let g = prepare_generation_inputs(512, 768, None, None, &refs, &vec![], None).unwrap();
    assert_eq!((g.width, g.height), (512, 768));
    assert!(g.init_image.is_none() && g.mask.is_none() && g.control_image.is_none());
    assert_eq!(g.ref_images.len(), 2);
    assert_eq!((g.ref_images[0].width, g.ref_images[0].height), (3, 2));
    assert_eq!(g.ref_images[0].data, vec![9u8; 18]);
    assert_eq!(g.ref_images[1].data, vec![200u8; 3]);
}

#[test]
fn img2img_aligns_the_start_image_and_fills_the_mask() {
    let input = png(100, 70, 50);
    let g = prepare_generation_inputs(512, 512, Some(&input), None, &vec![], &vec![], None).unwrap();
    assert_eq!((g.width, g.height), (128, 128));
    assert_eq!(g.init_image.as_ref().unwrap().len(), 3 * 128 * 128);
    assert_eq!(g.mask.unwrap(), vec![255u8; 128 * 128]);

    let mask = png(10, 10, 0);
    let g = prepare_generation_inputs(512, 512, Some(&input), Some(&mask), &vec![], &vec![], None).unwrap();
    assert_eq!(g.mask.unwrap(), vec![0u8; 128 * 128]);

    // A start image already on the grid keeps its size.
    let exact = png(64, 128, 1);
    let g = prepare_generation_inputs(1, 1, Some(&exact), None, &vec![], &vec![], None).unwrap();
    assert_eq!((g.width, g.height), (64, 128));
}

#[test]
fn preparation_reports_the_first_bad_input() {
    let bad = vec![1u8, 2, 3];
    let e = prepare_generation_inputs(8, 8, Some(&bad), None, &vec![], &vec![], None).unwrap_err();
    assert!(reason(e).starts_with("Failed to decode input image: "));
    let refs = vec![png(1, 1, 0), bad.clone()];
    let e = prepare_generation_inputs(8, 8, None, None, &refs, &vec![], Some(&bad)).unwrap_err();
    assert!(reason(e).starts_with("Failed to decode ref_image[1]: "));
    let loras = vec!["ok.safetensors".to_string(), "b\0d".to_string()];
    let e = prepare_generation_inputs(8, 8, None, None, &vec![], &loras, Some(&bad)).unwrap_err();
    assert_eq!(reason(e), "LoRA path contains interior NUL byte: b\0d");
    let e = prepare_generation_inputs(8, 8, None, None, &vec![], &vec![], Some(&bad)).unwrap_err();
    assert!(reason(e).starts_with("Failed to decode control image: "));
    let input = png(8, 8, 0);
    let e = prepare_generation_inputs(8, 8, Some(&input), Some(&bad), &vec![], &vec![], None).unwrap_err();
    assert!(reason(e).starts_with("Failed to decode mask image: "));
    // Without a start image the mask is never looked at.
    assert!(prepare_generation_inputs(8, 8, None, Some(&bad), &vec![], &vec![], None).is_ok());
}

#[test]
fn checked_preparation_accepts_ordinary_images() {
    let input = png(20, 20, 3);
    let control = png(4, 4, 7);
    let g = prepare_generation(8, 8, Some(&input), None, &vec![], &vec![], Some(&control)).unwrap().unwrap();
    assert_eq!((g.width, g.height), (64, 64));
    assert_eq!(g.control_image.unwrap().data, vec![7u8; 48]);
    assert!(prepare_generation(8, 8, Some(&[0u8, 1][..]), None, &vec![], &vec![], None).unwrap().is_err());
}

#[test]
fn upscale_input_is_decoded_to_rgb() {
    let g = decode_upscale_input(&png(2, 3, 11)).unwrap();
    assert_eq!((g.width, g.height, g.data.len()), (2, 3, 18));
    assert!(reason(decode_upscale_input(b"nope").unwrap_err()).starts_with("Failed to decode input image: "));
}
