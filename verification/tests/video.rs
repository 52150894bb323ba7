use blink::imaging::{decode_gallery_image, encode_frames_to_gif, video_gif_base64};
use blink::GeneratedImage;

fn frame(w: u32, h: u32, fill: u8, len: usize) -> GeneratedImage {
    GeneratedImage { data: vec![fill; len], width: w, height: h }
}

#[test]
fn frames_encode_to_a_looping_gif() {
    let frames = vec![frame(2, 2, 10, 16), frame(2, 2, 200, 16)];
    let gif = encode_frames_to_gif(frames).unwrap();
    assert_eq!(&gif[0..6], b"GIF89a");
    // The NETSCAPE extension carries the endless repeat.
    assert!(gif.windows(11).any(|w| w == b"NETSCAPE2.0"));
    assert_eq!(*gif.last().unwrap(), 0x3b);
}

#[test]
fn short_frame_is_reported_after_the_frames_before_it() {
    let frames = vec![frame(2, 2, 1, 16), frame(3, 1, 1, 5)];
    assert_eq!(
        encode_frames_to_gif(frames).err(),
        Some("Invalid frame dimensions: 3x1 with 5 bytes".to_string())
    );
}

#[test]
fn oversized_frame_fails_in_the_encoder() {
    // GIF dimensions are 16-bit; the encoder refuses before the short frame is reached.
    let frames = vec![frame(70_000, 1, 0, 280_000), frame(1, 1, 0, 0)];
    let e = encode_frames_to_gif(frames).unwrap_err();
    assert!(e.starts_with("Failed to encode GIF frame: "), "{e}");
}

#[test]
fn video_result_is_base64_of_the_gif() {
    assert_eq!(video_gif_base64(vec![]).err(), Some("No frames generated".to_string()));
    let frames = vec![frame(4, 2, 7, 32), frame(4, 2, 9, 32)];
    let gif = encode_frames_to_gif(frames.clone()).unwrap();
    let (b64, w, h) = video_gif_base64(frames).unwrap();
    assert_eq!((w, h), (4, 2));
    assert_eq!(decode_gallery_image(&b64).unwrap(), gif);
}
