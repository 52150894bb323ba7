//! Output sanity checks for generated images.

use blink::imaging::rgb_to_rgba;

/// Why a generated image looks degenerate, or `None` if it looks like a real image.
///
/// This guards the specific failure modes this codebase has actually hit: an all-black
/// frame (the VAE decoding on the wrong backend) and a flat/uniform frame (weights not
/// applied). A migration that compiles but silently produces black output must fail here.
fn degeneracy_reason(rgba: &[u8], width: u32, height: u32) -> Option<String> {
    let expected = (width as usize) * (height as usize) * 4;
    if rgba.len() != expected {
        return Some(format!(
            "buffer is {} bytes, expected {} for {}x{} RGBA",
            rgba.len(),
            expected,
            width,
            height
        ));
    }
    if rgba.is_empty() {
        return Some("buffer is empty".to_string());
    }

    // Look at colour channels only; a fully opaque alpha channel is expected and
    // would otherwise mask a black image as "has variation".
    let colour: Vec<u8> = rgba
        .chunks_exact(4)
        .flat_map(|px| [px[0], px[1], px[2]])
        .collect();

    let nonzero = colour.iter().filter(|&&b| b != 0).count();
    if nonzero == 0 {
        return Some("image is entirely black (all colour channels zero)".to_string());
    }

    let mut seen = [false; 256];
    for &b in &colour {
        seen[b as usize] = true;
    }
    let distinct = seen.iter().filter(|&&s| s).count();
    if distinct < 8 {
        return Some(format!(
            "image has only {} distinct colour values — looks flat, not a render",
            distinct
        ));
    }

    let mean = colour.iter().map(|&b| b as f64).sum::<f64>() / colour.len() as f64;
    let variance =
        colour.iter().map(|&b| (b as f64 - mean).powi(2)).sum::<f64>() / colour.len() as f64;
    let stddev = variance.sqrt();
    if stddev < 3.0 {
        return Some(format!(
            "image standard deviation is {:.2} — nearly uniform, not a render",
            stddev
        ));
    }

    None
}

/// 2x2 RGBA buffer built from a per-pixel colour function.
fn buf(f: impl Fn(usize) -> [u8; 3]) -> Vec<u8> {
    (0..4)
        .flat_map(|i| {
            let [r, g, b] = f(i);
            [r, g, b, 255]
        })
        .collect()
}

#[test]
fn all_black_is_degenerate() {
    let img = buf(|_| [0, 0, 0]);
    let reason = degeneracy_reason(&img, 2, 2).expect("all-black must be flagged");
    assert!(reason.contains("black"), "unexpected reason: {reason}");
}

#[test]
fn opaque_alpha_does_not_mask_a_black_image() {
    // Alpha is 255 everywhere; only colour channels are zero.
    let img = buf(|_| [0, 0, 0]);
    assert!(
        degeneracy_reason(&img, 2, 2).is_some(),
        "a black image with opaque alpha must still be flagged"
    );
}

#[test]
fn uniform_grey_is_degenerate() {
    let img = buf(|_| [128, 128, 128]);
    let reason = degeneracy_reason(&img, 2, 2).expect("uniform image must be flagged");
    assert!(
        reason.contains("flat") || reason.contains("uniform"),
        "unexpected reason: {reason}"
    );
}

#[test]
fn wrong_buffer_length_is_reported() {
    let reason = degeneracy_reason(&[0, 0, 0, 255], 2, 2).expect("size mismatch must be flagged");
    assert!(reason.contains("expected"), "unexpected reason: {reason}");
}

#[test]
fn varied_image_is_accepted() {
    // Spread values widely so both the distinct-count and stddev checks pass.
    let img: Vec<u8> = (0..64u32)
        .flat_map(|i| {
            let v = (i * 4) as u8;
            [v, 255 - v, v.wrapping_mul(3), 255]
        })
        .collect();
    assert_eq!(
        degeneracy_reason(&img, 8, 8),
        None,
        "a varied image must not be flagged"
    );
}

#[test]
fn widened_engine_output_passes_the_sanity_check() {
    // An 8x8 RGB gradient, widened the way engine output is before display.
    let rgb: Vec<u8> = (0..64u32)
        .flat_map(|i| {
            let v = (i * 4) as u8;
            [v, 255 - v, v.wrapping_mul(3)]
        })
        .collect();
    let rgba = rgb_to_rgba(&rgb);
    assert_eq!(degeneracy_reason(&rgba, 8, 8), None);
}
