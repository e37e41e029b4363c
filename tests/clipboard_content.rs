use base64::Engine;
use gemini_processor::clipboard::{
    content_from_png, content_from_text, content_from_text_read, encode_image,
    step_after_image_read, ClipboardContent, ClipboardRead, ClipboardStep, RawImage,
};
use gemini_processor::error::AppError;

#[test]
fn text_is_kept_untrimmed() {
    match content_from_text("  hello \n".to_string()) {
        Ok(ClipboardContent::Text(t)) => assert_eq!(t, "  hello \n"),
        other => panic!("unexpected {:?}", other),
    }
}

#[test]
fn whitespace_text_is_a_clipboard_error() {
    assert!(matches!(content_from_text(" \t\n ".to_string()), Err(AppError::Clipboard(_))));
    assert!(matches!(content_from_text(String::new()), Err(AppError::Clipboard(_))));
}

#[test]
fn missing_text_is_a_clipboard_error() {
    let r = content_from_text_read(ClipboardRead::NotAvailable);
    assert!(matches!(r, Err(AppError::Clipboard(_))));
}

#[test]
fn failed_text_read_carries_the_detail() {
    match content_from_text_read(ClipboardRead::Failed("busy".to_string())) {
        Err(AppError::Clipboard(m)) => assert_eq!(m, "Failed to get text from clipboard: busy"),
        other => panic!("unexpected {:?}", other),
    }
}

#[test]
fn missing_image_falls_back_to_text() {
    assert!(matches!(step_after_image_read(ClipboardRead::NotAvailable), ClipboardStep::ReadText));
}

#[test]
fn failed_image_read_ends_the_search() {
    match step_after_image_read(ClipboardRead::Failed("locked".to_string())) {
        ClipboardStep::Done(Err(AppError::Clipboard(m))) => {
            assert_eq!(m, "Failed to get image from clipboard: locked")
        }
        _ => panic!("unexpected step"),
    }
}

fn sample_pixels(width: usize, height: usize) -> Vec<u8> {
    let mut v = Vec::new();
    for i in 0..width * height {
        v.push((i * 7 % 256) as u8);
        v.push((i * 13 % 256) as u8);
        v.push((i * 29 % 256) as u8);
        v.push(255);
    }
    v
}

#[test]
fn image_round_trips_through_base64_png() {
    let (w, h) = (5usize, 3usize);
    let pixels = sample_pixels(w, h);
    let r = encode_image(RawImage { width: w, height: h, bytes: pixels.clone() });
    let b64 = match r {
        Ok(ClipboardContent::Image { base64_png }) => base64_png,
        other => panic!("unexpected {:?}", other),
    };
    assert_eq!(b64.len() % 4, 0);
    assert!(b64.chars().all(|c| c.is_ascii_alphanumeric() || c == '+' || c == '/' || c == '='));
    let png = base64::engine::general_purpose::STANDARD.decode(b64.as_bytes()).unwrap();
    assert_eq!(&png[..8], &[0x89, b'P', b'N', b'G', 0x0D, 0x0A, 0x1A, 0x0A]);
    assert_eq!(&png[12..16], b"IHDR");
    assert_eq!(&png[16..20], &[0, 0, 0, 5]);
    assert_eq!(&png[20..24], &[0, 0, 0, 3]);
    let img = image::load_from_memory(&png).unwrap().to_rgba8();
    assert_eq!(img.width(), 5);
    assert_eq!(img.height(), 3);
    assert_eq!(img.into_raw(), pixels);
}

#[test]
fn image_through_the_step_is_encoded() {
    let step = step_after_image_read(ClipboardRead::Data(RawImage {
        width: 2,
        height: 2,
        bytes: sample_pixels(2, 2),
    }));
    assert!(matches!(step, ClipboardStep::Done(Ok(ClipboardContent::Image { .. }))));
}

#[test]
fn short_image_data_is_an_image_error() {
    let r = encode_image(RawImage { width: 4, height: 4, bytes: vec![0u8; 10] });
    assert!(matches!(r, Err(AppError::Image(_))));
}

#[test]
fn oversized_image_data_is_an_image_error() {
    let r = encode_image(RawImage { width: 1, height: 1, bytes: vec![0u8; 8] });
    assert!(matches!(r, Err(AppError::Image(_))));
}

#[test]
fn huge_dimensions_are_an_image_error() {
    let r = encode_image(RawImage { width: usize::MAX, height: 1, bytes: vec![0u8; 4] });
    assert!(matches!(r, Err(AppError::Image(_))));
}

#[test]
fn png_bytes_are_base64_encoded() {
    match content_from_png(Ok(vec![1u8, 2, 3, 4])) {
        Ok(ClipboardContent::Image { base64_png }) => assert_eq!(base64_png, "AQIDBA=="),
        other => panic!("unexpected {:?}", other),
    }
}

#[test]
fn png_failure_is_an_image_error() {
    match content_from_png(Err("disk full".to_string())) {
        Err(AppError::Image(m)) => assert_eq!(m, "Failed to encode image to PNG: disk full"),
        other => panic!("unexpected {:?}", other),
    }
}

#[test]
fn empty_image_is_an_image_error() {
    let r = encode_image(RawImage { width: 0, height: 0, bytes: vec![] });
    assert!(matches!(r, Err(AppError::Image(_))));
    let r = encode_image(RawImage { width: 3, height: 0, bytes: vec![] });
    assert!(matches!(r, Err(AppError::Image(_))));
}

#[test]
fn base64_uses_the_standard_alphabet_and_padding() {
    match content_from_png(Ok(vec![0xfbu8, 0xff])) {
        Ok(ClipboardContent::Image { base64_png }) => assert_eq!(base64_png, "+/8="),
        other => panic!("unexpected {:?}", other),
    }
    match content_from_png(Ok(vec![b'M', b'a', b'n', b'M'])) {
        Ok(ClipboardContent::Image { base64_png }) => assert_eq!(base64_png, "TWFuTQ=="),
        other => panic!("unexpected {:?}", other),
    }
    match content_from_png(Ok(vec![])) {
        Ok(ClipboardContent::Image { base64_png }) => assert_eq!(base64_png, ""),
        other => panic!("unexpected {:?}", other),
    }
}
