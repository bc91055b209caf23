use mcp_bridge::screenshot::{capture_options, capture_outcome, data_url_of, encode_capture, Screenshot, ScreenshotError};

#[test]
fn base64_data_url() {
    assert_eq!(data_url_of(&b"Man".to_vec(), "image/png"), "data:image/png;base64,TWFu");
    assert_eq!(data_url_of(&b"Ma".to_vec(), "image/png"), "data:image/png;base64,TWE=");
    assert_eq!(data_url_of(&b"M".to_vec(), "image/png"), "data:image/png;base64,TQ==");
    assert_eq!(data_url_of(&vec![], "image/png"), "data:image/png;base64,");
    assert_eq!(data_url_of(&vec![0xfb, 0xff], "image/png"), "data:image/png;base64,+/8=");
}

#[test]
fn jpeg_request_on_undecodable_png_falls_back_to_png() {
    let url = encode_capture(Screenshot { data: vec![1, 2, 3] }, "jpeg", 80);
    assert_eq!(url, "data:image/png;base64,AQID");
}

fn tiny_png() -> Vec<u8> {
    let mut out = std::io::Cursor::new(Vec::new());
    let img = image::RgbImage::from_pixel(2, 2, image::Rgb([200, 10, 10]));
    img.write_to(&mut out, image::ImageFormat::Png).unwrap();
    out.into_inner()
}

#[test]
fn jpeg_request_converts() {
    let url = encode_capture(Screenshot { data: tiny_png() }, "jpeg", 80);
    assert!(url.starts_with("data:image/jpeg;base64,/9j/"));
    let url = encode_capture(Screenshot { data: tiny_png() }, "png", 80);
    assert!(url.starts_with("data:image/png;base64,iVBORw0KGgo"));
}

#[test]
fn defaults_and_errors() {
    let (f, q) = capture_options(None, None);
    assert_eq!(f, "png");
    assert_eq!(q, 90);
    let (f, q) = capture_options(Some("jpeg".to_string()), Some(10));
    assert_eq!((f.as_str(), q), ("jpeg", 10));
    assert_eq!(capture_outcome(Err(ScreenshotError::PlatformUnsupported), "png", 90).err().unwrap(), "Platform not supported");
    assert_eq!(capture_outcome(Err(ScreenshotError::Timeout), "png", 90).err().unwrap(), "Timeout exceeded");
    assert_eq!(
        capture_outcome(Err(ScreenshotError::CaptureFailed("x".to_string())), "png", 90).err().unwrap(),
        "Webview capture failed: x"
    );
    assert_eq!(
        capture_outcome(Err(ScreenshotError::EncodeFailed("y".to_string())), "png", 90).err().unwrap(),
        "Encoding failed: y"
    );
    assert!(ScreenshotError::PlatformUnsupported.is_unsupported());
    assert!(!ScreenshotError::Timeout.is_unsupported());
}
