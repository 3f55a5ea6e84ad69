use paper_plane::qr::{login_qr_code, luma_to_rgb, QrCodeError};

#[test]
fn luma_becomes_rgb() {
    assert_eq!(luma_to_rgb(&vec![0, 255]), vec![0, 0, 0, 255, 255, 255]);
    assert_eq!(luma_to_rgb(&vec![]), Vec::<u8>::new());
}

#[test]
fn login_qr_code_has_three_bytes_per_pixel() {
    let size = 100;
    let rgb = login_qr_code("tg://login?token=abc", size).unwrap();
    assert_eq!(rgb.len(), 3 * size * size);
    assert!(rgb.iter().all(|&b| b == 0 || b == 255));
    assert!(rgb.iter().any(|&b| b == 0));
    for pixel in rgb.chunks(3) {
        assert!(pixel[0] == pixel[1] && pixel[1] == pixel[2]);
    }
    let luma = qrcode_generator::to_image_from_str(
        "tg://login?token=abc",
        qrcode_generator::QrCodeEcc::Low,
        size,
    )
    .unwrap();
    assert_eq!(rgb, luma.iter().flat_map(|&p| [p, p, p]).collect::<Vec<u8>>());
}

#[test]
fn login_qr_code_too_small() {
    assert_eq!(login_qr_code("tg://login?token=abc", 5), Err(QrCodeError::ImageSizeTooSmall));
}
