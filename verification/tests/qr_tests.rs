use mumu_remote::qr::offer_qr_picture;
use mumu_remote::qr::{qr_picture, QrPicture};

#[test]
fn blank_offer_shows_nothing() {
    assert_eq!(qr_picture("", true), QrPicture::Blank);
    assert_eq!(qr_picture("  ", true), QrPicture::Blank);
}

#[test]
fn offer_becomes_square_picture() {
    match qr_picture("{\"ip\":\"192.168.0.10\",\"port\":5000}", false) {
        QrPicture::Image { width, height, dark } => {
            assert_eq!(width, height);
            assert!(width > 0);
            assert_eq!(dark.len(), (width * height) as usize);
            assert!(dark.iter().any(|d| *d));
            assert!(dark.iter().any(|d| !*d));
            assert!(!dark[0]);
        }
        other => panic!("unexpected {other:?}"),
    }
}

#[test]
fn oversized_offer_fails() {
    let huge = "x".repeat(10_000);
    assert!(matches!(qr_picture(&huge, false), QrPicture::Failed(_)));
}

#[test]
fn whitespace_offer_is_blank() {
    assert_eq!(offer_qr_picture(""), QrPicture::Blank);
    assert_eq!(offer_qr_picture(" \t\n\u{3000}"), QrPicture::Blank);
    assert!(matches!(offer_qr_picture(" {} "), QrPicture::Image { .. }));
}
