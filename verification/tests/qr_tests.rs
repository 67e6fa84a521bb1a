use wifi_qr::descriptor::{Credentials, SecurityTypes};
use wifi_qr::error::QrError;
use wifi_qr::qr::{generate_qr_text, ECCLevel};

fn sample_credentials() -> Credentials {
    Credentials {
        ssid: String::from("Martin Router King"),
        psw: Some(String::from("password")),
        sec: Some(SecurityTypes::Wpa2),
        hidden: false,
    }
}

#[test]
fn generated_text_is_a_square_block_grid() {
    let rendered = generate_qr_text(&sample_credentials(), ECCLevel::Low).unwrap();
    let lines: Vec<&str> = rendered.lines().collect();
    // A Model 2 QR symbol is at least 21 modules per side and square.
    assert!(lines.len() >= 21);
    for line in &lines {
        assert_eq!(line.chars().count(), 2 * lines.len());
        assert!(line.chars().all(|c| c == '█' || c == ' '));
    }
    assert!(rendered.ends_with('\n'));
}

#[test]
fn generation_is_deterministic() {
    let first = generate_qr_text(&sample_credentials(), ECCLevel::Quartile).unwrap();
    let second = generate_qr_text(&sample_credentials(), ECCLevel::Quartile).unwrap();
    assert_eq!(first, second);
}

#[test]
fn higher_redundancy_needs_a_larger_symbol() {
    let low = generate_qr_text(&sample_credentials(), ECCLevel::Low).unwrap();
    let high = generate_qr_text(&sample_credentials(), ECCLevel::High).unwrap();
    assert!(high.lines().count() >= low.lines().count());
}

#[test]
fn invalid_combination_fails_before_encoding() {
    let creds = Credentials {
        ssid: String::from("X"),
        psw: None,
        sec: Some(SecurityTypes::Wpa2),
        hidden: false,
    };
    assert!(matches!(
        generate_qr_text(&creds, ECCLevel::Low),
        Err(QrError::MissingPassword(SecurityTypes::Wpa2))
    ));
}

#[test]
fn oversized_descriptor_reports_an_encoding_failure() {
    let creds = Credentials {
        ssid: "s".repeat(8000),
        psw: None,
        sec: None,
        hidden: false,
    };
    assert!(matches!(
        generate_qr_text(&creds, ECCLevel::Low),
        Err(QrError::Encoding(_))
    ));
}
