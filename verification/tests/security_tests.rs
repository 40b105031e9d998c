use fastshare::external::digest::checksum_hex;
use fastshare::qr::generate::{generate_qr_bytes, generate_terminal_qr, QrGenerateError};
use fastshare::qr::scan::{check_not_expired, is_expired, validate_qr_data, QrError};
use fastshare::security::auth::{guess_file_type, AuthManager, TransferResponse};
use fastshare::security::pairing::{PairingError, PairingManager, QrPairingData};

#[test]
fn file_types() {
    assert_eq!(guess_file_type("photo.JPG"), "image");
    assert_eq!(guess_file_type("movie.mkv"), "video");
    assert_eq!(guess_file_type("a.b.flac"), "audio");
    assert_eq!(guess_file_type("report.pdf"), "document");
    assert_eq!(guess_file_type("archive.tar.gz"), "archive");
    assert_eq!(guess_file_type("setup.exe"), "application");
    assert_eq!(guess_file_type("README"), "file");
    assert_eq!(guess_file_type("pdf"), "file");
    assert_eq!(guess_file_type("clip.webm"), "video");
    assert_eq!(guess_file_type("weird.xyz"), "file");
}

#[test]
fn trust_and_auto_accept() {
    let mut a = AuthManager::new();
    assert!(!a.is_trusted("d1"));
    a.trust_device("d1".to_string(), "Laptop".to_string());
    assert!(a.is_trusted("d1"));
    assert!(!a.should_auto_accept("d1"));
    a.set_auto_accept(true);
    assert!(a.should_auto_accept("d1"));
    assert!(!a.should_auto_accept("d2"));
    a.trust_device("d1".to_string(), "Renamed".to_string());
    a.trust_device("d2".to_string(), "Phone".to_string());
    let list = a.trusted_devices();
    assert_eq!(list.len(), 2);
    assert!(list.contains(&("d1".to_string(), "Renamed".to_string())));
    a.untrust_device("d1");
    assert!(!a.is_trusted("d1"));
    assert!(a.is_trusted("d2"));
    a.untrust_device("missing");
    assert_eq!(a.trusted_devices().len(), 1);
}

#[test]
fn transfer_request_record() {
    let r = AuthManager::create_request("Alice", "dev-a", "song.mp3", 42);
    assert_eq!(r.sender_name, "Alice");
    assert_eq!(r.file_type, "audio");
    assert_eq!(r.file_size, 42);
    assert!(!r.is_trusted);
    assert_eq!(r.request_id.len(), 36);
    assert_ne!(TransferResponse::Accept, TransferResponse::Reject);
}

#[test]
fn pairing_codes_confirm() {
    let mut m = PairingManager::new("ours".to_string());
    let s = m.generate_pairing_code("theirs");
    assert_eq!(s.pairing_code.len(), 6);
    assert!(s.pairing_code.chars().all(|c| c.is_ascii_digit()));
    assert!(!s.confirmed);
    assert_eq!(m.sessions().len(), 1);
    assert_eq!(m.confirm_pairing(&s.session_id, "not-it"), Ok(false));
    assert!(!m.sessions()[0].confirmed);
    assert_eq!(m.confirm_pairing(&s.session_id, &s.pairing_code), Ok(true));
    let confirmed = &m.sessions()[0];
    assert!(confirmed.confirmed);
    let expected = checksum_hex(format!("ours{}{}", "theirs", s.pairing_code).as_bytes());
    assert_eq!(confirmed.shared_secret.as_deref(), Some(expected.as_str()));
    assert_eq!(m.confirm_pairing("nope", "123456"), Err(PairingError::SessionNotFound));
}

fn instant_of(text: &str) -> (i64, u32) {
    let d = chrono::DateTime::parse_from_rfc3339(text).unwrap();
    (d.timestamp(), d.timestamp_subsec_nanos())
}

#[test]
fn sessions_last_five_minutes() {
    let mut m = PairingManager::new("ours".to_string());
    let s = m.generate_pairing_code("a");
    let (secs, nanos) = instant_of(&s.created_at);
    m.retain_fresh_at((secs + 299, nanos));
    assert_eq!(m.sessions().len(), 1);
    m.retain_fresh_at((secs + 300, nanos));
    assert_eq!(m.sessions().len(), 0);
    let mut m = PairingManager::new("ours".to_string());
    m.generate_pairing_code("b");
    m.retain_fresh_at((secs + 600, nanos));
    assert!(m.sessions().is_empty());
}

#[test]
fn fresh_sessions_survive_cleanup() {
    let mut m = PairingManager::new("ours".to_string());
    m.generate_pairing_code("a");
    m.generate_pairing_code("b");
    m.cleanup_expired();
    assert_eq!(m.sessions().len(), 2);
}

fn qr(expires_at: &str) -> QrPairingData {
    QrPairingData {
        device_id: "dev".to_string(),
        device_name: "name".to_string(),
        ip_address: "10.0.0.2".to_string(),
        port: 5000,
        pairing_token: "tok".to_string(),
        expires_at: expires_at.to_string(),
    }
}

#[test]
fn qr_payload_freshness() {
    let m = PairingManager::new("me".to_string());
    let fresh = m.generate_qr_data("Box", "10.0.0.1", 5000);
    assert_eq!(fresh.device_id, "me");
    assert_eq!(fresh.port, 5000);
    assert_eq!(validate_qr_data(&fresh), Ok(true));
    assert!(check_not_expired(fresh).is_ok());
    let old = qr("2001-01-01T00:00:00+00:00");
    assert_eq!(validate_qr_data(&old), Ok(false));
    assert_eq!(check_not_expired(old).err(), Some(QrError::Expired));
    let unparsable = qr("whenever");
    assert_eq!(validate_qr_data(&unparsable), Ok(true));
    let mut no_port = qr("2999-01-01T00:00:00+00:00");
    no_port.port = 0;
    assert_eq!(validate_qr_data(&no_port), Ok(false));
}

#[test]
fn qr_generation() {
    let text = generate_terminal_qr(b"{\"device_id\":\"x\"}").unwrap();
    assert!(!text.is_empty());
    assert_ne!(text, "{\"device_id\":\"x\"}");
    let png = generate_qr_bytes(b"{\"device_id\":\"x\"}").unwrap();
    assert_eq!(&png[..8], &[0x89, b'P', b'N', b'G', 0x0d, 0x0a, 0x1a, 0x0a]);
    let huge = vec![b'x'; 10_000];
    assert_eq!(generate_terminal_qr(&huge), Err(QrGenerateError::TooLong));
    assert_eq!(generate_qr_bytes(&huge), Err(QrGenerateError::TooLong));
}

#[test]
fn expiry_compares_with_the_given_time() {
    let t = "2024-01-01T00:00:00Z";
    assert!(!is_expired(t, (1_704_067_200, 0)));
    assert!(is_expired(t, (1_704_067_200, 1)));
    assert!(is_expired(t, (1_704_067_201, 0)));
    assert!(!is_expired(t, (1_704_067_199, 999)));
    assert!(!is_expired("not a time", (i64::MAX, 0)));
}
