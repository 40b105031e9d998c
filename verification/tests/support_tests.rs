use fastshare::history::{history_path, status_for, TransferHistoryItem};
use fastshare::optimizer::adaptive_stream_controller::{
    AdaptiveStreamController, TransferParams, DEFAULT_CHUNK_SIZE, MAX_CHUNK_SIZE, MIN_CHUNK_SIZE,
};
use fastshare::optimizer::network_monitor::{NetworkCondition, ThroughputHistory, SAMPLE_WINDOW};
use fastshare::settings::TransferSettings;
use fastshare::storage::chunk_storage::{
    chunk_file_name, parse_chunk_file_name, sorted_chunk_indices, ChunkStorage,
};
use fastshare::storage::paths::{is_json_file_name, join_path};
use fastshare::storage::streaming::{ReadCursor, WriteProgress};
use fastshare::text::{
    contains_str, decimal_i64, decimal_u64, decimal_zero_padded, last_segment, lower_hex,
    parse_u64,
};
use fastshare::transfer::resume::{resume_state_dir, ResumeError, ResumeManager, TransferState};

#[test]
fn settings_toggles() {
    let mut s = TransferSettings::new();
    assert!(!s.is_checksum_enabled());
    assert!(!s.is_compression_enabled());
    s.set_compression_enabled(true);
    s.set_checksum_enabled(true);
    assert!(s.is_compression_enabled());
    assert!(s.is_checksum_enabled());
    s.set_checksum_enabled(false);
    assert!(!s.is_checksum_enabled());
}

#[test]
fn default_params() {
    let p = TransferParams::default();
    assert_eq!(p.stream_count, 8);
    assert_eq!(p.chunk_size, DEFAULT_CHUNK_SIZE);
    assert!(p.compression_enabled);
    assert_eq!(p.compression_algo, "lz4");
}

#[test]
fn controller_rules() {
    let mut c = AdaptiveStreamController::new();
    assert!(!c.evaluate_and_adjust(NetworkCondition::Good, false, false));
    let p = c.get_params();
    assert_eq!((p.stream_count, p.chunk_size), (8, 16 * 1024 * 1024));
    assert_eq!(p.compression_algo, "lz4");
    assert!(c.evaluate_and_adjust(NetworkCondition::Excellent, false, false));
    let p = c.get_params();
    assert_eq!((p.stream_count, p.chunk_size), (10, MAX_CHUNK_SIZE));
    for _ in 0..20 {
        c.evaluate_and_adjust(NetworkCondition::Excellent, false, false);
    }
    assert_eq!(c.get_params().stream_count, 32);
    c.evaluate_and_adjust(NetworkCondition::Poor, false, false);
    let p = c.get_params();
    assert_eq!((p.stream_count, p.chunk_size), (30, 4 * 1024 * 1024));
    assert_eq!(p.compression_algo, "zstd");
    c.evaluate_and_adjust(NetworkCondition::Good, true, true);
    // 30 + 1 = 31, halved for the CPU: 15
    assert_eq!(c.get_params().stream_count, 15);
    assert_eq!(c.get_params().compression_algo, "zstd");
    c.evaluate_and_adjust(NetworkCondition::Critical, false, false);
    let p = c.get_params();
    assert_eq!((p.stream_count, p.chunk_size), (2, MIN_CHUNK_SIZE));
    c.evaluate_and_adjust(NetworkCondition::Poor, false, true);
    assert_eq!(c.get_params().stream_count, 2);
    c.evaluate_and_adjust(NetworkCondition::Fair, false, false);
    let p = c.get_params();
    assert_eq!((p.stream_count, p.chunk_size), (8, DEFAULT_CHUNK_SIZE));
    assert!(p.compression_enabled);
}

#[test]
fn throughput_window() {
    let mut h = ThroughputHistory::new();
    assert_eq!(h.average(), 0);
    assert_eq!(h.trend_sums(), (0, 0));
    for v in 1..=3u64 {
        h.record(v * 10);
    }
    assert_eq!(h.average(), 20);
    assert_eq!(h.trend_sums(), (60, 60));
    for v in 4..=(SAMPLE_WINDOW as u64 + 5) {
        h.record(v * 10);
    }
    assert_eq!(h.len(), SAMPLE_WINDOW);
    // samples 60..650 remain: 6..=65 times ten
    assert_eq!(h.average(), 355);
    assert_eq!(h.trend_sums(), (10 * (61 + 62 + 63 + 64 + 65), 10 * (6 + 7 + 8 + 9 + 10)));
    let mut big = ThroughputHistory::new();
    big.record(u64::MAX);
    big.record(u64::MAX);
    assert_eq!(big.average(), u64::MAX);
}

#[test]
fn paths_join_like_pathbuf() {
    assert_eq!(join_path("/tmp", "x"), "/tmp/x");
    assert_eq!(join_path("/tmp/", "x"), "/tmp/x");
    assert_eq!(join_path("", "x"), "x");
    assert_eq!(join_path("/tmp", "/abs"), "/abs");
    for (base, comp) in [("/tmp", "x"), ("/tmp/", "x"), ("rel", "y"), ("/a", "/b")] {
        let ours = join_path(base, comp);
        let std_path = std::path::PathBuf::from(base).join(comp);
        assert_eq!(ours, std_path.to_string_lossy());
    }
    assert!(is_json_file_name("state.json"));
    assert!(is_json_file_name("a.b.json"));
    assert!(!is_json_file_name(".json"));
    assert!(!is_json_file_name("json"));
    assert!(!is_json_file_name("state.jso"));
    assert!(!is_json_file_name("state.JSON"));
}

#[test]
fn chunk_files() {
    assert_eq!(chunk_file_name(7), "chunk_000007");
    assert_eq!(chunk_file_name(1234567), "chunk_1234567");
    assert_eq!(parse_chunk_file_name("chunk_000007"), Some(7));
    assert_eq!(parse_chunk_file_name("chunk_+42"), Some(42));
    assert_eq!(parse_chunk_file_name("chunk_"), None);
    assert_eq!(parse_chunk_file_name("chunk_12a"), None);
    assert_eq!(parse_chunk_file_name("chunk_99999999999999999999"), None);
    assert_eq!(parse_chunk_file_name("other_1"), None);
    for i in [0u64, 5, 999_999, 1_000_000, u64::MAX] {
        assert_eq!(parse_chunk_file_name(&chunk_file_name(i)), Some(i));
    }
    let names: Vec<String> = ["chunk_000010", "junk", "chunk_000002", "chunk_000007", "chunk_000002"]
        .iter()
        .map(|s| s.to_string())
        .collect();
    assert_eq!(sorted_chunk_indices(&names), vec![2, 2, 7, 10]);
    let s = ChunkStorage::with_path("/data/chunks".to_string());
    assert_eq!(s.file_dir("abc"), "/data/chunks/abc");
    assert_eq!(s.chunk_path("abc", 3), "/data/chunks/abc/chunk_000003");
    let t = ChunkStorage::new("/tmp");
    assert_eq!(t.base_dir(), "/tmp/fastshare/chunks");
}

#[test]
fn resume_paths() {
    assert_eq!(resume_state_dir(Some("/home/u/.local/share"), Some("/home/u")).unwrap(), "/home/u/.local/share/.fastshare/resume");
    assert_eq!(resume_state_dir(None, Some("/home/u")).unwrap(), "/home/u/.fastshare/resume");
    assert_eq!(resume_state_dir(None, None), Err(ResumeError::NoHomeDirectory));
    let m = ResumeManager::new("/s".to_string());
    assert_eq!(m.state_dir(), "/s");
    assert_eq!(m.state_path("f1"), "/s/f1.json");
    let mut done = TransferState::new("a".to_string(), "a".to_string(), 10, 10, 1, "r".to_string());
    done.mark_chunk_received(0);
    let open = TransferState::new("b".to_string(), "b".to_string(), 10, 10, 1, "r".to_string());
    let open2 = TransferState::new("c".to_string(), "c".to_string(), 20, 10, 2, "r".to_string());
    let left: Vec<String> = ResumeManager::incomplete(vec![open, done, open2]).into_iter().map(|s| s.file_id).collect();
    assert_eq!(left, vec!["b".to_string(), "c".to_string()]);
}

#[test]
fn streaming_cursors() {
    let mut c = ReadCursor::new(100);
    assert!(!c.is_eof());
    assert_eq!(c.remaining(), 100);
    c.advance(60);
    assert_eq!(c.remaining(), 40);
    c.read_at(90, 10);
    assert!(c.is_eof());
    c.read_at(150, 0);
    assert_eq!(c.remaining(), 0);
    let mut w = WriteProgress::new(10);
    w.record(4);
    w.record(4);
    assert_eq!(w.bytes_written, 8);
    assert_eq!(w.total_size, 10);
}

#[test]
fn text_helpers() {
    assert_eq!(decimal_u64(0), "0");
    assert_eq!(decimal_u64(u64::MAX), u64::MAX.to_string());
    assert_eq!(decimal_i64(i64::MIN), i64::MIN.to_string());
    assert_eq!(decimal_i64(-7), "-7");
    assert_eq!(decimal_zero_padded(42, 6), "000042");
    assert_eq!(decimal_zero_padded(1234567, 6), "1234567");
    assert!(contains_str("hello world", "o w"));
    assert!(!contains_str("hello", "hello!"));
    assert_eq!(last_segment("a.tar.gz"), "gz");
    assert_eq!(last_segment("noext"), "noext");
    assert_eq!(lower_hex(&[0x00, 0xab, 0x7f]), "00ab7f");
    assert_eq!(parse_u64("+15"), Some(15));
    assert_eq!(parse_u64("18446744073709551615"), Some(u64::MAX));
    assert_eq!(parse_u64("18446744073709551616"), None);
    assert_eq!(parse_u64("-1"), None);
    assert_eq!(parse_u64(""), None);
    assert_eq!(parse_u64("+"), None);
    for s in ["0", "007", "+9", "12x", " 1", "99999999999999999999"] {
        assert_eq!(parse_u64(s), s.parse::<u64>().ok());
    }
}

#[test]
fn history_records() {
    assert_eq!(status_for(None), "Success");
    assert_eq!(status_for(Some("disk full")), "Failed: disk full");
    let s = TransferHistoryItem::sent("/x/a.bin", 0, Some("boom"), "2024-01-01 10:00:00".to_string());
    assert_eq!(s.status, "Failed: boom");
    assert_eq!(s.size, 0);
    assert!(!s.is_incoming);
    assert_eq!(s.saved_path.as_deref(), Some("/x/a.bin"));
    let ok = TransferHistoryItem::sent("/x/b.bin", 42, None, "t".to_string());
    assert_eq!(ok.size, 42);
    assert_eq!(ok.status, "Success");
    let r = TransferHistoryItem::received("a.bin", 9, None, "t".to_string());
    assert_eq!(r.status, "Success");
    assert!(r.is_incoming);
    let d = TransferHistoryItem::declined_now("b.bin", 3);
    assert_eq!(d.status, "Declined");
    assert_eq!(d.timestamp.len(), 19);
    assert_eq!(history_path("/dl"), "/dl/history.json");
}
