use fastshare::network::addr::{EndpointAddr, IpAddress};
use fastshare::network::broadcast::BroadcastEngine;
use fastshare::network::discovery::{
    detect_device_type, detect_max_bandwidth, is_own_announcement, is_stale, local_device_info,
    observe_announcement, BROADCAST_PORT,
};
use fastshare::network::handshake::{negotiate, our_capabilities, Capabilities};
use fastshare::network::protocol::{
    chunk_meta_len, classify_stream, frame_chunk_header, frame_file_plan, frame_length_prefixed,
    handshake_payload_len, is_ack, is_compressed_flag, u32_from_be, u32_to_be, FrameError,
    StreamKind, MAX_CHUNK_META_LEN,
};
use fastshare::network::session::{
    after_attempt, timeout_message, ConnectAction, ConnectOutcome, PendingDecisions,
    PendingPrompt, PlanStep, PromptReply, SessionDecision,
};

#[test]
fn big_endian_roundtrip() {
    assert_eq!(u32_to_be(0x0102_0304), vec![1, 2, 3, 4]);
    assert_eq!(u32_from_be([1, 2, 3, 4]), 0x0102_0304);
    for n in [0u32, 1, 255, 65536, u32::MAX] {
        let b = u32_to_be(n);
        assert_eq!(u32_from_be([b[0], b[1], b[2], b[3]]), n);
    }
}

#[test]
fn frames_have_type_length_and_payload() {
    assert_eq!(frame_length_prefixed(b"abc"), vec![0, 0, 0, 3, b'a', b'b', b'c']);
    assert_eq!(frame_file_plan(b"{}"), vec![0x01, 0, 0, 0, 2, b'{', b'}']);
    assert_eq!(frame_chunk_header(b"m", true), vec![0x02, 0, 0, 0, 1, b'm', 1]);
    assert_eq!(frame_chunk_header(b"m", false), vec![0x02, 0, 0, 0, 1, b'm', 0]);
}

#[test]
fn length_prefix_limits() {
    assert_eq!(handshake_payload_len([0, 1, 0, 0]), Ok(65536));
    assert_eq!(
        handshake_payload_len([0, 1, 0, 1]),
        Err(FrameError::TooLarge { len: 65537, max: 65536 })
    );
    assert_eq!(chunk_meta_len([0, 0x10, 0, 0]), Ok(MAX_CHUNK_META_LEN));
    assert_eq!(
        chunk_meta_len([0, 0x10, 0, 1]),
        Err(FrameError::TooLarge { len: MAX_CHUNK_META_LEN + 1, max: MAX_CHUNK_META_LEN })
    );
}

#[test]
fn stream_bytes() {
    assert_eq!(classify_stream(1), StreamKind::FilePlan);
    assert_eq!(classify_stream(2), StreamKind::ChunkData);
    assert_eq!(classify_stream(9), StreamKind::Unknown(9));
    assert!(is_ack(0x06));
    assert!(!is_ack(0x15));
    assert!(is_compressed_flag(1));
    assert!(is_compressed_flag(7));
    assert!(!is_compressed_flag(0));
}

fn caps(streams: u32, chunk: u64, lz4: bool, zstd: bool, dist: bool, resume: bool) -> Capabilities {
    Capabilities {
        protocol_version: 1,
        max_streams: streams,
        compression_lz4: lz4,
        compression_zstd: zstd,
        max_chunk_size: chunk,
        max_bandwidth_mbps: 1000,
        distributed_transfer: dist,
        transfer_resume: resume,
        device_id: String::new(),
    }
}

#[test]
fn negotiation_takes_common_ground() {
    let ours = our_capabilities();
    assert_eq!(ours.max_streams, 32);
    assert_eq!(ours.max_chunk_size, 33554432);
    let theirs = caps(8, 1 << 20, true, false, false, true);
    let p = negotiate(&ours, &theirs);
    assert_eq!(p.streams, 8);
    assert_eq!(p.chunk_size, 1 << 20);
    assert_eq!(p.compression.as_deref(), Some("lz4"));
    assert!(!p.distributed);
    assert!(p.resumable);
    let q = negotiate(&theirs, &ours);
    assert_eq!((q.streams, q.chunk_size, q.compression.clone(), q.distributed, q.resumable),
        (p.streams, p.chunk_size, p.compression.clone(), p.distributed, p.resumable));
    let both_zstd = negotiate(&ours, &ours);
    assert_eq!(both_zstd.compression.as_deref(), Some("zstd"));
    let none = negotiate(&caps(4, 10, false, false, true, true), &ours);
    assert_eq!(none.compression, None);
}

#[test]
fn device_records() {
    assert_eq!(detect_device_type("linux"), "desktop");
    assert_eq!(detect_device_type("android"), "phone");
    assert_eq!(detect_device_type("ios"), "phone");
    assert_eq!(detect_device_type("macos"), "laptop");
    assert_eq!(detect_device_type("freebsd"), "unknown");
    assert_eq!(detect_max_bandwidth(), "1Gb");
    let d = local_device_info(
        "id".to_string(),
        "box".to_string(),
        IpAddress::V4(0xc0a8_0001),
        5000,
        "windows",
    );
    assert_eq!(d.device_type, "desktop");
    assert_eq!(d.supported_features.len(), 5);
    assert_eq!(d.supported_features[3], "distributed_transfer");
    assert_eq!(d.protocol_version, 1);
    assert!(d.last_seen.is_none());
    assert!(is_own_announcement(&d, &d));
    assert!(!is_stale(&d, u64::MAX));
}

#[test]
fn observed_loopback_announcement_takes_source_address() {
    let d = local_device_info("x".to_string(), "n".to_string(), IpAddress::V4(0x7f00_0001), 1, "linux");
    let now: u64 = 5_000_000_000;
    let seen = observe_announcement(d, IpAddress::V4(0x0a00_0005), now);
    assert_eq!(seen.ip_address, IpAddress::V4(0x0a00_0005));
    assert_eq!(seen.last_seen, Some(now));
    assert!(!is_stale(&seen, now));
    assert!(!is_stale(&seen, now + 10_000_000_000));
    assert!(is_stale(&seen, now + 10_000_000_001));
    assert!(!is_stale(&seen, 0));
    let e = local_device_info("y".to_string(), "n".to_string(), IpAddress::V4(0x0a00_0009), 1, "linux");
    let kept = observe_announcement(e, IpAddress::V4(0x0a00_0005), now);
    assert_eq!(kept.ip_address, IpAddress::V4(0x0a00_0009));
    assert!(IpAddress::V6(1).is_loopback());
    assert!(!IpAddress::V6(2).is_loopback());
}

#[test]
fn broadcast_addresses() {
    let b = BroadcastEngine::new(BROADCAST_PORT);
    assert_eq!(b.port(), 5001);
    assert_eq!(b.broadcast_addr(), EndpointAddr { ip: IpAddress::V4(0xffff_ffff), port: 5001 });
    assert_eq!(b.listen_addr(), EndpointAddr { ip: IpAddress::V4(0), port: 5001 });
}

#[test]
fn session_decision_steps() {
    let mut d = SessionDecision::new();
    assert_eq!(d.next_step(true), PlanStep::WaitForPrompt);
    assert_eq!(d.next_step(false), PlanStep::AskUser);
    assert!(!d.accepted());
    d.record(PromptReply::TimedOut);
    assert_eq!(d.next_step(true), PlanStep::Proceed { accepted: false });
    d.record(PromptReply::Answered(true));
    assert!(d.accepted());
    d.record(PromptReply::Dropped);
    assert!(!d.accepted());
    d.record(PromptReply::Answered(false));
    assert!(!d.accepted());
}

#[test]
fn connect_retries() {
    assert_eq!(after_attempt(1, ConnectOutcome::Connected), ConnectAction::Send);
    assert_eq!(after_attempt(1, ConnectOutcome::Failed), ConnectAction::RetryAfterDelay);
    assert_eq!(after_attempt(2, ConnectOutcome::TimedOut), ConnectAction::RetryAfterDelay);
    assert_eq!(after_attempt(3, ConnectOutcome::TimedOut), ConnectAction::GiveUp);
    assert_eq!(after_attempt(3, ConnectOutcome::Connected), ConnectAction::Send);
    assert_eq!(timeout_message(), "Connection timeout after 15s");
}

fn prompt(id: &str) -> PendingPrompt {
    PendingPrompt {
        file_id: id.to_string(),
        from_addr: EndpointAddr { ip: IpAddress::V4(1), port: 2 },
        file_name: "f".to_string(),
        total_files: 1,
    }
}

#[test]
fn pending_decisions_answer_once() {
    let mut p: PendingDecisions<u32> = PendingDecisions::new();
    assert!(!p.is_showing());
    p.ask(prompt("a"), 1);
    assert!(p.is_showing());
    assert_eq!(p.prompt().unwrap().file_id, "a");
    p.ask(
        PendingPrompt {
            file_id: "b".to_string(),
            from_addr: EndpointAddr { ip: IpAddress::V4(7), port: 9 },
            file_name: "holiday.mp4".to_string(),
            total_files: 3,
        },
        2,
    );
    let shown = p.prompt().unwrap();
    assert_eq!(shown.file_id, "b");
    assert_eq!(shown.file_name, "holiday.mp4");
    assert_eq!(shown.total_files, 3);
    assert_eq!(shown.from_addr, EndpointAddr { ip: IpAddress::V4(7), port: 9 });
    p.ask(prompt("a"), 3);
    assert_eq!(p.prompt().unwrap().file_id, "a");
    assert_eq!(p.respond_incoming("a"), Some(3));
    assert!(!p.is_showing());
    assert_eq!(p.respond_incoming("a"), None);
    assert_eq!(p.respond_incoming("zzz"), None);
    p.finish("b");
    assert_eq!(p.respond_incoming("b"), None);
}
