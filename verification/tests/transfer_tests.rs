use std::collections::HashSet;

use fastshare::compression::lz4;
use fastshare::external::digest::checksum_hex;
use fastshare::transfer::chunker::{
    classify_network_speed, ChunkMeta, FileChunker, FileHasher, NetworkSpeed, DEFAULT_CHUNK_SIZE,
    FAST_CHUNK_SIZE, SLOW_CHUNK_SIZE, ULTRA_FAST_CHUNK_SIZE,
};
use fastshare::transfer::receiver::{
    decode_chunk_payload, received_bytes, reply_for, ChunkError, ReceptionProgress,
};
use fastshare::transfer::resume::TransferState;
use fastshare::transfer::scheduler::{ScheduleStrategy, StreamScheduler};
use fastshare::transfer::sender::{
    chunk_payload, chunks_to_send, CompressionAlgo, TransferSender, DEFAULT_PARALLEL_STREAMS,
    MAX_PARALLEL_STREAMS,
};

fn plan(total: u64, chunk: u64) -> fastshare::transfer::chunker::FileChunkPlan {
    FileChunker::new(chunk).plan_with_id(
        "id-1".to_string(),
        "file.bin".to_string(),
        total,
        1,
        1,
        total,
        0,
    )
}

#[test]
fn chunker_sizes_follow_network_speed() {
    assert_eq!(FileChunker::adaptive(NetworkSpeed::Slow).chunk_size(), SLOW_CHUNK_SIZE);
    assert_eq!(FileChunker::adaptive(NetworkSpeed::Normal).chunk_size(), DEFAULT_CHUNK_SIZE);
    assert_eq!(FileChunker::adaptive(NetworkSpeed::Fast).chunk_size(), FAST_CHUNK_SIZE);
    assert_eq!(FileChunker::adaptive(NetworkSpeed::UltraFast).chunk_size(), ULTRA_FAST_CHUNK_SIZE);
    assert_eq!(SLOW_CHUNK_SIZE, 524288);
    assert_eq!(ULTRA_FAST_CHUNK_SIZE, 4194304);
}

#[test]
fn classify_speed_boundaries() {
    assert_eq!(classify_network_speed(0), NetworkSpeed::Slow);
    assert_eq!(classify_network_speed(99), NetworkSpeed::Slow);
    assert_eq!(classify_network_speed(100), NetworkSpeed::Normal);
    assert_eq!(classify_network_speed(999), NetworkSpeed::Normal);
    assert_eq!(classify_network_speed(1000), NetworkSpeed::Fast);
    assert_eq!(classify_network_speed(4999), NetworkSpeed::Fast);
    assert_eq!(classify_network_speed(5000), NetworkSpeed::Fast);
    assert_eq!(classify_network_speed(5001), NetworkSpeed::UltraFast);
}

#[test]
fn plan_chunks_tile_the_file() {
    let p = plan(10, 4);
    assert_eq!(p.total_chunks, 3);
    assert_eq!(p.chunks.len(), 3);
    let sizes: Vec<u64> = p.chunks.iter().map(|c| c.size).collect();
    let offsets: Vec<u64> = p.chunks.iter().map(|c| c.offset).collect();
    assert_eq!(sizes, vec![4, 4, 2]);
    assert_eq!(offsets, vec![0, 4, 8]);
    for (i, c) in p.chunks.iter().enumerate() {
        assert_eq!(c.chunk_index, i as u64);
        assert_eq!(c.total_chunks, 3);
        assert_eq!(c.file_id, "id-1");
        assert_eq!(c.checksum, "");
    }
}

#[test]
fn plan_exact_multiple_and_empty_file() {
    let p = plan(8, 4);
    assert_eq!(p.total_chunks, 2);
    assert_eq!(p.chunks[1].size, 4);
    let e = plan(0, 4);
    assert_eq!(e.total_chunks, 0);
    assert!(e.chunks.is_empty());
}

#[test]
fn plan_file_gets_uuid_id() {
    let p = FileChunker::new(1024).plan_file("a.txt".to_string(), 3000, 2, 1, 5000, 0);
    assert_eq!(p.file_id.len(), 36);
    assert_eq!(p.file_id.as_bytes()[8], b'-');
    assert_eq!(p.total_chunks, 3);
    assert_eq!(p.total_files, 2);
    assert_eq!(p.total_batch_size, 5000);
    let q = FileChunker::new(1024).plan_file("a.txt".to_string(), 3000, 2, 1, 5000, 0);
    assert_ne!(p.file_id, q.file_id);
}

fn chunks(n: u64) -> Vec<ChunkMeta> {
    plan(n * 10, 10).chunks
}

#[test]
fn scheduler_deals_round_robin() {
    let mut s = StreamScheduler::new(3, ScheduleStrategy::RoundRobin);
    s.add_chunks(chunks(7));
    assert_eq!(s.pending_count(), 7);
    let mut got = Vec::new();
    while let Some(a) = s.next_assignment() {
        got.push((a.stream_index, a.chunk.chunk_index));
    }
    assert_eq!(got, vec![(0, 0), (1, 1), (2, 2), (0, 3), (1, 4), (2, 5), (0, 6)]);
    assert_eq!(s.pending_count(), 0);
    assert!(s.next_assignment().is_none());
}

#[test]
fn scheduler_schedule_all_queues() {
    let s = StreamScheduler::new(3, ScheduleStrategy::Weighted);
    assert_eq!(s.num_streams(), 3);
    let q = s.schedule_all(chunks(7));
    let idx: Vec<Vec<u64>> = q.iter().map(|v| v.iter().map(|c| c.chunk_index).collect()).collect();
    assert_eq!(idx, vec![vec![0, 3, 6], vec![1, 4], vec![2, 5]]);
}

#[test]
fn resume_state_tracks_missing_chunks() {
    let mut st = TransferState::new(
        "f".to_string(),
        "name".to_string(),
        25,
        10,
        3,
        "remote".to_string(),
    );
    assert!(!st.is_complete());
    assert_eq!(st.missing_chunks(), vec![0, 1, 2]);
    st.mark_chunk_received(1);
    st.mark_chunk_received(1);
    assert_eq!(st.missing_chunks(), vec![0, 2]);
    assert_eq!(st.bytes_received(), 10);
    st.mark_chunk_received(2);
    // the full chunk 1, plus the 5-byte last chunk
    assert_eq!(st.bytes_received(), 15);
    st.mark_chunk_received(0);
    assert!(st.is_complete());
    assert!(st.missing_chunks().is_empty());
    assert_eq!(st.bytes_received(), 25);
}

#[test]
fn resume_bytes_are_the_sizes_of_received_chunks() {
    let mut s = TransferState::new("f".to_string(), "f".to_string(), 10, 4, 3, "r".to_string());
    assert_eq!(s.bytes_received(), 0);
    s.mark_chunk_received(0);
    assert_eq!(s.bytes_received(), 4);
    s.mark_chunk_received(2);
    assert_eq!(s.bytes_received(), 6);
    s.mark_chunk_received(1);
    assert_eq!(s.bytes_received(), 10);
}

#[test]
fn resume_completion_needs_every_chunk_index() {
    let mut s = TransferState::new("f".to_string(), "f".to_string(), 30, 10, 3, "r".to_string());
    s.mark_chunk_received(0);
    s.mark_chunk_received(1);
    s.mark_chunk_received(7);
    assert!(!s.is_complete());
    assert_eq!(s.missing_chunks(), vec![2]);
    s.mark_chunk_received(2);
    assert!(s.is_complete());
}

#[test]
fn resume_complete_iff_nothing_missing_example() {
    let mut st =
        TransferState::new("f".to_string(), "n".to_string(), 40, 10, 4, "r".to_string());
    for i in [3u64, 0, 2] {
        st.mark_chunk_received(i);
        assert_eq!(st.is_complete(), st.missing_chunks().is_empty());
    }
    st.mark_chunk_received(1);
    assert_eq!(st.is_complete(), st.missing_chunks().is_empty());
    assert!(st.is_complete());
}

#[test]
fn sender_settings() {
    let s = TransferSender::new();
    assert_eq!(s.parallel_streams(), DEFAULT_PARALLEL_STREAMS);
    assert_eq!(s.compression_algo(), CompressionAlgo::Lz4);
    let t = TransferSender::with_streams(100);
    assert_eq!(t.parallel_streams(), MAX_PARALLEL_STREAMS);
    let mut u = TransferSender::with_streams(4);
    assert_eq!(u.parallel_streams(), 4);
    u.set_compression(Some("zstd".to_string()));
    assert_eq!(u.compression_algo(), CompressionAlgo::Zstd);
    u.set_compression(Some("lz4".to_string()));
    assert_eq!(u.compression_algo(), CompressionAlgo::Lz4);
    u.set_compression(Some("gzip".to_string()));
    assert_eq!(u.compression_algo(), CompressionAlgo::Uncompressed);
    u.set_compression(None);
    assert_eq!(u.compression_algo(), CompressionAlgo::Uncompressed);
    assert_eq!(u.parallel_streams(), 4);
}

#[test]
fn chunks_to_send_skips_received() {
    let all = chunks(5);
    let mut received = HashSet::new();
    received.insert(1u64);
    received.insert(3u64);
    let left: Vec<u64> = chunks_to_send(&all, Some(&received)).iter().map(|c| c.chunk_index).collect();
    assert_eq!(left, vec![0, 2, 4]);
    assert_eq!(chunks_to_send(&all, None).len(), 5);
}

#[test]
fn chunk_payload_compresses_only_when_smaller() {
    let data = b"abababababababababababababababababababab".repeat(20);
    let (p, flag) = chunk_payload(data.clone(), CompressionAlgo::Lz4).unwrap();
    assert!(flag);
    assert!(p.len() < data.len());
    assert_eq!(lz4::decompress(&p, data.len()).unwrap(), data);
    let tiny = vec![7u8];
    let (p2, flag2) = chunk_payload(tiny.clone(), CompressionAlgo::Lz4).unwrap();
    assert!(!flag2);
    assert_eq!(p2, tiny);
    let (p3, flag3) = chunk_payload(data.clone(), CompressionAlgo::Uncompressed).unwrap();
    assert!(!flag3);
    assert_eq!(p3, data);
    let (p4, flag4) = chunk_payload(data.clone(), CompressionAlgo::Zstd).unwrap();
    assert!(flag4);
    assert!(p4.len() < data.len());
}

fn meta_for(data: &[u8]) -> ChunkMeta {
    let mut m = plan(data.len() as u64, 1 << 20).chunks[0].clone();
    m.checksum = checksum_hex(data);
    m
}

#[test]
fn decode_chunk_accepts_matching_checksum() {
    let data = b"chunk payload chunk payload chunk payload".repeat(10);
    let m = meta_for(&data);
    assert_eq!(decode_chunk_payload(&m, false, data.clone()).unwrap(), data);
    let (compressed, flag) = chunk_payload(data.clone(), CompressionAlgo::Lz4).unwrap();
    assert!(flag);
    assert_eq!(decode_chunk_payload(&m, true, compressed).unwrap(), data);
}

#[test]
fn decode_chunk_error_variants() {
    let data = b"some bytes".to_vec();
    let m = meta_for(&data);
    let mut other = data.clone();
    other[0] ^= 1;
    assert_eq!(decode_chunk_payload(&m, false, other), Err(ChunkError::ChecksumMismatch));
    let garbage = vec![1u8, 2, 3];
    assert_eq!(decode_chunk_payload(&m, true, garbage), Err(ChunkError::Decompress));
}

#[test]
fn sha256_checksum_known_value() {
    assert_eq!(
        checksum_hex(b"abc"),
        "ba7816bf8f01cfea414140de5dae2223b00361a396177a9cb410ff61f20015ad"
    );
}

#[test]
fn reply_and_progress() {
    let ok: Result<(), ()> = Ok(());
    let err: Result<(), ()> = Err(());
    assert_eq!(reply_for(&ok), 0x06);
    assert_eq!(reply_for(&err), 0x15);
    let mut p = ReceptionProgress::new();
    assert!(!p.record_chunk(2));
    assert!(p.record_chunk(2));
    assert_eq!(p.chunks_received(), 2);
    assert_eq!(received_bytes(3, 10, 25), 25);
    assert_eq!(received_bytes(2, 10, 25), 20);
}

#[test]
fn scheduler_kth_call_takes_kth_chunk_weighted() {
    let mut s = StreamScheduler::new(4, ScheduleStrategy::Weighted);
    let mut cs = chunks(6);
    cs.reverse();
    s.add_chunks(cs.clone());
    for (k, c) in cs.iter().enumerate() {
        let a = s.next_assignment().unwrap();
        assert_eq!(a.chunk.chunk_index, c.chunk_index);
        assert_eq!(a.stream_index, c.chunk_index as usize % 4);
        assert_eq!(s.pending_count(), cs.len() - k - 1);
    }
    assert!(s.next_assignment().is_none());
    assert!(s.next_assignment().is_none());
}

#[test]
fn file_hash_over_blocks_is_the_whole_file_hash() {
    let mut h = FileHasher::new();
    h.update(b"a");
    h.update(b"");
    h.update(b"bc");
    let text = h.finish();
    assert_eq!(text, "ba7816bf8f01cfea414140de5dae2223b00361a396177a9cb410ff61f20015ad");
    assert_eq!(text, checksum_hex(b"abc"));
    assert_eq!(
        FileHasher::new().finish(),
        "e3b0c44298fc1c149afbf4c8996fb92427ae41e4649b934ca495991b7852b855"
    );
}
