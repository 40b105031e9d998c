use fastshare::compression::lz4;
use fastshare::compression::zstd;
use fastshare::compression::CompressionError;

#[test]
fn lz4_test_compress_decompress() {
    let data = b"Hello, FastShare! ".repeat(1000);
    let compressed = lz4::compress(&data).unwrap();
    let decompressed = lz4::decompress(&compressed, data.len()).unwrap();
    assert_eq!(data.as_slice(), decompressed.as_slice());
}

#[test]
fn test_compression_reduces_size() {
    let data = b"AAAAAAAAAA".repeat(10000);
    let compressed = lz4::compress(&data).unwrap();
    assert!(compressed.len() < data.len());
}

#[test]
fn zstd_test_compress_decompress() {
    let data = b"The quick brown fox jumps over the lazy dog. ".repeat(1000);
    let compressed = zstd::compress(&data).unwrap();
    let decompressed = zstd::decompress(&compressed).unwrap();
    assert_eq!(data.as_slice(), decompressed.as_slice());
}

#[test]
fn test_compression_levels() {
    let data = b"FastShare distributed transfer! ".repeat(10000);
    let fast = zstd::compress_with_level(&data, 1).unwrap();
    let balanced = zstd::compress_with_level(&data, 6).unwrap();
    let max = zstd::compress_with_level(&data, 19).unwrap();
    assert!(max.len() <= balanced.len());
    assert!(balanced.len() <= fast.len());
}

#[test]
fn lz4_decompress_rejects_oversized_output() {
    let data = b"Hello, FastShare! ".repeat(1000);
    let compressed = lz4::compress(&data).unwrap();
    match lz4::decompress(&compressed, 100) {
        Err(CompressionError::Lz4SizeExceeded { size, max }) => {
            assert_eq!(size, data.len());
            assert_eq!(max, 100);
        }
        other => panic!("unexpected result: {:?}", other),
    }
}

#[test]
fn lz4_decompress_rejects_garbage() {
    // Declares 16 bytes, then a block whose match offset points before
    // the start of the output.
    let garbage = vec![16u8, 0, 0, 0, 0x0f, 0xff, 0xff, 0xff, 0xff];
    assert!(matches!(
        lz4::decompress(&garbage, 1 << 20),
        Err(CompressionError::Lz4Decompress)
    ));
}

#[test]
fn zstd_decompress_rejects_garbage() {
    let garbage = vec![1u8, 2, 3, 4, 5, 6, 7, 8];
    assert!(matches!(
        zstd::decompress(&garbage),
        Err(CompressionError::ZstdDecompress)
    ));
}

#[test]
fn zstd_level_is_clamped() {
    assert_eq!(zstd::clamp_level(0), 1);
    assert_eq!(zstd::clamp_level(-5), 1);
    assert_eq!(zstd::clamp_level(30), 22);
    assert_eq!(zstd::clamp_level(6), 6);
    let data = b"clamp ".repeat(100);
    let a = zstd::compress_with_level(&data, 40).unwrap();
    let b = zstd::compress_with_level(&data, 22).unwrap();
    assert_eq!(a, b);
    let low = zstd::compress_with_level(&data, -5).unwrap();
    assert_eq!(low, zstd::compress_with_level(&data, 1).unwrap());
    assert_eq!(zstd::compress(&data).unwrap(), zstd::compress_with_level(&data, 3).unwrap());
}

#[test]
fn compression_changes_bytes() {
    let data = b"abcabcabcabcabcabcabcabcabcabc".repeat(50);
    let c = lz4::compress(&data).unwrap();
    assert_ne!(c, data);
    let z = zstd::compress(&data).unwrap();
    assert_ne!(z, data);
}
