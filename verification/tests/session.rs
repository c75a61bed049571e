use brotli_stream::stream::{
    BrotliStreamResultCode, CompressStream, DecompressStream, StreamError,
};

/// Drives a compress session over `data` split into pieces of `chunk_len`
/// bytes, with `cap` bytes of output capacity per step, and returns the
/// concatenated output. Asserts the per-step bounds along the way.
fn compress_chunked(data: &[u8], chunk_len: usize, cap: usize, quality: Option<u32>) -> Vec<u8> {
    let mut session = CompressStream::new(quality);
    let mut out: Vec<u8> = Vec::new();
    let mut expected_total: usize = 0;
    let mut offset: usize = 0;
    while offset < data.len() {
        let end = (offset + chunk_len).min(data.len());
        let mut chunk = data[offset..end].to_vec();
        loop {
            let step = session.compress(Some(chunk.clone()), cap).unwrap();
            assert!(step.buf.len() <= cap);
            assert!(step.input_offset <= chunk.len());
            expected_total += step.buf.len();
            assert_eq!(session.total_out(), expected_total);
            out.extend_from_slice(&step.buf);
            match step.code {
                BrotliStreamResultCode::NeedsMoreInput => {
                    assert_eq!(step.input_offset, chunk.len());
                    break;
                }
                BrotliStreamResultCode::NeedsMoreOutput => {
                    assert_eq!(step.buf.len(), cap);
                    chunk = chunk[step.input_offset..].to_vec();
                }
                BrotliStreamResultCode::ResultSuccess => {
                    panic!("process step must not report success");
                }
            }
        }
        offset = end;
    }
    loop {
        let step = session.compress(None, cap).unwrap();
        assert!(step.buf.len() <= cap);
        assert_eq!(step.input_offset, 0);
        expected_total += step.buf.len();
        assert_eq!(session.total_out(), expected_total);
        out.extend_from_slice(&step.buf);
        match step.code {
            BrotliStreamResultCode::ResultSuccess => break,
            BrotliStreamResultCode::NeedsMoreOutput => assert_eq!(step.buf.len(), cap),
            BrotliStreamResultCode::NeedsMoreInput => {
                panic!("finish step must not ask for input");
            }
        }
    }
    assert_eq!(session.total_out(), out.len());
    out
}

/// Drives a decompress session over `data` split into pieces of `chunk_len`
/// bytes, with `cap` bytes of output capacity per step, and returns the
/// concatenated output. Asserts the per-step bounds along the way.
fn decompress_chunked(data: &[u8], chunk_len: usize, cap: usize) -> Vec<u8> {
    let mut session = DecompressStream::new();
    let mut out: Vec<u8> = Vec::new();
    let mut expected_total: usize = 0;
    let mut offset: usize = 0;
    loop {
        let end = (offset + chunk_len).min(data.len());
        let mut chunk = data[offset..end].to_vec();
        offset = end;
        loop {
            let step = session.decompress(chunk.clone(), cap).unwrap();
            assert!(step.buf.len() <= cap);
            assert!(step.input_offset <= chunk.len());
            expected_total += step.buf.len();
            assert_eq!(session.total_out(), expected_total);
            out.extend_from_slice(&step.buf);
            match step.code {
                BrotliStreamResultCode::ResultSuccess => return out,
                BrotliStreamResultCode::NeedsMoreInput => {
                    assert_eq!(step.input_offset, chunk.len());
                    break;
                }
                BrotliStreamResultCode::NeedsMoreOutput => {
                    assert_eq!(step.buf.len(), cap);
                    chunk = chunk[step.input_offset..].to_vec();
                }
            }
        }
        assert!(offset < data.len(), "ran out of input before the stream ended");
    }
}

fn sample_data(len: usize) -> Vec<u8> {
    // Deterministic, mildly compressible bytes.
    let mut v = Vec::with_capacity(len);
    let mut x: u32 = 7;
    for i in 0..len {
        x = x.wrapping_mul(1103515245).wrapping_add(12345);
        if i % 3 == 0 {
            v.push((x >> 16) as u8);
        } else {
            v.push((i % 251) as u8);
        }
    }
    v
}

#[test]
fn round_trip_single_chunk() {
    let data = b"The quick brown fox jumps over the lazy dog".to_vec();
    let packed = compress_chunked(&data, data.len(), 1024, None);
    assert!(!packed.is_empty());
    let unpacked = decompress_chunked(&packed, packed.len(), 1024);
    assert_eq!(unpacked, data);
}

#[test]
fn round_trip_many_chunkings() {
    let data = sample_data(3000);
    for &(chunk_len, cap) in &[(1usize, 1usize), (7, 3), (64, 64), (3000, 1), (1, 4096), (997, 17)]
    {
        let packed = compress_chunked(&data, chunk_len, cap, None);
        for &(dchunk, dcap) in &[(1usize, 1usize), (13, 5), (4096, 4096)] {
            let unpacked = decompress_chunked(&packed, dchunk, dcap);
            assert_eq!(unpacked, data);
        }
    }
}

#[test]
fn round_trip_qualities() {
    let data = sample_data(2048);
    for q in [Some(0), Some(1), Some(5), Some(11), None] {
        let packed = compress_chunked(&data, 100, 50, q);
        let unpacked = decompress_chunked(&packed, 33, 70);
        assert_eq!(unpacked, data);
    }
}

#[test]
fn round_trip_empty_input() {
    let packed = compress_chunked(&[], 1, 64, None);
    assert!(!packed.is_empty());
    let unpacked = decompress_chunked(&packed, packed.len(), 64);
    assert!(unpacked.is_empty());
}

#[test]
fn concrete_scenario_eleven_bytes() {
    let data = b"aaaaaaaaaaa".to_vec();
    let mut session = CompressStream::new(None);
    let first = session.compress(Some(data.clone()), 1024).unwrap();
    assert!(matches!(first.code, BrotliStreamResultCode::NeedsMoreInput));
    assert_eq!(first.input_offset, 11);
    let second = session.compress(None, 1024).unwrap();
    assert!(matches!(second.code, BrotliStreamResultCode::ResultSuccess));
    let mut packed = first.buf.clone();
    packed.extend_from_slice(&second.buf);
    assert!(!packed.is_empty());
    assert_eq!(session.total_out(), packed.len());

    let mut decoder = DecompressStream::new();
    let step = decoder.decompress(packed.clone(), 11).unwrap();
    assert!(matches!(step.code, BrotliStreamResultCode::ResultSuccess));
    assert_eq!(step.buf, data);
    assert_eq!(decoder.total_out(), 11);
}

#[test]
fn zero_capacity_probe_compress() {
    let data = b"zero capacity probe payload".to_vec();
    let mut session = CompressStream::new(None);
    let fed = session.compress(Some(data.clone()), 1024).unwrap();
    assert!(matches!(fed.code, BrotliStreamResultCode::NeedsMoreInput));
    // Data remains to emit; a zero-capacity finish must ask for output space
    // without touching anything.
    let probe = session.compress(None, 0).unwrap();
    assert!(matches!(probe.code, BrotliStreamResultCode::NeedsMoreOutput));
    assert!(probe.buf.is_empty());
    assert_eq!(probe.input_offset, 0);
    // The session is still live and finishes normally afterwards.
    let fin = session.compress(None, 4096).unwrap();
    assert!(matches!(fin.code, BrotliStreamResultCode::ResultSuccess));
    let mut packed = fed.buf.clone();
    packed.extend_from_slice(&fin.buf);
    let unpacked = decompress_chunked(&packed, packed.len(), 64);
    assert_eq!(unpacked, data);
}

#[test]
fn zero_capacity_probe_decompress() {
    let data = b"zero capacity probe payload, decoder side".to_vec();
    let packed = compress_chunked(&data, data.len(), 4096, None);
    let mut decoder = DecompressStream::new();
    let probe = decoder.decompress(packed.clone(), 0).unwrap();
    assert!(matches!(probe.code, BrotliStreamResultCode::NeedsMoreOutput));
    assert!(probe.buf.is_empty());
    // The probe must not have destroyed the stream: finish decoding with the
    // unconsumed remainder.
    let rest = packed[probe.input_offset..].to_vec();
    let mut out: Vec<u8> = Vec::new();
    let mut chunk = rest;
    loop {
        let step = decoder.decompress(chunk.clone(), 64).unwrap();
        out.extend_from_slice(&step.buf);
        match step.code {
            BrotliStreamResultCode::ResultSuccess => break,
            BrotliStreamResultCode::NeedsMoreOutput => {
                chunk = chunk[step.input_offset..].to_vec();
            }
            BrotliStreamResultCode::NeedsMoreInput => panic!("input was complete"),
        }
    }
    assert_eq!(out, data);
}

#[test]
fn terminal_rejection_after_success() {
    let data = b"terminal".to_vec();
    let mut session = CompressStream::new(None);
    session.compress(Some(data.clone()), 1024).unwrap();
    let fin = session.compress(None, 4096).unwrap();
    assert!(matches!(fin.code, BrotliStreamResultCode::ResultSuccess));
    let again = session.compress(Some(data.clone()), 1024);
    assert_eq!(again.unwrap_err(), StreamError::SessionClosed);
    let and_again = session.compress(None, 1024);
    assert_eq!(and_again.unwrap_err(), StreamError::SessionClosed);
}

#[test]
fn terminal_rejection_after_decoder_success_and_error() {
    let data = b"terminal, decoder side".to_vec();
    let packed = compress_chunked(&data, data.len(), 4096, None);
    let mut decoder = DecompressStream::new();
    let step = decoder.decompress(packed.clone(), 4096).unwrap();
    assert!(matches!(step.code, BrotliStreamResultCode::ResultSuccess));
    let again = decoder.decompress(packed.clone(), 4096);
    assert_eq!(again.unwrap_err(), StreamError::SessionClosed);

    let mut failing = DecompressStream::new();
    let garbage = vec![0xffu8; 32];
    let err = failing.decompress(garbage.clone(), 64).unwrap_err();
    assert!(matches!(err, StreamError::EngineError(Some(_))));
    let after = failing.decompress(garbage, 64);
    assert_eq!(after.unwrap_err(), StreamError::SessionClosed);
}

#[test]
fn corrupt_input_reports_negative_fault_code() {
    let mut decoder = DecompressStream::new();
    let garbage = vec![0xffu8; 64];
    let err = decoder.decompress(garbage, 256).unwrap_err();
    match err {
        StreamError::EngineError(Some(code)) => {
            assert!(code < 0);
            assert_ne!(code, 0);
        }
        other => panic!("expected an engine fault code, got {:?}", other),
    }
    assert_eq!(decoder.total_out(), 0);
}

#[test]
fn truncated_input_is_needs_more_input_not_success() {
    let data = sample_data(2000);
    let packed = compress_chunked(&data, data.len(), 4096, None);
    let truncated = packed[..packed.len() / 2].to_vec();
    let mut decoder = DecompressStream::new();
    let step = decoder.decompress(truncated.clone(), 8192).unwrap();
    assert!(matches!(step.code, BrotliStreamResultCode::NeedsMoreInput));
    assert_eq!(step.input_offset, truncated.len());
}

#[test]
fn success_with_trailing_bytes_reports_partial_consumption() {
    let data = b"payload before trailer".to_vec();
    let packed = compress_chunked(&data, data.len(), 4096, None);
    let mut with_trailer = packed.clone();
    with_trailer.extend_from_slice(b"TRAILING JUNK");
    let mut decoder = DecompressStream::new();
    let step = decoder.decompress(with_trailer.clone(), 4096).unwrap();
    assert!(matches!(step.code, BrotliStreamResultCode::ResultSuccess));
    assert_eq!(step.buf, data);
    assert!(step.input_offset <= with_trailer.len());
    assert!(step.input_offset < with_trailer.len());
}
