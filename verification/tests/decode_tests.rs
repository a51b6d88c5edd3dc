//! Tests of the binary payload decoder: round trips, compression dispatch,
//! precision dispatch, and every error path.

use base64::Engine;
use libms::{decode_binary_data, DecodedArray, MzmlError};

fn encode_f32s(vals: &[f32]) -> String {
    let mut bytes: Vec<u8> = Vec::new();
    for v in vals {
        bytes.extend_from_slice(&v.to_le_bytes());
    }
    base64::engine::general_purpose::STANDARD.encode(&bytes)
}

fn encode_f64s(vals: &[f64]) -> Vec<u8> {
    let mut bytes: Vec<u8> = Vec::new();
    for v in vals {
        bytes.extend_from_slice(&v.to_le_bytes());
    }
    bytes
}

#[test]
fn round_trip_uncompressed_single_precision() {
    let vals: [f32; 5] = [1.5, -2.25, 0.0, 3.5e10, -7.25e-3];
    let text = encode_f32s(&vals);
    let decoded = decode_binary_data(&text, None, "32-bit float").unwrap();
    match decoded {
        DecodedArray::Single(bits) => {
            assert_eq!(bits.len(), vals.len());
            for (b, v) in bits.iter().zip(vals.iter()) {
                assert_eq!(*b, v.to_bits());
            }
        }
        DecodedArray::Double(_) => panic!("expected single precision"),
    }
}

#[test]
fn zlib_compression_dispatch() {
    let vals: [f32; 3] = [10.0, 20.5, -30.25];
    let mut bytes: Vec<u8> = Vec::new();
    for v in &vals {
        bytes.extend_from_slice(&v.to_le_bytes());
    }
    let mut encoder =
        flate2::write::ZlibEncoder::new(Vec::new(), flate2::Compression::default());
    std::io::Write::write_all(&mut encoder, &bytes).unwrap();
    let compressed = encoder.finish().unwrap();
    let text = base64::engine::general_purpose::STANDARD.encode(&compressed);
    let decoded = decode_binary_data(&text, Some("zlib"), "32-bit float").unwrap();
    match decoded {
        DecodedArray::Single(bits) => {
            assert_eq!(bits.len(), 3);
            for (b, v) in bits.iter().zip(vals.iter()) {
                assert_eq!(*b, v.to_bits());
            }
        }
        DecodedArray::Double(_) => panic!("expected single precision"),
    }
}

#[test]
fn numpress_linear_compression_dispatch() {
    let vals: [f64; 4] = [100.0, 200.5, 300.25, 401.125];
    let compressed = numpress::numpress_compress(&vals, numpress::DEFAULT_SCALING).unwrap();
    let text = base64::engine::general_purpose::STANDARD.encode(&compressed);
    let decoded = decode_binary_data(&text, Some("MS-Numpress linear"), "64-bit float").unwrap();
    match decoded {
        DecodedArray::Double(bits) => {
            assert_eq!(bits.len(), 4);
            for (b, v) in bits.iter().zip(vals.iter()) {
                let back = f64::from_bits(*b);
                assert!((back - v).abs() < 1e-3, "{} vs {}", back, v);
            }
        }
        DecodedArray::Single(_) => panic!("expected double precision"),
    }
}

#[test]
fn absent_compression_passes_bytes_through() {
    let vals: [f32; 2] = [1.0, 2.0];
    let text = encode_f32s(&vals);
    // A hint naming no known algorithm behaves like no hint at all.
    let decoded = decode_binary_data(&text, Some("no compression"), "32-bit float").unwrap();
    let plain = decode_binary_data(&text, None, "32-bit float").unwrap();
    match (decoded, plain) {
        (DecodedArray::Single(a), DecodedArray::Single(b)) => {
            assert_eq!(a, b);
            assert_eq!(a.len(), 2);
            assert_eq!(a[0], 1.0f32.to_bits());
        }
        _ => panic!("expected single precision"),
    }
}

#[test]
fn double_precision_groups_eight_bytes() {
    let vals: [f64; 3] = [1.5, -2.5, 3.75];
    let bytes = encode_f64s(&vals);
    assert_eq!(bytes.len(), 8 * 3);
    let text = base64::engine::general_purpose::STANDARD.encode(&bytes);
    let decoded = decode_binary_data(&text, None, "64-bit float").unwrap();
    match decoded {
        DecodedArray::Double(bits) => {
            assert_eq!(bits.len(), 3);
            for (b, v) in bits.iter().zip(vals.iter()) {
                assert_eq!(*b, v.to_bits());
            }
        }
        DecodedArray::Single(_) => panic!("expected double precision"),
    }
}

#[test]
fn unknown_precision_tag_is_rejected() {
    let text = encode_f32s(&[1.0]);
    let err = decode_binary_data(&text, None, "16-bit float").unwrap_err();
    match err {
        MzmlError::UnknownPrecisionError(tag) => assert_eq!(tag, "16-bit float"),
        other => panic!("expected UnknownPrecisionError, got {:?}", other),
    }
}

#[test]
fn malformed_base64_fails_before_decompression() {
    // A valid payload with an invalid character inserted.
    let err = decode_binary_data("AAAA#AAA", Some("zlib"), "32-bit float").unwrap_err();
    assert!(matches!(err, MzmlError::DecodeError));
}

#[test]
fn truncated_array_is_a_hard_error() {
    // Five bytes cannot be grouped into 4-byte values.
    let text = base64::engine::general_purpose::STANDARD.encode([1u8, 2, 3, 4, 5]);
    let err = decode_binary_data(&text, None, "32-bit float").unwrap_err();
    assert!(matches!(err, MzmlError::TruncatedArrayError));
    let err = decode_binary_data(&text, None, "64-bit float").unwrap_err();
    assert!(matches!(err, MzmlError::TruncatedArrayError));
}

#[test]
fn corrupt_zlib_stream_is_rejected() {
    let text = base64::engine::general_purpose::STANDARD.encode([0u8, 1, 2, 3]);
    let err = decode_binary_data(&text, Some("zlib"), "32-bit float").unwrap_err();
    match err {
        MzmlError::DecompressionError(alg) => assert_eq!(alg, "zlib"),
        other => panic!("expected DecompressionError, got {:?}", other),
    }
}

#[test]
fn truncated_numpress_stream_is_rejected() {
    // Fewer than the codec's 8 header bytes.
    let text = base64::engine::general_purpose::STANDARD.encode([1u8, 2, 3]);
    let err = decode_binary_data(&text, Some("MS-Numpress linear"), "64-bit float").unwrap_err();
    match err {
        MzmlError::DecompressionError(alg) => assert_eq!(alg, "MS-Numpress linear"),
        other => panic!("expected DecompressionError, got {:?}", other),
    }
}

#[test]
fn slof_payloads_are_rejected() {
    let text = base64::engine::general_purpose::STANDARD.encode([1u8; 16]);
    let err = decode_binary_data(&text, Some("MS-Numpress slof"), "32-bit float").unwrap_err();
    match err {
        MzmlError::DecompressionError(alg) => assert_eq!(alg, "MS-Numpress slof"),
        other => panic!("expected DecompressionError, got {:?}", other),
    }
}

#[test]
fn empty_payload_decodes_to_empty_array() {
    let decoded = decode_binary_data("", None, "32-bit float").unwrap();
    match decoded {
        DecodedArray::Single(bits) => assert_eq!(bits.len(), 0),
        DecodedArray::Double(_) => panic!("expected single precision"),
    }
}
