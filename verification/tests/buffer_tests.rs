//! Tests for the typed-buffer interchange: construction, extraction, the
//! narrowing-cast table and the direction-specific capability tables.

use tract_bridge::buffer::{CoreTensor, CoreTensorVec};
use tract_bridge::error::CoreError;
use tract_bridge::kind::{HostArrayKind, NumericKind};

fn le_bytes_f32(vals: &[f32]) -> Vec<u8> {
    let mut out = Vec::new();
    for v in vals {
        out.extend_from_slice(&v.to_le_bytes());
    }
    out
}

fn le_bytes_f64(vals: &[f64]) -> Vec<u8> {
    let mut out = Vec::new();
    for v in vals {
        out.extend_from_slice(&v.to_le_bytes());
    }
    out
}

fn le_bytes_i32(vals: &[i32]) -> Vec<u8> {
    let mut out = Vec::new();
    for v in vals {
        out.extend_from_slice(&v.to_le_bytes());
    }
    out
}

fn le_bytes_i64(vals: &[i64]) -> Vec<u8> {
    let mut out = Vec::new();
    for v in vals {
        out.extend_from_slice(&v.to_le_bytes());
    }
    out
}

fn le_bytes_u64(vals: &[u64]) -> Vec<u8> {
    let mut out = Vec::new();
    for v in vals {
        out.extend_from_slice(&v.to_le_bytes());
    }
    out
}

#[test]
fn round_trip_int8() {
    let data = vec![0u8, 1, 127, 128, 255];
    let t = CoreTensor::new(HostArrayKind::Int8, data.clone(), vec![5]).unwrap();
    assert_eq!(t.kind(), NumericKind::Int8);
    assert_eq!(t.shape(), vec![5]);
    let out = t.data().unwrap();
    assert_eq!(out.kind, HostArrayKind::Int8);
    assert_eq!(out.data, data);
}

#[test]
fn round_trip_uint8() {
    let data = vec![3u8, 200];
    let t = CoreTensor::new(HostArrayKind::Uint8, data.clone(), vec![2, 1]).unwrap();
    let out = t.data().unwrap();
    assert_eq!(out.kind, HostArrayKind::Uint8);
    assert_eq!(out.data, data);
}

#[test]
fn round_trip_uint8_clamped_comes_back_plain() {
    let data = vec![9u8, 0, 255, 17];
    let t = CoreTensor::new(HostArrayKind::Uint8Clamped, data.clone(), vec![4]).unwrap();
    assert_eq!(t.kind(), NumericKind::Uint8);
    let out = t.data().unwrap();
    assert_eq!(out.kind, HostArrayKind::Uint8);
    assert_eq!(out.data, data);
}

#[test]
fn round_trip_int16_uint16() {
    let data = vec![0x34u8, 0x12, 0xFF, 0xFF];
    let t = CoreTensor::new(HostArrayKind::Int16, data.clone(), vec![2]).unwrap();
    let out = t.data().unwrap();
    assert_eq!(out.kind, HostArrayKind::Int16);
    assert_eq!(out.data, data);
    let t = CoreTensor::new(HostArrayKind::Uint16, data.clone(), vec![2]).unwrap();
    let out = t.data().unwrap();
    assert_eq!(out.kind, HostArrayKind::Uint16);
    assert_eq!(out.data, data);
}

#[test]
fn round_trip_int32() {
    let data = le_bytes_i32(&[1, -2, 3, -4, 5, -6]);
    let t = CoreTensor::new(HostArrayKind::Int32, data.clone(), vec![2, 3]).unwrap();
    assert_eq!(t.shape(), vec![2, 3]);
    let out = t.data().unwrap();
    assert_eq!(out.kind, HostArrayKind::Int32);
    assert_eq!(out.data, data);
}

#[test]
fn round_trip_float32_float64() {
    let data = le_bytes_f32(&[1.5, -2.25, 0.0]);
    let t = CoreTensor::new(HostArrayKind::Float32, data.clone(), vec![3]).unwrap();
    let out = t.data().unwrap();
    assert_eq!(out.kind, HostArrayKind::Float32);
    assert_eq!(out.data, data);
    let data = le_bytes_f64(&[std::f64::consts::PI, -0.5]);
    let t = CoreTensor::new(HostArrayKind::Float64, data.clone(), vec![2]).unwrap();
    let out = t.data().unwrap();
    assert_eq!(out.kind, HostArrayKind::Float64);
    assert_eq!(out.data, data);
}

#[test]
fn shape_mismatch_on_short_data() {
    let r = CoreTensor::new(HostArrayKind::Int8, vec![1, 2, 3], vec![2, 2]);
    assert!(matches!(r, Err(CoreError::ShapeMismatch)));
}

#[test]
fn shape_mismatch_on_long_data() {
    let r = CoreTensor::new(HostArrayKind::Float32, le_bytes_f32(&[1.0, 2.0, 3.0]), vec![2]);
    assert!(matches!(r, Err(CoreError::ShapeMismatch)));
}

#[test]
fn shape_mismatch_on_element_width() {
    // 4 bytes is one float32, not four.
    let r = CoreTensor::new(HostArrayKind::Float32, vec![0, 0, 0, 0], vec![4]);
    assert!(matches!(r, Err(CoreError::ShapeMismatch)));
}

#[test]
fn zero_dimension_needs_empty_data() {
    let t = CoreTensor::new(HostArrayKind::Int32, vec![], vec![0, 5]).unwrap();
    let out = t.data().unwrap();
    assert_eq!(out.kind, HostArrayKind::Int32);
    assert!(out.data.is_empty());
    let r = CoreTensor::new(HostArrayKind::Int32, le_bytes_i32(&[1]), vec![0, 5]);
    assert!(matches!(r, Err(CoreError::ShapeMismatch)));
}

#[test]
fn uint32_is_not_accepted_on_input() {
    let r = CoreTensor::new(HostArrayKind::Uint32, vec![0, 0, 0, 0], vec![1]);
    assert!(matches!(r, Err(CoreError::UnsupportedType)));
}

#[test]
fn uint32_is_produced_on_output() {
    let data = vec![1u8, 0, 0, 0, 255, 255, 255, 255];
    let t = CoreTensor::from_parts(NumericKind::Uint32, vec![2], data.clone(), true).unwrap();
    let out = t.data().unwrap();
    assert_eq!(out.kind, HostArrayKind::Uint32);
    assert_eq!(out.data, data);
}

#[test]
fn narrow_int64_to_int32() {
    let values: Vec<i64> = vec![0, 1, -1, -5, 0x1_0000_0005, i64::MIN, i64::MAX];
    let t = CoreTensor::from_parts(NumericKind::Int64, vec![7], le_bytes_i64(&values), true)
        .unwrap();
    let out = t.data().unwrap();
    assert_eq!(out.kind, HostArrayKind::Int32);
    let expected: Vec<i32> = values.iter().map(|v| (*v as u64 % 0x1_0000_0000) as u32 as i32)
        .collect();
    assert_eq!(out.data, le_bytes_i32(&expected));
    assert_eq!(expected, vec![0, 1, -1, -5, 5, 0, -1]);
}

#[test]
fn narrow_uint64_to_uint32() {
    let values: Vec<u64> = vec![0, 7, 0xFFFF_FFFF, 0x1_0000_0000, 0xABCD_1234_5678_9ABC];
    let t = CoreTensor::from_parts(NumericKind::Uint64, vec![5], le_bytes_u64(&values), true)
        .unwrap();
    let out = t.data().unwrap();
    assert_eq!(out.kind, HostArrayKind::Uint32);
    let expected: Vec<u32> = values.iter().map(|v| (*v % 0x1_0000_0000) as u32).collect();
    let mut expected_bytes = Vec::new();
    for v in &expected {
        expected_bytes.extend_from_slice(&v.to_le_bytes());
    }
    assert_eq!(out.data, expected_bytes);
}

#[test]
fn bool_extracts_as_zero_or_one() {
    let t = CoreTensor::from_parts(NumericKind::Bool, vec![3], vec![0, 1, 2], true).unwrap();
    let out = t.data().unwrap();
    assert_eq!(out.kind, HostArrayKind::Uint8);
    assert_eq!(out.data, vec![0, 1, 1]);
}

#[test]
fn widen_float16_to_float32() {
    // 1.0, -2.0, 0.0, -0.0, the smallest subnormal, 65504 (the largest
    // finite value), +inf, -inf and a NaN, as 16-bit float bit images.
    let halves: Vec<u16> = vec![
        0x3C00, 0xC000, 0x0000, 0x8000, 0x0001, 0x7BFF, 0x7C00, 0xFC00, 0x7E00,
    ];
    let mut bytes = Vec::new();
    for h in &halves {
        bytes.extend_from_slice(&h.to_le_bytes());
    }
    let t = CoreTensor::from_parts(NumericKind::Float16, vec![9], bytes, true).unwrap();
    let out = t.data().unwrap();
    assert_eq!(out.kind, HostArrayKind::Float32);
    assert_eq!(out.data.len(), 36);
    let floats: Vec<f32> = out.data.chunks(4)
        .map(|c| f32::from_le_bytes([c[0], c[1], c[2], c[3]]))
        .collect();
    assert_eq!(floats[0], 1.0);
    assert_eq!(floats[1], -2.0);
    assert_eq!(floats[2], 0.0);
    assert_eq!(floats[3].to_bits(), 0x8000_0000);
    assert_eq!(floats[4], 2.0f32.powi(-24));
    assert_eq!(floats[5], 65504.0);
    assert_eq!(floats[6], f32::INFINITY);
    assert_eq!(floats[7], f32::NEG_INFINITY);
    assert!(floats[8].is_nan());
}

#[test]
fn widen_every_subnormal_float16_losslessly() {
    // All 1023 subnormal mantissas: value is m * 2^-24 exactly.
    for m in 1u16..1024 {
        let t = CoreTensor::from_parts(NumericKind::Float16, vec![1], m.to_le_bytes().to_vec(),
            true)
            .unwrap();
        let out = t.data().unwrap();
        let f = f32::from_le_bytes([out.data[0], out.data[1], out.data[2], out.data[3]]);
        assert_eq!(f, m as f32 * 2.0f32.powi(-24), "mantissa {m}");
    }
}

#[test]
fn engine_only_kinds_fail_extraction() {
    for kind in [
        NumericKind::Blob,
        NumericKind::Str,
        NumericKind::SymDim,
        NumericKind::QInt8,
        NumericKind::QUint8,
        NumericKind::Other,
    ] {
        let t = CoreTensor::from_parts(kind, vec![2], vec![], true).unwrap();
        assert!(matches!(t.data(), Err(CoreError::UnsupportedType)), "{kind:?}");
    }
}

#[test]
fn non_contiguous_fails_extraction() {
    let t = CoreTensor::from_parts(NumericKind::Int32, vec![2], le_bytes_i32(&[1, 2]), false)
        .unwrap();
    assert!(matches!(t.data(), Err(CoreError::NonContiguousLayout)));
    assert!(!t.is_contiguous());
}

#[test]
fn from_parts_checks_the_invariant() {
    let r = CoreTensor::from_parts(NumericKind::Int32, vec![2], vec![0, 0, 0, 0], true);
    assert!(matches!(r, Err(CoreError::ShapeMismatch)));
    let r = CoreTensor::from_parts(NumericKind::Blob, vec![2], vec![1], true);
    assert!(matches!(r, Err(CoreError::ShapeMismatch)));
}

#[test]
fn tensor_vec_push_length_get() {
    let mut v = CoreTensorVec::new();
    assert_eq!(v.length(), 0);
    let a = CoreTensor::new(HostArrayKind::Int8, vec![1, 2], vec![2]).unwrap();
    let b = CoreTensor::new(HostArrayKind::Uint8, vec![3], vec![1]).unwrap();
    v.push(a);
    v.push(b);
    assert_eq!(v.length(), 2);
    let first = v.get(0);
    assert_eq!(first.kind(), NumericKind::Int8);
    assert_eq!(first.data().unwrap().data, vec![1, 2]);
    let second = v.get(1);
    assert_eq!(second.kind(), NumericKind::Uint8);
    assert_eq!(second.shape(), vec![1]);
}

#[test]
fn widen_every_float16_bit_pattern() {
    // Check the whole 16-bit space against values computed independently:
    // subnormals are m * 2^-24, normals (1024 + m) * 2^(e - 25), with the
    // sign applied; an all-ones exponent is an infinity or a NaN.
    for h in 0u16..=u16::MAX {
        let t = CoreTensor::from_parts(
            NumericKind::Float16,
            vec![1],
            h.to_le_bytes().to_vec(),
            true,
        )
        .unwrap();
        let out = t.data().unwrap();
        let got = f32::from_le_bytes([out.data[0], out.data[1], out.data[2], out.data[3]]);
        let sign = if h >> 15 == 1 { -1.0f32 } else { 1.0f32 };
        let e = (h >> 10) & 31;
        let m = h & 1023;
        if e == 31 {
            if m == 0 {
                assert_eq!(got, sign * f32::INFINITY, "bits {h:#06x}");
            } else {
                assert!(got.is_nan(), "bits {h:#06x}");
            }
        } else if e == 0 {
            let expected = sign * m as f32 * 2.0f32.powi(-24);
            assert_eq!(got.to_bits(), expected.to_bits(), "bits {h:#06x}");
        } else {
            let expected = sign * (1024 + m) as f32 * 2.0f32.powi(e as i32 - 25);
            assert_eq!(got.to_bits(), expected.to_bits(), "bits {h:#06x}");
        }
    }
}
