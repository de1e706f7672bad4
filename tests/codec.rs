use demod::codec::{
    decode_chunk, decode_f32_bits_iq, decode_i16_iq, encode_i16_le, encode_u32_le, shape_i16,
    shape_i16_block, DecodeError, RawSamples, Sign,
};
use demod::usage::DataType;

#[test]
fn decodes_half_scale_i16_pair() {
    let v = decode_i16_iq(&[0x00, 0x40, 0x00, 0xC0]).unwrap();
    assert_eq!(v, vec![(16384, -16384)]);
    let (i, q) = v[0];
    assert!((i as f32 / 32768.0 - 0.5).abs() < 1e-6);
    assert!((q as f32 / 32768.0 + 0.5).abs() < 1e-6);
}

#[test]
fn decodes_i16_extremes() {
    let v = decode_i16_iq(&[0xFF, 0x7F, 0x00, 0x80, 0xFF, 0xFF, 0x01, 0x00]).unwrap();
    assert_eq!(v, vec![(32767, -32768), (-1, 1)]);
}

#[test]
fn partial_samples_are_rejected() {
    assert_eq!(decode_i16_iq(&[1, 2, 3]), Err(DecodeError::PartialSample));
    assert_eq!(decode_f32_bits_iq(&[0; 12]), Err(DecodeError::PartialSample));
    assert!(matches!(decode_chunk(DataType::I16, &[0; 6]), Err(DecodeError::PartialSample)));
    assert!(matches!(decode_chunk(DataType::F32, &[0; 4]), Err(DecodeError::PartialSample)));
}

#[test]
fn empty_chunk_decodes_to_nothing() {
    assert_eq!(decode_i16_iq(&[]), Ok(vec![]));
    assert_eq!(decode_f32_bits_iq(&[]), Ok(vec![]));
}

#[test]
fn decodes_f32_pair_bits() {
    let mut bytes = Vec::new();
    bytes.extend_from_slice(&0.5f32.to_le_bytes());
    bytes.extend_from_slice(&(-0.25f32).to_le_bytes());
    let v = decode_f32_bits_iq(&bytes).unwrap();
    assert_eq!(v.len(), 1);
    assert_eq!(f32::from_bits(v[0].0), 0.5);
    assert_eq!(f32::from_bits(v[0].1), -0.25);
}

#[test]
fn chunk_decoding_follows_the_encoding() {
    match decode_chunk(DataType::I16, &[0x00, 0x40, 0x00, 0xC0, 0x01, 0x00, 0x02, 0x00]).unwrap() {
        RawSamples::I16(v) => assert_eq!(v, vec![(16384, -16384), (1, 2)]),
        RawSamples::F32Bits(_) => panic!("wrong encoding"),
    }
    let s = decode_chunk(DataType::F32, &[0x00, 0x00, 0x80, 0x3F, 0, 0, 0, 0]).unwrap();
    assert_eq!(s.len(), 1);
    match s {
        RawSamples::F32Bits(v) => assert_eq!(v, vec![(0x3F80_0000, 0)]),
        RawSamples::I16(_) => panic!("wrong encoding"),
    }
}

#[test]
fn encodes_i16_little_endian() {
    assert_eq!(encode_i16_le(&[32767, -1, -32768, 258]), vec![0xFF, 0x7F, 0xFF, 0xFF, 0x00, 0x80, 0x02, 0x01]);
    assert_eq!(encode_i16_le(&[]), Vec::<u8>::new());
}

#[test]
fn encodes_u32_little_endian() {
    assert_eq!(encode_u32_le(&[0x0102_0304]), vec![4, 3, 2, 1]);
    assert_eq!(encode_u32_le(&[1.0f32.to_bits()]), 1.0f32.to_le_bytes().to_vec());
}

#[test]
fn i16_round_trip_through_bytes() {
    let values: Vec<i16> = vec![0, 1, -1, 16384, -16384, 32767, -32768];
    let mut padded = values.clone();
    padded.push(5);
    let bytes = encode_i16_le(&padded);
    let pairs = decode_i16_iq(&bytes).unwrap();
    let back: Vec<i16> = pairs.iter().flat_map(|&(i, q)| [i, q]).collect();
    assert_eq!(back, padded);
}

#[test]
fn clamp_mode_limits_to_full_scale() {
    let scaled = (1.5f32 * 32767.0) as i32;
    assert_eq!(shape_i16(false, Sign::Positive, scaled), 32767);
    let scaled = (-1.5f32 * 32767.0) as i32;
    assert_eq!(shape_i16(false, Sign::Negative, scaled), -32767);
    let scaled = (0.5f32 * 32767.0) as i32;
    assert_eq!(shape_i16(false, Sign::Positive, scaled), 16383);
    assert_eq!(shape_i16(false, Sign::Zero, 0), 0);
}

#[test]
fn squarewave_mode_collapses_by_sign() {
    let scaled = (0.4f32 * 32767.0) as i32;
    assert_eq!(shape_i16(true, Sign::Positive, scaled), 32767);
    let scaled = (-0.001f32 * 32767.0) as i32;
    assert_eq!(shape_i16(true, Sign::Negative, scaled), -32767);
    assert_eq!(shape_i16(true, Sign::Zero, 0), 0);
}

#[test]
fn block_shaping_applies_each_value() {
    let vals = [(Sign::Positive, 40000), (Sign::Negative, -12), (Sign::Zero, 0)];
    assert_eq!(shape_i16_block(false, &vals), vec![32767, -12, 0]);
    assert_eq!(shape_i16_block(true, &vals), vec![32767, -32767, 0]);
}
