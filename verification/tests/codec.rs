use capture_pipeline::codec::decode_block;
use capture_pipeline::codec::encode_block;

#[test]
fn encode_empty_block_is_empty() {
    let samples: Vec<u32> = Vec::new();
    let bytes = encode_block(&samples);
    assert!(bytes.is_empty());
    let back = decode_block(&bytes).expect("empty stream is a whole number of words");
    assert!(back.is_empty());
}

#[test]
fn encode_known_word_little_endian() {
    let samples = vec![1.0f32.to_bits()];
    let bytes = encode_block(&samples);
    assert_eq!(bytes, vec![0x00, 0x00, 0x80, 0x3F]);
}

#[test]
fn forwarding_round_trip_is_bit_identical() {
    let floats = vec![0.0f32, 0.2, -0.5, 1.0, -1.0, 0.1, 3.75e-5, -0.999];
    let samples: Vec<u32> = floats.iter().map(|f| f.to_bits()).collect();
    let bytes = encode_block(&samples);
    assert_eq!(bytes.len(), 4 * floats.len());
    for (i, f) in floats.iter().enumerate() {
        assert_eq!(&bytes[4 * i..4 * i + 4], &f.to_le_bytes());
    }
    let back = decode_block(&bytes).expect("an encoded block decodes");
    let back_floats: Vec<f32> = back.iter().map(|w| f32::from_bits(*w)).collect();
    assert_eq!(back_floats.len(), floats.len());
    for (a, b) in floats.iter().zip(back_floats.iter()) {
        assert_eq!(a.to_bits(), b.to_bits());
    }
}

#[test]
fn decode_rejects_ragged_stream() {
    let bytes = vec![0x01, 0x02, 0x03];
    assert!(decode_block(&bytes).is_none());
    let bytes = vec![0x01, 0x02, 0x03, 0x04, 0x05];
    assert!(decode_block(&bytes).is_none());
}
