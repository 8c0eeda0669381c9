use capture_pipeline::codec::encode_block;
use capture_pipeline::level::duck_event_name;
use capture_pipeline::level::level_event_name;
use capture_pipeline::level::plan_block;
use capture_pipeline::level::DUCK_THRESHOLD_BITS;

/// The loudness reduction the capture callback performs: root mean square
/// over the block, zero for an empty block.
fn rms(block: &[f32]) -> f32 {
    if block.is_empty() {
        0.0
    } else {
        (block.iter().map(|v| v * v).sum::<f32>() / block.len() as f32).sqrt()
    }
}

#[test]
fn threshold_bits_encode_one_tenth() {
    assert_eq!(DUCK_THRESHOLD_BITS, 0.1f32.to_bits());
}

#[test]
fn silent_block_emits_zero_level_and_no_duck() {
    let block = [0.0f32; 480];
    let loudness = rms(&block);
    assert_eq!(loudness, 0.0);
    let samples: Vec<u32> = block.iter().map(|f| f.to_bits()).collect();
    let plan = plan_block(&samples, loudness.to_bits(), false);
    assert_eq!(f32::from_bits(plan.level_bits), 0.0);
    assert!(plan.duck_bits.is_none());
}

#[test]
fn constant_amplitude_block_fires_both_events() {
    let block = [0.2f32; 2];
    let loudness = rms(&block);
    assert_eq!(loudness, 0.2);
    let samples: Vec<u32> = block.iter().map(|f| f.to_bits()).collect();
    let plan = plan_block(&samples, loudness.to_bits(), false);
    assert_eq!(f32::from_bits(plan.level_bits), 0.2);
    let ducked = plan.duck_bits.expect("0.2 exceeds the 0.1 threshold");
    assert_eq!(f32::from_bits(ducked), 0.2);
}

#[test]
fn long_constant_block_still_fires_both_events() {
    let block = [0.2f32; 480];
    let loudness = rms(&block);
    assert!((loudness - 0.2).abs() < 1e-3);
    let samples: Vec<u32> = block.iter().map(|f| f.to_bits()).collect();
    let plan = plan_block(&samples, loudness.to_bits(), false);
    assert_eq!(plan.level_bits, loudness.to_bits());
    assert_eq!(plan.duck_bits, Some(loudness.to_bits()));
}

#[test]
fn threshold_is_strict() {
    let at_threshold = 0.1f32;
    let plan = plan_block(&Vec::new(), at_threshold.to_bits(), false);
    assert!(plan.duck_bits.is_none());
    let above = f32::from_bits(0.1f32.to_bits() + 1);
    assert!(above > 0.1);
    let plan = plan_block(&Vec::new(), above.to_bits(), false);
    assert!(plan.duck_bits.is_some());
}

#[test]
fn forwarding_follows_configuration() {
    let samples: Vec<u32> = vec![0.25f32.to_bits(), 0.5f32.to_bits()];
    let forwarded = plan_block(&samples, 0, true);
    assert_eq!(
        forwarded.forward_bytes.expect("forwarding configured"),
        encode_block(&samples)
    );
    let kept = plan_block(&samples, 0, false);
    assert!(kept.forward_bytes.is_none());
}

#[test]
fn event_names_are_fixed() {
    assert_eq!(level_event_name(), "audio-level");
    assert_eq!(duck_event_name(), "duck_system_audio");
}
