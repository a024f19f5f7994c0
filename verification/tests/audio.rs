use std::collections::VecDeque;

use musicgpt::audio_manager::{
    fill_output, AudioManager, SampleFormat, WavError, WavSampleFormat, DEFAULT_RATE,
};

fn bits(values: &[f32]) -> VecDeque<u32> {
    values.iter().map(|v| v.to_bits()).collect()
}

#[test]
fn default_configuration() {
    let manager = AudioManager::default();
    assert_eq!(manager.sample_format, SampleFormat::F32);
    assert_eq!(manager.sample_rate, DEFAULT_RATE);
    assert_eq!(manager.channel_count, 1);
}

#[test]
fn bits_per_sample_by_format() {
    let mut manager = AudioManager::default();
    assert_eq!(manager.bits_per_sample(), 32);
    manager.sample_format = SampleFormat::I16;
    assert_eq!(manager.bits_per_sample(), 16);
    manager.sample_format = SampleFormat::U8;
    assert_eq!(manager.bits_per_sample(), 8);
    manager.sample_format = SampleFormat::F64;
    assert_eq!(manager.bits_per_sample(), 64);
}

#[test]
fn wav_format_by_sample_format() {
    let mut manager = AudioManager::default();
    assert_eq!(manager.hound_format(), WavSampleFormat::Float);
    manager.sample_format = SampleFormat::F64;
    assert_eq!(manager.hound_format(), WavSampleFormat::Float);
    manager.sample_format = SampleFormat::I32;
    assert_eq!(manager.hound_format(), WavSampleFormat::Int);
}

#[test]
fn one_second_of_samples_lasts_one_thousand_ms() {
    let manager = AudioManager::default();
    assert_eq!(manager.sample_rate, 32000);
    assert_eq!(manager.playback_duration_ms(32000), 1000);
}

#[test]
fn duration_rounds_down_to_whole_ms() {
    let manager = AudioManager::default();
    assert_eq!(manager.playback_duration_ms(48000), 1500);
    assert_eq!(manager.playback_duration_ms(15), 0);
}

#[test]
fn wav_round_trip_preserves_samples_and_metadata() {
    let manager = AudioManager::default();
    let values = [0.0f32, 0.5, -0.25, 1.0, -1.0, 0.125];
    let encoded = manager.serialize_wav(bits(&values)).unwrap();

    let reader = hound::WavReader::new(std::io::Cursor::new(&encoded)).unwrap();
    let spec = reader.spec();
    assert_eq!(spec.channels, 1);
    assert_eq!(spec.sample_rate, 32000);
    assert_eq!(spec.bits_per_sample, 32);
    assert_eq!(spec.sample_format, hound::SampleFormat::Float);

    let decoded: Vec<f32> = reader.into_samples::<f32>().map(Result::unwrap).collect();
    assert_eq!(decoded.len(), values.len());
    for (d, v) in decoded.iter().zip(values.iter()) {
        assert_eq!(d.to_bits(), v.to_bits());
    }
}

#[test]
fn wav_encoding_is_deterministic() {
    let manager = AudioManager::default();
    let values = [0.25f32, -0.5, 0.75];
    let first = manager.serialize_wav(bits(&values)).unwrap();
    let second = manager.serialize_wav(bits(&values)).unwrap();
    assert_eq!(first, second);
}

#[test]
fn wide_formats_are_rejected() {
    let mut manager = AudioManager::default();
    manager.sample_format = SampleFormat::F64;
    assert_eq!(manager.serialize_wav(bits(&[0.5])), Err(WavError::Unsupported));
    manager.sample_format = SampleFormat::I16;
    assert_eq!(manager.serialize_wav(bits(&[0.5])), Err(WavError::Unsupported));
}

#[test]
fn incomplete_last_frame_is_rejected_whole() {
    let mut manager = AudioManager::default();
    manager.channel_count = 2;
    assert_eq!(
        manager.serialize_wav(bits(&[0.1, 0.2, 0.3])),
        Err(WavError::UnfinishedSample)
    );
    assert!(manager.serialize_wav(bits(&[0.1, 0.2, 0.3, 0.4])).is_ok());
}

#[test]
fn zero_channels_are_rejected() {
    let mut manager = AudioManager::default();
    manager.channel_count = 0;
    assert_eq!(manager.serialize_wav(bits(&[0.5])), Err(WavError::Unsupported));
    assert_eq!(manager.serialize_wav(VecDeque::new()), Err(WavError::Unsupported));
}

#[test]
fn zero_sample_rate_is_rejected() {
    let mut manager = AudioManager::default();
    manager.sample_rate = 0;
    assert_eq!(manager.serialize_wav(bits(&[0.5])), Err(WavError::Unsupported));
    assert_eq!(manager.serialize_wav(VecDeque::new()), Err(WavError::Unsupported));
}

#[test]
fn byte_rate_overflowing_the_header_field_is_rejected() {
    let mut manager = AudioManager::default();
    manager.sample_rate = u32::MAX;
    manager.channel_count = 2;
    assert_eq!(manager.serialize_wav(bits(&[0.5, 0.25])), Err(WavError::Unsupported));
}

#[test]
fn two_channel_round_trip() {
    let mut manager = AudioManager::default();
    manager.channel_count = 2;
    let values = [0.25f32, -0.5, 0.75, -1.0];
    let encoded = manager.serialize_wav(bits(&values)).unwrap();
    let reader = hound::WavReader::new(std::io::Cursor::new(&encoded)).unwrap();
    assert_eq!(reader.spec().channels, 2);
    let decoded: Vec<f32> = reader.into_samples::<f32>().map(Result::unwrap).collect();
    assert_eq!(
        decoded.iter().map(|d| d.to_bits()).collect::<Vec<u32>>(),
        values.iter().map(|v| v.to_bits()).collect::<Vec<u32>>()
    );
}

#[test]
fn narrow_format_with_no_samples_still_finalizes() {
    let mut manager = AudioManager::default();
    manager.sample_format = SampleFormat::I16;
    let encoded = manager.serialize_wav(VecDeque::new()).unwrap();
    let reader = hound::WavReader::new(std::io::Cursor::new(&encoded)).unwrap();
    assert_eq!(reader.spec().bits_per_sample, 16);
    assert_eq!(reader.len(), 0);
}

#[test]
fn callback_block_pads_with_silence_after_queue_runs_out() {
    let mut queue = bits(&[0.5f32, -0.5]);
    let block = fill_output(&mut queue, 4);
    assert_eq!(block.len(), 4);
    assert_eq!(f32::from_bits(block[0]), 0.5);
    assert_eq!(f32::from_bits(block[1]), -0.5);
    assert_eq!(f32::from_bits(block[2]), 0.0);
    assert_eq!(f32::from_bits(block[3]), 0.0);
    assert!(queue.is_empty());

    let next = fill_output(&mut queue, 3);
    assert_eq!(next, vec![0, 0, 0]);
}

#[test]
fn callback_block_leaves_the_rest_queued() {
    let mut queue = bits(&[1.0f32, 2.0, 3.0, 4.0]);
    let block = fill_output(&mut queue, 2);
    assert_eq!(f32::from_bits(block[0]), 1.0);
    assert_eq!(f32::from_bits(block[1]), 2.0);
    assert_eq!(queue.len(), 2);
    assert_eq!(f32::from_bits(queue[0]), 3.0);
    assert_eq!(f32::from_bits(queue[1]), 4.0);
}
