use musicgpt::token_to_waveform::{
    extract_samples, AudioCodecError, RawAudioOutput, TokenToWaveform,
};

#[test]
fn non_multiple_lengths_are_shape_mismatches() {
    for n in 1..6usize {
        let codec = TokenToWaveform::new(n);
        for extra in 1..n {
            let tokens: Vec<i64> = (0..(2 * n + extra) as i64).collect();
            assert_eq!(
                codec.decoder_input(&tokens),
                Err(AudioCodecError::ShapeMismatch),
                "length {} with {} codebooks",
                tokens.len(),
                n
            );
        }
    }
}

#[test]
fn decoder_input_is_codebook_major() {
    let codec = TokenToWaveform::new(2);
    let tokens = vec![1, 2, 3, 4, 5, 6];
    assert_eq!(codec.decoder_input(&tokens), Ok(vec![1, 3, 5, 2, 4, 6]));
}

#[test]
fn decoder_input_four_codebooks() {
    let codec = TokenToWaveform::new(4);
    let tokens = vec![1, 2, 3, 4, 5, 6, 7, 8];
    assert_eq!(codec.decoder_input(&tokens), Ok(vec![1, 5, 2, 6, 3, 7, 4, 8]));
}

#[test]
fn empty_token_sequence_stays_empty() {
    let codec = TokenToWaveform::new(4);
    assert_eq!(codec.decoder_input(&vec![]), Ok(vec![]));
}

#[test]
fn accepted_samples_pass_through() {
    let sample_bits = vec![0.5f32.to_bits(), (-0.25f32).to_bits()];
    assert_eq!(
        extract_samples(RawAudioOutput::SampleBits(sample_bits.clone())),
        Ok(sample_bits)
    );
}

#[test]
fn missing_output_is_fatal() {
    assert_eq!(
        extract_samples(RawAudioOutput::Missing),
        Err(AudioCodecError::MissingOutput)
    );
}

#[test]
fn unsupported_output_type_is_fatal() {
    assert_eq!(
        extract_samples(RawAudioOutput::UnsupportedType),
        Err(AudioCodecError::UnsupportedOutputType)
    );
}
