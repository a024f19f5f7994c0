pub mod audio_manager;
pub mod decode_loop;
pub mod delay_pattern_mask_ids;
pub mod fetch_remote_data_file;
pub mod music_gen_inputs;
pub mod music_gen_outputs;
pub mod music_gen_text_encoder;
pub mod token_to_waveform;
