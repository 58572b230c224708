use rwkv_tts_core::audio::{
    first_channel, get_ref_clip, mel_frame_count, resample_nearest, REF_CLIP_LEN,
};
use rwkv_tts_core::pipeline::{
    conditioning_source, decode_mode, uses_property_tokens, yields_silence,
    ConditioningSource, DecodeMode, LightweightTtsPipeline, TtsErrorKind,
};
use rwkv_tts_core::sampling::{global_top_k_base, phase_rng_source, RngSource};
use rwkv_tts_core::tensors::{
    classify_token_tensor, feature_time_steps, global_tensor_shape, select_token_outputs,
    semantic_tensor_shape, widen_tokens, TokenOutputIndices, TokenTensorRole,
};

#[test]
fn ref_clip_repeats_short_audio() {
    let wav: Vec<f32> = (0..1000).map(|i| i as f32 * 0.001).collect();
    let clip = get_ref_clip(&wav);
    assert_eq!(REF_CLIP_LEN, 96000);
    assert_eq!(clip.len(), 96000);
    assert_eq!(clip[0], 0.0);
    assert_eq!(clip[999], wav[999]);
    assert_eq!(clip[1000], wav[0]);
    assert_eq!(clip[95999], wav[999]);
}

#[test]
fn ref_clip_truncates_long_audio() {
    let wav: Vec<f32> = (0..100000).map(|i| i as f32).collect();
    let clip = get_ref_clip(&wav);
    assert_eq!(clip.len(), 96000);
    assert_eq!(clip[..], wav[..96000]);
    let one = get_ref_clip(&vec![0.5f32]);
    assert_eq!(one.len(), 96000);
    assert!(one.iter().all(|&x| x == 0.5));
}

#[test]
fn mono_takes_first_channel() {
    let stereo = vec![1.0f32, -1.0, 2.0, -2.0, 3.0, -3.0, 4.0];
    assert_eq!(first_channel(&stereo, 2), vec![1.0, 2.0, 3.0]);
    assert_eq!(first_channel(&stereo, 1), stereo);
}

#[test]
fn nearest_neighbour_resampling() {
    let audio = vec![0.0f32, 1.0, 2.0, 3.0, 4.0, 5.0];
    assert_eq!(resample_nearest(&audio, 3), vec![0.0, 2.0, 4.0]);
    assert_eq!(resample_nearest(&audio, 4), vec![0.0, 1.0, 3.0, 4.0]);
    assert_eq!(resample_nearest(&audio, 12)[11], 5.0);
    assert!(resample_nearest(&Vec::<f32>::new(), 0).is_empty());
}

#[test]
fn mel_frames_of_centered_stft() {
    assert_eq!(mel_frame_count(96000), 304);
    assert_eq!(mel_frame_count(0), 4);
    assert_eq!(mel_frame_count(256), 4);
    assert_eq!(mel_frame_count(257), 5);
    assert_eq!(mel_frame_count(320), 5);
}

#[test]
fn text_processing() {
    let p = LightweightTtsPipeline::new();
    assert_eq!(p.process_text("你好 world"), "你好 world");
    assert_eq!(p.process_text_zero_shot("world", "hello "), "hello world");
    assert_eq!(p.process_text_zero_shot("b", ""), "b");
    let _ = LightweightTtsPipeline::default();
}

#[test]
fn codebook_offset_normalization() {
    assert_eq!(
        LightweightTtsPipeline::normalize_codebook_offset(&[8196, 8200, 12291], 8196),
        vec![0, 4, 4095]
    );
    assert_eq!(LightweightTtsPipeline::normalize_codebook_offset(&[5, 9000], 8196), vec![5, 9000]);
    assert!(LightweightTtsPipeline::normalize_codebook_offset(&[], 8196).is_empty());
}

#[test]
fn conditioning_routing() {
    assert_eq!(conditioning_source(true, true, false), ConditioningSource::DirectTokens);
    assert_eq!(conditioning_source(true, true, true), ConditioningSource::DirectTokens);
    assert_eq!(conditioning_source(true, false, true), ConditioningSource::ReferenceAudio);
    assert_eq!(conditioning_source(false, true, false), ConditioningSource::Properties);
    assert!(uses_property_tokens(false, false, false));
    assert!(!uses_property_tokens(false, false, true));
    assert!(!uses_property_tokens(true, true, false));
    assert_eq!(decode_mode(true, true), DecodeMode::ZeroShot);
    assert_eq!(decode_mode(true, false), DecodeMode::Normal);
    assert!(yields_silence(0, 0));
    assert!(!yields_silence(32, 0));
}

#[test]
fn rng_seed_policy() {
    assert_eq!(phase_rng_source(true, Some(42), 1000), RngSource::Seeded(1042));
    assert_eq!(phase_rng_source(true, Some(u64::MAX), 2), RngSource::Seeded(1));
    assert_eq!(phase_rng_source(true, None, 2), RngSource::Entropy);
    assert_eq!(phase_rng_source(false, Some(42), 2), RngSource::Shared);
    assert_eq!(global_top_k_base(0), 20);
    assert_eq!(global_top_k_base(50), 50);
}

#[test]
fn tokenizer_outputs_bound_by_shape() {
    assert_eq!(classify_token_tensor(&vec![1, 50]), TokenTensorRole::Semantic);
    assert_eq!(classify_token_tensor(&vec![1, 1, 32]), TokenTensorRole::Global);
    assert_eq!(classify_token_tensor(&vec![2, 50]), TokenTensorRole::Other);
    assert_eq!(
        select_token_outputs(&vec![vec![1, 1, 32], vec![1, 50]]),
        TokenOutputIndices { semantic: Some(1), global: Some(0) }
    );
    assert_eq!(
        select_token_outputs(&vec![vec![4], vec![2, 2, 2]]),
        TokenOutputIndices { semantic: Some(0), global: Some(1) }
    );
    assert_eq!(
        select_token_outputs(&vec![vec![4]]),
        TokenOutputIndices { semantic: None, global: None }
    );
}

#[test]
fn feature_shape_check() {
    assert_eq!(feature_time_steps(&vec![1, 149, 1024]), Ok(149));
    assert_eq!(feature_time_steps(&vec![1, 149, 768]), Err(TtsErrorKind::ShapeMismatch));
    assert_eq!(feature_time_steps(&vec![149, 1024]), Err(TtsErrorKind::ShapeMismatch));
    assert_eq!(feature_time_steps(&vec![1, -1, 1024]), Err(TtsErrorKind::ShapeMismatch));
}

#[test]
fn vocoder_input_layout() {
    assert_eq!(global_tensor_shape(32), vec![1, 1, 32]);
    assert_eq!(semantic_tensor_shape(7), vec![1, 7]);
    assert_eq!(widen_tokens(&vec![-1, 0, 8191]), vec![-1i64, 0, 8191]);
}
