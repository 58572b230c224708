use rwkv_tts_core::decoder::{
    global_vocab_size, semantic_logit_allowed, DecodePhase, TtsDecoder, GLOBAL_TOKEN_COUNT,
};
use rwkv_tts_core::tokens::{
    build_normal_prefix, build_zero_shot_prefix, clamp_global_tokens, clamp_semantic_tokens,
    GLOBAL_TOKEN_OFFSET, TTS_EOS_TOKEN, TTS_TAG_0, TTS_TAG_1, TTS_TAG_2,
};

fn fill_global(dec: &mut TtsDecoder) {
    for i in 0..GLOBAL_TOKEN_COUNT {
        let feed = dec.on_sample(i * 100);
        if i + 1 < GLOBAL_TOKEN_COUNT {
            assert_eq!(feed, vec![(i * 100) as u32]);
        } else {
            assert_eq!(feed, vec![(i * 100) as u32, TTS_TAG_1 as u32]);
        }
    }
}

#[test]
fn empty_semantic_when_lm_emits_eos() {
    let mut dec = TtsDecoder::normal(500);
    assert_eq!(dec.phase(), DecodePhase::Global);
    fill_global(&mut dec);
    assert_eq!(dec.phase(), DecodePhase::Semantic);
    let feed = dec.on_sample(TTS_EOS_TOKEN as usize);
    assert!(feed.is_empty());
    assert_eq!(dec.phase(), DecodePhase::Done);
    let (global, semantic) = dec.into_tokens();
    assert_eq!(global.len(), 32);
    assert_eq!(global[31], 3100);
    assert!(semantic.is_empty());
}

#[test]
fn semantic_phase_stops_at_max_tokens() {
    let mut dec = TtsDecoder::normal(100);
    fill_global(&mut dec);
    let mut steps = 0;
    while dec.phase() == DecodePhase::Semantic {
        let feed = dec.on_sample(7);
        assert_eq!(feed, vec![7u32]);
        steps += 1;
    }
    assert_eq!(steps, 100);
    let (_, semantic) = dec.into_tokens();
    assert_eq!(semantic.len(), 100);
    assert!(semantic.iter().all(|&t| t == 7));
}

#[test]
fn semantic_limit_is_capped_at_2048() {
    let mut dec = TtsDecoder::normal(8000);
    fill_global(&mut dec);
    let mut steps = 0;
    while dec.phase() == DecodePhase::Semantic {
        dec.on_sample(1);
        steps += 1;
    }
    assert_eq!(steps, 2048);
    assert_eq!(dec.semantic_tokens().len(), 2048);
}

#[test]
fn zero_max_tokens_skips_semantic_phase() {
    let mut dec = TtsDecoder::normal(0);
    fill_global(&mut dec);
    assert_eq!(dec.phase(), DecodePhase::Done);
}

#[test]
fn out_of_range_global_sample_is_resampled() {
    let mut dec = TtsDecoder::normal(10);
    let feed = dec.on_sample(4096);
    assert!(feed.is_empty());
    assert_eq!(dec.phase(), DecodePhase::Global);
    assert!(dec.global_tokens().is_empty());
    let feed = dec.on_sample(4095);
    assert_eq!(feed, vec![4095u32]);
    assert_eq!(dec.global_tokens(), &vec![4095]);
}

#[test]
fn forbidden_range_token_is_masked_and_skipped() {
    let peak = TTS_EOS_TOKEN as usize + 5;
    assert!(!semantic_logit_allowed(peak));
    assert!(semantic_logit_allowed(TTS_EOS_TOKEN as usize));
    assert!(semantic_logit_allowed(0));
    assert!(semantic_logit_allowed(8191));
    assert!(!semantic_logit_allowed(TTS_TAG_0 as usize));
    assert!(!semantic_logit_allowed(TTS_TAG_1 as usize));
    assert!(!semantic_logit_allowed(TTS_TAG_2 as usize));

    let mut dec = TtsDecoder::normal(3);
    fill_global(&mut dec);
    let feed = dec.on_sample(peak);
    assert!(feed.is_empty());
    assert_eq!(dec.phase(), DecodePhase::Semantic);
    dec.on_sample(12);
    dec.on_sample(13);
    assert_eq!(dec.phase(), DecodePhase::Done);
    assert_eq!(dec.semantic_tokens(), &vec![12, 13]);
}

#[test]
fn global_vocab_restricts_to_codebook() {
    assert_eq!(global_vocab_size(65536), 4096);
    assert_eq!(global_vocab_size(4096), 4096);
    assert_eq!(global_vocab_size(100), 100);
}

#[test]
fn zero_shot_replays_clamped_reference() {
    let ref_global = vec![10, 4100, 4095, -3];
    let (mut dec, feed) = TtsDecoder::zero_shot(&ref_global, 50);
    assert_eq!(dec.global_tokens(), &vec![10, 4095, 4095, 0]);
    assert_eq!(feed, vec![10u32, 4095, 4095, 0, TTS_TAG_1 as u32]);
    assert_eq!(dec.phase(), DecodePhase::Semantic);
    dec.on_sample(300);
    dec.on_sample(TTS_EOS_TOKEN as usize);
    let (global, semantic) = dec.into_tokens();
    assert_eq!(global, vec![10, 4095, 4095, 0]);
    assert_eq!(semantic, vec![300]);
}

#[test]
fn zero_shot_prefix_shifts_reference_globals() {
    let prefix = build_zero_shot_prefix(&vec![1, 2], &vec![30], &vec![10, 4100], &vec![5, 9000]);
    let off = GLOBAL_TOKEN_OFFSET as u32;
    assert_eq!(
        prefix,
        vec![
            1,
            2,
            TTS_TAG_2 as u32,
            30,
            TTS_TAG_0 as u32,
            10 + off,
            4095 + off,
            TTS_TAG_1 as u32,
            5,
            8192
        ]
    );
}

#[test]
fn normal_prefix_layout() {
    let prefix = build_normal_prefix(&vec![7, 8, 9], &vec![100, 200]);
    assert_eq!(prefix, vec![7, 8, 9, 8195, 100, 200, 8193]);
    let prefix = build_normal_prefix(&vec![], &vec![]);
    assert_eq!(prefix, vec![8195, 8193]);
}

#[test]
fn clamping_reference_tokens() {
    assert_eq!(clamp_global_tokens(&vec![-1, 0, 4095, 4096]), vec![0, 0, 4095, 4095]);
    assert_eq!(clamp_semantic_tokens(&vec![-5, 8192, 8193]), vec![0, 8192, 8192]);
}

#[test]
fn identical_samples_give_identical_tokens() {
    let samples: Vec<usize> = (0..40).map(|i| (i * 37) % 5000).chain([8192]).collect();
    let run = || {
        let mut dec = TtsDecoder::normal(64);
        let mut fed: Vec<u32> = Vec::new();
        for &s in &samples {
            if dec.phase() == DecodePhase::Done {
                break;
            }
            fed.extend(dec.on_sample(s));
        }
        (dec.into_tokens(), fed)
    };
    let a = run();
    let b = run();
    assert_eq!(a, b);
    let ((global, semantic), _) = a;
    assert!(global.iter().all(|&g| (0..4096).contains(&g)));
    assert!(semantic.iter().all(|&s| (0..8192).contains(&s)));
}
