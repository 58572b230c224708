use vstd::prelude::*;
use crate::tokens::{
    as_ints, as_ints_u32, clamp_global_tokens, clamp_int, clamp_seq, GLOBAL_MAX, GLOBAL_VOCAB,
    TTS_EOS_TOKEN, TTS_TAG_0, TTS_TAG_1, TTS_TAG_2,
};

verus! {

/// Number of global tokens the global phase produces.
pub const GLOBAL_TOKEN_COUNT: usize = 32;

/// Hard cap on the number of semantic-phase steps.
pub const SEMANTIC_STEP_CAP: usize = 2048;

/// Where the decoder stands.
#[derive(Clone, Copy, Debug, PartialEq, Eq, Structural)]
pub enum DecodePhase {
    /// Sampling the fixed-length speaker/prosody code.
    Global,
    /// Sampling acoustic content until EOS or the step limit.
    Semantic,
    /// Nothing more to sample.
    Done,
}

/// Mathematical state of a decoder.
pub struct DecoderView {
    pub phase: DecodePhase,
    pub global: Seq<i32>,
    pub semantic: Seq<i32>,
    /// Semantic steps taken so far, rejected samples included.
    pub steps: nat,
    /// Semantic step limit: `min(max_tokens, 2048)`.
    pub limit: nat,
}

pub open spec fn semantic_limit_of(max_tokens: nat) -> nat {
    if max_tokens < SEMANTIC_STEP_CAP {
        max_tokens
    } else {
        SEMANTIC_STEP_CAP as nat
    }
}

/// A global sample is kept only inside the global codebook.
pub open spec fn is_global_token(id: int) -> bool {
    0 <= id < GLOBAL_VOCAB
}

/// A semantic sample is kept only inside the semantic codebook (EOS excluded).
pub open spec fn is_semantic_token(id: int) -> bool {
    0 <= id < TTS_EOS_TOKEN
}

pub open spec fn all_global(s: Seq<i32>) -> bool {
    forall|k: int| 0 <= k < s.len() ==> is_global_token(#[trigger] s[k] as int)
}

pub open spec fn all_semantic(s: Seq<i32>) -> bool {
    forall|k: int| 0 <= k < s.len() ==> is_semantic_token(#[trigger] s[k] as int)
}

/// Phase after `steps` semantic steps out of `limit`.
pub open spec fn semantic_or_done(steps: nat, limit: nat) -> DecodePhase {
    if steps >= limit {
        DecodePhase::Done
    } else {
        DecodePhase::Semantic
    }
}

/// The state a normal-mode decode starts in.
pub open spec fn normal_start(max_tokens: nat) -> DecoderView {
    DecoderView {
        phase: DecodePhase::Global,
        global: Seq::empty(),
        semantic: Seq::empty(),
        steps: 0,
        limit: semantic_limit_of(max_tokens),
    }
}

/// The state a zero-shot decode starts in: the global phase is a replay of the
/// clamped reference tokens.
pub open spec fn zero_shot_start(ref_global: Seq<i32>, max_tokens: nat) -> DecoderView {
    DecoderView {
        phase: semantic_or_done(0, semantic_limit_of(max_tokens)),
        global: clamp_seq(ref_global, 0, GLOBAL_MAX as int).map_values(|g: int| g as i32),
        semantic: Seq::empty(),
        steps: 0,
        limit: semantic_limit_of(max_tokens),
    }
}

/// One decoding decision: the state after sampling `id`, and the tokens to feed back
/// into the language model (unshifted).
///
/// In the global phase a sample outside `[0, 4096)` is rejected and resampled at the same
/// step; the 32nd accepted token is followed by `TAG_1`. In the semantic phase every
/// sample takes one step: EOS ends the decode without being kept, a token above EOS is
/// skipped, any other token is kept and fed back.
pub open spec fn step(m: DecoderView, id: int) -> (DecoderView, Seq<u32>) {
    match m.phase {
        DecodePhase::Global => {
            if is_global_token(id) {
                let g = m.global.push(id as i32);
                if g.len() >= GLOBAL_TOKEN_COUNT {
                    (
                        DecoderView { phase: semantic_or_done(0, m.limit), global: g, ..m },
                        seq![id as u32, TTS_TAG_1 as u32],
                    )
                } else {
                    (DecoderView { global: g, ..m }, seq![id as u32])
                }
            } else {
                (m, Seq::empty())
            }
        },
        DecodePhase::Semantic => {
            let steps = m.steps + 1;
            if id == TTS_EOS_TOKEN {
                (DecoderView { phase: DecodePhase::Done, steps: steps, ..m }, Seq::empty())
            } else if is_semantic_token(id) {
                (
                    DecoderView {
                        phase: semantic_or_done(steps, m.limit),
                        semantic: m.semantic.push(id as i32),
                        steps: steps,
                        ..m
                    },
                    seq![id as u32],
                )
            } else {
                (
                    DecoderView { phase: semantic_or_done(steps, m.limit), steps: steps, ..m },
                    Seq::empty(),
                )
            }
        },
        DecodePhase::Done => (m, Seq::empty()),
    }
}

/// The state after feeding the samples `ids` one after another.
pub open spec fn run(m: DecoderView, ids: Seq<int>) -> DecoderView
    decreases ids.len(),
{
    if ids.len() == 0 {
        m
    } else {
        run(step(m, ids[0]).0, ids.drop_first())
    }
}

/// The range and length guarantees every reachable state keeps.
pub open spec fn view_wf(m: DecoderView) -> bool {
    &&& all_global(m.global)
    &&& all_semantic(m.semantic)
    &&& m.semantic.len() <= m.steps <= m.limit <= SEMANTIC_STEP_CAP
    &&& (m.phase == DecodePhase::Global ==> m.global.len() < GLOBAL_TOKEN_COUNT && m.steps == 0)
    &&& (m.phase == DecodePhase::Semantic ==> m.steps < m.limit)
}

/// One decoding decision keeps the range and length guarantees.
pub proof fn lemma_step_keeps_wf(m: DecoderView, id: int)
    requires
        view_wf(m),
    ensures
        view_wf(step(m, id).0),
{
    let m2 = step(m, id).0;
    if m.phase == DecodePhase::Global && is_global_token(id) {
        assert forall|k: int| 0 <= k < m2.global.len() implies is_global_token(
            #[trigger] m2.global[k] as int,
        ) by {
            if k < m.global.len() {
                assert(m2.global[k] == m.global[k]);
            }
        }
    }
    if m.phase == DecodePhase::Semantic && is_semantic_token(id) {
        assert forall|k: int| 0 <= k < m2.semantic.len() implies is_semantic_token(
            #[trigger] m2.semantic[k] as int,
        ) by {
            if k < m.semantic.len() {
                assert(m2.semantic[k] == m.semantic[k]);
            }
        }
    }
}

/// Every state reached from a well-formed state by any samples is well-formed.
pub proof fn lemma_run_keeps_wf(m: DecoderView, ids: Seq<int>)
    requires
        view_wf(m),
    ensures
        view_wf(run(m, ids)),
        run(m, ids).limit == m.limit,
    decreases ids.len(),
{
    if ids.len() > 0 {
        lemma_step_keeps_wf(m, ids[0]);
        lemma_run_keeps_wf(step(m, ids[0]).0, ids.drop_first());
    }
}

/// Whatever the language model and sampler produce, a normal-mode decode only keeps
/// global tokens in `[0, 4096)` and semantic tokens in `[0, 8192)`, and keeps at most
/// `min(max_tokens, 2048)` semantic tokens.
pub proof fn lemma_normal_decode_ranges(max_tokens: nat, ids: Seq<int>)
    ensures
        all_global(run(normal_start(max_tokens), ids).global),
        all_semantic(run(normal_start(max_tokens), ids).semantic),
        run(normal_start(max_tokens), ids).semantic.len() <= semantic_limit_of(max_tokens),
{
    lemma_run_keeps_wf(normal_start(max_tokens), ids);
}

/// Past the global phase, a normal-mode state holds exactly `GLOBAL_TOKEN_COUNT` global tokens.
pub open spec fn global_phase_complete(m: DecoderView) -> bool {
    m.phase != DecodePhase::Global ==> m.global.len() == GLOBAL_TOKEN_COUNT
}

proof fn lemma_run_keeps_global_count(m: DecoderView, ids: Seq<int>)
    requires
        view_wf(m),
        global_phase_complete(m),
    ensures
        global_phase_complete(run(m, ids)),
    decreases ids.len(),
{
    if ids.len() > 0 {
        lemma_step_keeps_wf(m, ids[0]);
        lemma_run_keeps_global_count(step(m, ids[0]).0, ids.drop_first());
    }
}

/// Whatever the language model and sampler produce, once a normal-mode decode has left
/// the global phase it holds exactly 32 global tokens.
pub proof fn lemma_normal_decode_global_count(max_tokens: nat, ids: Seq<int>)
    ensures
        run(normal_start(max_tokens), ids).phase != DecodePhase::Global ==> run(
            normal_start(max_tokens),
            ids,
        ).global.len() == GLOBAL_TOKEN_COUNT,
{
    lemma_run_keeps_global_count(normal_start(max_tokens), ids);
}

/// Once past the global phase, no sample changes the global tokens.
pub proof fn lemma_run_keeps_global(m: DecoderView, ids: Seq<int>)
    requires
        m.phase != DecodePhase::Global,
    ensures
        run(m, ids).global == m.global,
        run(m, ids).phase != DecodePhase::Global,
    decreases ids.len(),
{
    if ids.len() > 0 {
        lemma_run_keeps_global(step(m, ids[0]).0, ids.drop_first());
    }
}

/// Whatever the language model and sampler produce, a zero-shot decode returns as
/// global tokens exactly the reference global tokens clamped to `[0, 4095]`, only
/// semantic tokens in `[0, 8192)`, and at most `min(max_tokens, 2048)` of them.
pub proof fn lemma_zero_shot_decode(ref_global: Seq<i32>, max_tokens: nat, ids: Seq<int>)
    ensures
        as_ints(run(zero_shot_start(ref_global, max_tokens), ids).global) == clamp_seq(
            ref_global,
            0,
            GLOBAL_MAX as int,
        ),
        all_semantic(run(zero_shot_start(ref_global, max_tokens), ids).semantic),
        run(zero_shot_start(ref_global, max_tokens), ids).semantic.len() <= semantic_limit_of(
            max_tokens,
        ),
{
    let m = zero_shot_start(ref_global, max_tokens);
    let cs = clamp_seq(ref_global, 0, GLOBAL_MAX as int);
    assert forall|k: int| 0 <= k < m.global.len() implies is_global_token(
        #[trigger] m.global[k] as int,
    ) by {
        assert(cs[k] == clamp_int(ref_global[k] as int, 0, GLOBAL_MAX as int));
    }
    assert(m.semantic =~= Seq::<i32>::empty());
    lemma_run_keeps_wf(m, ids);
    lemma_run_keeps_global(m, ids);
    assert forall|k: int| 0 <= k < m.global.len() implies (m.global[k] as int) == cs[k] by {
        assert(cs[k] == clamp_int(ref_global[k] as int, 0, GLOBAL_MAX as int));
    }
    assert(as_ints(m.global) =~= cs);
}

/// Whether index `j` of the logits may be sampled in the semantic phase: everything
/// above EOS and the three phase tags are masked; EOS itself is not.
pub open spec fn semantic_index_allowed(j: int) -> bool {
    j <= TTS_EOS_TOKEN && j != TTS_TAG_0 && j != TTS_TAG_1 && j != TTS_TAG_2
}

/// Two-phase decoder: decides, for each sampled token, what is kept and what is fed
/// back to the language model.
pub struct TtsDecoder {
    phase: DecodePhase,
    global_tokens: Vec<i32>,
    semantic_tokens: Vec<i32>,
    steps: usize,
    limit: usize,
}

impl View for TtsDecoder {
    type V = DecoderView;

    closed spec fn view(&self) -> DecoderView {
        DecoderView {
            phase: self.phase,
            global: self.global_tokens@,
            semantic: self.semantic_tokens@,
            steps: self.steps as nat,
            limit: self.limit as nat,
        }
    }
}

/// Number of leading logits the global phase samples from: `min(4096, len)`.
pub fn global_vocab_size(logits_len: usize) -> (r: usize)
    ensures
        r as int == if logits_len < GLOBAL_VOCAB { logits_len as int } else { GLOBAL_VOCAB as int },
{
    if logits_len < GLOBAL_VOCAB as usize {
        logits_len
    } else {
        GLOBAL_VOCAB as usize
    }
}

/// Whether the semantic-phase mask leaves logit `j` sampleable.
pub fn semantic_logit_allowed(j: usize) -> (r: bool)
    ensures
        r == semantic_index_allowed(j as int),
{
    j <= TTS_EOS_TOKEN as usize && j != TTS_TAG_0 as usize && j != TTS_TAG_1 as usize && j
        != TTS_TAG_2 as usize
}

fn semantic_limit(max_tokens: usize) -> (r: usize)
    ensures
        r as nat == semantic_limit_of(max_tokens as nat),
{
    if max_tokens < SEMANTIC_STEP_CAP {
        max_tokens
    } else {
        SEMANTIC_STEP_CAP
    }
}

impl TtsDecoder {
    pub closed spec fn wf(&self) -> bool {
        view_wf(self@)
    }

    /// A decoder for normal mode: the global phase samples 32 tokens.
    pub fn normal(max_tokens: usize) -> (r: TtsDecoder)
        ensures
            r@ == normal_start(max_tokens as nat),
            r.wf(),
    {
        let r = TtsDecoder {
            phase: DecodePhase::Global,
            global_tokens: Vec::new(),
            semantic_tokens: Vec::new(),
            steps: 0,
            limit: semantic_limit(max_tokens),
        };
        assert(r@.global =~= Seq::<i32>::empty());
        assert(r@.semantic =~= Seq::<i32>::empty());
        r
    }

    /// A decoder for zero-shot mode. The global tokens are the reference tokens clamped
    /// to `[0, 4095]`; the second result is what to feed the language model before the
    /// semantic phase: those tokens, unshifted, then `TAG_1`.
    pub fn zero_shot(ref_global: &Vec<i32>, max_tokens: usize) -> (r: (TtsDecoder, Vec<u32>))
        ensures
            r.0@ == zero_shot_start(ref_global@, max_tokens as nat),
            r.0.wf(),
            as_ints_u32(r.1@) == clamp_seq(ref_global@, 0, GLOBAL_MAX as int).push(
                TTS_TAG_1 as int,
            ),
    {
        let global = clamp_global_tokens(ref_global);
        let limit = semantic_limit(max_tokens);
        let mut feed: Vec<u32> = Vec::new();
        let mut i: usize = 0;
        while i < global.len()
            invariant
                i <= global.len(),
                as_ints(global@) == clamp_seq(ref_global@, 0, GLOBAL_MAX as int),
                feed@.len() == i,
                forall|k: int| 0 <= k < i ==> feed@[k] as int == #[trigger] global@[k] as int,
            decreases global.len() - i,
        {
            assert(as_ints(global@)[i as int] == global@[i as int] as int);
            assert(as_ints(global@).len() == global@.len());
            assert(clamp_seq(ref_global@, 0, GLOBAL_MAX as int)[i as int] == clamp_int(
                ref_global@[i as int] as int,
                0,
                GLOBAL_MAX as int,
            ));
            feed.push(global[i] as u32);
            i = i + 1;
        }
        feed.push(TTS_TAG_1 as u32);
        let phase = if limit == 0 {
            DecodePhase::Done
        } else {
            DecodePhase::Semantic
        };
        let r = TtsDecoder {
            phase,
            global_tokens: global,
            semantic_tokens: Vec::new(),
            steps: 0,
            limit,
        };
        proof {
            let cs = clamp_seq(ref_global@, 0, GLOBAL_MAX as int);
            assert forall|k: int| 0 <= k < global@.len() implies global@[k] == cs[k] as i32 by {
                assert(as_ints(global@)[k] == cs[k]);
            }
            assert(r@.global =~= cs.map_values(|g: int| g as i32));
            assert(r@.semantic =~= Seq::<i32>::empty());
            assert forall|k: int| 0 <= k < global@.len() implies is_global_token(
                #[trigger] global@[k] as int,
            ) by {
                assert(as_ints(global@)[k] == cs[k]);
            }
            assert(as_ints_u32(feed@) =~= cs.push(TTS_TAG_1 as int)) by {
                assert forall|k: int| 0 <= k < global@.len() implies feed@[k] as int == cs[k] by {
                    assert(as_ints(global@)[k] == cs[k]);
                }
            }
        }
        (r, feed)
    }

    pub fn phase(&self) -> (r: DecodePhase)
        ensures
            r == self@.phase,
    {
        self.phase
    }

    /// Applies one sampled token; returns the tokens to feed back to the language model.
    pub fn on_sample(&mut self, id: usize) -> (feed: Vec<u32>)
        requires
            old(self).wf(),
        ensures
            final(self).wf(),
            final(self)@ == step(old(self)@, id as int).0,
            feed@ == step(old(self)@, id as int).1,
    {
        let ghost m = self@;
        let mut feed: Vec<u32> = Vec::new();
        match self.phase {
            DecodePhase::Global => {
                if id < GLOBAL_VOCAB as usize {
                    self.global_tokens.push(id as i32);
                    feed.push(id as u32);
                    if self.global_tokens.len() >= GLOBAL_TOKEN_COUNT {
                        feed.push(TTS_TAG_1 as u32);
                        self.phase =
                            if self.limit == 0 {
                                DecodePhase::Done
                            } else {
                                DecodePhase::Semantic
                            };
                    }
                }
            },
            DecodePhase::Semantic => {
                self.steps = self.steps + 1;
                if id == TTS_EOS_TOKEN as usize {
                    self.phase = DecodePhase::Done;
                } else {
                    if id < TTS_EOS_TOKEN as usize {
                        self.semantic_tokens.push(id as i32);
                        feed.push(id as u32);
                    }
                    if self.steps >= self.limit {
                        self.phase = DecodePhase::Done;
                    }
                }
            },
            DecodePhase::Done => {},
        }
        proof {
            let (m2, f) = step(m, id as int);
            assert(self@.global =~= m2.global);
            assert(self@.semantic =~= m2.semantic);
            assert(feed@ =~= f);
        }
        feed
    }

    pub fn global_tokens(&self) -> (r: &Vec<i32>)
        ensures
            r@ == self@.global,
    {
        &self.global_tokens
    }

    pub fn semantic_tokens(&self) -> (r: &Vec<i32>)
        ensures
            r@ == self@.semantic,
    {
        &self.semantic_tokens
    }

    /// Hands out `(global_tokens, semantic_tokens)`.
    pub fn into_tokens(self) -> (r: (Vec<i32>, Vec<i32>))
        requires
            self.wf(),
        ensures
            r.0@ == self@.global,
            r.1@ == self@.semantic,
            all_global(r.0@),
            all_semantic(r.1@),
            r.1@.len() <= self@.limit,
    {
        (self.global_tokens, self.semantic_tokens)
    }
}

} // verus!
