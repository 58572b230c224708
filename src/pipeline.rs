use vstd::prelude::*;
use vstd::string::StringExecFns;
use crate::tokens::as_ints;

verus! {

/// Where the voice conditioning of a request comes from.
#[derive(Clone, Copy, Debug, PartialEq, Eq, Structural)]
pub enum ConditioningSource {
    /// Global and semantic voice tokens were supplied directly.
    DirectTokens,
    /// Zero-shot: the tokens are extracted from a reference audio file.
    ReferenceAudio,
    /// Normal mode: property tokens (age, gender, emotion, pitch, speed).
    Properties,
}

/// Which decoder handles a request.
#[derive(Clone, Copy, Debug, PartialEq, Eq, Structural)]
pub enum DecodeMode {
    /// The global phase samples 32 tokens.
    Normal,
    /// The global phase replays the reference global tokens.
    ZeroShot,
}

/// Error kinds surfaced by the engine.
#[derive(Clone, Copy, Debug, PartialEq, Eq, Structural)]
pub enum TtsErrorKind {
    InvalidInput,
    UnsupportedAudio,
    ShapeMismatch,
    RuntimeUnavailable,
    InferenceFailed,
}

pub open spec fn all_at_least(s: Seq<i32>, offset: int) -> bool {
    forall|k: int| 0 <= k < s.len() ==> offset <= #[trigger] s[k]
}

/// Tokens carrying a uniform codebook offset are shifted back by it; any other
/// sequence (the empty one included) is left as it is.
pub open spec fn codebook_normalized(s: Seq<i32>, offset: int) -> Seq<int> {
    if s.len() > 0 && all_at_least(s, offset) {
        as_ints(s).map_values(|t: int| t - offset)
    } else {
        as_ints(s)
    }
}

/// Lightweight text-to-speech pipeline over process-wide shared models.
#[derive(Debug)]
pub struct LightweightTtsPipeline {}

impl LightweightTtsPipeline {
    pub fn new() -> (r: Self)
        ensures
            r == (LightweightTtsPipeline {  }),
    {
        LightweightTtsPipeline {  }
    }

    /// Text for normal mode: the text as it is.
    pub fn process_text(&self, text: &str) -> (r: String)
        ensures
            r@ == text@,
    {
        text.to_owned()
    }

    /// Text for zero-shot mode: the reference prompt text immediately followed by the
    /// user text, with no separator.
    pub fn process_text_zero_shot(&self, text: &str, prompt_text: &str) -> (r: String)
        ensures
            r@ == prompt_text@ + text@,
    {
        let combined = prompt_text.to_owned();
        combined.concat(text)
    }

    /// Shifts codebook tokens that all carry `offset` back into the vocoder's index
    /// space; tokens of which any lies below `offset` are returned unchanged.
    pub fn normalize_codebook_offset(tokens: &[i32], offset: i32) -> (r: Vec<i32>)
        requires
            all_at_least(tokens@, offset as int) ==> forall|k: int|
                0 <= k < tokens@.len() ==> #[trigger] tokens@[k] - offset <= i32::MAX,
        ensures
            r@.len() == tokens@.len(),
            as_ints(r@) == codebook_normalized(tokens@, offset as int),
    {
        if tokens.len() == 0 {
            let r: Vec<i32> = Vec::new();
            assert(as_ints(r@) =~= codebook_normalized(tokens@, offset as int));
            return r;
        }
        let mut min_v: i32 = tokens[0];
        let mut i: usize = 1;
        while i < tokens.len()
            invariant
                1 <= i <= tokens@.len(),
                forall|k: int| 0 <= k < i ==> min_v <= #[trigger] tokens@[k],
                exists|k: int| 0 <= k < i && min_v == #[trigger] tokens@[k],
            decreases tokens.len() - i,
        {
            if tokens[i] < min_v {
                min_v = tokens[i];
            }
            i = i + 1;
        }
        let mut r: Vec<i32> = Vec::new();
        if min_v >= offset {
            assert(all_at_least(tokens@, offset as int));
            let mut j: usize = 0;
            while j < tokens.len()
                invariant
                    j <= tokens@.len(),
                    all_at_least(tokens@, offset as int),
                    forall|k: int|
                        0 <= k < tokens@.len() ==> #[trigger] tokens@[k] - offset <= i32::MAX,
                    r@.len() == j,
                    forall|k: int| 0 <= k < j ==> r@[k] == #[trigger] tokens@[k] - offset,
                decreases tokens.len() - j,
            {
                r.push(tokens[j] - offset);
                j = j + 1;
            }
        } else {
            let mut j: usize = 0;
            while j < tokens.len()
                invariant
                    j <= tokens@.len(),
                    r@.len() == j,
                    forall|k: int| 0 <= k < j ==> r@[k] == #[trigger] tokens@[k],
                decreases tokens.len() - j,
            {
                r.push(tokens[j]);
                j = j + 1;
            }
            proof {
                let k0 = choose|k: int| 0 <= k < tokens@.len() && min_v == #[trigger] tokens@[k];
                assert(!(offset <= tokens@[k0]));
            }
        }
        assert(as_ints(r@) =~= codebook_normalized(tokens@, offset as int));
        r
    }
}

impl Default for LightweightTtsPipeline {
    fn default() -> (r: Self)
        ensures
            r == (LightweightTtsPipeline {  }),
    {
        Self::new()
    }
}

/// Conditioning is taken from directly supplied voice tokens when both are present,
/// else from the reference audio in zero-shot mode, else from property tokens.
pub fn conditioning_source(has_voice_global: bool, has_voice_semantic: bool, zero_shot: bool) -> (r:
    ConditioningSource)
    ensures
        r == (if has_voice_global && has_voice_semantic {
            ConditioningSource::DirectTokens
        } else if zero_shot {
            ConditioningSource::ReferenceAudio
        } else {
            ConditioningSource::Properties
        }),
{
    if has_voice_global && has_voice_semantic {
        ConditioningSource::DirectTokens
    } else if zero_shot {
        ConditioningSource::ReferenceAudio
    } else {
        ConditioningSource::Properties
    }
}

/// Property tokens are used only when neither voice tokens nor zero-shot mode apply.
pub fn uses_property_tokens(has_voice_global: bool, has_voice_semantic: bool, zero_shot: bool) -> (r:
    bool)
    ensures
        r == !((has_voice_global && has_voice_semantic) || zero_shot),
{
    !((has_voice_global && has_voice_semantic) || zero_shot)
}

/// A request is decoded zero-shot exactly when both reference token vectors are present.
pub fn decode_mode(has_ref_global: bool, has_ref_semantic: bool) -> (r: DecodeMode)
    ensures
        r == (if has_ref_global && has_ref_semantic {
            DecodeMode::ZeroShot
        } else {
            DecodeMode::Normal
        }),
{
    if has_ref_global && has_ref_semantic {
        DecodeMode::ZeroShot
    } else {
        DecodeMode::Normal
    }
}

/// A decode that produced no token at all is rendered as silence instead of vocoded.
pub fn yields_silence(global_len: usize, semantic_len: usize) -> (r: bool)
    ensures
        r == (global_len == 0 && semantic_len == 0),
{
    global_len == 0 && semantic_len == 0
}

} // verus!
