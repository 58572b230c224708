use vstd::prelude::*;
use crate::pipeline::TtsErrorKind;

verus! {

/// Feature dimension of the wav2vec2 output.
pub const FEATURE_DIM: i64 = 1024;

/// What an output tensor of the speech tokenizer holds, judged by its shape.
#[derive(Clone, Copy, Debug, PartialEq, Eq, Structural)]
pub enum TokenTensorRole {
    /// Shape `[1, L]`.
    Semantic,
    /// Shape `[1, 1, N]`.
    Global,
    /// Any other shape.
    Other,
}

pub open spec fn role_of(shape: Seq<i64>) -> TokenTensorRole {
    if shape.len() == 2 && shape[0] == 1 {
        TokenTensorRole::Semantic
    } else if shape.len() == 3 && shape[0] == 1 && shape[1] == 1 {
        TokenTensorRole::Global
    } else {
        TokenTensorRole::Other
    }
}

/// Index of the last of the first `n` shapes with the given role.
pub open spec fn last_with_role(shapes: Seq<Vec<i64>>, role: TokenTensorRole, n: int) -> Option<
    usize,
>
    decreases n,
{
    if n <= 0 {
        None
    } else if role_of(shapes[n - 1]@) == role {
        Some((n - 1) as usize)
    } else {
        last_with_role(shapes, role, n - 1)
    }
}

/// Which tokenizer outputs hold the semantic and the global tokens.
#[derive(Clone, Copy, Debug, PartialEq, Eq, Structural)]
pub struct TokenOutputIndices {
    pub semantic: Option<usize>,
    pub global: Option<usize>,
}

pub open spec fn token_outputs_spec(shapes: Seq<Vec<i64>>) -> TokenOutputIndices {
    let s = last_with_role(shapes, TokenTensorRole::Semantic, shapes.len() as int);
    let g = last_with_role(shapes, TokenTensorRole::Global, shapes.len() as int);
    if s is None && g is None && shapes.len() >= 2 {
        TokenOutputIndices { semantic: Some(0), global: Some(1) }
    } else {
        TokenOutputIndices { semantic: s, global: g }
    }
}

/// The role a tokenizer output plays, from its shape.
pub fn classify_token_tensor(shape: &Vec<i64>) -> (r: TokenTensorRole)
    ensures
        r == role_of(shape@),
{
    if shape.len() == 2 && shape[0] == 1 {
        TokenTensorRole::Semantic
    } else if shape.len() == 3 && shape[0] == 1 && shape[1] == 1 {
        TokenTensorRole::Global
    } else {
        TokenTensorRole::Other
    }
}

/// Binds the tokenizer's outputs by shape (the last match of each role wins); when
/// no output matches either role and there are at least two, falls back to position:
/// output 0 is semantic, output 1 is global.
pub fn select_token_outputs(shapes: &Vec<Vec<i64>>) -> (r: TokenOutputIndices)
    ensures
        r == token_outputs_spec(shapes@),
{
    let mut semantic: Option<usize> = None;
    let mut global: Option<usize> = None;
    let mut i: usize = 0;
    while i < shapes.len()
        invariant
            i <= shapes@.len(),
            semantic == last_with_role(shapes@, TokenTensorRole::Semantic, i as int),
            global == last_with_role(shapes@, TokenTensorRole::Global, i as int),
        decreases shapes.len() - i,
    {
        let role = classify_token_tensor(&shapes[i]);
        match role {
            TokenTensorRole::Semantic => {
                semantic = Some(i);
            },
            TokenTensorRole::Global => {
                global = Some(i);
            },
            TokenTensorRole::Other => {},
        }
        i = i + 1;
    }
    if semantic.is_none() && global.is_none() && shapes.len() >= 2 {
        TokenOutputIndices { semantic: Some(0), global: Some(1) }
    } else {
        TokenOutputIndices { semantic, global }
    }
}

/// Number of time steps of a wav2vec2 output, which must have shape `[1, T, 1024]`.
pub fn feature_time_steps(shape: &Vec<i64>) -> (r: Result<usize, TtsErrorKind>)
    ensures
        r is Ok <==> (shape@.len() == 3 && shape@[0] == 1 && shape@[2] == FEATURE_DIM && 0
            <= shape@[1] <= usize::MAX),
        r is Ok ==> r->Ok_0 as int == shape@[1] as int,
        r is Err ==> r->Err_0 == TtsErrorKind::ShapeMismatch,
{
    if shape.len() == 3 && shape[0] == 1 && shape[2] == FEATURE_DIM && shape[1] >= 0 && shape[1]
        as u64 <= usize::MAX as u64 {
        Ok(shape[1] as usize)
    } else {
        Err(TtsErrorKind::ShapeMismatch)
    }
}

/// Shape `[1, 1, n]` of the global-token input of the vocoder.
pub fn global_tensor_shape(n: usize) -> (r: Vec<i64>)
    requires
        n <= i64::MAX,
    ensures
        r@ == seq![1i64, 1i64, n as i64],
{
    let r: Vec<i64> = vec![1i64, 1i64, n as i64];
    assert(r@ =~= seq![1i64, 1i64, n as i64]);
    r
}

/// Shape `[1, n]` of the semantic-token input of the vocoder.
pub fn semantic_tensor_shape(n: usize) -> (r: Vec<i64>)
    requires
        n <= i64::MAX,
    ensures
        r@ == seq![1i64, n as i64],
{
    let r: Vec<i64> = vec![1i64, n as i64];
    assert(r@ =~= seq![1i64, n as i64]);
    r
}

/// Tokens widened to the vocoder's `i64` element type.
pub fn widen_tokens(tokens: &Vec<i32>) -> (r: Vec<i64>)
    ensures
        r@.len() == tokens@.len(),
        forall|k: int| 0 <= k < tokens@.len() ==> r@[k] as int == #[trigger] tokens@[k] as int,
{
    let mut r: Vec<i64> = Vec::with_capacity(tokens.len());
    let mut i: usize = 0;
    while i < tokens.len()
        invariant
            i <= tokens@.len(),
            r@.len() == i,
            forall|k: int| 0 <= k < i ==> r@[k] as int == #[trigger] tokens@[k] as int,
        decreases tokens.len() - i,
    {
        r.push(tokens[i] as i64);
        i = i + 1;
    }
    r
}

} // verus!
