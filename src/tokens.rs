use vstd::prelude::*;

verus! {

/// Size of the global-token codebook: global tokens lie in `[0, GLOBAL_VOCAB)`.
pub const GLOBAL_VOCAB: i32 = 4096;

/// End-of-sequence sentinel of the semantic phase; semantic tokens lie in `[0, TTS_EOS_TOKEN)`.
pub const TTS_EOS_TOKEN: i32 = 8192;

/// Phase tag that opens the global phase.
pub const TTS_TAG_0: i32 = 8193;

/// Phase tag that opens the semantic phase.
pub const TTS_TAG_1: i32 = 8194;

/// Phase tag that opens the text.
pub const TTS_TAG_2: i32 = 8195;

/// Shift applied to reference global tokens when they are prefilled in zero-shot mode.
pub const GLOBAL_TOKEN_OFFSET: i32 = 8196;

/// Largest legal global token.
pub const GLOBAL_MAX: i32 = 4095;

pub open spec fn clamp_int(t: int, lo: int, hi: int) -> int {
    if t < lo {
        lo
    } else if t > hi {
        hi
    } else {
        t
    }
}

/// Every element clamped into `[lo, hi]`.
pub open spec fn clamp_seq(s: Seq<i32>, lo: int, hi: int) -> Seq<int> {
    s.map_values(|t: i32| clamp_int(t as int, lo, hi))
}

pub open spec fn as_ints(s: Seq<i32>) -> Seq<int> {
    s.map_values(|t: i32| t as int)
}

pub open spec fn as_ints_u32(s: Seq<u32>) -> Seq<int> {
    s.map_values(|t: u32| t as int)
}

/// `property ++ [TAG_2] ++ text ++ [TAG_0]`, the prefix shared by both decoding modes.
pub open spec fn normal_prefix(property: Seq<i32>, text: Seq<i32>) -> Seq<int> {
    as_ints(property) + seq![TTS_TAG_2 as int] + as_ints(text) + seq![TTS_TAG_0 as int]
}

/// The zero-shot prefix: the normal prefix, then the clamped reference global tokens
/// shifted by `GLOBAL_TOKEN_OFFSET`, then `TAG_1`, then the clamped reference semantic tokens.
pub open spec fn zero_shot_prefix(
    property: Seq<i32>,
    text: Seq<i32>,
    ref_global: Seq<i32>,
    ref_semantic: Seq<i32>,
) -> Seq<int> {
    normal_prefix(property, text) + clamp_seq(ref_global, 0, GLOBAL_MAX as int).map_values(
        |g: int| g + GLOBAL_TOKEN_OFFSET,
    ) + seq![TTS_TAG_1 as int] + clamp_seq(ref_semantic, 0, TTS_EOS_TOKEN as int)
}

/// Layout of the zero-shot prefill: after `property ++ [TAG_2] ++ text ++ [TAG_0]` come,
/// in order, each reference global token clamped to `[0, 4095]` and shifted by
/// `GLOBAL_TOKEN_OFFSET`, then `TAG_1`, then each reference semantic token clamped to
/// `[0, 8192]`, unshifted.
pub proof fn lemma_zero_shot_prefix_layout(
    property: Seq<i32>,
    text: Seq<i32>,
    ref_global: Seq<i32>,
    ref_semantic: Seq<i32>,
)
    ensures
        ({
            let p = zero_shot_prefix(property, text, ref_global, ref_semantic);
            let n: int = property.len() as int + text.len() as int + 2;
            &&& p.len() == n + ref_global.len() + 1 + ref_semantic.len()
            &&& p.subrange(0, n) == normal_prefix(property, text)
            &&& forall|k: int|
                0 <= k < ref_global.len() ==> p[n + k] == clamp_int(
                    #[trigger] ref_global[k] as int,
                    0,
                    GLOBAL_MAX as int,
                ) + GLOBAL_TOKEN_OFFSET
            &&& p[n + ref_global.len() as int] == TTS_TAG_1 as int
            &&& forall|k: int|
                0 <= k < ref_semantic.len() ==> p[n + ref_global.len() as int + 1 + k] == clamp_int(
                    #[trigger] ref_semantic[k] as int,
                    0,
                    TTS_EOS_TOKEN as int,
                )
        }),
{
    let p = zero_shot_prefix(property, text, ref_global, ref_semantic);
    let np = normal_prefix(property, text);
    let n: int = property.len() as int + text.len() as int + 2;
    assert(np.len() == n);
    assert(p.subrange(0, n) =~= np);
    let cg = clamp_seq(ref_global, 0, GLOBAL_MAX as int);
    let cs = clamp_seq(ref_semantic, 0, TTS_EOS_TOKEN as int);
    assert forall|k: int| 0 <= k < ref_global.len() implies p[n + k] == clamp_int(
        #[trigger] ref_global[k] as int,
        0,
        GLOBAL_MAX as int,
    ) + GLOBAL_TOKEN_OFFSET by {
        assert(cg[k] == clamp_int(ref_global[k] as int, 0, GLOBAL_MAX as int));
    }
    assert forall|k: int| 0 <= k < ref_semantic.len() implies p[n + ref_global.len() as int + 1 + k]
        == clamp_int(#[trigger] ref_semantic[k] as int, 0, TTS_EOS_TOKEN as int) by {
        assert(cs[k] == clamp_int(ref_semantic[k] as int, 0, TTS_EOS_TOKEN as int));
    }
}

/// Clamps every token into `[lo, hi]`.
pub fn clamp_tokens(tokens: &Vec<i32>, lo: i32, hi: i32) -> (r: Vec<i32>)
    requires
        lo <= hi,
    ensures
        as_ints(r@) == clamp_seq(tokens@, lo as int, hi as int),
{
    let mut r: Vec<i32> = Vec::new();
    let mut i: usize = 0;
    while i < tokens.len()
        invariant
            i <= tokens.len(),
            lo <= hi,
            r@.len() == i,
            forall|k: int|
                0 <= k < i ==> r@[k] as int == clamp_int(#[trigger] tokens@[k] as int, lo as int, hi as int),
        decreases tokens.len() - i,
    {
        let t = tokens[i];
        let c: i32 = if t < lo {
            lo
        } else if t > hi {
            hi
        } else {
            t
        };
        r.push(c);
        i = i + 1;
    }
    assert(as_ints(r@) =~= clamp_seq(tokens@, lo as int, hi as int));
    r
}

/// Reference global tokens clamped into the global codebook `[0, 4095]`.
pub fn clamp_global_tokens(tokens: &Vec<i32>) -> (r: Vec<i32>)
    ensures
        as_ints(r@) == clamp_seq(tokens@, 0, GLOBAL_MAX as int),
{
    clamp_tokens(tokens, 0, GLOBAL_MAX)
}

/// Reference semantic tokens clamped into `[0, 8192]` (the EOS sentinel included).
pub fn clamp_semantic_tokens(tokens: &Vec<i32>) -> (r: Vec<i32>)
    ensures
        as_ints(r@) == clamp_seq(tokens@, 0, TTS_EOS_TOKEN as int),
{
    clamp_tokens(tokens, 0, TTS_EOS_TOKEN)
}

fn append_ints(out: &mut Vec<u32>, src: &Vec<i32>, shift: i32)
    requires
        forall|k: int| 0 <= k < src@.len() ==> 0 <= #[trigger] src@[k] + shift <= u32::MAX,
    ensures
        final(out)@.len() == old(out)@.len() + src@.len(),
        forall|k: int| 0 <= k < old(out)@.len() ==> final(out)@[k] == old(out)@[k],
        forall|k: int|
            0 <= k < src@.len() ==> final(out)@[old(out)@.len() + k] as int == #[trigger] src@[k]
                + shift,
{
    let ghost start = out@;
    let mut i: usize = 0;
    while i < src.len()
        invariant
            i <= src.len(),
            forall|k: int| 0 <= k < src@.len() ==> 0 <= #[trigger] src@[k] + shift <= u32::MAX,
            out@.len() == start.len() + i,
            forall|k: int| 0 <= k < start.len() ==> out@[k] == start[k],
            forall|k: int| 0 <= k < i ==> out@[start.len() + k] as int == #[trigger] src@[k] + shift,
        decreases src.len() - i,
    {
        let v: i64 = src[i] as i64 + shift as i64;
        out.push(v as u32);
        i = i + 1;
    }
}

/// Builds the normal-mode prefill sequence `property ++ [TAG_2] ++ text ++ [TAG_0]`
/// in the unsigned form the language model consumes.
pub fn build_normal_prefix(property_tokens: &Vec<i32>, text_tokens: &Vec<i32>) -> (r: Vec<u32>)
    requires
        forall|k: int| 0 <= k < property_tokens@.len() ==> 0 <= property_tokens@[k],
        forall|k: int| 0 <= k < text_tokens@.len() ==> 0 <= text_tokens@[k],
    ensures
        as_ints_u32(r@) == normal_prefix(property_tokens@, text_tokens@),
{
    let mut r: Vec<u32> = Vec::new();
    append_ints(&mut r, property_tokens, 0);
    r.push(TTS_TAG_2 as u32);
    append_ints(&mut r, text_tokens, 0);
    r.push(TTS_TAG_0 as u32);
    assert(as_ints_u32(r@) =~= normal_prefix(property_tokens@, text_tokens@));
    r
}

/// Builds the zero-shot prefill sequence: the normal prefix, the clamped reference
/// global tokens shifted by `GLOBAL_TOKEN_OFFSET`, `TAG_1`, then the clamped reference
/// semantic tokens.
pub fn build_zero_shot_prefix(
    property_tokens: &Vec<i32>,
    text_tokens: &Vec<i32>,
    ref_global: &Vec<i32>,
    ref_semantic: &Vec<i32>,
) -> (r: Vec<u32>)
    requires
        forall|k: int| 0 <= k < property_tokens@.len() ==> 0 <= property_tokens@[k],
        forall|k: int| 0 <= k < text_tokens@.len() ==> 0 <= text_tokens@[k],
    ensures
        as_ints_u32(r@) == zero_shot_prefix(property_tokens@, text_tokens@, ref_global@, ref_semantic@),
{
    let global = clamp_global_tokens(ref_global);
    let semantic = clamp_semantic_tokens(ref_semantic);
    let ghost cg = clamp_seq(ref_global@, 0, GLOBAL_MAX as int);
    let ghost cs = clamp_seq(ref_semantic@, 0, TTS_EOS_TOKEN as int);
    proof {
        assert forall|k: int| 0 <= k < global@.len() implies #[trigger] global@[k] as int == cg[k]
            && 0 <= cg[k] <= GLOBAL_MAX by {
            assert(as_ints(global@).len() == global@.len());
            assert(as_ints(global@)[k] == cg[k]);
            assert(cg[k] == clamp_int(ref_global@[k] as int, 0, GLOBAL_MAX as int));
        }
        assert forall|k: int| 0 <= k < semantic@.len() implies #[trigger] semantic@[k] as int == cs[k]
            && 0 <= cs[k] <= TTS_EOS_TOKEN by {
            assert(as_ints(semantic@).len() == semantic@.len());
            assert(as_ints(semantic@)[k] == cs[k]);
            assert(cs[k] == clamp_int(ref_semantic@[k] as int, 0, TTS_EOS_TOKEN as int));
        }
    }
    let mut r = build_normal_prefix(property_tokens, text_tokens);
    let ghost n = r@.len();
    append_ints(&mut r, &global, GLOBAL_TOKEN_OFFSET);
    r.push(TTS_TAG_1 as u32);
    let ghost n2 = r@.len();
    append_ints(&mut r, &semantic, 0);
    proof {
        let np = normal_prefix(property_tokens@, text_tokens@);
        let shifted = cg.map_values(|g: int| g + GLOBAL_TOKEN_OFFSET);
        let want = zero_shot_prefix(property_tokens@, text_tokens@, ref_global@, ref_semantic@);
        assert(want == np + shifted + seq![TTS_TAG_1 as int] + cs);
        assert forall|k: int| 0 <= k < as_ints_u32(r@).len() implies as_ints_u32(r@)[k] == want[k] by {
            if k < n {
                assert(as_ints_u32(r@)[k] == np[k]);
            } else if k < n + global@.len() {
                assert(r@[k] as int == global@[k - n] + GLOBAL_TOKEN_OFFSET);
            } else if k == n + global@.len() {
            } else {
                assert(r@[k] as int == semantic@[k - n2] + 0);
            }
        }
        assert(as_ints_u32(r@) =~= want);
    }
    r
}

} // verus!
