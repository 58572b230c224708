use vstd::prelude::*;

verus! {

/// Sample rate every model in the pipeline works at.
pub const SAMPLE_RATE: usize = 16000;

/// Hop length of the speech tokenizer's latent frames.
pub const LATENT_HOP: usize = 320;

/// Length of the reference clip: six seconds, rounded down to whole latent hops.
pub const REF_CLIP_LEN: usize = 6 * SAMPLE_RATE / LATENT_HOP * LATENT_HOP;

/// FFT size of the mel spectrogram; the signal is zero-padded by half of it on each side.
pub const MEL_N_FFT: usize = 1024;

/// Hop length of the mel spectrogram.
pub const MEL_HOP: usize = 320;

/// Number of mel bands.
pub const MEL_BANDS: usize = 128;

/// Length of silence returned when a decode yields no token at all.
pub const SILENCE_SAMPLES: usize = 16000;

/// The reference clip of `wav`: `wav` repeated as often as needed, cut to `REF_CLIP_LEN`.
pub open spec fn ref_clip<T>(wav: Seq<T>) -> Seq<T> {
    Seq::new(REF_CLIP_LEN as nat, |i: int| wav[i % (wav.len() as int)])
}

/// The first channel of interleaved audio with `channels` channels (a trailing
/// partial frame is dropped).
pub open spec fn first_channel_of<T>(audio: Seq<T>, channels: nat) -> Seq<T> {
    Seq::new(audio.len() / channels, |i: int| audio[i * channels])
}

/// Nearest-neighbour resampling of `audio` to `target_len` samples: sample `i` is
/// `audio[i * len / target_len]`.
pub open spec fn resampled<T>(audio: Seq<T>, target_len: nat) -> Seq<T> {
    Seq::new(target_len, |i: int| audio[i * audio.len() / target_len as int])
}

/// Frames of the centered mel spectrogram over `len` samples: one per `MEL_HOP`-sample
/// start position in the signal padded by `MEL_N_FFT / 2` on each side, that is
/// `ceil((len + MEL_N_FFT) / MEL_HOP)`; frames running past the end are zero-filled.
pub open spec fn mel_frames(len: nat) -> nat {
    ((len + MEL_N_FFT + MEL_HOP - 1) as nat / MEL_HOP as nat) as nat
}

/// The frame count is the ceiling of `(len + MEL_N_FFT) / MEL_HOP`: the frames cover the
/// padded signal, and every frame starts inside it.
pub proof fn lemma_mel_frames_closed_form(len: nat)
    ensures
        mel_frames(len) * MEL_HOP >= len + MEL_N_FFT,
        (mel_frames(len) - 1) * MEL_HOP < len + MEL_N_FFT,
        mel_frames(len) >= 1,
{
    let n = len + MEL_N_FFT;
    let f = mel_frames(len);
    assert(f == (n + 319) / 320);
    assert(f * 320 >= n && (f - 1) * 320 < n && f >= 1) by (nonlinear_arith)
        requires
            f == (n + 319) / 320,
            n >= 1024,
    ;
}

/// The reference clip for voice encoding: exactly `REF_CLIP_LEN` samples, the first
/// ones of `wav` when it is long enough, else `wav` repeated and cut.
pub fn get_ref_clip<T: Copy>(wav: &Vec<T>) -> (r: Vec<T>)
    requires
        wav@.len() > 0,
    ensures
        r@ == ref_clip(wav@),
        r@.len() == REF_CLIP_LEN,
{
    let n = wav.len();
    let mut r: Vec<T> = Vec::with_capacity(REF_CLIP_LEN);
    let mut i: usize = 0;
    while i < REF_CLIP_LEN
        invariant
            n == wav@.len(),
            n > 0,
            i <= REF_CLIP_LEN,
            r@.len() == i,
            forall|k: int| 0 <= k < i ==> r@[k] == #[trigger] ref_clip(wav@)[k],
        decreases REF_CLIP_LEN - i,
    {
        r.push(wav[i % n]);
        i = i + 1;
    }
    assert(r@ =~= ref_clip(wav@));
    r
}

/// Mono mixdown by keeping the first channel of interleaved samples.
pub fn first_channel<T: Copy>(audio: &Vec<T>, channels: usize) -> (r: Vec<T>)
    requires
        channels > 0,
    ensures
        r@ == first_channel_of(audio@, channels as nat),
{
    let n = audio.len();
    let len = n / channels;
    let mut r: Vec<T> = Vec::with_capacity(len);
    let mut i: usize = 0;
    while i < len
        invariant
            channels > 0,
            n == audio@.len(),
            len == audio@.len() / (channels as nat),
            i <= len,
            r@.len() == i,
            forall|k: int| 0 <= k < i ==> r@[k] == #[trigger] first_channel_of(audio@, channels as nat)[k],
        decreases len - i,
    {
        proof {
            let c = channels as int;
            let l = audio@.len() as int;
            assert(len as int == l / c);
            assert(i * c + c <= (l / c) * c) by (nonlinear_arith)
                requires
                    0 <= i < l / c,
                    c > 0,
            ;
            assert((l / c) * c <= l) by (nonlinear_arith)
                requires
                    c > 0,
                    l >= 0,
            ;
            assert(i * c < l);
        }
        let idx: usize = i * channels;
        r.push(audio[idx]);
        i = i + 1;
    }
    assert(r@ =~= first_channel_of(audio@, channels as nat));
    r
}

/// Nearest-neighbour resampling to `target_len` samples.
pub fn resample_nearest<T: Copy>(audio: &Vec<T>, target_len: usize) -> (r: Vec<T>)
    requires
        audio@.len() > 0 || target_len == 0,
        target_len * audio@.len() <= usize::MAX,
    ensures
        r@ == resampled(audio@, target_len as nat),
{
    let n = audio.len();
    let mut r: Vec<T> = Vec::with_capacity(target_len);
    let mut i: usize = 0;
    while i < target_len
        invariant
            n == audio@.len(),
            n > 0 || target_len == 0,
            target_len * n <= usize::MAX,
            i <= target_len,
            r@.len() == i,
            forall|k: int| 0 <= k < i ==> r@[k] == #[trigger] resampled(audio@, target_len as nat)[k],
        decreases target_len - i,
    {
        proof {
            let t = target_len as int;
            let l = n as int;
            assert(0 <= i * l <= t * l) by (nonlinear_arith)
                requires
                    0 <= i < t,
                    l >= 0,
            ;
            assert((i * l) / t < l) by (nonlinear_arith)
                requires
                    0 <= i < t,
                    l > 0,
            ;
            assert((i * l) / t >= 0) by (nonlinear_arith)
                requires
                    0 <= i < t,
                    l > 0,
            ;
        }
        let idx = i * n / target_len;
        r.push(audio[idx]);
        i = i + 1;
    }
    assert(r@ =~= resampled(audio@, target_len as nat));
    r
}

/// Number of frames of the reference mel spectrogram of `len` samples:
/// `ceil((len + MEL_N_FFT) / MEL_HOP)`.
pub fn mel_frame_count(len: usize) -> (r: usize)
    requires
        len + MEL_N_FFT + MEL_HOP <= usize::MAX,
    ensures
        r == mel_frames(len as nat),
{
    (len + MEL_N_FFT + MEL_HOP - 1) / MEL_HOP
}

} // verus!
