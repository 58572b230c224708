use vstd::prelude::*;
use vstd::string::StrSliceExecFns;
use crate::pipeline::TtsErrorKind;

verus! {

/// Audio container formats the engine reads and writes.
#[derive(Clone, Copy, Debug, PartialEq, Eq, Structural)]
pub enum AudioFileFormat {
    Wav,
    Mp3,
}

/// What `str::to_lowercase` returns for a string.
pub uninterp spec fn lower_of(s: Seq<char>) -> Seq<char>;

/// Relies on `str::to_lowercase`: the Unicode lowercase mapping of the characters,
/// which depends on them alone.
#[verifier::external_body]
fn lowercase(s: &str) -> (r: String)
    ensures
        r@ == lower_of(s@),
{
    s.to_lowercase()
}

pub open spec fn input_format_spec(ext: Seq<char>) -> Result<AudioFileFormat, TtsErrorKind> {
    if ext == seq!['w', 'a', 'v'] {
        Ok(AudioFileFormat::Wav)
    } else if ext == seq!['m', 'p', '3'] {
        Ok(AudioFileFormat::Mp3)
    } else {
        Err(TtsErrorKind::UnsupportedAudio)
    }
}

pub open spec fn output_format_spec(ext: Seq<char>) -> AudioFileFormat {
    if ext == seq!['m', 'p', '3'] {
        AudioFileFormat::Mp3
    } else {
        AudioFileFormat::Wav
    }
}

fn is_three_chars(s: &str, a: char, b: char, c: char) -> (r: bool)
    ensures
        r == (s@ == seq![a, b, c]),
{
    if s.unicode_len() != 3 {
        return false;
    }
    let r = s.get_char(0) == a && s.get_char(1) == b && s.get_char(2) == c;
    if r {
        assert(s@ =~= seq![a, b, c]);
    }
    r
}

/// Format of an input file from its already lowercased extension: `wav` or `mp3`,
/// anything else is unsupported.
pub fn input_format_of_lowercase(ext: &str) -> (r: Result<AudioFileFormat, TtsErrorKind>)
    ensures
        r == input_format_spec(ext@),
{
    if is_three_chars(ext, 'w', 'a', 'v') {
        Ok(AudioFileFormat::Wav)
    } else if is_three_chars(ext, 'm', 'p', '3') {
        Ok(AudioFileFormat::Mp3)
    } else {
        Err(TtsErrorKind::UnsupportedAudio)
    }
}

/// Format of an output file from its already lowercased extension: `mp3` writes MP3,
/// anything else WAV.
pub fn output_format_of_lowercase(ext: &str) -> (r: AudioFileFormat)
    ensures
        r == output_format_spec(ext@),
{
    if is_three_chars(ext, 'm', 'p', '3') {
        AudioFileFormat::Mp3
    } else {
        AudioFileFormat::Wav
    }
}

/// Format of an input file from its extension, compared case-insensitively.
pub fn input_audio_format(ext: &str) -> (r: Result<AudioFileFormat, TtsErrorKind>)
    ensures
        r == input_format_spec(lower_of(ext@)),
{
    let lower = lowercase(ext);
    input_format_of_lowercase(lower.as_str())
}

/// Format of an output file from its extension (`wav` when there is none), compared
/// case-insensitively.
pub fn output_audio_format(ext: Option<&str>) -> (r: AudioFileFormat)
    ensures
        r == (match ext {
            Some(e) => output_format_spec(lower_of(e@)),
            None => AudioFileFormat::Wav,
        }),
{
    match ext {
        Some(e) => {
            let lower = lowercase(e);
            output_format_of_lowercase(lower.as_str())
        },
        None => AudioFileFormat::Wav,
    }
}

} // verus!
