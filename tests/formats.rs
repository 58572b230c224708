use rwkv_tts_core::formats::{
    input_audio_format, input_format_of_lowercase, output_audio_format,
    output_format_of_lowercase, AudioFileFormat,
};
use rwkv_tts_core::pipeline::TtsErrorKind;

#[test]
fn input_formats_from_lowercase_extension() {
    assert_eq!(input_format_of_lowercase("wav"), Ok(AudioFileFormat::Wav));
    assert_eq!(input_format_of_lowercase("mp3"), Ok(AudioFileFormat::Mp3));
    assert_eq!(input_format_of_lowercase("WAV"), Err(TtsErrorKind::UnsupportedAudio));
    assert_eq!(input_format_of_lowercase("flac"), Err(TtsErrorKind::UnsupportedAudio));
    assert_eq!(input_format_of_lowercase(""), Err(TtsErrorKind::UnsupportedAudio));
}

#[test]
fn input_formats_ignore_case() {
    assert_eq!(input_audio_format("WAV"), Ok(AudioFileFormat::Wav));
    assert_eq!(input_audio_format("Mp3"), Ok(AudioFileFormat::Mp3));
    assert_eq!(input_audio_format("ogg"), Err(TtsErrorKind::UnsupportedAudio));
}

#[test]
fn output_formats_default_to_wav() {
    assert_eq!(output_format_of_lowercase("mp3"), AudioFileFormat::Mp3);
    assert_eq!(output_format_of_lowercase("ogg"), AudioFileFormat::Wav);
    assert_eq!(output_audio_format(Some("MP3")), AudioFileFormat::Mp3);
    assert_eq!(output_audio_format(Some("wav")), AudioFileFormat::Wav);
    assert_eq!(output_audio_format(None), AudioFileFormat::Wav);
}
