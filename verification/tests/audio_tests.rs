use gemtts::audio::{
    direct_bytes, encoder_name, ffmpeg_args, ffmpeg_failure, ffmpeg_missing, format_for_extension,
    prepare_audio_write, resolve_format, temp_pcm_name, wav_file_bytes,
};
use gemtts::cli::AudioFormat;
use gemtts::error::AppError;

#[test]
fn format_follows_the_extension_when_auto() {
    assert_eq!(resolve_format(AudioFormat::Auto, "out.MP3"), AudioFormat::Mp3);
    assert_eq!(resolve_format(AudioFormat::Auto, "dir/take.raw"), AudioFormat::Pcm);
    assert_eq!(resolve_format(AudioFormat::Auto, "a.aac"), AudioFormat::M4a);
    assert_eq!(resolve_format(AudioFormat::Auto, "a.flac"), AudioFormat::Flac);
    assert_eq!(resolve_format(AudioFormat::Auto, "noext"), AudioFormat::Wav);
    assert_eq!(resolve_format(AudioFormat::Auto, "a.ogg"), AudioFormat::Wav);
    assert_eq!(resolve_format(AudioFormat::Auto, ".mp3"), AudioFormat::Wav);
    assert_eq!(resolve_format(AudioFormat::Flac, "out.wav"), AudioFormat::Flac);
    assert_eq!(format_for_extension(Some("PCM")), AudioFormat::Pcm);
    assert_eq!(format_for_extension(None), AudioFormat::Wav);
}

#[test]
fn empty_audio_is_rejected() {
    match prepare_audio_write(&[], AudioFormat::Wav, "a.wav") {
        Err(AppError::Audio(m)) => assert_eq!(m, "Gemini returned empty audio data"),
        other => panic!("unexpected {:?}", other),
    }
    assert_eq!(prepare_audio_write(&[1, 2], AudioFormat::Auto, "a.m4a").unwrap(), AudioFormat::M4a);
}

#[test]
fn encoders_by_format() {
    assert_eq!(encoder_name(AudioFormat::Wav), "native-wav");
    assert_eq!(encoder_name(AudioFormat::Auto), "native-wav");
    assert_eq!(encoder_name(AudioFormat::Pcm), "native-pcm");
    assert_eq!(encoder_name(AudioFormat::Mp3), "ffmpeg");
}

#[test]
fn wav_header_is_exact() {
    let b = wav_file_bytes(&[1, 2, 3, 4], 24000, 1).unwrap();
    let expected: Vec<u8> = vec![
        b'R', b'I', b'F', b'F', 40, 0, 0, 0, b'W', b'A', b'V', b'E', b'f', b'm', b't', b' ', 16, 0, 0, 0, 1, 0, 1, 0,
        0xC0, 0x5D, 0, 0, 0x80, 0xBB, 0, 0, 2, 0, 16, 0, b'd', b'a', b't', b'a', 4, 0, 0, 0, 1, 2, 3, 4,
    ];
    assert_eq!(b, expected);
    let stereo = wav_file_bytes(&[], 48000, 2).unwrap();
    assert_eq!(stereo.len(), 44);
    assert_eq!(&stereo[22..24], &[2, 0]);
    assert_eq!(&stereo[28..32], &192000u32.to_le_bytes());
    assert_eq!(&stereo[32..34], &[4, 0]);
}

#[test]
fn ffmpeg_invocation() {
    assert_eq!(
        ffmpeg_args("/tmp/in.pcm", "out.mp3", AudioFormat::Mp3, 24000, 1),
        vec![
            "-hide_banner", "-loglevel", "error", "-y", "-f", "s16le", "-ar", "24000", "-ac", "1", "-i",
            "/tmp/in.pcm", "-codec:a", "libmp3lame", "-q:a", "2", "out.mp3"
        ]
    );
    let m4a = ffmpeg_args("i", "o.m4a", AudioFormat::M4a, 44100, 2);
    assert_eq!(&m4a[12..], &["-codec:a", "aac", "-b:a", "192k", "o.m4a"]);
    let flac = ffmpeg_args("i", "o.flac", AudioFormat::Flac, 8000, 1);
    assert_eq!(&flac[12..], &["-codec:a", "flac", "o.flac"]);
}

#[test]
fn ffmpeg_errors() {
    match ffmpeg_failure("  bad codec \n") {
        AppError::Audio(m) => assert_eq!(m, "ffmpeg failed: bad codec"),
        other => panic!("unexpected {:?}", other),
    }
    match ffmpeg_missing() {
        AppError::Audio(m) => assert_eq!(m, "ffmpeg is required for mp3, m4a, and flac output"),
        other => panic!("unexpected {:?}", other),
    }
    assert_eq!(temp_pcm_name(42, 1700000000123), "gemini-tts-42-1700000000123.pcm");
}

#[test]
fn direct_bytes_by_format() {
    let wav = direct_bytes(&[1, 2], AudioFormat::Wav, 24000, 1).unwrap().unwrap();
    assert_eq!(wav.len(), 46);
    assert_eq!(&wav[44..], &[1, 2]);
    assert_eq!(direct_bytes(&[1, 2], AudioFormat::Pcm, 24000, 1).unwrap().unwrap(), vec![1, 2]);
    assert!(direct_bytes(&[1, 2], AudioFormat::Mp3, 24000, 1).unwrap().is_none());
}
