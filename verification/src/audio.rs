//! Audio output decisions: choosing the format from the output path, the
//! WAV container around raw PCM, and the ffmpeg invocation for compressed
//! formats. Writing files and running ffmpeg is left to the caller.

use vstd::prelude::*;
use crate::cli::{AudioFormat, format_name};
use crate::error::AppError;
use crate::text::{lower, trim, push_str, push_decimal, decimal, to_chars, lower_chars, chars_eq, owned, trim_str};

verus! {

/// What a file written by the library looks like to its caller.
pub struct AudioWriteResult {
    pub path: String,
    pub format: AudioFormat,
    pub bytes_written: u64,
    pub sample_rate: u32,
    pub channels: u16,
    pub encoder: String,
}

/// What `Path::extension` reports for a path, read back as UTF-8 text.
pub uninterp spec fn path_extension(path: Seq<char>) -> Option<Seq<char>>;

/// The extension of a path.
///
/// Trusted: calls `std::path::Path::extension` and keeps the result when it is
/// valid UTF-8. The contract only ties the result to the name
/// `path_extension`; what `Path` considers the file name and its extension
/// is not restated.
#[verifier::external_body]
fn extension_of(path: &str) -> (res: Option<String>)
    ensures
        path_extension(path@) == (match res {
            Some(e) => Some(e@),
            None => None::<Seq<char>>,
        }),
{
    std::path::Path::new(path).extension().and_then(|e| e.to_str()).map(|e| e.to_string())
}

/// The format that an output file extension selects (case-insensitively);
/// anything unknown is WAV.
pub open spec fn format_for_ext(ext: Seq<char>) -> AudioFormat {
    let l = lower(ext);
    if l == "pcm"@ || l == "raw"@ {
        AudioFormat::Pcm
    } else if l == "mp3"@ {
        AudioFormat::Mp3
    } else if l == "m4a"@ || l == "aac"@ {
        AudioFormat::M4a
    } else if l == "flac"@ {
        AudioFormat::Flac
    } else {
        AudioFormat::Wav
    }
}

/// The format for an optional extension: a missing one counts as `wav`.
pub open spec fn format_for_optional_ext(ext: Option<Seq<char>>) -> AudioFormat {
    match ext {
        Some(e) => format_for_ext(e),
        None => format_for_ext("wav"@),
    }
}

/// The format for an output file extension.
pub fn format_for_extension(ext: Option<&str>) -> (r: AudioFormat)
    ensures
        r == format_for_optional_ext(match ext {
            Some(e) => Some(e@),
            None => None::<Seq<char>>,
        }),
{
    let e = match ext {
        Some(e) => e,
        None => "wav",
    };
    let l = lower_chars(&to_chars(e));
    if chars_eq(&l, &to_chars("pcm")) || chars_eq(&l, &to_chars("raw")) {
        AudioFormat::Pcm
    } else if chars_eq(&l, &to_chars("mp3")) {
        AudioFormat::Mp3
    } else if chars_eq(&l, &to_chars("m4a")) || chars_eq(&l, &to_chars("aac")) {
        AudioFormat::M4a
    } else if chars_eq(&l, &to_chars("flac")) {
        AudioFormat::Flac
    } else {
        AudioFormat::Wav
    }
}

/// The format to write: an explicit request wins, `Auto` follows the output
/// file's extension.
pub open spec fn resolved_format(requested: AudioFormat, out: Seq<char>) -> AudioFormat {
    if requested != AudioFormat::Auto {
        requested
    } else {
        format_for_optional_ext(path_extension(out))
    }
}

/// Chooses the output format for a requested format and output path.
pub fn resolve_format(requested: AudioFormat, out: &str) -> (r: AudioFormat)
    ensures
        r == resolved_format(requested, out@),
{
    match requested {
        AudioFormat::Auto => {
            let ext = extension_of(out);
            match ext {
                Some(e) => format_for_extension(Some(e.as_str())),
                None => format_for_extension(None),
            }
        },
        _ => requested,
    }
}

/// An extension names an audio format (in any ASCII case).
pub open spec fn is_audio_ext(e: Seq<char>) -> bool {
    let l = lower(e);
    l == "wav"@ || l == "pcm"@ || l == "raw"@ || l == "mp3"@ || l == "m4a"@ || l == "aac"@ || l == "flac"@
}

/// The format that the output path's extension names, when it names one.
pub open spec fn named_format(out: Seq<char>) -> Option<AudioFormat> {
    match path_extension(out) {
        Some(e) => if is_audio_ext(e) {
            Some(format_for_ext(e))
        } else {
            None
        },
        None => None,
    }
}

/// The format that an output path's extension names, if any.
pub fn extension_format(out: &str) -> (r: Option<AudioFormat>)
    ensures
        r == named_format(out@),
{
    match extension_of(out) {
        Some(e) => {
            let l = lower_chars(&to_chars(e.as_str()));
            if chars_eq(&l, &to_chars("wav")) || chars_eq(&l, &to_chars("pcm")) || chars_eq(&l, &to_chars("raw"))
                || chars_eq(&l, &to_chars("mp3")) || chars_eq(&l, &to_chars("m4a")) || chars_eq(&l, &to_chars("aac"))
                || chars_eq(&l, &to_chars("flac")) {
                Some(format_for_extension(Some(e.as_str())))
            } else {
                None
            }
        },
        None => None,
    }
}

/// Checks the generated audio and chooses the format to write it in: empty
/// audio is an error, otherwise the resolved format.
pub fn prepare_audio_write(pcm: &[u8], requested: AudioFormat, out: &str) -> (r: Result<
    AudioFormat,
    AppError,
>)
    ensures
        pcm@.len() == 0 ==> (r matches Err(AppError::Audio(m)) && m@
            == "Gemini returned empty audio data"@),
        pcm@.len() > 0 ==> r == Ok::<AudioFormat, AppError>(resolved_format(requested, out@)),
{
    if pcm.len() == 0 {
        return Err(AppError::Audio(owned("Gemini returned empty audio data")));
    }
    Ok(resolve_format(requested, out))
}

/// The encoder that writes a format.
pub open spec fn encoder_of(f: AudioFormat) -> Seq<char> {
    match f {
        AudioFormat::Wav | AudioFormat::Auto => "native-wav"@,
        AudioFormat::Pcm => "native-pcm"@,
        _ => "ffmpeg"@,
    }
}

/// Whether a format is written through ffmpeg.
pub open spec fn needs_ffmpeg(f: AudioFormat) -> bool {
    f == AudioFormat::Mp3 || f == AudioFormat::M4a || f == AudioFormat::Flac
}

/// The name of the encoder for a format.
pub fn encoder_name(f: AudioFormat) -> (r: &'static str)
    ensures
        r@ == encoder_of(f),
{
    match f {
        AudioFormat::Wav | AudioFormat::Auto => "native-wav",
        AudioFormat::Pcm => "native-pcm",
        AudioFormat::Mp3 | AudioFormat::M4a | AudioFormat::Flac => "ffmpeg",
    }
}

// ---------------------------------------------------------------------------
// WAV container
// ---------------------------------------------------------------------------

/// Little-endian bytes of a 16-bit value.
pub open spec fn le16(v: u16) -> Seq<u8> {
    seq![(v % 256) as u8, (v / 256) as u8]
}

/// Little-endian bytes of a 32-bit value.
pub open spec fn le32(v: u32) -> Seq<u8> {
    seq![
        (v % 256) as u8,
        ((v / 256) % 256) as u8,
        ((v / 65536) % 256) as u8,
        (v / 16777216) as u8,
    ]
}

/// The 32-bit data length a WAV header records for `n` PCM bytes (the
/// length is truncated to 32 bits).
pub open spec fn wav_data_len(n: nat) -> u32 {
    (n % 0x1_0000_0000) as u32
}

/// A canonical 44-byte PCM WAV header (16-bit samples) followed by the PCM.
pub open spec fn wav_bytes(pcm: Seq<u8>, sample_rate: u32, channels: u16) -> Seq<u8> {
    let data_len = wav_data_len(pcm.len());
    seq![82u8, 73u8, 70u8, 70u8] + le32((36 + data_len) as u32) + seq![87u8, 65u8, 86u8, 69u8]
        + seq![102u8, 109u8, 116u8, 32u8] + le32(16) + le16(1) + le16(channels) + le32(sample_rate)
        + le32((sample_rate * channels * 16 / 8) as u32) + le16((channels * 16 / 8) as u16) + le16(
        16,
    ) + seq![100u8, 97u8, 116u8, 97u8] + le32(data_len) + pcm
}

fn push_le16(out: &mut Vec<u8>, v: u16)
    ensures
        final(out)@ == old(out)@ + le16(v),
{
    out.push((v % 256) as u8);
    out.push((v / 256) as u8);
    assert(final(out)@ =~= old(out)@ + le16(v));
}

fn push_le32(out: &mut Vec<u8>, v: u32)
    ensures
        final(out)@ == old(out)@ + le32(v),
{
    out.push((v % 256) as u8);
    out.push(((v / 256) % 256) as u8);
    out.push(((v / 65536) % 256) as u8);
    out.push((v / 16777216) as u8);
    assert(final(out)@ =~= old(out)@ + le32(v));
}

fn push_bytes(out: &mut Vec<u8>, b: &[u8])
    ensures
        final(out)@ == old(out)@ + b@,
{
    let mut i: usize = 0;
    while i < b.len()
        invariant
            i <= b@.len(),
            out@ == old(out)@ + b@.take(i as int),
        decreases b@.len() - i,
    {
        out.push(b[i]);
        assert(old(out)@ + b@.take(i + 1) =~= old(out)@ + b@.take(i as int) + seq![b@[i as int]]);
        i = i + 1;
    }
    assert(b@.take(b@.len() as int) =~= b@);
}

/// Wraps 16-bit PCM in a WAV container.
///
/// Fails when the RIFF chunk length (36 plus the recorded data length) does
/// not fit in 32 bits.
pub fn wav_file_bytes(pcm: &[u8], sample_rate: u32, channels: u16) -> (r: Result<
    Vec<u8>,
    AppError,
>)
    requires
        sample_rate * channels * 16 <= u32::MAX,
        channels * 16 <= u16::MAX,
    ensures
        36 + wav_data_len(pcm@.len()) > u32::MAX ==> (r matches Err(AppError::Audio(m)) && m@
            == "audio too large for wav container"@),
        36 + wav_data_len(pcm@.len()) <= u32::MAX ==> (r matches Ok(b) && b@ == wav_bytes(
            pcm@,
            sample_rate,
            channels,
        )),
{
    let bits_per_sample: u16 = 16;
    let byte_rate: u32 = sample_rate * (channels as u32) * (bits_per_sample as u32) / 8;
    let block_align: u16 = channels * bits_per_sample / 8;
    let data_len: u32 = ((pcm.len() as u64) % 0x1_0000_0000u64) as u32;
    if data_len > u32::MAX - 36 {
        return Err(AppError::Audio(owned("audio too large for wav container")));
    }
    let riff_len: u32 = 36 + data_len;
    let mut bytes: Vec<u8> = Vec::new();
    push_bytes(&mut bytes, &[82u8, 73u8, 70u8, 70u8]);
    push_le32(&mut bytes, riff_len);
    push_bytes(&mut bytes, &[87u8, 65u8, 86u8, 69u8]);
    push_bytes(&mut bytes, &[102u8, 109u8, 116u8, 32u8]);
    push_le32(&mut bytes, 16);
    push_le16(&mut bytes, 1);
    push_le16(&mut bytes, channels);
    push_le32(&mut bytes, sample_rate);
    push_le32(&mut bytes, byte_rate);
    push_le16(&mut bytes, block_align);
    push_le16(&mut bytes, bits_per_sample);
    push_bytes(&mut bytes, &[100u8, 97u8, 116u8, 97u8]);
    push_le32(&mut bytes, data_len);
    push_bytes(&mut bytes, pcm);
    assert(bytes@ =~= wav_bytes(pcm@, sample_rate, channels));
    Ok(bytes)
}

// ---------------------------------------------------------------------------
// ffmpeg
// ---------------------------------------------------------------------------

/// The codec arguments ffmpeg gets for a compressed format.
pub open spec fn codec_args(f: AudioFormat) -> Seq<Seq<char>> {
    match f {
        AudioFormat::Mp3 => seq!["-codec:a"@, "libmp3lame"@, "-q:a"@, "2"@],
        AudioFormat::M4a => seq!["-codec:a"@, "aac"@, "-b:a"@, "192k"@],
        AudioFormat::Flac => seq!["-codec:a"@, "flac"@],
        _ => Seq::empty(),
    }
}

/// The full ffmpeg argument list that converts raw signed 16-bit
/// little-endian PCM in `input` into `out`.
pub open spec fn ffmpeg_arg_list(
    input: Seq<char>,
    out: Seq<char>,
    f: AudioFormat,
    sample_rate: u32,
    channels: u16,
) -> Seq<Seq<char>> {
    seq![
        "-hide_banner"@,
        "-loglevel"@,
        "error"@,
        "-y"@,
        "-f"@,
        "s16le"@,
        "-ar"@,
        decimal(sample_rate as nat),
        "-ac"@,
        decimal(channels as nat),
        "-i"@,
        input,
    ] + codec_args(f) + seq![out]
}

fn decimal_string(n: u64) -> (r: String)
    ensures
        r@ == decimal(n as nat),
{
    let mut r = String::new();
    push_decimal(&mut r, n as u128);
    r
}

/// The arguments for running ffmpeg.
pub fn ffmpeg_args(input: &str, out: &str, f: AudioFormat, sample_rate: u32, channels: u16) -> (r:
    Vec<String>)
    ensures
        r@.map_values(|s: String| s@) == ffmpeg_arg_list(input@, out@, f, sample_rate, channels),
{
    let mut r: Vec<String> = Vec::new();
    r.push(owned("-hide_banner"));
    r.push(owned("-loglevel"));
    r.push(owned("error"));
    r.push(owned("-y"));
    r.push(owned("-f"));
    r.push(owned("s16le"));
    r.push(owned("-ar"));
    r.push(decimal_string(sample_rate as u64));
    r.push(owned("-ac"));
    r.push(decimal_string(channels as u64));
    r.push(owned("-i"));
    r.push(owned(input));
    match f {
        AudioFormat::Mp3 => {
            r.push(owned("-codec:a"));
            r.push(owned("libmp3lame"));
            r.push(owned("-q:a"));
            r.push(owned("2"));
        },
        AudioFormat::M4a => {
            r.push(owned("-codec:a"));
            r.push(owned("aac"));
            r.push(owned("-b:a"));
            r.push(owned("192k"));
        },
        AudioFormat::Flac => {
            r.push(owned("-codec:a"));
            r.push(owned("flac"));
        },
        _ => {},
    }
    r.push(owned(out));
    assert(r@.map_values(|s: String| s@) =~= ffmpeg_arg_list(
        input@,
        out@,
        f,
        sample_rate,
        channels,
    ));
    r
}

/// The error reported when ffmpeg fails, with its trimmed diagnostics.
pub fn ffmpeg_failure(stderr: &str) -> (r: AppError)
    ensures
        r matches AppError::Audio(m) && m@ == "ffmpeg failed: "@ + trim(stderr@),
{
    let mut m = owned("ffmpeg failed: ");
    let t = trim_str(stderr);
    push_str(&mut m, t.as_str());
    AppError::Audio(m)
}

/// A missing ffmpeg is reported as an audio error.
pub fn ffmpeg_missing() -> (r: AppError)
    ensures
        r matches AppError::Audio(m) && m@ == "ffmpeg is required for mp3, m4a, and flac output"@,
{
    AppError::Audio(owned("ffmpeg is required for mp3, m4a, and flac output"))
}

/// An explicitly requested format is always the one written.
pub proof fn explicit_format_wins(requested: AudioFormat, out: Seq<char>)
    requires
        requested != AudioFormat::Auto,
    ensures
        resolved_format(requested, out) == requested,
{
}

/// A WAV file is exactly 44 header bytes longer than its PCM.
pub proof fn wav_header_is_44_bytes(pcm: Seq<u8>, sample_rate: u32, channels: u16)
    ensures
        wav_bytes(pcm, sample_rate, channels).len() == 44 + pcm.len(),
        wav_bytes(pcm, sample_rate, channels).skip(44) == pcm,
{
    assert(wav_bytes(pcm, sample_rate, channels).skip(44) =~= pcm);
}


/// What is written for a format without ffmpeg: the WAV container for WAV,
/// the raw PCM for PCM; `None` for the formats ffmpeg encodes.
pub fn direct_bytes(pcm: &[u8], format: AudioFormat, sample_rate: u32, channels: u16) -> (r: Result<
    Option<Vec<u8>>,
    AppError,
>)
    requires
        format == AudioFormat::Wav || format == AudioFormat::Auto ==> sample_rate * channels * 16 <= u32::MAX
            && channels * 16 <= u16::MAX,
    ensures
        format == AudioFormat::Wav || format == AudioFormat::Auto ==> if 36 + wav_data_len(pcm@.len()) > u32::MAX {
            r matches Err(AppError::Audio(m)) && m@ == "audio too large for wav container"@
        } else {
            r matches Ok(Some(b)) && b@ == wav_bytes(pcm@, sample_rate, channels)
        },
        format == AudioFormat::Pcm ==> (r matches Ok(Some(b)) && b@ == pcm@),
        needs_ffmpeg(format) ==> r matches Ok(None),
{
    match format {
        AudioFormat::Wav | AudioFormat::Auto => match wav_file_bytes(pcm, sample_rate, channels) {
            Ok(b) => Ok(Some(b)),
            Err(e) => Err(e),
        },
        AudioFormat::Pcm => {
            let mut b: Vec<u8> = Vec::new();
            let mut i: usize = 0;
            while i < pcm.len()
                invariant
                    i <= pcm@.len(),
                    b@ == pcm@.take(i as int),
                decreases pcm@.len() - i,
            {
                b.push(pcm[i]);
                assert(b@ =~= pcm@.take(i + 1));
                i = i + 1;
            }
            assert(pcm@.take(pcm@.len() as int) =~= pcm@);
            Ok(Some(b))
        },
        _ => Ok(None),
    }
}

/// Writing audio: a resolved format is never `auto`; WAV is written as its
/// 44-byte header followed by the PCM by the native WAV encoder, PCM as
/// itself by the native PCM encoder, and MP3, M4A and FLAC by ffmpeg.
pub proof fn audio_write_law(pcm: Seq<u8>, requested: AudioFormat, out: Seq<char>, sample_rate: u32, channels: u16)
    ensures
        ({
            let f = resolved_format(requested, out);
            &&& f != AudioFormat::Auto
            &&& f == AudioFormat::Wav ==> encoder_of(f) == "native-wav"@ && wav_bytes(pcm, sample_rate, channels).len()
                == 44 + pcm.len() && wav_bytes(pcm, sample_rate, channels).skip(44) == pcm
            &&& f == AudioFormat::Pcm ==> encoder_of(f) == "native-pcm"@
            &&& needs_ffmpeg(f) <==> encoder_of(f) == "ffmpeg"@
        }),
{
    wav_header_is_44_bytes(pcm, sample_rate, channels);
    only_compressed_formats_use_ffmpeg(resolved_format(requested, out));
}

/// Milliseconds since the Unix epoch.
///
/// Trusted: reads `SystemTime::now()` and its distance from `UNIX_EPOCH`;
/// `None` when the clock is before the epoch. Nothing is stated of the value.
#[verifier::external_body]
fn millis_since_epoch() -> (r: Option<u128>) {
    std::time::SystemTime::now().duration_since(std::time::UNIX_EPOCH).ok().map(|d| d.as_millis())
}

/// Milliseconds since the epoch from a clock reading, 0 when the clock read
/// before the epoch.
pub fn millis_or_zero(reading: Option<u128>) -> (r: u128)
    ensures
        r == match reading {
            Some(m) => m,
            None => 0,
        },
{
    match reading {
        Some(m) => m,
        None => 0,
    }
}

/// The current Unix time in milliseconds, 0 when the clock is before the epoch.
pub fn now_millis() -> (r: u128) {
    millis_or_zero(millis_since_epoch())
}

/// The name of the temporary PCM file handed to ffmpeg.
pub fn temp_pcm_name(pid: u32, millis: u128) -> (r: String)
    ensures
        r@ == "gemini-tts-"@ + decimal(pid as nat) + "-"@ + decimal(millis as nat) + ".pcm"@,
{
    let mut r = owned("gemini-tts-");
    push_decimal(&mut r, pid as u128);
    push_str(&mut r, "-");
    push_decimal(&mut r, millis);
    push_str(&mut r, ".pcm");
    r
}

/// WAV and raw PCM are written directly; only MP3, M4A and FLAC go through
/// ffmpeg.
pub proof fn only_compressed_formats_use_ffmpeg(f: AudioFormat)
    ensures
        (encoder_of(f) == "ffmpeg"@) <==> needs_ffmpeg(f),
{
    reveal_strlit("ffmpeg");
    reveal_strlit("native-wav");
    reveal_strlit("native-pcm");
    assert("native-wav"@.len() != "ffmpeg"@.len());
    assert("native-pcm"@.len() != "ffmpeg"@.len());
}

} // verus!
