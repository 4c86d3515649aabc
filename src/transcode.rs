//! Transcode planning: the bitrate budget and the encoder settings.
use vstd::prelude::*;
use vstd::string::StringExecFns;
use crate::text::{decimal, push_decimal, string_of};

verus! {

/// Size budget, in bytes, that a transcoded file aims for.
pub const TARGET_SIZE_BYTES: u64 = 10 * 1024 * 1024;

/// Bitrate reserved for the audio track, in bits per second.
pub const AUDIO_BITRATE_BPS: u64 = 128000;

/// Lowest video bitrate, in bits per second, worth encoding at.
pub const MIN_VIDEO_BITRATE_BPS: u64 = 800000;

/// Constant-quality setting used when the duration is unknown.
pub const FALLBACK_CRF: u64 = 23;

/// Encoder settings for one transcode.
#[derive(Debug, Clone, Copy, PartialEq, Eq, Structural)]
pub enum TranscodeSettings {
    /// Target average bitrates, in kilobits per second.
    Bitrate { video_kbps: u64, audio_kbps: u64 },
    /// A fixed constant-rate-factor quality.
    ConstantQuality { crf: u64 },
}

/// Why no transcode is planned.
#[derive(Debug, Clone, Copy, PartialEq, Eq, Structural)]
pub enum TranscodeError {
    /// The budget leaves the video less than the floor bitrate; the file is
    /// kept as it is rather than degraded.
    BitrateTooLow,
}

/// Video bitrate budget in bits per second: the size budget spread over the
/// duration, minus the audio reserve.
pub open spec fn video_bitrate_spec(target_size_bytes: int, duration_ms: int) -> int {
    (target_size_bytes * 8 * 1000) / duration_ms - AUDIO_BITRATE_BPS
}

/// Kilobits per second, rounded to the nearest whole number.
pub open spec fn kbps_rounded(bps: int) -> int {
    (bps + 500) / 1000
}

/// The settings planned for a size budget and a duration, `None` where the
/// duration is unknown.
pub open spec fn settings_for(target_size_bytes: u64, duration_ms: Option<u64>) -> Result<
    TranscodeSettings,
    TranscodeError,
> {
    match duration_ms {
        Some(d) if d > 0 => {
            let v = video_bitrate_spec(target_size_bytes as int, d as int);
            if v < MIN_VIDEO_BITRATE_BPS {
                Err(TranscodeError::BitrateTooLow)
            } else {
                Ok(
                    TranscodeSettings::Bitrate {
                        video_kbps: kbps_rounded(v) as u64,
                        audio_kbps: (AUDIO_BITRATE_BPS / 1000) as u64,
                    },
                )
            }
        },
        _ => Ok(TranscodeSettings::ConstantQuality { crf: FALLBACK_CRF }),
    }
}

/// Video and audio bitrates, in bits per second, for a file of
/// `target_size_bytes` lasting `duration_ms` milliseconds. The video bitrate
/// may be negative where the audio reserve alone exceeds the budget.
pub fn calculate_bitrates(target_size_bytes: u64, duration_ms: u64) -> (r: (i128, u64))
    requires
        duration_ms > 0,
    ensures
        r.0 == video_bitrate_spec(target_size_bytes as int, duration_ms as int),
        r.1 == AUDIO_BITRATE_BPS,
{
    let total_bits: u128 = target_size_bytes as u128 * 8000;
    let per_second: u128 = total_bits / duration_ms as u128;
    assert(per_second <= total_bits) by (nonlinear_arith)
        requires
            per_second == total_bits / duration_ms as u128,
            duration_ms > 0,
    ;
    let video: i128 = per_second as i128 - AUDIO_BITRATE_BPS as i128;
    (video, AUDIO_BITRATE_BPS)
}

/// Plans the encoder settings for a size budget and a file of known (`Some`)
/// or unknown (`None`) duration. A zero duration carries no budget and counts
/// as unknown.
pub fn transcode_settings(target_size_bytes: u64, duration_ms: Option<u64>) -> (r: Result<
    TranscodeSettings,
    TranscodeError,
>)
    ensures
        r == settings_for(target_size_bytes, duration_ms),
{
    match duration_ms {
        Some(d) if d > 0 => {
            let (video, audio) = calculate_bitrates(target_size_bytes, d);
            if video < MIN_VIDEO_BITRATE_BPS as i128 {
                Err(TranscodeError::BitrateTooLow)
            } else {
                assert(video <= target_size_bytes * 8000) by (nonlinear_arith)
                    requires
                        video == (target_size_bytes * 8 * 1000) / (d as int) - AUDIO_BITRATE_BPS,
                        d > 0,
                ;
                let video_kbps = ((video + 500) / 1000) as u64;
                Ok(TranscodeSettings::Bitrate { video_kbps, audio_kbps: audio / 1000 })
            }
        },
        _ => Ok(TranscodeSettings::ConstantQuality { crf: FALLBACK_CRF }),
    }
}

/// A rate in kilobits per second as the transcoder reads it (`"1270k"`).
pub open spec fn rate_arg(kbps: u64) -> Seq<char> {
    decimal(kbps as nat) + "k"@
}

/// The arguments of the transcoder: H.264 video and AAC audio, the index
/// moved to the front, at the planned bitrates or quality.
pub open spec fn transcode_args_spec(
    input: Seq<char>,
    output: Seq<char>,
    settings: TranscodeSettings,
) -> Seq<Seq<char>> {
    let head = seq![
        "-i"@,
        input,
        "-vcodec"@,
        "libx264"@,
        "-acodec"@,
        "aac"@,
        "-movflags"@,
        "+faststart"@,
    ];
    let rate = match settings {
        TranscodeSettings::Bitrate { video_kbps, audio_kbps } => seq![
            "-b:v"@,
            rate_arg(video_kbps),
            "-b:a"@,
            rate_arg(audio_kbps),
        ],
        TranscodeSettings::ConstantQuality { crf } => seq!["-crf"@, decimal(crf as nat)],
    };
    head + rate + seq![output]
}

fn push_arg(args: &mut Vec<String>, a: String)
    ensures
        final(args)@.map_values(|s: String| s@) == old(args)@.map_values(|s: String| s@).push(a@),
{
    let ghost v = a@;
    args.push(a);
    assert(args@.map_values(|s: String| s@) =~= old(args)@.map_values(|s: String| s@).push(v));
}

fn rate_text(kbps: u64) -> (r: String)
    ensures
        r@ == rate_arg(kbps),
{
    let mut out: Vec<char> = Vec::new();
    push_decimal(&mut out, kbps);
    out.push('k');
    proof {
        reveal_strlit("k");
    }
    assert(out@ =~= rate_arg(kbps));
    string_of(&out)
}

fn number_text(n: u64) -> (r: String)
    ensures
        r@ == decimal(n as nat),
{
    let mut out: Vec<char> = Vec::new();
    push_decimal(&mut out, n);
    string_of(&out)
}

/// The arguments of the transcoder for one run.
pub fn transcode_args(input: &str, output: &str, settings: TranscodeSettings) -> (r: Vec<String>)
    ensures
        r@.map_values(|s: String| s@) == transcode_args_spec(input@, output@, settings),
{
    let mut args: Vec<String> = Vec::new();
    push_arg(&mut args, String::from_str("-i"));
    push_arg(&mut args, String::from_str(input));
    push_arg(&mut args, String::from_str("-vcodec"));
    push_arg(&mut args, String::from_str("libx264"));
    push_arg(&mut args, String::from_str("-acodec"));
    push_arg(&mut args, String::from_str("aac"));
    push_arg(&mut args, String::from_str("-movflags"));
    push_arg(&mut args, String::from_str("+faststart"));
    match settings {
        TranscodeSettings::Bitrate { video_kbps, audio_kbps } => {
            push_arg(&mut args, String::from_str("-b:v"));
            push_arg(&mut args, rate_text(video_kbps));
            push_arg(&mut args, String::from_str("-b:a"));
            push_arg(&mut args, rate_text(audio_kbps));
        },
        TranscodeSettings::ConstantQuality { crf } => {
            push_arg(&mut args, String::from_str("-crf"));
            push_arg(&mut args, number_text(crf));
        },
    }
    push_arg(&mut args, String::from_str(output));
    assert(args@.map_values(|s: String| s@) =~= transcode_args_spec(input@, output@, settings));
    args
}

} // verus!
