use based_ffmpreg::transcode::{
    calculate_bitrates, transcode_args, transcode_settings, TranscodeError, TranscodeSettings,
    TARGET_SIZE_BYTES,
};

#[test]
fn bitrate_budget_for_a_minute() {
    let (video, audio) = calculate_bitrates(10 * 1024 * 1024, 60_000);
    assert_eq!(video, (10 * 1024 * 1024 * 8 / 60) - 128000);
    assert_eq!(audio, 128000);
    assert_eq!(
        transcode_settings(TARGET_SIZE_BYTES, Some(60_000)),
        Ok(TranscodeSettings::Bitrate { video_kbps: 1270, audio_kbps: 128 })
    );
}

#[test]
fn tiny_budget_is_too_low() {
    let target = (0.01f64 * 1024.0 * 1024.0) as u64;
    let (video, _) = calculate_bitrates(target, 1000);
    assert!(video < 800_000);
    assert_eq!(transcode_settings(target, Some(1000)), Err(TranscodeError::BitrateTooLow));
}

#[test]
fn unknown_duration_uses_constant_quality() {
    assert_eq!(transcode_settings(TARGET_SIZE_BYTES, None), Ok(TranscodeSettings::ConstantQuality { crf: 23 }));
    assert_eq!(transcode_settings(TARGET_SIZE_BYTES, Some(0)), Ok(TranscodeSettings::ConstantQuality { crf: 23 }));
}

#[test]
fn transcoder_arguments() {
    let args = transcode_args("in.mp4", "out.mp4", TranscodeSettings::Bitrate { video_kbps: 1270, audio_kbps: 128 });
    assert_eq!(
        args,
        vec![
            "-i", "in.mp4", "-vcodec", "libx264", "-acodec", "aac", "-movflags", "+faststart", "-b:v",
            "1270k", "-b:a", "128k", "out.mp4"
        ]
    );
    let args = transcode_args("in.mp4", "out.mp4", TranscodeSettings::ConstantQuality { crf: 23 });
    assert_eq!(&args[8..], &["-crf", "23", "out.mp4"]);
}
