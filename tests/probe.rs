use based_ffmpreg::probe::{
    parse_seconds_millis, MediaProbe, ProbeError, ProbeReport, ProbeStream, DISCORD_FILE_SIZE_LIMIT,
};

fn stream(kind: &str, codec: &str) -> ProbeStream {
    ProbeStream { codec_type: kind.to_string(), codec_name: codec.to_string() }
}

fn report(streams: Vec<ProbeStream>, duration: &str) -> ProbeReport {
    ProbeReport { streams, duration: duration.to_string() }
}

#[test]
fn corruption_marker_wins_even_on_success() {
    let r = MediaProbe::classify("", "[h264] Packet corrupt (stream = 0)", true, 10, None);
    assert_eq!(r, Ok(MediaProbe::Corrupt));
    let r = MediaProbe::classify("Packet corrupt", "", false, 10, None);
    assert_eq!(r, Ok(MediaProbe::Corrupt));
}

#[test]
fn failed_exit_is_an_error() {
    assert_eq!(MediaProbe::classify("", "boom", false, 10, None), Err(ProbeError::ProcessFailed));
}

#[test]
fn unreadable_report_is_an_error() {
    assert_eq!(MediaProbe::classify("{", "", true, 10, None), Err(ProbeError::MalformedOutput));
    let bad = report(vec![stream("video", "h264")], "N/A");
    assert_eq!(MediaProbe::classify("", "", true, 10, Some(bad)), Err(ProbeError::MalformedDuration));
}

#[test]
fn h264_aac_under_limit_is_compatible() {
    let r = report(vec![stream("video", "h264"), stream("audio", "aac")], "12.345000");
    assert_eq!(
        MediaProbe::classify("", "", true, 1000, Some(r)),
        Ok(MediaProbe::Probed { is_discord_compatible: true, duration_ms: 12345 })
    );
}

#[test]
fn other_codecs_or_size_are_incompatible() {
    let vp9 = report(vec![stream("video", "vp9"), stream("audio", "aac")], "3");
    assert_eq!(
        MediaProbe::classify("", "", true, 1000, Some(vp9)),
        Ok(MediaProbe::Probed { is_discord_compatible: false, duration_ms: 3000 })
    );
    let audio_only = report(vec![stream("audio", "aac")], "3");
    assert_eq!(
        MediaProbe::classify("", "", true, 1000, Some(audio_only)),
        Ok(MediaProbe::Probed { is_discord_compatible: false, duration_ms: 3000 })
    );
    let big = report(vec![stream("video", "h264")], "3");
    assert_eq!(
        MediaProbe::classify("", "", true, DISCORD_FILE_SIZE_LIMIT, Some(big)),
        Ok(MediaProbe::Probed { is_discord_compatible: false, duration_ms: 3000 })
    );
}

#[test]
fn seconds_are_read_as_millis() {
    assert_eq!(parse_seconds_millis("60"), Some(60000));
    assert_eq!(parse_seconds_millis("60.000000"), Some(60000));
    assert_eq!(parse_seconds_millis("1.5"), Some(1500));
    assert_eq!(parse_seconds_millis("0.0129"), Some(12));
    assert_eq!(parse_seconds_millis("7."), Some(7000));
    assert_eq!(parse_seconds_millis(""), None);
    assert_eq!(parse_seconds_millis(".5"), None);
    assert_eq!(parse_seconds_millis("1.2.3"), None);
    assert_eq!(parse_seconds_millis("-1"), None);
    assert_eq!(parse_seconds_millis("18446744073709551.615"), Some(u64::MAX));
    assert_eq!(parse_seconds_millis("18446744073709551.616"), None);
    assert_eq!(parse_seconds_millis("99999999999999999999"), None);
}
