use based_ffmpreg::pipeline::{
    canonical_source_url, extractor_args, media_paths, resolve_target, AcquireError, Acquisition,
    Action, Dispatch, Event, ExtractorDump, Phase, FORMAT_SELECTION,
};
use based_ffmpreg::probe::{MediaProbe, ProbeError};
use based_ffmpreg::transcode::TranscodeSettings;

fn download(url: &str) -> (Acquisition, Action) {
    match Acquisition::dispatch(url.to_string(), None, "req") {
        Dispatch::Download { acquisition, action } => (acquisition, action),
        Dispatch::Slideshow { .. } => panic!("not a slideshow"),
    }
}

fn extracted(dump: Option<ExtractorDump>) -> Event {
    Event::ExtractorDone { success: true, output_exists: true, dump }
}

#[test]
fn incompatible_output_is_transcoded_once() {
    let (mut acq, first) = download("https://example.com/v");
    assert!(matches!(first, Action::RunExtractor { check_for_update: true, .. }));
    let a1 = acq.step(extracted(None));
    assert!(matches!(a1, Action::RunProbe { ref path } if path == "yt_dlp_out/req.mp4"));
    let a2 = acq.step(Event::ProbeDone(Ok(MediaProbe::Probed { is_discord_compatible: false, duration_ms: 60_000 })));
    match &a2 {
        Action::RunTranscode { input, output, settings } => {
            assert_eq!(input, "yt_dlp_out/req.mp4");
            assert_eq!(output, "yt_dlp_out/req_reencoded.mp4");
            assert_eq!(*settings, TranscodeSettings::Bitrate { video_kbps: 1270, audio_kbps: 128 });
        }
        other => panic!("expected a transcode, got {other:?}"),
    }
    match acq.step(Event::TranscodeDone { succeeded: true }) {
        Action::Deliver { media, discard } => {
            assert_eq!(media.path, "yt_dlp_out/req_reencoded.mp4");
            assert_ne!(media.path, "yt_dlp_out/req.mp4");
            assert_eq!(discard.as_deref(), Some("yt_dlp_out/req.mp4"));
        }
        other => panic!("expected delivery, got {other:?}"),
    }
    assert_eq!(acq.phase, Phase::Finished);
    assert!(matches!(acq.step(Event::TranscodeDone { succeeded: true }), Action::Fail(AcquireError::OutOfOrder)));
}

#[test]
fn compatible_output_is_delivered_as_is() {
    let (mut acq, _) = download("u");
    let dump = ExtractorDump { requested_urls: vec!["https://cdn/one.mp4".to_string()], url: "https://top".to_string() };
    acq.step(extracted(Some(dump)));
    match acq.step(Event::ProbeDone(Ok(MediaProbe::Probed { is_discord_compatible: true, duration_ms: 5 }))) {
        Action::Deliver { media, discard } => {
            assert_eq!(media.path, "yt_dlp_out/req.mp4");
            assert_eq!(media.url.as_deref(), Some("https://cdn/one.mp4"));
            assert!(discard.is_none());
        }
        other => panic!("expected delivery, got {other:?}"),
    }
}

#[test]
fn corrupt_output_uses_constant_quality() {
    let (mut acq, _) = download("u");
    acq.step(extracted(None));
    match acq.step(Event::ProbeDone(Ok(MediaProbe::Corrupt))) {
        Action::RunTranscode { settings, .. } => assert_eq!(settings, TranscodeSettings::ConstantQuality { crf: 23 }),
        other => panic!("expected a transcode, got {other:?}"),
    }
    match acq.step(Event::TranscodeDone { succeeded: false }) {
        Action::Deliver { media, discard } => {
            assert_eq!(media.path, "yt_dlp_out/req.mp4");
            assert!(discard.is_none());
        }
        other => panic!("expected delivery, got {other:?}"),
    }
}

#[test]
fn long_or_unprobed_output_is_delivered_original() {
    let (mut acq, _) = download("u");
    acq.step(extracted(None));
    let a = acq.step(Event::ProbeDone(Ok(MediaProbe::Probed { is_discord_compatible: false, duration_ms: 600_000 })));
    assert!(matches!(a, Action::Deliver { discard: None, .. }));
    let (mut acq, _) = download("u");
    acq.step(extracted(None));
    let a = acq.step(Event::ProbeDone(Err(ProbeError::Unavailable)));
    assert!(matches!(a, Action::Deliver { discard: None, .. }));
}

#[test]
fn extraction_is_retried_then_fails() {
    let (mut acq, _) = download("https://example.com/v");
    let retry = acq.step(Event::ExtractorDone { success: false, output_exists: false, dump: None });
    match retry {
        Action::RunExtractor { url, out_path, check_for_update } => {
            assert_eq!(url, "https://example.com/v");
            assert_eq!(out_path, "yt_dlp_out/req.mp4");
            assert!(!check_for_update);
        }
        other => panic!("expected a retry, got {other:?}"),
    }
    let last = acq.step(Event::ExtractorDone { success: true, output_exists: false, dump: None });
    assert!(matches!(last, Action::Fail(AcquireError::OutputMissing)));
    let (mut acq, _) = download("u");
    acq.step(Event::ExtractorDone { success: false, output_exists: true, dump: None });
    let last = acq.step(Event::ExtractorDone { success: false, output_exists: true, dump: None });
    assert!(matches!(last, Action::Fail(AcquireError::ExtractorFailed)));
}

#[test]
fn source_url_prefers_single_requested_download() {
    let one = ExtractorDump { requested_urls: vec!["a".to_string()], url: "top".to_string() };
    assert_eq!(canonical_source_url(Some(one)), Some("a".to_string()));
    let two = ExtractorDump { requested_urls: vec!["a".to_string(), "b".to_string()], url: "top".to_string() };
    assert_eq!(canonical_source_url(Some(two)), Some("top".to_string()));
    assert_eq!(canonical_source_url(None), None);
}

#[test]
fn paths_and_targets() {
    let p = media_paths("abc");
    assert_eq!(p.raw, "yt_dlp_out/abc.mp4");
    assert_eq!(p.reencoded, "yt_dlp_out/abc_reencoded.mp4");
    assert_eq!(resolve_target("orig", None), "orig");
    assert_eq!(resolve_target("orig", Some("final".to_string())), "final");
}

#[test]
fn slideshow_links_are_dispatched() {
    match Acquisition::begin("https://vm.example/x", Some("https://www.tiktok.com/@a/photo/99".to_string())) {
        Dispatch::Slideshow { photo_id, out_path } => {
            assert_eq!(photo_id, "99");
            assert!(out_path.starts_with("yt_dlp_out/") && out_path.ends_with(".mp4"));
            assert_eq!(out_path.len(), "yt_dlp_out/".len() + 36 + 4);
        }
        other => panic!("expected a slideshow, got {other:?}"),
    }
    match Acquisition::begin("https://example.com/v", None) {
        Dispatch::Download { acquisition, action } => {
            assert_eq!(acquisition.url, "https://example.com/v");
            assert!(matches!(action, Action::RunExtractor { .. }));
        }
        other => panic!("expected a download, got {other:?}"),
    }
}

#[test]
fn extractor_arguments_end_with_output_and_link() {
    let args = extractor_args("o.mp4", "https://v");
    assert_eq!(args[0], "-f");
    assert_eq!(args[1], FORMAT_SELECTION);
    assert_eq!(&args[args.len() - 3..], &["-o", "o.mp4", "https://v"]);
}
