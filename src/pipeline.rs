//! Acquisition of one link: dispatch to the slideshow path or the extraction
//! tool, then probe, conditional transcode and delivery, as a state machine
//! whose actions the caller performs and whose events it reports back.
use vstd::prelude::*;
use vstd::string::StringExecFns;
use crate::matching::first_group_capture;
use crate::probe::{MediaProbe, ProbeError};
use crate::slideshow::{get_tiktok_photo_id_from_url, PHOTO_URL_PATTERN};
use crate::transcode::{settings_for, transcode_settings, TranscodeSettings, TARGET_SIZE_BYTES};
use crate::text::{push_str, string_of};

verus! {

/// Scratch directory of in-flight acquisitions.
pub const OUTPUT_DIR: &'static str = "yt_dlp_out";

/// Format selection of the extraction tool: combined streams under the size
/// budget first, H.264 preferred, falling back step by step to the best
/// available.
pub const FORMAT_SELECTION: &'static str = "http*[filesize<10M]/best[filesize<10MB]/http*[filesize<8M]+http*[filesize<2M]/http*[filesize<8M]/bestvideo[filesize<8MB]+bestaudio[filesize<2MB]/bestvideo[filesize<8MB]+bestaudio/best/bestvideo+bestaudio";

/// How many times the extraction tool is run for one link before giving up.
pub const MAX_EXTRACT_ATTEMPTS: u64 = 2;

/// A media file ready for delivery, with the source URL that the extraction
/// tool reported, if any.
#[derive(Debug, Clone)]
pub struct DownloadedMedia {
    pub path: String,
    pub url: Option<String>,
}

/// The parts of the extraction tool's structured output that matter here.
#[derive(Debug, Clone)]
pub struct ExtractorDump {
    /// The URL of each requested download.
    pub requested_urls: Vec<String>,
    pub url: String,
}

/// The files of one acquisition: the raw extraction output and the
/// transcoded copy.
#[derive(Debug, Clone)]
pub struct MediaPaths {
    pub raw: String,
    pub reencoded: String,
}

/// Why an acquisition produced no media.
#[derive(Debug, Clone, Copy, PartialEq, Eq, Structural)]
pub enum AcquireError {
    /// The extraction tool kept failing.
    ExtractorFailed,
    /// The extraction tool succeeded but left no output file.
    OutputMissing,
    /// An event came that the acquisition was not waiting for.
    OutOfOrder,
}

/// Where an acquisition stands.
#[derive(Debug, Clone, Copy, PartialEq, Eq, Structural)]
pub enum Phase {
    /// Waiting for run number `attempt` of the extraction tool.
    Extracting { attempt: u64 },
    Probing,
    Transcoding,
    Finished,
}

/// What the caller is to do next.
#[derive(Debug, Clone)]
pub enum Action {
    /// Run the extraction tool on `url`, writing to `out_path`; first give
    /// the update scheduler a chance where `check_for_update` is set.
    RunExtractor { url: String, out_path: String, check_for_update: bool },
    /// Run the inspection tool on `path`.
    RunProbe { path: String },
    /// Run the transcoder from `input` to `output`.
    RunTranscode { input: String, output: String, settings: TranscodeSettings },
    /// Hand `media` over; delete `discard` first, best-effort, where given.
    Deliver { media: DownloadedMedia, discard: Option<String> },
    /// Give up.
    Fail(AcquireError),
}

/// What the caller reports back after performing an action.
#[derive(Debug)]
pub enum Event {
    /// The extraction tool exited; `dump` is its structured output, where it
    /// could be read.
    ExtractorDone { success: bool, output_exists: bool, dump: Option<ExtractorDump> },
    /// The probe's result, or why it could not classify the file.
    ProbeDone(Result<MediaProbe, ProbeError>),
    /// The transcoder exited; `succeeded` where it exited successfully and
    /// its output is a file.
    TranscodeDone { succeeded: bool },
}

/// One acquisition in progress.
#[derive(Debug, Clone)]
pub struct Acquisition {
    pub phase: Phase,
    /// The link handed to the extraction tool.
    pub url: String,
    pub paths: MediaPaths,
    /// The source URL recovered from the extraction tool's output.
    pub source_url: Option<String>,
}

/// How a link is served.
#[derive(Debug, Clone)]
pub enum Dispatch {
    /// A slideshow post: synthesize a video from its images into `out_path`.
    Slideshow { photo_id: String, out_path: String },
    /// Anything else: run the acquisition, starting with `action`.
    Download { acquisition: Acquisition, action: Action },
}

/// The canonical source URL in the extraction tool's output: that of the
/// single requested download, else the top-level one.
pub open spec fn source_url_of(dump: Option<ExtractorDump>) -> Option<String> {
    match dump {
        None => None,
        Some(d) => if d.requested_urls@.len() == 1 {
            Some(d.requested_urls@[0])
        } else {
            Some(d.url)
        },
    }
}

pub open spec fn raw_path_of(request_id: Seq<char>) -> Seq<char> {
    OUTPUT_DIR@ + "/"@ + request_id + ".mp4"@
}

pub open spec fn reencoded_path_of(request_id: Seq<char>) -> Seq<char> {
    OUTPUT_DIR@ + "/"@ + request_id + "_reencoded.mp4"@
}

/// The link to work on: where redirects were followed, their end, else the
/// link as given.
pub open spec fn target_of(requested: Seq<char>, resolved: Option<String>) -> Seq<char> {
    match resolved {
        Some(u) => u@,
        None => requested,
    }
}

/// Ending an acquisition with the raw output.
pub open spec fn deliver_raw(s: Acquisition) -> (Acquisition, Action) {
    (
        Acquisition { phase: Phase::Finished, ..s },
        Action::Deliver {
            media: DownloadedMedia { path: s.paths.raw, url: s.source_url },
            discard: None,
        },
    )
}

/// Transcoding the raw output for a known or unknown duration, or, where the
/// bitrate budget is too low, delivering it as it is.
pub open spec fn transcode_or_deliver(s: Acquisition, duration_ms: Option<u64>) -> (
    Acquisition,
    Action,
) {
    match settings_for(TARGET_SIZE_BYTES, duration_ms) {
        Ok(settings) => (
            Acquisition { phase: Phase::Transcoding, ..s },
            Action::RunTranscode { input: s.paths.raw, output: s.paths.reencoded, settings },
        ),
        Err(_) => deliver_raw(s),
    }
}

pub open spec fn out_of_order(s: Acquisition) -> (Acquisition, Action) {
    (Acquisition { phase: Phase::Finished, ..s }, Action::Fail(AcquireError::OutOfOrder))
}

/// The transition of an acquisition on an event.
pub open spec fn next(s: Acquisition, e: Event) -> (Acquisition, Action) {
    match s.phase {
        Phase::Extracting { attempt } => match e {
            Event::ExtractorDone { success, output_exists, dump } => {
                if success && output_exists {
                    (
                        Acquisition { phase: Phase::Probing, source_url: source_url_of(dump), ..s },
                        Action::RunProbe { path: s.paths.raw },
                    )
                } else if attempt < MAX_EXTRACT_ATTEMPTS {
                    (
                        Acquisition { phase: Phase::Extracting { attempt: (attempt + 1) as u64 }, ..s },
                        Action::RunExtractor {
                            url: s.url,
                            out_path: s.paths.raw,
                            check_for_update: false,
                        },
                    )
                } else {
                    (
                        Acquisition { phase: Phase::Finished, ..s },
                        Action::Fail(
                            if success {
                                AcquireError::OutputMissing
                            } else {
                                AcquireError::ExtractorFailed
                            },
                        ),
                    )
                }
            },
            _ => out_of_order(s),
        },
        Phase::Probing => match e {
            Event::ProbeDone(res) => match res {
                Ok(MediaProbe::Corrupt) => transcode_or_deliver(s, None),
                Ok(MediaProbe::Probed { is_discord_compatible, duration_ms }) => {
                    if is_discord_compatible {
                        deliver_raw(s)
                    } else {
                        transcode_or_deliver(s, Some(duration_ms))
                    }
                },
                Err(_) => deliver_raw(s),
            },
            _ => out_of_order(s),
        },
        Phase::Transcoding => match e {
            Event::TranscodeDone { succeeded } => {
                if succeeded {
                    (
                        Acquisition { phase: Phase::Finished, ..s },
                        Action::Deliver {
                            media: DownloadedMedia { path: s.paths.reencoded, url: s.source_url },
                            discard: Some(s.paths.raw),
                        },
                    )
                } else {
                    deliver_raw(s)
                }
            },
            _ => out_of_order(s),
        },
        Phase::Finished => (s, Action::Fail(AcquireError::OutOfOrder)),
    }
}

fn clone_opt(o: &Option<String>) -> (r: Option<String>)
    ensures
        r == *o,
{
    match o {
        Some(s) => Some(s.clone()),
        None => None,
    }
}

/// The canonical source URL in the extraction tool's output.
pub fn canonical_source_url(dump: Option<ExtractorDump>) -> (r: Option<String>)
    ensures
        r == source_url_of(dump),
{
    match dump {
        None => None,
        Some(d) => {
            if d.requested_urls.len() == 1 {
                Some(d.requested_urls[0].clone())
            } else {
                Some(d.url)
            }
        },
    }
}

/// The files of the acquisition identified by `request_id`.
pub fn media_paths(request_id: &str) -> (r: MediaPaths)
    ensures
        r.raw@ == raw_path_of(request_id@),
        r.reencoded@ == reencoded_path_of(request_id@),
        r.raw@ != r.reencoded@,
{
    let mut raw: Vec<char> = Vec::new();
    push_str(&mut raw, OUTPUT_DIR);
    push_str(&mut raw, "/");
    push_str(&mut raw, request_id);
    push_str(&mut raw, ".mp4");
    let mut reencoded: Vec<char> = Vec::new();
    push_str(&mut reencoded, OUTPUT_DIR);
    push_str(&mut reencoded, "/");
    push_str(&mut reencoded, request_id);
    push_str(&mut reencoded, "_reencoded.mp4");
    proof {
        reveal_strlit(".mp4");
        reveal_strlit("_reencoded.mp4");
    }
    assert(raw@.len() != reencoded@.len());
    MediaPaths { raw: string_of(&raw), reencoded: string_of(&reencoded) }
}

/// Relies on `uuid::Uuid::new_v4` and its hyphenated text form: a fresh
/// random identifier of 36 characters.
#[verifier::external_body]
fn new_request_id() -> (r: String)
    ensures
        r@.len() == 36,
{
    uuid::Uuid::new_v4().to_string()
}

/// The link to work on, given the outcome of following its redirects.
pub fn resolve_target(requested: &str, resolved: Option<String>) -> (r: String)
    ensures
        r@ == target_of(requested@, resolved),
{
    match resolved {
        Some(u) => u,
        None => String::from_str(requested),
    }
}

impl Acquisition {
    /// An acquisition of `url` into `paths`, with the first run of the
    /// extraction tool to perform.
    pub fn new(url: String, paths: MediaPaths) -> (r: (Acquisition, Action))
        ensures
            r.0 == (Acquisition {
                phase: Phase::Extracting { attempt: 1 },
                url,
                paths,
                source_url: None,
            }),
            r.1 == (Action::RunExtractor { url, out_path: paths.raw, check_for_update: true }),
    {
        let action = Action::RunExtractor {
            url: url.clone(),
            out_path: paths.raw.clone(),
            check_for_update: true,
        };
        (Acquisition { phase: Phase::Extracting { attempt: 1 }, url, paths, source_url: None }, action)
    }

    /// Serves `target` under `request_id`: a slideshow post where
    /// `photo_id`, the post identifier recognised in the link, is given,
    /// otherwise a download.
    pub fn dispatch(target: String, photo_id: Option<String>, request_id: &str) -> (r: Dispatch)
        ensures
            match photo_id {
                Some(id) => r matches Dispatch::Slideshow { photo_id: p, out_path } && p == id
                    && out_path@ == raw_path_of(request_id@),
                None => r matches Dispatch::Download { acquisition, action } && acquisition.phase
                    == (Phase::Extracting { attempt: 1 }) && acquisition.url == target
                    && acquisition.paths.raw@ == raw_path_of(request_id@)
                    && acquisition.paths.reencoded@ == reencoded_path_of(request_id@)
                    && acquisition.paths.raw@ != acquisition.paths.reencoded@
                    && acquisition.source_url is None && action == (Action::RunExtractor {
                    url: target,
                    out_path: acquisition.paths.raw,
                    check_for_update: true,
                }),
            },
    {
        let paths = media_paths(request_id);
        match photo_id {
            Some(id) => Dispatch::Slideshow { photo_id: id, out_path: paths.raw },
            None => {
                let (acquisition, action) = Acquisition::new(target, paths);
                Dispatch::Download { acquisition, action }
            },
        }
    }

    /// Starts the acquisition of `requested`, given the end of its redirects
    /// where they could be followed, under a fresh request identifier.
    pub fn begin(requested: &str, resolved: Option<String>) -> (r: Dispatch)
        ensures
            match r {
                Dispatch::Slideshow { photo_id, out_path } => {
                    &&& first_group_capture(PHOTO_URL_PATTERN@, target_of(requested@, resolved))
                        == Some(photo_id@)
                    &&& exists|id: Seq<char>| id.len() == 36 && out_path@ == raw_path_of(id)
                },
                Dispatch::Download { acquisition, action } => {
                    &&& first_group_capture(
                        PHOTO_URL_PATTERN@,
                        target_of(requested@, resolved),
                    ) is None
                    &&& acquisition.url@ == target_of(requested@, resolved)
                    &&& acquisition.phase == (Phase::Extracting { attempt: 1 })
                    &&& acquisition.paths.raw@ != acquisition.paths.reencoded@
                    &&& exists|id: Seq<char>|
                        id.len() == 36 && acquisition.paths.raw@ == raw_path_of(id)
                            && acquisition.paths.reencoded@ == reencoded_path_of(id)
                    &&& action == (Action::RunExtractor {
                        url: acquisition.url,
                        out_path: acquisition.paths.raw,
                        check_for_update: true,
                    })
                },
            },
    {
        let target = resolve_target(requested, resolved);
        let photo_id = get_tiktok_photo_id_from_url(target.as_str());
        let request_id = new_request_id();
        let ghost target_view = target@;
        let ghost found = photo_id;
        let r = Acquisition::dispatch(target, photo_id, request_id.as_str());
        assert(target_view == target_of(requested@, resolved));
        assert(r matches Dispatch::Slideshow { photo_id: p, .. } ==> found == Some(p));
        assert(r matches Dispatch::Slideshow { out_path, .. } ==> out_path@ == raw_path_of(
            request_id@,
        ));
        r
    }

    /// Advances the acquisition on `event` and returns the next action.
    pub fn step(&mut self, event: Event) -> (a: Action)
        ensures
            (*final(self), a) == next(*old(self), event),
    {
        match self.phase {
            Phase::Extracting { attempt } => match event {
                Event::ExtractorDone { success, output_exists, dump } => {
                    if success && output_exists {
                        self.phase = Phase::Probing;
                        self.source_url = canonical_source_url(dump);
                        Action::RunProbe { path: self.paths.raw.clone() }
                    } else if attempt < MAX_EXTRACT_ATTEMPTS {
                        self.phase = Phase::Extracting { attempt: attempt + 1 };
                        Action::RunExtractor {
                            url: self.url.clone(),
                            out_path: self.paths.raw.clone(),
                            check_for_update: false,
                        }
                    } else {
                        self.phase = Phase::Finished;
                        Action::Fail(
                            if success {
                                AcquireError::OutputMissing
                            } else {
                                AcquireError::ExtractorFailed
                            },
                        )
                    }
                },
                _ => self.fail_out_of_order(),
            },
            Phase::Probing => match event {
                Event::ProbeDone(res) => match res {
                    Ok(MediaProbe::Corrupt) => self.transcode_or_deliver(None),
                    Ok(MediaProbe::Probed { is_discord_compatible, duration_ms }) => {
                        if is_discord_compatible {
                            self.deliver_raw()
                        } else {
                            self.transcode_or_deliver(Some(duration_ms))
                        }
                    },
                    Err(_) => self.deliver_raw(),
                },
                _ => self.fail_out_of_order(),
            },
            Phase::Transcoding => match event {
                Event::TranscodeDone { succeeded } => {
                    if succeeded {
                        self.phase = Phase::Finished;
                        Action::Deliver {
                            media: DownloadedMedia {
                                path: self.paths.reencoded.clone(),
                                url: clone_opt(&self.source_url),
                            },
                            discard: Some(self.paths.raw.clone()),
                        }
                    } else {
                        self.deliver_raw()
                    }
                },
                _ => self.fail_out_of_order(),
            },
            Phase::Finished => Action::Fail(AcquireError::OutOfOrder),
        }
    }

    fn deliver_raw(&mut self) -> (a: Action)
        ensures
            (*final(self), a) == deliver_raw(*old(self)),
    {
        self.phase = Phase::Finished;
        Action::Deliver {
            media: DownloadedMedia { path: self.paths.raw.clone(), url: clone_opt(&self.source_url) },
            discard: None,
        }
    }

    fn transcode_or_deliver(&mut self, duration_ms: Option<u64>) -> (a: Action)
        ensures
            (*final(self), a) == transcode_or_deliver(*old(self), duration_ms),
    {
        match transcode_settings(TARGET_SIZE_BYTES, duration_ms) {
            Ok(settings) => {
                self.phase = Phase::Transcoding;
                Action::RunTranscode {
                    input: self.paths.raw.clone(),
                    output: self.paths.reencoded.clone(),
                    settings,
                }
            },
            Err(_) => self.deliver_raw(),
        }
    }

    fn fail_out_of_order(&mut self) -> (a: Action)
        ensures
            (*final(self), a) == out_of_order(*old(self)),
    {
        self.phase = Phase::Finished;
        Action::Fail(AcquireError::OutOfOrder)
    }
}

/// A download whose output probes as not delivery-compatible, for a
/// duration that leaves the video enough bitrate, is transcoded exactly once
/// and delivered from a path other than the raw extraction output, which is
/// discarded.
pub proof fn lemma_incompatible_output_transcoded_once(
    s0: Acquisition,
    dump: Option<ExtractorDump>,
    duration_ms: u64,
    later: Event,
)
    requires
        s0.phase is Extracting,
        s0.paths.raw@ != s0.paths.reencoded@,
        settings_for(TARGET_SIZE_BYTES, Some(duration_ms)) is Ok,
    ensures
        ({
            let (s1, a1) = next(
                s0,
                Event::ExtractorDone { success: true, output_exists: true, dump },
            );
            let (s2, a2) = next(
                s1,
                Event::ProbeDone(
                    Ok(MediaProbe::Probed { is_discord_compatible: false, duration_ms }),
                ),
            );
            let (s3, a3) = next(s2, Event::TranscodeDone { succeeded: true });
            &&& a1 is RunProbe
            &&& a2 matches Action::RunTranscode { input, output, .. } && input == s0.paths.raw
                && output == s0.paths.reencoded
            &&& a3 matches Action::Deliver { media, discard } && media.path == s0.paths.reencoded
                && media.path@ != s0.paths.raw@ && discard == Some(s0.paths.raw)
            &&& s3.phase is Finished
            &&& !(next(s3, later).1 is RunTranscode)
            &&& next(s3, later).0 == s3
        }),
{
}

/// Extraction is retried a bounded number of times: from a run within the
/// bound, the next state is either past extraction or a run within the bound.
pub proof fn lemma_extraction_attempts_bounded(s: Acquisition, e: Event)
    requires
        s.phase matches Phase::Extracting { attempt } && 1 <= attempt <= MAX_EXTRACT_ATTEMPTS,
    ensures
        next(s, e).0.phase matches Phase::Extracting { attempt } ==> 1 <= attempt
            <= MAX_EXTRACT_ATTEMPTS,
        next(s, e).1 is RunExtractor ==> (next(s, e).0.phase matches Phase::Extracting { attempt }
            && attempt > s.phase->attempt),
{
}

/// The arguments of the extraction tool for one run.
pub open spec fn extractor_args_spec(out_path: Seq<char>, url: Seq<char>) -> Seq<Seq<char>> {
    seq![
        "-f"@,
        FORMAT_SELECTION@,
        "-S"@,
        "vcodec:h264"@,
        "--merge-output-format"@,
        "mp4"@,
        "--ignore-config"@,
        "--verbose"@,
        "--no-playlist"@,
        "--no-warnings"@,
        "-o"@,
        out_path,
        url,
    ]
}

fn push_arg(args: &mut Vec<String>, a: &str)
    ensures
        final(args)@.map_values(|s: String| s@) == old(args)@.map_values(|s: String| s@).push(a@),
{
    args.push(String::from_str(a));
    assert(args@.map_values(|s: String| s@) =~= old(args)@.map_values(|s: String| s@).push(a@));
}

/// The arguments of the extraction tool: the format policy, the output path
/// and the link.
pub fn extractor_args(out_path: &str, url: &str) -> (r: Vec<String>)
    ensures
        r@.map_values(|s: String| s@) == extractor_args_spec(out_path@, url@),
{
    let mut args: Vec<String> = Vec::new();
    push_arg(&mut args, "-f");
    push_arg(&mut args, FORMAT_SELECTION);
    push_arg(&mut args, "-S");
    push_arg(&mut args, "vcodec:h264");
    push_arg(&mut args, "--merge-output-format");
    push_arg(&mut args, "mp4");
    push_arg(&mut args, "--ignore-config");
    push_arg(&mut args, "--verbose");
    push_arg(&mut args, "--no-playlist");
    push_arg(&mut args, "--no-warnings");
    push_arg(&mut args, "-o");
    push_arg(&mut args, out_path);
    push_arg(&mut args, url);
    assert(args@.map_values(|s: String| s@) =~= extractor_args_spec(out_path@, url@));
    args
}

} // verus!
