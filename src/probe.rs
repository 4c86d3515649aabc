//! Classification of a media file from the output of the inspection tool.
use vstd::prelude::*;
use crate::text::{chars_of, contains, contains_seq, str_eq};

verus! {

/// Largest file size, in bytes, that the chat platform accepts as an upload
/// (exclusive).
pub const DISCORD_FILE_SIZE_LIMIT: u64 = 10 * 1024 * 1024;

/// Text that the inspection tool prints when it meets a damaged packet.
pub const CORRUPTION_MARKER: &'static str = "Packet corrupt";

/// What a probe found out about a media file.
#[derive(Debug, Clone, Copy, PartialEq, Eq, Structural)]
pub enum MediaProbe {
    /// The file holds damaged packets and must be re-encoded.
    Corrupt,
    /// The file could be read; `duration_ms` is its length in milliseconds.
    Probed { is_discord_compatible: bool, duration_ms: u64 },
}

/// One stream as the inspection tool reports it.
#[derive(Debug, Clone)]
pub struct ProbeStream {
    pub codec_name: String,
    pub codec_type: String,
}

/// The structured part of the inspection tool's output.
#[derive(Debug, Clone)]
pub struct ProbeReport {
    pub streams: Vec<ProbeStream>,
    /// The container duration in seconds, as the tool prints it (`"12.345000"`).
    pub duration: String,
}

/// Why a probe gave no classification.
#[derive(Debug, Clone, Copy, PartialEq, Eq, Structural)]
pub enum ProbeError {
    /// The file could not be inspected or the tool could not be started.
    Unavailable,
    /// The tool exited with a failure status and printed no corruption marker.
    ProcessFailed,
    /// The tool's output could not be read as a report.
    MalformedOutput,
    /// The reported duration is not a decimal number of seconds that fits.
    MalformedDuration,
}

pub open spec fn is_video(s: ProbeStream) -> bool {
    s.codec_type@ == "video"@
}

/// A stream that the platform plays as it is: H.264 video or AAC audio.
pub open spec fn stream_accepted(s: ProbeStream) -> bool {
    ||| (s.codec_type@ == "video"@ && s.codec_name@ == "h264"@)
    ||| (s.codec_type@ == "audio"@ && s.codec_name@ == "aac"@)
}

/// A file is delivery-compatible when it is under the size limit, holds at
/// least one video stream, and every stream is accepted.
pub open spec fn delivery_compatible(size: u64, streams: Seq<ProbeStream>) -> bool {
    &&& size < DISCORD_FILE_SIZE_LIMIT
    &&& exists|i: int| 0 <= i < streams.len() && is_video(#[trigger] streams[i])
    &&& forall|i: int| 0 <= i < streams.len() ==> stream_accepted(#[trigger] streams[i])
}

pub open spec fn is_digit(c: char) -> bool {
    '0' <= c && c <= '9'
}

pub open spec fn digit_value(c: char) -> nat {
    (c as int - '0' as int) as nat
}

pub open spec fn all_digits(s: Seq<char>) -> bool {
    forall|i: int| 0 <= i < s.len() ==> is_digit(#[trigger] s[i])
}

/// The value of a string of decimal digits.
pub open spec fn digits_value(s: Seq<char>) -> nat
    decreases s.len(),
{
    if s.len() == 0 {
        0
    } else {
        digits_value(s.drop_last()) * 10 + digit_value(s.last())
    }
}

/// How many decimal digits `s` starts with.
pub open spec fn leading_digits(s: Seq<char>) -> nat
    decreases s.len(),
{
    if s.len() > 0 && is_digit(s[0]) {
        1 + leading_digits(s.drop_first())
    } else {
        0
    }
}

pub open spec fn frac_digit(f: Seq<char>, i: int) -> nat {
    if i < f.len() {
        digit_value(f[i])
    } else {
        0
    }
}

/// Seconds written as digits, optionally followed by a point and more digits.
pub open spec fn seconds_text_valid(s: Seq<char>) -> bool {
    let k = leading_digits(s) as int;
    &&& k > 0
    &&& k == s.len() || (s[k as int] == '.' && all_digits(s.subrange(k + 1int, s.len() as int)))
}

/// The milliseconds that a valid seconds text denotes; digits past the third
/// fractional one are dropped.
pub open spec fn seconds_text_millis(s: Seq<char>) -> nat {
    let k = leading_digits(s) as int;
    let f = s.subrange(k + 1int, s.len() as int);
    digits_value(s.subrange(0, k as int)) * 1000 + if k < s.len() {
        frac_digit(f, 0) * 100 + frac_digit(f, 1) * 10 + frac_digit(f, 2)
    } else {
        0
    }
}

/// The result of reading a seconds text as milliseconds.
pub open spec fn seconds_text_result(s: Seq<char>) -> Option<u64> {
    if seconds_text_valid(s) && seconds_text_millis(s) <= u64::MAX {
        Some(seconds_text_millis(s) as u64)
    } else {
        None
    }
}

/// Whether the tool's output shows the corruption marker on either stream.
pub open spec fn shows_corruption(stdout: Seq<char>, stderr: Seq<char>) -> bool {
    contains_seq(stdout, CORRUPTION_MARKER@) || contains_seq(stderr, CORRUPTION_MARKER@)
}

/// The classification of one run of the inspection tool: the corruption
/// marker wins over everything, then a failed exit is an error, then the
/// report decides.
pub open spec fn classification(
    stdout: Seq<char>,
    stderr: Seq<char>,
    exit_success: bool,
    file_size: u64,
    report: Option<ProbeReport>,
) -> Result<MediaProbe, ProbeError> {
    if shows_corruption(stdout, stderr) {
        Ok(MediaProbe::Corrupt)
    } else if !exit_success {
        Err(ProbeError::ProcessFailed)
    } else {
        match report {
            None => Err(ProbeError::MalformedOutput),
            Some(rep) => match seconds_text_result(rep.duration@) {
                None => Err(ProbeError::MalformedDuration),
                Some(ms) => Ok(
                    MediaProbe::Probed {
                        is_discord_compatible: delivery_compatible(file_size, rep.streams@),
                        duration_ms: ms,
                    },
                ),
            },
        }
    }
}

fn is_ascii_digit(c: char) -> (r: bool)
    ensures
        r == is_digit(c),
{
    '0' <= c && c <= '9'
}

fn value_of_digit(c: char) -> (d: u64)
    requires
        is_digit(c),
    ensures
        d == digit_value(c),
        d < 10,
{
    (c as u32 - '0' as u32) as u64
}

proof fn lemma_leading_digits(s: Seq<char>, i: int)
    requires
        0 <= i <= s.len(),
        all_digits(s.subrange(0, i)),
        i == s.len() || !is_digit(s[i]),
    ensures
        leading_digits(s) == i,
    decreases i,
{
    if i > 0 {
        assert(s.subrange(0, i)[0] == s[0]);
        let t = s.drop_first();
        assert forall|j: int| 0 <= j < i - 1 implies is_digit(#[trigger] t.subrange(0, i - 1)[j]) by {
            assert(t.subrange(0, i - 1)[j] == s.subrange(0, i)[j + 1]);
        }
        if i < s.len() {
            assert(t[i - 1] == s[i]);
        }
        lemma_leading_digits(t, i - 1);
    }
}

/// Reads a duration in seconds, as the inspection tool prints it, as whole
/// milliseconds.
pub fn parse_seconds_millis(s: &str) -> (r: Option<u64>)
    ensures
        r == seconds_text_result(s@),
{
    let c = chars_of(s);
    let n = c.len();
    let limit: u64 = u64::MAX / 1000;
    let mut i: usize = 0;
    let mut value: u64 = 0;
    let mut big = false;
    while i < n && is_ascii_digit(c[i])
        invariant
            n == c@.len(),
            c@ == s@,
            limit == u64::MAX / 1000,
            i <= n,
            all_digits(c@.subrange(0, i as int)),
            !big ==> value == digits_value(c@.subrange(0, i as int)) && value <= limit,
            big ==> digits_value(c@.subrange(0, i as int)) > limit,
        decreases n - i,
    {
        let ghost old_value = digits_value(c@.subrange(0, i as int));
        let d = value_of_digit(c[i]);
        assert(c@.subrange(0, i + 1).drop_last() =~= c@.subrange(0, i as int));
        assert(digits_value(c@.subrange(0, i + 1)) == old_value * 10 + d);
        if !big {
            value = value * 10 + d;
            if value > limit {
                big = true;
            }
        } else {
            assert(old_value * 10 >= old_value) by (nonlinear_arith)
                requires
                    old_value >= 0,
            ;
        }
        assert forall|j: int| 0 <= j < i + 1 implies is_digit(#[trigger] c@.subrange(0, i + 1)[j]) by {
            if j < i {
                assert(c@.subrange(0, i + 1)[j] == c@.subrange(0, i as int)[j]);
            }
        }
        i = i + 1;
    }
    proof {
        lemma_leading_digits(c@, i as int);
    }
    if i == 0 {
        return None;
    }
    let k = i;
    let mut frac: u64 = 0;
    if k < n {
        if c[k] != '.' {
            assert(s@[k as int] != '.');
            assert(!seconds_text_valid(s@));
            return None;
        }
        let mut j: usize = k + 1;
        while j < n
            invariant
                n == c@.len(),
                k < n,
                k + 1 <= j <= n,
                c@ == s@,
                leading_digits(s@) == k,
                all_digits(c@.subrange(k + 1, j as int)),
            decreases n - j,
        {
            if !is_ascii_digit(c[j]) {
                assert(c@.subrange(k + 1, n as int)[j - k - 1] == c[j as int]);
                assert(!seconds_text_valid(s@));
                return None;
            }
            assert forall|t: int| 0 <= t < j + 1 - (k + 1) implies is_digit(
                #[trigger] c@.subrange(k + 1, j + 1)[t],
            ) by {
                if t < j - (k + 1) {
                    assert(c@.subrange(k + 1, j + 1)[t] == c@.subrange(k + 1, j as int)[t]);
                }
            }
            j = j + 1;
        }
        let ghost f = c@.subrange(k + 1, n as int);
        let d0 = if n - k > 1 {
            value_of_digit(c[k + 1])
        } else {
            0
        };
        let d1 = if n - k > 2 {
            value_of_digit(c[k + 2])
        } else {
            0
        };
        let d2 = if n - k > 3 {
            value_of_digit(c[k + 3])
        } else {
            0
        };
        assert(d0 == frac_digit(f, 0));
        assert(d1 == frac_digit(f, 1));
        assert(d2 == frac_digit(f, 2));
        frac = d0 * 100 + d1 * 10 + d2;
    }
    assert(c@.subrange(0, k as int) == s@.subrange(0, leading_digits(s@) as int));
    if big {
        let ghost dv = digits_value(c@.subrange(0, k as int));
        assert(dv * 1000 > u64::MAX) by (nonlinear_arith)
            requires
                dv > limit,
                limit == u64::MAX / 1000,
        ;
        return None;
    }
    if frac > u64::MAX - value * 1000 {
        return None;
    }
    Some(value * 1000 + frac)
}

/// Whether the streams and size meet the delivery contract.
pub fn is_delivery_compatible(size: u64, streams: &Vec<ProbeStream>) -> (r: bool)
    ensures
        r == delivery_compatible(size, streams@),
{
    let n = streams.len();
    let mut any_video = false;
    let mut i: usize = 0;
    while i < n
        invariant
            n == streams@.len(),
            i <= n,
            any_video == exists|j: int| 0 <= j < i && is_video(#[trigger] streams@[j]),
            forall|j: int| 0 <= j < i ==> stream_accepted(#[trigger] streams@[j]),
        decreases n - i,
    {
        let st = &streams[i];
        let video = str_eq(st.codec_type.as_str(), "video");
        let accepted = (video && str_eq(st.codec_name.as_str(), "h264")) || (str_eq(
            st.codec_type.as_str(),
            "audio",
        ) && str_eq(st.codec_name.as_str(), "aac"));
        if !accepted {
            assert(!stream_accepted(streams@[i as int]));
            return false;
        }
        if video {
            any_video = true;
        }
        assert(is_video(streams@[i as int]) == video);
        i = i + 1;
    }
    size < DISCORD_FILE_SIZE_LIMIT && any_video
}

impl MediaProbe {
    /// Classifies one run of the inspection tool on a file of `file_size`
    /// bytes. `report` is the tool's standard output read as a report, `None`
    /// where it could not be read.
    pub fn classify(
        stdout: &str,
        stderr: &str,
        exit_success: bool,
        file_size: u64,
        report: Option<ProbeReport>,
    ) -> (r: Result<MediaProbe, ProbeError>)
        ensures
            r == classification(stdout@, stderr@, exit_success, file_size, report),
            shows_corruption(stdout@, stderr@) ==> r == Ok::<MediaProbe, ProbeError>(
                MediaProbe::Corrupt,
            ),
    {
        let marker = chars_of(CORRUPTION_MARKER);
        if contains(&chars_of(stderr), &marker) || contains(&chars_of(stdout), &marker) {
            return Ok(MediaProbe::Corrupt);
        }
        if !exit_success {
            return Err(ProbeError::ProcessFailed);
        }
        match report {
            None => Err(ProbeError::MalformedOutput),
            Some(rep) => {
                let is_discord_compatible = is_delivery_compatible(file_size, &rep.streams);
                match parse_seconds_millis(rep.duration.as_str()) {
                    None => Err(ProbeError::MalformedDuration),
                    Some(duration_ms) => Ok(MediaProbe::Probed { is_discord_compatible, duration_ms }),
                }
            },
        }
    }
}

} // verus!
