//! The managed extraction tool: where each build is kept, when a cached
//! build is reused, when a newer build is fetched, and when to look for one.
use vstd::prelude::*;
use vstd::string::StrSliceExecFns;
use crate::release::{pick_release, tool_release_view, Release, Releases, ToolRelease};
use crate::text::{push_chars, push_str, string_of};

verus! {

/// Directory that holds the downloaded builds.
pub const ARTIFACT_DIR: &'static str = "yt_dlp_exe";

/// Prefix of the file name of every downloaded build.
pub const ARTIFACT_PREFIX: &'static str = "yt_dlp_";

/// Milliseconds between two looks at the release feed.
pub const UPDATE_CHECK_INTERVAL_MS: u64 = 30 * 60 * 1000;

pub open spec fn is_ascii_alphanumeric(c: char) -> bool {
    ('0' <= c && c <= '9') || ('a' <= c && c <= 'z') || ('A' <= c && c <= 'Z')
}

/// A version tag made safe for a file name: every character that is not an
/// ASCII letter or digit becomes `-`.
pub open spec fn fs_safe(tag: Seq<char>) -> Seq<char> {
    Seq::new(tag.len(), |i: int| if is_ascii_alphanumeric(tag[i]) { tag[i] } else { '-' })
}

/// Index of the last `.` in `s`, or -1.
pub open spec fn last_dot(s: Seq<char>) -> int
    decreases s.len(),
{
    if s.len() == 0 {
        -1
    } else if s.last() == '.' {
        s.len() - 1
    } else {
        last_dot(s.drop_last())
    }
}

/// The extension of a file name: what follows its last `.`, where that `.`
/// is not the first character. Empty where there is none.
pub open spec fn extension_of(name: Seq<char>) -> Seq<char> {
    let k = last_dot(name);
    if k <= 0 {
        Seq::empty()
    } else {
        name.subrange(k + 1, name.len() as int)
    }
}

/// Where the build with version `tag` is kept, for an executable named
/// `exe_name`: its extension is kept, its stem replaced by one made from the
/// tag.
pub open spec fn artifact_path(tag: Seq<char>, exe_name: Seq<char>) -> Seq<char> {
    let ext = extension_of(exe_name);
    ARTIFACT_DIR@ + "/"@ + ARTIFACT_PREFIX@ + fs_safe(tag) + if ext.len() > 0 {
        "."@ + ext
    } else {
        Seq::empty()
    }
}

fn ascii_alphanumeric(c: char) -> (r: bool)
    ensures
        r == is_ascii_alphanumeric(c),
{
    ('0' <= c && c <= '9') || ('a' <= c && c <= 'z') || ('A' <= c && c <= 'Z')
}

/// The file-name-safe form of a version tag.
pub fn fs_tag_name(tag: &str) -> (r: Vec<char>)
    ensures
        r@ == fs_safe(tag@),
{
    let n = tag.unicode_len();
    let mut out: Vec<char> = Vec::new();
    let mut i: usize = 0;
    while i < n
        invariant
            n == tag@.len(),
            i <= n,
            out@ == fs_safe(tag@).subrange(0, i as int),
        decreases n - i,
    {
        let c = tag.get_char(i);
        if ascii_alphanumeric(c) {
            out.push(c);
        } else {
            out.push('-');
        }
        assert(out@ =~= fs_safe(tag@).subrange(0, i + 1));
        i = i + 1;
    }
    assert(out@ =~= fs_safe(tag@));
    out
}

proof fn lemma_last_dot(s: Seq<char>, i: int)
    requires
        -1 <= i < s.len(),
        i >= 0 ==> s[i] == '.',
        forall|j: int| i < j < s.len() ==> s[j] != '.',
    ensures
        last_dot(s) == i,
    decreases s.len(),
{
    if s.len() > 0 && s.len() - 1 != i {
        assert(s.last() != '.');
        let t = s.drop_last();
        assert forall|j: int| i < j < t.len() implies t[j] != '.' by {
            assert(t[j] == s[j]);
        }
        lemma_last_dot(t, i);
    }
}

/// The extension of an executable's file name.
pub fn file_extension(name: &str) -> (r: Vec<char>)
    ensures
        r@ == extension_of(name@),
{
    let n = name.unicode_len();
    let mut k: usize = n;
    while k > 0 && name.get_char(k - 1) != '.'
        invariant
            n == name@.len(),
            k <= n,
            forall|j: int| k <= j < n ==> name@[j] != '.',
        decreases k,
    {
        k = k - 1;
    }
    proof {
        lemma_last_dot(name@, k - 1);
    }
    let mut out: Vec<char> = Vec::new();
    if k <= 1 {
        return out;
    }
    let mut i: usize = k;
    while i < n
        invariant
            n == name@.len(),
            k <= i <= n,
            out@ == name@.subrange(k as int, i as int),
        decreases n - i,
    {
        out.push(name.get_char(i));
        assert(out@ =~= name@.subrange(k as int, i + 1));
        i = i + 1;
    }
    out
}

/// One build of the extraction tool on disk.
#[derive(Debug, Clone)]
pub struct YtDlp {
    pub tag_name: String,
    pub exe_path: String,
}

/// What a refresh of the managed build has to do.
#[derive(Debug, Clone)]
pub enum RefreshPlan {
    /// The feed offers no build for this platform.
    NoRelease,
    /// The build in use is the newest one.
    AlreadyCurrent,
    /// A different build is to be fetched and swapped in.
    Fetch(ToolRelease),
}

/// `p` is the plan for a refresh of the build tagged `installed_tag` against
/// `feed`: a fetch happens only where the tags differ.
pub open spec fn plan_matches(
    p: RefreshPlan,
    installed_tag: Seq<char>,
    feed: Seq<Release>,
    exe_name: Seq<char>,
) -> bool {
    match pick_release(feed, exe_name) {
        None => p is NoRelease,
        Some(t) => if t.0 == installed_tag {
            p is AlreadyCurrent
        } else {
            p matches RefreshPlan::Fetch(r) && tool_release_view(r) == t
        },
    }
}

impl YtDlp {
    /// The build of `release`, kept at its place in the artifact directory.
    pub fn for_release(release: &ToolRelease, exe_name: &str) -> (r: YtDlp)
        ensures
            r.tag_name == release.tag_name,
            r.exe_path@ == artifact_path(release.tag_name@, exe_name@),
    {
        let mut path: Vec<char> = Vec::new();
        push_str(&mut path, ARTIFACT_DIR);
        push_str(&mut path, "/");
        push_str(&mut path, ARTIFACT_PREFIX);
        let safe = fs_tag_name(release.tag_name.as_str());
        push_chars(&mut path, &safe);
        let ext = file_extension(exe_name);
        if ext.len() > 0 {
            push_str(&mut path, ".");
            push_chars(&mut path, &ext);
        }
        assert(path@ =~= artifact_path(release.tag_name@, exe_name@));
        YtDlp { tag_name: release.tag_name.clone(), exe_path: string_of(&path) }
    }

    /// Plans a refresh of this build against the release feed.
    pub fn plan_refresh(&self, feed: &Releases, exe_name: &str) -> (r: RefreshPlan)
        ensures
            plan_matches(r, self.tag_name@, feed.0@, exe_name@),
    {
        match feed.latest(exe_name) {
            None => RefreshPlan::NoRelease,
            Some(t) => {
                if t.tag_name == self.tag_name {
                    RefreshPlan::AlreadyCurrent
                } else {
                    RefreshPlan::Fetch(t)
                }
            },
        }
    }
}

/// Whether a file already on disk can stand for a build of `expected_size`
/// bytes: it must exist and have exactly that size.
pub fn artifact_reusable(existing_size: Option<u64>, expected_size: u64) -> (r: bool)
    ensures
        r == (existing_size == Some(expected_size)),
{
    match existing_size {
        Some(s) => s == expected_size,
        None => false,
    }
}

/// Once the build picked from a feed has been fetched and installed, a
/// second refresh against the same feed plans no download.
pub proof fn lemma_refresh_settles(
    feed: Seq<Release>,
    exe_name: Seq<char>,
    fetched: ToolRelease,
    installed: YtDlp,
    second: RefreshPlan,
)
    requires
        pick_release(feed, exe_name) == Some(tool_release_view(fetched)),
        installed.tag_name == fetched.tag_name,
        plan_matches(second, installed.tag_name@, feed, exe_name),
    ensures
        second is AlreadyCurrent,
{
}

/// The time of the last look at the release feed, which decides whether a
/// request should trigger another.
#[derive(Debug, Clone, Copy, PartialEq, Eq, Structural)]
pub struct UpdateScheduler {
    /// Milliseconds on a monotonic clock.
    pub last_check_ms: u64,
}

/// Whether a look at the feed is due at `now_ms`.
pub open spec fn check_due(last_check_ms: u64, now_ms: u64) -> bool {
    now_ms > last_check_ms && now_ms - last_check_ms > UPDATE_CHECK_INTERVAL_MS
}

impl UpdateScheduler {
    /// A scheduler whose last look was at `now_ms`.
    pub fn new(now_ms: u64) -> (r: UpdateScheduler)
        ensures
            r.last_check_ms == now_ms,
    {
        UpdateScheduler { last_check_ms: now_ms }
    }

    /// Decides at `now_ms` whether to look at the feed; where it does, the
    /// look is recorded as made now.
    pub fn try_begin(&mut self, now_ms: u64) -> (r: bool)
        ensures
            r == check_due(old(self).last_check_ms, now_ms),
            r ==> final(self).last_check_ms == now_ms,
            !r ==> *final(self) == *old(self),
    {
        if now_ms > self.last_check_ms && now_ms - self.last_check_ms > UPDATE_CHECK_INTERVAL_MS {
            self.last_check_ms = now_ms;
            true
        } else {
            false
        }
    }
}

} // verus!
