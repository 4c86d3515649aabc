//! Decisions of the delivery layer: which link of a message to serve, when
//! media is too large to upload, when to fall back to a rewritten link, and
//! how a configuration edit is unwrapped from its message.
use vstd::prelude::*;
use vstd::string::StrSliceExecFns;
use crate::probe::DISCORD_FILE_SIZE_LIMIT;
use crate::text::str_eq;

verus! {

/// Prefix of another bot's download command, whose messages are left alone.
pub const FOREIGN_COMMAND_PREFIX: &'static str = ".dl ";

/// Opening fence of a JSON code block.
pub const JSON_FENCE_OPEN: &'static str = "```json\n";

/// Opening fence of a plain code block.
pub const FENCE_OPEN: &'static str = "```\n";

/// Closing fence of a code block.
pub const FENCE_CLOSE: &'static str = "\n```";

/// A link found in a message, with the index of the rule that matched it.
#[derive(Debug, Clone)]
pub struct LinkMatch {
    pub rule_index: usize,
    pub url: String,
}

pub open spec fn starts_with(s: Seq<char>, p: Seq<char>) -> bool {
    p.len() <= s.len() && s.subrange(0, p.len() as int) == p
}

pub open spec fn ends_with(s: Seq<char>, p: Seq<char>) -> bool {
    p.len() <= s.len() && s.subrange(s.len() - p.len(), s.len() as int) == p
}

/// The body of a configuration message: the text inside a code fence where
/// it is fenced, the text itself otherwise.
pub open spec fn unfenced(s: Seq<char>) -> Seq<char> {
    let inner = if starts_with(s, JSON_FENCE_OPEN@) {
        Some(s.subrange(JSON_FENCE_OPEN@.len() as int, s.len() as int))
    } else if starts_with(s, FENCE_OPEN@) {
        Some(s.subrange(FENCE_OPEN@.len() as int, s.len() as int))
    } else {
        None
    };
    match inner {
        Some(i) => if ends_with(i, FENCE_CLOSE@) {
            i.subrange(0, i.len() - FENCE_CLOSE@.len())
        } else {
            s
        },
        None => s,
    }
}

fn str_starts_with(s: &str, p: &str) -> (r: bool)
    ensures
        r == starts_with(s@, p@),
{
    let n = s.unicode_len();
    let m = p.unicode_len();
    if m > n {
        return false;
    }
    str_eq(s.substring_char(0, m), p)
}

fn str_ends_with(s: &str, p: &str) -> (r: bool)
    ensures
        r == ends_with(s@, p@),
{
    let n = s.unicode_len();
    let m = p.unicode_len();
    if m > n {
        return false;
    }
    str_eq(s.substring_char(n - m, n), p)
}

/// Unwraps a (trimmed) configuration message from its code fence.
pub fn strip_code_fence(content: &str) -> (r: &str)
    ensures
        r@ == unfenced(content@),
{
    let n = content.unicode_len();
    let inner = if str_starts_with(content, JSON_FENCE_OPEN) {
        let k = JSON_FENCE_OPEN.unicode_len();
        Some(content.substring_char(k, n))
    } else if str_starts_with(content, FENCE_OPEN) {
        let k = FENCE_OPEN.unicode_len();
        Some(content.substring_char(k, n))
    } else {
        None
    };
    match inner {
        Some(i) => {
            if str_ends_with(i, FENCE_CLOSE) {
                let m = i.unicode_len();
                let c = FENCE_CLOSE.unicode_len();
                i.substring_char(0, m - c)
            } else {
                content
            }
        },
        None => content,
    }
}

/// Whether a (trimmed) message is another bot's download command.
pub fn is_foreign_command(content: &str) -> (r: bool)
    ensures
        r == starts_with(content@, FOREIGN_COMMAND_PREFIX@),
{
    str_starts_with(content, FOREIGN_COMMAND_PREFIX)
}

/// The link to serve among those found in a message: only a message with
/// exactly one is served.
pub fn single_link(mut found: Vec<LinkMatch>) -> (r: Option<LinkMatch>)
    ensures
        found@.len() == 1 ==> r == Some(found@[0]),
        found@.len() != 1 ==> r is None,
{
    if found.len() == 1 {
        found.pop()
    } else {
        None
    }
}

/// Whether a file of `size` bytes is over the upload limit.
pub fn exceeds_upload_limit(size: u64) -> (r: bool)
    ensures
        r == (size > DISCORD_FILE_SIZE_LIMIT),
{
    size > DISCORD_FILE_SIZE_LIMIT
}

/// The plain link to post instead of media that was rejected for its size:
/// the link as the matching rule's fixup template rewrote it, where there is
/// a template and the rewrite changed the link.
pub fn fallback_link(rejected_for_size: bool, rewritten: Option<String>, url: &str) -> (r: Option<
    String,
>)
    ensures
        r == (if rejected_for_size && rewritten is Some && rewritten->0@ != url@ {
            rewritten
        } else {
            None
        }),
{
    if !rejected_for_size {
        return None;
    }
    match rewritten {
        Some(w) => {
            if str_eq(w.as_str(), url) {
                None
            } else {
                Some(w)
            }
        },
        None => None,
    }
}

} // verus!
