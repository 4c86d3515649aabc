//! The upstream release feed of the extraction tool, and the choice of the
//! build to run.
use vstd::prelude::*;
use vstd::utf8::encode_utf8;
use core::cmp::Ordering;

verus! {

/// One downloadable file of a release.
#[derive(Debug, Clone)]
pub struct Asset {
    pub name: String,
    pub browser_download_url: String,
    pub size: u64,
}

/// One release of the feed.
#[derive(Debug, Clone)]
pub struct Release {
    pub tag_name: String,
    /// Assets by name; a name occurs at most once, as the feed lists them.
    pub assets: Vec<Asset>,
    pub prerelease: bool,
    pub draft: bool,
}

/// The releases of the feed, newest first.
#[derive(Debug, Clone)]
pub struct Releases(pub Vec<Release>);

/// The build chosen from the feed.
#[derive(Debug, Clone)]
pub struct ToolRelease {
    pub tag_name: String,
    pub browser_download_url: String,
    pub size: u64,
}

/// A release as plain values: tag, download location, size in bytes.
pub open spec fn tool_release_view(t: ToolRelease) -> (Seq<char>, Seq<char>, u64) {
    (t.tag_name@, t.browser_download_url@, t.size)
}

/// Byte-wise lexicographic order.
pub open spec fn byte_order(a: Seq<u8>, b: Seq<u8>) -> Ordering
    decreases a.len(),
{
    if a.len() == 0 && b.len() == 0 {
        Ordering::Equal
    } else if a.len() == 0 {
        Ordering::Less
    } else if b.len() == 0 {
        Ordering::Greater
    } else if a[0] < b[0] {
        Ordering::Less
    } else if a[0] > b[0] {
        Ordering::Greater
    } else {
        byte_order(a.drop_first(), b.drop_first())
    }
}

/// The order of assets: that of their names, byte by byte.
pub open spec fn asset_order(a: Asset, b: Asset) -> Ordering {
    byte_order(encode_utf8(a.name@), encode_utf8(b.name@))
}

impl PartialEq for Asset {
    /// Assets are equal when their names are.
    fn eq(&self, other: &Asset) -> (r: bool)
        ensures
            r == (self.name@ == other.name@),
    {
        self.name == other.name
    }
}

impl vstd::std_specs::cmp::PartialEqSpecImpl for Asset {
    open spec fn obeys_eq_spec() -> bool {
        true
    }

    open spec fn eq_spec(&self, other: &Asset) -> bool {
        self.name@ == other.name@
    }
}

impl Eq for Asset {

}

impl core::borrow::Borrow<str> for Asset {
    /// An asset is looked up by its name.
    fn borrow(&self) -> &str {
        self.name.as_str()
    }
}

fn compare_bytes(a: &[u8], b: &[u8]) -> (r: Ordering)
    ensures
        r == byte_order(a@, b@),
{
    let n = a.len();
    let m = b.len();
    let mut i: usize = 0;
    assert(a@.subrange(0, n as int) =~= a@);
    assert(b@.subrange(0, m as int) =~= b@);
    while i < n && i < m
        invariant
            n == a@.len(),
            m == b@.len(),
            i <= n,
            i <= m,
            byte_order(a@, b@) == byte_order(a@.subrange(i as int, n as int), b@.subrange(i as int, m as int)),
        decreases n - i,
    {
        let ghost sa = a@.subrange(i as int, n as int);
        let ghost sb = b@.subrange(i as int, m as int);
        assert(sa[0] == a@[i as int]);
        assert(sb[0] == b@[i as int]);
        if a[i] < b[i] {
            return Ordering::Less;
        }
        if a[i] > b[i] {
            return Ordering::Greater;
        }
        assert(sa.drop_first() =~= a@.subrange(i + 1, n as int));
        assert(sb.drop_first() =~= b@.subrange(i + 1, m as int));
        i = i + 1;
    }
    if i == n && i == m {
        Ordering::Equal
    } else if i == n {
        Ordering::Less
    } else {
        Ordering::Greater
    }
}

impl PartialOrd for Asset {
    /// Assets are ordered by name.
    fn partial_cmp(&self, other: &Asset) -> (r: Option<Ordering>)
        ensures
            r == Some(asset_order(*self, *other)),
    {
        Some(compare_bytes(self.name.as_str().as_bytes(), other.name.as_str().as_bytes()))
    }
}

impl vstd::std_specs::cmp::PartialOrdSpecImpl for Asset {
    open spec fn obeys_partial_cmp_spec() -> bool {
        true
    }

    open spec fn partial_cmp_spec(&self, other: &Asset) -> Option<Ordering> {
        Some(asset_order(*self, *other))
    }
}

/// The first asset named `name`.
pub open spec fn pick_asset(assets: Seq<Asset>, name: Seq<char>) -> Option<Asset>
    decreases assets.len(),
{
    if assets.len() == 0 {
        None
    } else if assets[0].name@ == name {
        Some(assets[0])
    } else {
        pick_asset(assets.drop_first(), name)
    }
}

/// A release that may be run: published, stable, and offering the
/// executable named `exe_name`.
pub open spec fn release_eligible(r: Release, exe_name: Seq<char>) -> bool {
    !r.draft && !r.prerelease && pick_asset(r.assets@, exe_name) is Some
}

/// The build to run: from the first eligible release, its asset named
/// `exe_name`.
pub open spec fn pick_release(releases: Seq<Release>, exe_name: Seq<char>) -> Option<
    (Seq<char>, Seq<char>, u64),
>
    decreases releases.len(),
{
    if releases.len() == 0 {
        None
    } else if release_eligible(releases[0], exe_name) {
        let a = pick_asset(releases[0].assets@, exe_name)->0;
        Some((releases[0].tag_name@, a.browser_download_url@, a.size))
    } else {
        pick_release(releases.drop_first(), exe_name)
    }
}

/// The first asset named `name`, copied.
pub fn find_asset(assets: &Vec<Asset>, name: &str) -> (r: Option<Asset>)
    ensures
        match r {
            Some(a) => pick_asset(assets@, name@) == Some(a),
            None => pick_asset(assets@, name@) is None,
        },
{
    let n = assets.len();
    let mut i: usize = 0;
    assert(assets@.subrange(0, n as int) =~= assets@);
    while i < n
        invariant
            n == assets@.len(),
            i <= n,
            pick_asset(assets@, name@) == pick_asset(assets@.subrange(i as int, n as int), name@),
        decreases n - i,
    {
        let ghost rest = assets@.subrange(i as int, n as int);
        assert(rest[0] == assets@[i as int]);
        if crate::text::str_eq(assets[i].name.as_str(), name) {
            let a = Asset {
                name: assets[i].name.clone(),
                browser_download_url: assets[i].browser_download_url.clone(),
                size: assets[i].size,
            };
            assert(a == assets@[i as int]);
            return Some(a);
        }
        assert(rest.drop_first() =~= assets@.subrange(i + 1, n as int));
        i = i + 1;
    }
    None
}

impl Releases {
    /// The build to run from this feed: the first release that is neither a
    /// draft nor a prerelease and that offers an asset named `exe_name`.
    pub fn latest(&self, exe_name: &str) -> (r: Option<ToolRelease>)
        ensures
            match r {
                Some(t) => pick_release(self.0@, exe_name@) == Some(tool_release_view(t)),
                None => pick_release(self.0@, exe_name@) is None,
            },
    {
        let rels = &self.0;
        let n = rels.len();
        let mut i: usize = 0;
        assert(rels@.subrange(0, n as int) =~= rels@);
        while i < n
            invariant
                rels@ == self.0@,
                n == rels@.len(),
                i <= n,
                pick_release(rels@, exe_name@) == pick_release(
                    rels@.subrange(i as int, n as int),
                    exe_name@,
                ),
            decreases n - i,
        {
            let ghost rest = rels@.subrange(i as int, n as int);
            assert(rest[0] == rels@[i as int]);
            let rel = &rels[i];
            if !rel.draft && !rel.prerelease {
                match find_asset(&rel.assets, exe_name) {
                    Some(a) => {
                        assert(release_eligible(rest[0], exe_name@));
                        assert(pick_release(rest, exe_name@) == Some(
                            (rel.tag_name@, a.browser_download_url@, a.size),
                        ));
                        let t = ToolRelease {
                            tag_name: rel.tag_name.clone(),
                            browser_download_url: a.browser_download_url,
                            size: a.size,
                        };
                        assert(tool_release_view(t) == (rel.tag_name@, a.browser_download_url@, a.size));
                        return Some(t);
                    },
                    None => {},
                }
            }
            assert(rest.drop_first() =~= rels@.subrange(i + 1, n as int));
            i = i + 1;
        }
        None
    }
}

} // verus!
