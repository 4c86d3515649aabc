//! Slideshow posts: recognising their links and planning the synthesis of a
//! video from their images.
use vstd::prelude::*;
use vstd::string::StringExecFns;
use crate::matching::{capture_first_group, first_group_capture};
use crate::text::{decimal, push_decimal, push_str, string_of};

verus! {

/// Links to a slideshow post; group 1 is the post's identifier.
pub const PHOTO_URL_PATTERN: &'static str = r"https?://www\.tiktok\.com/@[\w.-]+/photo/(\d+)";

/// The item-detail endpoint with its fixed query, up to the item identifier.
pub const ITEM_DETAIL_URL_PREFIX: &'static str = "https://www.tiktok.com/api/item/detail/?aid=1988&app_language=en&app_name=tiktok_web&browser_language=en-GB&browser_name=Mozilla&browser_online=true&browser_platform=Win32&browser_version=5.0%20(Windows%20NT%2010.0%3B%20Win64%3B%20x64)%20AppleWebKit%2F537.36%20(KHTML,%20like%20Gecko)%20Chrome%2F132.0.0.0%20Safari%2F537.36&channel=tiktok_web&cookie_enabled=false&coverFormat=2&data_collection_enabled=false&device_id=7461615928682841622&device_platform=web_pc&focus_state=true&from_page=user&history_len=2&is_fullscreen=false&is_page_visible=true&language=en&odinId=7461615911201063958&os=windows&priority_region=&referer=&region=GB&screen_height=1314&screen_width=2562&tz_name=Europe%2FLondon&user_is_login=false&webcast_language=en&itemId=";

/// The query parameter that carries the request-signing token.
pub const SIGNATURE_PARAM: &'static str = "&X-Bogus=";

/// One image of a slideshow post, with its pixel dimensions.
#[derive(Debug, Clone)]
pub struct SlideshowImage {
    pub url: String,
    pub width: u64,
    pub height: u64,
}

/// Why a slideshow could not be made.
#[derive(Debug, Clone, Copy, PartialEq, Eq, Structural)]
pub enum SlideshowError {
    /// The post lists no usable image.
    NoImagesFound,
    /// The synthesis process succeeded but left no output file.
    OutputNotCreated,
}

/// The identifier of the slideshow post that `url` links to, if it links to
/// one.
pub fn get_tiktok_photo_id_from_url(url: &str) -> (r: Option<String>)
    ensures
        match r {
            Some(id) => first_group_capture(PHOTO_URL_PATTERN@, url@) == Some(id@),
            None => first_group_capture(PHOTO_URL_PATTERN@, url@) is None,
        },
{
    capture_first_group(PHOTO_URL_PATTERN, url)
}

/// The item-detail request for a post, before signing.
pub fn item_detail_url(photo_id: &str) -> (r: String)
    ensures
        r@ == ITEM_DETAIL_URL_PREFIX@ + photo_id@,
{
    String::from_str(ITEM_DETAIL_URL_PREFIX).concat(photo_id)
}

/// The item-detail request with its signing token appended.
pub fn signed_url(api_url: &str, token: &str) -> (r: String)
    ensures
        r@ == api_url@ + SIGNATURE_PARAM@ + token@,
{
    String::from_str(api_url).concat(SIGNATURE_PARAM).concat(token)
}

/// The canvas of a slideshow: as wide as the widest image and as high as the
/// highest, so that every frame is letterboxed, never stretched.
pub fn canvas_size(images: &Vec<SlideshowImage>) -> (r: (u64, u64))
    ensures
        forall|i: int| 0 <= i < images@.len() ==> #[trigger] images@[i].width <= r.0,
        forall|i: int| 0 <= i < images@.len() ==> #[trigger] images@[i].height <= r.1,
        images@.len() > 0 ==> exists|i: int|
            0 <= i < images@.len() && #[trigger] images@[i].width == r.0,
        images@.len() > 0 ==> exists|i: int|
            0 <= i < images@.len() && #[trigger] images@[i].height == r.1,
        images@.len() == 0 ==> r == (0u64, 0u64),
{
    let mut w: u64 = 0;
    let mut h: u64 = 0;
    let n = images.len();
    let mut i: usize = 0;
    while i < n
        invariant
            n == images@.len(),
            i <= n,
            forall|j: int| 0 <= j < i ==> #[trigger] images@[j].width <= w,
            forall|j: int| 0 <= j < i ==> #[trigger] images@[j].height <= h,
            i > 0 ==> exists|j: int| 0 <= j < i && #[trigger] images@[j].width == w,
            i > 0 ==> exists|j: int| 0 <= j < i && #[trigger] images@[j].height == h,
            i == 0 ==> w == 0 && h == 0,
        decreases n - i,
    {
        let img = &images[i];
        if i == 0 || img.width > w {
            w = img.width;
        }
        if i == 0 || img.height > h {
            h = img.height;
        }
        assert(images@[i as int] == *img);
        i = i + 1;
    }
    (w, h)
}

/// The concat-demuxer lines for one image shown for two and a half seconds.
pub open spec fn image_entry(url: Seq<char>) -> Seq<char> {
    "file '"@ + url + "'\nduration 2.5\n"@
}

pub open spec fn image_entries(images: Seq<SlideshowImage>) -> Seq<char>
    decreases images.len(),
{
    if images.len() == 0 {
        Seq::empty()
    } else {
        image_entries(images.drop_last()) + image_entry(images.last().url@)
    }
}

/// The concat-demuxer script: each image in order, then the last image once
/// more with no duration so that the demuxer does not cut it short.
pub open spec fn concat_script_spec(images: Seq<SlideshowImage>) -> Seq<char> {
    image_entries(images) + "file '"@ + images.last().url@ + "'\nduration 0"@
}

/// The video filter that letterboxes each frame onto a `w` by `h` canvas.
pub open spec fn video_filter_spec(w: u64, h: u64) -> Seq<char> {
    "scale="@ + decimal(w as nat) + ":"@ + decimal(h as nat)
        + ":force_original_aspect_ratio=decrease:eval=frame,pad="@ + decimal(w as nat) + ":"@
        + decimal(h as nat) + ":-1:-1:eval=frame,format=yuv420p"@
}

/// Writes the concat-demuxer script for a non-empty list of images.
pub fn concat_script(images: &Vec<SlideshowImage>) -> (r: String)
    requires
        images@.len() > 0,
    ensures
        r@ == concat_script_spec(images@),
{
    let mut out: Vec<char> = Vec::new();
    let n = images.len();
    let mut i: usize = 0;
    while i < n
        invariant
            n == images@.len(),
            i <= n,
            out@ == image_entries(images@.subrange(0, i as int)),
        decreases n - i,
    {
        let ghost before = out@;
        push_str(&mut out, "file '");
        push_str(&mut out, images[i].url.as_str());
        push_str(&mut out, "'\nduration 2.5\n");
        assert(images@.subrange(0, i + 1).drop_last() =~= images@.subrange(0, i as int));
        assert(out@ =~= before + image_entry(images@[i as int].url@));
        i = i + 1;
    }
    assert(images@.subrange(0, n as int) =~= images@);
    push_str(&mut out, "file '");
    push_str(&mut out, images[n - 1].url.as_str());
    push_str(&mut out, "'\nduration 0");
    assert(out@ =~= concat_script_spec(images@));
    string_of(&out)
}

/// Writes the letterboxing video filter for a `w` by `h` canvas.
pub fn video_filter(w: u64, h: u64) -> (r: String)
    ensures
        r@ == video_filter_spec(w, h),
{
    let mut out: Vec<char> = Vec::new();
    push_str(&mut out, "scale=");
    push_decimal(&mut out, w);
    push_str(&mut out, ":");
    push_decimal(&mut out, h);
    push_str(&mut out, ":force_original_aspect_ratio=decrease:eval=frame,pad=");
    push_decimal(&mut out, w);
    push_str(&mut out, ":");
    push_decimal(&mut out, h);
    push_str(&mut out, ":-1:-1:eval=frame,format=yuv420p");
    assert(out@ =~= video_filter_spec(w, h));
    string_of(&out)
}

/// Everything the synthesis process needs for one slideshow.
#[derive(Debug, Clone)]
pub struct SlideshowPlan {
    pub width: u64,
    pub height: u64,
    /// Fed to the synthesis process on its input channel.
    pub concat_script: String,
    pub video_filter: String,
    /// Audio track to mux in, padded to the video's length.
    pub music: Option<String>,
    pub out_path: String,
}

impl SlideshowPlan {
    /// Plans the video for the images of a post; fails with `NoImagesFound`
    /// exactly when there are none.
    pub fn new(images: &Vec<SlideshowImage>, music: Option<String>, out_path: String) -> (r: Result<
        SlideshowPlan,
        SlideshowError,
    >)
        ensures
            images@.len() == 0 <==> r == Err::<SlideshowPlan, SlideshowError>(
                SlideshowError::NoImagesFound,
            ),
            images@.len() > 0 ==> r is Ok,
            r matches Ok(p) ==> {
                &&& forall|i: int| 0 <= i < images@.len() ==> #[trigger] images@[i].width <= p.width
                &&& forall|i: int| 0 <= i < images@.len() ==> #[trigger] images@[i].height <= p.height
                &&& exists|i: int| 0 <= i < images@.len() && #[trigger] images@[i].width == p.width
                &&& exists|i: int| 0 <= i < images@.len() && #[trigger] images@[i].height == p.height
                &&& p.concat_script@ == concat_script_spec(images@)
                &&& p.video_filter@ == video_filter_spec(p.width, p.height)
                &&& p.music == music
                &&& p.out_path == out_path
            },
    {
        if images.len() == 0 {
            return Err(SlideshowError::NoImagesFound);
        }
        let (width, height) = canvas_size(images);
        let concat_script = concat_script(images);
        let video_filter = video_filter(width, height);
        Ok(SlideshowPlan { width, height, concat_script, video_filter, music, out_path })
    }
}

/// The outcome of a synthesis run that exited successfully: the output path,
/// or `OutputNotCreated` where no file stands there.
pub fn check_output(out_path: String, exists: bool) -> (r: Result<String, SlideshowError>)
    ensures
        exists ==> r == Ok::<String, SlideshowError>(out_path),
        !exists ==> r == Err::<String, SlideshowError>(SlideshowError::OutputNotCreated),
{
    if exists {
        Ok(out_path)
    } else {
        Err(SlideshowError::OutputNotCreated)
    }
}

/// The arguments of the synthesis process: read the concat script from the
/// input channel, letterbox every frame, and, where there is music, mux it in
/// padded to the video's length.
pub open spec fn synthesis_args_spec(plan: SlideshowPlan) -> Seq<Seq<char>> {
    let input = seq![
        "-f"@,
        "concat"@,
        "-safe"@,
        "0"@,
        "-protocol_whitelist"@,
        "file,http,tcp,https,tls,fd,pipe"@,
        "-i"@,
        "-"@,
    ];
    let middle = match plan.music {
        Some(m) => seq![
            "-i"@,
            m@,
            "-map"@,
            "0:v"@,
            "-map"@,
            "1:a"@,
            "-vf"@,
            plan.video_filter@,
            "-filter_complex"@,
            "[1:0] apad"@,
            "-shortest"@,
        ],
        None => seq!["-map"@, "0:v"@, "-vf"@, plan.video_filter@],
    };
    input + middle + seq![plan.out_path@]
}

fn push_arg(args: &mut Vec<String>, a: &str)
    ensures
        final(args)@.map_values(|s: String| s@) == old(args)@.map_values(|s: String| s@).push(a@),
{
    args.push(String::from_str(a));
    assert(args@.map_values(|s: String| s@) =~= old(args)@.map_values(|s: String| s@).push(a@));
}

impl SlideshowPlan {
    /// The arguments of the synthesis process for this plan.
    pub fn synthesis_args(&self) -> (r: Vec<String>)
        ensures
            r@.map_values(|s: String| s@) == synthesis_args_spec(*self),
    {
        let mut args: Vec<String> = Vec::new();
        push_arg(&mut args, "-f");
        push_arg(&mut args, "concat");
        push_arg(&mut args, "-safe");
        push_arg(&mut args, "0");
        push_arg(&mut args, "-protocol_whitelist");
        push_arg(&mut args, "file,http,tcp,https,tls,fd,pipe");
        push_arg(&mut args, "-i");
        push_arg(&mut args, "-");
        match &self.music {
            Some(m) => {
                push_arg(&mut args, "-i");
                push_arg(&mut args, m.as_str());
                push_arg(&mut args, "-map");
                push_arg(&mut args, "0:v");
                push_arg(&mut args, "-map");
                push_arg(&mut args, "1:a");
                push_arg(&mut args, "-vf");
                push_arg(&mut args, self.video_filter.as_str());
                push_arg(&mut args, "-filter_complex");
                push_arg(&mut args, "[1:0] apad");
                push_arg(&mut args, "-shortest");
            },
            None => {
                push_arg(&mut args, "-map");
                push_arg(&mut args, "0:v");
                push_arg(&mut args, "-vf");
                push_arg(&mut args, self.video_filter.as_str());
            },
        }
        push_arg(&mut args, self.out_path.as_str());
        assert(args@.map_values(|s: String| s@) =~= synthesis_args_spec(*self));
        args
    }
}

} // verus!
