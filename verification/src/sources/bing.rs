use vstd::prelude::*;
use vstd::string::*;
use crate::errors::{AppError, AppResult};
use crate::text::{join2, replace_all, replace_spec};
use super::{FetchedImage, SourceKind, WallpaperSource};

verus! {

/// Bing's image of the day.
pub struct Bing;

impl WallpaperSource for Bing {
    fn kind(&self) -> (k: SourceKind)
        ensures
            k == SourceKind::Bing,
    {
        SourceKind::Bing
    }
}

/// One image of Bing's archive answer.
#[derive(Debug, Clone)]
pub struct BingImg {
    pub url: String,
    pub copyright: Option<String>,
    pub copyrightlink: Option<String>,
    pub startdate: String,
    pub title: Option<String>,
}

/// Bing's archive answer.
#[derive(Debug, Clone)]
pub struct BingResp {
    pub images: Vec<BingImg>,
}

/// The first image of the answer; `NotFound` when there is none.
pub fn first_image(resp: BingResp) -> (r: AppResult<BingImg>)
    ensures
        resp.images@.len() == 0 ==> r == Err::<BingImg, AppError>(AppError::NotFound),
        resp.images@.len() > 0 ==> r == Ok::<BingImg, AppError>(resp.images@[0]),
{
    let mut images = resp.images;
    if images.len() == 0 {
        Err(AppError::NotFound)
    } else {
        Ok(images.remove(0))
    }
}

pub open spec fn bing_host() -> Seq<char> {
    "https://www.bing.com"@
}

/// The URL of the image in UHD resolution.
pub open spec fn uhd_url_spec(img: BingImg) -> Seq<char> {
    bing_host() + replace_spec(img.url@, "_1920x1080"@, "_UHD"@)
}

/// The URL of the image at 1920x1080.
pub open spec fn fallback_url_spec(img: BingImg) -> Seq<char> {
    bing_host() + img.url@
}

/// `format!("https://www.bing.com{}", img.url.replace("_1920x1080", "_UHD"))`.
pub fn uhd_url(img: &BingImg) -> (r: String)
    ensures
        r@ == uhd_url_spec(*img),
{
    proof {
        reveal_strlit("_1920x1080");
    }
    let path = replace_all(img.url.as_str(), "_1920x1080", "_UHD");
    join2("https://www.bing.com", path.as_str())
}

/// `format!("https://www.bing.com{}", img.url)`.
pub fn fallback_url(img: &BingImg) -> (r: String)
    ensures
        r@ == fallback_url_spec(*img),
{
    join2("https://www.bing.com", img.url.as_str())
}

/// The image that Bing's answer describes, at UHD resolution when the UHD
/// URL answered a HEAD request with success, at 1920x1080 otherwise.
pub fn fetched_image(img: BingImg, uhd_available: bool) -> (r: FetchedImage)
    ensures
        r.source == SourceKind::Bing,
        r.source_id@ == img.startdate@ + "-en-US"@,
        r.photographer == img.copyright,
        r.title == img.title,
        r.source_url == img.copyrightlink,
        r.image_url is Some,
        r.image_url->0@ == (if uhd_available { uhd_url_spec(img) } else { fallback_url_spec(img) }),
        r.download_location is None,
        r.width is None,
        r.height is None,
        r.ext@ == "jpg"@,
{
    let full_url = if uhd_available {
        uhd_url(&img)
    } else {
        fallback_url(&img)
    };
    let source_id = join2(img.startdate.as_str(), "-en-US");
    FetchedImage {
        source: SourceKind::Bing,
        source_id,
        photographer: img.copyright,
        title: img.title,
        source_url: img.copyrightlink,
        image_url: Some(full_url),
        download_location: None,
        width: None,
        height: None,
        ext: String::from_str("jpg"),
    }
}

} // verus!
