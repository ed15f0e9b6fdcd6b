use vstd::prelude::*;
use vstd::string::*;
use crate::errors::{AppError, AppResult};
use crate::text::join2;
use super::{choose_one, ctx_key, FetchContext, FetchedImage, SourceKind, WallpaperSource};

verus! {

/// Random photos from Unsplash.
pub struct Unsplash;

impl WallpaperSource for Unsplash {
    fn kind(&self) -> (k: SourceKind)
        ensures
            k == SourceKind::Unsplash,
    {
        SourceKind::Unsplash
    }
}

#[derive(Debug, Clone)]
pub struct PhotoLinks {
    pub download_location: String,
    pub html: String,
}

#[derive(Debug, Clone)]
pub struct PhotoUser {
    pub name: Option<String>,
}

#[derive(Debug, Clone)]
pub struct PhotoUrls {
    pub full: String,
}

/// Unsplash's answer to a random-photo request.
#[derive(Debug, Clone)]
pub struct Photo {
    pub id: String,
    pub width: i64,
    pub height: i64,
    pub urls: PhotoUrls,
    pub links: PhotoLinks,
    pub user: PhotoUser,
}

/// What a random-photo request sends: the `Authorization` header and the search query.
#[derive(Debug, Clone)]
pub struct PhotoRequest {
    pub authorization: String,
    pub query: String,
}

/// The request for a random landscape photo of one of the context's tags,
/// authorized with the context's Unsplash key.  Fails with
/// `Invalid("Unsplash API key missing")` when there is no key, and then with
/// `Invalid("Active collection has no tags")` when there is no tag.
pub fn photo_request(ctx: &FetchContext) -> (r: AppResult<PhotoRequest>)
    ensures
        ctx_key(*ctx, SourceKind::Unsplash) is None ==> (r matches Err(AppError::Invalid(m))
            && m@ == "Unsplash API key missing"@),
        ctx_key(*ctx, SourceKind::Unsplash) is Some && ctx.tags@.len() == 0 ==> (r matches Err(
            AppError::Invalid(m),
        ) && m@ == "Active collection has no tags"@),
        ctx_key(*ctx, SourceKind::Unsplash) is Some && ctx.tags@.len() > 0 ==> r is Ok,
        r matches Ok(req) ==> req.authorization@ == "Client-ID "@ + ctx_key(*ctx, SourceKind::Unsplash)->0
            && exists|i: int| 0 <= i < ctx.tags@.len() && ctx.tags@[i]@ == req.query@,
{
    let key = match ctx.api_keys.get(SourceKind::Unsplash) {
        Some(k) => k,
        None => {
            return Err(AppError::Invalid(String::from_str("Unsplash API key missing")));
        },
    };
    let tag = match choose_one(ctx.tags.as_slice()) {
        Some(t) => t,
        None => {
            return Err(AppError::Invalid(String::from_str("Active collection has no tags")));
        },
    };
    let authorization = join2("Client-ID ", key.as_str());
    Ok(PhotoRequest { authorization, query: tag.clone() })
}

/// The image that Unsplash's answer describes.
pub fn fetched_image(photo: Photo) -> (r: FetchedImage)
    ensures
        r.source == SourceKind::Unsplash,
        r.source_id == photo.id,
        r.photographer == photo.user.name,
        r.title is None,
        r.source_url == Some(photo.links.html),
        r.image_url == Some(photo.urls.full),
        r.download_location == Some(photo.links.download_location),
        r.width == Some(photo.width),
        r.height == Some(photo.height),
        r.ext@ == "jpg"@,
{
    FetchedImage {
        source: SourceKind::Unsplash,
        source_id: photo.id,
        photographer: photo.user.name,
        title: None,
        source_url: Some(photo.links.html),
        image_url: Some(photo.urls.full),
        download_location: Some(photo.links.download_location),
        width: Some(photo.width),
        height: Some(photo.height),
        ext: String::from_str("jpg"),
    }
}

} // verus!
