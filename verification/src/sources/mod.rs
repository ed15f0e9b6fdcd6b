use vstd::prelude::*;
use rand::seq::SliceRandom;

pub mod bing;
pub mod pool;
pub mod unsplash;

verus! {

/// A service that wallpapers are fetched from.
#[derive(Debug, Clone, Copy, PartialEq, Eq, Hash, Structural)]
pub enum SourceKind {
    Unsplash,
    Bing,
}

/// The lowercase name of a source, as stored and serialized.
pub open spec fn source_name(k: SourceKind) -> Seq<char> {
    match k {
        SourceKind::Unsplash => "unsplash"@,
        SourceKind::Bing => "bing"@,
    }
}

/// The name of a source as `{:?}` prints it.
pub open spec fn source_debug_name(k: SourceKind) -> Seq<char> {
    match k {
        SourceKind::Unsplash => "Unsplash"@,
        SourceKind::Bing => "Bing"@,
    }
}

impl SourceKind {
    pub fn as_str(&self) -> (r: &'static str)
        ensures
            r@ == source_name(*self),
    {
        match self {
            SourceKind::Unsplash => "unsplash",
            SourceKind::Bing => "bing",
        }
    }

    /// The variant's name, as `format!("{:?}", kind)` writes it.
    pub fn debug_name(&self) -> (r: &'static str)
        ensures
            r@ == source_debug_name(*self),
    {
        match self {
            SourceKind::Unsplash => "Unsplash",
            SourceKind::Bing => "Bing",
        }
    }
}

/// One value per source, where a source may have none: the map of sources
/// to values that the application keys by `SourceKind`.
#[derive(Debug, Clone)]
pub struct PerSource<T> {
    unsplash: Option<T>,
    bing: Option<T>,
}

impl<T> PerSource<T> {
    pub closed spec fn as_map(&self) -> Map<SourceKind, T> {
        let m1 = match self.unsplash {
            Some(v) => Map::<SourceKind, T>::empty().insert(SourceKind::Unsplash, v),
            None => Map::<SourceKind, T>::empty(),
        };
        match self.bing {
            Some(v) => m1.insert(SourceKind::Bing, v),
            None => m1,
        }
    }

    pub fn new() -> (r: PerSource<T>)
        ensures
            r.as_map() == Map::<SourceKind, T>::empty(),
    {
        let r = PerSource { unsplash: None, bing: None };
        assert(r.as_map() =~= Map::<SourceKind, T>::empty());
        r
    }

    /// Sets the value for `kind`, replacing what it held.
    pub fn insert(&mut self, kind: SourceKind, value: T)
        ensures
            final(self).as_map() == old(self).as_map().insert(kind, value),
    {
        match kind {
            SourceKind::Unsplash => {
                self.unsplash = Some(value);
            },
            SourceKind::Bing => {
                self.bing = Some(value);
            },
        }
        assert(self.as_map() =~= old(self).as_map().insert(kind, value));
    }

    /// The value held for `kind`, if any.
    pub fn get(&self, kind: SourceKind) -> (r: Option<&T>)
        ensures
            r is Some <==> self.as_map().contains_key(kind),
            r is Some ==> *r->0 == self.as_map()[kind],
    {
        match kind {
            SourceKind::Unsplash => match &self.unsplash {
                Some(v) => Some(v),
                None => None,
            },
            SourceKind::Bing => match &self.bing {
                Some(v) => Some(v),
                None => None,
            },
        }
    }
}

/// What a source hands back about the image it picked.
#[derive(Debug, Clone)]
pub struct FetchedImage {
    pub source: SourceKind,
    pub source_id: String,
    pub photographer: Option<String>,
    pub title: Option<String>,
    pub source_url: Option<String>,
    /// Direct URL to download the binary image.
    pub image_url: Option<String>,
    /// Unsplash compliance ping URL.
    pub download_location: Option<String>,
    pub width: Option<i64>,
    pub height: Option<i64>,
    /// "jpg", "png", etc.
    pub ext: String,
}

/// What a source needs to know to fetch an image.
pub struct FetchContext {
    pub tags: Vec<String>,
    pub api_keys: PerSource<String>,
    /// YYYY-MM-DD
    pub today: String,
}

/// The key that the context holds for `kind`.
pub open spec fn ctx_key(ctx: FetchContext, kind: SourceKind) -> Option<Seq<char>> {
    if ctx.api_keys.as_map().contains_key(kind) {
        Some(ctx.api_keys.as_map()[kind]@)
    } else {
        None
    }
}

/// `ctx.api_keys.get(&kind).map(|s| s.as_str())`.
pub fn ctx_key_for(ctx: &FetchContext, kind: SourceKind) -> (r: Option<&str>)
    ensures
        r is Some <==> ctx_key(*ctx, kind) is Some,
        r is Some ==> r->0@ == ctx_key(*ctx, kind)->0,
{
    match ctx.api_keys.get(kind) {
        Some(k) => Some(k.as_str()),
        None => None,
    }
}

/// A service that wallpapers come from.
pub trait WallpaperSource {
    fn kind(&self) -> SourceKind;
}

/// One element of `items`, picked at random: `SliceRandom::choose` with the
/// thread-local generator.  The contract claims what the rand source shows:
/// `None` exactly for an empty slice, and otherwise a reference to one of the
/// elements.  Which one is left unsaid: it is random.
#[verifier::external_body]
pub(crate) fn choose_one<T>(items: &[T]) -> (r: Option<&T>)
    ensures
        r is None <==> items@.len() == 0,
        r is Some ==> exists|i: int| 0 <= i < items@.len() && items@[i] == *r->0,
{
    items.choose(&mut rand::thread_rng())
}

} // verus!
