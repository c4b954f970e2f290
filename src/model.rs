//! The catalog records produced by the parsers, and the plain-value document
//! snapshots they read.
use vstd::prelude::*;

verus! {

/// The attributes of a markup node that the parsers read.
#[derive(Clone, Copy, Debug, PartialEq, Eq, Structural)]
pub enum AttrName {
    Href,
    Src,
    DataSrc,
    DataLazySrc,
    Class,
    Value,
}

/// One attribute of a node with its raw value.
#[derive(Clone, Debug)]
pub struct Attr {
    pub name: AttrName,
    pub value: String,
}

/// A markup node as the parsers see it: its text content, if any, and its attributes.
#[derive(Clone, Debug)]
pub struct Element {
    pub text: Option<String>,
    pub attrs: Vec<Attr>,
}

/// Publication status of a series.
#[derive(Clone, Copy, Debug, PartialEq, Eq, Structural)]
pub enum MangaStatus {
    Unknown,
    Ongoing,
    Completed,
    Cancelled,
    Hiatus,
}

/// Reading-mode hint for a series.
#[derive(Clone, Copy, Debug, PartialEq, Eq, Structural)]
pub enum Viewer {
    Unknown,
    Webtoon,
}

/// A chapter ordinal: a decimal literal read from the title (digits with at
/// most one point, at least one digit), or the position of the chapter in the
/// listing counted from the bottom.
#[derive(Clone, Debug)]
pub enum ChapterNumber {
    Decimal(String),
    Position(usize),
}

/// One chapter of a series.
#[derive(Clone, Debug)]
pub struct Chapter {
    pub key: String,
    pub title: Option<String>,
    pub url: Option<String>,
    pub chapter_number: ChapterNumber,
    pub locked: bool,
}

/// One series of the catalog; the fields after `url` are filled by detail enrichment.
#[derive(Clone, Debug)]
pub struct CatalogEntry {
    pub key: String,
    pub title: String,
    pub cover: Option<String>,
    pub url: Option<String>,
    pub description: Option<String>,
    pub authors: Option<Vec<String>>,
    pub tags: Option<Vec<String>>,
    pub status: MangaStatus,
    pub viewer: Viewer,
    pub chapters: Option<Vec<Chapter>>,
}

/// One page of a catalog listing.
#[derive(Clone, Debug)]
pub struct ListingPage {
    pub entries: Vec<CatalogEntry>,
    pub has_next_page: bool,
}

/// How many requests the transport may make per window, set once when the
/// source starts and applied to every request after.
#[derive(Clone, Copy, Debug, PartialEq, Eq, Structural)]
pub struct RateLimit {
    pub max_requests: u32,
    pub window_seconds: u32,
}

/// The request rate the site tolerates: two requests per second.
pub fn site_rate_limit() -> (r: RateLimit)
    ensures
        r.max_requests == 2,
        r.window_seconds == 1,
{
    RateLimit { max_requests: 2, window_seconds: 1 }
}

/// The view of an optional string.
pub open spec fn opt_view(o: Option<String>) -> Option<Seq<char>> {
    match o {
        Some(s) => Some(s@),
        None => None,
    }
}

/// The views of a list of strings.
pub open spec fn strings_view(v: Seq<String>) -> Seq<Seq<char>> {
    v.map_values(|s: String| s@)
}

} // verus!
