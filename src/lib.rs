//! Scraping pipeline for an anime streaming site: series search, episode
//! listing and video source resolution.
//!
//! The network requests themselves are made by the caller; this library
//! builds every URL that is requested and decides, from the text that came
//! back, what the next step is and what the result or the error is.
use vstd::prelude::*;

pub mod outside;
pub mod scrape;

verus! {

/// One series found by a search: its site-internal slug and its display title.
#[derive(Debug, Clone)]
pub struct SearchResultEntry {
    pub id: String,
    pub name: String,
}

/// Why resolving the video sources of an episode failed.
#[derive(Debug, Clone)]
pub enum GetVideoError {
    /// The episode page holds no player iframe (or one without a source);
    /// carries the page's final URL.
    NotFound(String),
    SendGetRequest,
    RequestText,
    CreateUrl,
    ParseJson,
}

/// Why a series search failed.
#[derive(Debug, Clone)]
pub enum SearchError {
    SendGetRequest,
    RequestText,
    CreateUrl,
}

/// Why listing the episodes of a series failed.
#[derive(Debug, Clone)]
pub enum GetEpisodesError {
    SendGetRequest,
    RequestText,
    CreateUrl,
    /// A structure that the series page must hold is missing; carries the
    /// selector that matched nothing usable.
    NotFound(String),
}

/// The text of an optional string.
pub open spec fn opt_view(o: Option<String>) -> Option<Seq<char>> {
    match o {
        Some(s) => Some(s@),
        None => None,
    }
}

/// The texts of a sequence of optional strings.
pub open spec fn opt_views(s: Seq<Option<String>>) -> Seq<Option<Seq<char>>> {
    s.map_values(|o: Option<String>| opt_view(o))
}

/// The texts of a sequence of strings.
pub open spec fn str_views(s: Seq<String>) -> Seq<Seq<char>> {
    s.map_values(|x: String| x@)
}

} // verus!
