//! Data model of the engine: track metadata as read from audio tags, lyric
//! records as returned by the lyrics service, the error taxonomy, and the
//! final per-file resolution outcome, each with a mathematical view.
//!
//! Durations are modeled throughout as whole seconds (`u64`); the caller that
//! reads tags or service responses rounds to whole seconds and maps any
//! unrepresentable duration to `u64::MAX`, which behaves as maximally distant
//! in candidate ranking.

use vstd::prelude::*;

verus! {

/// Track metadata as an audio-tag reader supplies it: every field optional.
#[derive(Debug, Clone, PartialEq)]
pub struct TrackMetadata {
    pub title: Option<String>,
    pub artists: Option<Vec<String>>,
    pub album: Option<String>,
    pub duration: Option<u64>,
}

/// Mathematical view of [`TrackMetadata`].
pub struct MetadataModel {
    pub title: Option<Seq<char>>,
    pub artists: Option<Seq<Seq<char>>>,
    pub album: Option<Seq<char>>,
    pub duration: Option<u64>,
}

impl View for TrackMetadata {
    type V = MetadataModel;

    open spec fn view(&self) -> MetadataModel {
        MetadataModel {
            title: self.title.deep_view(),
            artists: self.artists.deep_view(),
            album: self.album.deep_view(),
            duration: self.duration,
        }
    }
}

/// One lyric record in the shape the lyrics service returns it.
#[derive(Debug, Clone, PartialEq)]
#[allow(non_snake_case)]
pub struct LrclibItem {
    pub id: u32,
    pub trackName: String,
    pub artistName: String,
    pub albumName: String,
    pub duration: u64,
    pub instrumental: bool,
    pub plainLyrics: Option<String>,
    pub syncedLyrics: Option<String>,
}

/// Mathematical view of [`LrclibItem`].
pub struct ItemModel {
    pub id: u32,
    pub track: Seq<char>,
    pub artist: Seq<char>,
    pub album: Seq<char>,
    pub duration: u64,
    pub instrumental: bool,
    pub plain: Option<Seq<char>>,
    pub synced: Option<Seq<char>>,
}

impl View for LrclibItem {
    type V = ItemModel;

    open spec fn view(&self) -> ItemModel {
        ItemModel {
            id: self.id,
            track: self.trackName.deep_view(),
            artist: self.artistName.deep_view(),
            album: self.albumName.deep_view(),
            duration: self.duration,
            instrumental: self.instrumental,
            plain: self.plainLyrics.deep_view(),
            synced: self.syncedLyrics.deep_view(),
        }
    }
}

impl DeepView for LrclibItem {
    type V = ItemModel;

    open spec fn deep_view(&self) -> ItemModel {
        self.view()
    }
}

/// Why a lookup failed. A logical "not found" is not an error and is carried
/// by the lookup enums instead.
#[derive(Debug, Clone, PartialEq)]
pub enum LookupError {
    /// The request never completed: connection failure or timeout.
    Transport(String),
    /// The service answered with a non-success status other than not-found.
    Service(u16),
    /// The service answered success but the body did not parse as the
    /// expected record shape: the remote contract drifted.
    Schema(String),
}

/// Mathematical view of [`LookupError`].
pub enum ErrorModel {
    Transport(Seq<char>),
    Service(u16),
    Schema(Seq<char>),
}

impl View for LookupError {
    type V = ErrorModel;

    open spec fn view(&self) -> ErrorModel {
        match self {
            LookupError::Transport(s) => ErrorModel::Transport(s.deep_view()),
            LookupError::Service(code) => ErrorModel::Service(*code),
            LookupError::Schema(s) => ErrorModel::Schema(s.deep_view()),
        }
    }
}

/// Result of the exact-match lookup: at most one record.
#[derive(Debug, Clone, PartialEq)]
pub enum ExactLookup {
    Found(LrclibItem),
    NotFound,
    Failed(LookupError),
}

/// Mathematical view of [`ExactLookup`].
pub enum ExactModel {
    Found(ItemModel),
    NotFound,
    Failed(ErrorModel),
}

impl View for ExactLookup {
    type V = ExactModel;

    open spec fn view(&self) -> ExactModel {
        match self {
            ExactLookup::Found(item) => ExactModel::Found(item@),
            ExactLookup::NotFound => ExactModel::NotFound,
            ExactLookup::Failed(e) => ExactModel::Failed(e@),
        }
    }
}

/// Result of the fuzzy search lookup: any number of records.
#[derive(Debug, Clone, PartialEq)]
pub enum SearchLookup {
    Found(Vec<LrclibItem>),
    NotFound,
    Failed(LookupError),
}

/// Mathematical view of [`SearchLookup`].
pub enum SearchModel {
    Found(Seq<ItemModel>),
    NotFound,
    Failed(ErrorModel),
}

impl View for SearchLookup {
    type V = SearchModel;

    open spec fn view(&self) -> SearchModel {
        match self {
            SearchLookup::Found(items) => SearchModel::Found(items.deep_view()),
            SearchLookup::NotFound => SearchModel::NotFound,
            SearchLookup::Failed(e) => SearchModel::Failed(e@),
        }
    }
}

/// Terminal outcome of resolving one file.
#[derive(Debug, Clone, PartialEq)]
pub enum ResolutionOutcome {
    /// Synchronized lyrics were found; `matched_duration` is the chosen
    /// record's duration, reported for observability.
    Resolved { lyrics_text: String, matched_duration: u64 },
    /// No usable record: a logical miss, not an error.
    NotFound,
    /// A lookup failed; the failure is scoped to this one file.
    Failed(LookupError),
}

/// Mathematical view of [`ResolutionOutcome`].
pub enum OutcomeModel {
    Resolved { lyrics: Seq<char>, matched_duration: u64 },
    NotFound,
    Failed(ErrorModel),
}

impl View for ResolutionOutcome {
    type V = OutcomeModel;

    open spec fn view(&self) -> OutcomeModel {
        match self {
            ResolutionOutcome::Resolved { lyrics_text, matched_duration } => OutcomeModel::Resolved {
                lyrics: lyrics_text.deep_view(),
                matched_duration: *matched_duration,
            },
            ResolutionOutcome::NotFound => OutcomeModel::NotFound,
            ResolutionOutcome::Failed(e) => OutcomeModel::Failed(e@),
        }
    }
}

} // verus!
