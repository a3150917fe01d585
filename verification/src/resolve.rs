//! The resolution orchestrator: the per-file state machine that sequences
//! query building, the exact lookup, the optional search fallback, and
//! candidate selection into one terminal outcome. The remote calls
//! themselves happen outside; the caller feeds each response back in.

use vstd::prelude::*;
use crate::model::{
    ExactLookup, ExactModel, MetadataModel, OutcomeModel, ResolutionOutcome, SearchLookup,
    SearchModel, TrackMetadata,
};
use crate::query::{build_query, spec_build_query, IgnoreFlags, LrclibQuery, QueryModel};
use crate::select::{select, spec_select};

verus! {

/// How one resolution run is configured.
#[derive(Debug, Clone, Copy)]
pub struct ResolveOptions {
    /// Which query fields the user asked to suppress.
    pub ignore: IgnoreFlags,
    /// Whether a missed exact lookup falls back to the fuzzy search.
    pub search_fallback: bool,
    /// Tolerance window in seconds for search candidates; non-positive
    /// disables the window.
    pub tolerance: i64,
}

/// What follows the exact lookup: either the run is over, or the search
/// fallback is next, with the query to send it.
#[derive(Debug, Clone, PartialEq)]
pub enum ExactStep {
    Done(ResolutionOutcome),
    Search(LrclibQuery),
}

/// Mathematical view of [`ExactStep`].
pub enum StepModel {
    Done(OutcomeModel),
    Search(QueryModel),
}

impl View for ExactStep {
    type V = StepModel;

    open spec fn view(&self) -> StepModel {
        match self {
            ExactStep::Done(out) => StepModel::Done(out@),
            ExactStep::Search(q) => StepModel::Search(q@),
        }
    }
}

/// What the exact lookup's result leads to. A found record with
/// synchronized lyrics resolves the run; one without them ends it with
/// nothing to write. A miss ends the run unless the search fallback is
/// enabled, in which case the query moves on to the search, with the artist
/// cleared when the ignore flags name it (the one place artist suppression
/// applies). A failure ends the run with that failure.
pub open spec fn spec_after_exact(q: QueryModel, opts: ResolveOptions, e: ExactModel) -> StepModel {
    match e {
        ExactModel::Found(item) => match item.synced {
            Some(text) => StepModel::Done(
                OutcomeModel::Resolved { lyrics: text, matched_duration: item.duration },
            ),
            None => StepModel::Done(OutcomeModel::NotFound),
        },
        ExactModel::NotFound => if !opts.search_fallback {
            StepModel::Done(OutcomeModel::NotFound)
        } else if opts.ignore.artist {
            StepModel::Search(QueryModel { artist: Seq::<char>::empty(), ..q })
        } else {
            StepModel::Search(q)
        },
        ExactModel::Failed(err) => StepModel::Done(OutcomeModel::Failed(err)),
    }
}

/// Advances the state machine past the exact lookup.
pub fn after_exact(query: LrclibQuery, options: &ResolveOptions, outcome: ExactLookup) -> (r:
    ExactStep)
    ensures
        r@ == spec_after_exact(query@, *options, outcome@),
{
    match outcome {
        ExactLookup::Found(item) => match item.syncedLyrics {
            Some(text) => ExactStep::Done(
                ResolutionOutcome::Resolved {
                    lyrics_text: text,
                    matched_duration: item.duration,
                },
            ),
            None => ExactStep::Done(ResolutionOutcome::NotFound),
        },
        ExactLookup::NotFound => {
            if !options.search_fallback {
                ExactStep::Done(ResolutionOutcome::NotFound)
            } else {
                let mut q = query;
                if options.ignore.artist {
                    q.artist_name = String::new();
                }
                ExactStep::Search(q)
            }
        },
        ExactLookup::Failed(err) => ExactStep::Done(ResolutionOutcome::Failed(err)),
    }
}

/// What the search's result leads to. A failure or a miss (including an
/// empty list) ends the run. Otherwise the selector picks the closest
/// surviving candidate for the query's duration; the run resolves when the
/// picked candidate carries synchronized lyrics and ends with nothing found
/// when it does not or when no candidate survives.
pub open spec fn spec_after_search(
    q: QueryModel,
    opts: ResolveOptions,
    s: SearchModel,
) -> OutcomeModel {
    match s {
        SearchModel::Found(items) => if items.len() == 0 {
            OutcomeModel::NotFound
        } else {
            match spec_select(items, q.duration, opts.tolerance) {
                Some(i) => match items[i].synced {
                    Some(text) => OutcomeModel::Resolved {
                        lyrics: text,
                        matched_duration: items[i].duration,
                    },
                    None => OutcomeModel::NotFound,
                },
                None => OutcomeModel::NotFound,
            }
        },
        SearchModel::NotFound => OutcomeModel::NotFound,
        SearchModel::Failed(err) => OutcomeModel::Failed(err),
    }
}

/// Finishes the state machine after the search fallback.
pub fn after_search(query: &LrclibQuery, options: &ResolveOptions, outcome: SearchLookup) -> (r:
    ResolutionOutcome)
    ensures
        r@ == spec_after_search(query@, *options, outcome@),
{
    match outcome {
        SearchLookup::Found(items) => {
            if items.len() == 0 {
                ResolutionOutcome::NotFound
            } else {
                let (picked, _survivors) = select(&items, query.duration, options.tolerance);
                match picked {
                    Some(i) => {
                        let item = &items[i];
                        match &item.syncedLyrics {
                            Some(text) => ResolutionOutcome::Resolved {
                                lyrics_text: text.clone(),
                                matched_duration: item.duration,
                            },
                            None => ResolutionOutcome::NotFound,
                        }
                    },
                    None => ResolutionOutcome::NotFound,
                }
            }
        },
        SearchLookup::NotFound => ResolutionOutcome::NotFound,
        SearchLookup::Failed(err) => ResolutionOutcome::Failed(err),
    }
}

/// The outcome of a whole run against fixed responses: the query is built
/// from the metadata, the exact lookup's response decides whether the run
/// ends there, and otherwise the search response and the selector decide.
pub open spec fn spec_resolve(
    m: MetadataModel,
    opts: ResolveOptions,
    e: ExactModel,
    s: SearchModel,
) -> OutcomeModel {
    let q = spec_build_query(m, opts.ignore);
    match spec_after_exact(q, opts, e) {
        StepModel::Done(out) => out,
        StepModel::Search(q2) => spec_after_search(q2, opts, s),
    }
}

/// Resolves one track against fixed responses: the whole state machine run
/// as one pure function. `search` is consulted only when the exact lookup
/// missed and the fallback is enabled.
pub fn resolve_fixed(
    meta: &TrackMetadata,
    options: &ResolveOptions,
    exact: ExactLookup,
    search: SearchLookup,
) -> (r: ResolutionOutcome)
    ensures
        r@ == spec_resolve(meta@, *options, exact@, search@),
{
    let query = build_query(meta, &options.ignore);
    match after_exact(query, options, exact) {
        ExactStep::Done(out) => out,
        ExactStep::Search(q2) => after_search(&q2, options, search),
    }
}

/// Resolution is idempotent: two runs over the same metadata, options and
/// fixed responses yield the same outcome.
pub proof fn lemma_resolve_idempotent(
    m1: MetadataModel,
    o1: ResolveOptions,
    e1: ExactModel,
    s1: SearchModel,
    m2: MetadataModel,
    o2: ResolveOptions,
    e2: ExactModel,
    s2: SearchModel,
)
    requires
        m1 == m2,
        o1 == o2,
        e1 == e2,
        s1 == s2,
    ensures
        spec_resolve(m1, o1, e1, s1) == spec_resolve(m2, o2, e2, s2),
{
}

/// Selection without a target duration ignores the tolerance entirely and
/// picks the first candidate of a non-empty list.
pub proof fn lemma_duration_blind_selection(
    items: Seq<crate::model::ItemModel>,
    tol1: i64,
    tol2: i64,
)
    ensures
        spec_select(items, None, tol1) == spec_select(items, None, tol2),
        items.len() > 0 ==> spec_select(items, None, tol1) == Some(0int),
        items.len() == 0 ==> spec_select(items, None, tol1) is None,
{
}

} // verus!
