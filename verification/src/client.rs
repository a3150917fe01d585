//! The engine-side half of the lyrics service client: endpoint URLs and the
//! interpretation of responses. The caller performs the HTTP request and the
//! body parse, and hands status and parse result back as plain values.

use vstd::prelude::*;
use vstd::string::StringExecFns;
use crate::model::{
    ErrorModel, ExactLookup, ExactModel, ItemModel, LookupError, LrclibItem, SearchLookup,
    SearchModel,
};

verus! {

/// Configuration of the lyrics service client: the base URL the endpoint
/// paths are appended to.
#[derive(Debug, Clone)]
pub struct LrcLibClient {
    pub url: String,
}

impl LrcLibClient {
    /// A client for the lyrics service at the given base URL.
    pub fn new(url: &str) -> (r: LrcLibClient)
        ensures
            r.url@ == url@,
    {
        LrcLibClient { url: String::from_str(url) }
    }

    /// Replaces the base URL.
    pub fn set_url(&mut self, url: &str)
        ensures
            final(self).url@ == url@,
    {
        self.url = String::from_str(url);
    }

    /// The exact-lookup endpoint under the base URL.
    pub fn get_endpoint(&self) -> (r: String)
        ensures
            r@ == self.url@ + "/api/get"@,
    {
        self.url.clone().concat("/api/get")
    }

    /// The search endpoint under the base URL.
    pub fn search_endpoint(&self) -> (r: String)
        ensures
            r@ == self.url@ + "/api/search"@,
    {
        self.url.clone().concat("/api/search")
    }
}

/// Whether an HTTP status is a success status.
pub open spec fn spec_is_success(status: u16) -> bool {
    200 <= status < 300
}

/// Whether an HTTP status is the not-found status.
pub open spec fn spec_is_not_found(status: u16) -> bool {
    status == 404
}

/// What an exact-lookup response means: on success, the parsed record or a
/// schema error when the body did not parse; not-found maps to a logical
/// miss; any other status is a service error carrying that status.
pub open spec fn spec_exact_outcome(status: u16, parsed: Result<ItemModel, Seq<char>>) -> ExactModel {
    if spec_is_success(status) {
        match parsed {
            Ok(item) => ExactModel::Found(item),
            Err(detail) => ExactModel::Failed(ErrorModel::Schema(detail)),
        }
    } else if spec_is_not_found(status) {
        ExactModel::NotFound
    } else {
        ExactModel::Failed(ErrorModel::Service(status))
    }
}

/// What a search response means, under the same status rules as the exact
/// lookup; a successful body is a list of records, possibly empty.
pub open spec fn spec_search_outcome(
    status: u16,
    parsed: Result<Seq<ItemModel>, Seq<char>>,
) -> SearchModel {
    if spec_is_success(status) {
        match parsed {
            Ok(items) => SearchModel::Found(items),
            Err(detail) => SearchModel::Failed(ErrorModel::Schema(detail)),
        }
    } else if spec_is_not_found(status) {
        SearchModel::NotFound
    } else {
        SearchModel::Failed(ErrorModel::Service(status))
    }
}

/// Interprets an exact-lookup response. `parsed` is the result of parsing
/// the body into one record; it is consulted only on a success status (on
/// any other status the caller did not parse a body).
pub fn exact_from_response(status: u16, parsed: Result<LrclibItem, String>) -> (r: ExactLookup)
    ensures
        r@ == spec_exact_outcome(
            status,
            match parsed {
                Ok(item) => Ok(item@),
                Err(detail) => Err(detail@),
            },
        ),
{
    if 200 <= status && status < 300 {
        match parsed {
            Ok(item) => ExactLookup::Found(item),
            Err(detail) => ExactLookup::Failed(LookupError::Schema(detail)),
        }
    } else if status == 404 {
        ExactLookup::NotFound
    } else {
        ExactLookup::Failed(LookupError::Service(status))
    }
}

/// Interprets a search response, as [`exact_from_response`] does for the
/// exact lookup.
pub fn search_from_response(status: u16, parsed: Result<Vec<LrclibItem>, String>) -> (r:
    SearchLookup)
    ensures
        r@ == spec_search_outcome(
            status,
            match parsed {
                Ok(items) => Ok(items.deep_view()),
                Err(detail) => Err(detail@),
            },
        ),
{
    if 200 <= status && status < 300 {
        match parsed {
            Ok(items) => SearchLookup::Found(items),
            Err(detail) => SearchLookup::Failed(LookupError::Schema(detail)),
        }
    } else if status == 404 {
        SearchLookup::NotFound
    } else {
        SearchLookup::Failed(LookupError::Service(status))
    }
}

} // verus!
