//! Discovery of a model's context window from the list of models that a server offers.
//!
//! Many OpenAI-compatible servers add a field to the entry of a model that gives its context
//! window, under one of several names.

use vstd::prelude::*;
use vstd::string::*;

use crate::client::OpenAIClient;
use crate::json;
use crate::json::{as_items, as_text, as_unsigned, get_member, parse_json};
use crate::text::same_text;

verus! {

/// What the entry of a model says: its identifier, and the numbers that it has under the names by
/// which servers give a context window, in the order in which they count.
#[derive(Debug)]
pub struct ModelListing {
    pub id: Option<String>,
    pub limits: Vec<Option<u64>>,
}

/// Deep view of [`ModelListing`].
pub struct ModelListingView {
    pub id: Option<Seq<char>>,
    pub limits: Seq<Option<u64>>,
}

impl DeepView for ModelListing {
    type V = ModelListingView;

    open spec fn deep_view(&self) -> ModelListingView {
        ModelListingView { id: self.id.deep_view(), limits: self.limits@ }
    }
}

/// The first entry from `from` on with the identifier `name`.
pub open spec fn listing_from(
    listings: Seq<ModelListingView>,
    name: Seq<char>,
    from: int,
) -> Option<ModelListingView>
    decreases listings.len() - from,
{
    if from < 0 || from >= listings.len() {
        None
    } else if listings[from].id == Some(name) {
        Some(listings[from])
    } else {
        listing_from(listings, name, from + 1)
    }
}

/// The first positive number from `from` on.
pub open spec fn positive_from(limits: Seq<Option<u64>>, from: int) -> Option<u64>
    decreases limits.len() - from,
{
    if from < 0 || from >= limits.len() {
        None
    } else if limits[from] matches Some(n) && n > 0 {
        limits[from]
    } else {
        positive_from(limits, from + 1)
    }
}

/// The context window of the model `name`: the first positive number in the first entry with that
/// identifier.
pub open spec fn window_of(listings: Seq<ModelListingView>, name: Seq<char>) -> Option<usize> {
    match listing_from(listings, name, 0) {
        Some(listing) => match positive_from(listing.limits, 0) {
            Some(n) => Some(n as usize),
            None => None,
        },
        None => None,
    }
}

/// The number that the entry `v` has under the name `key`, if any.
pub open spec fn limit_of(v: serde_json::Value, key: Seq<char>) -> Option<u64> {
    match json::json_member(v, key) {
        Some(m) => json::json_unsigned(m),
        None => None,
    }
}

/// What the entry `v` says.
pub open spec fn listing_of(v: serde_json::Value) -> ModelListingView {
    ModelListingView {
        id: match json::json_member(v, "id"@) {
            Some(m) => json::json_text(m),
            None => None,
        },
        limits: seq![
            limit_of(v, "max_model_len"@),
            limit_of(v, "max_context_length"@),
            limit_of(v, "context_length"@),
            limit_of(v, "n_ctx"@),
            limit_of(v, "max_seq_len"@),
            limit_of(v, "context_window"@),
            limit_of(v, "max_tokens"@),
        ],
    }
}

/// What the entries under `data` say; there are none where `data` is no array.
pub open spec fn listings_of(v: serde_json::Value) -> Seq<ModelListingView> {
    match json::json_member(v, "data"@) {
        Some(data) => match json::json_items(data) {
            Some(items) => items.map_values(|item: serde_json::Value| listing_of(item)),
            None => Seq::empty(),
        },
        None => Seq::empty(),
    }
}

/// The context window of the model `name`, by what the entries say.
pub fn context_window(listings: &Vec<ModelListing>, name: &str) -> (r: Option<usize>)
    ensures
        r == window_of(listings.deep_view(), name@),
{
    let mut i: usize = 0;
    while i < listings.len()
        invariant
            i <= listings@.len(),
            listing_from(listings.deep_view(), name@, 0) == listing_from(
                listings.deep_view(),
                name@,
                i as int,
            ),
        decreases listings@.len() - i,
    {
        assert(listings.deep_view()[i as int] == listings@[i as int].deep_view());
        if let Some(id) = &listings[i].id {
            if same_text(id.as_str(), name) {
                return first_positive(&listings[i].limits);
            }
        }
        i = i + 1;
    }
    None
}

/// The first positive number.
fn first_positive(limits: &Vec<Option<u64>>) -> (r: Option<usize>)
    ensures
        r == match positive_from(limits@, 0) {
            Some(n) => Some(n as usize),
            None => None,
        },
{
    let mut i: usize = 0;
    while i < limits.len()
        invariant
            i <= limits@.len(),
            positive_from(limits@, 0) == positive_from(limits@, i as int),
        decreases limits@.len() - i,
    {
        if let Some(n) = limits[i] {
            if n > 0 {
                return Some(n as usize);
            }
        }
        i = i + 1;
    }
    None
}

/// The number that the entry `v` has under the name `key`, if any.
fn read_limit(v: &serde_json::Value, key: &str) -> (r: Option<u64>)
    ensures
        r == limit_of(*v, key@),
{
    match get_member(v, key) {
        Some(m) => as_unsigned(m),
        None => None,
    }
}

/// What the entry `v` says.
fn read_listing(v: &serde_json::Value) -> (r: ModelListing)
    ensures
        r.deep_view() == listing_of(*v),
{
    let id: Option<String> = match get_member(v, "id") {
        Some(m) => match as_text(m) {
            Some(text) => Some(text.to_owned()),
            None => None,
        },
        None => None,
    };
    let mut limits: Vec<Option<u64>> = Vec::new();
    limits.push(read_limit(v, "max_model_len"));
    limits.push(read_limit(v, "max_context_length"));
    limits.push(read_limit(v, "context_length"));
    limits.push(read_limit(v, "n_ctx"));
    limits.push(read_limit(v, "max_seq_len"));
    limits.push(read_limit(v, "context_window"));
    limits.push(read_limit(v, "max_tokens"));
    assert(limits@ =~= listing_of(*v).limits);
    ModelListing { id, limits }
}

/// What the entries under `data` say.
fn read_listings(v: &serde_json::Value) -> (r: Vec<ModelListing>)
    ensures
        r.deep_view() == listings_of(*v),
{
    let mut out: Vec<ModelListing> = Vec::new();
    assert(out.deep_view() =~= Seq::<ModelListingView>::empty());
    if let Some(data) = get_member(v, "data") {
        if let Some(items) = as_items(data) {
            let ghost all = listings_of(*v);
            assert(all.take(0) =~= Seq::<ModelListingView>::empty());
            let mut i: usize = 0;
            while i < items.len()
                invariant
                    i <= items@.len(),
                    all == items@.map_values(|item: serde_json::Value| listing_of(item)),
                    out.deep_view() == all.take(i as int),
                decreases items@.len() - i,
            {
                let listing: ModelListing = read_listing(&items[i]);
                out.push(listing);
                assert(out.deep_view() =~= all.take(i as int).push(listing.deep_view()));
                assert(all.take(i + 1) =~= all.take(i as int).push(all[i as int]));
                i = i + 1;
            }
            assert(all.take(i as int) =~= all);
        }
    }
    out
}

/// Why the list of models cannot be read.
#[derive(Debug)]
pub enum DiscoveryError {
    /// The server refused: its status and the body of its answer.
    Refused(String, String),
    /// The body is no JSON.
    NotJson,
}

/// Deep view of [`DiscoveryError`].
pub enum DiscoveryErrorView {
    Refused(Seq<char>, Seq<char>),
    NotJson,
}

impl DeepView for DiscoveryError {
    type V = DiscoveryErrorView;

    open spec fn deep_view(&self) -> DiscoveryErrorView {
        match self {
            DiscoveryError::Refused(status, body) => DiscoveryErrorView::Refused(status@, body@),
            DiscoveryError::NotJson => DiscoveryErrorView::NotJson,
        }
    }
}

/// The text of an error.
pub open spec fn discovery_error_text(e: DiscoveryErrorView) -> Seq<char> {
    match e {
        DiscoveryErrorView::Refused(status, body) => "GET /models failed: "@ + status + " body: "@
            + body,
        DiscoveryErrorView::NotJson => "decoding /models response as JSON"@,
    }
}

impl DiscoveryError {
    /// The text of this error.
    pub fn message(&self) -> (r: String)
        ensures
            r@ == discovery_error_text(self.deep_view()),
    {
        match self {
            DiscoveryError::Refused(status, body) => "GET /models failed: ".to_owned().concat(
                status.as_str(),
            ).concat(" body: ").concat(body.as_str()),
            DiscoveryError::NotJson => "decoding /models response as JSON".to_owned(),
        }
    }
}

/// The status code stands for success.
pub open spec fn is_success(code: u16) -> bool {
    200 <= code < 300
}

/// The window that a client knows once it has read the entries: the one they give, or else the one
/// that it knew.
pub open spec fn known_window(
    known: Option<usize>,
    listings: Seq<ModelListingView>,
    name: Seq<char>,
) -> Option<usize> {
    match window_of(listings, name) {
        Some(n) => Some(n),
        None => known,
    }
}

impl OpenAIClient {
    /// Takes the context window of this client's model from the entries, and keeps it where they
    /// give one.
    pub fn adopt_context_window(&mut self, listings: &Vec<ModelListing>) -> (r: Option<usize>)
        ensures
            r == window_of(listings.deep_view(), old(self).model_name@),
            *final(self) == (OpenAIClient {
                max_context_tokens: known_window(
                    old(self).max_context_tokens,
                    listings.deep_view(),
                    old(self).model_name@,
                ),
                ..*old(self)
            }),
    {
        let window: Option<usize> = context_window(listings, self.model_name.as_str());
        if window.is_some() {
            self.max_context_tokens = window;
        }
        window
    }

    /// Reads the answer to a request for the list of models, and keeps the context window of this
    /// client's model where the list gives one.
    ///
    /// Returns `Ok(None)` if the model was not listed or no recognized field was present. Returns an
    /// error only where the server refused or the body is no JSON.
    pub fn discover_max_context_tokens(&mut self, code: u16, status: &str, body: &str) -> (r: Result<
        Option<usize>,
        DiscoveryError,
    >)
        ensures
            match r {
                Ok(window) => {
                    let listings = listings_of(json::json_parsed(body@)->0);
                    &&& is_success(code)
                    &&& json::json_parsed(body@) is Some
                    &&& window == window_of(listings, old(self).model_name@)
                    &&& *final(self) == (OpenAIClient {
                        max_context_tokens: known_window(
                            old(self).max_context_tokens,
                            listings,
                            old(self).model_name@,
                        ),
                        ..*old(self)
                    })
                },
                Err(e) => {
                    &&& *final(self) == *old(self)
                    &&& e.deep_view() == (if is_success(code) {
                        DiscoveryErrorView::NotJson
                    } else {
                        DiscoveryErrorView::Refused(status@, body@)
                    })
                    &&& is_success(code) ==> json::json_parsed(body@) is None
                },
            },
    {
        if code < 200 || code >= 300 {
            return Err(DiscoveryError::Refused(status.to_owned(), body.to_owned()));
        }
        match parse_json(body) {
            Ok(v) => Ok(self.adopt_context_window(&read_listings(&v))),
            Err(_) => Err(DiscoveryError::NotJson),
        }
    }
}

/// The first entry with the identifier is the one that counts.
proof fn lemma_listing_from(listings: Seq<ModelListingView>, name: Seq<char>, from: int)
    requires
        from >= 0,
    ensures
        match listing_from(listings, name, from) {
            Some(listing) => exists|i: int|
                #![trigger listings[i]]
                from <= i < listings.len() && listings[i] == listing && listing.id == Some(name) && (
                forall|j: int| from <= j < i ==> (#[trigger] listings[j]).id != Some(name)),
            None => forall|j: int|
                from <= j < listings.len() ==> (#[trigger] listings[j]).id != Some(name),
        },
    decreases listings.len() - from,
{
    if from < listings.len() && listings[from].id != Some(name) {
        lemma_listing_from(listings, name, from + 1);
    }
}

/// The first positive number is the one that counts.
proof fn lemma_positive_from(limits: Seq<Option<u64>>, from: int)
    requires
        from >= 0,
    ensures
        match positive_from(limits, from) {
            Some(n) => n > 0 && (exists|k: int|
                #![trigger limits[k]]
                from <= k < limits.len() && limits[k] == Some(n) && (forall|j: int|
                    from <= j < k ==> ((#[trigger] limits[j]) is None || limits[j] == Some(0u64)))),
            None => forall|j: int|
                from <= j < limits.len() ==> ((#[trigger] limits[j]) is None || limits[j] == Some(
                    0u64,
                )),
        },
    decreases limits.len() - from,
{
    if from < limits.len() && (limits[from] is None || limits[from] == Some(0u64)) {
        lemma_positive_from(limits, from + 1);
    }
}

/// A window is found exactly when the first entry of the model has a positive number, and it is the
/// first of them.
pub proof fn law_window_is_first_positive_number(
    listings: Seq<ModelListingView>,
    name: Seq<char>,
    i: int,
)
    requires
        0 <= i < listings.len(),
        listings[i].id == Some(name),
        forall|j: int| 0 <= j < i ==> (#[trigger] listings[j]).id != Some(name),
    ensures
        match window_of(listings, name) {
            Some(window) => exists|k: int|
                #![trigger listings[i].limits[k]]
                0 <= k < listings[i].limits.len() && (listings[i].limits[k] matches Some(n) && n > 0
                    && window == n as usize) && (forall|j: int|
                    0 <= j < k ==> ((#[trigger] listings[i].limits[j]) is None
                        || listings[i].limits[j] == Some(0u64))),
            None => forall|j: int|
                0 <= j < listings[i].limits.len() ==> ((#[trigger] listings[i].limits[j]) is None
                    || listings[i].limits[j] == Some(0u64)),
        },
{
    lemma_listing_from(listings, name, 0);
    lemma_positive_from(listings[i].limits, 0);
}

/// No window is found for a model that is not listed.
pub proof fn law_unlisted_model_has_no_window(listings: Seq<ModelListingView>, name: Seq<char>)
    requires
        forall|j: int| 0 <= j < listings.len() ==> (#[trigger] listings[j]).id != Some(name),
    ensures
        window_of(listings, name) is None,
{
    lemma_listing_from(listings, name, 0);
}

} // verus!
