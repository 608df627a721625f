//! Which context window the answer of a server gives, said over the members of its JSON.

use vstd::prelude::*;

use crate::json;
use crate::json::JsonContents;
use crate::models;
use crate::models::{DiscoveryError, DiscoveryErrorView, ModelListing, ModelListingView};

verus! {

/// `v` is an object with the number `n` under this key, stored as an unsigned integer.
pub open spec fn has_number(v: serde_json::Value, key: Seq<char>, n: u64) -> bool {
    json::json_contents(v) matches JsonContents::Object(entries) && entries.contains_key(key)
        && json::json_contents(entries[key]) == JsonContents::Unsigned(n)
}

/// `v` has no positive number under this key.
pub open spec fn gives_nothing(v: serde_json::Value, key: Seq<char>) -> bool {
    forall|n: u64| has_number(v, key, n) ==> n == 0
}

/// The names under which a server may give a context window, the first that gives one counting.
pub open spec fn window_names() -> Seq<Seq<char>> {
    seq![
        "max_model_len"@,
        "max_context_length"@,
        "context_length"@,
        "n_ctx"@,
        "max_seq_len"@,
        "context_window"@,
        "max_tokens"@,
    ]
}

/// The entry `v` is that of the model `name`.
pub open spec fn is_entry_of(v: serde_json::Value, name: Seq<char>) -> bool {
    json::json_contents(v) matches JsonContents::Object(entries) && entries.contains_key("id"@)
        && json::json_contents(entries["id"@]) == JsonContents::Text(name)
}

/// The answer lists these entries.
pub open spec fn lists(answer: serde_json::Value, items: Seq<serde_json::Value>) -> bool {
    json::json_contents(answer) matches JsonContents::Object(entries) && entries.contains_key(
        "data"@,
    ) && json::json_contents(entries["data"@]) == JsonContents::Array(items)
}

/// The `i`-th entry is the first of the model.
pub open spec fn first_of(items: Seq<serde_json::Value>, name: Seq<char>, i: int) -> bool {
    &&& 0 <= i < items.len()
    &&& is_entry_of(items[i], name)
    &&& forall|j: int| 0 <= j < i ==> !is_entry_of(#[trigger] items[j], name)
}

/// What is read of an entry: whether it is that of the model, and its number under each of the names.
proof fn lemma_listing(v: serde_json::Value, name: Seq<char>)
    ensures
        models::listing_of(v).id == Some(name) <==> is_entry_of(v, name),
        models::listing_of(v).limits.len() == 7,
        forall|k: int, n: u64|
            0 <= k < 7 ==> (#[trigger] models::listing_of(v).limits[k] == Some(n)
                <==> #[trigger] has_number(v, window_names()[k], n)),
{
    let limits = models::listing_of(v).limits;
    assert forall|k: int, n: u64| 0 <= k < 7 implies (#[trigger] limits[k] == Some(n)
        <==> #[trigger] has_number(v, window_names()[k], n)) by {
        assert(k == 0 || k == 1 || k == 2 || k == 3 || k == 4 || k == 5 || k == 6);
        assert(limits[k] == models::limit_of(v, window_names()[k]));
    }
}

/// The first entry of the model is the one that is looked at.
proof fn lemma_first_listing(listings: Seq<ModelListingView>, name: Seq<char>, from: int, i: int)
    requires
        0 <= from <= i < listings.len(),
        listings[i].id == Some(name),
        forall|j: int| from <= j < i ==> (#[trigger] listings[j]).id != Some(name),
    ensures
        models::listing_from(listings, name, from) == Some(listings[i]),
    decreases i - from,
{
    if from < i {
        lemma_first_listing(listings, name, from + 1, i);
    }
}

/// No entry is looked at where none is that of the model.
proof fn lemma_no_listing(listings: Seq<ModelListingView>, name: Seq<char>, from: int)
    requires
        0 <= from,
        forall|j: int| from <= j < listings.len() ==> (#[trigger] listings[j]).id != Some(name),
    ensures
        models::listing_from(listings, name, from) is None,
    decreases listings.len() - from,
{
    if from < listings.len() {
        lemma_no_listing(listings, name, from + 1);
    }
}

/// The first positive number is the one that counts.
proof fn lemma_first_positive(limits: Seq<Option<u64>>, from: int, k: int, n: u64)
    requires
        0 <= from <= k < limits.len(),
        n > 0,
        limits[k] == Some(n),
        forall|j: int|
            from <= j < k ==> ((#[trigger] limits[j]) is None || limits[j] == Some(0u64)),
    ensures
        models::positive_from(limits, from) == Some(n),
    decreases k - from,
{
    if from < k {
        assert(limits[from] is None || limits[from] == Some(0u64));
        lemma_first_positive(limits, from + 1, k, n);
    }
}

/// No number counts where none is positive.
proof fn lemma_no_positive(limits: Seq<Option<u64>>, from: int)
    requires
        0 <= from,
        forall|j: int|
            from <= j < limits.len() ==> ((#[trigger] limits[j]) is None || limits[j] == Some(
                0u64,
            )),
    ensures
        models::positive_from(limits, from) is None,
    decreases limits.len() - from,
{
    if from < limits.len() {
        assert(limits[from] is None || limits[from] == Some(0u64));
        lemma_no_positive(limits, from + 1);
    }
}

/// The entries of an answer are those under `data`, each of them.
proof fn lemma_entries(answer: serde_json::Value, items: Seq<serde_json::Value>)
    requires
        lists(answer, items),
    ensures
        models::listings_of(answer).len() == items.len(),
        forall|j: int|
            0 <= j < items.len() ==> #[trigger] models::listings_of(answer)[j]
                == models::listing_of(items[j]),
{
}

/// The first entry of a model in the list, and under it the first of the names with a positive number,
/// give its window, whatever other members the entry has and whatever other entries there are.
pub proof fn law_window_is_under_the_first_name(
    answer: serde_json::Value,
    items: Seq<serde_json::Value>,
    name: Seq<char>,
    i: int,
    k: int,
    n: u64,
)
    requires
        lists(answer, items),
        first_of(items, name, i),
        0 <= k < 7,
        n > 0,
        has_number(items[i], window_names()[k], n),
        forall|j: int| 0 <= j < k ==> gives_nothing(items[i], #[trigger] window_names()[j]),
    ensures
        models::window_of(models::listings_of(answer), name) == Some(n as usize),
        models::known_window(None, models::listings_of(answer), name) == Some(n as usize),
        forall|known: usize|
            models::known_window(Some(known), #[trigger] models::listings_of(answer), name) == Some(
                n as usize,
            ),
{
    let listings = models::listings_of(answer);
    lemma_entries(answer, items);
    assert forall|j: int| 0 <= j < i implies (#[trigger] listings[j]).id != Some(name) by {
        assert(!is_entry_of(items[j], name));
        lemma_listing(items[j], name);
    }
    lemma_listing(items[i], name);
    lemma_first_listing(listings, name, 0, i);
    let limits = listings[i].limits;
    assert(limits[k] == Some(n));
    assert forall|j: int| 0 <= j < k implies ((#[trigger] limits[j]) is None || limits[j] == Some(
        0u64,
    )) by {
        assert(gives_nothing(items[i], window_names()[j]));
        if let Some(m) = limits[j] {
            assert(has_number(items[i], window_names()[j], m));
        }
    }
    lemma_first_positive(limits, 0, k, n);
}

/// A positive number under the first of the names is the window.
pub proof fn law_max_model_len_is_the_window(
    answer: serde_json::Value,
    items: Seq<serde_json::Value>,
    name: Seq<char>,
    i: int,
    n: u64,
)
    requires
        lists(answer, items),
        first_of(items, name, i),
        n > 0,
        has_number(items[i], "max_model_len"@, n),
    ensures
        models::window_of(models::listings_of(answer), name) == Some(n as usize),
{
    law_window_is_under_the_first_name(answer, items, name, i, 0, n);
}

/// No window is found where the first entry of the model has a positive number under none of the names;
/// a client then keeps the window that it knew.
pub proof fn law_no_name_no_window(
    answer: serde_json::Value,
    items: Seq<serde_json::Value>,
    name: Seq<char>,
    i: int,
    known: Option<usize>,
)
    requires
        lists(answer, items),
        first_of(items, name, i),
        forall|j: int| 0 <= j < 7 ==> gives_nothing(items[i], #[trigger] window_names()[j]),
    ensures
        models::window_of(models::listings_of(answer), name) is None,
        models::known_window(known, models::listings_of(answer), name) == known,
{
    let listings = models::listings_of(answer);
    lemma_entries(answer, items);
    assert forall|j: int| 0 <= j < i implies (#[trigger] listings[j]).id != Some(name) by {
        assert(!is_entry_of(items[j], name));
        lemma_listing(items[j], name);
    }
    lemma_listing(items[i], name);
    lemma_first_listing(listings, name, 0, i);
    let limits = listings[i].limits;
    assert forall|j: int| 0 <= j < limits.len() implies ((#[trigger] limits[j]) is None || limits[j]
        == Some(0u64)) by {
        assert(gives_nothing(items[i], window_names()[j]));
        if let Some(m) = limits[j] {
            assert(has_number(items[i], window_names()[j], m));
        }
    }
    lemma_no_positive(limits, 0);
}

/// No window is found where the answer lists no entry of the model, or nothing at all; a client then
/// keeps the window that it knew.
pub proof fn law_no_entry_no_window(answer: serde_json::Value, name: Seq<char>, known: Option<usize>)
    requires
        forall|items: Seq<serde_json::Value>, j: int|
            #[trigger] lists(answer, items) && 0 <= j < items.len() ==> !is_entry_of(
                #[trigger] items[j],
                name,
            ),
    ensures
        models::window_of(models::listings_of(answer), name) is None,
        models::known_window(known, models::listings_of(answer), name) == known,
{
    let listings = models::listings_of(answer);
    assert forall|j: int| 0 <= j < listings.len() implies (#[trigger] listings[j]).id != Some(
        name,
    ) by {
        let items = json::json_items(json::json_member(answer, "data"@)->0)->0;
        assert(lists(answer, items));
        assert(!is_entry_of(items[j], name));
        lemma_listing(items[j], name);
    }
    lemma_no_listing(listings, name, 0);
}

/// The answers with a status from two hundred on and below three hundred are read, and no others.
pub proof fn law_success_is_two_hundred_and_up(code: u16)
    ensures
        models::is_success(code) <==> code / 100 == 2,
{
}

/// An entry and an error are told apart by all that they hold.
pub proof fn law_entries_are_all_they_hold(entry: ModelListing, e: DiscoveryError)
    ensures
        entry.deep_view().id == (match entry.id {
            Some(id) => Some(id@),
            None => None,
        }),
        entry.deep_view().limits == entry.limits@,
        match e {
            DiscoveryError::Refused(status, body) => e.deep_view() == DiscoveryErrorView::Refused(
                status@,
                body@,
            ),
            DiscoveryError::NotJson => e.deep_view() is NotJson,
        },
{
}

/// The texts of the errors of a discovery.
pub proof fn law_discovery_error_texts(status: Seq<char>, body: Seq<char>)
    ensures
        models::discovery_error_text(DiscoveryErrorView::Refused(status, body))
            == "GET /models failed: "@ + status + " body: "@ + body,
        models::discovery_error_text(DiscoveryErrorView::NotJson)
            == "decoding /models response as JSON"@,
{
}

} // verus!
