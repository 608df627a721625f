//! What the schemas of tools, requests and responses hold, said member by member.

use schemars::schema::Schema;
use vstd::prelude::*;

use crate::json;
use crate::json::JsonContents;
use crate::text;

verus! {

/// The value under the key of an object; `None` where there is none, or where `v` is no object.
pub open spec fn under(v: serde_json::Value, key: Seq<char>) -> Option<serde_json::Value> {
    match json::json_contents(v) {
        JsonContents::Object(entries) => if entries.contains_key(key) {
            Some(entries[key])
        } else {
            None
        },
        _ => None,
    }
}

/// The keys that a tool's parameters treat in a way of their own are four.
proof fn lemma_keys_differ()
    ensures
        "description"@ != "title"@,
        "description"@ != "definitions"@,
        "description"@ != "$schema"@,
        "title"@ != "definitions"@,
        "title"@ != "$schema"@,
        "definitions"@ != "$schema"@,
        "Request"@ != "Response"@,
        "Request"@ != "definitions"@,
        "Response"@ != "definitions"@,
{
    reveal_strlit("description");
    reveal_strlit("title");
    reveal_strlit("definitions");
    reveal_strlit("$schema");
    reveal_strlit("Request");
    reveal_strlit("Response");
    assert("description"@.len() == 11 && "definitions"@.len() == 11);
    assert("description"@[2] == 's' && "definitions"@[2] == 'f');
    assert("title"@.len() == 5 && "$schema"@.len() == 7);
    assert("Request"@.len() == 7 && "Response"@.len() == 8);
}

/// The parameters of a tool hold every member of the schema of its argument type as it is, but for four
/// keys: the description and the title are left out; the definitions are those that the schema refers
/// to, where there are any; and the meta-schema is named, where there is one.
pub proof fn law_parameters_keep_the_schema(
    r: serde_json::Value,
    v: serde_json::Value,
    definitions: Option<serde_json::Value>,
    meta: Option<Seq<char>>,
    key: Seq<char>,
)
    requires
        crate::schema::is_argument_schema(r, v, definitions, meta),
    ensures
        json::json_contents(r) is Object,
        under(r, "description"@) is None,
        under(r, "title"@) is None,
        key != "description"@ && key != "title"@ && key != "definitions"@ && key != "$schema"@
            ==> under(r, key) == under(v, key),
        under(r, "definitions"@) == (match definitions {
            Some(d) => Some(d),
            None => under(v, "definitions"@),
        }),
        meta is None ==> under(r, "$schema"@) == under(v, "$schema"@),
        meta matches Some(url) ==> (under(r, "$schema"@) matches Some(m) && json::json_contents(m)
            == JsonContents::Text(url)),
{
    lemma_keys_differ();
    let found = json::json_contents(r)->Object_0;
    let base = crate::schema::argument_members(v, definitions);
    let all = match definitions {
        Some(d) => crate::schema::members(v).insert("definitions"@, d),
        None => crate::schema::members(v),
    };
    assert(base == all.remove("description"@).remove("title"@));
    assert forall|k: Seq<char>| k != "$schema"@ || meta is None implies (found.contains_key(k)
        <==> #[trigger] base.contains_key(k)) && (found.contains_key(k) ==> found[k] == base[k]) by {
        if meta is Some {
            let a = found.remove("$schema"@);
            let b = base.remove("$schema"@);
            assert(a == b);
            assert(a.contains_key(k) <==> found.contains_key(k));
            assert(b.contains_key(k) <==> base.contains_key(k));
            if found.contains_key(k) {
                assert(a[k] == found[k] && b[k] == base[k]);
            }
        }
    }
    assert(!base.contains_key("title"@));
    assert(!base.contains_key("description"@));
    assert(!found.contains_key("title"@));
    assert(!found.contains_key("description"@));
    if key != "description"@ && key != "title"@ {
        assert(base.contains_key(key) <==> all.contains_key(key));
    }
    assert(base.contains_key("definitions"@) <==> all.contains_key("definitions"@));
    assert(base.contains_key("$schema"@) <==> all.contains_key("$schema"@));
    assert forall|k: Seq<char>| #[trigger] crate::schema::members(v).contains_key(k) <==> under(
        v,
        k,
    ) is Some by {}
}

/// The definitions are handed on exactly where there are any, and then all of them.
pub proof fn law_definitions_are_handed_on(definitions: Map<String, Schema>)
    ensures
        definitions.dom().is_empty() ==> crate::schema::definitions_member(definitions) is None,
        !definitions.dom().is_empty() ==> crate::schema::definitions_member(definitions)
            == crate::schema::definitions_json(definitions),
{
    if definitions.dom().is_empty() {
        assert(definitions.is_empty());
    } else {
        assert(!definitions.is_empty());
    }
}

/// The combined schema holds the schema of the request, the schema of the response and, where there are
/// any, the definitions that both refer to, each under its key, and nothing else.
pub proof fn law_combined_schema_holds_both(
    request: serde_json::Value,
    response: serde_json::Value,
    definitions: Option<serde_json::Value>,
    key: Seq<char>,
)
    ensures
        ({
            let found = crate::schema::combined_members(request, response, definitions);
            &&& found.contains_key("Request"@) && found["Request"@] == request
            &&& found.contains_key("Response"@) && found["Response"@] == response
            &&& match definitions {
                Some(d) => found.contains_key("definitions"@) && found["definitions"@] == d,
                None => !found.contains_key("definitions"@),
            }
            &&& key != "Request"@ && key != "Response"@ && key != "definitions"@
                ==> !found.contains_key(key)
        }),
{
    lemma_keys_differ();
}

/// There is a `::` at position `i`.
pub open spec fn separated_at(path: Seq<char>, i: int) -> bool {
    0 <= i && i + 1 < path.len() && path[i] == ':' && path[i + 1] == ':'
}

/// What stands behind the last separator before a position.
proof fn lemma_segment(path: Seq<char>, end: int)
    requires
        end <= path.len(),
        forall|i: int| end - 1 <= i ==> !separated_at(path, i),
    ensures
        ({
            let name = text::segment_before(path, end);
            ||| (name == path && forall|i: int| !separated_at(path, i))
            ||| exists|i: int| #[trigger]
                separated_at(path, i) && name == path.skip(i + 2) && (forall|j: int|
                    i < j ==> !separated_at(path, j))
        }),
    decreases end,
{
    if end >= 2 {
        if path[end - 1] == ':' && path[end - 2] == ':' {
            assert(separated_at(path, end - 2));
        } else {
            assert(!separated_at(path, end - 2));
            lemma_segment(path, end - 1);
        }
    } else {
        assert forall|i: int| !separated_at(path, i) by {
            if i < end - 1 {
                assert(i < 0);
            }
        }
    }
}

/// A tool has the name of its argument type: what stands behind the last `::` of the path of the type,
/// or the whole path where there is none.
pub proof fn law_tool_has_the_name_of_its_type(path: Seq<char>)
    ensures
        ({
            let name = text::last_segment(path);
            ||| (name == path && forall|i: int| !separated_at(path, i))
            ||| exists|i: int| #[trigger]
                separated_at(path, i) && name == path.skip(i + 2) && (forall|j: int|
                    i < j ==> !separated_at(path, j))
        }),
{
    lemma_segment(path, path.len() as int);
}

} // verus!
