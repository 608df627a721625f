//! JSON inside a reply of the model.

use vstd::prelude::*;
use vstd::string::*;

use crate::text;
use crate::text::{chars_of, head_to, position_in, start_trimmed, tail_from, trimmed};

verus! {

/// The marker that opens and closes a fenced block.
pub open spec fn fence() -> Seq<char> {
    seq!['`', '`', '`']
}

/// `s` begins with `json`, in any mixture of upper and lower case.
pub open spec fn begins_with_json(s: Seq<char>) -> bool {
    &&& s.len() >= 4
    &&& s[0] == 'j' || s[0] == 'J'
    &&& s[1] == 's' || s[1] == 'S'
    &&& s[2] == 'o' || s[2] == 'O'
    &&& s[3] == 'n' || s[3] == 'N'
}

/// The part of `text` behind the first opening fence and the whitespace after it; `None` where
/// there is no fence.
pub open spec fn behind_fence(text: Seq<char>) -> Option<Seq<char>> {
    let t = text::trim(text);
    match text::find(t, fence()) {
        Some(start) => Some(text::trim_start(t.skip(start + 3))),
        None => None,
    }
}

/// `rest` without an optional language specifier `json` and the whitespace after it.
pub open spec fn without_language(rest: Seq<char>) -> Seq<char> {
    if begins_with_json(rest) {
        text::trim_start(rest.skip(4))
    } else {
        rest
    }
}

/// The JSON content of a reply: what stands between the first fence, with its language specifier,
/// and the next one, or the end of the text where no fence closes it; the whole text where it has
/// no fence. Surrounding whitespace is cut off.
pub open spec fn json_of(text: Seq<char>) -> Seq<char> {
    match behind_fence(text) {
        None => text::trim(text),
        Some(rest) => {
            let body = without_language(rest);
            match text::find(body, fence()) {
                Some(end) => text::trim(body.take(end)),
                None => text::trim(body),
            }
        },
    }
}

/// Whether a character is the given letter, in upper or lower case.
fn is_letter(c: char, lower: char, upper: char) -> (r: bool)
    ensures
        r == (c == lower || c == upper),
{
    c == lower || c == upper
}

/// Whether `rest` begins with `json`, in any mixture of upper and lower case.
fn has_json_specifier(rest: &str) -> (r: bool)
    ensures
        r == begins_with_json(rest@),
{
    let cs: Vec<char> = chars_of(rest);
    cs.len() >= 4 && is_letter(cs[0], 'j', 'J') && is_letter(cs[1], 's', 'S') && is_letter(
        cs[2],
        'o',
        'O',
    ) && is_letter(cs[3], 'n', 'N')
}

/// The part of `text` behind the first opening fence and the whitespace after it.
fn rest_behind_fence<'a>(text: &'a str) -> (r: Option<&'a str>)
    ensures
        match r {
            Some(rest) => behind_fence(text@) == Some(rest@),
            None => behind_fence(text@) is None,
        },
{
    proof {
        reveal_strlit("```");
    }
    assert("```"@ =~= fence());
    let t: &'a str = trimmed(text);
    match position_in(t, "```") {
        Some(start) => Some(start_trimmed(tail_from(t, start + 3))),
        None => None,
    }
}

/// Extracts the JSON content from a reply that may be wrapped in markdown code fences.
///
/// Many models emit fenced JSON even when instructed to output raw JSON. The text itself is left
/// as it is, so that it can be reported.
pub fn extract_json<'a>(text: &'a str) -> (r: &'a str)
    ensures
        r@ == json_of(text@),
{
    let rest: &'a str = match rest_behind_fence(text) {
        None => return trimmed(text),
        Some(rest) => rest,
    };
    let body: &'a str = if has_json_specifier(rest) {
        start_trimmed(tail_from(rest, 4))
    } else {
        rest
    };
    proof {
        reveal_strlit("```");
    }
    assert("```"@ =~= fence());
    match position_in(body, "```") {
        Some(end) => trimmed(head_to(body, end)),
        None => trimmed(body),
    }
}

/// A fence behind `s` is the first one of the text: none stands in `s`, and `s` does not end in a
/// backtick, which would begin a fence earlier.
pub open spec fn leads_to_fence(s: Seq<char>) -> bool {
    &&& text::find(s, fence()) is None
    &&& s.len() == 0 || s.last() != '`'
}

/// The first fence of a text that has one behind `s`.
proof fn lemma_first_fence(s: Seq<char>, tail: Seq<char>)
    requires
        leads_to_fence(s),
    ensures
        text::find(s + (fence() + tail), fence()) == Some(s.len() as int),
        (s + (fence() + tail)).skip(s.len() as int + 3) == tail,
        (s + (fence() + tail)).take(s.len() as int) == s,
{
    let all = s + (fence() + tail);
    let n = s.len() as int;
    text::lemma_find_from(s, fence(), 0);
    assert(all.subrange(n, n + 3) =~= fence());
    assert forall|i: int| 0 <= i < n implies !text::occurs_at(all, fence(), i) by {
        if text::occurs_at(all, fence(), i) {
            let part = all.subrange(i, i + 3);
            if i + 3 <= n {
                assert(s.subrange(i, i + 3) =~= part);
                assert(text::occurs_at(s, fence(), i));
            } else {
                assert(part[n - 1 - i] == all[n - 1]);
            }
        }
    }
    text::lemma_first_occurrence(all, fence(), 0, n);
    assert(all.skip(n + 3) =~= tail);
    assert(all.take(n) =~= s);
}

/// Cutting off leading whitespace leaves a text that a fence may follow.
proof fn lemma_trimmed_leads_to_fence(s: Seq<char>)
    requires
        leads_to_fence(s),
    ensures
        leads_to_fence(text::trim_start(s)),
{
    text::lemma_absent_in_trimmed(s, fence());
    let k = text::lemma_trim_start_is_suffix(s);
    if k < s.len() {
        assert(text::trim_start(s).last() == s.last());
    }
}

/// What stands behind the first fence.
proof fn lemma_behind_first_fence(before: Seq<char>, tail: Seq<char>)
    requires
        leads_to_fence(before),
    ensures
        behind_fence(before + (fence() + tail)) == Some(text::trim_start(text::trim_end(tail))),
{
    let start = text::trim_start(before);
    text::lemma_trim_start_concat(before, fence() + tail);
    assert(start + (fence() + tail) =~= (start + fence()) + tail);
    text::lemma_trim_end_concat(start + fence(), tail);
    assert((start + fence()) + text::trim_end(tail) =~= start + (fence() + text::trim_end(tail)));
    lemma_trimmed_leads_to_fence(before);
    lemma_first_fence(start, text::trim_end(tail));
}

/// What is made of a body, once its language specifier is cut off, that a fence closes.
proof fn lemma_closed_body(body: Seq<char>, after: Seq<char>)
    requires
        leads_to_fence(body),
    ensures
        ({
            let rest = text::trim_start(body + (fence() + after));
            &&& rest == text::trim_start(body) + (fence() + after)
            &&& text::find(rest, fence()) == Some(text::trim_start(body).len() as int)
            &&& text::trim(rest.take(text::trim_start(body).len() as int)) == text::trim(body)
        }),
{
    text::lemma_trim_start_concat(body, fence() + after);
    lemma_trimmed_leads_to_fence(body);
    lemma_first_fence(text::trim_start(body), after);
    text::lemma_trim_start_twice(body);
}

/// A block with the language specifier `json`, in any mixture of upper and lower case and with any
/// whitespace before it, is extracted without whitespace around it, whatever stands before the
/// first fence and behind the next one.
pub proof fn law_json_block_is_extracted(
    before: Seq<char>,
    gap: Seq<char>,
    language: Seq<char>,
    body: Seq<char>,
    after: Seq<char>,
)
    requires
        leads_to_fence(before),
        text::trim_start(gap).len() == 0,
        begins_with_json(language),
        language.len() == 4,
        leads_to_fence(body),
    ensures
        json_of(before + fence() + gap + language + body + fence() + after) == text::trim(body),
{
    let end = text::trim_end(after);
    let tail = gap + language + body + fence();
    assert(before + fence() + gap + language + body + fence() + after =~= before + (fence() + (tail
        + after)));
    lemma_behind_first_fence(before, tail + after);
    assert(tail.last() == '`');
    text::lemma_trim_end_concat(tail, after);
    let rest = language + (body + (fence() + end));
    assert(tail + end =~= gap + rest);
    text::lemma_trim_start_concat(gap, rest);
    assert(text::trim_start(gap) + rest =~= rest);
    assert(rest.skip(4) =~= body + (fence() + end));
    lemma_closed_body(body, end);
}

/// A block without a language specifier is extracted without whitespace around it, whatever stands
/// before the first fence and behind the next one, unless it begins as a specifier does.
pub proof fn law_plain_block_is_extracted(before: Seq<char>, body: Seq<char>, after: Seq<char>)
    requires
        leads_to_fence(before),
        leads_to_fence(body),
        !begins_with_json(text::trim_start(body)),
    ensures
        json_of(before + fence() + body + fence() + after) == text::trim(body),
{
    let end = text::trim_end(after);
    let tail = body + fence();
    assert(before + fence() + body + fence() + after =~= before + (fence() + (tail + after)));
    lemma_behind_first_fence(before, tail + after);
    assert(tail.last() == '`');
    text::lemma_trim_end_concat(tail, after);
    assert(tail + end =~= body + (fence() + end));
    lemma_closed_body(body, end);
    let start = text::trim_start(body);
    let rest = start + (fence() + end);
    if start.len() < 4 {
        assert(rest[start.len() as int] == '`');
    }
}

/// A block with the language specifier `json` that no fence closes goes to the end of the text.
pub proof fn law_unclosed_block_is_extracted(
    before: Seq<char>,
    gap: Seq<char>,
    language: Seq<char>,
    body: Seq<char>,
)
    requires
        leads_to_fence(before),
        text::trim_start(gap).len() == 0,
        begins_with_json(language),
        language.len() == 4,
        text::find(body, fence()) is None,
    ensures
        json_of(before + fence() + gap + language + body) == text::trim(body),
{
    let end = text::trim_end(body);
    let tail = gap + language;
    assert(before + fence() + gap + language + body =~= before + (fence() + (tail + body)));
    lemma_behind_first_fence(before, tail + body);
    assert(tail.last() == language.last());
    text::lemma_trim_end_concat(tail, body);
    let rest = language + end;
    assert(tail + end =~= gap + rest);
    text::lemma_trim_start_concat(gap, rest);
    assert(text::trim_start(gap) + rest =~= rest);
    assert(rest.skip(4) =~= end);
    text::lemma_absent_in_trimmed(body, fence());
    text::lemma_absent_in_trimmed(end, fence());
    text::lemma_trim_start_twice(end);
    text::lemma_trim_ends_commute(body);
    text::lemma_trim_end_twice(text::trim_start(body));
}

/// A block without a language specifier that no fence closes goes to the end of the text.
pub proof fn law_unclosed_plain_block_is_extracted(before: Seq<char>, body: Seq<char>)
    requires
        leads_to_fence(before),
        text::find(body, fence()) is None,
        !begins_with_json(text::trim_start(text::trim_end(body))),
    ensures
        json_of(before + fence() + body) == text::trim(body),
{
    let end = text::trim_end(body);
    assert(before + fence() + body =~= before + (fence() + body));
    lemma_behind_first_fence(before, body);
    text::lemma_absent_in_trimmed(body, fence());
    text::lemma_absent_in_trimmed(end, fence());
    text::lemma_trim_start_twice(end);
    text::lemma_trim_ends_commute(body);
    text::lemma_trim_end_twice(text::trim_start(body));
}

/// A text without a fence is taken as it is, once whitespace around it is cut off.
pub proof fn law_unfenced_text_is_kept(body: Seq<char>)
    requires
        text::find(text::trim(body), fence()) is None,
    ensures
        json_of(body) == text::trim(body),
{
}

/// What was extracted is extracted as it is.
pub proof fn law_extraction_is_done_once(reply: Seq<char>)
    ensures
        json_of(json_of(reply)) == json_of(reply),
{
    let found = json_of(reply);
    match behind_fence(reply) {
        None => {
            text::lemma_trim_twice(reply);
        },
        Some(rest) => {
            let body = without_language(rest);
            text::lemma_find_from(body, fence(), 0);
            match text::find(body, fence()) {
                Some(end) => {
                    let inner = body.take(end);
                    text::lemma_find_from(inner, fence(), 0);
                    if let Some(i) = text::find(inner, fence()) {
                        assert(inner.subrange(i, i + 3) =~= body.subrange(i, i + 3));
                        assert(text::occurs_at(body, fence(), i));
                    }
                    text::lemma_absent_in_trimmed(inner, fence());
                    text::lemma_trim_twice(inner);
                },
                None => {
                    text::lemma_absent_in_trimmed(body, fence());
                    text::lemma_trim_twice(body);
                },
            }
        },
    }
    text::lemma_absent_in_trimmed(found, fence());
}

} // verus!
