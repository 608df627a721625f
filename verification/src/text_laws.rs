//! What the text functions do, said over the characters of their texts.

use vstd::prelude::*;

use crate::fences;
use crate::text;

verus! {

/// Whitespace is what has the Unicode property `White_Space`.
pub proof fn law_whitespace_is_that_of_unicode(c: char)
    ensures
        text::is_space(c) <==> (0x9 <= c as int <= 0xd || c as int == 0x20 || c as int == 0x85
            || c as int == 0xa0 || c as int == 0x1680 || 0x2000 <= c as int <= 0x200a || c as int
            == 0x2028 || c as int == 0x2029 || c as int == 0x202f || c as int == 0x205f || c as int
            == 0x3000),
{
}

/// All the characters are whitespace.
pub open spec fn is_blank(s: Seq<char>) -> bool {
    forall|i: int| 0 <= i < s.len() ==> text::is_space(#[trigger] s[i])
}

/// What is cut off the start is whitespace, and what is left begins with none.
proof fn lemma_start(s: Seq<char>) -> (k: int)
    ensures
        0 <= k <= s.len(),
        text::trim_start(s) == s.skip(k),
        is_blank(s.take(k)),
        k < s.len() ==> !text::is_space(s[k]),
    decreases s.len(),
{
    if s.len() > 0 && text::is_space(s.first()) {
        let k = lemma_start(s.drop_first());
        assert(s.drop_first().skip(k) =~= s.skip(k + 1));
        assert forall|i: int| 0 <= i < k + 1 implies text::is_space(#[trigger] s.take(k + 1)[i]) by {
            if i > 0 {
                assert(s.drop_first().take(k)[i - 1] == s[i]);
            }
        }
        k + 1
    } else {
        assert(s.skip(0) =~= s);
        0
    }
}

/// What is cut off the end is whitespace, and what is left ends with none.
proof fn lemma_end(s: Seq<char>) -> (k: int)
    ensures
        0 <= k <= s.len(),
        text::trim_end(s) == s.take(k),
        is_blank(s.skip(k)),
        0 < k ==> !text::is_space(s[k - 1]),
    decreases s.len(),
{
    if s.len() > 0 && text::is_space(s.last()) {
        let less = s.drop_last();
        let k = lemma_end(less);
        assert(less.take(k) =~= s.take(k));
        assert forall|i: int| 0 <= i < s.skip(k).len() implies text::is_space(
            #[trigger] s.skip(k)[i],
        ) by {
            if k + i < less.len() {
                assert(less.skip(k)[i] == s[k + i]);
            } else {
                assert(s.skip(k)[i] == s.last());
            }
        }
        k
    } else {
        assert(s.take(s.len() as int) =~= s);
        s.len() as int
    }
}

/// Trimming cuts off all the whitespace at both ends, and nothing else.
pub proof fn law_trimming_cuts_off_outer_space(s: Seq<char>)
    ensures
        exists|i: int, j: int|
            0 <= i <= j <= s.len() && text::trim(s) == #[trigger] s.subrange(i, j) && is_blank(
                s.take(i),
            ) && is_blank(s.skip(j)) && (i < j ==> !text::is_space(s[i]) && !text::is_space(
                s[j - 1],
            )),
        exists|i: int|
            0 <= i <= s.len() && text::trim_start(s) == #[trigger] s.skip(i) && is_blank(s.take(i))
                && (i < s.len() ==> !text::is_space(s[i])),
{
    let i = lemma_start(s);
    let t = s.skip(i);
    let k = lemma_end(t);
    let j = i + k;
    assert(t.take(k) =~= s.subrange(i, j));
    assert(t.skip(k) =~= s.skip(j));
    if k > 0 {
        assert(t[k - 1] == s[j - 1]);
    }
}

/// A text is found at the first position at which its characters stand, and not found where they stand
/// nowhere.
pub proof fn law_first_occurrence_is_found(s: Seq<char>, pattern: Seq<char>)
    ensures
        match text::find(s, pattern) {
            Some(i) => 0 <= i && i + pattern.len() <= s.len() && s.subrange(i, i + pattern.len())
                == pattern && (forall|j: int|
                0 <= j < i ==> #[trigger] s.subrange(j, j + pattern.len()) != pattern),
            None => forall|j: int|
                0 <= j && j + pattern.len() <= s.len() ==> #[trigger] s.subrange(
                    j,
                    j + pattern.len(),
                ) != pattern,
        },
{
    text::lemma_find_from(s, pattern, 0);
    assert forall|j: int| 0 <= j && j + pattern.len() <= s.len() implies (text::occurs_at(
        s,
        pattern,
        j,
    ) <==> #[trigger] s.subrange(j, j + pattern.len()) == pattern) by {}
}

/// Taking a pattern out keeps what stands before its first occurrence and goes on behind it; a text
/// without the pattern stays as it is.
pub proof fn law_every_occurrence_is_taken_out(s: Seq<char>, pattern: Seq<char>)
    requires
        pattern.len() > 0,
    ensures
        match text::find(s, pattern) {
            Some(k) => text::without(s, pattern) == s.take(k) + text::without(
                s.skip(k + pattern.len()),
                pattern,
            ),
            None => text::without(s, pattern) == s,
        },
{
    text::lemma_without(s, pattern, 0);
    assert(s.skip(0) =~= s);
    if let Some(k) = text::find(s, pattern) {
        assert(s.subrange(0, k) =~= s.take(k));
    }
}

/// The number that a row of digits stands for.
pub open spec fn number_of(digits: Seq<char>) -> int
    decreases digits.len(),
{
    if digits.len() == 0 {
        0
    } else {
        10 * number_of(digits.drop_last()) + (digits.last() as int - '0' as int)
    }
}

/// A number in decimal is a row of digits that stands for it, and does not begin with a zero unless it
/// is zero.
pub proof fn law_decimal_stands_for_the_number(n: nat)
    ensures
        number_of(text::decimal(n)) == n,
        text::decimal(n).len() > 0,
        forall|i: int| 0 <= i < text::decimal(n).len() ==> '0' <= #[trigger] text::decimal(n)[i] <= '9',
        n > 0 ==> text::decimal(n)[0] != '0',
    decreases n,
{
    let all = text::decimal(n);
    if n < 10 {
        assert(all.drop_last() =~= Seq::<char>::empty());
        assert(number_of(all.drop_last()) == 0);
        assert(all.last() as int == '0' as int + n);
    } else {
        law_decimal_stands_for_the_number(n / 10);
        let head = text::decimal(n / 10);
        assert(all.drop_last() =~= head);
        assert(all.last() as int == '0' as int + (n % 10));
        assert(all[0] == head[0]);
        assert forall|i: int| 0 <= i < all.len() implies '0' <= #[trigger] all[i] <= '9' by {
            if i < head.len() {
                assert(all[i] == head[i]);
            }
        }
    }
}

/// The language specifier is `json`, each of its letters in upper or lower case.
pub proof fn law_specifier_is_json_in_any_case(s: Seq<char>)
    ensures
        fences::begins_with_json(s) <==> s.len() >= 4 && (s[0] == 'j' || s[0] == 'J') && (s[1]
            == 's' || s[1] == 'S') && (s[2] == 'o' || s[2] == 'O') && (s[3] == 'n' || s[3] == 'N'),
        fences::fence() == "```"@,
{
    reveal_strlit("```");
    assert(fences::fence() =~= "```"@);
}

} // verus!
