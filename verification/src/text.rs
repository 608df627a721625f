//! Text functions: whitespace, searching, cutting and decimal numbers.
//!
//! A text is modelled by its sequence of characters.

use vstd::prelude::*;
use vstd::string::*;

verus! {

/// The characters with the Unicode property `White_Space`.
pub open spec fn is_space(c: char) -> bool {
    ||| '\u{9}' <= c <= '\u{d}'
    ||| c == ' '
    ||| c == '\u{85}'
    ||| c == '\u{a0}'
    ||| c == '\u{1680}'
    ||| '\u{2000}' <= c <= '\u{200a}'
    ||| c == '\u{2028}'
    ||| c == '\u{2029}'
    ||| c == '\u{202f}'
    ||| c == '\u{205f}'
    ||| c == '\u{3000}'
}

/// `s` without its leading whitespace.
pub open spec fn trim_start(s: Seq<char>) -> Seq<char>
    decreases s.len(),
{
    if s.len() > 0 && is_space(s.first()) {
        trim_start(s.drop_first())
    } else {
        s
    }
}

/// `s` without its trailing whitespace.
pub open spec fn trim_end(s: Seq<char>) -> Seq<char>
    decreases s.len(),
{
    if s.len() > 0 && is_space(s.last()) {
        trim_end(s.drop_last())
    } else {
        s
    }
}

/// `s` without leading and trailing whitespace.
pub open spec fn trim(s: Seq<char>) -> Seq<char> {
    trim_end(trim_start(s))
}

/// Cutting off leading whitespace leaves a suffix.
pub proof fn lemma_trim_start_is_suffix(s: Seq<char>) -> (k: int)
    ensures
        0 <= k <= s.len(),
        trim_start(s) == s.skip(k),
    decreases s.len(),
{
    if s.len() > 0 && is_space(s.first()) {
        let k = lemma_trim_start_is_suffix(s.drop_first());
        assert(s.drop_first().skip(k) =~= s.skip(k + 1));
        k + 1
    } else {
        assert(s.skip(0) =~= s);
        0
    }
}

/// Cutting off trailing whitespace leaves a prefix.
pub proof fn lemma_trim_end_is_prefix(s: Seq<char>) -> (k: int)
    ensures
        0 <= k <= s.len(),
        trim_end(s) == s.take(k),
    decreases s.len(),
{
    if s.len() > 0 && is_space(s.last()) {
        let k = lemma_trim_end_is_prefix(s.drop_last());
        assert(s.drop_last().take(k) =~= s.take(k));
        k
    } else {
        assert(s.take(s.len() as int) =~= s);
        s.len() as int
    }
}

/// Leading whitespace is cut off the first of two texts where the second begins with none.
pub proof fn lemma_trim_start_concat(a: Seq<char>, b: Seq<char>)
    requires
        b.len() > 0,
        !is_space(b.first()),
    ensures
        trim_start(a + b) == trim_start(a) + b,
    decreases a.len(),
{
    if a.len() == 0 {
        assert(a + b =~= b);
    } else {
        assert((a + b).first() == a.first());
        if is_space(a.first()) {
            lemma_trim_start_concat(a.drop_first(), b);
            assert((a + b).drop_first() =~= a.drop_first() + b);
        }
    }
}

/// Trailing whitespace is cut off the second of two texts where the first ends with none.
pub proof fn lemma_trim_end_concat(a: Seq<char>, b: Seq<char>)
    requires
        a.len() > 0,
        !is_space(a.last()),
    ensures
        trim_end(a + b) == a + trim_end(b),
    decreases b.len(),
{
    if b.len() == 0 {
        assert(a + b =~= a);
    } else {
        assert((a + b).last() == b.last());
        if is_space(b.last()) {
            lemma_trim_end_concat(a, b.drop_last());
            assert((a + b).drop_last() =~= a + b.drop_last());
        }
    }
}

/// Where leading whitespace was cut off, none is left.
pub proof fn lemma_trim_start_twice(s: Seq<char>)
    ensures
        trim_start(trim_start(s)) == trim_start(s),
        trim_start(s).len() > 0 ==> !is_space(trim_start(s).first()),
    decreases s.len(),
{
    if s.len() > 0 && is_space(s.first()) {
        lemma_trim_start_twice(s.drop_first());
    }
}

/// Where trailing whitespace was cut off, none is left.
pub proof fn lemma_trim_end_twice(s: Seq<char>)
    ensures
        trim_end(trim_end(s)) == trim_end(s),
    decreases s.len(),
{
    if s.len() > 0 && is_space(s.last()) {
        lemma_trim_end_twice(s.drop_last());
    }
}

/// Where whitespace was cut off, none is left.
pub proof fn lemma_trim_twice(s: Seq<char>)
    ensures
        trim(trim(s)) == trim(s),
{
    let t = trim_start(s);
    lemma_trim_start_twice(s);
    lemma_trim_end_twice(t);
    let k = lemma_trim_end_is_prefix(t);
    if k > 0 {
        assert(trim_end(t).first() == t.first());
    }
}

/// What cutting off trailing whitespace leaves of a text that begins with whitespace.
proof fn lemma_trim_end_after_space(s: Seq<char>)
    requires
        s.len() > 0,
        is_space(s.first()),
    ensures
        trim_end(s) == if trim_end(s.drop_first()).len() == 0 {
            Seq::empty()
        } else {
            seq![s.first()] + trim_end(s.drop_first())
        },
    decreases s.len(),
{
    if s.len() == 1 {
        assert(s.drop_last() =~= Seq::<char>::empty());
        assert(s.drop_first() =~= Seq::<char>::empty());
    } else if is_space(s.last()) {
        lemma_trim_end_after_space(s.drop_last());
        assert(s.drop_last().drop_first() =~= s.drop_first().drop_last());
    } else {
        assert(s =~= seq![s.first()] + s.drop_first());
    }
}

/// It does not matter at which end whitespace is cut off first.
pub proof fn lemma_trim_ends_commute(s: Seq<char>)
    ensures
        trim_start(trim_end(s)) == trim(s),
    decreases s.len(),
{
    if s.len() > 0 && is_space(s.first()) {
        let rest = s.drop_first();
        lemma_trim_ends_commute(rest);
        lemma_trim_end_after_space(s);
        assert((seq![s.first()] + trim_end(rest)).drop_first() =~= trim_end(rest));
    } else {
        let k = lemma_trim_end_is_prefix(s);
        if k > 0 {
            assert(trim_end(s).first() == s.first());
        }
    }
}

/// `pattern` stands in `s` at position `i`.
pub open spec fn occurs_at(s: Seq<char>, pattern: Seq<char>, i: int) -> bool {
    0 <= i && i + pattern.len() <= s.len() && s.subrange(i, i + pattern.len()) == pattern
}

/// The first position from `from` on at which `pattern` stands in `s`.
pub open spec fn find_from(s: Seq<char>, pattern: Seq<char>, from: int) -> Option<int>
    decreases s.len() - from + 1,
{
    if from < 0 || from + pattern.len() > s.len() {
        None
    } else if occurs_at(s, pattern, from) {
        Some(from)
    } else {
        find_from(s, pattern, from + 1)
    }
}

/// The first position at which `pattern` stands in `s`.
pub open spec fn find(s: Seq<char>, pattern: Seq<char>) -> Option<int> {
    find_from(s, pattern, 0)
}

/// What `find_from` finds is the least position of an occurrence.
pub proof fn lemma_find_from(s: Seq<char>, pattern: Seq<char>, from: int)
    requires
        from >= 0,
    ensures
        find_from(s, pattern, from) matches Some(i) ==> from <= i && occurs_at(s, pattern, i) && (
        forall|j: int| from <= j < i ==> !occurs_at(s, pattern, j)),
        find_from(s, pattern, from) is None ==> (forall|j: int|
            from <= j ==> !occurs_at(s, pattern, j)),
    decreases s.len() - from + 1,
{
    if from + pattern.len() <= s.len() && !occurs_at(s, pattern, from) {
        lemma_find_from(s, pattern, from + 1);
    }
}

/// An occurrence with none before it is the one that `find_from` finds.
pub proof fn lemma_first_occurrence(s: Seq<char>, pattern: Seq<char>, from: int, k: int)
    requires
        0 <= from <= k,
        occurs_at(s, pattern, k),
        forall|j: int| from <= j < k ==> !occurs_at(s, pattern, j),
    ensures
        find_from(s, pattern, from) == Some(k),
    decreases k - from,
{
    if from < k {
        lemma_first_occurrence(s, pattern, from + 1, k);
    }
}

/// What does not stand in a text stands in no part of it.
pub proof fn lemma_absent_in_part(s: Seq<char>, pattern: Seq<char>, from: int, to: int)
    requires
        0 <= from <= to <= s.len(),
        find(s, pattern) is None,
    ensures
        find(s.subrange(from, to), pattern) is None,
{
    let part = s.subrange(from, to);
    lemma_find_from(s, pattern, 0);
    lemma_find_from(part, pattern, 0);
    if let Some(i) = find(part, pattern) {
        assert(part.subrange(i, i + pattern.len()) =~= s.subrange(
            from + i,
            from + i + pattern.len(),
        ));
        assert(occurs_at(s, pattern, from + i));
    }
}

/// What does not stand in a text does not stand in it without whitespace around it.
pub proof fn lemma_absent_in_trimmed(s: Seq<char>, pattern: Seq<char>)
    requires
        find(s, pattern) is None,
    ensures
        find(trim_start(s), pattern) is None,
        find(trim_end(s), pattern) is None,
        find(trim(s), pattern) is None,
{
    let k = lemma_trim_start_is_suffix(s);
    let t = trim_start(s);
    assert(t =~= s.subrange(k, s.len() as int));
    lemma_absent_in_part(s, pattern, k, s.len() as int);
    let m = lemma_trim_end_is_prefix(t);
    assert(trim(s) =~= t.subrange(0, m));
    lemma_absent_in_part(t, pattern, 0, m);
    let n = lemma_trim_end_is_prefix(s);
    assert(trim_end(s) =~= s.subrange(0, n));
    lemma_absent_in_part(s, pattern, 0, n);
}

/// The characters of a text, one by one.
pub fn chars_of(text: &str) -> (cs: Vec<char>)
    ensures
        cs@ == text@,
{
    let mut cs: Vec<char> = Vec::new();
    for c in it: text.chars()
        invariant
            it.seq() == text@,
            cs@ == text@.take(it.index()),
    {
        cs.push(c);
        assert(text@.take(it.index() + 1) =~= text@.take(it.index()).push(c));
    }
    assert(text@.take(text@.len() as int) =~= text@);
    cs
}

/// Whether `c` has the Unicode property `White_Space`.
pub fn is_whitespace(c: char) -> (r: bool)
    ensures
        r == is_space(c),
{
    ('\u{9}' <= c && c <= '\u{d}') || c == ' ' || c == '\u{85}' || c == '\u{a0}' || c == '\u{1680}'
        || ('\u{2000}' <= c && c <= '\u{200a}') || c == '\u{2028}' || c == '\u{2029}' || c
        == '\u{202f}' || c == '\u{205f}' || c == '\u{3000}'
}

/// The position of the first character of `cs[from..to]` that is no whitespace, or `to`.
fn skip_leading(cs: &Vec<char>, from: usize, to: usize) -> (k: usize)
    requires
        from <= to <= cs@.len(),
    ensures
        from <= k <= to,
        trim_start(cs@.subrange(from as int, to as int)) == cs@.subrange(k as int, to as int),
{
    let mut k: usize = from;
    while k < to && is_whitespace(cs[k])
        invariant
            from <= k <= to <= cs@.len(),
            trim_start(cs@.subrange(from as int, to as int)) == trim_start(
                cs@.subrange(k as int, to as int),
            ),
        decreases to - k,
    {
        assert(cs@.subrange(k as int, to as int).drop_first() =~= cs@.subrange(k + 1, to as int));
        k = k + 1;
    }
    k
}

/// The end of `cs[from..to]` once its trailing whitespace is cut off.
fn skip_trailing(cs: &Vec<char>, from: usize, to: usize) -> (k: usize)
    requires
        from <= to <= cs@.len(),
    ensures
        from <= k <= to,
        trim_end(cs@.subrange(from as int, to as int)) == cs@.subrange(from as int, k as int),
{
    let mut k: usize = to;
    while k > from && is_whitespace(cs[k - 1])
        invariant
            from <= k <= to <= cs@.len(),
            trim_end(cs@.subrange(from as int, to as int)) == trim_end(
                cs@.subrange(from as int, k as int),
            ),
        decreases k,
    {
        assert(cs@.subrange(from as int, k as int).drop_last() =~= cs@.subrange(from as int, k - 1));
        k = k - 1;
    }
    k
}

/// Whether `pattern` stands in `cs` at position `i`.
fn matches_at(cs: &Vec<char>, pattern: &Vec<char>, i: usize) -> (r: bool)
    requires
        i <= cs@.len(),
    ensures
        r == occurs_at(cs@, pattern@, i as int),
{
    let n: usize = cs.len();
    if pattern.len() > n - i {
        return false;
    }
    let mut k: usize = 0;
    while k < pattern.len()
        invariant
            k <= pattern@.len(),
            n == cs@.len(),
            i + pattern@.len() <= n,
            forall|j: int| 0 <= j < k ==> cs@[i + j] == pattern@[j],
        decreases pattern@.len() - k,
    {
        if cs[i + k] != pattern[k] {
            assert(cs@.subrange(i as int, i + pattern@.len())[k as int] != pattern@[k as int]);
            return false;
        }
        k = k + 1;
    }
    assert(cs@.subrange(i as int, i + pattern@.len()) =~= pattern@);
    true
}

/// The first position at or after `from` at which `pattern` stands in `cs`.
fn position_of(cs: &Vec<char>, pattern: &Vec<char>, from: usize) -> (r: Option<usize>)
    requires
        from <= cs@.len(),
    ensures
        r matches Some(i) ==> find_from(cs@, pattern@, from as int) == Some(i as int),
        r is None ==> find_from(cs@, pattern@, from as int) is None,
{
    let mut i: usize = from;
    while i < cs.len() && pattern.len() <= cs.len() - i
        invariant
            from <= i <= cs@.len(),
            find_from(cs@, pattern@, from as int) == find_from(cs@, pattern@, i as int),
        decreases cs@.len() - i,
    {
        if matches_at(cs, pattern, i) {
            return Some(i);
        }
        i = i + 1;
    }
    if matches_at(cs, pattern, i) {
        return Some(i);
    }
    assert(find_from(cs@, pattern@, i + 1) is None);
    None
}

/// Whether two texts are the same.
pub fn same_text(a: &str, b: &str) -> (r: bool)
    ensures
        r == (a@ == b@),
{
    a.to_owned() == b.to_owned()
}

/// `text` without leading whitespace.
pub fn start_trimmed<'a>(text: &'a str) -> (r: &'a str)
    ensures
        r@ == trim_start(text@),
{
    let cs: Vec<char> = chars_of(text);
    assert(cs@.subrange(0, cs@.len() as int) =~= cs@);
    let from: usize = skip_leading(&cs, 0, cs.len());
    text.substring_char(from, cs.len())
}

/// `text` without leading and trailing whitespace.
pub fn trimmed<'a>(text: &'a str) -> (r: &'a str)
    ensures
        r@ == trim(text@),
{
    let cs: Vec<char> = chars_of(text);
    assert(cs@.subrange(0, cs@.len() as int) =~= cs@);
    let from: usize = skip_leading(&cs, 0, cs.len());
    let to: usize = skip_trailing(&cs, from, cs.len());
    text.substring_char(from, to)
}

/// The first position at which `pattern` stands in `text`, counted in characters.
pub fn position_in(text: &str, pattern: &str) -> (r: Option<usize>)
    ensures
        match r {
            Some(i) => i + pattern@.len() <= text@.len() <= usize::MAX && find(text@, pattern@)
                == Some(i as int),
            None => find(text@, pattern@) is None,
        },
{
    let cs: Vec<char> = chars_of(text);
    proof {
        lemma_find_from(text@, pattern@, 0);
    }
    assert(cs@.len() == cs.len());
    position_of(&cs, &chars_of(pattern), 0)
}

/// The part of `text` from the character at `from` on.
pub fn tail_from<'a>(text: &'a str, from: usize) -> (r: &'a str)
    requires
        from <= text@.len(),
    ensures
        r@ == text@.skip(from as int),
{
    let n: usize = text.unicode_len();
    assert(text@.subrange(from as int, n as int) =~= text@.skip(from as int));
    text.substring_char(from, n)
}

/// The first `to` characters of `text`.
pub fn head_to<'a>(text: &'a str, to: usize) -> (r: &'a str)
    requires
        to <= text@.len(),
    ensures
        r@ == text@.take(to as int),
{
    assert(text@.subrange(0, to as int) =~= text@.take(to as int));
    text.substring_char(0, to)
}

/// `s` with every occurrence of `pattern` taken out, from left to right and without overlaps.
pub open spec fn without(s: Seq<char>, pattern: Seq<char>) -> Seq<char>
    decreases s.len(),
{
    if pattern.len() == 0 || s.len() == 0 {
        s
    } else if occurs_at(s, pattern, 0) {
        without(s.skip(pattern.len() as int), pattern)
    } else {
        seq![s.first()] + without(s.drop_first(), pattern)
    }
}

/// What stands before the first occurrence of the pattern is kept; where there is no occurrence,
/// all is.
pub proof fn lemma_without(s: Seq<char>, pattern: Seq<char>, from: int)
    requires
        pattern.len() > 0,
        0 <= from <= s.len(),
    ensures
        match find_from(s, pattern, from) {
            Some(k) => from <= k && k + pattern.len() <= s.len() && without(s.skip(from), pattern)
                == s.subrange(from, k) + without(s.skip(k + pattern.len()), pattern),
            None => without(s.skip(from), pattern) == s.skip(from),
        },
    decreases s.len() - from,
{
    let rest = s.skip(from);
    if from < s.len() {
        assert(occurs_at(s, pattern, from) <==> occurs_at(rest, pattern, 0)) by {
            if from + pattern.len() <= s.len() {
                assert(s.subrange(from, from + pattern.len()) =~= rest.subrange(
                    0,
                    pattern.len() as int,
                ));
            }
        }
        if occurs_at(s, pattern, from) {
            assert(rest.skip(pattern.len() as int) =~= s.skip(from + pattern.len()));
            assert(s.subrange(from, from) + without(s.skip(from + pattern.len()), pattern)
                =~= without(s.skip(from + pattern.len()), pattern));
        } else {
            lemma_without(s, pattern, from + 1);
            assert(rest.drop_first() =~= s.skip(from + 1));
            if from + pattern.len() > s.len() {
                assert(find_from(s, pattern, from + 1) is None);
            }
            assert(find_from(s, pattern, from) == find_from(s, pattern, from + 1));
            match find_from(s, pattern, from + 1) {
                Some(k) => {
                    assert(seq![rest.first()] + (s.subrange(from + 1, k) + without(
                        s.skip(k + pattern.len()),
                        pattern,
                    )) =~= s.subrange(from, k) + without(s.skip(k + pattern.len()), pattern));
                },
                None => {
                    assert(seq![rest.first()] + s.skip(from + 1) =~= rest);
                },
            }
        }
    }
}

/// A text in which the pattern does not occur is kept as it is.
pub proof fn lemma_without_absent(s: Seq<char>, pattern: Seq<char>)
    requires
        forall|i: int| !occurs_at(s, pattern, i),
    ensures
        without(s, pattern) == s,
{
    if pattern.len() > 0 {
        lemma_without(s, pattern, 0);
        lemma_find_from(s, pattern, 0);
        assert(s.skip(0) =~= s);
    }
}

/// `text` with every occurrence of `pattern` taken out.
pub fn removed(text: &str, pattern: &str) -> (r: String)
    ensures
        r@ == without(text@, pattern@),
{
    let cs: Vec<char> = chars_of(text);
    let ps: Vec<char> = chars_of(pattern);
    let n: usize = cs.len();
    let m: usize = ps.len();
    if m == 0 {
        return text.to_owned();
    }
    let mut out: String = String::new();
    let mut from: usize = 0;
    assert(cs@.skip(0) =~= cs@);
    assert(out@ + without(cs@.skip(0), ps@) =~= without(cs@, ps@));
    loop
        invariant
            cs@ == text@,
            ps@ == pattern@,
            n == cs@.len(),
            m == ps@.len(),
            m > 0,
            from <= n,
            without(cs@, ps@) == out@ + without(cs@.skip(from as int), ps@),
        decreases n - from,
    {
        proof {
            lemma_without(cs@, ps@, from as int);
        }
        match position_of(&cs, &ps, from) {
            Some(k) => {
                let ghost before = out@;
                out.append(text.substring_char(from, k));
                assert(before + (cs@.subrange(from as int, k as int) + without(cs@.skip(k + m), ps@))
                    =~= out@ + without(cs@.skip(k + m), ps@));
                from = k + m;
            },
            None => {
                out.append(tail_from(text, from));
                return out;
            },
        }
    }
}

/// The part of `s` behind the last `::` that ends at or before `end`, or all of `s` where there is
/// none.
pub open spec fn segment_before(s: Seq<char>, end: int) -> Seq<char>
    decreases end,
{
    if end < 2 || end > s.len() {
        s
    } else if s[end - 1] == ':' && s[end - 2] == ':' {
        s.skip(end)
    } else {
        segment_before(s, end - 1)
    }
}

/// The part of `s` behind the last `::`, or all of `s` where there is none.
pub open spec fn last_segment(s: Seq<char>) -> Seq<char> {
    segment_before(s, s.len() as int)
}

/// The last segment of a path whose segments are separated by `::`.
pub fn final_segment<'a>(text: &'a str) -> (r: &'a str)
    ensures
        r@ == last_segment(text@),
{
    let cs: Vec<char> = chars_of(text);
    let mut end: usize = cs.len();
    while end >= 2
        invariant
            cs@ == text@,
            end <= cs@.len(),
            last_segment(text@) == segment_before(text@, end as int),
        decreases end,
    {
        if cs[end - 1] == ':' && cs[end - 2] == ':' {
            return tail_from(text, end);
        }
        end = end - 1;
    }
    text
}

/// The digit `d` as a text.
pub open spec fn digit(d: nat) -> Seq<char>
    recommends
        d < 10,
{
    seq![(('0' as nat) + d) as char]
}

/// The number `n` in decimal.
pub open spec fn decimal(n: nat) -> Seq<char>
    decreases n,
{
    if n < 10 {
        digit(n)
    } else {
        decimal(n / 10) + digit(n % 10)
    }
}

/// A digit as a text.
fn digit_text(d: usize) -> (r: &'static str)
    requires
        d < 10,
    ensures
        r@ == digit(d as nat),
{
    proof {
        reveal_strlit("0");
        reveal_strlit("1");
        reveal_strlit("2");
        reveal_strlit("3");
        reveal_strlit("4");
        reveal_strlit("5");
        reveal_strlit("6");
        reveal_strlit("7");
        reveal_strlit("8");
        reveal_strlit("9");
    }
    let r: &'static str = match d {
        0 => "0",
        1 => "1",
        2 => "2",
        3 => "3",
        4 => "4",
        5 => "5",
        6 => "6",
        7 => "7",
        8 => "8",
        _ => "9",
    };
    assert(r@ =~= digit(d as nat));
    r
}

/// The number `n` in decimal.
pub fn decimal_text(n: usize) -> (r: String)
    ensures
        r@ == decimal(n as nat),
    decreases n,
{
    if n < 10 {
        digit_text(n).to_owned()
    } else {
        let mut r: String = decimal_text(n / 10);
        r.append(digit_text(n % 10));
        r
    }
}

} // verus!
