//! Searching and replacing in text, over characters.

use vstd::prelude::*;
use vstd::string::StringExecFns;
use vstd::string::StrSliceExecFns;

verus! {

/// Whether `pattern` stands in `text` at position `at`.
pub open spec fn occurs_at(text: Seq<char>, at: int, pattern: Seq<char>) -> bool {
    &&& 0 <= at
    &&& at + pattern.len() <= text.len()
    &&& text.subrange(at, at + pattern.len()) == pattern
}

/// The first position at or after `from` at which `pattern` stands in
/// `text`, if there is one.
pub open spec fn first_occurrence(text: Seq<char>, pattern: Seq<char>, from: int) -> Option<int>
    decreases text.len() + 1 - from,
{
    if from < 0 || from + pattern.len() > text.len() {
        None
    } else if occurs_at(text, from, pattern) {
        Some(from)
    } else {
        first_occurrence(text, pattern, from + 1)
    }
}

/// `text` with every occurrence of `pattern` replaced by `with`. The
/// occurrences are found from the left and do not overlap; what was put in
/// is not searched again. An empty pattern occurs nowhere.
pub open spec fn replaced(text: Seq<char>, pattern: Seq<char>, with: Seq<char>) -> Seq<char>
    decreases text.len(),
{
    if pattern.len() == 0 || text.len() < pattern.len() {
        text
    } else if occurs_at(text, 0, pattern) {
        with + replaced(text.skip(pattern.len() as int), pattern, with)
    } else {
        seq![text[0]] + replaced(text.skip(1), pattern, with)
    }
}

/// Where a first occurrence is found, the pattern stands, and it stands
/// nowhere between the start of the search and that place; where none is
/// found, the pattern stands nowhere from the start of the search on.
pub proof fn lemma_first_occurrence(text: Seq<char>, pattern: Seq<char>, from: int)
    requires
        0 <= from,
    ensures
        first_occurrence(text, pattern, from) is Some ==> {
            &&& from <= first_occurrence(text, pattern, from)->0
            &&& occurs_at(text, first_occurrence(text, pattern, from)->0, pattern)
        },
        forall|k: int|
            from <= k && (first_occurrence(text, pattern, from) is Some ==> k < first_occurrence(
                text,
                pattern,
                from,
            )->0) ==> !occurs_at(text, k, pattern),
    decreases text.len() + 1 - from,
{
    if from + pattern.len() <= text.len() && !occurs_at(text, from, pattern) {
        lemma_first_occurrence(text, pattern, from + 1);
    }
}

/// The characters of a text.
pub fn chars_of(text: &str) -> (chars: Vec<char>)
    ensures
        chars@ == text@,
{
    let mut chars: Vec<char> = Vec::new();
    for c in it: text.chars()
        invariant
            chars@ == it.seq().take(it.index() as int),
            it.seq() == text@,
    {
        chars.push(c);
    }
    chars
}

/// Whether two texts hold the same characters.
pub fn same_text(a: &str, b: &str) -> (same: bool)
    ensures
        same == (a@ == b@),
{
    let x = chars_of(a);
    let y = chars_of(b);
    if x.len() != y.len() {
        return false;
    }
    let mut i: usize = 0;
    while i < x.len()
        invariant
            i <= x.len(),
            x.len() == y.len(),
            x@ == a@,
            y@ == b@,
            x@.take(i as int) == y@.take(i as int),
        decreases x.len() - i,
    {
        if x[i] != y[i] {
            return false;
        }
        assert(x@.take(i as int + 1) =~= x@.take(i as int).push(x@[i as int]));
        assert(y@.take(i as int + 1) =~= y@.take(i as int).push(y@[i as int]));
        i = i + 1;
    }
    assert(x@.take(x.len() as int) =~= x@);
    assert(y@.take(y.len() as int) =~= y@);
    true
}

/// Whether `pattern` stands in `text` at position `at`.
pub fn matches_at(text: &Vec<char>, at: usize, pattern: &Vec<char>) -> (found: bool)
    ensures
        found == occurs_at(text@, at as int, pattern@),
{
    if at > text.len() || pattern.len() > text.len() - at {
        return false;
    }
    let ghost window = text@.subrange(at as int, at + pattern.len());
    let mut k: usize = 0;
    while k < pattern.len()
        invariant
            k <= pattern.len(),
            at + pattern.len() <= text.len(),
            window == text@.subrange(at as int, at + pattern.len()),
            window.take(k as int) == pattern@.take(k as int),
        decreases pattern.len() - k,
    {
        if text[at + k] != pattern[k] {
            assert(window[k as int] != pattern@[k as int]);
            return false;
        }
        assert(window.take(k as int + 1) =~= window.take(k as int).push(window[k as int]));
        assert(pattern@.take(k as int + 1) =~= pattern@.take(k as int).push(pattern@[k as int]));
        k = k + 1;
    }
    assert(window.take(pattern.len() as int) =~= window);
    assert(pattern@.take(pattern.len() as int) =~= pattern@);
    true
}

/// The first position at which `pattern` stands in `text`: the pattern
/// stands there and nowhere before; `None` when it stands nowhere.
pub fn find(text: &Vec<char>, pattern: &Vec<char>) -> (place: Option<usize>)
    ensures
        place is Some <==> first_occurrence(text@, pattern@, 0) is Some,
        place is Some ==> place->0 as int == first_occurrence(text@, pattern@, 0)->0,
        place is Some ==> occurs_at(text@, place->0 as int, pattern@),
        forall|k: int| 0 <= k && (place is Some ==> k < place->0) ==> !occurs_at(text@, k, pattern@),
{
    proof {
        lemma_first_occurrence(text@, pattern@, 0);
    }
    if pattern.len() > text.len() {
        return None;
    }
    let last = text.len() - pattern.len();
    let mut i: usize = 0;
    loop
        invariant
            i <= last,
            last == text.len() - pattern.len(),
            first_occurrence(text@, pattern@, 0) == first_occurrence(text@, pattern@, i as int),
        decreases last - i,
    {
        proof {
            lemma_first_occurrence(text@, pattern@, 0);
        }
        if matches_at(text, i, pattern) {
            return Some(i);
        }
        if i == last {
            assert(first_occurrence(text@, pattern@, i + 1) is None);
            return None;
        }
        i = i + 1;
    }
}

/// `text` with every occurrence of `pattern` replaced by `with`, as
/// [`replaced`] defines it.
pub fn replace(text: &str, pattern: &str, with: &str) -> (out: String)
    ensures
        out@ == replaced(text@, pattern@, with@),
{
    let t = chars_of(text);
    let p = chars_of(pattern);
    let mut out = String::new();
    if p.len() == 0 || p.len() > t.len() {
        out.append(text);
        assert(out@ =~= text@);
        return out;
    }
    let last = t.len() - p.len();
    let mut start: usize = 0;
    let mut i: usize = 0;
    assert(text@.skip(0) =~= text@);
    assert(out@ + text@.subrange(0, 0) + replaced(text@.skip(0), p@, with@) =~= replaced(
        text@,
        p@,
        with@,
    ));
    while i <= last
        invariant
            start <= i <= t.len(),
            t@ == text@,
            p@.len() > 0,
            last == t.len() - p.len(),
            replaced(text@, p@, with@) == out@ + text@.subrange(start as int, i as int) + replaced(
                text@.skip(i as int),
                p@,
                with@,
            ),
        decreases t.len() - i,
    {
        let ghost rest = text@.skip(i as int);
        let ghost done = out@;
        assert(rest.len() >= p@.len());
        assert(rest.subrange(0, p@.len() as int) =~= text@.subrange(i as int, i + p@.len()));
        if matches_at(&t, i, &p) {
            let ghost kept = text@.subrange(start as int, i as int);
            assert(occurs_at(rest, 0, p@));
            assert(rest.skip(p@.len() as int) =~= text@.skip(i + p@.len()));
            out.append(text.substring_char(start, i));
            out.append(with);
            i = i + p.len();
            start = i;
            assert(text@.subrange(start as int, i as int) =~= Seq::<char>::empty());
            assert(out@ + text@.subrange(start as int, i as int) + replaced(
                text@.skip(i as int),
                p@,
                with@,
            ) =~= done + kept + (with@ + replaced(text@.skip(i as int), p@, with@)));
        } else {
            assert(!occurs_at(rest, 0, p@));
            assert(rest.skip(1) =~= text@.skip(i + 1));
            assert(text@.subrange(start as int, i + 1) =~= text@.subrange(start as int, i as int)
                + seq![rest[0]]);
            i = i + 1;
        }
    }
    assert(replaced(text@.skip(i as int), p@, with@) == text@.skip(i as int));
    assert(text@.subrange(start as int, i as int) + text@.skip(i as int) =~= text@.subrange(
        start as int,
        t.len() as int,
    ));
    out.append(text.substring_char(start, t.len()));
    out
}

} // verus!
