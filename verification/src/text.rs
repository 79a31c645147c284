//! Character-level text operations shared by the rest of the crate.
//!
//! Every contract here is stated over `Seq<char>`, the view of `str` and
//! `String`. Positions are character positions, never byte offsets.

use vstd::prelude::*;
use vstd::string::StrSliceExecFns;
use vstd::string::StringExecFns;

verus! {

broadcast use vstd::string::group_string_axioms;

/// The characters of each string of `v`.
pub open spec fn strings_view(v: Seq<String>) -> Seq<Seq<char>> {
    v.map_values(|s: String| s@)
}

/// `pat` stands in `s` at character position `i`.
pub open spec fn occurs_at(s: Seq<char>, pat: Seq<char>, i: int) -> bool {
    &&& 0 <= i
    &&& i + pat.len() <= s.len()
    &&& s.subrange(i, i + pat.len()) == pat
}

/// `pat` stands in `s` at some position at or after `from`.
pub open spec fn occurs_from(s: Seq<char>, pat: Seq<char>, from: int) -> bool {
    exists|i: int| from <= i && occurs_at(s, pat, i)
}

/// `i` is the first position at or after `from` at which `pat` stands in `s`.
pub open spec fn first_from(s: Seq<char>, pat: Seq<char>, from: int, i: int) -> bool {
    &&& from <= i
    &&& occurs_at(s, pat, i)
    &&& forall|j: int| from <= j < i ==> !occurs_at(s, pat, j)
}

/// What is left of `s` from position `i` on, with every occurrence of `pat`
/// replaced by `with`: occurrences are taken from left to right and do not
/// overlap. An empty `pat` occurs nowhere.
pub open spec fn replaced_from(s: Seq<char>, pat: Seq<char>, with: Seq<char>, i: int) -> Seq<char>
    decreases s.len() - i,
{
    if i < 0 || i >= s.len() {
        Seq::empty()
    } else if pat.len() > 0 && occurs_at(s, pat, i) {
        with + replaced_from(s, pat, with, i + pat.len())
    } else {
        seq![s[i]] + replaced_from(s, pat, with, i + 1)
    }
}

/// `s` with every occurrence of `pat` replaced by `with`.
pub open spec fn replaced(s: Seq<char>, pat: Seq<char>, with: Seq<char>) -> Seq<char> {
    replaced_from(s, pat, with, 0)
}

/// `stem` is `name` up to its first `'.'`, or all of `name` if it has none.
pub open spec fn is_stem_of(stem: Seq<char>, name: Seq<char>) -> bool {
    &&& stem.len() <= name.len()
    &&& stem == name.subrange(0, stem.len() as int)
    &&& !stem.contains('.')
    &&& stem.len() < name.len() ==> name[stem.len() as int] == '.'
}

/// The stem of `name`: `name` up to its first `'.'`.
pub open spec fn stem_of(name: Seq<char>) -> Seq<char> {
    choose|stem: Seq<char>| is_stem_of(stem, name)
}

/// A name has one stem only.
pub proof fn lemma_stem_unique(name: Seq<char>, a: Seq<char>, b: Seq<char>)
    requires
        is_stem_of(a, name),
        is_stem_of(b, name),
    ensures
        a == b,
{
    if a.len() < b.len() {
        assert(b[a.len() as int] == name[a.len() as int]);
        assert(b.contains('.'));
    } else if b.len() < a.len() {
        assert(a[b.len() as int] == name[b.len() as int]);
        assert(a.contains('.'));
    }
}

/// `last` is what follows the last `'/'` of `path`, or all of `path` if it
/// has none.
pub open spec fn is_last_component_of(last: Seq<char>, path: Seq<char>) -> bool {
    &&& last.len() <= path.len()
    &&& last == path.subrange(path.len() - last.len(), path.len() as int)
    &&& !last.contains('/')
    &&& last.len() < path.len() ==> path[path.len() - last.len() - 1] == '/'
}

/// The last component of `path`: what follows its last `'/'`.
pub open spec fn last_component_of(path: Seq<char>) -> Seq<char> {
    choose|last: Seq<char>| is_last_component_of(last, path)
}

/// A path has one last component only.
pub proof fn lemma_last_component_unique(path: Seq<char>, a: Seq<char>, b: Seq<char>)
    requires
        is_last_component_of(a, path),
        is_last_component_of(b, path),
    ensures
        a == b,
{
    if a.len() < b.len() {
        let k = b.len() - a.len() - 1;
        assert(b[k] == path[path.len() - a.len() - 1]);
        assert(b.contains('/'));
    } else if b.len() < a.len() {
        let k = a.len() - b.len() - 1;
        assert(a[k] == path[path.len() - b.len() - 1]);
        assert(a.contains('/'));
    }
}

/// The characters of `s`, in order.
pub fn chars_of(s: &str) -> (out: Vec<char>)
    ensures
        out@ == s@,
{
    let mut out: Vec<char> = Vec::new();
    for c in it: s.chars()
        invariant
            it.seq() == s@,
            out@ == s@.take(it.index()),
    {
        out.push(c);
    }
    out
}

/// Whether `pat` stands in `text` at position `i`.
pub fn matches_at(text: &Vec<char>, pat: &Vec<char>, i: usize) -> (found: bool)
    ensures
        found == occurs_at(text@, pat@, i as int),
{
    if pat.len() > text.len() || i > text.len() - pat.len() {
        return false;
    }
    let mut k: usize = 0;
    while k < pat.len()
        invariant
            k <= pat.len(),
            i + pat.len() <= text.len(),
            forall|j: int| 0 <= j < k ==> text@[i + j] == pat@[j],
        decreases pat.len() - k,
    {
        if text[i + k] != pat[k] {
            proof {
                assert(text@.subrange(i as int, i + pat.len())[k as int] == text@[i + k]);
            }
            return false;
        }
        k += 1;
    }
    proof {
        assert(text@.subrange(i as int, i + pat.len()) =~= pat@);
    }
    true
}

/// The first position at or after `from` at which `pat` stands in `text`.
pub fn find_from(text: &Vec<char>, pat: &Vec<char>, from: usize) -> (found: Option<usize>)
    ensures
        match found {
            Some(i) => first_from(text@, pat@, from as int, i as int),
            None => !occurs_from(text@, pat@, from as int),
        },
{
    let mut i: usize = from;
    while i < text.len()
        invariant
            from <= i,
            forall|j: int| from <= j < i ==> !occurs_at(text@, pat@, j),
        decreases text.len() - i,
    {
        if matches_at(text, pat, i) {
            return Some(i);
        }
        i += 1;
    }
    if i == text.len() && matches_at(text, pat, i) {
        Some(i)
    } else {
        None
    }
}

/// `text` with every occurrence of `pat` replaced by `with`, from left to
/// right and without overlap. With an empty `pat` the text comes back as it
/// is.
pub fn replace_all(text: &str, pat: &str, with: &str) -> (out: String)
    ensures
        out@ == replaced(text@, pat@, with@),
{
    let chars = chars_of(text);
    let pat_chars = chars_of(pat);
    let n = chars.len();
    let mut out = String::new();
    let mut start: usize = 0;
    let mut i: usize = 0;
    while i < n
        invariant
            chars@ == text@,
            pat_chars@ == pat@,
            n == chars.len(),
            start <= i <= n,
            out@ + replaced_from(text@, pat@, with@, start as int) == replaced(text@, pat@, with@),
            replaced_from(text@, pat@, with@, start as int) == text@.subrange(start as int, i as int)
                + replaced_from(text@, pat@, with@, i as int),
        decreases n - i,
    {
        if pat_chars.len() > 0 && matches_at(&chars, &pat_chars, i) {
            let ghost before = out@;
            out.append(text.substring_char(start, i));
            out.append(with);
            proof {
                assert(out@ =~= before + (text@.subrange(start as int, i as int) + with@));
            }
            i += pat_chars.len();
            start = i;
        } else {
            proof {
                assert(text@.subrange(start as int, i + 1) =~= text@.subrange(
                    start as int,
                    i as int,
                ) + seq![text@[i as int]]);
            }
            i += 1;
        }
    }
    out.append(text.substring_char(start, n));
    out
}

/// The name of a file without its extensions: `name` up to its first `'.'`.
pub fn file_stem(name: &str) -> (stem: String)
    ensures
        is_stem_of(stem@, name@),
        stem@ == stem_of(name@),
{
    let chars = chars_of(name);
    let mut k: usize = 0;
    while k < chars.len() && chars[k] != '.'
        invariant
            k <= chars.len(),
            forall|j: int| 0 <= j < k ==> chars@[j] != '.',
        decreases chars.len() - k,
    {
        k += 1;
    }
    let stem = String::from_str(name.substring_char(0, k));
    proof {
        lemma_stem_unique(name@, stem@, stem_of(name@));
    }
    stem
}

/// The last component of a path written with `'/'`: what follows its last
/// `'/'`.
pub fn last_component(path: &str) -> (last: String)
    ensures
        is_last_component_of(last@, path@),
        last@ == last_component_of(path@),
{
    let chars = chars_of(path);
    let n = chars.len();
    let mut k: usize = n;
    while k > 0 && chars[k - 1] != '/'
        invariant
            k <= n,
            n == chars.len(),
            forall|j: int| k <= j < n ==> chars@[j] != '/',
        decreases k,
    {
        k -= 1;
    }
    let last = String::from_str(path.substring_char(k, n));
    proof {
        lemma_last_component_unique(path@, last@, last_component_of(path@));
    }
    last
}

/// Whether two texts are the same.
pub fn str_equal(a: &str, b: &str) -> (same: bool)
    ensures
        same == (a@ == b@),
{
    let left = chars_of(a);
    let right = chars_of(b);
    if left.len() != right.len() {
        return false;
    }
    let mut i: usize = 0;
    while i < left.len()
        invariant
            left@ == a@,
            right@ == b@,
            left.len() == right.len(),
            i <= left.len(),
            forall|j: int| 0 <= j < i ==> left@[j] == right@[j],
        decreases left.len() - i,
    {
        if left[i] != right[i] {
            return false;
        }
        i += 1;
    }
    proof {
        assert(left@ =~= right@);
    }
    true
}

/// Where `pat` does not stand at or after position `i`, what is left of `s`
/// from `i` on is not changed.
pub proof fn lemma_replaced_from_absent(s: Seq<char>, pat: Seq<char>, with: Seq<char>, i: int)
    requires
        0 <= i <= s.len(),
        !occurs_from(s, pat, i),
    ensures
        replaced_from(s, pat, with, i) == s.subrange(i, s.len() as int),
    decreases s.len() - i,
{
    if i < s.len() {
        assert(!occurs_at(s, pat, i));
        assert forall|j: int| i + 1 <= j implies !occurs_at(s, pat, j) by {
            assert(!(i <= j && occurs_at(s, pat, j)));
        }
        lemma_replaced_from_absent(s, pat, with, i + 1);
        assert(seq![s[i]] + s.subrange(i + 1, s.len() as int) =~= s.subrange(i, s.len() as int));
    } else {
        assert(s.subrange(i, s.len() as int) =~= Seq::<char>::empty());
    }
}

/// Up to the first occurrence of `pat` at or after position `i`, what is
/// left of `s` from `i` on is not changed.
pub proof fn lemma_replaced_from_first(
    s: Seq<char>,
    pat: Seq<char>,
    with: Seq<char>,
    i: int,
    at: int,
)
    requires
        0 <= i,
        pat.len() > 0,
        first_from(s, pat, i, at),
    ensures
        replaced_from(s, pat, with, i) == s.subrange(i, at) + with + replaced_from(
            s,
            pat,
            with,
            at + pat.len(),
        ),
    decreases at - i,
{
    if i < at {
        assert(!occurs_at(s, pat, i));
        lemma_replaced_from_first(s, pat, with, i + 1, at);
        assert(seq![s[i]] + (s.subrange(i + 1, at) + with + replaced_from(
            s,
            pat,
            with,
            at + pat.len(),
        )) =~= s.subrange(i, at) + with + replaced_from(s, pat, with, at + pat.len()));
    } else {
        assert(s.subrange(i, at) =~= Seq::<char>::empty());
        assert(with + replaced_from(s, pat, with, at + pat.len()) =~= s.subrange(i, at) + with
            + replaced_from(s, pat, with, at + pat.len()));
    }
}

/// A text in which `pat` does not stand is not changed.
pub proof fn lemma_replaced_absent(s: Seq<char>, pat: Seq<char>, with: Seq<char>)
    requires
        !occurs_from(s, pat, 0),
    ensures
        replaced(s, pat, with) == s,
{
    lemma_replaced_from_absent(s, pat, with, 0);
    assert(s.subrange(0, s.len() as int) =~= s);
}

/// In a text in which `pat` stands once, at position `at`, that one
/// occurrence gives way to `with` and the rest is not changed.
pub proof fn lemma_replaced_once(s: Seq<char>, pat: Seq<char>, with: Seq<char>, at: int)
    requires
        pat.len() > 0,
        first_from(s, pat, 0, at),
        !occurs_from(s, pat, at + pat.len()),
    ensures
        replaced(s, pat, with) == s.subrange(0, at) + with + s.subrange(
            at + pat.len(),
            s.len() as int,
        ),
{
    lemma_replaced_from_first(s, pat, with, 0, at);
    lemma_replaced_from_absent(s, pat, with, at + pat.len());
}

} // verus!
