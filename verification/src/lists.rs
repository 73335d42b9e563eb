//! Lists of strings: order-preserving deduplication, blank removal, and
//! membership, all stated over the characters of each entry.

use vstd::prelude::*;
use crate::text::{str_eq, trim, trim_str};

verus! {

/// The characters of every string in a list.
pub open spec fn strings_view(v: Seq<String>) -> Seq<Seq<char>> {
    v.map_values(|s: String| s@)
}

/// Keeps the first occurrence of every entry, in order.
pub open spec fn dedup(s: Seq<Seq<char>>) -> Seq<Seq<char>>
    decreases s.len(),
{
    if s.len() == 0 {
        s
    } else {
        let r = dedup(s.drop_last());
        if r.contains(s.last()) {
            r
        } else {
            r.push(s.last())
        }
    }
}

/// Drops empty entries, keeping the order of the rest.
pub open spec fn drop_empty(s: Seq<Seq<char>>) -> Seq<Seq<char>>
    decreases s.len(),
{
    if s.len() == 0 {
        s
    } else {
        let r = drop_empty(s.drop_last());
        if s.last().len() == 0 {
            r
        } else {
            r.push(s.last())
        }
    }
}

/// Every entry trimmed.
pub open spec fn trim_all(s: Seq<Seq<char>>) -> Seq<Seq<char>> {
    s.map_values(|x: Seq<char>| trim(x))
}

proof fn lemma_contains_drop_last<A>(s: Seq<A>, x: A)
    requires
        s.len() > 0,
    ensures
        s.contains(x) <==> (s.drop_last().contains(x) || x == s.last()),
{
    if s.contains(x) {
        let k = choose|k: int| 0 <= k < s.len() && s[k] == x;
        if k < s.len() - 1 {
            assert(s.drop_last()[k] == x);
        }
    }
    if s.drop_last().contains(x) {
        let k = choose|k: int| 0 <= k < s.drop_last().len() && s.drop_last()[k] == x;
        assert(s[k] == x);
    }
    if x == s.last() {
        assert(s[s.len() - 1] == x);
    }
}

proof fn lemma_contains_push<A>(s: Seq<A>, y: A, x: A)
    ensures
        s.push(y).contains(x) <==> (s.contains(x) || x == y),
{
    lemma_contains_drop_last(s.push(y), x);
    assert(s.push(y).drop_last() =~= s);
}

/// `dedup` keeps exactly the entries it was given, each once.
pub proof fn lemma_dedup(s: Seq<Seq<char>>)
    ensures
        dedup(s).no_duplicates(),
        forall|x: Seq<char>| #[trigger] dedup(s).contains(x) <==> s.contains(x),
    decreases s.len(),
{
    if s.len() > 0 {
        lemma_dedup(s.drop_last());
        let r = dedup(s.drop_last());
        assert forall|x: Seq<char>| #[trigger] dedup(s).contains(x) <==> s.contains(x) by {
            lemma_contains_drop_last(s, x);
            lemma_contains_push(r, s.last(), x);
        }
        if !r.contains(s.last()) {
            let p = r.push(s.last());
            assert forall|i: int, j: int|
                0 <= i < p.len() && 0 <= j < p.len() && i != j implies p[i] != p[j] by {
                if i == r.len() {
                    assert(r[j] == p[j]);
                } else if j == r.len() {
                    assert(r[i] == p[i]);
                } else {
                    assert(r[i] == p[i] && r[j] == p[j]);
                }
            }
        }
    }
}

/// A list without repeats is its own `dedup`.
pub proof fn lemma_dedup_distinct(s: Seq<Seq<char>>)
    requires
        s.no_duplicates(),
    ensures
        dedup(s) == s,
    decreases s.len(),
{
    if s.len() > 0 {
        let d = s.drop_last();
        assert(d.no_duplicates()) by {
            assert forall|i: int, j: int|
                0 <= i < d.len() && 0 <= j < d.len() && i != j implies d[i] != d[j] by {
                assert(d[i] == s[i] && d[j] == s[j]);
            }
        }
        lemma_dedup_distinct(d);
        if d.contains(s.last()) {
            let k = choose|k: int| 0 <= k < d.len() && d[k] == s.last();
            assert(s[k] == s[s.len() - 1]);
        }
        assert(d.push(s.last()) =~= s);
    }
}

/// `drop_empty` keeps exactly the non-empty entries.
pub proof fn lemma_drop_empty(s: Seq<Seq<char>>)
    ensures
        forall|x: Seq<char>| #[trigger] drop_empty(s).contains(x) <==> (s.contains(x) && x.len() > 0),
        (forall|i: int| 0 <= i < s.len() ==> s[i].len() > 0) ==> drop_empty(s) == s,
    decreases s.len(),
{
    if s.len() > 0 {
        lemma_drop_empty(s.drop_last());
        let r = drop_empty(s.drop_last());
        assert forall|x: Seq<char>|
            #[trigger] drop_empty(s).contains(x) <==> (s.contains(x) && x.len() > 0) by {
            lemma_contains_drop_last(s, x);
            lemma_contains_push(r, s.last(), x);
        }
        if forall|i: int| 0 <= i < s.len() ==> s[i].len() > 0 {
            assert(forall|i: int|
                0 <= i < s.drop_last().len() ==> s.drop_last()[i] == s[i]);
            assert(s.drop_last().push(s.last()) =~= s);
        }
    }
}

/// Every entry of `trim_all(s)` is the trim of an entry of `s`, and trims to
/// itself.
pub proof fn lemma_trim_all(s: Seq<Seq<char>>)
    ensures
        forall|x: Seq<char>| #[trigger] trim_all(s).contains(x) ==> trim(x) == x,
{
    assert forall|x: Seq<char>| #[trigger] trim_all(s).contains(x) implies trim(x) == x by {
        let k = choose|k: int| 0 <= k < trim_all(s).len() && trim_all(s)[k] == x;
        crate::text::lemma_trim_idempotent(s[k]);
    }
}

/// Whether two lists hold the same strings in the same order.
pub fn same_strings(a: &Vec<String>, b: &Vec<String>) -> (r: bool)
    ensures
        r == (strings_view(a@) == strings_view(b@)),
{
    if a.len() != b.len() {
        assert(strings_view(a@).len() != strings_view(b@).len());
        return false;
    }
    let mut i: usize = 0;
    while i < a.len()
        invariant
            a@.len() == b@.len(),
            i <= a@.len(),
            forall|k: int| 0 <= k < i ==> a@[k]@ == b@[k]@,
        decreases a@.len() - i,
    {
        if !str_eq(a[i].as_str(), b[i].as_str()) {
            assert(strings_view(a@)[i as int] != strings_view(b@)[i as int]);
            return false;
        }
        i = i + 1;
    }
    assert(strings_view(a@) =~= strings_view(b@));
    true
}

/// Whether `v` holds an entry with the characters of `s`.
pub fn contains_string(v: &Vec<String>, s: &str) -> (r: bool)
    ensures
        r == strings_view(v@).contains(s@),
{
    let mut i: usize = 0;
    while i < v.len()
        invariant
            i <= v@.len(),
            forall|k: int| 0 <= k < i ==> v@[k]@ != s@,
        decreases v@.len() - i,
    {
        if str_eq(v[i].as_str(), s) {
            assert(strings_view(v@)[i as int] == s@);
            return true;
        }
        i = i + 1;
    }
    assert(!strings_view(v@).contains(s@)) by {
        if strings_view(v@).contains(s@) {
            let k = choose|k: int| 0 <= k < strings_view(v@).len() && strings_view(v@)[k] == s@;
            assert(v@[k]@ == s@);
        }
    }
    false
}

/// Deduplicates while preserving order (a sort would reorder user intent).
pub fn dedup_keep_order(items: &mut Vec<String>)
    ensures
        strings_view(final(items)@) == dedup(strings_view(old(items)@)),
{
    let ghost orig = strings_view(items@);
    let mut seen: Vec<String> = Vec::new();
    let mut i: usize = 0;
    let n = items.len();
    while i < n
        invariant
            n == items@.len(),
            orig == strings_view(items@),
            i <= n,
            strings_view(seen@) == dedup(orig.subrange(0, i as int)),
        decreases n - i,
    {
        let item = items[i].clone();
        assert(item@ == orig[i as int]);
        assert(orig.subrange(0, i + 1).drop_last() =~= orig.subrange(0, i as int));
        if !contains_string(&seen, item.as_str()) {
            seen.push(item);
            assert(strings_view(seen@) =~= dedup(orig.subrange(0, i as int)).push(orig[i as int]));
        }
        i = i + 1;
    }
    assert(orig.subrange(0, n as int) =~= orig);
    *items = seen;
}

/// Every entry trimmed, with the blank ones dropped.
pub fn trimmed_nonblank(v: &Vec<String>) -> (r: Vec<String>)
    ensures
        strings_view(r@) == drop_empty(trim_all(strings_view(v@))),
{
    let ghost orig = trim_all(strings_view(v@));
    let mut out: Vec<String> = Vec::new();
    let mut i: usize = 0;
    while i < v.len()
        invariant
            i <= v@.len(),
            orig == trim_all(strings_view(v@)),
            orig.len() == v@.len(),
            strings_view(out@) == drop_empty(orig.subrange(0, i as int)),
        decreases v@.len() - i,
    {
        let t = trim_str(v[i].as_str());
        assert(t@ == orig[i as int]);
        assert(orig.subrange(0, i + 1).drop_last() =~= orig.subrange(0, i as int));
        if t.unicode_len() > 0 {
            out.push(t);
            assert(strings_view(out@) =~= drop_empty(orig.subrange(0, i as int)).push(orig[i as int]));
        }
        i = i + 1;
    }
    assert(orig.subrange(0, v@.len() as int) =~= orig);
    out
}


/// Appends copies of every entry of `more`.
pub fn append_strings(w: &mut Vec<String>, more: &Vec<String>)
    ensures
        strings_view(final(w)@) == strings_view(old(w)@) + strings_view(more@),
{
    let ghost a = strings_view(w@);
    let mut i: usize = 0;
    while i < more.len()
        invariant
            i <= more@.len(),
            a == strings_view(old(w)@),
            strings_view(w@) == a + strings_view(more@).subrange(0, i as int),
        decreases more@.len() - i,
    {
        let entry = more[i].clone();
        assert(entry@ == strings_view(more@)[i as int]);
        let ghost prev = w@;
        w.push(entry);
        assert(strings_view(w@) =~= strings_view(prev).push(entry@));
        assert(strings_view(more@).subrange(0, i + 1) =~= strings_view(more@).subrange(0, i as int).push(
            entry@,
        ));
        assert(strings_view(w@) =~= a + strings_view(more@).subrange(0, i + 1));
        i = i + 1;
    }
    assert(strings_view(more@).subrange(0, more@.len() as int) =~= strings_view(more@));
}

} // verus!
