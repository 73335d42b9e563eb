//! Monitor rectangles: their stable order, which one the card sits on, and
//! where on it the card goes.

use vstd::prelude::*;
use crate::text::str_eq;

verus! {

/// A rectangle in physical screen pixels; `right` and `bottom` are exclusive.
#[derive(Debug, Clone, Copy, PartialEq, Eq, Structural)]
pub struct Rect {
    pub left: i32,
    pub top: i32,
    pub right: i32,
    pub bottom: i32,
}

/// `(left, top)` ordering: left to right, then top to bottom.
pub open spec fn key_le(a: Rect, b: Rect) -> bool {
    a.left < b.left || (a.left == b.left && a.top <= b.top)
}

pub open spec fn sorted_by_position(v: Seq<Rect>) -> bool {
    forall|i: int, j: int| 0 <= i < j < v.len() ==> key_le(v[i], v[j])
}

/// `x` put into `s` after every entry that does not come after it: behind
/// the last entry whose position is not past its own, the way an insertion
/// sort places it.
pub open spec fn insert_stable(s: Seq<Rect>, x: Rect) -> Seq<Rect>
    decreases s.len(),
{
    if s.len() == 0 {
        seq![x]
    } else if key_le(s.last(), x) {
        s.push(x)
    } else {
        insert_stable(s.drop_last(), x).push(s.last())
    }
}

/// The stable insertion sort by position: each monitor in turn is put behind
/// those already placed that do not come after it, so monitors with the same
/// origin keep the order they came in.
pub open spec fn stable_sort(s: Seq<Rect>) -> Seq<Rect>
    decreases s.len(),
{
    if s.len() == 0 {
        s
    } else {
        insert_stable(stable_sort(s.drop_last()), s.last())
    }
}

proof fn lemma_stable_sort_len(s: Seq<Rect>)
    ensures
        stable_sort(s).len() == s.len(),
    decreases s.len(),
{
    if s.len() > 0 {
        lemma_stable_sort_len(s.drop_last());
        lemma_insert_stable_len(stable_sort(s.drop_last()), s.last());
    }
}

proof fn lemma_insert_stable_len(s: Seq<Rect>, x: Rect)
    ensures
        insert_stable(s, x).len() == s.len() + 1,
    decreases s.len(),
{
    if s.len() > 0 && !key_le(s.last(), x) {
        lemma_insert_stable_len(s.drop_last(), x);
    }
}

/// Sorts monitors left to right, then top to bottom, so "Monitor 2" means the
/// same thing between runs. Monitors with the same origin keep their order.
#[verifier::rlimit(40)]
pub fn sort_monitors(v: &mut Vec<Rect>)
    ensures
        final(v)@ == stable_sort(old(v)@),
        final(v)@.to_multiset() == old(v)@.to_multiset(),
        sorted_by_position(final(v)@),
{
    let n = v.len();
    if n == 0 {
        return;
    }
    let ghost orig = v@;
    proof {
        let t1 = orig.take(1);
        assert(t1.drop_last() =~= Seq::<Rect>::empty());
        assert(stable_sort(t1.drop_last()) =~= Seq::<Rect>::empty());
        assert(stable_sort(t1) == insert_stable(Seq::<Rect>::empty(), orig[0]));
        assert(v@.take(1) =~= stable_sort(t1));
    }
    let mut i: usize = 1;
    while i < n
        invariant
            n == v@.len(),
            orig == old(v)@,
            orig.len() == n,
            1 <= i <= n,
            v@.to_multiset() == old(v)@.to_multiset(),
            forall|a: int, b: int| 0 <= a < b < i ==> key_le(#[trigger] v@[a], #[trigger] v@[b]),
            v@.take(i as int) == stable_sort(orig.take(i as int)),
            v@.subrange(i as int, n as int) == orig.subrange(i as int, n as int),
        decreases n - i,
    {
        let ghost p = stable_sort(orig.take(i as int));
        let ghost x = orig[i as int];
        proof {
            lemma_stable_sort_len(orig.take(i as int));
            assert(v@[i as int] == v@.subrange(i as int, n as int)[0]);
            assert(orig[i as int] == orig.subrange(i as int, n as int)[0]);
            assert(v@.subrange(i + 1, n as int) =~= v@.subrange(i as int, n as int).subrange(1, n - i));
            assert(orig.subrange(i + 1, n as int) =~= orig.subrange(i as int, n as int).subrange(1, n - i));
            assert(p.take(i as int) =~= p);
            assert(p.subrange(i as int, i as int) =~= Seq::<Rect>::empty());
            assert(insert_stable(p, x) =~= insert_stable(p.take(i as int), x) + p.subrange(i as int, i as int));
            assert(v@.subrange(i + 1, n as int) =~= orig.subrange(i + 1, n as int));
        }
        let mut j: usize = i;
        while j > 0 && !(v[j - 1].left < v[j].left || (v[j - 1].left == v[j].left && v[j - 1].top
            <= v[j].top))
            invariant
                n == v@.len(),
                1 <= i < n,
                j <= i,
                v@.to_multiset() == old(v)@.to_multiset(),
                orig.len() == n,
                p.len() == i,
                v@.take(j as int) == p.take(j as int),
                v@[j as int] == x,
                v@.subrange(j + 1, i + 1) == p.subrange(j as int, i as int),
                v@.subrange(i + 1, n as int) == orig.subrange(i + 1, n as int),
                insert_stable(p, x) == insert_stable(p.take(j as int), x) + p.subrange(j as int, i as int),
                forall|a: int, b: int|
                    0 <= a < b <= i && b != j ==> key_le(#[trigger] v@[a], #[trigger] v@[b]),
                forall|a: int, b: int|
                    0 <= a < j && j < b <= i ==> key_le(#[trigger] v@[a], #[trigger] v@[b]),
                forall|b: int| j < b <= i ==> key_le(v@[j as int], #[trigger] v@[b]),
            decreases j,
        {
            let x0 = v[j - 1];
            let y = v[j];
            let ghost before = v@;
            v.set(j - 1, y);
            v.set(j, x0);
            proof {
                let pj = p.take(j as int);
                assert(before[j - 1] == before.take(j as int)[j - 1]);
                assert(pj.last() == p[j - 1]);
                assert(pj.drop_last() =~= p.take(j - 1));
                assert(!key_le(pj.last(), x));
                assert(insert_stable(pj, x) == insert_stable(p.take(j - 1), x).push(p[j - 1]));
                assert(insert_stable(p.take(j - 1), x).push(p[j - 1]) + p.subrange(j as int, i as int)
                    =~= insert_stable(p.take(j - 1), x) + p.subrange(j - 1, i as int));
                assert(v@.take(j - 1) =~= p.take(j - 1)) by {
                    assert forall|k: int| 0 <= k < j - 1 implies v@[k] == p[k] by {
                        assert(before.take(j as int)[k] == pj[k]);
                    }
                }
                assert(v@.subrange(j as int, i + 1) =~= p.subrange(j - 1, i as int)) by {
                    assert forall|k: int| 0 <= k < i + 1 - j implies #[trigger] v@.subrange(j as int, i + 1)[k]
                        == p.subrange(j - 1, i as int)[k] by {
                        if k == 0 {
                            assert(before.take(j as int)[j - 1] == pj[j - 1]);
                        } else {
                            assert(before.subrange(j + 1, i + 1)[k - 1] == p.subrange(j as int, i as int)[k - 1]);
                        }
                    }
                }
                assert(v@.subrange(i + 1, n as int) =~= before.subrange(i + 1, n as int));
            }
            proof {
                let x = x0;
                assert(v@ =~= before.update(j - 1, y).update(j as int, x));
                let s1 = before.update(j - 1, y);
                vstd::seq_lib::to_multiset_update(before, j - 1, y);
                vstd::seq_lib::to_multiset_update(s1, j as int, x);
                vstd::seq_lib::to_multiset_contains(before, x);
                assert(before[j - 1] == x);
                assert(s1[j as int] == y);
                broadcast use vstd::multiset::group_multiset_axioms;
                let m = before.to_multiset();
                assert(m.insert(y).remove(x).insert(x).remove(y) =~= m);
                assert(key_le(y, x));
                assert forall|a: int, b: int|
                    0 <= a < b <= i && b != j - 1 implies key_le(#[trigger] v@[a], #[trigger] v@[b]) by {
                    if b == j {
                        if a < j - 1 {
                            assert(key_le(before[a], before[j - 1]));
                        }
                    } else if b > j {
                        if a == j - 1 {
                            assert(key_le(before[j as int], before[b]));
                        } else if a == j {
                            assert(key_le(before[j - 1], before[b]));
                        } else {
                            assert(key_le(before[a], before[b]));
                        }
                    } else {
                        assert(key_le(before[a], before[b]));
                    }
                }
                assert forall|a: int, b: int|
                    0 <= a < j - 1 && j - 1 < b <= i implies key_le(#[trigger] v@[a], #[trigger] v@[b]) by {
                    if b == j {
                        assert(key_le(before[a], before[j - 1]));
                    } else {
                        assert(key_le(before[a], before[b]));
                    }
                }
                assert forall|b: int| j - 1 < b <= i implies key_le(v@[j - 1], #[trigger] v@[b]) by {
                    if b > j {
                        assert(key_le(before[j as int], before[b]));
                    }
                }
            }
            j = j - 1;
        }
        proof {
            assert forall|a: int, b: int| 0 <= a < b < i + 1 implies key_le(#[trigger] v@[a], #[trigger] v@[b]) by {
                if b == j && a < j - 1 {
                    assert(key_le(v@[a], v@[j - 1]));
                }
            }
            let pj = p.take(j as int);
            if j > 0 {
                assert(v@[j - 1] == v@.take(j as int)[j - 1]);
                assert(pj.last() == p[j - 1]);
                assert(key_le(pj.last(), x));
            }
            assert(insert_stable(pj, x) =~= pj.push(x));
            assert(v@.take(i + 1) =~= pj.push(x) + p.subrange(j as int, i as int)) by {
                assert forall|k: int| 0 <= k < i + 1 implies #[trigger] v@.take(i + 1)[k] == (pj.push(x)
                    + p.subrange(j as int, i as int))[k] by {
                    if k < j {
                        assert(v@.take(j as int)[k] == pj[k]);
                    } else if k > j {
                        assert(v@.subrange(j + 1, i + 1)[k - j - 1] == p.subrange(j as int, i as int)[k - j - 1]);
                    }
                }
            }
            let t = orig.take(i + 1);
            assert(t.drop_last() =~= orig.take(i as int));
            assert(t.last() == x);
            assert(stable_sort(t) == insert_stable(p, x));
            assert(v@.subrange(i + 1, n as int) =~= orig.subrange(i + 1, n as int));
        }
        i = i + 1;
    }
    proof {
        assert(v@.take(n as int) =~= v@);
        assert(orig.take(n as int) =~= orig);
    }
}

/// The enumerated monitors in stable order, or the primary screen alone when
/// enumeration found none, so the list is never empty.
pub fn arrange_monitors(found: Vec<Rect>, primary: Rect) -> (r: Vec<Rect>)
    ensures
        r@.len() > 0,
        found@.len() > 0 ==> r@ == stable_sort(found@),
        found@.len() > 0 ==> r@.to_multiset() == found@.to_multiset() && sorted_by_position(r@),
        found@.len() == 0 ==> r@ == seq![primary],
{
    let mut v = found;
    sort_monitors(&mut v);
    if v.len() == 0 {
        proof {
            vstd::seq_lib::to_multiset_len(v@);
            vstd::seq_lib::to_multiset_len(found@);
        }
        v.push(primary);
        assert(v@ =~= seq![primary]);
    } else {
        proof {
            vstd::seq_lib::to_multiset_len(v@);
            vstd::seq_lib::to_multiset_len(found@);
        }
    }
    v
}

pub open spec fn at_origin(r: Rect) -> bool {
    r.left == 0 && r.top == 0
}

/// "Primary" is whichever monitor sits at the origin; the first otherwise.
pub open spec fn primary_index_spec(all: Seq<Rect>) -> int {
    if exists|i: int| 0 <= i < all.len() && at_origin(all[i]) {
        choose|i: int| 0 <= i < all.len() && at_origin(all[i]) && forall|k: int| 0 <= k < i ==> !at_origin(all[k])
    } else {
        0
    }
}

proof fn lemma_first_at_origin(all: Seq<Rect>, i: int)
    requires
        0 <= i < all.len(),
        at_origin(all[i]),
        forall|k: int| 0 <= k < i ==> !at_origin(all[k]),
    ensures
        primary_index_spec(all) == i,
{
    let j = choose|j: int| 0 <= j < all.len() && at_origin(all[j]) && forall|k: int| 0 <= k < j ==> !at_origin(all[k]);
    assert(0 <= j < all.len() && at_origin(all[j]) && forall|k: int| 0 <= k < j ==> !at_origin(all[k]));
    if j < i {
        assert(!at_origin(all[j]));
    }
    if i < j {
        assert(!at_origin(all[i]));
    }
}

/// Index of the primary monitor in the arranged list.
pub fn primary_index(all: &Vec<Rect>) -> (r: usize)
    ensures
        r == primary_index_spec(all@),
        all@.len() > 0 ==> r < all@.len(),
{
    let mut i: usize = 0;
    while i < all.len()
        invariant
            i <= all@.len(),
            forall|k: int| 0 <= k < i ==> !at_origin(all@[k]),
        decreases all@.len() - i,
    {
        if all[i].left == 0 && all[i].top == 0 {
            proof {
                lemma_first_at_origin(all@, i as int);
            }
            return i;
        }
        i = i + 1;
    }
    0
}

/// The monitor configured by `index` (-1 for the primary); a monitor that is
/// not attached falls back to the first instead of failing.
pub open spec fn monitor_rect_spec(all: Seq<Rect>, index: i32) -> Rect {
    if index < 0 {
        all[primary_index_spec(all)]
    } else if index < all.len() {
        all[index as int]
    } else {
        all[0]
    }
}

pub fn monitor_rect(all: &Vec<Rect>, index: i32) -> (r: Rect)
    requires
        all@.len() > 0,
    ensures
        r == monitor_rect_spec(all@, index),
{
    if index < 0 {
        let p = primary_index(all);
        all[p]
    } else if (index as usize) < all.len() {
        all[index as usize]
    } else {
        all[0]
    }
}

pub open spec fn contains_point(r: Rect, x: i32, y: i32) -> bool {
    r.left <= x < r.right && r.top <= y < r.bottom
}

/// The first monitor containing the point, or the first monitor.
pub open spec fn monitor_at_spec(all: Seq<Rect>, x: i32, y: i32) -> int {
    if exists|i: int| 0 <= i < all.len() && contains_point(all[i], x, y) {
        choose|i: int|
            0 <= i < all.len() && contains_point(all[i], x, y) && forall|k: int| 0 <= k < i ==> !contains_point(all[k], x, y)
    } else {
        0
    }
}

/// Which monitor the card's centre sits on, for writing a dragged position
/// back as a monitor index plus offsets.
pub fn monitor_at(all: &Vec<Rect>, x: i32, y: i32) -> (r: usize)
    ensures
        r == monitor_at_spec(all@, x, y),
{
    let mut i: usize = 0;
    while i < all.len()
        invariant
            i <= all@.len(),
            forall|k: int| 0 <= k < i ==> !contains_point(all@[k], x, y),
        decreases all@.len() - i,
    {
        let r = all[i];
        if x >= r.left && x < r.right && y >= r.top && y < r.bottom {
            proof {
                let j = choose|j: int|
                    0 <= j < all@.len() && contains_point(all@[j], x, y) && forall|k: int|
                        0 <= k < j ==> !contains_point(all@[k], x, y);
                assert(0 <= j < all@.len() && contains_point(all@[j], x, y));
                if j < i {
                    assert(!contains_point(all@[j], x, y));
                }
                if (i as int) < j {
                    assert(!contains_point(all@[i as int], x, y));
                }
            }
            return i;
        }
        i = i + 1;
    }
    0
}

/// Rust's `/` on `i32` truncates toward zero.
pub open spec fn div2_trunc(v: int) -> int {
    if v >= 0 {
        v / 2
    } else {
        -((-v) / 2)
    }
}

/// Where the card's top-left corner goes on `area`, for a card `w` physical
/// pixels wide and offsets already scaled to physical pixels: `top-left` and
/// `free` measure from the left edge, `top-right` from the right edge, and
/// anything else centres the card.
pub fn card_origin(area: Rect, anchor: &str, w: i32, off_x: i32, off_y: i32) -> (r: (i32, i32))
    requires
        i32::MIN <= area.right - area.left <= i32::MAX,
        i32::MIN <= area.right - area.left - w <= i32::MAX,
        i32::MIN <= area.right - w - off_x <= i32::MAX,
        i32::MIN <= area.right - w <= i32::MAX,
        i32::MIN <= area.left + off_x <= i32::MAX,
        i32::MIN <= area.left + div2_trunc(area.right - area.left - w) <= i32::MAX,
        i32::MIN <= area.left + div2_trunc(area.right - area.left - w) + off_x <= i32::MAX,
        i32::MIN <= area.top + off_y <= i32::MAX,
    ensures
        r.1 == area.top + off_y,
        (anchor@ == "top-left"@ || anchor@ == "free"@) ==> r.0 == area.left + off_x,
        !(anchor@ == "top-left"@ || anchor@ == "free"@) && anchor@ == "top-right"@ ==> r.0
            == area.right - w - off_x,
        !(anchor@ == "top-left"@ || anchor@ == "free"@ || anchor@ == "top-right"@) ==> r.0
            == area.left + div2_trunc(area.right - area.left - w) + off_x,
{
    let x = if str_eq(anchor, "top-left") || str_eq(anchor, "free") {
        area.left + off_x
    } else if str_eq(anchor, "top-right") {
        area.right - w - off_x
    } else {
        let span = area.right - area.left - w;
        let half = span / 2;
        assert(half == div2_trunc(span as int)) by {
            if span < 0 {
                assert(-(span as int) > 0);
            }
        }
        area.left + half + off_x
    };
    (x, area.top + off_y)
}

} // verus!
