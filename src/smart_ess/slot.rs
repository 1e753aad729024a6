use crate::smart_ess::window::{span, valid_instant, valid_offset, RateWindow};
use vstd::prelude::*;

verus! {

/// One entry of a merged schedule: an occurrence, with the positions of the
/// tariff and of the window that it came from.
#[derive(Debug, Clone, Copy, PartialEq, Eq, Structural)]
pub struct Slot {
    pub start: i64,
    pub end: i64,
    pub rate: usize,
    pub window: usize,
}

/// `a` comes before `b`: by start, then tariff, then window, then end.
pub open spec fn slot_before(a: Slot, b: Slot) -> bool {
    ||| a.start < b.start
    ||| (a.start == b.start && a.rate < b.rate)
    ||| (a.start == b.start && a.rate == b.rate && a.window < b.window)
    ||| (a.start == b.start && a.rate == b.rate && a.window == b.window && a.end < b.end)
}

/// Entries in ascending order of start; entries with equal starts come in no
/// stated order.
pub open spec fn ordered_by_start(s: Seq<Slot>) -> bool {
    forall|i: int, j: int| 0 <= i < j < s.len() ==> s[i].start <= s[j].start
}

/// The order in which schedules are built: each entry strictly before the
/// next, so no entry repeats.
pub open spec fn strictly_ordered(s: Seq<Slot>) -> bool {
    forall|i: int, j: int| 0 <= i < j < s.len() ==> slot_before(s[i], s[j])
}

/// `x` is an occurrence, relative to `from` at offset `off`, of one of
/// `windows`, which belong to the tariff at position `rate`.
pub open spec fn window_slot(windows: Seq<RateWindow>, rate: int, from: int, off: int, x: Slot) -> bool {
    &&& x.rate == rate
    &&& 0 <= x.window < windows.len()
    &&& windows[x.window as int].resolve(from, off).contains(span(x.start as int, x.end as int))
}

fn before(a: &Slot, b: &Slot) -> (r: bool)
    ensures
        r == slot_before(*a, *b),
{
    a.start < b.start || (a.start == b.start && (a.rate < b.rate || (a.rate == b.rate && (a.window
        < b.window || (a.window == b.window && a.end < b.end)))))
}

/// Puts `x` in its place in the ordered `v`, unless `v` already holds it.
fn insert_slot(v: &mut Vec<Slot>, x: Slot)
    requires
        strictly_ordered(old(v)@),
    ensures
        strictly_ordered(final(v)@),
        forall|y: Slot| final(v)@.contains(y) <==> (old(v)@.contains(y) || y == x),
{
    let mut i: usize = 0;
    while i < v.len() && before(&v[i], &x)
        invariant
            i <= v@.len(),
            v@ == old(v)@,
            forall|j: int| 0 <= j < i ==> slot_before(v@[j], x),
        decreases v@.len() - i,
    {
        i = i + 1;
    }
    if i < v.len() && v[i] == x {
        return;
    }
    let ghost pre = v@;
    v.insert(i, x);
    proof {
        let post = v@;
        assert(post == pre.insert(i as int, x));
        assert forall|a: int, b: int| 0 <= a < b < post.len() implies slot_before(
            post[a],
            post[b],
        ) by {
            if b < i {
            } else if b == i {
            } else if a < i {
                assert(slot_before(pre[a], x));
                assert(post[b] == pre[b - 1]);
                if b - 1 > i {
                    assert(slot_before(pre[i as int], pre[b - 1]));
                }
            } else if a == i {
                assert(post[b] == pre[b - 1]);
                if b - 1 > i {
                    assert(slot_before(pre[i as int], pre[b - 1]));
                }
            } else {
                assert(post[a] == pre[a - 1]);
                assert(post[b] == pre[b - 1]);
            }
        }
        assert forall|y: Slot| post.contains(y) <==> (pre.contains(y) || y == x) by {
            if pre.contains(y) {
                let k = choose|k: int| 0 <= k < pre.len() && pre[k] == y;
                if k < i {
                    assert(post[k] == y);
                } else {
                    assert(post[k + 1] == y);
                }
            }
            if post.contains(y) {
                let k = choose|k: int| 0 <= k < post.len() && post[k] == y;
                if k < i {
                    assert(pre[k] == y);
                } else if k > i {
                    assert(pre[k - 1] == y);
                }
            }
            assert(post[i as int] == x);
        }
    }
}

/// Adds to the ordered `v` every occurrence, relative to `from` at offset
/// `offset`, of `windows`, which belong to the tariff at position `rate`.
pub(crate) fn insert_window_slots(
    v: &mut Vec<Slot>,
    windows: &Vec<RateWindow>,
    rate: usize,
    from: i64,
    offset: i32,
)
    requires
        strictly_ordered(old(v)@),
        valid_instant(from as int),
        valid_offset(offset as int),
    ensures
        strictly_ordered(final(v)@),
        forall|y: Slot|
            final(v)@.contains(y) <==> (old(v)@.contains(y) || window_slot(
                windows@,
                rate as int,
                from as int,
                offset as int,
                y,
            )),
{
    let ghost start = v@;
    let mut w: usize = 0;
    while w < windows.len()
        invariant
            w <= windows@.len(),
            valid_instant(from as int),
            valid_offset(offset as int),
            strictly_ordered(v@),
            forall|y: Slot|
                v@.contains(y) <==> (start.contains(y) || (window_slot(
                    windows@,
                    rate as int,
                    from as int,
                    offset as int,
                    y,
                ) && y.window < w)),
        decreases windows@.len() - w,
    {
        let occ = windows[w].schedule_at(from, offset);
        let mut j: usize = 0;
        proof {
            assert forall|y: Slot|
                v@.contains(y) <==> (start.contains(y) || (window_slot(
                    windows@,
                    rate as int,
                    from as int,
                    offset as int,
                    y,
                ) && y.window < w) || (y.rate == rate && y.window == w && occ@.subrange(
                    0,
                    0,
                ).contains(span(y.start as int, y.end as int)))) by {
                assert(!occ@.subrange(0, 0).contains(span(y.start as int, y.end as int)));
            }
        }
        while j < occ.len()
            invariant
                w < windows@.len(),
                j <= occ@.len(),
                occ@ == windows@[w as int].resolve(from as int, offset as int),
                strictly_ordered(v@),
                forall|y: Slot|
                    v@.contains(y) <==> (start.contains(y) || (window_slot(
                        windows@,
                        rate as int,
                        from as int,
                        offset as int,
                        y,
                    ) && y.window < w) || (y.rate == rate && y.window == w && occ@.subrange(
                        0,
                        j as int,
                    ).contains(span(y.start as int, y.end as int)))),
            decreases occ@.len() - j,
        {
            let o = occ[j];
            let x = Slot { start: o.start, end: o.end, rate, window: w };
            let ghost before_v = v@;
            insert_slot(v, x);
            proof {
                assert(span(x.start as int, x.end as int) == o);
                assert forall|y: Slot|
                    (y.rate == rate && y.window == w && occ@.subrange(0, j + 1).contains(
                        span(y.start as int, y.end as int),
                    )) <==> ((y.rate == rate && y.window == w && occ@.subrange(
                        0,
                        j as int,
                    ).contains(span(y.start as int, y.end as int))) || y == x) by {
                    let p = span(y.start as int, y.end as int);
                    let s1 = occ@.subrange(0, j + 1);
                    let s0 = occ@.subrange(0, j as int);
                    if s1.contains(p) {
                        let k = choose|k: int| 0 <= k < s1.len() && #[trigger] s1[k] == p;
                        if k < j {
                            assert(s0[k] == p);
                        } else {
                            assert(p == o);
                        }
                    }
                    if s0.contains(p) {
                        let k = choose|k: int| 0 <= k < s0.len() && #[trigger] s0[k] == p;
                        assert(s1[k] == p);
                    }
                    if y == x {
                        assert(s1[j as int] == p);
                    }
                }
            }
            j = j + 1;
        }
        proof {
            assert(occ@.subrange(0, j as int) =~= occ@);
        }
        w = w + 1;
    }
}

/// A strictly ordered sequence is ordered by start and has no repeats.
pub proof fn lemma_strict_by_start(s: Seq<Slot>)
    requires
        strictly_ordered(s),
    ensures
        ordered_by_start(s),
        s.no_duplicates(),
{
    assert forall|i: int, j: int| 0 <= i < j < s.len() implies s[i].start <= s[j].start by {
        assert(slot_before(s[i], s[j]));
    }
    assert forall|i: int, j: int| 0 <= i < s.len() && 0 <= j < s.len() && i != j implies s[i]
        != s[j] by {
        if i < j {
            assert(slot_before(s[i], s[j]));
        } else {
            assert(slot_before(s[j], s[i]));
        }
    }
}

} // verus!
