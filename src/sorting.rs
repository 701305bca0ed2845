//! The canonical order of a directive's values.
use vstd::prelude::*;
use crate::directive::views;
use crate::values::{
    lemma_value_lt_irreflexive, lemma_value_lt_total, lemma_value_lt_trans, value_lt, CspValue,
    ValueView,
};

verus! {

/// Each value comes strictly before the next.
pub open spec fn strictly_sorted(s: Seq<ValueView>) -> bool {
    forall|i: int, j: int| 0 <= i < j < s.len() ==> value_lt(s[i], s[j])
}

/// The values of a set, in ascending order.
pub open spec fn sorted_values(s: Set<ValueView>) -> Seq<ValueView> {
    choose|q: Seq<ValueView>| strictly_sorted(q) && q.to_set() == s
}

/// A set has at most one ascending listing.
pub proof fn lemma_sorted_unique(a: Seq<ValueView>, b: Seq<ValueView>)
    requires
        strictly_sorted(a),
        strictly_sorted(b),
        a.to_set() == b.to_set(),
    ensures
        a == b,
    decreases a.len(),
{
    if a.len() == 0 {
        if b.len() > 0 {
            assert(b.to_set().contains(b[0]));
        }
        assert(a =~= b);
    } else {
        assert(a.to_set().contains(a[0]));
        if b.len() == 0 {
            assert(b.to_set().contains(a[0]));
        }
        let j = choose|j: int| 0 <= j < b.len() && b[j] == a[0];
        assert(b.to_set().contains(b[0]));
        let i = choose|i: int| 0 <= i < a.len() && a[i] == b[0];
        if j > 0 {
            if i > 0 {
                lemma_value_lt_trans(a[0], a[i], a[0]);
            }
            lemma_value_lt_irreflexive(a[0]);
        }
        assert(a[0] == b[0]);
        let ta = a.drop_first();
        let tb = b.drop_first();
        assert forall|x: ValueView| ta.to_set().contains(x) <==> tb.to_set().contains(x) by {
            if ta.to_set().contains(x) {
                let k = choose|k: int| 0 <= k < ta.len() && ta[k] == x;
                assert(a[k + 1] == x);
                assert(a.to_set().contains(x));
                let m = choose|m: int| 0 <= m < b.len() && b[m] == x;
                if m == 0 {
                    lemma_value_lt_irreflexive(a[0]);
                }
                assert(tb[m - 1] == x);
            }
            if tb.to_set().contains(x) {
                let k = choose|k: int| 0 <= k < tb.len() && tb[k] == x;
                assert(b[k + 1] == x);
                assert(b.to_set().contains(x));
                let m = choose|m: int| 0 <= m < a.len() && a[m] == x;
                if m == 0 {
                    lemma_value_lt_irreflexive(a[0]);
                }
                assert(ta[m - 1] == x);
            }
        }
        assert(ta.to_set() =~= tb.to_set());
        lemma_sorted_unique(ta, tb);
        assert(a =~= seq![a[0]] + ta);
        assert(b =~= seq![b[0]] + tb);
    }
}

/// An ascending listing of a set is the one `sorted_values` names.
pub proof fn lemma_sorted_values_is(q: Seq<ValueView>, s: Set<ValueView>)
    requires
        strictly_sorted(q),
        q.to_set() == s,
    ensures
        sorted_values(s) == q,
{
    let c = sorted_values(s);
    assert(strictly_sorted(c) && c.to_set() == s);
    lemma_sorted_unique(c, q);
}

/// Sorts values with distinct views into ascending order.
pub fn sort_values(v: Vec<CspValue>) -> (r: Vec<CspValue>)
    requires
        views(v@).no_duplicates(),
    ensures
        strictly_sorted(views(r@)),
        views(r@).to_set() == views(v@).to_set(),
{
    let ghost s0 = views(v@).to_set();
    let mut rest = v;
    let mut out: Vec<CspValue> = Vec::new();
    while rest.len() > 0
        invariant
            views(rest@).no_duplicates(),
            strictly_sorted(views(out@)),
            forall|i: int| 0 <= i < rest.len() ==> !views(out@).contains(#[trigger] views(rest@)[i]),
            views(out@).to_set().union(views(rest@).to_set()) == s0,
        decreases rest.len(),
    {
        let ghost before_rest = views(rest@);
        let ghost before_out = views(out@);
        let x = rest.pop().unwrap();
        assert(views(rest@) =~= before_rest.drop_last());
        assert(x@ == before_rest.last());
        assert(!before_out.contains(x@));
        let mut p: usize = 0;
        while p < out.len() && out[p].less_than(&x)
            invariant
                views(out@) == before_out,
                p <= out.len(),
                forall|i: int| 0 <= i < p ==> value_lt(#[trigger] views(out@)[i], x@),
            decreases out.len() - p,
        {
            p = p + 1;
        }
        proof {
            if p < out.len() {
                assert(before_out[p as int] != x@);
                lemma_value_lt_total(before_out[p as int], x@);
                assert forall|j: int| p <= j < out.len() implies value_lt(x@, #[trigger] before_out[j]) by {
                    if j > p {
                        lemma_value_lt_trans(x@, before_out[p as int], before_out[j]);
                    }
                }
            }
        }
        out.insert(p, x);
        proof {
            let now = views(out@);
            assert(now =~= before_out.insert(p as int, x@));
            assert forall|i: int, j: int| 0 <= i < j < now.len() implies value_lt(now[i], now[j]) by {
                if j < p {
                } else if i < p && j == p {
                } else if i < p {
                    lemma_value_lt_trans(now[i], x@, now[j]);
                } else if i == p {
                } else {
                }
            }
            assert forall|i: int| 0 <= i < rest.len() implies !now.contains(#[trigger] views(rest@)[i]) by {
                let y = views(rest@)[i];
                assert(y == before_rest[i]);
                assert(before_rest[i] != before_rest.last());
                if now.contains(y) {
                    let k = choose|k: int| 0 <= k < now.len() && now[k] == y;
                    if k < p {
                        assert(before_out[k] == y);
                    } else if k > p {
                        assert(before_out[k - 1] == y);
                    }
                }
            }
            assert forall|y: ValueView| now.to_set().union(views(rest@).to_set()).contains(y)
                <==> s0.contains(y) by {
                if now.to_set().contains(y) {
                    let k = choose|k: int| 0 <= k < now.len() && now[k] == y;
                    if k < p {
                        assert(before_out[k] == y);
                        assert(before_out.to_set().contains(y));
                    } else if k > p {
                        assert(before_out[k - 1] == y);
                        assert(before_out.to_set().contains(y));
                    } else {
                        assert(before_rest[before_rest.len() - 1] == y);
                        assert(before_rest.to_set().contains(y));
                    }
                }
                if views(rest@).to_set().contains(y) {
                    let k = choose|k: int| 0 <= k < views(rest@).len() && views(rest@)[k] == y;
                    assert(before_rest[k] == y);
                    assert(before_rest.to_set().contains(y));
                }
                if before_out.to_set().contains(y) {
                    let k = choose|k: int| 0 <= k < before_out.len() && before_out[k] == y;
                    if k < p {
                        assert(now[k] == y);
                    } else {
                        assert(now[k + 1] == y);
                    }
                    assert(now.to_set().contains(y));
                }
                if before_rest.to_set().contains(y) {
                    let k = choose|k: int| 0 <= k < before_rest.len() && before_rest[k] == y;
                    if k == before_rest.len() - 1 {
                        assert(now[p as int] == y);
                        assert(now.to_set().contains(y));
                    } else {
                        assert(views(rest@)[k] == y);
                        assert(views(rest@).to_set().contains(y));
                    }
                }
            }
            assert(now.to_set().union(views(rest@).to_set()) =~= s0);
        }
    }
    assert(views(rest@).to_set() =~= Set::<ValueView>::empty());
    assert(views(out@).to_set() =~= s0);
    out
}

} // verus!
