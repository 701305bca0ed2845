//! A builder that gathers values per directive kind and renders one header.
use vstd::prelude::*;
use crate::directive::{directive_text, join_parts, lemma_join_push, render_directive, views};
use crate::kinds::{all_kinds, kind_rank, lemma_all_kinds_rank, CspDirectiveType, KIND_COUNT};
use crate::sorting::{lemma_sorted_values_is, sort_values, sorted_values};
use crate::values::{CspValue, ValueView};

verus! {

/// What a builder holds: for each kind that was added, its set of values.
pub type DirectiveModel = Map<CspDirectiveType, Set<ValueView>>;

/// The model after adding `vals` under `k`.
pub open spec fn added(m: DirectiveModel, k: CspDirectiveType, vals: Seq<ValueView>) -> DirectiveModel {
    let prior = if m.contains_key(k) {
        m[k]
    } else {
        Set::empty()
    };
    m.insert(k, prior.union(vals.to_set()))
}

/// The rendered directives of the first `n` kinds in declaration order that
/// the model holds, each with its values in ascending order.
pub open spec fn directive_parts(m: DirectiveModel, n: nat) -> Seq<Seq<char>>
    decreases n,
{
    if n == 0 {
        Seq::empty()
    } else {
        let prev = directive_parts(m, (n - 1) as nat);
        let k = all_kinds()[n - 1];
        if m.contains_key(k) {
            prev.push(directive_text(k, sorted_values(m[k])))
        } else {
            prev
        }
    }
}

/// The header text for a model: kinds in declaration order, values in
/// ascending order, directives joined by `"; "`.
pub open spec fn header_of(m: DirectiveModel) -> Seq<char> {
    join_parts(directive_parts(m, KIND_COUNT as nat))
}

/// Whether some value of `vals` has the view of `v`.
fn contains_value(vals: &Vec<CspValue>, v: &CspValue) -> (r: bool)
    ensures
        r == views(vals@).contains(v@),
{
    let mut i: usize = 0;
    while i < vals.len()
        invariant
            i <= vals.len(),
            forall|j: int| 0 <= j < i ==> views(vals@)[j] != v@,
        decreases vals.len() - i,
    {
        if vals[i] == *v {
            assert(views(vals@)[i as int] == v@);
            return true;
        }
        i = i + 1;
    }
    false
}

/// Gathers directives, keeping each value once per kind.
///
/// The kinds form a closed set with a rank each, so the map from kind to
/// values is a vector with one slot per rank. A `HashMap` keyed by the derived
/// `Hash` and `Eq` of the kind would come with no proved behaviour of its
/// lookups, and the slots also give the output order of the kinds directly.
#[derive(Debug, Clone)]
pub struct CspHeaderBuilder {
    /// The values of each kind, at the kind's rank; `None` for a kind not added.
    slots: Vec<Option<Vec<CspValue>>>,
}

impl CspHeaderBuilder {
    /// One slot per kind, and no value twice within a slot.
    pub closed spec fn wf(&self) -> bool {
        &&& self.slots@.len() == KIND_COUNT
        &&& forall|i: int|
            0 <= i < KIND_COUNT ==> (#[trigger] self.slots@[i] matches Some(v) ==> views(
                v@,
            ).no_duplicates())
    }

    pub closed spec fn model(&self) -> DirectiveModel {
        Map::new(
            |k: CspDirectiveType| self.slots@[kind_rank(k) as int] is Some,
            |k: CspDirectiveType| views(self.slots@[kind_rank(k) as int]->Some_0@).to_set(),
        )
    }

    /// An empty builder.
    pub fn new() -> (r: Self)
        ensures
            r.wf(),
            r.model() == DirectiveModel::empty(),
    {
        let mut slots: Vec<Option<Vec<CspValue>>> = Vec::new();
        let mut i: usize = 0;
        while i < KIND_COUNT
            invariant
                i <= KIND_COUNT,
                slots@.len() == i,
                forall|j: int| 0 <= j < i ==> #[trigger] slots@[j] is None,
            decreases KIND_COUNT - i,
        {
            slots.push(None);
            i = i + 1;
        }
        let r = CspHeaderBuilder { slots };
        proof {
            assert forall|k: CspDirectiveType| !r.model().contains_key(k) by {
                lemma_all_kinds_rank(k);
            }
            assert(r.model() =~= DirectiveModel::empty());
        }
        r
    }

    /// Adds `values` under `directive`, skipping those already held for it.
    /// The kind is recorded even when `values` is empty.
    pub fn add(self, directive: CspDirectiveType, values: Vec<CspValue>) -> (r: Self)
        requires
            self.wf(),
        ensures
            r.wf(),
            r.model() == added(self.model(), directive, views(values@)),
    {
        let ghost m0 = self.model();
        let mut slots = self.slots;
        let ghost prior = if m0.contains_key(directive) {
            m0[directive]
        } else {
            Set::empty()
        };
        let r = directive.rank();
        let mut cur: Vec<CspValue> = match slots[r].take() {
            Some(v) => v,
            None => Vec::new(),
        };
        assert(views(cur@).to_set() =~= prior);
        let mut rest = values;
        assert(views(rest@) == views(values@));
        while rest.len() > 0
            invariant
                views(cur@).no_duplicates(),
                views(cur@).to_set().union(views(rest@).to_set()) == prior.union(
                    views(values@).to_set(),
                ),
            decreases rest.len(),
        {
            let ghost before = views(rest@);
            let ghost before_cur = views(cur@);
            let v = rest.pop().unwrap();
            assert(views(rest@) =~= before.drop_last());
            assert(v@ == before.last());
            if !contains_value(&cur, &v) {
                cur.push(v);
                assert(views(cur@) =~= before_cur.push(v@));
            }
            proof {
                assert forall|y: ValueView| views(cur@).to_set().union(views(rest@).to_set()).contains(y)
                    <==> before_cur.to_set().union(before.to_set()).contains(y) by {
                    if before.to_set().contains(y) {
                        let k = choose|k: int| 0 <= k < before.len() && before[k] == y;
                        if k < before.len() - 1 {
                            assert(views(rest@)[k] == y);
                        } else if !before_cur.contains(y) {
                            assert(views(cur@)[views(cur@).len() - 1] == y);
                        }
                    }
                    if before_cur.to_set().contains(y) {
                        let k = choose|k: int| 0 <= k < before_cur.len() && before_cur[k] == y;
                        assert(views(cur@)[k] == y);
                    }
                    if views(rest@).to_set().contains(y) {
                        let k = choose|k: int| 0 <= k < views(rest@).len() && views(rest@)[k] == y;
                        assert(before[k] == y);
                    }
                    if views(cur@).to_set().contains(y) {
                        let k = choose|k: int| 0 <= k < views(cur@).len() && views(cur@)[k] == y;
                        if k == before_cur.len() {
                            assert(before[before.len() - 1] == y);
                        } else {
                            assert(before_cur[k] == y);
                        }
                    }
                }
                assert(views(cur@).to_set().union(views(rest@).to_set()) =~= before_cur.to_set().union(
                    before.to_set(),
                ));
            }
        }
        assert(views(rest@).to_set() =~= Set::<ValueView>::empty());
        slots.set(r, Some(cur));
        let b = CspHeaderBuilder { slots };
        proof {
            let m1 = b.model();
            let want = added(m0, directive, views(values@));
            assert forall|k: CspDirectiveType| #[trigger] m1.contains_key(k) == want.contains_key(k) by {
                lemma_all_kinds_rank(k);
                lemma_all_kinds_rank(directive);
            }
            assert forall|k: CspDirectiveType| m1.contains_key(k) implies #[trigger] m1[k] == want[k] by {
                lemma_all_kinds_rank(k);
                lemma_all_kinds_rank(directive);
            }
            assert(m1 =~= want);
        }
        b
    }

    /// The header text: kinds in declaration order, each kind's values in
    /// ascending order, directives joined by `"; "`.
    pub fn finish(self) -> (r: String)
        requires
            self.wf(),
        ensures
            r@ == header_of(self.model()),
    {
        let ghost m = self.model();
        let ghost s0 = self.slots@;
        let mut slots = self.slots;
        let mut out = String::new();
        let mut any = false;
        let mut i: usize = 0;
        while i < KIND_COUNT
            invariant
                i <= KIND_COUNT,
                slots@.len() == KIND_COUNT,
                s0.len() == KIND_COUNT,
                forall|j: int| i <= j < KIND_COUNT ==> #[trigger] slots@[j] == s0[j],
                forall|j: int|
                    0 <= j < KIND_COUNT ==> (#[trigger] s0[j] matches Some(v) ==> views(
                        v@,
                    ).no_duplicates()),
                m == Map::new(
                    |k: CspDirectiveType| s0[kind_rank(k) as int] is Some,
                    |k: CspDirectiveType| views(s0[kind_rank(k) as int]->Some_0@).to_set(),
                ),
                out@ == join_parts(directive_parts(m, i as nat)),
                any == (directive_parts(m, i as nat).len() > 0),
            decreases KIND_COUNT - i,
        {
            let k = CspDirectiveType::from_rank(i);
            let ghost prev = directive_parts(m, i as nat);
            assert(directive_parts(m, (i + 1) as nat) == if m.contains_key(k) {
                prev.push(directive_text(k, sorted_values(m[k])))
            } else {
                prev
            });
            let taken = slots[i].take();
            match taken {
                Some(vals) => {
                    assert(m.contains_key(k));
                    let sorted = sort_values(vals);
                    let text = render_directive(k, &sorted);
                    proof {
                        lemma_sorted_values_is(views(sorted@), m[k]);
                        lemma_join_push(prev, text@);
                    }
                    if any {
                        out.append("; ");
                    }
                    out.append(text.as_str());
                    any = true;
                },
                None => {
                    assert(!m.contains_key(k));
                },
            }
            i = i + 1;
        }
        out
    }
}

impl Default for CspHeaderBuilder {
    fn default() -> (r: Self)
        ensures
            r.wf(),
            r.model() == DirectiveModel::empty(),
    {
        CspHeaderBuilder::new()
    }
}

} // verus!
