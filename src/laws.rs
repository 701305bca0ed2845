//! Laws of the header builder, stated over its model.
use vstd::prelude::*;
use crate::builder::{added, header_of, DirectiveModel};
use crate::kinds::CspDirectiveType;
use crate::values::ValueView;

verus! {

/// One `add` call: a kind and the views of its values.
pub type AddCall = (CspDirectiveType, Seq<ValueView>);

/// The model after the calls in `calls`, made in order, starting from `m`.
pub open spec fn after_adds(m: DirectiveModel, calls: Seq<AddCall>) -> DirectiveModel
    decreases calls.len(),
{
    if calls.len() == 0 {
        m
    } else {
        added(after_adds(m, calls.drop_last()), calls.last().0, calls.last().1)
    }
}

/// The kinds that the calls name, each with the values given for it in any call.
pub open spec fn gathered(calls: Seq<AddCall>) -> DirectiveModel {
    Map::new(
        |k: CspDirectiveType| exists|i: int| 0 <= i < calls.len() && (#[trigger] calls[i]).0 == k,
        |k: CspDirectiveType|
            Set::new(
                |v: ValueView|
                    exists|i: int|
                        0 <= i < calls.len() && (#[trigger] calls[i]).0 == k && calls[i].1.contains(
                            v,
                        ),
            ),
    )
}

/// Starting empty, the calls leave exactly what they gathered.
pub proof fn lemma_after_adds_gathered(calls: Seq<AddCall>)
    ensures
        after_adds(DirectiveModel::empty(), calls) == gathered(calls),
    decreases calls.len(),
{
    if calls.len() > 0 {
        let prev = calls.drop_last();
        lemma_after_adds_gathered(prev);
        let a = after_adds(DirectiveModel::empty(), calls);
        let g = gathered(calls);
        let gp = gathered(prev);
        let last = calls.last();
        assert forall|k: CspDirectiveType| #[trigger] a.contains_key(k) == g.contains_key(k) by {
            if gp.contains_key(k) {
                let i = choose|i: int| 0 <= i < prev.len() && (#[trigger] prev[i]).0 == k;
                assert(calls[i] == prev[i]);
            }
            if g.contains_key(k) {
                let i = choose|i: int| 0 <= i < calls.len() && (#[trigger] calls[i]).0 == k;
                if i < prev.len() {
                    assert(prev[i] == calls[i]);
                }
            }
        }
        assert forall|k: CspDirectiveType| a.contains_key(k) implies #[trigger] a[k] == g[k] by {
            assert forall|v: ValueView| a[k].contains(v) <==> g[k].contains(v) by {
                if gp.contains_key(k) && gp[k].contains(v) {
                    let i = choose|i: int|
                        0 <= i < prev.len() && (#[trigger] prev[i]).0 == k && prev[i].1.contains(v);
                    assert(calls[i] == prev[i]);
                }
                if k == last.0 && last.1.to_set().contains(v) {
                    assert(calls[calls.len() - 1] == last);
                }
                if g[k].contains(v) {
                    let i = choose|i: int|
                        0 <= i < calls.len() && (#[trigger] calls[i]).0 == k && calls[i].1.contains(v);
                    if i < prev.len() {
                        assert(prev[i] == calls[i]);
                    } else {
                        assert(last.1.to_set().contains(v));
                    }
                }
            }
            assert(a[k] =~= g[k]);
        }
        assert(a =~= g);
    }
}

/// The header does not depend on the order or grouping of `add` calls: two
/// sequences of calls that name the same kinds and give the same values for
/// each kind yield the same header.
pub proof fn lemma_header_order_independent(c1: Seq<AddCall>, c2: Seq<AddCall>)
    requires
        gathered(c1) == gathered(c2),
    ensures
        header_of(after_adds(DirectiveModel::empty(), c1)) == header_of(
            after_adds(DirectiveModel::empty(), c2),
        ),
{
    lemma_after_adds_gathered(c1);
    lemma_after_adds_gathered(c2);
}

/// Adding the same values under the same kind twice yields the same header as
/// adding them once.
pub proof fn lemma_add_idempotent(m: DirectiveModel, k: CspDirectiveType, vals: Seq<ValueView>)
    ensures
        added(added(m, k, vals), k, vals) == added(m, k, vals),
        header_of(added(added(m, k, vals), k, vals)) == header_of(added(m, k, vals)),
{
    let once = added(m, k, vals);
    let twice = added(once, k, vals);
    assert(twice[k] =~= once[k]);
    assert(twice =~= once);
}

} // verus!
