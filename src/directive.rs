//! One directive: a kind with its list of source values.
use vstd::prelude::*;
use crate::kinds::{kind_token, CspDirectiveType};
use crate::values::{value_token, CspValue, ValueView};

verus! {

/// The views of a list of values.
pub open spec fn views(vals: Seq<CspValue>) -> Seq<ValueView> {
    vals.map_values(|v: CspValue| v@)
}

/// The value tokens, each after one space.
pub open spec fn values_text(vals: Seq<ValueView>) -> Seq<char>
    decreases vals.len(),
{
    if vals.len() == 0 {
        Seq::empty()
    } else {
        values_text(vals.drop_last()) + " "@ + value_token(vals.last())
    }
}

/// A directive as it stands in a header: `<kind> <value> <value> ...`.
pub open spec fn directive_text(k: CspDirectiveType, vals: Seq<ValueView>) -> Seq<char> {
    kind_token(k) + values_text(vals)
}

/// Directive texts joined by `"; "`.
pub open spec fn join_parts(parts: Seq<Seq<char>>) -> Seq<char>
    decreases parts.len(),
{
    if parts.len() == 0 {
        Seq::empty()
    } else if parts.len() == 1 {
        parts[0]
    } else {
        join_parts(parts.drop_last()) + "; "@ + parts.last()
    }
}

/// Appending one part to a join.
pub proof fn lemma_join_push(parts: Seq<Seq<char>>, x: Seq<char>)
    ensures
        join_parts(parts.push(x)) == if parts.len() == 0 {
            x
        } else {
            join_parts(parts) + "; "@ + x
        },
{
    assert(parts.push(x).drop_last() =~= parts);
}

/// Renders a kind followed by the given values, in the given order.
pub fn render_directive(kind: CspDirectiveType, values: &Vec<CspValue>) -> (r: String)
    ensures
        r@ == directive_text(kind, views(values@)),
{
    let mut s = kind.to_string();
    let mut i: usize = 0;
    while i < values.len()
        invariant
            i <= values.len(),
            s@ == kind_token(kind) + values_text(views(values@.subrange(0, i as int))),
        decreases values.len() - i,
    {
        let tok = values[i].to_string();
        s.append(" ");
        s.append(tok.as_str());
        proof {
            let pre = values@.subrange(0, i as int);
            let next = values@.subrange(0, i + 1);
            assert(views(next).drop_last() =~= views(pre));
            assert(views(next).last() == values@[i as int]@);
        }
        i = i + 1;
    }
    assert(values@.subrange(0, values.len() as int) =~= values@);
    s
}

/// A directive kind together with its source values.
#[derive(Debug, Clone)]
pub struct CspDirective {
    pub directive_type: CspDirectiveType,
    pub values: Vec<CspValue>,
}

impl CspDirective {
    /// The directive's values, as views.
    pub open spec fn value_views(&self) -> Seq<ValueView> {
        views(self.values@)
    }

    /// The directive as it stands in a header.
    pub open spec fn text(&self) -> Seq<char> {
        directive_text(self.directive_type, self.value_views())
    }

    #[must_use]
    pub fn from(directive_type: CspDirectiveType, values: Vec<CspValue>) -> (r: Self)
        ensures
            r.directive_type == directive_type,
            r.values == values,
    {
        CspDirective { directive_type, values }
    }

    /// Builds a `default-src 'self'` directive.
    pub fn default_self() -> (r: Self)
        ensures
            r.directive_type == CspDirectiveType::DefaultSrc,
            r.values@.len() == 1,
            r.values@[0] is SelfSite,
    {
        CspDirective { directive_type: CspDirectiveType::DefaultSrc, values: vec![CspValue::SelfSite] }
    }

    /// The directive as it stands in a header, such as `img-src 'self' https:`.
    pub fn to_string(&self) -> (r: String)
        ensures
            r@ == self.text(),
    {
        render_directive(self.directive_type, &self.values)
    }
}

} // verus!
