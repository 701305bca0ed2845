//! Source values of a directive, their wire tokens and their total order.
use vstd::prelude::*;

verus! {

/// A CSP source value.
#[derive(Debug, Clone)]
pub enum CspValue {
    /// No source at all, `'none'`.
    NoneSource,
    /// The site itself, `'self'`.
    SelfSite,
    StrictDynamic,
    ReportSample,
    UnsafeInline,
    UnsafeEval,
    UnsafeHashes,
    /// Experimental.
    UnsafeAllowRedirects,
    Host { value: String },
    SchemeHttps,
    SchemeHttp,
    SchemeData,
    SchemeOther { value: String },
    Nonce { value: String },
    Sha256 { value: String },
    Sha384 { value: String },
    Sha512 { value: String },
}

/// What a value is: the position of its variant in declaration order, and the
/// text it carries (empty for the variants that carry none).
pub type ValueView = (nat, Seq<char>);

impl View for CspValue {
    type V = ValueView;

    open spec fn view(&self) -> ValueView {
        match self {
            CspValue::NoneSource => (0, Seq::empty()),
            CspValue::SelfSite => (1, Seq::empty()),
            CspValue::StrictDynamic => (2, Seq::empty()),
            CspValue::ReportSample => (3, Seq::empty()),
            CspValue::UnsafeInline => (4, Seq::empty()),
            CspValue::UnsafeEval => (5, Seq::empty()),
            CspValue::UnsafeHashes => (6, Seq::empty()),
            CspValue::UnsafeAllowRedirects => (7, Seq::empty()),
            CspValue::Host { value } => (8, value@),
            CspValue::SchemeHttps => (9, Seq::empty()),
            CspValue::SchemeHttp => (10, Seq::empty()),
            CspValue::SchemeData => (11, Seq::empty()),
            CspValue::SchemeOther { value } => (12, value@),
            CspValue::Nonce { value } => (13, value@),
            CspValue::Sha256 { value } => (14, value@),
            CspValue::Sha384 { value } => (15, value@),
            CspValue::Sha512 { value } => (16, value@),
        }
    }
}

/// The wire token of a value.
pub open spec fn value_token(v: ValueView) -> Seq<char> {
    let p = v.1;
    if v.0 == 0 {
        "'none'"@
    } else if v.0 == 1 {
        "'self'"@
    } else if v.0 == 2 {
        "'strict-dynamic'"@
    } else if v.0 == 3 {
        "'report-sample'"@
    } else if v.0 == 4 {
        "'unsafe-inline'"@
    } else if v.0 == 5 {
        "'unsafe-eval'"@
    } else if v.0 == 6 {
        "'unsafe-hashes'"@
    } else if v.0 == 7 {
        "'unsafe-allow-redirects'"@
    } else if v.0 == 9 {
        "https:"@
    } else if v.0 == 10 {
        "http:"@
    } else if v.0 == 11 {
        "data:"@
    } else if v.0 == 13 {
        "nonce-"@ + p
    } else if v.0 == 14 {
        "sha256-"@ + p
    } else if v.0 == 15 {
        "sha384-"@ + p
    } else if v.0 == 16 {
        "sha512-"@ + p
    } else {
        p
    }
}

/// Strict lexicographic order on texts, by code point.
pub open spec fn text_lt(a: Seq<char>, b: Seq<char>) -> bool
    decreases a.len(),
{
    if a.len() == 0 {
        b.len() > 0
    } else if b.len() == 0 {
        false
    } else if a[0] != b[0] {
        (a[0] as int) < (b[0] as int)
    } else {
        text_lt(a.drop_first(), b.drop_first())
    }
}

/// Strict total order on values: by variant, then by the carried text.
pub open spec fn value_lt(a: ValueView, b: ValueView) -> bool {
    a.0 < b.0 || (a.0 == b.0 && text_lt(a.1, b.1))
}

/// No text comes before itself.
pub proof fn lemma_text_lt_irreflexive(a: Seq<char>)
    ensures
        !text_lt(a, a),
    decreases a.len(),
{
    if a.len() > 0 {
        lemma_text_lt_irreflexive(a.drop_first());
    }
}

/// The text order is transitive.
pub proof fn lemma_text_lt_trans(a: Seq<char>, b: Seq<char>, c: Seq<char>)
    requires
        text_lt(a, b),
        text_lt(b, c),
    ensures
        text_lt(a, c),
    decreases a.len(),
{
    if a.len() > 0 && b.len() > 0 && c.len() > 0 && a[0] == b[0] && b[0] == c[0] {
        lemma_text_lt_trans(a.drop_first(), b.drop_first(), c.drop_first());
    }
}

/// Two different texts are ordered one way or the other.
pub proof fn lemma_text_lt_total(a: Seq<char>, b: Seq<char>)
    requires
        a != b,
    ensures
        text_lt(a, b) || text_lt(b, a),
    decreases a.len(),
{
    if a.len() > 0 && b.len() > 0 {
        if a[0] == b[0] {
            if a.drop_first() == b.drop_first() {
                assert(a =~= seq![a[0]] + a.drop_first());
                assert(b =~= seq![b[0]] + b.drop_first());
            }
            lemma_text_lt_total(a.drop_first(), b.drop_first());
        } else {
            assert((a[0] as int) != (b[0] as int));
        }
    } else if a.len() == 0 && b.len() == 0 {
        assert(a =~= b);
    }
}

/// No value comes before itself.
pub proof fn lemma_value_lt_irreflexive(a: ValueView)
    ensures
        !value_lt(a, a),
{
    lemma_text_lt_irreflexive(a.1);
}

/// The value order is transitive.
pub proof fn lemma_value_lt_trans(a: ValueView, b: ValueView, c: ValueView)
    requires
        value_lt(a, b),
        value_lt(b, c),
    ensures
        value_lt(a, c),
{
    if a.0 == b.0 && b.0 == c.0 {
        lemma_text_lt_trans(a.1, b.1, c.1);
    }
}

/// Two different values are ordered one way or the other.
pub proof fn lemma_value_lt_total(a: ValueView, b: ValueView)
    requires
        a != b,
    ensures
        value_lt(a, b) || value_lt(b, a),
{
    if a.0 == b.0 {
        lemma_text_lt_total(a.1, b.1);
    }
}

/// Strict lexicographic comparison of two texts.
fn text_less(a: &str, b: &str) -> (r: bool)
    ensures
        r == text_lt(a@, b@),
{
    let la = a.unicode_len();
    let lb = b.unicode_len();
    let mut i: usize = 0;
    assert(a@.subrange(0, la as int) =~= a@);
    assert(b@.subrange(0, lb as int) =~= b@);
    while i < la && i < lb
        invariant
            la == a@.len(),
            lb == b@.len(),
            i <= la,
            i <= lb,
            a@.subrange(0, i as int) == b@.subrange(0, i as int),
            text_lt(a@, b@) == text_lt(a@.subrange(i as int, la as int), b@.subrange(i as int, lb as int)),
        decreases la - i,
    {
        let ca = a.get_char(i);
        let cb = b.get_char(i);
        let ghost sa = a@.subrange(i as int, la as int);
        let ghost sb = b@.subrange(i as int, lb as int);
        assert(sa[0] == ca && sb[0] == cb);
        if ca != cb {
            return ca < cb;
        }
        assert(sa.drop_first() =~= a@.subrange(i + 1, la as int));
        assert(sb.drop_first() =~= b@.subrange(i + 1, lb as int));
        assert(a@.subrange(0, i + 1) =~= a@.subrange(0, i as int).push(ca));
        assert(b@.subrange(0, i + 1) =~= b@.subrange(0, i as int).push(cb));
        i = i + 1;
    }
    i < lb
}

impl CspValue {
    /// The text this value carries, if its variant carries one.
    fn payload(&self) -> (r: Option<&String>)
        ensures
            r matches Some(s) ==> s@ == self@.1,
            r is None ==> self@.1 == Seq::<char>::empty(),
            r is Some <==> (self@.0 == 8 || self@.0 >= 12),
    {
        match self {
            CspValue::Host { value } => Some(value),
            CspValue::SchemeOther { value } => Some(value),
            CspValue::Nonce { value } => Some(value),
            CspValue::Sha256 { value } => Some(value),
            CspValue::Sha384 { value } => Some(value),
            CspValue::Sha512 { value } => Some(value),
            _ => None,
        }
    }

    /// Position of this value's variant in declaration order.
    pub fn rank(&self) -> (r: u8)
        ensures
            r as nat == self@.0,
    {
        match self {
            CspValue::NoneSource => 0,
            CspValue::SelfSite => 1,
            CspValue::StrictDynamic => 2,
            CspValue::ReportSample => 3,
            CspValue::UnsafeInline => 4,
            CspValue::UnsafeEval => 5,
            CspValue::UnsafeHashes => 6,
            CspValue::UnsafeAllowRedirects => 7,
            CspValue::Host { .. } => 8,
            CspValue::SchemeHttps => 9,
            CspValue::SchemeHttp => 10,
            CspValue::SchemeData => 11,
            CspValue::SchemeOther { .. } => 12,
            CspValue::Nonce { .. } => 13,
            CspValue::Sha256 { .. } => 14,
            CspValue::Sha384 { .. } => 15,
            CspValue::Sha512 { .. } => 16,
        }
    }

    /// Whether this value comes strictly before `other` in the value order.
    pub fn less_than(&self, other: &CspValue) -> (r: bool)
        ensures
            r == value_lt(self@, other@),
    {
        let ra = self.rank();
        let rb = other.rank();
        if ra != rb {
            return ra < rb;
        }
        match (self.payload(), other.payload()) {
            (Some(a), Some(b)) => text_less(a.as_str(), b.as_str()),
            _ => {
                assert(self@.1 =~= other@.1);
                proof {
                    lemma_text_lt_irreflexive(self@.1);
                }
                false
            },
        }
    }

    /// The wire token, such as `'self'` or `nonce-abc`.
    pub fn to_string(&self) -> (r: String)
        ensures
            r@ == value_token(self@),
    {
        match self {
            CspValue::NoneSource => String::from_str("'none'"),
            CspValue::SelfSite => String::from_str("'self'"),
            CspValue::StrictDynamic => String::from_str("'strict-dynamic'"),
            CspValue::ReportSample => String::from_str("'report-sample'"),
            CspValue::UnsafeInline => String::from_str("'unsafe-inline'"),
            CspValue::UnsafeEval => String::from_str("'unsafe-eval'"),
            CspValue::UnsafeHashes => String::from_str("'unsafe-hashes'"),
            CspValue::UnsafeAllowRedirects => String::from_str("'unsafe-allow-redirects'"),
            CspValue::SchemeHttps => String::from_str("https:"),
            CspValue::SchemeHttp => String::from_str("http:"),
            CspValue::SchemeData => String::from_str("data:"),
            CspValue::Host { value } => String::from_str(value.as_str()),
            CspValue::SchemeOther { value } => String::from_str(value.as_str()),
            CspValue::Nonce { value } => {
                let mut s = String::from_str("nonce-");
                s.append(value.as_str());
                s
            },
            CspValue::Sha256 { value } => {
                let mut s = String::from_str("sha256-");
                s.append(value.as_str());
                s
            },
            CspValue::Sha384 { value } => {
                let mut s = String::from_str("sha384-");
                s.append(value.as_str());
                s
            },
            CspValue::Sha512 { value } => {
                let mut s = String::from_str("sha512-");
                s.append(value.as_str());
                s
            },
        }
    }
}

impl From<CspValue> for String {
    fn from(input: CspValue) -> (r: String)
        ensures
            r@ == value_token(input@),
    {
        input.to_string()
    }
}

// A `String` is known by its view alone, so the conversion is stated by the
// `ensures` above rather than by an equation between strings.
impl vstd::std_specs::convert::FromSpecImpl<CspValue> for String {
    open spec fn obeys_from_spec() -> bool {
        false
    }

    open spec fn from_spec(input: CspValue) -> String {
        arbitrary()
    }
}

impl PartialEq for CspValue {
    fn eq(&self, other: &CspValue) -> (r: bool) {
        if self.rank() != other.rank() {
            return false;
        }
        match (self.payload(), other.payload()) {
            (Some(a), Some(b)) => a.eq(b),
            _ => {
                assert(self@.1 =~= other@.1);
                true
            },
        }
    }
}

impl vstd::std_specs::cmp::PartialEqSpecImpl for CspValue {
    open spec fn obeys_eq_spec() -> bool {
        true
    }

    open spec fn eq_spec(&self, other: &CspValue) -> bool {
        self@ == other@
    }
}

impl Eq for CspValue {
}

} // verus!
