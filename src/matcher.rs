//! Path patterns paired with the directives to send when a path matches, and
//! first-match selection among several of them.
use vstd::prelude::*;
use regex::RegexSet;
use crate::directive::{join_parts, lemma_join_push, CspDirective};
use crate::kinds::CspDirectiveType;

verus! {

#[verifier::external_type_specification]
#[verifier::external_body]
pub struct ExRegexSet(regex::RegexSet);

#[verifier::external_type_specification]
#[verifier::external_body]
pub struct ExRegexError(regex::Error);

/// The patterns a compiled set was built from, in order (what
/// `RegexSet::patterns` hands back).
pub uninterp spec fn regex_set_patterns(s: RegexSet) -> Seq<Seq<char>>;

/// Whether a set was compiled with the default options, as `RegexSet::new`
/// and `RegexSet::empty` compile it (a `RegexSetBuilder` may set others).
pub uninterp spec fn regex_set_default(s: RegexSet) -> bool;

/// Whether `pattern`, compiled with the default options, matches somewhere in
/// `haystack`: the part each pattern plays in `RegexSet::is_match`.
pub uninterp spec fn pattern_matches(pattern: Seq<char>, haystack: Seq<char>) -> bool;

/// Whether every pattern of `patterns` is a valid regular expression within
/// the default size limits, that is, whether `RegexSet::new` succeeds.
pub uninterp spec fn patterns_compile(patterns: Seq<Seq<char>>) -> bool;

/// Whether some pattern of `patterns` matches somewhere in `haystack`.
pub open spec fn any_pattern_matches(patterns: Seq<Seq<char>>, haystack: Seq<char>) -> bool {
    exists|i: int| 0 <= i < patterns.len() && #[trigger] pattern_matches(patterns[i], haystack)
}

/// The order of a ruleset's patterns does not matter: patterns with the same
/// members match the same texts.
pub proof fn lemma_pattern_order_irrelevant(
    p1: Seq<Seq<char>>,
    p2: Seq<Seq<char>>,
    haystack: Seq<char>,
)
    requires
        p1.to_set() == p2.to_set(),
    ensures
        any_pattern_matches(p1, haystack) == any_pattern_matches(p2, haystack),
{
    if any_pattern_matches(p1, haystack) {
        let i = choose|i: int| 0 <= i < p1.len() && #[trigger] pattern_matches(p1[i], haystack);
        assert(p1.to_set().contains(p1[i]));
        let j = choose|j: int| 0 <= j < p2.len() && p2[j] == p1[i];
        assert(pattern_matches(p2[j], haystack));
    }
    if any_pattern_matches(p2, haystack) {
        let i = choose|i: int| 0 <= i < p2.len() && #[trigger] pattern_matches(p2[i], haystack);
        assert(p2.to_set().contains(p2[i]));
        let j = choose|j: int| 0 <= j < p1.len() && p1[j] == p2[i];
        assert(pattern_matches(p1[j], haystack));
    }
}

/// Relies on `regex::RegexSet::is_match`: true if and only if one of the set's
/// patterns matches the haystack, so a set with no pattern matches nothing.
pub assume_specification[ regex::RegexSet::is_match ](s: &RegexSet, haystack: &str) -> (r: bool)
    ensures
        regex_set_default(*s) ==> r == (exists|i: int| 0 <= i < regex_set_patterns(*s).len() && #[trigger] pattern_matches(regex_set_patterns(*s)[i], haystack@)),
        regex_set_patterns(*s).len() == 0 ==> !r,
;

/// Relies on `regex::RegexSet::empty`: a set built from no pattern, with the
/// default options.
pub assume_specification[ regex::RegexSet::empty ]() -> (r: RegexSet)
    ensures
        regex_set_patterns(r).len() == 0,
        regex_set_default(r),
;

/// Relies on `regex::RegexSet`'s derived `Clone`: the copy keeps the patterns
/// and the compiled options.
pub assume_specification[ <regex::RegexSet as core::clone::Clone>::clone ](s: &RegexSet) -> (r: RegexSet)
    ensures
        regex_set_patterns(r) == regex_set_patterns(*s),
        regex_set_default(r) == regex_set_default(*s),
;

/// Relies on `regex::RegexSet::new`: it succeeds exactly when the patterns
/// compile, always on no pattern, and the set keeps the given patterns in the
/// given order, compiled with the default options.
#[verifier::external_body]
fn compile_patterns(patterns: &Vec<String>) -> (r: Result<RegexSet, regex::Error>)
    ensures
        r is Ok <==> patterns_compile(patterns@.map_values(|p: String| p@)),
        patterns@.len() == 0 ==> r is Ok,
        r matches Ok(s) ==> regex_set_patterns(s) == patterns@.map_values(|p: String| p@)
            && regex_set_default(s),
{
    RegexSet::new(patterns)
}

/// The directives' texts joined by `"; "`.
pub open spec fn directives_text(ds: Seq<CspDirective>) -> Seq<char> {
    join_parts(ds.map_values(|d: CspDirective| d.text()))
}

/// Whether a ruleset applies to `path`: one of its patterns matches it.
pub open spec fn ruleset_matches(m: CspUrlMatcher, path: Seq<char>) -> bool {
    any_pattern_matches(regex_set_patterns(m.matcher), path)
}

/// Whether every ruleset's set was compiled with the default options.
pub open spec fn all_default(rulesets: Seq<CspUrlMatcher>) -> bool {
    forall|j: int| 0 <= j < rulesets.len() ==> regex_set_default(#[trigger] rulesets[j].matcher)
}

/// A `default-src 'self'` directive.
pub open spec fn is_default_self(d: CspDirective) -> bool {
    &&& d.directive_type == CspDirectiveType::DefaultSrc
    &&& d.values@.len() == 1
    &&& d.values@[0] is SelfSite
}

/// A pattern that was not a valid regular expression.
#[derive(Debug, Clone, Copy, PartialEq, Eq, Structural)]
pub enum PatternError {
    Invalid,
}

/// A set of path patterns and the directives to send for a matching path.
#[derive(Clone, Debug)]
pub struct CspUrlMatcher {
    pub matcher: RegexSet,
    pub directives: Vec<CspDirective>,
}

impl CspUrlMatcher {
    /// A ruleset with the given patterns and no directive yet.
    #[must_use]
    pub fn new(matcher: RegexSet) -> (r: Self)
        ensures
            r.matcher == matcher,
            r.directives@.len() == 0,
    {
        CspUrlMatcher { matcher, directives: Vec::new() }
    }

    /// Compiles `patterns` into a ruleset with the given directives. Fails
    /// exactly when a pattern does not compile; no pattern at all compiles.
    pub fn from_patterns(patterns: &Vec<String>, directives: Vec<CspDirective>) -> (r: Result<
        Self,
        PatternError,
    >)
        ensures
            r is Ok <==> patterns_compile(patterns@.map_values(|p: String| p@)),
            patterns@.len() == 0 ==> r is Ok,
            r matches Ok(m) ==> regex_set_patterns(m.matcher) == patterns@.map_values(
                |p: String| p@,
            ) && regex_set_default(m.matcher) && m.directives == directives,
    {
        match compile_patterns(patterns) {
            Ok(matcher) => Ok(CspUrlMatcher { matcher, directives }),
            Err(_) => Err(PatternError::Invalid),
        }
    }

    /// Appends a directive.
    pub fn with_directive(&mut self, directive: CspDirective) -> (r: &mut Self)
        ensures
            r.matcher == old(self).matcher,
            r.directives@ == old(self).directives@.push(directive),
            *final(self) == *final(r),
    {
        self.directives.push(directive);
        self
    }

    /// Whether some pattern of the ruleset matches `text`. A ruleset without
    /// patterns matches nothing.
    pub fn is_match(&self, text: &str) -> (r: bool)
        ensures
            regex_set_default(self.matcher) ==> r == ruleset_matches(*self, text@),
            regex_set_patterns(self.matcher).len() == 0 ==> !r,
    {
        self.matcher.is_match(text)
    }

    /// A ruleset with the one pattern `.*`, which matches every path, and
    /// `default-src 'self'`.
    pub fn default_all_self() -> (r: Self)
        ensures
            r.directives@.len() == 1,
            is_default_self(r.directives@[0]),
            regex_set_default(r.matcher),
            patterns_compile(seq![".*"@]) ==> regex_set_patterns(r.matcher) == seq![".*"@],
            !patterns_compile(seq![".*"@]) ==> regex_set_patterns(r.matcher).len() == 0,
    {
        let mut patterns: Vec<String> = Vec::new();
        patterns.push(String::from_str(".*"));
        assert(patterns@.map_values(|p: String| p@) =~= seq![".*"@]);
        let matcher = match compile_patterns(&patterns) {
            Ok(set) => set,
            Err(_) => RegexSet::empty(),
        };
        CspUrlMatcher { matcher, directives: vec![CspDirective::default_self()] }
    }

    /// A ruleset with the given patterns and `default-src 'self'`.
    pub fn default_self(matcher: RegexSet) -> (r: Self)
        ensures
            r.matcher == matcher,
            r.directives@.len() == 1,
            is_default_self(r.directives@[0]),
    {
        CspUrlMatcher { matcher, directives: vec![CspDirective::default_self()] }
    }

    /// The directives as they stand in a header, in order, joined by `"; "`.
    pub fn to_string(&self) -> (r: String)
        ensures
            r@ == directives_text(self.directives@),
    {
        let mut out = String::new();
        let mut i: usize = 0;
        while i < self.directives.len()
            invariant
                i <= self.directives.len(),
                out@ == directives_text(self.directives@.subrange(0, i as int)),
            decreases self.directives.len() - i,
        {
            let text = self.directives[i].to_string();
            proof {
                let pre = self.directives@.subrange(0, i as int);
                let next = self.directives@.subrange(0, i + 1);
                let f = |d: CspDirective| d.text();
                assert(next.map_values(f) =~= pre.map_values(f).push(text@));
                lemma_join_push(pre.map_values(f), text@);
            }
            if i > 0 {
                out.append("; ");
            }
            out.append(text.as_str());
            i = i + 1;
        }
        assert(self.directives@.subrange(0, self.directives.len() as int) =~= self.directives@);
        out
    }
}

/// The index of the first ruleset that matches `path`, if any. A ruleset
/// without patterns is never picked.
pub fn first_match(rulesets: &Vec<CspUrlMatcher>, path: &str) -> (r: Option<usize>)
    ensures
        r matches Some(i) ==> i < rulesets@.len() && regex_set_patterns(
            rulesets@[i as int].matcher,
        ).len() > 0,
        all_default(rulesets@) ==> (r matches Some(i) ==> ruleset_matches(
            rulesets@[i as int],
            path@,
        ) && forall|j: int| 0 <= j < i ==> !ruleset_matches(#[trigger] rulesets@[j], path@)),
        all_default(rulesets@) ==> (r is None ==> forall|j: int|
            0 <= j < rulesets@.len() ==> !ruleset_matches(#[trigger] rulesets@[j], path@)),
{
    let mut i: usize = 0;
    while i < rulesets.len()
        invariant
            i <= rulesets.len(),
            all_default(rulesets@) ==> forall|j: int|
                0 <= j < i ==> !ruleset_matches(#[trigger] rulesets@[j], path@),
        decreases rulesets.len() - i,
    {
        if rulesets[i].is_match(path) {
            return Some(i);
        }
        i = i + 1;
    }
    None
}

/// The header text of the first ruleset that matches `path`, or `None` when
/// no ruleset applies.
pub fn resolve(rulesets: &Vec<CspUrlMatcher>, path: &str) -> (r: Option<String>)
    ensures
        r matches Some(s) ==> exists|i: int|
            0 <= i < rulesets@.len() && s@ == directives_text(#[trigger] rulesets@[i].directives@),
        all_default(rulesets@) ==> (r is Some <==> exists|j: int|
            0 <= j < rulesets@.len() && ruleset_matches(#[trigger] rulesets@[j], path@)),
        all_default(rulesets@) ==> (r matches Some(s) ==> exists|i: int|
            0 <= i < rulesets@.len() && ruleset_matches(rulesets@[i], path@) && (forall|j: int|
                0 <= j < i ==> !ruleset_matches(#[trigger] rulesets@[j], path@)) && s@
                == directives_text(rulesets@[i].directives@)),
{
    match first_match(rulesets, path) {
        Some(i) => {
            let s = rulesets[i].to_string();
            assert(s@ == directives_text(rulesets@[i as int].directives@));
            Some(s)
        },
        None => None,
    }
}

} // verus!
