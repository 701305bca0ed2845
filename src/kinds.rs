//! Directive names of a Content-Security-Policy and their wire tokens.
use vstd::prelude::*;

verus! {

/// The number of directive kinds.
pub const KIND_COUNT: usize = 28;

/// A CSP directive name. Declaration order is the order in which a header
/// lists its directives.
#[derive(Hash, Eq, PartialEq, Structural, Debug, Clone, Copy, Ord, PartialOrd)]
pub enum CspDirectiveType {
    BaseUri,
    ChildSrc,
    ConnectSrc,
    DefaultSrc,
    /// Experimental.
    FencedFrameSrc,
    FontSrc,
    FormAction,
    FrameAncestors,
    FrameSrc,
    ImgSrc,
    ManifestSrc,
    MediaSrc,
    /// Experimental.
    NavigateTo,
    ObjectSrc,
    PrefetchSrc,
    /// Experimental and deprecated: send it together with `report-uri`.
    ReportTo,
    /// Deprecated: send it together with `report-to`.
    ReportUri,
    /// Experimental.
    RequireTrustedTypesFor,
    Sandbox,
    ScriptSource,
    ScriptSourceAttr,
    ScriptSourceElem,
    StyleSource,
    StyleSourceAttr,
    StyleSourceElem,
    /// Experimental.
    TrustedTypes,
    UpgradeInsecureRequests,
    WorkerSource,
}

/// Every directive kind, in declaration order.
pub open spec fn all_kinds() -> Seq<CspDirectiveType> {
    seq![
        CspDirectiveType::BaseUri,
        CspDirectiveType::ChildSrc,
        CspDirectiveType::ConnectSrc,
        CspDirectiveType::DefaultSrc,
        CspDirectiveType::FencedFrameSrc,
        CspDirectiveType::FontSrc,
        CspDirectiveType::FormAction,
        CspDirectiveType::FrameAncestors,
        CspDirectiveType::FrameSrc,
        CspDirectiveType::ImgSrc,
        CspDirectiveType::ManifestSrc,
        CspDirectiveType::MediaSrc,
        CspDirectiveType::NavigateTo,
        CspDirectiveType::ObjectSrc,
        CspDirectiveType::PrefetchSrc,
        CspDirectiveType::ReportTo,
        CspDirectiveType::ReportUri,
        CspDirectiveType::RequireTrustedTypesFor,
        CspDirectiveType::Sandbox,
        CspDirectiveType::ScriptSource,
        CspDirectiveType::ScriptSourceAttr,
        CspDirectiveType::ScriptSourceElem,
        CspDirectiveType::StyleSource,
        CspDirectiveType::StyleSourceAttr,
        CspDirectiveType::StyleSourceElem,
        CspDirectiveType::TrustedTypes,
        CspDirectiveType::UpgradeInsecureRequests,
        CspDirectiveType::WorkerSource,
    ]
}

/// Position of a kind in declaration order.
pub open spec fn kind_rank(k: CspDirectiveType) -> nat {
    match k {
        CspDirectiveType::BaseUri => 0,
        CspDirectiveType::ChildSrc => 1,
        CspDirectiveType::ConnectSrc => 2,
        CspDirectiveType::DefaultSrc => 3,
        CspDirectiveType::FencedFrameSrc => 4,
        CspDirectiveType::FontSrc => 5,
        CspDirectiveType::FormAction => 6,
        CspDirectiveType::FrameAncestors => 7,
        CspDirectiveType::FrameSrc => 8,
        CspDirectiveType::ImgSrc => 9,
        CspDirectiveType::ManifestSrc => 10,
        CspDirectiveType::MediaSrc => 11,
        CspDirectiveType::NavigateTo => 12,
        CspDirectiveType::ObjectSrc => 13,
        CspDirectiveType::PrefetchSrc => 14,
        CspDirectiveType::ReportTo => 15,
        CspDirectiveType::ReportUri => 16,
        CspDirectiveType::RequireTrustedTypesFor => 17,
        CspDirectiveType::Sandbox => 18,
        CspDirectiveType::ScriptSource => 19,
        CspDirectiveType::ScriptSourceAttr => 20,
        CspDirectiveType::ScriptSourceElem => 21,
        CspDirectiveType::StyleSource => 22,
        CspDirectiveType::StyleSourceAttr => 23,
        CspDirectiveType::StyleSourceElem => 24,
        CspDirectiveType::TrustedTypes => 25,
        CspDirectiveType::UpgradeInsecureRequests => 26,
        CspDirectiveType::WorkerSource => 27,
    }
}

/// The wire token of a kind.
pub open spec fn kind_token(k: CspDirectiveType) -> Seq<char> {
    match k {
        CspDirectiveType::BaseUri => "base-uri"@,
        CspDirectiveType::ChildSrc => "child-src"@,
        CspDirectiveType::ConnectSrc => "connect-src"@,
        CspDirectiveType::DefaultSrc => "default-src"@,
        CspDirectiveType::FencedFrameSrc => "fenced-frame-src"@,
        CspDirectiveType::FontSrc => "font-src"@,
        CspDirectiveType::FormAction => "form-action"@,
        CspDirectiveType::FrameAncestors => "frame-ancestors"@,
        CspDirectiveType::FrameSrc => "frame-src"@,
        CspDirectiveType::ImgSrc => "img-src"@,
        CspDirectiveType::ManifestSrc => "manifest-src"@,
        CspDirectiveType::MediaSrc => "media-src"@,
        CspDirectiveType::NavigateTo => "navigate-to"@,
        CspDirectiveType::ObjectSrc => "object-src"@,
        CspDirectiveType::PrefetchSrc => "prefetch-src"@,
        CspDirectiveType::ReportTo => "report-to"@,
        CspDirectiveType::ReportUri => "report-uri"@,
        CspDirectiveType::RequireTrustedTypesFor => "require-trusted-types-for"@,
        CspDirectiveType::Sandbox => "sandbox"@,
        CspDirectiveType::ScriptSource => "script-src"@,
        CspDirectiveType::ScriptSourceAttr => "script-src-attr"@,
        CspDirectiveType::ScriptSourceElem => "script-src-elem"@,
        CspDirectiveType::StyleSource => "style-src"@,
        CspDirectiveType::StyleSourceAttr => "style-src-attr"@,
        CspDirectiveType::StyleSourceElem => "style-src-elem"@,
        CspDirectiveType::TrustedTypes => "trusted-types"@,
        CspDirectiveType::UpgradeInsecureRequests => "upgrade-insecure-requests"@,
        CspDirectiveType::WorkerSource => "worker-src"@,
    }
}

/// Each kind stands in `all_kinds` at its rank.
pub proof fn lemma_all_kinds_rank(k: CspDirectiveType)
    ensures
        kind_rank(k) < all_kinds().len(),
        all_kinds()[kind_rank(k) as int] == k,
{
    assert(all_kinds().len() == KIND_COUNT);
}

/// A short fingerprint of each kind's token: its length and the characters
/// seven and four places from its end. No two kinds share one.
pub open spec fn kind_fingerprint(k: CspDirectiveType) -> (nat, char, char) {
    match k {
        CspDirectiveType::BaseUri => (8, 'a', '-'),
        CspDirectiveType::ChildSrc => (9, 'i', '-'),
        CspDirectiveType::ConnectSrc => (11, 'e', '-'),
        CspDirectiveType::DefaultSrc => (11, 'u', '-'),
        CspDirectiveType::FencedFrameSrc => (16, 'a', '-'),
        CspDirectiveType::FontSrc => (8, 'o', '-'),
        CspDirectiveType::FormAction => (11, '-', 't'),
        CspDirectiveType::FrameAncestors => (15, 'c', 't'),
        CspDirectiveType::FrameSrc => (9, 'a', '-'),
        CspDirectiveType::ImgSrc => (7, 'i', '-'),
        CspDirectiveType::ManifestSrc => (12, 'e', '-'),
        CspDirectiveType::MediaSrc => (9, 'd', '-'),
        CspDirectiveType::NavigateTo => (11, 'g', 'e'),
        CspDirectiveType::ObjectSrc => (10, 'e', '-'),
        CspDirectiveType::PrefetchSrc => (12, 't', '-'),
        CspDirectiveType::ReportTo => (9, 'p', 't'),
        CspDirectiveType::ReportUri => (10, 'o', '-'),
        CspDirectiveType::RequireTrustedTypesFor => (25, 'p', '-'),
        CspDirectiveType::Sandbox => (7, 's', 'd'),
        CspDirectiveType::ScriptSource => (10, 'i', '-'),
        CspDirectiveType::ScriptSourceAttr => (15, 'r', 'a'),
        CspDirectiveType::ScriptSourceElem => (15, 'r', 'e'),
        CspDirectiveType::StyleSource => (9, 'y', '-'),
        CspDirectiveType::StyleSourceAttr => (14, 'r', 'a'),
        CspDirectiveType::StyleSourceElem => (14, 'r', 'e'),
        CspDirectiveType::TrustedTypes => (13, 'd', 'y'),
        CspDirectiveType::UpgradeInsecureRequests => (25, 'e', 'e'),
        CspDirectiveType::WorkerSource => (10, 'k', '-'),
    }
}

/// Each token has its kind's fingerprint.
pub proof fn lemma_kind_fingerprint(k: CspDirectiveType)
    ensures
        kind_token(k).len() == kind_fingerprint(k).0,
        kind_token(k)[kind_fingerprint(k).0 - 7] == kind_fingerprint(k).1,
        kind_token(k)[kind_fingerprint(k).0 - 4] == kind_fingerprint(k).2,
{
    reveal_strlit("base-uri");
    reveal_strlit("child-src");
    reveal_strlit("connect-src");
    reveal_strlit("default-src");
    reveal_strlit("fenced-frame-src");
    reveal_strlit("font-src");
    reveal_strlit("form-action");
    reveal_strlit("frame-ancestors");
    reveal_strlit("frame-src");
    reveal_strlit("img-src");
    reveal_strlit("manifest-src");
    reveal_strlit("media-src");
    reveal_strlit("navigate-to");
    reveal_strlit("object-src");
    reveal_strlit("prefetch-src");
    reveal_strlit("report-to");
    reveal_strlit("report-uri");
    reveal_strlit("require-trusted-types-for");
    reveal_strlit("sandbox");
    reveal_strlit("script-src");
    reveal_strlit("script-src-attr");
    reveal_strlit("script-src-elem");
    reveal_strlit("style-src");
    reveal_strlit("style-src-attr");
    reveal_strlit("style-src-elem");
    reveal_strlit("trusted-types");
    reveal_strlit("upgrade-insecure-requests");
    reveal_strlit("worker-src");
}

/// Two kinds have the same token exactly when they are the same kind.
pub proof fn lemma_kind_token_injective(k1: CspDirectiveType, k2: CspDirectiveType)
    ensures
        kind_token(k1) == kind_token(k2) <==> k1 == k2,
{
    lemma_kind_fingerprint(k1);
    lemma_kind_fingerprint(k2);
}

impl CspDirectiveType {
    /// The kind at position `i` of declaration order.
    pub fn from_rank(i: usize) -> (r: CspDirectiveType)
        requires
            i < KIND_COUNT,
        ensures
            r == all_kinds()[i as int],
            kind_rank(r) == i,
    {
        match i {
            0 => CspDirectiveType::BaseUri,
            1 => CspDirectiveType::ChildSrc,
            2 => CspDirectiveType::ConnectSrc,
            3 => CspDirectiveType::DefaultSrc,
            4 => CspDirectiveType::FencedFrameSrc,
            5 => CspDirectiveType::FontSrc,
            6 => CspDirectiveType::FormAction,
            7 => CspDirectiveType::FrameAncestors,
            8 => CspDirectiveType::FrameSrc,
            9 => CspDirectiveType::ImgSrc,
            10 => CspDirectiveType::ManifestSrc,
            11 => CspDirectiveType::MediaSrc,
            12 => CspDirectiveType::NavigateTo,
            13 => CspDirectiveType::ObjectSrc,
            14 => CspDirectiveType::PrefetchSrc,
            15 => CspDirectiveType::ReportTo,
            16 => CspDirectiveType::ReportUri,
            17 => CspDirectiveType::RequireTrustedTypesFor,
            18 => CspDirectiveType::Sandbox,
            19 => CspDirectiveType::ScriptSource,
            20 => CspDirectiveType::ScriptSourceAttr,
            21 => CspDirectiveType::ScriptSourceElem,
            22 => CspDirectiveType::StyleSource,
            23 => CspDirectiveType::StyleSourceAttr,
            24 => CspDirectiveType::StyleSourceElem,
            25 => CspDirectiveType::TrustedTypes,
            26 => CspDirectiveType::UpgradeInsecureRequests,
            _ => CspDirectiveType::WorkerSource,
        }
    }

    /// Position of this kind in declaration order.
    pub fn rank(&self) -> (r: usize)
        ensures
            r == kind_rank(*self),
            r < KIND_COUNT,
    {
        match self {
            CspDirectiveType::BaseUri => 0,
            CspDirectiveType::ChildSrc => 1,
            CspDirectiveType::ConnectSrc => 2,
            CspDirectiveType::DefaultSrc => 3,
            CspDirectiveType::FencedFrameSrc => 4,
            CspDirectiveType::FontSrc => 5,
            CspDirectiveType::FormAction => 6,
            CspDirectiveType::FrameAncestors => 7,
            CspDirectiveType::FrameSrc => 8,
            CspDirectiveType::ImgSrc => 9,
            CspDirectiveType::ManifestSrc => 10,
            CspDirectiveType::MediaSrc => 11,
            CspDirectiveType::NavigateTo => 12,
            CspDirectiveType::ObjectSrc => 13,
            CspDirectiveType::PrefetchSrc => 14,
            CspDirectiveType::ReportTo => 15,
            CspDirectiveType::ReportUri => 16,
            CspDirectiveType::RequireTrustedTypesFor => 17,
            CspDirectiveType::Sandbox => 18,
            CspDirectiveType::ScriptSource => 19,
            CspDirectiveType::ScriptSourceAttr => 20,
            CspDirectiveType::ScriptSourceElem => 21,
            CspDirectiveType::StyleSource => 22,
            CspDirectiveType::StyleSourceAttr => 23,
            CspDirectiveType::StyleSourceElem => 24,
            CspDirectiveType::TrustedTypes => 25,
            CspDirectiveType::UpgradeInsecureRequests => 26,
            CspDirectiveType::WorkerSource => 27,
        }
    }

    /// The wire token, such as `img-src`.
    pub fn as_str(&self) -> (r: &'static str)
        ensures
            r@ == kind_token(*self),
    {
        match self {
            CspDirectiveType::BaseUri => "base-uri",
            CspDirectiveType::ChildSrc => "child-src",
            CspDirectiveType::ConnectSrc => "connect-src",
            CspDirectiveType::DefaultSrc => "default-src",
            CspDirectiveType::FencedFrameSrc => "fenced-frame-src",
            CspDirectiveType::FontSrc => "font-src",
            CspDirectiveType::FormAction => "form-action",
            CspDirectiveType::FrameAncestors => "frame-ancestors",
            CspDirectiveType::FrameSrc => "frame-src",
            CspDirectiveType::ImgSrc => "img-src",
            CspDirectiveType::ManifestSrc => "manifest-src",
            CspDirectiveType::MediaSrc => "media-src",
            CspDirectiveType::NavigateTo => "navigate-to",
            CspDirectiveType::ObjectSrc => "object-src",
            CspDirectiveType::PrefetchSrc => "prefetch-src",
            CspDirectiveType::ReportTo => "report-to",
            CspDirectiveType::ReportUri => "report-uri",
            CspDirectiveType::RequireTrustedTypesFor => "require-trusted-types-for",
            CspDirectiveType::Sandbox => "sandbox",
            CspDirectiveType::ScriptSource => "script-src",
            CspDirectiveType::ScriptSourceAttr => "script-src-attr",
            CspDirectiveType::ScriptSourceElem => "script-src-elem",
            CspDirectiveType::StyleSource => "style-src",
            CspDirectiveType::StyleSourceAttr => "style-src-attr",
            CspDirectiveType::StyleSourceElem => "style-src-elem",
            CspDirectiveType::TrustedTypes => "trusted-types",
            CspDirectiveType::UpgradeInsecureRequests => "upgrade-insecure-requests",
            CspDirectiveType::WorkerSource => "worker-src",
        }
    }

    /// The wire token as an owned string.
    pub fn to_string(&self) -> (r: String)
        ensures
            r@ == kind_token(*self),
    {
        String::from_str(self.as_str())
    }
}

impl From<CspDirectiveType> for String {
    fn from(input: CspDirectiveType) -> (r: String)
        ensures
            r@ == kind_token(input),
    {
        input.to_string()
    }
}

// A `String` is known by its view alone, so the conversion is stated by the
// `ensures` above rather than by an equation between strings.
impl vstd::std_specs::convert::FromSpecImpl<CspDirectiveType> for String {
    open spec fn obeys_from_spec() -> bool {
        false
    }

    open spec fn from_spec(input: CspDirectiveType) -> String {
        arbitrary()
    }
}

} // verus!
