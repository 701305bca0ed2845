use axum_csp::{first_match, resolve, CspDirective, CspDirectiveType, CspHeaderBuilder, CspUrlMatcher, CspValue, PatternError};
use regex::RegexSet;

fn host(s: &str) -> CspValue {
    CspValue::Host { value: s.to_string() }
}

fn ruleset(patterns: &[&str], directives: Vec<CspDirective>) -> CspUrlMatcher {
    let pats: Vec<String> = patterns.iter().map(|p| p.to_string()).collect();
    CspUrlMatcher::from_patterns(&pats, directives).expect("valid patterns")
}

#[test]
fn kind_token_table() {
    let table = [
        (CspDirectiveType::BaseUri, "base-uri"),
        (CspDirectiveType::ChildSrc, "child-src"),
        (CspDirectiveType::ConnectSrc, "connect-src"),
        (CspDirectiveType::DefaultSrc, "default-src"),
        (CspDirectiveType::FencedFrameSrc, "fenced-frame-src"),
        (CspDirectiveType::FontSrc, "font-src"),
        (CspDirectiveType::FormAction, "form-action"),
        (CspDirectiveType::FrameAncestors, "frame-ancestors"),
        (CspDirectiveType::FrameSrc, "frame-src"),
        (CspDirectiveType::ImgSrc, "img-src"),
        (CspDirectiveType::ManifestSrc, "manifest-src"),
        (CspDirectiveType::MediaSrc, "media-src"),
        (CspDirectiveType::NavigateTo, "navigate-to"),
        (CspDirectiveType::ObjectSrc, "object-src"),
        (CspDirectiveType::PrefetchSrc, "prefetch-src"),
        (CspDirectiveType::ReportTo, "report-to"),
        (CspDirectiveType::ReportUri, "report-uri"),
        (CspDirectiveType::RequireTrustedTypesFor, "require-trusted-types-for"),
        (CspDirectiveType::Sandbox, "sandbox"),
        (CspDirectiveType::ScriptSource, "script-src"),
        (CspDirectiveType::ScriptSourceAttr, "script-src-attr"),
        (CspDirectiveType::ScriptSourceElem, "script-src-elem"),
        (CspDirectiveType::StyleSource, "style-src"),
        (CspDirectiveType::StyleSourceAttr, "style-src-attr"),
        (CspDirectiveType::StyleSourceElem, "style-src-elem"),
        (CspDirectiveType::TrustedTypes, "trusted-types"),
        (CspDirectiveType::UpgradeInsecureRequests, "upgrade-insecure-requests"),
        (CspDirectiveType::WorkerSource, "worker-src"),
    ];
    for (i, (kind, token)) in table.iter().enumerate() {
        assert_eq!(kind.as_str(), *token);
        assert_eq!(kind.to_string(), token.to_string());
        assert_eq!(kind.rank(), i);
        assert_eq!(CspDirectiveType::from_rank(i), *kind);
    }
}

#[test]
fn value_token_table() {
    assert_eq!(CspValue::SelfSite.to_string(), "'self'");
    assert_eq!(CspValue::SchemeHttps.to_string(), "https:");
    assert_eq!(CspValue::Nonce { value: "abc123".to_string() }.to_string(), "nonce-abc123");
    assert_eq!(CspValue::Sha256 { value: "xyz".to_string() }.to_string(), "sha256-xyz");
    assert_eq!(host("example.com").to_string(), "example.com");
    assert_eq!(CspValue::NoneSource.to_string(), "'none'");
    assert_eq!(CspValue::StrictDynamic.to_string(), "'strict-dynamic'");
    assert_eq!(CspValue::ReportSample.to_string(), "'report-sample'");
    assert_eq!(CspValue::UnsafeInline.to_string(), "'unsafe-inline'");
    assert_eq!(CspValue::UnsafeEval.to_string(), "'unsafe-eval'");
    assert_eq!(CspValue::UnsafeHashes.to_string(), "'unsafe-hashes'");
    assert_eq!(CspValue::UnsafeAllowRedirects.to_string(), "'unsafe-allow-redirects'");
    assert_eq!(CspValue::SchemeHttp.to_string(), "http:");
    assert_eq!(CspValue::SchemeData.to_string(), "data:");
    assert_eq!(CspValue::SchemeOther { value: "wss:".to_string() }.to_string(), "wss:");
    assert_eq!(CspValue::Sha384 { value: "q".to_string() }.to_string(), "sha384-q");
    assert_eq!(CspValue::Sha512 { value: "r".to_string() }.to_string(), "sha512-r");
}

#[test]
fn value_order_and_equality() {
    assert!(CspValue::SelfSite.less_than(&CspValue::UnsafeInline));
    assert!(!CspValue::UnsafeInline.less_than(&CspValue::SelfSite));
    assert!(!CspValue::SelfSite.less_than(&CspValue::SelfSite));
    assert!(host("a.com").less_than(&host("b.com")));
    assert!(host("ab").less_than(&host("abc")));
    assert!(!host("abc").less_than(&host("ab")));
    assert!(host("zzz").less_than(&CspValue::SchemeHttps));
    assert!(host("x") == host("x"));
    assert!(host("x") != host("y"));
    assert!(host("x") != CspValue::SchemeOther { value: "x".to_string() });
    assert!(CspValue::SelfSite == CspValue::SelfSite);
    assert_eq!(CspValue::Sha512 { value: String::new() }.rank(), 16);
}

#[test]
fn builder_single_directive() {
    let res = CspHeaderBuilder::new()
        .add(CspDirectiveType::ImgSrc, vec![CspValue::SelfSite, CspValue::SchemeHttps])
        .finish();
    assert_eq!(res, "img-src 'self' https:");
}

#[test]
fn builder_empty_and_bare_kind() {
    assert_eq!(CspHeaderBuilder::new().finish(), "");
    let res = CspHeaderBuilder::new().add(CspDirectiveType::Sandbox, vec![]).finish();
    assert_eq!(res, "sandbox");
    let res = CspHeaderBuilder::new()
        .add(CspDirectiveType::UpgradeInsecureRequests, vec![])
        .add(CspDirectiveType::BaseUri, vec![CspValue::NoneSource])
        .finish();
    assert_eq!(res, "base-uri 'none'; upgrade-insecure-requests");
}

#[test]
fn builder_order_independent() {
    let a = CspHeaderBuilder::new()
        .add(CspDirectiveType::ScriptSource, vec![host("b.com"), CspValue::SelfSite])
        .add(CspDirectiveType::ImgSrc, vec![CspValue::SchemeData])
        .add(CspDirectiveType::ScriptSource, vec![host("a.com")])
        .finish();
    let b = CspHeaderBuilder::new()
        .add(CspDirectiveType::ImgSrc, vec![CspValue::SchemeData])
        .add(CspDirectiveType::ScriptSource, vec![host("a.com"), host("b.com")])
        .add(CspDirectiveType::ScriptSource, vec![CspValue::SelfSite])
        .finish();
    assert_eq!(a, b);
    assert_eq!(a, "img-src data:; script-src 'self' a.com b.com");
}

#[test]
fn builder_dedup() {
    let once = CspHeaderBuilder::new()
        .add(CspDirectiveType::DefaultSrc, vec![CspValue::SelfSite])
        .finish();
    let twice = CspHeaderBuilder::new()
        .add(CspDirectiveType::DefaultSrc, vec![CspValue::SelfSite])
        .add(CspDirectiveType::DefaultSrc, vec![CspValue::SelfSite])
        .finish();
    assert_eq!(once, twice);
    let within = CspHeaderBuilder::new()
        .add(CspDirectiveType::DefaultSrc, vec![host("x"), host("x"), CspValue::SelfSite, host("x")])
        .finish();
    assert_eq!(within, "default-src 'self' x");
}

#[test]
fn builder_nonce_and_hash_order() {
    let res = CspHeaderBuilder::new()
        .add(
            CspDirectiveType::ScriptSource,
            vec![
                CspValue::Sha256 { value: "h".to_string() },
                CspValue::Nonce { value: "n".to_string() },
                CspValue::StrictDynamic,
            ],
        )
        .finish();
    assert_eq!(res, "script-src 'strict-dynamic' nonce-n sha256-h");
}

#[test]
fn directive_without_values() {
    let d = CspDirective::from(CspDirectiveType::FrameAncestors, vec![]);
    assert_eq!(d.to_string(), "frame-ancestors");
    assert_eq!(CspDirective::default_self().to_string(), "default-src 'self'");
}

#[test]
fn matcher_scenario() {
    let rules = vec![ruleset(&["/hello"], vec![CspDirective::from(
        CspDirectiveType::DefaultSrc,
        vec![CspValue::SelfSite],
    )])];
    assert!(rules[0].is_match("/hello"));
    assert!(!rules[0].is_match("/other"));
    assert_eq!(resolve(&rules, "/hello"), Some("default-src 'self'".to_string()));
}

#[test]
fn no_match_scenario() {
    let rules = vec![ruleset(&["^/admin"], vec![CspDirective::default_self()])];
    assert_eq!(resolve(&rules, "/public"), None);
    assert_eq!(first_match(&rules, "/public"), None);
    assert_eq!(resolve(&vec![], "/public"), None);
}

#[test]
fn empty_ruleset_never_matches() {
    let empty = ruleset(&[], vec![CspDirective::default_self()]);
    for path in ["", "/", ".*", "*", "/anything"] {
        assert!(!empty.is_match(path));
    }
    let also_empty = CspUrlMatcher::default_self(RegexSet::empty());
    assert!(!also_empty.is_match(""));
}

#[test]
fn first_match_wins() {
    let rules = vec![
        ruleset(&["^/admin"], vec![CspDirective::from(CspDirectiveType::ImgSrc, vec![CspValue::NoneSource])]),
        ruleset(&["/a", "/b"], vec![
            CspDirective::from(CspDirectiveType::DefaultSrc, vec![CspValue::SelfSite]),
            CspDirective::from(CspDirectiveType::ImgSrc, vec![CspValue::SchemeHttps, CspValue::SelfSite]),
        ]),
        CspUrlMatcher::default_all_self(),
    ];
    assert_eq!(first_match(&rules, "/admin/x"), Some(0));
    assert_eq!(first_match(&rules, "/b"), Some(1));
    assert_eq!(first_match(&rules, "/zzz"), Some(2));
    assert_eq!(resolve(&rules, "/admin"), Some("img-src 'none'".to_string()));
    assert_eq!(resolve(&rules, "/b"), Some("default-src 'self'; img-src https: 'self'".to_string()));
    assert_eq!(resolve(&rules, "/zzz"), Some("default-src 'self'".to_string()));
}

#[test]
fn invalid_pattern_is_rejected() {
    let pats = vec!["(".to_string()];
    assert_eq!(
        CspUrlMatcher::from_patterns(&pats, vec![]).err(),
        Some(PatternError::Invalid)
    );
}

#[test]
fn with_directive_appends() {
    let mut m = CspUrlMatcher::new(RegexSet::new(["/x"]).unwrap());
    m.with_directive(CspDirective::default_self())
        .with_directive(CspDirective::from(CspDirectiveType::ImgSrc, vec![CspValue::SelfSite]));
    assert_eq!(m.directives.len(), 2);
    assert_eq!(m.to_string(), "default-src 'self'; img-src 'self'");
    let copy = m.clone();
    assert!(copy.is_match("/x/y"));
}

#[test]
fn default_builder_is_empty() {
    assert_eq!(CspHeaderBuilder::default().finish(), "");
    let res = CspHeaderBuilder::default()
        .add(CspDirectiveType::WorkerSource, vec![CspValue::SelfSite])
        .finish();
    assert_eq!(res, "worker-src 'self'");
}

#[test]
fn string_from_kind_and_value() {
    assert_eq!(String::from(CspDirectiveType::ScriptSourceElem), "script-src-elem");
    assert_eq!(String::from(CspValue::SelfSite), "'self'");
    assert_eq!(String::from(CspValue::Sha384 { value: "abc".to_string() }), "sha384-abc");
    let s: String = CspValue::SchemeData.into();
    assert_eq!(s, "data:");
}

#[test]
fn from_patterns_with_no_pattern_succeeds() {
    let m = CspUrlMatcher::from_patterns(&vec![], vec![CspDirective::default_self()])
        .expect("no pattern always compiles");
    assert!(m.matcher.patterns().is_empty());
    assert!(!m.is_match("/"));
}

#[test]
fn from_patterns_keeps_patterns() {
    let pats = vec!["^/a$".to_string(), "/b".to_string()];
    let m = CspUrlMatcher::from_patterns(&pats, vec![]).expect("valid patterns");
    assert_eq!(m.matcher.patterns(), &pats[..]);
    assert!(m.is_match("/a"));
    assert!(!m.is_match("/a/x"));
    assert!(m.is_match("/x/b"));
}

#[test]
fn default_all_self_matches_everything() {
    let m = CspUrlMatcher::default_all_self();
    assert_eq!(m.matcher.patterns(), &[".*".to_string()][..]);
    for path in ["", "/", "/deep/path?q=1"] {
        assert!(m.is_match(path));
    }
    assert_eq!(m.to_string(), "default-src 'self'");
}
