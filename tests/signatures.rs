use waf_proxy::signatures::{
    contains_text, is_flagged_agent_lowered, is_suspicious_agent, normalize_agent,
    oracle_headers, Pattern, SignatureMatcher,
};

#[test]
fn contains_text_finds_runs() {
    assert!(contains_text("hello world", "lo w"));
    assert!(contains_text("abc", ""));
    assert!(contains_text("", ""));
    assert!(!contains_text("ab", "abc"));
    assert!(!contains_text("abcabd", "abe"));
    assert!(contains_text("aaab", "aab"));
    assert!(contains_text("héllo", "él"));
}

#[test]
fn agent_checks_ignore_case() {
    assert!(is_suspicious_agent("Mozilla/5.0 (compatible; Nmap Scripting Engine)"));
    assert!(is_suspicious_agent("Python-Requests/2.31"));
    assert!(is_suspicious_agent("NESSUS"));
    assert!(is_suspicious_agent("Mozilla/5.00 (Nikto/2.1.6)"));
    assert!(!is_suspicious_agent("Mozilla/5.0 (X11; Linux x86_64) Firefox/120.0"));
    assert!(!is_suspicious_agent(""));
    assert!(!is_flagged_agent_lowered("NMAP"));
    assert!(is_flagged_agent_lowered("nmap"));
}

#[test]
fn agent_is_lower_cased() {
    assert_eq!(normalize_agent("Nmap/7.9 CURL"), "nmap/7.9 curl");
}

#[test]
fn headers_for_oracle_are_json() {
    assert_eq!(oracle_headers("curl/8.0"), "{\"user-agent\":\"curl/8.0\"}");
    assert_eq!(oracle_headers("a\"b"), "{\"user-agent\":\"a\\\"b\"}");
    assert_eq!(oracle_headers(""), "{\"user-agent\":\"\"}");
}

#[test]
fn invalid_pattern_is_reported() {
    match Pattern::compile("(unclosed") {
        Err(e) => assert_eq!(e.pattern, "(unclosed"),
        Ok(_) => panic!("pattern should not compile"),
    }
    let p = Pattern::compile("ab+c").ok().unwrap();
    assert!(p.is_match("xxabbbcx"));
    assert!(!p.is_match("ac"));
}

#[test]
fn static_assets_are_matched_on_path() {
    let m = SignatureMatcher::new().ok().unwrap();
    assert!(m.is_static_asset("/img/logo.png"));
    assert!(m.is_static_asset("/app.min.js"));
    assert!(m.is_static_asset("/fonts/a.woff"));
    assert!(!m.is_static_asset("/api/users"));
    assert!(!m.is_static_asset("/logo.png/edit"));
}

#[test]
fn signatures_match_case_insensitively() {
    let m = SignatureMatcher::new().ok().unwrap();
    assert!(m.matches_signature("/q?id=1 UNION  SELECT pass"));
    assert!(m.matches_signature("/q?x=select name from users"));
    assert!(m.matches_signature("/q?x=Drop Table users"));
    assert!(!m.matches_signature("/q?x=selection"));
    assert!(!m.matches_signature("/q?id=1%20union%20select"));
}

#[test]
fn headers_escape_control_characters() {
    assert_eq!(oracle_headers("a\tb\n"), "{\"user-agent\":\"a\\tb\\n\"}");
    assert_eq!(oracle_headers("x\u{1}\u{1f}"), "{\"user-agent\":\"x\\u0001\\u001f\"}");
    assert_eq!(oracle_headers("back\\slash é"), "{\"user-agent\":\"back\\\\slash é\"}");
}
