use mcp_firewall::policy::{default_max_body, default_rate, FirewallPolicy, PolicyFile, RequestContext};

fn names(v: &[&str]) -> Vec<String> {
    v.iter().map(|s| s.to_string()).collect()
}

fn policy() -> PolicyFile {
    PolicyFile {
        firewall: FirewallPolicy {
            allow_tools: names(&["tools.call"]),
            deny_tools: names(&["tools.delete"]),
            allowed_paths: names(&["/safe"]),
            max_body_bytes: 100,
            require_origin: true,
            allowed_origins: names(&["agent://trusted"]),
            require_signature: true,
            rate_limit_per_minute: 5,
            sign_responses: true,
        },
    }
}

fn ctx(method: &str, path: Option<&str>, origin: Option<&str>, body_len: usize, sig: bool) -> RequestContext {
    RequestContext {
        method: method.into(),
        path: path.map(|s| s.into()),
        origin: origin.map(|s| s.into()),
        body_len,
        has_valid_signature: sig,
    }
}

#[test]
fn blocks_untrusted_origin() {
    let p = policy();
    let d = p.evaluate(&RequestContext {
        method: "tools.call".into(),
        path: Some("/safe/file".into()),
        origin: Some("agent://evil".into()),
        body_len: 10,
        has_valid_signature: true,
    });
    assert!(!d.allow);
}

#[test]
fn defaults_match_documented_values() {
    assert_eq!(default_max_body(), 65536);
    assert_eq!(default_rate(), 120);
}

#[test]
fn untrusted_origin_reason() {
    let d = policy().evaluate(&ctx("tools.call", Some("/safe/x"), Some("agent://evil"), 10, true));
    assert!(!d.allow);
    assert_eq!(d.reason, "origin_not_allowed");
}

#[test]
fn missing_origin_is_refused() {
    let d = policy().evaluate(&ctx("tools.call", Some("/safe/x"), None, 10, true));
    assert_eq!(d.reason, "origin_not_allowed");
}

#[test]
fn oversize_body_comes_first() {
    let d = policy().evaluate(&ctx("tools.delete", Some("/etc"), Some("agent://evil"), 200, false));
    assert!(!d.allow);
    assert_eq!(d.reason, "body_too_large");
}

#[test]
fn body_at_limit_passes_size_rule() {
    let d = policy().evaluate(&ctx("tools.call", Some("/safe/x"), Some("agent://trusted"), 100, true));
    assert!(d.allow);
    assert_eq!(d.reason, "policy_pass");
}

#[test]
fn missing_signature_is_refused() {
    let d = policy().evaluate(&ctx("tools.call", Some("/safe/x"), Some("agent://trusted"), 10, false));
    assert_eq!(d.reason, "signature_missing_or_invalid");
}

#[test]
fn denied_tool_beats_allow() {
    let mut p = policy();
    p.firewall.allow_tools.push("tools.delete".into());
    let d = p.evaluate(&ctx("tools.delete", None, Some("agent://trusted"), 10, true));
    assert!(!d.allow);
    assert_eq!(d.reason, "tool_explicitly_denied");
}

#[test]
fn tool_outside_allowlist_is_refused() {
    let d = policy().evaluate(&ctx("tools.list", None, Some("agent://trusted"), 10, true));
    assert_eq!(d.reason, "tool_not_in_allowlist");
}

#[test]
fn empty_allowlist_allows_any_tool() {
    let mut p = policy();
    p.firewall.allow_tools.clear();
    let d = p.evaluate(&ctx("tools.list", None, Some("agent://trusted"), 10, true));
    assert!(d.allow);
}

#[test]
fn path_outside_prefixes_is_refused() {
    let d = policy().evaluate(&ctx("tools.call", Some("/etc/passwd"), Some("agent://trusted"), 10, true));
    assert_eq!(d.reason, "path_not_allowed");
}

#[test]
fn path_prefix_is_raw_text_prefix() {
    let d = policy().evaluate(&ctx("tools.call", Some("/safehouse"), Some("agent://trusted"), 10, true));
    assert!(d.allow);
}

#[test]
fn absent_path_skips_path_rule() {
    let d = policy().evaluate(&ctx("tools.call", None, Some("agent://trusted"), 10, true));
    assert!(d.allow);
    assert_eq!(d.reason, "policy_pass");
}

#[test]
fn evaluation_is_repeatable() {
    let p = policy();
    let c = ctx("tools.call", Some("/x"), Some("agent://trusted"), 10, true);
    let a = p.evaluate(&c);
    let b = p.evaluate_at(&c.clone(), "2024-01-01T00:00:00+00:00".to_string());
    assert_eq!(a.allow, b.allow);
    assert_eq!(a.reason, b.reason);
    assert_eq!(b.at, "2024-01-01T00:00:00+00:00");
}

#[test]
fn decision_carries_a_timestamp() {
    let d = policy().evaluate(&ctx("tools.call", None, Some("agent://trusted"), 10, true));
    assert!(d.at.len() >= 20);
}
