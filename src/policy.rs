//! The declarative firewall policy and its evaluator.

use vstd::prelude::*;

use crate::foreign::{rfc3339_now, str_starts_with};

verus! {

/// Default limit on the request body, in bytes.
pub fn default_max_body() -> (r: usize)
    ensures
        r == 65536,
{
    64 * 1024
}

/// Default number of requests admitted per client and method in one minute.
pub fn default_rate() -> (r: u32)
    ensures
        r == 120,
{
    120
}

/// The gating rules. The name lists are sets: order and repetition do not
/// matter to any rule.
#[derive(Debug, Clone)]
pub struct FirewallPolicy {
    pub allow_tools: Vec<String>,
    pub deny_tools: Vec<String>,
    pub allowed_paths: Vec<String>,
    pub max_body_bytes: usize,
    pub require_origin: bool,
    pub allowed_origins: Vec<String>,
    pub require_signature: bool,
    pub rate_limit_per_minute: u32,
    pub sign_responses: bool,
}

/// A policy document: the rules sit under `firewall`.
#[derive(Debug, Clone)]
pub struct PolicyFile {
    pub firewall: FirewallPolicy,
}

/// What the evaluator knows of one request.
#[derive(Debug, Clone)]
pub struct RequestContext {
    pub method: String,
    pub path: Option<String>,
    pub origin: Option<String>,
    pub body_len: usize,
    pub has_valid_signature: bool,
}

/// The outcome of evaluating a request: whether it is allowed, why, and when.
#[derive(Debug, Clone)]
pub struct Decision {
    pub allow: bool,
    pub reason: String,
    pub at: String,
}

/// `s` is one of the names in `v`.
pub open spec fn has_name(v: Seq<String>, s: Seq<char>) -> bool {
    exists|i: int| 0 <= i < v.len() && v[i]@ == s
}

/// Some element of `v` is a prefix of `s`.
pub open spec fn has_prefix_of(v: Seq<String>, s: Seq<char>) -> bool {
    exists|i: int| 0 <= i < v.len() && v[i]@.is_prefix_of(s)
}

/// The origin rule passes: no origin is required, or one is present and listed.
pub open spec fn origin_ok(p: FirewallPolicy, r: RequestContext) -> bool {
    !p.require_origin || (r.origin is Some && has_name(p.allowed_origins@, r.origin->0@))
}

/// The path rule passes: no path restriction, no path, or a listed prefix.
pub open spec fn path_ok(p: FirewallPolicy, r: RequestContext) -> bool {
    p.allowed_paths@.len() == 0 || r.path is None || has_prefix_of(p.allowed_paths@, r.path->0@)
}

/// The reason of the first rule that `r` fails under `p`, or `None` when all pass.
pub open spec fn denial(p: FirewallPolicy, r: RequestContext) -> Option<Seq<char>> {
    if r.body_len > p.max_body_bytes {
        Some("body_too_large"@)
    } else if !origin_ok(p, r) {
        Some("origin_not_allowed"@)
    } else if p.require_signature && !r.has_valid_signature {
        Some("signature_missing_or_invalid"@)
    } else if has_name(p.deny_tools@, r.method@) {
        Some("tool_explicitly_denied"@)
    } else if p.allow_tools@.len() != 0 && !has_name(p.allow_tools@, r.method@) {
        Some("tool_not_in_allowlist"@)
    } else if !path_ok(p, r) {
        Some("path_not_allowed"@)
    } else {
        None
    }
}

/// The reason that the evaluator gives for `r` under `p`.
pub open spec fn verdict_reason(p: FirewallPolicy, r: RequestContext) -> Seq<char> {
    match denial(p, r) {
        Some(reason) => reason,
        None => "policy_pass"@,
    }
}

fn contains_name(v: &Vec<String>, s: &String) -> (r: bool)
    ensures
        r == has_name(v@, s@),
{
    let mut i: usize = 0;
    while i < v.len()
        invariant
            0 <= i <= v.len(),
            forall|j: int| 0 <= j < i ==> v@[j]@ != s@,
        decreases v.len() - i,
    {
        if v[i].eq(s) {
            return true;
        }
        i += 1;
    }
    false
}

fn contains_prefix_of(v: &Vec<String>, s: &String) -> (r: bool)
    ensures
        r == has_prefix_of(v@, s@),
{
    let mut i: usize = 0;
    while i < v.len()
        invariant
            0 <= i <= v.len(),
            forall|j: int| 0 <= j < i ==> !v@[j]@.is_prefix_of(s@),
        decreases v.len() - i,
    {
        if str_starts_with(s.as_str(), v[i].as_str()) {
            return true;
        }
        i += 1;
    }
    false
}

fn allow(reason: &str, at: String) -> (d: Decision)
    ensures
        d.allow,
        d.reason@ == reason@,
        d.at == at,
{
    Decision { allow: true, reason: reason.to_owned(), at }
}

fn deny(reason: &str, at: String) -> (d: Decision)
    ensures
        !d.allow,
        d.reason@ == reason@,
        d.at == at,
{
    Decision { allow: false, reason: reason.to_owned(), at }
}

impl PolicyFile {
    /// Evaluates `req`, stamping the decision with the current time.
    pub fn evaluate(&self, req: &RequestContext) -> (d: Decision)
        ensures
            d.allow == (denial(self.firewall, *req) is None),
            d.reason@ == verdict_reason(self.firewall, *req),
    {
        let at = rfc3339_now();
        self.evaluate_at(req, at)
    }

    /// Evaluates `req`, stamping the decision with `at`. The rules are tried in
    /// a fixed order and the first that fails gives the reason.
    pub fn evaluate_at(&self, req: &RequestContext, at: String) -> (d: Decision)
        ensures
            d.allow == (denial(self.firewall, *req) is None),
            d.reason@ == verdict_reason(self.firewall, *req),
            d.at == at,
    {
        let policy = &self.firewall;
        if req.body_len > policy.max_body_bytes {
            return deny("body_too_large", at);
        }
        if policy.require_origin {
            match &req.origin {
                Some(origin) => {
                    if !contains_name(&policy.allowed_origins, origin) {
                        return deny("origin_not_allowed", at);
                    }
                },
                None => {
                    return deny("origin_not_allowed", at);
                },
            }
        }
        if policy.require_signature && !req.has_valid_signature {
            return deny("signature_missing_or_invalid", at);
        }
        if contains_name(&policy.deny_tools, &req.method) {
            return deny("tool_explicitly_denied", at);
        }
        if policy.allow_tools.len() != 0 && !contains_name(&policy.allow_tools, &req.method) {
            return deny("tool_not_in_allowlist", at);
        }
        if let Some(path) = &req.path {
            if policy.allowed_paths.len() != 0 && !contains_prefix_of(&policy.allowed_paths, path) {
                return deny("path_not_allowed", at);
            }
        }
        allow("policy_pass", at)
    }
}

/// The view of an optional string.
pub open spec fn opt_view(s: Option<String>) -> Option<Seq<char>> {
    match s {
        Some(t) => Some(t@),
        None => None,
    }
}

/// Two contexts that hold the same values.
pub open spec fn same_context(a: RequestContext, b: RequestContext) -> bool {
    &&& a.method@ == b.method@
    &&& opt_view(a.path) == opt_view(b.path)
    &&& opt_view(a.origin) == opt_view(b.origin)
    &&& a.body_len == b.body_len
    &&& a.has_valid_signature == b.has_valid_signature
}

/// Evaluation is a function of its inputs: contexts that hold the same values
/// get the same decision and the same reason.
pub proof fn lemma_evaluation_is_pure(p: FirewallPolicy, a: RequestContext, b: RequestContext)
    requires
        same_context(a, b),
    ensures
        denial(p, a) == denial(p, b),
        verdict_reason(p, a) == verdict_reason(p, b),
{
    assert(origin_ok(p, a) == origin_ok(p, b));
    assert(path_ok(p, a) == path_ok(p, b));
}

/// A method that is both denied and allowed is denied as explicitly denied,
/// once the size, origin and signature rules, which come first, have passed.
pub proof fn lemma_deny_beats_allow(p: FirewallPolicy, r: RequestContext)
    requires
        has_name(p.deny_tools@, r.method@),
        has_name(p.allow_tools@, r.method@),
        r.body_len <= p.max_body_bytes,
        origin_ok(p, r),
        !p.require_signature || r.has_valid_signature,
    ensures
        denial(p, r) == Some("tool_explicitly_denied"@),
{
}

} // verus!
