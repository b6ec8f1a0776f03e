//! The admission pipeline: envelope, rate limit, signature, policy, then the
//! upstream's answer. Each request ends in exactly one reply; every reply but
//! a malformed-envelope one and an unreachable-upstream one carries one audit
//! record.

use vstd::prelude::*;
use vstd::utf8::encode_utf8;

use crate::audit::AuditEvent;
use crate::keys::{SignKey, VerifyKey};
use crate::policy::{denial, opt_view, FirewallPolicy, PolicyFile, RequestContext};
use crate::ratelimit::{bucket_key, step, RateLimiter};
use crate::foreign::bucket_at;
use crate::signing::{key_view, response_signature, sign_response, signature_valid, verify_signature};

verus! {

/// The two fields of a JSON-RPC envelope that the firewall reads: the method,
/// and `params.path` when that is a string.
#[derive(Debug, Clone)]
pub struct RpcEnvelope {
    pub method: String,
    pub path: Option<String>,
}

/// The parts of an inbound request that the pipeline reads: the raw body, and
/// the `origin`, `x-mcp-signature` and first `x-forwarded-for` header values
/// that were present and valid text.
#[derive(Debug, Clone)]
pub struct InboundRequest {
    pub body: String,
    pub origin: Option<String>,
    pub signature: Option<String>,
    pub forwarded_for: Option<String>,
}

/// What the upstream answered: its status, and its body when that was text.
#[derive(Debug, Clone)]
pub struct UpstreamReply {
    pub status: u16,
    pub body: Option<String>,
}

/// A reply to the client: a JSON body, and the base64 signature header when
/// the body was signed.
#[derive(Debug, Clone)]
pub struct Reply {
    pub status: u16,
    pub body: String,
    pub signature: Option<String>,
}

/// A finished request: the reply and the audit record to write, if any.
#[derive(Debug, Clone)]
pub struct Outcome {
    pub reply: Reply,
    pub audit: Option<AuditEvent>,
}

/// What admission decided: answer at once, or forward the body upstream,
/// with the context the policy passed.
#[derive(Debug, Clone)]
pub enum Admission {
    Respond(Outcome),
    Forward(RequestContext),
}

/// The immutable configuration: the policy and the optional keys.
pub struct Firewall {
    pub policy: PolicyFile,
    pub verify_key: Option<VerifyKey>,
    pub sign_key: Option<SignKey>,
}

/// The request context that the policy evaluates for an envelope and request.
pub open spec fn request_context(env: RpcEnvelope, req: InboundRequest, key: Option<Seq<u8>>) -> RequestContext {
    RequestContext {
        method: env.method,
        path: env.path,
        origin: req.origin,
        body_len: encode_utf8(req.body@).len() as usize,
        has_valid_signature: signature_valid(key, opt_view(req.signature), encode_utf8(req.body@)),
    }
}

/// `r` is a reply with `status`, the JSON body `{"error":<code>}` and no signature.
pub open spec fn error_reply(r: Reply, status: u16, code: Seq<char>) -> bool {
    &&& r.status == status
    &&& r.body@ == "{\"error\":\""@ + code + "\"}"@
    &&& r.signature is None
}

/// `e` records the decision `reason` for `method` and `origin`, with an empty
/// timestamp for the sink to fill in.
pub open spec fn audit_record(
    e: AuditEvent,
    request_id: String,
    method: String,
    allowed: bool,
    reason: Seq<char>,
    origin: Option<String>,
    upstream_status: Option<u16>,
) -> bool {
    &&& e.request_id == request_id
    &&& e.method == method
    &&& e.allowed == allowed
    &&& e.reason@ == reason
    &&& e.origin == origin
    &&& e.upstream_status == upstream_status
    &&& e.timestamp@.len() == 0
}

/// `r` refuses the request with `status` and the error `code`, and records
/// the specific `reason` in one audit record.
pub open spec fn refusal(
    r: Admission,
    status: u16,
    code: Seq<char>,
    request_id: String,
    method: String,
    reason: Seq<char>,
    origin: Option<String>,
) -> bool {
    match r {
        Admission::Respond(o) => error_reply(o.reply, status, code) && match o.audit {
            Some(e) => audit_record(e, request_id, method, false, reason, origin, None),
            None => false,
        },
        Admission::Forward(_) => false,
    }
}

fn clone_text(s: &Option<String>) -> (r: Option<String>)
    ensures
        r == *s,
{
    match s {
        Some(t) => Some(t.clone()),
        None => None,
    }
}

fn error_body(code: &str) -> (r: String)
    ensures
        r@ == "{\"error\":\""@ + code@ + "\"}"@,
{
    let mut body = "{\"error\":\"".to_owned();
    body.append(code);
    body.append("\"}");
    body
}

impl Firewall {
    /// The configured public key's bytes, if any.
    pub open spec fn verify_key_view(&self) -> Option<Seq<u8>> {
        match self.verify_key {
            Some(k) => Some(k@),
            None => None,
        }
    }

    /// The configured secret key's bytes, if any.
    pub open spec fn sign_key_view(&self) -> Option<Seq<u8>> {
        match self.sign_key {
            Some(k) => Some(k@),
            None => None,
        }
    }

    /// Admits or refuses one request at monotonic instant `now`. A missing
    /// envelope (malformed body) gives 400 with no audit record and no count.
    /// Otherwise the request is counted against its client's and method's
    /// bucket; a limited one gives 429, one the policy denies gives 403, each
    /// with an audit record of the specific reason; any other is forwarded.
    pub fn screen(
        &self,
        limiter: &mut RateLimiter,
        envelope: Option<RpcEnvelope>,
        req: &InboundRequest,
        request_id: String,
        now: u64,
    ) -> (r: Admission)
        ensures
            match envelope {
                None => {
                    &&& final(limiter)@ == old(limiter)@
                    &&& r matches Admission::Respond(o) && o.audit is None
                        && error_reply(o.reply, 400, "invalid_json_rpc_request"@)
                },
                Some(env) => {
                    let key = bucket_key(opt_view(req.forwarded_for), env.method@);
                    let (next, limited) = step(
                        bucket_at(old(limiter)@, key),
                        now,
                        self.policy.firewall.rate_limit_per_minute,
                    );
                    let ctx = request_context(env, *req, self.verify_key_view());
                    &&& final(limiter)@ == old(limiter)@.insert(key, next)
                    &&& if limited {
                        refusal(r, 429, "rate_limited"@, request_id, env.method, "rate_limited"@, req.origin)
                    } else {
                        match denial(self.policy.firewall, ctx) {
                            Some(reason) => refusal(
                                r, 403, "blocked_by_policy"@, request_id, env.method, reason, req.origin),
                            None => r == Admission::Forward(ctx),
                        }
                    }
                },
            },
    {
        let env = match envelope {
            None => {
                let reply = Reply { status: 400, body: error_body("invalid_json_rpc_request"), signature: None };
                return Admission::Respond(Outcome { reply, audit: None });
            },
            Some(e) => e,
        };
        let forwarded_for = match &req.forwarded_for {
            Some(f) => Some(f.as_str()),
            None => None,
        };
        let limit = self.policy.firewall.rate_limit_per_minute;
        if limiter.is_rate_limited(forwarded_for, env.method.as_str(), limit, now) {
            let audit = AuditEvent {
                request_id,
                method: env.method,
                allowed: false,
                reason: "rate_limited".to_owned(),
                origin: clone_text(&req.origin),
                upstream_status: None,
                timestamp: String::new(),
            };
            let reply = Reply { status: 429, body: error_body("rate_limited"), signature: None };
            return Admission::Respond(Outcome { reply, audit: Some(audit) });
        }
        let header = match &req.signature {
            Some(s) => Some(s.as_str()),
            None => None,
        };
        let key = match &self.verify_key {
            Some(k) => Some(k),
            None => None,
        };
        let valid = verify_signature(key, header, req.body.as_str());
        let ctx = RequestContext {
            method: env.method.clone(),
            path: env.path,
            origin: clone_text(&req.origin),
            body_len: req.body.as_str().len(),
            has_valid_signature: valid,
        };
        let decision = self.policy.evaluate(&ctx);
        if !decision.allow {
            let audit = AuditEvent {
                request_id,
                method: env.method,
                allowed: false,
                reason: decision.reason,
                origin: clone_text(&req.origin),
                upstream_status: None,
                timestamp: String::new(),
            };
            let reply = Reply { status: 403, body: error_body("blocked_by_policy"), signature: None };
            return Admission::Respond(Outcome { reply, audit: Some(audit) });
        }
        Admission::Forward(ctx)
    }

    /// Finishes a forwarded request with what the upstream answered. An
    /// unreachable upstream (`None`) gives 502 and no audit record. Otherwise
    /// the upstream's status and body (`{}` when the body was not text) go back
    /// to the client, signed when a secret key is configured and the policy
    /// asks for it, and one audit record notes the forward and the status.
    pub fn complete(&self, context: RequestContext, request_id: String, upstream: Option<UpstreamReply>) -> (o: Outcome)
        ensures
            match upstream {
                None => o.audit is None && error_reply(o.reply, 502, "upstream_unreachable"@),
                Some(u) => {
                    let body = match u.body {
                        Some(b) => b@,
                        None => "{}"@,
                    };
                    &&& o.reply.status == u.status
                    &&& o.reply.body@ == body
                    &&& opt_view(o.reply.signature) == response_signature(
                        self.sign_key_view(),
                        self.policy.firewall.sign_responses,
                        body,
                    )
                    &&& o.audit is Some
                    &&& audit_record(
                        o.audit->0,
                        request_id,
                        context.method,
                        true,
                        "forwarded"@,
                        context.origin,
                        Some(u.status),
                    )
                },
            },
    {
        let upstream = match upstream {
            None => {
                let reply = Reply { status: 502, body: error_body("upstream_unreachable"), signature: None };
                return Outcome { reply, audit: None };
            },
            Some(u) => u,
        };
        let body = match upstream.body {
            Some(b) => b,
            None => "{}".to_owned(),
        };
        let key = match &self.sign_key {
            Some(k) => Some(k),
            None => None,
        };
        let signature = sign_response(key, self.policy.firewall.sign_responses, body.as_str());
        let audit = AuditEvent {
            request_id,
            method: context.method,
            allowed: true,
            reason: "forwarded".to_owned(),
            origin: context.origin,
            upstream_status: Some(upstream.status),
            timestamp: String::new(),
        };
        let reply = Reply { status: upstream.status, body, signature };
        Outcome { reply, audit: Some(audit) }
    }
}

/// With no public key configured every request counts as validly signed, so
/// requiring signatures denies nothing that the same policy without the
/// requirement would allow.
pub proof fn lemma_no_key_never_denies_for_signature(p: FirewallPolicy, env: RpcEnvelope, req: InboundRequest)
    ensures
        request_context(env, req, None).has_valid_signature,
        denial(p, request_context(env, req, None)) == denial(
            FirewallPolicy { require_signature: false, ..p },
            request_context(env, req, None),
        ),
{
}

/// The body forwarded upstream is the body received, so checking its
/// signature again gives the flag that the policy evaluated.
pub proof fn lemma_forwarded_body_reverifies(env: RpcEnvelope, req: InboundRequest, key: Option<Seq<u8>>)
    ensures
        request_context(env, req, key).has_valid_signature == signature_valid(
            key,
            opt_view(req.signature),
            encode_utf8(req.body@),
        ),
        request_context(env, req, key).body_len == encode_utf8(req.body@).len() as usize,
{
}

} // verus!
