//! The guardrail evaluator: six independent checks, run in a fixed order; the
//! first one that fails is the reason reported.
use crate::host::{parse_host, text_of, url_host};
use crate::profile::{Profile, RuntimeFlags};
use crate::text::{contains_ignoring_case, listed_ignoring_case};
use vstd::prelude::*;

verus! {

/// Why a profile, under given flags, may not proceed.
#[derive(Debug, Clone, Copy, PartialEq, Eq, Structural)]
pub enum Rejection {
    /// The profile demands sandbox mode and it was not requested.
    SandboxRequired,
    /// The base URL does not parse to a scheme and a host.
    InvalidBaseUrl,
    /// The base URL's host is not on the allowlist.
    HostNotAllowed,
    /// The method is not among the allowed methods.
    MethodNotAllowed,
    /// The rate exceeds the profile's rate ceiling.
    RateCeilingExceeded,
    /// The request budget is zero.
    EmptyBudget,
}

/// The evaluator's decision.
#[derive(Debug, Clone, Copy, PartialEq, Eq, Structural)]
pub enum Verdict {
    Permitted,
    Rejected(Rejection),
}

/// Position of each check in the evaluation order.
pub open spec fn rank(k: Rejection) -> nat {
    match k {
        Rejection::SandboxRequired => 0,
        Rejection::InvalidBaseUrl => 1,
        Rejection::HostNotAllowed => 2,
        Rejection::MethodNotAllowed => 3,
        Rejection::RateCeilingExceeded => 4,
        Rejection::EmptyBudget => 5,
    }
}

/// Whether the check that rejects with `k` fails, given the parsed `host` of
/// the base URL (`None` where it does not parse). The allowlist check only
/// applies to a host that exists.
pub open spec fn violates(p: Profile, f: RuntimeFlags, host: Option<Seq<char>>, k: Rejection) -> bool {
    match k {
        Rejection::SandboxRequired => p.safety.require_sandbox_flag && !f.sandbox_requested,
        Rejection::InvalidBaseUrl => host is None,
        Rejection::HostNotAllowed => match host {
            Some(h) => !listed_ignoring_case(p.safety.allowlist_hosts@, h),
            None => false,
        },
        Rejection::MethodNotAllowed => !listed_ignoring_case(p.limits.allowed_methods@, p.method@),
        Rejection::RateCeilingExceeded => p.limits.rate_per_sec > p.limits.max_rate_per_sec,
        Rejection::EmptyBudget => p.limits.request_budget == 0,
    }
}

/// The checks in order, given the parsed host of the base URL.
pub open spec fn verdict_for(p: Profile, f: RuntimeFlags, host: Option<Seq<char>>) -> Verdict {
    if violates(p, f, host, Rejection::SandboxRequired) {
        Verdict::Rejected(Rejection::SandboxRequired)
    } else if violates(p, f, host, Rejection::InvalidBaseUrl) {
        Verdict::Rejected(Rejection::InvalidBaseUrl)
    } else if violates(p, f, host, Rejection::HostNotAllowed) {
        Verdict::Rejected(Rejection::HostNotAllowed)
    } else if violates(p, f, host, Rejection::MethodNotAllowed) {
        Verdict::Rejected(Rejection::MethodNotAllowed)
    } else if violates(p, f, host, Rejection::RateCeilingExceeded) {
        Verdict::Rejected(Rejection::RateCeilingExceeded)
    } else if violates(p, f, host, Rejection::EmptyBudget) {
        Verdict::Rejected(Rejection::EmptyBudget)
    } else {
        Verdict::Permitted
    }
}

/// The verdict on a profile under the given flags.
pub open spec fn evaluation(p: Profile, f: RuntimeFlags) -> Verdict {
    verdict_for(p, f, url_host(p.base_url@))
}

/// Runs the checks on a profile, with `host` the already parsed host of its
/// base URL (`None` where the base URL has none).
pub fn decide(p: &Profile, flags: &RuntimeFlags, host: &Option<String>) -> (r: Verdict)
    ensures
        r == verdict_for(*p, *flags, text_of(*host)),
{
    if p.safety.require_sandbox_flag && !flags.sandbox_requested {
        return Verdict::Rejected(Rejection::SandboxRequired);
    }
    let h = match host {
        Some(h) => h,
        None => {
            return Verdict::Rejected(Rejection::InvalidBaseUrl);
        },
    };
    if !contains_ignoring_case(&p.safety.allowlist_hosts, h.as_str()) {
        return Verdict::Rejected(Rejection::HostNotAllowed);
    }
    if !contains_ignoring_case(&p.limits.allowed_methods, p.method.as_str()) {
        return Verdict::Rejected(Rejection::MethodNotAllowed);
    }
    if p.limits.rate_per_sec > p.limits.max_rate_per_sec {
        return Verdict::Rejected(Rejection::RateCeilingExceeded);
    }
    if p.limits.request_budget == 0 {
        return Verdict::Rejected(Rejection::EmptyBudget);
    }
    Verdict::Permitted
}

/// Decides whether a session on profile `p` may begin under `flags`.
pub fn evaluate(p: &Profile, flags: &RuntimeFlags) -> (r: Verdict)
    ensures
        r == evaluation(*p, *flags),
{
    if p.safety.require_sandbox_flag && !flags.sandbox_requested {
        return Verdict::Rejected(Rejection::SandboxRequired);
    }
    let host = parse_host(p.base_url.as_str());
    decide(p, flags, &host)
}

} // verus!
