//! Laws of the evaluator, stated over `evaluation`, the verdict that
//! `evaluate` returns.
use crate::guardrail::{evaluation, rank, violates, Rejection, Verdict};
use crate::host::url_host;
use crate::profile::{Profile, RuntimeFlags};
use vstd::prelude::*;

verus! {

/// A profile that demands sandbox mode, evaluated without it, is rejected
/// with `SandboxRequired` whatever its other fields hold.
pub proof fn sandbox_rule_overrides_all(p: Profile, f: RuntimeFlags)
    requires
        p.safety.require_sandbox_flag,
        !f.sandbox_requested,
    ensures
        evaluation(p, f) == Verdict::Rejected(Rejection::SandboxRequired),
{
}

/// A base URL from which no host can be parsed is rejected with
/// `InvalidBaseUrl`, unless the sandbox rule, which runs first, already
/// rejects.
pub proof fn unparsable_url_rejected(p: Profile, f: RuntimeFlags)
    requires
        url_host(p.base_url@) is None,
        !(p.safety.require_sandbox_flag && !f.sandbox_requested),
    ensures
        evaluation(p, f) == Verdict::Rejected(Rejection::InvalidBaseUrl),
{
}

/// A profile is permitted exactly when no check fails; when several fail,
/// the single reason reported is the failing check that comes first.
pub proof fn earliest_violation_reported(p: Profile, f: RuntimeFlags)
    ensures
        evaluation(p, f) == Verdict::Permitted <==> forall|k: Rejection|
            !#[trigger] violates(p, f, url_host(p.base_url@), k),
        forall|k: Rejection|
            evaluation(p, f) == Verdict::Rejected(k) ==> {
                &&& violates(p, f, url_host(p.base_url@), k)
                &&& forall|j: Rejection|
                    rank(j) < rank(k) ==> !#[trigger] violates(p, f, url_host(p.base_url@), j)
            },
{
    let h = url_host(p.base_url@);
    assert forall|k: Rejection|
        evaluation(p, f) == Verdict::Rejected(k) implies {
            &&& violates(p, f, h, k)
            &&& forall|j: Rejection| rank(j) < rank(k) ==> !#[trigger] violates(p, f, h, j)
        } by {
        assert forall|j: Rejection| rank(j) < rank(k) implies !#[trigger] violates(p, f, h, j) by {
            match j {
                Rejection::SandboxRequired => {},
                Rejection::InvalidBaseUrl => {},
                Rejection::HostNotAllowed => {},
                Rejection::MethodNotAllowed => {},
                Rejection::RateCeilingExceeded => {},
                Rejection::EmptyBudget => {},
            }
        }
    }
    if evaluation(p, f) == Verdict::Permitted {
        assert forall|k: Rejection| !#[trigger] violates(p, f, h, k) by {
            match k {
                Rejection::SandboxRequired => {},
                Rejection::InvalidBaseUrl => {},
                Rejection::HostNotAllowed => {},
                Rejection::MethodNotAllowed => {},
                Rejection::RateCeilingExceeded => {},
                Rejection::EmptyBudget => {},
            }
        }
    } else {
        assert(exists|k: Rejection| violates(p, f, h, k));
    }
}

} // verus!
