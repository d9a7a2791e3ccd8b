//! The profile model: one target's operating and safety policy, plus the
//! per-invocation runtime flags.
use std::collections::HashMap;
use vstd::prelude::*;

verus! {

/// Traffic and method limits of a target.
#[derive(Debug, Clone)]
pub struct Limits {
    pub concurrency: usize,
    pub rate_per_sec: u32,
    pub request_budget: u32,
    pub max_rate_per_sec: u32,
    /// Verb names, compared without regard to ASCII case.
    pub allowed_methods: Vec<String>,
}

/// Timeouts carried for the transport; the evaluator does not read them.
#[derive(Debug, Clone, Copy, PartialEq, Eq)]
pub struct Timeouts {
    pub connect_ms: u64,
    pub read_ms: u64,
}

/// Safety rules of a target.
#[derive(Debug, Clone)]
pub struct Safety {
    pub require_sandbox_flag: bool,
    /// Host names, compared without regard to ASCII case.
    pub allowlist_hosts: Vec<String>,
    /// Headers forced onto every request; empty when the profile names none.
    pub force_headers: HashMap<String, String>,
}

/// One target's policy, as loaded from its configuration document.
#[derive(Debug, Clone)]
pub struct Profile {
    pub name: String,
    pub base_url: String,
    pub endpoint: String,
    pub method: String,
    pub limits: Limits,
    pub timeouts: Timeouts,
    pub safety: Safety,
}

/// Flags supplied once per invocation.
#[derive(Debug, Clone, Copy, PartialEq, Eq)]
pub struct RuntimeFlags {
    pub sandbox_requested: bool,
    pub dry_run: bool,
}

} // verus!
