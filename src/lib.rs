//! Pre-flight guardrails for a sandboxed API-fuzzing toolkit: a typed safety
//! profile and a pure evaluator that decides whether a session may begin.
pub mod guardrail;
pub mod host;
pub mod laws;
pub mod profile;
pub mod text;

pub use guardrail::{decide, evaluate, Rejection, Verdict};
pub use profile::{Limits, Profile, RuntimeFlags, Safety, Timeouts};
