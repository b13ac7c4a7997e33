//! A deterministic state-transition engine for a multi-stage hiring
//! pipeline: identities register as applicants or employers, employers post
//! jobs with a fixed number of interview rounds, applicants apply, and
//! employers advance or reject applicants until each reaches a terminal
//! state. The whole system state lives in one document value; every
//! operation validates, then mutates it, or leaves it untouched and returns
//! a typed error.

pub mod engine;
pub mod instruction;
pub mod state;
