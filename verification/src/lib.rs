//! Client-side helpers for a license-authentication front end: a hardware
//! fingerprint, user-facing explanations of failure codes, and the decisions
//! of the interactive sign-in and registration flows.

pub mod text;
pub mod hwid;
pub mod explain;
pub mod flow;
