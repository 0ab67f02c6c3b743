//! Core logic of a fingerprint enrollment manager: the error taxonomy for the
//! remote fingerprint service, the finger catalog, user directory resolution,
//! and the claim/release, enrollment, deletion and clear-all session flows,
//! modelled as signal-driven state machines whose remote calls are performed
//! by the surrounding (unverified) bus plumbing.

pub mod clear;
pub mod enroll;
pub mod error;
pub mod guard;
pub mod model;
pub mod page;
pub mod text;
pub mod users;
