//! Freshness checking for a large catalog of web-syndication feeds:
//! select a bounded, time-filtered candidate set from a persisted catalog,
//! probe each candidate's live HTTP endpoint with the cheapest request
//! that yields a reliable answer, and classify every candidate as
//! unchanged, changed, unreachable, or a protocol error — exactly one
//! outcome per candidate, even when every probe fails.

pub mod catalog;
pub mod model;
pub mod orchestrator;
pub mod prober;
