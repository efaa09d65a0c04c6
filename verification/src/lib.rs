//! Declarative assertions on the state of cloud resources: each expectation
//! names a resource and the statuses it may be in; a check compares the live
//! status with the expectation, and a report collects the outcomes.

pub mod client;
pub mod document;
pub mod error;
pub mod operator;
pub mod report;
pub mod spec;
