//! Core of a captive-portal keep-alive service: a strict lifecycle state
//! machine, a bounded activity log, connectivity-probe parsing, and the
//! decision logic of the supervised background worker. All I/O (the HTTP
//! probes and kicks, the adapter query, notifications) lives outside this
//! crate; callers feed the outcomes back in as plain values.

pub mod activity;
pub mod clock;
pub mod laws;
pub mod machine;
pub mod service;
pub mod wifi;
