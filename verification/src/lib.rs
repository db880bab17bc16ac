//! Client-side login automation for a captive-portal network access
//! controller: account derivation, probe-page and status-endpoint parsing,
//! the login orchestration state machine, and the debounce scheduler that
//! drives one attempt per settled connectivity change.

pub mod account;
pub mod net;
pub mod page;
pub mod status;
pub mod urls;
pub mod orchestrator;
pub mod scheduler;
