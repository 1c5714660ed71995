//! Device orchestration core of a 1-wire temperature-monitoring node: the
//! checksummed configuration slot, the configuration model with its
//! boot-failure escalation, the sensor acquisition engine, the connectivity
//! state machine and the watchdog decisions.
pub mod acquire;
pub mod config;
pub mod connect;
pub mod ident;
pub mod readings;
pub mod store;
pub mod telemetry;
pub mod watchdog;
