//! Supervisory core of a login-session manager.
//!
//! The daemon starts a privileged greeter process on a virtual terminal,
//! accepts a request to switch to an authenticated user's login session, and
//! brokers the handover between the two processes. This crate holds the
//! verified decision logic: the orchestration state machine over the greeter
//! handle, the session handle and the pending session request, and the
//! mapping from observed signals to state-machine operations. The event loop
//! that performs the decided actions (launching processes, arming timers,
//! sending signals, switching the terminal mode, exiting) lives outside.

pub mod context;
pub mod session;
pub mod signals;
