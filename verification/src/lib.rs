//! Core coordination logic of a particulate-matter telemetry node.
//!
//! The node samples a dust sensor periodically, shares the latest reading
//! between concurrent activities through a lock-guarded cell, funnels
//! `Tick` and `NewMeasurement` events into a single reactor that decides
//! every indicator-light change and broker publish, and renders a status
//! page on demand.  This crate holds the decision and data logic, verified;
//! the hardware and network plumbing around it lives outside.

pub mod cell;
pub mod color;
pub mod config;
pub mod event;
pub mod measurement;
pub mod model;
pub mod poller;
pub mod reactor;
pub mod responder;
pub mod text;
pub mod topic;
