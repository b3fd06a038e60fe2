//! A pluggable congestion-control controller that runs outside the datapath.
//!
//! The datapath counts packets, acks and losses according to an installed
//! accounting program and periodically emits a report. This library decodes
//! each report into a measurement, runs a congestion-avoidance algorithm
//! (slow start, loss and timeout handling, deficit-gated reduction), and
//! decides which accounting program to install and which window value to
//! write back. The IPC transport, the HTTP telemetry fetch and logging are
//! the caller's side of the boundary: the controller takes a measurement,
//! an optional telemetry sample and the current time, and returns the
//! actions for the caller to perform.

use vstd::prelude::*;

pub mod arith;
pub mod extract;
pub mod flow;
pub mod laws;
pub mod programs;
pub mod reno;
pub mod strategy;

verus! {

/// Default slow-start threshold when no explicit value is configured:
/// the largest positive 31-bit value, effectively "no threshold".
pub const DEFAULT_SS_THRESH: u32 = 0x7fff_ffff;

/// The utilization unit of `NetworkStatus::link_utilization`: a fully
/// utilized link reports this value (a half-utilized link reports 500).
pub const UTILIZATION_SCALE: u32 = 1000;

/// Externally sampled network telemetry. Each sample is an independent
/// snapshot; it has no persisted identity.
///
/// `link_utilization` is the link-utilization fraction in thousandths of
/// full utilization (see [`UTILIZATION_SCALE`]); values above the scale
/// mean an overloaded link. `queue_length` is the queue backlog in bytes;
/// a negative value means the backlog is unknown.
#[derive(Clone, Copy, Debug, PartialEq, Eq, Structural)]
pub struct NetworkStatus {
    pub link_utilization: u32,
    pub queue_length: i32,
}

/// One measurement snapshot decoded from a datapath report: newly acked
/// bytes, misordered (sacked) packets, lost packets, the timeout flag, the
/// sampled round-trip time in microseconds, and packets in flight.
#[derive(Clone, Copy, Debug, PartialEq, Eq, Structural)]
pub struct GenericCongAvoidMeasurements {
    pub acked: u32,
    pub was_timeout: bool,
    pub sacked: u32,
    pub loss: u32,
    pub rtt: u32,
    pub inflight: u32,
}

/// When the datapath emits a report in steady state: on every ack, once
/// per measured round-trip time, or on a fixed interval in microseconds.
#[derive(Clone, Copy, Debug, PartialEq, Eq, Structural)]
pub enum GenericCongAvoidConfigReport {
    Ack,
    Rtt,
    Interval(u32),
}

/// Who drives slow start: the datapath itself (the controller takes over
/// at the first report), or the controller from the first report on.
#[derive(Clone, Copy, Debug, PartialEq, Eq, Structural)]
pub enum GenericCongAvoidConfigSS {
    Datapath,
    Ccp,
}

/// A required report field was absent from the current program binding.
/// This indicates catalog/binding drift, not a transient fault: the report
/// cannot be decoded and the cycle is aborted.
#[derive(Clone, Copy, Debug, PartialEq, Eq, Structural)]
pub struct BindingMismatchError;

} // verus!
