//! Measurement extraction: decoding a datapath report into a
//! [`GenericCongAvoidMeasurements`] snapshot.
//!
//! A report arrives as an opaque portus payload; the active program
//! binding (a portus `Scope`) maps the six field names to datapath
//! registers. [`get_fields`] reads the six fields in a fixed order; a
//! missing field means the catalog and the binding have drifted apart, a
//! fatal condition for that report. The raw register values are combined
//! into a measurement by [`measurements_from_raw`], whose contract is
//! exact.

use vstd::prelude::*;

use crate::{BindingMismatchError, GenericCongAvoidMeasurements};

verus! {

/// portus's `Report`: the opaque, arrived-once payload of one report.
#[verifier::external_type_specification]
#[verifier::external_body]
pub struct ExReport(portus::Report);

/// portus's `Scope`: the binding from field names to datapath registers,
/// valid until the next program install.
#[verifier::external_type_specification]
#[verifier::external_body]
pub struct ExScope(portus::lang::Scope);

/// portus's error type.
#[verifier::external_type_specification]
#[verifier::external_body]
pub struct ExError(portus::Error);

/// Relies on portus::Report::get_field: it looks the named field up in
/// the binding and reads that register's slot from the report, failing
/// when the name is unbound, names a non-report register, or the report
/// is shorter than the binding or belongs to another program. Which value
/// comes back depends on the report's opaque contents, so nothing is
/// promised of it.
pub assume_specification[ portus::Report::get_field ](
    m: &portus::Report,
    field: &str,
    sc: &portus::lang::Scope,
) -> (r: Result<u64, portus::Error>)
;

/// Combine the six raw register values into a measurement: each counter
/// is the register value truncated to 32 bits, and the timeout flag is
/// set exactly when the timeout register reads one.
pub fn measurements_from_raw(
    acked: u64,
    sacked: u64,
    loss: u64,
    timeout: u64,
    rtt: u64,
    inflight: u64,
) -> (m: GenericCongAvoidMeasurements)
    ensures
        m.acked == acked as u32,
        m.sacked == sacked as u32,
        m.loss == loss as u32,
        m.was_timeout == (timeout as u32 == 1),
        m.rtt == rtt as u32,
        m.inflight == inflight as u32,
{
    let timeout_flag: u32 = #[verifier::truncate] (timeout as u32);
    GenericCongAvoidMeasurements {
        acked: #[verifier::truncate] (acked as u32),
        was_timeout: timeout_flag == 1,
        sacked: #[verifier::truncate] (sacked as u32),
        loss: #[verifier::truncate] (loss as u32),
        rtt: #[verifier::truncate] (rtt as u32),
        inflight: #[verifier::truncate] (inflight as u32),
    }
}

/// Decode a report through the active binding: read the six fields
/// (acked, sacked, loss, timeout, rtt, inflight) in that fixed order and
/// build the measurement from their raw values. Any missing field is
/// catalog/binding drift and aborts the cycle with
/// [`BindingMismatchError`]; the values themselves are whatever the
/// datapath accumulated, so nothing more is promised of the `Ok` payload
/// than [`measurements_from_raw`] states of the raw values.
pub fn get_fields(m: &portus::Report, sc: &portus::lang::Scope) -> (r: Result<
    GenericCongAvoidMeasurements,
    BindingMismatchError,
>) {
    let acked: u64 = match m.get_field("Report.acked", sc) {
        Ok(v) => v,
        Err(_) => {
            return Err(BindingMismatchError);
        },
    };
    let sacked: u64 = match m.get_field("Report.sacked", sc) {
        Ok(v) => v,
        Err(_) => {
            return Err(BindingMismatchError);
        },
    };
    let loss: u64 = match m.get_field("Report.loss", sc) {
        Ok(v) => v,
        Err(_) => {
            return Err(BindingMismatchError);
        },
    };
    let timeout: u64 = match m.get_field("Report.timeout", sc) {
        Ok(v) => v,
        Err(_) => {
            return Err(BindingMismatchError);
        },
    };
    let rtt: u64 = match m.get_field("Report.rtt", sc) {
        Ok(v) => v,
        Err(_) => {
            return Err(BindingMismatchError);
        },
    };
    let inflight: u64 = match m.get_field("Report.inflight", sc) {
        Ok(v) => v,
        Err(_) => {
            return Err(BindingMismatchError);
        },
    };
    Ok(measurements_from_raw(acked, sacked, loss, timeout, rtt, inflight))
}

} // verus!
