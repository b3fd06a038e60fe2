//! The accounting-program catalog.
//!
//! Four named, declarative programs tell the datapath what to accumulate
//! per packet event and when to emit a report. The program bodies are
//! fixed text understood by the external datapath compiler; the six report
//! fields (`acked`, `sacked`, `loss`, `timeout`, `rtt`, `inflight`) and
//! the one writable control field (`Cwnd`) are the whole vocabulary
//! exchanged across that boundary. Which program a connection runs is a
//! function of its startup mode and reporting cadence alone.

use vstd::prelude::*;

use crate::{GenericCongAvoidConfigReport, GenericCongAvoidConfigSS};

verus! {

/// The catalog's programs, by identity. The fixed-interval program
/// carries its reporting interval in microseconds.
#[derive(Clone, Copy, Debug, PartialEq, Eq, Structural)]
pub enum ProgramKind {
    /// Accumulate; report on loss/timeout or after a fixed interval.
    DatapathInterval { report_time_us: u32 },
    /// Accumulate; report on loss/timeout or after one sampled RTT.
    DatapathIntervalRtt,
    /// Report on every acknowledgment.
    AckUpdate,
    /// Datapath-driven slow start: the datapath grows the window itself
    /// and reports only on loss/timeout.
    SsUpdate,
}

/// The steady-state program selected by a reporting cadence.
pub open spec fn steady_program(r: GenericCongAvoidConfigReport) -> ProgramKind {
    match r {
        GenericCongAvoidConfigReport::Ack => ProgramKind::AckUpdate,
        GenericCongAvoidConfigReport::Rtt => ProgramKind::DatapathIntervalRtt,
        GenericCongAvoidConfigReport::Interval(us) => ProgramKind::DatapathInterval {
            report_time_us: us,
        },
    }
}

/// The program installed when a connection is admitted: the slow-start
/// program under datapath-driven startup, otherwise directly the
/// steady-state program of the configured cadence.
pub open spec fn initial_program(
    ss: GenericCongAvoidConfigSS,
    r: GenericCongAvoidConfigReport,
) -> ProgramKind {
    match ss {
        GenericCongAvoidConfigSS::Datapath => ProgramKind::SsUpdate,
        GenericCongAvoidConfigSS::Ccp => steady_program(r),
    }
}

/// Select the steady-state program for a cadence.
pub fn select_steady_program(r: GenericCongAvoidConfigReport) -> (p: ProgramKind)
    ensures
        p == steady_program(r),
{
    match r {
        GenericCongAvoidConfigReport::Ack => ProgramKind::AckUpdate,
        GenericCongAvoidConfigReport::Rtt => ProgramKind::DatapathIntervalRtt,
        GenericCongAvoidConfigReport::Interval(us) => ProgramKind::DatapathInterval {
            report_time_us: us,
        },
    }
}

/// Select the program to install when a connection is admitted.
pub fn select_initial_program(
    ss: GenericCongAvoidConfigSS,
    r: GenericCongAvoidConfigReport,
) -> (p: ProgramKind)
    ensures
        p == initial_program(ss, r),
{
    match ss {
        GenericCongAvoidConfigSS::Datapath => ProgramKind::SsUpdate,
        GenericCongAvoidConfigSS::Ccp => select_steady_program(r),
    }
}

/// The catalog name of a program.
pub open spec fn program_name_spec(p: ProgramKind) -> Seq<char> {
    match p {
        ProgramKind::DatapathInterval { .. } => "DatapathIntervalProg"@,
        ProgramKind::DatapathIntervalRtt => "DatapathIntervalRTTProg"@,
        ProgramKind::AckUpdate => "AckUpdateProg"@,
        ProgramKind::SsUpdate => "SSUpdateProg"@,
    }
}

/// The catalog name under which a program is registered with the datapath.
pub fn program_name(p: &ProgramKind) -> (r: &'static str)
    ensures
        r@ == program_name_spec(*p),
{
    match p {
        ProgramKind::DatapathInterval { .. } => "DatapathIntervalProg",
        ProgramKind::DatapathIntervalRtt => "DatapathIntervalRTTProg",
        ProgramKind::AckUpdate => "AckUpdateProg",
        ProgramKind::SsUpdate => "SSUpdateProg",
    }
}

/// The install-time parameter a program needs: the fixed-interval program
/// binds its reporting interval to the `reportTime` register; the other
/// programs take no parameter.
pub open spec fn program_interval(p: ProgramKind) -> Option<u32> {
    match p {
        ProgramKind::DatapathInterval { report_time_us } => Some(report_time_us),
        _ => None,
    }
}

/// The parameter binding to install with a program.
pub fn program_params(p: &ProgramKind) -> (r: Option<(&'static str, u32)>)
    ensures
        match r {
            Some(pair) => pair.0@ == "reportTime"@ && program_interval(*p) == Some(pair.1),
            None => program_interval(*p) is None,
        },
{
    match p {
        ProgramKind::DatapathInterval { report_time_us } => Some(("reportTime", *report_time_us)),
        ProgramKind::DatapathIntervalRtt => None,
        ProgramKind::AckUpdate => None,
        ProgramKind::SsUpdate => None,
    }
}

/// The body of the fixed-interval program: accumulate on every event;
/// report and reset when a loss or timeout occurs, or when the elapsed
/// microseconds exceed the `reportTime` register.
pub const DATAPATH_INTERVAL_PROG: &'static str = "
                (def
                (Report
                    (volatile acked 0)
                    (volatile sacked 0)
                    (volatile loss 0)
                    (volatile timeout false)
                    (volatile rtt 0)
                    (volatile inflight 0)
                )
                (reportTime 0)
                )
                (when true
                    (:= Report.inflight Flow.packets_in_flight)
                    (:= Report.rtt Flow.rtt_sample_us)
                    (:= Report.acked (+ Report.acked Ack.bytes_acked))
                    (:= Report.sacked (+ Report.sacked Ack.packets_misordered))
                    (:= Report.loss Ack.lost_pkts_sample)
                    (:= Report.timeout Flow.was_timeout)
                    (fallthrough)
                )
                (when (|| Report.timeout (> Report.loss 0))
                    (report)
                    (:= Micros 0)
                )
                (when (> Micros reportTime)
                    (report)
                    (:= Micros 0)
                )
            ";

/// The body of the per-RTT program: as the fixed-interval program, but the
/// reporting threshold is the most recently sampled RTT.
pub const DATAPATH_INTERVAL_RTT_PROG: &'static str = "
                (def (Report
                    (volatile acked 0)
                    (volatile sacked 0)
                    (volatile loss 0)
                    (volatile timeout false)
                    (volatile rtt 0)
                    (volatile inflight 0)
                ))
                (when true
                    (:= Report.inflight Flow.packets_in_flight)
                    (:= Report.rtt Flow.rtt_sample_us)
                    (:= Report.acked (+ Report.acked Ack.bytes_acked))
                    (:= Report.sacked (+ Report.sacked Ack.packets_misordered))
                    (:= Report.loss Ack.lost_pkts_sample)
                    (:= Report.timeout Flow.was_timeout)
                    (fallthrough)
                )
                (when (|| Report.timeout (> Report.loss 0))
                    (report)
                    (:= Micros 0)
                )
                (when (> Micros Flow.rtt_sample_us)
                    (report)
                    (:= Micros 0)
                )
            ";

/// The body of the per-ack program: report on every acknowledgment.
pub const ACK_UPDATE_PROG: &'static str = "
                (def (Report
                    (volatile acked 0)
                    (volatile sacked 0)
                    (volatile loss 0)
                    (volatile timeout false)
                    (volatile rtt 0)
                    (volatile inflight 0)
                ))
                (when true
                    (:= Report.acked (+ Report.acked Ack.bytes_acked))
                    (:= Report.sacked (+ Report.sacked Ack.packets_misordered))
                    (:= Report.loss Ack.lost_pkts_sample)
                    (:= Report.timeout Flow.was_timeout)
                    (:= Report.rtt Flow.rtt_sample_us)
                    (:= Report.inflight Flow.packets_in_flight)
                    (report)
                )
            ";

/// The body of the slow-start program: the datapath grows the window
/// itself on every acked byte and reports only on loss or timeout. It is
/// the only program that writes `Cwnd` on the datapath side.
pub const SS_UPDATE_PROG: &'static str = "
                (def (Report
                    (volatile acked 0)
                    (volatile sacked 0)
                    (volatile loss 0)
                    (volatile timeout false)
                    (volatile rtt 0)
                    (volatile inflight 0)
                ))
                (when true
                    (:= Report.acked (+ Report.acked Ack.bytes_acked))
                    (:= Report.sacked (+ Report.sacked Ack.packets_misordered))
                    (:= Report.loss Ack.lost_pkts_sample)
                    (:= Report.timeout Flow.was_timeout)
                    (:= Report.rtt Flow.rtt_sample_us)
                    (:= Report.inflight Flow.packets_in_flight)
                    (:= Cwnd (+ Cwnd Ack.bytes_acked))
                    (fallthrough)
                )
                (when (|| Report.timeout (> Report.loss 0))
                    (report)
                )
            ";

/// The declarative text of a program, as handed to the external datapath
/// compiler. All four programs define the same six volatile report fields.
pub open spec fn program_body_spec(p: ProgramKind) -> Seq<char> {
    match p {
        ProgramKind::DatapathInterval { .. } => DATAPATH_INTERVAL_PROG@,
        ProgramKind::DatapathIntervalRtt => DATAPATH_INTERVAL_RTT_PROG@,
        ProgramKind::AckUpdate => ACK_UPDATE_PROG@,
        ProgramKind::SsUpdate => SS_UPDATE_PROG@,
    }
}

/// The program text to register and install for a program.
pub fn program_body(p: &ProgramKind) -> (r: &'static str)
    ensures
        r@ == program_body_spec(*p),
{
    match p {
        ProgramKind::DatapathInterval { .. } => DATAPATH_INTERVAL_PROG,
        ProgramKind::DatapathIntervalRtt => DATAPATH_INTERVAL_RTT_PROG,
        ProgramKind::AckUpdate => ACK_UPDATE_PROG,
        ProgramKind::SsUpdate => SS_UPDATE_PROG,
    }
}

/// The whole catalog: each program's registered name and its body, in a
/// fixed order (fixed-interval, per-RTT, per-ack, slow-start). Pure data:
/// every entry is pinned, so each call registers the same four programs.
pub fn datapath_programs() -> (progs: Vec<(&'static str, &'static str)>)
    ensures
        progs@.len() == 4,
        progs@[0].0@ == program_name_spec(ProgramKind::DatapathInterval { report_time_us: 0 }),
        progs@[0].1@ == program_body_spec(ProgramKind::DatapathInterval { report_time_us: 0 }),
        progs@[1].0@ == program_name_spec(ProgramKind::DatapathIntervalRtt),
        progs@[1].1@ == program_body_spec(ProgramKind::DatapathIntervalRtt),
        progs@[2].0@ == program_name_spec(ProgramKind::AckUpdate),
        progs@[2].1@ == program_body_spec(ProgramKind::AckUpdate),
        progs@[3].0@ == program_name_spec(ProgramKind::SsUpdate),
        progs@[3].1@ == program_body_spec(ProgramKind::SsUpdate),
{
    let mut progs: Vec<(&'static str, &'static str)> = Vec::new();
    progs.push(("DatapathIntervalProg", DATAPATH_INTERVAL_PROG));
    progs.push(("DatapathIntervalRTTProg", DATAPATH_INTERVAL_RTT_PROG));
    progs.push(("AckUpdateProg", ACK_UPDATE_PROG));
    progs.push(("SSUpdateProg", SS_UPDATE_PROG));
    progs
}

} // verus!
