//! The per-connection flow controller and its factory.
//!
//! A [`Flow`] owns the mutable state of one connection: the strategy
//! instance (which owns the congestion window), the slow-start threshold,
//! the startup flag, the deficit counter and the loss bookkeeping. Each
//! arriving report drives one cycle of [`Flow::on_report`], which decodes
//! nothing and performs no I/O itself: it takes the already-decoded
//! measurement, an optional telemetry sample (required in remote mode) and
//! the current clock sample, updates the state, and returns the
//! [`ReportActions`] for the caller to perform on the control channel —
//! which program to install, and which window value to write back, if any.

use vstd::prelude::*;

use crate::arith::{clamp_to_u32, clamped, lemma_div_at_most_numerator, lemma_u32_mul_fits_u64};
use crate::programs::{
    initial_program, select_initial_program, select_steady_program, steady_program, ProgramKind,
};
use crate::strategy::{GenericCongAvoidFlow, RemoteGenericCongAvoidAlg};
use crate::{
    GenericCongAvoidConfigReport, GenericCongAvoidConfigSS, GenericCongAvoidMeasurements,
    NetworkStatus,
};

verus! {

/// What the caller must perform on the control channel after one report
/// cycle: first install the program, if any (replacing the binding), and
/// afterwards write the window back, unless the cycle skipped the
/// write-back.
pub struct ReportActions {
    /// Install this program on the datapath, replacing the binding, before
    /// the next report is decoded.
    pub install: Option<ProgramKind>,
    /// Write this window value back through the binding; `None` means the
    /// cycle skipped the write-back (a reduction is already pending).
    pub write_cwnd: Option<u32>,
    /// Whether a window reduction was applied this cycle.
    pub reduction_applied: bool,
}

/// Microseconds elapsed between two clock samples; zero when the clock
/// went backward.
pub open spec fn elapsed_us(now_us: u64, last_us: u64) -> int {
    if now_us >= last_us {
        now_us - last_us
    } else {
        0
    }
}

/// The deficit-timeout guard: with a nonzero multiplier, a reduction older
/// than `rtt * deficit_timeout` microseconds belongs to an earlier
/// congestion episode, so its outstanding deficit is cleared.
pub open spec fn guard_clears(
    deficit_timeout: u32,
    rtt: u32,
    now_us: u64,
    last_reduction_us: u64,
) -> bool {
    deficit_timeout > 0 && elapsed_us(now_us, last_reduction_us) > (rtt as int) * (
    deficit_timeout as int)
}

/// The deficit counter after one report: a loss or reorder signal adds
/// `sacked + loss` (saturating); a quiet report either clears the counter
/// (when `acked` reaches it) or pays it down by one packet per `mss` acked
/// bytes. It never goes below zero.
pub open spec fn deficit_after(deficit: u32, loss: u32, sacked: u32, acked: u32, mss: u32) -> u32
    recommends
        mss >= 1,
{
    if loss > 0 || sacked > 0 {
        clamped(deficit + sacked + loss)
    } else if acked < deficit {
        (deficit - (acked as int) / (mss as int)) as u32
    } else {
        0
    }
}

/// When a window reduction is applied: on the first loss of a new episode
/// (deficit still zero), or on a partial ack while the window is probing
/// exactly at the slow-start threshold.
pub open spec fn reduction_applies(
    loss: u32,
    acked: u32,
    deficit: u32,
    window: u32,
    ss_thresh: u32,
) -> bool {
    (loss > 0 && deficit == 0) || (acked > 0 && window == ss_thresh)
}

/// The slow-start threshold after a timeout: halved, floored at the
/// initial window.
pub open spec fn thresh_after_timeout(ss_thresh: u32, init_cwnd: u32) -> u32 {
    if ss_thresh / 2 < init_cwnd {
        init_cwnd
    } else {
        ss_thresh / 2
    }
}

/// The window carried over from datapath-driven slow start:
/// `inflight * mss`, clamped to the window's range and floored at one
/// segment.
pub open spec fn seed_window(inflight: u32, mss: u32) -> u32 {
    let w = clamped((inflight as int) * (mss as int));
    if w < mss {
        mss
    } else {
        w
    }
}

/// The per-connection flow controller state.
pub struct Flow<A: GenericCongAvoidFlow> {
    /// The strategy instance; it owns the congestion window.
    pub alg: A,
    /// Deficit-timeout guard multiplier, in round-trip times; zero
    /// disables the guard.
    pub deficit_timeout: u32,
    /// The connection's initial window, in bytes: the floor every
    /// reduction and timeout returns to.
    pub init_cwnd: u32,
    /// The configured steady-state reporting cadence.
    pub report_option: GenericCongAvoidConfigReport,
    /// Slow-start threshold, in bytes.
    pub ss_thresh: u32,
    /// Configuration surface for an alternate slow-start growth curve; the
    /// curve is not part of the control cycle.
    pub use_compensation: bool,
    /// The deficit counter: loss/reorder-signaled packets not yet
    /// reconciled by later acknowledgments.
    pub curr_cwnd_reduction: u32,
    /// Clock sample at the last applied window reduction, in microseconds.
    pub last_cwnd_reduction_us: u64,
    /// True until the first report arrives after datapath-driven startup.
    pub in_startup: bool,
    /// Maximum segment size, in bytes.
    pub mss: u32,
    /// Last measured round-trip time, in microseconds.
    pub rtt: u32,
    /// Remote mode: drive the window from fetched telemetry instead of
    /// local ack/loss signals.
    pub use_remote: bool,
}

impl<A: GenericCongAvoidFlow> Flow<A> {
    /// The controller invariant: the strategy is well-formed and agrees
    /// with the controller on the segment size and the initial window.
    pub open spec fn wf(&self) -> bool {
        &&& self.alg.wf()
        &&& self.alg.segment_size() == self.mss
        &&& self.alg.initial_window() == self.init_cwnd
    }

    /// The strategy state after the startup transition of one report,
    /// before any window math: on the transition report the window is
    /// seeded from `inflight * mss`, otherwise the strategy is untouched.
    pub open spec fn alg_after_startup(pre: Self, m: GenericCongAvoidMeasurements) -> A {
        if pre.in_startup {
            pre.alg.with_window(seed_window(m.inflight, pre.mss))
        } else {
            pre.alg
        }
    }

    /// The configuration fields no report cycle changes.
    pub open spec fn config_unchanged(pre: Self, post: Self) -> bool {
        &&& post.deficit_timeout == pre.deficit_timeout
        &&& post.init_cwnd == pre.init_cwnd
        &&& post.report_option == pre.report_option
        &&& post.use_compensation == pre.use_compensation
        &&& post.mss == pre.mss
        &&& post.use_remote == pre.use_remote
    }

    /// Timeout handling: halve the slow-start threshold (floored at the
    /// initial window), run the strategy's reset hook, return the window
    /// to the initial window, and clear the deficit counter. The caller
    /// writes the resulting window back; this sequence is the same in both
    /// modes.
    pub fn handle_timeout(&mut self)
        requires
            old(self).wf(),
        ensures
            final(self).wf(),
            Self::config_unchanged(*old(self), *final(self)),
            final(self).ss_thresh == thresh_after_timeout(old(self).ss_thresh, old(self).init_cwnd),
            final(self).ss_thresh >= old(self).init_cwnd,
            final(self).alg.window() == old(self).init_cwnd,
            final(self).curr_cwnd_reduction == 0,
            final(self).in_startup == old(self).in_startup,
            final(self).rtt == old(self).rtt,
            final(self).last_cwnd_reduction_us == old(self).last_cwnd_reduction_us,
    {
        proof {
            self.alg.wf_floor();
        }
        self.ss_thresh = self.ss_thresh / 2;
        if self.ss_thresh < self.init_cwnd {
            self.ss_thresh = self.init_cwnd;
        }
        self.alg.reset();
        self.alg.set_cwnd(self.init_cwnd);
        self.curr_cwnd_reduction = 0;
    }

    /// Deficit-gated reduction (local mode), run when a report carries a
    /// loss or reorder signal. With the guard configured and the last
    /// reduction older than `rtt * deficit_timeout`, the deficit is first
    /// cleared (a new congestion episode). Exactly one reduction is
    /// applied when the loss is the first of its episode or a partial ack
    /// arrives while the window probes the threshold; either way the
    /// deficit then grows by `sacked + loss`. A quiet report instead pays
    /// the deficit down. Returns whether a reduction was applied.
    pub fn maybe_reduce_cwnd(&mut self, m: &GenericCongAvoidMeasurements, now_us: u64) -> (reduced:
        bool)
        requires
            old(self).wf(),
        ensures
            final(self).wf(),
            Self::config_unchanged(*old(self), *final(self)),
            final(self).in_startup == old(self).in_startup,
            final(self).rtt == old(self).rtt,
            ({
                let signal = m.loss > 0 || m.sacked > 0;
                let d0: u32 = if signal && guard_clears(
                    old(self).deficit_timeout,
                    old(self).rtt,
                    now_us,
                    old(self).last_cwnd_reduction_us,
                ) {
                    0
                } else {
                    old(self).curr_cwnd_reduction
                };
                &&& reduced == (signal && reduction_applies(
                    m.loss,
                    m.acked,
                    d0,
                    old(self).alg.window(),
                    old(self).ss_thresh,
                ))
                &&& final(self).curr_cwnd_reduction == deficit_after(
                    d0,
                    m.loss,
                    m.sacked,
                    m.acked,
                    old(self).mss,
                )
                &&& (reduced ==> {
                    &&& final(self).alg == old(self).alg.reduced(*m)
                    &&& final(self).ss_thresh == final(self).alg.window()
                    &&& final(self).ss_thresh >= old(self).init_cwnd
                    &&& final(self).last_cwnd_reduction_us == now_us
                    &&& (final(self).alg.window() <= old(self).alg.window()
                        || final(self).alg.window() == old(self).init_cwnd)
                })
                &&& (!reduced ==> {
                    &&& final(self).alg == old(self).alg
                    &&& final(self).ss_thresh == old(self).ss_thresh
                    &&& final(self).last_cwnd_reduction_us == old(self).last_cwnd_reduction_us
                })
            }),
    {
        proof {
            self.alg.wf_floor();
        }
        let mut reduced: bool = false;
        if m.loss > 0 || m.sacked > 0 {
            if self.deficit_timeout > 0 {
                proof {
                    lemma_u32_mul_fits_u64(self.rtt, self.deficit_timeout);
                }
                let elapsed: u64 = if now_us >= self.last_cwnd_reduction_us {
                    now_us - self.last_cwnd_reduction_us
                } else {
                    0
                };
                let guard: u64 = (self.rtt as u64) * (self.deficit_timeout as u64);
                if elapsed > guard {
                    self.curr_cwnd_reduction = 0;
                }
            }
            // a not-yet-reconciled loss of a new episode, or a partial ack
            // while probing exactly at the threshold
            if (m.loss > 0 && self.curr_cwnd_reduction == 0) || (m.acked > 0 && self.alg.curr_cwnd()
                == self.ss_thresh) {
                self.alg.reduction(m);
                self.last_cwnd_reduction_us = now_us;
                self.ss_thresh = self.alg.curr_cwnd();
                reduced = true;
            }
            let signal_total: u64 = (self.curr_cwnd_reduction as u64) + (m.sacked as u64) + (
            m.loss as u64);
            self.curr_cwnd_reduction = clamp_to_u32(signal_total);
        } else if m.acked < self.curr_cwnd_reduction {
            proof {
                lemma_div_at_most_numerator(m.acked as int, self.mss as int);
            }
            let paid: u32 = m.acked / self.mss;
            self.curr_cwnd_reduction = self.curr_cwnd_reduction - paid;
        } else {
            self.curr_cwnd_reduction = 0;
        }
        reduced
    }

    /// One report cycle. In startup, first install the steady-state
    /// program of the configured cadence and seed the window from
    /// `inflight * mss` — this transition happens exactly once, on the
    /// first report. On a timeout report, run timeout handling and stop.
    /// Otherwise, in remote mode, recompute the window from the supplied
    /// telemetry sample (the precondition requires one); in local mode,
    /// grow the window and run the deficit-gated reduction, skipping the
    /// write-back while an unreconciled reduction is pending. The caller
    /// performs the returned actions.
    pub fn on_report(
        &mut self,
        m: &GenericCongAvoidMeasurements,
        network_status: Option<&NetworkStatus>,
        now_us: u64,
    ) -> (act: ReportActions)
        requires
            old(self).wf(),
            old(self).use_remote && !m.was_timeout ==> network_status is Some,
        ensures
            final(self).wf(),
            Self::config_unchanged(*old(self), *final(self)),
            !final(self).in_startup,
            act.install == (if old(self).in_startup {
                Some(steady_program(old(self).report_option))
            } else {
                None::<ProgramKind>
            }),
            final(self).rtt == m.rtt,
            m.was_timeout ==> {
                &&& final(self).alg.window() == old(self).init_cwnd
                &&& final(self).ss_thresh == thresh_after_timeout(
                    old(self).ss_thresh,
                    old(self).init_cwnd,
                )
                &&& final(self).ss_thresh >= old(self).init_cwnd
                &&& final(self).curr_cwnd_reduction == 0
                &&& act.write_cwnd == Some(old(self).init_cwnd)
                &&& !act.reduction_applied
            },
            (!m.was_timeout && old(self).use_remote) ==> ({
                let a0 = Self::alg_after_startup(*old(self), *m);
                &&& (match network_status {
                    Some(status) => final(self).alg == a0.adjusted(*status, *m),
                    None => false,
                })
                &&& final(self).curr_cwnd_reduction == old(self).curr_cwnd_reduction
                &&& final(self).ss_thresh == old(self).ss_thresh
                &&& final(self).last_cwnd_reduction_us == old(self).last_cwnd_reduction_us
                &&& act.write_cwnd == Some(final(self).alg.window())
                &&& !act.reduction_applied
            }),
            (!m.was_timeout && !old(self).use_remote) ==> ({
                let a1 = Self::alg_after_startup(*old(self), *m).increased(*m);
                let signal = m.loss > 0 || m.sacked > 0;
                let d0: u32 = if signal && guard_clears(
                    old(self).deficit_timeout,
                    m.rtt,
                    now_us,
                    old(self).last_cwnd_reduction_us,
                ) {
                    0
                } else {
                    old(self).curr_cwnd_reduction
                };
                &&& act.reduction_applied == (signal && reduction_applies(
                    m.loss,
                    m.acked,
                    d0,
                    a1.window(),
                    old(self).ss_thresh,
                ))
                &&& final(self).alg == (if act.reduction_applied {
                    a1.reduced(*m)
                } else {
                    a1
                })
                &&& final(self).curr_cwnd_reduction == deficit_after(
                    d0,
                    m.loss,
                    m.sacked,
                    m.acked,
                    old(self).mss,
                )
                &&& (act.reduction_applied ==> {
                    &&& final(self).ss_thresh == final(self).alg.window()
                    &&& final(self).ss_thresh >= old(self).init_cwnd
                    &&& final(self).last_cwnd_reduction_us == now_us
                })
                &&& (!act.reduction_applied ==> {
                    &&& final(self).ss_thresh == old(self).ss_thresh
                    &&& final(self).last_cwnd_reduction_us == old(self).last_cwnd_reduction_us
                    &&& final(self).alg.window() >= (if old(self).in_startup {
                        seed_window(m.inflight, old(self).mss)
                    } else {
                        old(self).alg.window()
                    })
                })
                &&& act.write_cwnd == (if final(self).curr_cwnd_reduction == 0
                    || act.reduction_applied {
                    Some(final(self).alg.window())
                } else {
                    None::<u32>
                })
            }),
    {
        let mut install: Option<ProgramKind> = None;
        if self.in_startup {
            // startup -> steady state, exactly once: install the
            // steady-state program and carry the datapath-grown window over
            install = Some(select_steady_program(self.report_option));
            proof {
                self.alg.wf_floor();
                lemma_u32_mul_fits_u64(m.inflight, self.mss);
            }
            let grown: u64 = (m.inflight as u64) * (self.mss as u64);
            let w: u32 = clamp_to_u32(grown);
            let seeded: u32 = if w < self.mss {
                self.mss
            } else {
                w
            };
            self.alg.set_cwnd(seeded);
            self.in_startup = false;
        }
        self.rtt = m.rtt;
        if m.was_timeout {
            self.handle_timeout();
            let w: u32 = self.alg.curr_cwnd();
            return ReportActions { install, write_cwnd: Some(w), reduction_applied: false };
        }

        if self.use_remote {
            match network_status {
                Some(status) => {
                    self.alg.adjust_cwnd(status, m);
                },
                None => {
                    // excluded by the precondition
                    assert(false);
                },
            }
            let w: u32 = self.alg.curr_cwnd();
            return ReportActions { install, write_cwnd: Some(w), reduction_applied: false };
        }

        // local mode: grow for the newly acked bytes, run the
        // deficit-gated reduction
        self.alg.increase(m);
        let reduced: bool = self.maybe_reduce_cwnd(m, now_us);
        if self.curr_cwnd_reduction > 0 {
            // a reduction is pending; write back only what the reduction
            // itself produced
            let write: Option<u32> = if reduced {
                Some(self.alg.curr_cwnd())
            } else {
                None
            };
            return ReportActions { install, write_cwnd: write, reduction_applied: reduced };
        }
        let w: u32 = self.alg.curr_cwnd();
        ReportActions { install, write_cwnd: Some(w), reduction_applied: reduced }
    }
}

/// For any history of reports, the window never falls below one segment,
/// the monotonic floor: it is part of the controller invariant, and every
/// cycle preserves the invariant.
pub proof fn lemma_window_floor<A: GenericCongAvoidFlow>(f: Flow<A>)
    requires
        f.wf(),
    ensures
        f.mss >= 1,
        f.alg.window() >= f.mss,
        f.init_cwnd >= f.mss,
{
    f.alg.wf_floor();
}

/// The per-algorithm controller factory: the connection-independent
/// configuration plus the algorithm instance that creates each
/// connection's strategy state.
pub struct Alg<A: RemoteGenericCongAvoidAlg> {
    /// Deficit-timeout guard multiplier, in round-trip times; zero
    /// disables the guard.
    pub deficit_timeout: u32,
    /// Initial-window override, in bytes; zero means use the
    /// datapath-negotiated initial window.
    pub init_cwnd: u32,
    /// The steady-state reporting cadence.
    pub report_option: GenericCongAvoidConfigReport,
    /// Who drives slow start.
    pub ss: GenericCongAvoidConfigSS,
    /// The initial slow-start threshold.
    pub ss_thresh: u32,
    /// Configuration surface for an alternate slow-start growth curve.
    pub use_compensation: bool,
    /// Remote mode: drive each flow's window from fetched telemetry.
    pub use_remote: bool,
    /// The algorithm instance.
    pub alg: A,
}

impl<A: RemoteGenericCongAvoidAlg> Alg<A> {
    /// The algorithm's registered name.
    pub fn name() -> (r: &'static str)
        ensures
            r@ == A::name_spec(),
    {
        A::name()
    }

    /// Admit one connection: build its controller, choosing the configured
    /// initial-window override when nonzero and the datapath-negotiated
    /// initial window otherwise, and select the initial accounting program
    /// for the caller to install. `now_us` is the current clock sample;
    /// the last-reduction timestamp starts half a second in the past so
    /// the deficit-timeout guard starts open.
    pub fn new_flow(&self, info_init_cwnd: u32, info_mss: u32, sock_id: u32, now_us: u64) -> (r: (
        Flow<A::Flow>,
        ProgramKind,
    ))
        requires
            info_mss >= 1,
            self.init_cwnd != 0 ==> self.init_cwnd >= info_mss,
            self.init_cwnd == 0 ==> info_init_cwnd >= info_mss,
        ensures
            r.0.wf(),
            r.0.alg == self.alg.new_flow_spec(
                if self.init_cwnd != 0 {
                    self.init_cwnd
                } else {
                    info_init_cwnd
                },
                info_mss,
                sock_id,
            ),
            r.0.mss == info_mss,
            r.0.init_cwnd == (if self.init_cwnd != 0 {
                self.init_cwnd
            } else {
                info_init_cwnd
            }),
            r.0.alg.window() == r.0.init_cwnd,
            r.0.ss_thresh == self.ss_thresh,
            r.0.deficit_timeout == self.deficit_timeout,
            r.0.report_option == self.report_option,
            r.0.use_compensation == self.use_compensation,
            r.0.use_remote == self.use_remote,
            r.0.curr_cwnd_reduction == 0,
            r.0.rtt == 0,
            r.0.last_cwnd_reduction_us == (if now_us >= 500_000 {
                now_us - 500_000
            } else {
                0
            }),
            r.0.in_startup == (self.ss is Datapath),
            r.1 == initial_program(self.ss, self.report_option),
    {
        let init_cwnd: u32 = if self.init_cwnd != 0 {
            self.init_cwnd
        } else {
            info_init_cwnd
        };
        let alg_flow = self.alg.new_flow(init_cwnd, info_mss, sock_id);
        let last_reduction: u64 = if now_us >= 500_000 {
            now_us - 500_000
        } else {
            0
        };
        let prog: ProgramKind = select_initial_program(self.ss, self.report_option);
        let in_startup: bool = match self.ss {
            GenericCongAvoidConfigSS::Datapath => true,
            GenericCongAvoidConfigSS::Ccp => false,
        };
        let f = Flow {
            alg: alg_flow,
            deficit_timeout: self.deficit_timeout,
            init_cwnd,
            report_option: self.report_option,
            ss_thresh: self.ss_thresh,
            use_compensation: self.use_compensation,
            curr_cwnd_reduction: 0,
            last_cwnd_reduction_us: last_reduction,
            in_startup,
            mss: info_mss,
            rtt: 0,
            use_remote: self.use_remote,
        };
        (f, prog)
    }
}

} // verus!
