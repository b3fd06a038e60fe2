//! The Reno-like congestion-avoidance strategy.
//!
//! In local mode the window grows by `mss * acked / cwnd` per report and
//! halves on loss, floored at the initial window. In remote mode the
//! window is recomputed from externally observed link utilization and
//! queue length: multiplied by `3 / (2u + 1)` (with `u` the utilization
//! fraction) while the link has headroom, held unchanged while the
//! utilization has not moved since the previous sample, divided by `u` on
//! an overloaded link, and charged a queue-proportional penalty when a
//! standing queue builds on a busy link. All window values are integer
//! byte counts, the utilization is in thousandths (see
//! [`crate::UTILIZATION_SCALE`]), and every update keeps the window at or
//! above one segment.

use vstd::prelude::*;

use crate::arith::{clamp_to_u32, clamped, mul_div_u32};
use crate::strategy::{GenericCongAvoidFlow, RemoteGenericCongAvoidAlg};
use crate::{GenericCongAvoidMeasurements, NetworkStatus, UTILIZATION_SCALE};

verus! {

/// Utilization below this value (in thousandths) counts as headroom: the
/// remote-mode law grows the window multiplicatively.
pub const AGGRESSIVE_UTILIZATION: u32 = 800;

/// Above this utilization (in thousandths), a standing queue triggers a
/// queue-proportional window penalty in remote mode.
pub const QUEUE_PENALTY_UTILIZATION: u32 = 900;

/// Per-connection state of the Reno-like strategy.
pub struct Reno {
    /// Maximum segment size, in bytes.
    pub mss: u32,
    /// The window the connection started with, in bytes; the reduction floor.
    pub init_cwnd: u32,
    /// Current congestion window, in bytes.
    pub cwnd: u32,
    /// The link utilization of the previous remote-mode sample, in
    /// thousandths; remote-mode updates are gated on it changing.
    pub last_utilization: u32,
    /// The connection's socket identifier.
    pub sock_id: u32,
}

/// The local-mode growth law: one segment's worth of growth per window of
/// acknowledged bytes, clamped to the window's range.
pub open spec fn reno_increased_window(cwnd: u32, mss: u32, acked: u32) -> u32
    recommends
        cwnd >= 1,
{
    clamped(cwnd + (mss as int) * (acked as int) / (cwnd as int))
}

/// The local-mode decrease law: halve, floored at the initial window.
pub open spec fn reno_reduced_window(cwnd: u32, init_cwnd: u32) -> u32 {
    if cwnd / 2 <= init_cwnd {
        init_cwnd
    } else {
        cwnd / 2
    }
}

/// The remote-mode growth step, applied when the sampled utilization
/// `util` differs from the previous sample: multiply by `3 / (2u + 1)`
/// while the link has headroom, grow additively while it approaches full
/// utilization, and hold on an already-full link.
pub open spec fn reno_growth_step(cwnd: u32, mss: u32, acked: u32, util: u32) -> u32
    recommends
        cwnd >= 1,
{
    if util < AGGRESSIVE_UTILIZATION {
        clamped(
            (cwnd as int) * (3 * UTILIZATION_SCALE) as int / (2 * util + UTILIZATION_SCALE) as int,
        )
    } else if util < UTILIZATION_SCALE {
        clamped(cwnd + (mss as int) * (acked as int) / (cwnd as int))
    } else {
        cwnd
    }
}

/// The remote-mode correction step: divide the window by the utilization
/// when the link is overloaded, or charge a third of a standing queue when
/// the link is busy; either way floored at one segment.
pub open spec fn reno_correction_step(cwnd: u32, mss: u32, util: u32, queue: i32) -> u32 {
    if util > UTILIZATION_SCALE {
        let w = clamped((cwnd as int) * (UTILIZATION_SCALE as int) / (util as int));
        if w < mss {
            mss
        } else {
            w
        }
    } else if queue > 0 && util > QUEUE_PENALTY_UTILIZATION {
        let w = cwnd - (queue as int) / 3;
        if w < mss {
            mss
        } else {
            w as u32
        }
    } else {
        cwnd
    }
}

/// The whole remote-mode law: hold the window while the utilization is
/// unchanged from the previous sample, otherwise apply the growth step and
/// the correction step in that order.
pub open spec fn reno_adjusted_window(
    cwnd: u32,
    mss: u32,
    acked: u32,
    last_utilization: u32,
    util: u32,
    queue: i32,
) -> u32
    recommends
        cwnd >= 1,
{
    if util == last_utilization {
        cwnd
    } else {
        reno_correction_step(reno_growth_step(cwnd, mss, acked, util), mss, util, queue)
    }
}

impl GenericCongAvoidFlow for Reno {
    open spec fn window(&self) -> u32 {
        self.cwnd
    }

    open spec fn segment_size(&self) -> u32 {
        self.mss
    }

    open spec fn initial_window(&self) -> u32 {
        self.init_cwnd
    }

    open spec fn wf(&self) -> bool {
        &&& self.mss >= 1
        &&& self.init_cwnd >= self.mss
        &&& self.cwnd >= self.mss
    }

    open spec fn with_window(&self, cwnd: u32) -> Reno {
        Reno { cwnd, ..*self }
    }

    open spec fn increased(&self, m: GenericCongAvoidMeasurements) -> Reno {
        Reno { cwnd: reno_increased_window(self.cwnd, self.mss, m.acked), ..*self }
    }

    open spec fn reduced(&self, m: GenericCongAvoidMeasurements) -> Reno {
        Reno { cwnd: reno_reduced_window(self.cwnd, self.init_cwnd), ..*self }
    }

    open spec fn adjusted(
        &self,
        network_status: NetworkStatus,
        m: GenericCongAvoidMeasurements,
    ) -> Reno {
        Reno {
            cwnd: reno_adjusted_window(
                self.cwnd,
                self.mss,
                m.acked,
                self.last_utilization,
                network_status.link_utilization,
                network_status.queue_length,
            ),
            last_utilization: network_status.link_utilization,
            ..*self
        }
    }

    proof fn wf_floor(&self) {
    }

    fn curr_cwnd(&self) -> u32 {
        self.cwnd
    }

    fn set_cwnd(&mut self, cwnd: u32) {
        self.cwnd = cwnd;
    }

    fn increase(&mut self, m: &GenericCongAvoidMeasurements) {
        let delta: u64 = mul_div_u32(self.mss, m.acked, self.cwnd);
        let grown: u128 = (self.cwnd as u128) + (delta as u128);
        self.cwnd = if grown > (u32::MAX as u128) {
            u32::MAX
        } else {
            grown as u32
        };
    }

    fn reduction(&mut self, m: &GenericCongAvoidMeasurements) {
        let half: u32 = self.cwnd / 2;
        if half <= self.init_cwnd {
            self.cwnd = self.init_cwnd;
        } else {
            self.cwnd = half;
        }
    }

    /// The strategy's reset hook is a no-op: the controller itself
    /// returns the window to the initial window on timeout.
    fn reset(&mut self)
        ensures
            *final(self) == *old(self),
    {
    }

    fn adjust_cwnd(&mut self, network_status: &NetworkStatus, m: &GenericCongAvoidMeasurements) {
        let util: u32 = network_status.link_utilization;
        let queue: i32 = network_status.queue_length;
        if util == self.last_utilization {
            // steady-state hold: the sample brought no new information
            return ;
        }

        if util < AGGRESSIVE_UTILIZATION {
            proof {
                crate::arith::lemma_u32_mul_fits_u64(self.cwnd, (3 * UTILIZATION_SCALE) as u32);
                crate::arith::lemma_mul_div_grows(
                    self.cwnd as int,
                    (3 * UTILIZATION_SCALE) as int,
                    (2 * util + UTILIZATION_SCALE) as int,
                );
            }
            let scaled: u64 = (self.cwnd as u64) * ((3 * UTILIZATION_SCALE) as u64);
            let divisor: u64 = (2 * util + UTILIZATION_SCALE) as u64;
            self.cwnd = clamp_to_u32(scaled / divisor);
        } else if util < UTILIZATION_SCALE {
            let delta: u64 = mul_div_u32(self.mss, m.acked, self.cwnd);
            let grown: u128 = (self.cwnd as u128) + (delta as u128);
            self.cwnd = if grown > (u32::MAX as u128) {
                u32::MAX
            } else {
                grown as u32
            };
        }

        if util > UTILIZATION_SCALE {
            let shrunk: u64 = (self.cwnd as u64) * (UTILIZATION_SCALE as u64) / (util as u64);
            let w: u32 = clamp_to_u32(shrunk);
            self.cwnd = if w < self.mss {
                self.mss
            } else {
                w
            };
        } else if queue > 0 && util > QUEUE_PENALTY_UTILIZATION {
            let penalty: u32 = (queue / 3) as u32;
            let w: u32 = if self.cwnd > penalty {
                self.cwnd - penalty
            } else {
                0
            };
            self.cwnd = if w < self.mss {
                self.mss
            } else {
                w
            };
        }
        self.last_utilization = util;
    }
}

impl RemoteGenericCongAvoidAlg for Reno {
    type Flow = Reno;

    open spec fn name_spec() -> Seq<char> {
        "reno"@
    }

    open spec fn new_flow_spec(&self, init_cwnd: u32, mss: u32, sock_id: u32) -> Reno {
        Reno { mss, init_cwnd, cwnd: init_cwnd, last_utilization: 0, sock_id }
    }

    fn name() -> &'static str {
        "reno"
    }

    fn new_flow(&self, init_cwnd: u32, mss: u32, sock_id: u32) -> (f: Reno) {
        Reno { mss, init_cwnd, cwnd: init_cwnd, last_utilization: 0, sock_id }
    }
}

impl Default for Reno {
    /// An inert algorithm-factory instance; per-connection state comes
    /// from `new_flow`.
    fn default() -> (r: Reno)
        ensures
            r.mss == 0,
            r.init_cwnd == 0,
            r.cwnd == 0,
            r.last_utilization == 0,
            r.sock_id == 0,
    {
        Reno { mss: 0, init_cwnd: 0, cwnd: 0, last_utilization: 0, sock_id: 0 }
    }
}

} // verus!
