//! The pluggable congestion-avoidance strategy interface.
//!
//! A strategy owns the congestion window of one connection and implements
//! the capability set the flow controller drives: read and write the
//! window, grow it on acknowledgment, shrink it on loss, reset it on
//! timeout, and optionally recompute it from external telemetry. The exact
//! growth and decrease laws are policy: each mutating capability is pinned
//! to a spec-level state model the implementation defines, and on top of
//! that the trait demands what every policy must keep — the window never
//! falls below one segment, a reduction never lands below the initial
//! window, and growth never shrinks the window.

use vstd::prelude::*;

use crate::GenericCongAvoidMeasurements;
use crate::NetworkStatus;

verus! {

/// The capability set of a congestion-avoidance strategy for one flow.
///
/// The spec functions expose the strategy's model: its current window,
/// its segment size, its initial window, its well-formedness invariant,
/// and one state model per mutating capability (`with_window`,
/// `increased`, `reduced`, `adjusted`) — each capability's contract pins
/// the new state as exactly its model of the old state, so a controller
/// built over this trait propagates the concrete policy's laws. `wf` must
/// imply the floors of `wf_floor`, and every capability preserves `wf`,
/// the segment size and the initial window.
pub trait GenericCongAvoidFlow: Sized {
    /// The current congestion window, in bytes.
    spec fn window(&self) -> u32;

    /// The maximum segment size this flow was created with, in bytes.
    spec fn segment_size(&self) -> u32;

    /// The initial congestion window this flow was created with, in bytes.
    spec fn initial_window(&self) -> u32;

    /// The strategy's well-formedness invariant.
    spec fn wf(&self) -> bool;

    /// The strategy state after `set_cwnd(cwnd)`.
    spec fn with_window(&self, cwnd: u32) -> Self;

    /// The strategy state after `increase(m)`.
    spec fn increased(&self, m: GenericCongAvoidMeasurements) -> Self;

    /// The strategy state after `reduction(m)`.
    spec fn reduced(&self, m: GenericCongAvoidMeasurements) -> Self;

    /// The strategy state after `adjust_cwnd(network_status, m)`.
    spec fn adjusted(
        &self,
        network_status: NetworkStatus,
        m: GenericCongAvoidMeasurements,
    ) -> Self;

    /// A well-formed strategy keeps its window at or above one segment,
    /// and its initial window is itself at least one segment.
    proof fn wf_floor(&self)
        requires
            self.wf(),
        ensures
            self.segment_size() >= 1,
            self.window() >= self.segment_size(),
            self.initial_window() >= self.segment_size(),
    ;

    /// Read the current congestion window.
    fn curr_cwnd(&self) -> (r: u32)
        ensures
            r == self.window(),
    ;

    /// Overwrite the congestion window.
    fn set_cwnd(&mut self, cwnd: u32)
        requires
            old(self).wf(),
            cwnd >= old(self).segment_size(),
        ensures
            final(self).wf(),
            *final(self) == old(self).with_window(cwnd),
            final(self).window() == cwnd,
            final(self).segment_size() == old(self).segment_size(),
            final(self).initial_window() == old(self).initial_window(),
    ;

    /// Grow the window in response to newly acknowledged bytes. The curve
    /// is policy; it never shrinks the window.
    fn increase(&mut self, m: &GenericCongAvoidMeasurements)
        requires
            old(self).wf(),
        ensures
            final(self).wf(),
            *final(self) == old(self).increased(*m),
            final(self).window() >= old(self).window(),
            final(self).segment_size() == old(self).segment_size(),
            final(self).initial_window() == old(self).initial_window(),
    ;

    /// Shrink the window in response to a loss signal. The decrease is
    /// policy; it never lands below the initial window, and it never grows
    /// the window except up to that floor.
    fn reduction(&mut self, m: &GenericCongAvoidMeasurements)
        requires
            old(self).wf(),
        ensures
            final(self).wf(),
            *final(self) == old(self).reduced(*m),
            final(self).window() >= old(self).initial_window(),
            final(self).window() <= old(self).window()
                || final(self).window() == old(self).initial_window(),
            final(self).segment_size() == old(self).segment_size(),
            final(self).initial_window() == old(self).initial_window(),
    ;

    /// Policy hook run on timeout, before the controller resets the window
    /// to the initial window. The default is a no-op.
    fn reset(&mut self)
        requires
            old(self).wf(),
        ensures
            final(self).wf(),
            final(self).segment_size() == old(self).segment_size(),
            final(self).initial_window() == old(self).initial_window(),
    {
    }

    /// Recompute the window from externally observed telemetry instead of
    /// local ack/loss signals. The law is policy.
    fn adjust_cwnd(&mut self, network_status: &NetworkStatus, m: &GenericCongAvoidMeasurements)
        requires
            old(self).wf(),
        ensures
            final(self).wf(),
            *final(self) == old(self).adjusted(*network_status, *m),
            final(self).segment_size() == old(self).segment_size(),
            final(self).initial_window() == old(self).initial_window(),
    ;
}

/// A congestion-avoidance algorithm: a factory of per-connection strategy
/// flows.
pub trait RemoteGenericCongAvoidAlg {
    type Flow: GenericCongAvoidFlow;

    /// The algorithm's registered name.
    spec fn name_spec() -> Seq<char>;

    /// The algorithm's registered name.
    fn name() -> (r: &'static str)
        ensures
            r@ == Self::name_spec(),
    ;

    /// The strategy state `new_flow` creates for a connection.
    spec fn new_flow_spec(&self, init_cwnd: u32, mss: u32, sock_id: u32) -> Self::Flow;

    /// Create the strategy state for one new connection, starting at the
    /// negotiated initial window.
    fn new_flow(&self, init_cwnd: u32, mss: u32, sock_id: u32) -> (f: Self::Flow)
        requires
            mss >= 1,
            init_cwnd >= mss,
        ensures
            f == self.new_flow_spec(init_cwnd, mss, sock_id),
            f.wf(),
            f.segment_size() == mss,
            f.initial_window() == init_cwnd,
            f.window() == init_cwnd,
    ;
}

} // verus!
