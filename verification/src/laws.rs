//! The controller's cross-cycle laws, proved over the spec functions that
//! the report cycle's contracts are stated with.
//!
//! [`Flow::on_report`](crate::flow::Flow::on_report) pins each cycle's
//! effect on the startup flag, the deficit counter and the slow-start
//! threshold exactly (see `deficit_after` and `thresh_after_timeout` in
//! [`crate::flow`]); the lemmas here lift those per-cycle facts to whole
//! report histories.

use vstd::prelude::*;

use crate::arith::lemma_div_at_most_numerator;
use crate::flow::{deficit_after, reduction_applies, thresh_after_timeout};

verus! {

/// How many program installs a run of `n_reports` report cycles performs,
/// starting from a given startup flag: `on_report` installs a program
/// exactly when the cycle starts in startup, and every cycle ends out of
/// startup.
pub open spec fn installs_over(in_startup: bool, n_reports: nat) -> nat
    decreases n_reports,
{
    if n_reports == 0 {
        0
    } else {
        (if in_startup {
            1nat
        } else {
            0nat
        }) + installs_over(false, (n_reports - 1) as nat)
    }
}

/// The startup-to-steady-state transition occurs exactly once per
/// connection: over any number of report cycles, at most one program
/// install happens, and exactly one when the connection started in
/// datapath-driven startup and at least one report arrived.
pub proof fn lemma_single_transition(in_startup: bool, n_reports: nat)
    ensures
        installs_over(in_startup, n_reports) <= 1,
        !in_startup ==> installs_over(in_startup, n_reports) == 0,
        in_startup && n_reports >= 1 ==> installs_over(in_startup, n_reports) == 1,
    decreases n_reports,
{
    if n_reports > 0 {
        lemma_single_transition(false, (n_reports - 1) as nat);
    }
}

/// The deficit counter after a whole sequence of `(loss, sacked, acked)`
/// reports, with the deficit-timeout guard disabled.
pub open spec fn deficit_over(deficit: u32, reports: Seq<(u32, u32, u32)>, mss: u32) -> u32
    decreases reports.len(),
{
    if reports.len() == 0 {
        deficit
    } else {
        deficit_over(
            deficit_after(deficit, reports[0].0, reports[0].1, reports[0].2, mss),
            reports.drop_first(),
            mss,
        )
    }
}

/// A report carrying a loss or reorder signal never lowers the deficit
/// counter (guard disabled).
pub proof fn lemma_deficit_grows_on_signal(
    deficit: u32,
    loss: u32,
    sacked: u32,
    acked: u32,
    mss: u32,
)
    requires
        mss >= 1,
        loss > 0 || sacked > 0,
    ensures
        deficit_after(deficit, loss, sacked, acked, mss) >= deficit,
{
}

/// A quiet report never raises the deficit counter: it pays it down by
/// one packet per `mss` acked bytes, or clears it.
pub proof fn lemma_deficit_pays_down_when_quiet(
    deficit: u32,
    loss: u32,
    sacked: u32,
    acked: u32,
    mss: u32,
)
    requires
        mss >= 1,
        loss == 0,
        sacked == 0,
    ensures
        deficit_after(deficit, loss, sacked, acked, mss) <= deficit,
{
    if acked < deficit {
        lemma_div_at_most_numerator(acked as int, mss as int);
    }
}

/// The deficit counter decreases only across a quiet report: whenever one
/// report lowers it, that report carried no loss and no reorder signal
/// (guard disabled). Together with its unsigned type — every update is
/// proved free of underflow — the counter never goes negative.
pub proof fn lemma_deficit_decreases_only_when_quiet(
    deficit: u32,
    loss: u32,
    sacked: u32,
    acked: u32,
    mss: u32,
)
    requires
        mss >= 1,
        deficit_after(deficit, loss, sacked, acked, mss) < deficit,
    ensures
        loss == 0 && sacked == 0,
{
    if loss > 0 || sacked > 0 {
        lemma_deficit_grows_on_signal(deficit, loss, sacked, acked, mss);
    }
}

/// Over a whole history of reports that all carry a loss or reorder
/// signal, the deficit counter never falls below where it started.
pub proof fn lemma_deficit_never_decreases_over_signals(
    deficit: u32,
    reports: Seq<(u32, u32, u32)>,
    mss: u32,
)
    requires
        mss >= 1,
        forall|i: int|
            0 <= i < reports.len() ==> ((#[trigger] reports[i]).0 > 0 || reports[i].1 > 0),
    ensures
        deficit_over(deficit, reports, mss) >= deficit,
    decreases reports.len(),
{
    if reports.len() > 0 {
        let next = deficit_after(deficit, reports[0].0, reports[0].1, reports[0].2, mss);
        lemma_deficit_grows_on_signal(deficit, reports[0].0, reports[0].1, reports[0].2, mss);
        assert(forall|i: int|
            0 <= i < reports.drop_first().len() ==> ((#[trigger] reports.drop_first()[i]).0 > 0
                || reports.drop_first()[i].1 > 0));
        lemma_deficit_never_decreases_over_signals(next, reports.drop_first(), mss);
    }
}

/// How many reductions a sequence of reports triggers, starting from a
/// given deficit, when no report carries a partial ack (`acked == 0`) and
/// the guard is disabled: a reduction fires exactly on a loss that finds
/// the deficit at zero, which for `acked == 0` is exactly
/// [`reduction_applies`] (see [`lemma_pure_loss_reduction_condition`]).
pub open spec fn episode_reductions(deficit: u32, reports: Seq<(u32, u32, u32)>, mss: u32) -> nat
    decreases reports.len(),
{
    if reports.len() == 0 {
        0nat
    } else {
        (if reports[0].0 > 0 && deficit == 0 {
            1nat
        } else {
            0nat
        }) + episode_reductions(
            deficit_after(deficit, reports[0].0, reports[0].1, reports[0].2, mss),
            reports.drop_first(),
            mss,
        )
    }
}

/// For a report without a partial ack, the reduction condition collapses
/// to "a loss found the deficit at zero": the threshold-probe disjunct
/// needs acked bytes.
pub proof fn lemma_pure_loss_reduction_condition(
    loss: u32,
    deficit: u32,
    window: u32,
    ss_thresh: u32,
)
    ensures
        reduction_applies(loss, 0, deficit, window, ss_thresh) == (loss > 0 && deficit == 0),
{
}

/// While the deficit from an earlier loss is still outstanding, further
/// loss signals trigger no reduction at all.
pub proof fn lemma_no_reduction_while_deficit_pending(
    deficit: u32,
    reports: Seq<(u32, u32, u32)>,
    mss: u32,
)
    requires
        mss >= 1,
        deficit > 0,
        forall|i: int| 0 <= i < reports.len() ==> (#[trigger] reports[i]).0 > 0,
    ensures
        episode_reductions(deficit, reports, mss) == 0,
    decreases reports.len(),
{
    if reports.len() > 0 {
        let next = deficit_after(deficit, reports[0].0, reports[0].1, reports[0].2, mss);
        lemma_deficit_grows_on_signal(deficit, reports[0].0, reports[0].1, reports[0].2, mss);
        assert(forall|i: int|
            0 <= i < reports.drop_first().len() ==> (#[trigger] reports.drop_first()[i]).0 > 0);
        lemma_no_reduction_while_deficit_pending(next, reports.drop_first(), mss);
    }
}

/// At most one reduction per congestion episode: a loss signal followed by
/// any number of further loss signals (no partial acks, guard disabled)
/// triggers exactly one reduction, however many losses follow — the first
/// loss raises the deficit above zero and every later loss keeps it there.
pub proof fn lemma_at_most_one_reduction_per_episode(reports: Seq<(u32, u32, u32)>, mss: u32)
    requires
        mss >= 1,
        reports.len() >= 1,
        forall|i: int| 0 <= i < reports.len() ==> (#[trigger] reports[i]).0 > 0,
    ensures
        episode_reductions(0, reports, mss) == 1,
{
    let next = deficit_after(0, reports[0].0, reports[0].1, reports[0].2, mss);
    lemma_deficit_grows_on_signal(0, reports[0].0, reports[0].1, reports[0].2, mss);
    assert(next > 0);
    assert(forall|i: int|
        0 <= i < reports.drop_first().len() ==> (#[trigger] reports.drop_first()[i]).0 > 0);
    lemma_no_reduction_while_deficit_pending(next, reports.drop_first(), mss);
}

/// Timeout handling is idempotent as long as the threshold has already
/// been driven to within a halving of the initial window: the window
/// lands on the initial window either way, the deficit is zero either
/// way, and a second timeout leaves the threshold where the first one put
/// it. (With the threshold still more than two initial windows high, a
/// second timeout halves it further.)
pub proof fn lemma_timeout_idempotent(ss_thresh: u32, init_cwnd: u32)
    requires
        init_cwnd >= 1,
        ss_thresh / 2 <= init_cwnd,
    ensures
        thresh_after_timeout(thresh_after_timeout(ss_thresh, init_cwnd), init_cwnd)
            == thresh_after_timeout(ss_thresh, init_cwnd),
{
}

} // verus!
