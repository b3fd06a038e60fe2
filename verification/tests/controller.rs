use generic_cong_avoid::flow::{Alg, Flow};
use generic_cong_avoid::programs::ProgramKind;
use generic_cong_avoid::reno::Reno;
use generic_cong_avoid::strategy::GenericCongAvoidFlow;
use generic_cong_avoid::{
    GenericCongAvoidConfigReport, GenericCongAvoidConfigSS, GenericCongAvoidMeasurements,
    NetworkStatus, DEFAULT_SS_THRESH,
};

const MSS: u32 = 1_460;
const INIT_CWND: u32 = 14_600;

fn alg(ss: GenericCongAvoidConfigSS, report: GenericCongAvoidConfigReport, remote: bool) -> Alg<
    Reno,
> {
    Alg {
        deficit_timeout: 0,
        init_cwnd: 0,
        report_option: report,
        ss,
        ss_thresh: DEFAULT_SS_THRESH,
        use_compensation: false,
        use_remote: remote,
        alg: Reno::default(),
    }
}

fn local_flow() -> Flow<Reno> {
    let a = alg(GenericCongAvoidConfigSS::Ccp, GenericCongAvoidConfigReport::Ack, false);
    let (flow, _) = a.new_flow(INIT_CWND, MSS, 1, 1_000_000);
    flow
}

fn report(acked: u32, loss: u32, sacked: u32, timeout: bool) -> GenericCongAvoidMeasurements {
    GenericCongAvoidMeasurements {
        acked,
        was_timeout: timeout,
        sacked,
        loss,
        rtt: 20_000,
        inflight: 10,
    }
}

#[test]
fn clean_ack_grows_window_and_writes_back() {
    // local mode, mss 1460, initial window 10 segments, one segment acked:
    // the window grows by 1460 * 1460 / 14600 = 146 bytes
    let mut f = local_flow();
    let act = f.on_report(&report(1_460, 0, 0, false), None, 2_000_000);
    assert_eq!(f.alg.curr_cwnd(), 14_746);
    assert_eq!(f.curr_cwnd_reduction, 0);
    assert_eq!(act.write_cwnd, Some(14_746));
    assert_eq!(act.install, None);
    assert!(!act.reduction_applied);
    assert_eq!(f.rtt, 20_000);
}

#[test]
fn first_loss_reduces_exactly_once() {
    // a loss with the deficit at zero: one reduction, threshold set to the
    // post-reduction window, deficit counter becomes 1
    let mut f = local_flow();
    f.on_report(&report(1_460, 0, 0, false), None, 2_000_000);
    let act = f.on_report(&report(0, 1, 0, false), None, 2_020_000);
    assert!(act.reduction_applied);
    // 14746 / 2 is below the initial window, so the reduction floors there
    assert_eq!(f.alg.curr_cwnd(), INIT_CWND);
    assert_eq!(f.ss_thresh, INIT_CWND);
    assert_eq!(f.curr_cwnd_reduction, 1);
    assert_eq!(act.write_cwnd, Some(INIT_CWND));
    assert_eq!(f.last_cwnd_reduction_us, 2_020_000);
}

#[test]
fn pending_deficit_blocks_further_reductions() {
    // an immediately following loss with the deficit still outstanding:
    // no further reduction, the deficit grows, the write-back is skipped
    let mut f = local_flow();
    f.on_report(&report(1_460, 0, 0, false), None, 2_000_000);
    f.on_report(&report(0, 1, 0, false), None, 2_020_000);
    let window = f.alg.curr_cwnd();
    let act = f.on_report(&report(0, 1, 0, false), None, 2_040_000);
    assert!(!act.reduction_applied);
    assert_eq!(f.curr_cwnd_reduction, 2);
    assert_eq!(act.write_cwnd, None);
    assert_eq!(f.alg.curr_cwnd(), window);
    assert_eq!(f.last_cwnd_reduction_us, 2_020_000);
}

#[test]
fn acked_bytes_pay_the_deficit_down() {
    // with mss 1, each acked byte pays one packet of deficit
    let a = Alg {
        deficit_timeout: 0,
        init_cwnd: 10,
        report_option: GenericCongAvoidConfigReport::Ack,
        ss: GenericCongAvoidConfigSS::Ccp,
        ss_thresh: DEFAULT_SS_THRESH,
        use_compensation: false,
        use_remote: false,
        alg: Reno::default(),
    };
    let (mut f, _) = a.new_flow(10, 1, 1, 1_000_000);
    f.on_report(&report(0, 3, 2, false), None, 2_000_000);
    assert_eq!(f.curr_cwnd_reduction, 5);
    let act = f.on_report(&report(3, 0, 0, false), None, 2_020_000);
    assert_eq!(f.curr_cwnd_reduction, 2);
    assert_eq!(act.write_cwnd, None);
    // acked at or above the counter clears it outright
    f.on_report(&report(2, 0, 0, false), None, 2_040_000);
    assert_eq!(f.curr_cwnd_reduction, 0);
}

#[test]
fn timeout_resets_window_threshold_and_deficit() {
    // timeout at any state: window back to the initial window, threshold
    // halved (floored at the initial window), deficit cleared, one
    // write-back, no reduction bookkeeping
    let mut f = local_flow();
    f.on_report(&report(0, 2, 1, false), None, 2_000_000);
    assert!(f.curr_cwnd_reduction > 0);
    let act = f.on_report(&report(0, 0, 0, true), None, 2_020_000);
    assert_eq!(f.alg.curr_cwnd(), INIT_CWND);
    // the earlier reduction left the threshold at the initial window, and
    // the halving floors there
    assert_eq!(f.ss_thresh, INIT_CWND);
    assert_eq!(f.curr_cwnd_reduction, 0);
    assert_eq!(act.write_cwnd, Some(INIT_CWND));
    assert!(!act.reduction_applied);
}

#[test]
fn timeout_halves_a_high_threshold() {
    let mut f = local_flow();
    f.on_report(&report(0, 0, 0, true), None, 2_000_000);
    assert_eq!(f.ss_thresh, DEFAULT_SS_THRESH / 2);
    assert_eq!(f.alg.curr_cwnd(), INIT_CWND);
}

#[test]
fn timeout_threshold_floors_at_the_initial_window() {
    let mut f = local_flow();
    f.ss_thresh = INIT_CWND + 2;
    f.on_report(&report(0, 0, 0, true), None, 2_000_000);
    assert_eq!(f.ss_thresh, INIT_CWND);
}

#[test]
fn consecutive_timeouts_are_idempotent_near_the_floor() {
    // once the threshold is within a halving of the initial window, a
    // second timeout changes nothing
    let mut f = local_flow();
    f.ss_thresh = 2 * INIT_CWND;
    f.on_report(&report(0, 0, 0, true), None, 2_000_000);
    let (w1, t1, d1) = (f.alg.curr_cwnd(), f.ss_thresh, f.curr_cwnd_reduction);
    f.on_report(&report(0, 0, 0, true), None, 2_020_000);
    assert_eq!(f.alg.curr_cwnd(), w1);
    assert_eq!(f.ss_thresh, t1);
    assert_eq!(f.curr_cwnd_reduction, d1);
    assert_eq!(w1, INIT_CWND);
    assert_eq!(t1, INIT_CWND);
    assert_eq!(d1, 0);
}

#[test]
fn deficit_guard_opens_a_new_episode() {
    // with the guard at one round-trip time, a loss arriving later than
    // rtt * 1 microseconds after the last reduction clears the deficit and
    // reduces again
    let a = Alg {
        deficit_timeout: 1,
        init_cwnd: 0,
        report_option: GenericCongAvoidConfigReport::Ack,
        ss: GenericCongAvoidConfigSS::Ccp,
        ss_thresh: DEFAULT_SS_THRESH,
        use_compensation: false,
        use_remote: false,
        alg: Reno::default(),
    };
    let (mut f, _) = a.new_flow(INIT_CWND, MSS, 1, 1_000_000);
    let act1 = f.on_report(&report(0, 1, 0, false), None, 2_000_000);
    assert!(act1.reduction_applied);
    assert_eq!(f.curr_cwnd_reduction, 1);
    // 30000 microseconds elapsed > 20000 * 1: a new episode
    let act2 = f.on_report(&report(0, 1, 0, false), None, 2_030_000);
    assert!(act2.reduction_applied);
    assert_eq!(f.curr_cwnd_reduction, 1);
    // 10000 microseconds elapsed: still the same episode
    let act3 = f.on_report(&report(0, 1, 0, false), None, 2_040_000);
    assert!(!act3.reduction_applied);
    assert_eq!(f.curr_cwnd_reduction, 2);
}

#[test]
fn startup_transition_happens_exactly_once() {
    // datapath-driven startup: the first report installs the steady-state
    // program and seeds the window from inflight * mss; later reports
    // install nothing
    let a = alg(GenericCongAvoidConfigSS::Datapath, GenericCongAvoidConfigReport::Rtt, false);
    let (mut f, initial) = a.new_flow(INIT_CWND, MSS, 1, 1_000_000);
    assert_eq!(initial, ProgramKind::SsUpdate);
    assert!(f.in_startup);
    let act1 = f.on_report(&report(0, 0, 0, false), None, 2_000_000);
    assert_eq!(act1.install, Some(ProgramKind::DatapathIntervalRtt));
    assert!(!f.in_startup);
    assert_eq!(f.alg.curr_cwnd(), 10 * MSS);
    let act2 = f.on_report(&report(0, 0, 0, false), None, 2_020_000);
    assert_eq!(act2.install, None);
    assert!(!f.in_startup);
}

#[test]
fn startup_transition_carries_the_interval_value() {
    let a = alg(
        GenericCongAvoidConfigSS::Datapath,
        GenericCongAvoidConfigReport::Interval(5_000),
        false,
    );
    let (mut f, initial) = a.new_flow(INIT_CWND, MSS, 1, 1_000_000);
    assert_eq!(initial, ProgramKind::SsUpdate);
    let act = f.on_report(&report(0, 0, 0, false), None, 2_000_000);
    assert_eq!(act.install, Some(ProgramKind::DatapathInterval { report_time_us: 5_000 }));
}

#[test]
fn remote_mode_adjusts_from_telemetry() {
    // a sample with changed utilization 0.5 multiplies the window by 1.5
    let a = alg(GenericCongAvoidConfigSS::Ccp, GenericCongAvoidConfigReport::Ack, true);
    let (mut f, _) = a.new_flow(INIT_CWND, MSS, 1, 1_000_000);
    let status = NetworkStatus { link_utilization: 500, queue_length: 0 };
    let act = f.on_report(&report(1_460, 0, 0, false), Some(&status), 2_000_000);
    assert_eq!(f.alg.curr_cwnd(), 21_900);
    assert_eq!(act.write_cwnd, Some(21_900));
    assert!(!act.reduction_applied);
    // an identical sample holds the window and the stored utilization
    let act2 = f.on_report(&report(1_460, 0, 0, false), Some(&status), 2_020_000);
    assert_eq!(f.alg.curr_cwnd(), 21_900);
    assert_eq!(f.alg.last_utilization, 500);
    assert_eq!(act2.write_cwnd, Some(21_900));
}

#[test]
fn remote_mode_handles_timeout_like_local_mode() {
    let a = alg(GenericCongAvoidConfigSS::Ccp, GenericCongAvoidConfigReport::Ack, true);
    let (mut f, _) = a.new_flow(INIT_CWND, MSS, 1, 1_000_000);
    let act = f.on_report(&report(0, 0, 0, true), None, 2_000_000);
    assert_eq!(f.alg.curr_cwnd(), INIT_CWND);
    assert_eq!(act.write_cwnd, Some(INIT_CWND));
}

#[test]
fn factory_honors_the_initial_window_override() {
    let mut a = alg(GenericCongAvoidConfigSS::Ccp, GenericCongAvoidConfigReport::Ack, false);
    a.init_cwnd = 29_200;
    let (f, _) = a.new_flow(INIT_CWND, MSS, 1, 1_000_000);
    assert_eq!(f.init_cwnd, 29_200);
    assert_eq!(f.alg.curr_cwnd(), 29_200);

    let d = alg(GenericCongAvoidConfigSS::Ccp, GenericCongAvoidConfigReport::Ack, false);
    let (g, _) = d.new_flow(INIT_CWND, MSS, 1, 1_000_000);
    assert_eq!(g.init_cwnd, INIT_CWND);
}

#[test]
fn window_never_falls_below_one_segment() {
    // a long mixed history keeps the monotonic floor
    let mut f = local_flow();
    for i in 0..200u64 {
        let m = match i % 4 {
            0 => report(1_460, 0, 0, false),
            1 => report(0, 3, 1, false),
            2 => report(0, 0, 0, true),
            _ => report(0, 0, 2, false),
        };
        f.on_report(&m, None, 2_000_000 + 10_000 * i);
        assert!(f.alg.curr_cwnd() >= MSS);
        assert!(f.ss_thresh >= INIT_CWND);
    }
}
