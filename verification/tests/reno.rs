use generic_cong_avoid::reno::Reno;
use generic_cong_avoid::strategy::{GenericCongAvoidFlow, RemoteGenericCongAvoidAlg};
use generic_cong_avoid::{GenericCongAvoidMeasurements, NetworkStatus};

fn measurement(acked: u32, loss: u32, sacked: u32) -> GenericCongAvoidMeasurements {
    GenericCongAvoidMeasurements {
        acked,
        was_timeout: false,
        sacked,
        loss,
        rtt: 20_000,
        inflight: 10,
    }
}

fn fresh_reno(cwnd: u32) -> Reno {
    let factory = Reno::default();
    let mut r = factory.new_flow(14_600, 1_460, 3);
    r.set_cwnd(cwnd);
    r
}

#[test]
fn new_flow_starts_at_initial_window() {
    let factory = Reno::default();
    let r = factory.new_flow(14_600, 1_460, 9);
    assert_eq!(r.curr_cwnd(), 14_600);
    assert_eq!(r.mss, 1_460);
    assert_eq!(r.init_cwnd, 14_600);
    assert_eq!(r.sock_id, 9);
    assert_eq!(r.last_utilization, 0);
}

#[test]
fn increase_grows_one_segment_per_window_of_acks() {
    // cwnd += mss * acked / cwnd: 1460 * 1460 / 14600 = 146
    let mut r = fresh_reno(14_600);
    r.increase(&measurement(1_460, 0, 0));
    assert_eq!(r.curr_cwnd(), 14_746);
}

#[test]
fn increase_with_no_acks_holds_the_window() {
    let mut r = fresh_reno(14_600);
    r.increase(&measurement(0, 0, 0));
    assert_eq!(r.curr_cwnd(), 14_600);
}

#[test]
fn reduction_halves_the_window() {
    let mut r = fresh_reno(60_000);
    r.reduction(&measurement(0, 1, 0));
    assert_eq!(r.curr_cwnd(), 30_000);
}

#[test]
fn reduction_floors_at_the_initial_window() {
    let mut r = fresh_reno(29_200);
    r.reduction(&measurement(0, 1, 0));
    assert_eq!(r.curr_cwnd(), 14_600);

    let mut low = fresh_reno(14_600);
    low.reduction(&measurement(0, 1, 0));
    assert_eq!(low.curr_cwnd(), 14_600);
}

#[test]
fn adjust_multiplies_by_headroom_factor() {
    // utilization 0.5 differs from the previous sample:
    // cwnd *= 3 / (2 * 0.5 + 1) = 1.5
    let mut r = fresh_reno(14_600);
    let status = NetworkStatus { link_utilization: 500, queue_length: 0 };
    r.adjust_cwnd(&status, &measurement(1_460, 0, 0));
    assert_eq!(r.curr_cwnd(), 21_900);
    assert_eq!(r.last_utilization, 500);
}

#[test]
fn adjust_holds_when_utilization_is_unchanged() {
    let mut r = fresh_reno(14_600);
    let status = NetworkStatus { link_utilization: 500, queue_length: 0 };
    r.adjust_cwnd(&status, &measurement(1_460, 0, 0));
    let grown = r.curr_cwnd();
    r.adjust_cwnd(&status, &measurement(1_460, 0, 0));
    assert_eq!(r.curr_cwnd(), grown);
    assert_eq!(r.last_utilization, 500);
}

#[test]
fn adjust_grows_additively_near_full_utilization() {
    // utilization in [0.8, 1.0): additive growth, as in local mode
    let mut r = fresh_reno(14_600);
    let status = NetworkStatus { link_utilization: 850, queue_length: 0 };
    r.adjust_cwnd(&status, &measurement(1_460, 0, 0));
    assert_eq!(r.curr_cwnd(), 14_746);
}

#[test]
fn adjust_divides_by_utilization_when_overloaded() {
    let mut r = fresh_reno(20_000);
    let status = NetworkStatus { link_utilization: 2_000, queue_length: 0 };
    r.adjust_cwnd(&status, &measurement(0, 0, 0));
    assert_eq!(r.curr_cwnd(), 10_000);
}

#[test]
fn adjust_charges_a_third_of_a_standing_queue() {
    // utilization 0.95 with a 3000-byte queue: no growth for zero acked
    // bytes, penalty of 1000 bytes
    let mut r = fresh_reno(14_600);
    let status = NetworkStatus { link_utilization: 950, queue_length: 3_000 };
    r.adjust_cwnd(&status, &measurement(0, 0, 0));
    assert_eq!(r.curr_cwnd(), 13_600);
}

#[test]
fn adjust_never_drops_below_one_segment() {
    let mut r = fresh_reno(14_600);
    let status = NetworkStatus { link_utilization: 950, queue_length: 2_000_000 };
    r.adjust_cwnd(&status, &measurement(0, 0, 0));
    assert_eq!(r.curr_cwnd(), 1_460);
}

#[test]
fn algorithm_name_is_reno() {
    assert_eq!(Reno::name(), "reno");
}
