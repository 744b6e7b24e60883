use sensillum::tracker::{ConnectionCounters, REPORT_SECONDS};

#[test]
fn peak_equals_connections_opened() {
    let mut c = ConnectionCounters::new();
    for n in 1..=7usize {
        assert_eq!(c.open(), n);
    }
    assert_eq!(c.active, 7);
    assert_eq!(c.peak, 7);
}

#[test]
fn peak_resets_on_report() {
    let mut c = ConnectionCounters::new();
    for _ in 0..5 {
        c.open();
    }
    assert_eq!(c.take_peak(), 5);
    assert_eq!(c.peak, 0);
    for _ in 0..5 {
        c.close();
    }
    assert_eq!(c.active, 0);
    c.open();
    assert_eq!(c.peak, 1);
    assert_eq!(c.take_peak(), 1);
    assert_eq!(c.take_peak(), 0);
}

#[test]
fn spike_and_descent_within_a_window_is_kept() {
    let mut c = ConnectionCounters::new();
    c.open();
    c.open();
    c.open();
    c.close();
    c.close();
    assert_eq!(c.active, 1);
    assert_eq!(c.take_peak(), 3);
}

#[test]
fn two_spikes_in_one_window_give_one_peak() {
    let mut c = ConnectionCounters::new();
    c.open();
    c.open();
    c.close();
    c.close();
    c.open();
    c.open();
    c.open();
    c.close();
    assert_eq!(c.take_peak(), 3);
}

#[test]
fn counters_wrap_like_machine_words() {
    let mut c = ConnectionCounters { active: usize::MAX, peak: usize::MAX };
    assert_eq!(c.open(), 0);
    assert_eq!(c.peak, usize::MAX);
    let mut d = ConnectionCounters::new();
    d.close();
    assert_eq!(d.active, usize::MAX);
    assert_eq!(d.peak, 0);
}

#[test]
fn report_interval_is_a_minute() {
    assert_eq!(REPORT_SECONDS, 60);
}

#[test]
fn lease_is_handed_out_and_taken_back() {
    let mut c = ConnectionCounters::new();
    let first = c.acquire();
    let second = c.acquire();
    assert_eq!(first.opened_as, 1);
    assert_eq!(second.opened_as, 2);
    assert_eq!(c, ConnectionCounters { active: 2, peak: 2 });
    c.release(first);
    assert_eq!(c, ConnectionCounters { active: 1, peak: 2 });
    c.release(second);
    assert_eq!(c, ConnectionCounters { active: 0, peak: 2 });
}
