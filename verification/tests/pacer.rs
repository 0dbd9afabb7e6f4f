use xdd_tray::pacer::{fps_to_interval, pace_delay, FramePacer, NANOS_PER_SECOND};

#[test]
fn fps_zero_means_unlimited() {
    assert_eq!(fps_to_interval(0), 0);
}

#[test]
fn fps_30_rounds_to_a_third_of_a_tenth_second() {
    assert_eq!(fps_to_interval(30), 33_333_333);
}

#[test]
fn fps_60_rounds_up() {
    assert_eq!(fps_to_interval(60), 16_666_667);
}

#[test]
fn fps_3_is_a_third_of_a_second() {
    assert_eq!(fps_to_interval(3), 333_333_333);
}

#[test]
fn fps_1_is_one_second() {
    assert_eq!(fps_to_interval(1), NANOS_PER_SECOND);
}

#[test]
fn higher_fps_never_lengthens_the_interval() {
    let mut previous = fps_to_interval(1);
    for fps in 2..=480u32 {
        let interval = fps_to_interval(fps);
        assert!(interval <= previous, "interval grew at {fps} fps");
        previous = interval;
    }
}

#[test]
fn second_tick_in_immediate_succession_waits_a_full_interval() {
    let mut pacer = FramePacer::new();
    pacer.set_limit(10);
    assert_eq!(pacer.interval_ns, 100_000_000);

    // First paced call, long after the epoch the pacer started from.
    let t0: u64 = 5_000_000_000;
    assert_eq!(pacer.tick_delay(t0), 0);
    pacer.record_tick(t0);

    // Second call right away: a full 100 ms interval is still owed.
    assert_eq!(pacer.tick_delay(t0), 100_000_000);
}

#[test]
fn unlimited_pacer_never_waits() {
    let mut pacer = FramePacer::new();
    pacer.set_limit(0);
    let t0: u64 = 5_000_000_000;
    assert_eq!(pacer.tick_delay(t0), 0);
    pacer.record_tick(t0);
    assert_eq!(pacer.tick_delay(t0), 0);
}

#[test]
fn partial_elapsed_time_waits_the_remainder() {
    assert_eq!(pace_delay(100_000_000, 1_000_000_000, 1_030_000_000), 70_000_000);
}

#[test]
fn interval_already_passed_waits_nothing() {
    assert_eq!(pace_delay(100_000_000, 1_000_000_000, 1_130_000_000), 0);
}

#[test]
fn record_tick_is_skipped_while_unlimited() {
    let mut pacer = FramePacer::new();
    pacer.record_tick(7_000_000_000);
    assert_eq!(pacer.last_tick_ns, 0);
    pacer.set_limit(60);
    pacer.record_tick(7_000_000_000);
    assert_eq!(pacer.last_tick_ns, 7_000_000_000);
}

#[test]
fn set_limit_keeps_the_last_tick() {
    let mut pacer = FramePacer::new();
    pacer.set_limit(60);
    pacer.record_tick(2_000_000_000);
    pacer.set_limit(30);
    assert_eq!(pacer.last_tick_ns, 2_000_000_000);
    assert_eq!(pacer.interval_ns, 33_333_333);
}
