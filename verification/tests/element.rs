use gst_element::element::ElementCore;
use gst_element::element::SpeedPlan;
use gst_element::element::ASYNC_SEEK_SETTLE_NS;
use gst_element::seek::Format;
use gst_element::seek::SeekType;
use gst_element::state::StateChangeReturn;
use gst_element::units::Fraction;
use gst_element::units::Rate;
use gst_element::units::RATE_UNIT_PPM;

#[test]
fn fresh_core_has_unit_rate_and_zero_position() {
    let core = ElementCore::new();
    assert_eq!(core.speed().ppm, RATE_UNIT_PPM);
    assert_eq!(core.last_position_ns(), 0);
    assert_eq!(core.position_ns(None), 0);
}

#[test]
fn position_passes_a_live_answer_through() {
    let core = ElementCore::new();
    assert_eq!(core.position_ns(Some(7)), 7);
    assert_eq!(core.position_ns(Some(-1)), -1);
}

#[test]
fn position_pct_needs_a_known_duration() {
    let core = ElementCore::new();
    assert_eq!(
        core.position_pct(Some(5), Some(10)),
        Some(Fraction { num: 5, den: 10 })
    );
    assert_eq!(core.position_pct(None, Some(10)), Some(Fraction { num: 0, den: 10 }));
    assert_eq!(core.position_pct(Some(5), None), None);
}

#[test]
fn forward_position_seek_runs_target_to_open_end() {
    let core = ElementCore::new();
    let req = core.position_seek_request(42);
    assert_eq!(req.rate.ppm, RATE_UNIT_PPM);
    assert_eq!(req.format, Format::Time);
    assert!(req.flags.flush);
    assert!(!req.flags.accurate);
    assert!(!req.flags.skip);
    assert_eq!(req.start_type, SeekType::Absolute);
    assert_eq!(req.start, 42);
    assert_eq!(req.stop_type, SeekType::Absolute);
    assert_eq!(req.stop, -1);
}

#[test]
fn reverse_position_seek_runs_zero_to_target() {
    let mut core = ElementCore::new();
    assert!(core.finish_set_speed(Rate { ppm: -RATE_UNIT_PPM }, true));
    let req = core.position_seek_request(42);
    assert_eq!(req.rate.ppm, -RATE_UNIT_PPM);
    assert_eq!(req.start, 0);
    assert_eq!(req.stop, 42);
}

#[test]
fn successful_position_seek_updates_the_fallback() {
    let mut core = ElementCore::new();
    assert!(core.finish_set_position_ns(1234, true));
    assert_eq!(core.last_position_ns(), 1234);
    assert_eq!(core.position_ns(None), 1234);
}

#[test]
fn failed_position_seek_changes_nothing() {
    let mut core = ElementCore::new();
    assert!(!core.finish_set_position_ns(1234, false));
    assert_eq!(core.last_position_ns(), 0);
    assert_eq!(core.speed().ppm, RATE_UNIT_PPM);
}

#[test]
fn half_of_ten_seconds_targets_five_seconds() {
    let mut core = ElementCore::new();
    let target = core.set_position_pct_target(
        Fraction { num: 1, den: 2 },
        Some(10_000_000_000),
    );
    assert_eq!(target, Some(5_000_000_000));
    let req = core.position_seek_request(5_000_000_000);
    assert_eq!(req.start, 5_000_000_000);
    assert_eq!(req.stop, -1);
    assert!(core.finish_set_position_ns(5_000_000_000, true));
    assert_eq!(core.position_ns(None), 5_000_000_000);
}

#[test]
fn pct_seek_with_unknown_duration_fails_without_mutation() {
    let core = ElementCore::new();
    assert_eq!(
        core.set_position_pct_target(Fraction { num: 1, den: 2 }, None),
        None
    );
    assert_eq!(core.last_position_ns(), 0);
}

#[test]
fn zero_rate_plans_a_pause() {
    let core = ElementCore::new();
    assert!(matches!(core.begin_set_speed(Rate { ppm: 0 }), SpeedPlan::Pause));
    assert!(matches!(
        core.begin_set_speed(Rate { ppm: 1 }),
        SpeedPlan::QueryPosition
    ));
    assert!(matches!(
        core.begin_set_speed(Rate { ppm: -1 }),
        SpeedPlan::QueryPosition
    ));
}

#[test]
fn pausing_speed_change_caches_zero_even_on_failure() {
    let mut core = ElementCore::new();
    let ok = core.finish_pause_set_speed(Rate { ppm: 0 }, StateChangeReturn::Failure);
    assert!(!ok);
    assert_eq!(core.speed().ppm, 0);
    let mut other = ElementCore::new();
    assert!(other.finish_pause_set_speed(Rate { ppm: 0 }, StateChangeReturn::Async));
    assert_eq!(other.speed().ppm, 0);
}

#[test]
fn speed_change_fails_when_the_position_query_fails() {
    let core = ElementCore::new();
    assert_eq!(core.rate_seek_request(Rate { ppm: 2_000_000 }, None), None);
    assert_eq!(core.speed().ppm, RATE_UNIT_PPM);
}

#[test]
fn rate_change_seek_skips_accurately_and_flushes() {
    let core = ElementCore::new();
    let req = core
        .rate_seek_request(Rate { ppm: 2_000_000 }, Some(1000))
        .unwrap();
    assert_eq!(req.rate.ppm, 2_000_000);
    assert!(req.flags.flush);
    assert!(req.flags.accurate);
    assert!(req.flags.skip);
    assert_eq!(req.start, 1000);
    assert_eq!(req.stop, -1);
}

#[test]
fn reverse_rate_change_seeks_zero_to_position() {
    let core = ElementCore::new();
    let req = core
        .rate_seek_request(Rate { ppm: -2_000_000 }, Some(1000))
        .unwrap();
    assert_eq!(req.start, 0);
    assert_eq!(req.stop, 1000);
}

#[test]
fn speed_commit_follows_the_seek_outcome() {
    let mut core = ElementCore::new();
    assert!(!core.finish_set_speed(Rate { ppm: 2_000_000 }, false));
    assert_eq!(core.speed().ppm, RATE_UNIT_PPM);
    assert!(core.finish_set_speed(Rate { ppm: 2_000_000 }, true));
    assert_eq!(core.speed().ppm, 2_000_000);
    assert_eq!(core.last_position_ns(), 0);
}

#[test]
fn async_position_seek_caches_at_once_and_asks_for_accuracy() {
    let mut core = ElementCore::new();
    let req = core.begin_set_position_ns_async(9);
    assert_eq!(core.last_position_ns(), 9);
    assert_eq!(core.speed().ppm, RATE_UNIT_PPM);
    assert!(req.flags.flush);
    assert!(req.flags.accurate);
    assert!(!req.flags.skip);
    assert_eq!(req.start, 9);
    assert_eq!(req.stop, -1);
}

#[test]
fn async_pct_seek_fails_synchronously_without_a_duration() {
    let mut core = ElementCore::new();
    let req = core.begin_set_position_pct_async(Fraction { num: 1, den: 2 }, None);
    assert_eq!(req, None);
    assert_eq!(core.last_position_ns(), 0);
    assert_eq!(core.speed().ppm, RATE_UNIT_PPM);
}

#[test]
fn async_pct_seek_targets_the_scaled_duration() {
    let mut core = ElementCore::new();
    let req = core
        .begin_set_position_pct_async(Fraction { num: 1, den: 2 }, Some(10_000_000_000))
        .unwrap();
    assert_eq!(req.start, 5_000_000_000);
    assert_eq!(req.stop, -1);
    assert_eq!(core.last_position_ns(), 5_000_000_000);
}

#[test]
fn async_speed_change_caches_the_rate_optimistically() {
    let mut core = ElementCore::new();
    let plan = core.begin_set_speed_async(Rate { ppm: -3_000_000 });
    assert!(matches!(plan, SpeedPlan::QueryPosition));
    assert_eq!(core.speed().ppm, -3_000_000);
    let plan = core.begin_set_speed_async(Rate { ppm: 0 });
    assert!(matches!(plan, SpeedPlan::Pause));
    assert_eq!(core.speed().ppm, 0);
}

#[test]
fn workers_wait_one_second_for_a_stable_state() {
    assert_eq!(ASYNC_SEEK_SETTLE_NS, 1_000_000_000);
}
