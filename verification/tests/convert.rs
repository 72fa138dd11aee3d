use asdbctl::constants::{
    BRIGHTNESS_RANGE, LEVELS_PER_PERCENT, MAX_BRIGHTNESS, MAX_PERCENT, MIN_BRIGHTNESS,
};
use asdbctl::convert::{clamp_percent, level_to_percent, percent_to_level, step_down, step_up};

#[test]
fn range_constants_agree() {
    assert_eq!(BRIGHTNESS_RANGE, MAX_BRIGHTNESS - MIN_BRIGHTNESS);
    assert_eq!(BRIGHTNESS_RANGE, LEVELS_PER_PERCENT * 100);
    assert_eq!(MAX_PERCENT, 100);
}

#[test]
fn percent_round_trip_at_named_points() {
    for percent in [0u8, 1, 50, 99, 100] {
        assert_eq!(level_to_percent(percent_to_level(i32::from(percent))), percent);
    }
}

#[test]
fn percent_round_trip_is_exact_for_every_percent() {
    for percent in 0..=100u8 {
        assert_eq!(level_to_percent(percent_to_level(i32::from(percent))), percent);
    }
}

#[test]
fn percent_to_level_exact_values() {
    assert_eq!(percent_to_level(0), 400);
    assert_eq!(percent_to_level(1), 996);
    assert_eq!(percent_to_level(37), 22452);
    assert_eq!(percent_to_level(50), 30200);
    assert_eq!(percent_to_level(99), 59404);
    assert_eq!(percent_to_level(100), 60000);
}

#[test]
fn percent_to_level_clamps_overshoot() {
    assert_eq!(percent_to_level(150), 60000);
    assert_eq!(level_to_percent(percent_to_level(150)), 100);
    assert_eq!(percent_to_level(101), 60000);
    assert_eq!(percent_to_level(i32::MAX), 60000);
}

#[test]
fn percent_to_level_clamps_negative() {
    assert_eq!(percent_to_level(-1), 400);
    assert_eq!(percent_to_level(-20), 400);
    assert_eq!(percent_to_level(i32::MIN), 400);
    assert_eq!(level_to_percent(percent_to_level(-20)), 0);
}

#[test]
fn percent_to_level_stays_in_range() {
    for percent in -300..=300 {
        let level = percent_to_level(percent);
        assert!((MIN_BRIGHTNESS..=MAX_BRIGHTNESS).contains(&level));
    }
}

#[test]
fn level_to_percent_exact_values() {
    assert_eq!(level_to_percent(400), 0);
    assert_eq!(level_to_percent(995), 0);
    assert_eq!(level_to_percent(996), 1);
    assert_eq!(level_to_percent(30000), 49);
    assert_eq!(level_to_percent(30199), 49);
    assert_eq!(level_to_percent(30200), 50);
    assert_eq!(level_to_percent(59999), 99);
    assert_eq!(level_to_percent(60000), 100);
}

#[test]
fn level_to_percent_in_range_for_every_level() {
    for level in MIN_BRIGHTNESS..=MAX_BRIGHTNESS {
        assert!(level_to_percent(level) <= 100);
    }
}

#[test]
fn level_to_percent_is_monotonic() {
    let mut previous = 0u8;
    for level in 0..=70000u32 {
        let percent = level_to_percent(level);
        assert!(previous <= percent);
        previous = percent;
    }
}

#[test]
fn level_to_percent_below_range_is_zero() {
    assert_eq!(level_to_percent(0), 0);
    assert_eq!(level_to_percent(1), 0);
    assert_eq!(level_to_percent(399), 0);
}

#[test]
fn level_to_percent_above_range_is_not_clamped_to_100() {
    assert_eq!(level_to_percent(60596), 101);
    assert_eq!(level_to_percent(65535), 109);
}

#[test]
fn level_to_percent_saturates_at_byte_limit() {
    assert_eq!(level_to_percent(152380), 255);
    assert_eq!(level_to_percent(152379), 254);
    assert_eq!(level_to_percent(1_000_000), 255);
    assert_eq!(level_to_percent(u32::MAX), 255);
}

#[test]
fn level_round_trip_loses_less_than_one_percent() {
    for level in MIN_BRIGHTNESS..=MAX_BRIGHTNESS {
        let back = percent_to_level(i32::from(level_to_percent(level)));
        assert!(back <= level);
        assert!(level < back + LEVELS_PER_PERCENT);
    }
}

#[test]
fn clamp_percent_pulls_into_range() {
    assert_eq!(clamp_percent(-7), 0);
    assert_eq!(clamp_percent(0), 0);
    assert_eq!(clamp_percent(42), 42);
    assert_eq!(clamp_percent(100), 100);
    assert_eq!(clamp_percent(150), 100);
    assert_eq!(clamp_percent(i32::MIN), 0);
    assert_eq!(clamp_percent(i32::MAX), 100);
}

#[test]
fn clamp_percent_is_what_reads_back() {
    for percent in -50..=200 {
        assert_eq!(clamp_percent(percent), level_to_percent(percent_to_level(percent)));
    }
}

#[test]
fn step_up_stops_at_100() {
    assert_eq!(step_up(40, 10), 50);
    assert_eq!(step_up(95, 10), 100);
    assert_eq!(step_up(100, 1), 100);
    assert_eq!(step_up(0, 100), 100);
    assert_eq!(step_up(255, 255), 100);
    assert_eq!(step_up(0, 0), 0);
}

#[test]
fn step_down_stops_at_0() {
    assert_eq!(step_down(40, 10), 30);
    assert_eq!(step_down(5, 10), 0);
    assert_eq!(step_down(10, 10), 0);
    assert_eq!(step_down(0, 1), 0);
    assert_eq!(step_down(100, 100), 0);
    assert_eq!(step_down(7, 0), 7);
}
