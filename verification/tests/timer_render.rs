use ephemeral::stock::stock_ephemeral_timer_changed;
use ephemeral::OutOfRangeError;
use ephemeral::Timer;

fn enabled(duration: u32) -> Timer {
    Timer::Enabled { duration }
}

#[test]
fn test_stock_ephemeral_messages() {
    assert_eq!(
        stock_ephemeral_timer_changed(Timer::Disabled, "me"),
        "Message deletion timer is disabled by me."
    );
    assert_eq!(
        stock_ephemeral_timer_changed(enabled(1), "me"),
        "Message deletion timer is set to 1 s by me."
    );
    assert_eq!(
        stock_ephemeral_timer_changed(enabled(30), "me"),
        "Message deletion timer is set to 30 s by me."
    );
    assert_eq!(
        stock_ephemeral_timer_changed(enabled(60), "me"),
        "Message deletion timer is set to 1 minute by me."
    );
    assert_eq!(
        stock_ephemeral_timer_changed(enabled(90), "me"),
        "Message deletion timer is set to 1.5 minutes by me."
    );
    assert_eq!(
        stock_ephemeral_timer_changed(enabled(30 * 60), "me"),
        "Message deletion timer is set to 30 minutes by me."
    );
    assert_eq!(
        stock_ephemeral_timer_changed(enabled(60 * 60), "me"),
        "Message deletion timer is set to 1 hour by me."
    );
    assert_eq!(
        stock_ephemeral_timer_changed(enabled(5400), "me"),
        "Message deletion timer is set to 1.5 hours by me."
    );
    assert_eq!(
        stock_ephemeral_timer_changed(enabled(2 * 60 * 60), "me"),
        "Message deletion timer is set to 2 hours by me."
    );
    assert_eq!(
        stock_ephemeral_timer_changed(enabled(24 * 60 * 60), "me"),
        "Message deletion timer is set to 1 day by me."
    );
    assert_eq!(
        stock_ephemeral_timer_changed(enabled(2 * 24 * 60 * 60), "me"),
        "Message deletion timer is set to 2 days by me."
    );
    assert_eq!(
        stock_ephemeral_timer_changed(enabled(7 * 24 * 60 * 60), "me"),
        "Message deletion timer is set to 1 week by me."
    );
    assert_eq!(
        stock_ephemeral_timer_changed(enabled(4 * 7 * 24 * 60 * 60), "me"),
        "Message deletion timer is set to 4 weeks by me."
    );
}

#[test]
fn test_timer_round_trip() {
    assert_eq!(Timer::from_u32(0), Timer::Disabled);
    assert_eq!(Timer::from_u32(1), enabled(1));
    assert_eq!(Timer::from_u32(u32::MAX), enabled(u32::MAX));
    for n in [0u32, 1, 59, 60, 3600, 604800, u32::MAX] {
        assert_eq!(Timer::from_u32(n).to_u32(), n);
    }
    assert_eq!(Timer::from_u32(enabled(77).to_u32()), enabled(77));
    assert_eq!(Timer::from_u32(Timer::Disabled.to_u32()), Timer::Disabled);
}

#[test]
fn test_db_value_codec() {
    assert_eq!(Timer::from_db_value(0), Ok(Timer::Disabled));
    assert_eq!(Timer::from_db_value(1), Ok(enabled(1)));
    assert_eq!(Timer::from_db_value(u32::MAX as i64), Ok(enabled(u32::MAX)));
    assert_eq!(Timer::from_db_value(-1), Err(OutOfRangeError));
    assert_eq!(Timer::from_db_value(u32::MAX as i64 + 1), Err(OutOfRangeError));
    assert_eq!(Timer::from_db_value(i64::MIN), Err(OutOfRangeError));
    assert_eq!(enabled(42).to_db_value(), 42);
    assert_eq!(Timer::Disabled.to_db_value(), 0);
}

#[test]
fn test_default_is_disabled() {
    assert_eq!(Timer::default(), Timer::Disabled);
}

#[test]
fn test_render_boundaries() {
    assert_eq!(
        stock_ephemeral_timer_changed(enabled(59), "me"),
        "Message deletion timer is set to 59 s by me."
    );
    assert_eq!(
        stock_ephemeral_timer_changed(enabled(60), "me"),
        "Message deletion timer is set to 1 minute by me."
    );
    assert_eq!(
        stock_ephemeral_timer_changed(enabled(61), "me"),
        "Message deletion timer is set to 1 minutes by me."
    );
    assert_eq!(
        stock_ephemeral_timer_changed(enabled(3599), "me"),
        "Message deletion timer is set to 60 minutes by me."
    );
    assert_eq!(
        stock_ephemeral_timer_changed(enabled(3600), "me"),
        "Message deletion timer is set to 1 hour by me."
    );
    assert_eq!(
        stock_ephemeral_timer_changed(enabled(3601), "me"),
        "Message deletion timer is set to 1 hours by me."
    );
    assert_eq!(
        stock_ephemeral_timer_changed(enabled(86399), "me"),
        "Message deletion timer is set to 24 hours by me."
    );
    assert_eq!(
        stock_ephemeral_timer_changed(enabled(86400), "me"),
        "Message deletion timer is set to 1 day by me."
    );
    assert_eq!(
        stock_ephemeral_timer_changed(enabled(86401), "me"),
        "Message deletion timer is set to 1 days by me."
    );
    assert_eq!(
        stock_ephemeral_timer_changed(enabled(604799), "me"),
        "Message deletion timer is set to 7 days by me."
    );
    assert_eq!(
        stock_ephemeral_timer_changed(enabled(604800), "me"),
        "Message deletion timer is set to 1 week by me."
    );
    assert_eq!(
        stock_ephemeral_timer_changed(enabled(604801), "me"),
        "Message deletion timer is set to 1 weeks by me."
    );
}

#[test]
fn test_render_fractions() {
    assert_eq!(
        stock_ephemeral_timer_changed(enabled(90), "me"),
        "Message deletion timer is set to 1.5 minutes by me."
    );
    assert_eq!(
        stock_ephemeral_timer_changed(enabled(5400), "me"),
        "Message deletion timer is set to 1.5 hours by me."
    );
    assert_eq!(
        stock_ephemeral_timer_changed(enabled(2419200), "me"),
        "Message deletion timer is set to 4 weeks by me."
    );
    assert_eq!(
        stock_ephemeral_timer_changed(enabled(129600), "me"),
        "Message deletion timer is set to 1.5 days by me."
    );
    assert_eq!(
        stock_ephemeral_timer_changed(enabled(u32::MAX), "me"),
        "Message deletion timer is set to 7101.5 weeks by me."
    );
}

#[test]
fn test_render_other_actor() {
    assert_eq!(
        stock_ephemeral_timer_changed(Timer::Disabled, "Alice"),
        "Message deletion timer is disabled by Alice."
    );
    assert_eq!(
        stock_ephemeral_timer_changed(enabled(60), "Alice"),
        "Message deletion timer is set to 1 minute by Alice."
    );
}
