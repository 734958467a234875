use mbus_events::retry::{backoff_with_options, BackoffOptions};

#[test]
fn defaults_match_the_documented_policy() {
    let options = BackoffOptions::new();
    assert_eq!(options.init_delay, 5000);
    assert_eq!(options.cutoff, 4);
    assert_eq!(options.step, 2000);
    assert_eq!(options.max_delay, 10000);
    assert_eq!(options.max_retries, 10);
    let publish = BackoffOptions::publish_backoff_options();
    assert_eq!(publish.init_delay, options.init_delay);
    assert_eq!(publish.max_retries, options.max_retries);
}

#[test]
fn builders_replace_single_fields() {
    let options = BackoffOptions::new()
        .with_init_delay(100)
        .with_delay_step(10)
        .with_cutoff(2)
        .with_max_delay(125)
        .with_max_retries(7);
    assert_eq!(options.init_delay, 100);
    assert_eq!(options.step, 10);
    assert_eq!(options.cutoff, 2);
    assert_eq!(options.max_delay, 125);
    assert_eq!(options.max_retries, 7);
}

#[test]
fn delay_is_flat_until_the_cutoff_then_grows_to_the_ceiling() {
    let options = BackoffOptions::new()
        .with_init_delay(100)
        .with_cutoff(3)
        .with_delay_step(10)
        .with_max_delay(125);
    let mut tries: u32 = 0;
    // Attempts 1 through 3 wait the initial delay.
    assert_eq!(backoff_with_options(&mut tries, &options), 100);
    assert_eq!(backoff_with_options(&mut tries, &options), 100);
    assert_eq!(backoff_with_options(&mut tries, &options), 100);
    // Attempt 4 is the first past the cutoff: still the initial delay,
    // then linear growth by the step.
    assert_eq!(backoff_with_options(&mut tries, &options), 100);
    assert_eq!(backoff_with_options(&mut tries, &options), 110);
    assert_eq!(backoff_with_options(&mut tries, &options), 120);
    // The ceiling caps further growth.
    assert_eq!(backoff_with_options(&mut tries, &options), 125);
    assert_eq!(backoff_with_options(&mut tries, &options), 125);
    assert_eq!(tries, 8);
}

#[test]
fn delay_growth_never_overflows() {
    let options = BackoffOptions::new()
        .with_init_delay(u64::MAX - 1)
        .with_cutoff(0)
        .with_delay_step(u64::MAX)
        .with_max_delay(u64::MAX);
    let mut tries: u32 = 0;
    // Attempt 1 sits exactly at the cutoff boundary: zero growth steps.
    assert_eq!(backoff_with_options(&mut tries, &options), u64::MAX - 1);
    // Growth would exceed the integer range; the ceiling takes over.
    assert_eq!(backoff_with_options(&mut tries, &options), u64::MAX);
    assert_eq!(backoff_with_options(&mut tries, &options), u64::MAX);
}
