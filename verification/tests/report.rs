use healthcheck::report::{report_line, u128_to_dec, HealthCheckResult};

#[test]
fn new_records_fields() {
    let r = HealthCheckResult::new(7, 503);
    assert_eq!(r.time, 7);
    assert_eq!(r.response_code, 503);
}

#[test]
fn success_line_format() {
    let r = HealthCheckResult::new(123, 200);
    assert_eq!(
        report_line("https://api.eastcoast-online.net/version", Some(r)),
        "https://api.eastcoast-online.net/version Status: 200 Response time: 123ms"
    );
}

#[test]
fn reported_status_and_delay_are_the_observed_ones() {
    let r = HealthCheckResult::new(250, 200);
    assert_eq!(
        report_line("https://example.test", Some(r)),
        "https://example.test Status: 200 Response time: 250ms"
    );
}

#[test]
fn failure_line_format() {
    assert_eq!(
        report_line("https://example.test", None),
        "https://example.test Failed."
    );
}

#[test]
fn renders_zero() {
    assert_eq!(u128_to_dec(0), "0");
}

#[test]
fn renders_single_digit() {
    assert_eq!(u128_to_dec(9), "9");
}

#[test]
fn renders_ten() {
    assert_eq!(u128_to_dec(10), "10");
}

#[test]
fn renders_large_value() {
    assert_eq!(u128_to_dec(1234567890), "1234567890");
}

#[test]
fn renders_u128_max() {
    assert_eq!(
        u128_to_dec(u128::MAX),
        "340282366920938463463374607431768211455"
    );
}
