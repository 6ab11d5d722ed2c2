use lasim::input::evaluate_two_factor_token;
use lasim::input::instance_address;
use lasim::input::instance_url;
use lasim::rate_limit::compute_delay;
use lasim::upload::estimate_line;
use lasim::upload::estimated_seconds;

#[test]
fn zero_quota_is_clamped() {
    assert_eq!(compute_delay(0, 0), compute_delay(1, 1));
    assert_eq!(compute_delay(0, 0), 1000);
    assert_eq!(compute_delay(-5, -7), 1000);
}

#[test]
fn delay_is_rounded_up() {
    assert_eq!(compute_delay(3, 1), 334);
    assert_eq!(compute_delay(10, 60), 6000);
    assert_eq!(compute_delay(180, 60), 334);
    assert_eq!(compute_delay(1000, 1), 1);
    assert_eq!(compute_delay(i32::MAX, 1), 1);
    assert_eq!(compute_delay(1, i32::MAX), 2_147_483_647_000);
}

#[test]
fn estimates() {
    assert_eq!(estimated_seconds(334, 7), 2);
    assert_eq!(estimated_seconds(1500, 100), 150);
    assert_eq!(estimate_line(150), "Estimated Upload Time: 2m 30s");
    assert_eq!(estimate_line(60), "Estimated Upload Time: 60s");
    assert_eq!(estimate_line(61), "Estimated Upload Time: 1m 1s");
    assert_eq!(estimate_line(0), "Estimated Upload Time: 0s");
}

#[test]
fn tokens() {
    assert_eq!(evaluate_two_factor_token(""), Ok(None));
    assert_eq!(evaluate_two_factor_token("12345"), Err("2FA Token should be 6 characters"));
    assert_eq!(evaluate_two_factor_token("1234567"), Err("2FA Token should be 6 characters"));
    assert_eq!(evaluate_two_factor_token("12345a"), Err("2FA Token should be a number"));
    assert_eq!(evaluate_two_factor_token("12 456"), Err("2FA Token should be a number"));
    assert_eq!(evaluate_two_factor_token("012345"), Ok(Some("012345".to_string())));
    assert_eq!(evaluate_two_factor_token("999999"), Ok(Some("999999".to_string())));
}

#[test]
fn token_with_a_sign_is_not_a_number() {
    assert_eq!(evaluate_two_factor_token("+12345"), Err("2FA Token should be a number"));
    assert_eq!(evaluate_two_factor_token("-12345"), Err("2FA Token should be a number"));
    assert_eq!(evaluate_two_factor_token("12345\u{663}"), Err("2FA Token should be a number"));
}

#[test]
fn instance_addresses() {
    assert_eq!(instance_address("lemmy.world"), "https://lemmy.world");
    assert_eq!(instance_address("http://lemmy.world"), "http://lemmy.world");
    assert_eq!(instance_address("https://lemmy.ml"), "https://lemmy.ml");
}

#[test]
fn instance_urls() {
    let url = instance_url("lemmy.world").unwrap();
    assert_eq!(url.as_str(), "https://lemmy.world/");
    assert_eq!(url.host_str(), Some("lemmy.world"));
    assert!(instance_url("").is_none());
    assert!(instance_url("http://exa mple.com").is_none());
}
