use simpfun_sdk::transport::{auth_headers, classify_status, common_headers, retry_delay, should_retry};
use simpfun_sdk::{RetryDelay, SdkError, StatusClass};

fn pairs(v: &[(&str, &str)]) -> Vec<(String, String)> {
    v.iter().map(|(a, b)| (a.to_string(), b.to_string())).collect()
}

#[test]
fn common_headers_with_and_without_referer() {
    assert_eq!(
        common_headers(None),
        pairs(&[("accept", "application/json"), ("content-type", "application/x-www-form-urlencoded")])
    );
    assert_eq!(
        common_headers(Some("https://example.com/")),
        pairs(&[
            ("accept", "application/json"),
            ("content-type", "application/x-www-form-urlencoded"),
            ("referer", "https://example.com/"),
        ])
    );
    // an invalid referer falls back to the site's own
    assert_eq!(common_headers(Some("bad\nreferer"))[2].1, "https://simpfun.cn/");
    // non-ASCII text is a valid header value
    assert_eq!(common_headers(Some("https://例子/"))[2].1, "https://例子/");
}

#[test]
fn auth_headers_need_a_token() {
    assert_eq!(auth_headers(None, None), Err(SdkError::MissingToken));
    let h = auth_headers(None, Some("tok")).unwrap();
    assert_eq!(h.last().unwrap(), &("authorization".to_string(), "tok".to_string()));
    let h = auth_headers(Some("https://simpfun.cn/"), Some("bad\u{7f}")).unwrap();
    assert_eq!(h.len(), 4);
    assert_eq!(h[3].1, "");
    let h = auth_headers(None, Some("tab\tok")).unwrap();
    assert_eq!(h[2].1, "tab\tok");
}

#[test]
fn only_rate_limits_are_retried_three_times() {
    assert!(should_retry(429, 0));
    assert!(should_retry(429, 2));
    assert!(!should_retry(429, 3));
    assert!(!should_retry(500, 0));
}

#[test]
fn retry_after_header_wins() {
    assert_eq!(retry_delay(Some("5"), 0), RetryDelay::Seconds(5));
    assert_eq!(retry_delay(Some("+7"), 2), RetryDelay::Seconds(7));
    assert_eq!(retry_delay(Some("abc"), 1), RetryDelay::Millis(1000));
    assert_eq!(retry_delay(Some("18446744073709551616"), 0), RetryDelay::Millis(500));
    assert_eq!(retry_delay(Some("18446744073709551615"), 0), RetryDelay::Seconds(u64::MAX));
}

#[test]
fn backoff_doubles_up_to_eight_seconds() {
    let ms: Vec<RetryDelay> = (0..6).map(|a| retry_delay(None, a)).collect();
    assert_eq!(
        ms,
        vec![
            RetryDelay::Millis(500),
            RetryDelay::Millis(1000),
            RetryDelay::Millis(2000),
            RetryDelay::Millis(4000),
            RetryDelay::Millis(8000),
            RetryDelay::Millis(8000),
        ]
    );
    assert_eq!(retry_delay(None, 63), RetryDelay::Millis(8000));
    assert_eq!(retry_delay(None, 64), RetryDelay::Millis(8000));
    assert_eq!(retry_delay(None, u32::MAX), RetryDelay::Millis(8000));
}

#[test]
fn statuses_are_classified() {
    assert_eq!(classify_status(200), StatusClass::Success);
    assert_eq!(classify_status(204), StatusClass::Success);
    assert_eq!(classify_status(401), StatusClass::Unauthorized);
    assert_eq!(classify_status(400), StatusClass::Unexpected);
    assert_eq!(classify_status(429), StatusClass::Unexpected);
    assert_eq!(classify_status(300), StatusClass::Unexpected);
}
