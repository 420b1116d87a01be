use btc_gauge::acquisition::{check_body, check_status, FetchError};

#[test]
fn success_class_passes() {
    assert_eq!(check_status(200), Ok(()));
    assert_eq!(check_status(299), Ok(()));
}

#[test]
fn status_outside_success_class_fails() {
    assert_eq!(check_status(404), Err(FetchError::Http(404)));
    assert_eq!(check_status(199), Err(FetchError::Http(199)));
    assert_eq!(check_status(300), Err(FetchError::Http(300)));
    assert_eq!(check_status(429), Err(FetchError::Http(429)));
}

#[test]
fn body_with_market_data_passes() {
    assert_eq!(check_body(false, true), Ok(()));
}

#[test]
fn error_field_means_rate_limited() {
    assert_eq!(check_body(true, false), Err(FetchError::RateLimited));
    assert_eq!(check_body(true, true), Err(FetchError::RateLimited));
}

#[test]
fn missing_market_data() {
    assert_eq!(check_body(false, false), Err(FetchError::MissingMarketData));
}
