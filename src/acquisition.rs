use vstd::prelude::*;

verus! {

/// Why one retrieval of market statistics failed.
#[derive(Clone, Debug, PartialEq, Eq)]
pub enum FetchError {
    /// The request could not be sent or answered.
    Network(String),
    /// The service answered with a status outside 200..=299.
    Http(u16),
    /// The body was not valid JSON.
    Parse(String),
    /// The body carries an `error` field: rate limited or refused.
    RateLimited,
    /// The body has no `market_data` object.
    MissingMarketData,
}

/// A status code in the success class.
pub open spec fn is_success(status: u16) -> bool {
    200 <= status && status <= 299
}

/// Accepts a status in the success class, refuses any other with `Http`.
pub fn check_status(status: u16) -> (r: Result<(), FetchError>)
    ensures
        is_success(status) <==> r is Ok,
        !is_success(status) ==> r == Err::<(), FetchError>(FetchError::Http(status)),
{
    if 200 <= status && status <= 299 {
        Ok(())
    } else {
        Err(FetchError::Http(status))
    }
}

/// The checks on a parsed body, in this order: an `error` field means the
/// request was refused, then the `market_data` object must be present.
pub open spec fn body_verdict(has_error_field: bool, has_market_data: bool) -> Result<(), FetchError> {
    if has_error_field {
        Err(FetchError::RateLimited)
    } else if !has_market_data {
        Err(FetchError::MissingMarketData)
    } else {
        Ok(())
    }
}

/// Decides whether a parsed body can be read for statistics; see `body_verdict`.
pub fn check_body(has_error_field: bool, has_market_data: bool) -> (r: Result<(), FetchError>)
    ensures
        r == body_verdict(has_error_field, has_market_data),
        r is Ok <==> !has_error_field && has_market_data,
{
    if has_error_field {
        Err(FetchError::RateLimited)
    } else if !has_market_data {
        Err(FetchError::MissingMarketData)
    } else {
        Ok(())
    }
}

} // verus!
