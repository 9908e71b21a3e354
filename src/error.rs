//! The ways in which one run of the forecast relay can fail.

use vstd::prelude::*;

verus! {

/// A setting that makes the configuration unusable.
#[derive(Clone, Debug, PartialEq, Eq)]
pub enum ConfigError {
    /// The webhook destination, which has no default, was not given.
    MissingWebhookUrl,
    /// The forecast endpoint is not a URL.
    InvalidForecastUrl,
}

/// Why a run did not deliver its forecast.
#[derive(Clone, Debug, PartialEq, Eq)]
pub enum HandlerError {
    /// The forecast service answered with a document that is not a forecast.
    Decode(String),
    /// The network or the HTTP exchange failed, on fetch or on delivery.
    Transport(String),
    /// The configuration is missing or wrong.
    Configuration(ConfigError),
    /// The forecast holds no day, so there is no "today" to summarise.
    EmptyForecasts,
    /// The webhook accepted the request but reported that nothing was delivered.
    DeliveryRejected,
}

} // verus!
