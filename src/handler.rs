//! The decisions of one run: what to fetch, what to deliver, and how the run
//! ends. The caller performs each fetch and delivery and hands the outcome back.

use vstd::prelude::*;

use crate::config::AppConfig;
use crate::error::{ConfigError, HandlerError};
use crate::forecast::AreaForcast;
use crate::message::{OutboundMessage, compose_message, presents};

verus! {

#[verifier::external_type_specification]
#[verifier::external_body]
pub struct ExUrl(reqwest::Url);

/// Whether the text is an absolute URL by the URL standard's parser.
pub uninterp spec fn is_absolute_url(s: Seq<char>) -> bool;

/// Relies on reqwest::Url::parse (the url crate's `Url::parse`): it returns a
/// URL exactly when the text parses as an absolute URL, and never panics.
#[verifier::external_body]
fn parse_url(s: &str) -> (r: Option<reqwest::Url>)
    ensures
        r is Some <==> is_absolute_url(s@),
{
    reqwest::Url::parse(s).ok()
}

/// The header value the forecast service is asked with.
pub open spec fn user_agent() -> Seq<char> {
    "teru2bot"@
}

/// The HTTP GET to make for the forecast.
#[derive(Debug)]
pub struct FetchRequest {
    pub url: reqwest::Url,
    pub user_agent: String,
}

/// The webhook call to make: where, and with which message.
#[derive(Clone, Debug)]
pub struct Delivery {
    pub webhook_url: String,
    pub message: OutboundMessage,
}

/// What a completed run reports to its trigger.
#[derive(Clone, Debug, PartialEq, Eq)]
pub struct Response {
    pub req_id: String,
    pub msg: String,
}

/// The message that a completed run reports.
pub open spec fn completion_message() -> Seq<char> {
    "Command executed."@
}

/// The fetch that starts a run: a GET of the configured endpoint with the
/// bot's user agent. An endpoint that is not a URL ends the run here.
pub fn plan_fetch(config: &AppConfig) -> (r: Result<FetchRequest, HandlerError>)
    ensures
        r is Ok <==> is_absolute_url(config.weather_forecast_api_url@),
        r is Err ==> r == Err::<FetchRequest, HandlerError>(
            HandlerError::Configuration(ConfigError::InvalidForecastUrl),
        ),
        r matches Ok(f) ==> f.user_agent@ == user_agent(),
{
    match parse_url(config.weather_forecast_api_url.as_str()) {
        Some(url) => Ok(FetchRequest { url, user_agent: "teru2bot".to_owned() }),
        None => Err(HandlerError::Configuration(ConfigError::InvalidForecastUrl)),
    }
}

/// The delivery that follows a fetch. A failed fetch ends the run with its
/// error, a forecast without days ends it as such, and any other forecast is
/// composed into a message for the configured webhook.
pub fn plan_delivery(config: &AppConfig, fetched: Result<AreaForcast, HandlerError>) -> (r: Result<
    Delivery,
    HandlerError,
>)
    ensures
        fetched matches Err(e) ==> r == Err::<Delivery, HandlerError>(e),
        fetched matches Ok(a) ==> (!a.wf() <==> r == Err::<Delivery, HandlerError>(
            HandlerError::EmptyForecasts,
        )),
        fetched matches Ok(a) ==> (a.wf() <==> r is Ok),
        r matches Ok(d) ==> {
            &&& d.webhook_url == config.webhook_url
            &&& fetched matches Ok(a) && presents(d.message, a, config.webhook_username@)
        },
{
    match fetched {
        Err(e) => Err(e),
        Ok(forecast) => {
            if forecast.forecasts.len() == 0 {
                Err(HandlerError::EmptyForecasts)
            } else {
                let message = compose_message(&forecast, config.webhook_username.as_str());
                Ok(Delivery { webhook_url: config.webhook_url.clone(), message })
            }
        },
    }
}

/// How a run ends once the webhook has answered: it completes, under the
/// trigger's request id, only when the delivery succeeded.
pub fn complete(request_id: String, delivered: Result<bool, HandlerError>) -> (r: Result<
    Response,
    HandlerError,
>)
    ensures
        r is Ok <==> delivered == Ok::<bool, HandlerError>(true),
        r matches Ok(resp) ==> resp.req_id == request_id && resp.msg@ == completion_message(),
        delivered == Ok::<bool, HandlerError>(false) ==> r == Err::<Response, HandlerError>(
            HandlerError::DeliveryRejected,
        ),
        delivered matches Err(e) ==> r == Err::<Response, HandlerError>(e),
{
    match delivered {
        Ok(true) => Ok(Response { req_id: request_id, msg: "Command executed.".to_owned() }),
        Ok(false) => Err(HandlerError::DeliveryRejected),
        Err(e) => Err(e),
    }
}

} // verus!
