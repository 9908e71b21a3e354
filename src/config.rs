//! The three settings of the relay, with the defaults of the two optional ones.

use vstd::prelude::*;

use crate::error::ConfigError;

verus! {

/// The name the bot posts under when none is configured.
pub open spec fn default_webhook_username() -> Seq<char> {
    "お天気太郎"@
}

/// The forecast endpoint used when none is configured: Tokyo's forecast.
pub open spec fn default_weather_forecast_api_url() -> Seq<char> {
    "https://weather.tsukumijima.net/api/forecast/city/130010"@
}

/// The settings of one run: bot name, forecast endpoint and webhook destination.
#[derive(Clone, Debug)]
pub struct AppConfig {
    pub webhook_username: String,
    pub weather_forecast_api_url: String,
    pub webhook_url: String,
}

impl AppConfig {
    /// Settles the configuration from the values that were set. The bot name and
    /// the endpoint fall back to their defaults; the webhook destination has no
    /// default, and its absence is an error.
    pub fn from_settings(
        webhook_username: Option<String>,
        weather_forecast_api_url: Option<String>,
        webhook_url: Option<String>,
    ) -> (r: Result<AppConfig, ConfigError>)
        ensures
            webhook_url is Some <==> r is Ok,
            webhook_url is None <==> r == Err::<AppConfig, ConfigError>(
                ConfigError::MissingWebhookUrl,
            ),
            r matches Ok(c) ==> {
                &&& webhook_url == Some(c.webhook_url)
                &&& c.webhook_username@ == match webhook_username {
                    Some(u) => u@,
                    None => default_webhook_username(),
                }
                &&& c.weather_forecast_api_url@ == match weather_forecast_api_url {
                    Some(u) => u@,
                    None => default_weather_forecast_api_url(),
                }
            },
    {
        let webhook_url = match webhook_url {
            Some(u) => u,
            None => {
                return Err(ConfigError::MissingWebhookUrl);
            },
        };
        let webhook_username = match webhook_username {
            Some(u) => u,
            None => "お天気太郎".to_owned(),
        };
        let weather_forecast_api_url = match weather_forecast_api_url {
            Some(u) => u,
            None => "https://weather.tsukumijima.net/api/forecast/city/130010".to_owned(),
        };
        Ok(AppConfig { webhook_username, weather_forecast_api_url, webhook_url })
    }

    /// The name the bot posts under.
    pub fn webhook_username(&self) -> (r: String)
        ensures
            r == self.webhook_username,
    {
        self.webhook_username.clone()
    }

    /// The endpoint the forecast is fetched from.
    pub fn weather_forecast_api_url(&self) -> (r: String)
        ensures
            r == self.weather_forecast_api_url,
    {
        self.weather_forecast_api_url.clone()
    }

    /// The webhook the message is delivered to.
    pub fn webhook_url(&self) -> (r: String)
        ensures
            r == self.webhook_url,
    {
        self.webhook_url.clone()
    }
}

} // verus!
