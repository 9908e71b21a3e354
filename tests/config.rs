use teru2::config::AppConfig;
use teru2::error::ConfigError;

#[test]
fn config_not_env() {
    let config =
        AppConfig::from_settings(None, None, Some("https://discord.example.com".to_string()))
            .unwrap();
    assert_eq!(config.webhook_username(), "お天気太郎");
    assert_eq!(
        config.weather_forecast_api_url(),
        "https://weather.tsukumijima.net/api/forecast/city/130010"
    );
}

#[test]
fn config_env() {
    let webhook_username = "test_webhook_name";
    let api_url = "https://weather.example.com";
    let webhook_url = "https://discord.example.com";
    let config = AppConfig::from_settings(
        Some(webhook_username.to_string()),
        Some(api_url.to_string()),
        Some(webhook_url.to_string()),
    )
    .unwrap();
    assert_eq!(config.webhook_username(), webhook_username.to_string());
    assert_eq!(config.weather_forecast_api_url(), api_url.to_string());
    assert_eq!(config.webhook_url(), webhook_url.to_string());
}

#[test]
fn config_without_webhook_url_is_refused() {
    let r = AppConfig::from_settings(
        Some("bot".to_string()),
        Some("https://weather.example.com".to_string()),
        None,
    );
    assert_eq!(r.err(), Some(ConfigError::MissingWebhookUrl));
}
