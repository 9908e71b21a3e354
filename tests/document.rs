use teru2::config::AppConfig;
use teru2::error::HandlerError;
use teru2::forecast::AreaForcast;
use teru2::handler::plan_delivery;
use teru2::json::{Json, Member};

fn s(v: &str) -> Json {
    Json::Str(v.to_string())
}

fn obj(members: Vec<(&str, Json)>) -> Json {
    Json::Object(
        members
            .into_iter()
            .map(|(key, value)| Member { key: key.to_string(), value })
            .collect(),
    )
}

fn day(label: &str, weather: Option<Json>, min: Json, max: Json) -> Json {
    let mut detail = vec![];
    if let Some(w) = weather {
        detail.push(("weather", w));
    }
    obj(vec![
        ("date", s("2022-01-01")),
        ("dateLabel", s(label)),
        ("telop", s("晴時々曇")),
        ("detail", obj(detail)),
        (
            "temperature",
            obj(vec![("min", obj(vec![("celsius", min)])), ("max", obj(vec![("celsius", max)]))]),
        ),
        (
            "chanceOfRain",
            obj(vec![
                ("T00_06", s("--%")),
                ("T06_12", s("0%")),
                ("T12_18", s("10%")),
                ("T18_24", s("20%")),
            ]),
        ),
    ])
}

fn document(days: Vec<Json>) -> Json {
    obj(vec![
        ("publicTime", s("2022-01-01T11:00:00+09:00")),
        ("publicTimeFormatted", s("2022/01/01 11:00:00")),
        ("title", s("東京都 東京 の天気")),
        ("link", s("https://www.jma.go.jp/bosai/forecast/#area_type=offices&area_code=130000")),
        ("forecasts", Json::Array(days)),
        (
            "copyright",
            obj(vec![
                ("title", s("(C) 天気予報 API（livedoor 天気互換）")),
                ("link", s("https://weather.tsukumijima.net/")),
                (
                    "image",
                    obj(vec![
                        ("title", s("天気予報 API（livedoor 天気互換）")),
                        ("link", s("https://weather.tsukumijima.net/")),
                        ("url", s("https://weather.tsukumijima.net/logo.png")),
                        ("width", Json::Number("120".to_string())),
                        ("height", Json::Number("120".to_string())),
                    ]),
                ),
            ]),
        ),
    ])
}

fn two_days() -> Json {
    document(vec![
        day("今日", Some(s("晴れ")), Json::Null, s("12")),
        day("明日", None, s("3"), s("10")),
    ])
}

#[test]
fn decodes_service_document() {
    let a = AreaForcast::from_json(&two_days()).unwrap();
    assert_eq!(a.title, "東京都 東京 の天気");
    assert_eq!(a.public_time_formatted, "2022/01/01 11:00:00");
    assert_eq!(a.forecasts.len(), 2);
    assert_eq!(a.forecasts[0].date_label, "今日");
    assert_eq!(a.forecasts[0].detail.weather.as_deref(), Some("晴れ"));
    assert_eq!(a.forecasts[0].temperature.min.celsius, None);
    assert_eq!(a.forecasts[0].temperature.max.celsius.as_deref(), Some("12"));
    assert_eq!(a.forecasts[1].detail.weather, None);
    assert_eq!(a.forecasts[1].chance_of_rain.t12_18, "10%");
    assert_eq!(a.copyright.image.url, "https://weather.tsukumijima.net/logo.png");
}

#[test]
fn null_weather_reads_as_absent() {
    let doc = document(vec![day("今日", Some(Json::Null), Json::Null, Json::Null)]);
    let a = AreaForcast::from_json(&doc).unwrap();
    assert_eq!(a.forecasts[0].detail.weather, None);
    assert_eq!(a.forecasts[0].detail.to_string(), "不明");
    assert_eq!(a.forecasts[0].temperature.to_string(), "- ℃ ～ - ℃");
}

#[test]
fn two_day_document_becomes_two_fields() {
    let a = AreaForcast::from_json(&two_days());
    let config =
        AppConfig::from_settings(None, None, Some("https://discord.example.com/hook".to_string()))
            .unwrap();
    let d = plan_delivery(&config, a).unwrap();
    assert_eq!(d.message.embed.fields.len(), 2);
    assert_eq!(d.message.embed.fields[1].name, "明日");
    assert_eq!(d.message.embed.fields[1].value.lines().next(), Some("不明"));
    assert_eq!(d.message.embed.title, "東京都 東京 の天気(晴れ)");
}

#[test]
fn missing_member_is_a_decode_error() {
    let doc = obj(vec![("title", s("東京都")), ("forecasts", Json::Array(vec![]))]);
    assert!(matches!(AreaForcast::from_json(&doc), Err(HandlerError::Decode(_))));
    let bad_day = document(vec![obj(vec![("dateLabel", s("今日"))])]);
    assert!(matches!(AreaForcast::from_json(&bad_day), Err(HandlerError::Decode(_))));
    assert!(matches!(AreaForcast::from_json(&s("not an object")), Err(HandlerError::Decode(_))));
}

#[test]
fn mistyped_member_is_a_decode_error() {
    let doc = document(vec![day("今日", Some(Json::Number("1".to_string())), Json::Null, Json::Null)]);
    assert!(matches!(AreaForcast::from_json(&doc), Err(HandlerError::Decode(_))));
    let doc = document(vec![day("今日", None, Json::Bool(true), Json::Null)]);
    assert!(matches!(AreaForcast::from_json(&doc), Err(HandlerError::Decode(_))));
}

#[test]
fn document_without_days_is_refused() {
    let doc = document(vec![]);
    assert_eq!(AreaForcast::from_json(&doc).err(), Some(HandlerError::EmptyForecasts));
}

#[test]
fn encoding_round_trips() {
    let a = AreaForcast::from_json(&two_days()).unwrap();
    let b = AreaForcast::from_json(&a.to_json()).unwrap();
    assert_eq!(b.title, a.title);
    assert_eq!(b.public_time_formatted, a.public_time_formatted);
    assert_eq!(b.link, a.link);
    assert_eq!(b.copyright.title, a.copyright.title);
    assert_eq!(b.copyright.image.link, a.copyright.image.link);
    assert_eq!(b.forecasts.len(), a.forecasts.len());
    for (x, y) in a.forecasts.iter().zip(b.forecasts.iter()) {
        assert_eq!(x.to_string(), y.to_string());
        assert_eq!(x.date_label, y.date_label);
        assert_eq!(x.detail.weather, y.detail.weather);
        assert_eq!(x.temperature.min.celsius, y.temperature.min.celsius);
    }
    assert_eq!(b.to_string(), a.to_string());
}
