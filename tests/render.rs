use teru2::forecast::{
    AreaForcast, ChanceOfRain, Copyright, CopyrightImage, ForcastByDay, Temperature,
    Temperatures, WeatherDetail,
};
use teru2::error::HandlerError;

fn temp(v: Option<&str>) -> Temperature {
    Temperature { celsius: v.map(|s| s.to_string()) }
}

fn rain(a: &str, b: &str, c: &str, d: &str) -> ChanceOfRain {
    ChanceOfRain {
        t00_06: a.to_string(),
        t06_12: b.to_string(),
        t12_18: c.to_string(),
        t18_24: d.to_string(),
    }
}

fn day(label: &str, weather: Option<&str>) -> ForcastByDay {
    ForcastByDay {
        date_label: label.to_string(),
        detail: WeatherDetail { weather: weather.map(|s| s.to_string()) },
        temperature: Temperatures { min: temp(Some("8")), max: temp(Some("17")) },
        chance_of_rain: rain("0%", "10%", "20%", "30%"),
    }
}

fn copyright() -> Copyright {
    Copyright {
        title: "(C) 天気予報 API".to_string(),
        image: CopyrightImage {
            title: "天気予報 API".to_string(),
            url: "https://weather.example.com/logo.png".to_string(),
            link: "https://weather.example.com/".to_string(),
        },
    }
}

fn area(title: &str, days: Vec<ForcastByDay>) -> AreaForcast {
    AreaForcast::new(
        title.to_string(),
        days,
        "2022/01/01 11:00".to_string(),
        "https://www.jma.go.jp/".to_string(),
        copyright(),
    )
    .unwrap()
}

#[test]
fn absent_weather_renders_unknown() {
    assert_eq!(WeatherDetail { weather: None }.to_string(), "不明");
    assert_eq!(WeatherDetail { weather: Some("くもり".to_string()) }.to_string(), "くもり");
    let block = day("明日", None).to_string();
    assert!(block.starts_with("不明\n"));
}

#[test]
fn absent_temperatures_render_dashes() {
    assert_eq!(temp(None).to_string(), "- ℃");
    assert_eq!(temp(Some("12")).to_string(), "12 ℃");
    let both_absent = Temperatures { min: temp(None), max: temp(None) };
    assert_eq!(both_absent.to_string(), "- ℃ ～ - ℃");
    let range = Temperatures { min: temp(Some("3")), max: temp(None) };
    assert_eq!(range.to_string(), "3 ℃ ～ - ℃");
}

#[test]
fn chance_of_rain_joins_four_values() {
    assert_eq!(rain("0%", "10%", "20%", "30%").to_string(), "0% → 10% → 20% → 30%");
    assert_eq!(rain("", "", "", "").to_string(), " →  →  → ");
    assert_eq!(rain("--%", "", "50%", "--%").to_string(), "--% →  → 50% → --%");
}

#[test]
fn day_block_has_three_lines() {
    assert_eq!(
        day("今日", Some("晴れ")).to_string(),
        "晴れ\n:thermometer: 8 ℃ ～ 17 ℃\n:umbrella2: 0% → 10% → 20% → 30%"
    );
}

#[test]
fn title_names_area_and_todays_weather() {
    let a = area("東京都", vec![day("今日", Some("晴れ")), day("明日", Some("雨"))]);
    assert_eq!(a.title_with_weather_summary(), "東京都(晴れ)");
    let b = area("東京都", vec![day("今日", None), day("明日", Some("雨"))]);
    assert_eq!(b.title_with_weather_summary(), "東京都(不明)");
}

#[test]
fn area_text_lists_every_day() {
    let a = area("東京都", vec![day("今日", Some("晴れ")), day("明日", None)]);
    let expected = format!(
        "\n        東京都\n        {}{}\n        ",
        "晴れ\n:thermometer: 8 ℃ ～ 17 ℃\n:umbrella2: 0% → 10% → 20% → 30%",
        "不明\n:thermometer: 8 ℃ ～ 17 ℃\n:umbrella2: 0% → 10% → 20% → 30%"
    );
    assert_eq!(a.to_string(), expected);
}

#[test]
fn forecast_without_days_is_refused() {
    let r = AreaForcast::new(
        "東京都".to_string(),
        vec![],
        "2022/01/01 11:00".to_string(),
        "https://www.jma.go.jp/".to_string(),
        copyright(),
    );
    assert_eq!(r.err(), Some(HandlerError::EmptyForecasts));
}
