//! The forecast document for one area, as the forecast service publishes it,
//! and the text that each of its parts renders to.

use vstd::prelude::*;

use crate::error::HandlerError;

verus! {

/// What an absent weather description renders as: "unknown".
pub open spec fn unknown_weather_label() -> Seq<char> {
    "不明"@
}

/// What an absent temperature renders as, in place of a number.
pub open spec fn missing_celsius_mark() -> Seq<char> {
    "-"@
}

/// The weather description of one day; absent when the service does not know it.
#[derive(Clone, Debug)]
pub struct WeatherDetail {
    pub weather: Option<String>,
}

/// One temperature reading in degrees Celsius, as text; absent when unknown.
#[derive(Clone, Debug)]
pub struct Temperature {
    pub celsius: Option<String>,
}

/// The lowest and highest temperature of a day.
#[derive(Clone, Debug)]
pub struct Temperatures {
    pub min: Temperature,
    pub max: Temperature,
}

/// The chance of rain, in percent as text, for the four six-hour windows of a day.
#[derive(Clone, Debug)]
pub struct ChanceOfRain {
    pub t00_06: String,
    pub t06_12: String,
    pub t12_18: String,
    pub t18_24: String,
}

/// The forecast for one day, labelled as the service labels it ("今日", "明日", ...).
#[derive(Clone, Debug)]
pub struct ForcastByDay {
    pub date_label: String,
    pub detail: WeatherDetail,
    pub temperature: Temperatures,
    pub chance_of_rain: ChanceOfRain,
}

/// The image credited in the attribution.
#[derive(Clone, Debug)]
pub struct CopyrightImage {
    pub title: String,
    pub url: String,
    pub link: String,
}

/// The attribution that the service asks its users to show.
#[derive(Clone, Debug)]
pub struct Copyright {
    pub title: String,
    pub image: CopyrightImage,
}

/// The whole forecast for one area; the first day is today.
#[derive(Clone, Debug)]
pub struct AreaForcast {
    pub title: String,
    pub forecasts: Vec<ForcastByDay>,
    pub public_time_formatted: String,
    pub link: String,
    pub copyright: Copyright,
}

/// The text that a weather description renders to.
pub open spec fn weather_text(d: WeatherDetail) -> Seq<char> {
    match d.weather {
        Some(w) => w@,
        None => unknown_weather_label(),
    }
}

/// The text that a temperature renders to: the number, or a dash, then the unit.
pub open spec fn temperature_text(t: Temperature) -> Seq<char> {
    match t.celsius {
        Some(c) => c@ + " ℃"@,
        None => missing_celsius_mark() + " ℃"@,
    }
}

/// The text of a day's temperature range.
pub open spec fn temperatures_text(t: Temperatures) -> Seq<char> {
    temperature_text(t.min) + " ～ "@ + temperature_text(t.max)
}

/// The four windows' chances of rain, in the order of the day, joined by arrows.
pub open spec fn chance_of_rain_text(c: ChanceOfRain) -> Seq<char> {
    c.t00_06@ + " → "@ + c.t06_12@ + " → "@ + c.t12_18@ + " → "@ + c.t18_24@
}

/// The three-line block of one day: weather, temperatures, chance of rain.
pub open spec fn day_text(d: ForcastByDay) -> Seq<char> {
    weather_text(d.detail) + "\n:thermometer: "@ + temperatures_text(d.temperature)
        + "\n:umbrella2: "@ + chance_of_rain_text(d.chance_of_rain)
}

/// The blocks of the given days, one after another.
pub open spec fn days_text(days: Seq<ForcastByDay>) -> Seq<char>
    decreases days.len(),
{
    if days.len() == 0 {
        Seq::empty()
    } else {
        days_text(days.drop_last()) + day_text(days.last())
    }
}

/// The text of a whole area forecast: its title, then the block of each day.
pub open spec fn area_text(a: AreaForcast) -> Seq<char> {
    "\n        "@ + a.title@ + "\n        "@ + days_text(a.forecasts@) + "\n        "@
}

/// The one-line title: the area, with today's weather in parentheses.
pub open spec fn title_text(a: AreaForcast) -> Seq<char>
    recommends
        a.forecasts@.len() > 0,
{
    a.title@ + "("@ + weather_text(a.forecasts@[0].detail) + ")"@
}

impl WeatherDetail {
    /// The description, or the fixed "unknown" label when there is none.
    pub fn to_string(&self) -> (r: String)
        ensures
            r@ == weather_text(*self),
            self.weather is None ==> r@ == unknown_weather_label(),
    {
        match &self.weather {
            Some(w) => w.clone(),
            None => "不明".to_owned(),
        }
    }
}

impl Temperature {
    /// The reading followed by " ℃"; a dash stands for an absent reading.
    pub fn to_string(&self) -> (r: String)
        ensures
            r@ == temperature_text(*self),
    {
        let mut r = match &self.celsius {
            Some(c) => c.clone(),
            None => "-".to_owned(),
        };
        r.append(" ℃");
        r
    }
}

impl Temperatures {
    /// "{min} ～ {max}", each rendered as a temperature.
    pub fn to_string(&self) -> (r: String)
        ensures
            r@ == temperatures_text(*self),
    {
        let mut r = self.min.to_string();
        r.append(" ～ ");
        let max = self.max.to_string();
        r.append(max.as_str());
        r
    }
}

impl ChanceOfRain {
    /// The four values from midnight onwards, joined by " → ", whatever they hold.
    pub fn to_string(&self) -> (r: String)
        ensures
            r@ == chance_of_rain_text(*self),
    {
        let mut r = self.t00_06.clone();
        r.append(" → ");
        r.append(self.t06_12.as_str());
        r.append(" → ");
        r.append(self.t12_18.as_str());
        r.append(" → ");
        r.append(self.t18_24.as_str());
        r
    }
}

impl ForcastByDay {
    /// The day's block: the weather, a thermometer line and an umbrella line.
    pub fn to_string(&self) -> (r: String)
        ensures
            r@ == day_text(*self),
    {
        let mut r = self.detail.to_string();
        r.append("\n:thermometer: ");
        let temperature = self.temperature.to_string();
        r.append(temperature.as_str());
        r.append("\n:umbrella2: ");
        let rain = self.chance_of_rain.to_string();
        r.append(rain.as_str());
        r
    }
}

impl AreaForcast {
    /// A forecast is usable when it has at least one day: the first is today.
    pub open spec fn wf(&self) -> bool {
        self.forecasts@.len() > 0
    }

    /// Assembles a forecast, refusing one without any day.
    pub fn new(
        title: String,
        forecasts: Vec<ForcastByDay>,
        public_time_formatted: String,
        link: String,
        copyright: Copyright,
    ) -> (r: Result<AreaForcast, HandlerError>)
        ensures
            forecasts@.len() > 0 <==> r is Ok,
            forecasts@.len() == 0 <==> r == Err::<AreaForcast, HandlerError>(
                HandlerError::EmptyForecasts,
            ),
            r matches Ok(a) ==> {
                &&& a.wf()
                &&& a.title == title
                &&& a.forecasts@ == forecasts@
                &&& a.public_time_formatted == public_time_formatted
                &&& a.link == link
                &&& a.copyright == copyright
            },
    {
        if forecasts.len() == 0 {
            Err(HandlerError::EmptyForecasts)
        } else {
            Ok(AreaForcast { title, forecasts, public_time_formatted, link, copyright })
        }
    }

    /// The area's title with today's weather in parentheses, as "東京都(晴れ)".
    pub fn title_with_weather_summary(&self) -> (r: String)
        requires
            self.wf(),
        ensures
            r@ == title_text(*self),
    {
        let mut r = self.title.clone();
        r.append("(");
        let today = self.forecasts[0].detail.to_string();
        r.append(today.as_str());
        r.append(")");
        r
    }

    /// The title, then each day's block in order.
    pub fn to_string(&self) -> (r: String)
        ensures
            r@ == area_text(*self),
    {
        let mut r = "\n        ".to_owned();
        r.append(self.title.as_str());
        r.append("\n        ");
        let mut i: usize = 0;
        while i < self.forecasts.len()
            invariant
                i <= self.forecasts@.len(),
                r@ == "\n        "@ + self.title@ + "\n        "@ + days_text(
                    self.forecasts@.subrange(0, i as int),
                ),
            decreases self.forecasts@.len() - i,
        {
            let day = self.forecasts[i].to_string();
            r.append(day.as_str());
            proof {
                assert(self.forecasts@.subrange(0, i + 1).drop_last() =~= self.forecasts@.subrange(
                    0,
                    i as int,
                ));
            }
            i = i + 1;
        }
        assert(self.forecasts@.subrange(0, i as int) =~= self.forecasts@);
        r.append("\n        ");
        r
    }
}

} // verus!
