//! The forecast service's JSON document: which members hold which part of the
//! forecast, how absent and null values read, and the way back to JSON.
//!
//! Members are named in camelCase ("dateLabel", "publicTimeFormatted"), except
//! the chance-of-rain windows, which are upper case ("T00_06"). The weather
//! description and each temperature may be absent or null; everything else is
//! required, and members that the forecast does not use are ignored.

use vstd::prelude::*;

use crate::error::HandlerError;
use crate::forecast::{
    AreaForcast, ChanceOfRain, Copyright, CopyrightImage, ForcastByDay, Temperature,
    Temperatures, WeatherDetail,
};
use crate::json::{Json, Member, field, get_field, lemma_lookup_first, member};

verus! {

/// The text held by a member, if it is a string.
pub open spec fn str_of(v: Option<Json>) -> Option<String> {
    match v {
        Some(Json::Str(s)) => Some(s),
        _ => None,
    }
}

/// An optional text member: absent or null reads as `None` inside, a string as
/// `Some` inside; any other value does not read (the outer `None`).
pub open spec fn opt_str_of(v: Option<Json>) -> Option<Option<String>> {
    match v {
        None => Some(None),
        Some(Json::Null) => Some(None),
        Some(Json::Str(s)) => Some(Some(s)),
        _ => None,
    }
}

pub open spec fn detail_of(v: Json) -> Option<WeatherDetail> {
    match (v, opt_str_of(field(v, "weather"@))) {
        (Json::Object(_), Some(weather)) => Some(WeatherDetail { weather }),
        _ => None,
    }
}

pub open spec fn temperature_of(v: Json) -> Option<Temperature> {
    match (v, opt_str_of(field(v, "celsius"@))) {
        (Json::Object(_), Some(celsius)) => Some(Temperature { celsius }),
        _ => None,
    }
}

pub open spec fn temperatures_of(v: Json) -> Option<Temperatures> {
    match (field(v, "min"@), field(v, "max"@)) {
        (Some(min), Some(max)) => match (temperature_of(min), temperature_of(max)) {
            (Some(min), Some(max)) => Some(Temperatures { min, max }),
            _ => None,
        },
        _ => None,
    }
}

pub open spec fn chance_of_rain_of(v: Json) -> Option<ChanceOfRain> {
    match (
        str_of(field(v, "T00_06"@)),
        str_of(field(v, "T06_12"@)),
        str_of(field(v, "T12_18"@)),
        str_of(field(v, "T18_24"@)),
    ) {
        (Some(t00_06), Some(t06_12), Some(t12_18), Some(t18_24)) => Some(
            ChanceOfRain { t00_06, t06_12, t12_18, t18_24 },
        ),
        _ => None,
    }
}

/// The forecast of one day that a JSON value reads as, if it reads as one.
pub open spec fn day_of(v: Json) -> Option<ForcastByDay> {
    match (field(v, "detail"@), field(v, "temperature"@), field(v, "chanceOfRain"@)) {
        (Some(d), Some(t), Some(c)) => match (
            str_of(field(v, "dateLabel"@)),
            detail_of(d),
            temperatures_of(t),
            chance_of_rain_of(c),
        ) {
            (Some(date_label), Some(detail), Some(temperature), Some(chance_of_rain)) => Some(
                ForcastByDay { date_label, detail, temperature, chance_of_rain },
            ),
            _ => None,
        },
        _ => None,
    }
}

pub open spec fn copyright_image_of(v: Json) -> Option<CopyrightImage> {
    match (str_of(field(v, "title"@)), str_of(field(v, "url"@)), str_of(field(v, "link"@))) {
        (Some(title), Some(url), Some(link)) => Some(CopyrightImage { title, url, link }),
        _ => None,
    }
}

pub open spec fn copyright_of(v: Json) -> Option<Copyright> {
    match field(v, "image"@) {
        Some(i) => match (str_of(field(v, "title"@)), copyright_image_of(i)) {
            (Some(title), Some(image)) => Some(Copyright { title, image }),
            _ => None,
        },
        None => None,
    }
}

/// The attribution of a document, if its "copyright" member reads as one.
pub open spec fn copyright_at(j: Json) -> Option<Copyright> {
    match field(j, "copyright"@) {
        Some(c) => copyright_of(c),
        None => None,
    }
}

/// The days of a document, if its "forecasts" member is an array.
pub open spec fn days_at(j: Json) -> Option<Seq<Json>> {
    match field(j, "forecasts"@) {
        Some(Json::Array(ds)) => Some(ds@),
        _ => None,
    }
}

/// Whether the document has every required member, each of the right kind.
pub open spec fn readable(j: Json) -> bool {
    &&& str_of(field(j, "title"@)) is Some
    &&& days_at(j) matches Some(ds) && forall|i: int|
        0 <= i < ds.len() ==> (#[trigger] day_of(ds[i])) is Some
    &&& str_of(field(j, "publicTimeFormatted"@)) is Some
    &&& str_of(field(j, "link"@)) is Some
    &&& copyright_at(j) is Some
}

/// Whether `a` is what the document says, part for part.
pub open spec fn decodes_to(j: Json, a: AreaForcast) -> bool {
    &&& str_of(field(j, "title"@)) == Some(a.title)
    &&& days_at(j) matches Some(ds) && ds.len() == a.forecasts@.len() && forall|i: int|
        0 <= i < ds.len() ==> #[trigger] day_of(ds[i]) == Some(a.forecasts@[i])
    &&& str_of(field(j, "publicTimeFormatted"@)) == Some(a.public_time_formatted)
    &&& str_of(field(j, "link"@)) == Some(a.link)
    &&& copyright_at(j) == Some(a.copyright)
}

/// The error for a member that is missing or of the wrong kind.
fn invalid_member(key: &str) -> (r: HandlerError)
    ensures
        r is Decode,
{
    let mut m = "missing or invalid member `".to_owned();
    m.append(key);
    m.append("`");
    HandlerError::Decode(m)
}

fn read_str(j: &Json, key: &str) -> (r: Result<String, HandlerError>)
    ensures
        r matches Ok(s) ==> str_of(field(*j, key@)) == Some(s),
        r matches Err(e) ==> e is Decode && str_of(field(*j, key@)) is None,
{
    match get_field(j, key) {
        Some(Json::Str(s)) => Ok(s.clone()),
        _ => Err(invalid_member(key)),
    }
}

fn read_opt_str(j: &Json, key: &str) -> (r: Result<Option<String>, HandlerError>)
    ensures
        r matches Ok(s) ==> opt_str_of(field(*j, key@)) == Some(s),
        r matches Err(e) ==> e is Decode && opt_str_of(field(*j, key@)) is None,
{
    match get_field(j, key) {
        None => Ok(None),
        Some(Json::Null) => Ok(None),
        Some(Json::Str(s)) => Ok(Some(s.clone())),
        _ => Err(invalid_member(key)),
    }
}

fn read_member<'a>(j: &'a Json, key: &str) -> (r: Result<&'a Json, HandlerError>)
    ensures
        r matches Ok(v) ==> field(*j, key@) == Some(*v),
        r matches Err(e) ==> e is Decode && field(*j, key@) is None,
{
    match get_field(j, key) {
        Some(v) => Ok(v),
        None => Err(invalid_member(key)),
    }
}

fn read_detail(v: &Json) -> (r: Result<WeatherDetail, HandlerError>)
    ensures
        r matches Ok(d) ==> detail_of(*v) == Some(d),
        r matches Err(e) ==> e is Decode && detail_of(*v) is None,
{
    match v {
        Json::Object(_) => {
            let weather = read_opt_str(v, "weather")?;
            Ok(WeatherDetail { weather })
        },
        _ => Err(invalid_member("detail")),
    }
}

fn read_temperature(v: &Json) -> (r: Result<Temperature, HandlerError>)
    ensures
        r matches Ok(t) ==> temperature_of(*v) == Some(t),
        r matches Err(e) ==> e is Decode && temperature_of(*v) is None,
{
    match v {
        Json::Object(_) => {
            let celsius = read_opt_str(v, "celsius")?;
            Ok(Temperature { celsius })
        },
        _ => Err(invalid_member("temperature")),
    }
}

fn read_temperatures(v: &Json) -> (r: Result<Temperatures, HandlerError>)
    ensures
        r matches Ok(t) ==> temperatures_of(*v) == Some(t),
        r matches Err(e) ==> e is Decode && temperatures_of(*v) is None,
{
    let min = read_member(v, "min")?;
    let max = read_member(v, "max")?;
    let min = read_temperature(min)?;
    let max = read_temperature(max)?;
    Ok(Temperatures { min, max })
}

fn read_chance_of_rain(v: &Json) -> (r: Result<ChanceOfRain, HandlerError>)
    ensures
        r matches Ok(c) ==> chance_of_rain_of(*v) == Some(c),
        r matches Err(e) ==> e is Decode && chance_of_rain_of(*v) is None,
{
    let t00_06 = read_str(v, "T00_06")?;
    let t06_12 = read_str(v, "T06_12")?;
    let t12_18 = read_str(v, "T12_18")?;
    let t18_24 = read_str(v, "T18_24")?;
    Ok(ChanceOfRain { t00_06, t06_12, t12_18, t18_24 })
}

fn read_day(v: &Json) -> (r: Result<ForcastByDay, HandlerError>)
    ensures
        r matches Ok(d) ==> day_of(*v) == Some(d),
        r matches Err(e) ==> e is Decode && day_of(*v) is None,
{
    let d = read_member(v, "detail")?;
    let t = read_member(v, "temperature")?;
    let c = read_member(v, "chanceOfRain")?;
    let date_label = read_str(v, "dateLabel")?;
    let detail = read_detail(d)?;
    let temperature = read_temperatures(t)?;
    let chance_of_rain = read_chance_of_rain(c)?;
    Ok(ForcastByDay { date_label, detail, temperature, chance_of_rain })
}

fn read_copyright(v: &Json) -> (r: Result<Copyright, HandlerError>)
    ensures
        r matches Ok(c) ==> copyright_of(*v) == Some(c),
        r matches Err(e) ==> e is Decode && copyright_of(*v) is None,
{
    let i = read_member(v, "image")?;
    let title = read_str(v, "title")?;
    let image_title = read_str(i, "title")?;
    let url = read_str(i, "url")?;
    let link = read_str(i, "link")?;
    Ok(Copyright { title, image: CopyrightImage { title: image_title, url, link } })
}

fn read_days(j: &Json) -> (r: Result<Vec<ForcastByDay>, HandlerError>)
    ensures
        r matches Ok(v) ==> days_at(*j) matches Some(ds) && ds.len() == v@.len() && forall|i: int|
            0 <= i < ds.len() ==> #[trigger] day_of(ds[i]) == Some(v@[i]),
        r matches Err(e) ==> e is Decode && !(days_at(*j) matches Some(ds) && forall|i: int|
            0 <= i < ds.len() ==> (#[trigger] day_of(ds[i])) is Some),
{
    match get_field(j, "forecasts") {
        Some(Json::Array(ds)) => {
            let mut days: Vec<ForcastByDay> = Vec::new();
            let mut i: usize = 0;
            while i < ds.len()
                invariant
                    i <= ds@.len(),
                    days_at(*j) == Some(ds@),
                    days@.len() == i,
                    forall|k: int| 0 <= k < i ==> #[trigger] day_of(ds@[k]) == Some(days@[k]),
                decreases ds@.len() - i,
            {
                let day = read_day(&ds[i])?;
                days.push(day);
                i = i + 1;
            }
            Ok(days)
        },
        _ => Err(invalid_member("forecasts")),
    }
}

impl AreaForcast {
    /// Reads a forecast from the service's document. A document that lacks a
    /// required member, or holds one of the wrong kind, is a decode error; one
    /// that reads but lists no day is refused, for there is no today.
    pub fn from_json(j: &Json) -> (r: Result<AreaForcast, HandlerError>)
        ensures
            r is Ok <==> readable(*j) && days_at(*j)->Some_0.len() > 0,
            r == Err::<AreaForcast, HandlerError>(HandlerError::EmptyForecasts) <==> readable(*j)
                && days_at(*j)->Some_0.len() == 0,
            r matches Err(e) ==> (e is Decode <==> !readable(*j)),
            r matches Ok(a) ==> a.wf() && decodes_to(*j, a),
    {
        let title = read_str(j, "title")?;
        let forecasts = read_days(j)?;
        let public_time_formatted = read_str(j, "publicTimeFormatted")?;
        let link = read_str(j, "link")?;
        let copyright = read_member(j, "copyright")?;
        let copyright = read_copyright(copyright)?;
        let ghost ds = days_at(*j)->Some_0;
        assert(forall|i: int| 0 <= i < ds.len() ==> (#[trigger] day_of(ds[i])) is Some);
        AreaForcast::new(title, forecasts, public_time_formatted, link, copyright)
    }
}

fn text(s: &String) -> (r: Json)
    ensures
        str_of(Some(r)) == Some(*s),
        opt_str_of(Some(r)) == Some(Some(*s)),
{
    Json::Str(s.clone())
}

fn optional_text(o: &Option<String>) -> (r: Json)
    ensures
        opt_str_of(Some(r)) == Some(*o),
{
    match o {
        Some(s) => text(s),
        None => Json::Null,
    }
}

impl WeatherDetail {
    /// `{"weather": ...}`, with null for an absent description.
    pub fn to_json(&self) -> (r: Json)
        ensures
            detail_of(r) == Some(*self),
    {
        let mut ms: Vec<Member> = Vec::new();
        ms.push(member("weather", optional_text(&self.weather)));
        proof {
            lemma_lookup_first(ms@, 0, "weather"@);
        }
        Json::Object(ms)
    }
}

impl Temperature {
    /// `{"celsius": ...}`, with null for an absent reading.
    pub fn to_json(&self) -> (r: Json)
        ensures
            temperature_of(r) == Some(*self),
    {
        let mut ms: Vec<Member> = Vec::new();
        ms.push(member("celsius", optional_text(&self.celsius)));
        proof {
            lemma_lookup_first(ms@, 0, "celsius"@);
        }
        Json::Object(ms)
    }
}

impl Temperatures {
    /// `{"min": ..., "max": ...}`.
    pub fn to_json(&self) -> (r: Json)
        ensures
            temperatures_of(r) == Some(*self),
    {
        let mut ms: Vec<Member> = Vec::new();
        ms.push(member("min", self.min.to_json()));
        ms.push(member("max", self.max.to_json()));
        proof {
            reveal_strlit("min");
            reveal_strlit("max");
            assert("min"@[1] != "max"@[1]);
            lemma_lookup_first(ms@, 0, "min"@);
            lemma_lookup_first(ms@, 1, "max"@);
        }
        Json::Object(ms)
    }
}

impl ChanceOfRain {
    /// `{"T00_06": ..., "T06_12": ..., "T12_18": ..., "T18_24": ...}`.
    pub fn to_json(&self) -> (r: Json)
        ensures
            chance_of_rain_of(r) == Some(*self),
    {
        let mut ms: Vec<Member> = Vec::new();
        ms.push(member("T00_06", text(&self.t00_06)));
        ms.push(member("T06_12", text(&self.t06_12)));
        ms.push(member("T12_18", text(&self.t12_18)));
        ms.push(member("T18_24", text(&self.t18_24)));
        proof {
            reveal_strlit("T00_06");
            reveal_strlit("T06_12");
            reveal_strlit("T12_18");
            reveal_strlit("T18_24");
            assert("T00_06"@[2] != "T06_12"@[2]);
            assert("T00_06"@[1] != "T12_18"@[1]);
            assert("T06_12"@[1] != "T12_18"@[1]);
            assert("T00_06"@[1] != "T18_24"@[1]);
            assert("T06_12"@[1] != "T18_24"@[1]);
            assert("T12_18"@[2] != "T18_24"@[2]);
            lemma_lookup_first(ms@, 0, "T00_06"@);
            lemma_lookup_first(ms@, 1, "T06_12"@);
            lemma_lookup_first(ms@, 2, "T12_18"@);
            lemma_lookup_first(ms@, 3, "T18_24"@);
        }
        Json::Object(ms)
    }
}

impl ForcastByDay {
    /// `{"dateLabel": ..., "detail": ..., "temperature": ..., "chanceOfRain": ...}`.
    pub fn to_json(&self) -> (r: Json)
        ensures
            day_of(r) == Some(*self),
    {
        let mut ms: Vec<Member> = Vec::new();
        ms.push(member("dateLabel", text(&self.date_label)));
        ms.push(member("detail", self.detail.to_json()));
        ms.push(member("temperature", self.temperature.to_json()));
        ms.push(member("chanceOfRain", self.chance_of_rain.to_json()));
        proof {
            reveal_strlit("dateLabel");
            reveal_strlit("detail");
            reveal_strlit("temperature");
            reveal_strlit("chanceOfRain");
            assert("dateLabel"@.len() == 9);
            assert("detail"@.len() == 6);
            assert("temperature"@.len() == 11);
            assert("chanceOfRain"@.len() == 12);
            lemma_lookup_first(ms@, 0, "dateLabel"@);
            lemma_lookup_first(ms@, 1, "detail"@);
            lemma_lookup_first(ms@, 2, "temperature"@);
            lemma_lookup_first(ms@, 3, "chanceOfRain"@);
        }
        Json::Object(ms)
    }
}

impl Copyright {
    /// `{"title": ..., "image": {"title": ..., "url": ..., "link": ...}}`.
    pub fn to_json(&self) -> (r: Json)
        ensures
            copyright_of(r) == Some(*self),
    {
        let mut image: Vec<Member> = Vec::new();
        image.push(member("title", text(&self.image.title)));
        image.push(member("url", text(&self.image.url)));
        image.push(member("link", text(&self.image.link)));
        proof {
            reveal_strlit("title");
            reveal_strlit("url");
            reveal_strlit("link");
            assert("title"@.len() == 5);
            assert("url"@.len() == 3);
            assert("link"@.len() == 4);
            lemma_lookup_first(image@, 0, "title"@);
            lemma_lookup_first(image@, 1, "url"@);
            lemma_lookup_first(image@, 2, "link"@);
        }
        let mut ms: Vec<Member> = Vec::new();
        ms.push(member("title", text(&self.title)));
        ms.push(member("image", Json::Object(image)));
        proof {
            reveal_strlit("image");
            assert("title"@[0] != "image"@[0]);
            lemma_lookup_first(ms@, 0, "title"@);
            lemma_lookup_first(ms@, 1, "image"@);
        }
        Json::Object(ms)
    }
}

impl AreaForcast {
    /// The document that reads back as this forecast, in the service's layout.
    pub fn to_json(&self) -> (r: Json)
        ensures
            decodes_to(r, *self),
            readable(r),
    {
        let mut days: Vec<Json> = Vec::new();
        let mut i: usize = 0;
        while i < self.forecasts.len()
            invariant
                i <= self.forecasts@.len(),
                days@.len() == i,
                forall|k: int| 0 <= k < i ==> #[trigger] day_of(days@[k]) == Some(self.forecasts@[k]),
            decreases self.forecasts@.len() - i,
        {
            days.push(self.forecasts[i].to_json());
            i = i + 1;
        }
        let ghost ds = days@;
        let mut ms: Vec<Member> = Vec::new();
        ms.push(member("title", text(&self.title)));
        ms.push(member("forecasts", Json::Array(days)));
        ms.push(member("publicTimeFormatted", text(&self.public_time_formatted)));
        ms.push(member("link", text(&self.link)));
        ms.push(member("copyright", self.copyright.to_json()));
        proof {
            reveal_strlit("title");
            reveal_strlit("forecasts");
            reveal_strlit("publicTimeFormatted");
            reveal_strlit("link");
            reveal_strlit("copyright");
            assert("title"@.len() == 5);
            assert("forecasts"@.len() == 9);
            assert("publicTimeFormatted"@.len() == 19);
            assert("link"@.len() == 4);
            assert("copyright"@.len() == 9);
            assert("forecasts"@[0] != "copyright"@[0]);
            lemma_lookup_first(ms@, 0, "title"@);
            lemma_lookup_first(ms@, 1, "forecasts"@);
            lemma_lookup_first(ms@, 2, "publicTimeFormatted"@);
            lemma_lookup_first(ms@, 3, "link"@);
            lemma_lookup_first(ms@, 4, "copyright"@);
        }
        let r = Json::Object(ms);
        assert(days_at(r) == Some(ds));
        r
    }
}

} // verus!
