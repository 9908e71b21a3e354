//! Properties of the rendering rules that hold of every forecast.

use vstd::prelude::*;

use crate::document::{day_of, days_at, decodes_to, readable};
use crate::forecast::{
    AreaForcast, ChanceOfRain, ForcastByDay, Temperatures, chance_of_rain_text, day_text,
    temperatures_text, unknown_weather_label, weather_text,
};
use crate::json::Json;
use crate::message::{EmbedField, OutboundMessage, is_day_field, presents};

verus! {

/// The parts joined in order, with `sep` between each two neighbours.
pub open spec fn join_with(parts: Seq<Seq<char>>, sep: Seq<char>) -> Seq<char>
    decreases parts.len(),
{
    if parts.len() == 0 {
        Seq::empty()
    } else if parts.len() == 1 {
        parts[0]
    } else {
        join_with(parts.drop_last(), sep) + sep + parts.last()
    }
}

/// Decoding gives back what was encoded: when a document is the encoding of a
/// forecast `a` with at least one day, it reads, it lists at least one day,
/// and any forecast `b` decoded from it equals `a` in every field.
pub proof fn lemma_round_trip(a: AreaForcast, j: Json, b: AreaForcast)
    requires
        a.wf(),
        decodes_to(j, a),
        decodes_to(j, b),
    ensures
        readable(j),
        days_at(j)->Some_0.len() > 0,
        b.wf(),
        b.title == a.title,
        b.forecasts@ == a.forecasts@,
        b.public_time_formatted == a.public_time_formatted,
        b.link == a.link,
        b.copyright == a.copyright,
{
    let ds = days_at(j)->Some_0;
    assert forall|i: int| 0 <= i < ds.len() implies (#[trigger] day_of(ds[i])) is Some by {
        assert(day_of(ds[i]) == Some(a.forecasts@[i]));
    }
    assert forall|i: int| 0 <= i < a.forecasts@.len() implies b.forecasts@[i] == a.forecasts@[i] by {
        assert(day_of(ds[i]) == Some(a.forecasts@[i]));
        assert(day_of(ds[i]) == Some(b.forecasts@[i]));
    }
    assert(b.forecasts@ =~= a.forecasts@);
}

/// A day without a weather description shows the "unknown" label, and its
/// block starts with exactly that label.
pub proof fn lemma_absent_weather_is_unknown(d: ForcastByDay)
    requires
        d.detail.weather is None,
    ensures
        weather_text(d.detail) == unknown_weather_label(),
        day_text(d).subrange(0, unknown_weather_label().len() as int) == unknown_weather_label(),
{
    let label = unknown_weather_label();
    assert(day_text(d).subrange(0, label.len() as int) =~= label);
}

/// A day whose two temperatures are both absent shows "- ℃ ～ - ℃".
pub proof fn lemma_absent_temperatures(t: Temperatures)
    requires
        t.min.celsius is None,
        t.max.celsius is None,
    ensures
        temperatures_text(t) == "- ℃ ～ - ℃"@,
{
    reveal_strlit("-");
    reveal_strlit(" ℃");
    reveal_strlit(" ～ ");
    reveal_strlit("- ℃ ～ - ℃");
    assert(temperatures_text(t) =~= "- ℃ ～ - ℃"@);
}

/// The chance-of-rain line is the four windows' values, from midnight onwards,
/// joined by " → ", whatever the values hold (empty ones included).
pub proof fn lemma_chance_of_rain_joins_four(c: ChanceOfRain)
    ensures
        chance_of_rain_text(c) == join_with(
            seq![c.t00_06@, c.t06_12@, c.t12_18@, c.t18_24@],
            " → "@,
        ),
{
    let sep = " → "@;
    let p1 = seq![c.t00_06@];
    let p2 = seq![c.t00_06@, c.t06_12@];
    let p3 = seq![c.t00_06@, c.t06_12@, c.t12_18@];
    let p4 = seq![c.t00_06@, c.t06_12@, c.t12_18@, c.t18_24@];
    assert(p2.drop_last() =~= p1);
    assert(p3.drop_last() =~= p2);
    assert(p4.drop_last() =~= p3);
    assert(join_with(p1, sep) == c.t00_06@);
    assert(join_with(p2, sep) == c.t00_06@ + sep + c.t06_12@);
    assert(join_with(p3, sep) == c.t00_06@ + sep + c.t06_12@ + sep + c.t12_18@);
    assert(join_with(p4, sep) == chance_of_rain_text(c));
}

/// A message that presents a forecast has one field per day, in the order of
/// the days, each named by its day's label: nothing is sorted or merged.
pub proof fn lemma_fields_follow_days(m: OutboundMessage, forecast: AreaForcast, username: Seq<char>)
    requires
        presents(m, forecast, username),
    ensures
        m.embed.fields@.len() == forecast.forecasts@.len(),
        m.embed.fields@.map_values(|f: EmbedField| f.name@)
            == forecast.forecasts@.map_values(|d: ForcastByDay| d.date_label@),
{
    assert forall|i: int| 0 <= i < m.embed.fields@.len() implies m.embed.fields@[i].name@
        == forecast.forecasts@[i].date_label@ by {
        assert(is_day_field(m.embed.fields@[i], forecast.forecasts@[i]));
    }
    assert(m.embed.fields@.map_values(|f: EmbedField| f.name@)
        =~= forecast.forecasts@.map_values(|d: ForcastByDay| d.date_label@));
}

} // verus!
