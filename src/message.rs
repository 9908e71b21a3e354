//! The chat-embed message that carries a forecast to the webhook.

use vstd::prelude::*;

use crate::forecast::{AreaForcast, ForcastByDay, day_text, title_text};

verus! {

/// One named section of the embed; here, one day of the forecast.
#[derive(Clone, Debug)]
pub struct EmbedField {
    pub name: String,
    pub value: String,
    pub inline: bool,
}

/// The attribution block shown at the top of the embed.
#[derive(Clone, Debug)]
pub struct EmbedAuthor {
    pub name: String,
    pub url: Option<String>,
    pub icon_url: Option<String>,
}

/// A rich embed: title, description, link, fields and attribution.
#[derive(Clone, Debug)]
pub struct Embed {
    pub title: String,
    pub description: String,
    pub url: String,
    pub fields: Vec<EmbedField>,
    pub author: EmbedAuthor,
}

/// A webhook message: the name the bot posts under and one embed.
#[derive(Clone, Debug)]
pub struct OutboundMessage {
    pub username: String,
    pub embed: Embed,
}

/// The field that stands for one day: named by its label, holding its block.
pub open spec fn is_day_field(f: EmbedField, d: ForcastByDay) -> bool {
    &&& f.name@ == d.date_label@
    &&& f.value@ == day_text(d)
    &&& !f.inline
}

/// The message that presents `forecast`, posted under the name `username`.
pub open spec fn presents(m: OutboundMessage, forecast: AreaForcast, username: Seq<char>) -> bool {
    &&& m.username@ == username
    &&& m.embed.title@ == title_text(forecast)
    &&& m.embed.description@ == forecast.public_time_formatted@
    &&& m.embed.url@ == forecast.link@
    &&& m.embed.fields@.len() == forecast.forecasts@.len()
    &&& forall|i: int|
        0 <= i < m.embed.fields@.len() ==> #[trigger] is_day_field(
            m.embed.fields@[i],
            forecast.forecasts@[i],
        )
    &&& m.embed.author.name@ == forecast.copyright.title@
    &&& m.embed.author.url == Some(forecast.copyright.image.link)
    &&& m.embed.author.icon_url == Some(forecast.copyright.image.url)
}

/// Builds the message for `forecast`: one field per day in the order of the
/// days, the title with today's weather, the issue time as description, the
/// forecast's page as link, and the attribution as author.
pub fn compose_message(forecast: &AreaForcast, username: &str) -> (r: OutboundMessage)
    requires
        forecast.wf(),
    ensures
        presents(r, *forecast, username@),
{
    let mut fields: Vec<EmbedField> = Vec::new();
    let mut i: usize = 0;
    while i < forecast.forecasts.len()
        invariant
            i <= forecast.forecasts@.len(),
            fields@.len() == i,
            forall|j: int| 0 <= j < i ==> #[trigger] is_day_field(fields@[j], forecast.forecasts@[j]),
        decreases forecast.forecasts@.len() - i,
    {
        let day = &forecast.forecasts[i];
        let field = EmbedField { name: day.date_label.clone(), value: day.to_string(), inline: false };
        fields.push(field);
        i = i + 1;
    }
    let author = EmbedAuthor {
        name: forecast.copyright.title.clone(),
        url: Some(forecast.copyright.image.link.clone()),
        icon_url: Some(forecast.copyright.image.url.clone()),
    };
    let embed = Embed {
        title: forecast.title_with_weather_summary(),
        description: forecast.public_time_formatted.clone(),
        url: forecast.link.clone(),
        fields,
        author,
    };
    OutboundMessage { username: username.to_owned(), embed }
}

} // verus!
