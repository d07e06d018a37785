//! The weather capability: decoding the provider's payload and rendering the
//! report.
//!
//! The provider is queried over HTTP by the unverified shell; this module
//! takes the response body (or its absence, on a transport failure or a
//! non-success status) and produces the exact reply string: a formatted
//! multi-line report on a decodable payload, a fixed fallback otherwise.

use vstd::prelude::*;
use crate::decimal::int_digits;
use crate::decimal::i32_to_string;

verus! {

/// What a provider payload decodes to, as the report reads it: the first
/// entry of the condition list (absent when the list is empty), and the two
/// temperatures and the wind speed, each truncated toward zero.
pub ghost struct WeatherDecode {
    pub condition: Option<Seq<char>>,
    pub temp_min: int,
    pub temp_max: int,
    pub wind_speed: int,
}

/// What the provider body decodes to, or `None` when it is not a well-formed
/// weather payload. Named, not stated: the decoding is serde_json's.
pub uninterp spec fn decoded_weather(body: Seq<u8>) -> Option<WeatherDecode>;

/// The decoded payload, as executable values.
#[derive(Debug, Clone)]
pub struct WeatherReading {
    pub condition: Option<String>,
    pub temp_min: i32,
    pub temp_max: i32,
    pub wind_speed: i32,
}

/// The reading holds the decoded fields.
pub open spec fn reading_matches(w: WeatherReading, d: WeatherDecode) -> bool {
    &&& match w.condition {
        Some(c) => d.condition == Some(c@),
        None => d.condition is None,
    }
    &&& w.temp_min as int == d.temp_min
    &&& w.temp_max as int == d.temp_max
    &&& w.wind_speed as int == d.wind_speed
}

/// Relies on serde_json: `from_slice` decodes the provider body into a JSON
/// value, and the `Value` accessors (`get`, `as_array`, `as_str`, `as_f64`)
/// pick out the first condition string under `weather`, the temperatures
/// under `main` and the speed under `wind`; each number is truncated toward
/// zero, as the report prints it.
#[verifier::external_body]
fn decode_weather_body(body: &Vec<u8>) -> (r: Option<WeatherReading>)
    ensures
        r is Some <==> decoded_weather(body@) is Some,
        r matches Some(w) ==> reading_matches(w, decoded_weather(body@)->Some_0),
{
    let v: serde_json::Value = serde_json::from_slice(body).ok()?;
    let main = v.get("main")?;
    let temp_min = main.get("temp_min")?.as_f64()? as i32;
    let temp_max = main.get("temp_max")?.as_f64()? as i32;
    let wind_speed = v.get("wind")?.get("speed")?.as_f64()? as i32;
    let condition = match v.get("weather")?.as_array()?.get(0) {
        None => None,
        Some(entry) => Some(entry.get("main")?.as_str()?.to_string()),
    };
    Some(WeatherReading { condition, temp_min, temp_max, wind_speed })
}

/// The exact fallback reply when the provider response is unusable.
pub open spec fn spec_weather_fallback() -> Seq<char> {
    "No city or incorrect spelling"@
}

/// The condition line: the first condition, or `Unknown` when the list was
/// empty.
pub open spec fn spec_condition_text(c: Option<Seq<char>>) -> Seq<char> {
    match c {
        Some(s) => s,
        None => "Unknown"@,
    }
}

/// The formatted multi-line weather report for a decoded payload.
pub open spec fn spec_weather_report(city: Seq<char>, d: WeatherDecode) -> Seq<char> {
    "\nToday in "@ + city + "\n"@ + spec_condition_text(d.condition) + "\nLow temperature: "@
        + int_digits(d.temp_min) + " °C,\nHigh temperature: "@ + int_digits(d.temp_max)
        + " °C,\nWind Speed: "@ + int_digits(d.wind_speed) + " km/h"@
}

/// The weather reply for one lookup: the report when the provider answered
/// with a decodable payload, the fixed fallback otherwise.
pub open spec fn spec_weather_reply(city: Seq<char>, fetched: Option<Seq<u8>>) -> Seq<char> {
    match fetched {
        None => spec_weather_fallback(),
        Some(body) => match decoded_weather(body) {
            None => spec_weather_fallback(),
            Some(d) => spec_weather_report(city, d),
        },
    }
}

/// Render the weather reply for `city` from the provider's response body,
/// `None` standing for a failed request or a non-success status.
pub fn get_weather(city: &str, fetched: Option<&Vec<u8>>) -> (r: String)
    ensures
        r@ == spec_weather_reply(
            city@,
            match fetched {
                Some(b) => Some(b@),
                None => None,
            },
        ),
{
    let reading = match fetched {
        None => None,
        Some(body) => decode_weather_body(body),
    };
    match reading {
        None => String::from_str("No city or incorrect spelling"),
        Some(w) => {
            let mut s = String::from_str("\nToday in ");
            s.append(city);
            s.append("\n");
            match &w.condition {
                Some(c) => s.append(c.as_str()),
                None => s.append("Unknown"),
            }
            s.append("\nLow temperature: ");
            let low = i32_to_string(w.temp_min);
            s.append(low.as_str());
            s.append(" °C,\nHigh temperature: ");
            let high = i32_to_string(w.temp_max);
            s.append(high.as_str());
            s.append(" °C,\nWind Speed: ");
            let speed = i32_to_string(w.wind_speed);
            s.append(speed.as_str());
            s.append(" km/h");
            s
        },
    }
}

/// Law: every weather reply is either the fixed fallback or the formatted
/// report of the decoded payload — raw provider bytes never pass through as a
/// reply.
pub proof fn lemma_weather_reply_shape(city: Seq<char>, fetched: Option<Seq<u8>>)
    ensures
        spec_weather_reply(city, fetched) == spec_weather_fallback() || (fetched matches Some(b)
            && decoded_weather(b) matches Some(d) && spec_weather_reply(city, fetched)
            == spec_weather_report(city, d)),
{
}

} // verus!
