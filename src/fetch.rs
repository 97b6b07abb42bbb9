use vstd::prelude::*;
use vstd::string::StringExecFns;

use crate::page::{Measurements, with_unit};

verus! {

/// Which of the two upstream calls a failure happened in.
#[derive(Clone, Copy, Debug, PartialEq, Eq, Structural)]
pub enum Stage {
    Geocoding,
    Forecast,
}

/// Why a lookup failed.
pub enum FetchError {
    /// The request could not be sent or answered; `detail` is the transport's message.
    Network { stage: Stage, detail: String },
    /// The body was not valid JSON; `detail` is the decoder's message.
    Parse { stage: Stage, detail: String },
    /// The geocoder knows no place of that name.
    NotFound,
}

/// The view of a fetch error: its kind, stage and message text.
pub enum FetchErrorModel {
    Network { stage: Stage, detail: Seq<char> },
    Parse { stage: Stage, detail: Seq<char> },
    NotFound,
}

impl View for FetchError {
    type V = FetchErrorModel;

    open spec fn view(&self) -> FetchErrorModel {
        match self {
            FetchError::Network { stage, detail } => FetchErrorModel::Network {
                stage: *stage,
                detail: detail@,
            },
            FetchError::Parse { stage, detail } => FetchErrorModel::Parse {
                stage: *stage,
                detail: detail@,
            },
            FetchError::NotFound => FetchErrorModel::NotFound,
        }
    }
}

pub open spec fn stage_noun(stage: Stage) -> Seq<char> {
    match stage {
        Stage::Geocoding => "geocoding data: "@,
        Stage::Forecast => "weather data: "@,
    }
}

impl FetchErrorModel {
    /// The message shown to the user for a failed lookup of `city`.
    pub open spec fn message(self, city: Seq<char>) -> Seq<char> {
        match self {
            FetchErrorModel::Network { stage, detail } => "Failed to fetch "@ + stage_noun(stage)
                + detail,
            FetchErrorModel::Parse { stage, detail } => "Failed to parse "@ + stage_noun(stage)
                + detail,
            FetchErrorModel::NotFound => "City '"@ + city + "' not found"@,
        }
    }
}

fn stage_text(stage: Stage) -> (r: &'static str)
    ensures
        r@ == stage_noun(stage),
{
    match stage {
        Stage::Geocoding => "geocoding data: ",
        Stage::Forecast => "weather data: ",
    }
}

impl FetchError {
    /// The message shown to the user when the lookup of `city` failed this way.
    pub fn message(&self, city: &str) -> (r: String)
        ensures
            r@ == self@.message(city@),
    {
        match self {
            FetchError::Network { stage, detail } => {
                let s = String::from_str("Failed to fetch ");
                let s = s.concat(stage_text(*stage));
                s.concat(detail.as_str())
            },
            FetchError::Parse { stage, detail } => {
                let s = String::from_str("Failed to parse ");
                let s = s.concat(stage_text(*stage));
                s.concat(detail.as_str())
            },
            FetchError::NotFound => {
                let s = String::from_str("City '");
                let s = s.concat(city);
                s.concat("' not found")
            },
        }
    }
}

pub open spec fn geocoding_url_text(city: Seq<char>) -> Seq<char> {
    "https://geocoding-api.open-meteo.com/v1/search?name="@ + city + "&count=1"@
}

/// The geocoding request for a city name, asking for one result.
pub fn geocoding_url(city: &str) -> (r: String)
    ensures
        r@ == geocoding_url_text(city@),
{
    let s = String::from_str("https://geocoding-api.open-meteo.com/v1/search?name=");
    let s = s.concat(city);
    s.concat("&count=1")
}

pub open spec fn forecast_url_text(latitude: Seq<char>, longitude: Seq<char>) -> Seq<char> {
    "https://api.open-meteo.com/v1/forecast?latitude="@ + latitude + "&longitude="@ + longitude
        + "&current=temperature_2m,apparent_temperature,relative_humidity_2m,precipitation,wind_speed_10m,weather_code"@
}

/// The forecast request for the current conditions at a place, given its
/// coordinates as decimal text.
pub fn forecast_url(latitude: &str, longitude: &str) -> (r: String)
    ensures
        r@ == forecast_url_text(latitude@, longitude@),
{
    let s = String::from_str("https://api.open-meteo.com/v1/forecast?latitude=");
    let s = s.concat(latitude);
    let s = s.concat("&longitude=");
    let s = s.concat(longitude);
    s.concat(
        "&current=temperature_2m,apparent_temperature,relative_humidity_2m,precipitation,wind_speed_10m,weather_code",
    )
}

/// The text of a value, if there is one.
pub open spec fn text_of(o: Option<String>) -> Option<Seq<char>> {
    match o {
        Some(t) => Some(t@),
        None => None,
    }
}

/// The text of a value, or `zero` where it was missing or not a number.
pub open spec fn text_or(o: Option<Seq<char>>, zero: Seq<char>) -> Seq<char> {
    match o {
        Some(t) => t,
        None => zero,
    }
}

fn text_or_zero(o: Option<String>, zero: &str) -> (r: String)
    ensures
        r@ == text_or(text_of(o), zero@),
{
    match o {
        Some(t) => t,
        None => zero.to_string(),
    }
}

/// One geocoding result: its coordinates as decimal text, `None` where a
/// coordinate was missing or not a number.
pub struct Place {
    pub latitude: Option<String>,
    pub longitude: Option<String>,
}

pub struct PlaceModel {
    pub latitude: Option<Seq<char>>,
    pub longitude: Option<Seq<char>>,
}

impl View for Place {
    type V = PlaceModel;

    open spec fn view(&self) -> PlaceModel {
        PlaceModel { latitude: text_of(self.latitude), longitude: text_of(self.longitude) }
    }
}

/// The forecast request for a place; a missing coordinate counts as zero.
pub open spec fn place_url_text(p: PlaceModel) -> Seq<char> {
    forecast_url_text(text_or(p.latitude, "0"@), text_or(p.longitude, "0"@))
}

/// The forecast request for a place; a missing coordinate counts as zero.
pub fn place_url(p: Place) -> (r: String)
    ensures
        r@ == place_url_text(p@),
{
    let lat = text_or_zero(p.latitude, "0");
    let lon = text_or_zero(p.longitude, "0");
    forecast_url(lat.as_str(), lon.as_str())
}

/// The current conditions of a forecast. Each measurement is the decimal text
/// of its value at display precision (one decimal, the humidity none), `None`
/// where the field was missing or not a number; so is the weather code.
pub struct Current {
    pub temperature: Option<String>,
    pub feels_like: Option<String>,
    pub humidity: Option<String>,
    pub precipitation: Option<String>,
    pub wind_speed: Option<String>,
    pub weather_code: Option<i64>,
}

pub struct CurrentModel {
    pub temperature: Option<Seq<char>>,
    pub feels_like: Option<Seq<char>>,
    pub humidity: Option<Seq<char>>,
    pub precipitation: Option<Seq<char>>,
    pub wind_speed: Option<Seq<char>>,
    pub weather_code: Option<i64>,
}

impl View for Current {
    type V = CurrentModel;

    open spec fn view(&self) -> CurrentModel {
        CurrentModel {
            temperature: text_of(self.temperature),
            feels_like: text_of(self.feels_like),
            humidity: text_of(self.humidity),
            precipitation: text_of(self.precipitation),
            wind_speed: text_of(self.wind_speed),
            weather_code: self.weather_code,
        }
    }
}

impl CurrentModel {
    pub open spec fn temperature_text(self) -> Seq<char> {
        text_or(self.temperature, "0.0"@) + "°C"@
    }

    pub open spec fn feels_like_text(self) -> Seq<char> {
        text_or(self.feels_like, "0.0"@) + "°C"@
    }

    pub open spec fn humidity_text(self) -> Seq<char> {
        text_or(self.humidity, "0"@) + "%"@
    }

    pub open spec fn precipitation_text(self) -> Seq<char> {
        text_or(self.precipitation, "0.0"@) + " mm"@
    }

    pub open spec fn wind_speed_text(self) -> Seq<char> {
        text_or(self.wind_speed, "0.0"@) + " km/h"@
    }

    /// The weather code, zero (clear sky) where it was missing.
    pub open spec fn code(self) -> i64 {
        match self.weather_code {
            Some(c) => c,
            None => 0,
        }
    }
}

impl Current {
    /// The measurements as display text with units; a missing one shows as zero.
    pub fn measurements(self) -> (r: Measurements)
        ensures
            r.temperature@ == self@.temperature_text(),
            r.feels_like@ == self@.feels_like_text(),
            r.humidity@ == self@.humidity_text(),
            r.precipitation@ == self@.precipitation_text(),
            r.wind_speed@ == self@.wind_speed_text(),
    {
        let t = text_or_zero(self.temperature, "0.0");
        let f = text_or_zero(self.feels_like, "0.0");
        let h = text_or_zero(self.humidity, "0");
        let p = text_or_zero(self.precipitation, "0.0");
        let w = text_or_zero(self.wind_speed, "0.0");
        Measurements {
            temperature: with_unit(t.as_str(), "°C"),
            feels_like: with_unit(f.as_str(), "°C"),
            humidity: with_unit(h.as_str(), "%"),
            precipitation: with_unit(p.as_str(), " mm"),
            wind_speed: with_unit(w.as_str(), " km/h"),
        }
    }

    /// The weather code, zero (clear sky) where it was missing.
    pub fn code(&self) -> (r: i64)
        ensures
            r == self@.code(),
    {
        match self.weather_code {
            Some(c) => c,
            None => 0,
        }
    }
}

} // verus!
