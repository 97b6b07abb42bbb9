use vstd::prelude::*;

verus! {

/// The sky and precipitation category that a WMO weather code falls into.
#[derive(Clone, Copy, Debug, PartialEq, Eq, Structural)]
pub enum Condition {
    Clear,
    Cloudy,
    Fog,
    Rain,
    Snow,
    Thunderstorm,
    Unknown,
}

/// The category of a weather code, by the inclusive ranges of the WMO table.
pub open spec fn condition_of(code: int) -> Condition {
    if code == 0 {
        Condition::Clear
    } else if 1 <= code <= 3 {
        Condition::Cloudy
    } else if code == 45 || code == 48 {
        Condition::Fog
    } else if (51 <= code <= 67) || (80 <= code <= 82) {
        Condition::Rain
    } else if (71 <= code <= 77) || (85 <= code <= 86) {
        Condition::Snow
    } else if 95 <= code <= 99 {
        Condition::Thunderstorm
    } else {
        Condition::Unknown
    }
}

pub open spec fn sunny_image_text() -> Seq<char> {
    "https://images.unsplash.com/photo-1604228741406-3faa38f4907a?w=500&auto=format&fit=crop&q=60&ixlib=rb-4.1.0&ixid=M3wxMjA3fDB8MHxzZWFyY2h8NHx8c3Vubnl8ZW58MHx8MHx8fDA%3D"@
}

/// The clear-sky image, also the background of a page that shows no reading.
pub fn sunny_image() -> (r: &'static str)
    ensures
        r@ == sunny_image_text(),
{
    "https://images.unsplash.com/photo-1604228741406-3faa38f4907a?w=500&auto=format&fit=crop&q=60&ixlib=rb-4.1.0&ixid=M3wxMjA3fDB8MHxzZWFyY2h8NHx8c3Vubnl8ZW58MHx8MHx8fDA%3D"
}

impl Condition {
    /// The display label: the category's name followed by its glyph.
    pub open spec fn label_text(self) -> Seq<char> {
        match self {
            Condition::Clear => "Clear ☀️"@,
            Condition::Cloudy => "Cloudy ☁️"@,
            Condition::Fog => "Fog 🌫️"@,
            Condition::Rain => "Rain 🌧️"@,
            Condition::Snow => "Snow ❄️"@,
            Condition::Thunderstorm => "Thunderstorm ⚡"@,
            Condition::Unknown => "Unknown ❓"@,
        }
    }

    /// The address of the background image shown for the category.
    pub open spec fn image_text(self) -> Seq<char> {
        match self {
            Condition::Clear => sunny_image_text(),
            Condition::Cloudy => "https://images.unsplash.com/photo-1536532184021-da5392b55da1?w=500&auto=format&fit=crop&q=60&ixlib=rb-4.1.0&ixid=M3wxMjA3fDB8MHxzZWFyY2h8NTh8fGNsb3VkeXxlbnwwfHwwfHx8MA%3D%3D"@,
            Condition::Fog => "https://images.unsplash.com/photo-1543968996-ee822b8176e3?w=500&auto=format&fit=crop&q=60&ixlib=rb-4.0.3&ixid=M3wxMjA3fDB8MHxzZWFyY2h8NHx8Zm9nfGVufDB8fDB8fHww"@,
            Condition::Rain => "https://images.unsplash.com/photo-1605035015406-54c130d0bf89?q=80&w=1632&auto=format&fit=crop&ixlib=rb-4.1.0&ixid=M3wxMjA3fDB8MHxwaG90by1wYWdlfHx8fGVufDB8fHx8fA%3D%3D"@,
            Condition::Snow => "https://images.unsplash.com/photo-1418985991508-e47386d96a71?w=500&auto=format&fit=crop&q=60&ixlib=rb-4.1.0&ixid=M3wxMjA3fDB8MHxzZWFyY2h8MTB8fHNub3d8ZW58MHx8MHx8fDA%3D"@,
            Condition::Thunderstorm => "https://images.unsplash.com/photo-1429514513361-8fa32282fd5f?w=500&auto=format&fit=crop&q=60&ixlib=rb-4.0.3&ixid=M3wxMjA3fDB8MHxzZWFyY2h8Mnx8dGh1bmRlcnN0b3JtfGVufDB8fDB8fHww"@,
            Condition::Unknown => "https://images.unsplash.com/photo-1611406686532-0df7e54ea334?q=80&w=1074&auto=format&fit=crop&ixlib=rb-4.1.0&ixid=M3wxMjA3fDB8MHxwaG90by1wYWdlfHx8fGVufDB8fHx8fA%3D%3D"@,
        }
    }

    /// The category of a weather code.
    pub fn from_code(code: i64) -> (r: Condition)
        ensures
            r == condition_of(code as int),
    {
        if code == 0 {
            Condition::Clear
        } else if 1 <= code && code <= 3 {
            Condition::Cloudy
        } else if code == 45 || code == 48 {
            Condition::Fog
        } else if (51 <= code && code <= 67) || (80 <= code && code <= 82) {
            Condition::Rain
        } else if (71 <= code && code <= 77) || (85 <= code && code <= 86) {
            Condition::Snow
        } else if 95 <= code && code <= 99 {
            Condition::Thunderstorm
        } else {
            Condition::Unknown
        }
    }

    pub fn label(&self) -> (r: &'static str)
        ensures
            r@ == self.label_text(),
    {
        match self {
            Condition::Clear => "Clear ☀️",
            Condition::Cloudy => "Cloudy ☁️",
            Condition::Fog => "Fog 🌫️",
            Condition::Rain => "Rain 🌧️",
            Condition::Snow => "Snow ❄️",
            Condition::Thunderstorm => "Thunderstorm ⚡",
            Condition::Unknown => "Unknown ❓",
        }
    }

    pub fn image_url(&self) -> (r: &'static str)
        ensures
            r@ == self.image_text(),
    {
        match self {
            Condition::Clear => sunny_image(),
            Condition::Cloudy => "https://images.unsplash.com/photo-1536532184021-da5392b55da1?w=500&auto=format&fit=crop&q=60&ixlib=rb-4.1.0&ixid=M3wxMjA3fDB8MHxzZWFyY2h8NTh8fGNsb3VkeXxlbnwwfHwwfHx8MA%3D%3D",
            Condition::Fog => "https://images.unsplash.com/photo-1543968996-ee822b8176e3?w=500&auto=format&fit=crop&q=60&ixlib=rb-4.0.3&ixid=M3wxMjA3fDB8MHxzZWFyY2h8NHx8Zm9nfGVufDB8fDB8fHww",
            Condition::Rain => "https://images.unsplash.com/photo-1605035015406-54c130d0bf89?q=80&w=1632&auto=format&fit=crop&ixlib=rb-4.1.0&ixid=M3wxMjA3fDB8MHxwaG90by1wYWdlfHx8fGVufDB8fHx8fA%3D%3D",
            Condition::Snow => "https://images.unsplash.com/photo-1418985991508-e47386d96a71?w=500&auto=format&fit=crop&q=60&ixlib=rb-4.1.0&ixid=M3wxMjA3fDB8MHxzZWFyY2h8MTB8fHNub3d8ZW58MHx8MHx8fDA%3D",
            Condition::Thunderstorm => "https://images.unsplash.com/photo-1429514513361-8fa32282fd5f?w=500&auto=format&fit=crop&q=60&ixlib=rb-4.0.3&ixid=M3wxMjA3fDB8MHxzZWFyY2h8Mnx8dGh1bmRlcnN0b3JtfGVufDB8fDB8fHww",
            Condition::Unknown => "https://images.unsplash.com/photo-1611406686532-0df7e54ea334?q=80&w=1074&auto=format&fit=crop&ixlib=rb-4.1.0&ixid=M3wxMjA3fDB8MHxwaG90by1wYWdlfHx8fGVufDB8fHx8fA%3D%3D",
        }
    }
}

/// A code that falls in none of the table's ranges.
pub open spec fn outside_table(code: int) -> bool {
    !(0 <= code <= 3 || code == 45 || code == 48 || (51 <= code <= 67) || (71 <= code <= 77)
        || (80 <= code <= 82) || (85 <= code <= 86) || (95 <= code <= 99))
}

/// The codes at the edges of the table's ranges get their documented
/// categories, and every code outside the table is unknown.
pub proof fn lemma_documented_codes()
    ensures
        condition_of(0) == Condition::Clear,
        condition_of(1) == Condition::Cloudy,
        condition_of(2) == Condition::Cloudy,
        condition_of(3) == Condition::Cloudy,
        condition_of(45) == Condition::Fog,
        condition_of(48) == Condition::Fog,
        condition_of(51) == Condition::Rain,
        condition_of(60) == Condition::Rain,
        condition_of(67) == Condition::Rain,
        condition_of(80) == Condition::Rain,
        condition_of(82) == Condition::Rain,
        condition_of(71) == Condition::Snow,
        condition_of(75) == Condition::Snow,
        condition_of(77) == Condition::Snow,
        condition_of(85) == Condition::Snow,
        condition_of(86) == Condition::Snow,
        condition_of(95) == Condition::Thunderstorm,
        condition_of(99) == Condition::Thunderstorm,
        forall|code: int| outside_table(code) ==> condition_of(code) == Condition::Unknown,
{
}

/// A condition's label and background image, ready for display.
pub struct ConditionInfo {
    pub label: String,
    pub image_url: String,
}

/// The label and image for a weather code; every code has one.
pub fn map_weather_code(code: i64) -> (r: ConditionInfo)
    ensures
        r.label@ == condition_of(code as int).label_text(),
        r.image_url@ == condition_of(code as int).image_text(),
{
    let c = Condition::from_code(code);
    ConditionInfo { label: c.label().to_string(), image_url: c.image_url().to_string() }
}

} // verus!
