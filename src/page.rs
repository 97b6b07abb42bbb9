use vstd::prelude::*;
use vstd::string::StringExecFns;

use crate::condition::{Condition, condition_of, sunny_image, sunny_image_text};

verus! {

/// What a rendered page shows: the city asked for, the measurements as display
/// text, the condition label, the background image and an error message.
pub struct PageView {
    pub city: String,
    pub temperature: String,
    pub feels_like: String,
    pub humidity: String,
    pub precipitation: String,
    pub wind_speed: String,
    pub condition: String,
    pub background_image: String,
    pub error: String,
}

/// The text of every field of a page.
pub struct PageModel {
    pub city: Seq<char>,
    pub temperature: Seq<char>,
    pub feels_like: Seq<char>,
    pub humidity: Seq<char>,
    pub precipitation: Seq<char>,
    pub wind_speed: Seq<char>,
    pub condition: Seq<char>,
    pub background_image: Seq<char>,
    pub error: Seq<char>,
}

impl View for PageView {
    type V = PageModel;

    open spec fn view(&self) -> PageModel {
        PageModel {
            city: self.city@,
            temperature: self.temperature@,
            feels_like: self.feels_like@,
            humidity: self.humidity@,
            precipitation: self.precipitation@,
            wind_speed: self.wind_speed@,
            condition: self.condition@,
            background_image: self.background_image@,
            error: self.error@,
        }
    }
}

impl PageModel {
    /// No measurement and no condition is shown.
    pub open spec fn shows_no_reading(self) -> bool {
        &&& self.temperature.len() == 0
        &&& self.feels_like.len() == 0
        &&& self.humidity.len() == 0
        &&& self.precipitation.len() == 0
        &&& self.wind_speed.len() == 0
        &&& self.condition.len() == 0
    }
}

/// A page with the given city and error, no reading, on the clear-sky background.
pub open spec fn error_model(city: Seq<char>, error: Seq<char>) -> PageModel {
    PageModel {
        city,
        temperature: Seq::empty(),
        feels_like: Seq::empty(),
        humidity: Seq::empty(),
        precipitation: Seq::empty(),
        wind_speed: Seq::empty(),
        condition: Seq::empty(),
        background_image: sunny_image_text(),
        error,
    }
}

/// The landing page: nothing asked, nothing shown, clear-sky background.
pub open spec fn landing_model() -> PageModel {
    error_model(Seq::empty(), Seq::empty())
}

/// The measurements of a reading as display text, each with its unit.
pub struct Measurements {
    pub temperature: String,
    pub feels_like: String,
    pub humidity: String,
    pub precipitation: String,
    pub wind_speed: String,
}

/// A page that shows a reading of the given city.
pub open spec fn reading_model(
    city: Seq<char>,
    temperature: Seq<char>,
    feels_like: Seq<char>,
    humidity: Seq<char>,
    precipitation: Seq<char>,
    wind_speed: Seq<char>,
    condition: Condition,
) -> PageModel {
    PageModel {
        city,
        temperature,
        feels_like,
        humidity,
        precipitation,
        wind_speed,
        condition: condition.label_text(),
        background_image: condition.image_text(),
        error: Seq::empty(),
    }
}

fn empty_text() -> (r: String)
    ensures
        r@ == Seq::<char>::empty(),
{
    String::new()
}

/// The single constructor of every failure page.
pub fn error_page(city: &str, message: String) -> (r: PageView)
    ensures
        r@ == error_model(city@, message@),
{
    PageView {
        city: city.to_string(),
        temperature: empty_text(),
        feels_like: empty_text(),
        humidity: empty_text(),
        precipitation: empty_text(),
        wind_speed: empty_text(),
        condition: empty_text(),
        background_image: sunny_image().to_string(),
        error: message,
    }
}

/// The page served at the root, the same on every call.
pub fn landing_page() -> (r: PageView)
    ensures
        r@ == landing_model(),
{
    let none = "";
    proof {
        reveal_strlit("");
        assert(none@ =~= Seq::<char>::empty());
    }
    error_page(none, String::new())
}

/// The page that shows a reading: the condition of the code gives label and image.
pub fn reading_page(city: String, m: Measurements, code: i64) -> (r: PageView)
    ensures
        r@ == reading_model(
            city@,
            m.temperature@,
            m.feels_like@,
            m.humidity@,
            m.precipitation@,
            m.wind_speed@,
            condition_of(code as int),
        ),
{
    let c = Condition::from_code(code);
    PageView {
        city,
        temperature: m.temperature,
        feels_like: m.feels_like,
        humidity: m.humidity,
        precipitation: m.precipitation,
        wind_speed: m.wind_speed,
        condition: c.label().to_string(),
        background_image: c.image_url().to_string(),
        error: empty_text(),
    }
}

/// Text followed by a unit.
pub fn with_unit(number: &str, unit: &str) -> (r: String)
    ensures
        r@ == number@ + unit@,
{
    let s = String::from_str(number);
    s.concat(unit)
}

} // verus!
