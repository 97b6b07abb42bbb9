use vstd::prelude::*;

use crate::condition::{Condition, condition_of, sunny_image_text};
use crate::fetch::{
    Current, CurrentModel, FetchError, FetchErrorModel, Place, PlaceModel, Stage,
    geocoding_url, geocoding_url_text, place_url, place_url_text,
};
use crate::page::{PageModel, PageView, error_model, error_page, reading_model, reading_page};

verus! {

/// Where a lookup stands: waiting for the geocoder, waiting for the forecast,
/// or finished with a reading page or with an error page.
#[derive(Clone, Copy, Debug, PartialEq, Eq, Structural)]
pub enum Phase {
    Geocoding,
    Forecasting,
    Rendered,
    ErrorRendered,
}

/// One form submission being answered: the city asked for and the phase.
pub struct Lookup {
    pub city: String,
    pub phase: Phase,
}

pub struct LookupModel {
    pub city: Seq<char>,
    pub phase: Phase,
}

impl View for Lookup {
    type V = LookupModel;

    open spec fn view(&self) -> LookupModel {
        LookupModel { city: self.city@, phase: self.phase }
    }
}

/// What came back from the upstream call that the lookup waits for.
pub enum Event {
    /// The request failed in transport.
    Unreachable { detail: String },
    /// The body was not valid JSON.
    Unreadable { detail: String },
    /// A geocoding body: its results, `None` where the array is absent.
    Located { places: Option<Vec<Place>> },
    /// A forecast body: its current conditions.
    Observed { current: Current },
}

pub enum EventModel {
    Unreachable { detail: Seq<char> },
    Unreadable { detail: Seq<char> },
    Located { places: Option<Seq<PlaceModel>> },
    Observed { current: CurrentModel },
}

impl View for Event {
    type V = EventModel;

    open spec fn view(&self) -> EventModel {
        match self {
            Event::Unreachable { detail } => EventModel::Unreachable { detail: detail@ },
            Event::Unreadable { detail } => EventModel::Unreadable { detail: detail@ },
            Event::Located { places } => EventModel::Located {
                places: match places {
                    Some(v) => Some(v@.map_values(|p: Place| p@)),
                    None => None,
                },
            },
            Event::Observed { current } => EventModel::Observed { current: current@ },
        }
    }
}

/// What the caller is to do next.
pub enum Action {
    /// Send a GET request to this address and report what came back.
    Fetch { url: String },
    /// Render this page as the answer; the lookup is over.
    Show { page: PageView },
    /// Nothing: the event does not fit the phase.
    Wait,
}

pub enum ActionModel {
    Fetch { url: Seq<char> },
    Show { page: PageModel },
    Wait,
}

impl View for Action {
    type V = ActionModel;

    open spec fn view(&self) -> ActionModel {
        match self {
            Action::Fetch { url } => ActionModel::Fetch { url: url@ },
            Action::Show { page } => ActionModel::Show { page: page@ },
            Action::Wait => ActionModel::Wait,
        }
    }
}

/// The error page for a failed lookup of `city`.
pub open spec fn failure(city: Seq<char>, e: FetchErrorModel) -> (LookupModel, ActionModel) {
    (
        LookupModel { city, phase: Phase::ErrorRendered },
        ActionModel::Show { page: error_model(city, e.message(city)) },
    )
}

/// The page that shows the current conditions of a forecast for `city`.
pub open spec fn reading_of(city: Seq<char>, c: CurrentModel) -> PageModel {
    reading_model(
        city,
        c.temperature_text(),
        c.feels_like_text(),
        c.humidity_text(),
        c.precipitation_text(),
        c.wind_speed_text(),
        condition_of(c.code() as int),
    )
}

/// The lookup's next state and action after an event.
pub open spec fn next(s: LookupModel, e: EventModel) -> (LookupModel, ActionModel) {
    match (s.phase, e) {
        (Phase::Geocoding, EventModel::Unreachable { detail }) => failure(
            s.city,
            FetchErrorModel::Network { stage: Stage::Geocoding, detail },
        ),
        (Phase::Geocoding, EventModel::Unreadable { detail }) => failure(
            s.city,
            FetchErrorModel::Parse { stage: Stage::Geocoding, detail },
        ),
        (Phase::Geocoding, EventModel::Located { places }) => match places {
            Some(ps) if ps.len() > 0 => (
                LookupModel { city: s.city, phase: Phase::Forecasting },
                ActionModel::Fetch { url: place_url_text(ps[0]) },
            ),
            _ => failure(s.city, FetchErrorModel::NotFound),
        },
        (Phase::Forecasting, EventModel::Unreachable { detail }) => failure(
            s.city,
            FetchErrorModel::Network { stage: Stage::Forecast, detail },
        ),
        (Phase::Forecasting, EventModel::Unreadable { detail }) => failure(
            s.city,
            FetchErrorModel::Parse { stage: Stage::Forecast, detail },
        ),
        (Phase::Forecasting, EventModel::Observed { current }) => (
            LookupModel { city: s.city, phase: Phase::Rendered },
            ActionModel::Show { page: reading_of(s.city, current) },
        ),
        _ => (s, ActionModel::Wait),
    }
}

impl Lookup {
    /// A lookup of `city`, which starts with the geocoding request.
    pub fn start(city: String) -> (r: (Lookup, Action))
        ensures
            r.0@ == (LookupModel { city: city@, phase: Phase::Geocoding }),
            r.1@ == (ActionModel::Fetch { url: geocoding_url_text(city@) }),
    {
        let url = geocoding_url(city.as_str());
        (Lookup { city, phase: Phase::Geocoding }, Action::Fetch { url })
    }

    fn fail(&mut self, e: FetchError) -> (a: Action)
        ensures
            (final(self)@, a@) == failure(old(self)@.city, e@),
    {
        let message = e.message(self.city.as_str());
        self.phase = Phase::ErrorRendered;
        Action::Show { page: error_page(self.city.as_str(), message) }
    }

    /// Takes in what the awaited call gave and says what to do next.
    pub fn step(&mut self, event: Event) -> (a: Action)
        ensures
            (final(self)@, a@) == next(old(self)@, event@),
    {
        match (self.phase, event) {
            (Phase::Geocoding, Event::Unreachable { detail }) => self.fail(
                FetchError::Network { stage: Stage::Geocoding, detail },
            ),
            (Phase::Geocoding, Event::Unreadable { detail }) => self.fail(
                FetchError::Parse { stage: Stage::Geocoding, detail },
            ),
            (Phase::Geocoding, Event::Located { places }) => match places {
                Some(mut ps) if ps.len() > 0 => {
                    let ghost before = ps@;
                    let first = ps.swap_remove(0);
                    assert(first@ == before.map_values(|p: Place| p@)[0]);
                    self.phase = Phase::Forecasting;
                    Action::Fetch { url: place_url(first) }
                },
                _ => self.fail(FetchError::NotFound),
            },
            (Phase::Forecasting, Event::Unreachable { detail }) => self.fail(
                FetchError::Network { stage: Stage::Forecast, detail },
            ),
            (Phase::Forecasting, Event::Unreadable { detail }) => self.fail(
                FetchError::Parse { stage: Stage::Forecast, detail },
            ),
            (Phase::Forecasting, Event::Observed { current }) => {
                let code = current.code();
                let m = current.measurements();
                self.phase = Phase::Rendered;
                Action::Show { page: reading_page(self.city.clone(), m, code) }
            },
            _ => Action::Wait,
        }
    }
}

} // verus!

verus! {

/// A lookup of `city` as it stands before any answer came back.
pub open spec fn started(city: Seq<char>) -> LookupModel {
    LookupModel { city, phase: Phase::Geocoding }
}

/// The actions a lookup takes for a sequence of events, one per event.
pub open spec fn exchange(s: LookupModel, events: Seq<EventModel>) -> Seq<ActionModel>
    decreases events.len(),
{
    if events.len() == 0 {
        Seq::empty()
    } else {
        let (t, a) = next(s, events[0]);
        seq![a] + exchange(t, events.drop_first())
    }
}

/// A geocoding answer with no results ends the lookup with an error page that
/// names the city and shows no reading.
pub proof fn lemma_no_results_names_the_city(city: Seq<char>, places: Option<Seq<PlaceModel>>)
    requires
        places is None || places->0.len() == 0,
    ensures
        ({
            let (t, a) = next(started(city), EventModel::Located { places });
            &&& t.phase == Phase::ErrorRendered
            &&& a is Show
            &&& a->page.city == city
            &&& a->page.shows_no_reading()
            &&& exists|i: int|
                0 <= i && i + city.len() <= a->page.error.len() && #[trigger] a->page.error.subrange(
                    i,
                    i + city.len() as int,
                ) == city
        }),
{
    let (t, a) = next(started(city), EventModel::Located { places });
    let e = a->page.error;
    reveal_strlit("City '");
    assert(e.subrange(6, 6 + city.len() as int) =~= city);
}

/// A forecast without a weather code shows the clear sky.
pub proof fn lemma_missing_code_is_clear(city: Seq<char>, current: CurrentModel)
    requires
        current.weather_code is None,
    ensures
        ({
            let (t, a) = next(
                LookupModel { city, phase: Phase::Forecasting },
                EventModel::Observed { current },
            );
            &&& t.phase == Phase::Rendered
            &&& a is Show
            &&& a->page.condition == Condition::Clear.label_text()
            &&& a->page.background_image == sunny_image_text()
        }),
{
}

/// Two lookups of the same city that see the same upstream answers take the
/// same actions, and so render the same page.
pub proof fn lemma_identical_requests_identical_pages(
    city: Seq<char>,
    first: Seq<EventModel>,
    second: Seq<EventModel>,
)
    requires
        first == second,
    ensures
        exchange(started(city), first) == exchange(started(city), second),
{
}

/// Every page a lookup shows is either a reading with all measurements and no
/// error, or an error page with a message and no reading.
pub proof fn lemma_reading_or_error(s: LookupModel, e: EventModel)
    ensures
        ({
            let (t, a) = next(s, e);
            a is Show ==> {
                let p = a->page;
                ||| t.phase == Phase::Rendered && p.error.len() == 0 && p.temperature.len() > 0
                    && p.feels_like.len() > 0 && p.humidity.len() > 0 && p.precipitation.len() > 0
                    && p.wind_speed.len() > 0 && p.condition.len() > 0
                ||| t.phase == Phase::ErrorRendered && p.error.len() > 0 && p.shows_no_reading()
            }
        }),
{
    reveal_strlit("°C");
    reveal_strlit("%");
    reveal_strlit(" mm");
    reveal_strlit(" km/h");
    reveal_strlit("City '");
    reveal_strlit("Failed to fetch ");
    reveal_strlit("Failed to parse ");
    reveal_strlit("Clear ☀️");
    reveal_strlit("Cloudy ☁️");
    reveal_strlit("Fog 🌫️");
    reveal_strlit("Rain 🌧️");
    reveal_strlit("Snow ❄️");
    reveal_strlit("Thunderstorm ⚡");
    reveal_strlit("Unknown ❓");
}

/// A finished lookup ignores whatever comes after: one request, one page.
pub proof fn lemma_finished_lookup_waits(s: LookupModel, e: EventModel)
    requires
        s.phase == Phase::Rendered || s.phase == Phase::ErrorRendered,
    ensures
        next(s, e) == (s, ActionModel::Wait),
{
}

} // verus!
