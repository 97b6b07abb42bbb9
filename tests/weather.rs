use weather_lookup::condition::{map_weather_code, sunny_image, Condition};
use weather_lookup::fetch::{forecast_url, geocoding_url, Current, FetchError, Place, Stage};
use weather_lookup::lookup::{Action, Event, Lookup, Phase};
use weather_lookup::page::{error_page, landing_page, with_unit, PageView};

const CLOUDY: &str = "https://images.unsplash.com/photo-1536532184021-da5392b55da1?w=500&auto=format&fit=crop&q=60&ixlib=rb-4.1.0&ixid=M3wxMjA3fDB8MHxzZWFyY2h8NTh8fGNsb3VkeXxlbnwwfHwwfHx8MA%3D%3D";
const UNKNOWN: &str = "https://images.unsplash.com/photo-1611406686532-0df7e54ea334?q=80&w=1074&auto=format&fit=crop&ixlib=rb-4.1.0&ixid=M3wxMjA3fDB8MHxwaG90by1wYWdlfHx8fGVufDB8fHx8fA%3D%3D";
const SUNNY: &str = "https://images.unsplash.com/photo-1604228741406-3faa38f4907a?w=500&auto=format&fit=crop&q=60&ixlib=rb-4.1.0&ixid=M3wxMjA3fDB8MHxzZWFyY2h8NHx8c3Vubnl8ZW58MHx8MHx8fDA%3D";

fn label(code: i64) -> String {
    map_weather_code(code).label
}

fn fetch_url(a: Action) -> String {
    match a {
        Action::Fetch { url } => url,
        _ => panic!("expected a request"),
    }
}

fn shown(a: Action) -> PageView {
    match a {
        Action::Show { page } => page,
        _ => panic!("expected a page"),
    }
}

fn place(lat: Option<&str>, lon: Option<&str>) -> Place {
    Place { latitude: lat.map(|s| s.to_string()), longitude: lon.map(|s| s.to_string()) }
}

fn current(t: f64, f: f64, h: f64, p: f64, w: f64, code: Option<i64>) -> Current {
    Current {
        temperature: Some(format!("{:.1}", t)),
        feels_like: Some(format!("{:.1}", f)),
        humidity: Some(format!("{:.0}", h)),
        precipitation: Some(format!("{:.1}", p)),
        wind_speed: Some(format!("{:.1}", w)),
        weather_code: code,
    }
}

fn run(city: &str, places: Option<Vec<Place>>, now: Current) -> PageView {
    let (mut lookup, _) = Lookup::start(city.to_string());
    let a = lookup.step(Event::Located { places });
    fetch_url(a);
    shown(lookup.step(Event::Observed { current: now }))
}

fn assert_no_reading(p: &PageView) {
    assert_eq!(p.temperature, "");
    assert_eq!(p.feels_like, "");
    assert_eq!(p.humidity, "");
    assert_eq!(p.precipitation, "");
    assert_eq!(p.wind_speed, "");
    assert_eq!(p.condition, "");
    assert_eq!(p.background_image, SUNNY);
}

#[test]
fn documented_codes_map_to_their_labels() {
    assert_eq!(label(0), "Clear ☀️");
    for c in [1, 2, 3] {
        assert_eq!(label(c), "Cloudy ☁️");
    }
    for c in [45, 48] {
        assert_eq!(label(c), "Fog 🌫️");
    }
    for c in [51, 60, 67, 80, 82] {
        assert_eq!(label(c), "Rain 🌧️");
    }
    for c in [71, 75, 77, 85, 86] {
        assert_eq!(label(c), "Snow ❄️");
    }
    for c in [95, 99] {
        assert_eq!(label(c), "Thunderstorm ⚡");
    }
    assert_eq!(map_weather_code(0).image_url, SUNNY);
    assert_eq!(map_weather_code(2).image_url, CLOUDY);
}

#[test]
fn codes_outside_the_table_are_unknown() {
    for c in [100, -1, 4, 44, 46, 68, 70, 78, 83, 84, 87, 94, i64::MAX, i64::MIN] {
        let info = map_weather_code(c);
        assert_eq!(info.label, "Unknown ❓");
        assert_eq!(info.image_url, UNKNOWN);
    }
    assert_eq!(Condition::from_code(83), Condition::Unknown);
}

#[test]
fn full_lookup_formats_every_measurement() {
    let p = run(
        "Berlin",
        Some(vec![place(Some("52.52"), Some("13.41"))]),
        current(21.46, 19.04, 63.2, 0.0, 12.26, Some(2)),
    );
    assert_eq!(p.city, "Berlin");
    assert_eq!(p.temperature, "21.5°C");
    assert_eq!(p.feels_like, "19.0°C");
    assert_eq!(p.humidity, "63%");
    assert_eq!(p.precipitation, "0.0 mm");
    assert_eq!(p.wind_speed, "12.3 km/h");
    assert_eq!(p.condition, "Cloudy ☁️");
    assert_eq!(p.background_image, CLOUDY);
    assert_eq!(p.error, "");
}

#[test]
fn lookup_requests_geocoding_then_forecast() {
    let (mut lookup, a) = Lookup::start("Paris".to_string());
    assert_eq!(lookup.phase, Phase::Geocoding);
    assert_eq!(
        fetch_url(a),
        "https://geocoding-api.open-meteo.com/v1/search?name=Paris&count=1"
    );
    let a = lookup.step(Event::Located {
        places: Some(vec![place(Some("48.85"), Some("2.35")), place(Some("1"), Some("1"))]),
    });
    assert_eq!(lookup.phase, Phase::Forecasting);
    assert_eq!(
        fetch_url(a),
        "https://api.open-meteo.com/v1/forecast?latitude=48.85&longitude=2.35&current=temperature_2m,apparent_temperature,relative_humidity_2m,precipitation,wind_speed_10m,weather_code"
    );
}

#[test]
fn missing_coordinates_count_as_zero() {
    let (mut lookup, _) = Lookup::start("Nowhere".to_string());
    let a = lookup.step(Event::Located { places: Some(vec![place(None, Some("7.5"))]) });
    assert_eq!(
        fetch_url(a),
        forecast_url("0", "7.5")
    );
}

#[test]
fn empty_results_give_not_found_page() {
    let (mut lookup, _) = Lookup::start("Atlantis".to_string());
    let p = shown(lookup.step(Event::Located { places: Some(vec![]) }));
    assert_eq!(lookup.phase, Phase::ErrorRendered);
    assert_eq!(p.city, "Atlantis");
    assert_eq!(p.error, "City 'Atlantis' not found");
    assert!(p.error.contains("Atlantis"));
    assert_no_reading(&p);
}

#[test]
fn absent_results_give_not_found_page() {
    let (mut lookup, _) = Lookup::start("Mu".to_string());
    let p = shown(lookup.step(Event::Located { places: None }));
    assert_eq!(p.error, "City 'Mu' not found");
    assert_no_reading(&p);
}

#[test]
fn missing_weather_code_shows_clear() {
    let p = run(
        "Oslo",
        Some(vec![place(Some("59.91"), Some("10.75"))]),
        current(-3.0, -7.0, 80.0, 0.4, 5.0, None),
    );
    assert_eq!(p.condition, "Clear ☀️");
    assert_eq!(p.background_image, SUNNY);
    assert_eq!(p.temperature, "-3.0°C");
}

#[test]
fn missing_measurements_show_zero() {
    let now = Current {
        temperature: None,
        feels_like: None,
        humidity: None,
        precipitation: None,
        wind_speed: None,
        weather_code: Some(95),
    };
    let p = run("Rome", Some(vec![place(Some("41.9"), Some("12.5"))]), now);
    assert_eq!(p.temperature, "0.0°C");
    assert_eq!(p.feels_like, "0.0°C");
    assert_eq!(p.humidity, "0%");
    assert_eq!(p.precipitation, "0.0 mm");
    assert_eq!(p.wind_speed, "0.0 km/h");
    assert_eq!(p.condition, "Thunderstorm ⚡");
}

#[test]
fn landing_page_is_empty_and_sunny() {
    let first = landing_page();
    let _ = run("Berlin", Some(vec![place(Some("1"), Some("2"))]), current(1.0, 1.0, 1.0, 1.0, 1.0, Some(99)));
    let second = landing_page();
    for p in [first, second] {
        assert_eq!(p.city, "");
        assert_eq!(p.error, "");
        assert_no_reading(&p);
    }
}

#[test]
fn identical_requests_give_identical_pages() {
    let go = || {
        run(
            "Lima",
            Some(vec![place(Some("-12.04"), Some("-77.03"))]),
            current(18.26, 18.0, 77.5, 0.05, 9.99, Some(61)),
        )
    };
    let (a, b) = (go(), go());
    let fields = |p: &PageView| {
        vec![
            p.city.clone(),
            p.temperature.clone(),
            p.feels_like.clone(),
            p.humidity.clone(),
            p.precipitation.clone(),
            p.wind_speed.clone(),
            p.condition.clone(),
            p.background_image.clone(),
            p.error.clone(),
        ]
    };
    assert_eq!(fields(&a), fields(&b));
    assert_eq!(a.condition, "Rain 🌧️");
}

#[test]
fn geocoding_transport_failure_message() {
    let (mut lookup, _) = Lookup::start("Kyiv".to_string());
    let p = shown(lookup.step(Event::Unreachable { detail: "connection refused".to_string() }));
    assert_eq!(p.error, "Failed to fetch geocoding data: connection refused");
    assert_eq!(p.city, "Kyiv");
    assert_no_reading(&p);
}

#[test]
fn geocoding_parse_failure_message() {
    let (mut lookup, _) = Lookup::start("Kyiv".to_string());
    let p = shown(lookup.step(Event::Unreadable { detail: "expected value".to_string() }));
    assert_eq!(p.error, "Failed to parse geocoding data: expected value");
}

#[test]
fn forecast_failure_messages() {
    let start = || {
        let (mut lookup, _) = Lookup::start("Quito".to_string());
        lookup.step(Event::Located { places: Some(vec![place(Some("0"), Some("0"))]) });
        lookup
    };
    let mut l = start();
    let p = shown(l.step(Event::Unreachable { detail: "timed out".to_string() }));
    assert_eq!(p.error, "Failed to fetch weather data: timed out");
    assert_eq!(l.phase, Phase::ErrorRendered);
    let mut l = start();
    let p = shown(l.step(Event::Unreadable { detail: "eof".to_string() }));
    assert_eq!(p.error, "Failed to parse weather data: eof");
    assert_no_reading(&p);
}

#[test]
fn error_messages_by_variant() {
    let e = FetchError::Network { stage: Stage::Forecast, detail: "x".to_string() };
    assert_eq!(e.message("c"), "Failed to fetch weather data: x");
    let e = FetchError::Parse { stage: Stage::Geocoding, detail: "y".to_string() };
    assert_eq!(e.message("c"), "Failed to parse geocoding data: y");
    assert_eq!(FetchError::NotFound.message("Ulm"), "City 'Ulm' not found");
}

#[test]
fn events_out_of_phase_are_ignored() {
    let (mut lookup, _) = Lookup::start("Bern".to_string());
    let a = lookup.step(Event::Observed { current: current(1.0, 1.0, 1.0, 1.0, 1.0, Some(0)) });
    assert!(matches!(a, Action::Wait));
    assert_eq!(lookup.phase, Phase::Geocoding);
    lookup.step(Event::Located { places: None });
    let a = lookup.step(Event::Unreachable { detail: "late".to_string() });
    assert!(matches!(a, Action::Wait));
    assert_eq!(lookup.phase, Phase::ErrorRendered);
}

#[test]
fn helpers_build_exact_text() {
    assert_eq!(with_unit("21.5", "°C"), "21.5°C");
    assert_eq!(geocoding_url("New York"), "https://geocoding-api.open-meteo.com/v1/search?name=New York&count=1");
    assert_eq!(sunny_image(), SUNNY);
    let p = error_page("Graz", "boom".to_string());
    assert_eq!(p.city, "Graz");
    assert_eq!(p.error, "boom");
    assert_no_reading(&p);
}
