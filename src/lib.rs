//! Looks up the current weather of a city and describes the page that shows it:
//! the weather-code table, the page model, the upstream requests and their
//! failures, and the lookup itself as a state machine driven by the caller.

pub mod condition;
pub mod fetch;
pub mod lookup;
pub mod page;
