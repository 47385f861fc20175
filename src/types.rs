//! Requests and responses exchanged with callers of the store.
use vstd::prelude::*;

verus! {

#[derive(Clone, Debug)]
pub struct CreatePersonRequest {
    pub first_name: String,
    pub last_name: String,
}

#[derive(Clone, Copy, Debug, PartialEq, Eq)]
pub struct CreatePersonResponse {
    pub id: i32,
}

#[derive(Clone, Debug)]
pub struct GetPersonRequest {
    pub first_name: String,
}

/// A person with their direct children and their own star charts.
#[derive(Debug)]
pub struct GetPersonResponse {
    pub first_name: String,
    pub last_name: String,
    pub children: Vec<GetPersonResponse>,
    pub star_charts: Vec<GetStarChartResponse>,
}

#[derive(Clone, Debug)]
pub struct CreateStarChartRequest {
    pub name: String,
    pub description: String,
    pub person_id: i32,
    pub star_count: i32,
    pub star_total: i32,
}

#[derive(Clone, Copy, Debug, PartialEq, Eq)]
pub struct CreateStarChartResponse {
    pub id: i32,
}

/// A star chart annotated with its owner's name.
#[derive(Clone, Debug)]
pub struct GetStarChartResponse {
    pub id: i32,
    pub name: String,
    pub description: String,
    pub star_count: i32,
    pub star_total: i32,
    pub person_first_name: String,
    pub person_last_name: String,
}

/// A full update; a count or total left as `None` is kept as it was.
#[derive(Clone, Debug)]
pub struct UpdateStarChartRequest {
    pub name: String,
    pub description: String,
    pub star_count: Option<i32>,
    pub star_total: Option<i32>,
}

#[derive(Clone, Debug)]
pub struct PersonListItem {
    pub id: i32,
    pub first_name: String,
    pub last_name: String,
}

#[derive(Clone, Copy, Debug, PartialEq, Eq)]
pub struct IncrementStarChartRequest {
    pub delta: i32,
}

#[derive(Clone, Copy, Debug, PartialEq, Eq)]
pub struct UpdateStarChartResponse {
    pub id: i32,
}

#[derive(Clone, Debug)]
pub struct CreateCalendarEventRequest {
    pub title: String,
    pub person_id: i32,
    pub start: String,
    pub end: String,
}

#[derive(Clone, Copy, Debug, PartialEq, Eq)]
pub struct CreateCalendarEventResponse {
    pub id: i32,
}

/// A calendar event as a calendar display expects it: `resource_id` is the owner's id.
#[derive(Clone, Debug)]
pub struct CalendarEventResponse {
    pub id: i32,
    pub title: String,
    pub start: String,
    pub end: String,
    pub resource_id: i32,
}

/// A person as a calendar resource, with the colours their events are drawn in.
#[derive(Clone, Debug)]
pub struct CalendarPersonResponse {
    pub id: i32,
    pub title: String,
    pub event_background_color: Option<String>,
    pub event_text_color: Option<String>,
}

} // verus!
