//! Calendar events, and people as calendar resources with a display colour each.
use vstd::prelude::*;
use super::{SQLConnector, StoreView, display_name};
use crate::entity::{CalendarEvent, StoreError};
use crate::types::{
    CalendarEventResponse, CalendarPersonResponse, CreateCalendarEventRequest,
    CreateCalendarEventResponse,
};

verus! {

/// How many colours the calendar palette holds.
pub const PALETTE_SIZE: u32 = 6;

/// The background colour at position `k` of the palette.
pub open spec fn palette_color(k: int) -> Seq<char> {
    if k == 0 {
        "#e57373"@
    } else if k == 1 {
        "#64b5f6"@
    } else if k == 2 {
        "#81c784"@
    } else if k == 3 {
        "#ffb74d"@
    } else if k == 4 {
        "#ba68c8"@
    } else {
        "#4db6ac"@
    }
}

/// The colour that calendar text is drawn in.
pub open spec fn text_color() -> Seq<char> {
    "#ffffff"@
}

/// The background colour at position `k` of the palette.
pub fn palette_entry(k: u32) -> (r: String)
    ensures
        r@ == palette_color(k as int),
{
    if k == 0 {
        String::from_str("#e57373")
    } else if k == 1 {
        String::from_str("#64b5f6")
    } else if k == 2 {
        String::from_str("#81c784")
    } else if k == 3 {
        String::from_str("#ffb74d")
    } else if k == 4 {
        String::from_str("#ba68c8")
    } else {
        String::from_str("#4db6ac")
    }
}

impl StoreView {
    /// A new event can still be given an identifier.
    pub open spec fn event_room(self) -> bool {
        self.next_event_id < i32::MAX
    }

    /// The store after an event is added under the next identifier.
    pub open spec fn with_event(self, req: CreateCalendarEventRequest) -> StoreView {
        StoreView {
            events: self.events.push(
                CalendarEvent {
                    id: self.next_event_id as i32,
                    person_id: req.person_id,
                    title: req.title,
                    start_time: req.start,
                    end_time: req.end,
                },
            ),
            next_event_id: self.next_event_id + 1,
            ..self
        }
    }
}

impl SQLConnector {
    /// Adds an event under a fresh identifier. Neither the owner nor the times are checked.
    pub fn create_calendar_event(&mut self, event: &CreateCalendarEventRequest) -> (r: Result<
        CreateCalendarEventResponse,
        StoreError,
    >)
        requires
            old(self).wf(),
        ensures
            final(self).wf(),
            final(self).path_view() == old(self).path_view(),
            match r {
                Ok(resp) => {
                    &&& old(self)@.event_room()
                    &&& resp.id == old(self)@.next_event_id
                    &&& final(self)@ == old(self)@.with_event(*event)
                },
                Err(e) => {
                    &&& !old(self)@.event_room()
                    &&& e == StoreError::StorageFull
                    &&& final(self)@ == old(self)@
                },
            },
    {
        if self.next_event_id == i32::MAX {
            return Err(StoreError::StorageFull);
        }
        let id = self.next_event_id;
        let e = CalendarEvent {
            id,
            person_id: event.person_id,
            title: event.title.clone(),
            start_time: event.start.clone(),
            end_time: event.end.clone(),
        };
        self.events.push(e);
        self.next_event_id = id + 1;
        Ok(CreateCalendarEventResponse { id })
    }

    /// Every event in insertion order, with its owner as `resource_id`.
    pub fn list_calendar_events(&self) -> (r: Vec<CalendarEventResponse>)
        ensures
            r@.len() == self@.events.len(),
            forall|k: int| 0 <= k < r@.len() ==> {
                let e = self@.events[k];
                &&& (#[trigger] r@[k]).id == e.id
                &&& r@[k].title == e.title
                &&& r@[k].start == e.start_time
                &&& r@[k].end == e.end_time
                &&& r@[k].resource_id == e.person_id
            },
    {
        let mut out: Vec<CalendarEventResponse> = Vec::new();
        let mut i: usize = 0;
        while i < self.events.len()
            invariant
                0 <= i <= self.events@.len(),
                out@.len() == i,
                forall|k: int| 0 <= k < i ==> {
                    let e = self.events@[k];
                    &&& (#[trigger] out@[k]).id == e.id
                    &&& out@[k].title == e.title
                    &&& out@[k].start == e.start_time
                    &&& out@[k].end == e.end_time
                    &&& out@[k].resource_id == e.person_id
                },
            decreases self.events@.len() - i,
        {
            let e = &self.events[i];
            out.push(
                CalendarEventResponse {
                    id: e.id,
                    title: e.title.clone(),
                    start: e.start_time.clone(),
                    end: e.end_time.clone(),
                    resource_id: e.person_id,
                },
            );
            i = i + 1;
        }
        out
    }

    /// Every person as a calendar resource titled "First Last", coloured by their id
    /// modulo the palette size.
    pub fn list_calendar_people(&self) -> (r: Vec<CalendarPersonResponse>)
        requires
            self.wf(),
        ensures
            r@.len() == self@.people.len(),
            forall|k: int| 0 <= k < r@.len() ==> {
                let p = self@.people[k];
                &&& (#[trigger] r@[k]).id == p.id
                &&& r@[k].title@ == display_name(p)
                &&& r@[k].event_background_color is Some
                &&& r@[k].event_background_color->0@ == palette_color((p.id as int) % (PALETTE_SIZE as int))
                &&& r@[k].event_text_color is Some
                &&& r@[k].event_text_color->0@ == text_color()
            },
    {
        let mut out: Vec<CalendarPersonResponse> = Vec::new();
        let mut i: usize = 0;
        while i < self.people.len()
            invariant
                self.wf(),
                0 <= i <= self.people@.len(),
                out@.len() == i,
                forall|k: int| 0 <= k < i ==> {
                    let p = self@.people[k];
                    &&& (#[trigger] out@[k]).id == p.id
                    &&& out@[k].title@ == display_name(p)
                    &&& out@[k].event_background_color is Some
                    &&& out@[k].event_background_color->0@ == palette_color((p.id as int) % (PALETTE_SIZE as int))
                    &&& out@[k].event_text_color is Some
                    &&& out@[k].event_text_color->0@ == text_color()
                },
            decreases self.people@.len() - i,
        {
            let p = &self.people[i];
            assert(p.id >= 1);
            let mut title = p.first_name.clone();
            title.append(" ");
            title.append(p.last_name.as_str());
            let color = palette_entry((p.id as u32) % PALETTE_SIZE);
            out.push(
                CalendarPersonResponse {
                    id: p.id,
                    title,
                    event_background_color: Some(color),
                    event_text_color: Some(String::from_str("#ffffff")),
                },
            );
            i = i + 1;
        }
        out
    }
}

} // verus!
