//! The relational store: four tables and the operations on them.
//!
//! Identifiers are handed out by the store from per-table counters that start at 1 (or,
//! for a store rebuilt from rows, one past the last id of the table) and only go up.
//! Rows are kept in insertion order.
use vstd::prelude::*;

mod calendar;
mod charts;
pub mod helpers;
mod people;
mod restore;
mod seed;

pub use calendar::{PALETTE_SIZE, palette_color, palette_entry, text_color};
pub use charts::{count_fits, incremented_chart, updated_chart};
pub use people::{child_entry, not_linking, not_owned_by, owned_by};
pub use restore::{ids_valid, links_valid, next_id_after};
pub use seed::{initialize_outcome, link_family, link_kids, link_member, seed_people, seed_room};
use crate::entity::{CalendarEvent, ParentChildLink, Person, StarChart, StoreError, copy_person};
use crate::seq_facts::{first_index, increasing_by, lemma_first_index, lemma_first_index_at};
use crate::types::{CreatePersonRequest, CreatePersonResponse, PersonListItem};

verus! {

/// Selects the person with the given id.
pub open spec fn id_is(id: i32) -> spec_fn(Person) -> bool {
    |p: Person| p.id == id
}

/// Selects the people with the given first name.
pub open spec fn first_name_is(name: Seq<char>) -> spec_fn(Person) -> bool {
    |p: Person| p.first_name@ == name
}

/// Selects the star chart with the given id.
pub open spec fn chart_id_is(id: i32) -> spec_fn(StarChart) -> bool {
    |c: StarChart| c.id == id
}

pub open spec fn person_key() -> spec_fn(Person) -> int {
    |p: Person| p.id as int
}

pub open spec fn chart_key() -> spec_fn(StarChart) -> int {
    |c: StarChart| c.id as int
}

pub open spec fn event_key() -> spec_fn(CalendarEvent) -> int {
    |e: CalendarEvent| e.id as int
}

/// "First Last", the display form of a person's name.
pub open spec fn display_name(p: Person) -> Seq<char> {
    p.first_name@ + " "@ + p.last_name@
}

/// The contents of the store: its four tables and the next identifier of each counter.
pub struct StoreView {
    pub people: Seq<Person>,
    pub links: Seq<ParentChildLink>,
    pub charts: Seq<StarChart>,
    pub events: Seq<CalendarEvent>,
    pub next_person_id: int,
    pub next_chart_id: int,
    pub next_event_id: int,
}

impl StoreView {
    /// Identifiers are positive, below their counter, and increase along each table;
    /// no link joins a person to themselves, and no link is recorded twice.
    pub open spec fn wf(self) -> bool {
        &&& 1 <= self.next_person_id <= i32::MAX
        &&& 1 <= self.next_chart_id <= i32::MAX
        &&& 1 <= self.next_event_id <= i32::MAX
        &&& increasing_by(self.people, person_key())
        &&& increasing_by(self.charts, chart_key())
        &&& increasing_by(self.events, event_key())
        &&& forall|i: int| 0 <= i < self.people.len() ==> 1 <= #[trigger] self.people[i].id < self.next_person_id
        &&& forall|i: int| 0 <= i < self.charts.len() ==> 1 <= #[trigger] self.charts[i].id < self.next_chart_id
        &&& forall|i: int| 0 <= i < self.events.len() ==> 1 <= #[trigger] self.events[i].id < self.next_event_id
        &&& forall|i: int| 0 <= i < self.links.len() ==> #[trigger] self.links[i].parent_id != self.links[i].child_id
        &&& self.links.no_duplicates()
    }

    /// The position of the person with this id.
    pub open spec fn person_index(self, id: i32) -> Option<int> {
        first_index(self.people, id_is(id))
    }

    /// The position of the first person, in insertion order, with this first name.
    pub open spec fn named_index(self, name: Seq<char>) -> Option<int> {
        first_index(self.people, first_name_is(name))
    }

    /// The position of the star chart with this id.
    pub open spec fn chart_index(self, id: i32) -> Option<int> {
        first_index(self.charts, chart_id_is(id))
    }

    pub open spec fn has_person(self, id: i32) -> bool {
        self.person_index(id) is Some
    }

    pub open spec fn has_link(self, parent_id: i32, child_id: i32) -> bool {
        self.links.contains(ParentChildLink { parent_id, child_id })
    }

    /// A new person can still be given an identifier.
    pub open spec fn person_room(self) -> bool {
        self.next_person_id < i32::MAX
    }

    /// The store after a person is added under the next identifier.
    pub open spec fn with_person(self, first_name: String, last_name: String) -> StoreView {
        StoreView {
            people: self.people.push(
                Person { id: self.next_person_id as i32, first_name, last_name },
            ),
            next_person_id: self.next_person_id + 1,
            ..self
        }
    }
}

/// The store of people, parent/child links, star charts and calendar events.
///
/// Every store that `new` or `from_tables` returns is well formed (`wf`), and every
/// operation keeps it so.
pub struct SQLConnector {
    path: String,
    people: Vec<Person>,
    links: Vec<ParentChildLink>,
    charts: Vec<StarChart>,
    events: Vec<CalendarEvent>,
    next_person_id: i32,
    next_chart_id: i32,
    next_event_id: i32,
}

impl View for SQLConnector {
    type V = StoreView;

    closed spec fn view(&self) -> StoreView {
        StoreView {
            people: self.people@,
            links: self.links@,
            charts: self.charts@,
            events: self.events@,
            next_person_id: self.next_person_id as int,
            next_chart_id: self.next_chart_id as int,
            next_event_id: self.next_event_id as int,
        }
    }
}

impl SQLConnector {
    pub open spec fn wf(&self) -> bool {
        self@.wf()
    }

    /// The location that the store is kept at.
    pub closed spec fn path_view(&self) -> Seq<char> {
        self.path@
    }

    /// An empty store for the given location.
    pub fn new(path: &str) -> (r: SQLConnector)
        ensures
            r.wf(),
            r.path_view() == path@,
            r@.people.len() == 0,
            r@.links.len() == 0,
            r@.charts.len() == 0,
            r@.events.len() == 0,
            r@.next_person_id == 1,
            r@.next_chart_id == 1,
            r@.next_event_id == 1,
    {
        SQLConnector {
            path: String::from_str(path),
            people: Vec::new(),
            links: Vec::new(),
            charts: Vec::new(),
            events: Vec::new(),
            next_person_id: 1,
            next_chart_id: 1,
            next_event_id: 1,
        }
    }

    /// The location that the store is kept at.
    pub fn path(&self) -> (r: &str)
        ensures
            r@ == self.path_view(),
    {
        self.path.as_str()
    }

    /// The position of the person with this id.
    pub(crate) fn find_person(&self, id: i32) -> (r: Option<usize>)
        ensures
            match r {
                Some(i) => i < self@.people.len() && self@.person_index(id) == Some(i as int),
                None => self@.person_index(id) is None,
            },
    {
        let mut i: usize = 0;
        while i < self.people.len()
            invariant
                0 <= i <= self.people@.len(),
                forall|j: int| 0 <= j < i ==> (#[trigger] self.people@[j]).id != id,
            decreases self.people@.len() - i,
        {
            if self.people[i].id == id {
                proof {
                    lemma_first_index_at(self.people@, id_is(id), i as int);
                }
                return Some(i);
            }
            i = i + 1;
        }
        proof {
            lemma_first_index(self.people@, id_is(id));
            if self@.person_index(id) is Some {
                let k = self@.person_index(id)->0;
                assert(self.people@[k].id != id);
            }
        }
        None
    }

    /// The position of the first person with this first name.
    pub(crate) fn find_named(&self, name: &str) -> (r: Option<usize>)
        ensures
            match r {
                Some(i) => i < self@.people.len() && self@.named_index(name@) == Some(i as int),
                None => self@.named_index(name@) is None,
            },
    {
        let target = String::from_str(name);
        let mut i: usize = 0;
        while i < self.people.len()
            invariant
                0 <= i <= self.people@.len(),
                target@ == name@,
                forall|j: int| 0 <= j < i ==> (#[trigger] self.people@[j]).first_name@ != name@,
            decreases self.people@.len() - i,
        {
            if self.people[i].first_name == target {
                proof {
                    lemma_first_index_at(self.people@, first_name_is(name@), i as int);
                }
                return Some(i);
            }
            i = i + 1;
        }
        proof {
            lemma_first_index(self.people@, first_name_is(name@));
            if self@.named_index(name@) is Some {
                let k = self@.named_index(name@)->0;
                assert(self.people@[k].first_name@ != name@);
            }
        }
        None
    }

    /// True iff at least one person is stored.
    pub fn is_initialized(&self) -> (r: bool)
        ensures
            r == (self@.people.len() > 0),
    {
        self.people.len() > 0
    }

    /// Adds a person under a fresh identifier and returns it.
    pub fn create_person(&mut self, person: &CreatePersonRequest) -> (r: Result<CreatePersonResponse, StoreError>)
        requires
            old(self).wf(),
        ensures
            final(self).wf(),
            final(self).path_view() == old(self).path_view(),
            match r {
                Ok(resp) => {
                    &&& old(self)@.person_room()
                    &&& resp.id == old(self)@.next_person_id
                    &&& final(self)@ == old(self)@.with_person(person.first_name, person.last_name)
                },
                Err(e) => {
                    &&& !old(self)@.person_room()
                    &&& e == StoreError::StorageFull
                    &&& final(self)@ == old(self)@
                },
            },
    {
        if self.next_person_id == i32::MAX {
            return Err(StoreError::StorageFull);
        }
        let id = self.next_person_id;
        let p = Person { id, first_name: person.first_name.clone(), last_name: person.last_name.clone() };
        self.people.push(p);
        self.next_person_id = id + 1;
        Ok(CreatePersonResponse { id })
    }

    /// Every person's name as "First Last", in insertion order.
    pub fn get_people(&self) -> (r: Vec<String>)
        ensures
            r@.len() == self@.people.len(),
            forall|k: int| 0 <= k < r@.len() ==> (#[trigger] r@[k])@ == display_name(self@.people[k]),
    {
        let mut out: Vec<String> = Vec::new();
        let mut i: usize = 0;
        while i < self.people.len()
            invariant
                0 <= i <= self.people@.len(),
                out@.len() == i,
                forall|k: int| 0 <= k < i ==> (#[trigger] out@[k])@ == display_name(self.people@[k]),
            decreases self.people@.len() - i,
        {
            let p = &self.people[i];
            let mut s = p.first_name.clone();
            s.append(" ");
            s.append(p.last_name.as_str());
            out.push(s);
            i = i + 1;
        }
        out
    }

    /// Every person as a structured record, in insertion order.
    pub fn get_all_people(&self) -> (r: Vec<PersonListItem>)
        ensures
            r@.len() == self@.people.len(),
            forall|k: int| 0 <= k < r@.len() ==> {
                &&& (#[trigger] r@[k]).id == self@.people[k].id
                &&& r@[k].first_name == self@.people[k].first_name
                &&& r@[k].last_name == self@.people[k].last_name
            },
    {
        let mut out: Vec<PersonListItem> = Vec::new();
        let mut i: usize = 0;
        while i < self.people.len()
            invariant
                0 <= i <= self.people@.len(),
                out@.len() == i,
                forall|k: int| 0 <= k < i ==> {
                    &&& (#[trigger] out@[k]).id == self.people@[k].id
                    &&& out@[k].first_name == self.people@[k].first_name
                    &&& out@[k].last_name == self.people@[k].last_name
                },
            decreases self.people@.len() - i,
        {
            let p = copy_person(&self.people[i]);
            out.push(PersonListItem { id: p.id, first_name: p.first_name, last_name: p.last_name });
            i = i + 1;
        }
        out
    }
}

} // verus!
