//! Rebuilding a store from rows kept elsewhere, and reading its rows back out.
use vstd::prelude::*;
use super::{SQLConnector, StoreView, chart_key, event_key, person_key};
use crate::entity::{CalendarEvent, ParentChildLink, Person, StarChart};
use crate::seq_facts::increasing_by;

verus! {

/// The ids increase along the sequence, and each is positive and below `i32::MAX`.
pub open spec fn ids_valid<A>(s: Seq<A>, key: spec_fn(A) -> int) -> bool {
    &&& increasing_by(s, key)
    &&& forall|i: int| 0 <= i < s.len() ==> 1 <= #[trigger] key(s[i]) < i32::MAX
}

/// The counter that resumes after the last id of the sequence: one more than it, or 1.
pub open spec fn next_id_after<A>(s: Seq<A>, key: spec_fn(A) -> int) -> int {
    if s.len() == 0 {
        1
    } else {
        key(s.last()) + 1
    }
}

/// No link joins a person to themselves, and no link is there twice.
pub open spec fn links_valid(links: Seq<ParentChildLink>) -> bool {
    &&& forall|i: int| 0 <= i < links.len() ==> #[trigger] links[i].parent_id != links[i].child_id
    &&& links.no_duplicates()
}

/// The id conditions read the same on a table and on the list of its ids.
proof fn lemma_ids_valid<A>(s: Seq<A>, ids: Seq<i32>, key: spec_fn(A) -> int)
    requires
        ids.len() == s.len(),
        forall|k: int| 0 <= k < s.len() ==> #[trigger] ids[k] as int == key(s[k]),
    ensures
        ids_valid(s, key) == ({
            &&& forall|i: int, j: int| 0 <= i < j < ids.len() ==> #[trigger] ids[i] < #[trigger] ids[j]
            &&& forall|i: int| 0 <= i < ids.len() ==> 1 <= #[trigger] ids[i] < i32::MAX
        }),
{
    if ids_valid(s, key) {
        assert forall|i: int, j: int| 0 <= i < j < ids.len() implies #[trigger] ids[i] < #[trigger] ids[j] by {
            assert(key(s[i]) < key(s[j]));
        }
        assert forall|i: int| 0 <= i < ids.len() implies 1 <= #[trigger] ids[i] < i32::MAX by {
            assert(1 <= key(s[i]) < i32::MAX);
        }
    }
    if forall|i: int, j: int| 0 <= i < j < ids.len() ==> #[trigger] ids[i] < #[trigger] ids[j] {
        assert forall|i: int, j: int| 0 <= i < j < s.len() implies key(#[trigger] s[i]) < key(#[trigger] s[j]) by {
            assert(ids[i] < ids[j]);
        }
    }
    if forall|i: int| 0 <= i < ids.len() ==> 1 <= #[trigger] ids[i] < i32::MAX {
        assert forall|i: int| 0 <= i < s.len() implies 1 <= #[trigger] key(s[i]) < i32::MAX by {
            assert(1 <= ids[i] < i32::MAX);
        }
    }
}

/// True iff `ids` increase and each is positive and below `i32::MAX`.
fn check_ids(ids: &Vec<i32>) -> (r: bool)
    ensures
        r == ({
            &&& forall|i: int, j: int| 0 <= i < j < ids@.len() ==> #[trigger] ids@[i] < #[trigger] ids@[j]
            &&& forall|i: int| 0 <= i < ids@.len() ==> 1 <= #[trigger] ids@[i] < i32::MAX
        }),
{
    let mut i: usize = 0;
    while i < ids.len()
        invariant
            0 <= i <= ids@.len(),
            forall|a: int, b: int| 0 <= a < b < i ==> #[trigger] ids@[a] < #[trigger] ids@[b],
            forall|a: int| 0 <= a < i ==> 1 <= #[trigger] ids@[a] < i32::MAX,
        decreases ids@.len() - i,
    {
        if ids[i] < 1 || ids[i] == i32::MAX {
            return false;
        }
        if i > 0 && ids[i - 1] >= ids[i] {
            assert(!(ids@[i - 1] < ids@[i as int]));
            return false;
        }
        proof {
            assert forall|a: int, b: int| 0 <= a < b < i + 1 implies #[trigger] ids@[a] < #[trigger] ids@[b] by {
                if b == i && a < i - 1 {
                    assert(ids@[a] < ids@[i - 1]);
                }
            }
        }
        i = i + 1;
    }
    true
}

/// True iff no link joins a person to themselves and no link is there twice.
fn check_links(links: &Vec<ParentChildLink>) -> (r: bool)
    ensures
        r == links_valid(links@),
{
    let mut i: usize = 0;
    while i < links.len()
        invariant
            0 <= i <= links@.len(),
            forall|a: int| 0 <= a < i ==> #[trigger] links@[a].parent_id != links@[a].child_id,
            forall|a: int, b: int| 0 <= a < i && 0 <= b < i && a != b ==> links@[a] != links@[b],
        decreases links@.len() - i,
    {
        let l = links[i];
        if l.parent_id == l.child_id {
            return false;
        }
        let mut j: usize = 0;
        while j < i
            invariant
                0 <= j <= i < links@.len(),
                l == links@[i as int],
                forall|b: int| 0 <= b < j ==> links@[b] != l,
            decreases i - j,
        {
            let m = links[j];
            if m.parent_id == l.parent_id && m.child_id == l.child_id {
                assert(links@[j as int] == links@[i as int]);
                return false;
            }
            j = j + 1;
        }
        i = i + 1;
    }
    true
}

impl SQLConnector {
    /// A store holding exactly the given rows, with each counter resuming after the last id
    /// of its table; `None` where the rows break the store's invariant (ids out of order or
    /// out of range, a self-link, a repeated link).
    pub fn from_tables(
        path: &str,
        people: Vec<Person>,
        links: Vec<ParentChildLink>,
        charts: Vec<StarChart>,
        events: Vec<CalendarEvent>,
    ) -> (r: Option<SQLConnector>)
        ensures
            r is Some <==> {
                &&& ids_valid(people@, person_key())
                &&& ids_valid(charts@, chart_key())
                &&& ids_valid(events@, event_key())
                &&& links_valid(links@)
            },
            r is Some ==> {
                let s = r->0;
                &&& s.wf()
                &&& s.path_view() == path@
                &&& s@ == StoreView {
                    people: people@,
                    links: links@,
                    charts: charts@,
                    events: events@,
                    next_person_id: next_id_after(people@, person_key()),
                    next_chart_id: next_id_after(charts@, chart_key()),
                    next_event_id: next_id_after(events@, event_key()),
                }
            },
    {
        let mut person_ids: Vec<i32> = Vec::new();
        let mut i: usize = 0;
        while i < people.len()
            invariant
                0 <= i <= people@.len(),
                person_ids@.len() == i,
                forall|k: int| 0 <= k < i ==> #[trigger] person_ids@[k] == people@[k].id,
            decreases people@.len() - i,
        {
            person_ids.push(people[i].id);
            i = i + 1;
        }
        let mut chart_ids: Vec<i32> = Vec::new();
        let mut i: usize = 0;
        while i < charts.len()
            invariant
                0 <= i <= charts@.len(),
                chart_ids@.len() == i,
                forall|k: int| 0 <= k < i ==> #[trigger] chart_ids@[k] == charts@[k].id,
            decreases charts@.len() - i,
        {
            chart_ids.push(charts[i].id);
            i = i + 1;
        }
        let mut event_ids: Vec<i32> = Vec::new();
        let mut i: usize = 0;
        while i < events.len()
            invariant
                0 <= i <= events@.len(),
                event_ids@.len() == i,
                forall|k: int| 0 <= k < i ==> #[trigger] event_ids@[k] == events@[k].id,
            decreases events@.len() - i,
        {
            event_ids.push(events[i].id);
            i = i + 1;
        }
        let ok_people = check_ids(&person_ids);
        let ok_charts = check_ids(&chart_ids);
        let ok_events = check_ids(&event_ids);
        let ok_links = check_links(&links);
        proof {
            lemma_ids_valid(people@, person_ids@, person_key());
            lemma_ids_valid(charts@, chart_ids@, chart_key());
            lemma_ids_valid(events@, event_ids@, event_key());
        }
        if !(ok_people && ok_charts && ok_events && ok_links) {
            return None;
        }
        proof {
            if people@.len() > 0 {
                assert(person_ids@[people@.len() - 1] == people@[people@.len() - 1].id);
            }
            if charts@.len() > 0 {
                assert(chart_ids@[charts@.len() - 1] == charts@[charts@.len() - 1].id);
            }
            if events@.len() > 0 {
                assert(event_ids@[events@.len() - 1] == events@[events@.len() - 1].id);
            }
        }
        let next_person_id = if people.len() == 0 { 1 } else { people[people.len() - 1].id + 1 };
        let next_chart_id = if charts.len() == 0 { 1 } else { charts[charts.len() - 1].id + 1 };
        let next_event_id = if events.len() == 0 { 1 } else { events[events.len() - 1].id + 1 };
        proof {
            assert forall|k: int| 0 <= k < people@.len() implies #[trigger] people@[k].id < next_person_id by {
                if k < people@.len() - 1 {
                    assert(person_ids@[k] < person_ids@[people@.len() - 1]);
                    assert(person_ids@[k] == people@[k].id);
                }
            }
            assert forall|k: int| 0 <= k < charts@.len() implies #[trigger] charts@[k].id < next_chart_id by {
                if k < charts@.len() - 1 {
                    assert(chart_ids@[k] < chart_ids@[charts@.len() - 1]);
                    assert(chart_ids@[k] == charts@[k].id);
                }
            }
            assert forall|k: int| 0 <= k < events@.len() implies #[trigger] events@[k].id < next_event_id by {
                if k < events@.len() - 1 {
                    assert(event_ids@[k] < event_ids@[events@.len() - 1]);
                    assert(event_ids@[k] == events@[k].id);
                }
            }
        }
        Some(
            SQLConnector {
                path: String::from_str(path),
                people,
                links,
                charts,
                events,
                next_person_id,
                next_chart_id,
                next_event_id,
            },
        )
    }

    /// The people, in insertion order.
    pub fn people(&self) -> (r: &Vec<Person>)
        ensures
            r@ == self@.people,
    {
        &self.people
    }

    /// The parent/child links, in insertion order.
    pub fn links(&self) -> (r: &Vec<ParentChildLink>)
        ensures
            r@ == self@.links,
    {
        &self.links
    }

    /// The star charts, in insertion order.
    pub fn charts(&self) -> (r: &Vec<StarChart>)
        ensures
            r@ == self@.charts,
    {
        &self.charts
    }

    /// The calendar events, in insertion order.
    pub fn events(&self) -> (r: &Vec<CalendarEvent>)
        ensures
            r@ == self@.events,
    {
        &self.events
    }
}

} // verus!
