//! The parent/child relation: direct children and parents of a person, and new links.
use vstd::prelude::*;
use super::{SQLConnector, StoreView, id_is};
use crate::clock::now_millis;
use crate::entity::{ParentChildLink, Person, StarChart, StoreError, copy_person};
use crate::seq_facts::first_index;

verus! {

/// The people that `links` name as children of `parent_id`, one per link, in link order;
/// a link to an id that no stored person has contributes nothing.
pub open spec fn children_in(people: Seq<Person>, links: Seq<ParentChildLink>, parent_id: i32) -> Seq<
    Person,
>
    decreases links.len(),
{
    if links.len() == 0 {
        Seq::empty()
    } else {
        let prev = children_in(people, links.drop_last(), parent_id);
        let l = links.last();
        if l.parent_id == parent_id {
            match first_index(people, id_is(l.child_id)) {
                Some(i) => prev.push(people[i]),
                None => prev,
            }
        } else {
            prev
        }
    }
}

/// The people that `links` name as parents of `child_id`, one per link, in link order.
pub open spec fn parents_in(people: Seq<Person>, links: Seq<ParentChildLink>, child_id: i32) -> Seq<
    Person,
>
    decreases links.len(),
{
    if links.len() == 0 {
        Seq::empty()
    } else {
        let prev = parents_in(people, links.drop_last(), child_id);
        let l = links.last();
        if l.child_id == child_id {
            match first_index(people, id_is(l.parent_id)) {
                Some(i) => prev.push(people[i]),
                None => prev,
            }
        } else {
            prev
        }
    }
}

impl StoreView {
    pub open spec fn children_of(self, parent_id: i32) -> Seq<Person> {
        children_in(self.people, self.links, parent_id)
    }

    pub open spec fn parents_of(self, child_id: i32) -> Seq<Person> {
        parents_in(self.people, self.links, child_id)
    }

    /// What adding the link `parent_id -> child_id` returns.
    pub open spec fn add_link_result(self, parent_id: i32, child_id: i32) -> Result<(), StoreError> {
        if parent_id == child_id {
            Err(StoreError::InvalidRelation)
        } else if self.has_link(parent_id, child_id) {
            Err(StoreError::DuplicateKey)
        } else {
            Ok(())
        }
    }

    /// The store with the link `parent_id -> child_id` appended.
    pub open spec fn with_link(self, parent_id: i32, child_id: i32) -> StoreView {
        StoreView { links: self.links.push(ParentChildLink { parent_id, child_id }), ..self }
    }
}

impl SQLConnector {
    /// True iff the link `parent_id -> child_id` is recorded.
    pub(crate) fn find_link(&self, parent_id: i32, child_id: i32) -> (r: bool)
        ensures
            r == self@.has_link(parent_id, child_id),
    {
        let target = ParentChildLink { parent_id, child_id };
        let mut i: usize = 0;
        while i < self.links.len()
            invariant
                0 <= i <= self.links@.len(),
                target == (ParentChildLink { parent_id, child_id }),
                forall|j: int| 0 <= j < i ==> #[trigger] self.links@[j] != target,
            decreases self.links@.len() - i,
        {
            let l = self.links[i];
            if l.parent_id == parent_id && l.child_id == child_id {
                assert(self.links@[i as int] == target);
                return true;
            }
            i = i + 1;
        }
        false
    }
}

/// The direct children of `parent_id`; empty where there are none.
pub fn children_of(db: &SQLConnector, parent_id: i32) -> (r: Vec<Person>)
    ensures
        r@ == db@.children_of(parent_id),
{
    let mut kids: Vec<Person> = Vec::new();
    let mut i: usize = 0;
    while i < db.links.len()
        invariant
            0 <= i <= db.links@.len(),
            kids@ == children_in(db.people@, db.links@.take(i as int), parent_id),
        decreases db.links@.len() - i,
    {
        let l = db.links[i];
        if l.parent_id == parent_id {
            if let Some(j) = db.find_person(l.child_id) {
                kids.push(copy_person(&db.people[j]));
            }
        }
        proof {
            assert(db.links@.take(i + 1).drop_last() =~= db.links@.take(i as int));
        }
        i = i + 1;
    }
    proof {
        assert(db.links@.take(db.links@.len() as int) =~= db.links@);
    }
    kids
}

/// The direct parents of `child_id`; empty where there are none.
pub fn parents_of(db: &SQLConnector, child_id: i32) -> (r: Vec<Person>)
    ensures
        r@ == db@.parents_of(child_id),
{
    let mut parents: Vec<Person> = Vec::new();
    let mut i: usize = 0;
    while i < db.links.len()
        invariant
            0 <= i <= db.links@.len(),
            parents@ == parents_in(db.people@, db.links@.take(i as int), child_id),
        decreases db.links@.len() - i,
    {
        let l = db.links[i];
        if l.child_id == child_id {
            if let Some(j) = db.find_person(l.parent_id) {
                parents.push(copy_person(&db.people[j]));
            }
        }
        proof {
            assert(db.links@.take(i + 1).drop_last() =~= db.links@.take(i as int));
        }
        i = i + 1;
    }
    proof {
        assert(db.links@.take(db.links@.len() as int) =~= db.links@);
    }
    parents
}

/// Records `parent_id` as a parent of `child_id`. A person cannot be their own parent,
/// and a pair is recorded once; neither id has to belong to a stored person.
pub fn add_parent_child(db: &mut SQLConnector, parent_id: i32, child_id: i32) -> (r: Result<(), StoreError>)
    requires
        old(db).wf(),
    ensures
        final(db).wf(),
        final(db).path_view() == old(db).path_view(),
        r == old(db)@.add_link_result(parent_id, child_id),
        final(db)@ == if r is Ok {
            old(db)@.with_link(parent_id, child_id)
        } else {
            old(db)@
        },
{
    if parent_id == child_id {
        return Err(StoreError::InvalidRelation);
    }
    if db.find_link(parent_id, child_id) {
        return Err(StoreError::DuplicateKey);
    }
    let ghost before = db.links@;
    let link = ParentChildLink { parent_id, child_id };
    db.links.push(link);
    proof {
        assert forall|i: int, j: int| 0 <= i < db.links@.len() && 0 <= j < db.links@.len() && i != j
            implies db.links@[i] != db.links@[j] by {
            if i < before.len() && j < before.len() {
                assert(db.links@[i] == before[i] && db.links@[j] == before[j]);
            } else if i < before.len() {
                assert(db.links@[i] == before[i]);
                assert(before.contains(before[i]));
            } else {
                assert(db.links@[j] == before[j]);
                assert(before.contains(before[j]));
            }
        }
    }
    Ok(())
}

/// Adds a blank star chart (no name, no description, no stars) for `person_id`, stamped
/// with the current time. The owner is not checked.
pub fn create_star_chart(db: &mut SQLConnector, person_id: i32) -> (r: Result<(), StoreError>)
    requires
        old(db).wf(),
    ensures
        final(db).wf(),
        final(db).path_view() == old(db).path_view(),
        r is Ok <==> old(db)@.chart_room(),
        r is Err ==> r == Err::<(), StoreError>(StoreError::StorageFull) && final(db)@ == old(db)@,
        r is Ok ==> {
            let c = final(db)@.charts.last();
            &&& final(db)@ == StoreView {
                charts: old(db)@.charts.push(c),
                next_chart_id: old(db)@.next_chart_id + 1,
                ..old(db)@
            }
            &&& c.id == old(db)@.next_chart_id
            &&& c.person_id == person_id
            &&& c.chart_type@.len() == 0
            &&& c.chart_key@.len() == 0
            &&& c.star_count == 0
            &&& c.star_total == 0
            &&& c.created_at == c.updated_at
        },
{
    if db.next_chart_id == i32::MAX {
        return Err(StoreError::StorageFull);
    }
    let now = now_millis();
    let id = db.next_chart_id;
    let c = StarChart {
        id,
        person_id,
        chart_type: String::new(),
        chart_key: String::new(),
        star_count: 0,
        star_total: 0,
        created_at: now,
        updated_at: now,
    };
    db.charts.push(c);
    db.next_chart_id = id + 1;
    Ok(())
}

} // verus!
