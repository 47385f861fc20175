//! A person with their children and charts, and the removal of a person.
use vstd::prelude::*;
use super::{SQLConnector, StoreView, chart_key, person_key};
use super::helpers::children_of;
use crate::entity::{ParentChildLink, Person, StarChart, copy_chart};
use crate::seq_facts::{lemma_filter_keeps, lemma_remove_keeps};
use crate::types::{GetPersonResponse, GetStarChartResponse};

verus! {

/// Selects the charts that `person_id` owns.
pub open spec fn owned_by(person_id: i32) -> spec_fn(StarChart) -> bool {
    |c: StarChart| c.person_id == person_id
}

/// Selects the charts that `person_id` does not own.
pub open spec fn not_owned_by(person_id: i32) -> spec_fn(StarChart) -> bool {
    |c: StarChart| c.person_id != person_id
}

/// Selects the links in which `person_id` is neither parent nor child.
pub open spec fn not_linking(person_id: i32) -> spec_fn(ParentChildLink) -> bool {
    |l: ParentChildLink| l.parent_id != person_id && l.child_id != person_id
}

/// `r` shows child `c` by name, with nothing nested below it.
pub open spec fn child_entry(r: GetPersonResponse, c: Person) -> bool {
    &&& r.first_name == c.first_name
    &&& r.last_name == c.last_name
    &&& r.children@.len() == 0
    &&& r.star_charts@.len() == 0
}

impl StoreView {
    /// The charts of `person_id`, in insertion order.
    pub open spec fn charts_of(self, person_id: i32) -> Seq<StarChart> {
        self.charts.filter(owned_by(person_id))
    }

    /// `r` shows the person at position `i`: their name, their direct children, and their
    /// own charts.
    pub open spec fn person_entry(self, r: GetPersonResponse, i: int) -> bool {
        let p = self.people[i];
        let kids = self.children_of(p.id);
        let charts = self.charts_of(p.id);
        &&& r.first_name == p.first_name
        &&& r.last_name == p.last_name
        &&& r.children@.len() == kids.len()
        &&& forall|k: int| 0 <= k < kids.len() ==> child_entry(#[trigger] r.children@[k], kids[k])
        &&& r.star_charts@.len() == charts.len()
        &&& forall|k: int| 0 <= k < charts.len() ==> self.chart_entry(#[trigger] r.star_charts@[k], charts[k])
    }

    /// The store without person `person_id`, their charts, and every link that names them.
    pub open spec fn without_person(self, person_id: i32) -> StoreView {
        StoreView {
            people: match self.person_index(person_id) {
                Some(i) => self.people.remove(i),
                None => self.people,
            },
            links: self.links.filter(not_linking(person_id)),
            charts: self.charts.filter(not_owned_by(person_id)),
            ..self
        }
    }
}

impl SQLConnector {
    /// The charts of `person_id`, each annotated with its owner's name.
    fn chart_responses_of(&self, person_id: i32) -> (r: Vec<GetStarChartResponse>)
        ensures
            r@.len() == self@.charts_of(person_id).len(),
            forall|k: int| 0 <= k < r@.len() ==> self@.chart_entry(#[trigger] r@[k], self@.charts_of(person_id)[k]),
    {
        let mut out: Vec<GetStarChartResponse> = Vec::new();
        let mut i: usize = 0;
        while i < self.charts.len()
            invariant
                0 <= i <= self.charts@.len(),
                out@.len() == self.charts@.take(i as int).filter(owned_by(person_id)).len(),
                forall|k: int| 0 <= k < out@.len() ==> self@.chart_entry(
                    #[trigger] out@[k],
                    self.charts@.take(i as int).filter(owned_by(person_id))[k],
                ),
            decreases self.charts@.len() - i,
        {
            proof {
                reveal(Seq::filter);
                assert(self.charts@.take(i + 1).drop_last() =~= self.charts@.take(i as int));
            }
            if self.charts[i].person_id == person_id {
                let e = self.chart_response(&self.charts[i]);
                out.push(e);
            }
            i = i + 1;
        }
        proof {
            assert(self.charts@.take(self.charts@.len() as int) =~= self.charts@);
        }
        out
    }

    /// The first person, in insertion order, with this first name, together with their
    /// direct children (one level, nothing nested below them) and their own charts.
    pub fn get_person(&self, first_name: &str) -> (r: Option<GetPersonResponse>)
        ensures
            match self@.named_index(first_name@) {
                Some(i) => r is Some && self@.person_entry(r->0, i),
                None => r is None,
            },
    {
        let i = match self.find_named(first_name) {
            Some(i) => i,
            None => return None,
        };
        let id = self.people[i].id;
        let kids = children_of(self, id);
        let mut children: Vec<GetPersonResponse> = Vec::new();
        let mut k: usize = 0;
        while k < kids.len()
            invariant
                0 <= k <= kids@.len(),
                children@.len() == k,
                forall|j: int| 0 <= j < k ==> child_entry(#[trigger] children@[j], kids@[j]),
            decreases kids@.len() - k,
        {
            children.push(
                GetPersonResponse {
                    first_name: kids[k].first_name.clone(),
                    last_name: kids[k].last_name.clone(),
                    children: Vec::new(),
                    star_charts: Vec::new(),
                },
            );
            k = k + 1;
        }
        let star_charts = self.chart_responses_of(id);
        Some(
            GetPersonResponse {
                first_name: self.people[i].first_name.clone(),
                last_name: self.people[i].last_name.clone(),
                children,
                star_charts,
            },
        )
    }

    /// Removes person `person_id`: first their charts, then every link that names them,
    /// then the person. A missing person is no error.
    pub fn delete_person(&mut self, person_id: i32)
        requires
            old(self).wf(),
        ensures
            final(self).wf(),
            final(self).path_view() == old(self).path_view(),
            final(self)@ == old(self)@.without_person(person_id),
    {
        let ghost before = self@;
        let mut charts: Vec<StarChart> = Vec::new();
        let mut i: usize = 0;
        while i < self.charts.len()
            invariant
                0 <= i <= self.charts@.len(),
                charts@ == self.charts@.take(i as int).filter(not_owned_by(person_id)),
            decreases self.charts@.len() - i,
        {
            proof {
                reveal(Seq::filter);
                assert(self.charts@.take(i + 1).drop_last() =~= self.charts@.take(i as int));
            }
            if self.charts[i].person_id != person_id {
                charts.push(copy_chart(&self.charts[i]));
            }
            i = i + 1;
        }
        proof {
            assert(self.charts@.take(self.charts@.len() as int) =~= self.charts@);
        }
        let mut links: Vec<ParentChildLink> = Vec::new();
        let mut j: usize = 0;
        while j < self.links.len()
            invariant
                0 <= j <= self.links@.len(),
                links@ == self.links@.take(j as int).filter(not_linking(person_id)),
            decreases self.links@.len() - j,
        {
            proof {
                reveal(Seq::filter);
                assert(self.links@.take(j + 1).drop_last() =~= self.links@.take(j as int));
            }
            let l = self.links[j];
            if l.parent_id != person_id && l.child_id != person_id {
                links.push(l);
            }
            j = j + 1;
        }
        proof {
            assert(self.links@.take(self.links@.len() as int) =~= self.links@);
        }
        self.charts = charts;
        self.links = links;
        if let Some(k) = self.find_person(person_id) {
            self.people.remove(k);
            proof {
                lemma_remove_keeps(before.people, k as int, person_key());
                assert forall|m: int| 0 <= m < self.people@.len() implies 1 <= #[trigger] self.people@[m].id
                    < self.next_person_id by {
                    let m2 = if m < k { m } else { m + 1 };
                    assert(self.people@[m] == before.people[m2]);
                }
            }
        }
        proof {
            lemma_filter_keeps(before.charts, not_owned_by(person_id), chart_key());
            lemma_filter_keeps(before.links, not_linking(person_id), |l: ParentChildLink| 0int);
            assert forall|m: int| 0 <= m < self.charts@.len() implies 1 <= #[trigger] self.charts@[m].id
                < self.next_chart_id by {
                assert(before.charts.contains(self.charts@[m]));
            }
            assert forall|m: int| 0 <= m < self.links@.len() implies #[trigger] self.links@[m].parent_id
                != self.links@[m].child_id by {
                assert(before.links.contains(self.links@[m]));
            }
        }
    }
}

} // verus!
