//! Star charts: creation, lookup, full and delta updates, deletion.
use vstd::prelude::*;
use super::{SQLConnector, StoreView, chart_id_is, chart_key};
use crate::clock::now_millis;
use crate::entity::{StarChart, StoreError};
use crate::seq_facts::{lemma_first_index, lemma_first_index_at, lemma_remove_keeps};
use crate::types::{
    CreateStarChartRequest, CreateStarChartResponse, GetStarChartResponse,
    UpdateStarChartRequest, UpdateStarChartResponse,
};

verus! {

/// A chart after a full update at time `now`: name and description are replaced, and the
/// count and total only where the request gives them.
pub open spec fn updated_chart(c: StarChart, req: UpdateStarChartRequest, now: i64) -> StarChart {
    StarChart {
        chart_type: req.name,
        chart_key: req.description,
        star_count: match req.star_count {
            Some(n) => n,
            None => c.star_count,
        },
        star_total: match req.star_total {
            Some(n) => n,
            None => c.star_total,
        },
        updated_at: now,
        ..c
    }
}

/// The new count when `delta` is added to a chart's count, if it fits in an `i32`.
pub open spec fn count_fits(c: StarChart, delta: i32) -> bool {
    i32::MIN <= c.star_count + delta <= i32::MAX
}

/// A chart after `delta` stars are added at time `now`.
pub open spec fn incremented_chart(c: StarChart, delta: i32, now: i64) -> StarChart {
    StarChart { star_count: (c.star_count + delta) as i32, updated_at: now, ..c }
}

impl StoreView {
    /// A new star chart can still be given an identifier.
    pub open spec fn chart_room(self) -> bool {
        self.next_chart_id < i32::MAX
    }

    /// The chart that a create request makes at time `now`.
    pub open spec fn new_chart(self, req: CreateStarChartRequest, now: i64) -> StarChart {
        StarChart {
            id: self.next_chart_id as i32,
            person_id: req.person_id,
            chart_type: req.name,
            chart_key: req.description,
            star_count: req.star_count,
            star_total: req.star_total,
            created_at: now,
            updated_at: now,
        }
    }

    /// What a create request returns: the owner must exist and an identifier be left.
    pub open spec fn create_chart_result(self, req: CreateStarChartRequest) -> Result<i32, StoreError> {
        if !self.has_person(req.person_id) {
            Err(StoreError::NotFound)
        } else if !self.chart_room() {
            Err(StoreError::StorageFull)
        } else {
            Ok(self.next_chart_id as i32)
        }
    }

    /// The store after a successful create request at time `now`.
    pub open spec fn with_chart(self, req: CreateStarChartRequest, now: i64) -> StoreView {
        StoreView {
            charts: self.charts.push(self.new_chart(req, now)),
            next_chart_id: self.next_chart_id + 1,
            ..self
        }
    }

    /// The store with the chart at position `i` replaced.
    pub open spec fn with_chart_at(self, i: int, c: StarChart) -> StoreView {
        StoreView { charts: self.charts.update(i, c), ..self }
    }

    /// The store after a full update of chart `id` at time `now`.
    pub open spec fn with_update(self, id: i32, req: UpdateStarChartRequest, now: i64) -> StoreView {
        match self.chart_index(id) {
            Some(i) => self.with_chart_at(i, updated_chart(self.charts[i], req, now)),
            None => self,
        }
    }

    /// What an increment of chart `id` by `delta` returns.
    pub open spec fn increment_result(self, id: i32, delta: i32) -> Result<i32, StoreError> {
        match self.chart_index(id) {
            None => Err(StoreError::NotFound),
            Some(i) => if count_fits(self.charts[i], delta) {
                Ok(id)
            } else {
                Err(StoreError::CountOutOfRange)
            },
        }
    }

    /// The store after chart `id` gains `delta` stars at time `now`.
    pub open spec fn with_increment(self, id: i32, delta: i32, now: i64) -> StoreView {
        match self.chart_index(id) {
            Some(i) => if count_fits(self.charts[i], delta) {
                self.with_chart_at(i, incremented_chart(self.charts[i], delta, now))
            } else {
                self
            },
            None => self,
        }
    }

    /// The store without chart `id`; unchanged where there is no such chart.
    pub open spec fn without_chart(self, id: i32) -> StoreView {
        match self.chart_index(id) {
            Some(i) => StoreView { charts: self.charts.remove(i), ..self },
            None => self,
        }
    }

    /// The first name of person `pid`, or nothing if no such person is stored.
    pub open spec fn owner_first_name(self, pid: i32) -> Seq<char> {
        match self.person_index(pid) {
            Some(i) => self.people[i].first_name@,
            None => Seq::empty(),
        }
    }

    /// The last name of person `pid`, or nothing if no such person is stored.
    pub open spec fn owner_last_name(self, pid: i32) -> Seq<char> {
        match self.person_index(pid) {
            Some(i) => self.people[i].last_name@,
            None => Seq::empty(),
        }
    }

    /// `r` shows chart `c` with its owner's name as the store holds it.
    pub open spec fn chart_entry(self, r: GetStarChartResponse, c: StarChart) -> bool {
        &&& r.id == c.id
        &&& r.name == c.chart_type
        &&& r.description == c.chart_key
        &&& r.star_count == c.star_count
        &&& r.star_total == c.star_total
        &&& r.person_first_name@ == self.owner_first_name(c.person_id)
        &&& r.person_last_name@ == self.owner_last_name(c.person_id)
    }
}

impl SQLConnector {
    /// The position of the star chart with this id.
    pub(crate) fn find_chart(&self, id: i32) -> (r: Option<usize>)
        ensures
            match r {
                Some(i) => i < self@.charts.len() && self@.chart_index(id) == Some(i as int),
                None => self@.chart_index(id) is None,
            },
    {
        let mut i: usize = 0;
        while i < self.charts.len()
            invariant
                0 <= i <= self.charts@.len(),
                forall|j: int| 0 <= j < i ==> (#[trigger] self.charts@[j]).id != id,
            decreases self.charts@.len() - i,
        {
            if self.charts[i].id == id {
                proof {
                    lemma_first_index_at(self.charts@, chart_id_is(id), i as int);
                }
                return Some(i);
            }
            i = i + 1;
        }
        proof {
            lemma_first_index(self.charts@, chart_id_is(id));
            if self@.chart_index(id) is Some {
                let k = self@.chart_index(id)->0;
                assert(self.charts@[k].id != id);
            }
        }
        None
    }

    /// Chart `c` annotated with its owner's name; empty names where the owner is gone.
    pub(crate) fn chart_response(&self, c: &StarChart) -> (r: GetStarChartResponse)
        ensures
            self@.chart_entry(r, *c),
    {
        let (first, last) = match self.find_person(c.person_id) {
            Some(i) => (self.people[i].first_name.clone(), self.people[i].last_name.clone()),
            None => (String::new(), String::new()),
        };
        GetStarChartResponse {
            id: c.id,
            name: c.chart_type.clone(),
            description: c.chart_key.clone(),
            star_count: c.star_count,
            star_total: c.star_total,
            person_first_name: first,
            person_last_name: last,
        }
    }

    /// Adds a star chart for an existing person, stamped with the time `now`.
    pub fn create_star_chart_at(&mut self, star_chart: &CreateStarChartRequest, now: i64) -> (r: Result<
        CreateStarChartResponse,
        StoreError,
    >)
        requires
            old(self).wf(),
        ensures
            final(self).wf(),
            final(self).path_view() == old(self).path_view(),
            match (r, old(self)@.create_chart_result(*star_chart)) {
                (Ok(resp), Ok(id)) => resp.id == id && final(self)@ == old(self)@.with_chart(
                    *star_chart,
                    now,
                ),
                (Err(e), Err(e2)) => e == e2 && final(self)@ == old(self)@,
                _ => false,
            },
    {
        if self.find_person(star_chart.person_id).is_none() {
            return Err(StoreError::NotFound);
        }
        if self.next_chart_id == i32::MAX {
            return Err(StoreError::StorageFull);
        }
        let id = self.next_chart_id;
        let c = StarChart {
            id,
            person_id: star_chart.person_id,
            chart_type: star_chart.name.clone(),
            chart_key: star_chart.description.clone(),
            star_count: star_chart.star_count,
            star_total: star_chart.star_total,
            created_at: now,
            updated_at: now,
        };
        self.charts.push(c);
        self.next_chart_id = id + 1;
        Ok(CreateStarChartResponse { id })
    }

    /// Adds a star chart for an existing person, stamped with the current time.
    pub fn create_star_chart(&mut self, star_chart: &CreateStarChartRequest) -> (r: Result<
        CreateStarChartResponse,
        StoreError,
    >)
        requires
            old(self).wf(),
        ensures
            final(self).wf(),
            final(self).path_view() == old(self).path_view(),
            match (r, old(self)@.create_chart_result(*star_chart)) {
                (Ok(resp), Ok(id)) => resp.id == id && exists|now: i64|
                    final(self)@ == old(self)@.with_chart(*star_chart, now),
                (Err(e), Err(e2)) => e == e2 && final(self)@ == old(self)@,
                _ => false,
            },
    {
        let now = now_millis();
        self.create_star_chart_at(star_chart, now)
    }

    /// The chart with this id, annotated with its owner's name.
    pub fn get_star_chart(&self, star_chart_id: i32) -> (r: Option<GetStarChartResponse>)
        ensures
            match self@.chart_index(star_chart_id) {
                Some(i) => r is Some && self@.chart_entry(r->0, self@.charts[i]),
                None => r is None,
            },
    {
        match self.find_chart(star_chart_id) {
            Some(i) => Some(self.chart_response(&self.charts[i])),
            None => None,
        }
    }

    /// Every chart, in insertion order, each annotated with its owner's name.
    pub fn get_star_charts(&self) -> (r: Vec<GetStarChartResponse>)
        ensures
            r@.len() == self@.charts.len(),
            forall|k: int| 0 <= k < r@.len() ==> self@.chart_entry(#[trigger] r@[k], self@.charts[k]),
    {
        let mut out: Vec<GetStarChartResponse> = Vec::new();
        let mut i: usize = 0;
        while i < self.charts.len()
            invariant
                0 <= i <= self.charts@.len(),
                out@.len() == i,
                forall|k: int| 0 <= k < i ==> self@.chart_entry(#[trigger] out@[k], self@.charts[k]),
            decreases self.charts@.len() - i,
        {
            let e = self.chart_response(&self.charts[i]);
            out.push(e);
            i = i + 1;
        }
        out
    }
    /// Replaces name and description of chart `id`, and its count and total where given,
    /// and stamps it with the time `now`.
    pub fn update_star_chart_at(
        &mut self,
        star_chart_id: i32,
        star_chart: &UpdateStarChartRequest,
        now: i64,
    ) -> (r: Result<UpdateStarChartResponse, StoreError>)
        requires
            old(self).wf(),
        ensures
            final(self).wf(),
            final(self).path_view() == old(self).path_view(),
            final(self)@ == old(self)@.with_update(star_chart_id, *star_chart, now),
            match old(self)@.chart_index(star_chart_id) {
                Some(_) => r == Ok::<UpdateStarChartResponse, StoreError>(
                    UpdateStarChartResponse { id: star_chart_id },
                ),
                None => r == Err::<UpdateStarChartResponse, StoreError>(StoreError::NotFound),
            },
    {
        let i = match self.find_chart(star_chart_id) {
            Some(i) => i,
            None => return Err(StoreError::NotFound),
        };
        let ghost before = self@;
        let c = StarChart {
            id: self.charts[i].id,
            person_id: self.charts[i].person_id,
            chart_type: star_chart.name.clone(),
            chart_key: star_chart.description.clone(),
            star_count: match star_chart.star_count {
                Some(n) => n,
                None => self.charts[i].star_count,
            },
            star_total: match star_chart.star_total {
                Some(n) => n,
                None => self.charts[i].star_total,
            },
            created_at: self.charts[i].created_at,
            updated_at: now,
        };
        self.charts[i] = c;
        proof {
            assert(self.charts@ =~= before.charts.update(i as int, updated_chart(before.charts[i as int], *star_chart, now)));
            lemma_update_keeps_ids(before.charts, i as int, c);
        }
        Ok(UpdateStarChartResponse { id: star_chart_id })
    }

    /// Full update of chart `id`, stamped with the current time.
    pub fn update_star_chart(&mut self, star_chart_id: i32, star_chart: &UpdateStarChartRequest) -> (r:
        Result<UpdateStarChartResponse, StoreError>)
        requires
            old(self).wf(),
        ensures
            final(self).wf(),
            final(self).path_view() == old(self).path_view(),
            exists|now: i64| final(self)@ == old(self)@.with_update(star_chart_id, *star_chart, now),
            match old(self)@.chart_index(star_chart_id) {
                Some(_) => r == Ok::<UpdateStarChartResponse, StoreError>(
                    UpdateStarChartResponse { id: star_chart_id },
                ),
                None => r == Err::<UpdateStarChartResponse, StoreError>(StoreError::NotFound),
            },
    {
        let now = now_millis();
        self.update_star_chart_at(star_chart_id, star_chart, now)
    }

    /// Adds `delta` (which may be negative) to the count of chart `id`, with no clamping,
    /// and stamps it with the time `now`.
    pub fn increment_star_chart_at(&mut self, star_chart_id: i32, delta: i32, now: i64) -> (r: Result<
        UpdateStarChartResponse,
        StoreError,
    >)
        requires
            old(self).wf(),
        ensures
            final(self).wf(),
            final(self).path_view() == old(self).path_view(),
            final(self)@ == old(self)@.with_increment(star_chart_id, delta, now),
            match old(self)@.increment_result(star_chart_id, delta) {
                Ok(id) => r == Ok::<UpdateStarChartResponse, StoreError>(UpdateStarChartResponse { id }),
                Err(e) => r == Err::<UpdateStarChartResponse, StoreError>(e),
            },
    {
        let i = match self.find_chart(star_chart_id) {
            Some(i) => i,
            None => return Err(StoreError::NotFound),
        };
        let ghost before = self@;
        let n: i64 = self.charts[i].star_count as i64 + delta as i64;
        if n < i32::MIN as i64 || n > i32::MAX as i64 {
            return Err(StoreError::CountOutOfRange);
        }
        let c = StarChart {
            id: self.charts[i].id,
            person_id: self.charts[i].person_id,
            chart_type: self.charts[i].chart_type.clone(),
            chart_key: self.charts[i].chart_key.clone(),
            star_count: n as i32,
            star_total: self.charts[i].star_total,
            created_at: self.charts[i].created_at,
            updated_at: now,
        };
        self.charts[i] = c;
        proof {
            assert(self.charts@ =~= before.charts.update(i as int, incremented_chart(before.charts[i as int], delta, now)));
            lemma_update_keeps_ids(before.charts, i as int, c);
        }
        Ok(UpdateStarChartResponse { id: star_chart_id })
    }

    /// Adds `delta` to the count of chart `id`, stamped with the current time.
    pub fn increment_star_chart_internal(&mut self, star_chart_id: i32, delta: i32) -> (r: Result<
        UpdateStarChartResponse,
        StoreError,
    >)
        requires
            old(self).wf(),
        ensures
            final(self).wf(),
            final(self).path_view() == old(self).path_view(),
            exists|now: i64| final(self)@ == old(self)@.with_increment(star_chart_id, delta, now),
            match old(self)@.increment_result(star_chart_id, delta) {
                Ok(id) => r == Ok::<UpdateStarChartResponse, StoreError>(UpdateStarChartResponse { id }),
                Err(e) => r == Err::<UpdateStarChartResponse, StoreError>(e),
            },
    {
        let now = now_millis();
        self.increment_star_chart_at(star_chart_id, delta, now)
    }

    /// Adds `delta` to the count of chart `id`, stamped with the current time.
    pub fn increment_star_chart(&mut self, star_chart_id: i32, delta: i32) -> (r: Result<
        UpdateStarChartResponse,
        StoreError,
    >)
        requires
            old(self).wf(),
        ensures
            final(self).wf(),
            final(self).path_view() == old(self).path_view(),
            exists|now: i64| final(self)@ == old(self)@.with_increment(star_chart_id, delta, now),
            match old(self)@.increment_result(star_chart_id, delta) {
                Ok(id) => r == Ok::<UpdateStarChartResponse, StoreError>(UpdateStarChartResponse { id }),
                Err(e) => r == Err::<UpdateStarChartResponse, StoreError>(e),
            },
    {
        self.increment_star_chart_internal(star_chart_id, delta)
    }

    /// Removes chart `id`; a missing chart is no error and leaves the store as it is.
    pub fn delete_star_chart(&mut self, star_chart_id: i32)
        requires
            old(self).wf(),
        ensures
            final(self).wf(),
            final(self).path_view() == old(self).path_view(),
            final(self)@ == old(self)@.without_chart(star_chart_id),
    {
        if let Some(i) = self.find_chart(star_chart_id) {
            let ghost before = self.charts@;
            self.charts.remove(i);
            proof {
                lemma_remove_keeps(before, i as int, chart_key());
                assert forall|k: int| 0 <= k < self.charts@.len() implies 1 <= #[trigger] self.charts@[k].id
                    < self.next_chart_id by {
                    let k2 = if k < i { k } else { k + 1 };
                    assert(self.charts@[k] == before[k2]);
                }
            }
        }
    }
}

/// Replacing a chart by one with the same id keeps the ids of the table as they were.
proof fn lemma_update_keeps_ids(s: Seq<StarChart>, i: int, c: StarChart)
    requires
        0 <= i < s.len(),
        c.id == s[i].id,
    ensures
        forall|k: int| 0 <= k < s.len() ==> (#[trigger] s.update(i, c)[k]).id == s[k].id,
{
    assert forall|k: int| 0 <= k < s.len() implies (#[trigger] s.update(i, c)[k]).id == s[k].id by {
        if k != i {
            assert(s.update(i, c)[k] == s[k]);
        }
    }
}

} // verus!
