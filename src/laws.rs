//! Properties that relate several operations of the store, proved over its model.
use vstd::prelude::*;
use crate::entity::{ParentChildLink, Person, StarChart, StoreError};
use crate::seq_facts::{lemma_filter_keeps, lemma_first_index, lemma_first_index_at, lemma_remove_keeps};
use crate::store::helpers::children_in;
use crate::store::{StoreView, chart_id_is, chart_key, count_fits, owned_by};
use crate::types::{CreateStarChartRequest, GetPersonResponse, UpdateStarChartRequest};

verus! {

/// Links none of which names `parent_id` as parent give it no children.
proof fn lemma_no_children(people: Seq<Person>, links: Seq<ParentChildLink>, parent_id: i32)
    requires
        forall|k: int| 0 <= k < links.len() ==> (#[trigger] links[k]).parent_id != parent_id,
    ensures
        children_in(people, links, parent_id).len() == 0,
    decreases links.len(),
{
    if links.len() > 0 {
        let prev = links.drop_last();
        assert forall|k: int| 0 <= k < prev.len() implies (#[trigger] prev[k]).parent_id != parent_id by {
            assert(prev[k] == links[k]);
        }
        lemma_no_children(people, prev, parent_id);
        assert(links.last() == links[links.len() - 1]);
    }
}

/// A chart id at or above the counter belongs to no chart.
proof fn lemma_fresh_chart_id(v: StoreView, id: i32)
    requires
        v.wf(),
        id >= v.next_chart_id,
    ensures
        v.chart_index(id) is None,
{
    lemma_first_index(v.charts, chart_id_is(id));
    if v.chart_index(id) is Some {
        let i = v.chart_index(id)->0;
        assert(v.charts[i].id < v.next_chart_id);
    }
}

/// Replacing the chart at the position of `id` by one with the same id keeps that position.
proof fn lemma_chart_index_after_replace(v: StoreView, id: i32, c: StarChart)
    requires
        v.chart_index(id) is Some,
        c.id == id,
    ensures
        v.with_chart_at(v.chart_index(id)->0, c).chart_index(id) == v.chart_index(id),
{
    lemma_first_index(v.charts, chart_id_is(id));
    let i = v.chart_index(id)->0;
    let s = v.charts.update(i, c);
    assert forall|j: int| 0 <= j < i implies !chart_id_is(id)(#[trigger] s[j]) by {
        assert(s[j] == v.charts[j]);
    }
    lemma_first_index_at(s, chart_id_is(id), i);
}

/// A person who has just been created, under a first name that nobody had before, is what
/// a lookup by that first name finds: with the names given, no children and no charts.
/// The fresh id must not already be the parent in a link or the owner of a chart (links
/// and blank charts may name ids that belong to nobody).
pub proof fn law_create_then_get_person(v: StoreView, first_name: String, last_name: String)
    requires
        v.wf(),
        v.person_room(),
        v.named_index(first_name@) is None,
        forall|k: int| 0 <= k < v.links.len() ==> (#[trigger] v.links[k]).parent_id != v.next_person_id,
        forall|k: int| 0 <= k < v.charts.len() ==> (#[trigger] v.charts[k]).person_id != v.next_person_id,
    ensures
        ({
            let w = v.with_person(first_name, last_name);
            &&& w.named_index(first_name@) == Some(v.people.len() as int)
            &&& forall|r: GetPersonResponse| #[trigger] w.person_entry(r, v.people.len() as int) ==> {
                &&& r.first_name == first_name
                &&& r.last_name == last_name
                &&& r.children@.len() == 0
                &&& r.star_charts@.len() == 0
            }
        }),
{
    let w = v.with_person(first_name, last_name);
    let id = v.next_person_id as i32;
    assert(w.people.drop_last() =~= v.people);
    assert(w.people[v.people.len() as int].id == id);
    lemma_no_children(w.people, w.links, id);
    lemma_filter_keeps(w.charts, owned_by(id), chart_key());
    let owned = w.charts.filter(owned_by(id));
    if owned.len() > 0 {
        assert(owned_by(id)(owned[0]));
        assert(w.charts.contains(owned[0]));
        let k = choose|k: int| 0 <= k < w.charts.len() && w.charts[k] == owned[0];
        assert(w.charts[k].person_id != v.next_person_id);
    }
}

/// A person cannot be linked as their own parent.
pub proof fn law_self_link_rejected(v: StoreView, p: i32)
    ensures
        v.add_link_result(p, p) == Err::<(), StoreError>(StoreError::InvalidRelation),
{
}

/// Once `parent -> child` is linked, the child is among the parent's children and the
/// parent among the child's parents, and linking the pair again is a duplicate. Both must
/// be stored people: a link to an id that belongs to nobody shows up in neither list.
pub proof fn law_link_then_lookup(v: StoreView, parent_id: i32, child_id: i32)
    requires
        v.wf(),
        v.add_link_result(parent_id, child_id) is Ok,
        v.has_person(parent_id),
        v.has_person(child_id),
    ensures
        ({
            let w = v.with_link(parent_id, child_id);
            &&& w.children_of(parent_id).contains(v.people[v.person_index(child_id)->0])
            &&& w.parents_of(child_id).contains(v.people[v.person_index(parent_id)->0])
            &&& w.add_link_result(parent_id, child_id) == Err::<(), StoreError>(StoreError::DuplicateKey)
        }),
{
    let w = v.with_link(parent_id, child_id);
    let l = ParentChildLink { parent_id, child_id };
    assert(w.links.drop_last() =~= v.links);
    assert(w.links.last() == l);
    let kids = w.children_of(parent_id);
    assert(kids.last() == v.people[v.person_index(child_id)->0]);
    assert(kids[kids.len() - 1] == kids.last());
    let parents = w.parents_of(child_id);
    assert(parents[parents.len() - 1] == parents.last());
    assert(w.links[w.links.len() - 1] == l);
}

/// A chart for a missing person is refused with `NotFound`; a chart for a stored person is
/// found again under the id it was given, with the count and total that were written. An
/// exhausted id counter refuses the chart too.
pub proof fn law_create_then_get_chart(v: StoreView, req: CreateStarChartRequest, now: i64)
    requires
        v.wf(),
    ensures
        !v.has_person(req.person_id) ==> v.create_chart_result(req) == Err::<i32, StoreError>(
            StoreError::NotFound,
        ),
        v.has_person(req.person_id) && v.chart_room() ==> {
            let w = v.with_chart(req, now);
            let id = v.next_chart_id as i32;
            &&& v.create_chart_result(req) == Ok::<i32, StoreError>(id)
            &&& w.chart_index(id) == Some(v.charts.len() as int)
            &&& w.charts[v.charts.len() as int].star_count == req.star_count
            &&& w.charts[v.charts.len() as int].star_total == req.star_total
        },
{
    if v.has_person(req.person_id) && v.chart_room() {
        let w = v.with_chart(req, now);
        let id = v.next_chart_id as i32;
        lemma_fresh_chart_id(v, id);
        assert(w.charts.drop_last() =~= v.charts);
    }
}

/// Adding `delta` stars and then `-delta` gives the chart back its count, and keeps it where
/// it was. Left out: a missing chart, `delta == i32::MIN` (whose negation is no `i32`), and
/// a first step that would overflow the count.
pub proof fn law_increment_round_trip(v: StoreView, id: i32, delta: i32, t1: i64, t2: i64)
    requires
        v.wf(),
        v.chart_index(id) is Some,
        delta != i32::MIN,
        count_fits(v.charts[v.chart_index(id)->0], delta),
    ensures
        ({
            let i = v.chart_index(id)->0;
            let w = v.with_increment(id, delta, t1);
            let u = w.with_increment(id, (-delta) as i32, t2);
            &&& v.increment_result(id, delta) == Ok::<i32, StoreError>(id)
            &&& w.increment_result(id, (-delta) as i32) == Ok::<i32, StoreError>(id)
            &&& u.chart_index(id) == Some(i)
            &&& u.charts[i].star_count == v.charts[i].star_count
            &&& u.charts[i].star_total == v.charts[i].star_total
        }),
{
    lemma_first_index(v.charts, chart_id_is(id));
    let i = v.chart_index(id)->0;
    let c = v.charts[i];
    let w = v.with_increment(id, delta, t1);
    let c1 = crate::store::incremented_chart(c, delta, t1);
    lemma_chart_index_after_replace(v, id, c1);
    assert(w.charts[i] == c1);
    let c2 = crate::store::incremented_chart(c1, (-delta) as i32, t2);
    lemma_chart_index_after_replace(w, id, c2);
}

/// A full update that gives no count and no total keeps both as they were.
pub proof fn law_update_keeps_counts(v: StoreView, id: i32, req: UpdateStarChartRequest, now: i64)
    requires
        v.wf(),
        v.chart_index(id) is Some,
        req.star_count is None,
        req.star_total is None,
    ensures
        ({
            let i = v.chart_index(id)->0;
            let w = v.with_update(id, req, now);
            &&& w.chart_index(id) == Some(i)
            &&& w.charts[i].star_count == v.charts[i].star_count
            &&& w.charts[i].star_total == v.charts[i].star_total
        }),
{
    lemma_first_index(v.charts, chart_id_is(id));
    let i = v.chart_index(id)->0;
    lemma_chart_index_after_replace(v, id, crate::store::updated_chart(v.charts[i], req, now));
}

/// Deleting a chart leaves no chart with that id, deleting a missing chart changes nothing,
/// and so deleting twice is the same as deleting once.
pub proof fn law_delete_chart_idempotent(v: StoreView, id: i32)
    requires
        v.wf(),
    ensures
        v.without_chart(id).chart_index(id) is None,
        v.chart_index(id) is None ==> v.without_chart(id) == v,
        v.without_chart(id).without_chart(id) == v.without_chart(id),
{
    if v.chart_index(id) is Some {
        lemma_first_index(v.charts, chart_id_is(id));
        let i = v.chart_index(id)->0;
        let w = v.without_chart(id);
        lemma_remove_keeps(v.charts, i, chart_key());
        lemma_first_index(w.charts, chart_id_is(id));
        if w.chart_index(id) is Some {
            let k = w.chart_index(id)->0;
            assert(chart_key()(w.charts[k]) != chart_key()(v.charts[i]));
        }
    }
}

} // verus!
