//! Seeding an empty store from the family configuration.
use vstd::prelude::*;
use super::{SQLConnector, StoreView};
use super::helpers::add_parent_child;
use crate::configuration::{Configuration, Family};
use crate::entity::StoreError;
use crate::types::CreatePersonRequest;

verus! {

/// The store after the members are added as people, in order.
pub open spec fn seed_people(v: StoreView, members: Seq<Family>) -> StoreView
    decreases members.len(),
{
    if members.len() == 0 {
        v
    } else {
        seed_people(v, members.drop_last()).with_person(
            members.last().first_name,
            members.last().last_name,
        )
    }
}

/// Links `parent_id` to each person named in `kids`, in order. A name that matches no
/// person, and a link already recorded, are skipped; the first failure stops the pass.
pub open spec fn link_kids(v: StoreView, parent_id: i32, kids: Seq<String>) -> (StoreView, Result<(), StoreError>)
    decreases kids.len(),
{
    if kids.len() == 0 {
        (v, Ok(()))
    } else {
        let (v1, r1) = link_kids(v, parent_id, kids.drop_last());
        if r1 is Err {
            (v1, r1)
        } else {
            match v1.named_index(kids.last()@) {
                None => (v1, Ok(())),
                Some(j) => {
                    let child_id = v1.people[j].id;
                    if v1.has_link(parent_id, child_id) {
                        (v1, Ok(()))
                    } else {
                        match v1.add_link_result(parent_id, child_id) {
                            Ok(_) => (v1.with_link(parent_id, child_id), Ok(())),
                            Err(e) => (v1, Err(e)),
                        }
                    }
                },
            }
        }
    }
}

/// Links one member to their children; a member whose name matches no person is skipped.
pub open spec fn link_member(v: StoreView, m: Family) -> (StoreView, Result<(), StoreError>) {
    match v.named_index(m.first_name@) {
        None => (v, Ok(())),
        Some(i) => link_kids(v, v.people[i].id, m.children@),
    }
}

/// Links every member to their children, in order, stopping at the first failure.
pub open spec fn link_family(v: StoreView, members: Seq<Family>) -> (StoreView, Result<(), StoreError>)
    decreases members.len(),
{
    if members.len() == 0 {
        (v, Ok(()))
    } else {
        let (v1, r1) = link_family(v, members.drop_last());
        if r1 is Err {
            (v1, r1)
        } else {
            link_member(v1, members.last())
        }
    }
}

/// There are enough person identifiers left for every member.
pub open spec fn seed_room(v: StoreView, members: Seq<Family>) -> bool {
    v.next_person_id + members.len() <= i32::MAX
}

/// The store and result after seeding: all members as people, then the links between them.
/// Where the identifiers would run out, nothing is added.
pub open spec fn initialize_outcome(v: StoreView, members: Seq<Family>) -> (StoreView, Result<(), StoreError>) {
    if !seed_room(v, members) {
        (v, Err(StoreError::StorageFull))
    } else {
        link_family(seed_people(v, members), members)
    }
}

/// Once a pass over a prefix of the kids has failed, the longer passes end the same way.
proof fn lemma_link_kids_stops(v: StoreView, parent_id: i32, kids: Seq<String>, k: int, n: int)
    requires
        0 <= k <= n <= kids.len(),
        link_kids(v, parent_id, kids.take(k)).1 is Err,
    ensures
        link_kids(v, parent_id, kids.take(n)) == link_kids(v, parent_id, kids.take(k)),
    decreases n - k,
{
    if n > k {
        lemma_link_kids_stops(v, parent_id, kids, k, n - 1);
        assert(kids.take(n).drop_last() =~= kids.take(n - 1));
    }
}

/// Once a pass over a prefix of the members has failed, the longer passes end the same way.
proof fn lemma_link_family_stops(v: StoreView, members: Seq<Family>, k: int, n: int)
    requires
        0 <= k <= n <= members.len(),
        link_family(v, members.take(k)).1 is Err,
    ensures
        link_family(v, members.take(n)) == link_family(v, members.take(k)),
    decreases n - k,
{
    if n > k {
        lemma_link_family_stops(v, members, k, n - 1);
        assert(members.take(n).drop_last() =~= members.take(n - 1));
    }
}

impl SQLConnector {
    /// Adds every family member as a person, then links each member to the children they
    /// name, looking people up by first name. Names that match no person are skipped, as are
    /// links already recorded.
    pub fn initialize(&mut self, config: &Configuration) -> (r: Result<(), StoreError>)
        requires
            old(self).wf(),
        ensures
            final(self).wf(),
            final(self).path_view() == old(self).path_view(),
            (final(self)@, r) == initialize_outcome(old(self)@, config.family@),
    {
        let ghost v0 = self@;
        assert(v0 == old(self)@);
        let ghost members = config.family@;
        let n = config.family.len();
        if n > (i32::MAX - self.next_person_id) as usize {
            return Err(StoreError::StorageFull);
        }
        let mut i: usize = 0;
        while i < n
            invariant
                n == members.len(),
                members == config.family@,
                0 <= i <= n,
                v0 == old(self)@,
                v0.next_person_id + n <= i32::MAX,
                self.wf(),
                self.path_view() == old(self).path_view(),
                self@ == seed_people(v0, members.take(i as int)),
                self@.next_person_id == v0.next_person_id + i,
            decreases n - i,
        {
            let m = &config.family[i];
            let req = CreatePersonRequest { first_name: m.first_name.clone(), last_name: m.last_name.clone() };
            let res = self.create_person(&req);
            proof {
                assert(members.take(i + 1).drop_last() =~= members.take(i as int));
            }
            i = i + 1;
        }
        proof {
            assert(members.take(n as int) =~= members);
        }
        let ghost mid = self@;
        let mut i: usize = 0;
        while i < n
            invariant
                n == members.len(),
                members == config.family@,
                0 <= i <= n,
                self.wf(),
                self.path_view() == old(self).path_view(),
                v0 == old(self)@,
                mid == seed_people(v0, members),
                seed_room(v0, members),
                link_family(mid, members.take(i as int)) == (self@, Ok::<(), StoreError>(())),
            decreases n - i,
        {
            let ghost vi = self@;
            proof {
                assert(members.take(i + 1).drop_last() =~= members.take(i as int));
            }
            let m = &config.family[i];
            if let Some(pi) = self.find_named(m.first_name.as_str()) {
                let pid = self.people[pi].id;
                let ghost kids = m.children@;
                let mut k: usize = 0;
                while k < m.children.len()
                    invariant
                        n == members.len(),
                        members == config.family@,
                        i < n,
                        v0 == old(self)@,
                        mid == seed_people(v0, members),
                        seed_room(v0, members),
                        m == config.family@[i as int],
                        link_family(mid, members.take(i as int)) == (vi, Ok::<(), StoreError>(())),
                        members.take(i + 1).drop_last() == members.take(i as int),
                        vi.named_index(m.first_name@) == Some(pi as int),
                        pi < vi.people.len(),
                        pid == vi.people[pi as int].id,
                        kids == m.children@,
                        0 <= k <= kids.len(),
                        self.wf(),
                        self.path_view() == old(self).path_view(),
                        link_kids(vi, pid, kids.take(k as int)) == (self@, Ok::<(), StoreError>(())),
                    decreases kids.len() - k,
                {
                    proof {
                        assert(kids.take(k + 1).drop_last() =~= kids.take(k as int));
                    }
                    if let Some(ci) = self.find_named(m.children[k].as_str()) {
                        let cid = self.people[ci].id;
                        if !self.find_link(pid, cid) {
                            let res = add_parent_child(self, pid, cid);
                            if let Err(e) = res {
                                proof {
                                    assert(kids.take(k + 1).last() == kids[k as int]);
                                    assert(link_kids(vi, pid, kids.take(k + 1)) == (self@, Err::<(), StoreError>(e)));
                                    lemma_link_kids_stops(vi, pid, kids, k + 1, kids.len() as int);
                                    assert(kids.take(kids.len() as int) =~= kids);
                                    assert(members.take(i + 1).last() == members[i as int]);
                                    assert(link_family(mid, members.take(i + 1)) == (self@, Err::<(), StoreError>(e)));
                                    lemma_link_family_stops(mid, members, i + 1, n as int);
                                    assert(members.take(n as int) =~= members);
                                }
                                return Err(e);
                            }
                        }
                    }
                    k = k + 1;
                }
                proof {
                    assert(kids.take(kids.len() as int) =~= kids);
                }
            }
            i = i + 1;
        }
        proof {
            assert(members.take(n as int) =~= members);
        }
        Ok(())
    }
}

} // verus!
