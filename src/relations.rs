use crate::error::ApubError;
use vstd::prelude::*;

verus! {

broadcast use vstd::seq_lib::group_filter_ensures;

/// A person's follow of a community; `pending` until the community accepts.
#[derive(Clone, Copy, Debug, PartialEq, Eq, Structural)]
pub struct CommunityFollower {
    pub community_id: u64,
    pub person_id: u64,
    pub pending: bool,
}

/// A ban of a person from a community.
#[derive(Clone, Copy, Debug, PartialEq, Eq, Structural)]
pub struct CommunityPersonBan {
    pub community_id: u64,
    pub person_id: u64,
}

pub open spec fn is_follow_of(r: CommunityFollower, community_id: u64, person_id: u64) -> bool {
    r.community_id == community_id && r.person_id == person_id
}

/// Keeps the rows that are not the follow of `person_id` to `community_id`.
pub open spec fn keeps_other_follows(community_id: u64, person_id: u64) -> spec_fn(CommunityFollower) -> bool {
    |r: CommunityFollower| !is_follow_of(r, community_id, person_id)
}

/// A row after an accept of the follow of `person_id` to `community_id`.
pub open spec fn accepted_row(r: CommunityFollower, community_id: u64, person_id: u64) -> CommunityFollower {
    if is_follow_of(r, community_id, person_id) {
        CommunityFollower { pending: false, ..r }
    } else {
        r
    }
}

pub open spec fn has_follow(rows: Seq<CommunityFollower>, community_id: u64, person_id: u64) -> bool {
    exists|i: int| 0 <= i < rows.len() && is_follow_of(#[trigger] rows[i], community_id, person_id)
}

pub open spec fn has_accepted_follow(rows: Seq<CommunityFollower>, community_id: u64, person_id: u64) -> bool {
    exists|i: int|
        0 <= i < rows.len() && is_follow_of(#[trigger] rows[i], community_id, person_id)
            && !rows[i].pending
}

pub open spec fn has_ban(rows: Seq<CommunityPersonBan>, community_id: u64, person_id: u64) -> bool {
    exists|i: int|
        0 <= i < rows.len() && (#[trigger] rows[i]).community_id == community_id
            && rows[i].person_id == person_id
}

/// Follow relations between people and communities.
pub struct FollowerTable {
    pub rows: Vec<CommunityFollower>,
}

impl FollowerTable {
    pub open spec fn view(&self) -> Seq<CommunityFollower> {
        self.rows@
    }

    pub fn new() -> (r: FollowerTable)
        ensures
            r@ == Seq::<CommunityFollower>::empty(),
    {
        FollowerTable { rows: Vec::new() }
    }

    pub fn contains(&self, community_id: u64, person_id: u64) -> (r: bool)
        ensures
            r == has_follow(self@, community_id, person_id),
    {
        let mut i: usize = 0;
        while i < self.rows.len()
            invariant
                i <= self.rows@.len(),
                forall|j: int| 0 <= j < i ==> !is_follow_of(#[trigger] self.rows@[j], community_id, person_id),
            decreases self.rows@.len() - i,
        {
            let row = self.rows[i];
            if row.community_id == community_id && row.person_id == person_id {
                return true;
            }
            i += 1;
        }
        false
    }

    /// Records a follow; an existing follow of the same pair takes the new pending flag.
    pub fn follow(&mut self, community_id: u64, person_id: u64, pending: bool)
        ensures
            has_follow(final(self)@, community_id, person_id),
            has_follow(old(self)@, community_id, person_id) ==> final(self)@ == old(self)@.map_values(
                |r: CommunityFollower|
                    if is_follow_of(r, community_id, person_id) {
                        CommunityFollower { pending, ..r }
                    } else {
                        r
                    },
            ),
            !has_follow(old(self)@, community_id, person_id) ==> final(self)@ == old(self)@.push(
                CommunityFollower { community_id, person_id, pending },
            ),
    {
        if self.contains(community_id, person_id) {
            let ghost before = self@;
            let mut i: usize = 0;
            while i < self.rows.len()
                invariant
                    i <= self.rows@.len(),
                    self.rows@.len() == before.len(),
                    forall|j: int|
                        0 <= j < i ==> #[trigger] self.rows@[j] == (if is_follow_of(before[j], community_id, person_id) {
                            CommunityFollower { pending, ..before[j] }
                        } else {
                            before[j]
                        }),
                    forall|j: int| i <= j < before.len() ==> #[trigger] self.rows@[j] == before[j],
                decreases self.rows@.len() - i,
            {
                let row = self.rows[i];
                if row.community_id == community_id && row.person_id == person_id {
                    self.rows.set(i, CommunityFollower { community_id, person_id, pending });
                }
                i += 1;
            }
            let ghost k = choose|i: int| 0 <= i < before.len() && is_follow_of(#[trigger] before[i], community_id, person_id);
            assert(is_follow_of(self@[k], community_id, person_id));
            assert(self@ =~= before.map_values(
                |r: CommunityFollower|
                    if is_follow_of(r, community_id, person_id) {
                        CommunityFollower { pending, ..r }
                    } else {
                        r
                    },
            ));
        } else {
            self.rows.push(CommunityFollower { community_id, person_id, pending });
            assert(is_follow_of(self@[self@.len() - 1], community_id, person_id));
        }
    }

    /// Marks the follow of `person_id` to `community_id` as accepted; `NotFound` where
    /// no follow was requested.
    pub fn follow_accepted(&mut self, community_id: u64, person_id: u64) -> (r: Result<(), ApubError>)
        ensures
            r is Ok <==> has_follow(old(self)@, community_id, person_id),
            r is Err ==> r == Err::<(), ApubError>(ApubError::NotFound) && final(self)@ == old(self)@,
            r is Ok ==> final(self)@ == old(self)@.map_values(
                |row: CommunityFollower| accepted_row(row, community_id, person_id),
            ),
    {
        if !self.contains(community_id, person_id) {
            return Err(ApubError::NotFound);
        }
        let ghost before = self@;
        let mut i: usize = 0;
        while i < self.rows.len()
            invariant
                i <= self.rows@.len(),
                self.rows@.len() == before.len(),
                forall|j: int|
                    0 <= j < i ==> #[trigger] self.rows@[j] == accepted_row(before[j], community_id, person_id),
                forall|j: int| i <= j < before.len() ==> #[trigger] self.rows@[j] == before[j],
            decreases self.rows@.len() - i,
        {
            let row = self.rows[i];
            if row.community_id == community_id && row.person_id == person_id {
                self.rows.set(i, CommunityFollower { community_id, person_id, pending: false });
            }
            i += 1;
        }
        assert(self@ =~= before.map_values(
            |row: CommunityFollower| accepted_row(row, community_id, person_id),
        ));
        Ok(())
    }

    /// Removes the follow of `person_id` to `community_id`; `NotFound` where there is none.
    pub fn unfollow(&mut self, community_id: u64, person_id: u64) -> (r: Result<(), ApubError>)
        ensures
            r is Ok <==> has_follow(old(self)@, community_id, person_id),
            r is Err ==> r == Err::<(), ApubError>(ApubError::NotFound) && final(self)@ == old(self)@,
            r is Ok ==> final(self)@ == old(self)@.filter(keeps_other_follows(community_id, person_id)),
            !has_follow(final(self)@, community_id, person_id),
    {
        if !self.contains(community_id, person_id) {
            return Err(ApubError::NotFound);
        }
        let ghost before = self@;
        let ghost keep = keeps_other_follows(community_id, person_id);
        let mut out: Vec<CommunityFollower> = Vec::new();
        let mut i: usize = 0;
        while i < self.rows.len()
            invariant
                i <= self.rows@.len(),
                self.rows@ == before,
                keep == keeps_other_follows(community_id, person_id),
                out@ == before.subrange(0, i as int).filter(keep),
            decreases self.rows@.len() - i,
        {
            let row = self.rows[i];
            proof {
                reveal(Seq::filter);
                assert(before.subrange(0, i + 1).drop_last() =~= before.subrange(0, i as int));
                assert(before.subrange(0, i + 1).last() == row);
            }
            if !(row.community_id == community_id && row.person_id == person_id) {
                out.push(row);
            }
            i += 1;
        }
        assert(before.subrange(0, before.len() as int) =~= before);
        self.rows = out;
        assert forall|j: int| 0 <= j < self@.len() implies !is_follow_of(#[trigger] self@[j], community_id, person_id) by {
            assert(keep(self@[j]));
        }
        Ok(())
    }
}

/// Bans of people from communities.
pub struct BanTable {
    pub rows: Vec<CommunityPersonBan>,
}

impl BanTable {
    pub open spec fn view(&self) -> Seq<CommunityPersonBan> {
        self.rows@
    }

    pub fn new() -> (r: BanTable)
        ensures
            r@ == Seq::<CommunityPersonBan>::empty(),
    {
        BanTable { rows: Vec::new() }
    }

    pub fn contains(&self, community_id: u64, person_id: u64) -> (r: bool)
        ensures
            r == has_ban(self@, community_id, person_id),
    {
        let mut i: usize = 0;
        while i < self.rows.len()
            invariant
                i <= self.rows@.len(),
                forall|j: int|
                    0 <= j < i ==> !((#[trigger] self.rows@[j]).community_id == community_id
                        && self.rows@[j].person_id == person_id),
            decreases self.rows@.len() - i,
        {
            let row = self.rows[i];
            if row.community_id == community_id && row.person_id == person_id {
                return true;
            }
            i += 1;
        }
        false
    }

    /// Bans `person_id` from `community_id`; a second ban of the same pair changes nothing.
    pub fn ban(&mut self, community_id: u64, person_id: u64)
        ensures
            has_ban(old(self)@, community_id, person_id) ==> final(self)@ == old(self)@,
            !has_ban(old(self)@, community_id, person_id) ==> final(self)@ == old(self)@.push(
                CommunityPersonBan { community_id, person_id },
            ),
            has_ban(final(self)@, community_id, person_id),
    {
        if !self.contains(community_id, person_id) {
            self.rows.push(CommunityPersonBan { community_id, person_id });
            assert(self@[self@.len() - 1] == CommunityPersonBan { community_id, person_id });
        }
    }
}

} // verus!
