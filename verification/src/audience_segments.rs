//! Audience segments: creators define segments, and the administrator or a
//! segment's creator adds and removes its members, whose number is kept.
use vstd::prelude::*;
use std::collections::BTreeMap;
use crate::admin::{AdminSlot, accept_admin_error, propose_admin_error};
use crate::common::{Auth, Error, Ledger};

verus! {

/// An audience segment.
#[derive(Clone, Debug)]
pub struct Segment {
    pub segment_id: u64,
    pub name: String,
    pub description: String,
    /// IPFS hash of the targeting criteria.
    pub criteria_hash: String,
    pub creator: u64,
    pub member_count: u64,
    pub is_public: bool,
    pub created_at: u64,
    pub last_updated: u64,
}

/// A member of a segment.
#[derive(Clone, Copy, PartialEq, Eq, Structural, Debug)]
pub struct SegmentMembership {
    pub segment_id: u64,
    pub member: u64,
    pub joined_at: u64,
    /// Relevance score from 0 to 1000.
    pub score: u32,
}

/// The contract's storage, as values.
pub struct AudienceSegmentsState {
    pub admin: AdminSlot,
    pub segment_counter: u64,
    pub segments: Map<u64, Segment>,
    /// Memberships by segment and member.
    pub memberships: Map<(u64, u64), SegmentMembership>,
    pub member_counts: Map<u64, u64>,
}

impl AudienceSegmentsState {
    /// What every reachable state satisfies: every membership is filed under
    /// its segment and member, and its segment exists.
    pub open spec fn wf(self) -> bool {
        forall|k: (u64, u64)| #[trigger] self.memberships.contains_key(k) ==> {
            &&& self.segments.contains_key(k.0)
            &&& self.memberships[k].segment_id == k.0
            &&& self.memberships[k].member == k.1
        }
    }

    /// The number of members counted for a segment.
    pub open spec fn member_count(self, segment_id: u64) -> u64 {
        if self.member_counts.contains_key(segment_id) {
            self.member_counts[segment_id]
        } else {
            0
        }
    }

    /// The error of a change to a segment's members by `caller`, which must
    /// be the administrator or the segment's creator.
    pub open spec fn manage_error(self, auth: Auth, caller: u64, segment_id: u64) -> Option<Error> {
        if !auth.authorizes(caller) {
            Some(Error::AuthRequired)
        } else if self.admin.admin is None {
            Some(Error::NotInitialized)
        } else if !self.segments.contains_key(segment_id) {
            Some(Error::SegmentNotFound)
        } else if Some(caller) != self.admin.admin && caller != self.segments[segment_id].creator {
            Some(Error::Unauthorized)
        } else {
            None
        }
    }
}

/// The audience-segments contract.
pub struct AudienceSegmentsContract {
    admin: AdminSlot,
    segment_counter: u64,
    segments: BTreeMap<u64, Segment>,
    memberships: BTreeMap<(u64, u64), SegmentMembership>,
    member_counts: BTreeMap<u64, u64>,
}

impl View for AudienceSegmentsContract {
    type V = AudienceSegmentsState;

    closed spec fn view(&self) -> AudienceSegmentsState {
        AudienceSegmentsState {
            admin: self.admin,
            segment_counter: self.segment_counter,
            segments: self.segments@,
            memberships: self.memberships@,
            member_counts: self.member_counts@,
        }
    }
}

impl AudienceSegmentsContract {
    /// A contract with empty storage.
    pub fn new() -> (c: Self)
        ensures
            c@.wf(),
            c@ == (AudienceSegmentsState {
                admin: AdminSlot { admin: None, pending: None },
                segment_counter: 0,
                segments: Map::empty(),
                memberships: Map::empty(),
                member_counts: Map::empty(),
            }),
    {
        AudienceSegmentsContract {
            admin: AdminSlot { admin: None, pending: None },
            segment_counter: 0,
            segments: BTreeMap::new(),
            memberships: BTreeMap::new(),
            member_counts: BTreeMap::new(),
        }
    }

    /// Stores the administrator.
    pub fn initialize(&mut self, auth: &Auth, admin: u64) -> (r: Result<(), Error>)
        requires
            old(self)@.wf(),
        ensures
            final(self)@.wf(),
            r == crate::common::outcome(
                if old(self)@.admin.admin is Some {
                    Some(Error::AlreadyInitialized)
                } else if !auth.authorizes(admin) {
                    Some(Error::AuthRequired)
                } else {
                    None
                },
                (),
            ),
            r is Err ==> final(self)@ == old(self)@,
            r is Ok ==> final(self)@ == (AudienceSegmentsState {
                admin: AdminSlot { admin: Some(admin), ..old(self)@.admin },
                segment_counter: 0,
                ..old(self)@
            }),
    {
        if self.admin.admin.is_some() {
            return Err(Error::AlreadyInitialized);
        }
        if !auth.check(admin) {
            return Err(Error::AuthRequired);
        }
        self.admin.admin = Some(admin);
        self.segment_counter = 0;
        Ok(())
    }

    /// Creates a segment without members and returns its id, one more than
    /// the last.
    pub fn create_segment(
        &mut self,
        auth: &Auth,
        ledger: &Ledger,
        creator: u64,
        name: String,
        description: String,
        criteria_hash: String,
        is_public: bool,
    ) -> (r: Result<u64, Error>)
        requires
            old(self)@.wf(),
        ensures
            final(self)@.wf(),
            match (if !auth.authorizes(creator) {
                Some(Error::AuthRequired)
            } else if old(self)@.segment_counter == u64::MAX {
                Some(Error::Overflow)
            } else {
                None
            }) {
                Some(e) => r == Err::<u64, Error>(e) && final(self)@ == old(self)@,
                None => {
                    let id = (old(self)@.segment_counter + 1) as u64;
                    &&& r == Ok::<u64, Error>(id)
                    &&& final(self)@ == AudienceSegmentsState {
                        segment_counter: id,
                        segments: old(self)@.segments.insert(
                            id,
                            Segment {
                                segment_id: id,
                                name,
                                description,
                                criteria_hash,
                                creator,
                                member_count: 0,
                                is_public,
                                created_at: ledger.timestamp,
                                last_updated: ledger.timestamp,
                            },
                        ),
                        ..old(self)@
                    }
                },
            },
    {
        if !auth.check(creator) {
            return Err(Error::AuthRequired);
        }
        if self.segment_counter == u64::MAX {
            return Err(Error::Overflow);
        }
        let segment_id = self.segment_counter + 1;
        let segment = Segment {
            segment_id,
            name,
            description,
            criteria_hash,
            creator,
            member_count: 0,
            is_public,
            created_at: ledger.timestamp,
            last_updated: ledger.timestamp,
        };
        self.segments.insert(segment_id, segment);
        self.segment_counter = segment_id;
        Ok(segment_id)
    }

    fn check_manager(&self, auth: &Auth, caller: u64, segment_id: u64) -> (r: Result<(), Error>)
        ensures
            r == crate::common::outcome(self@.manage_error(*auth, caller, segment_id), ()),
    {
        if !auth.check(caller) {
            return Err(Error::AuthRequired);
        }
        let stored_admin = match self.admin.admin {
            Some(a) => a,
            None => {
                return Err(Error::NotInitialized);
            },
        };
        let creator = match self.segments.get(&segment_id) {
            Some(s) => s.creator,
            None => {
                return Err(Error::SegmentNotFound);
            },
        };
        if caller != stored_admin && caller != creator {
            return Err(Error::Unauthorized);
        }
        Ok(())
    }

    /// Adds a member with a relevance score to a segment, once, and counts
    /// it; only the administrator or the segment's creator may.
    pub fn add_member(
        &mut self,
        auth: &Auth,
        ledger: &Ledger,
        admin: u64,
        segment_id: u64,
        member: u64,
        score: u32,
    ) -> (r: Result<(), Error>)
        requires
            old(self)@.wf(),
        ensures
            final(self)@.wf(),
            r == crate::common::outcome(
                match old(self)@.manage_error(*auth, admin, segment_id) {
                    Some(e) => Some(e),
                    None => if old(self)@.memberships.contains_key((segment_id, member)) {
                        Some(Error::AlreadyMember)
                    } else if old(self)@.member_count(segment_id) == u64::MAX {
                        Some(Error::Overflow)
                    } else {
                        None
                    },
                },
                (),
            ),
            r is Err ==> final(self)@ == old(self)@,
            r is Ok ==> final(self)@ == (AudienceSegmentsState {
                memberships: old(self)@.memberships.insert(
                    (segment_id, member),
                    SegmentMembership { segment_id, member, joined_at: ledger.timestamp, score },
                ),
                member_counts: old(self)@.member_counts.insert(
                    segment_id,
                    (old(self)@.member_count(segment_id) + 1) as u64,
                ),
                ..old(self)@
            }),
    {
        match self.check_manager(auth, admin, segment_id) {
            Ok(()) => {},
            Err(e) => {
                return Err(e);
            },
        }
        if self.memberships.contains_key(&(segment_id, member)) {
            return Err(Error::AlreadyMember);
        }
        let count: u64 = match self.member_counts.get(&segment_id) {
            Some(c) => *c,
            None => 0,
        };
        if count == u64::MAX {
            return Err(Error::Overflow);
        }
        let membership = SegmentMembership { segment_id, member, joined_at: ledger.timestamp, score };
        self.memberships.insert((segment_id, member), membership);
        self.member_counts.insert(segment_id, count + 1);
        Ok(())
    }

    /// Removes a member from a segment and, if the count is positive, counts
    /// one member fewer, whether or not it was a member; only the
    /// administrator or the segment's creator may.
    pub fn remove_member(&mut self, auth: &Auth, admin: u64, segment_id: u64, member: u64) -> (r: Result<
        (),
        Error,
    >)
        requires
            old(self)@.wf(),
        ensures
            final(self)@.wf(),
            r == crate::common::outcome(old(self)@.manage_error(*auth, admin, segment_id), ()),
            r is Err ==> final(self)@ == old(self)@,
            r is Ok ==> final(self)@ == (AudienceSegmentsState {
                memberships: old(self)@.memberships.remove((segment_id, member)),
                member_counts: if old(self)@.member_count(segment_id) > 0 {
                    old(self)@.member_counts.insert(segment_id, (old(self)@.member_count(segment_id) - 1) as u64)
                } else {
                    old(self)@.member_counts
                },
                ..old(self)@
            }),
    {
        match self.check_manager(auth, admin, segment_id) {
            Ok(()) => {},
            Err(e) => {
                return Err(e);
            },
        }
        self.memberships.remove(&(segment_id, member));
        let count: u64 = match self.member_counts.get(&segment_id) {
            Some(c) => *c,
            None => 0,
        };
        if count > 0 {
            self.member_counts.insert(segment_id, count - 1);
        }
        Ok(())
    }

    /// Whether `member` belongs to the segment.
    pub fn is_member(&self, segment_id: u64, member: u64) -> (r: bool)
        ensures
            r == self@.memberships.contains_key((segment_id, member)),
    {
        self.memberships.contains_key(&(segment_id, member))
    }

    /// A segment, if it exists.
    pub fn get_segment(&self, segment_id: u64) -> (r: Option<&Segment>)
        ensures
            match r {
                Some(s) => self@.segments.contains_key(segment_id) && *s == self@.segments[segment_id],
                None => !self@.segments.contains_key(segment_id),
            },
    {
        self.segments.get(&segment_id)
    }

    /// A member's membership of a segment, if any.
    pub fn get_membership(&self, segment_id: u64, member: u64) -> (r: Option<SegmentMembership>)
        ensures
            r == (if self@.memberships.contains_key((segment_id, member)) {
                Some(self@.memberships[(segment_id, member)])
            } else {
                None::<SegmentMembership>
            }),
    {
        match self.memberships.get(&(segment_id, member)) {
            Some(m) => Some(*m),
            None => None,
        }
    }

    /// The number of segments created.
    pub fn get_segment_count(&self) -> (r: u64)
        ensures
            r == self@.segment_counter,
    {
        self.segment_counter
    }

    /// The number of members counted for a segment.
    pub fn get_member_count(&self, segment_id: u64) -> (r: u64)
        ensures
            r == self@.member_count(segment_id),
    {
        match self.member_counts.get(&segment_id) {
            Some(c) => *c,
            None => 0,
        }
    }

    /// Proposes a successor to the administrator; only the administrator may.
    pub fn propose_admin(&mut self, auth: &Auth, current_admin: u64, new_admin: u64) -> (r: Result<(), Error>)
        requires
            old(self)@.wf(),
        ensures
            final(self)@.wf(),
            r == crate::common::outcome(propose_admin_error(old(self)@.admin, *auth, current_admin), ()),
            r is Err ==> final(self)@ == old(self)@,
            r is Ok ==> final(self)@ == (AudienceSegmentsState {
                admin: AdminSlot { pending: Some(new_admin), ..old(self)@.admin },
                ..old(self)@
            }),
    {
        crate::admin::propose_admin(&mut self.admin, auth, current_admin, new_admin)
    }

    /// Makes the proposed successor the administrator, at its own request.
    pub fn accept_admin(&mut self, auth: &Auth, new_admin: u64) -> (r: Result<(), Error>)
        requires
            old(self)@.wf(),
        ensures
            final(self)@.wf(),
            r == crate::common::outcome(accept_admin_error(old(self)@.admin, *auth, new_admin), ()),
            r is Err ==> final(self)@ == old(self)@,
            r is Ok ==> final(self)@ == (AudienceSegmentsState {
                admin: AdminSlot { admin: Some(new_admin), pending: None },
                ..old(self)@
            }),
    {
        crate::admin::accept_admin(&mut self.admin, auth, new_admin)
    }
}

/// A member belongs only to segments that exist.
pub proof fn lemma_members_of_existing_segments(s: AudienceSegmentsState, segment_id: u64, member: u64)
    requires
        s.wf(),
        s.memberships.contains_key((segment_id, member)),
    ensures
        s.segments.contains_key(segment_id),
{
}

} // verus!
