//! Two-step hand-over of a contract's administrator role: the current
//! administrator proposes a successor, and the role passes only when the
//! successor accepts it.
use vstd::prelude::*;
use crate::common::{Auth, Error};

verus! {

/// The administrator of a contract and the successor it has proposed.
#[derive(Clone, Copy, PartialEq, Eq, Structural, Debug)]
pub struct AdminSlot {
    pub admin: Option<u64>,
    pub pending: Option<u64>,
}

/// Why `propose_admin` refuses, in the order in which it checks.
pub open spec fn propose_admin_error(slot: AdminSlot, auth: Auth, current_admin: u64) -> Option<Error> {
    if !auth.authorizes(current_admin) {
        Some(Error::AuthRequired)
    } else if slot.admin is None {
        Some(Error::NotInitialized)
    } else if slot.admin != Some(current_admin) {
        Some(Error::Unauthorized)
    } else {
        None
    }
}

/// Why `accept_admin` refuses, in the order in which it checks.
pub open spec fn accept_admin_error(slot: AdminSlot, auth: Auth, new_admin: u64) -> Option<Error> {
    if !auth.authorizes(new_admin) {
        Some(Error::AuthRequired)
    } else if slot.pending is None {
        Some(Error::NoPendingAdmin)
    } else if slot.pending != Some(new_admin) {
        Some(Error::NotPendingAdmin)
    } else {
        None
    }
}

/// Records `new_admin` as the proposed successor; only the current
/// administrator may do so.
pub fn propose_admin(slot: &mut AdminSlot, auth: &Auth, current_admin: u64, new_admin: u64) -> (r: Result<(), Error>)
    ensures
        r == crate::common::outcome(propose_admin_error(*old(slot), *auth, current_admin), ()),
        r is Ok ==> *final(slot) == (AdminSlot { pending: Some(new_admin), ..*old(slot) }),
        r is Err ==> *final(slot) == *old(slot),
{
    if !auth.check(current_admin) {
        return Err(Error::AuthRequired);
    }
    match slot.admin {
        None => Err(Error::NotInitialized),
        Some(stored) => {
            if current_admin != stored {
                Err(Error::Unauthorized)
            } else {
                slot.pending = Some(new_admin);
                Ok(())
            }
        },
    }
}

/// Makes the proposed successor the administrator, at its own request, and
/// clears the proposal.
pub fn accept_admin(slot: &mut AdminSlot, auth: &Auth, new_admin: u64) -> (r: Result<(), Error>)
    ensures
        r == crate::common::outcome(accept_admin_error(*old(slot), *auth, new_admin), ()),
        r is Ok ==> *final(slot) == (AdminSlot { admin: Some(new_admin), pending: None }),
        r is Err ==> *final(slot) == *old(slot),
{
    if !auth.check(new_admin) {
        return Err(Error::AuthRequired);
    }
    match slot.pending {
        None => Err(Error::NoPendingAdmin),
        Some(pending) => {
            if new_admin != pending {
                Err(Error::NotPendingAdmin)
            } else {
                slot.admin = Some(new_admin);
                slot.pending = None;
                Ok(())
            }
        },
    }
}

/// The hand-over completes: once the administrator has proposed a
/// successor, the successor's acceptance is refused for no reason, and it
/// leaves the successor as administrator with no proposal pending.
pub proof fn lemma_propose_then_accept(slot: AdminSlot, auth: Auth, current_admin: u64, new_admin: u64)
    requires
        propose_admin_error(slot, auth, current_admin) is None,
        auth.authorizes(new_admin),
    ensures
        accept_admin_error(AdminSlot { pending: Some(new_admin), ..slot }, auth, new_admin) is None,
{
}

/// Only the proposed successor can take the role: an acceptance by anyone
/// else is refused.
pub proof fn lemma_only_pending_accepts(slot: AdminSlot, auth: Auth, caller: u64)
    requires
        slot.pending != Some(caller),
    ensures
        accept_admin_error(slot, auth, caller) is Some,
{
}

} // verus!
