//! The admin slot: a current owner and a proposed successor, with a
//! propose / accept / renounce protocol.

use vstd::prelude::*;

use crate::error::OwnershipError;

verus! {

#[derive(Clone, Debug, PartialEq, Eq)]
pub struct Ownership {
    pub owner: Option<String>,
    pub pending_owner: Option<String>,
}

#[derive(Clone, Debug, PartialEq, Eq)]
pub enum Action {
    /// Propose `new_owner` as successor; only the current owner may.
    TransferOwnership { new_owner: String },
    /// Take over as owner; only the proposed successor may.
    AcceptOwnership,
    /// Leave the slot empty for good; only the current owner may.
    RenounceOwnership,
}

/// Whether `sender` holds the slot.
pub open spec fn is_owner(o: Ownership, sender: Seq<char>) -> bool {
    match o.owner {
        Some(cur) => cur@ == sender,
        None => false,
    }
}

/// The check that `sender` is the owner.
pub open spec fn owner_check(o: Ownership, sender: Seq<char>) -> Result<(), OwnershipError> {
    match o.owner {
        None => Err(OwnershipError::NoOwner),
        Some(cur) => if cur@ == sender {
            Ok(())
        } else {
            Err(OwnershipError::NotOwner)
        },
    }
}

/// The slot after `sender` performs `action`, or why it is refused.
pub open spec fn transition(o: Ownership, sender: Seq<char>, action: Action) -> Result<
    Ownership,
    OwnershipError,
> {
    match action {
        Action::TransferOwnership { new_owner } => match owner_check(o, sender) {
            Err(e) => Err(e),
            Ok(_) => Ok(Ownership { owner: o.owner, pending_owner: Some(new_owner) }),
        },
        Action::AcceptOwnership => match o.pending_owner {
            None => Err(OwnershipError::TransferNotFound),
            Some(p) => if p@ == sender {
                Ok(Ownership { owner: Some(p), pending_owner: None })
            } else {
                Err(OwnershipError::NotPendingOwner)
            },
        },
        Action::RenounceOwnership => match owner_check(o, sender) {
            Err(e) => Err(e),
            Ok(_) => Ok(Ownership { owner: None, pending_owner: None }),
        },
    }
}

/// A copy of an optional address.
pub(crate) fn copy_addr(a: &Option<String>) -> (r: Option<String>)
    ensures
        r == *a,
{
    match a {
        Some(s) => Some(s.clone()),
        None => None,
    }
}

impl Ownership {
    /// A slot held by `owner`, with nothing proposed.
    pub fn new(owner: String) -> (r: Ownership)
        ensures
            r == (Ownership { owner: Some(owner), pending_owner: None }),
    {
        Ownership { owner: Some(owner), pending_owner: None }
    }

    pub fn copy(&self) -> (r: Ownership)
        ensures
            r == *self,
    {
        Ownership { owner: copy_addr(&self.owner), pending_owner: copy_addr(&self.pending_owner) }
    }

    pub fn assert_owner(&self, sender: &String) -> (r: Result<(), OwnershipError>)
        ensures
            r == owner_check(*self, sender@),
    {
        match &self.owner {
            None => Err(OwnershipError::NoOwner),
            Some(cur) => if *cur == *sender {
                Ok(())
            } else {
                Err(OwnershipError::NotOwner)
            },
        }
    }

    /// The slot after `sender` performs `action`.
    pub fn update(&self, sender: &String, action: Action) -> (r: Result<Ownership, OwnershipError>)
        ensures
            r == transition(*self, sender@, action),
    {
        match action {
            Action::TransferOwnership { new_owner } => match self.assert_owner(sender) {
                Err(e) => Err(e),
                Ok(_) => Ok(Ownership { owner: copy_addr(&self.owner), pending_owner: Some(new_owner) }),
            },
            Action::AcceptOwnership => match &self.pending_owner {
                None => Err(OwnershipError::TransferNotFound),
                Some(p) => if *p == *sender {
                    Ok(Ownership { owner: Some(p.clone()), pending_owner: None })
                } else {
                    Err(OwnershipError::NotPendingOwner)
                },
            },
            Action::RenounceOwnership => match self.assert_owner(sender) {
                Err(e) => Err(e),
                Ok(_) => Ok(Ownership { owner: None, pending_owner: None }),
            },
        }
    }
}

} // verus!
