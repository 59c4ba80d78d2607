//! Records kept by the marketplace.

use vstd::prelude::*;

use crate::table::TableKey;

verus! {

/// An amount of one denomination.
#[derive(Clone, Debug, PartialEq, Eq)]
pub struct Coin {
    pub denom: String,
    pub amount: u128,
}

/// Configuration of one registered token collection.
#[derive(Clone, Debug, PartialEq, Eq)]
pub struct Collection {
    pub royalty_percentage: Option<u64>,
    pub royalty_payment_address: Option<String>,
    pub is_paused: bool,
}

/// A listing of one token at a fixed price.
#[derive(Clone, Debug, PartialEq, Eq)]
pub struct Sale {
    pub owner_address: String,
    pub price: Coin,
}

/// A collection-wide bid; declared for the message interface, not acted on.
#[derive(Clone, Debug, PartialEq, Eq)]
pub struct Offer {
    pub offeror_address: String,
    pub price: Coin,
}

/// The key of a sale: the collection address and the token identifier.
#[derive(Clone, Debug, PartialEq, Eq)]
pub struct SaleKey {
    pub contract_address: String,
    pub token_id: String,
}

impl View for SaleKey {
    type V = (Seq<char>, Seq<char>);

    open spec fn view(&self) -> (Seq<char>, Seq<char>) {
        (self.contract_address@, self.token_id@)
    }
}

impl TableKey for SaleKey {
    fn same_key(&self, other: &Self) -> (r: bool) {
        self.contract_address == other.contract_address && self.token_id == other.token_id
    }
}

impl Coin {
    pub fn copy(&self) -> (r: Coin)
        ensures
            r == *self,
    {
        Coin { denom: self.denom.clone(), amount: self.amount }
    }
}

impl Sale {
    pub fn copy(&self) -> (r: Sale)
        ensures
            r == *self,
    {
        Sale { owner_address: self.owner_address.clone(), price: self.price.copy() }
    }
}

impl Collection {
    pub fn copy(&self) -> (r: Collection)
        ensures
            r == *self,
    {
        let royalty_payment_address = match &self.royalty_payment_address {
            Some(a) => Some(a.clone()),
            None => None,
        };
        Collection {
            royalty_percentage: self.royalty_percentage,
            royalty_payment_address,
            is_paused: self.is_paused,
        }
    }
}

} // verus!
