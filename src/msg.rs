//! The messages that drive the marketplace and the answers to its queries.

use vstd::prelude::*;

use crate::ownership::Action;
use crate::state::{Coin, Collection, Sale};

verus! {

#[derive(Clone, Debug, PartialEq, Eq)]
pub struct InstantiateMsg {
    pub taker_fee: u64,
    pub taker_address: String,
    pub native_denom: String,
}

#[derive(Clone, Debug, PartialEq, Eq)]
pub enum ExecuteMsg {
    RegisterCollection {
        contract_address: String,
        royalty_percentage: Option<u64>,
        royalty_payment_address: Option<String>,
    },
    UpdateCollection {
        contract_address: String,
        royalty_percentage: Option<u64>,
        royalty_payment_address: Option<String>,
        is_paused: bool,
    },
    AdminRemoveSales { contract_address: String, token_id: String },
    UpdateTakerFee { taker_fee: u64 },
    CreateSale { contract_address: String, token_id: String, price: Coin },
    UpdateSale { contract_address: String, token_id: String, price: Coin },
    RemoveSale { contract_address: String, token_id: String },
    AcceptCollectionOffer { contract_address: String, token_id: String },
    Buy { contract_address: String, token_id: String },
    CreateCollectionOffer { contract_address: String, price: Coin },
    RemoveCollectionOffer { contract_address: String },
    UpdateOwnership(Action),
}

#[derive(Clone, Debug, PartialEq, Eq)]
pub enum QueryMsg {
    GetSale { contract_address: String, token_id: String },
    GetSales { start: u64, limit: u64 },
    GetCollection { contract_address: String },
    GetCollections { start: u64, limit: u64 },
    GetTakerFee {},
}

#[derive(Clone, Debug, PartialEq, Eq)]
pub struct SalesInfo {
    pub sales: Vec<Sale>,
}

#[derive(Clone, Debug, PartialEq, Eq)]
pub struct CollectionsInfo {
    pub collections: Vec<Collection>,
}

#[derive(Clone, Debug, PartialEq, Eq)]
pub struct TakerFeeInfo {
    pub taker_fee: u64,
}

} // verus!
