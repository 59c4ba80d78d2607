//! An NFT marketplace settlement engine: listings of tokens of registered
//! collections, the admin gate, and the fund split of a purchase.
//!
//! The ledger (`Marketplace`) is viewed as a `MarketState`; each operation's
//! contract says which state it leads to through an `*_outcome` spec
//! function, and which instructions and event it hands back.

mod error;
mod market;
mod msg;
mod ownership;
mod payment;
mod response;
mod state;
mod table;

pub use error::{ContractError, OwnershipError};
pub use market::{
    admin_remove_sale, admin_remove_sale_outcome, buy, buy_messages, buy_outcome, follows,
    get_collection, get_sale, get_taker_fee, initial_state, instantiate,
    lemma_admin_remove_sale_twice, lemma_buy_pays_out_price, lemma_remove_sale_twice,
    owner_amount, percent_ok, register_collection, register_outcome, remove_sale,
    remove_sale_outcome, royalty_amount, royalty_terms, send_if, taker_amount, update_collection,
    update_collection_outcome, update_ownership, update_ownership_outcome, update_sale,
    update_sale_outcome, update_taker_fee, update_taker_fee_outcome, valid_state, MarketState,
    Marketplace,
};
pub use msg::{CollectionsInfo, ExecuteMsg, InstantiateMsg, QueryMsg, SalesInfo, TakerFeeInfo};
pub use ownership::{is_owner, owner_check, transition, Action, Ownership};
pub use payment::{paid_amount, percent_of_spec};
pub use response::{lemma_sent_total_append, sent_total, Event, Instruction, Response};
pub use state::{Coin, Collection, Offer, Sale, SaleKey};
pub use table::{Table, TableKey};
