//! What an operation hands back: instructions for the environment to carry
//! out, and an event that records what happened.

use vstd::prelude::*;

use crate::ownership::Ownership;

verus! {

#[derive(Clone, Debug, PartialEq, Eq)]
pub enum Instruction {
    /// Move `amount` of `denom` from the marketplace to `to_address`.
    Send { to_address: String, amount: u128, denom: String },
    /// Have the collection's registry move the token to `recipient`.
    TransferNft { contract_address: String, token_id: String, recipient: String },
}

/// A record of a completed operation; absent values stand as `None`.
#[derive(Clone, Debug, PartialEq, Eq)]
pub enum Event {
    RegisterCollection {
        contract_address: String,
        royalty_percentage: Option<u64>,
        royalty_payment_address: Option<String>,
    },
    UpdateCollection {
        contract_address: String,
        royalty_percentage: Option<u64>,
        royalty_payment_address: Option<String>,
        is_paused: bool,
    },
    UpdateTakerFee { taker_fee: u64 },
    RemoveSale { contract_address: String, token_id: String },
    UpdateSale { contract_address: String, token_id: String, price: u128 },
    Buy { contract_address: String, token_id: String },
    UpdateOwnership { ownership: Ownership },
}

#[derive(Clone, Debug, PartialEq, Eq)]
pub struct Response {
    pub messages: Vec<Instruction>,
    pub event: Event,
}

/// The total amount that the `Send` instructions of `msgs` move.
pub open spec fn sent_total(msgs: Seq<Instruction>) -> int
    decreases msgs.len(),
{
    if msgs.len() == 0 {
        0
    } else {
        sent_total(msgs.drop_last()) + match msgs.last() {
            Instruction::Send { amount, .. } => amount as int,
            Instruction::TransferNft { .. } => 0,
        }
    }
}

pub proof fn lemma_sent_total_append(a: Seq<Instruction>, b: Seq<Instruction>)
    ensures
        sent_total(a + b) == sent_total(a) + sent_total(b),
    decreases b.len(),
{
    if b.len() == 0 {
        assert(a + b =~= a);
    } else {
        lemma_sent_total_append(a, b.drop_last());
        assert((a + b).drop_last() =~= a + b.drop_last());
    }
}

} // verus!
