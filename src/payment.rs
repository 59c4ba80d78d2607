//! Reading attached funds and taking percentages of amounts.

use vstd::prelude::*;

use crate::state::Coin;

verus! {

/// The amount paid when `funds` is exactly one non-zero coin of `denom`.
pub open spec fn paid_amount(funds: Seq<Coin>, denom: Seq<char>) -> Option<u128> {
    if funds.len() == 1 && funds[0].amount != 0 && funds[0].denom@ == denom {
        Some(funds[0].amount)
    } else {
        None
    }
}

/// `pct` percent of `amount`, rounded down.
pub open spec fn percent_of_spec(amount: u128, pct: u64) -> int {
    amount as int * pct as int / 100
}

/// Relies on cw_utils::must_pay: it accepts exactly one coin, of non-zero
/// amount, in the asked denomination, and returns that amount.
#[verifier::external_body]
pub(crate) fn must_pay(funds: &Vec<Coin>, denom: &String) -> (r: Option<u128>)
    ensures
        r == paid_amount(funds@, denom@),
{
    let info = cosmwasm_std::MessageInfo {
        sender: cosmwasm_std::Addr::unchecked(""),
        funds: funds.iter().map(|c| cosmwasm_std::Coin::new(c.amount, c.denom.as_str())).collect(),
    };
    cw_utils::must_pay(&info, denom).ok().map(|a| a.u128())
}

/// Relies on cosmwasm_std's `Uint128 * Decimal::percent(pct)`, which is
/// `amount * pct / 100` rounded down; it panics only when the result exceeds
/// `u128`, which `pct <= 100` rules out.
#[verifier::external_body]
pub(crate) fn percent_of(amount: u128, pct: u64) -> (r: u128)
    requires
        pct <= 100,
    ensures
        r as int == percent_of_spec(amount, pct),
{
    (cosmwasm_std::Uint128::new(amount) * cosmwasm_std::Decimal::percent(pct)).u128()
}

} // verus!
