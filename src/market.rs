//! The ledger of the marketplace and the operations on it.

use vstd::prelude::*;

use crate::error::ContractError;
use crate::msg::{CollectionsInfo, InstantiateMsg, SalesInfo, TakerFeeInfo};
use crate::ownership::{copy_addr, is_owner, transition, Action, Ownership};
use crate::payment::{must_pay, paid_amount, percent_of, percent_of_spec};
use crate::response::{lemma_sent_total_append, sent_total, Event, Instruction, Response};
use crate::state::{Coin, Collection, Sale, SaleKey};
use crate::table::Table;

verus! {

/// The ledger seen as values: the admin slot, the fee, its recipient, the
/// accepted denomination, collections by address and sales by
/// (collection address, token identifier).
pub struct MarketState {
    pub ownership: Ownership,
    pub taker_fee: u64,
    pub taker_address: String,
    pub native_denom: String,
    pub collections: Map<Seq<char>, Collection>,
    pub sales: Map<(Seq<char>, Seq<char>), Sale>,
}

pub struct Marketplace {
    ownership: Ownership,
    taker_fee: u64,
    taker_address: String,
    native_denom: String,
    collections: Table<String, Collection>,
    sales: Table<SaleKey, Sale>,
}

impl View for Marketplace {
    type V = MarketState;

    closed spec fn view(&self) -> MarketState {
        MarketState {
            ownership: self.ownership,
            taker_fee: self.taker_fee,
            taker_address: self.taker_address,
            native_denom: self.native_denom,
            collections: self.collections@,
            sales: self.sales@,
        }
    }
}

/// A percentage, where one is given, is at most 100.
pub open spec fn percent_ok(p: Option<u64>) -> bool {
    match p {
        Some(x) => x <= 100,
        None => true,
    }
}

/// Every percentage in the ledger is at most 100.
pub open spec fn valid_state(s: MarketState) -> bool {
    &&& s.taker_fee <= 100
    &&& forall|k: Seq<char>| #[trigger]
        s.collections.contains_key(k) ==> percent_ok(s.collections[k].royalty_percentage)
}

impl Marketplace {
    pub closed spec fn wf(&self) -> bool {
        &&& self.collections.wf()
        &&& self.sales.wf()
        &&& valid_state(self@)
    }

    /// A ledger with the given admin slot, fee and settings and no records.
    pub fn from_parts(
        ownership: Ownership,
        taker_fee: u64,
        taker_address: String,
        native_denom: String,
    ) -> (m: Marketplace)
        requires
            taker_fee <= 100,
        ensures
            m.wf(),
            m@ == (MarketState {
                ownership,
                taker_fee,
                taker_address,
                native_denom,
                collections: Map::empty(),
                sales: Map::empty(),
            }),
    {
        let m = Marketplace {
            ownership,
            taker_fee,
            taker_address,
            native_denom,
            collections: Table::new(),
            sales: Table::new(),
        };
        assert(m@.collections =~= Map::<Seq<char>, Collection>::empty());
        m
    }

    /// Stores a collection record as it is, replacing any under `addr`.
    pub fn put_collection(&mut self, addr: String, record: Collection)
        requires
            old(self).wf(),
            percent_ok(record.royalty_percentage),
        ensures
            final(self).wf(),
            final(self)@ == (MarketState {
                collections: old(self)@.collections.insert(addr@, record),
                ..old(self)@
            }),
    {
        self.collections.insert(addr, record);
    }

    /// Stores a listing as it is, replacing any under `key`.
    pub fn put_sale(&mut self, key: SaleKey, sale: Sale)
        requires
            old(self).wf(),
        ensures
            final(self).wf(),
            final(self)@ == (MarketState { sales: old(self)@.sales.insert(key@, sale), ..old(self)@ }),
    {
        self.sales.insert(key, sale);
    }

    pub fn ownership(&self) -> (r: &Ownership)
        ensures
            *r == self@.ownership,
    {
        &self.ownership
    }

    pub fn taker_fee(&self) -> (r: u64)
        ensures
            r == self@.taker_fee,
    {
        self.taker_fee
    }

    pub fn taker_address(&self) -> (r: &String)
        ensures
            *r == self@.taker_address,
    {
        &self.taker_address
    }

    pub fn native_denom(&self) -> (r: &String)
        ensures
            *r == self@.native_denom,
    {
        &self.native_denom
    }

    /// The collection records, each under its address.
    pub fn collection_entries(&self) -> (r: &Vec<(String, Collection)>)
        requires
            self.wf(),
        ensures
            forall|i: int|
                0 <= i < r@.len() ==> #[trigger] self@.collections.contains_key(r@[i].0@)
                    && self@.collections[r@[i].0@] == r@[i].1,
            forall|k: Seq<char>| #[trigger]
                self@.collections.contains_key(k) ==> exists|i: int|
                    0 <= i < r@.len() && #[trigger] r@[i].0@ == k,
    {
        self.collections.entries()
    }

    /// The listings, each under its key.
    pub fn sale_entries(&self) -> (r: &Vec<(SaleKey, Sale)>)
        requires
            self.wf(),
        ensures
            forall|i: int|
                0 <= i < r@.len() ==> #[trigger] self@.sales.contains_key(r@[i].0@)
                    && self@.sales[r@[i].0@] == r@[i].1,
            forall|k: (Seq<char>, Seq<char>)| #[trigger]
                self@.sales.contains_key(k) ==> exists|i: int|
                    0 <= i < r@.len() && #[trigger] r@[i].0@ == k,
    {
        self.sales.entries()
    }
}

/// The ledger right after instantiation by `sender`.
pub open spec fn initial_state(sender: String, msg: InstantiateMsg) -> MarketState {
    MarketState {
        ownership: Ownership { owner: Some(sender), pending_owner: None },
        taker_fee: msg.taker_fee,
        taker_address: msg.taker_address,
        native_denom: msg.native_denom,
        collections: Map::empty(),
        sales: Map::empty(),
    }
}

/// A fresh ledger whose admin is `sender`; fails when the fee exceeds 100.
pub fn instantiate(sender: String, msg: InstantiateMsg) -> (r: Result<Marketplace, ContractError>)
    ensures
        match r {
            Ok(m) => msg.taker_fee <= 100 && m.wf() && m@ == initial_state(sender, msg),
            Err(e) => msg.taker_fee > 100 && e == ContractError::PercentageOutOfRange,
        },
{
    if msg.taker_fee > 100 {
        return Err(ContractError::PercentageOutOfRange);
    }
    let m = Marketplace {
        ownership: Ownership::new(sender),
        taker_fee: msg.taker_fee,
        taker_address: msg.taker_address,
        native_denom: msg.native_denom,
        collections: Table::new(),
        sales: Table::new(),
    };
    assert(m@.collections =~= Map::<Seq<char>, Collection>::empty());
    Ok(m)
}

/// `r` is what `outcome` says: on success the ledger becomes the outcome's
/// ledger; on failure the error is the outcome's and the ledger is unchanged.
pub open spec fn follows(
    outcome: Result<MarketState, ContractError>,
    r: Result<Response, ContractError>,
    before: MarketState,
    after: MarketState,
) -> bool {
    match r {
        Ok(_) => outcome == Ok::<MarketState, ContractError>(after),
        Err(e) => outcome == Err::<MarketState, ContractError>(e) && after == before,
    }
}

/// The ledger after `sender` registers the collection at `addr`.
pub open spec fn register_outcome(
    s: MarketState,
    sender: Seq<char>,
    addr: Seq<char>,
    royalty_percentage: Option<u64>,
    royalty_payment_address: Option<String>,
) -> Result<MarketState, ContractError> {
    if !is_owner(s.ownership, sender) {
        Err(ContractError::Unauthorized)
    } else if s.collections.contains_key(addr) {
        Err(ContractError::CollectionAlreadyRegistered)
    } else if !percent_ok(royalty_percentage) {
        Err(ContractError::PercentageOutOfRange)
    } else {
        Ok(
            MarketState {
                collections: s.collections.insert(
                    addr,
                    Collection { royalty_percentage, royalty_payment_address, is_paused: false },
                ),
                ..s
            },
        )
    }
}

fn check_admin(market: &Marketplace, sender: &String) -> (r: Result<(), ContractError>)
    ensures
        r is Ok <==> is_owner(market@.ownership, sender@),
        r is Err ==> r == Err::<(), ContractError>(ContractError::Unauthorized),
{
    match market.ownership.assert_owner(sender) {
        Ok(_) => Ok(()),
        Err(_) => Err(ContractError::Unauthorized),
    }
}

/// Admin only: adds a collection record, not paused. An address that is
/// already registered is refused and its record left as it was.
pub fn register_collection(
    market: &mut Marketplace,
    sender: &String,
    contract_address: String,
    royalty_percentage: Option<u64>,
    royalty_payment_address: Option<String>,
) -> (r: Result<Response, ContractError>)
    requires
        old(market).wf(),
    ensures
        final(market).wf(),
        follows(
            register_outcome(
                old(market)@,
                sender@,
                contract_address@,
                royalty_percentage,
                royalty_payment_address,
            ),
            r,
            old(market)@,
            final(market)@,
        ),
        r matches Ok(resp) ==> resp.messages@.len() == 0 && resp.event == (
        Event::RegisterCollection { contract_address, royalty_percentage, royalty_payment_address }),
        is_owner(old(market)@.ownership, sender@) && old(market)@.collections.contains_key(
            contract_address@,
        ) ==> r == Err::<Response, ContractError>(ContractError::CollectionAlreadyRegistered)
            && final(market)@.collections[contract_address@] == old(
            market,
        )@.collections[contract_address@],
{
    check_admin(market, sender)?;
    if market.collections.contains_key(&contract_address) {
        return Err(ContractError::CollectionAlreadyRegistered);
    }
    match royalty_percentage {
        Some(p) => if p > 100 {
            return Err(ContractError::PercentageOutOfRange);
        },
        None => {},
    }
    let record = Collection {
        royalty_percentage,
        royalty_payment_address: copy_addr(&royalty_payment_address),
        is_paused: false,
    };
    market.collections.insert(contract_address.clone(), record);
    Ok(
        Response {
            messages: Vec::new(),
            event: Event::RegisterCollection {
                contract_address,
                royalty_percentage,
                royalty_payment_address,
            },
        },
    )
}

/// The ledger after `sender` replaces the record of the collection at `addr`.
pub open spec fn update_collection_outcome(
    s: MarketState,
    sender: Seq<char>,
    addr: Seq<char>,
    royalty_percentage: Option<u64>,
    royalty_payment_address: Option<String>,
    is_paused: bool,
) -> Result<MarketState, ContractError> {
    if !is_owner(s.ownership, sender) {
        Err(ContractError::Unauthorized)
    } else if !s.collections.contains_key(addr) {
        Err(ContractError::CollectionNotFound)
    } else if !percent_ok(royalty_percentage) {
        Err(ContractError::PercentageOutOfRange)
    } else {
        Ok(
            MarketState {
                collections: s.collections.insert(
                    addr,
                    Collection { royalty_percentage, royalty_payment_address, is_paused },
                ),
                ..s
            },
        )
    }
}

/// Admin only: replaces the whole record of a registered collection.
pub fn update_collection(
    market: &mut Marketplace,
    sender: &String,
    contract_address: String,
    royalty_percentage: Option<u64>,
    royalty_payment_address: Option<String>,
    is_paused: bool,
) -> (r: Result<Response, ContractError>)
    requires
        old(market).wf(),
    ensures
        final(market).wf(),
        follows(
            update_collection_outcome(
                old(market)@,
                sender@,
                contract_address@,
                royalty_percentage,
                royalty_payment_address,
                is_paused,
            ),
            r,
            old(market)@,
            final(market)@,
        ),
        r matches Ok(resp) ==> resp.messages@.len() == 0 && resp.event == (
        Event::UpdateCollection {
            contract_address,
            royalty_percentage,
            royalty_payment_address,
            is_paused,
        }),
{
    check_admin(market, sender)?;
    if !market.collections.contains_key(&contract_address) {
        return Err(ContractError::CollectionNotFound);
    }
    match royalty_percentage {
        Some(p) => if p > 100 {
            return Err(ContractError::PercentageOutOfRange);
        },
        None => {},
    }
    let record = Collection {
        royalty_percentage,
        royalty_payment_address: copy_addr(&royalty_payment_address),
        is_paused,
    };
    market.collections.insert(contract_address.clone(), record);
    Ok(
        Response {
            messages: Vec::new(),
            event: Event::UpdateCollection {
                contract_address,
                royalty_percentage,
                royalty_payment_address,
                is_paused,
            },
        },
    )
}

/// The ledger after `sender` sets the fee to `fee` percent.
pub open spec fn update_taker_fee_outcome(s: MarketState, sender: Seq<char>, fee: u64) -> Result<
    MarketState,
    ContractError,
> {
    if !is_owner(s.ownership, sender) {
        Err(ContractError::Unauthorized)
    } else if fee > 100 {
        Err(ContractError::PercentageOutOfRange)
    } else {
        Ok(MarketState { taker_fee: fee, ..s })
    }
}

/// Admin only: sets the fee taken from every purchase, 0 to 100 percent.
pub fn update_taker_fee(market: &mut Marketplace, sender: &String, taker_fee: u64) -> (r: Result<
    Response,
    ContractError,
>)
    requires
        old(market).wf(),
    ensures
        final(market).wf(),
        follows(
            update_taker_fee_outcome(old(market)@, sender@, taker_fee),
            r,
            old(market)@,
            final(market)@,
        ),
        r matches Ok(resp) ==> resp.messages@.len() == 0 && resp.event == (Event::UpdateTakerFee {
            taker_fee,
        }),
{
    check_admin(market, sender)?;
    if taker_fee > 100 {
        return Err(ContractError::PercentageOutOfRange);
    }
    market.taker_fee = taker_fee;
    Ok(Response { messages: Vec::new(), event: Event::UpdateTakerFee { taker_fee } })
}

/// The ledger after the admin's removal of the sale under `key`.
pub open spec fn admin_remove_sale_outcome(
    s: MarketState,
    sender: Seq<char>,
    key: (Seq<char>, Seq<char>),
) -> Result<MarketState, ContractError> {
    if !is_owner(s.ownership, sender) {
        Err(ContractError::Unauthorized)
    } else if !s.sales.contains_key(key) {
        Err(ContractError::SaleDoesNotExist)
    } else {
        Ok(MarketState { sales: s.sales.remove(key), ..s })
    }
}

/// Admin only: removes a listing; a listing that is not there is an error.
pub fn admin_remove_sale(
    market: &mut Marketplace,
    sender: &String,
    contract_address: String,
    token_id: String,
) -> (r: Result<Response, ContractError>)
    requires
        old(market).wf(),
    ensures
        final(market).wf(),
        follows(
            admin_remove_sale_outcome(old(market)@, sender@, (contract_address@, token_id@)),
            r,
            old(market)@,
            final(market)@,
        ),
        r matches Ok(resp) ==> resp.messages@.len() == 0 && resp.event == (Event::RemoveSale {
            contract_address,
            token_id,
        }),
{
    check_admin(market, sender)?;
    let key = SaleKey { contract_address: contract_address.clone(), token_id: token_id.clone() };
    if !market.sales.contains_key(&key) {
        return Err(ContractError::SaleDoesNotExist);
    }
    market.sales.remove(&key);
    Ok(Response { messages: Vec::new(), event: Event::RemoveSale { contract_address, token_id } })
}

/// The ledger after `sender` lists the token under `key` at `price`, where
/// the registry names `registry_owner` as the token's owner and says whether
/// the marketplace may transfer it.
pub open spec fn update_sale_outcome(
    s: MarketState,
    sender: String,
    key: (Seq<char>, Seq<char>),
    price: Coin,
    registry_owner: Seq<char>,
    approved: bool,
) -> Result<MarketState, ContractError> {
    if registry_owner != sender@ {
        Err(ContractError::Unauthorized)
    } else if !approved {
        Err(ContractError::NotApproved)
    } else if price.denom@ != s.native_denom@ {
        Err(ContractError::DenomNotSupported)
    } else {
        Ok(
            MarketState {
                sales: s.sales.insert(key, Sale { owner_address: sender, price }),
                ..s
            },
        )
    }
}

/// Lists a token, or replaces its listing, for its current owner.
/// `registry_owner` is the owner that the collection's registry reports and
/// `approved` whether it lets the marketplace transfer the token.
pub fn update_sale(
    market: &mut Marketplace,
    sender: String,
    contract_address: String,
    token_id: String,
    price: Coin,
    registry_owner: &String,
    approved: bool,
) -> (r: Result<Response, ContractError>)
    requires
        old(market).wf(),
    ensures
        final(market).wf(),
        follows(
            update_sale_outcome(
                old(market)@,
                sender,
                (contract_address@, token_id@),
                price,
                registry_owner@,
                approved,
            ),
            r,
            old(market)@,
            final(market)@,
        ),
        r is Ok <==> registry_owner@ == sender@ && approved && price.denom@
            == old(market)@.native_denom@,
        registry_owner@ != sender@ ==> r == Err::<Response, ContractError>(
            ContractError::Unauthorized,
        ),
        registry_owner@ == sender@ && !approved ==> r == Err::<Response, ContractError>(
            ContractError::NotApproved,
        ),
        registry_owner@ == sender@ && approved && price.denom@ != old(market)@.native_denom@
            ==> r == Err::<Response, ContractError>(ContractError::DenomNotSupported),
        r matches Ok(resp) ==> resp.messages@.len() == 0 && resp.event == (Event::UpdateSale {
            contract_address,
            token_id,
            price: price.amount,
        }),
{
    if *registry_owner != sender {
        return Err(ContractError::Unauthorized);
    }
    if !approved {
        return Err(ContractError::NotApproved);
    }
    if price.denom != market.native_denom {
        return Err(ContractError::DenomNotSupported);
    }
    let key = SaleKey { contract_address: contract_address.clone(), token_id: token_id.clone() };
    let amount = price.amount;
    market.sales.insert(key, Sale { owner_address: sender, price });
    Ok(
        Response {
            messages: Vec::new(),
            event: Event::UpdateSale { contract_address, token_id, price: amount },
        },
    )
}

/// The ledger after `sender` withdraws the listing under `key`, where the
/// registry names `registry_owner` as the token's owner.
pub open spec fn remove_sale_outcome(
    s: MarketState,
    sender: Seq<char>,
    key: (Seq<char>, Seq<char>),
    registry_owner: Seq<char>,
) -> Result<MarketState, ContractError> {
    if registry_owner != sender {
        Err(ContractError::Unauthorized)
    } else {
        Ok(MarketState { sales: s.sales.remove(key), ..s })
    }
}

/// The token's current owner withdraws its listing; withdrawing a listing
/// that is not there succeeds and changes nothing.
pub fn remove_sale(
    market: &mut Marketplace,
    sender: &String,
    contract_address: String,
    token_id: String,
    registry_owner: &String,
) -> (r: Result<Response, ContractError>)
    requires
        old(market).wf(),
    ensures
        final(market).wf(),
        follows(
            remove_sale_outcome(
                old(market)@,
                sender@,
                (contract_address@, token_id@),
                registry_owner@,
            ),
            r,
            old(market)@,
            final(market)@,
        ),
        r matches Ok(resp) ==> resp.messages@.len() == 0 && resp.event == (Event::RemoveSale {
            contract_address,
            token_id,
        }),
{
    if *registry_owner != *sender {
        return Err(ContractError::Unauthorized);
    }
    let key = SaleKey { contract_address: contract_address.clone(), token_id: token_id.clone() };
    market.sales.remove(&key);
    Ok(Response { messages: Vec::new(), event: Event::RemoveSale { contract_address, token_id } })
}

/// The ledger after `sender` performs `action` on the admin slot.
pub open spec fn update_ownership_outcome(s: MarketState, sender: Seq<char>, action: Action) -> Result<
    MarketState,
    ContractError,
> {
    match transition(s.ownership, sender, action) {
        Ok(o) => Ok(MarketState { ownership: o, ..s }),
        Err(e) => Err(ContractError::Ownership(e)),
    }
}

/// Proposes, accepts or renounces the admin role.
pub fn update_ownership(market: &mut Marketplace, sender: &String, action: Action) -> (r: Result<
    Response,
    ContractError,
>)
    requires
        old(market).wf(),
    ensures
        final(market).wf(),
        follows(
            update_ownership_outcome(old(market)@, sender@, action),
            r,
            old(market)@,
            final(market)@,
        ),
        r matches Ok(resp) ==> resp.messages@.len() == 0 && resp.event == (
        Event::UpdateOwnership { ownership: final(market)@.ownership }),
{
    match market.ownership.update(sender, action) {
        Ok(o) => {
            let ownership = o.copy();
            market.ownership = o;
            Ok(Response { messages: Vec::new(), event: Event::UpdateOwnership { ownership } })
        },
        Err(e) => Err(ContractError::Ownership(e)),
    }
}

/// The recipient and rate of the royalty on sales of the collection at
/// `addr`: there is one only where the collection is registered with both.
pub open spec fn royalty_terms(s: MarketState, addr: Seq<char>) -> Option<(String, u64)> {
    if s.collections.contains_key(addr) {
        match (s.collections[addr].royalty_percentage, s.collections[addr].royalty_payment_address) {
            (Some(p), Some(a)) => Some((a, p)),
            _ => None,
        }
    } else {
        None
    }
}

/// The fee taken from a payment of `paid`.
pub open spec fn taker_amount(s: MarketState, paid: u128) -> int {
    percent_of_spec(paid, s.taker_fee)
}

/// The royalty taken from a payment of `paid` for a token of `addr`.
pub open spec fn royalty_amount(s: MarketState, addr: Seq<char>, paid: u128) -> int {
    match royalty_terms(s, addr) {
        Some((_, p)) => percent_of_spec(paid, p),
        None => 0,
    }
}

/// What the seller keeps of a payment of `paid`.
pub open spec fn owner_amount(s: MarketState, addr: Seq<char>, paid: u128) -> int {
    paid - taker_amount(s, paid) - royalty_amount(s, addr, paid)
}

/// The ledger after a purchase of the token under `key` with `funds`.
pub open spec fn buy_outcome(s: MarketState, key: (Seq<char>, Seq<char>), funds: Seq<Coin>) -> Result<
    MarketState,
    ContractError,
> {
    if !s.sales.contains_key(key) {
        Err(ContractError::SaleDoesNotExist)
    } else if paid_amount(funds, s.sales[key].price.denom@) != Some(s.sales[key].price.amount) {
        Err(ContractError::InsufficientFunds)
    } else if taker_amount(s, s.sales[key].price.amount) + royalty_amount(
        s,
        key.0,
        s.sales[key].price.amount,
    ) > s.sales[key].price.amount {
        Err(ContractError::FeeSplitExceedsPayment)
    } else {
        Ok(MarketState { sales: s.sales.remove(key), ..s })
    }
}

/// A transfer of `amount` to `to`, where `amount` is not zero.
pub open spec fn send_if(to: String, amount: int, denom: String) -> Seq<Instruction> {
    if amount > 0 {
        seq![Instruction::Send { to_address: to, amount: amount as u128, denom }]
    } else {
        Seq::empty()
    }
}

/// The instructions of a purchase by `buyer`: the fee, the royalty and the
/// seller's share, each where it is not zero, then the token's transfer.
pub open spec fn buy_messages(
    s: MarketState,
    contract_address: String,
    token_id: String,
    buyer: String,
) -> Seq<Instruction> {
    let sale = s.sales[(contract_address@, token_id@)];
    let paid = sale.price.amount;
    let denom = sale.price.denom;
    send_if(s.taker_address, taker_amount(s, paid), denom) + match royalty_terms(
        s,
        contract_address@,
    ) {
        Some((a, _)) => send_if(a, royalty_amount(s, contract_address@, paid), denom),
        None => Seq::empty(),
    } + send_if(sale.owner_address, owner_amount(s, contract_address@, paid), denom) + seq![
        Instruction::TransferNft { contract_address, token_id, recipient: buyer },
    ]
}

proof fn lemma_percent_bounded(amount: u128, pct: u64)
    requires
        pct <= 100,
    ensures
        0 <= percent_of_spec(amount, pct) <= amount,
{
    assert(0 <= amount as int * pct as int <= amount as int * 100) by (nonlinear_arith)
        requires
            pct <= 100,
    ;
}

fn push_send(messages: &mut Vec<Instruction>, to: &String, amount: u128, denom: &String)
    ensures
        final(messages)@ == old(messages)@ + send_if(*to, amount as int, *denom),
{
    if amount > 0 {
        messages.push(
            Instruction::Send { to_address: to.clone(), amount, denom: denom.clone() },
        );
        assert(final(messages)@ =~= old(messages)@ + send_if(*to, amount as int, *denom));
    } else {
        assert(messages@ =~= old(messages)@ + send_if(*to, amount as int, *denom));
    }
}

/// Buys the listed token with the attached `funds`, which must be exactly
/// the price. The listing is removed, the fee goes to the fee recipient,
/// the royalty to the collection's royalty address, the rest to the seller,
/// and the token to `sender`. On any failure nothing changes.
pub fn buy(
    market: &mut Marketplace,
    sender: String,
    contract_address: String,
    token_id: String,
    funds: &Vec<Coin>,
) -> (r: Result<Response, ContractError>)
    requires
        old(market).wf(),
    ensures
        final(market).wf(),
        follows(
            buy_outcome(old(market)@, (contract_address@, token_id@), funds@),
            r,
            old(market)@,
            final(market)@,
        ),
        r is Err ==> final(market)@ == old(market)@,
        r matches Ok(resp) ==> resp.messages@ == buy_messages(
            old(market)@,
            contract_address,
            token_id,
            sender,
        ) && resp.event == (Event::Buy { contract_address, token_id }),
{
    let ghost s = market@;
    let key = SaleKey { contract_address: contract_address.clone(), token_id: token_id.clone() };
    let sale = match market.sales.get(&key) {
        Some(found) => found.copy(),
        None => return Err(ContractError::SaleDoesNotExist),
    };
    let paid = match must_pay(funds, &sale.price.denom) {
        Some(a) => a,
        None => return Err(ContractError::InsufficientFunds),
    };
    if paid != sale.price.amount {
        return Err(ContractError::InsufficientFunds);
    }
    let taker = percent_of(paid, market.taker_fee);
    proof {
        lemma_percent_bounded(paid, s.taker_fee);
    }
    let mut royalty: u128 = 0;
    let mut royalty_to: Option<String> = None;
    match market.collections.get(&contract_address) {
        Some(c) => match (&c.royalty_percentage, &c.royalty_payment_address) {
            (Some(p), Some(a)) => {
                assert(s.collections.contains_key(contract_address@));
                royalty = percent_of(paid, *p);
                proof {
                    lemma_percent_bounded(paid, *p);
                }
                royalty_to = Some(a.clone());
            },
            _ => {},
        },
        None => {},
    }
    assert(royalty == royalty_amount(s, contract_address@, paid));
    if taker > paid - royalty {
        return Err(ContractError::FeeSplitExceedsPayment);
    }
    let seller_share = paid - royalty - taker;
    let mut messages: Vec<Instruction> = Vec::new();
    push_send(&mut messages, &market.taker_address, taker, &sale.price.denom);
    match &royalty_to {
        Some(a) => push_send(&mut messages, a, royalty, &sale.price.denom),
        None => {},
    }
    push_send(&mut messages, &sale.owner_address, seller_share, &sale.price.denom);
    messages.push(
        Instruction::TransferNft {
            contract_address: contract_address.clone(),
            token_id: token_id.clone(),
            recipient: sender,
        },
    );
    market.sales.remove(&key);
    assert(messages@ =~= buy_messages(s, contract_address, token_id, sender));
    Ok(Response { messages, event: Event::Buy { contract_address, token_id } })
}

/// A purchase pays out exactly the price: the fee, the royalty and the
/// seller's share, none of them negative, add up to the amount paid.
pub proof fn lemma_buy_pays_out_price(
    s: MarketState,
    contract_address: String,
    token_id: String,
    funds: Seq<Coin>,
    buyer: String,
)
    requires
        valid_state(s),
        buy_outcome(s, (contract_address@, token_id@), funds) is Ok,
    ensures
        ({
            let paid = s.sales[(contract_address@, token_id@)].price.amount;
            &&& taker_amount(s, paid) >= 0
            &&& royalty_amount(s, contract_address@, paid) >= 0
            &&& owner_amount(s, contract_address@, paid) >= 0
            &&& taker_amount(s, paid) + royalty_amount(s, contract_address@, paid) + owner_amount(
                s,
                contract_address@,
                paid,
            ) == paid
            &&& sent_total(buy_messages(s, contract_address, token_id, buyer)) == paid
        }),
{
    let key = (contract_address@, token_id@);
    let sale = s.sales[key];
    let paid = sale.price.amount;
    let denom = sale.price.denom;
    lemma_percent_bounded(paid, s.taker_fee);
    let addr = contract_address@;
    if s.collections.contains_key(addr) {
        assert(percent_ok(s.collections[addr].royalty_percentage));
    }
    match royalty_terms(s, addr) {
        Some((_, p)) => lemma_percent_bounded(paid, p),
        None => {},
    }
    let a = send_if(s.taker_address, taker_amount(s, paid), denom);
    let b = match royalty_terms(s, addr) {
        Some((r, _)) => send_if(r, royalty_amount(s, addr, paid), denom),
        None => Seq::empty(),
    };
    let c = send_if(sale.owner_address, owner_amount(s, addr, paid), denom);
    let d = seq![Instruction::TransferNft { contract_address, token_id, recipient: buyer }];
    assert(sent_total(a) == taker_amount(s, paid)) by {
        reveal_with_fuel(sent_total, 2);
    }
    assert(sent_total(b) == royalty_amount(s, addr, paid)) by {
        reveal_with_fuel(sent_total, 2);
    }
    assert(sent_total(c) == owner_amount(s, addr, paid)) by {
        reveal_with_fuel(sent_total, 2);
    }
    assert(sent_total(d) == 0) by {
        reveal_with_fuel(sent_total, 2);
    }
    lemma_sent_total_append(a, b);
    lemma_sent_total_append(a + b, c);
    lemma_sent_total_append(a + b + c, d);
}

/// Withdrawing a listing twice as the token's owner: the second call
/// succeeds too and changes nothing.
pub proof fn lemma_remove_sale_twice(
    s: MarketState,
    sender: Seq<char>,
    key: (Seq<char>, Seq<char>),
    registry_owner: Seq<char>,
)
    requires
        remove_sale_outcome(s, sender, key, registry_owner) is Ok,
    ensures
        match remove_sale_outcome(s, sender, key, registry_owner) {
            Ok(s1) => remove_sale_outcome(s1, sender, key, registry_owner) == Ok::<
                MarketState,
                ContractError,
            >(s1),
            Err(_) => false,
        },
{
    let s1 = MarketState { sales: s.sales.remove(key), ..s };
    assert(s1.sales.remove(key) =~= s1.sales);
}

/// Removing a listing twice as the admin: the second call fails with
/// `SaleDoesNotExist`.
pub proof fn lemma_admin_remove_sale_twice(
    s: MarketState,
    sender: Seq<char>,
    key: (Seq<char>, Seq<char>),
)
    requires
        admin_remove_sale_outcome(s, sender, key) is Ok,
    ensures
        match admin_remove_sale_outcome(s, sender, key) {
            Ok(s1) => admin_remove_sale_outcome(s1, sender, key) == Err::<
                MarketState,
                ContractError,
            >(ContractError::SaleDoesNotExist),
            Err(_) => false,
        },
{
}

/// The listing of a token.
pub fn get_sale(market: &Marketplace, contract_address: String, token_id: String) -> (r: Result<
    SalesInfo,
    ContractError,
>)
    requires
        market.wf(),
    ensures
        match r {
            Ok(info) => market@.sales.contains_key((contract_address@, token_id@))
                && info.sales@ == seq![market@.sales[(contract_address@, token_id@)]],
            Err(e) => !market@.sales.contains_key((contract_address@, token_id@))
                && e == ContractError::SaleDoesNotExist,
        },
{
    let key = SaleKey { contract_address, token_id };
    match market.sales.get(&key) {
        Some(sale) => {
            let sales = vec![sale.copy()];
            assert(sales@ =~= seq![market@.sales[key@]]);
            Ok(SalesInfo { sales })
        },
        None => Err(ContractError::SaleDoesNotExist),
    }
}

/// The record of a registered collection.
pub fn get_collection(market: &Marketplace, contract_address: String) -> (r: Result<
    CollectionsInfo,
    ContractError,
>)
    requires
        market.wf(),
    ensures
        match r {
            Ok(info) => market@.collections.contains_key(contract_address@)
                && info.collections@ == seq![market@.collections[contract_address@]],
            Err(e) => !market@.collections.contains_key(contract_address@) && e
                == ContractError::CollectionNotFound,
        },
{
    match market.collections.get(&contract_address) {
        Some(c) => {
            let collections = vec![c.copy()];
            assert(collections@ =~= seq![market@.collections[contract_address@]]);
            Ok(CollectionsInfo { collections })
        },
        None => Err(ContractError::CollectionNotFound),
    }
}

/// The fee taken from every purchase, in percent.
pub fn get_taker_fee(market: &Marketplace) -> (r: TakerFeeInfo)
    ensures
        r.taker_fee == market@.taker_fee,
{
    TakerFeeInfo { taker_fee: market.taker_fee }
}

} // verus!
