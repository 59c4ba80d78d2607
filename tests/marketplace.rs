use nft_marketplace::{
    admin_remove_sale, buy, get_collection, get_sale, get_taker_fee, instantiate,
    register_collection, remove_sale, update_collection, update_ownership, update_sale,
    update_taker_fee, Action, Coin, Collection, ContractError, Event, InstantiateMsg, Instruction,
    Marketplace, OwnershipError, Sale,
};

fn s(x: &str) -> String {
    x.to_string()
}

fn coin(denom: &str, amount: u128) -> Coin {
    Coin { denom: s(denom), amount }
}

fn fresh(taker_fee: u64) -> Marketplace {
    instantiate(
        s("admin"),
        InstantiateMsg { taker_fee, taker_address: s("taker"), native_denom: s("u") },
    )
    .unwrap()
}

/// Fee 5, collection C with royalty 10 to R, token "1" listed by "owner" for 1000u.
fn listed() -> Marketplace {
    let mut m = fresh(5);
    register_collection(&mut m, &s("admin"), s("C"), Some(10), Some(s("R"))).unwrap();
    update_sale(&mut m, s("owner"), s("C"), s("1"), coin("u", 1000), &s("owner"), true).unwrap();
    m
}

fn send(to: &str, amount: u128) -> Instruction {
    Instruction::Send { to_address: s(to), amount, denom: s("u") }
}

#[test]
fn buy_exact_price_splits_funds() {
    let mut m = listed();
    let resp = buy(&mut m, s("B"), s("C"), s("1"), &vec![coin("u", 1000)]).unwrap();
    assert_eq!(
        resp.messages,
        vec![
            send("taker", 50),
            send("R", 100),
            send("owner", 850),
            Instruction::TransferNft { contract_address: s("C"), token_id: s("1"), recipient: s("B") },
        ]
    );
    assert_eq!(resp.event, Event::Buy { contract_address: s("C"), token_id: s("1") });
    assert_eq!(get_sale(&m, s("C"), s("1")), Err(ContractError::SaleDoesNotExist));
}

#[test]
fn buy_underpaid_keeps_sale() {
    let mut m = listed();
    let before = get_sale(&m, s("C"), s("1"));
    let r = buy(&mut m, s("B"), s("C"), s("1"), &vec![coin("u", 999)]);
    assert_eq!(r, Err(ContractError::InsufficientFunds));
    assert_eq!(get_sale(&m, s("C"), s("1")), before);
    assert!(before.is_ok());
}

#[test]
fn buy_rejects_overpayment_wrong_denom_and_odd_funds() {
    let mut m = listed();
    let cases = vec![
        vec![coin("u", 1001)],
        vec![coin("v", 1000)],
        vec![],
        vec![coin("u", 0)],
        vec![coin("u", 1000), coin("v", 1)],
    ];
    for funds in cases {
        assert_eq!(buy(&mut m, s("B"), s("C"), s("1"), &funds), Err(ContractError::InsufficientFunds));
    }
    assert!(get_sale(&m, s("C"), s("1")).is_ok());
}

#[test]
fn buy_split_adds_up_with_rounding() {
    let mut m = fresh(5);
    register_collection(&mut m, &s("admin"), s("C"), Some(10), Some(s("R"))).unwrap();
    update_sale(&mut m, s("owner"), s("C"), s("1"), coin("u", 999), &s("owner"), true).unwrap();
    let resp = buy(&mut m, s("B"), s("C"), s("1"), &vec![coin("u", 999)]).unwrap();
    assert_eq!(resp.messages[0], send("taker", 49));
    assert_eq!(resp.messages[1], send("R", 99));
    assert_eq!(resp.messages[2], send("owner", 851));
    let total: u128 = resp
        .messages
        .iter()
        .map(|i| match i {
            Instruction::Send { amount, .. } => *amount,
            _ => 0,
        })
        .sum();
    assert_eq!(total, 999);
}

#[test]
fn buy_skips_zero_transfers() {
    let mut m = fresh(5);
    register_collection(&mut m, &s("admin"), s("C"), Some(10), Some(s("R"))).unwrap();
    update_sale(&mut m, s("owner"), s("C"), s("1"), coin("u", 9), &s("owner"), true).unwrap();
    let resp = buy(&mut m, s("B"), s("C"), s("1"), &vec![coin("u", 9)]).unwrap();
    assert_eq!(
        resp.messages,
        vec![
            send("owner", 9),
            Instruction::TransferNft { contract_address: s("C"), token_id: s("1"), recipient: s("B") },
        ]
    );
}

#[test]
fn buy_without_royalty_address_pays_no_royalty() {
    let mut m = fresh(5);
    register_collection(&mut m, &s("admin"), s("C"), Some(10), None).unwrap();
    update_sale(&mut m, s("owner"), s("C"), s("1"), coin("u", 1000), &s("owner"), true).unwrap();
    let resp = buy(&mut m, s("B"), s("C"), s("1"), &vec![coin("u", 1000)]).unwrap();
    assert_eq!(resp.messages[0], send("taker", 50));
    assert_eq!(resp.messages[1], send("owner", 950));
    assert_eq!(resp.messages.len(), 3);
}

#[test]
fn buy_in_unregistered_collection_pays_no_royalty() {
    let mut m = fresh(20);
    update_sale(&mut m, s("owner"), s("X"), s("7"), coin("u", 100), &s("owner"), true).unwrap();
    let resp = buy(&mut m, s("B"), s("X"), s("7"), &vec![coin("u", 100)]).unwrap();
    assert_eq!(resp.messages[0], send("taker", 20));
    assert_eq!(resp.messages[1], send("owner", 80));
}

#[test]
fn buy_refuses_fee_and_royalty_above_price() {
    let mut m = fresh(60);
    register_collection(&mut m, &s("admin"), s("C"), Some(50), Some(s("R"))).unwrap();
    update_sale(&mut m, s("owner"), s("C"), s("1"), coin("u", 100), &s("owner"), true).unwrap();
    let r = buy(&mut m, s("B"), s("C"), s("1"), &vec![coin("u", 100)]);
    assert_eq!(r, Err(ContractError::FeeSplitExceedsPayment));
    assert!(get_sale(&m, s("C"), s("1")).is_ok());
}

#[test]
fn buy_missing_sale() {
    let mut m = listed();
    let r = buy(&mut m, s("B"), s("C"), s("2"), &vec![coin("u", 1000)]);
    assert_eq!(r, Err(ContractError::SaleDoesNotExist));
}

#[test]
fn buy_pays_seller_cached_at_listing() {
    let mut m = listed();
    // the token changed hands off the marketplace; the listing still pays its lister
    let resp = buy(&mut m, s("B"), s("C"), s("1"), &vec![coin("u", 1000)]).unwrap();
    assert_eq!(resp.messages[2], send("owner", 850));
}

#[test]
fn register_twice_fails_and_keeps_record() {
    let mut m = listed();
    let r = register_collection(&mut m, &s("admin"), s("C"), Some(3), None);
    assert_eq!(r, Err(ContractError::CollectionAlreadyRegistered));
    let info = get_collection(&m, s("C")).unwrap();
    assert_eq!(
        info.collections,
        vec![Collection { royalty_percentage: Some(10), royalty_payment_address: Some(s("R")), is_paused: false }]
    );
}

#[test]
fn register_requires_admin_and_valid_percentage() {
    let mut m = fresh(5);
    assert_eq!(
        register_collection(&mut m, &s("mallory"), s("C"), None, None),
        Err(ContractError::Unauthorized)
    );
    assert_eq!(
        register_collection(&mut m, &s("admin"), s("C"), Some(101), None),
        Err(ContractError::PercentageOutOfRange)
    );
    assert_eq!(get_collection(&m, s("C")), Err(ContractError::CollectionNotFound));
    let resp = register_collection(&mut m, &s("admin"), s("C"), None, None).unwrap();
    assert_eq!(
        resp.event,
        Event::RegisterCollection { contract_address: s("C"), royalty_percentage: None, royalty_payment_address: None }
    );
}

#[test]
fn update_unregistered_collection_not_found() {
    let mut m = fresh(5);
    let r = update_collection(&mut m, &s("admin"), s("D"), Some(1), None, false);
    assert_eq!(r, Err(ContractError::CollectionNotFound));
    assert_eq!(get_collection(&m, s("D")), Err(ContractError::CollectionNotFound));
}

#[test]
fn update_collection_replaces_whole_record() {
    let mut m = listed();
    update_collection(&mut m, &s("admin"), s("C"), None, None, true).unwrap();
    let info = get_collection(&m, s("C")).unwrap();
    assert_eq!(
        info.collections,
        vec![Collection { royalty_percentage: None, royalty_payment_address: None, is_paused: true }]
    );
}

#[test]
fn update_sale_each_failing_condition() {
    let mut m = fresh(5);
    let listing = |m: &mut Marketplace, owner: &str, approved: bool, denom: &str| {
        update_sale(m, s("seller"), s("C"), s("1"), coin(denom, 10), &s(owner), approved)
    };
    assert_eq!(listing(&mut m, "other", true, "u"), Err(ContractError::Unauthorized));
    assert_eq!(listing(&mut m, "seller", false, "u"), Err(ContractError::NotApproved));
    assert_eq!(listing(&mut m, "seller", true, "v"), Err(ContractError::DenomNotSupported));
    assert_eq!(get_sale(&m, s("C"), s("1")), Err(ContractError::SaleDoesNotExist));
    assert!(listing(&mut m, "seller", true, "u").is_ok());
    let info = get_sale(&m, s("C"), s("1")).unwrap();
    assert_eq!(info.sales, vec![Sale { owner_address: s("seller"), price: coin("u", 10) }]);
}

#[test]
fn update_sale_replaces_price() {
    let mut m = listed();
    update_sale(&mut m, s("owner"), s("C"), s("1"), coin("u", 5), &s("owner"), true).unwrap();
    let info = get_sale(&m, s("C"), s("1")).unwrap();
    assert_eq!(info.sales[0].price, coin("u", 5));
}

#[test]
fn remove_sale_twice_as_owner() {
    let mut m = listed();
    assert!(remove_sale(&mut m, &s("owner"), s("C"), s("1"), &s("owner")).is_ok());
    assert!(remove_sale(&mut m, &s("owner"), s("C"), s("1"), &s("owner")).is_ok());
    assert_eq!(get_sale(&m, s("C"), s("1")), Err(ContractError::SaleDoesNotExist));
}

#[test]
fn remove_sale_by_non_owner() {
    let mut m = listed();
    let r = remove_sale(&mut m, &s("thief"), s("C"), s("1"), &s("owner"));
    assert_eq!(r, Err(ContractError::Unauthorized));
    assert!(get_sale(&m, s("C"), s("1")).is_ok());
}

#[test]
fn admin_remove_sale_twice() {
    let mut m = listed();
    assert!(admin_remove_sale(&mut m, &s("admin"), s("C"), s("1")).is_ok());
    assert_eq!(
        admin_remove_sale(&mut m, &s("admin"), s("C"), s("1")),
        Err(ContractError::SaleDoesNotExist)
    );
}

#[test]
fn admin_remove_sale_requires_admin() {
    let mut m = listed();
    assert_eq!(admin_remove_sale(&mut m, &s("owner"), s("C"), s("1")), Err(ContractError::Unauthorized));
}

#[test]
fn taker_fee_updates() {
    let mut m = fresh(5);
    assert_eq!(get_taker_fee(&m).taker_fee, 5);
    assert_eq!(update_taker_fee(&mut m, &s("admin"), 101), Err(ContractError::PercentageOutOfRange));
    assert_eq!(update_taker_fee(&mut m, &s("x"), 7), Err(ContractError::Unauthorized));
    update_taker_fee(&mut m, &s("admin"), 100).unwrap();
    assert_eq!(get_taker_fee(&m).taker_fee, 100);
}

#[test]
fn instantiate_rejects_fee_above_hundred() {
    let r = instantiate(s("a"), InstantiateMsg { taker_fee: 101, taker_address: s("t"), native_denom: s("u") });
    assert!(matches!(r, Err(ContractError::PercentageOutOfRange)));
}

#[test]
fn ownership_transfer_protocol() {
    let mut m = fresh(5);
    let propose = Action::TransferOwnership { new_owner: s("next") };
    assert_eq!(
        update_ownership(&mut m, &s("next"), propose.clone()),
        Err(ContractError::Ownership(OwnershipError::NotOwner))
    );
    assert_eq!(
        update_ownership(&mut m, &s("next"), Action::AcceptOwnership),
        Err(ContractError::Ownership(OwnershipError::TransferNotFound))
    );
    update_ownership(&mut m, &s("admin"), propose).unwrap();
    assert_eq!(
        update_ownership(&mut m, &s("other"), Action::AcceptOwnership),
        Err(ContractError::Ownership(OwnershipError::NotPendingOwner))
    );
    update_ownership(&mut m, &s("next"), Action::AcceptOwnership).unwrap();
    assert_eq!(update_taker_fee(&mut m, &s("admin"), 1), Err(ContractError::Unauthorized));
    assert!(update_taker_fee(&mut m, &s("next"), 1).is_ok());
    update_ownership(&mut m, &s("next"), Action::RenounceOwnership).unwrap();
    assert_eq!(update_taker_fee(&mut m, &s("next"), 2), Err(ContractError::Unauthorized));
    assert_eq!(
        update_ownership(&mut m, &s("next"), Action::RenounceOwnership),
        Err(ContractError::Ownership(OwnershipError::NoOwner))
    );
}
