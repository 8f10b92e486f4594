use dealifi_candy::address::Address;
use dealifi_candy::errors::{DealifiError, ErrorCode, LedgerError};
use dealifi_candy::ledger::Ledger;
use dealifi_candy::state::{CreateDealParams, MERCHANT_NAME_MAX, NAME_PREFIX_MAX, URI_PREFIX_MAX};

fn key(b: u8) -> Address {
    [b; 32]
}

fn ledger() -> Ledger {
    Ledger::new(key(200))
}

fn params(candy_machine: Address, name: &str, uri: &str) -> CreateDealParams {
    CreateDealParams {
        candy_machine,
        collection_mint: key(31),
        name_prefix: name.to_string(),
        uri_prefix: uri.to_string(),
        items_available: 100,
        go_live_date: Some(1_700_000_000),
        end_date: None,
        price_lamports: 1_000_000,
        payout_wallet: key(32),
        allowlist_merkle_root: Some([7u8; 32]),
    }
}

/// A ledger with merchant `key(1)` registered; returns the merchant address.
fn with_merchant(l: &mut Ledger) -> Address {
    assert_eq!(l.create_merchant(&key(1), &key(2), "Acme".to_string()), Ok(()));
    l.merchant_key(&key(1)).unwrap()
}

#[test]
fn end_to_end_scenario() {
    let mut l = ledger();
    let m = with_merchant(&mut l);
    assert_eq!(l.merchant(&m).unwrap().name, "Acme");
    assert_eq!(l.create_deal(&key(1), &m, params(key(10), "Sale", "ipfs://x")), Ok(()));
    let d = l.deal_key(&m, &key(10)).unwrap();
    let deal = l.deal(&d).unwrap();
    assert_eq!(deal.status, 1);
    assert_eq!(deal.items_available, 100);
    assert_eq!(deal.price_lamports, 1_000_000);
    assert_eq!(l.record_sale(&key(40), &d, &key(50), 1_000_000, 1000), Ok(()));
    assert_eq!(l.record_sale(&key(40), &d, &key(50), 1_000_000, 1001), Err(LedgerError::AccountInUse));
    assert_eq!(l.stake_nft(&key(60), &key(70), &key(80), 2000), Ok(()));
    let c = l.user_claim_key(&key(60), &key(70)).unwrap();
    assert!(l.user_claim(&c).unwrap().is_staked);
    assert_eq!(l.unstake_nft(&key(60), &key(70), 2001), Ok(()));
    assert!(!l.user_claim(&c).unwrap().is_staked);
    assert_eq!(
        l.unstake_nft(&key(60), &key(70), 2002),
        Err(LedgerError::Dealifi(DealifiError::NotStaked))
    );
}

#[test]
fn merchant_address_is_derived_not_copied() {
    let l = ledger();
    let a = l.merchant_key(&key(1)).unwrap();
    assert_eq!(l.merchant_key(&key(1)), Some(a));
    assert_ne!(a, key(1));
    assert_ne!(a, key(200));
    assert_ne!(l.merchant_key(&key(3)), Some(a));
    assert_ne!(Ledger::new(key(201)).merchant_key(&key(1)), Some(a));
}

#[test]
fn merchant_registered_once() {
    let mut l = ledger();
    let m = with_merchant(&mut l);
    assert_eq!(l.create_merchant(&key(1), &key(9), "Other".to_string()), Err(LedgerError::AccountInUse));
    let rec = l.merchant(&m).unwrap();
    assert_eq!(rec.treasury, key(2));
    assert_eq!(rec.authority, key(1));
    assert_eq!(rec.name, "Acme");
    assert_eq!(l.create_merchant(&key(3), &key(9), "Other".to_string()), Ok(()));
}

#[test]
fn merchant_name_budget_boundary() {
    let mut l = ledger();
    assert_eq!(MERCHANT_NAME_MAX, 64);
    assert_eq!(l.create_merchant(&key(1), &key(2), "a".repeat(65)), Err(LedgerError::Program(ErrorCode::NameTooLong)));
    assert_eq!(l.merchant_key(&key(1)).and_then(|m| l.merchant(&m).map(|x| x.bump)), None);
    assert_eq!(l.create_merchant(&key(1), &key(2), "a".repeat(64)), Ok(()));
}

#[test]
fn merchant_name_counts_bytes_not_chars() {
    let mut l = ledger();
    assert_eq!(l.create_merchant(&key(1), &key(2), "é".repeat(33)), Err(LedgerError::Program(ErrorCode::NameTooLong)));
    assert_eq!(l.create_merchant(&key(1), &key(2), "é".repeat(32)), Ok(()));
}

#[test]
fn deal_name_budget_boundary() {
    let mut l = ledger();
    let m = with_merchant(&mut l);
    assert_eq!(NAME_PREFIX_MAX, 64);
    let long = "n".repeat(65);
    assert_eq!(l.create_deal(&key(1), &m, params(key(10), &long, "u")), Err(LedgerError::Program(ErrorCode::NameTooLong)));
    let exact = "n".repeat(64);
    assert_eq!(l.create_deal(&key(1), &m, params(key(10), &exact, "u")), Ok(()));
}

#[test]
fn deal_uri_budget_boundary() {
    let mut l = ledger();
    let m = with_merchant(&mut l);
    assert_eq!(URI_PREFIX_MAX, 128);
    let long = "u".repeat(129);
    assert_eq!(l.create_deal(&key(1), &m, params(key(10), "n", &long)), Err(LedgerError::Program(ErrorCode::UriTooLong)));
    let exact = "u".repeat(128);
    assert_eq!(l.create_deal(&key(1), &m, params(key(10), "n", &exact)), Ok(()));
    let d = l.deal_key(&m, &key(10)).unwrap();
    assert_eq!(l.deal(&d).unwrap().uri_prefix.len(), 128);
}

#[test]
fn deal_created_once() {
    let mut l = ledger();
    let m = with_merchant(&mut l);
    assert_eq!(l.create_deal(&key(1), &m, params(key(10), "First", "ipfs://a")), Ok(()));
    assert_eq!(l.create_deal(&key(1), &m, params(key(10), "Second", "ipfs://b")), Err(LedgerError::AccountInUse));
    let d = l.deal_key(&m, &key(10)).unwrap();
    let deal = l.deal(&d).unwrap();
    assert_eq!(deal.name_prefix, "First");
    assert_eq!(deal.uri_prefix, "ipfs://a");
    assert_eq!(deal.merchant, m);
    assert_eq!(deal.candy_machine, key(10));
    assert_eq!(deal.allowlist_merkle_root, Some([7u8; 32]));
    assert_eq!(l.create_deal(&key(1), &m, params(key(11), "Second", "ipfs://b")), Ok(()));
}

#[test]
fn deal_needs_merchant_authority() {
    let mut l = ledger();
    let m = with_merchant(&mut l);
    assert_eq!(l.create_deal(&key(5), &m, params(key(10), "n", "u")), Err(LedgerError::Unauthorized));
    assert_eq!(l.create_deal(&key(1), &key(99), params(key(10), "n", "u")), Err(LedgerError::AccountNotFound));
    assert!(l.deal(&l.deal_key(&m, &key(10)).unwrap()).is_none());
}

#[test]
fn status_update_by_other_fails() {
    let mut l = ledger();
    let m = with_merchant(&mut l);
    l.create_deal(&key(1), &m, params(key(10), "n", "u")).unwrap();
    let d = l.deal_key(&m, &key(10)).unwrap();
    assert_eq!(l.update_deal_status(&key(5), &d, 3), Err(LedgerError::Unauthorized));
    assert_eq!(l.deal(&d).unwrap().status, 1);
    assert_eq!(l.update_deal_status(&key(1), &key(98), 3), Err(LedgerError::AccountNotFound));
}

#[test]
fn status_update_accepts_any_byte() {
    let mut l = ledger();
    let m = with_merchant(&mut l);
    l.create_deal(&key(1), &m, params(key(10), "n", "u")).unwrap();
    let d = l.deal_key(&m, &key(10)).unwrap();
    for s in [0u8, 2, 255, 1] {
        assert_eq!(l.update_deal_status(&key(1), &d, s), Ok(()));
        let deal = l.deal(&d).unwrap();
        assert_eq!(deal.status, s);
        assert_eq!(deal.name_prefix, "n");
    }
}

#[test]
fn sale_recorded_once_with_clock_time() {
    let mut l = ledger();
    let m = with_merchant(&mut l);
    l.create_deal(&key(1), &m, params(key(10), "n", "u")).unwrap();
    let d = l.deal_key(&m, &key(10)).unwrap();
    assert_eq!(l.record_sale(&key(40), &d, &key(50), 777, 123_456), Ok(()));
    let s = l.sale_key(&d, &key(50)).unwrap();
    let sale = *l.sale(&s).unwrap();
    assert_eq!(sale.ts, 123_456);
    assert_eq!(sale.price_lamports, 777);
    assert_eq!(sale.buyer, key(40));
    assert_eq!(sale.deal, d);
    assert_eq!(sale.mint, key(50));
    assert_eq!(l.record_sale(&key(41), &d, &key(50), 1, 200_000), Err(LedgerError::AccountInUse));
    assert_eq!(l.sale(&s).unwrap().ts, 123_456);
    assert_eq!(l.record_sale(&key(41), &d, &key(51), 1, 200_000), Ok(()));
}

#[test]
fn sale_needs_existing_deal() {
    let mut l = ledger();
    assert_eq!(l.record_sale(&key(40), &key(97), &key(50), 1, 1), Err(LedgerError::AccountNotFound));
}

#[test]
fn stake_then_unstake_keeps_staked_at() {
    let mut l = ledger();
    assert_eq!(l.stake_nft(&key(60), &key(70), &key(80), 100), Ok(()));
    let c = l.user_claim_key(&key(60), &key(70)).unwrap();
    let claim = *l.user_claim(&c).unwrap();
    assert!(claim.is_staked);
    assert_eq!(claim.staked_at, Some(100));
    assert_eq!(claim.unstaked_at, None);
    assert_eq!(claim.mint, key(80));
    assert_eq!(l.unstake_nft(&key(60), &key(70), 250), Ok(()));
    let claim = *l.user_claim(&c).unwrap();
    assert!(!claim.is_staked);
    assert_eq!(claim.staked_at, Some(100));
    assert_eq!(claim.unstaked_at, Some(250));
}

#[test]
fn stake_twice_fails() {
    let mut l = ledger();
    assert_eq!(l.stake_nft(&key(60), &key(70), &key(80), 100), Ok(()));
    assert_eq!(l.stake_nft(&key(60), &key(70), &key(81), 101), Err(LedgerError::AccountInUse));
    l.unstake_nft(&key(60), &key(70), 102).unwrap();
    assert_eq!(l.stake_nft(&key(60), &key(70), &key(81), 103), Err(LedgerError::AccountInUse));
}

#[test]
fn unstake_without_claim_differs_from_not_staked() {
    let mut l = ledger();
    let missing = l.unstake_nft(&key(60), &key(70), 1);
    assert_eq!(missing, Err(LedgerError::AccountNotFound));
    l.stake_nft(&key(60), &key(70), &key(80), 2).unwrap();
    assert_eq!(l.unstake_nft(&key(61), &key(70), 3), Err(LedgerError::AccountNotFound));
    l.unstake_nft(&key(60), &key(70), 4).unwrap();
    let again = l.unstake_nft(&key(60), &key(70), 5);
    assert_eq!(again, Err(LedgerError::Dealifi(DealifiError::NotStaked)));
    assert_ne!(missing, again);
    let c = l.user_claim_key(&key(60), &key(70)).unwrap();
    assert_eq!(l.user_claim(&c).unwrap().unstaked_at, Some(4));
}
