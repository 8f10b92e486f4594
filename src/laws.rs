use vstd::prelude::*;
use crate::address::Address;
use crate::errors::{DealifiError, ErrorCode, LedgerError};
use crate::ledger::{
    create_deal_spec, create_merchant_spec, deal_address, merchant_address, new_deal,
    record_sale_spec, sale_address, stake_nft_spec, unstake_nft_spec, update_deal_status_spec,
    user_claim_address, addr_of, bump_of, LedgerView,
};
use crate::state::{byte_len, CreateDealParams, Deal};

verus! {

/// A merchant's address depends on the controlling identity alone, a
/// successful registration stores the merchant there, and registering the
/// same identity again fails and changes nothing.
pub proof fn lemma_merchant_registration_once(
    v: LedgerView,
    authority: Address,
    treasury: Address,
    name: String,
    other: Address,
    treasury2: Address,
    name2: String,
)
    ensures
        other@ == authority@ ==> merchant_address(v.program_id, other@) == merchant_address(v.program_id, authority@),
        ({
            let (r1, v1) = create_merchant_spec(v, authority, treasury, name);
            let (r2, v2) = create_merchant_spec(v1, authority, treasury2, name2);
            r1 is Ok ==> {
                &&& merchant_address(v.program_id, authority@) is Some
                &&& v1.merchants.contains_key(addr_of(merchant_address(v.program_id, authority@)))
                &&& v1.merchants[addr_of(merchant_address(v.program_id, authority@))].authority == authority
                &&& r2 == Err::<(), LedgerError>(LedgerError::AccountInUse)
                &&& v2 == v1
            }
        }),
{
}

/// A merchant name of at most 64 bytes is accepted and one of more is
/// rejected with `NameTooLong`, wherever the address is free.
pub proof fn lemma_merchant_name_budget(v: LedgerView, authority: Address, treasury: Address, name: String)
    requires
        merchant_address(v.program_id, authority@) is Some,
        !v.merchants.contains_key(addr_of(merchant_address(v.program_id, authority@))),
    ensures
        byte_len(name@) <= 64 ==> create_merchant_spec(v, authority, treasury, name).0 is Ok,
        byte_len(name@) > 64 ==> create_merchant_spec(v, authority, treasury, name).0
            == Err::<(), LedgerError>(LedgerError::Program(ErrorCode::NameTooLong)),
{
}

/// A deal's name prefix may take up to 64 bytes and its uri prefix up to 128:
/// within both budgets creation succeeds, over either it is rejected.
pub proof fn lemma_deal_text_budgets(v: LedgerView, authority: Address, merchant: Address, params: CreateDealParams)
    requires
        v.merchants.contains_key(merchant@),
        v.merchants[merchant@].authority@ == authority@,
        deal_address(v.program_id, merchant@, params.candy_machine@) is Some,
        !v.deals.contains_key(addr_of(deal_address(v.program_id, merchant@, params.candy_machine@))),
    ensures
        byte_len(params.name_prefix@) <= 64 && byte_len(params.uri_prefix@) <= 128
            ==> create_deal_spec(v, authority, merchant, params).0 is Ok,
        byte_len(params.name_prefix@) > 64 ==> create_deal_spec(v, authority, merchant, params).0
            == Err::<(), LedgerError>(LedgerError::Program(ErrorCode::NameTooLong)),
        byte_len(params.name_prefix@) <= 64 && byte_len(params.uri_prefix@) > 128
            ==> create_deal_spec(v, authority, merchant, params).0
            == Err::<(), LedgerError>(LedgerError::Program(ErrorCode::UriTooLong)),
{
}

/// Creating a deal for the same merchant and item collection a second time
/// fails and leaves the ledger, and so the first deal, as it was.
pub proof fn lemma_deal_created_once(
    v: LedgerView,
    authority: Address,
    merchant: Address,
    first: CreateDealParams,
    caller: Address,
    second: CreateDealParams,
)
    requires
        second.candy_machine@ == first.candy_machine@,
    ensures
        ({
            let (r1, v1) = create_deal_spec(v, authority, merchant, first);
            let (r2, v2) = create_deal_spec(v1, caller, merchant, second);
            let addr = addr_of(deal_address(v.program_id, merchant@, first.candy_machine@));
            let bump = bump_of(deal_address(v.program_id, merchant@, first.candy_machine@));
            r1 is Ok ==> {
                &&& v1.deals[addr] == new_deal(merchant, first, bump)
                &&& v1.deals[addr].status == 1
                &&& r2 is Err
                &&& v2 == v1
                &&& caller@ == authority@ ==> r2 == Err::<(), LedgerError>(LedgerError::AccountInUse)
            }
        }),
{
}

/// Only the authority of a deal's merchant can change the deal's status:
/// anyone else fails and changes nothing, while the authority may write any
/// byte, which replaces the status and nothing else.
pub proof fn lemma_status_update_authority(v: LedgerView, caller: Address, deal: Address, status: u8)
    requires
        v.deals.contains_key(deal@),
        v.merchants.contains_key(v.deals[deal@].merchant@),
    ensures
        ({
            let (r, v2) = update_deal_status_spec(v, caller, deal, status);
            let authority = v.merchants[v.deals[deal@].merchant@].authority;
            &&& caller@ != authority@ ==> r == Err::<(), LedgerError>(LedgerError::Unauthorized) && v2 == v
            &&& caller@ == authority@ ==> {
                &&& r is Ok
                &&& v2.deals[deal@].status == status
                &&& v2.deals[deal@] == (Deal { status, ..v.deals[deal@] })
                &&& v2.merchants == v.merchants
            }
        }),
{
}

/// A sale is stamped with the time of the call that records it, and a second
/// sale of the same item under the same deal fails and changes nothing.
pub proof fn lemma_sale_recorded_once(
    v: LedgerView,
    buyer: Address,
    deal: Address,
    mint: Address,
    price: u64,
    now: i64,
    buyer2: Address,
    price2: u64,
    now2: i64,
)
    ensures
        ({
            let (r1, v1) = record_sale_spec(v, buyer, deal, mint, price, now);
            let (r2, v2) = record_sale_spec(v1, buyer2, deal, mint, price2, now2);
            let addr = addr_of(sale_address(v.program_id, deal@, mint@));
            r1 is Ok ==> {
                &&& v1.sales.contains_key(addr)
                &&& v1.sales[addr].ts == now
                &&& v1.sales[addr].price_lamports == price
                &&& r2 == Err::<(), LedgerError>(LedgerError::AccountInUse)
                &&& v2 == v1
            }
        }),
{
}

/// Staking at `t1` and then unstaking at `t2` leaves the claim not staked,
/// unstaked at `t2` and still staked-at `t1`.
pub proof fn lemma_stake_then_unstake(
    v: LedgerView,
    user: Address,
    candy_machine: Address,
    mint: Address,
    t1: i64,
    t2: i64,
)
    requires
        t1 <= t2,
    ensures
        ({
            let (r1, v1) = stake_nft_spec(v, user, candy_machine, mint, t1);
            let (r2, v2) = unstake_nft_spec(v1, user, candy_machine, t2);
            let addr = addr_of(user_claim_address(v.program_id, user@, candy_machine@));
            r1 is Ok ==> {
                &&& v1.user_claims[addr].is_staked
                &&& v1.user_claims[addr].staked_at == Some(t1)
                &&& v1.user_claims[addr].unstaked_at == None::<i64>
                &&& r2 is Ok
                &&& !v2.user_claims[addr].is_staked
                &&& v2.user_claims[addr].staked_at == Some(t1)
                &&& v2.user_claims[addr].unstaked_at == Some(t2)
                &&& t1 <= t2
            }
        }),
{
}

/// Unstaking where no claim exists fails with `AccountNotFound`; unstaking a
/// claim that is already unstaked fails with `NotStaked`; the two differ.
pub proof fn lemma_unstake_failures_distinct(v: LedgerView, user: Address, candy_machine: Address, now: i64)
    ensures
        ({
            let d = user_claim_address(v.program_id, user@, candy_machine@);
            let r = unstake_nft_spec(v, user, candy_machine, now).0;
            &&& (d is None || !v.user_claims.contains_key(addr_of(d)))
                ==> r == Err::<(), LedgerError>(LedgerError::AccountNotFound)
            &&& (d is Some && v.user_claims.contains_key(addr_of(d))
                && v.user_claims[addr_of(d)].user@ == user@ && !v.user_claims[addr_of(d)].is_staked)
                ==> r == Err::<(), LedgerError>(LedgerError::Dealifi(DealifiError::NotStaked))
            &&& LedgerError::AccountNotFound != LedgerError::Dealifi(DealifiError::NotStaked)
        }),
{
}

/// After stake and unstake, a second unstake fails with `NotStaked` and
/// changes nothing.
pub proof fn lemma_second_unstake_fails(
    v: LedgerView,
    user: Address,
    candy_machine: Address,
    mint: Address,
    t1: i64,
    t2: i64,
    t3: i64,
)
    ensures
        ({
            let (r1, v1) = stake_nft_spec(v, user, candy_machine, mint, t1);
            let (r2, v2) = unstake_nft_spec(v1, user, candy_machine, t2);
            let (r3, v3) = unstake_nft_spec(v2, user, candy_machine, t3);
            r1 is Ok ==> r2 is Ok && r3 == Err::<(), LedgerError>(LedgerError::Dealifi(DealifiError::NotStaked)) && v3 == v2
        }),
{
}

} // verus!
