use vstd::prelude::*;
use crate::address::{Address, address_bytes, find_program_address, program_address_of, same_address};
use crate::errors::{DealifiError, ErrorCode, LedgerError};
use crate::state::{
    byte_len, str_byte_len, CreateDealParams, Deal, Merchant, Sale, UserClaim, MERCHANT_NAME_MAX,
    NAME_PREFIX_MAX, URI_PREFIX_MAX,
};
use crate::table::{
    find_index, keys_unique, lemma_table_absent, lemma_table_at, lemma_table_push,
    lemma_table_update, table_map,
};

verus! {

/// Seed label of merchant addresses, the bytes of "merchant".
pub open spec fn merchant_seed() -> Seq<u8> {
    seq![109u8, 101u8, 114u8, 99u8, 104u8, 97u8, 110u8, 116u8]
}

/// Seed label of deal addresses, the bytes of "deal".
pub open spec fn deal_seed() -> Seq<u8> {
    seq![100u8, 101u8, 97u8, 108u8]
}

/// Seed label of sale addresses, the bytes of "sale".
pub open spec fn sale_seed() -> Seq<u8> {
    seq![115u8, 97u8, 108u8, 101u8]
}

/// Seed label of user-claim addresses, the bytes of "user_claim".
pub open spec fn user_claim_seed() -> Seq<u8> {
    seq![117u8, 115u8, 101u8, 114u8, 95u8, 99u8, 108u8, 97u8, 105u8, 109u8]
}

/// Address (and bump) of the merchant controlled by `authority`.
pub open spec fn merchant_address(program_id: Seq<u8>, authority: Seq<u8>) -> Option<(Seq<u8>, u8)> {
    program_address_of(seq![merchant_seed(), authority], program_id)
}

/// Address (and bump) of the deal of `merchant` on `candy_machine`.
pub open spec fn deal_address(program_id: Seq<u8>, merchant: Seq<u8>, candy_machine: Seq<u8>) -> Option<(Seq<u8>, u8)> {
    program_address_of(seq![deal_seed(), merchant, candy_machine], program_id)
}

/// Address (and bump) of the sale of `mint` under `deal`.
pub open spec fn sale_address(program_id: Seq<u8>, deal: Seq<u8>, mint: Seq<u8>) -> Option<(Seq<u8>, u8)> {
    program_address_of(seq![sale_seed(), deal, mint], program_id)
}

/// Address (and bump) of the claim of `user` on `candy_machine`.
pub open spec fn user_claim_address(program_id: Seq<u8>, user: Seq<u8>, candy_machine: Seq<u8>) -> Option<(Seq<u8>, u8)> {
    program_address_of(seq![user_claim_seed(), user, candy_machine], program_id)
}

/// The ledger as four maps from record address to record.
pub struct LedgerView {
    pub program_id: Seq<u8>,
    pub merchants: Map<Seq<u8>, Merchant>,
    pub deals: Map<Seq<u8>, Deal>,
    pub sales: Map<Seq<u8>, Sale>,
    pub user_claims: Map<Seq<u8>, UserClaim>,
}

/// Outcome of registering a merchant: the result and the ledger after it.
pub open spec fn create_merchant_spec(v: LedgerView, authority: Address, treasury: Address, name: String) -> (Result<(), LedgerError>, LedgerView) {
    match merchant_address(v.program_id, authority@) {
        None => (Err(LedgerError::AddressDerivation), v),
        Some((addr, bump)) => if v.merchants.contains_key(addr) {
            (Err(LedgerError::AccountInUse), v)
        } else if byte_len(name@) > MERCHANT_NAME_MAX {
            (Err(LedgerError::Program(ErrorCode::NameTooLong)), v)
        } else {
            let m = Merchant { authority, treasury, name, bump };
            (Ok(()), LedgerView { merchants: v.merchants.insert(addr, m), ..v })
        },
    }
}

/// The deal that creation stores: the parameters, its merchant, status 1.
pub open spec fn new_deal(merchant: Address, params: CreateDealParams, bump: u8) -> Deal {
    Deal {
        merchant,
        candy_machine: params.candy_machine,
        collection_mint: params.collection_mint,
        name_prefix: params.name_prefix,
        uri_prefix: params.uri_prefix,
        items_available: params.items_available,
        go_live_date: params.go_live_date,
        end_date: params.end_date,
        price_lamports: params.price_lamports,
        payout_wallet: params.payout_wallet,
        allowlist_merkle_root: params.allowlist_merkle_root,
        status: 1,
        bump,
    }
}

/// Outcome of creating a deal for the merchant at `merchant`.
pub open spec fn create_deal_spec(v: LedgerView, authority: Address, merchant: Address, params: CreateDealParams) -> (Result<(), LedgerError>, LedgerView) {
    if !v.merchants.contains_key(merchant@) {
        (Err(LedgerError::AccountNotFound), v)
    } else if v.merchants[merchant@].authority@ != authority@ {
        (Err(LedgerError::Unauthorized), v)
    } else {
        match deal_address(v.program_id, merchant@, params.candy_machine@) {
            None => (Err(LedgerError::AddressDerivation), v),
            Some((addr, bump)) => if v.deals.contains_key(addr) {
                (Err(LedgerError::AccountInUse), v)
            } else if byte_len(params.name_prefix@) > NAME_PREFIX_MAX {
                (Err(LedgerError::Program(ErrorCode::NameTooLong)), v)
            } else if byte_len(params.uri_prefix@) > URI_PREFIX_MAX {
                (Err(LedgerError::Program(ErrorCode::UriTooLong)), v)
            } else {
                (Ok(()), LedgerView { deals: v.deals.insert(addr, new_deal(merchant, params, bump)), ..v })
            },
        }
    }
}

/// Outcome of setting the status of the deal at `deal`.
pub open spec fn update_deal_status_spec(v: LedgerView, authority: Address, deal: Address, status: u8) -> (Result<(), LedgerError>, LedgerView) {
    if !v.deals.contains_key(deal@) {
        (Err(LedgerError::AccountNotFound), v)
    } else {
        let d = v.deals[deal@];
        if !v.merchants.contains_key(d.merchant@) {
            (Err(LedgerError::AccountNotFound), v)
        } else if v.merchants[d.merchant@].authority@ != authority@ {
            (Err(LedgerError::Unauthorized), v)
        } else {
            (Ok(()), LedgerView { deals: v.deals.insert(deal@, Deal { status, ..d }), ..v })
        }
    }
}

/// Outcome of recording a sale of `mint` under `deal` at time `now`.
pub open spec fn record_sale_spec(v: LedgerView, buyer: Address, deal: Address, mint: Address, price_lamports: u64, now: i64) -> (Result<(), LedgerError>, LedgerView) {
    if !v.deals.contains_key(deal@) {
        (Err(LedgerError::AccountNotFound), v)
    } else {
        match sale_address(v.program_id, deal@, mint@) {
            None => (Err(LedgerError::AddressDerivation), v),
            Some((addr, bump)) => if v.sales.contains_key(addr) {
                (Err(LedgerError::AccountInUse), v)
            } else {
                let s = Sale { deal, mint, buyer, price_lamports, ts: now, bump };
                (Ok(()), LedgerView { sales: v.sales.insert(addr, s), ..v })
            },
        }
    }
}

/// Outcome of staking `mint` of `candy_machine` for `user` at time `now`.
pub open spec fn stake_nft_spec(v: LedgerView, user: Address, candy_machine: Address, mint: Address, now: i64) -> (Result<(), LedgerError>, LedgerView) {
    match user_claim_address(v.program_id, user@, candy_machine@) {
        None => (Err(LedgerError::AddressDerivation), v),
        Some((addr, bump)) => if v.user_claims.contains_key(addr) {
            (Err(LedgerError::AccountInUse), v)
        } else {
            let c = UserClaim {
                user,
                candy_machine,
                mint,
                is_staked: true,
                staked_at: Some(now),
                unstaked_at: None,
                bump,
            };
            (Ok(()), LedgerView { user_claims: v.user_claims.insert(addr, c), ..v })
        },
    }
}

/// Outcome of unstaking the claim of `user` on `candy_machine` at time `now`.
pub open spec fn unstake_nft_spec(v: LedgerView, user: Address, candy_machine: Address, now: i64) -> (Result<(), LedgerError>, LedgerView) {
    match user_claim_address(v.program_id, user@, candy_machine@) {
        None => (Err(LedgerError::AccountNotFound), v),
        Some((addr, _)) => if !v.user_claims.contains_key(addr) {
            (Err(LedgerError::AccountNotFound), v)
        } else {
            let c = v.user_claims[addr];
            if c.user@ != user@ {
                (Err(LedgerError::Unauthorized), v)
            } else if !c.is_staked {
                (Err(LedgerError::Dealifi(DealifiError::NotStaked)), v)
            } else {
                let c2 = UserClaim { is_staked: false, unstaked_at: Some(now), ..c };
                (Ok(()), LedgerView { user_claims: v.user_claims.insert(addr, c2), ..v })
            }
        },
    }
}

/// The records of the ledger, each stored under its derived address.
pub struct Ledger {
    program_id: Address,
    merchants: Vec<(Address, Merchant)>,
    deals: Vec<(Address, Deal)>,
    sales: Vec<(Address, Sale)>,
    user_claims: Vec<(Address, UserClaim)>,
}

impl View for Ledger {
    type V = LedgerView;

    closed spec fn view(&self) -> LedgerView {
        LedgerView {
            program_id: self.program_id@,
            merchants: table_map(self.merchants@),
            deals: table_map(self.deals@),
            sales: table_map(self.sales@),
            user_claims: table_map(self.user_claims@),
        }
    }
}

fn merchant_label() -> (r: Vec<u8>)
    ensures
        r@ == merchant_seed(),
{
    let r = vec![109u8, 101u8, 114u8, 99u8, 104u8, 97u8, 110u8, 116u8];
    assert(r@ =~= merchant_seed());
    r
}

fn deal_label() -> (r: Vec<u8>)
    ensures
        r@ == deal_seed(),
{
    let r = vec![100u8, 101u8, 97u8, 108u8];
    assert(r@ =~= deal_seed());
    r
}

fn sale_label() -> (r: Vec<u8>)
    ensures
        r@ == sale_seed(),
{
    let r = vec![115u8, 97u8, 108u8, 101u8];
    assert(r@ =~= sale_seed());
    r
}

fn user_claim_label() -> (r: Vec<u8>)
    ensures
        r@ == user_claim_seed(),
{
    let r = vec![117u8, 115u8, 101u8, 114u8, 95u8, 99u8, 108u8, 97u8, 105u8, 109u8];
    assert(r@ =~= user_claim_seed());
    r
}

/// Derives the address from a label and two keys.
fn derive3(program_id: &Address, label: Vec<u8>, a: &Address, b: &Address) -> (r: Option<(Address, u8)>)
    ensures
        match r {
            Some((x, bump)) => program_address_of(seq![label@, a@, b@], program_id@) == Some((x@, bump)),
            None => program_address_of(seq![label@, a@, b@], program_id@) is None,
        },
{
    let seeds = vec![label, address_bytes(a), address_bytes(b)];
    assert(seeds@.map_values(|s: Vec<u8>| s@) =~= seq![seeds@[0]@, a@, b@]);
    find_program_address(&seeds, program_id)
}

/// The address part of a derivation, if any.
pub open spec fn address_part(d: Option<(Seq<u8>, u8)>) -> Option<Seq<u8>> {
    match d {
        Some((a, _)) => Some(a),
        None => None,
    }
}

/// The address of a derivation that succeeded.
pub open spec fn addr_of(d: Option<(Seq<u8>, u8)>) -> Seq<u8> {
    match d {
        Some((a, _)) => a,
        None => Seq::empty(),
    }
}

/// The bump seed of a derivation that succeeded.
pub open spec fn bump_of(d: Option<(Seq<u8>, u8)>) -> u8 {
    match d {
        Some((_, b)) => b,
        None => 0,
    }
}

/// The address of an optional derivation result.
pub open spec fn opt_view(r: Option<Address>) -> Option<Seq<u8>> {
    match r {
        Some(a) => Some(a@),
        None => None,
    }
}

impl Ledger {
    /// Keys unique within each record kind.
    pub closed spec fn wf(&self) -> bool {
        &&& keys_unique(self.merchants@)
        &&& keys_unique(self.deals@)
        &&& keys_unique(self.sales@)
        &&& keys_unique(self.user_claims@)
    }

    /// An empty ledger of the program `program_id`.
    pub fn new(program_id: Address) -> (r: Self)
        ensures
            r.wf(),
            r@.program_id == program_id@,
            r@.merchants == Map::<Seq<u8>, Merchant>::empty(),
            r@.deals == Map::<Seq<u8>, Deal>::empty(),
            r@.sales == Map::<Seq<u8>, Sale>::empty(),
            r@.user_claims == Map::<Seq<u8>, UserClaim>::empty(),
    {
        let r = Ledger {
            program_id,
            merchants: Vec::new(),
            deals: Vec::new(),
            sales: Vec::new(),
            user_claims: Vec::new(),
        };
        assert(r@.merchants =~= Map::<Seq<u8>, Merchant>::empty());
        assert(r@.deals =~= Map::<Seq<u8>, Deal>::empty());
        assert(r@.sales =~= Map::<Seq<u8>, Sale>::empty());
        assert(r@.user_claims =~= Map::<Seq<u8>, UserClaim>::empty());
        r
    }

    fn derive_merchant(&self, authority: &Address) -> (r: Option<(Address, u8)>)
        ensures
            match r {
                Some((x, bump)) => merchant_address(self@.program_id, authority@) == Some((x@, bump)),
                None => merchant_address(self@.program_id, authority@) is None,
            },
    {
        let seeds = vec![merchant_label(), address_bytes(authority)];
        assert(seeds@.map_values(|s: Vec<u8>| s@) =~= seq![merchant_seed(), authority@]);
        find_program_address(&seeds, &self.program_id)
    }

    fn derive_deal(&self, merchant: &Address, candy_machine: &Address) -> (r: Option<(Address, u8)>)
        ensures
            match r {
                Some((x, bump)) => deal_address(self@.program_id, merchant@, candy_machine@) == Some((x@, bump)),
                None => deal_address(self@.program_id, merchant@, candy_machine@) is None,
            },
    {
        derive3(&self.program_id, deal_label(), merchant, candy_machine)
    }

    fn derive_sale(&self, deal: &Address, mint: &Address) -> (r: Option<(Address, u8)>)
        ensures
            match r {
                Some((x, bump)) => sale_address(self@.program_id, deal@, mint@) == Some((x@, bump)),
                None => sale_address(self@.program_id, deal@, mint@) is None,
            },
    {
        derive3(&self.program_id, sale_label(), deal, mint)
    }

    fn derive_user_claim(&self, user: &Address, candy_machine: &Address) -> (r: Option<(Address, u8)>)
        ensures
            match r {
                Some((x, bump)) => user_claim_address(self@.program_id, user@, candy_machine@) == Some((x@, bump)),
                None => user_claim_address(self@.program_id, user@, candy_machine@) is None,
            },
    {
        derive3(&self.program_id, user_claim_label(), user, candy_machine)
    }

    /// Registers the merchant controlled by `authority` under its derived
    /// address; fails when that address is taken or the name is over budget.
    pub fn create_merchant(&mut self, authority: &Address, treasury: &Address, name: String) -> (r: Result<(), LedgerError>)
        requires
            old(self).wf(),
        ensures
            final(self).wf(),
            (r, final(self)@) == create_merchant_spec(old(self)@, *authority, *treasury, name),
    {
        let (addr, bump) = match self.derive_merchant(authority) {
            None => return Err(LedgerError::AddressDerivation),
            Some(p) => p,
        };
        let found = find_index(&self.merchants, &addr);
        if let Some(j) = found {
            proof { lemma_table_at(self.merchants@, j as int); }
            return Err(LedgerError::AccountInUse);
        }
        proof { lemma_table_absent(self.merchants@, addr@); }
        if str_byte_len(&name) > MERCHANT_NAME_MAX {
            return Err(LedgerError::Program(ErrorCode::NameTooLong));
        }
        let m = Merchant { authority: *authority, treasury: *treasury, name, bump };
        proof { lemma_table_push(self.merchants@, (addr, m)); }
        self.merchants.push((addr, m));
        Ok(())
    }

    /// Creates the deal of the merchant at `merchant` on the parameters'
    /// item collection, with status 1; only the merchant's authority may.
    pub fn create_deal(&mut self, authority: &Address, merchant: &Address, params: CreateDealParams) -> (r: Result<(), LedgerError>)
        requires
            old(self).wf(),
        ensures
            final(self).wf(),
            (r, final(self)@) == create_deal_spec(old(self)@, *authority, *merchant, params),
    {
        let mi = match find_index(&self.merchants, merchant) {
            None => {
                proof { lemma_table_absent(self.merchants@, merchant@); }
                return Err(LedgerError::AccountNotFound);
            },
            Some(i) => i,
        };
        proof { lemma_table_at(self.merchants@, mi as int); }
        if !same_address(&self.merchants[mi].1.authority, authority) {
            return Err(LedgerError::Unauthorized);
        }
        let (addr, bump) = match self.derive_deal(merchant, &params.candy_machine) {
            None => return Err(LedgerError::AddressDerivation),
            Some(p) => p,
        };
        let found = find_index(&self.deals, &addr);
        if let Some(j) = found {
            proof { lemma_table_at(self.deals@, j as int); }
            return Err(LedgerError::AccountInUse);
        }
        proof { lemma_table_absent(self.deals@, addr@); }
        if str_byte_len(&params.name_prefix) > NAME_PREFIX_MAX {
            return Err(LedgerError::Program(ErrorCode::NameTooLong));
        }
        if str_byte_len(&params.uri_prefix) > URI_PREFIX_MAX {
            return Err(LedgerError::Program(ErrorCode::UriTooLong));
        }
        let deal = Deal {
            merchant: *merchant,
            candy_machine: params.candy_machine,
            collection_mint: params.collection_mint,
            name_prefix: params.name_prefix,
            uri_prefix: params.uri_prefix,
            items_available: params.items_available,
            go_live_date: params.go_live_date,
            end_date: params.end_date,
            price_lamports: params.price_lamports,
            payout_wallet: params.payout_wallet,
            allowlist_merkle_root: params.allowlist_merkle_root,
            status: 1,
            bump,
        };
        proof { lemma_table_push(self.deals@, (addr, deal)); }
        self.deals.push((addr, deal));
        Ok(())
    }

    /// Overwrites the status of the deal at `deal` with any byte; only the
    /// authority of the deal's merchant may.
    pub fn update_deal_status(&mut self, authority: &Address, deal: &Address, status: u8) -> (r: Result<(), LedgerError>)
        requires
            old(self).wf(),
        ensures
            final(self).wf(),
            (r, final(self)@) == update_deal_status_spec(old(self)@, *authority, *deal, status),
    {
        let di = match find_index(&self.deals, deal) {
            None => {
                proof { lemma_table_absent(self.deals@, deal@); }
                return Err(LedgerError::AccountNotFound);
            },
            Some(i) => i,
        };
        proof { lemma_table_at(self.deals@, di as int); }
        let owner = self.deals[di].1.merchant;
        let mi = match find_index(&self.merchants, &owner) {
            None => {
                proof { lemma_table_absent(self.merchants@, owner@); }
                return Err(LedgerError::AccountNotFound);
            },
            Some(i) => i,
        };
        proof { lemma_table_at(self.merchants@, mi as int); }
        if !same_address(&self.merchants[mi].1.authority, authority) {
            return Err(LedgerError::Unauthorized);
        }
        let ghost before = self.deals@;
        let mut entry = self.deals.remove(di);
        entry.1.status = status;
        self.deals.insert(di, entry);
        proof {
            let d = before[di as int].1;
            assert(self.deals@ =~= before.update(di as int, (before[di as int].0, Deal { status, ..d })));
            lemma_table_update(before, di as int, Deal { status, ..d });
        }
        Ok(())
    }

    /// Records the sale of `mint` under the deal at `deal`, stamped `now`;
    /// fails when that (deal, item) already has a sale.
    pub fn record_sale(&mut self, buyer: &Address, deal: &Address, mint: &Address, price_lamports: u64, now: i64) -> (r: Result<(), LedgerError>)
        requires
            old(self).wf(),
        ensures
            final(self).wf(),
            (r, final(self)@) == record_sale_spec(old(self)@, *buyer, *deal, *mint, price_lamports, now),
    {
        let di = find_index(&self.deals, deal);
        match di {
            None => {
                proof { lemma_table_absent(self.deals@, deal@); }
                return Err(LedgerError::AccountNotFound);
            },
            Some(i) => {
                proof { lemma_table_at(self.deals@, i as int); }
            },
        }
        let (addr, bump) = match self.derive_sale(deal, mint) {
            None => return Err(LedgerError::AddressDerivation),
            Some(p) => p,
        };
        let found = find_index(&self.sales, &addr);
        if let Some(j) = found {
            proof { lemma_table_at(self.sales@, j as int); }
            return Err(LedgerError::AccountInUse);
        }
        proof { lemma_table_absent(self.sales@, addr@); }
        let sale = Sale { deal: *deal, mint: *mint, buyer: *buyer, price_lamports, ts: now, bump };
        proof { lemma_table_push(self.sales@, (addr, sale)); }
        self.sales.push((addr, sale));
        Ok(())
    }

    /// Opens the claim of `user` on `candy_machine` as staked at `now`;
    /// fails when the claim already exists.
    pub fn stake_nft(&mut self, user: &Address, candy_machine: &Address, mint: &Address, now: i64) -> (r: Result<(), LedgerError>)
        requires
            old(self).wf(),
        ensures
            final(self).wf(),
            (r, final(self)@) == stake_nft_spec(old(self)@, *user, *candy_machine, *mint, now),
    {
        let (addr, bump) = match self.derive_user_claim(user, candy_machine) {
            None => return Err(LedgerError::AddressDerivation),
            Some(p) => p,
        };
        let found = find_index(&self.user_claims, &addr);
        if let Some(j) = found {
            proof { lemma_table_at(self.user_claims@, j as int); }
            return Err(LedgerError::AccountInUse);
        }
        proof { lemma_table_absent(self.user_claims@, addr@); }
        let claim = UserClaim {
            user: *user,
            candy_machine: *candy_machine,
            mint: *mint,
            is_staked: true,
            staked_at: Some(now),
            unstaked_at: None,
            bump,
        };
        proof { lemma_table_push(self.user_claims@, (addr, claim)); }
        self.user_claims.push((addr, claim));
        Ok(())
    }

    /// Marks the claim of `user` on `candy_machine` unstaked at `now`,
    /// keeping its staked-at time; fails when it is missing or not staked.
    pub fn unstake_nft(&mut self, user: &Address, candy_machine: &Address, now: i64) -> (r: Result<(), LedgerError>)
        requires
            old(self).wf(),
        ensures
            final(self).wf(),
            (r, final(self)@) == unstake_nft_spec(old(self)@, *user, *candy_machine, now),
    {
        let (addr, _bump) = match self.derive_user_claim(user, candy_machine) {
            None => return Err(LedgerError::AccountNotFound),
            Some(p) => p,
        };
        let ci = match find_index(&self.user_claims, &addr) {
            None => {
                proof { lemma_table_absent(self.user_claims@, addr@); }
                return Err(LedgerError::AccountNotFound);
            },
            Some(i) => i,
        };
        proof { lemma_table_at(self.user_claims@, ci as int); }
        if !same_address(&self.user_claims[ci].1.user, user) {
            return Err(LedgerError::Unauthorized);
        }
        if !self.user_claims[ci].1.is_staked {
            return Err(LedgerError::Dealifi(DealifiError::NotStaked));
        }
        let ghost before = self.user_claims@;
        let mut entry = self.user_claims.remove(ci);
        entry.1.is_staked = false;
        entry.1.unstaked_at = Some(now);
        self.user_claims.insert(ci, entry);
        proof {
            let c = before[ci as int].1;
            let c2 = UserClaim { is_staked: false, unstaked_at: Some(now), ..c };
            assert(self.user_claims@ =~= before.update(ci as int, (before[ci as int].0, c2)));
            lemma_table_update(before, ci as int, c2);
        }
        Ok(())
    }

    /// The id of the program whose addresses this ledger derives.
    pub fn program_id(&self) -> (r: Address)
        ensures
            r@ == self@.program_id,
    {
        self.program_id
    }

    /// The address of the merchant controlled by `authority`.
    pub fn merchant_key(&self, authority: &Address) -> (r: Option<Address>)
        ensures
            opt_view(r) == address_part(merchant_address(self@.program_id, authority@)),
    {
        match self.derive_merchant(authority) {
            Some((a, _)) => Some(a),
            None => None,
        }
    }

    /// The address of the deal of `merchant` on `candy_machine`.
    pub fn deal_key(&self, merchant: &Address, candy_machine: &Address) -> (r: Option<Address>)
        ensures
            opt_view(r) == address_part(deal_address(self@.program_id, merchant@, candy_machine@)),
    {
        match self.derive_deal(merchant, candy_machine) {
            Some((a, _)) => Some(a),
            None => None,
        }
    }

    /// The address of the sale of `mint` under `deal`.
    pub fn sale_key(&self, deal: &Address, mint: &Address) -> (r: Option<Address>)
        ensures
            opt_view(r) == address_part(sale_address(self@.program_id, deal@, mint@)),
    {
        match self.derive_sale(deal, mint) {
            Some((a, _)) => Some(a),
            None => None,
        }
    }

    /// The address of the claim of `user` on `candy_machine`.
    pub fn user_claim_key(&self, user: &Address, candy_machine: &Address) -> (r: Option<Address>)
        ensures
            opt_view(r) == address_part(user_claim_address(self@.program_id, user@, candy_machine@)),
    {
        match self.derive_user_claim(user, candy_machine) {
            Some((a, _)) => Some(a),
            None => None,
        }
    }

    /// The merchant stored at `addr`, if any.
    pub fn merchant(&self, addr: &Address) -> (r: Option<&Merchant>)
        requires
            self.wf(),
        ensures
            match r {
                Some(m) => self@.merchants.contains_key(addr@) && *m == self@.merchants[addr@],
                None => !self@.merchants.contains_key(addr@),
            },
    {
        match find_index(&self.merchants, addr) {
            Some(i) => {
                proof { lemma_table_at(self.merchants@, i as int); }
                Some(&self.merchants[i].1)
            },
            None => {
                proof { lemma_table_absent(self.merchants@, addr@); }
                None
            },
        }
    }

    /// The deal stored at `addr`, if any.
    pub fn deal(&self, addr: &Address) -> (r: Option<&Deal>)
        requires
            self.wf(),
        ensures
            match r {
                Some(d) => self@.deals.contains_key(addr@) && *d == self@.deals[addr@],
                None => !self@.deals.contains_key(addr@),
            },
    {
        match find_index(&self.deals, addr) {
            Some(i) => {
                proof { lemma_table_at(self.deals@, i as int); }
                Some(&self.deals[i].1)
            },
            None => {
                proof { lemma_table_absent(self.deals@, addr@); }
                None
            },
        }
    }

    /// The sale stored at `addr`, if any.
    pub fn sale(&self, addr: &Address) -> (r: Option<&Sale>)
        requires
            self.wf(),
        ensures
            match r {
                Some(x) => self@.sales.contains_key(addr@) && *x == self@.sales[addr@],
                None => !self@.sales.contains_key(addr@),
            },
    {
        match find_index(&self.sales, addr) {
            Some(i) => {
                proof { lemma_table_at(self.sales@, i as int); }
                Some(&self.sales[i].1)
            },
            None => {
                proof { lemma_table_absent(self.sales@, addr@); }
                None
            },
        }
    }

    /// The user claim stored at `addr`, if any.
    pub fn user_claim(&self, addr: &Address) -> (r: Option<&UserClaim>)
        requires
            self.wf(),
        ensures
            match r {
                Some(c) => self@.user_claims.contains_key(addr@) && *c == self@.user_claims[addr@],
                None => !self@.user_claims.contains_key(addr@),
            },
    {
        match find_index(&self.user_claims, addr) {
            Some(i) => {
                proof { lemma_table_at(self.user_claims@, i as int); }
                Some(&self.user_claims[i].1)
            },
            None => {
                proof { lemma_table_absent(self.user_claims@, addr@); }
                None
            },
        }
    }
}

} // verus!
