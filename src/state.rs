use vstd::prelude::*;
use crate::address::Address;

verus! {

/// Byte budget of a deal's name prefix.
pub const NAME_PREFIX_MAX: usize = 64;

/// Byte budget of a deal's uri prefix.
pub const URI_PREFIX_MAX: usize = 128;

/// Byte budget of a merchant's display name.
pub const MERCHANT_NAME_MAX: usize = 64;

/// Number of bytes that the UTF-8 encoding of the characters takes.
pub open spec fn byte_len(s: Seq<char>) -> nat {
    vstd::utf8::encode_utf8(s).len()
}

/// A merchant, one per controlling identity.
#[derive(Clone, Debug)]
pub struct Merchant {
    pub authority: Address,
    pub treasury: Address,
    pub name: String,
    pub bump: u8,
}

/// A deal, one per (merchant, item collection).
#[derive(Clone, Debug)]
pub struct Deal {
    pub merchant: Address,
    pub candy_machine: Address,
    pub collection_mint: Address,
    pub name_prefix: String,
    pub uri_prefix: String,
    pub items_available: u64,
    pub go_live_date: Option<i64>,
    pub end_date: Option<i64>,
    pub price_lamports: u64,
    pub payout_wallet: Address,
    pub allowlist_merkle_root: Option<[u8; 32]>,
    pub status: u8,
    pub bump: u8,
}

/// A recorded sale, one per (deal, item); never changed once written.
#[derive(Clone, Copy, Debug)]
pub struct Sale {
    pub deal: Address,
    pub mint: Address,
    pub buyer: Address,
    pub price_lamports: u64,
    pub ts: i64,
    pub bump: u8,
}

/// The stake state of a user's item, one per (user, item collection).
#[derive(Clone, Copy, Debug)]
pub struct UserClaim {
    pub user: Address,
    pub candy_machine: Address,
    pub mint: Address,
    pub is_staked: bool,
    pub staked_at: Option<i64>,
    pub unstaked_at: Option<i64>,
    pub bump: u8,
}

/// What a caller hands in to create a deal.
#[derive(Clone, Debug)]
pub struct CreateDealParams {
    pub candy_machine: Address,
    pub collection_mint: Address,
    pub name_prefix: String,
    pub uri_prefix: String,
    pub items_available: u64,
    pub go_live_date: Option<i64>,
    pub end_date: Option<i64>,
    pub price_lamports: u64,
    pub payout_wallet: Address,
    pub allowlist_merkle_root: Option<[u8; 32]>,
}

/// Byte length of a string, as stored.
pub fn str_byte_len(s: &String) -> (r: usize)
    ensures
        r == byte_len(s@),
{
    s.as_str().as_bytes().len()
}

} // verus!
