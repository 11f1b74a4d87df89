//! The trusted boundary to the price oracle.
//!
//! The vault trusts exactly one price feed, named by its base58 address.
//! A withdrawal hands in the feed account's key and raw bytes; this module
//! checks the key against the configured address and parses the bytes with
//! the oracle's own SDK. Both outside calls are pure functions of their
//! byte inputs, so each is named by an uninterpreted spec function and
//! wrapped once.

use vstd::prelude::*;

verus! {

/// The base58 rendering of a 32-byte account key.
pub uninterp spec fn base58_of(key: Seq<u8>) -> Seq<char>;

/// The unchecked price parsed from a price-feed account's bytes: `Some`
/// exactly when the bytes parse as a price account, then carrying the
/// feed's latest aggregate price with no staleness or confidence check.
pub uninterp spec fn pyth_unchecked_price(data: Seq<u8>) -> Option<i64>;

/// The base58 address of the one price feed this vault trusts.
pub open spec fn feed_address() -> Seq<char> {
    "J83w4HKfqxwcq3BEMMkPFSppX3gqekLyLJBexebFVkix"@
}

/// Whether `key` is the configured price feed's key.
pub open spec fn feed_key_ok(key: Seq<u8>) -> bool {
    base58_of(key) == feed_address()
}

/// The configured price feed's address, in base58.
pub fn configured_feed_address() -> (r: &'static str)
    ensures
        r@ == feed_address(),
{
    "J83w4HKfqxwcq3BEMMkPFSppX3gqekLyLJBexebFVkix"
}

/// Relies on the `Display` impl of `solana_program::pubkey::Pubkey`, which
/// renders the 32 key bytes in base58: the rendering depends on the bytes
/// alone.
#[verifier::external_body]
fn pubkey_base58(key: &[u8; 32]) -> (r: String)
    ensures
        r@ == base58_of(key@),
{
    solana_program::pubkey::Pubkey::new_from_array(*key).to_string()
}

/// Whether the supplied account key renders to the configured feed address.
pub fn feed_key_matches(key: &[u8; 32]) -> (r: bool)
    ensures
        r == feed_key_ok(key@),
{
    let rendered = pubkey_base58(key);
    let expected = configured_feed_address().to_string();
    rendered == expected
}

/// Relies on `pyth_sdk_solana::state::load_price_account`,
/// `GenericPriceAccount::to_price_feed` and
/// `pyth_sdk::PriceFeed::get_price_unchecked`: the feed is parsed from the
/// account's bytes alone (the account key only names the feed and does not
/// enter the price), and the unchecked price carries no staleness or
/// confidence check. The bytes are first copied into an eight-byte-aligned
/// buffer (through `bytemuck::cast_slice_mut`), since the parser reads them
/// in place and insists on that alignment.
#[verifier::external_body]
pub(crate) fn load_unchecked_price(data: &[u8]) -> (r: Option<i64>)
    ensures
        r == pyth_unchecked_price(data@),
{
    let mut buf: Vec<u64> = vec![0u64; data.len()];
    let aligned: &mut [u8] = bytemuck::cast_slice_mut(&mut buf);
    aligned[..data.len()].copy_from_slice(data);
    match pyth_sdk_solana::state::load_price_account::<32, ()>(&aligned[..data.len()]) {
        Ok(acc) => Some(acc.to_price_feed(&Default::default()).get_price_unchecked().price),
        Err(_) => None,
    }
}

} // verus!
