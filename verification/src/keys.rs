//! Public keys as thirty-two raw bytes, and the three things that only the
//! ledger's own key type can compute from them: their text form, their
//! parsing from text, and the derivation of program addresses.

use solana_sdk::pubkey::Pubkey;
use std::str::FromStr;
use vstd::prelude::*;

verus! {

/// The base58 text of a key, as the ledger's key type prints it.
pub uninterp spec fn base58_text(key: Seq<u8>) -> Seq<char>;

/// The key that a text stands for, as the ledger's key type parses it, or
/// `None` where the text is not the base58 form of thirty-two bytes.
pub uninterp spec fn parsed_key(text: Seq<char>) -> Option<Seq<u8>>;

/// The program address that the ledger derives from `seeds` for `program`,
/// or `None` where no bump seed gives a valid address.
pub uninterp spec fn derived_address(seeds: Seq<Seq<u8>>, program: Seq<u8>) -> Option<Seq<u8>>;

/// The contents of a list of seeds.
pub open spec fn seeds_view(seeds: Seq<Vec<u8>>) -> Seq<Seq<u8>> {
    Seq::new(seeds.len(), |i: int| seeds[i]@)
}

/// Calls `Pubkey::to_string` on the key made of `key`: the result is the
/// key's base58 text, which depends on the bytes alone.
#[verifier::external_body]
pub(crate) fn key_to_text(key: &[u8; 32]) -> (text: String)
    ensures
        text@ == base58_text(key@),
{
    Pubkey::new_from_array(*key).to_string()
}

/// Calls `Pubkey::from_str`: the result is the key that `text` is the base58
/// form of, and `None` for any text that the ledger's key type refuses. It
/// depends on the text alone.
#[verifier::external_body]
pub(crate) fn text_to_key(text: &str) -> (key: Option<[u8; 32]>)
    ensures
        match key {
            Some(bytes) => parsed_key(text@) == Some(bytes@),
            None => parsed_key(text@) is None,
        },
{
    Pubkey::from_str(text).ok().map(|key| key.to_bytes())
}

/// Calls `Pubkey::try_find_program_address` and keeps the address, not the
/// bump seed: the result depends on the seeds and the program alone, and is
/// `None` where the ledger finds no valid address.
#[verifier::external_body]
pub(crate) fn find_derived_address(seeds: &Vec<Vec<u8>>, program: &[u8; 32]) -> (address: Option<
    [u8; 32],
>)
    ensures
        match address {
            Some(bytes) => derived_address(seeds_view(seeds@), program@) == Some(bytes@),
            None => derived_address(seeds_view(seeds@), program@) is None,
        },
{
    let parts: Vec<&[u8]> = seeds.iter().map(|seed| seed.as_slice()).collect();
    Pubkey::try_find_program_address(&parts, &Pubkey::new_from_array(*program)).map(
        |found| found.0.to_bytes(),
    )
}

/// Whether two keys hold the same bytes.
pub fn keys_equal(a: &[u8; 32], b: &[u8; 32]) -> (r: bool)
    ensures
        r == (a@ == b@),
{
    let mut i: usize = 0;
    while i < 32
        invariant
            i <= 32,
            forall|j: int| 0 <= j < i ==> a@[j] == b@[j],
        decreases 32 - i,
    {
        if a[i] != b[i] {
            return false;
        }
        i = i + 1;
    }
    assert(a@ =~= b@);
    true
}

} // verus!
