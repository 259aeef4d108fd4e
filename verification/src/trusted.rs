//! Calls into `solana_program`, `mpl_token_metadata` and
//! `metaplex_token_metadata`. Verus believes the contracts in this file; it
//! does not see the code behind them.

use vstd::prelude::*;
use crate::types::{Creator, Key, MetadataRecord};

verus! {

/// `ProgramError`, the error type of `solana_program`. Nothing is known of
/// a value of it; the library hands on the ones it is given.
#[verifier::external_type_specification]
#[verifier::external_body]
pub struct ExProgramError(solana_program::program_error::ProgramError);

/// The views of a list of seeds.
pub open spec fn seed_bytes(seeds: Seq<&[u8]>) -> Seq<Seq<u8>> {
    Seq::new(seeds.len(), |i: int| seeds[i]@)
}

/// What `Pubkey::try_find_program_address` returns for the given seeds and
/// program: the derived address with its bump seed, or `None` where no bump
/// seed gives an address off the curve or the seeds are not admissible.
pub uninterp spec fn program_address(seeds: Seq<Seq<u8>>, program_id: Seq<u8>) -> Option<(Seq<u8>, u8)>;

/// `Pubkey::try_find_program_address`. The search hashes the seeds, a bump
/// seed and the program's address, so its result is a function of the
/// arguments alone; the contract only gives that result its name.
#[verifier::external_body]
pub(crate) fn find_program_address(seeds: &[&[u8]], program_id: &Key) -> (found: Option<(Key, u8)>)
    ensures
        match found {
            Some((address, bump)) => program_address(seed_bytes(seeds@), program_id@) == Some(
                (address@, bump),
            ),
            None => program_address(seed_bytes(seeds@), program_id@).is_none(),
        },
{
    let program = solana_program::pubkey::Pubkey::new_from_array(*program_id);
    solana_program::pubkey::Pubkey::try_find_program_address(seeds, &program)
        .map(|(address, bump)| (address.to_bytes(), bump))
}

/// Whether `order` is what C's `memcmp` gives for the first `n` bytes of `s1`
/// and `s2`: zero where they agree, and otherwise of the sign of the
/// difference between the first two bytes that differ.
pub open spec fn is_byte_order(s1: Seq<u8>, s2: Seq<u8>, n: usize, order: i32) -> bool {
    if s1.take(n as int) == s2.take(n as int) {
        order == 0
    } else {
        exists|i: int|
            #![trigger s1[i]]
            {
                &&& 0 <= i < n
                &&& s1.take(i) == s2.take(i)
                &&& s1[i] != s2[i]
                &&& order < 0 <==> s1[i] < s2[i]
                &&& order > 0 <==> s1[i] > s2[i]
            }
    }
}

/// `sol_memcmp`, which compares the first `n` bytes of two slices as C's
/// `memcmp` does: on chain through the runtime, elsewhere through the
/// process's syscall stubs, which walk the bytes unless a program has put its
/// own in their place. It reads `n` bytes of each slice without looking at
/// their lengths, which is why both must hold that many.
#[verifier::external_body]
pub(crate) fn compare_bytes(s1: &[u8], s2: &[u8], n: usize) -> (order: i32)
    requires
        n <= s1@.len(),
        n <= s2@.len(),
    ensures
        is_byte_order(s1@, s2@, n, order),
{
    solana_program::program_memory::sol_memcmp(s1, s2, n)
}

/// The bytes of the text `metadata`.
pub open spec fn metadata_prefix_bytes() -> Seq<u8> {
    seq![109u8, 101u8, 116u8, 97u8, 100u8, 97u8, 116u8, 97u8]
}

/// `mpl_token_metadata::state::PREFIX`, the text that every metadata
/// address is derived with, as bytes.
#[verifier::external_body]
pub(crate) fn metadata_prefix() -> (prefix: &'static [u8])
    ensures
        prefix@ == metadata_prefix_bytes(),
{
    mpl_token_metadata::state::PREFIX.as_bytes()
}

/// The address `metaqbxxUerdq28cj1RbAWkYQm3ybzjb6a8bt518x1s`, decoded from
/// base 58.
pub open spec fn metadata_program_bytes() -> Seq<u8> {
    seq![
        11u8, 112u8, 101u8, 177u8, 227u8, 209u8, 124u8, 69u8, 56u8, 157u8, 82u8, 127u8, 107u8,
        4u8, 195u8, 205u8, 88u8, 184u8, 108u8, 115u8, 26u8, 160u8, 253u8, 181u8, 73u8, 182u8,
        209u8, 188u8, 3u8, 248u8, 41u8, 70u8,
    ]
}

/// `mpl_token_metadata::id`, the address of the token metadata program.
#[verifier::external_body]
pub(crate) fn metadata_program_id() -> (id: Key)
    ensures
        id@ == metadata_program_bytes(),
{
    mpl_token_metadata::id().to_bytes()
}

/// What `Metadata::from_account_info` makes of an account that holds `data`:
/// the creators of the record it decodes, or the error with which it refuses
/// the data.
pub uninterp spec fn decoded_metadata(data: Seq<u8>) -> Result<
    Option<Seq<Creator>>,
    solana_program::program_error::ProgramError,
>;

/// `Metadata::from_account_info` of `metaplex_token_metadata`, on an account
/// made for the call that holds a copy of `data`. The decoder reads nothing
/// but the data, so what it returns is a function of `data` alone. It looks
/// at the first byte before anything else, so there must be one. Of the
/// record it returns, the creators are handed on, address and share each.
#[verifier::external_body]
pub(crate) fn read_metadata(data: &[u8]) -> (read: Result<
    MetadataRecord,
    solana_program::program_error::ProgramError,
>)
    requires
        data@.len() > 0,
    ensures
        match read {
            Ok(record) => decoded_metadata(data@) == Ok::<
                Option<Seq<Creator>>,
                solana_program::program_error::ProgramError,
            >(record@),
            Err(error) => decoded_metadata(data@) == Err::<
                Option<Seq<Creator>>,
                solana_program::program_error::ProgramError,
            >(error),
        },
{
    let key = solana_program::pubkey::Pubkey::default();
    let (mut lamports, mut bytes) = (0u64, data.to_vec());
    let account = solana_program::account_info::AccountInfo::new(
        &key, false, false, &mut lamports, &mut bytes, &key, false, 0,
    );
    let metadata = metaplex_token_metadata::state::Metadata::from_account_info(&account)?;
    let creators = metadata.data.creators.map(|list| {
        list.iter().map(|c| Creator { address: c.address.to_bytes(), share: c.share }).collect()
    });
    Ok(MetadataRecord { creators })
}

} // verus!
