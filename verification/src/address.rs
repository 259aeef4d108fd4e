//! Addresses: equality of two, and the address at which an asset's metadata
//! is kept.

use vstd::prelude::*;
use crate::trusted::{
    compare_bytes, find_program_address, metadata_prefix, metadata_prefix_bytes,
    metadata_program_bytes, metadata_program_id, program_address, seed_bytes,
};
use crate::types::{Errors, Key, KEY_BYTES};

verus! {

/// The one address at which the metadata of `mint` is kept: the address
/// derived for the token metadata program from the metadata prefix, that
/// program's own address and the mint's address, in this order. `None` where
/// the derivation finds no address.
pub open spec fn metadata_address(mint: Seq<u8>) -> Option<Seq<u8>> {
    match program_address(
        seq![metadata_prefix_bytes(), metadata_program_bytes(), mint],
        metadata_program_bytes(),
    ) {
        Some((address, _)) => Some(address),
        None => None,
    }
}

/// Whether two addresses are the same, byte for byte.
pub fn same_key(key1: &Key, key2: &Key) -> (same: bool)
    ensures
        same == (key1@ == key2@),
{
    let mut i: usize = 0;
    while i < KEY_BYTES
        invariant
            i <= KEY_BYTES,
            forall|j: int| 0 <= j < i ==> key1@[j] == key2@[j],
        decreases KEY_BYTES - i,
    {
        if key1[i] != key2[i] {
            return false;
        }
        i += 1;
    }
    assert(key1@ =~= key2@);
    true
}

/// Succeeds where the two addresses are the same, byte for byte, and fails
/// with `PublicKeyMismatch` where they are not.
pub fn assert_keys_equal(key1: Key, key2: Key) -> (checked: Result<(), Errors>)
    ensures
        key1@ == key2@ ==> checked == Ok::<(), Errors>(()),
        key1@ != key2@ ==> checked == Err::<(), Errors>(Errors::PublicKeyMismatch),
{
    let order = compare_bytes(key1.as_slice(), key2.as_slice(), KEY_BYTES);
    assert(key1@.take(KEY_BYTES as int) =~= key1@);
    assert(key2@.take(KEY_BYTES as int) =~= key2@);
    if order != 0 {
        Err(Errors::PublicKeyMismatch)
    } else {
        Ok(())
    }
}

/// Whether a derivation found an address, and `metadata` is that address.
pub fn is_derived_address(found: &Option<(Key, u8)>, metadata: &Key) -> (is_derived: bool)
    ensures
        is_derived == match *found {
            Some((address, _)) => address@ == metadata@,
            None => false,
        },
{
    match found {
        Some((address, _)) => same_key(address, metadata),
        None => false,
    }
}

/// Whether `metadata` is the address at which the metadata of `mint` is kept.
pub fn is_metadata_for_mint(mint: &Key, metadata: &Key) -> (is_for_mint: bool)
    ensures
        is_for_mint == (metadata_address(mint@) == Some(metadata@)),
{
    let program = metadata_program_id();
    let seeds: [&[u8]; 3] = [metadata_prefix(), program.as_slice(), mint.as_slice()];
    let found = find_program_address(seeds.as_slice(), &program);
    assert(seed_bytes(seeds@) =~= seq![
        metadata_prefix_bytes(),
        metadata_program_bytes(),
        mint@,
    ]);
    is_derived_address(&found, metadata)
}

} // verus!
