//! Splits a royalty fee among the creators recorded in an asset's metadata.
//!
//! The library decides; it moves no value itself. `pay_creator` checks that the
//! metadata account belongs to the mint, reads the creators from it, pairs them
//! by position with the accounts supplied, and returns the transfers to issue,
//! in order, together with how the run ended.

pub mod address;
pub mod distribution;
pub mod laws;
pub mod trusted;
pub mod types;

pub use address::{assert_keys_equal, is_derived_address, is_metadata_for_mint, same_key};
pub use distribution::{distribute, pay_creator, try_pay_creator};
pub use types::{
    Context, Creator, Errors, Initialize, Key, MetadataRecord, PayCreator, PayError, Payout,
    Settled, Transfer,
};
