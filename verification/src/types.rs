//! The values that the distribution reads and returns.

use vstd::prelude::*;

verus! {

/// Number of bytes in an account address.
pub const KEY_BYTES: usize = 32;

/// An account address.
pub type Key = [u8; 32];

/// The failures that the distribution itself reports.
#[derive(Clone, Copy, Debug, PartialEq, Eq, Structural)]
pub enum Errors {
    /// The metadata account is not the one derived for the mint.
    MismatchedMetadataAddr,
    /// A creator's fee is more than what is left of the total fee.
    NumericalOverflow,
    /// A supplied creator account is not the creator recorded at that position.
    PublicKeyMismatch,
}

/// Every way in which a run can fail.
#[derive(Debug, PartialEq, Eq)]
pub enum PayError {
    /// One of the distribution's own failures.
    Rejected(Errors),
    /// A creator is recorded for whom no account was supplied.
    NotEnoughAccountKeys,
    /// The metadata account's data is no metadata record; the decoder's error
    /// is carried as it came.
    Metadata(solana_program::program_error::ProgramError),
}

/// One creator of an asset, as its metadata records it.
#[derive(Clone, Copy, Debug, PartialEq, Eq)]
pub struct Creator {
    /// Where this creator is paid.
    pub address: Key,
    /// The creator's part of a fee, in percent.
    pub share: u8,
}

/// What the distribution reads of a metadata record: the creators in their
/// recorded order, or `None` where the record names none.
#[derive(Debug, PartialEq, Eq)]
pub struct MetadataRecord {
    /// The creators, in the order in which the record lists them.
    pub creators: Option<Vec<Creator>>,
}

impl View for MetadataRecord {
    type V = Option<Seq<Creator>>;

    open spec fn view(&self) -> Option<Seq<Creator>> {
        match self.creators {
            Some(list) => Some(list@),
            None => None,
        }
    }
}

/// One transfer of native value that the caller is to issue.
#[derive(Clone, Copy, Debug, PartialEq, Eq)]
pub struct Transfer {
    /// The account that pays.
    pub from: Key,
    /// The account that receives.
    pub to: Key,
    /// The amount, in the smallest unit.
    pub lamports: u64,
    /// The creator's place in the metadata, which is also the place of the
    /// receiving account among the accounts supplied.
    pub position: usize,
}

/// How a run that did not fail ended.
#[derive(Clone, Copy, Debug, PartialEq, Eq, Structural)]
pub enum Settled {
    /// The metadata names no creators: nothing was to be paid.
    NoCreators,
    /// Every creator was checked and, where its fee is positive, paid.
    Distributed,
}

/// The result of a run: the transfers to issue, in order, and how it ended.
///
/// A failure ends the run at the creator where it was found, so `transfers`
/// then holds what was due to the creators before that one. The ledger
/// commits all of an invocation or nothing, so a caller that issues them and
/// then reports the failure leaves no transfer behind.
#[derive(Debug, PartialEq, Eq)]
pub struct Payout {
    /// The transfers due until the run ended, in the creators' order.
    pub transfers: Vec<Transfer>,
    /// How the run ended.
    pub outcome: Result<Settled, PayError>,
}

/// The accounts of an empty instruction.
#[derive(Clone, Copy, Debug, PartialEq, Eq)]
pub struct Initialize {}

/// The accounts of a payment, as far as the distribution reads them. That
/// the payer has signed is for the host to see to before a run.
#[derive(Debug, PartialEq, Eq)]
pub struct PayCreator {
    /// The address of the account that funds every transfer.
    pub payer: Key,
    /// The address of the asset's mint.
    pub mint: Key,
    /// The address of the metadata account supplied.
    pub metadata: Key,
    /// The data held in that account.
    pub metadata_data: Vec<u8>,
}

/// What an invocation brings: its named accounts, and the addresses of the
/// creator accounts supplied after them.
#[derive(Debug, PartialEq, Eq)]
pub struct Context {
    /// The accounts that the instruction names.
    pub accounts: PayCreator,
    /// The addresses of the creator accounts supplied, in the order given.
    pub remaining_accounts: Vec<Key>,
}

} // verus!
