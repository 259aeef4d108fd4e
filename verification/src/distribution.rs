//! The split of a fee among creators: what each is due, where a run stops,
//! and the transfers that it leaves to issue.

use vstd::prelude::*;
use crate::address::{assert_keys_equal, is_metadata_for_mint, metadata_address};
use crate::trusted::{decoded_metadata, read_metadata};
use crate::types::{
    Context, Creator, Errors, Key, MetadataRecord, PayError, Payout, Settled, Transfer,
};

verus! {

/// A creator's part of a fee: `share` percent of it, rounded down.
pub open spec fn creator_fee(share: u8, total_fee: u64) -> nat {
    (share as nat * total_fee as nat) / 100
}

/// The fees of the creators before position `upto`, added up.
pub open spec fn fees_before(creators: Seq<Creator>, total_fee: u64, upto: int) -> nat
    decreases upto,
{
    if upto <= 0 {
        0
    } else {
        fees_before(creators, total_fee, upto - 1) + creator_fee(creators[upto - 1].share, total_fee)
    }
}

/// What stops a run at the creator at position `at`, once the creators before
/// it have passed: its fee is more than what they left of the total fee; or
/// no account was supplied at its position; or the account supplied there is
/// not the creator's. `None` where the creator passes.
pub open spec fn failure_at(
    creators: Seq<Creator>,
    accounts: Seq<Key>,
    total_fee: u64,
    at: int,
) -> Option<PayError> {
    if fees_before(creators, total_fee, at + 1) > total_fee {
        Some(PayError::Rejected(Errors::NumericalOverflow))
    } else if at >= accounts.len() {
        Some(PayError::NotEnoughAccountKeys)
    } else if accounts[at]@ != creators[at].address@ {
        Some(PayError::Rejected(Errors::PublicKeyMismatch))
    } else {
        None
    }
}

/// The first position from `from` on at which a run stops, or the number of
/// creators where it stops at none.
pub open spec fn stop_from(
    creators: Seq<Creator>,
    accounts: Seq<Key>,
    total_fee: u64,
    from: int,
) -> int
    decreases creators.len() - from,
{
    if from >= creators.len() {
        creators.len() as int
    } else if failure_at(creators, accounts, total_fee, from).is_some() {
        from
    } else {
        stop_from(creators, accounts, total_fee, from + 1)
    }
}

/// The number of creators that pass before a run ends.
pub open spec fn passed(creators: Seq<Creator>, accounts: Seq<Key>, total_fee: u64) -> int {
    stop_from(creators, accounts, total_fee, 0)
}

/// The transfers for the creators before position `upto`, in their order: one
/// for each whose fee is positive, from the payer to the account supplied at
/// the creator's position.
pub open spec fn transfers_before(
    payer: Key,
    creators: Seq<Creator>,
    accounts: Seq<Key>,
    total_fee: u64,
    upto: int,
) -> Seq<Transfer>
    decreases upto,
{
    if upto <= 0 {
        Seq::empty()
    } else {
        let earlier = transfers_before(payer, creators, accounts, total_fee, upto - 1);
        let fee = creator_fee(creators[upto - 1].share, total_fee);
        if fee > 0 {
            earlier.push(
                Transfer {
                    from: payer,
                    to: accounts[upto - 1],
                    lamports: fee as u64,
                    position: (upto - 1) as usize,
                },
            )
        } else {
            earlier
        }
    }
}

/// The transfers that a run on `record` leaves to issue.
pub open spec fn transfers_due(
    payer: Key,
    record: Option<Seq<Creator>>,
    accounts: Seq<Key>,
    total_fee: u64,
) -> Seq<Transfer> {
    match record {
        Some(creators) => transfers_before(
            payer,
            creators,
            accounts,
            total_fee,
            passed(creators, accounts, total_fee),
        ),
        None => Seq::empty(),
    }
}

/// How a run on `record` ends: in the failure of the first creator that does
/// not pass, or well.
pub open spec fn outcome_due(record: Option<Seq<Creator>>, accounts: Seq<Key>, total_fee: u64) -> Result<
    Settled,
    PayError,
> {
    match record {
        Some(creators) => {
            let at = passed(creators, accounts, total_fee);
            match failure_at(creators, accounts, total_fee, at) {
                Some(failure) if at < creators.len() => Err(failure),
                _ => Ok(Settled::Distributed),
            }
        },
        None => Ok(Settled::NoCreators),
    }
}

/// A run that ends in `failure`, with the transfers it had come to.
fn stopped(transfers: Vec<Transfer>, failure: PayError) -> (out: Payout)
    ensures
        out.transfers == transfers,
        out.outcome == Err::<Settled, PayError>(failure),
{
    Payout { transfers, outcome: Err(failure) }
}

/// Splits `total_fee` among the creators of `record`.
///
/// The creators are taken in their recorded order, each with the account
/// supplied at its position. The run ends at the first creator that fails,
/// with that failure; the transfers returned are those of the creators before
/// it.
pub fn distribute(payer: &Key, record: &MetadataRecord, accounts: &Vec<Key>, total_fee: u64) -> (out: Payout)
    ensures
        out.transfers@ == transfers_due(*payer, record@, accounts@, total_fee),
        out.outcome == outcome_due(record@, accounts@, total_fee),
{
    let mut transfers: Vec<Transfer> = Vec::new();
    let creators = match &record.creators {
        Some(creators) => creators,
        None => {
            return Payout { transfers, outcome: Ok(Settled::NoCreators) };
        },
    };
    let mut remaining_fee: u64 = total_fee;
    let mut i: usize = 0;
    while i < creators.len()
        invariant
            record@ == Some(creators@),
            i <= creators.len(),
            remaining_fee == total_fee - fees_before(creators@, total_fee, i as int),
            passed(creators@, accounts@, total_fee) == stop_from(
                creators@,
                accounts@,
                total_fee,
                i as int,
            ),
            transfers@ == transfers_before(*payer, creators@, accounts@, total_fee, i as int),
        decreases creators.len() - i,
    {
        let creator = creators[i];
        let pct = creator.share as u128;
        let product = match pct.checked_mul(total_fee as u128) {
            Some(product) => product,
            None => {
                return stopped(transfers, PayError::Rejected(Errors::NumericalOverflow));
            },
        };
        let quotient = match product.checked_div(100) {
            Some(quotient) => quotient,
            None => {
                return stopped(transfers, PayError::Rejected(Errors::NumericalOverflow));
            },
        };
        // A share above 100 can ask for more than an amount holds.
        if quotient > u64::MAX as u128 {
            return stopped(transfers, PayError::Rejected(Errors::NumericalOverflow));
        }
        let fee = quotient as u64;
        remaining_fee = match remaining_fee.checked_sub(fee) {
            Some(left) => left,
            None => {
                return stopped(transfers, PayError::Rejected(Errors::NumericalOverflow));
            },
        };
        if i >= accounts.len() {
            return stopped(transfers, PayError::NotEnoughAccountKeys);
        }
        let account = accounts[i];
        match assert_keys_equal(creator.address, account) {
            Ok(()) => {},
            Err(rejected) => {
                return stopped(transfers, PayError::Rejected(rejected));
            },
        }
        if fee > 0 {
            transfers.push(Transfer { from: *payer, to: account, lamports: fee, position: i });
        }
        i += 1;
    }
    Payout { transfers, outcome: Ok(Settled::Distributed) }
}

/// Whether the metadata account of `ctx` can be read where it has to be: it
/// holds data, or is not at the address derived for the mint and so is never
/// read.
pub open spec fn holds_metadata(ctx: Context) -> bool {
    metadata_address(ctx.accounts.mint@) == Some(ctx.accounts.metadata@)
        ==> ctx.accounts.metadata_data@.len() > 0
}

/// How an invocation ends. The metadata account must be at the address
/// derived for the mint, else `MismatchedMetadataAddr`; its data must decode
/// as a metadata record, else the decoder's error; the record's creators are
/// then run through as `outcome_due` says.
pub open spec fn outcome_of(ctx: Context, fee: u64) -> Result<Settled, PayError> {
    if metadata_address(ctx.accounts.mint@) != Some(ctx.accounts.metadata@) {
        Err(PayError::Rejected(Errors::MismatchedMetadataAddr))
    } else {
        match decoded_metadata(ctx.accounts.metadata_data@) {
            Ok(record) => outcome_due(record, ctx.remaining_accounts@, fee),
            Err(error) => Err(PayError::Metadata(error)),
        }
    }
}

/// The transfers that an invocation leaves to issue: none unless the
/// metadata account is the mint's and decodes, and then those of the record's
/// creators, each from the payer.
pub open spec fn transfers_of(ctx: Context, fee: u64) -> Seq<Transfer> {
    if metadata_address(ctx.accounts.mint@) != Some(ctx.accounts.metadata@) {
        Seq::empty()
    } else {
        match decoded_metadata(ctx.accounts.metadata_data@) {
            Ok(record) => transfers_due(ctx.accounts.payer, record, ctx.remaining_accounts@, fee),
            Err(_) => Seq::empty(),
        }
    }
}

/// Pays the creators of the asset whose mint and metadata account `ctx`
/// names: the whole of an invocation, but for issuing the transfers.
///
/// A metadata account that is not at the address derived for the mint is
/// refused before anything is read of it, and nothing is to be transferred.
///
/// The decoder does not return on an account without data, so a metadata
/// account at the right address must hold some; `try_pay_creator` asks for
/// nothing.
pub fn pay_creator(ctx: &Context, fee: u64) -> (out: Payout)
    requires
        holds_metadata(*ctx),
    ensures
        out.transfers@ == transfers_of(*ctx, fee),
        out.outcome == outcome_of(*ctx, fee),
        metadata_address(ctx.accounts.mint@) != Some(ctx.accounts.metadata@) ==> {
            &&& out.transfers@.len() == 0
            &&& out.outcome == Err::<Settled, PayError>(
                PayError::Rejected(Errors::MismatchedMetadataAddr),
            )
        },
{
    if !is_metadata_for_mint(&ctx.accounts.mint, &ctx.accounts.metadata) {
        return Payout {
            transfers: Vec::new(),
            outcome: Err(PayError::Rejected(Errors::MismatchedMetadataAddr)),
        };
    }
    match read_metadata(ctx.accounts.metadata_data.as_slice()) {
        Ok(record) => distribute(&ctx.accounts.payer, &record, &ctx.remaining_accounts, fee),
        Err(error) => Payout { transfers: Vec::new(), outcome: Err(PayError::Metadata(error)) },
    }
}

/// `pay_creator` for any invocation: `None` where the metadata account is at
/// the address derived for the mint and holds no data, which no decoder
/// returns from.
pub fn try_pay_creator(ctx: &Context, fee: u64) -> (paid: Option<Payout>)
    ensures
        paid.is_some() == holds_metadata(*ctx),
        paid matches Some(out) ==> {
            &&& out.transfers@ == transfers_of(*ctx, fee)
            &&& out.outcome == outcome_of(*ctx, fee)
        },
{
    if ctx.accounts.metadata_data.len() == 0 && is_metadata_for_mint(
        &ctx.accounts.mint,
        &ctx.accounts.metadata,
    ) {
        None
    } else {
        Some(pay_creator(ctx, fee))
    }
}

} // verus!
