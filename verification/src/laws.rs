//! What holds of every distribution.

use vstd::prelude::*;
use vstd::arithmetic::div_mod::lemma_fundamental_div_mod;
use crate::distribution::{
    creator_fee, failure_at, fees_before, outcome_due, passed, stop_from, transfers_before,
    transfers_due,
};
use crate::types::{Creator, Errors, Key, PayError, Settled, Transfer};

verus! {

/// The shares of the creators before position `upto`, added up.
pub open spec fn shares_before(creators: Seq<Creator>, upto: int) -> nat
    decreases upto,
{
    if upto <= 0 {
        0
    } else {
        shares_before(creators, upto - 1) + creators[upto - 1].share as nat
    }
}

/// What rounding down takes from the creators before position `upto`, in
/// hundredths of the smallest unit.
pub open spec fn rounding_before(creators: Seq<Creator>, total_fee: u64, upto: int) -> nat
    decreases upto,
{
    if upto <= 0 {
        0
    } else {
        rounding_before(creators, total_fee, upto - 1) + (creators[upto - 1].share as nat
            * total_fee as nat) % 100
    }
}

/// The amounts of a list of transfers, added up.
pub open spec fn amount_total(transfers: Seq<Transfer>) -> nat
    decreases transfers.len(),
{
    if transfers.len() == 0 {
        0
    } else {
        amount_total(transfers.drop_last()) + transfers.last().lamports as nat
    }
}

/// Every creator has an account at its position, and it is the creator's.
pub open spec fn accounts_match(creators: Seq<Creator>, accounts: Seq<Key>) -> bool {
    &&& creators.len() <= accounts.len()
    &&& forall|i: int| 0 <= i < creators.len() ==> accounts[i]@ == (#[trigger] creators[i]).address@
}

/// The fees added up never get less as more creators are taken in.
proof fn lemma_fees_grow(creators: Seq<Creator>, total_fee: u64, lower: int, upper: int)
    requires
        lower <= upper,
    ensures
        fees_before(creators, total_fee, lower) <= fees_before(creators, total_fee, upper),
    decreases upper - lower,
{
    if lower < upper {
        lemma_fees_grow(creators, total_fee, lower, upper - 1);
    }
}

/// A hundred times the fees, and what rounding took, make the total fee
/// times the shares.
proof fn lemma_fees_and_shares(creators: Seq<Creator>, total_fee: u64, upto: int)
    ensures
        100 * fees_before(creators, total_fee, upto) + rounding_before(creators, total_fee, upto)
            == total_fee * shares_before(creators, upto),
        upto >= 0 ==> rounding_before(creators, total_fee, upto) <= 99 * upto,
    decreases upto,
{
    if upto > 0 {
        lemma_fees_and_shares(creators, total_fee, upto - 1);
        let share = creators[upto - 1].share as nat;
        let earlier = shares_before(creators, upto - 1);
        lemma_fundamental_div_mod((share * total_fee as nat) as int, 100);
        assert(total_fee * (earlier + share) == total_fee * earlier + share * total_fee)
            by (nonlinear_arith);
    } else {
        assert(total_fee * 0 == 0);
    }
}

/// As long as the fees fit in the total fee, the transfers carry just them.
proof fn lemma_amounts_are_fees(
    payer: Key,
    creators: Seq<Creator>,
    accounts: Seq<Key>,
    total_fee: u64,
    upto: int,
)
    requires
        fees_before(creators, total_fee, upto) <= total_fee,
    ensures
        amount_total(transfers_before(payer, creators, accounts, total_fee, upto)) == fees_before(
            creators,
            total_fee,
            upto,
        ),
    decreases upto,
{
    if upto > 0 {
        lemma_fees_grow(creators, total_fee, upto - 1, upto);
        lemma_amounts_are_fees(payer, creators, accounts, total_fee, upto - 1);
        if creator_fee(creators[upto - 1].share, total_fee) > 0 {
            assert(transfers_before(payer, creators, accounts, total_fee, upto).drop_last()
                =~= transfers_before(payer, creators, accounts, total_fee, upto - 1));
        }
    }
}

/// As long as the fees fit in the total fee, each transfer is one creator's.
proof fn lemma_transfer_is_a_fee(
    payer: Key,
    creators: Seq<Creator>,
    accounts: Seq<Key>,
    total_fee: u64,
    upto: int,
    j: int,
)
    requires
        upto <= usize::MAX,
        fees_before(creators, total_fee, upto) <= total_fee,
        0 <= j < transfers_before(payer, creators, accounts, total_fee, upto).len(),
    ensures
        ({
            let transfer = transfers_before(payer, creators, accounts, total_fee, upto)[j];
            &&& 0 <= transfer.position < upto
            &&& transfer.from == payer
            &&& transfer.to == accounts[transfer.position as int]
            &&& transfer.lamports == creator_fee(
                creators[transfer.position as int].share,
                total_fee,
            )
            &&& transfer.lamports > 0
        }),
    decreases upto,
{
    if upto > 0 {
        lemma_fees_grow(creators, total_fee, upto - 1, upto);
        if j < transfers_before(payer, creators, accounts, total_fee, upto - 1).len() {
            lemma_transfer_is_a_fee(payer, creators, accounts, total_fee, upto - 1, j);
        }
    }
}

/// A run from `from` on stops at `at` where nothing fails before `at` and
/// something does at `at`, or `at` is the end.
proof fn lemma_stops_at_first_failure(
    creators: Seq<Creator>,
    accounts: Seq<Key>,
    total_fee: u64,
    from: int,
    at: int,
)
    requires
        0 <= from <= at <= creators.len(),
        forall|i: int| from <= i < at ==> failure_at(creators, accounts, total_fee, i).is_none(),
        at < creators.len() ==> failure_at(creators, accounts, total_fee, at).is_some(),
    ensures
        stop_from(creators, accounts, total_fee, from) == at,
    decreases at - from,
{
    if from < at {
        lemma_stops_at_first_failure(creators, accounts, total_fee, from + 1, at);
    }
}

/// Where a run from `from` on stops, something fails or the creators end,
/// and nothing fails before.
proof fn lemma_nothing_fails_before_the_stop(
    creators: Seq<Creator>,
    accounts: Seq<Key>,
    total_fee: u64,
    from: int,
)
    requires
        0 <= from <= creators.len(),
    ensures
        ({
            let at = stop_from(creators, accounts, total_fee, from);
            &&& from <= at <= creators.len()
            &&& forall|i: int|
                from <= i < at ==> failure_at(creators, accounts, total_fee, i).is_none()
            &&& at < creators.len() ==> failure_at(creators, accounts, total_fee, at).is_some()
        }),
    decreases creators.len() - from,
{
    if from < creators.len() && failure_at(creators, accounts, total_fee, from).is_none() {
        lemma_nothing_fails_before_the_stop(creators, accounts, total_fee, from + 1);
    }
}

/// A run ends at the first creator that fails: every creator before position
/// `passed` passes, and where `passed` is less than the number of creators,
/// the creator there does not. What is due until then is within the total
/// fee.
pub proof fn law_run_ends_at_first_failure(
    creators: Seq<Creator>,
    accounts: Seq<Key>,
    total_fee: u64,
)
    ensures
        ({
            let at = passed(creators, accounts, total_fee);
            &&& 0 <= at <= creators.len()
            &&& forall|i: int|
                0 <= i < at ==> failure_at(creators, accounts, total_fee, i).is_none()
            &&& at < creators.len() ==> failure_at(creators, accounts, total_fee, at).is_some()
            &&& fees_before(creators, total_fee, at) <= total_fee
        }),
{
    lemma_nothing_fails_before_the_stop(creators, accounts, total_fee, 0);
    let at = passed(creators, accounts, total_fee);
    if at > 0 {
        assert(failure_at(creators, accounts, total_fee, at - 1).is_none());
    }
}

/// The transfers of a run add up to the fees of the creators that passed,
/// and never to more than the total fee.
pub proof fn law_transfers_add_up_to_fees(
    payer: Key,
    creators: Seq<Creator>,
    accounts: Seq<Key>,
    total_fee: u64,
)
    ensures
        amount_total(transfers_due(payer, Some(creators), accounts, total_fee)) == fees_before(
            creators,
            total_fee,
            passed(creators, accounts, total_fee),
        ),
        amount_total(transfers_due(payer, Some(creators), accounts, total_fee)) <= total_fee,
{
    law_run_ends_at_first_failure(creators, accounts, total_fee);
    lemma_amounts_are_fees(
        payer,
        creators,
        accounts,
        total_fee,
        passed(creators, accounts, total_fee),
    );
}

/// Each transfer of a run is for one creator that passed: from the payer, to
/// the account supplied at the creator's position, which is the creator's
/// own, and of the creator's fee. That fee is positive, and so is the
/// creator's share.
pub proof fn law_transfer_pays_a_creator(
    payer: Key,
    creators: Seq<Creator>,
    accounts: Seq<Key>,
    total_fee: u64,
    j: int,
)
    requires
        creators.len() <= usize::MAX,
        0 <= j < transfers_due(payer, Some(creators), accounts, total_fee).len(),
    ensures
        ({
            let transfer = transfers_due(payer, Some(creators), accounts, total_fee)[j];
            let creator = creators[transfer.position as int];
            &&& 0 <= transfer.position < passed(creators, accounts, total_fee)
            &&& transfer.from == payer
            &&& transfer.to == accounts[transfer.position as int]
            &&& transfer.to@ == creator.address@
            &&& transfer.lamports == creator_fee(creator.share, total_fee)
            &&& transfer.lamports > 0
            &&& creator.share > 0
        }),
{
    law_run_ends_at_first_failure(creators, accounts, total_fee);
    lemma_transfer_is_a_fee(
        payer,
        creators,
        accounts,
        total_fee,
        passed(creators, accounts, total_fee),
        j,
    );
    let transfer = transfers_due(payer, Some(creators), accounts, total_fee)[j];
    assert(failure_at(creators, accounts, total_fee, transfer.position as int).is_none());
    let share = creators[transfer.position as int].share;
    assert(share == 0 ==> share as nat * total_fee as nat == 0) by (nonlinear_arith);
}

/// Creators whose shares add up to 100 or less never bring a run to
/// `NumericalOverflow`: their fees add up to the total fee or less.
pub proof fn law_shares_within_hundred_never_overflow(
    creators: Seq<Creator>,
    accounts: Seq<Key>,
    total_fee: u64,
)
    requires
        shares_before(creators, creators.len() as int) <= 100,
    ensures
        fees_before(creators, total_fee, creators.len() as int) <= total_fee,
        outcome_due(Some(creators), accounts, total_fee) != Err::<Settled, PayError>(
            PayError::Rejected(Errors::NumericalOverflow),
        ),
{
    let len = creators.len() as int;
    let shares = shares_before(creators, len);
    lemma_fees_and_shares(creators, total_fee, len);
    assert(total_fee * shares <= total_fee * 100) by (nonlinear_arith)
        requires
            shares <= 100,
    ;
    law_run_ends_at_first_failure(creators, accounts, total_fee);
    let at = passed(creators, accounts, total_fee);
    if at < len {
        lemma_fees_grow(creators, total_fee, at + 1, len);
    }
}

/// Where the shares add up to 100 and every creator has its account, the run
/// succeeds, and its transfers add up to the total fee less what rounding
/// down took. That rest is a whole amount smaller than the number of
/// creators; no transfer carries it.
pub proof fn law_full_shares_pay_all_but_rounding(
    payer: Key,
    creators: Seq<Creator>,
    accounts: Seq<Key>,
    total_fee: u64,
)
    requires
        shares_before(creators, creators.len() as int) == 100,
        accounts_match(creators, accounts),
    ensures
        ({
            let rounding = rounding_before(creators, total_fee, creators.len() as int);
            let paid = amount_total(transfers_due(payer, Some(creators), accounts, total_fee));
            &&& outcome_due(Some(creators), accounts, total_fee) == Ok::<Settled, PayError>(
                Settled::Distributed,
            )
            &&& rounding % 100 == 0
            &&& rounding / 100 < creators.len()
            &&& paid == total_fee - rounding / 100
        }),
{
    let len = creators.len() as int;
    law_shares_within_hundred_never_overflow(creators, accounts, total_fee);
    assert forall|i: int| 0 <= i < len implies failure_at(
        creators,
        accounts,
        total_fee,
        i,
    ).is_none() by {
        lemma_fees_grow(creators, total_fee, i + 1, len);
    }
    lemma_stops_at_first_failure(creators, accounts, total_fee, 0, len);
    law_transfers_add_up_to_fees(payer, creators, accounts, total_fee);
    lemma_fees_and_shares(creators, total_fee, len);
}

/// Creators whose shares add up to more than 100 bring a run to
/// `NumericalOverflow` where their fees add up to more than the total fee,
/// and every creator whose fee still fits has its own account. The run then
/// ends before it has passed every creator; the transfers until then stay
/// within the total fee.
pub proof fn law_over_allocation_fails(
    payer: Key,
    creators: Seq<Creator>,
    accounts: Seq<Key>,
    total_fee: u64,
)
    requires
        shares_before(creators, creators.len() as int) > 100,
        fees_before(creators, total_fee, creators.len() as int) > total_fee,
        forall|i: int|
            0 <= i < creators.len() && fees_before(creators, total_fee, i + 1) <= total_fee ==> i
                < accounts.len() && accounts[i]@ == (#[trigger] creators[i]).address@,
    ensures
        outcome_due(Some(creators), accounts, total_fee) == Err::<Settled, PayError>(
            PayError::Rejected(Errors::NumericalOverflow),
        ),
        passed(creators, accounts, total_fee) < creators.len(),
        amount_total(transfers_due(payer, Some(creators), accounts, total_fee)) <= total_fee,
{
    law_run_ends_at_first_failure(creators, accounts, total_fee);
    law_transfers_add_up_to_fees(payer, creators, accounts, total_fee);
}

/// A supplied account that is not the creator's ends the run in
/// `PublicKeyMismatch` at whatever position it stands, first, last or
/// between, where the creators before it pass and the creator's own fee is
/// within what they left. The transfers are those of the creators before.
pub proof fn law_mismatch_fails_at_any_position(
    payer: Key,
    creators: Seq<Creator>,
    accounts: Seq<Key>,
    total_fee: u64,
    at: int,
)
    requires
        0 <= at < creators.len(),
        at < accounts.len(),
        accounts[at]@ != creators[at].address@,
        forall|i: int| 0 <= i < at ==> failure_at(creators, accounts, total_fee, i).is_none(),
        fees_before(creators, total_fee, at + 1) <= total_fee,
    ensures
        passed(creators, accounts, total_fee) == at,
        outcome_due(Some(creators), accounts, total_fee) == Err::<Settled, PayError>(
            PayError::Rejected(Errors::PublicKeyMismatch),
        ),
        transfers_due(payer, Some(creators), accounts, total_fee) == transfers_before(
            payer,
            creators,
            accounts,
            total_fee,
            at,
        ),
{
    lemma_stops_at_first_failure(creators, accounts, total_fee, 0, at);
}

/// A creator whose share is 0 gets no transfer, and its account is checked
/// all the same: supplied with an account that is not its own, the run
/// fails, and fails in `PublicKeyMismatch` where the creators before it pass.
pub proof fn law_zero_share_is_checked_not_paid(
    payer: Key,
    creators: Seq<Creator>,
    accounts: Seq<Key>,
    total_fee: u64,
    at: int,
)
    requires
        creators.len() <= usize::MAX,
        0 <= at < creators.len(),
        creators[at].share == 0,
    ensures
        forall|j: int|
            #![trigger transfers_due(payer, Some(creators), accounts, total_fee)[j]]
            0 <= j < transfers_due(payer, Some(creators), accounts, total_fee).len()
                ==> transfers_due(payer, Some(creators), accounts, total_fee)[j].position != at,
        at < accounts.len() && accounts[at]@ != creators[at].address@ ==> {
            let stop = passed(creators, accounts, total_fee);
            let outcome = outcome_due(Some(creators), accounts, total_fee);
            &&& outcome.is_err()
            &&& stop <= at
            &&& stop == at ==> outcome == Err::<Settled, PayError>(
                PayError::Rejected(Errors::PublicKeyMismatch),
            )
        },
{
    assert forall|j: int|
        #![trigger transfers_due(payer, Some(creators), accounts, total_fee)[j]]
        0 <= j < transfers_due(payer, Some(creators), accounts, total_fee).len()
            implies transfers_due(payer, Some(creators), accounts, total_fee)[j].position
        != at by {
        law_transfer_pays_a_creator(payer, creators, accounts, total_fee, j);
    }
    law_run_ends_at_first_failure(creators, accounts, total_fee);
    if at < accounts.len() && accounts[at]@ != creators[at].address@ {
        if passed(creators, accounts, total_fee) > at {
            assert(failure_at(creators, accounts, total_fee, at).is_none());
        }
    }
}

} // verus!
