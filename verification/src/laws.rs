//! What holds of the operations, whatever the record and the ledger.

use vstd::prelude::*;
use crate::collection::{
    byte_len, create_result, fees_result, CollectionState, MAX_IMAGE_LEN, MAX_METADATA_LEN,
};
use crate::error::Error;
use crate::identity::Identity;
use crate::ledger::{settles, LedgerState};
use crate::swap::Swap;

verus! {

/// A creation whose metadata and image are within their bounds succeeds, and
/// the record it gives is well formed and not locked.
pub proof fn creation_within_bounds_is_free(
    metadata: Seq<char>,
    image: Seq<u8>,
    owner: Identity,
    lock_fee_amount: nat,
    protocol_fee_account: Identity,
    protocol_fee_amount: nat,
    nft_mint: Identity,
    sol_amount: nat,
)
    requires
        byte_len(metadata) <= MAX_METADATA_LEN,
        image.len() <= MAX_IMAGE_LEN,
    ensures
        create_result(
            metadata,
            image,
            owner,
            lock_fee_amount,
            protocol_fee_account,
            protocol_fee_amount,
            nft_mint,
            sol_amount,
        ) is Ok,
        !create_result(
            metadata,
            image,
            owner,
            lock_fee_amount,
            protocol_fee_account,
            protocol_fee_amount,
            nft_mint,
            sol_amount,
        )->Ok_0.locked,
        create_result(
            metadata,
            image,
            owner,
            lock_fee_amount,
            protocol_fee_account,
            protocol_fee_amount,
            nft_mint,
            sol_amount,
        )->Ok_0.wf(),
{
}

/// A creation whose metadata or image is over its bound is refused with
/// `PayloadTooLarge`.
pub proof fn creation_over_bounds_is_refused(
    metadata: Seq<char>,
    image: Seq<u8>,
    owner: Identity,
    lock_fee_amount: nat,
    protocol_fee_account: Identity,
    protocol_fee_amount: nat,
    nft_mint: Identity,
    sol_amount: nat,
)
    requires
        byte_len(metadata) > MAX_METADATA_LEN || image.len() > MAX_IMAGE_LEN,
    ensures
        create_result(
            metadata,
            image,
            owner,
            lock_fee_amount,
            protocol_fee_account,
            protocol_fee_amount,
            nft_mint,
            sol_amount,
        ) == Err::<CollectionState, Error>(Error::PayloadTooLarge),
{
}

/// After a successful lock the record is locked and records the receiver that
/// was passed in.
pub proof fn lock_records_receiver(
    record: CollectionState,
    ledger: LedgerState,
    caller: Identity,
    receiver: Identity,
)
    requires
        record.lock_result(ledger, caller, receiver) is Ok,
    ensures
        record.lock_result(ledger, caller, receiver)->Ok_0.0.locked,
        record.lock_result(ledger, caller, receiver)->Ok_0.0.lock_fee_account == receiver,
{
}

/// After a successful unlock the record is free and records the default
/// identity in place of a receiver.
pub proof fn unlock_clears_receiver(
    record: CollectionState,
    ledger: LedgerState,
    caller: Identity,
    receiver: Identity,
)
    requires
        record.unlock_result(ledger, caller, receiver) is Ok,
    ensures
        !record.unlock_result(ledger, caller, receiver)->Ok_0.0.locked,
        record.unlock_result(ledger, caller, receiver)->Ok_0.0.lock_fee_account.is_default(),
{
}

/// A successful lock keeps a well-formed record well formed: on a
/// well-formed ledger the receiver that was paid is never the default
/// identity.
pub proof fn lock_keeps_record_well_formed(
    record: CollectionState,
    ledger: LedgerState,
    caller: Identity,
    receiver: Identity,
)
    requires
        record.wf(),
        ledger.wf(),
        record.lock_result(ledger, caller, receiver) is Ok,
    ensures
        record.lock_result(ledger, caller, receiver)->Ok_0.0.wf(),
        record.lock_result(ledger, caller, receiver)->Ok_0.1.wf(),
{
    let held = ledger.balances[caller];
    assert(held <= u64::MAX);
}

/// A lock of a free record followed by an unlock gives the record back as it
/// was, whoever pays and whoever is paid at either step.
pub proof fn lock_then_unlock_restores_record(
    record: CollectionState,
    ledger: LedgerState,
    locker: Identity,
    lock_fee_receiver: Identity,
    unlocker: Identity,
    unlock_fee_receiver: Identity,
)
    requires
        record.wf(),
        !record.locked,
        record.lock_result(ledger, locker, lock_fee_receiver) is Ok,
        record.lock_result(ledger, locker, lock_fee_receiver)->Ok_0.0.unlock_result(
            record.lock_result(ledger, locker, lock_fee_receiver)->Ok_0.1,
            unlocker,
            unlock_fee_receiver,
        ) is Ok,
    ensures
        record.lock_result(ledger, locker, lock_fee_receiver)->Ok_0.0.unlock_result(
            record.lock_result(ledger, locker, lock_fee_receiver)->Ok_0.1,
            unlocker,
            unlock_fee_receiver,
        )->Ok_0.0 == record,
{
}

/// A lock followed by an unlock changes no field of the record but the lock
/// flag and the recorded receiver, and leaves the record free, whether or not
/// it was locked before.
pub proof fn lock_then_unlock_keeps_other_fields(
    record: CollectionState,
    ledger: LedgerState,
    locker: Identity,
    lock_fee_receiver: Identity,
    unlocker: Identity,
    unlock_fee_receiver: Identity,
)
    requires
        record.lock_result(ledger, locker, lock_fee_receiver) is Ok,
        record.lock_result(ledger, locker, lock_fee_receiver)->Ok_0.0.unlock_result(
            record.lock_result(ledger, locker, lock_fee_receiver)->Ok_0.1,
            unlocker,
            unlock_fee_receiver,
        ) is Ok,
    ensures
        record.lock_result(ledger, locker, lock_fee_receiver)->Ok_0.0.unlock_result(
            record.lock_result(ledger, locker, lock_fee_receiver)->Ok_0.1,
            unlocker,
            unlock_fee_receiver,
        )->Ok_0.0 == record.unlocked(),
{
}

/// Fees that are paid between three different parties are paid in full: the
/// payer loses both fees, the receiver gains the one and the treasury the
/// other, every other balance stays, and no collectible changes hands.
pub proof fn fees_are_paid_in_full(
    ledger: LedgerState,
    payer: Identity,
    receiver: Identity,
    treasury: Identity,
    fee: nat,
    protocol_fee: nat,
)
    requires
        payer != receiver,
        payer != treasury,
        receiver != treasury,
        fees_result(ledger, payer, receiver, treasury, fee, protocol_fee) is Ok,
    ensures
        ({
            let paid = fees_result(ledger, payer, receiver, treasury, fee, protocol_fee)->Ok_0;
            &&& paid.balances.dom() == ledger.balances.dom()
            &&& paid.balances[payer] == ledger.balances[payer] - fee - protocol_fee
            &&& paid.balances[receiver] == ledger.balances[receiver] + fee
            &&& paid.balances[treasury] == ledger.balances[treasury] + protocol_fee
            &&& forall|other: Identity|
                other != payer && other != receiver && other != treasury
                    && ledger.balances.contains_key(other) ==> #[trigger] paid.balances[other]
                    == ledger.balances[other]
            &&& paid.holders == ledger.holders
        }),
{
    let paid = fees_result(ledger, payer, receiver, treasury, fee, protocol_fee)->Ok_0;
    assert(paid.balances.dom() =~= ledger.balances.dom());
}

/// A caller that holds less than the lock fee and the protocol fee together
/// cannot lock: the lock answers `InsufficientFunds`, and neither the record
/// nor any balance changes.
pub proof fn lock_needs_both_fees(
    record: CollectionState,
    ledger: LedgerState,
    caller: Identity,
    receiver: Identity,
    answer: Result<(), Error>,
    record_after: CollectionState,
    ledger_after: LedgerState,
)
    requires
        ledger.balances.contains_key(caller),
        ledger.balances[caller] < record.lock_fee_amount + record.protocol_fee_amount,
        settles(
            answer,
            (record, ledger),
            (record_after, ledger_after),
            record.lock_result(ledger, caller, receiver),
        ),
    ensures
        answer == Err::<(), Error>(Error::InsufficientFunds),
        record_after == record,
        ledger_after == ledger,
{
}

/// A swap asked for a collectible other than the one of its record answers
/// `AssetMismatch`, and nothing moves.
pub proof fn swap_of_other_asset_is_refused(
    swap: Swap,
    ledger: LedgerState,
    asset_identity: Identity,
    amount: nat,
    buyer: Identity,
    receiving_account: Identity,
    answer: Result<(), Error>,
    ledger_after: LedgerState,
)
    requires
        swap.nft_account != asset_identity,
        settles(
            answer,
            ledger,
            ledger_after,
            swap.execute_result(ledger, asset_identity, amount, buyer, receiving_account),
        ),
    ensures
        answer == Err::<(), Error>(Error::AssetMismatch),
        ledger_after == ledger,
{
}

/// A swap of the right collectible whose buyer holds less than the amount
/// answers `InsufficientFunds`, and nothing moves.
pub proof fn swap_needs_the_amount(
    swap: Swap,
    ledger: LedgerState,
    asset_identity: Identity,
    amount: nat,
    buyer: Identity,
    receiving_account: Identity,
    answer: Result<(), Error>,
    ledger_after: LedgerState,
)
    requires
        swap.nft_account == asset_identity,
        ledger.balances.contains_key(buyer),
        ledger.balances[buyer] < amount,
        settles(
            answer,
            ledger,
            ledger_after,
            swap.execute_result(ledger, asset_identity, amount, buyer, receiving_account),
        ),
    ensures
        answer == Err::<(), Error>(Error::InsufficientFunds),
        ledger_after == ledger,
{
}

/// A swap that succeeds between a buyer and another receiving account moves
/// exactly the amount from the one to the other and hands the collectible to
/// the buyer; every other balance and every other collectible stays.
pub proof fn swap_moves_amount_and_custody(
    swap: Swap,
    ledger: LedgerState,
    asset_identity: Identity,
    amount: nat,
    buyer: Identity,
    receiving_account: Identity,
)
    requires
        buyer != receiving_account,
        swap.execute_result(ledger, asset_identity, amount, buyer, receiving_account) is Ok,
    ensures
        ({
            let done = swap.execute_result(
                ledger,
                asset_identity,
                amount,
                buyer,
                receiving_account,
            )->Ok_0;
            &&& done.balances.dom() == ledger.balances.dom()
            &&& done.balances[buyer] == ledger.balances[buyer] - amount
            &&& done.balances[receiving_account] == ledger.balances[receiving_account] + amount
            &&& forall|other: Identity|
                other != buyer && other != receiving_account && ledger.balances.contains_key(
                    other,
                ) ==> #[trigger] done.balances[other] == ledger.balances[other]
            &&& ledger.holders[asset_identity] == swap.seller
            &&& done.holders == ledger.holders.insert(asset_identity, buyer)
        }),
{
    let done = swap.execute_result(ledger, asset_identity, amount, buyer, receiving_account)->Ok_0;
    assert(done.balances.dom() =~= ledger.balances.dom());
}

} // verus!
