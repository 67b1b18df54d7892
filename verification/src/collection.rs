//! The collection record and the fees that guard its lock.

use vstd::prelude::*;
use crate::error::Error;
use crate::identity::Identity;
use crate::ledger::{settles, Ledger, LedgerState};

verus! {

/// The most bytes that the metadata of a record may take.
pub const MAX_METADATA_LEN: usize = 1920;

/// The most bytes that the image of a record may take.
pub const MAX_IMAGE_LEN: usize = 8192;

/// The number of bytes that a text takes when stored.
pub open spec fn byte_len(text: Seq<char>) -> nat {
    vstd::utf8::encode_utf8(text).len()
}

/// What a collection record says.
pub struct CollectionState {
    pub metadata: Seq<char>,
    pub image: Seq<u8>,
    pub owner: Identity,
    pub locked: bool,
    pub lock_fee_account: Identity,
    pub lock_fee_amount: nat,
    pub protocol_fee_account: Identity,
    pub protocol_fee_amount: nat,
    pub nft_mint: Identity,
    pub sol_amount: nat,
}

impl CollectionState {
    /// The payloads are within their bounds, and a fee receiver is recorded
    /// exactly while the collectible is locked.
    pub open spec fn wf(self) -> bool {
        &&& byte_len(self.metadata) <= MAX_METADATA_LEN
        &&& self.image.len() <= MAX_IMAGE_LEN
        &&& self.locked <==> !self.lock_fee_account.is_default()
    }

    /// The record with the collectible locked and `receiver` recorded as the
    /// party that was paid for it.
    pub open spec fn locked_by(self, receiver: Identity) -> CollectionState {
        CollectionState { locked: true, lock_fee_account: receiver, ..self }
    }

    /// The record with the collectible free and no fee receiver recorded.
    pub open spec fn unlocked(self) -> CollectionState {
        CollectionState { locked: false, lock_fee_account: Identity::spec_default(), ..self }
    }

    /// Locking on behalf of `caller`: the fees are paid to `receiver` and to
    /// the protocol treasury, and the record is locked; or nothing happens.
    pub open spec fn lock_result(
        self,
        ledger: LedgerState,
        caller: Identity,
        receiver: Identity,
    ) -> Result<(CollectionState, LedgerState), Error> {
        match fees_result(
            ledger,
            caller,
            receiver,
            self.protocol_fee_account,
            self.lock_fee_amount,
            self.protocol_fee_amount,
        ) {
            Ok(paid) => Ok((self.locked_by(receiver), paid)),
            Err(e) => Err(e),
        }
    }

    /// Unlocking on behalf of `caller`: the same fees are paid to `receiver`
    /// and to the protocol treasury, and the record is freed; or nothing
    /// happens.
    pub open spec fn unlock_result(
        self,
        ledger: LedgerState,
        caller: Identity,
        receiver: Identity,
    ) -> Result<(CollectionState, LedgerState), Error> {
        match fees_result(
            ledger,
            caller,
            receiver,
            self.protocol_fee_account,
            self.lock_fee_amount,
            self.protocol_fee_amount,
        ) {
            Ok(paid) => Ok((self.unlocked(), paid)),
            Err(e) => Err(e),
        }
    }
}

/// The record that a creation with these inputs gives.  It is free, with no
/// fee receiver recorded.  Creation is refused with `PayloadTooLarge` where
/// the metadata or the image is over its bound.
pub open spec fn create_result(
    metadata: Seq<char>,
    image: Seq<u8>,
    owner: Identity,
    lock_fee_amount: nat,
    protocol_fee_account: Identity,
    protocol_fee_amount: nat,
    nft_mint: Identity,
    sol_amount: nat,
) -> Result<CollectionState, Error> {
    if byte_len(metadata) > MAX_METADATA_LEN || image.len() > MAX_IMAGE_LEN {
        Err(Error::PayloadTooLarge)
    } else {
        Ok(
            CollectionState {
                metadata,
                image,
                owner,
                locked: false,
                lock_fee_account: Identity::spec_default(),
                lock_fee_amount,
                protocol_fee_account,
                protocol_fee_amount,
                nft_mint,
                sol_amount,
            },
        )
    }
}

/// Paying the two fees of a lock or an unlock: first `fee` from `payer` to
/// `receiver`, then `protocol_fee` from `payer` to `treasury`.
///
/// A payer that holds less than both fees together is refused with
/// `InsufficientFunds`.  A payer without an account, and any other reason for
/// which one of the two transfers cannot be made, gives `TransferFailed`.
pub open spec fn fees_result(
    ledger: LedgerState,
    payer: Identity,
    receiver: Identity,
    treasury: Identity,
    fee: nat,
    protocol_fee: nat,
) -> Result<LedgerState, Error> {
    if !ledger.balances.contains_key(payer) {
        Err(Error::TransferFailed)
    } else if ledger.balances[payer] < fee + protocol_fee {
        Err(Error::InsufficientFunds)
    } else {
        match ledger.transfer_result(payer, receiver, fee) {
            Err(_) => Err(Error::TransferFailed),
            Ok(paid) => match paid.transfer_result(payer, treasury, protocol_fee) {
                Err(_) => Err(Error::TransferFailed),
                Ok(done) => Ok(done),
            },
        }
    }
}

/// Pays the two fees of a lock or an unlock, both or neither.
pub fn collect_fees(
    ledger: &mut Ledger,
    payer: Identity,
    receiver: Identity,
    treasury: Identity,
    fee: u64,
    protocol_fee: u64,
) -> (answer: Result<(), Error>)
    requires
        old(ledger).wf(),
    ensures
        final(ledger).wf(),
        settles(
            answer,
            old(ledger)@,
            final(ledger)@,
            fees_result(
                old(ledger)@,
                payer,
                receiver,
                treasury,
                fee as nat,
                protocol_fee as nat,
            ),
        ),
{
    proof {
        ledger.lemma_view_wf();
    }
    let held: u64 = match ledger.balance_of(payer) {
        Some(held) => held,
        None => {
            return Err(Error::TransferFailed);
        },
    };
    if fee > u64::MAX - protocol_fee || held < fee + protocol_fee {
        return Err(Error::InsufficientFunds);
    }
    let ghost before = ledger@;
    if ledger.transfer(payer, receiver, fee).is_err() {
        return Err(Error::TransferFailed);
    }
    if ledger.transfer(payer, treasury, protocol_fee).is_err() {
        ledger.revert_transfer(payer, receiver, fee, Ghost(before));
        return Err(Error::TransferFailed);
    }
    Ok(())
}

/// The record of one collectible: its payloads, its owner, its fees and
/// whether it is locked.
#[derive(Debug)]
pub struct NFTCollection {
    pub metadata: String,
    pub image: Vec<u8>,
    pub owner: Identity,
    pub locked: bool,
    pub lock_fee_account: Identity,
    pub lock_fee_amount: u64,
    pub protocol_fee_account: Identity,
    pub protocol_fee_amount: u64,
    pub nft_mint: Identity,
    pub sol_amount: u64,
}

impl View for NFTCollection {
    type V = CollectionState;

    open spec fn view(&self) -> CollectionState {
        CollectionState {
            metadata: self.metadata@,
            image: self.image@,
            owner: self.owner,
            locked: self.locked,
            lock_fee_account: self.lock_fee_account,
            lock_fee_amount: self.lock_fee_amount as nat,
            protocol_fee_account: self.protocol_fee_account,
            protocol_fee_amount: self.protocol_fee_amount as nat,
            nft_mint: self.nft_mint,
            sol_amount: self.sol_amount as nat,
        }
    }
}

impl NFTCollection {
    /// Creates the record of a collectible.  No fee is charged.
    pub fn create(
        metadata: String,
        image: Vec<u8>,
        owner: Identity,
        lock_fee_amount: u64,
        protocol_fee_account: Identity,
        protocol_fee_amount: u64,
        nft_mint: Identity,
        sol_amount: u64,
    ) -> (created: Result<NFTCollection, Error>)
        ensures
            match created {
                Ok(record) => record@.wf() && create_result(
                    metadata@,
                    image@,
                    owner,
                    lock_fee_amount as nat,
                    protocol_fee_account,
                    protocol_fee_amount as nat,
                    nft_mint,
                    sol_amount as nat,
                ) == Ok::<CollectionState, Error>(record@),
                Err(e) => create_result(
                    metadata@,
                    image@,
                    owner,
                    lock_fee_amount as nat,
                    protocol_fee_account,
                    protocol_fee_amount as nat,
                    nft_mint,
                    sol_amount as nat,
                ) == Err::<CollectionState, Error>(e),
            },
    {
        if metadata.as_str().as_bytes().len() > MAX_METADATA_LEN || image.len() > MAX_IMAGE_LEN {
            return Err(Error::PayloadTooLarge);
        }
        Ok(
            NFTCollection {
                metadata,
                image,
                owner,
                locked: false,
                lock_fee_account: Identity::default(),
                lock_fee_amount,
                protocol_fee_account,
                protocol_fee_amount,
                nft_mint,
                sol_amount,
            },
        )
    }

    /// Decides whether the record is well formed: the payloads are within
    /// their bounds and a fee receiver is recorded exactly while the
    /// collectible is locked.
    pub fn is_well_formed(&self) -> (ok: bool)
        ensures
            ok == self@.wf(),
    {
        let named = !self.lock_fee_account.is_nobody();
        self.metadata.as_str().as_bytes().len() <= MAX_METADATA_LEN && self.image.len()
            <= MAX_IMAGE_LEN && self.locked == named
    }

    /// Locks the collectible: `caller` pays the lock fee to
    /// `lock_fee_receiver` and the protocol fee to the treasury.  A record
    /// that is locked already is locked again, at the same price.
    pub fn lock(
        &mut self,
        ledger: &mut Ledger,
        caller: Identity,
        lock_fee_receiver: Identity,
    ) -> (answer: Result<(), Error>)
        requires
            old(self)@.wf(),
            old(ledger).wf(),
        ensures
            final(self)@.wf(),
            final(ledger).wf(),
            settles(
                answer,
                (old(self)@, old(ledger)@),
                (final(self)@, final(ledger)@),
                old(self)@.lock_result(old(ledger)@, caller, lock_fee_receiver),
            ),
    {
        proof {
            ledger.lemma_view_wf();
        }
        match collect_fees(
            ledger,
            caller,
            lock_fee_receiver,
            self.protocol_fee_account,
            self.lock_fee_amount,
            self.protocol_fee_amount,
        ) {
            Ok(()) => {
                self.locked = true;
                self.lock_fee_account = lock_fee_receiver;
                Ok(())
            },
            Err(e) => Err(e),
        }
    }

    /// Unlocks the collectible: `caller` pays the lock fee to
    /// `unlock_fee_receiver`, which need not be the party recorded at the
    /// lock, and the protocol fee to the treasury.
    pub fn unlock(
        &mut self,
        ledger: &mut Ledger,
        caller: Identity,
        unlock_fee_receiver: Identity,
    ) -> (answer: Result<(), Error>)
        requires
            old(self)@.wf(),
            old(ledger).wf(),
        ensures
            final(self)@.wf(),
            final(ledger).wf(),
            settles(
                answer,
                (old(self)@, old(ledger)@),
                (final(self)@, final(ledger)@),
                old(self)@.unlock_result(old(ledger)@, caller, unlock_fee_receiver),
            ),
    {
        match collect_fees(
            ledger,
            caller,
            unlock_fee_receiver,
            self.protocol_fee_account,
            self.lock_fee_amount,
            self.protocol_fee_amount,
        ) {
            Ok(()) => {
                self.locked = false;
                self.lock_fee_account = Identity::default();
                Ok(())
            },
            Err(e) => Err(e),
        }
    }
}

} // verus!
