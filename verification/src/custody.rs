//! The three custody operations, each on the accounts it is handed.

use vstd::prelude::*;
use crate::collection::{create_result, CollectionState, NFTCollection};
use crate::error::Error;
use crate::identity::Identity;
use crate::ledger::{settles, Ledger};

verus! {

/// Whether a creation that answered `answer` did what `expected` says: on
/// success the place holds the expected record, on failure the error is the
/// expected one and the place is as it was.
pub open spec fn records(
    answer: Result<(), Error>,
    before: Option<NFTCollection>,
    after: Option<NFTCollection>,
    expected: Result<CollectionState, Error>,
) -> bool {
    match answer {
        Ok(()) => after is Some && after->Some_0@.wf() && expected == Ok::<CollectionState, Error>(
            after->Some_0@,
        ),
        Err(e) => after == before && expected == Err::<CollectionState, Error>(e),
    }
}

/// What a creation works on: the place of the record, empty until the
/// creation succeeds, and the creating user, who becomes the owner.
pub struct Initialize {
    pub nft_collection: Option<NFTCollection>,
    pub user: Identity,
}

impl Initialize {
    /// Creates the record, owned by the user.  Where the metadata or the
    /// image is too large, no record is created.
    pub fn initialize(
        &mut self,
        metadata: String,
        image: Vec<u8>,
        lock_fee_amount: u64,
        protocol_fee_account: Identity,
        protocol_fee_amount: u64,
        nft_mint: Identity,
        sol_amount: u64,
    ) -> (answer: Result<(), Error>)
        ensures
            final(self).user == old(self).user,
            records(
                answer,
                old(self).nft_collection,
                final(self).nft_collection,
                create_result(
                    metadata@,
                    image@,
                    old(self).user,
                    lock_fee_amount as nat,
                    protocol_fee_account,
                    protocol_fee_amount as nat,
                    nft_mint,
                    sol_amount as nat,
                ),
            ),
    {
        match NFTCollection::create(
            metadata,
            image,
            self.user,
            lock_fee_amount,
            protocol_fee_account,
            protocol_fee_amount,
            nft_mint,
            sol_amount,
        ) {
            Ok(record) => {
                self.nft_collection = Some(record);
                Ok(())
            },
            Err(e) => Err(e),
        }
    }
}

/// What a lock works on: the record, the paying user and the ledger.
pub struct LockNFT {
    pub nft_collection: NFTCollection,
    pub user: Identity,
    pub ledger: Ledger,
}

impl LockNFT {
    /// The record and the ledger are well formed.
    pub open spec fn wf(&self) -> bool {
        self.nft_collection@.wf() && self.ledger.wf()
    }

    /// Locks the collectible against the two fees, paid by the user.
    pub fn lock_nft(&mut self, lock_fee_receiver: Identity) -> (answer: Result<(), Error>)
        requires
            old(self).wf(),
        ensures
            final(self).wf(),
            final(self).user == old(self).user,
            settles(
                answer,
                (old(self).nft_collection@, old(self).ledger@),
                (final(self).nft_collection@, final(self).ledger@),
                old(self).nft_collection@.lock_result(
                    old(self).ledger@,
                    old(self).user,
                    lock_fee_receiver,
                ),
            ),
    {
        let user = self.user;
        self.nft_collection.lock(&mut self.ledger, user, lock_fee_receiver)
    }
}

/// What an unlock works on: the record, the paying user and the ledger.
pub struct UnlockNFT {
    pub nft_collection: NFTCollection,
    pub user: Identity,
    pub ledger: Ledger,
}

impl UnlockNFT {
    /// The record and the ledger are well formed.
    pub open spec fn wf(&self) -> bool {
        self.nft_collection@.wf() && self.ledger.wf()
    }

    /// Frees the collectible against the two fees, paid by the user.
    pub fn unlock_nft(&mut self, unlock_fee_receiver: Identity) -> (answer: Result<(), Error>)
        requires
            old(self).wf(),
        ensures
            final(self).wf(),
            final(self).user == old(self).user,
            settles(
                answer,
                (old(self).nft_collection@, old(self).ledger@),
                (final(self).nft_collection@, final(self).ledger@),
                old(self).nft_collection@.unlock_result(
                    old(self).ledger@,
                    old(self).user,
                    unlock_fee_receiver,
                ),
            ),
    {
        let user = self.user;
        self.nft_collection.unlock(&mut self.ledger, user, unlock_fee_receiver)
    }
}

} // verus!
