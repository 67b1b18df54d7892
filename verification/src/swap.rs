//! The exchange of a collectible for a settlement amount.

use vstd::prelude::*;
use crate::error::Error;
use crate::identity::Identity;
use crate::ledger::{settles, Ledger, LedgerState};

verus! {

/// A prepared exchange: which collectible is on offer, who holds it, and
/// where the seller wishes to be paid.  Executing a swap reads the first two;
/// the payment goes to the account that the execution names.
#[derive(Clone, Copy, Debug)]
pub struct Swap {
    pub nft_account: Identity,
    pub seller: Identity,
    pub seller_receiving_account: Identity,
}

impl Swap {
    /// Executing the swap for `buyer`: `amount` moves from the buyer to
    /// `receiving_account`, then the collectible moves from the seller's
    /// custody into the buyer's.
    ///
    /// Refused with `AssetMismatch` where `asset_identity` is not the
    /// collectible of the record; else with the error of the payment, if it
    /// cannot be made; else with the error of the handover, if that cannot be
    /// made.
    pub open spec fn execute_result(
        self,
        ledger: LedgerState,
        asset_identity: Identity,
        amount: nat,
        buyer: Identity,
        receiving_account: Identity,
    ) -> Result<LedgerState, Error> {
        if self.nft_account != asset_identity {
            Err(Error::AssetMismatch)
        } else {
            match ledger.transfer_result(buyer, receiving_account, amount) {
                Err(e) => Err(e),
                Ok(paid) => paid.transfer_asset_result(asset_identity, self.seller, buyer),
            }
        }
    }

    /// Executes the swap: payment and handover both happen, or neither.
    pub fn execute(
        &self,
        ledger: &mut Ledger,
        asset_identity: Identity,
        amount: u64,
        buyer_balance_account: Identity,
        seller_receiving_account: Identity,
    ) -> (answer: Result<(), Error>)
        requires
            old(ledger).wf(),
        ensures
            final(ledger).wf(),
            settles(
                answer,
                old(ledger)@,
                final(ledger)@,
                self.execute_result(
                    old(ledger)@,
                    asset_identity,
                    amount as nat,
                    buyer_balance_account,
                    seller_receiving_account,
                ),
            ),
    {
        if self.nft_account != asset_identity {
            return Err(Error::AssetMismatch);
        }
        proof {
            ledger.lemma_view_wf();
        }
        let ghost before = ledger@;
        match ledger.transfer(buyer_balance_account, seller_receiving_account, amount) {
            Ok(()) => {},
            Err(e) => {
                return Err(e);
            },
        }
        match ledger.transfer_asset(asset_identity, self.seller, buyer_balance_account) {
            Ok(()) => Ok(()),
            Err(e) => {
                ledger.revert_transfer(
                    buyer_balance_account,
                    seller_receiving_account,
                    amount,
                    Ghost(before),
                );
                Err(e)
            },
        }
    }
}

/// What an execution of a swap works on: the record, the buyer's paying
/// account, the account that is paid, and the ledger.
pub struct ExecuteSwap {
    pub swap: Swap,
    pub sol_account: Identity,
    pub sol_receiver_account: Identity,
    pub ledger: Ledger,
}

impl ExecuteSwap {
    /// Executes the swap of the collectible `nft_mint` for `sol_amount`.
    pub fn execute(&mut self, nft_mint: Identity, sol_amount: u64) -> (answer: Result<(), Error>)
        requires
            old(self).ledger.wf(),
        ensures
            final(self).ledger.wf(),
            final(self).swap == old(self).swap,
            final(self).sol_account == old(self).sol_account,
            final(self).sol_receiver_account == old(self).sol_receiver_account,
            settles(
                answer,
                old(self).ledger@,
                final(self).ledger@,
                old(self).swap.execute_result(
                    old(self).ledger@,
                    nft_mint,
                    sol_amount as nat,
                    old(self).sol_account,
                    old(self).sol_receiver_account,
                ),
            ),
    {
        let swap = self.swap;
        swap.execute(
            &mut self.ledger,
            nft_mint,
            sol_amount,
            self.sol_account,
            self.sol_receiver_account,
        )
    }
}

} // verus!
