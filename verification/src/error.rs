//! The ways in which an operation can fail.

use vstd::prelude::*;

verus! {

/// Why an operation was refused.  A refused operation changes nothing.
#[derive(Clone, Copy, Debug, PartialEq, Eq, Structural)]
pub enum Error {
    /// The metadata or the image is longer than a record may hold.
    PayloadTooLarge,
    /// The party named as the source does not control what it wants to move.
    Unauthorized,
    /// The paying account holds less than is owed.
    InsufficientFunds,
    /// The collectible of the swap record is not the one asked for.
    AssetMismatch,
    /// A fee transfer could not be carried out.
    TransferFailed,
    /// No account is kept under the identity given.
    InvalidAccount,
    /// No collectible is registered under the identity given.
    InvalidAsset,
}

} // verus!
