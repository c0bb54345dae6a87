use vstd::prelude::*;

verus! {

/// Identifies an account; compared by its characters.
pub type AccountId = String;

/// The block counter.
pub type BlockNumber = u32;

/// Counts the extrinsics an account has submitted.
pub type Nonce = u32;

/// An amount held by an account.
pub type Balance = u128;

/// What a claim is made on.
pub type Content = String;

} // verus!
