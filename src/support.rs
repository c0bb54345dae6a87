use vstd::prelude::*;

verus! {

/// Why a dispatch or a block was refused.
#[derive(Debug, Clone, Copy, PartialEq, Eq, Structural)]
pub enum DispatchError {
    /// The sender's balance is below the amount to move.
    InsufficientBalance,
    /// The receiver's balance would exceed what a balance can hold.
    Overflow,
    /// The content already has an owner.
    AlreadyClaimed,
    /// The content has no owner.
    NoSuchClaim,
    /// The content is owned by another account.
    NotClaimOwner,
    /// The block's header does not carry the next block number.
    WrongBlockNumber,
}

impl DispatchError {
    /// A human-readable reason.
    pub fn reason(&self) -> (r: &'static str) {
        match self {
            DispatchError::InsufficientBalance => "Not enough balance",
            DispatchError::Overflow => "Overflow",
            DispatchError::AlreadyClaimed => "This content is already claimed",
            DispatchError::NoSuchClaim => "Claim does not exist",
            DispatchError::NotClaimOwner => "This content is owned by someone else",
            DispatchError::WrongBlockNumber => "Wrong block number",
        }
    }
}

/// The outcome of a dispatch: success with no payload, or a typed failure.
pub type DispatchResult = Result<(), DispatchError>;

/// Routes a call, made on behalf of a caller, to the operation it names.
///
/// `dispatch_effect` states, for each implementor, the state after the call
/// and the outcome, as a function of the state before, the caller and the call.
pub trait Dispatch: Sized {
    /// Who makes the call.
    type Caller;

    /// The operations that can be dispatched.
    type Call;

    /// The state is consistent.
    spec fn wf(&self) -> bool;

    /// `post` and `r` are the state and outcome of dispatching `call` for
    /// `caller` on `pre`.
    spec fn dispatch_effect(
        pre: &Self,
        caller: Self::Caller,
        call: Self::Call,
        post: &Self,
        r: DispatchResult,
    ) -> bool;

    fn dispatch(&mut self, caller: Self::Caller, call: Self::Call) -> (r: DispatchResult)
        requires
            old(self).wf(),
        ensures
            final(self).wf(),
            Self::dispatch_effect(old(self), caller, call, final(self), r),
    ;
}

/// A block header: the number that the block claims.
#[derive(Debug)]
pub struct Header<BlockNumber> {
    pub block_number: BlockNumber,
}

/// An operation submitted by a caller. Signing is not modelled.
#[derive(Debug)]
pub struct Extrinsic<Caller, Call> {
    pub caller: Caller,
    pub call: Call,
}

/// A header and the extrinsics to apply, in order.
#[derive(Debug)]
pub struct Block<Header, Extrinsic> {
    pub header: Header,
    pub extrinsics: Vec<Extrinsic>,
}

} // verus!
