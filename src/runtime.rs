use vstd::prelude::*;
use crate::balances;
use crate::proof_of_existence;
use crate::support::{self, Dispatch, DispatchError, DispatchResult};
use crate::system;
use crate::types::{AccountId, Balance, BlockNumber, Nonce};

verus! {

/// An extrinsic of this runtime.
pub type Extrinsic = support::Extrinsic<AccountId, RuntimeCall>;

/// A header of this runtime.
pub type Header = support::Header<BlockNumber>;

/// A block of this runtime.
pub type Block = support::Block<Header, Extrinsic>;

/// A call to one of the runtime's pallets.
#[derive(Debug)]
pub enum RuntimeCall {
    Balances(balances::Call),
    ProofOfExistence(proof_of_existence::Call),
}

/// The composed state: one instance of each pallet.
#[derive(Debug)]
pub struct Runtime {
    pub system: system::Pallet,
    pub balances: balances::Pallet,
    pub proof_of_existence: proof_of_existence::Pallet,
}

/// The runtime's state as plain values.
pub ghost struct RuntimeState {
    pub block_number: BlockNumber,
    pub nonces: Map<Seq<char>, Nonce>,
    pub balances: Map<Seq<char>, Balance>,
    pub claims: Map<Seq<char>, Seq<char>>,
}

/// An extrinsic whose call failed: where it stood and why.
#[derive(Debug, Clone, Copy, PartialEq, Eq, Structural)]
pub struct ExtrinsicFailure {
    pub block_number: BlockNumber,
    pub index: usize,
    pub error: DispatchError,
}

impl View for Runtime {
    type V = RuntimeState;

    open spec fn view(&self) -> RuntimeState {
        RuntimeState {
            block_number: self.system.block_number,
            nonces: self.system.nonce@,
            balances: self.balances.balances@,
            claims: self.proof_of_existence.owners(),
        }
    }
}

/// The state and outcome of dispatching `call` for `caller`: the owning
/// pallet's slice changes as its own call says, every other slice stays.
pub open spec fn dispatch_state(s: RuntimeState, caller: Seq<char>, call: RuntimeCall) -> (
    RuntimeState,
    DispatchResult,
) {
    match call {
        RuntimeCall::Balances(c) => {
            let (m, r) = balances::call_effect(s.balances, caller, c);
            (RuntimeState { balances: m, ..s }, r)
        },
        RuntimeCall::ProofOfExistence(c) => {
            let (m, r) = proof_of_existence::call_effect(s.claims, caller, c);
            (RuntimeState { claims: m, ..s }, r)
        },
    }
}

/// `s` with the nonce of `who` incremented.
pub open spec fn bump_nonce(s: RuntimeState, who: Seq<char>) -> RuntimeState {
    RuntimeState { nonces: system::nonces_after_inc(s.nonces, who), ..s }
}

/// One extrinsic applied: the caller's nonce is incremented, then the call
/// is dispatched; a failed call leaves the increment in place.
pub open spec fn apply_extrinsic(s: RuntimeState, ext: Extrinsic) -> (RuntimeState, DispatchResult) {
    dispatch_state(bump_nonce(s, ext.caller@), ext.caller@, ext.call)
}

/// The extrinsics applied in order, each on the state the previous left.
pub open spec fn apply_extrinsics(s: RuntimeState, exts: Seq<Extrinsic>) -> RuntimeState
    decreases exts.len(),
{
    if exts.len() == 0 {
        s
    } else {
        apply_extrinsic(apply_extrinsics(s, exts.drop_last()), exts.last()).0
    }
}

/// The failures met while applying the extrinsics in order, as pairs of
/// position and error.
pub open spec fn failures(s: RuntimeState, exts: Seq<Extrinsic>) -> Seq<(int, DispatchError)>
    decreases exts.len(),
{
    if exts.len() == 0 {
        Seq::empty()
    } else {
        let before = failures(s, exts.drop_last());
        match apply_extrinsic(apply_extrinsics(s, exts.drop_last()), exts.last()).1 {
            Ok(()) => before,
            Err(e) => before.push((exts.len() - 1, e)),
        }
    }
}

/// The state in which a block's extrinsics start: the counter advanced.
pub open spec fn block_start(s: RuntimeState, block_number: BlockNumber) -> RuntimeState {
    RuntimeState { block_number, ..s }
}

impl Runtime {
    pub open spec fn wf(&self) -> bool {
        self.system.wf() && self.balances.wf() && self.proof_of_existence.wf()
    }

    /// All pallets empty, block counter zero.
    pub fn new() -> (r: Self)
        ensures
            r.wf(),
            r@.block_number == 0,
            r@.nonces == Map::<Seq<char>, Nonce>::empty(),
            r@.balances == Map::<Seq<char>, Balance>::empty(),
            r@.claims == Map::<Seq<char>, Seq<char>>::empty(),
    {
        Runtime {
            system: system::Pallet::new(),
            balances: balances::Pallet::new(),
            proof_of_existence: proof_of_existence::Pallet::new(),
        }
    }

    /// Applies a block. The block counter is advanced first; where the
    /// header does not carry the advanced number the block is refused and no
    /// extrinsic runs (a counter at its largest value cannot advance, and
    /// every block is refused). Otherwise each extrinsic is applied in order, and the
    /// failed calls are returned, in order, with the block still succeeding.
    pub fn execute_block(&mut self, block: Block) -> (r: Result<
        Vec<ExtrinsicFailure>,
        DispatchError,
    >)
        requires
            old(self).wf(),
        ensures
            final(self).wf(),
            old(self)@.block_number + 1 != block.header.block_number ==> {
                &&& r == Err::<Vec<ExtrinsicFailure>, DispatchError>(
                    DispatchError::WrongBlockNumber,
                )
                &&& final(self)@.nonces == old(self)@.nonces
                &&& final(self)@.balances == old(self)@.balances
                &&& final(self)@.claims == old(self)@.claims
                &&& final(self)@.block_number == if old(self)@.block_number < BlockNumber::MAX {
                    (old(self)@.block_number + 1) as BlockNumber
                } else {
                    old(self)@.block_number
                }
            },
            old(self)@.block_number + 1 == block.header.block_number ==> {
                let start = block_start(old(self)@, block.header.block_number);
                &&& r is Ok
                &&& final(self)@ == apply_extrinsics(start, block.extrinsics@)
                &&& r->Ok_0@.len() == failures(start, block.extrinsics@).len()
                &&& forall|k: int|
                    0 <= k < r->Ok_0@.len() ==> {
                        &&& (#[trigger] r->Ok_0@[k]).block_number == block.header.block_number
                        &&& r->Ok_0@[k].index == failures(start, block.extrinsics@)[k].0
                        &&& r->Ok_0@[k].error == failures(start, block.extrinsics@)[k].1
                    }
            },
    {
        if self.system.get_block_number() == BlockNumber::MAX {
            return Err(DispatchError::WrongBlockNumber);
        }
        self.system.set_block_number();
        if self.system.get_block_number() != block.header.block_number {
            return Err(DispatchError::WrongBlockNumber);
        }
        let block_number = block.header.block_number;
        let ghost start = self@;
        let ghost all = block.extrinsics@;
        let mut extrinsics = block.extrinsics;
        let mut reported: Vec<ExtrinsicFailure> = Vec::new();
        let n = extrinsics.len();
        let mut i: usize = 0;
        while i < n
            invariant
                self.wf(),
                n == all.len(),
                i <= n,
                extrinsics@ == all.skip(i as int),
                self@ == apply_extrinsics(start, all.take(i as int)),
                reported@.len() == failures(start, all.take(i as int)).len(),
                forall|k: int|
                    0 <= k < reported@.len() ==> {
                        &&& (#[trigger] reported@[k]).block_number == block_number
                        &&& reported@[k].index == failures(start, all.take(i as int))[k].0
                        &&& reported@[k].error == failures(start, all.take(i as int))[k].1
                    },
            decreases n - i,
        {
            let ext = extrinsics.remove(0);
            proof {
                assert(all.take(i + 1).drop_last() =~= all.take(i as int));
                assert(ext == all[i as int]);
                assert(extrinsics@ =~= all.skip(i + 1));
            }
            let support::Extrinsic { caller, call } = ext;
            self.system.inc_nonce(&caller);
            let result = self.dispatch(caller, call);
            if let Err(e) = result {
                reported.push(ExtrinsicFailure { block_number, index: i, error: e });
            }
            i = i + 1;
        }
        proof {
            assert(all.take(n as int) =~= all);
        }
        Ok(reported)
    }
}

impl Dispatch for Runtime {
    type Caller = AccountId;

    type Call = RuntimeCall;

    open spec fn wf(&self) -> bool {
        self.system.wf() && self.balances.wf() && self.proof_of_existence.wf()
    }

    open spec fn dispatch_effect(
        pre: &Self,
        caller: AccountId,
        call: RuntimeCall,
        post: &Self,
        r: DispatchResult,
    ) -> bool {
        (post@, r) == dispatch_state(pre@, caller@, call)
    }

    fn dispatch(&mut self, caller: AccountId, runtime_call: RuntimeCall) -> (r: DispatchResult) {
        match runtime_call {
            RuntimeCall::Balances(call) => {
                self.balances.dispatch(caller, call)?;
            },
            RuntimeCall::ProofOfExistence(call) => {
                self.proof_of_existence.dispatch(caller, call)?;
            },
        }
        Ok(())
    }
}

} // verus!
