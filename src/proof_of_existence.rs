use vstd::prelude::*;
use crate::storage::StorageMap;
use crate::support::{Dispatch, DispatchError, DispatchResult};
use crate::types::{AccountId, Content};

verus! {

/// The outcome of `caller` claiming `claim`: refused when the content
/// already has an owner, else `caller` becomes its owner.
pub open spec fn create_effect(
    claims: Map<Seq<char>, Seq<char>>,
    caller: Seq<char>,
    claim: Seq<char>,
) -> Result<Map<Seq<char>, Seq<char>>, DispatchError> {
    if claims.contains_key(claim) {
        Err(DispatchError::AlreadyClaimed)
    } else {
        Ok(claims.insert(claim, caller))
    }
}

/// The outcome of `caller` giving up `claim`: refused when the content has
/// no owner or another owner, else the claim is removed.
pub open spec fn revoke_effect(
    claims: Map<Seq<char>, Seq<char>>,
    caller: Seq<char>,
    claim: Seq<char>,
) -> Result<Map<Seq<char>, Seq<char>>, DispatchError> {
    if !claims.contains_key(claim) {
        Err(DispatchError::NoSuchClaim)
    } else if claims[claim] != caller {
        Err(DispatchError::NotClaimOwner)
    } else {
        Ok(claims.remove(claim))
    }
}

/// The claims pallet: the owner of each claimed content.
#[derive(Debug)]
pub struct Pallet {
    pub claims: StorageMap<AccountId>,
}

/// The operations of the claims pallet.
#[derive(Debug)]
pub enum Call {
    CreateClaim { claim: Content },
    RevokeClaim { claim: Content },
}

impl Pallet {
    /// Owners as character sequences, keyed by content.
    pub open spec fn owners(&self) -> Map<Seq<char>, Seq<char>> {
        Map::new(|k: Seq<char>| self.claims@.contains_key(k), |k: Seq<char>| self.claims@[k]@)
    }

    pub open spec fn wf(&self) -> bool {
        self.claims.wf()
    }

    /// No claims.
    pub fn new() -> (r: Self)
        ensures
            r.wf(),
            r.owners() == Map::<Seq<char>, Seq<char>>::empty(),
    {
        let r = Pallet { claims: StorageMap::new() };
        assert(r.owners() =~= Map::<Seq<char>, Seq<char>>::empty());
        r
    }

    /// The owner of `claim`, if it has one.
    pub fn get_claim(&self, claim: &Content) -> (r: Option<&AccountId>)
        requires
            self.wf(),
        ensures
            match r {
                Some(o) => self.owners().contains_key(claim@) && o@ == self.owners()[claim@],
                None => !self.owners().contains_key(claim@),
            },
    {
        self.claims.get(claim)
    }

    /// Records `caller` as the owner of `claim`.
    pub fn create_claim(&mut self, caller: AccountId, claim: Content) -> (r: DispatchResult)
        requires
            old(self).wf(),
        ensures
            final(self).wf(),
            match create_effect(old(self).owners(), caller@, claim@) {
                Ok(m) => r == Ok::<(), DispatchError>(()) && final(self).owners() == m,
                Err(e) => r == Err::<(), DispatchError>(e) && final(self).owners()
                    == old(self).owners(),
            },
    {
        if self.claims.get(&claim).is_some() {
            return Err(DispatchError::AlreadyClaimed);
        }
        self.claims.insert(claim, caller);
        assert(self.owners() =~= old(self).owners().insert(claim@, caller@));
        Ok(())
    }

    /// Removes the claim on `claim` held by `caller`.
    pub fn revoke_claim(&mut self, caller: AccountId, claim: Content) -> (r: DispatchResult)
        requires
            old(self).wf(),
        ensures
            final(self).wf(),
            match revoke_effect(old(self).owners(), caller@, claim@) {
                Ok(m) => r == Ok::<(), DispatchError>(()) && final(self).owners() == m,
                Err(e) => r == Err::<(), DispatchError>(e) && final(self).owners()
                    == old(self).owners(),
            },
    {
        match self.claims.get(&claim) {
            None => {
                return Err(DispatchError::NoSuchClaim);
            },
            Some(owner) => {
                if *owner != caller {
                    return Err(DispatchError::NotClaimOwner);
                }
            },
        }
        self.claims.remove(&claim);
        assert(self.owners() =~= old(self).owners().remove(claim@));
        Ok(())
    }
}

/// The state and outcome of dispatching `call` for `caller` on a claims map.
pub open spec fn call_effect(claims: Map<Seq<char>, Seq<char>>, caller: Seq<char>, call: Call) -> (
    Map<Seq<char>, Seq<char>>,
    DispatchResult,
) {
    let outcome = match call {
        Call::CreateClaim { claim } => create_effect(claims, caller, claim@),
        Call::RevokeClaim { claim } => revoke_effect(claims, caller, claim@),
    };
    match outcome {
        Ok(m) => (m, Ok(())),
        Err(e) => (claims, Err(e)),
    }
}

impl Dispatch for Pallet {
    type Caller = AccountId;

    type Call = Call;

    open spec fn wf(&self) -> bool {
        self.claims.wf()
    }

    open spec fn dispatch_effect(
        pre: &Self,
        caller: AccountId,
        call: Call,
        post: &Self,
        r: DispatchResult,
    ) -> bool {
        (post.owners(), r) == call_effect(pre.owners(), caller@, call)
    }

    fn dispatch(&mut self, caller: AccountId, call: Call) -> (r: DispatchResult) {
        match call {
            Call::CreateClaim { claim } => {
                self.create_claim(caller, claim)?;
            },
            Call::RevokeClaim { claim } => {
                self.revoke_claim(caller, claim)?;
            },
        }
        Ok(())
    }
}

} // verus!
