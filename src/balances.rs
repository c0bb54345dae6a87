use vstd::prelude::*;
use crate::storage::StorageMap;
use crate::support::{Dispatch, DispatchError, DispatchResult};
use crate::types::{AccountId, Balance};

verus! {

/// Relies on num's `CheckedSub` for `u128`, which calls `u128::checked_sub`:
/// `None` when `v` exceeds `a`, otherwise the difference.
#[verifier::external_body]
fn checked_sub_balance(a: Balance, v: Balance) -> (r: Option<Balance>)
    ensures
        r == (if v <= a { Some((a - v) as Balance) } else { None::<Balance> }),
{
    num::CheckedSub::checked_sub(&a, &v)
}

/// Relies on num's `CheckedAdd` for `u128`, which calls `u128::checked_add`:
/// `None` when the sum exceeds `u128::MAX`, otherwise the sum.
#[verifier::external_body]
fn checked_add_balance(a: Balance, v: Balance) -> (r: Option<Balance>)
    ensures
        r == (if a + v <= Balance::MAX { Some((a + v) as Balance) } else { None::<Balance> }),
{
    num::CheckedAdd::checked_add(&a, &v)
}

/// The balance that `balances` records for `who`: zero where it has no entry.
pub open spec fn balance_in(balances: Map<Seq<char>, Balance>, who: Seq<char>) -> Balance {
    if balances.contains_key(who) {
        balances[who]
    } else {
        0
    }
}

/// The outcome of moving `amount` from `from` to `to`: both balances are
/// read first, then `from` is written with the difference and `to` with the
/// sum. Fails, changing nothing, when the difference would be negative or the
/// sum too large.
pub open spec fn transfer_effect(
    balances: Map<Seq<char>, Balance>,
    from: Seq<char>,
    to: Seq<char>,
    amount: Balance,
) -> Result<Map<Seq<char>, Balance>, DispatchError> {
    let bf = balance_in(balances, from);
    let bt = balance_in(balances, to);
    if amount > bf {
        Err(DispatchError::InsufficientBalance)
    } else if bt + amount > Balance::MAX {
        Err(DispatchError::Overflow)
    } else {
        Ok(balances.insert(from, (bf - amount) as Balance).insert(to, (bt + amount) as Balance))
    }
}

/// The balances pallet: what each account holds.
#[derive(Debug)]
pub struct Pallet {
    pub balances: StorageMap<Balance>,
}

/// The operations of the balances pallet.
#[derive(Debug)]
pub enum Call {
    Transfer { to: AccountId, amount: Balance },
}

impl Pallet {
    pub open spec fn wf(&self) -> bool {
        self.balances.wf()
    }

    /// No balances recorded.
    pub fn new() -> (r: Self)
        ensures
            r.wf(),
            r.balances@ == Map::<Seq<char>, Balance>::empty(),
    {
        Pallet { balances: StorageMap::new() }
    }

    /// Overwrites the balance of `who`.
    pub fn set_balance(&mut self, who: &AccountId, value: Balance)
        requires
            old(self).wf(),
        ensures
            final(self).wf(),
            final(self).balances@ == old(self).balances@.insert(who@, value),
    {
        self.balances.insert(who.clone(), value);
    }

    /// The balance of `who`, zero for an account never seen. Reading inserts
    /// nothing.
    pub fn balance(&self, who: &AccountId) -> (r: Balance)
        requires
            self.wf(),
        ensures
            r == balance_in(self.balances@, who@),
    {
        match self.balances.get(who) {
            Some(b) => *b,
            None => 0,
        }
    }

    /// Moves `amount` from `from` to `to`.
    pub fn transfer(&mut self, from: &AccountId, to: &AccountId, amount: Balance) -> (r:
        DispatchResult)
        requires
            old(self).wf(),
        ensures
            final(self).wf(),
            match transfer_effect(old(self).balances@, from@, to@, amount) {
                Ok(m) => r == Ok::<(), DispatchError>(()) && final(self).balances@ == m,
                Err(e) => r == Err::<(), DispatchError>(e) && final(self).balances@
                    == old(self).balances@,
            },
    {
        let balance_from = self.balance(from);
        let balance_to = self.balance(to);
        let new_balance_from = match checked_sub_balance(balance_from, amount) {
            Some(b) => b,
            None => {
                return Err(DispatchError::InsufficientBalance);
            },
        };
        let new_balance_to = match checked_add_balance(balance_to, amount) {
            Some(b) => b,
            None => {
                return Err(DispatchError::Overflow);
            },
        };
        self.set_balance(from, new_balance_from);
        self.set_balance(to, new_balance_to);
        Ok(())
    }
}

/// The state and outcome of dispatching `call` for `caller` on a balances
/// map.
pub open spec fn call_effect(balances: Map<Seq<char>, Balance>, caller: Seq<char>, call: Call) -> (
    Map<Seq<char>, Balance>,
    DispatchResult,
) {
    match call {
        Call::Transfer { to, amount } => match transfer_effect(balances, caller, to@, amount) {
            Ok(m) => (m, Ok(())),
            Err(e) => (balances, Err(e)),
        },
    }
}

impl Dispatch for Pallet {
    type Caller = AccountId;

    type Call = Call;

    open spec fn wf(&self) -> bool {
        self.balances.wf()
    }

    open spec fn dispatch_effect(
        pre: &Self,
        caller: AccountId,
        call: Call,
        post: &Self,
        r: DispatchResult,
    ) -> bool {
        (post.balances@, r) == call_effect(pre.balances@, caller@, call)
    }

    fn dispatch(&mut self, caller: AccountId, call: Call) -> (r: DispatchResult) {
        match call {
            Call::Transfer { to, amount } => {
                self.transfer(&caller, &to, amount)?;
            },
        }
        Ok(())
    }
}

} // verus!
