use vstd::prelude::*;
use crate::balances::{balance_in, transfer_effect};
use crate::proof_of_existence::{create_effect, revoke_effect};
use crate::runtime::{apply_extrinsic, apply_extrinsics, bump_nonce, Extrinsic, RuntimeState};
use crate::support::DispatchError;
use crate::system::nonce_in;
use crate::types::{Balance, Nonce};

verus! {

/// An account that a pallet has never recorded reads as holding a zero
/// balance and a zero nonce.
pub proof fn law_unseen_account_reads_zero(
    balances: Map<Seq<char>, Balance>,
    nonces: Map<Seq<char>, Nonce>,
    who: Seq<char>,
)
    requires
        !balances.contains_key(who),
        !nonces.contains_key(who),
    ensures
        balance_in(balances, who) == 0,
        nonce_in(nonces, who) == 0,
{
}

/// A transfer of at most the sender's balance to another account, where the
/// receiver's balance has room for it, succeeds: the sender loses the
/// amount, the receiver gains it, their total is kept, and no other account
/// changes.
pub proof fn law_transfer_within_balance(
    balances: Map<Seq<char>, Balance>,
    from: Seq<char>,
    to: Seq<char>,
    amount: Balance,
)
    requires
        from != to,
        amount <= balance_in(balances, from),
        balance_in(balances, to) + amount <= Balance::MAX,
    ensures
        transfer_effect(balances, from, to, amount) is Ok,
        ({
            let m = transfer_effect(balances, from, to, amount)->Ok_0;
            &&& balance_in(m, from) == balance_in(balances, from) - amount
            &&& balance_in(m, to) == balance_in(balances, to) + amount
            &&& balance_in(m, from) + balance_in(m, to) == balance_in(balances, from)
                + balance_in(balances, to)
            &&& forall|w: Seq<char>|
                w != from && w != to ==> #[trigger] balance_in(m, w) == balance_in(balances, w)
        }),
{
}

/// A transfer of more than the sender's balance fails for want of balance.
pub proof fn law_transfer_over_balance(
    balances: Map<Seq<char>, Balance>,
    from: Seq<char>,
    to: Seq<char>,
    amount: Balance,
)
    requires
        amount > balance_in(balances, from),
    ensures
        transfer_effect(balances, from, to, amount) == Err::<Map<Seq<char>, Balance>, DispatchError>(
            DispatchError::InsufficientBalance,
        ),
{
}

/// Whatever the outcome of its call, an extrinsic leaves its caller's nonce
/// one above what it was (below the largest nonce, past which it wraps).
pub proof fn law_extrinsic_increments_nonce(s: RuntimeState, ext: Extrinsic)
    requires
        nonce_in(s.nonces, ext.caller@) < Nonce::MAX,
    ensures
        nonce_in(apply_extrinsic(s, ext).0.nonces, ext.caller@) == nonce_in(s.nonces, ext.caller@)
            + 1,
{
}

/// Applying extrinsics one sequence after another is applying them joined.
pub proof fn lemma_apply_extrinsics_append(s: RuntimeState, a: Seq<Extrinsic>, b: Seq<Extrinsic>)
    ensures
        apply_extrinsics(s, a + b) == apply_extrinsics(apply_extrinsics(s, a), b),
    decreases b.len(),
{
    if b.len() == 0 {
        assert(a + b =~= a);
    } else {
        assert((a + b).drop_last() =~= a + b.drop_last());
        lemma_apply_extrinsics_append(s, a, b.drop_last());
    }
}

/// An extrinsic whose call fails changes nothing but its caller's nonce, and
/// the extrinsics after it are applied as usual on the state it left.
pub proof fn law_failed_extrinsic_is_isolated(s: RuntimeState, exts: Seq<Extrinsic>, k: int)
    requires
        0 <= k < exts.len(),
        apply_extrinsic(apply_extrinsics(s, exts.take(k)), exts[k]).1 is Err,
    ensures
        apply_extrinsic(apply_extrinsics(s, exts.take(k)), exts[k]).0 == bump_nonce(
            apply_extrinsics(s, exts.take(k)),
            exts[k].caller@,
        ),
        apply_extrinsics(s, exts) == apply_extrinsics(
            bump_nonce(apply_extrinsics(s, exts.take(k)), exts[k].caller@),
            exts.skip(k + 1),
        ),
{
    assert(exts.take(k + 1).drop_last() =~= exts.take(k));
    lemma_apply_extrinsics_append(s, exts.take(k + 1), exts.skip(k + 1));
    assert(exts.take(k + 1) + exts.skip(k + 1) =~= exts);
}

/// Once a content has been claimed, by this call or before, claiming it
/// again fails.
pub proof fn law_claim_twice_fails(
    claims: Map<Seq<char>, Seq<char>>,
    first: Seq<char>,
    second: Seq<char>,
    content: Seq<char>,
)
    ensures
        ({
            let after = match create_effect(claims, first, content) {
                Ok(m) => m,
                Err(_) => claims,
            };
            create_effect(after, second, content) == Err::<Map<Seq<char>, Seq<char>>, DispatchError>(
                DispatchError::AlreadyClaimed,
            )
        }),
{
}

/// Only the owner of a claim may revoke it.
pub proof fn law_revoke_by_non_owner_fails(
    claims: Map<Seq<char>, Seq<char>>,
    caller: Seq<char>,
    content: Seq<char>,
)
    requires
        claims.contains_key(content),
        claims[content] != caller,
    ensures
        revoke_effect(claims, caller, content) == Err::<Map<Seq<char>, Seq<char>>, DispatchError>(
            DispatchError::NotClaimOwner,
        ),
{
}

/// After a successful revoke the same account may claim the content again.
pub proof fn law_claim_again_after_revoke(
    claims: Map<Seq<char>, Seq<char>>,
    caller: Seq<char>,
    content: Seq<char>,
)
    requires
        revoke_effect(claims, caller, content) is Ok,
    ensures
        create_effect(revoke_effect(claims, caller, content)->Ok_0, caller, content) is Ok,
{
}

} // verus!
