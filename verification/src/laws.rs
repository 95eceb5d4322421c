use vstd::prelude::*;
use crate::error::Error;
use crate::ledger::{lemma_sum_of_insert, lemma_sum_of_remove, Balance, Call, Ledger};
use crate::origin::Origin;

verus! {

/// A successful mint adds the amount to the balances and to total issuance
/// alike, creates the entry of `dest` with that amount and touches no other.
pub proof fn lemma_mint_unsafe_adds<AccountId>(
    ledger: Ledger<AccountId>,
    ed: Balance,
    origin: Origin<AccountId>,
    dest: AccountId,
    amount: Balance,
)
    requires
        ledger.wf(),
    ensures
        ledger.mint_unsafe(ed, origin, dest, amount) matches Ok(next) ==> {
            &&& next.wf()
            &&& next.sum() == ledger.sum() + amount
            &&& next.total() == ledger.total() + amount
            &&& next.balance(dest) == amount
            &&& forall|who: AccountId|
                who != dest ==> next.has_balance(who) == ledger.has_balance(who)
                    && next.balance(who) == ledger.balance(who)
        },
{
    lemma_sum_of_insert(ledger.balances, dest, amount);
}

/// A successful transfer leaves total issuance as it is. It moves the amount
/// from the sender to another account, so that the sum of balances stays; to
/// the sender itself it takes the amount out of the sum.
pub proof fn lemma_transfer_moves<AccountId>(
    ledger: Ledger<AccountId>,
    origin: Origin<AccountId>,
    dest: AccountId,
    amount: Balance,
)
    requires
        ledger.wf(),
    ensures
        ledger.transfer(origin, dest, amount) matches Ok(next) ==> {
            &&& next.wf()
            &&& next.total_issuance == ledger.total_issuance
            &&& origin.signer() matches Some(sender)
            &&& next.has_balance(sender) && next.has_balance(dest)
            &&& next.balance(sender) == ledger.balance(sender) - amount
            &&& sender != dest ==> next.balance(dest) == ledger.balance(dest) + amount
            &&& sender != dest ==> next.sum() == ledger.sum()
            &&& sender == dest ==> next.sum() == ledger.sum() - amount
            &&& forall|who: AccountId|
                who != dest && who != sender ==> next.has_balance(who) == ledger.has_balance(who)
                    && next.balance(who) == ledger.balance(who)
        },
{
    if let Ok(next) = ledger.transfer(origin, dest, amount) {
        let sender = origin.signer()->Some_0;
        let credited = (ledger.balance(dest) + amount) as Balance;
        let remainder = (ledger.balance(sender) - amount) as Balance;
        let between = ledger.balances.insert(dest, credited);
        lemma_sum_of_insert(ledger.balances, dest, credited);
        lemma_sum_of_insert(between, sender, remainder);
    }
}

/// In a covered ledger a transfer to another account is never refused for
/// overflow: what the two accounts hold together is within total issuance.
pub proof fn lemma_transfer_to_other_fits<AccountId>(
    ledger: Ledger<AccountId>,
    origin: Origin<AccountId>,
    dest: AccountId,
    amount: Balance,
)
    requires
        ledger.covered(),
        origin.signer() != Some(dest),
    ensures
        ledger.transfer(origin, dest, amount) != Err::<Ledger<AccountId>, Error>(
            Error::ArithmeticOverflow,
        ),
{
    if let Some(sender) = origin.signer() {
        if ledger.has_balance(sender) && ledger.has_balance(dest) {
            lemma_sum_of_remove(ledger.balances, sender);
            lemma_sum_of_remove(ledger.balances.remove(sender), dest);
        }
    }
}

/// The empty ledger is balanced.
pub proof fn lemma_empty_is_balanced<AccountId>()
    ensures
        Ledger::<AccountId>::empty().balanced(),
{
}

/// What a call does to the gap between total issuance and the sum of
/// balances: a call that burns widens it, any other call leaves it as it is.
/// So every call keeps a covered ledger covered, and a call keeps a balanced
/// ledger balanced if and only if it does not burn.
pub proof fn lemma_call_and_gap<AccountId>(
    ledger: Ledger<AccountId>,
    ed: Balance,
    call: Call<AccountId>,
)
    requires
        ledger.covered(),
    ensures
        ledger.after(ed, call).covered(),
        ledger.burns(call) ==> ledger.after(ed, call).total() - ledger.after(ed, call).sum()
            > ledger.total() - ledger.sum(),
        !ledger.burns(call) ==> ledger.after(ed, call).total() - ledger.after(ed, call).sum()
            == ledger.total() - ledger.sum(),
        ledger.balanced() ==> (ledger.after(ed, call).balanced() <==> !ledger.burns(call)),
{
    match call {
        Call::MintUnsafe { origin, dest, amount } => {
            lemma_mint_unsafe_adds(ledger, ed, origin, dest, amount);
        },
        Call::Transfer { origin, dest, amount } => {
            lemma_transfer_moves(ledger, origin, dest, amount);
        },
    }
}

/// Whatever the calls, the balances of the ledger that they leave add up to
/// no more than its total issuance, provided that held before.
pub proof fn lemma_calls_keep_covered<AccountId>(
    ledger: Ledger<AccountId>,
    ed: Balance,
    calls: Seq<Call<AccountId>>,
)
    requires
        ledger.covered(),
    ensures
        ledger.after_all(ed, calls).covered(),
    decreases calls.len(),
{
    if calls.len() > 0 {
        lemma_calls_keep_covered(ledger, ed, calls.drop_last());
        lemma_call_and_gap(ledger.after_all(ed, calls.drop_last()), ed, calls.last());
    }
}

/// A sequence of calls is conserving if and only if its calls but the last
/// are, and the last does not burn in the ledger that they leave.
pub proof fn lemma_conserving_by_last<AccountId>(
    ledger: Ledger<AccountId>,
    ed: Balance,
    calls: Seq<Call<AccountId>>,
)
    requires
        calls.len() > 0,
    ensures
        ledger.conserving(ed, calls) <==> ledger.conserving(ed, calls.drop_last())
            && !ledger.after_all(ed, calls.drop_last()).burns(calls.last()),
{
    let front = calls.drop_last();
    let last = calls.len() - 1;
    assert(calls.take(last) =~= front);
    assert forall|i: int| 0 <= i < last implies #[trigger] front.take(i) == calls.take(i) by {
        assert(front.take(i) =~= calls.take(i));
    }
    if ledger.conserving(ed, front) && !ledger.after_all(ed, front).burns(calls.last()) {
        assert forall|i: int| 0 <= i < calls.len() implies !(#[trigger] ledger.after_all(
            ed,
            calls.take(i),
        )).burns(calls[i]) by {
            if i < last {
                assert(!ledger.after_all(ed, front.take(i)).burns(front[i]));
            }
        }
    }
}

/// From a balanced ledger, calls leave a balanced ledger if and only if none
/// of them burns.
pub proof fn lemma_calls_keep_balanced<AccountId>(
    ledger: Ledger<AccountId>,
    ed: Balance,
    calls: Seq<Call<AccountId>>,
)
    requires
        ledger.balanced(),
    ensures
        ledger.after_all(ed, calls).balanced() <==> ledger.conserving(ed, calls),
    decreases calls.len(),
{
    if calls.len() > 0 {
        let front = calls.drop_last();
        let before = ledger.after_all(ed, front);
        lemma_calls_keep_balanced(ledger, ed, front);
        lemma_calls_keep_covered(ledger, ed, front);
        lemma_conserving_by_last(ledger, ed, calls);
        lemma_call_and_gap(before, ed, calls.last());
    }
}

/// Every ledger that calls make of the empty one is balanced: its balances
/// add up to its total issuance. Refused calls count for nothing. Left out
/// are the sequences in which a call burns: in which an account successfully
/// transfers a positive amount to itself.
pub proof fn lemma_reachable_is_balanced<AccountId>(ed: Balance, calls: Seq<Call<AccountId>>)
    requires
        Ledger::<AccountId>::empty().conserving(ed, calls),
    ensures
        Ledger::<AccountId>::empty().after_all(ed, calls).balanced(),
{
    lemma_calls_keep_balanced(Ledger::<AccountId>::empty(), ed, calls);
}

/// In every ledger that calls make of the empty one the balances add up to
/// no more than total issuance, and to less once a call has burnt.
pub proof fn lemma_reachable_is_covered<AccountId>(ed: Balance, calls: Seq<Call<AccountId>>)
    ensures
        Ledger::<AccountId>::empty().after_all(ed, calls).covered(),
        !Ledger::<AccountId>::empty().conserving(ed, calls)
            ==> Ledger::<AccountId>::empty().after_all(ed, calls).sum()
            < Ledger::<AccountId>::empty().after_all(ed, calls).total(),
{
    lemma_calls_keep_covered(Ledger::<AccountId>::empty(), ed, calls);
    lemma_calls_keep_balanced(Ledger::<AccountId>::empty(), ed, calls);
}

/// No call removes a balance entry, and none lowers total issuance or takes
/// it away once it is there.
pub proof fn lemma_call_keeps_entries<AccountId>(
    ledger: Ledger<AccountId>,
    ed: Balance,
    call: Call<AccountId>,
)
    ensures
        forall|who: AccountId|
            ledger.has_balance(who) ==> #[trigger] ledger.after(ed, call).has_balance(who),
        ledger.after(ed, call).total() >= ledger.total(),
        ledger.total_issuance is Some ==> ledger.after(ed, call).total_issuance is Some,
{
}

/// A refused call leaves the ledger as it was, so the same call is refused
/// again, with the same error and the ledger still unchanged.
pub proof fn lemma_refusal_repeats<AccountId>(
    ledger: Ledger<AccountId>,
    ed: Balance,
    call: Call<AccountId>,
)
    requires
        ledger.dispatch(ed, call) is Err,
    ensures
        ledger.after(ed, call) == ledger,
        ledger.after(ed, call).dispatch(ed, call) == ledger.dispatch(ed, call),
        ledger.after(ed, call).after(ed, call) == ledger,
{
}

} // verus!
