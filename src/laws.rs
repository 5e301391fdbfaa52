//! Properties of the account state machine that hold for every input.
use crate::account::AccountState;
use crate::transaction::{LedgerError, Transaction};
use vstd::prelude::*;

verus! {

/// Any single transaction applied to a balanced account leaves
/// `total == available + held`, whether it succeeds or fails.
pub proof fn lemma_step_keeps_balance(s: AccountState, t: Transaction)
    requires
        s.balanced(),
    ensures
        s.step(t).0.balanced(),
{
}

/// For every sequence of transactions (so in particular of deposits and
/// withdrawals), `total == available + held` holds after every step.
pub proof fn lemma_run_keeps_balance(s: AccountState, ts: Seq<Transaction>)
    requires
        s.balanced(),
    ensures
        forall|i: int| 0 <= i <= ts.len() ==> (#[trigger] s.run(ts.take(i))).balanced(),
    decreases ts.len(),
{
    if ts.len() > 0 {
        let s1 = s.step(ts[0]).0;
        lemma_step_keeps_balance(s, ts[0]);
        lemma_run_keeps_balance(s1, ts.drop_first());
        assert forall|i: int| 0 <= i <= ts.len() implies (#[trigger] s.run(ts.take(i))).balanced() by {
            if i > 0 {
                assert(ts.take(i).drop_first() =~= ts.drop_first().take(i - 1));
                assert(ts.take(i)[0] == ts[0]);
                assert(s1.run(ts.drop_first().take(i - 1)).balanced());
                assert(s.run(ts.take(i)) == s1.run(ts.take(i).drop_first()));
            } else {
                assert(ts.take(0) =~= Seq::<Transaction>::empty());
            }
        }
    } else {
        assert forall|i: int| 0 <= i <= ts.len() implies (#[trigger] s.run(ts.take(i))).balanced() by {
            assert(ts.take(i) =~= Seq::<Transaction>::empty());
        }
    }
}

/// A deposit into a locked account fails with `AccountLocked` and leaves
/// `available`, `held` and `total` as they were.
pub proof fn lemma_deposit_into_locked_account(s: AccountState, client: u16, tx: u32, a: i128)
    requires
        s.locked,
    ensures
        ({
            let (s2, r) = s.step(Transaction::Deposit { client, tx, amount: Some(a) });
            &&& r == Err::<(), LedgerError>(LedgerError::AccountLocked)
            &&& s2.same_balances(s)
        }),
{
}

/// On an unlocked account, a withdrawal of more than `available` fails with
/// `InsufficientFunds` and changes nothing.
pub proof fn lemma_withdrawal_beyond_available(s: AccountState, client: u16, tx: u32, a: i128)
    requires
        !s.locked,
        s.available < a,
    ensures
        s.step(Transaction::Withdrawal { client, tx, amount: Some(a) }) == (s, Err::<
            (),
            LedgerError,
        >(LedgerError::InsufficientFunds)),
{
}

/// Disputing a stored deposit of amount `a` moves `a` from the available to
/// the held funds and keeps the total.
pub proof fn lemma_dispute_holds_amount(
    s: AccountState,
    tx: u32,
    a: i128,
    from: u16,
    ref_amount: Option<i128>,
)
    requires
        s.balanced(),
        s.deposits.contains_key(tx),
        s.deposits[tx] == (Transaction::Deposit { client: from, tx, amount: Some(a) }),
    ensures
        ({
            let (s2, r) = s.step(Transaction::Dispute { client: from, tx, amount: ref_amount });
            &&& r is Ok
            &&& s2.deposits == s.deposits.insert(tx, Transaction::Dispute { client: from, tx, amount: Some(a) })
            &&& s2.held == s.held + a
            &&& s2.available == s.available - a
            &&& s2.total == s.total
            &&& s2.locked == s.locked
        }),
{
}

/// Resolving an active dispute of amount `a` moves `a` back from the held to
/// the available funds.
pub proof fn lemma_resolve_releases_amount(
    s: AccountState,
    tx: u32,
    a: i128,
    from: u16,
    ref_amount: Option<i128>,
)
    requires
        s.balanced(),
        s.deposits.contains_key(tx),
        s.deposits[tx] == (Transaction::Dispute { client: from, tx, amount: Some(a) }),
    ensures
        ({
            let (s2, r) = s.step(Transaction::Resolve { client: from, tx, amount: ref_amount });
            &&& r is Ok
            &&& s2.deposits == s.deposits.insert(tx, Transaction::Resolve { client: from, tx, amount: Some(a) })
            &&& s2.held == s.held - a
            &&& s2.available == s.available + a
            &&& s2.total == s.total
            &&& s2.locked == s.locked
        }),
{
}

/// A dispute of a stored deposit followed by its resolve leaves the balances
/// and the lock flag exactly as they were before the dispute.
pub proof fn lemma_resolve_undoes_dispute(s: AccountState, tx: u32, a: i128, from: u16)
    requires
        s.balanced(),
        s.deposits.contains_key(tx),
        s.deposits[tx] == (Transaction::Deposit { client: from, tx, amount: Some(a) }),
    ensures
        ({
            let s1 = s.step(Transaction::Dispute { client: from, tx, amount: None }).0;
            let (s2, r) = s1.step(Transaction::Resolve { client: from, tx, amount: None });
            &&& r is Ok
            &&& s2.same_balances(s)
        }),
{
    let s1 = s.step(Transaction::Dispute { client: from, tx, amount: None }).0;
    assert(s1.deposits[tx] == (Transaction::Dispute { client: from, tx, amount: Some(a) }));
}

/// Charging back an active dispute of amount `a` on an unlocked account whose
/// available funds are not negative: `held` drops by `a`, `available` is
/// unchanged and the account is locked.
pub proof fn lemma_chargeback_locks(
    s: AccountState,
    tx: u32,
    a: i128,
    from: u16,
    ref_amount: Option<i128>,
)
    requires
        s.balanced(),
        !s.locked,
        s.available >= 0,
        s.deposits.contains_key(tx),
        s.deposits[tx] == (Transaction::Dispute { client: from, tx, amount: Some(a) }),
    ensures
        ({
            let (s2, r) = s.step(Transaction::Chargeback { client: from, tx, amount: ref_amount });
            &&& r is Ok
            &&& s2.deposits == s.deposits.insert(tx, Transaction::Chargeback { client: from, tx, amount: Some(a) })
            &&& s2.held == s.held - a
            &&& s2.available == s.available
            &&& s2.total == s.total - a
            &&& s2.locked
        }),
{
}

/// Once locked, an account stays locked whatever is applied to it.
pub proof fn lemma_lock_is_permanent(s: AccountState, t: Transaction)
    requires
        s.locked,
    ensures
        s.step(t).0.locked,
{
}

/// On a locked account every deposit and withdrawal that carries an amount
/// fails with `AccountLocked` and leaves the balances as they were.
pub proof fn lemma_locked_account_refuses_funds(s: AccountState, t: Transaction)
    requires
        s.locked,
        t is Deposit || t is Withdrawal,
        t.amount_of() is Some,
    ensures
        s.step(t).1 == Err::<(), LedgerError>(LedgerError::AccountLocked),
        s.step(t).0.same_balances(s),
{
}

/// A second dispute of the same deposit fails with `NotADeposit` and leaves
/// the state as the first dispute left it.
pub proof fn lemma_second_dispute_fails(s: AccountState, tx: u32, a: i128, from: u16)
    requires
        s.deposits.contains_key(tx),
        s.deposits[tx] == (Transaction::Deposit { client: from, tx, amount: Some(a) }),
    ensures
        ({
            let d = Transaction::Dispute { client: from, tx, amount: None };
            let (s1, r1) = s.step(d);
            &&& r1 is Ok
            &&& s1.step(d) == (s1, Err::<(), LedgerError>(LedgerError::NotADeposit))
        }),
{
    let s1 = s.step(Transaction::Dispute { client: from, tx, amount: None }).0;
    assert(s1.deposits[tx] == (Transaction::Dispute { client: from, tx, amount: Some(a) }));
}

/// A resolve or chargeback of an id with no stored deposit fails with
/// `UnknownDispute`, and a dispute of it with `UnknownDeposit`; nothing
/// changes.
pub proof fn lemma_unknown_id_changes_nothing(s: AccountState, client: u16, tx: u32, amount: Option<i128>)
    requires
        !s.deposits.contains_key(tx),
    ensures
        s.step(Transaction::Dispute { client, tx, amount }) == (s, Err::<(), LedgerError>(
            LedgerError::UnknownDeposit,
        )),
        s.step(Transaction::Resolve { client, tx, amount }) == (s, Err::<(), LedgerError>(
            LedgerError::UnknownDispute,
        )),
        s.step(Transaction::Chargeback { client, tx, amount }) == (s, Err::<(), LedgerError>(
            LedgerError::UnknownDispute,
        )),
{
}

/// A resolve or chargeback of a stored deposit that was never disputed fails
/// (with `NotADispute`, or `MissingAmount` where the deposit had no amount)
/// and changes nothing.
pub proof fn lemma_undisputed_deposit_changes_nothing(
    s: AccountState,
    client: u16,
    tx: u32,
    amount: Option<i128>,
)
    requires
        s.deposits.contains_key(tx),
        s.deposits[tx] is Deposit,
    ensures
        s.step(Transaction::Resolve { client, tx, amount }).0 == s,
        s.step(Transaction::Resolve { client, tx, amount }).1 is Err,
        s.step(Transaction::Chargeback { client, tx, amount }).0 == s,
        s.step(Transaction::Chargeback { client, tx, amount }).1 is Err,
        s.deposits[tx].amount_of() is Some ==> s.step(Transaction::Resolve { client, tx, amount }).1
            == Err::<(), LedgerError>(LedgerError::NotADispute),
{
}

/// A dispute, resolve or chargeback naming another client than the one that
/// owns the stored deposit fails with `WrongClient` and changes nothing.
pub proof fn lemma_other_client_refused(s: AccountState, client: u16, tx: u32, amount: Option<i128>)
    requires
        s.deposits.contains_key(tx),
        s.deposits[tx].client_of() != client,
        s.deposits[tx].amount_of() is Some,
    ensures
        s.deposits[tx] is Deposit ==> s.step(Transaction::Dispute { client, tx, amount }) == (
        s,
        Err::<(), LedgerError>(LedgerError::WrongClient),
        ),
        s.deposits[tx] is Dispute ==> s.step(Transaction::Resolve { client, tx, amount }) == (
        s,
        Err::<(), LedgerError>(LedgerError::WrongClient),
        ),
        s.deposits[tx] is Dispute ==> s.step(Transaction::Chargeback { client, tx, amount }) == (
        s,
        Err::<(), LedgerError>(LedgerError::WrongClient),
        ),
{
}

/// Whether `t` is a chargeback whose record moves to `Chargeback`, so that
/// its forced withdrawal is attempted.
pub open spec fn reaches_forced_withdrawal(s: AccountState, t: Transaction) -> bool {
    match t {
        Transaction::Chargeback { client, tx, .. } => {
            &&& s.deposits.contains_key(tx)
            &&& s.deposits[tx].amount_of() is Some
            &&& s.deposits[tx].chargeback_spec(client).1 is Ok
        },
        _ => false,
    }
}

/// A transaction that fails leaves the balances and the lock flag as they
/// were, and leaves the stored records alone unless it is a deposit (which is
/// stored before its checks). The one exception is a chargeback whose forced
/// withdrawal fails: it keeps the reversal of the dispute.
pub proof fn lemma_failure_changes_no_balance(s: AccountState, t: Transaction)
    requires
        s.step(t).1 is Err,
        !reaches_forced_withdrawal(s, t),
    ensures
        s.step(t).0.same_balances(s),
        s.step(t).0.client == s.client,
        !(t is Deposit) ==> s.step(t).0.deposits == s.deposits,
{
}

} // verus!
