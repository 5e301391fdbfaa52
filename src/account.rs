use crate::transaction::{LedgerError, Transaction};
use std::collections::HashMap;
use vstd::prelude::*;

verus! {

broadcast use vstd::std_specs::hash::group_hash_axioms;

/// The mathematical state of one account: balances as unbounded integers
/// (in ten-thousandths) and the stored deposit records by transaction id.
pub ghost struct AccountState {
    pub client: u16,
    pub available: int,
    pub held: int,
    pub total: int,
    pub locked: bool,
    pub deposits: Map<u32, Transaction>,
}

impl AccountState {
    pub open spec fn empty(client: u16) -> AccountState {
        AccountState {
            client,
            available: 0,
            held: 0,
            total: 0,
            locked: false,
            deposits: Map::empty(),
        }
    }

    /// The total is the sum of the available and the held funds.
    pub open spec fn balanced(self) -> bool {
        self.total == self.available + self.held
    }

    /// Every balance fits the machine representation.
    pub open spec fn in_range(self) -> bool {
        &&& i128::MIN <= self.available <= i128::MAX
        &&& i128::MIN <= self.held <= i128::MAX
        &&& i128::MIN <= self.total <= i128::MAX
    }

    pub open spec fn same_balances(self, other: AccountState) -> bool {
        &&& self.available == other.available
        &&& self.held == other.held
        &&& self.total == other.total
        &&& self.locked == other.locked
    }

    pub open spec fn with_available(self, available: int) -> AccountState {
        AccountState { available, total: available + self.held, ..self }
    }

    pub open spec fn with_record(self, tx: u32, record: Transaction) -> AccountState {
        AccountState { deposits: self.deposits.insert(tx, record), ..self }
    }

    /// Moves `a` from the available to the held funds.
    pub open spec fn held_moved(self, a: int) -> AccountState {
        AccountState {
            available: self.available - a,
            held: self.held + a,
            total: (self.available - a) + (self.held + a),
            ..self
        }
    }

    pub open spec fn deposited(self, a: int) -> (AccountState, Result<(), LedgerError>) {
        if self.locked {
            (self, Err(LedgerError::AccountLocked))
        } else {
            (self.with_available(self.available + a), Ok(()))
        }
    }

    pub open spec fn withdrawn(self, a: int) -> (AccountState, Result<(), LedgerError>) {
        if self.locked {
            (self, Err(LedgerError::AccountLocked))
        } else if self.available < a {
            (self, Err(LedgerError::InsufficientFunds))
        } else {
            (self.with_available(self.available - a), Ok(()))
        }
    }

    /// Reverses a dispute of `a`, withdraws `a` and, if that succeeds, locks
    /// the account. A failed withdrawal keeps the reversal.
    pub open spec fn charged_back(self, a: int) -> (AccountState, Result<(), LedgerError>) {
        let reversed = self.held_moved(-a);
        let (w, r) = reversed.withdrawn(a);
        match r {
            Ok(_) => (AccountState { locked: true, ..w }, Ok(())),
            Err(e) => (reversed, Err(e)),
        }
    }

    /// The state after applying `t`, and the outcome.
    pub open spec fn step(self, t: Transaction) -> (AccountState, Result<(), LedgerError>) {
        match t {
            Transaction::Deposit { tx, amount, .. } => {
                let s = self.with_record(tx, t);
                match amount {
                    Some(a) => s.deposited(a as int),
                    None => (s, Err(LedgerError::MissingAmount)),
                }
            },
            Transaction::Withdrawal { amount, .. } => match amount {
                Some(a) => self.withdrawn(a as int),
                None => (self, Err(LedgerError::MissingAmount)),
            },
            Transaction::Dispute { client, tx, .. } => if !self.deposits.contains_key(tx) {
                (self, Err(LedgerError::UnknownDeposit))
            } else {
                let d = self.deposits[tx];
                match d.amount_of() {
                    None => (self, Err(LedgerError::MissingAmount)),
                    Some(a) => {
                        let (d2, r) = d.dispute_spec(client);
                        match r {
                            Ok(_) => (self.with_record(tx, d2).held_moved(a as int), Ok(())),
                            Err(e) => (self, Err(e)),
                        }
                    },
                }
            },
            Transaction::Resolve { client, tx, .. } => if !self.deposits.contains_key(tx) {
                (self, Err(LedgerError::UnknownDispute))
            } else {
                let d = self.deposits[tx];
                match d.amount_of() {
                    None => (self, Err(LedgerError::MissingAmount)),
                    Some(a) => {
                        let (d2, r) = d.resolve_spec(client);
                        match r {
                            Ok(_) => (self.with_record(tx, d2).held_moved(-a), Ok(())),
                            Err(e) => (self, Err(e)),
                        }
                    },
                }
            },
            Transaction::Chargeback { client, tx, .. } => if !self.deposits.contains_key(tx) {
                (self, Err(LedgerError::UnknownDispute))
            } else {
                let d = self.deposits[tx];
                match d.amount_of() {
                    None => (self, Err(LedgerError::MissingAmount)),
                    Some(a) => {
                        let (d2, r) = d.chargeback_spec(client);
                        match r {
                            Ok(_) => self.with_record(tx, d2).charged_back(a as int),
                            Err(e) => (self, Err(e)),
                        }
                    },
                }
            },
        }
    }

    /// The state after applying every transaction of `ts` in order.
    pub open spec fn run(self, ts: Seq<Transaction>) -> AccountState
        decreases ts.len(),
    {
        if ts.len() == 0 {
            self
        } else {
            self.step(ts[0]).0.run(ts.drop_first())
        }
    }
}

/// One client's balances, lock flag and stored deposits.
pub struct Account {
    client: u16,
    available: i128,
    held: i128,
    total: i128,
    locked: bool,
    deposits: HashMap<u32, Transaction>,
}

impl View for Account {
    type V = AccountState;

    closed spec fn view(&self) -> AccountState {
        AccountState {
            client: self.client,
            available: self.available as int,
            held: self.held as int,
            total: self.total as int,
            locked: self.locked,
            deposits: self.deposits@,
        }
    }
}

impl Account {
    pub fn new(client: u16) -> (r: Account)
        ensures
            r@ == AccountState::empty(client),
    {
        let r = Account {
            client,
            available: 0,
            held: 0,
            total: 0,
            locked: false,
            deposits: HashMap::new(),
        };
        proof {
            assert(r.deposits@ =~= Map::<u32, Transaction>::empty());
        }
        r
    }

    pub fn client(&self) -> (r: u16)
        ensures
            r == self@.client,
    {
        self.client
    }

    pub fn available(&self) -> (r: i128)
        ensures
            r == self@.available,
    {
        self.available
    }

    pub fn held(&self) -> (r: i128)
        ensures
            r == self@.held,
    {
        self.held
    }

    pub fn total(&self) -> (r: i128)
        ensures
            r == self@.total,
    {
        self.total
    }

    pub fn locked(&self) -> (r: bool)
        ensures
            r == self@.locked,
    {
        self.locked
    }

    /// Freezes the account for good.
    pub fn lock(&mut self)
        ensures
            final(self)@ == (AccountState { locked: true, ..old(self)@ }),
    {
        self.locked = true;
    }
    /// Credits `amount` unless the account is locked.
    fn deposit(&mut self, amount: i128) -> (r: Result<(), LedgerError>)
        requires
            old(self)@.balanced(),
            old(self)@.deposited(amount as int).0.in_range(),
        ensures
            (final(self)@, r) == old(self)@.deposited(amount as int),
    {
        if self.locked {
            return Err(LedgerError::AccountLocked);
        }
        self.available = self.available + amount;
        self.total = self.available + self.held;
        Ok(())
    }

    /// Debits `amount` unless the account is locked or short of funds.
    fn withdraw(&mut self, amount: i128) -> (r: Result<(), LedgerError>)
        requires
            old(self)@.balanced(),
            old(self)@.withdrawn(amount as int).0.in_range(),
        ensures
            (final(self)@, r) == old(self)@.withdrawn(amount as int),
    {
        if self.locked {
            return Err(LedgerError::AccountLocked);
        }
        if self.available < amount {
            return Err(LedgerError::InsufficientFunds);
        }
        self.available = self.available - amount;
        self.total = self.available + self.held;
        Ok(())
    }

    /// Holds `amount` of the available funds.
    fn dispute(&mut self, amount: i128)
        requires
            old(self)@.held_moved(amount as int).in_range(),
        ensures
            final(self)@ == old(self)@.held_moved(amount as int),
    {
        self.held = self.held + amount;
        self.available = self.available - amount;
        self.total = self.available + self.held;
    }

    /// Releases `amount` of the held funds back to the available ones.
    fn resolve(&mut self, amount: i128)
        requires
            old(self)@.held_moved(-amount).in_range(),
        ensures
            final(self)@ == old(self)@.held_moved(-amount),
    {
        self.held = self.held - amount;
        self.available = self.available + amount;
        self.total = self.available + self.held;
    }

    /// Reverses a dispute of `amount`, withdraws `amount` and locks the
    /// account. The withdrawal after the reversal succeeds exactly when the
    /// account is unlocked and its available funds are not negative, so the
    /// outcome is decided first and no intermediate balance is computed.
    fn chargeback(&mut self, amount: i128) -> (r: Result<(), LedgerError>)
        requires
            old(self)@.balanced(),
            old(self)@.charged_back(amount as int).0.in_range(),
        ensures
            (final(self)@, r) == old(self)@.charged_back(amount as int),
    {
        if self.locked || self.available < 0 {
            let e = if self.locked {
                LedgerError::AccountLocked
            } else {
                LedgerError::InsufficientFunds
            };
            self.resolve(amount);
            return Err(e);
        }
        self.held = self.held - amount;
        self.total = self.available + self.held;
        self.lock();
        Ok(())
    }

    /// Applies one transaction record to this account.
    ///
    /// A deposit is stored under its id (replacing any earlier record of that
    /// id) before its amount is checked and credited. A dispute, resolve or
    /// chargeback looks up the stored deposit it refers to, moves that record
    /// one step along its lifecycle on behalf of the client it names (which
    /// must own the deposit) and then moves the funds.
    pub fn apply_transaction(&mut self, transaction: Transaction) -> (r: Result<(), LedgerError>)
        requires
            old(self)@.balanced(),
            old(self)@.step(transaction).0.in_range(),
        ensures
            (final(self)@, r) == old(self)@.step(transaction),
            final(self)@.balanced(),
    {
        match transaction {
            Transaction::Deposit { tx, amount, .. } => {
                self.deposits.insert(tx, transaction);
                match amount {
                    Some(a) => self.deposit(a),
                    None => Err(LedgerError::MissingAmount),
                }
            },
            Transaction::Withdrawal { amount, .. } => match amount {
                Some(a) => self.withdraw(a),
                None => Err(LedgerError::MissingAmount),
            },
            Transaction::Dispute { client, tx, .. } => {
                let mut record = match self.deposits.get(&tx) {
                    Some(d) => *d,
                    None => return Err(LedgerError::UnknownDeposit),
                };
                let amount = match record.get_amount() {
                    Some(a) => *a,
                    None => return Err(LedgerError::MissingAmount),
                };
                if let Err(e) = record.dispute(client) {
                    return Err(e);
                }
                self.deposits.insert(tx, record);
                self.dispute(amount);
                Ok(())
            },
            Transaction::Resolve { client, tx, .. } => {
                let mut record = match self.deposits.get(&tx) {
                    Some(d) => *d,
                    None => return Err(LedgerError::UnknownDispute),
                };
                let amount = match record.get_amount() {
                    Some(a) => *a,
                    None => return Err(LedgerError::MissingAmount),
                };
                if let Err(e) = record.resolve(client) {
                    return Err(e);
                }
                self.deposits.insert(tx, record);
                self.resolve(amount);
                Ok(())
            },
            Transaction::Chargeback { client, tx, .. } => {
                let mut record = match self.deposits.get(&tx) {
                    Some(d) => *d,
                    None => return Err(LedgerError::UnknownDispute),
                };
                let amount = match record.get_amount() {
                    Some(a) => *a,
                    None => return Err(LedgerError::MissingAmount),
                };
                if let Err(e) = record.chargeback(client) {
                    return Err(e);
                }
                self.deposits.insert(tx, record);
                self.chargeback(amount)
            },
        }
    }

    /// Whether moving `a` from the available to the held funds keeps every
    /// balance representable.
    fn can_move(&self, a: i128) -> (r: bool)
        requires
            self@.balanced(),
        ensures
            r == self@.held_moved(a as int).in_range(),
    {
        self.available.checked_sub(a).is_some() && self.held.checked_add(a).is_some()
    }

    /// Whether moving `a` from the held back to the available funds keeps
    /// every balance representable.
    fn can_release(&self, a: i128) -> (r: bool)
        requires
            self@.balanced(),
        ensures
            r == self@.held_moved(-a).in_range(),
    {
        self.available.checked_add(a).is_some() && self.held.checked_sub(a).is_some()
    }

    /// Whether setting the available funds to `available + delta` keeps every
    /// balance representable.
    fn can_shift(&self, delta: i128) -> (r: bool)
        requires
            self@.balanced(),
        ensures
            r == self@.with_available(self@.available + delta).in_range(),
    {
        match self.available.checked_add(delta) {
            Some(v) => v.checked_add(self.held).is_some(),
            None => false,
        }
    }

    /// Whether applying `transaction` keeps every balance representable, that
    /// is whether `apply_transaction` may be called with it.
    pub fn can_apply(&self, transaction: &Transaction) -> (r: bool)
        requires
            self@.balanced(),
        ensures
            r == self@.step(*transaction).0.in_range(),
    {
        match *transaction {
            Transaction::Deposit { amount, .. } => match amount {
                Some(a) => self.locked || self.can_shift(a),
                None => true,
            },
            Transaction::Withdrawal { amount, .. } => match amount {
                Some(a) => {
                    if self.locked || self.available < a {
                        true
                    } else {
                        match self.available.checked_sub(a) {
                            Some(v) => v.checked_add(self.held).is_some(),
                            None => false,
                        }
                    }
                },
                None => true,
            },
            Transaction::Dispute { client, tx, .. }
            | Transaction::Resolve { client, tx, .. }
            | Transaction::Chargeback { client, tx, .. } => {
                let mut record = match self.deposits.get(&tx) {
                    Some(d) => *d,
                    None => return true,
                };
                let a = match record.get_amount() {
                    Some(a) => *a,
                    None => return true,
                };
                let moved = match *transaction {
                    Transaction::Dispute { .. } => record.dispute(client),
                    Transaction::Resolve { .. } => record.resolve(client),
                    _ => record.chargeback(client),
                };
                if moved.is_err() {
                    return true;
                }
                match *transaction {
                    Transaction::Dispute { .. } => self.can_move(a),
                    Transaction::Resolve { .. } => self.can_release(a),
                    _ => if self.locked || self.available < 0 {
                        self.can_release(a)
                    } else {
                        self.held.checked_sub(a).is_some() && self.total.checked_sub(a).is_some()
                    },
                }
            },
        }
    }
}

} // verus!
