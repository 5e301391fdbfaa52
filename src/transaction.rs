use vstd::prelude::*;

verus! {

/// Why a transaction could not be applied.
#[derive(Debug, Clone, Copy, PartialEq, Eq, Structural)]
pub enum LedgerError {
    /// A deposit or withdrawal (or the deposit a dispute refers to) has no amount.
    MissingAmount,
    /// A deposit or withdrawal was attempted on a frozen account.
    AccountLocked,
    /// A withdrawal asked for more than the available funds.
    InsufficientFunds,
    /// A dispute refers to a transaction id with no stored deposit.
    UnknownDeposit,
    /// A resolve or chargeback refers to a transaction id with no stored deposit.
    UnknownDispute,
    /// The stored deposit belongs to another client.
    WrongClient,
    /// Only a record that is still a deposit can be disputed.
    NotADeposit,
    /// Only a record under dispute can be resolved or charged back.
    NotADispute,
}

/// One transaction record. Amounts are fixed-point values counted in
/// ten-thousandths (`12_3400` stands for `12.34`).
///
/// A stored deposit changes kind in place as it is disputed, then resolved
/// or charged back; dispute, resolve and chargeback records arriving from
/// outside carry the id of the deposit they refer to.
#[derive(Debug, Clone, Copy, PartialEq, Eq, Structural)]
pub enum Transaction {
    Deposit { client: u16, tx: u32, amount: Option<i128> },
    Withdrawal { client: u16, tx: u32, amount: Option<i128> },
    Dispute { client: u16, tx: u32, amount: Option<i128> },
    Resolve { client: u16, tx: u32, amount: Option<i128> },
    Chargeback { client: u16, tx: u32, amount: Option<i128> },
}

impl Transaction {
    pub open spec fn client_of(self) -> u16 {
        match self {
            Transaction::Deposit { client, .. } => client,
            Transaction::Withdrawal { client, .. } => client,
            Transaction::Dispute { client, .. } => client,
            Transaction::Resolve { client, .. } => client,
            Transaction::Chargeback { client, .. } => client,
        }
    }

    pub open spec fn amount_of(self) -> Option<i128> {
        match self {
            Transaction::Deposit { amount, .. } => amount,
            Transaction::Withdrawal { amount, .. } => amount,
            Transaction::Dispute { amount, .. } => amount,
            Transaction::Resolve { amount, .. } => amount,
            Transaction::Chargeback { amount, .. } => amount,
        }
    }

    /// The record after a dispute by `from_client`, and the outcome.
    pub open spec fn dispute_spec(self, from_client: u16) -> (Transaction, Result<(), LedgerError>) {
        match self {
            Transaction::Deposit { client, tx, amount } => if client == from_client {
                (Transaction::Dispute { client, tx, amount }, Ok(()))
            } else {
                (self, Err(LedgerError::WrongClient))
            },
            _ => (self, Err(LedgerError::NotADeposit)),
        }
    }

    /// The record after a resolve by `from_client`, and the outcome.
    pub open spec fn resolve_spec(self, from_client: u16) -> (Transaction, Result<(), LedgerError>) {
        match self {
            Transaction::Dispute { client, tx, amount } => if client == from_client {
                (Transaction::Resolve { client, tx, amount }, Ok(()))
            } else {
                (self, Err(LedgerError::WrongClient))
            },
            _ => (self, Err(LedgerError::NotADispute)),
        }
    }

    /// The record after a chargeback by `from_client`, and the outcome.
    pub open spec fn chargeback_spec(self, from_client: u16) -> (Transaction, Result<(), LedgerError>) {
        match self {
            Transaction::Dispute { client, tx, amount } => if client == from_client {
                (Transaction::Chargeback { client, tx, amount }, Ok(()))
            } else {
                (self, Err(LedgerError::WrongClient))
            },
            _ => (self, Err(LedgerError::NotADispute)),
        }
    }

    pub fn get_client(&self) -> (r: &u16)
        ensures
            *r == self.client_of(),
    {
        match self {
            Transaction::Deposit { client, .. } => client,
            Transaction::Withdrawal { client, .. } => client,
            Transaction::Dispute { client, .. } => client,
            Transaction::Resolve { client, .. } => client,
            Transaction::Chargeback { client, .. } => client,
        }
    }

    pub fn get_amount(&self) -> (r: &Option<i128>)
        ensures
            *r == self.amount_of(),
    {
        match self {
            Transaction::Deposit { amount, .. } => amount,
            Transaction::Withdrawal { amount, .. } => amount,
            Transaction::Dispute { amount, .. } => amount,
            Transaction::Resolve { amount, .. } => amount,
            Transaction::Chargeback { amount, .. } => amount,
        }
    }

    /// Turns a deposit owned by `from_client` into a dispute; any other
    /// record is left as it is and an error is returned.
    pub fn dispute(&mut self, from_client: u16) -> (r: Result<(), LedgerError>)
        ensures
            (*final(self), r) == old(self).dispute_spec(from_client),
    {
        if let Transaction::Deposit { client, tx, amount } = *self {
            if client != from_client {
                return Err(LedgerError::WrongClient);
            }
            *self = Transaction::Dispute { client, tx, amount };
            return Ok(());
        }
        Err(LedgerError::NotADeposit)
    }

    /// Turns a dispute owned by `from_client` into a resolve; any other
    /// record is left as it is and an error is returned.
    pub fn resolve(&mut self, from_client: u16) -> (r: Result<(), LedgerError>)
        ensures
            (*final(self), r) == old(self).resolve_spec(from_client),
    {
        if let Transaction::Dispute { client, tx, amount } = *self {
            if client != from_client {
                return Err(LedgerError::WrongClient);
            }
            *self = Transaction::Resolve { client, tx, amount };
            return Ok(());
        }
        Err(LedgerError::NotADispute)
    }

    /// Turns a dispute owned by `from_client` into a chargeback; any other
    /// record is left as it is and an error is returned.
    pub fn chargeback(&mut self, from_client: u16) -> (r: Result<(), LedgerError>)
        ensures
            (*final(self), r) == old(self).chargeback_spec(from_client),
    {
        if let Transaction::Dispute { client, tx, amount } = *self {
            if client != from_client {
                return Err(LedgerError::WrongClient);
            }
            *self = Transaction::Chargeback { client, tx, amount };
            return Ok(());
        }
        Err(LedgerError::NotADispute)
    }
}

} // verus!
