use ledger::{Account, LedgerError, Transaction};

#[test]
fn a_new_account_is_empty() -> Result<(), LedgerError> {
    let account = Account::new(1);
    assert_eq!(account.available(), 0);
    assert_eq!(account.held(), 0);
    assert_eq!(account.total(), 0);
    Ok(())
}

#[test]
fn a_deposit_transaction_deposits_money_in_the_account_it_is_applied_to() -> Result<(), LedgerError> {
    let mut account = Account::new(1);
    account.apply_transaction(Transaction::Deposit {
        amount: Some(50_0000),
        client: 1,
        tx: 1,
    })?;
    assert_eq!(account.available(), account.total());
    assert_eq!(account.held(), 0);
    assert_eq!(account.available(), 50_0000);
    Ok(())
}

#[test]
fn a_withdrawal_transaction_withdraws_money_from_the_account_it_is_applied_to() -> Result<(), LedgerError> {
    let mut account = Account::new(1);
    account.apply_transaction(Transaction::Deposit {
        amount: Some(100_0000),
        client: 1,
        tx: 1,
    })?;
    account.apply_transaction(Transaction::Withdrawal {
        amount: Some(50_0000),
        client: 1,
        tx: 2,
    })?;
    assert_eq!(account.available(), account.total());
    assert_eq!(account.held(), 0);
    assert_eq!(account.available(), 50_0000);
    Ok(())
}

#[test]
fn a_withdrawal_transaction_fails_silently_when_there_is_insufficient_funds_in_the_account_it_is_applied_to(
) -> Result<(), LedgerError> {
    let mut account = Account::new(1);
    account.apply_transaction(Transaction::Deposit {
        amount: Some(100_0000),
        client: 1,
        tx: 1,
    })?;
    assert!(account
        .apply_transaction(Transaction::Withdrawal {
            amount: Some(101_0000),
            client: 1,
            tx: 2,
        })
        .is_err(),);
    assert_eq!(account.available(), account.total());
    assert_eq!(account.held(), 0);
    assert_eq!(account.available(), 100_0000);
    Ok(())
}

#[test]
fn a_withdrawal_transaction_fails_silently_when_the_account_it_is_applied_to_is_locked(
) -> Result<(), LedgerError> {
    let mut account = Account::new(1);
    account.apply_transaction(Transaction::Deposit {
        amount: Some(100_0000),
        client: 1,
        tx: 1,
    })?;
    account.lock();
    assert!(account
        .apply_transaction(Transaction::Withdrawal {
            amount: Some(50_0000),
            client: 1,
            tx: 2,
        })
        .is_err());
    assert_eq!(account.available(), account.total());
    assert_eq!(account.held(), 0);
    assert_eq!(account.available(), 100_0000);
    Ok(())
}

#[test]
fn a_dispute_transaction_holds_the_given_amount_in_the_account_it_is_applied_to() -> Result<(), LedgerError>
{
    let mut account = Account::new(1);
    account.apply_transaction(Transaction::Deposit {
        amount: Some(70_0000),
        client: 1,
        tx: 1,
    })?;
    account.apply_transaction(Transaction::Deposit {
        amount: Some(30_0000),
        client: 1,
        tx: 2,
    })?;
    assert_eq!(account.available(), account.total());
    assert_eq!(account.held(), 0);
    assert_eq!(account.available(), 100_0000);
    account.apply_transaction(Transaction::Dispute {
        amount: None,
        client: 1,
        tx: 2,
    })?;
    assert_eq!(account.held(), 30_0000);
    assert_eq!(account.available(), 70_0000);
    assert_eq!(account.total(), account.held() + account.available());
    Ok(())
}

#[test]
fn a_resolve_transaction_unholds_the_given_amount_in_the_account_it_is_applied_to() -> Result<(), LedgerError>
{
    let mut account = Account::new(1);
    account.apply_transaction(Transaction::Deposit {
        amount: Some(100_0000),
        client: 1,
        tx: 1,
    })?;
    account.apply_transaction(Transaction::Deposit {
        amount: Some(30_0000),
        client: 1,
        tx: 2,
    })?;
    assert_eq!(account.held(), 0);
    assert_eq!(account.available(), 130_0000);
    assert_eq!(account.total(), account.held() + account.available());
    account.apply_transaction(Transaction::Dispute {
        amount: None,
        client: 1,
        tx: 1,
    })?;
    assert_eq!(account.held(), 100_0000);
    assert_eq!(account.available(), 30_0000);
    assert_eq!(account.total(), account.held() + account.available());
    account.apply_transaction(Transaction::Resolve {
        amount: None,
        client: 1,
        tx: 1,
    })?;
    assert_eq!(account.held(), 0);
    assert_eq!(account.available(), 130_0000);
    assert_eq!(account.total(), account.held() + account.available());
    Ok(())
}

#[test]
fn a_chargeback_transaction_withdraws_amount_and_freezes_the_account_it_is_applied_to(
) -> Result<(), LedgerError> {
    let mut account = Account::new(1);
    account.apply_transaction(Transaction::Deposit {
        amount: Some(100_0000),
        client: 1,
        tx: 1,
    })?;
    account.apply_transaction(Transaction::Deposit {
        amount: Some(20_0000),
        client: 1,
        tx: 2,
    })?;
    assert_eq!(account.available(), account.total());
    assert_eq!(account.held(), 0);
    assert_eq!(account.available(), 120_0000);
    assert!(!account.locked());
    account.apply_transaction(Transaction::Dispute {
        amount: None,
        client: 1,
        tx: 1,
    })?;
    assert_eq!(account.held(), 100_0000);
    assert_eq!(account.available(), 20_0000);
    assert_eq!(account.total(), account.available() + account.held());
    assert!(!account.locked());
    account.apply_transaction(Transaction::Chargeback {
        amount: None,
        client: 1,
        tx: 1,
    })?;
    assert_eq!(account.available(), account.total());
    assert_eq!(account.held(), 0);
    assert_eq!(account.available(), 20_0000);
    assert!(account.locked());
    Ok(())
}
