use ledger::Transaction;

#[test]
fn a_deposit_can_be_turned_into_a_dispute() {
    let mut transaction = Transaction::Deposit {
        client: 1,
        tx: 1,
        amount: Some(10_0000),
    };
    assert!(transaction.dispute(1).is_ok());
    assert_eq!(
        transaction,
        Transaction::Dispute {
            client: 1,
            tx: 1,
            amount: Some(10_0000)
        }
    );
}

#[test]
fn disputing_a_deposit_using_the_wrong_client_id_fails() {
    let mut transaction = Transaction::Deposit {
        amount: Some(10_0000),
        client: 1,
        tx: 1,
    };
    assert!(transaction.dispute(2).is_err());
    assert_eq!(
        transaction,
        Transaction::Deposit {
            amount: Some(10_0000),
            client: 1,
            tx: 1,
        }
    );
    assert_eq!(transaction.get_amount(), &Some(10_0000));
}

#[test]
fn a_deposit_cannot_be_turned_into_transactions_other_than_disputes() {
    let mut transaction = Transaction::Deposit {
        amount: Some(10_0000),
        client: 1,
        tx: 1,
    };
    assert_eq!(
        transaction,
        Transaction::Deposit {
            amount: Some(10_0000),
            client: 1,
            tx: 1,
        }
    );
    assert!(transaction.chargeback(1).is_err());
    assert_eq!(
        transaction,
        Transaction::Deposit {
            amount: Some(10_0000),
            client: 1,
            tx: 1,
        }
    );
}

#[test]
fn a_dispute_can_be_turned_into_a_resolve() {
    let mut transaction = Transaction::Dispute {
        amount: Some(10_0000),
        client: 1,
        tx: 1,
    };
    assert!(transaction.resolve(1).is_ok());
    assert_eq!(
        transaction,
        Transaction::Resolve {
            amount: Some(10_0000),
            client: 1,
            tx: 1,
        }
    );
}

#[test]
fn resolving_a_dispute_using_the_wrong_client_id_fails() {
    let mut transaction = Transaction::Dispute {
        amount: Some(10_0000),
        client: 1,
        tx: 1,
    };
    assert!(transaction.resolve(2).is_err());
    assert_eq!(
        transaction,
        Transaction::Dispute {
            amount: Some(10_0000),
            client: 1,
            tx: 1,
        }
    );
}

#[test]
fn a_dispute_can_be_turned_into_a_chargeback() {
    let mut transaction = Transaction::Dispute {
        amount: Some(10_0000),
        client: 1,
        tx: 1,
    };
    assert!(transaction.chargeback(1).is_ok());
    assert_eq!(
        transaction,
        Transaction::Chargeback {
            amount: Some(10_0000),
            client: 1,
            tx: 1,
        }
    );
}

#[test]
fn chargebacking_a_dispute_using_the_wrong_client_id_fails() {
    let mut transaction = Transaction::Dispute {
        amount: Some(10_0000),
        client: 1,
        tx: 1,
    };
    assert!(transaction.chargeback(2).is_err());
    assert_eq!(
        transaction,
        Transaction::Dispute {
            amount: Some(10_0000),
            client: 1,
            tx: 1,
        }
    );
}

#[test]
fn a_chargeback_cannot_be_turned_into_other_kinds_of_transactions() {
    let mut transaction = Transaction::Chargeback {
        amount: Some(10_0000),
        client: 1,
        tx: 1,
    };
    assert!(transaction.resolve(1).is_err());
    assert_eq!(
        transaction,
        Transaction::Chargeback {
            amount: Some(10_0000),
            client: 1,
            tx: 1,
        }
    );

    assert!(transaction.dispute(1).is_err());
    assert_eq!(
        transaction,
        Transaction::Chargeback {
            client: 1,
            tx: 1,
            amount: Some(10_0000),
        }
    );

    assert!(transaction.chargeback(1).is_err());
    assert_eq!(
        transaction,
        Transaction::Chargeback {
            client: 1,
            tx: 1,
            amount: Some(10_0000),
        }
    );
}
