use chrono::{NaiveDate, NaiveDateTime};
use finance_lib::entities::{Account, Book, Currency, NewPosting, NewTransaction, Posting};
use finance_lib::error::LedgerError;
use finance_lib::ledger::Ledger;

fn text(s: &str) -> String {
    s.to_string()
}

fn at(day: u32) -> NaiveDateTime {
    NaiveDate::from_ymd_opt(2023, 5, day).unwrap().and_hms_opt(12, 0, 0).unwrap()
}

fn posting(account: &str, currency: &str, amount: i32) -> NewPosting {
    NewPosting {
        valuta: None,
        account_name: text(account),
        currency: text(currency),
        amount,
        budget: None,
    }
}

/// A ledger in which alice has the book X with the account Checking, the
/// currency USD and one transaction, whose id is returned.
fn prepared() -> (Ledger, i64) {
    let mut ledger = Ledger::new();
    let alice = text("alice");
    let x = text("X");
    assert_eq!(ledger.create_book(&alice, &Book { name: text("X"), description: None }), Ok(()));
    assert_eq!(
        ledger.create_account(&alice, &x, &Account { name: text("Checking"), description: None }),
        Ok(())
    );
    assert_eq!(
        ledger.create_currency(
            &alice,
            &x,
            &Currency { symbol: text("USD"), description: None, decimal_points: 2 }
        ),
        Ok(())
    );
    let t = ledger
        .create_transaction(&alice, &x, &NewTransaction { description: None, time: None })
        .unwrap();
    (ledger, t)
}

#[test]
fn a_posting_needs_its_transaction() {
    let (mut ledger, t) = prepared();
    let alice = text("alice");
    let x = text("X");
    let new = posting("Checking", "USD", 5);
    assert_eq!(ledger.create_posting(&alice, &x, t + 1, &new), Err(LedgerError::BadRequest));
    assert_eq!(ledger.insert_posting(&alice, &x, t + 1, &new, 9), Err(LedgerError::BadRequest));
    assert_eq!(ledger.get_postings(&alice, &x, t + 1), Vec::<i64>::new());
    assert_eq!(ledger.get_postings(&alice, &x, t), Vec::<i64>::new());
}

#[test]
fn a_posting_needs_its_account() {
    let (mut ledger, t) = prepared();
    let alice = text("alice");
    let x = text("X");
    let new = posting("Savings", "USD", 5);
    assert_eq!(ledger.create_posting(&alice, &x, t, &new), Err(LedgerError::BadRequest));
    assert_eq!(ledger.get_postings(&alice, &x, t), Vec::<i64>::new());
}

#[test]
fn a_posting_needs_its_currency() {
    let (mut ledger, t) = prepared();
    let alice = text("alice");
    let x = text("X");
    let new = posting("Checking", "EUR", 5);
    assert_eq!(ledger.create_posting(&alice, &x, t, &new), Err(LedgerError::BadRequest));
    assert_eq!(ledger.get_postings(&alice, &x, t), Vec::<i64>::new());
}

#[test]
fn a_posting_needs_the_transaction_of_its_own_scope() {
    let (mut ledger, t) = prepared();
    let alice = text("alice");
    let bob = text("bob");
    let y = text("Y");
    assert_eq!(ledger.create_book(&alice, &Book { name: text("Y"), description: None }), Ok(()));
    assert_eq!(ledger.create_book(&bob, &Book { name: text("X"), description: None }), Ok(()));
    let new = posting("Checking", "USD", 5);
    assert_eq!(ledger.create_posting(&alice, &y, t, &new), Err(LedgerError::BadRequest));
    assert_eq!(ledger.create_posting(&bob, &text("X"), t, &new), Err(LedgerError::BadRequest));
}

#[test]
fn a_created_posting_can_be_read_under_its_id() {
    let (mut ledger, t) = prepared();
    let alice = text("alice");
    let x = text("X");
    let new = NewPosting {
        valuta: Some(at(3)),
        account_name: text("Checking"),
        currency: text("USD"),
        amount: -1250,
        budget: Some(true),
    };
    let id = ledger.create_posting(&alice, &x, t, &new).unwrap();
    assert_eq!(
        ledger.get_posting(&alice, &x, t, id),
        Ok(Posting {
            id,
            valuta: Some(at(3)),
            account_name: text("Checking"),
            currency: text("USD"),
            amount: -1250,
            budget: Some(true),
        })
    );
    assert_eq!(ledger.get_postings(&alice, &x, t), vec![id]);
    assert_eq!(ledger.get_posting(&alice, &x, t + 1, id), Err(LedgerError::NotFound));
}

#[test]
fn a_hundred_created_postings_have_a_hundred_ids() {
    let (mut ledger, t) = prepared();
    let alice = text("alice");
    let x = text("X");
    let mut ids: Vec<i64> = Vec::new();
    for n in 0..100 {
        ids.push(ledger.create_posting(&alice, &x, t, &posting("Checking", "USD", n)).unwrap());
    }
    assert_eq!(ledger.get_postings(&alice, &x, t), ids);
    let mut distinct = ids.clone();
    distinct.sort();
    distinct.dedup();
    assert_eq!(distinct.len(), 100);
    for pair in ids.windows(2) {
        assert!(pair[0] < pair[1]);
    }
    assert!(t < ids[0]);
}

#[test]
fn inserting_a_posting_under_a_used_id_is_a_conflict() {
    let (mut ledger, t) = prepared();
    let alice = text("alice");
    let x = text("X");
    assert_eq!(ledger.insert_posting(&alice, &x, t, &posting("Checking", "USD", 1), 9), Ok(9));
    assert_eq!(
        ledger.insert_posting(&alice, &x, t, &posting("Checking", "USD", 2), 9),
        Err(LedgerError::Conflict)
    );
    assert_eq!(ledger.get_posting(&alice, &x, t, 9).unwrap().amount, 1);
    assert_eq!(ledger.get_postings(&alice, &x, t), vec![9]);
}

#[test]
fn a_posting_id_is_used_once_in_the_whole_ledger() {
    let (mut ledger, t) = prepared();
    let alice = text("alice");
    let x = text("X");
    let u = ledger
        .create_transaction(&alice, &x, &NewTransaction { description: None, time: None })
        .unwrap();
    assert_eq!(ledger.insert_posting(&alice, &x, t, &posting("Checking", "USD", 1), 9), Ok(9));
    assert_eq!(
        ledger.insert_posting(&alice, &x, u, &posting("Checking", "USD", 2), 9),
        Err(LedgerError::Conflict)
    );
    assert_eq!(
        ledger.insert_posting(&alice, &x, u, &posting("Checking", "USD", 2), t),
        Err(LedgerError::Conflict)
    );
    assert_eq!(
        ledger.insert_posting(&alice, &x, u, &posting("Checking", "USD", 2), u),
        Err(LedgerError::Conflict)
    );
    assert_eq!(ledger.get_posting(&alice, &x, t, 9).unwrap().amount, 1);
    assert_eq!(ledger.get_posting(&alice, &x, u, 9), Err(LedgerError::NotFound));
    assert_eq!(ledger.get_postings(&alice, &x, u), Vec::<i64>::new());
    assert_eq!(ledger.insert_posting(&alice, &x, u, &posting("Checking", "USD", 2), 10), Ok(10));
    assert_eq!(ledger.get_postings(&alice, &x, u), vec![10]);
}

#[test]
fn a_missing_posting_is_not_found() {
    let (mut ledger, t) = prepared();
    let alice = text("alice");
    let x = text("X");
    assert_eq!(ledger.get_posting(&alice, &x, t, 9), Err(LedgerError::NotFound));
    assert_eq!(ledger.delete_posting(&alice, &x, t, 9), Err(LedgerError::NotFound));
}

#[test]
fn a_deleted_posting_is_gone() {
    let (mut ledger, t) = prepared();
    let alice = text("alice");
    let x = text("X");
    let a = ledger.create_posting(&alice, &x, t, &posting("Checking", "USD", 1)).unwrap();
    let b = ledger.create_posting(&alice, &x, t, &posting("Checking", "USD", 2)).unwrap();
    assert_eq!(ledger.delete_posting(&alice, &x, t, a), Ok(()));
    assert_eq!(ledger.get_posting(&alice, &x, t, a), Err(LedgerError::NotFound));
    assert_eq!(ledger.get_postings(&alice, &x, t), vec![b]);
    assert_eq!(ledger.delete_posting(&alice, &x, t, a), Err(LedgerError::NotFound));
}
