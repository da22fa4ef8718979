use chrono::NaiveDate;
use finance_lib::entities::{
    Account, Book, Currency, CurrencyAmount, NewPosting, NewTransaction, Transaction,
};
use finance_lib::error::LedgerError;
use finance_lib::ledger::Ledger;

fn text(s: &str) -> String {
    s.to_string()
}

/// Fills the book X of `owner` with an account, a currency, a transaction and
/// a posting of `amount`, and returns the ids of the last two.
fn fill(ledger: &mut Ledger, owner: &str, amount: i32) -> (i64, i64) {
    let owner = text(owner);
    let x = text("X");
    let book = Book { name: text("X"), description: Some(owner.clone()) };
    assert_eq!(ledger.create_book(&owner, &book), Ok(()));
    assert_eq!(
        ledger.create_account(&owner, &x, &Account { name: text("Checking"), description: None }),
        Ok(())
    );
    assert_eq!(
        ledger.create_currency(
            &owner,
            &x,
            &Currency { symbol: text("USD"), description: None, decimal_points: 2 }
        ),
        Ok(())
    );
    let t = ledger
        .create_transaction(&owner, &x, &NewTransaction { description: None, time: None })
        .unwrap();
    let p = ledger
        .create_posting(
            &owner,
            &x,
            t,
            &NewPosting {
                valuta: None,
                account_name: text("Checking"),
                currency: text("USD"),
                amount,
                budget: None,
            },
        )
        .unwrap();
    (t, p)
}

#[test]
fn what_one_owner_creates_another_does_not_read() {
    let mut ledger = Ledger::new();
    let (t, p) = fill(&mut ledger, "alice", 500);
    let bob = text("bob");
    let x = text("X");
    assert_eq!(ledger.get_book(&bob, &x), Err(LedgerError::NotFound));
    assert_eq!(ledger.get_books(&bob), Vec::<String>::new());
    assert_eq!(ledger.get_currency(&bob, &x, &text("USD")), Err(LedgerError::NotFound));
    assert_eq!(ledger.get_currencies(&bob, &x), Vec::<String>::new());
    assert_eq!(ledger.get_account(&bob, &x, &text("Checking")), Err(LedgerError::NotFound));
    assert_eq!(ledger.get_accounts(&bob, &x), Vec::<String>::new());
    assert_eq!(ledger.get_transaction(&bob, &x, t), Err(LedgerError::NotFound));
    assert_eq!(ledger.get_transactions(&bob, &x), Vec::<i64>::new());
    assert_eq!(ledger.get_posting(&bob, &x, t, p), Err(LedgerError::NotFound));
    assert_eq!(ledger.get_postings(&bob, &x, t), Vec::<i64>::new());
    assert_eq!(ledger.account_value(&bob, &x, &text("Checking")), Vec::<CurrencyAmount>::new());
    assert_eq!(
        ledger.real_account_value(&bob, &x, &text("Checking")),
        Vec::<CurrencyAmount>::new()
    );
}

#[test]
fn what_one_owner_holds_under_an_id_another_does_not_read_anywhere() {
    let mut ledger = Ledger::new();
    let (t, p) = fill(&mut ledger, "alice", 500);
    let (bt, bp) = fill(&mut ledger, "bob", 70);
    let bob = text("bob");
    let x = text("X");
    assert!(t != bt && p != bp && t != bp && p != bt);
    assert_eq!(ledger.get_transaction(&bob, &x, t), Err(LedgerError::NotFound));
    assert_eq!(ledger.get_posting(&bob, &x, t, p), Err(LedgerError::NotFound));
    assert_eq!(ledger.get_posting(&bob, &x, bt, p), Err(LedgerError::NotFound));
    assert_eq!(ledger.get_postings(&bob, &x, t), Vec::<i64>::new());
    assert_eq!(ledger.get_postings(&bob, &x, bt), vec![bp]);
    let taken = NewPosting {
        valuta: None,
        account_name: text("Checking"),
        currency: text("USD"),
        amount: 1,
        budget: None,
    };
    assert_eq!(ledger.insert_posting(&bob, &x, bt, &taken, p), Err(LedgerError::Conflict));
    assert_eq!(ledger.get_posting(&bob, &x, bt, p), Err(LedgerError::NotFound));
    assert_eq!(ledger.get_posting(&text("alice"), &x, t, p).unwrap().amount, 500);
}

#[test]
fn what_one_owner_holds_another_cannot_change() {
    let mut ledger = Ledger::new();
    let (t, p) = fill(&mut ledger, "alice", 500);
    let bob = text("bob");
    let x = text("X");
    let update = Transaction { id: t, time: None, description: Some(text("taken")) };
    assert_eq!(ledger.delete_posting(&bob, &x, t, p), Err(LedgerError::NotFound));
    assert_eq!(ledger.delete_transaction(&bob, &x, t), Err(LedgerError::NotFound));
    assert_eq!(ledger.update_transaction(&bob, &x, t, &update), Err(LedgerError::NotFound));
    assert_eq!(ledger.delete_account(&bob, &x, &text("Checking")), Err(LedgerError::NotFound));
    assert_eq!(ledger.delete_currency(&bob, &x, &text("USD")), Err(LedgerError::NotFound));
    assert_eq!(ledger.delete_book(&bob, &x), Err(LedgerError::NotFound));
    assert_eq!(
        ledger.update_book(&bob, &x, &Book { name: text("X"), description: None }),
        Err(LedgerError::NotFound)
    );
    let alice = text("alice");
    assert_eq!(
        ledger.get_book(&alice, &x),
        Ok(Book { name: text("X"), description: Some(text("alice")) })
    );
    assert_eq!(ledger.get_postings(&alice, &x, t), vec![p]);
    assert_eq!(ledger.get_transaction(&alice, &x, t).unwrap().description, None);
}

#[test]
fn the_changes_of_one_owner_leave_what_another_reads() {
    let mut ledger = Ledger::new();
    let (t, p) = fill(&mut ledger, "bob", 70);
    let bob = text("bob");
    let x = text("X");
    let book = ledger.get_book(&bob, &x);
    let transaction = ledger.get_transaction(&bob, &x, t);
    let posting = ledger.get_posting(&bob, &x, t, p);
    let value = ledger.account_value(&bob, &x, &text("Checking"));
    assert_eq!(value, vec![CurrencyAmount { currency: text("USD"), amount: 70 }]);

    let (at, ap) = fill(&mut ledger, "alice", 500);
    let alice = text("alice");
    let time = NaiveDate::from_ymd_opt(2020, 2, 2).unwrap().and_hms_opt(2, 2, 2).unwrap();
    let update = Transaction { id: at, time: Some(time), description: Some(text("changed")) };
    assert_eq!(ledger.update_transaction(&alice, &x, at, &update), Ok(()));
    assert_eq!(
        ledger.update_book(&alice, &x, &Book { name: text("X"), description: None }),
        Ok(())
    );
    assert_eq!(
        ledger.update_currency(
            &alice,
            &x,
            &text("USD"),
            &Currency { symbol: text("USD"), description: None, decimal_points: 0 }
        ),
        Ok(())
    );
    assert_eq!(ledger.delete_posting(&alice, &x, at, ap), Ok(()));
    assert_eq!(ledger.delete_transaction(&alice, &x, at), Ok(()));
    assert_eq!(ledger.delete_account(&alice, &x, &text("Checking")), Ok(()));
    assert_eq!(ledger.delete_currency(&alice, &x, &text("USD")), Ok(()));
    assert_eq!(ledger.delete_book(&alice, &x), Ok(()));

    assert_eq!(ledger.get_book(&bob, &x), book);
    assert_eq!(ledger.get_books(&bob), vec![text("X")]);
    assert_eq!(
        ledger.get_currency(&bob, &x, &text("USD")),
        Ok(Currency { symbol: text("USD"), description: None, decimal_points: 2 })
    );
    assert_eq!(ledger.get_currencies(&bob, &x), vec![text("USD")]);
    assert_eq!(ledger.get_accounts(&bob, &x), vec![text("Checking")]);
    assert_eq!(ledger.get_transaction(&bob, &x, t), transaction);
    assert_eq!(ledger.get_transactions(&bob, &x), vec![t]);
    assert_eq!(ledger.get_posting(&bob, &x, t, p), posting);
    assert_eq!(ledger.get_postings(&bob, &x, t), vec![p]);
    assert_eq!(ledger.account_value(&bob, &x, &text("Checking")), value);
    assert_eq!(ledger.real_account_value(&bob, &x, &text("Checking")), value);
}
