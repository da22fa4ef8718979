use finance_lib::entities::{Account, Book, Currency, NewPosting, NewTransaction};
use finance_lib::error::LedgerError;
use finance_lib::ledger::Ledger;

fn text(s: &str) -> String {
    s.to_string()
}

fn account(name: &str) -> Account {
    Account { name: text(name), description: None }
}

fn ledger_with_book(owner: &str, book: &str) -> Ledger {
    let mut ledger = Ledger::new();
    assert_eq!(
        ledger.create_book(&text(owner), &Book { name: text(book), description: None }),
        Ok(())
    );
    ledger
}

#[test]
fn an_account_needs_its_book() {
    let mut ledger = Ledger::new();
    let alice = text("alice");
    let x = text("X");
    assert_eq!(
        ledger.create_account(&alice, &x, &account("Checking")),
        Err(LedgerError::BadRequest)
    );
    assert_eq!(ledger.create_book(&alice, &Book { name: text("X"), description: None }), Ok(()));
    assert_eq!(ledger.create_account(&alice, &x, &account("Checking")), Ok(()));
    assert_eq!(ledger.get_account(&alice, &x, &text("Checking")), Ok(account("Checking")));
}

#[test]
fn creating_an_account_twice_is_a_conflict() {
    let mut ledger = ledger_with_book("alice", "X");
    let alice = text("alice");
    let x = text("X");
    let first = Account { name: text("Checking"), description: Some(text("first")) };
    assert_eq!(ledger.create_account(&alice, &x, &first), Ok(()));
    assert_eq!(
        ledger.create_account(&alice, &x, &account("Checking")),
        Err(LedgerError::Conflict)
    );
    assert_eq!(ledger.get_account(&alice, &x, &text("Checking")), Ok(first));
    assert_eq!(ledger.get_accounts(&alice, &x), vec![text("Checking")]);
}

#[test]
fn a_missing_account_is_not_found() {
    let mut ledger = ledger_with_book("alice", "X");
    let alice = text("alice");
    let x = text("X");
    assert_eq!(ledger.get_account(&alice, &x, &text("Checking")), Err(LedgerError::NotFound));
    assert_eq!(ledger.delete_account(&alice, &x, &text("Checking")), Err(LedgerError::NotFound));
    assert_eq!(ledger.get_accounts(&alice, &x), Vec::<String>::new());
}

#[test]
fn accounts_are_listed_by_book() {
    let mut ledger = ledger_with_book("alice", "X");
    let alice = text("alice");
    assert_eq!(ledger.create_book(&alice, &Book { name: text("Y"), description: None }), Ok(()));
    assert_eq!(ledger.create_account(&alice, &text("X"), &account("Checking")), Ok(()));
    assert_eq!(ledger.create_account(&alice, &text("Y"), &account("Savings")), Ok(()));
    assert_eq!(ledger.create_account(&alice, &text("X"), &account("Cash")), Ok(()));
    assert_eq!(ledger.get_accounts(&alice, &text("X")), vec![text("Checking"), text("Cash")]);
    assert_eq!(ledger.get_accounts(&alice, &text("Y")), vec![text("Savings")]);
}

#[test]
fn an_account_with_a_posting_cannot_be_deleted() {
    let mut ledger = ledger_with_book("alice", "X");
    let alice = text("alice");
    let x = text("X");
    assert_eq!(
        ledger.create_currency(
            &alice,
            &x,
            &Currency { symbol: text("USD"), description: None, decimal_points: 2 }
        ),
        Ok(())
    );
    assert_eq!(ledger.create_account(&alice, &x, &account("Checking")), Ok(()));
    assert_eq!(ledger.create_account(&alice, &x, &account("Cash")), Ok(()));
    let t = ledger
        .create_transaction(&alice, &x, &NewTransaction { description: None, time: None })
        .unwrap();
    let p = ledger
        .create_posting(
            &alice,
            &x,
            t,
            &NewPosting {
                valuta: None,
                account_name: text("Checking"),
                currency: text("USD"),
                amount: 5,
                budget: None,
            },
        )
        .unwrap();
    assert_eq!(ledger.delete_account(&alice, &x, &text("Checking")), Err(LedgerError::BadRequest));
    assert_eq!(ledger.delete_account(&alice, &x, &text("Cash")), Ok(()));
    assert_eq!(ledger.delete_posting(&alice, &x, t, p), Ok(()));
    assert_eq!(ledger.delete_account(&alice, &x, &text("Checking")), Ok(()));
    assert_eq!(ledger.get_accounts(&alice, &x), Vec::<String>::new());
}
