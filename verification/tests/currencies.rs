use finance_lib::entities::{Account, Book, Currency, NewPosting, NewTransaction};
use finance_lib::error::LedgerError;
use finance_lib::ledger::Ledger;

fn text(s: &str) -> String {
    s.to_string()
}

fn currency(symbol: &str, decimal_points: u32) -> Currency {
    Currency { symbol: text(symbol), description: None, decimal_points }
}

fn ledger_with_book(owner: &str, book: &str) -> Ledger {
    let mut ledger = Ledger::new();
    assert_eq!(
        ledger.create_book(&text(owner), &Book { name: text(book), description: None }),
        Ok(())
    );
    ledger
}

#[test]
fn a_currency_needs_its_book() {
    let mut ledger = Ledger::new();
    let alice = text("alice");
    let x = text("X");
    assert_eq!(
        ledger.create_currency(&alice, &x, &currency("USD", 2)),
        Err(LedgerError::BadRequest)
    );
    assert_eq!(ledger.get_currencies(&alice, &x), Vec::<String>::new());
    assert_eq!(ledger.create_book(&alice, &Book { name: text("X"), description: None }), Ok(()));
    assert_eq!(ledger.create_currency(&alice, &x, &currency("USD", 2)), Ok(()));
    assert_eq!(ledger.get_currency(&alice, &x, &text("USD")), Ok(currency("USD", 2)));
}

#[test]
fn a_currency_needs_the_book_of_its_own_owner() {
    let mut ledger = ledger_with_book("alice", "X");
    assert_eq!(
        ledger.create_currency(&text("bob"), &text("X"), &currency("USD", 2)),
        Err(LedgerError::BadRequest)
    );
}

#[test]
fn creating_a_currency_twice_is_a_conflict() {
    let mut ledger = ledger_with_book("alice", "X");
    let alice = text("alice");
    let x = text("X");
    assert_eq!(ledger.create_currency(&alice, &x, &currency("USD", 2)), Ok(()));
    assert_eq!(
        ledger.create_currency(&alice, &x, &currency("USD", 3)),
        Err(LedgerError::Conflict)
    );
    assert_eq!(ledger.get_currency(&alice, &x, &text("USD")), Ok(currency("USD", 2)));
}

#[test]
fn the_same_symbol_may_stand_in_two_books() {
    let mut ledger = ledger_with_book("alice", "X");
    let alice = text("alice");
    assert_eq!(ledger.create_book(&alice, &Book { name: text("Y"), description: None }), Ok(()));
    assert_eq!(ledger.create_currency(&alice, &text("X"), &currency("USD", 2)), Ok(()));
    assert_eq!(ledger.create_currency(&alice, &text("Y"), &currency("USD", 0)), Ok(()));
    assert_eq!(ledger.create_currency(&alice, &text("Y"), &currency("EUR", 2)), Ok(()));
    assert_eq!(ledger.get_currencies(&alice, &text("X")), vec![text("USD")]);
    assert_eq!(ledger.get_currencies(&alice, &text("Y")), vec![text("USD"), text("EUR")]);
    assert_eq!(ledger.get_currency(&alice, &text("Y"), &text("USD")), Ok(currency("USD", 0)));
}

#[test]
fn a_missing_currency_is_not_found() {
    let mut ledger = ledger_with_book("alice", "X");
    let alice = text("alice");
    let x = text("X");
    let usd = text("USD");
    assert_eq!(ledger.get_currency(&alice, &x, &usd), Err(LedgerError::NotFound));
    assert_eq!(ledger.delete_currency(&alice, &x, &usd), Err(LedgerError::NotFound));
    assert_eq!(
        ledger.update_currency(&alice, &x, &usd, &currency("USD", 2)),
        Err(LedgerError::NotFound)
    );
}

#[test]
fn an_update_replaces_scale_and_description_and_keeps_the_symbol() {
    let mut ledger = ledger_with_book("alice", "X");
    let alice = text("alice");
    let x = text("X");
    let usd = text("USD");
    assert_eq!(ledger.create_currency(&alice, &x, &currency("USD", 2)), Ok(()));
    let new = Currency { symbol: text("EUR"), description: Some(text("dollar")), decimal_points: 4 };
    assert_eq!(ledger.update_currency(&alice, &x, &usd, &new), Ok(()));
    assert_eq!(
        ledger.get_currency(&alice, &x, &usd),
        Ok(Currency { symbol: text("USD"), description: Some(text("dollar")), decimal_points: 4 })
    );
    assert_eq!(ledger.get_currency(&alice, &x, &text("EUR")), Err(LedgerError::NotFound));
    assert_eq!(ledger.get_currencies(&alice, &x), vec![text("USD")]);
}

#[test]
fn a_currency_with_a_posting_cannot_be_deleted() {
    let mut ledger = ledger_with_book("alice", "X");
    let alice = text("alice");
    let x = text("X");
    assert_eq!(ledger.create_currency(&alice, &x, &currency("USD", 2)), Ok(()));
    assert_eq!(
        ledger.create_account(&alice, &x, &Account { name: text("Checking"), description: None }),
        Ok(())
    );
    let t = ledger
        .create_transaction(&alice, &x, &NewTransaction { description: None, time: None })
        .unwrap();
    let p = ledger
        .create_posting(
            &alice,
            &x,
            t,
            &NewPosting {
                valuta: None,
                account_name: text("Checking"),
                currency: text("USD"),
                amount: 5,
                budget: None,
            },
        )
        .unwrap();
    assert_eq!(ledger.delete_currency(&alice, &x, &text("USD")), Err(LedgerError::BadRequest));
    assert_eq!(ledger.get_currencies(&alice, &x), vec![text("USD")]);
    assert_eq!(ledger.delete_posting(&alice, &x, t, p), Ok(()));
    assert_eq!(ledger.delete_currency(&alice, &x, &text("USD")), Ok(()));
    assert_eq!(ledger.get_currencies(&alice, &x), Vec::<String>::new());
}
