use finance_lib::entities::{Account, Book, Currency, CurrencyAmount, NewPosting, NewTransaction};
use finance_lib::ledger::balance::balance_of;
use finance_lib::ledger::Ledger;
use finance_lib::model;

fn text(s: &str) -> String {
    s.to_string()
}

fn posting(account: &str, currency: &str, amount: i32, budget: Option<bool>) -> NewPosting {
    NewPosting {
        valuta: None,
        account_name: text(account),
        currency: text(currency),
        amount,
        budget,
    }
}

fn amount(currency: &str, amount: i128) -> CurrencyAmount {
    CurrencyAmount { currency: text(currency), amount }
}

/// The balance as a set: sorted by currency.
fn sorted(mut balance: Vec<CurrencyAmount>) -> Vec<CurrencyAmount> {
    balance.sort_by(|a, b| a.currency.cmp(&b.currency));
    balance
}

/// A ledger in which alice has the book X with the accounts Checking and
/// Savings, the currencies USD and EUR and one transaction, whose id is
/// returned.
fn prepared() -> (Ledger, i64) {
    let mut ledger = Ledger::new();
    let alice = text("alice");
    let x = text("X");
    assert_eq!(ledger.create_book(&alice, &Book { name: text("X"), description: None }), Ok(()));
    for name in ["Checking", "Savings"] {
        assert_eq!(
            ledger.create_account(&alice, &x, &Account { name: text(name), description: None }),
            Ok(())
        );
    }
    for symbol in ["USD", "EUR"] {
        assert_eq!(
            ledger.create_currency(
                &alice,
                &x,
                &Currency { symbol: text(symbol), description: None, decimal_points: 2 }
            ),
            Ok(())
        );
    }
    let t = ledger
        .create_transaction(&alice, &x, &NewTransaction { description: None, time: None })
        .unwrap();
    (ledger, t)
}

#[test]
fn postings_are_summed_by_currency() {
    let (mut ledger, t) = prepared();
    let alice = text("alice");
    let x = text("X");
    let checking = text("Checking");
    for new in [
        posting("Checking", "USD", 500, None),
        posting("Checking", "USD", -200, None),
        posting("Checking", "EUR", 300, None),
    ] {
        ledger.create_posting(&alice, &x, t, &new).unwrap();
    }
    assert_eq!(
        sorted(ledger.account_value(&alice, &x, &checking)),
        vec![amount("EUR", 300), amount("USD", 300)]
    );
    assert_eq!(
        sorted(ledger.real_account_value(&alice, &x, &checking)),
        vec![amount("EUR", 300), amount("USD", 300)]
    );
}

#[test]
fn a_budget_posting_does_not_count_as_real() {
    let (mut ledger, t) = prepared();
    let alice = text("alice");
    let x = text("X");
    let checking = text("Checking");
    for new in [
        posting("Checking", "USD", 500, None),
        posting("Checking", "USD", -200, Some(false)),
        posting("Checking", "EUR", 300, Some(true)),
    ] {
        ledger.create_posting(&alice, &x, t, &new).unwrap();
    }
    assert_eq!(
        sorted(ledger.account_value(&alice, &x, &checking)),
        vec![amount("EUR", 300), amount("USD", 300)]
    );
    assert_eq!(ledger.real_account_value(&alice, &x, &checking), vec![amount("USD", 300)]);
}

#[test]
fn a_budget_posting_beside_a_real_one_leaves_the_real_amount() {
    let (mut ledger, t) = prepared();
    let alice = text("alice");
    let x = text("X");
    let checking = text("Checking");
    for new in [
        posting("Checking", "USD", 500, Some(true)),
        posting("Checking", "USD", -200, None),
    ] {
        ledger.create_posting(&alice, &x, t, &new).unwrap();
    }
    assert_eq!(ledger.account_value(&alice, &x, &checking), vec![amount("USD", 300)]);
    assert_eq!(ledger.real_account_value(&alice, &x, &checking), vec![amount("USD", -200)]);
}

#[test]
fn an_account_without_postings_has_an_empty_balance() {
    let (mut ledger, t) = prepared();
    let alice = text("alice");
    let x = text("X");
    ledger.create_posting(&alice, &x, t, &posting("Checking", "USD", 5, None)).unwrap();
    assert_eq!(ledger.account_value(&alice, &x, &text("Savings")), Vec::<CurrencyAmount>::new());
    assert_eq!(
        ledger.real_account_value(&alice, &x, &text("Savings")),
        Vec::<CurrencyAmount>::new()
    );
    assert_eq!(ledger.account_value(&alice, &x, &text("Unknown")), Vec::<CurrencyAmount>::new());
    assert_eq!(ledger.account_value(&alice, &text("Y"), &text("Checking")), Vec::<CurrencyAmount>::new());
}

#[test]
fn postings_that_cancel_leave_a_zero_amount() {
    let (mut ledger, t) = prepared();
    let alice = text("alice");
    let x = text("X");
    ledger.create_posting(&alice, &x, t, &posting("Checking", "USD", 5, None)).unwrap();
    ledger.create_posting(&alice, &x, t, &posting("Checking", "USD", -5, None)).unwrap();
    assert_eq!(ledger.account_value(&alice, &x, &text("Checking")), vec![amount("USD", 0)]);
}

#[test]
fn amounts_beyond_thirty_two_bits_are_summed_exactly() {
    let (mut ledger, t) = prepared();
    let alice = text("alice");
    let x = text("X");
    for _ in 0..3 {
        ledger.create_posting(&alice, &x, t, &posting("Checking", "USD", i32::MAX, None)).unwrap();
        ledger.create_posting(&alice, &x, t, &posting("Checking", "EUR", i32::MIN, None)).unwrap();
    }
    assert_eq!(
        sorted(ledger.account_value(&alice, &x, &text("Checking"))),
        vec![amount("EUR", -6442450944), amount("USD", 6442450941)]
    );
}

#[test]
fn postings_of_other_accounts_do_not_count() {
    let (mut ledger, t) = prepared();
    let alice = text("alice");
    let x = text("X");
    ledger.create_posting(&alice, &x, t, &posting("Checking", "USD", 500, None)).unwrap();
    ledger.create_posting(&alice, &x, t, &posting("Savings", "USD", 70, None)).unwrap();
    ledger.create_posting(&alice, &x, t, &posting("Savings", "EUR", 7, None)).unwrap();
    assert_eq!(ledger.account_value(&alice, &x, &text("Checking")), vec![amount("USD", 500)]);
    assert_eq!(
        sorted(ledger.account_value(&alice, &x, &text("Savings"))),
        vec![amount("EUR", 7), amount("USD", 70)]
    );
}

#[test]
fn a_deleted_posting_leaves_the_balance() {
    let (mut ledger, t) = prepared();
    let alice = text("alice");
    let x = text("X");
    let a = ledger.create_posting(&alice, &x, t, &posting("Checking", "USD", 500, None)).unwrap();
    let b = ledger.create_posting(&alice, &x, t, &posting("Checking", "EUR", 300, None)).unwrap();
    assert_eq!(ledger.delete_posting(&alice, &x, t, b), Ok(()));
    assert_eq!(ledger.account_value(&alice, &x, &text("Checking")), vec![amount("USD", 500)]);
    assert_eq!(ledger.delete_posting(&alice, &x, t, a), Ok(()));
    assert_eq!(ledger.account_value(&alice, &x, &text("Checking")), Vec::<CurrencyAmount>::new());
}

#[test]
fn rows_are_balanced_by_scope() {
    let row = |owner: &str, book: &str, account: &str, currency: &str, amount: i32, id: i64| {
        model::Posting {
            id,
            transaction_id: 1,
            valuta: None,
            book_name: text(book),
            user_name: text(owner),
            account_name: text(account),
            currency: text(currency),
            amount,
            budget: if amount < 0 { Some(true) } else { None },
        }
    };
    let rows = vec![
        row("alice", "X", "Checking", "USD", 10, 1),
        row("bob", "X", "Checking", "USD", 20, 2),
        row("alice", "Y", "Checking", "USD", 40, 3),
        row("alice", "X", "Savings", "USD", 80, 4),
        row("alice", "X", "Checking", "USD", -3, 5),
        row("alice", "X", "Checking", "EUR", 1, 6),
    ];
    let total = balance_of(&rows, &text("alice"), &text("X"), &text("Checking"), false);
    assert_eq!(sorted(total), vec![amount("EUR", 1), amount("USD", 7)]);
    let real = balance_of(&rows, &text("alice"), &text("X"), &text("Checking"), true);
    assert_eq!(sorted(real), vec![amount("EUR", 1), amount("USD", 10)]);
    let of_bob = balance_of(&rows, &text("bob"), &text("X"), &text("Checking"), false);
    assert_eq!(of_bob, vec![amount("USD", 20)]);
    assert_eq!(balance_of(&Vec::new(), &text("bob"), &text("X"), &text("Checking"), false), vec![]);
}
