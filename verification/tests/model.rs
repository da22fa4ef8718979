use chrono::{NaiveDate, NaiveDateTime};
use finance_lib::allocator::IdAllocator;
use finance_lib::entities;
use finance_lib::model::{
    Account, AddedInformationForBook, AddedInformationForPosting, Book, Currency,
    FromNewUserStruct, FromUserStruct, Posting, ToUserStruct, Transaction, UserAndBookInfo,
};

fn text(s: &str) -> String {
    s.to_string()
}

fn at(day: u32) -> NaiveDateTime {
    NaiveDate::from_ymd_opt(2023, 5, day).unwrap().and_hms_opt(12, 0, 0).unwrap()
}

#[test]
fn a_book_row_adds_the_owner() {
    let alice = text("alice");
    let user = entities::Book { name: text("X"), description: Some(text("mine")) };
    let row = Book::from_user_struct(&user, AddedInformationForBook { user_name: &alice });
    assert_eq!(
        row,
        Book { name: text("X"), user_name: text("alice"), description: Some(text("mine")) }
    );
    assert_eq!(row.to_user_struct(), user);
}

#[test]
fn a_currency_row_adds_owner_and_book() {
    let alice = text("alice");
    let x = text("X");
    let user = entities::Currency { symbol: text("USD"), description: None, decimal_points: 2 };
    let row =
        Currency::from_user_struct(&user, UserAndBookInfo { user_name: &alice, book_name: &x });
    assert_eq!(
        row,
        Currency {
            symbol: text("USD"),
            decimal_points: 2,
            description: None,
            user_name: text("alice"),
            book_name: text("X"),
        }
    );
    assert_eq!(row.to_user_struct(), user);
}

#[test]
fn an_account_row_adds_owner_and_book() {
    let alice = text("alice");
    let x = text("X");
    let user = entities::Account { name: text("Checking"), description: Some(text("daily")) };
    let row =
        Account::from_user_struct(&user, UserAndBookInfo { user_name: &alice, book_name: &x });
    assert_eq!(
        row,
        Account {
            name: text("Checking"),
            description: Some(text("daily")),
            user_name: text("alice"),
            book_name: text("X"),
        }
    );
    assert_eq!(row.to_user_struct(), user);
}

#[test]
fn a_transaction_row_keeps_a_named_time() {
    let alice = text("alice");
    let x = text("X");
    let user = entities::Transaction { id: 7, time: Some(at(1)), description: Some(text("rent")) };
    let row = Transaction::from_user_struct_at(
        &user,
        UserAndBookInfo { user_name: &alice, book_name: &x },
        at(9),
    );
    assert_eq!(
        row,
        Transaction {
            id: 7,
            time: at(1),
            description: Some(text("rent")),
            book_name: text("X"),
            user_name: text("alice"),
        }
    );
    assert_eq!(row.to_user_struct(), user);
    let now =
        Transaction::from_user_struct(&user, UserAndBookInfo { user_name: &alice, book_name: &x });
    assert_eq!(now, row);
}

#[test]
fn a_transaction_row_without_a_time_takes_the_given_one() {
    let alice = text("alice");
    let x = text("X");
    let user = entities::Transaction { id: 7, time: None, description: None };
    let row = Transaction::from_user_struct_at(
        &user,
        UserAndBookInfo { user_name: &alice, book_name: &x },
        at(9),
    );
    assert_eq!(row.time, at(9));
    assert_eq!(
        row.to_user_struct(),
        entities::Transaction { id: 7, time: Some(at(9)), description: None }
    );
    let new = entities::NewTransaction { description: Some(text("n")), time: None };
    let fresh =
        Transaction::with_id(&new, UserAndBookInfo { user_name: &alice, book_name: &x }, 8, at(4));
    assert_eq!(
        fresh,
        Transaction {
            id: 8,
            time: at(4),
            description: Some(text("n")),
            book_name: text("X"),
            user_name: text("alice"),
        }
    );
}

#[test]
fn a_new_transaction_row_draws_its_id() {
    let alice = text("alice");
    let x = text("X");
    let mut allocator = IdAllocator::new();
    let new = entities::NewTransaction { description: Some(text("n")), time: Some(at(2)) };
    let first = Transaction::from_new_user_struct(
        &new,
        UserAndBookInfo { user_name: &alice, book_name: &x },
        &mut allocator,
    )
    .unwrap();
    let second = Transaction::from_new_user_struct(
        &new,
        UserAndBookInfo { user_name: &alice, book_name: &x },
        &mut allocator,
    )
    .unwrap();
    assert!(first.id < second.id);
    assert_eq!(first.time, at(2));
    assert_eq!(first.description, Some(text("n")));
    assert_eq!(first.book_name, text("X"));
    assert_eq!(first.user_name, text("alice"));
    assert!(second.id < allocator.allocate().unwrap());
}

#[test]
fn a_posting_row_adds_its_scope() {
    let alice = text("alice");
    let x = text("X");
    let t: i64 = 40;
    let user = entities::Posting {
        id: 9,
        valuta: Some(at(3)),
        account_name: text("Checking"),
        currency: text("USD"),
        amount: -12,
        budget: Some(true),
    };
    let row = Posting::from_user_struct(
        &user,
        AddedInformationForPosting { user_name: &alice, book_name: &x, transaction_id: &t },
    );
    assert_eq!(
        row,
        Posting {
            id: 9,
            transaction_id: 40,
            valuta: Some(at(3)),
            book_name: text("X"),
            user_name: text("alice"),
            account_name: text("Checking"),
            currency: text("USD"),
            amount: -12,
            budget: Some(true),
        }
    );
    assert_eq!(row.to_user_struct(), user);
}

#[test]
fn a_new_posting_row_takes_or_draws_its_id() {
    let alice = text("alice");
    let x = text("X");
    let t: i64 = 40;
    let new = entities::NewPosting {
        valuta: None,
        account_name: text("Checking"),
        currency: text("USD"),
        amount: 12,
        budget: None,
    };
    let given = Posting::with_id(
        &new,
        AddedInformationForPosting { user_name: &alice, book_name: &x, transaction_id: &t },
        9,
    );
    assert_eq!(
        given,
        Posting {
            id: 9,
            transaction_id: 40,
            valuta: None,
            book_name: text("X"),
            user_name: text("alice"),
            account_name: text("Checking"),
            currency: text("USD"),
            amount: 12,
            budget: None,
        }
    );
    let mut allocator = IdAllocator::new();
    let drawn = Posting::from_new_user_struct(
        &new,
        AddedInformationForPosting { user_name: &alice, book_name: &x, transaction_id: &t },
        &mut allocator,
    )
    .unwrap();
    assert_eq!(Posting { id: 9, ..drawn.clone() }, given);
    assert!(drawn.id < allocator.allocate().unwrap());
}
