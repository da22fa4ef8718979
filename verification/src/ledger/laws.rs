//! What holds of every ledger.

use vstd::prelude::*;
use chrono::NaiveDateTime;
use crate::allocator::{is_fresh, not_before};
use crate::entities;
use crate::entities::CurrencyAmountView;
use crate::error::LedgerError;
use crate::ledger::balance::is_balance;
use crate::ledger::integrity::{
    lemma_any_push, lemma_fresh_id_is_unused, lemma_push_account, lemma_push_book,
    lemma_push_currency, lemma_push_posting, lemma_push_transaction, lemma_remove_account,
    lemma_remove_book, lemma_remove_currency, lemma_remove_posting, lemma_remove_transaction,
    lemma_update_book, lemma_update_currency, lemma_update_transaction,
};
use crate::ledger::state::{
    account_is, accounts_in, book_is, book_set, books_of, currencies_in, currency_is, currency_set,
    posting_has_id, posting_is, postings_of, postings_on, real_postings_on, transaction_has_id,
    transaction_is, transaction_set, transactions_in, unflagged, Change, LedgerView,
};
use crate::model::{AccountView, BookView, CurrencyView, PostingView, TransactionView};
use crate::query::{
    lemma_any_row, lemma_filter_all, lemma_filter_both, lemma_filter_changed, lemma_filter_disjoint,
    lemma_filter_distinct, lemma_filter_except, lemma_filter_push, lemma_filter_replaced, lemma_remove_only,
    lemma_update_replaced, rows_except, rows_replaced,
};

verus! {

/// A change by `a` leaves what a query selects from the books of others.
proof fn lemma_books_untouched(
    s: LedgerView,
    a: Seq<char>,
    change: Change,
    q: spec_fn(BookView) -> bool,
)
    requires
        forall|r: BookView| #[trigger] q(r) ==> r.user_name != a,
    ensures
        s.apply(a, change).books.filter(q) == s.books.filter(q),
{
    match change {
        Change::CreateBook { new_book } => {
            lemma_filter_push(s.books, q, BookView::of(new_book, a));
        },
        Change::DeleteBook { name } => {
            lemma_filter_except(s.books, book_is(a, name), q);
        },
        Change::UpdateBook { name, new_book } => {
            lemma_filter_replaced(s.books, rows_replaced(book_is(a, name), book_set(new_book)), q);
        },
        _ => {},
    }
}

/// A change by `a` leaves what a query selects from the currencies of others.
proof fn lemma_currencies_untouched(
    s: LedgerView,
    a: Seq<char>,
    change: Change,
    q: spec_fn(CurrencyView) -> bool,
)
    requires
        forall|r: CurrencyView| #[trigger] q(r) ==> r.user_name != a,
    ensures
        s.apply(a, change).currencies.filter(q) == s.currencies.filter(q),
{
    match change {
        Change::CreateCurrency { book, currency } => {
            lemma_filter_push(s.currencies, q, CurrencyView::of(currency, a, book));
        },
        Change::DeleteCurrency { book, symbol } => {
            lemma_filter_except(s.currencies, currency_is(a, book, symbol), q);
        },
        Change::UpdateCurrency { book, symbol, currency } => {
            lemma_filter_replaced(
                s.currencies,
                rows_replaced(currency_is(a, book, symbol), currency_set(currency)),
                q,
            );
        },
        _ => {},
    }
}

/// A change by `a` leaves what a query selects from the accounts of others.
proof fn lemma_accounts_untouched(
    s: LedgerView,
    a: Seq<char>,
    change: Change,
    q: spec_fn(AccountView) -> bool,
)
    requires
        forall|r: AccountView| #[trigger] q(r) ==> r.user_name != a,
    ensures
        s.apply(a, change).accounts.filter(q) == s.accounts.filter(q),
{
    match change {
        Change::CreateAccount { book, account } => {
            lemma_filter_push(s.accounts, q, AccountView::of(account, a, book));
        },
        Change::DeleteAccount { book, name } => {
            lemma_filter_except(s.accounts, account_is(a, book, name), q);
        },
        _ => {},
    }
}

/// A change by `a` leaves what a query selects from the transactions of
/// others.
proof fn lemma_transactions_untouched(
    s: LedgerView,
    a: Seq<char>,
    change: Change,
    q: spec_fn(TransactionView) -> bool,
)
    requires
        forall|r: TransactionView| #[trigger] q(r) ==> r.user_name != a,
    ensures
        s.apply(a, change).transactions.filter(q) == s.transactions.filter(q),
{
    match change {
        Change::InsertTransaction { book, new_transaction, id, now } => {
            lemma_filter_push(
                s.transactions,
                q,
                TransactionView::fresh(new_transaction, a, book, id, now),
            );
        },
        Change::DeleteTransaction { book, id } => {
            lemma_filter_except(s.transactions, transaction_is(a, book, id), q);
        },
        Change::UpdateTransaction { book, id, transaction, now } => {
            lemma_filter_replaced(
                s.transactions,
                rows_replaced(transaction_is(a, book, id), transaction_set(transaction, now)),
                q,
            );
        },
        _ => {},
    }
}

/// A change by `a` leaves what a query selects from the postings of others.
proof fn lemma_postings_untouched(
    s: LedgerView,
    a: Seq<char>,
    change: Change,
    q: spec_fn(PostingView) -> bool,
)
    requires
        forall|r: PostingView| #[trigger] q(r) ==> r.user_name != a,
    ensures
        s.apply(a, change).postings.filter(q) == s.postings.filter(q),
{
    match change {
        Change::InsertPosting { book, transaction_id, posting, id } => {
            lemma_filter_push(
                s.postings,
                q,
                PostingView::fresh(posting, a, book, transaction_id, id),
            );
        },
        Change::DeletePosting { book, transaction_id, id } => {
            lemma_filter_except(s.postings, posting_is(a, book, transaction_id, id), q);
        },
        _ => {},
    }
}

/// Owners are isolated: whatever change the owner `a` makes, another owner
/// `b` reads after it what `b` read before it.
pub proof fn lemma_owners_isolated(s: LedgerView, a: Seq<char>, change: Change, b: Seq<char>)
    requires
        a != b,
    ensures
        s.apply(a, change).reads_agree(s, b),
{
    let t = s.apply(a, change);
    assert forall|n: Seq<char>| #[trigger] t.get_book(b, n) == s.get_book(b, n) by {
        lemma_books_untouched(s, a, change, book_is(b, n));
    }
    lemma_books_untouched(s, a, change, books_of(b));
    assert forall|k: Seq<char>, x: Seq<char>| #[trigger]
        t.get_currency(b, k, x) == s.get_currency(b, k, x) by {
        lemma_currencies_untouched(s, a, change, currency_is(b, k, x));
    }
    assert forall|k: Seq<char>| #[trigger] t.get_currencies(b, k) == s.get_currencies(b, k) by {
        lemma_currencies_untouched(s, a, change, currencies_in(b, k));
    }
    assert forall|k: Seq<char>, n: Seq<char>| #[trigger]
        t.get_account(b, k, n) == s.get_account(b, k, n) by {
        lemma_accounts_untouched(s, a, change, account_is(b, k, n));
    }
    assert forall|k: Seq<char>| #[trigger] t.get_accounts(b, k) == s.get_accounts(b, k) by {
        lemma_accounts_untouched(s, a, change, accounts_in(b, k));
    }
    assert forall|k: Seq<char>, id: i64| #[trigger]
        t.get_transaction(b, k, id) == s.get_transaction(b, k, id) by {
        lemma_transactions_untouched(s, a, change, transaction_is(b, k, id));
    }
    assert forall|k: Seq<char>| #[trigger]
        t.get_transactions(b, k) == s.get_transactions(b, k) by {
        lemma_transactions_untouched(s, a, change, transactions_in(b, k));
    }
    assert forall|k: Seq<char>, x: i64, id: i64| #[trigger]
        t.get_posting(b, k, x, id) == s.get_posting(b, k, x, id) by {
        lemma_postings_untouched(s, a, change, posting_is(b, k, x, id));
    }
    assert forall|k: Seq<char>, x: i64| #[trigger]
        t.get_postings(b, k, x) == s.get_postings(b, k, x) by {
        lemma_postings_untouched(s, a, change, postings_of(b, k, x));
    }
    assert forall|k: Seq<char>, n: Seq<char>| #[trigger]
        t.account_postings(b, k, n) == s.account_postings(b, k, n) by {
        lemma_postings_untouched(s, a, change, postings_on(b, k, n));
    }
    assert forall|k: Seq<char>, n: Seq<char>| #[trigger]
        t.real_account_postings(b, k, n) == s.real_account_postings(b, k, n) by {
        lemma_postings_untouched(s, a, change, real_postings_on(b, k, n));
    }
}

/// What an owner reads does not depend on the identifiers that were issued.
pub proof fn lemma_issue_unread(s: LedgerView, id: i64, b: Seq<char>)
    ensures
        s.issue(id).reads_agree(s, b),
{
}

/// Owners are isolated also where the change of the owner `a` comes with a
/// newly issued identifier, as the creation of a transaction or of a posting
/// does.
pub proof fn lemma_owners_isolated_on_issue(
    s: LedgerView,
    id: i64,
    a: Seq<char>,
    change: Change,
    b: Seq<char>,
)
    requires
        a != b,
    ensures
        s.issue(id).apply(a, change).reads_agree(s, b),
{
    lemma_owners_isolated(s.issue(id), a, change, b);
    lemma_issue_unread(s, id, b);
}

/// No change lowers the identifier that was issued last: what was issued
/// stays issued. Only storing under an identifier that was not issued yet
/// moves it.
pub proof fn lemma_changes_keep_issued(s: LedgerView, a: Seq<char>, change: Change)
    ensures
        not_before(s.last_id, s.apply(a, change).last_id),
        !(change is InsertTransaction || change is InsertPosting) ==> s.apply(a, change).last_id
            == s.last_id,
{
}

/// A newly issued identifier is that of no transaction and of no posting, of
/// whatever owner and book, so storing under it is never a conflict.
pub proof fn lemma_issued_id_is_new(s: LedgerView, id: i64)
    requires
        s.wf(),
        is_fresh(s.last_id, id),
    ensures
        s.issue(id).wf(),
        !s.issue(id).id_in_use(id),
        forall|i: int| 0 <= i < s.transactions.len() ==> (#[trigger] s.transactions[i]).id < id,
        forall|i: int| 0 <= i < s.postings.len() ==> (#[trigger] s.postings[i]).id < id,
{
    lemma_fresh_id_is_unused(s, id);
}

/// No list of identifiers names an identifier twice.
pub proof fn lemma_listed_ids_are_distinct(
    s: LedgerView,
    owner: Seq<char>,
    book: Seq<char>,
    transaction_id: i64,
)
    requires
        s.wf(),
    ensures
        s.get_transactions(owner, book).no_duplicates(),
        s.get_postings(owner, book, transaction_id).no_duplicates(),
{
    lemma_filter_distinct(
        s.transactions,
        transactions_in(owner, book),
        |r: TransactionView| r.id,
    );
    lemma_filter_distinct(
        s.postings,
        postings_of(owner, book, transaction_id),
        |r: PostingView| r.id,
    );
}

/// An identifier belongs to one owner: the transaction that one owner holds
/// under an identifier is not read by another, in whatever book.
pub proof fn lemma_transaction_of_another_is_not_read(
    s: LedgerView,
    a: Seq<char>,
    book: Seq<char>,
    id: i64,
    b: Seq<char>,
    other_book: Seq<char>,
)
    requires
        s.wf(),
        a != b,
        s.has_transaction(a, book, id),
    ensures
        s.get_transaction(b, other_book, id) == Err::<entities::TransactionView, LedgerError>(
            LedgerError::NotFound,
        ),
{
    lemma_any_row(s.transactions, transaction_is(a, book, id));
    lemma_any_row(s.transactions, transaction_is(b, other_book, id));
}

/// An identifier belongs to one owner: the posting that one owner holds under
/// an identifier is not read by another, in whatever book and under whatever
/// transaction.
pub proof fn lemma_posting_of_another_is_not_read(
    s: LedgerView,
    a: Seq<char>,
    book: Seq<char>,
    transaction_id: i64,
    id: i64,
    b: Seq<char>,
    other_book: Seq<char>,
    other_transaction: i64,
)
    requires
        s.wf(),
        a != b,
        s.has_posting(a, book, transaction_id, id),
    ensures
        s.get_posting(b, other_book, other_transaction, id) == Err::<
            entities::PostingView,
            LedgerError,
        >(LedgerError::NotFound),
{
    lemma_any_row(s.postings, posting_is(a, book, transaction_id, id));
    lemma_any_row(s.postings, posting_is(b, other_book, other_transaction, id));
}

/// Once an owner has created a book, a second book of that name is refused
/// to that owner.
pub proof fn lemma_create_book_twice(
    s: LedgerView,
    owner: Seq<char>,
    book: entities::BookView,
    again: entities::BookView,
)
    requires
        again.name == book.name,
    ensures
        s.create_book(owner, book).create_book_result(owner, again) == Err::<(), LedgerError>(
            LedgerError::Conflict,
        ),
{
    lemma_any_push(s.books, book_is(owner, book.name), BookView::of(book, owner));
}

/// Whether an owner may create a book does not depend on the books that
/// another owner has created.
pub proof fn lemma_create_book_independent(
    s: LedgerView,
    a: Seq<char>,
    book_a: entities::BookView,
    b: Seq<char>,
    book_b: entities::BookView,
)
    requires
        a != b,
    ensures
        s.create_book(a, book_a).create_book_result(b, book_b) == s.create_book_result(b, book_b),
{
    lemma_books_untouched(s, a, Change::CreateBook { new_book: book_a }, book_is(b, book_b.name));
}

/// A book that a currency belongs to cannot be deleted.
pub proof fn lemma_currency_blocks_book(s: LedgerView, i: int)
    requires
        s.wf(),
        0 <= i < s.currencies.len(),
    ensures
        s.delete_book_result(s.currencies[i].user_name, s.currencies[i].book_name) == Err::<
            (),
            LedgerError,
        >(LedgerError::BadRequest),
        s.delete_book(s.currencies[i].user_name, s.currencies[i].book_name) == s,
{
    let c = s.currencies[i];
    lemma_any_row(s.currencies, currencies_in(c.user_name, c.book_name));
}

/// A book that an account belongs to cannot be deleted.
pub proof fn lemma_account_blocks_book(s: LedgerView, i: int)
    requires
        s.wf(),
        0 <= i < s.accounts.len(),
    ensures
        s.delete_book_result(s.accounts[i].user_name, s.accounts[i].book_name) == Err::<
            (),
            LedgerError,
        >(LedgerError::BadRequest),
        s.delete_book(s.accounts[i].user_name, s.accounts[i].book_name) == s,
{
    let c = s.accounts[i];
    lemma_any_row(s.accounts, accounts_in(c.user_name, c.book_name));
}

/// A book that nothing belongs to can be deleted, and is gone afterwards.
pub proof fn lemma_unused_book_deleted(s: LedgerView, owner: Seq<char>, name: Seq<char>)
    requires
        s.has_book(owner, name),
        !s.book_in_use(owner, name),
    ensures
        s.delete_book_result(owner, name) == Ok::<(), LedgerError>(()),
        s.delete_book(owner, name).get_book(owner, name) == Err::<
            entities::BookView,
            LedgerError,
        >(LedgerError::NotFound),
{
    lemma_filter_disjoint(s.books, book_is(owner, name));
}

/// A currency cannot be created in a book that does not exist, and can be
/// once the book has been created.
pub proof fn lemma_currency_needs_book(
    s: LedgerView,
    owner: Seq<char>,
    book: entities::BookView,
    currency: entities::CurrencyView,
)
    requires
        s.wf(),
        !s.has_book(owner, book.name),
    ensures
        s.create_currency_result(owner, book.name, currency) == Err::<(), LedgerError>(
            LedgerError::BadRequest,
        ),
        s.create_book(owner, book).create_currency_result(owner, book.name, currency) == Ok::<
            (),
            LedgerError,
        >(()),
{
    lemma_any_push(s.books, book_is(owner, book.name), BookView::of(book, owner));
    lemma_any_row(s.currencies, currency_is(owner, book.name, currency.symbol));
}

/// Every change keeps the invariant: keys stay unique and references keep
/// holding.
pub proof fn lemma_changes_keep_invariant(s: LedgerView, a: Seq<char>, change: Change)
    requires
        s.wf(),
    ensures
        s.apply(a, change).wf(),
{
    match change {
        Change::CreateBook { new_book } => {
            if s.create_book_result(a, new_book) is Ok {
                lemma_push_book(s, BookView::of(new_book, a));
            }
        },
        Change::UpdateBook { name, new_book } => {
            let q = book_is(a, name);
            let f = rows_replaced(q, book_set(new_book));
            lemma_any_row(s.books, q);
            if s.has_book(a, name) {
                let i = choose|i: int| 0 <= i < s.books.len() && q(#[trigger] s.books[i]);
                lemma_update_replaced(s.books, f, i);
                lemma_update_book(s, i, f(s.books[i]));
            } else {
                assert(s.books.map_values(f) =~= s.books);
            }
        },
        Change::DeleteBook { name } => {
            if s.delete_book_result(a, name) is Ok {
                let q = book_is(a, name);
                lemma_any_row(s.books, q);
                let i = choose|i: int| 0 <= i < s.books.len() && q(#[trigger] s.books[i]);
                lemma_remove_only(s.books, q, i);
                lemma_remove_book(s, i);
            }
        },
        Change::CreateCurrency { book, currency } => {
            if s.create_currency_result(a, book, currency) is Ok {
                lemma_push_currency(s, CurrencyView::of(currency, a, book));
            }
        },
        Change::UpdateCurrency { book, symbol, currency } => {
            let q = currency_is(a, book, symbol);
            let f = rows_replaced(q, currency_set(currency));
            lemma_any_row(s.currencies, q);
            if s.has_currency(a, book, symbol) {
                let i = choose|i: int| 0 <= i < s.currencies.len() && q(#[trigger] s.currencies[i]);
                lemma_update_replaced(s.currencies, f, i);
                lemma_update_currency(s, i, f(s.currencies[i]));
            } else {
                assert(s.currencies.map_values(f) =~= s.currencies);
            }
        },
        Change::DeleteCurrency { book, symbol } => {
            if s.delete_currency_result(a, book, symbol) is Ok {
                let q = currency_is(a, book, symbol);
                lemma_any_row(s.currencies, q);
                let i = choose|i: int| 0 <= i < s.currencies.len() && q(#[trigger] s.currencies[i]);
                lemma_remove_only(s.currencies, q, i);
                lemma_remove_currency(s, i);
            }
        },
        Change::CreateAccount { book, account } => {
            if s.create_account_result(a, book, account) is Ok {
                lemma_push_account(s, AccountView::of(account, a, book));
            }
        },
        Change::DeleteAccount { book, name } => {
            if s.delete_account_result(a, book, name) is Ok {
                let q = account_is(a, book, name);
                lemma_any_row(s.accounts, q);
                let i = choose|i: int| 0 <= i < s.accounts.len() && q(#[trigger] s.accounts[i]);
                lemma_remove_only(s.accounts, q, i);
                lemma_remove_account(s, i);
            }
        },
        Change::InsertTransaction { book, new_transaction, id, now } => {
            if s.insert_transaction_result(a, book, id) is Ok {
                lemma_push_transaction(s, TransactionView::fresh(new_transaction, a, book, id, now));
            }
        },
        Change::UpdateTransaction { book, id, transaction, now } => {
            let q = transaction_is(a, book, id);
            let f = rows_replaced(q, transaction_set(transaction, now));
            lemma_any_row(s.transactions, q);
            if s.has_transaction(a, book, id) {
                let i = choose|i: int|
                    0 <= i < s.transactions.len() && q(#[trigger] s.transactions[i]);
                lemma_update_replaced(s.transactions, f, i);
                lemma_update_transaction(s, i, f(s.transactions[i]));
            } else {
                assert(s.transactions.map_values(f) =~= s.transactions);
            }
        },
        Change::DeleteTransaction { book, id } => {
            if s.delete_transaction_result(a, book, id) is Ok {
                let q = transaction_is(a, book, id);
                lemma_any_row(s.transactions, q);
                let i = choose|i: int|
                    0 <= i < s.transactions.len() && q(#[trigger] s.transactions[i]);
                lemma_remove_only(s.transactions, q, i);
                lemma_remove_transaction(s, i);
            }
        },
        Change::InsertPosting { book, transaction_id, posting, id } => {
            if s.insert_posting_result(a, book, transaction_id, posting, id) is Ok {
                lemma_push_posting(s, PostingView::fresh(posting, a, book, transaction_id, id));
            }
        },
        Change::DeletePosting { book, transaction_id, id } => {
            let q = posting_is(a, book, transaction_id, id);
            lemma_any_row(s.postings, q);
            if s.has_posting(a, book, transaction_id, id) {
                let i = choose|i: int| 0 <= i < s.postings.len() && q(#[trigger] s.postings[i]);
                lemma_remove_only(s.postings, q, i);
                lemma_remove_posting(s, i);
            } else {
                lemma_filter_all(s.postings, rows_except(q));
            }
        },
    }
}

/// An update gives no row another owner, another book or another key, and
/// touches no table but its own.
pub proof fn lemma_updates_keep_keys(s: LedgerView, a: Seq<char>, change: Change)
    requires
        change is UpdateBook || change is UpdateCurrency || change is UpdateTransaction,
    ensures
        ({
            let t = s.apply(a, change);
            &&& t.books.len() == s.books.len()
            &&& forall|i: int|
                0 <= i < s.books.len() ==> {
                    &&& (#[trigger] t.books[i]).user_name == s.books[i].user_name
                    &&& t.books[i].name == s.books[i].name
                }
            &&& t.currencies.len() == s.currencies.len()
            &&& forall|i: int|
                0 <= i < s.currencies.len() ==> {
                    &&& (#[trigger] t.currencies[i]).user_name == s.currencies[i].user_name
                    &&& t.currencies[i].book_name == s.currencies[i].book_name
                    &&& t.currencies[i].symbol == s.currencies[i].symbol
                }
            &&& t.accounts == s.accounts
            &&& t.transactions.len() == s.transactions.len()
            &&& forall|i: int|
                0 <= i < s.transactions.len() ==> {
                    &&& (#[trigger] t.transactions[i]).user_name == s.transactions[i].user_name
                    &&& t.transactions[i].book_name == s.transactions[i].book_name
                    &&& t.transactions[i].id == s.transactions[i].id
                }
            &&& t.postings == s.postings
        }),
{
}

/// A book that was created can be read.
pub proof fn lemma_created_book_is_read(s: LedgerView, owner: Seq<char>, book: entities::BookView)
    requires
        s.create_book_result(owner, book) is Ok,
    ensures
        s.create_book(owner, book).get_book(owner, book.name) == Ok::<
            entities::BookView,
            LedgerError,
        >(book),
{
    lemma_filter_push(s.books, book_is(owner, book.name), BookView::of(book, owner));
}

/// A currency that was created can be read.
pub proof fn lemma_created_currency_is_read(
    s: LedgerView,
    owner: Seq<char>,
    book: Seq<char>,
    currency: entities::CurrencyView,
)
    requires
        s.create_currency_result(owner, book, currency) is Ok,
    ensures
        s.create_currency(owner, book, currency).get_currency(owner, book, currency.symbol) == Ok::<
            entities::CurrencyView,
            LedgerError,
        >(currency),
{
    lemma_filter_push(
        s.currencies,
        currency_is(owner, book, currency.symbol),
        CurrencyView::of(currency, owner, book),
    );
}

/// An account that was created can be read.
pub proof fn lemma_created_account_is_read(
    s: LedgerView,
    owner: Seq<char>,
    book: Seq<char>,
    account: entities::AccountView,
)
    requires
        s.create_account_result(owner, book, account) is Ok,
    ensures
        s.create_account(owner, book, account).get_account(owner, book, account.name) == Ok::<
            entities::AccountView,
            LedgerError,
        >(account),
{
    lemma_filter_push(
        s.accounts,
        account_is(owner, book, account.name),
        AccountView::of(account, owner, book),
    );
}

/// A transaction that was stored can be read under its identifier, with the
/// time that it named or, where it named none, the time of its creation.
pub proof fn lemma_created_transaction_is_read(
    s: LedgerView,
    owner: Seq<char>,
    book: Seq<char>,
    transaction: entities::NewTransactionView,
    id: i64,
    now: NaiveDateTime,
)
    requires
        s.insert_transaction_result(owner, book, id) is Ok,
    ensures
        s.insert_transaction(owner, book, transaction, id, now).get_transaction(owner, book, id)
            == Ok::<entities::TransactionView, LedgerError>(
            entities::TransactionView {
                id,
                time: Some(
                    match transaction.time {
                        Some(t) => t,
                        None => now,
                    },
                ),
                description: transaction.description,
            },
        ),
{
    lemma_any_row(s.transactions, transaction_has_id(id));
    lemma_any_row(s.transactions, transaction_is(owner, book, id));
    lemma_filter_push(
        s.transactions,
        transaction_is(owner, book, id),
        TransactionView::fresh(transaction, owner, book, id, now),
    );
}

/// A posting that was stored can be read under its identifier.
pub proof fn lemma_created_posting_is_read(
    s: LedgerView,
    owner: Seq<char>,
    book: Seq<char>,
    transaction_id: i64,
    posting: entities::NewPostingView,
    id: i64,
)
    requires
        s.insert_posting_result(owner, book, transaction_id, posting, id) is Ok,
    ensures
        s.insert_posting(owner, book, transaction_id, posting, id).get_posting(
            owner,
            book,
            transaction_id,
            id,
        ) == Ok::<entities::PostingView, LedgerError>(
            entities::PostingView {
                id,
                valuta: posting.valuta,
                account_name: posting.account_name,
                currency: posting.currency,
                amount: posting.amount,
                budget: posting.budget,
            },
        ),
{
    lemma_any_row(s.postings, posting_has_id(id));
    lemma_any_row(s.postings, posting_is(owner, book, transaction_id, id));
    lemma_filter_push(
        s.postings,
        posting_is(owner, book, transaction_id, id),
        PostingView::fresh(posting, owner, book, transaction_id, id),
    );
}

/// A book that was updated can be read with its new description.
pub proof fn lemma_updated_book_is_read(
    s: LedgerView,
    owner: Seq<char>,
    name: Seq<char>,
    book: entities::BookView,
)
    requires
        s.update_book_result(owner, name) is Ok,
    ensures
        s.update_book(owner, name, book).get_book(owner, name) == Ok::<
            entities::BookView,
            LedgerError,
        >(entities::BookView { name, description: book.description }),
{
    let q = book_is(owner, name);
    lemma_filter_changed(s.books, rows_replaced(q, book_set(book)), q);
    s.books.lemma_filter_pred(q, 0);
}

/// A currency that was updated can be read with its new scale and
/// description.
pub proof fn lemma_updated_currency_is_read(
    s: LedgerView,
    owner: Seq<char>,
    book: Seq<char>,
    symbol: Seq<char>,
    currency: entities::CurrencyView,
)
    requires
        s.update_currency_result(owner, book, symbol) is Ok,
    ensures
        s.update_currency(owner, book, symbol, currency).get_currency(owner, book, symbol) == Ok::<
            entities::CurrencyView,
            LedgerError,
        >(
            entities::CurrencyView {
                symbol,
                description: currency.description,
                decimal_points: currency.decimal_points,
            },
        ),
{
    let q = currency_is(owner, book, symbol);
    lemma_filter_changed(s.currencies, rows_replaced(q, currency_set(currency)), q);
    s.currencies.lemma_filter_pred(q, 0);
}

/// A transaction that was updated can be read with its new description and
/// with the time that the update named or, where it named none, the time of
/// the update.
pub proof fn lemma_updated_transaction_is_read(
    s: LedgerView,
    owner: Seq<char>,
    book: Seq<char>,
    id: i64,
    transaction: entities::TransactionView,
    now: NaiveDateTime,
)
    requires
        s.update_transaction_result(owner, book, id) is Ok,
    ensures
        s.update_transaction(owner, book, id, transaction, now).get_transaction(owner, book, id)
            == Ok::<entities::TransactionView, LedgerError>(
            entities::TransactionView {
                id,
                time: Some(
                    match transaction.time {
                        Some(t) => t,
                        None => now,
                    },
                ),
                description: transaction.description,
            },
        ),
{
    let q = transaction_is(owner, book, id);
    lemma_filter_changed(s.transactions, rows_replaced(q, transaction_set(transaction, now)), q);
    s.transactions.lemma_filter_pred(q, 0);
}

/// The postings that count as real are those of the account that are not
/// flagged as budget.
pub proof fn lemma_real_postings(
    s: LedgerView,
    owner: Seq<char>,
    book: Seq<char>,
    account: Seq<char>,
)
    ensures
        s.real_account_postings(owner, book, account) == s.account_postings(
            owner,
            book,
            account,
        ).filter(unflagged()),
{
    lemma_filter_both(
        s.postings,
        postings_on(owner, book, account),
        unflagged(),
        real_postings_on(owner, book, account),
    );
}

/// Two balances of the same postings hold the same amounts: each pair of
/// currency and amount of the one is a pair of the other.
pub proof fn lemma_balance_is_one(
    one: Seq<CurrencyAmountView>,
    other: Seq<CurrencyAmountView>,
    postings: Seq<PostingView>,
)
    requires
        is_balance(one, postings),
        is_balance(other, postings),
    ensures
        forall|i: int| 0 <= i < one.len() ==> other.contains(#[trigger] one[i]),
{
    reveal(is_balance);
    assert forall|i: int| 0 <= i < one.len() implies other.contains(#[trigger] one[i]) by {
        let k = choose|k: int|
            0 <= k < postings.len() && (#[trigger] postings[k]).currency == one[i].currency;
        let j = choose|j: int|
            0 <= j < other.len() && (#[trigger] other[j]).currency == postings[k].currency;
    }
}

/// What was deleted cannot be read.
pub proof fn lemma_deleted_is_gone(s: LedgerView, a: Seq<char>, change: Change)
    ensures
        change matches Change::DeleteBook { name } ==> s.delete_book_result(a, name) is Ok
            ==> s.apply(a, change).get_book(a, name) == Err::<entities::BookView, LedgerError>(
            LedgerError::NotFound,
        ),
        change matches Change::DeleteCurrency { book, symbol } ==> s.delete_currency_result(
            a,
            book,
            symbol,
        ) is Ok ==> s.apply(a, change).get_currency(a, book, symbol) == Err::<
            entities::CurrencyView,
            LedgerError,
        >(LedgerError::NotFound),
        change matches Change::DeleteAccount { book, name } ==> s.delete_account_result(
            a,
            book,
            name,
        ) is Ok ==> s.apply(a, change).get_account(a, book, name) == Err::<
            entities::AccountView,
            LedgerError,
        >(LedgerError::NotFound),
        change matches Change::DeleteTransaction { book, id } ==> s.delete_transaction_result(
            a,
            book,
            id,
        ) is Ok ==> s.apply(a, change).get_transaction(a, book, id) == Err::<
            entities::TransactionView,
            LedgerError,
        >(LedgerError::NotFound),
        change matches Change::DeletePosting { book, transaction_id, id } ==> s.apply(
            a,
            change,
        ).get_posting(a, book, transaction_id, id) == Err::<entities::PostingView, LedgerError>(
            LedgerError::NotFound,
        ),
{
    match change {
        Change::DeleteBook { name } => {
            lemma_filter_disjoint(s.books, book_is(a, name));
        },
        Change::DeleteCurrency { book, symbol } => {
            lemma_filter_disjoint(s.currencies, currency_is(a, book, symbol));
        },
        Change::DeleteAccount { book, name } => {
            lemma_filter_disjoint(s.accounts, account_is(a, book, name));
        },
        Change::DeleteTransaction { book, id } => {
            lemma_filter_disjoint(s.transactions, transaction_is(a, book, id));
        },
        Change::DeletePosting { book, transaction_id, id } => {
            lemma_filter_disjoint(s.postings, posting_is(a, book, transaction_id, id));
        },
        _ => {},
    }
}

/// An update of a transaction changes no posting and no key of a
/// transaction, and so no list of identifiers. Made a second time it changes
/// nothing, where it names a time or is made at the time of the first.
pub proof fn lemma_transaction_update_settles(
    s: LedgerView,
    owner: Seq<char>,
    book: Seq<char>,
    id: i64,
    transaction: entities::TransactionView,
    now: NaiveDateTime,
    again: NaiveDateTime,
)
    requires
        transaction.time is Some || again == now,
    ensures
        ({
            let t = s.update_transaction(owner, book, id, transaction, now);
            &&& t.postings == s.postings
            &&& t.transactions.len() == s.transactions.len()
            &&& forall|i: int|
                0 <= i < s.transactions.len() ==> {
                    &&& (#[trigger] t.transactions[i]).id == s.transactions[i].id
                    &&& t.transactions[i].book_name == s.transactions[i].book_name
                    &&& t.transactions[i].user_name == s.transactions[i].user_name
                }
            &&& forall|o: Seq<char>, b: Seq<char>| #[trigger]
                t.get_transactions(o, b) == s.get_transactions(o, b)
            &&& forall|o: Seq<char>, b: Seq<char>, x: i64| #[trigger]
                t.get_postings(o, b, x) == s.get_postings(o, b, x)
            &&& t.update_transaction_result(owner, book, id) == s.update_transaction_result(
                owner,
                book,
                id,
            )
            &&& t.update_transaction(owner, book, id, transaction, again) == t
        }),
{
    let q = transaction_is(owner, book, id);
    let f = rows_replaced(q, transaction_set(transaction, now));
    let t = s.update_transaction(owner, book, id, transaction, now);
    assert forall|o: Seq<char>, b: Seq<char>| #[trigger]
        t.get_transactions(o, b) == s.get_transactions(o, b) by {
        lemma_filter_changed(s.transactions, f, transactions_in(o, b));
    }
    lemma_filter_changed(s.transactions, f, q);
    assert(t.transactions.map_values(
        rows_replaced(q, transaction_set(transaction, again)),
    ) =~= t.transactions);
}

} // verus!
