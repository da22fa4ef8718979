//! Searching the tables.

use vstd::prelude::*;
use crate::ledger::state::{
    account_is, accounts_in, book_is, currencies_in, currency_is, posting_has_id, posting_is,
    postings_in, postings_of, postings_on, transaction_has_id, transaction_is, transactions_in,
};
use crate::model;
use crate::query::{any_row, first_row, lemma_any_row, lemma_first_row, views};

verus! {

/// The place of the book `name` of `owner`, if there is one.
pub(crate) fn find_book(books: &Vec<model::Book>, owner: &String, name: &String) -> (r: Option<
    usize,
>)
    ensures
        r is Some <==> any_row(views(books@), book_is(owner@, name@)),
        r matches Some(i) ==> {
            &&& i < books@.len()
            &&& book_is(owner@, name@)(books@[i as int]@)
            &&& first_row(views(books@), book_is(owner@, name@)) == books@[i as int]@
        },
{
    let ghost q = book_is(owner@, name@);
    let ghost rows = views(books@);
    let mut i: usize = 0;
    while i < books.len()
        invariant
            i <= books.len(),
            rows == views(books@),
            q == book_is(owner@, name@),
            forall|j: int| 0 <= j < i ==> !q(#[trigger] rows[j]),
        decreases books.len() - i,
    {
        if books[i].user_name == *owner && books[i].name == *name {
            proof {
                lemma_first_row(rows, q, i as int);
            }
            return Some(i);
        }
        i += 1;
    }
    proof {
        lemma_any_row(rows, q);
    }
    None
}

/// The place of the currency `symbol` of the book `book` of `owner`, if
/// there is one.
pub(crate) fn find_currency(
    currencies: &Vec<model::Currency>,
    owner: &String,
    book: &String,
    symbol: &String,
) -> (r: Option<usize>)
    ensures
        r is Some <==> any_row(views(currencies@), currency_is(owner@, book@, symbol@)),
        r matches Some(i) ==> {
            &&& i < currencies@.len()
            &&& currency_is(owner@, book@, symbol@)(currencies@[i as int]@)
            &&& first_row(views(currencies@), currency_is(owner@, book@, symbol@))
                == currencies@[i as int]@
        },
{
    let ghost q = currency_is(owner@, book@, symbol@);
    let ghost rows = views(currencies@);
    let mut i: usize = 0;
    while i < currencies.len()
        invariant
            i <= currencies.len(),
            rows == views(currencies@),
            q == currency_is(owner@, book@, symbol@),
            forall|j: int| 0 <= j < i ==> !q(#[trigger] rows[j]),
        decreases currencies.len() - i,
    {
        if currencies[i].user_name == *owner && currencies[i].book_name == *book
            && currencies[i].symbol == *symbol {
            proof {
                lemma_first_row(rows, q, i as int);
            }
            return Some(i);
        }
        i += 1;
    }
    proof {
        lemma_any_row(rows, q);
    }
    None
}

/// The place of the account `name` of the book `book` of `owner`, if there
/// is one.
pub(crate) fn find_account(
    accounts: &Vec<model::Account>,
    owner: &String,
    book: &String,
    name: &String,
) -> (r: Option<usize>)
    ensures
        r is Some <==> any_row(views(accounts@), account_is(owner@, book@, name@)),
        r matches Some(i) ==> {
            &&& i < accounts@.len()
            &&& account_is(owner@, book@, name@)(accounts@[i as int]@)
            &&& first_row(views(accounts@), account_is(owner@, book@, name@))
                == accounts@[i as int]@
        },
{
    let ghost q = account_is(owner@, book@, name@);
    let ghost rows = views(accounts@);
    let mut i: usize = 0;
    while i < accounts.len()
        invariant
            i <= accounts.len(),
            rows == views(accounts@),
            q == account_is(owner@, book@, name@),
            forall|j: int| 0 <= j < i ==> !q(#[trigger] rows[j]),
        decreases accounts.len() - i,
    {
        if accounts[i].user_name == *owner && accounts[i].book_name == *book && accounts[i].name
            == *name {
            proof {
                lemma_first_row(rows, q, i as int);
            }
            return Some(i);
        }
        i += 1;
    }
    proof {
        lemma_any_row(rows, q);
    }
    None
}

/// The place of the transaction `id` of the book `book` of `owner`, if
/// there is one.
pub(crate) fn find_transaction(
    transactions: &Vec<model::Transaction>,
    owner: &String,
    book: &String,
    id: i64,
) -> (r: Option<usize>)
    ensures
        r is Some <==> any_row(views(transactions@), transaction_is(owner@, book@, id)),
        r matches Some(i) ==> {
            &&& i < transactions@.len()
            &&& transaction_is(owner@, book@, id)(transactions@[i as int]@)
            &&& first_row(views(transactions@), transaction_is(owner@, book@, id))
                == transactions@[i as int]@
        },
{
    let ghost q = transaction_is(owner@, book@, id);
    let ghost rows = views(transactions@);
    let mut i: usize = 0;
    while i < transactions.len()
        invariant
            i <= transactions.len(),
            rows == views(transactions@),
            q == transaction_is(owner@, book@, id),
            forall|j: int| 0 <= j < i ==> !q(#[trigger] rows[j]),
        decreases transactions.len() - i,
    {
        if transactions[i].user_name == *owner && transactions[i].book_name == *book
            && transactions[i].id == id {
            proof {
                lemma_first_row(rows, q, i as int);
            }
            return Some(i);
        }
        i += 1;
    }
    proof {
        lemma_any_row(rows, q);
    }
    None
}

/// The place of the posting `id` of the transaction `transaction_id` in the
/// book `book` of `owner`, if there is one.
pub(crate) fn find_posting(
    postings: &Vec<model::Posting>,
    owner: &String,
    book: &String,
    transaction_id: i64,
    id: i64,
) -> (r: Option<usize>)
    ensures
        r is Some <==> any_row(views(postings@), posting_is(owner@, book@, transaction_id, id)),
        r matches Some(i) ==> {
            &&& i < postings@.len()
            &&& posting_is(owner@, book@, transaction_id, id)(postings@[i as int]@)
            &&& first_row(views(postings@), posting_is(owner@, book@, transaction_id, id))
                == postings@[i as int]@
        },
{
    let ghost q = posting_is(owner@, book@, transaction_id, id);
    let ghost rows = views(postings@);
    let mut i: usize = 0;
    while i < postings.len()
        invariant
            i <= postings.len(),
            rows == views(postings@),
            q == posting_is(owner@, book@, transaction_id, id),
            forall|j: int| 0 <= j < i ==> !q(#[trigger] rows[j]),
        decreases postings.len() - i,
    {
        if postings[i].user_name == *owner && postings[i].book_name == *book
            && postings[i].transaction_id == transaction_id && postings[i].id == id {
            proof {
                lemma_first_row(rows, q, i as int);
            }
            return Some(i);
        }
        i += 1;
    }
    proof {
        lemma_any_row(rows, q);
    }
    None
}

/// Whether a currency belongs to the book `book` of `owner`.
pub(crate) fn any_currency_in(currencies: &Vec<model::Currency>, owner: &String, book: &String)
    -> (r: bool)
    ensures
        r == any_row(views(currencies@), currencies_in(owner@, book@)),
{
    let ghost q = currencies_in(owner@, book@);
    let ghost rows = views(currencies@);
    let mut i: usize = 0;
    while i < currencies.len()
        invariant
            i <= currencies.len(),
            rows == views(currencies@),
            q == currencies_in(owner@, book@),
            forall|j: int| 0 <= j < i ==> !q(#[trigger] rows[j]),
        decreases currencies.len() - i,
    {
        if currencies[i].user_name == *owner && currencies[i].book_name == *book {
            proof {
                assert(q(rows[i as int]));
                lemma_any_row(rows, q);
            }
            return true;
        }
        i += 1;
    }
    proof {
        lemma_any_row(rows, q);
    }
    false
}

/// Whether an account belongs to the book `book` of `owner`.
pub(crate) fn any_account_in(accounts: &Vec<model::Account>, owner: &String, book: &String) -> (r:
    bool)
    ensures
        r == any_row(views(accounts@), accounts_in(owner@, book@)),
{
    let ghost q = accounts_in(owner@, book@);
    let ghost rows = views(accounts@);
    let mut i: usize = 0;
    while i < accounts.len()
        invariant
            i <= accounts.len(),
            rows == views(accounts@),
            q == accounts_in(owner@, book@),
            forall|j: int| 0 <= j < i ==> !q(#[trigger] rows[j]),
        decreases accounts.len() - i,
    {
        if accounts[i].user_name == *owner && accounts[i].book_name == *book {
            proof {
                assert(q(rows[i as int]));
                lemma_any_row(rows, q);
            }
            return true;
        }
        i += 1;
    }
    proof {
        lemma_any_row(rows, q);
    }
    false
}

/// Whether a transaction belongs to the book `book` of `owner`.
pub(crate) fn any_transaction_in(
    transactions: &Vec<model::Transaction>,
    owner: &String,
    book: &String,
) -> (r: bool)
    ensures
        r == any_row(views(transactions@), transactions_in(owner@, book@)),
{
    let ghost q = transactions_in(owner@, book@);
    let ghost rows = views(transactions@);
    let mut i: usize = 0;
    while i < transactions.len()
        invariant
            i <= transactions.len(),
            rows == views(transactions@),
            q == transactions_in(owner@, book@),
            forall|j: int| 0 <= j < i ==> !q(#[trigger] rows[j]),
        decreases transactions.len() - i,
    {
        if transactions[i].user_name == *owner && transactions[i].book_name == *book {
            proof {
                assert(q(rows[i as int]));
                lemma_any_row(rows, q);
            }
            return true;
        }
        i += 1;
    }
    proof {
        lemma_any_row(rows, q);
    }
    false
}

/// Whether a posting is in the currency `symbol` of the book `book` of
/// `owner`.
pub(crate) fn any_posting_in(
    postings: &Vec<model::Posting>,
    owner: &String,
    book: &String,
    symbol: &String,
) -> (r: bool)
    ensures
        r == any_row(views(postings@), postings_in(owner@, book@, symbol@)),
{
    let ghost q = postings_in(owner@, book@, symbol@);
    let ghost rows = views(postings@);
    let mut i: usize = 0;
    while i < postings.len()
        invariant
            i <= postings.len(),
            rows == views(postings@),
            q == postings_in(owner@, book@, symbol@),
            forall|j: int| 0 <= j < i ==> !q(#[trigger] rows[j]),
        decreases postings.len() - i,
    {
        if postings[i].user_name == *owner && postings[i].book_name == *book
            && postings[i].currency == *symbol {
            proof {
                assert(q(rows[i as int]));
                lemma_any_row(rows, q);
            }
            return true;
        }
        i += 1;
    }
    proof {
        lemma_any_row(rows, q);
    }
    false
}

/// Whether a posting is against the account `account` of the book `book` of
/// `owner`.
pub(crate) fn any_posting_on(
    postings: &Vec<model::Posting>,
    owner: &String,
    book: &String,
    account: &String,
) -> (r: bool)
    ensures
        r == any_row(views(postings@), postings_on(owner@, book@, account@)),
{
    let ghost q = postings_on(owner@, book@, account@);
    let ghost rows = views(postings@);
    let mut i: usize = 0;
    while i < postings.len()
        invariant
            i <= postings.len(),
            rows == views(postings@),
            q == postings_on(owner@, book@, account@),
            forall|j: int| 0 <= j < i ==> !q(#[trigger] rows[j]),
        decreases postings.len() - i,
    {
        if postings[i].user_name == *owner && postings[i].book_name == *book
            && postings[i].account_name == *account {
            proof {
                assert(q(rows[i as int]));
                lemma_any_row(rows, q);
            }
            return true;
        }
        i += 1;
    }
    proof {
        lemma_any_row(rows, q);
    }
    false
}

/// Whether a posting belongs to the transaction `transaction_id` of the book
/// `book` of `owner`.
pub(crate) fn any_posting_of(
    postings: &Vec<model::Posting>,
    owner: &String,
    book: &String,
    transaction_id: i64,
) -> (r: bool)
    ensures
        r == any_row(views(postings@), postings_of(owner@, book@, transaction_id)),
{
    let ghost q = postings_of(owner@, book@, transaction_id);
    let ghost rows = views(postings@);
    let mut i: usize = 0;
    while i < postings.len()
        invariant
            i <= postings.len(),
            rows == views(postings@),
            q == postings_of(owner@, book@, transaction_id),
            forall|j: int| 0 <= j < i ==> !q(#[trigger] rows[j]),
        decreases postings.len() - i,
    {
        if postings[i].user_name == *owner && postings[i].book_name == *book
            && postings[i].transaction_id == transaction_id {
            proof {
                assert(q(rows[i as int]));
                lemma_any_row(rows, q);
            }
            return true;
        }
        i += 1;
    }
    proof {
        lemma_any_row(rows, q);
    }
    false
}

/// Whether a transaction, of whatever owner and book, has the identifier
/// `id`.
pub(crate) fn any_transaction_with_id(transactions: &Vec<model::Transaction>, id: i64) -> (r: bool)
    ensures
        r == any_row(views(transactions@), transaction_has_id(id)),
{
    let ghost q = transaction_has_id(id);
    let ghost rows = views(transactions@);
    let mut i: usize = 0;
    while i < transactions.len()
        invariant
            i <= transactions.len(),
            rows == views(transactions@),
            q == transaction_has_id(id),
            forall|j: int| 0 <= j < i ==> !q(#[trigger] rows[j]),
        decreases transactions.len() - i,
    {
        if transactions[i].id == id {
            proof {
                assert(q(rows[i as int]));
                lemma_any_row(rows, q);
            }
            return true;
        }
        i += 1;
    }
    proof {
        lemma_any_row(rows, q);
    }
    false
}

/// Whether a posting, of whatever owner and book, has the identifier `id`.
pub(crate) fn any_posting_with_id(postings: &Vec<model::Posting>, id: i64) -> (r: bool)
    ensures
        r == any_row(views(postings@), posting_has_id(id)),
{
    let ghost q = posting_has_id(id);
    let ghost rows = views(postings@);
    let mut i: usize = 0;
    while i < postings.len()
        invariant
            i <= postings.len(),
            rows == views(postings@),
            q == posting_has_id(id),
            forall|j: int| 0 <= j < i ==> !q(#[trigger] rows[j]),
        decreases postings.len() - i,
    {
        if postings[i].id == id {
            proof {
                assert(q(rows[i as int]));
                lemma_any_row(rows, q);
            }
            return true;
        }
        i += 1;
    }
    proof {
        lemma_any_row(rows, q);
    }
    false
}

} // verus!
