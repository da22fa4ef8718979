//! Which changes of a table keep the invariant of a ledger.

use vstd::prelude::*;
use crate::allocator::{advanced, is_fresh};
use crate::ledger::state::{
    account_is, book_is, currency_is, posting_has_id, posting_is, transaction_has_id,
    transaction_is, LedgerView,
};
use crate::model::{AccountView, BookView, CurrencyView, PostingView, TransactionView};
use crate::query::{any_row, lemma_any_row, lemma_filter_push, lemma_remove_other, lemma_update_any};

verus! {

/// A query that selects a row still selects one after a row is added.
pub proof fn lemma_any_push<T>(s: Seq<T>, p: spec_fn(T) -> bool, x: T)
    ensures
        any_row(s.push(x), p) == (any_row(s, p) || p(x)),
{
    lemma_filter_push(s, p, x);
}

/// A query selects a row after another row is removed as it did before.
pub proof fn lemma_any_remove<T>(s: Seq<T>, p: spec_fn(T) -> bool, i: int)
    requires
        0 <= i < s.len(),
        !p(s[i]),
    ensures
        any_row(s.remove(i), p) == any_row(s, p),
{
    lemma_remove_other(s, p, i);
}

/// A book of a new key may be added.
pub proof fn lemma_push_book(s: LedgerView, row: BookView)
    requires
        s.wf(),
        !s.has_book(row.user_name, row.name),
    ensures
        (LedgerView { books: s.books.push(row), ..s }).wf(),
{
    let t = LedgerView { books: s.books.push(row), ..s };
    lemma_any_row(s.books, book_is(row.user_name, row.name));
    assert forall|i: int| 0 <= i < t.currencies.len() implies t.has_book(
        (#[trigger] t.currencies[i]).user_name,
        t.currencies[i].book_name,
    ) by {
        lemma_any_push(s.books, book_is(t.currencies[i].user_name, t.currencies[i].book_name), row);
    }
    assert forall|i: int| 0 <= i < t.accounts.len() implies t.has_book(
        (#[trigger] t.accounts[i]).user_name,
        t.accounts[i].book_name,
    ) by {
        lemma_any_push(s.books, book_is(t.accounts[i].user_name, t.accounts[i].book_name), row);
    }
    assert forall|i: int| 0 <= i < t.transactions.len() implies t.has_book(
        (#[trigger] t.transactions[i]).user_name,
        t.transactions[i].book_name,
    ) by {
        lemma_any_push(
            s.books,
            book_is(t.transactions[i].user_name, t.transactions[i].book_name),
            row,
        );
    }
}

/// A currency of a new key may be added to a book that exists.
pub proof fn lemma_push_currency(s: LedgerView, row: CurrencyView)
    requires
        s.wf(),
        s.has_book(row.user_name, row.book_name),
        !s.has_currency(row.user_name, row.book_name, row.symbol),
    ensures
        (LedgerView { currencies: s.currencies.push(row), ..s }).wf(),
{
    let t = LedgerView { currencies: s.currencies.push(row), ..s };
    lemma_any_row(s.currencies, currency_is(row.user_name, row.book_name, row.symbol));
    assert forall|i: int| 0 <= i < t.postings.len() implies t.has_currency(
        (#[trigger] t.postings[i]).user_name,
        t.postings[i].book_name,
        t.postings[i].currency,
    ) by {
        let p = t.postings[i];
        lemma_any_push(s.currencies, currency_is(p.user_name, p.book_name, p.currency), row);
    }
}

/// An account of a new key may be added to a book that exists.
pub proof fn lemma_push_account(s: LedgerView, row: AccountView)
    requires
        s.wf(),
        s.has_book(row.user_name, row.book_name),
        !s.has_account(row.user_name, row.book_name, row.name),
    ensures
        (LedgerView { accounts: s.accounts.push(row), ..s }).wf(),
{
    let t = LedgerView { accounts: s.accounts.push(row), ..s };
    lemma_any_row(s.accounts, account_is(row.user_name, row.book_name, row.name));
    assert forall|i: int| 0 <= i < t.postings.len() implies t.has_account(
        (#[trigger] t.postings[i]).user_name,
        t.postings[i].book_name,
        t.postings[i].account_name,
    ) by {
        let p = t.postings[i];
        lemma_any_push(s.accounts, account_is(p.user_name, p.book_name, p.account_name), row);
    }
}

/// A transaction of an unused identifier may be added to a book that exists;
/// its identifier then counts as issued.
pub proof fn lemma_push_transaction(s: LedgerView, row: TransactionView)
    requires
        s.wf(),
        s.has_book(row.user_name, row.book_name),
        !s.id_in_use(row.id),
    ensures
        (LedgerView {
            transactions: s.transactions.push(row),
            last_id: advanced(s.last_id, row.id),
            ..s
        }).wf(),
{
    let t = LedgerView {
        transactions: s.transactions.push(row),
        last_id: advanced(s.last_id, row.id),
        ..s
    };
    lemma_any_row(s.transactions, transaction_has_id(row.id));
    lemma_any_row(s.postings, posting_has_id(row.id));
    assert forall|i: int| 0 <= i < t.postings.len() implies t.has_transaction(
        (#[trigger] t.postings[i]).user_name,
        t.postings[i].book_name,
        t.postings[i].transaction_id,
    ) by {
        let p = t.postings[i];
        lemma_any_push(
            s.transactions,
            transaction_is(p.user_name, p.book_name, p.transaction_id),
            row,
        );
    }
}

/// A posting of an unused identifier may be added where its transaction, its
/// account and its currency exist; its identifier then counts as issued.
pub proof fn lemma_push_posting(s: LedgerView, row: PostingView)
    requires
        s.wf(),
        s.has_transaction(row.user_name, row.book_name, row.transaction_id),
        s.has_account(row.user_name, row.book_name, row.account_name),
        s.has_currency(row.user_name, row.book_name, row.currency),
        !s.id_in_use(row.id),
    ensures
        (LedgerView {
            postings: s.postings.push(row),
            last_id: advanced(s.last_id, row.id),
            ..s
        }).wf(),
{
    lemma_any_row(s.transactions, transaction_has_id(row.id));
    lemma_any_row(s.postings, posting_has_id(row.id));
}

/// A newly issued identifier is in use nowhere.
pub proof fn lemma_fresh_id_is_unused(s: LedgerView, id: i64)
    requires
        s.ids_issued(),
        is_fresh(s.last_id, id),
    ensures
        !s.id_in_use(id),
        s.wf() ==> s.issue(id).wf(),
{
    lemma_any_row(s.transactions, transaction_has_id(id));
    lemma_any_row(s.postings, posting_has_id(id));
}

/// A book that nothing belongs to may be removed.
pub proof fn lemma_remove_book(s: LedgerView, k: int)
    requires
        s.wf(),
        0 <= k < s.books.len(),
        !s.book_in_use(s.books[k].user_name, s.books[k].name),
    ensures
        (LedgerView { books: s.books.remove(k), ..s }).wf(),
{
    let t = LedgerView { books: s.books.remove(k), ..s };
    let owner = s.books[k].user_name;
    let name = s.books[k].name;
    lemma_any_row(s.currencies, crate::ledger::state::currencies_in(owner, name));
    lemma_any_row(s.accounts, crate::ledger::state::accounts_in(owner, name));
    lemma_any_row(s.transactions, crate::ledger::state::transactions_in(owner, name));
    assert forall|i: int| 0 <= i < t.currencies.len() implies t.has_book(
        (#[trigger] t.currencies[i]).user_name,
        t.currencies[i].book_name,
    ) by {
        let c = s.currencies[i];
        lemma_any_remove(s.books, book_is(c.user_name, c.book_name), k);
    }
    assert forall|i: int| 0 <= i < t.accounts.len() implies t.has_book(
        (#[trigger] t.accounts[i]).user_name,
        t.accounts[i].book_name,
    ) by {
        let c = s.accounts[i];
        lemma_any_remove(s.books, book_is(c.user_name, c.book_name), k);
    }
    assert forall|i: int| 0 <= i < t.transactions.len() implies t.has_book(
        (#[trigger] t.transactions[i]).user_name,
        t.transactions[i].book_name,
    ) by {
        let c = s.transactions[i];
        lemma_any_remove(s.books, book_is(c.user_name, c.book_name), k);
    }
}

/// A currency that no posting is in may be removed.
pub proof fn lemma_remove_currency(s: LedgerView, k: int)
    requires
        s.wf(),
        0 <= k < s.currencies.len(),
        !s.currency_in_use(
            s.currencies[k].user_name,
            s.currencies[k].book_name,
            s.currencies[k].symbol,
        ),
    ensures
        (LedgerView { currencies: s.currencies.remove(k), ..s }).wf(),
{
    let t = LedgerView { currencies: s.currencies.remove(k), ..s };
    let c = s.currencies[k];
    lemma_any_row(s.postings, crate::ledger::state::postings_in(c.user_name, c.book_name, c.symbol));
    assert forall|i: int| 0 <= i < t.postings.len() implies t.has_currency(
        (#[trigger] t.postings[i]).user_name,
        t.postings[i].book_name,
        t.postings[i].currency,
    ) by {
        let p = s.postings[i];
        lemma_any_remove(s.currencies, currency_is(p.user_name, p.book_name, p.currency), k);
    }
}

/// An account that no posting is against may be removed.
pub proof fn lemma_remove_account(s: LedgerView, k: int)
    requires
        s.wf(),
        0 <= k < s.accounts.len(),
        !s.account_in_use(s.accounts[k].user_name, s.accounts[k].book_name, s.accounts[k].name),
    ensures
        (LedgerView { accounts: s.accounts.remove(k), ..s }).wf(),
{
    let t = LedgerView { accounts: s.accounts.remove(k), ..s };
    let c = s.accounts[k];
    lemma_any_row(s.postings, crate::ledger::state::postings_on(c.user_name, c.book_name, c.name));
    assert forall|i: int| 0 <= i < t.postings.len() implies t.has_account(
        (#[trigger] t.postings[i]).user_name,
        t.postings[i].book_name,
        t.postings[i].account_name,
    ) by {
        let p = s.postings[i];
        lemma_any_remove(s.accounts, account_is(p.user_name, p.book_name, p.account_name), k);
    }
}

/// A transaction that no posting belongs to may be removed.
pub proof fn lemma_remove_transaction(s: LedgerView, k: int)
    requires
        s.wf(),
        0 <= k < s.transactions.len(),
        !s.transaction_in_use(
            s.transactions[k].user_name,
            s.transactions[k].book_name,
            s.transactions[k].id,
        ),
    ensures
        (LedgerView { transactions: s.transactions.remove(k), ..s }).wf(),
{
    let t = LedgerView { transactions: s.transactions.remove(k), ..s };
    let c = s.transactions[k];
    lemma_any_row(s.postings, crate::ledger::state::postings_of(c.user_name, c.book_name, c.id));
    assert forall|i: int| 0 <= i < t.postings.len() implies t.has_transaction(
        (#[trigger] t.postings[i]).user_name,
        t.postings[i].book_name,
        t.postings[i].transaction_id,
    ) by {
        let p = s.postings[i];
        lemma_any_remove(
            s.transactions,
            transaction_is(p.user_name, p.book_name, p.transaction_id),
            k,
        );
    }
}

/// A posting may be removed.
pub proof fn lemma_remove_posting(s: LedgerView, k: int)
    requires
        s.wf(),
        0 <= k < s.postings.len(),
    ensures
        (LedgerView { postings: s.postings.remove(k), ..s }).wf(),
{
}

/// A book may be replaced by a row of the same key.
pub proof fn lemma_update_book(s: LedgerView, k: int, row: BookView)
    requires
        s.wf(),
        0 <= k < s.books.len(),
        row.user_name == s.books[k].user_name,
        row.name == s.books[k].name,
    ensures
        (LedgerView { books: s.books.update(k, row), ..s }).wf(),
{
    let t = LedgerView { books: s.books.update(k, row), ..s };
    assert forall|i: int| 0 <= i < t.currencies.len() implies t.has_book(
        (#[trigger] t.currencies[i]).user_name,
        t.currencies[i].book_name,
    ) by {
        let c = s.currencies[i];
        lemma_update_any(s.books, book_is(c.user_name, c.book_name), k, row);
    }
    assert forall|i: int| 0 <= i < t.accounts.len() implies t.has_book(
        (#[trigger] t.accounts[i]).user_name,
        t.accounts[i].book_name,
    ) by {
        let c = s.accounts[i];
        lemma_update_any(s.books, book_is(c.user_name, c.book_name), k, row);
    }
    assert forall|i: int| 0 <= i < t.transactions.len() implies t.has_book(
        (#[trigger] t.transactions[i]).user_name,
        t.transactions[i].book_name,
    ) by {
        let c = s.transactions[i];
        lemma_update_any(s.books, book_is(c.user_name, c.book_name), k, row);
    }
}

/// A currency may be replaced by a row of the same key.
pub proof fn lemma_update_currency(s: LedgerView, k: int, row: CurrencyView)
    requires
        s.wf(),
        0 <= k < s.currencies.len(),
        row.user_name == s.currencies[k].user_name,
        row.book_name == s.currencies[k].book_name,
        row.symbol == s.currencies[k].symbol,
    ensures
        (LedgerView { currencies: s.currencies.update(k, row), ..s }).wf(),
{
    let t = LedgerView { currencies: s.currencies.update(k, row), ..s };
    assert forall|i: int| 0 <= i < t.postings.len() implies t.has_currency(
        (#[trigger] t.postings[i]).user_name,
        t.postings[i].book_name,
        t.postings[i].currency,
    ) by {
        let p = s.postings[i];
        lemma_update_any(s.currencies, currency_is(p.user_name, p.book_name, p.currency), k, row);
    }
}

/// A transaction may be replaced by a row of the same key.
pub proof fn lemma_update_transaction(s: LedgerView, k: int, row: TransactionView)
    requires
        s.wf(),
        0 <= k < s.transactions.len(),
        row.user_name == s.transactions[k].user_name,
        row.book_name == s.transactions[k].book_name,
        row.id == s.transactions[k].id,
    ensures
        (LedgerView { transactions: s.transactions.update(k, row), ..s }).wf(),
{
    let t = LedgerView { transactions: s.transactions.update(k, row), ..s };
    assert forall|i: int| 0 <= i < t.postings.len() implies t.has_transaction(
        (#[trigger] t.postings[i]).user_name,
        t.postings[i].book_name,
        t.postings[i].transaction_id,
    ) by {
        let p = s.postings[i];
        lemma_update_any(
            s.transactions,
            transaction_is(p.user_name, p.book_name, p.transaction_id),
            k,
            row,
        );
    }
}

} // verus!
