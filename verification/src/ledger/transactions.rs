//! Transactions.

use vstd::prelude::*;
use chrono::NaiveDateTime;
use crate::allocator::is_fresh;
use crate::clock::current_time;
use crate::entities;
use crate::entities::clone_opt_text;
use crate::error::{result_view, LedgerError};
use crate::ledger::integrity::{
    lemma_fresh_id_is_unused, lemma_push_transaction, lemma_remove_transaction,
    lemma_update_transaction,
};
use crate::ledger::scan::{
    any_posting_of, any_posting_with_id, any_transaction_with_id, find_book, find_transaction,
};
use crate::ledger::state::{transaction_ids, transaction_is, transaction_set, transactions_in};
use crate::ledger::Ledger;
use crate::model;
use crate::model::{ToUserStruct, UserAndBookInfo};
use crate::query::{
    first_row, lemma_any_row, lemma_filter_step, lemma_first_row, lemma_remove_only,
    lemma_update_replaced, lemma_views_push, lemma_views_remove, lemma_views_update, rows_replaced,
    views,
};

verus! {

impl Ledger {
    /// The transaction `id` of the book `book` of `owner`.
    pub fn get_transaction(&self, owner: &String, book: &String, id: i64) -> (r: Result<
        entities::Transaction,
        LedgerError,
    >)
        ensures
            result_view(r) == self@.get_transaction(owner@, book@, id),
    {
        match find_transaction(&self.transactions, owner, book, id) {
            Some(i) => Ok(self.transactions[i].to_user_struct()),
            None => Err(LedgerError::NotFound),
        }
    }

    /// The identifiers of the transactions of the book `book` of `owner`, in
    /// the order in which they were created.
    pub fn get_transactions(&self, owner: &String, book: &String) -> (r: Vec<i64>)
        ensures
            r@ == self@.get_transactions(owner@, book@),
    {
        let ghost q = transactions_in(owner@, book@);
        let ghost rows = views(self.transactions@);
        let mut out: Vec<i64> = Vec::new();
        let mut i: usize = 0;
        while i < self.transactions.len()
            invariant
                i <= self.transactions.len(),
                rows == views(self.transactions@),
                q == transactions_in(owner@, book@),
                out@ == transaction_ids(rows.take(i as int).filter(q)),
            decreases self.transactions.len() - i,
        {
            proof {
                lemma_filter_step(rows, q, i as int);
            }
            if self.transactions[i].user_name == *owner && self.transactions[i].book_name
                == *book {
                out.push(self.transactions[i].id);
            }
            i += 1;
        }
        assert(rows.take(i as int) =~= rows);
        out
    }

    /// Stores a new transaction of the book `book` of `owner` under the
    /// identifier `id`, which from then on counts as issued; `now` is the time
    /// that the transaction gets where it names none. An identifier that a
    /// transaction or a posting of the ledger has is refused.
    pub fn insert_transaction(
        &mut self,
        owner: &String,
        book: &String,
        transaction: &entities::NewTransaction,
        id: i64,
        now: NaiveDateTime,
    ) -> (r: Result<i64, LedgerError>)
        requires
            old(self).wf(),
        ensures
            final(self).wf(),
            r == old(self)@.insert_transaction_result(owner@, book@, id),
            final(self)@ == old(self)@.insert_transaction(owner@, book@, transaction@, id, now),
    {
        if find_book(&self.books, owner, book).is_none() {
            return Err(LedgerError::BadRequest);
        }
        if any_transaction_with_id(&self.transactions, id) || any_posting_with_id(
            &self.postings,
            id,
        ) {
            return Err(LedgerError::Conflict);
        }
        let row = model::Transaction::with_id(
            transaction,
            UserAndBookInfo { user_name: owner, book_name: book },
            id,
            now,
        );
        proof {
            lemma_views_push(self.transactions@, row);
            lemma_push_transaction(self@, row@);
        }
        self.transactions.push(row);
        self.allocator.mark_issued(id);
        Ok(id)
    }

    /// Creates a transaction in the book `book` of `owner` under a newly
    /// allocated identifier, and returns the identifier. Where the
    /// transaction names no time it gets the current time.
    ///
    /// The allocator issues an identifier or fails; on a ledger that has
    /// issued none it issues one. Where it fails nothing changes. Where it
    /// issues one, nothing in the ledger has that identifier, and the
    /// transaction is stored under it if its book exists.
    pub fn create_transaction(
        &mut self,
        owner: &String,
        book: &String,
        transaction: &entities::NewTransaction,
    ) -> (r: Result<i64, LedgerError>)
        requires
            old(self).wf(),
        ensures
            final(self).wf(),
            old(self)@.last_id is None ==> final(self)@.last_id is Some,
            final(self)@.last_id == old(self)@.last_id ==> {
                &&& r == Err::<i64, LedgerError>(LedgerError::InternalError)
                &&& final(self)@ == old(self)@
            },
            final(self)@.last_id != old(self)@.last_id ==> {
                let id = final(self)@.last_id->0;
                let issued = old(self)@.issue(id);
                &&& final(self)@.last_id is Some
                &&& is_fresh(old(self)@.last_id, id)
                &&& !old(self)@.id_in_use(id)
                &&& r == if old(self)@.has_book(owner@, book@) {
                    Ok::<i64, LedgerError>(id)
                } else {
                    Err::<i64, LedgerError>(LedgerError::BadRequest)
                }
                &&& final(self)@ == issued.insert_transaction(
                    owner@,
                    book@,
                    transaction@,
                    id,
                    final(self)@.transactions.last().time,
                )
            },
    {
        match self.allocator.allocate() {
            Err(e) => Err(e),
            Ok(id) => {
                let now = current_time();
                proof {
                    lemma_fresh_id_is_unused(old(self)@, id);
                }
                self.insert_transaction(owner, book, transaction, id, now)
            },
        }
    }

    /// Deletes the transaction `id` of the book `book` of `owner`, unless a
    /// posting belongs to it.
    pub fn delete_transaction(&mut self, owner: &String, book: &String, id: i64) -> (r: Result<
        (),
        LedgerError,
    >)
        requires
            old(self).wf(),
        ensures
            final(self).wf(),
            r == old(self)@.delete_transaction_result(owner@, book@, id),
            final(self)@ == old(self)@.delete_transaction(owner@, book@, id),
    {
        match find_transaction(&self.transactions, owner, book, id) {
            None => Err(LedgerError::NotFound),
            Some(i) => {
                if any_posting_of(&self.postings, owner, book, id) {
                    Err(LedgerError::BadRequest)
                } else {
                    proof {
                        lemma_remove_only(
                            views(self.transactions@),
                            transaction_is(owner@, book@, id),
                            i as int,
                        );
                        lemma_views_remove(self.transactions@, i as int);
                        lemma_remove_transaction(self@, i as int);
                    }
                    self.transactions.remove(i);
                    Ok(())
                }
            },
        }
    }

    /// Replaces the time and the description of the transaction `id` of the
    /// book `book` of `owner` by those of `transaction`, with `now` as the
    /// time where it names none. The identifier in `transaction` is not read:
    /// a transaction keeps its key.
    pub fn replace_transaction(
        &mut self,
        owner: &String,
        book: &String,
        id: i64,
        transaction: &entities::Transaction,
        now: NaiveDateTime,
    ) -> (r: Result<(), LedgerError>)
        requires
            old(self).wf(),
        ensures
            final(self).wf(),
            r == old(self)@.update_transaction_result(owner@, book@, id),
            final(self)@ == old(self)@.update_transaction(owner@, book@, id, transaction@, now),
            r is Ok ==> first_row(final(self)@.transactions, transaction_is(owner@, book@, id))
                == transaction_set(transaction@, now)(
                first_row(old(self)@.transactions, transaction_is(owner@, book@, id)),
            ),
    {
        let ghost q = transaction_is(owner@, book@, id);
        let ghost f = rows_replaced(q, transaction_set(transaction@, now));
        let ghost rows = views(self.transactions@);
        match find_transaction(&self.transactions, owner, book, id) {
            None => {
                proof {
                    lemma_any_row(rows, q);
                }
                Err(LedgerError::NotFound)
            },
            Some(i) => {
                let row = model::Transaction {
                    id: self.transactions[i].id,
                    time: match transaction.time {
                        Some(t) => t,
                        None => now,
                    },
                    description: clone_opt_text(&transaction.description),
                    book_name: self.transactions[i].book_name.clone(),
                    user_name: self.transactions[i].user_name.clone(),
                };
                proof {
                    assert(row@ == f(rows[i as int]));
                    lemma_update_replaced(rows, f, i as int);
                    lemma_views_update(self.transactions@, i as int, row);
                    lemma_update_transaction(self@, i as int, row@);
                    lemma_any_row(rows, q);
                    assert forall|j: int| 0 <= j < i implies !q(
                        #[trigger] rows.update(i as int, row@)[j],
                    ) by {}
                    lemma_first_row(rows.update(i as int, row@), q, i as int);
                }
                self.transactions[i] = row;
                Ok(())
            },
        }
    }

    /// Replaces the time and the description of the transaction `id` of the
    /// book `book` of `owner` by those of `transaction`. Where `transaction`
    /// names no time the transaction gets the current time.
    pub fn update_transaction(
        &mut self,
        owner: &String,
        book: &String,
        id: i64,
        transaction: &entities::Transaction,
    ) -> (r: Result<(), LedgerError>)
        requires
            old(self).wf(),
        ensures
            final(self).wf(),
            r == old(self)@.update_transaction_result(owner@, book@, id),
            final(self)@ == old(self)@.update_transaction(
                owner@,
                book@,
                id,
                transaction@,
                first_row(final(self)@.transactions, transaction_is(owner@, book@, id)).time,
            ),
    {
        let now = current_time();
        let r = self.replace_transaction(owner, book, id, transaction, now);
        proof {
            if r is Err {
                lemma_any_row(old(self)@.transactions, transaction_is(owner@, book@, id));
            }
        }
        r
    }
}

} // verus!
