//! Postings.

use vstd::prelude::*;
use crate::allocator::is_fresh;
use crate::entities;
use crate::error::{result_view, LedgerError};
use crate::ledger::integrity::{lemma_fresh_id_is_unused, lemma_push_posting, lemma_remove_posting};
use crate::ledger::scan::{
    any_posting_with_id, any_transaction_with_id, find_account, find_currency, find_posting,
    find_transaction,
};
use crate::ledger::state::{posting_ids, posting_is, postings_of};
use crate::ledger::Ledger;
use crate::model;
use crate::model::{AddedInformationForPosting, ToUserStruct};
use crate::query::{
    lemma_any_row, lemma_filter_all, lemma_filter_step, lemma_remove_only, lemma_views_push,
    lemma_views_remove, rows_except, views,
};

verus! {

impl Ledger {
    /// The posting `id` of the transaction `transaction_id` in the book `book`
    /// of `owner`.
    pub fn get_posting(&self, owner: &String, book: &String, transaction_id: i64, id: i64) -> (r:
        Result<entities::Posting, LedgerError>)
        ensures
            result_view(r) == self@.get_posting(owner@, book@, transaction_id, id),
    {
        match find_posting(&self.postings, owner, book, transaction_id, id) {
            Some(i) => Ok(self.postings[i].to_user_struct()),
            None => Err(LedgerError::NotFound),
        }
    }

    /// The identifiers of the postings of the transaction `transaction_id` in
    /// the book `book` of `owner`, in the order in which they were created.
    pub fn get_postings(&self, owner: &String, book: &String, transaction_id: i64) -> (r: Vec<i64>)
        ensures
            r@ == self@.get_postings(owner@, book@, transaction_id),
    {
        let ghost q = postings_of(owner@, book@, transaction_id);
        let ghost rows = views(self.postings@);
        let mut out: Vec<i64> = Vec::new();
        let mut i: usize = 0;
        while i < self.postings.len()
            invariant
                i <= self.postings.len(),
                rows == views(self.postings@),
                q == postings_of(owner@, book@, transaction_id),
                out@ == posting_ids(rows.take(i as int).filter(q)),
            decreases self.postings.len() - i,
        {
            proof {
                lemma_filter_step(rows, q, i as int);
            }
            if self.postings[i].user_name == *owner && self.postings[i].book_name == *book
                && self.postings[i].transaction_id == transaction_id {
                out.push(self.postings[i].id);
            }
            i += 1;
        }
        assert(rows.take(i as int) =~= rows);
        out
    }

    /// Stores a new posting of the transaction `transaction_id` in the book
    /// `book` of `owner` under the identifier `id`, which from then on counts
    /// as issued. An identifier that a transaction or a posting of the ledger
    /// has is refused.
    pub fn insert_posting(
        &mut self,
        owner: &String,
        book: &String,
        transaction_id: i64,
        posting: &entities::NewPosting,
        id: i64,
    ) -> (r: Result<i64, LedgerError>)
        requires
            old(self).wf(),
        ensures
            final(self).wf(),
            r == old(self)@.insert_posting_result(owner@, book@, transaction_id, posting@, id),
            final(self)@ == old(self)@.insert_posting(owner@, book@, transaction_id, posting@, id),
    {
        if find_transaction(&self.transactions, owner, book, transaction_id).is_none() {
            return Err(LedgerError::BadRequest);
        }
        if find_account(&self.accounts, owner, book, &posting.account_name).is_none() {
            return Err(LedgerError::BadRequest);
        }
        if find_currency(&self.currencies, owner, book, &posting.currency).is_none() {
            return Err(LedgerError::BadRequest);
        }
        if any_transaction_with_id(&self.transactions, id) || any_posting_with_id(
            &self.postings,
            id,
        ) {
            return Err(LedgerError::Conflict);
        }
        let row = model::Posting::with_id(
            posting,
            AddedInformationForPosting {
                user_name: owner,
                book_name: book,
                transaction_id: &transaction_id,
            },
            id,
        );
        proof {
            lemma_views_push(self.postings@, row);
            lemma_push_posting(self@, row@);
        }
        self.postings.push(row);
        self.allocator.mark_issued(id);
        Ok(id)
    }

    /// Creates a posting of the transaction `transaction_id` in the book
    /// `book` of `owner` under a newly allocated identifier, and returns the
    /// identifier.
    ///
    /// The allocator issues an identifier or fails; on a ledger that has
    /// issued none it issues one. Where it fails nothing changes. Where it
    /// issues one, nothing in the ledger has that identifier, and the posting
    /// is stored under it if its transaction, its account and its currency
    /// exist in the book.
    pub fn create_posting(
        &mut self,
        owner: &String,
        book: &String,
        transaction_id: i64,
        posting: &entities::NewPosting,
    ) -> (r: Result<i64, LedgerError>)
        requires
            old(self).wf(),
        ensures
            final(self).wf(),
            old(self)@.last_id is None ==> final(self)@.last_id is Some,
            final(self)@.last_id == old(self)@.last_id ==> {
                &&& r == Err::<i64, LedgerError>(LedgerError::InternalError)
                &&& final(self)@ == old(self)@
            },
            final(self)@.last_id != old(self)@.last_id ==> {
                let id = final(self)@.last_id->0;
                let issued = old(self)@.issue(id);
                &&& final(self)@.last_id is Some
                &&& is_fresh(old(self)@.last_id, id)
                &&& !old(self)@.id_in_use(id)
                &&& r == if old(self)@.has_transaction(owner@, book@, transaction_id) && old(
                    self,
                )@.has_account(owner@, book@, posting@.account_name) && old(self)@.has_currency(
                    owner@,
                    book@,
                    posting@.currency,
                ) {
                    Ok::<i64, LedgerError>(id)
                } else {
                    Err::<i64, LedgerError>(LedgerError::BadRequest)
                }
                &&& final(self)@ == issued.insert_posting(
                    owner@,
                    book@,
                    transaction_id,
                    posting@,
                    id,
                )
            },
    {
        match self.allocator.allocate() {
            Err(e) => Err(e),
            Ok(id) => {
                proof {
                    lemma_fresh_id_is_unused(old(self)@, id);
                }
                self.insert_posting(owner, book, transaction_id, posting, id)
            },
        }
    }

    /// Deletes the posting `id` of the transaction `transaction_id` in the
    /// book `book` of `owner`.
    pub fn delete_posting(&mut self, owner: &String, book: &String, transaction_id: i64, id: i64)
        -> (r: Result<(), LedgerError>)
        requires
            old(self).wf(),
        ensures
            final(self).wf(),
            r == old(self)@.delete_posting_result(owner@, book@, transaction_id, id),
            final(self)@ == old(self)@.delete_posting(owner@, book@, transaction_id, id),
    {
        let ghost q = posting_is(owner@, book@, transaction_id, id);
        match find_posting(&self.postings, owner, book, transaction_id, id) {
            None => {
                proof {
                    lemma_any_row(views(self.postings@), q);
                    lemma_filter_all(views(self.postings@), rows_except(q));
                }
                Err(LedgerError::NotFound)
            },
            Some(i) => {
                proof {
                    lemma_remove_only(views(self.postings@), q, i as int);
                    lemma_views_remove(self.postings@, i as int);
                    lemma_remove_posting(self@, i as int);
                }
                self.postings.remove(i);
                Ok(())
            },
        }
    }
}

} // verus!
