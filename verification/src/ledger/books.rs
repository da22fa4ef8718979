//! Books.

use vstd::prelude::*;
use crate::entities;
use crate::entities::clone_opt_text;
use crate::error::{result_view, LedgerError};
use crate::ledger::integrity::{lemma_push_book, lemma_remove_book, lemma_update_book};
use crate::ledger::scan::{any_account_in, any_currency_in, any_transaction_in, find_book};
use crate::ledger::state::{book_is, book_names, book_set, books_of};
use crate::ledger::Ledger;
use crate::model;
use crate::model::{AddedInformationForBook, FromUserStruct, ToUserStruct};
use crate::query::{
    lemma_any_row, lemma_filter_step, lemma_remove_only, lemma_update_replaced, lemma_views_push,
    lemma_views_remove, lemma_views_update, rows_replaced, views,
};

verus! {

impl Ledger {
    /// The book `name` of `owner`.
    pub fn get_book(&self, owner: &String, name: &String) -> (r: Result<
        entities::Book,
        LedgerError,
    >)
        ensures
            result_view(r) == self@.get_book(owner@, name@),
    {
        match find_book(&self.books, owner, name) {
            Some(i) => Ok(self.books[i].to_user_struct()),
            None => Err(LedgerError::NotFound),
        }
    }

    /// The names of the books of `owner`, in the order in which they were
    /// created.
    pub fn get_books(&self, owner: &String) -> (r: Vec<String>)
        ensures
            views(r@) == self@.get_books(owner@),
    {
        let ghost q = books_of(owner@);
        let ghost rows = views(self.books@);
        let mut out: Vec<String> = Vec::new();
        let mut i: usize = 0;
        while i < self.books.len()
            invariant
                i <= self.books.len(),
                rows == views(self.books@),
                q == books_of(owner@),
                views(out@) == book_names(rows.take(i as int).filter(q)),
            decreases self.books.len() - i,
        {
            proof {
                lemma_filter_step(rows, q, i as int);
            }
            if self.books[i].user_name == *owner {
                let name = self.books[i].name.clone();
                proof {
                    lemma_views_push(out@, name);
                }
                out.push(name);
            }
            i += 1;
        }
        assert(rows.take(i as int) =~= rows);
        out
    }

    /// Creates a book of `owner`.
    pub fn create_book(&mut self, owner: &String, book: &entities::Book) -> (r: Result<
        (),
        LedgerError,
    >)
        requires
            old(self).wf(),
        ensures
            final(self).wf(),
            r == old(self)@.create_book_result(owner@, book@),
            final(self)@ == old(self)@.create_book(owner@, book@),
    {
        match find_book(&self.books, owner, &book.name) {
            Some(_) => Err(LedgerError::Conflict),
            None => {
                let row = model::Book::from_user_struct(
                    book,
                    AddedInformationForBook { user_name: owner },
                );
                proof {
                    lemma_views_push(self.books@, row);
                    lemma_push_book(self@, row@);
                }
                self.books.push(row);
                Ok(())
            },
        }
    }

    /// Deletes the book `name` of `owner`, unless something belongs to it.
    pub fn delete_book(&mut self, owner: &String, name: &String) -> (r: Result<(), LedgerError>)
        requires
            old(self).wf(),
        ensures
            final(self).wf(),
            r == old(self)@.delete_book_result(owner@, name@),
            final(self)@ == old(self)@.delete_book(owner@, name@),
    {
        match find_book(&self.books, owner, name) {
            None => Err(LedgerError::NotFound),
            Some(i) => {
                if any_currency_in(&self.currencies, owner, name) || any_account_in(
                    &self.accounts,
                    owner,
                    name,
                ) || any_transaction_in(&self.transactions, owner, name) {
                    Err(LedgerError::BadRequest)
                } else {
                    proof {
                        lemma_remove_only(views(self.books@), book_is(owner@, name@), i as int);
                        lemma_views_remove(self.books@, i as int);
                        lemma_remove_book(self@, i as int);
                    }
                    self.books.remove(i);
                    Ok(())
                }
            },
        }
    }

    /// Replaces the description of the book `name` of `owner` by that of
    /// `book`. The name in `book` is not read: a book keeps its key.
    pub fn update_book(&mut self, owner: &String, name: &String, book: &entities::Book) -> (r:
        Result<(), LedgerError>)
        requires
            old(self).wf(),
        ensures
            final(self).wf(),
            r == old(self)@.update_book_result(owner@, name@),
            final(self)@ == old(self)@.update_book(owner@, name@, book@),
    {
        let ghost q = book_is(owner@, name@);
        let ghost f = rows_replaced(q, book_set(book@));
        let ghost rows = views(self.books@);
        match find_book(&self.books, owner, name) {
            None => {
                proof {
                    lemma_any_row(rows, q);
                }
                Err(LedgerError::NotFound)
            },
            Some(i) => {
                let row = model::Book {
                    name: self.books[i].name.clone(),
                    user_name: self.books[i].user_name.clone(),
                    description: clone_opt_text(&book.description),
                };
                proof {
                    assert(row@ == f(rows[i as int]));
                    lemma_update_replaced(rows, f, i as int);
                    lemma_views_update(self.books@, i as int, row);
                    lemma_update_book(self@, i as int, row@);
                }
                self.books[i] = row;
                Ok(())
            },
        }
    }
}

} // verus!
