//! Currencies.

use vstd::prelude::*;
use crate::entities;
use crate::entities::clone_opt_text;
use crate::error::{result_view, LedgerError};
use crate::ledger::integrity::{lemma_push_currency, lemma_remove_currency, lemma_update_currency};
use crate::ledger::scan::{any_posting_in, find_book, find_currency};
use crate::ledger::state::{currencies_in, currency_is, currency_set, currency_symbols};
use crate::ledger::Ledger;
use crate::model;
use crate::model::{FromUserStruct, ToUserStruct, UserAndBookInfo};
use crate::query::{
    lemma_any_row, lemma_filter_step, lemma_remove_only, lemma_update_replaced, lemma_views_push,
    lemma_views_remove, lemma_views_update, rows_replaced, views,
};

verus! {

impl Ledger {
    /// The currency `symbol` of the book `book` of `owner`.
    pub fn get_currency(&self, owner: &String, book: &String, symbol: &String) -> (r: Result<
        entities::Currency,
        LedgerError,
    >)
        ensures
            result_view(r) == self@.get_currency(owner@, book@, symbol@),
    {
        match find_currency(&self.currencies, owner, book, symbol) {
            Some(i) => Ok(self.currencies[i].to_user_struct()),
            None => Err(LedgerError::NotFound),
        }
    }

    /// The symbols of the currencies of the book `book` of `owner`, in the
    /// order in which they were created.
    pub fn get_currencies(&self, owner: &String, book: &String) -> (r: Vec<String>)
        ensures
            views(r@) == self@.get_currencies(owner@, book@),
    {
        let ghost q = currencies_in(owner@, book@);
        let ghost rows = views(self.currencies@);
        let mut out: Vec<String> = Vec::new();
        let mut i: usize = 0;
        while i < self.currencies.len()
            invariant
                i <= self.currencies.len(),
                rows == views(self.currencies@),
                q == currencies_in(owner@, book@),
                views(out@) == currency_symbols(rows.take(i as int).filter(q)),
            decreases self.currencies.len() - i,
        {
            proof {
                lemma_filter_step(rows, q, i as int);
            }
            if self.currencies[i].user_name == *owner && self.currencies[i].book_name == *book {
                let symbol = self.currencies[i].symbol.clone();
                proof {
                    lemma_views_push(out@, symbol);
                }
                out.push(symbol);
            }
            i += 1;
        }
        assert(rows.take(i as int) =~= rows);
        out
    }

    /// Creates a currency in the book `book` of `owner`.
    pub fn create_currency(&mut self, owner: &String, book: &String, currency: &entities::Currency)
        -> (r: Result<(), LedgerError>)
        requires
            old(self).wf(),
        ensures
            final(self).wf(),
            r == old(self)@.create_currency_result(owner@, book@, currency@),
            final(self)@ == old(self)@.create_currency(owner@, book@, currency@),
    {
        if find_book(&self.books, owner, book).is_none() {
            return Err(LedgerError::BadRequest);
        }
        match find_currency(&self.currencies, owner, book, &currency.symbol) {
            Some(_) => Err(LedgerError::Conflict),
            None => {
                let row = model::Currency::from_user_struct(
                    currency,
                    UserAndBookInfo { user_name: owner, book_name: book },
                );
                proof {
                    lemma_views_push(self.currencies@, row);
                    lemma_push_currency(self@, row@);
                }
                self.currencies.push(row);
                Ok(())
            },
        }
    }

    /// Deletes the currency `symbol` of the book `book` of `owner`, unless a
    /// posting is in it.
    pub fn delete_currency(&mut self, owner: &String, book: &String, symbol: &String) -> (r:
        Result<(), LedgerError>)
        requires
            old(self).wf(),
        ensures
            final(self).wf(),
            r == old(self)@.delete_currency_result(owner@, book@, symbol@),
            final(self)@ == old(self)@.delete_currency(owner@, book@, symbol@),
    {
        match find_currency(&self.currencies, owner, book, symbol) {
            None => Err(LedgerError::NotFound),
            Some(i) => {
                if any_posting_in(&self.postings, owner, book, symbol) {
                    Err(LedgerError::BadRequest)
                } else {
                    proof {
                        lemma_remove_only(
                            views(self.currencies@),
                            currency_is(owner@, book@, symbol@),
                            i as int,
                        );
                        lemma_views_remove(self.currencies@, i as int);
                        lemma_remove_currency(self@, i as int);
                    }
                    self.currencies.remove(i);
                    Ok(())
                }
            },
        }
    }

    /// Replaces the scale and the description of the currency `symbol` of the
    /// book `book` of `owner` by those of `currency`. The symbol in `currency`
    /// is not read: a currency keeps its key.
    pub fn update_currency(
        &mut self,
        owner: &String,
        book: &String,
        symbol: &String,
        currency: &entities::Currency,
    ) -> (r: Result<(), LedgerError>)
        requires
            old(self).wf(),
        ensures
            final(self).wf(),
            r == old(self)@.update_currency_result(owner@, book@, symbol@),
            final(self)@ == old(self)@.update_currency(owner@, book@, symbol@, currency@),
    {
        let ghost q = currency_is(owner@, book@, symbol@);
        let ghost f = rows_replaced(q, currency_set(currency@));
        let ghost rows = views(self.currencies@);
        match find_currency(&self.currencies, owner, book, symbol) {
            None => {
                proof {
                    lemma_any_row(rows, q);
                }
                Err(LedgerError::NotFound)
            },
            Some(i) => {
                let row = model::Currency {
                    symbol: self.currencies[i].symbol.clone(),
                    decimal_points: currency.decimal_points,
                    description: clone_opt_text(&currency.description),
                    user_name: self.currencies[i].user_name.clone(),
                    book_name: self.currencies[i].book_name.clone(),
                };
                proof {
                    assert(row@ == f(rows[i as int]));
                    lemma_update_replaced(rows, f, i as int);
                    lemma_views_update(self.currencies@, i as int, row);
                    lemma_update_currency(self@, i as int, row@);
                }
                self.currencies[i] = row;
                Ok(())
            },
        }
    }
}

} // verus!
