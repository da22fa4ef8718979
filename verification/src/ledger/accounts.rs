//! Accounts.

use vstd::prelude::*;
use crate::entities;
use crate::error::{result_view, LedgerError};
use crate::ledger::integrity::{lemma_push_account, lemma_remove_account};
use crate::ledger::scan::{any_posting_on, find_account, find_book};
use crate::ledger::state::{account_is, account_names, accounts_in};
use crate::ledger::Ledger;
use crate::model;
use crate::model::{FromUserStruct, ToUserStruct, UserAndBookInfo};
use crate::query::{
    lemma_filter_step, lemma_remove_only, lemma_views_push, lemma_views_remove, views,
};

verus! {

impl Ledger {
    /// The account `name` of the book `book` of `owner`.
    pub fn get_account(&self, owner: &String, book: &String, name: &String) -> (r: Result<
        entities::Account,
        LedgerError,
    >)
        ensures
            result_view(r) == self@.get_account(owner@, book@, name@),
    {
        match find_account(&self.accounts, owner, book, name) {
            Some(i) => Ok(self.accounts[i].to_user_struct()),
            None => Err(LedgerError::NotFound),
        }
    }

    /// The names of the accounts of the book `book` of `owner`, in the order
    /// in which they were created.
    pub fn get_accounts(&self, owner: &String, book: &String) -> (r: Vec<String>)
        ensures
            views(r@) == self@.get_accounts(owner@, book@),
    {
        let ghost q = accounts_in(owner@, book@);
        let ghost rows = views(self.accounts@);
        let mut out: Vec<String> = Vec::new();
        let mut i: usize = 0;
        while i < self.accounts.len()
            invariant
                i <= self.accounts.len(),
                rows == views(self.accounts@),
                q == accounts_in(owner@, book@),
                views(out@) == account_names(rows.take(i as int).filter(q)),
            decreases self.accounts.len() - i,
        {
            proof {
                lemma_filter_step(rows, q, i as int);
            }
            if self.accounts[i].user_name == *owner && self.accounts[i].book_name == *book {
                let name = self.accounts[i].name.clone();
                proof {
                    lemma_views_push(out@, name);
                }
                out.push(name);
            }
            i += 1;
        }
        assert(rows.take(i as int) =~= rows);
        out
    }

    /// Creates an account in the book `book` of `owner`.
    pub fn create_account(&mut self, owner: &String, book: &String, account: &entities::Account)
        -> (r: Result<(), LedgerError>)
        requires
            old(self).wf(),
        ensures
            final(self).wf(),
            r == old(self)@.create_account_result(owner@, book@, account@),
            final(self)@ == old(self)@.create_account(owner@, book@, account@),
    {
        if find_book(&self.books, owner, book).is_none() {
            return Err(LedgerError::BadRequest);
        }
        match find_account(&self.accounts, owner, book, &account.name) {
            Some(_) => Err(LedgerError::Conflict),
            None => {
                let row = model::Account::from_user_struct(
                    account,
                    UserAndBookInfo { user_name: owner, book_name: book },
                );
                proof {
                    lemma_views_push(self.accounts@, row);
                    lemma_push_account(self@, row@);
                }
                self.accounts.push(row);
                Ok(())
            },
        }
    }

    /// Deletes the account `name` of the book `book` of `owner`, unless a
    /// posting is against it.
    pub fn delete_account(&mut self, owner: &String, book: &String, name: &String) -> (r: Result<
        (),
        LedgerError,
    >)
        requires
            old(self).wf(),
        ensures
            final(self).wf(),
            r == old(self)@.delete_account_result(owner@, book@, name@),
            final(self)@ == old(self)@.delete_account(owner@, book@, name@),
    {
        match find_account(&self.accounts, owner, book, name) {
            None => Err(LedgerError::NotFound),
            Some(i) => {
                if any_posting_on(&self.postings, owner, book, name) {
                    Err(LedgerError::BadRequest)
                } else {
                    proof {
                        lemma_remove_only(
                            views(self.accounts@),
                            account_is(owner@, book@, name@),
                            i as int,
                        );
                        lemma_views_remove(self.accounts@, i as int);
                        lemma_remove_account(self@, i as int);
                    }
                    self.accounts.remove(i);
                    Ok(())
                }
            },
        }
    }
}

} // verus!
