//! The ledger: the store of the five kinds of entity and the operations on
//! it. Every operation names the owner that acts.

use vstd::prelude::*;
use crate::allocator::IdAllocator;
use crate::model;
use crate::query::views;

pub mod accounts;
pub mod balance;
pub mod books;
pub mod currencies;
pub mod integrity;
pub mod laws;
pub mod postings;
mod scan;
pub mod state;
pub mod transactions;

use state::LedgerView;

verus! {

/// A ledger of many owners.
pub struct Ledger {
    books: Vec<model::Book>,
    currencies: Vec<model::Currency>,
    accounts: Vec<model::Account>,
    transactions: Vec<model::Transaction>,
    postings: Vec<model::Posting>,
    allocator: IdAllocator,
}

impl View for Ledger {
    type V = LedgerView;

    closed spec fn view(&self) -> LedgerView {
        LedgerView {
            books: views(self.books@),
            currencies: views(self.currencies@),
            accounts: views(self.accounts@),
            transactions: views(self.transactions@),
            postings: views(self.postings@),
            last_id: self.allocator.last_issued(),
        }
    }
}

impl Ledger {
    /// The invariant of a ledger: keys are unique and references hold.
    pub open spec fn wf(&self) -> bool {
        self@.wf()
    }

    /// An empty ledger.
    pub fn new() -> (r: Self)
        ensures
            r.wf(),
            r@ == LedgerView::empty(),
    {
        let r = Ledger {
            books: Vec::new(),
            currencies: Vec::new(),
            accounts: Vec::new(),
            transactions: Vec::new(),
            postings: Vec::new(),
            allocator: IdAllocator::new(),
        };
        r
    }
}

} // verus!
