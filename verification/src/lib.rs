//! A bookkeeping core: books, currencies, accounts, transactions and postings
//! that belong to an owner, the allocation of their identifiers, and the
//! balances of accounts.

pub mod allocator;
pub mod auth;
pub mod clock;
pub mod engine;
pub mod entities;
pub mod error;
pub mod ledger;
pub mod model;
pub mod query;
pub mod viewer;
