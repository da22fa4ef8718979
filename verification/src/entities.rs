//! The entities as their owner sees them: without owner or book, which the
//! scope of a request supplies.

use vstd::prelude::*;
use chrono::NaiveDateTime;

verus! {

/// The text of an optional string.
pub open spec fn opt_text(o: Option<String>) -> Option<Seq<char>> {
    match o {
        Some(s) => Some(s@),
        None => None,
    }
}

/// A copy of an optional string.
pub fn clone_opt_text(o: &Option<String>) -> (r: Option<String>)
    ensures
        opt_text(r) == opt_text(*o),
{
    match o {
        Some(s) => Some(s.clone()),
        None => None,
    }
}

/// A tenant's independent ledger namespace.
#[derive(Clone, Debug, PartialEq, Eq)]
pub struct Book {
    pub name: String,
    pub description: Option<String>,
}

/// What a book says: its fields as values.
pub struct BookView {
    pub name: Seq<char>,
    pub description: Option<Seq<char>>,
}

impl View for Book {
    type V = BookView;

    open spec fn view(&self) -> BookView {
        BookView { name: self.name@, description: opt_text(self.description) }
    }
}

/// A currency of a book; `decimal_points` is the scale of its minor unit.
#[derive(Clone, Debug, PartialEq, Eq)]
pub struct Currency {
    pub symbol: String,
    pub description: Option<String>,
    pub decimal_points: u32,
}

/// What a currency says: its fields as values.
pub struct CurrencyView {
    pub symbol: Seq<char>,
    pub description: Option<Seq<char>>,
    pub decimal_points: u32,
}

impl View for Currency {
    type V = CurrencyView;

    open spec fn view(&self) -> CurrencyView {
        CurrencyView {
            symbol: self.symbol@,
            description: opt_text(self.description),
            decimal_points: self.decimal_points,
        }
    }
}

/// An account of a book.
#[derive(Clone, Debug, PartialEq, Eq)]
pub struct Account {
    pub name: String,
    pub description: Option<String>,
}

/// What an account says: its fields as values.
pub struct AccountView {
    pub name: Seq<char>,
    pub description: Option<Seq<char>>,
}

impl View for Account {
    type V = AccountView;

    open spec fn view(&self) -> AccountView {
        AccountView { name: self.name@, description: opt_text(self.description) }
    }
}

/// A timed grouping of postings.
#[derive(Clone, Debug, PartialEq, Eq)]
pub struct Transaction {
    pub id: i64,
    pub time: Option<NaiveDateTime>,
    pub description: Option<String>,
}

/// What a transaction says: its fields as values.
pub struct TransactionView {
    pub id: i64,
    pub time: Option<NaiveDateTime>,
    pub description: Option<Seq<char>>,
}

impl View for Transaction {
    type V = TransactionView;

    open spec fn view(&self) -> TransactionView {
        TransactionView {
            id: self.id,
            time: self.time,
            description: opt_text(self.description),
        }
    }
}

/// A transaction that has no identifier yet.
#[derive(Clone, Debug, PartialEq, Eq)]
pub struct NewTransaction {
    pub description: Option<String>,
    pub time: Option<NaiveDateTime>,
}

/// What a new transaction says: its fields as values.
pub struct NewTransactionView {
    pub description: Option<Seq<char>>,
    pub time: Option<NaiveDateTime>,
}

impl View for NewTransaction {
    type V = NewTransactionView;

    open spec fn view(&self) -> NewTransactionView {
        NewTransactionView { description: opt_text(self.description), time: self.time }
    }
}

/// One signed movement of an amount, in minor units of a currency, against an
/// account.
#[derive(Clone, Debug, PartialEq, Eq)]
pub struct Posting {
    pub id: i64,
    pub valuta: Option<NaiveDateTime>,
    pub account_name: String,
    pub currency: String,
    pub amount: i32,
    pub budget: Option<bool>,
}

/// What a posting says: its fields as values.
pub struct PostingView {
    pub id: i64,
    pub valuta: Option<NaiveDateTime>,
    pub account_name: Seq<char>,
    pub currency: Seq<char>,
    pub amount: i32,
    pub budget: Option<bool>,
}

impl View for Posting {
    type V = PostingView;

    open spec fn view(&self) -> PostingView {
        PostingView {
            id: self.id,
            valuta: self.valuta,
            account_name: self.account_name@,
            currency: self.currency@,
            amount: self.amount,
            budget: self.budget,
        }
    }
}

/// A posting that has no identifier yet.
#[derive(Clone, Debug, PartialEq, Eq)]
pub struct NewPosting {
    pub valuta: Option<NaiveDateTime>,
    pub account_name: String,
    pub currency: String,
    pub amount: i32,
    pub budget: Option<bool>,
}

/// What a new posting says: its fields as values.
pub struct NewPostingView {
    pub valuta: Option<NaiveDateTime>,
    pub account_name: Seq<char>,
    pub currency: Seq<char>,
    pub amount: i32,
    pub budget: Option<bool>,
}

impl View for NewPosting {
    type V = NewPostingView;

    open spec fn view(&self) -> NewPostingView {
        NewPostingView {
            valuta: self.valuta,
            account_name: self.account_name@,
            currency: self.currency@,
            amount: self.amount,
            budget: self.budget,
        }
    }
}

/// The net amount of an account in one currency, in minor units. The amount
/// is wide enough for the sum of as many postings as a table can hold.
#[derive(Clone, Debug, PartialEq, Eq)]
pub struct CurrencyAmount {
    pub currency: String,
    pub amount: i128,
}

/// What an amount says: its currency and the amount as an integer.
pub struct CurrencyAmountView {
    pub currency: Seq<char>,
    pub amount: int,
}

impl View for CurrencyAmount {
    type V = CurrencyAmountView;

    open spec fn view(&self) -> CurrencyAmountView {
        CurrencyAmountView { currency: self.currency@, amount: self.amount as int }
    }
}

} // verus!
