//! The rows that the ledger stores: each entity together with the owner and,
//! below a book, the book that it belongs to.

use vstd::prelude::*;
use chrono::NaiveDateTime;
use crate::allocator::IdAllocator;
use crate::clock::current_time;
use crate::entities;
use crate::entities::{clone_opt_text, opt_text};
use crate::error::LedgerError;

verus! {

/// Gives the entity that a row shows to its owner.
pub trait ToUserStruct {
    type UserStruct;

    fn to_user_struct(&self) -> Self::UserStruct;
}

/// Builds a row from an entity and the scope that it is stored under.
pub trait FromUserStruct<'a>: Sized {
    type UserStruct;

    type AddedInformation;

    fn from_user_struct(
        user_struct: &Self::UserStruct,
        added_information: Self::AddedInformation,
    ) -> Self;
}

/// Builds a row from an entity that has no identifier yet: the identifier is
/// drawn from `allocator`.
pub trait FromNewUserStruct<'a>: Sized {
    type NewUserStruct;

    type AddedInformation;

    fn from_new_user_struct(
        new_user_struct: &Self::NewUserStruct,
        added_information: Self::AddedInformation,
        allocator: &mut IdAllocator,
    ) -> Result<Self, LedgerError>;
}

/// A user and the bearer token that authenticates requests as that user.
#[derive(Clone, Debug, PartialEq, Eq)]
pub struct User {
    pub name: String,
    pub bearer: Option<String>,
}

/// The row of a book: the book and its owner.
#[derive(Clone, Debug, PartialEq, Eq)]
pub struct Book {
    pub name: String,
    pub user_name: String,
    pub description: Option<String>,
}

/// What the row of a book says: its fields as values.
pub struct BookView {
    pub name: Seq<char>,
    pub user_name: Seq<char>,
    pub description: Option<Seq<char>>,
}

impl View for Book {
    type V = BookView;

    open spec fn view(&self) -> BookView {
        BookView {
            name: self.name@,
            user_name: self.user_name@,
            description: opt_text(self.description),
        }
    }
}

impl BookView {
    /// The row of `book` under `owner`.
    pub open spec fn of(book: entities::BookView, owner: Seq<char>) -> BookView {
        BookView { name: book.name, user_name: owner, description: book.description }
    }

    /// The entity that the row shows to its owner.
    pub open spec fn entity(self) -> entities::BookView {
        entities::BookView { name: self.name, description: self.description }
    }
}

/// The scope of a book: its owner.
pub struct AddedInformationForBook<'a> {
    pub user_name: &'a String,
}

impl ToUserStruct for Book {
    type UserStruct = entities::Book;

    fn to_user_struct(&self) -> (r: entities::Book)
        ensures
            r@ == self@.entity(),
    {
        entities::Book { name: self.name.clone(), description: clone_opt_text(&self.description) }
    }
}

impl<'a> FromUserStruct<'a> for Book {
    type UserStruct = entities::Book;

    type AddedInformation = AddedInformationForBook<'a>;

    fn from_user_struct(
        user_struct: &entities::Book,
        added_information: AddedInformationForBook<'a>,
    ) -> (r: Self)
        ensures
            r@ == BookView::of(user_struct@, added_information.user_name@),
    {
        Book {
            name: user_struct.name.clone(),
            user_name: added_information.user_name.clone(),
            description: clone_opt_text(&user_struct.description),
        }
    }
}


/// The row of a currency: the currency, its owner and its book.
#[derive(Clone, Debug, PartialEq, Eq)]
pub struct Currency {
    pub symbol: String,
    pub decimal_points: u32,
    pub description: Option<String>,
    pub user_name: String,
    pub book_name: String,
}

/// What the row of a currency says: its fields as values.
pub struct CurrencyView {
    pub symbol: Seq<char>,
    pub decimal_points: u32,
    pub description: Option<Seq<char>>,
    pub user_name: Seq<char>,
    pub book_name: Seq<char>,
}

impl View for Currency {
    type V = CurrencyView;

    open spec fn view(&self) -> CurrencyView {
        CurrencyView {
            symbol: self.symbol@,
            decimal_points: self.decimal_points,
            description: opt_text(self.description),
            user_name: self.user_name@,
            book_name: self.book_name@,
        }
    }
}

impl CurrencyView {
    /// The row of `currency` in the book `book` of `owner`.
    pub open spec fn of(currency: entities::CurrencyView, owner: Seq<char>, book: Seq<char>)
        -> CurrencyView {
        CurrencyView {
            symbol: currency.symbol,
            decimal_points: currency.decimal_points,
            description: currency.description,
            user_name: owner,
            book_name: book,
        }
    }

    /// The entity that the row shows to its owner.
    pub open spec fn entity(self) -> entities::CurrencyView {
        entities::CurrencyView {
            symbol: self.symbol,
            description: self.description,
            decimal_points: self.decimal_points,
        }
    }
}

/// The scope of an entity below a book: the owner and the book.
pub struct UserAndBookInfo<'a> {
    pub user_name: &'a String,
    pub book_name: &'a String,
}

impl ToUserStruct for Currency {
    type UserStruct = entities::Currency;

    fn to_user_struct(&self) -> (r: entities::Currency)
        ensures
            r@ == self@.entity(),
    {
        entities::Currency {
            symbol: self.symbol.clone(),
            description: clone_opt_text(&self.description),
            decimal_points: self.decimal_points,
        }
    }
}

impl<'a> FromUserStruct<'a> for Currency {
    type UserStruct = entities::Currency;

    type AddedInformation = UserAndBookInfo<'a>;

    fn from_user_struct(
        user_struct: &entities::Currency,
        added_information: UserAndBookInfo<'a>,
    ) -> (r: Self)
        ensures
            r@ == CurrencyView::of(
                user_struct@,
                added_information.user_name@,
                added_information.book_name@,
            ),
    {
        Currency {
            user_name: added_information.user_name.clone(),
            book_name: added_information.book_name.clone(),
            decimal_points: user_struct.decimal_points,
            description: clone_opt_text(&user_struct.description),
            symbol: user_struct.symbol.clone(),
        }
    }
}

/// The row of an account: the account, its owner and its book.
#[derive(Clone, Debug, PartialEq, Eq)]
pub struct Account {
    pub name: String,
    pub description: Option<String>,
    pub user_name: String,
    pub book_name: String,
}

/// What the row of an account says: its fields as values.
pub struct AccountView {
    pub name: Seq<char>,
    pub description: Option<Seq<char>>,
    pub user_name: Seq<char>,
    pub book_name: Seq<char>,
}

impl View for Account {
    type V = AccountView;

    open spec fn view(&self) -> AccountView {
        AccountView {
            name: self.name@,
            description: opt_text(self.description),
            user_name: self.user_name@,
            book_name: self.book_name@,
        }
    }
}

impl AccountView {
    /// The row of `account` in the book `book` of `owner`.
    pub open spec fn of(account: entities::AccountView, owner: Seq<char>, book: Seq<char>)
        -> AccountView {
        AccountView {
            name: account.name,
            description: account.description,
            user_name: owner,
            book_name: book,
        }
    }

    /// The entity that the row shows to its owner.
    pub open spec fn entity(self) -> entities::AccountView {
        entities::AccountView { name: self.name, description: self.description }
    }
}

impl ToUserStruct for Account {
    type UserStruct = entities::Account;

    fn to_user_struct(&self) -> (r: entities::Account)
        ensures
            r@ == self@.entity(),
    {
        entities::Account {
            description: clone_opt_text(&self.description),
            name: self.name.clone(),
        }
    }
}

impl<'a> FromUserStruct<'a> for Account {
    type UserStruct = entities::Account;

    type AddedInformation = UserAndBookInfo<'a>;

    fn from_user_struct(
        user_struct: &entities::Account,
        added_information: UserAndBookInfo<'a>,
    ) -> (r: Self)
        ensures
            r@ == AccountView::of(
                user_struct@,
                added_information.user_name@,
                added_information.book_name@,
            ),
    {
        Account {
            name: user_struct.name.clone(),
            description: clone_opt_text(&user_struct.description),
            book_name: added_information.book_name.clone(),
            user_name: added_information.user_name.clone(),
        }
    }
}

/// The row of a transaction: the transaction, its owner and its book.
#[derive(Debug, PartialEq, Eq)]
pub struct Transaction {
    pub id: i64,
    pub time: NaiveDateTime,
    pub description: Option<String>,
    pub book_name: String,
    pub user_name: String,
}

/// What the row of a transaction says: its fields as values.
pub struct TransactionView {
    pub id: i64,
    pub time: NaiveDateTime,
    pub description: Option<Seq<char>>,
    pub book_name: Seq<char>,
    pub user_name: Seq<char>,
}

impl View for Transaction {
    type V = TransactionView;

    open spec fn view(&self) -> TransactionView {
        TransactionView {
            id: self.id,
            time: self.time,
            description: opt_text(self.description),
            book_name: self.book_name@,
            user_name: self.user_name@,
        }
    }
}

impl TransactionView {
    /// The row of `transaction` in the book `book` of `owner`; `now` is the
    /// time that it gets where it names none.
    pub open spec fn of(
        transaction: entities::TransactionView,
        owner: Seq<char>,
        book: Seq<char>,
        now: NaiveDateTime,
    ) -> TransactionView {
        TransactionView {
            id: transaction.id,
            time: match transaction.time {
                Some(t) => t,
                None => now,
            },
            description: transaction.description,
            book_name: book,
            user_name: owner,
        }
    }

    /// The row of a new transaction that is given the identifier `id`.
    pub open spec fn fresh(
        transaction: entities::NewTransactionView,
        owner: Seq<char>,
        book: Seq<char>,
        id: i64,
        now: NaiveDateTime,
    ) -> TransactionView {
        TransactionView {
            id,
            time: match transaction.time {
                Some(t) => t,
                None => now,
            },
            description: transaction.description,
            book_name: book,
            user_name: owner,
        }
    }

    /// The entity that the row shows to its owner.
    pub open spec fn entity(self) -> entities::TransactionView {
        entities::TransactionView {
            id: self.id,
            time: Some(self.time),
            description: self.description,
        }
    }
}

impl Transaction {
    /// The row of `user_struct`, with `now` as its time where it names none.
    pub fn from_user_struct_at(
        user_struct: &entities::Transaction,
        added_information: UserAndBookInfo<'_>,
        now: NaiveDateTime,
    ) -> (r: Self)
        ensures
            r@ == TransactionView::of(
                user_struct@,
                added_information.user_name@,
                added_information.book_name@,
                now,
            ),
    {
        Transaction {
            id: user_struct.id,
            time: match user_struct.time {
                Some(t) => t,
                None => now,
            },
            description: clone_opt_text(&user_struct.description),
            book_name: added_information.book_name.clone(),
            user_name: added_information.user_name.clone(),
        }
    }

    /// The row of a new transaction under the identifier `id`, with `now` as
    /// its time where it names none.
    pub fn with_id(
        new_user_struct: &entities::NewTransaction,
        added_information: UserAndBookInfo<'_>,
        id: i64,
        now: NaiveDateTime,
    ) -> (r: Self)
        ensures
            r@ == TransactionView::fresh(
                new_user_struct@,
                added_information.user_name@,
                added_information.book_name@,
                id,
                now,
            ),
    {
        Transaction {
            id,
            time: match new_user_struct.time {
                Some(t) => t,
                None => now,
            },
            description: clone_opt_text(&new_user_struct.description),
            book_name: added_information.book_name.clone(),
            user_name: added_information.user_name.clone(),
        }
    }
}

impl ToUserStruct for Transaction {
    type UserStruct = entities::Transaction;

    fn to_user_struct(&self) -> (r: entities::Transaction)
        ensures
            r@ == self@.entity(),
    {
        entities::Transaction {
            id: self.id,
            time: Some(self.time),
            description: clone_opt_text(&self.description),
        }
    }
}

impl<'a> FromUserStruct<'a> for Transaction {
    type UserStruct = entities::Transaction;

    type AddedInformation = UserAndBookInfo<'a>;

    /// Where the transaction names no time, the row gets the current time.
    fn from_user_struct(
        user_struct: &entities::Transaction,
        added_information: UserAndBookInfo<'a>,
    ) -> (r: Self)
        ensures
            r@ == TransactionView::of(
                user_struct@,
                added_information.user_name@,
                added_information.book_name@,
                r@.time,
            ),
    {
        let now = current_time();
        Transaction::from_user_struct_at(user_struct, added_information, now)
    }
}

impl<'a> FromNewUserStruct<'a> for Transaction {
    type NewUserStruct = entities::NewTransaction;

    type AddedInformation = UserAndBookInfo<'a>;

    /// Where the transaction names no time, the row gets the current time.
    /// The first identifier of an allocator is always issued.
    fn from_new_user_struct(
        new_user_struct: &entities::NewTransaction,
        added_information: UserAndBookInfo<'a>,
        allocator: &mut IdAllocator,
    ) -> (r: Result<Self, LedgerError>)
        ensures
            match r {
                Ok(row) => {
                    &&& crate::allocator::is_fresh(old(allocator).last_issued(), row.id)
                    &&& final(allocator).last_issued() == Some(row.id)
                    &&& row@ == TransactionView::fresh(
                        new_user_struct@,
                        added_information.user_name@,
                        added_information.book_name@,
                        row.id,
                        row.time,
                    )
                },
                Err(e) => {
                    &&& e == LedgerError::InternalError
                    &&& final(allocator).last_issued() == old(allocator).last_issued()
                },
            },
            old(allocator).last_issued() is None ==> r is Ok,
            crate::allocator::not_before(
                old(allocator).last_issued(),
                final(allocator).last_issued(),
            ),
    {
        match allocator.allocate() {
            Ok(id) => {
                let now = current_time();
                Ok(Transaction::with_id(new_user_struct, added_information, id, now))
            },
            Err(e) => Err(e),
        }
    }
}

/// The row of a posting: the posting, its owner, its book and its
/// transaction.
#[derive(Clone, Debug, PartialEq, Eq)]
pub struct Posting {
    pub id: i64,
    pub transaction_id: i64,
    pub valuta: Option<NaiveDateTime>,
    pub book_name: String,
    pub user_name: String,
    pub account_name: String,
    pub currency: String,
    pub amount: i32,
    pub budget: Option<bool>,
}

/// What the row of a posting says: its fields as values.
pub struct PostingView {
    pub id: i64,
    pub transaction_id: i64,
    pub valuta: Option<NaiveDateTime>,
    pub book_name: Seq<char>,
    pub user_name: Seq<char>,
    pub account_name: Seq<char>,
    pub currency: Seq<char>,
    pub amount: i32,
    pub budget: Option<bool>,
}

impl View for Posting {
    type V = PostingView;

    open spec fn view(&self) -> PostingView {
        PostingView {
            id: self.id,
            transaction_id: self.transaction_id,
            valuta: self.valuta,
            book_name: self.book_name@,
            user_name: self.user_name@,
            account_name: self.account_name@,
            currency: self.currency@,
            amount: self.amount,
            budget: self.budget,
        }
    }
}

impl PostingView {
    /// The row of `posting` under the transaction `transaction_id` in the book
    /// `book` of `owner`.
    pub open spec fn of(
        posting: entities::PostingView,
        owner: Seq<char>,
        book: Seq<char>,
        transaction_id: i64,
    ) -> PostingView {
        PostingView {
            id: posting.id,
            transaction_id,
            valuta: posting.valuta,
            book_name: book,
            user_name: owner,
            account_name: posting.account_name,
            currency: posting.currency,
            amount: posting.amount,
            budget: posting.budget,
        }
    }

    /// The row of a new posting that is given the identifier `id`.
    pub open spec fn fresh(
        posting: entities::NewPostingView,
        owner: Seq<char>,
        book: Seq<char>,
        transaction_id: i64,
        id: i64,
    ) -> PostingView {
        PostingView {
            id,
            transaction_id,
            valuta: posting.valuta,
            book_name: book,
            user_name: owner,
            account_name: posting.account_name,
            currency: posting.currency,
            amount: posting.amount,
            budget: posting.budget,
        }
    }

    /// The entity that the row shows to its owner.
    pub open spec fn entity(self) -> entities::PostingView {
        entities::PostingView {
            id: self.id,
            valuta: self.valuta,
            account_name: self.account_name,
            currency: self.currency,
            amount: self.amount,
            budget: self.budget,
        }
    }
}

/// The scope of a posting: the owner, the book and the transaction.
pub struct AddedInformationForPosting<'a> {
    pub user_name: &'a String,
    pub book_name: &'a String,
    pub transaction_id: &'a i64,
}

impl Posting {
    /// The row of a new posting under the identifier `id`.
    pub fn with_id(
        new_user_struct: &entities::NewPosting,
        added_information: AddedInformationForPosting<'_>,
        id: i64,
    ) -> (r: Self)
        ensures
            r@ == PostingView::fresh(
                new_user_struct@,
                added_information.user_name@,
                added_information.book_name@,
                *added_information.transaction_id,
                id,
            ),
    {
        Posting {
            id,
            amount: new_user_struct.amount,
            account_name: new_user_struct.account_name.clone(),
            currency: new_user_struct.currency.clone(),
            transaction_id: *added_information.transaction_id,
            valuta: new_user_struct.valuta,
            book_name: added_information.book_name.clone(),
            user_name: added_information.user_name.clone(),
            budget: new_user_struct.budget,
        }
    }
}

impl<'a> FromUserStruct<'a> for Posting {
    type UserStruct = entities::Posting;

    type AddedInformation = AddedInformationForPosting<'a>;

    fn from_user_struct(
        user_struct: &entities::Posting,
        added_information: AddedInformationForPosting<'a>,
    ) -> (r: Self)
        ensures
            r@ == PostingView::of(
                user_struct@,
                added_information.user_name@,
                added_information.book_name@,
                *added_information.transaction_id,
            ),
    {
        Posting {
            account_name: user_struct.account_name.clone(),
            book_name: added_information.book_name.clone(),
            amount: user_struct.amount,
            currency: user_struct.currency.clone(),
            id: user_struct.id,
            transaction_id: *added_information.transaction_id,
            user_name: added_information.user_name.clone(),
            valuta: user_struct.valuta,
            budget: user_struct.budget,
        }
    }
}

impl<'a> FromNewUserStruct<'a> for Posting {
    type NewUserStruct = entities::NewPosting;

    type AddedInformation = AddedInformationForPosting<'a>;

    /// The first identifier of an allocator is always issued.
    fn from_new_user_struct(
        new_user_struct: &entities::NewPosting,
        added_information: AddedInformationForPosting<'a>,
        allocator: &mut IdAllocator,
    ) -> (r: Result<Self, LedgerError>)
        ensures
            match r {
                Ok(row) => {
                    &&& crate::allocator::is_fresh(old(allocator).last_issued(), row.id)
                    &&& final(allocator).last_issued() == Some(row.id)
                    &&& row@ == PostingView::fresh(
                        new_user_struct@,
                        added_information.user_name@,
                        added_information.book_name@,
                        *added_information.transaction_id,
                        row.id,
                    )
                },
                Err(e) => {
                    &&& e == LedgerError::InternalError
                    &&& final(allocator).last_issued() == old(allocator).last_issued()
                },
            },
            old(allocator).last_issued() is None ==> r is Ok,
            crate::allocator::not_before(
                old(allocator).last_issued(),
                final(allocator).last_issued(),
            ),
    {
        match allocator.allocate() {
            Ok(id) => Ok(Posting::with_id(new_user_struct, added_information, id)),
            Err(e) => Err(e),
        }
    }
}

impl ToUserStruct for Posting {
    type UserStruct = entities::Posting;

    fn to_user_struct(&self) -> (r: entities::Posting)
        ensures
            r@ == self@.entity(),
    {
        entities::Posting {
            account_name: self.account_name.clone(),
            amount: self.amount,
            currency: self.currency.clone(),
            id: self.id,
            valuta: self.valuta,
            budget: self.budget,
        }
    }
}

} // verus!
