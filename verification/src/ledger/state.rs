//! The abstract state of a ledger and what each operation makes of it.
//!
//! A ledger is five tables of rows and the identifier that was issued last.
//! Every query names the owner, and below a book the book, so that no
//! operation of one owner selects a row of another.

use vstd::prelude::*;
use chrono::NaiveDateTime;
use crate::allocator::{advanced, is_fresh};
use crate::entities;
use crate::error::LedgerError;
use crate::model::{AccountView, BookView, CurrencyView, PostingView, TransactionView};
use crate::query::{any_row, first_row, rows_except, rows_replaced};

verus! {

/// The book `name` of `owner`.
pub open spec fn book_is(owner: Seq<char>, name: Seq<char>) -> spec_fn(BookView) -> bool {
    |r: BookView| r.user_name == owner && r.name == name
}

/// The books of `owner`.
pub open spec fn books_of(owner: Seq<char>) -> spec_fn(BookView) -> bool {
    |r: BookView| r.user_name == owner
}

/// The currency `symbol` of the book `book` of `owner`.
pub open spec fn currency_is(owner: Seq<char>, book: Seq<char>, symbol: Seq<char>) -> spec_fn(
    CurrencyView,
) -> bool {
    |r: CurrencyView| r.user_name == owner && r.book_name == book && r.symbol == symbol
}

/// The currencies of the book `book` of `owner`.
pub open spec fn currencies_in(owner: Seq<char>, book: Seq<char>) -> spec_fn(CurrencyView) -> bool {
    |r: CurrencyView| r.user_name == owner && r.book_name == book
}

/// The account `name` of the book `book` of `owner`.
pub open spec fn account_is(owner: Seq<char>, book: Seq<char>, name: Seq<char>) -> spec_fn(
    AccountView,
) -> bool {
    |r: AccountView| r.user_name == owner && r.book_name == book && r.name == name
}

/// The accounts of the book `book` of `owner`.
pub open spec fn accounts_in(owner: Seq<char>, book: Seq<char>) -> spec_fn(AccountView) -> bool {
    |r: AccountView| r.user_name == owner && r.book_name == book
}

/// The transaction `id` of the book `book` of `owner`.
pub open spec fn transaction_is(owner: Seq<char>, book: Seq<char>, id: i64) -> spec_fn(
    TransactionView,
) -> bool {
    |r: TransactionView| r.user_name == owner && r.book_name == book && r.id == id
}

/// The transactions of the book `book` of `owner`.
pub open spec fn transactions_in(owner: Seq<char>, book: Seq<char>) -> spec_fn(
    TransactionView,
) -> bool {
    |r: TransactionView| r.user_name == owner && r.book_name == book
}

/// The posting `id` of the transaction `transaction_id` in the book `book` of
/// `owner`.
pub open spec fn posting_is(owner: Seq<char>, book: Seq<char>, transaction_id: i64, id: i64)
    -> spec_fn(PostingView) -> bool {
    |r: PostingView|
        r.user_name == owner && r.book_name == book && r.transaction_id == transaction_id && r.id
            == id
}

/// The postings of the transaction `transaction_id` in the book `book` of
/// `owner`.
pub open spec fn postings_of(owner: Seq<char>, book: Seq<char>, transaction_id: i64) -> spec_fn(
    PostingView,
) -> bool {
    |r: PostingView|
        r.user_name == owner && r.book_name == book && r.transaction_id == transaction_id
}

/// The postings against the account `account` of the book `book` of `owner`.
pub open spec fn postings_on(owner: Seq<char>, book: Seq<char>, account: Seq<char>) -> spec_fn(
    PostingView,
) -> bool {
    |r: PostingView| r.user_name == owner && r.book_name == book && r.account_name == account
}

/// Those postings against the account that are not flagged as budget.
pub open spec fn real_postings_on(owner: Seq<char>, book: Seq<char>, account: Seq<char>)
    -> spec_fn(PostingView) -> bool {
    |r: PostingView|
        r.user_name == owner && r.book_name == book && r.account_name == account && r.budget
            != Some(true)
}

/// The transactions of the identifier `id`, whoever owns them.
pub open spec fn transaction_has_id(id: i64) -> spec_fn(TransactionView) -> bool {
    |r: TransactionView| r.id == id
}

/// The postings of the identifier `id`, whoever owns them.
pub open spec fn posting_has_id(id: i64) -> spec_fn(PostingView) -> bool {
    |r: PostingView| r.id == id
}

/// The postings that are not flagged as budget.
pub open spec fn unflagged() -> spec_fn(PostingView) -> bool {
    |r: PostingView| r.budget != Some(true)
}

/// The postings in the currency `symbol` in the book `book` of `owner`.
pub open spec fn postings_in(owner: Seq<char>, book: Seq<char>, symbol: Seq<char>) -> spec_fn(
    PostingView,
) -> bool {
    |r: PostingView| r.user_name == owner && r.book_name == book && r.currency == symbol
}

/// The names of book rows.
pub open spec fn book_names(rows: Seq<BookView>) -> Seq<Seq<char>> {
    rows.map_values(|r: BookView| r.name)
}

/// The symbols of currency rows.
pub open spec fn currency_symbols(rows: Seq<CurrencyView>) -> Seq<Seq<char>> {
    rows.map_values(|r: CurrencyView| r.symbol)
}

/// The names of account rows.
pub open spec fn account_names(rows: Seq<AccountView>) -> Seq<Seq<char>> {
    rows.map_values(|r: AccountView| r.name)
}

/// The identifiers of transaction rows.
pub open spec fn transaction_ids(rows: Seq<TransactionView>) -> Seq<i64> {
    rows.map_values(|r: TransactionView| r.id)
}

/// The identifiers of posting rows.
pub open spec fn posting_ids(rows: Seq<PostingView>) -> Seq<i64> {
    rows.map_values(|r: PostingView| r.id)
}

/// A book row with the mutable fields of `book`.
pub open spec fn book_set(book: entities::BookView) -> spec_fn(BookView) -> BookView {
    |r: BookView| BookView { description: book.description, ..r }
}

/// A currency row with the mutable fields of `currency`.
pub open spec fn currency_set(currency: entities::CurrencyView) -> spec_fn(
    CurrencyView,
) -> CurrencyView {
    |r: CurrencyView|
        CurrencyView {
            decimal_points: currency.decimal_points,
            description: currency.description,
            ..r
        }
}

/// A transaction row with the mutable fields of `transaction`; `now` is the
/// time that it gets where `transaction` names none.
pub open spec fn transaction_set(transaction: entities::TransactionView, now: NaiveDateTime)
    -> spec_fn(TransactionView) -> TransactionView {
    |r: TransactionView|
        TransactionView {
            time: match transaction.time {
                Some(t) => t,
                None => now,
            },
            description: transaction.description,
            ..r
        }
}

/// A change that an owner makes to a ledger.
pub enum Change {
    CreateBook { new_book: entities::BookView },
    UpdateBook { name: Seq<char>, new_book: entities::BookView },
    DeleteBook { name: Seq<char> },
    CreateCurrency { book: Seq<char>, currency: entities::CurrencyView },
    UpdateCurrency { book: Seq<char>, symbol: Seq<char>, currency: entities::CurrencyView },
    DeleteCurrency { book: Seq<char>, symbol: Seq<char> },
    CreateAccount { book: Seq<char>, account: entities::AccountView },
    DeleteAccount { book: Seq<char>, name: Seq<char> },
    InsertTransaction {
        book: Seq<char>,
        new_transaction: entities::NewTransactionView,
        id: i64,
        now: NaiveDateTime,
    },
    UpdateTransaction {
        book: Seq<char>,
        id: i64,
        transaction: entities::TransactionView,
        now: NaiveDateTime,
    },
    DeleteTransaction { book: Seq<char>, id: i64 },
    InsertPosting {
        book: Seq<char>,
        transaction_id: i64,
        posting: entities::NewPostingView,
        id: i64,
    },
    DeletePosting { book: Seq<char>, transaction_id: i64, id: i64 },
}

/// The tables of a ledger and the identifier that its allocator issued last.
#[verifier::ext_equal]
pub struct LedgerView {
    pub books: Seq<BookView>,
    pub currencies: Seq<CurrencyView>,
    pub accounts: Seq<AccountView>,
    pub transactions: Seq<TransactionView>,
    pub postings: Seq<PostingView>,
    pub last_id: Option<i64>,
}

impl LedgerView {
    /// The ledger that holds nothing and has issued no identifier.
    pub open spec fn empty() -> LedgerView {
        LedgerView {
            books: Seq::empty(),
            currencies: Seq::empty(),
            accounts: Seq::empty(),
            transactions: Seq::empty(),
            postings: Seq::empty(),
            last_id: None,
        }
    }

    /// Whether `owner` has the book `name`.
    pub open spec fn has_book(self, owner: Seq<char>, name: Seq<char>) -> bool {
        any_row(self.books, book_is(owner, name))
    }

    /// Whether the book `book` of `owner` has the currency `symbol`.
    pub open spec fn has_currency(self, owner: Seq<char>, book: Seq<char>, symbol: Seq<char>)
        -> bool {
        any_row(self.currencies, currency_is(owner, book, symbol))
    }

    /// Whether the book `book` of `owner` has the account `name`.
    pub open spec fn has_account(self, owner: Seq<char>, book: Seq<char>, name: Seq<char>)
        -> bool {
        any_row(self.accounts, account_is(owner, book, name))
    }

    /// Whether the book `book` of `owner` has the transaction `id`.
    pub open spec fn has_transaction(self, owner: Seq<char>, book: Seq<char>, id: i64) -> bool {
        any_row(self.transactions, transaction_is(owner, book, id))
    }

    /// Whether the transaction `transaction_id` in the book `book` of `owner`
    /// has the posting `id`.
    pub open spec fn has_posting(
        self,
        owner: Seq<char>,
        book: Seq<char>,
        transaction_id: i64,
        id: i64,
    ) -> bool {
        any_row(self.postings, posting_is(owner, book, transaction_id, id))
    }

    /// No two rows of a table have the same key.
    pub open spec fn keys_unique(self) -> bool {
        &&& forall|i: int, j: int|
            #![trigger self.books[i], self.books[j]]
            0 <= i < j < self.books.len() ==> !book_is(self.books[i].user_name, self.books[i].name)(
                self.books[j],
            )
        &&& forall|i: int, j: int|
            #![trigger self.currencies[i], self.currencies[j]]
            0 <= i < j < self.currencies.len() ==> !currency_is(
                self.currencies[i].user_name,
                self.currencies[i].book_name,
                self.currencies[i].symbol,
            )(self.currencies[j])
        &&& forall|i: int, j: int|
            #![trigger self.accounts[i], self.accounts[j]]
            0 <= i < j < self.accounts.len() ==> !account_is(
                self.accounts[i].user_name,
                self.accounts[i].book_name,
                self.accounts[i].name,
            )(self.accounts[j])
        &&& forall|i: int, j: int|
            #![trigger self.transactions[i], self.transactions[j]]
            0 <= i < j < self.transactions.len() ==> !transaction_is(
                self.transactions[i].user_name,
                self.transactions[i].book_name,
                self.transactions[i].id,
            )(self.transactions[j])
        &&& forall|i: int, j: int|
            #![trigger self.postings[i], self.postings[j]]
            0 <= i < j < self.postings.len() ==> !posting_is(
                self.postings[i].user_name,
                self.postings[i].book_name,
                self.postings[i].transaction_id,
                self.postings[i].id,
            )(self.postings[j])
    }

    /// Every row refers to rows that exist in its own scope: a currency, an
    /// account and a transaction to their book, a posting to its transaction,
    /// its account and its currency.
    pub open spec fn references_hold(self) -> bool {
        &&& forall|i: int|
            0 <= i < self.currencies.len() ==> self.has_book(
                (#[trigger] self.currencies[i]).user_name,
                self.currencies[i].book_name,
            )
        &&& forall|i: int|
            0 <= i < self.accounts.len() ==> self.has_book(
                (#[trigger] self.accounts[i]).user_name,
                self.accounts[i].book_name,
            )
        &&& forall|i: int|
            0 <= i < self.transactions.len() ==> self.has_book(
                (#[trigger] self.transactions[i]).user_name,
                self.transactions[i].book_name,
            )
        &&& forall|i: int|
            0 <= i < self.postings.len() ==> {
                let p = #[trigger] self.postings[i];
                &&& self.has_transaction(p.user_name, p.book_name, p.transaction_id)
                &&& self.has_account(p.user_name, p.book_name, p.account_name)
                &&& self.has_currency(p.user_name, p.book_name, p.currency)
            }
    }

    /// Whether a transaction or a posting, of whatever owner and book, has
    /// the identifier.
    pub open spec fn id_in_use(self, id: i64) -> bool {
        any_row(self.transactions, transaction_has_id(id)) || any_row(
            self.postings,
            posting_has_id(id),
        )
    }

    /// Every identifier of a transaction or of a posting counts as issued:
    /// the allocator issues none of them again.
    pub open spec fn ids_issued(self) -> bool {
        &&& forall|i: int|
            0 <= i < self.transactions.len() ==> !is_fresh(
                self.last_id,
                (#[trigger] self.transactions[i]).id,
            )
        &&& forall|i: int|
            0 <= i < self.postings.len() ==> !is_fresh(
                self.last_id,
                (#[trigger] self.postings[i]).id,
            )
    }

    /// No identifier occurs twice among the transactions and the postings of
    /// all owners and books.
    pub open spec fn ids_distinct(self) -> bool {
        &&& forall|i: int, j: int|
            #![trigger self.transactions[i], self.transactions[j]]
            0 <= i < j < self.transactions.len() ==> self.transactions[i].id
                != self.transactions[j].id
        &&& forall|i: int, j: int|
            #![trigger self.postings[i], self.postings[j]]
            0 <= i < j < self.postings.len() ==> self.postings[i].id != self.postings[j].id
        &&& forall|i: int, j: int|
            #![trigger self.transactions[i], self.postings[j]]
            0 <= i < self.transactions.len() && 0 <= j < self.postings.len()
                ==> self.transactions[i].id != self.postings[j].id
    }

    /// The invariant of a ledger.
    pub open spec fn wf(self) -> bool {
        &&& self.keys_unique()
        &&& self.references_hold()
        &&& self.ids_issued()
        &&& self.ids_distinct()
    }

    /// The state after the allocator has issued `id`.
    pub open spec fn issue(self, id: i64) -> LedgerView {
        LedgerView { last_id: Some(id), ..self }
    }

    /// The state after `owner` has made the change.
    pub open spec fn apply(self, owner: Seq<char>, change: Change) -> LedgerView {
        match change {
            Change::CreateBook { new_book } => self.create_book(owner, new_book),
            Change::UpdateBook { name, new_book } => self.update_book(owner, name, new_book),
            Change::DeleteBook { name } => self.delete_book(owner, name),
            Change::CreateCurrency { book, currency } => self.create_currency(
                owner,
                book,
                currency,
            ),
            Change::UpdateCurrency { book, symbol, currency } => self.update_currency(
                owner,
                book,
                symbol,
                currency,
            ),
            Change::DeleteCurrency { book, symbol } => self.delete_currency(owner, book, symbol),
            Change::CreateAccount { book, account } => self.create_account(owner, book, account),
            Change::DeleteAccount { book, name } => self.delete_account(owner, book, name),
            Change::InsertTransaction { book, new_transaction, id, now } => self.insert_transaction(
                owner,
                book,
                new_transaction,
                id,
                now,
            ),
            Change::UpdateTransaction { book, id, transaction, now } => self.update_transaction(
                owner,
                book,
                id,
                transaction,
                now,
            ),
            Change::DeleteTransaction { book, id } => self.delete_transaction(owner, book, id),
            Change::InsertPosting { book, transaction_id, posting, id } => self.insert_posting(
                owner,
                book,
                transaction_id,
                posting,
                id,
            ),
            Change::DeletePosting { book, transaction_id, id } => self.delete_posting(
                owner,
                book,
                transaction_id,
                id,
            ),
        }
    }

    /// Whether `owner` reads the same from `self` and from `other`: every
    /// book, currency, account, transaction and posting, every list of them,
    /// and the postings that the balances of every account are made of.
    pub open spec fn reads_agree(self, other: LedgerView, owner: Seq<char>) -> bool {
        &&& forall|n: Seq<char>| #[trigger] self.get_book(owner, n) == other.get_book(owner, n)
        &&& self.get_books(owner) == other.get_books(owner)
        &&& forall|b: Seq<char>, x: Seq<char>| #[trigger]
            self.get_currency(owner, b, x) == other.get_currency(owner, b, x)
        &&& forall|b: Seq<char>| #[trigger]
            self.get_currencies(owner, b) == other.get_currencies(owner, b)
        &&& forall|b: Seq<char>, n: Seq<char>| #[trigger]
            self.get_account(owner, b, n) == other.get_account(owner, b, n)
        &&& forall|b: Seq<char>| #[trigger]
            self.get_accounts(owner, b) == other.get_accounts(owner, b)
        &&& forall|b: Seq<char>, id: i64| #[trigger]
            self.get_transaction(owner, b, id) == other.get_transaction(owner, b, id)
        &&& forall|b: Seq<char>| #[trigger]
            self.get_transactions(owner, b) == other.get_transactions(owner, b)
        &&& forall|b: Seq<char>, t: i64, id: i64| #[trigger]
            self.get_posting(owner, b, t, id) == other.get_posting(owner, b, t, id)
        &&& forall|b: Seq<char>, t: i64| #[trigger]
            self.get_postings(owner, b, t) == other.get_postings(owner, b, t)
        &&& forall|b: Seq<char>, n: Seq<char>| #[trigger]
            self.account_postings(owner, b, n) == other.account_postings(owner, b, n)
        &&& forall|b: Seq<char>, n: Seq<char>| #[trigger]
            self.real_account_postings(owner, b, n) == other.real_account_postings(owner, b, n)
    }

    // Books

    /// The book `name` of `owner`, or that there is none.
    pub open spec fn get_book(self, owner: Seq<char>, name: Seq<char>) -> Result<
        entities::BookView,
        LedgerError,
    > {
        if self.has_book(owner, name) {
            Ok(first_row(self.books, book_is(owner, name)).entity())
        } else {
            Err(LedgerError::NotFound)
        }
    }

    /// The names of the books of `owner`.
    pub open spec fn get_books(self, owner: Seq<char>) -> Seq<Seq<char>> {
        book_names(self.books.filter(books_of(owner)))
    }

    /// A book is created unless `owner` has a book of that name.
    pub open spec fn create_book_result(self, owner: Seq<char>, book: entities::BookView)
        -> Result<(), LedgerError> {
        if self.has_book(owner, book.name) {
            Err(LedgerError::Conflict)
        } else {
            Ok(())
        }
    }

    /// The state after `owner` has asked to create the book: with the book
    /// added where that succeeds, as before where it does not.
    pub open spec fn create_book(self, owner: Seq<char>, book: entities::BookView) -> LedgerView {
        if self.create_book_result(owner, book) is Ok {
            LedgerView { books: self.books.push(BookView::of(book, owner)), ..self }
        } else {
            self
        }
    }

    /// Whether a currency, an account or a transaction belongs to the book.
    pub open spec fn book_in_use(self, owner: Seq<char>, name: Seq<char>) -> bool {
        ||| any_row(self.currencies, currencies_in(owner, name))
        ||| any_row(self.accounts, accounts_in(owner, name))
        ||| any_row(self.transactions, transactions_in(owner, name))
    }

    /// A book is deleted if it exists and nothing belongs to it.
    pub open spec fn delete_book_result(self, owner: Seq<char>, name: Seq<char>) -> Result<
        (),
        LedgerError,
    > {
        if !self.has_book(owner, name) {
            Err(LedgerError::NotFound)
        } else if self.book_in_use(owner, name) {
            Err(LedgerError::BadRequest)
        } else {
            Ok(())
        }
    }

    /// The state after `owner` has asked to delete the book: without the book
    /// where that succeeds, as before where it does not.
    pub open spec fn delete_book(self, owner: Seq<char>, name: Seq<char>) -> LedgerView {
        if self.delete_book_result(owner, name) is Ok {
            LedgerView { books: self.books.filter(rows_except(book_is(owner, name))), ..self }
        } else {
            self
        }
    }

    /// A book is updated if it exists.
    pub open spec fn update_book_result(self, owner: Seq<char>, name: Seq<char>) -> Result<
        (),
        LedgerError,
    > {
        if self.has_book(owner, name) {
            Ok(())
        } else {
            Err(LedgerError::NotFound)
        }
    }

    /// The book keeps its key; its description becomes that of `book`.
    pub open spec fn update_book(
        self,
        owner: Seq<char>,
        name: Seq<char>,
        book: entities::BookView,
    ) -> LedgerView {
        LedgerView {
            books: self.books.map_values(rows_replaced(book_is(owner, name), book_set(book))),
            ..self
        }
    }

    // Currencies

    /// The currency `symbol` of the book `book` of `owner`, or that there is
    /// none.
    pub open spec fn get_currency(self, owner: Seq<char>, book: Seq<char>, symbol: Seq<char>)
        -> Result<entities::CurrencyView, LedgerError> {
        if self.has_currency(owner, book, symbol) {
            Ok(first_row(self.currencies, currency_is(owner, book, symbol)).entity())
        } else {
            Err(LedgerError::NotFound)
        }
    }

    /// The symbols of the currencies of the book.
    pub open spec fn get_currencies(self, owner: Seq<char>, book: Seq<char>) -> Seq<Seq<char>> {
        currency_symbols(self.currencies.filter(currencies_in(owner, book)))
    }

    /// A currency is created if its book exists and has no currency of that
    /// symbol.
    pub open spec fn create_currency_result(
        self,
        owner: Seq<char>,
        book: Seq<char>,
        currency: entities::CurrencyView,
    ) -> Result<(), LedgerError> {
        if !self.has_book(owner, book) {
            Err(LedgerError::BadRequest)
        } else if self.has_currency(owner, book, currency.symbol) {
            Err(LedgerError::Conflict)
        } else {
            Ok(())
        }
    }

    /// The state after `owner` has asked to create the currency: with the
    /// currency added where that succeeds, as before where it does not.
    pub open spec fn create_currency(
        self,
        owner: Seq<char>,
        book: Seq<char>,
        currency: entities::CurrencyView,
    ) -> LedgerView {
        if self.create_currency_result(owner, book, currency) is Ok {
            LedgerView {
                currencies: self.currencies.push(CurrencyView::of(currency, owner, book)),
                ..self
            }
        } else {
            self
        }
    }

    /// Whether a posting is in the currency.
    pub open spec fn currency_in_use(self, owner: Seq<char>, book: Seq<char>, symbol: Seq<char>)
        -> bool {
        any_row(self.postings, postings_in(owner, book, symbol))
    }

    /// A currency is deleted if it exists and no posting is in it.
    pub open spec fn delete_currency_result(
        self,
        owner: Seq<char>,
        book: Seq<char>,
        symbol: Seq<char>,
    ) -> Result<(), LedgerError> {
        if !self.has_currency(owner, book, symbol) {
            Err(LedgerError::NotFound)
        } else if self.currency_in_use(owner, book, symbol) {
            Err(LedgerError::BadRequest)
        } else {
            Ok(())
        }
    }

    /// The state after `owner` has asked to delete the currency: without the
    /// currency where that succeeds, as before where it does not.
    pub open spec fn delete_currency(self, owner: Seq<char>, book: Seq<char>, symbol: Seq<char>)
        -> LedgerView {
        if self.delete_currency_result(owner, book, symbol) is Ok {
            LedgerView {
                currencies: self.currencies.filter(rows_except(currency_is(owner, book, symbol))),
                ..self
            }
        } else {
            self
        }
    }

    /// A currency is updated if it exists.
    pub open spec fn update_currency_result(
        self,
        owner: Seq<char>,
        book: Seq<char>,
        symbol: Seq<char>,
    ) -> Result<(), LedgerError> {
        if self.has_currency(owner, book, symbol) {
            Ok(())
        } else {
            Err(LedgerError::NotFound)
        }
    }

    /// The currency keeps its key; its scale and its description become those
    /// of `currency`.
    pub open spec fn update_currency(
        self,
        owner: Seq<char>,
        book: Seq<char>,
        symbol: Seq<char>,
        currency: entities::CurrencyView,
    ) -> LedgerView {
        LedgerView {
            currencies: self.currencies.map_values(
                rows_replaced(currency_is(owner, book, symbol), currency_set(currency)),
            ),
            ..self
        }
    }

    // Accounts

    /// The account `name` of the book `book` of `owner`, or that there is none.
    pub open spec fn get_account(self, owner: Seq<char>, book: Seq<char>, name: Seq<char>)
        -> Result<entities::AccountView, LedgerError> {
        if self.has_account(owner, book, name) {
            Ok(first_row(self.accounts, account_is(owner, book, name)).entity())
        } else {
            Err(LedgerError::NotFound)
        }
    }

    /// The names of the accounts of the book.
    pub open spec fn get_accounts(self, owner: Seq<char>, book: Seq<char>) -> Seq<Seq<char>> {
        account_names(self.accounts.filter(accounts_in(owner, book)))
    }

    /// An account is created if its book exists and has no account of that
    /// name.
    pub open spec fn create_account_result(
        self,
        owner: Seq<char>,
        book: Seq<char>,
        account: entities::AccountView,
    ) -> Result<(), LedgerError> {
        if !self.has_book(owner, book) {
            Err(LedgerError::BadRequest)
        } else if self.has_account(owner, book, account.name) {
            Err(LedgerError::Conflict)
        } else {
            Ok(())
        }
    }

    /// The state after `owner` has asked to create the account: with the
    /// account added where that succeeds, as before where it does not.
    pub open spec fn create_account(
        self,
        owner: Seq<char>,
        book: Seq<char>,
        account: entities::AccountView,
    ) -> LedgerView {
        if self.create_account_result(owner, book, account) is Ok {
            LedgerView {
                accounts: self.accounts.push(AccountView::of(account, owner, book)),
                ..self
            }
        } else {
            self
        }
    }

    /// Whether a posting is against the account.
    pub open spec fn account_in_use(self, owner: Seq<char>, book: Seq<char>, name: Seq<char>)
        -> bool {
        any_row(self.postings, postings_on(owner, book, name))
    }

    /// An account is deleted if it exists and no posting is against it.
    pub open spec fn delete_account_result(
        self,
        owner: Seq<char>,
        book: Seq<char>,
        name: Seq<char>,
    ) -> Result<(), LedgerError> {
        if !self.has_account(owner, book, name) {
            Err(LedgerError::NotFound)
        } else if self.account_in_use(owner, book, name) {
            Err(LedgerError::BadRequest)
        } else {
            Ok(())
        }
    }

    /// The state after `owner` has asked to delete the account: without the
    /// account where that succeeds, as before where it does not.
    pub open spec fn delete_account(self, owner: Seq<char>, book: Seq<char>, name: Seq<char>)
        -> LedgerView {
        if self.delete_account_result(owner, book, name) is Ok {
            LedgerView {
                accounts: self.accounts.filter(rows_except(account_is(owner, book, name))),
                ..self
            }
        } else {
            self
        }
    }

    // Transactions

    /// The transaction `id` of the book `book` of `owner`, or that there is
    /// none.
    pub open spec fn get_transaction(self, owner: Seq<char>, book: Seq<char>, id: i64) -> Result<
        entities::TransactionView,
        LedgerError,
    > {
        if self.has_transaction(owner, book, id) {
            Ok(first_row(self.transactions, transaction_is(owner, book, id)).entity())
        } else {
            Err(LedgerError::NotFound)
        }
    }

    /// The identifiers of the transactions of the book.
    pub open spec fn get_transactions(self, owner: Seq<char>, book: Seq<char>) -> Seq<i64> {
        transaction_ids(self.transactions.filter(transactions_in(owner, book)))
    }

    /// A transaction is stored under `id` if its book exists and nothing in
    /// the ledger has that identifier.
    pub open spec fn insert_transaction_result(self, owner: Seq<char>, book: Seq<char>, id: i64)
        -> Result<i64, LedgerError> {
        if !self.has_book(owner, book) {
            Err(LedgerError::BadRequest)
        } else if self.id_in_use(id) {
            Err(LedgerError::Conflict)
        } else {
            Ok(id)
        }
    }

    /// The state after storing a new transaction under the identifier `id`,
    /// which from then on counts as issued; `now` is the time that the
    /// transaction gets where it names none.
    pub open spec fn insert_transaction(
        self,
        owner: Seq<char>,
        book: Seq<char>,
        transaction: entities::NewTransactionView,
        id: i64,
        now: NaiveDateTime,
    ) -> LedgerView {
        if self.insert_transaction_result(owner, book, id) is Ok {
            LedgerView {
                transactions: self.transactions.push(
                    TransactionView::fresh(transaction, owner, book, id, now),
                ),
                last_id: advanced(self.last_id, id),
                ..self
            }
        } else {
            self
        }
    }

    /// Whether a posting belongs to the transaction.
    pub open spec fn transaction_in_use(self, owner: Seq<char>, book: Seq<char>, id: i64) -> bool {
        any_row(self.postings, postings_of(owner, book, id))
    }

    /// A transaction is deleted if it exists and no posting belongs to it.
    pub open spec fn delete_transaction_result(self, owner: Seq<char>, book: Seq<char>, id: i64)
        -> Result<(), LedgerError> {
        if !self.has_transaction(owner, book, id) {
            Err(LedgerError::NotFound)
        } else if self.transaction_in_use(owner, book, id) {
            Err(LedgerError::BadRequest)
        } else {
            Ok(())
        }
    }

    /// The state after `owner` has asked to delete the transaction: without the
    /// transaction where that succeeds, as before where it does not.
    pub open spec fn delete_transaction(self, owner: Seq<char>, book: Seq<char>, id: i64)
        -> LedgerView {
        if self.delete_transaction_result(owner, book, id) is Ok {
            LedgerView {
                transactions: self.transactions.filter(
                    rows_except(transaction_is(owner, book, id)),
                ),
                ..self
            }
        } else {
            self
        }
    }

    /// A transaction is updated if it exists.
    pub open spec fn update_transaction_result(self, owner: Seq<char>, book: Seq<char>, id: i64)
        -> Result<(), LedgerError> {
        if self.has_transaction(owner, book, id) {
            Ok(())
        } else {
            Err(LedgerError::NotFound)
        }
    }

    /// The transaction keeps its key; its time and its description become
    /// those of `transaction`, with `now` as the time where it names none.
    pub open spec fn update_transaction(
        self,
        owner: Seq<char>,
        book: Seq<char>,
        id: i64,
        transaction: entities::TransactionView,
        now: NaiveDateTime,
    ) -> LedgerView {
        LedgerView {
            transactions: self.transactions.map_values(
                rows_replaced(transaction_is(owner, book, id), transaction_set(transaction, now)),
            ),
            ..self
        }
    }

    // Postings

    /// The posting `id` of the transaction `transaction_id` in the book `book`
    /// of `owner`, or that there is none.
    pub open spec fn get_posting(
        self,
        owner: Seq<char>,
        book: Seq<char>,
        transaction_id: i64,
        id: i64,
    ) -> Result<entities::PostingView, LedgerError> {
        if self.has_posting(owner, book, transaction_id, id) {
            Ok(first_row(self.postings, posting_is(owner, book, transaction_id, id)).entity())
        } else {
            Err(LedgerError::NotFound)
        }
    }

    /// The identifiers of the postings of the transaction.
    pub open spec fn get_postings(self, owner: Seq<char>, book: Seq<char>, transaction_id: i64)
        -> Seq<i64> {
        posting_ids(self.postings.filter(postings_of(owner, book, transaction_id)))
    }

    /// A posting is stored under `id` if its transaction, its account and its
    /// currency exist in the book, and nothing in the ledger has that
    /// identifier.
    pub open spec fn insert_posting_result(
        self,
        owner: Seq<char>,
        book: Seq<char>,
        transaction_id: i64,
        posting: entities::NewPostingView,
        id: i64,
    ) -> Result<i64, LedgerError> {
        if !self.has_transaction(owner, book, transaction_id) || !self.has_account(
            owner,
            book,
            posting.account_name,
        ) || !self.has_currency(owner, book, posting.currency) {
            Err(LedgerError::BadRequest)
        } else if self.id_in_use(id) {
            Err(LedgerError::Conflict)
        } else {
            Ok(id)
        }
    }

    /// The state after storing a new posting under the identifier `id`, which
    /// from then on counts as issued.
    pub open spec fn insert_posting(
        self,
        owner: Seq<char>,
        book: Seq<char>,
        transaction_id: i64,
        posting: entities::NewPostingView,
        id: i64,
    ) -> LedgerView {
        if self.insert_posting_result(owner, book, transaction_id, posting, id) is Ok {
            LedgerView {
                postings: self.postings.push(
                    PostingView::fresh(posting, owner, book, transaction_id, id),
                ),
                last_id: advanced(self.last_id, id),
                ..self
            }
        } else {
            self
        }
    }

    /// The postings against the account.
    pub open spec fn account_postings(self, owner: Seq<char>, book: Seq<char>, account: Seq<char>)
        -> Seq<PostingView> {
        self.postings.filter(postings_on(owner, book, account))
    }

    /// The postings against the account that are not flagged as budget.
    pub open spec fn real_account_postings(
        self,
        owner: Seq<char>,
        book: Seq<char>,
        account: Seq<char>,
    ) -> Seq<PostingView> {
        self.postings.filter(real_postings_on(owner, book, account))
    }

    /// A posting is deleted if it exists.
    pub open spec fn delete_posting_result(
        self,
        owner: Seq<char>,
        book: Seq<char>,
        transaction_id: i64,
        id: i64,
    ) -> Result<(), LedgerError> {
        if self.has_posting(owner, book, transaction_id, id) {
            Ok(())
        } else {
            Err(LedgerError::NotFound)
        }
    }

    /// The state after `owner` has asked to delete the posting.
    pub open spec fn delete_posting(
        self,
        owner: Seq<char>,
        book: Seq<char>,
        transaction_id: i64,
        id: i64,
    ) -> LedgerView {
        LedgerView {
            postings: self.postings.filter(
                rows_except(posting_is(owner, book, transaction_id, id)),
            ),
            ..self
        }
    }
}

} // verus!
