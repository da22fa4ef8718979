//! The state of the terminal viewer: which of its views is shown, and what a
//! key press makes of it.

use vstd::prelude::*;

verus! {

/// The views of the viewer, in the order of their tabs.
#[derive(Clone, Copy, Debug, PartialEq, Eq, Structural)]
pub enum AppView {
    Books,
    Accounts,
    Currencies,
    Transactions,
    Postings,
}

impl AppView {
    /// The title of the view.
    pub open spec fn title(self) -> Seq<char> {
        match self {
            AppView::Books => "Books"@,
            AppView::Accounts => "Accounts"@,
            AppView::Currencies => "Currencies"@,
            AppView::Transactions => "Transactions"@,
            AppView::Postings => "Postings"@,
        }
    }

    /// The place of the view's tab, counted from zero.
    pub open spec fn position(self) -> usize {
        match self {
            AppView::Books => 0,
            AppView::Accounts => 1,
            AppView::Currencies => 2,
            AppView::Transactions => 3,
            AppView::Postings => 4,
        }
    }

    /// The title of the view.
    pub fn get_as_string(&self) -> (r: String)
        ensures
            r@ == self.title(),
    {
        match self {
            AppView::Books => "Books",
            AppView::Currencies => "Currencies",
            AppView::Transactions => "Transactions",
            AppView::Postings => "Postings",
            AppView::Accounts => "Accounts",
        }.to_owned()
    }

    /// The place of the view's tab, counted from zero.
    pub fn index(&self) -> (r: usize)
        ensures
            r == self.position(),
    {
        match self {
            AppView::Books => 0,
            AppView::Accounts => 1,
            AppView::Currencies => 2,
            AppView::Transactions => 3,
            AppView::Postings => 4,
        }
    }

    /// The views in the order of their tabs.
    pub fn all() -> (r: Vec<AppView>)
        ensures
            r@.len() == 5,
            forall|i: int| 0 <= i < 5 ==> (#[trigger] r@[i]).position() == i,
    {
        let mut r: Vec<AppView> = Vec::new();
        r.push(AppView::Books);
        r.push(AppView::Accounts);
        r.push(AppView::Currencies);
        r.push(AppView::Transactions);
        r.push(AppView::Postings);
        r
    }
}

impl From<AppView> for usize {
    /// The place of the view's tab, counted from zero.
    fn from(view: AppView) -> (r: usize) {
        view.index()
    }
}

impl vstd::std_specs::convert::FromSpecImpl<AppView> for usize {
    open spec fn obeys_from_spec() -> bool {
        true
    }

    open spec fn from_spec(view: AppView) -> usize {
        view.position()
    }
}

/// A key of the keyboard, as far as the viewer tells keys apart.
#[derive(Clone, Copy, Debug, PartialEq, Eq, Structural)]
pub enum Key {
    /// A character key.
    Char(char),
    /// A function key, by its number.
    F(u8),
    /// Any other key.
    Other,
}

impl Key {
    /// Whether the key ends the viewer: the letter q does.
    pub open spec fn quits(self) -> bool {
        self == Key::Char('q')
    }

    /// The view that the key leads to from the view `from`: the function
    /// keys one to five lead to the five views, every other key stays.
    pub open spec fn leads_to(self, from: AppView) -> AppView {
        match self {
            Key::F(n) => if n == 1 {
                AppView::Books
            } else if n == 2 {
                AppView::Accounts
            } else if n == 3 {
                AppView::Currencies
            } else if n == 4 {
                AppView::Transactions
            } else if n == 5 {
                AppView::Postings
            } else {
                from
            },
            _ => from,
        }
    }
}

/// The view of the books.
#[derive(Clone, Copy, Debug, PartialEq, Eq)]
pub struct BooksView {}

impl BooksView {
    /// The view of the books.
    pub fn new() -> (r: Self)
        ensures
            r == (BooksView {  }),
    {
        BooksView {  }
    }

    /// The title over the view.
    pub fn title(&self) -> (r: String)
        ensures
            r@ == AppView::Books.title(),
    {
        AppView::Books.get_as_string()
    }
}

/// The view of the accounts.
#[derive(Clone, Copy, Debug, PartialEq, Eq)]
pub struct AccountsView {}

impl AccountsView {
    /// The view of the accounts.
    pub fn new() -> (r: Self)
        ensures
            r == (AccountsView {  }),
    {
        AccountsView {  }
    }

    /// The title over the view.
    pub fn title(&self) -> (r: String)
        ensures
            r@ == AppView::Accounts.title(),
    {
        AppView::Accounts.get_as_string()
    }
}

/// The view of the currencies.
#[derive(Clone, Copy, Debug, PartialEq, Eq)]
pub struct CurrenciesView {}

impl CurrenciesView {
    /// The view of the currencies.
    pub fn new() -> (r: Self)
        ensures
            r == (CurrenciesView {  }),
    {
        CurrenciesView {  }
    }

    /// The title over the view.
    pub fn title(&self) -> (r: String)
        ensures
            r@ == AppView::Currencies.title(),
    {
        AppView::Currencies.get_as_string()
    }
}

/// The view of the transactions.
#[derive(Clone, Copy, Debug, PartialEq, Eq)]
pub struct TransactionsView {}

impl TransactionsView {
    /// The view of the transactions.
    pub fn new() -> (r: Self)
        ensures
            r == (TransactionsView {  }),
    {
        TransactionsView {  }
    }

    /// The title over the view.
    pub fn title(&self) -> (r: String)
        ensures
            r@ == AppView::Transactions.title(),
    {
        AppView::Transactions.get_as_string()
    }
}

/// The view of the postings.
#[derive(Clone, Copy, Debug, PartialEq, Eq)]
pub struct PostingsView {}

impl PostingsView {
    /// The view of the postings.
    pub fn new() -> (r: Self)
        ensures
            r == (PostingsView {  }),
    {
        PostingsView {  }
    }

    /// The title over the view.
    pub fn title(&self) -> (r: String)
        ensures
            r@ == AppView::Postings.title(),
    {
        AppView::Postings.get_as_string()
    }
}

/// The viewer: its five views and the one that is shown.
#[derive(Clone, Copy, Debug, PartialEq, Eq)]
pub struct App {
    pub current_view: AppView,
    pub books_view: BooksView,
    pub accounts_view: AccountsView,
    pub currencies_view: CurrenciesView,
    pub transactions_view: TransactionsView,
    pub postings_view: PostingsView,
}

impl App {
    /// A viewer that shows the books.
    pub fn new() -> (r: Self)
        ensures
            r.current_view == AppView::Books,
    {
        App {
            current_view: AppView::Books,
            books_view: BooksView::new(),
            accounts_view: AccountsView::new(),
            currencies_view: CurrenciesView::new(),
            transactions_view: TransactionsView::new(),
            postings_view: PostingsView::new(),
        }
    }

    /// The titles of the tabs, in their order.
    pub fn tab_titles() -> (r: Vec<String>)
        ensures
            r@.len() == 5,
            r@[0]@ == AppView::Books.title(),
            r@[1]@ == AppView::Accounts.title(),
            r@[2]@ == AppView::Currencies.title(),
            r@[3]@ == AppView::Transactions.title(),
            r@[4]@ == AppView::Postings.title(),
    {
        let mut r: Vec<String> = Vec::new();
        r.push(AppView::Books.get_as_string());
        r.push(AppView::Accounts.get_as_string());
        r.push(AppView::Currencies.get_as_string());
        r.push(AppView::Transactions.get_as_string());
        r.push(AppView::Postings.get_as_string());
        r
    }

    /// The place of the tab that is selected.
    pub fn selected_tab(&self) -> (r: usize)
        ensures
            r == self.current_view.position(),
    {
        usize::from(self.current_view)
    }

    /// Takes a key press: shows the view that the key leads to, and says
    /// whether the key ends the viewer. A key that ends it changes nothing.
    pub fn on_key(&mut self, key: Key) -> (quit: bool)
        ensures
            quit == key.quits(),
            final(self).current_view == key.leads_to(old(self).current_view),
    {
        match key {
            Key::Char(c) => {
                return c == 'q';
            },
            Key::F(n) => {
                if n == 1 {
                    self.current_view = AppView::Books;
                } else if n == 2 {
                    self.current_view = AppView::Accounts;
                } else if n == 3 {
                    self.current_view = AppView::Currencies;
                } else if n == 4 {
                    self.current_view = AppView::Transactions;
                } else if n == 5 {
                    self.current_view = AppView::Postings;
                }
                false
            },
            Key::Other => false,
        }
    }
}

} // verus!
