//! The balance of an account: for each currency that a posting against the
//! account is in, the sum of the amounts of those postings.

use vstd::prelude::*;
use crate::entities::{CurrencyAmount, CurrencyAmountView};
use crate::ledger::state::{postings_on, real_postings_on};
use crate::ledger::Ledger;
use crate::model;
use crate::model::PostingView;
use crate::query::{lemma_filter_none, lemma_filter_step, views};

verus! {

/// The sum of the amounts of those of `postings` that are in the currency
/// `symbol`.
pub open spec fn net_amount(postings: Seq<PostingView>, symbol: Seq<char>) -> int
    decreases postings.len(),
{
    if postings.len() == 0 {
        0
    } else {
        net_amount(postings.drop_last(), symbol) + if postings.last().currency == symbol {
            postings.last().amount as int
        } else {
            0
        }
    }
}

/// Whether `groups` is the balance of `postings`: no currency occurs twice,
/// the currencies are those of the postings, and each amount is the net
/// amount of the postings in its currency.
#[verifier::opaque]
pub open spec fn is_balance(groups: Seq<CurrencyAmountView>, postings: Seq<PostingView>) -> bool {
    &&& forall|i: int, j: int|
        #![trigger groups[i], groups[j]]
        0 <= i < j < groups.len() ==> groups[i].currency != groups[j].currency
    &&& forall|i: int|
        0 <= i < groups.len() ==> exists|k: int|
            0 <= k < postings.len() && (#[trigger] postings[k]).currency == (
            #[trigger] groups[i]).currency
    &&& forall|k: int|
        0 <= k < postings.len() ==> exists|i: int|
            0 <= i < groups.len() && (#[trigger] groups[i]).currency == (
            #[trigger] postings[k]).currency
    &&& forall|i: int|
        0 <= i < groups.len() ==> (#[trigger] groups[i]).amount == net_amount(
            postings,
            groups[i].currency,
        )
}

/// One more posting adds its amount to the net amount of its currency and to
/// no other.
pub proof fn lemma_net_amount_push(postings: Seq<PostingView>, p: PostingView, symbol: Seq<char>)
    ensures
        net_amount(postings.push(p), symbol) == net_amount(postings, symbol) + if p.currency
            == symbol {
            p.amount as int
        } else {
            0
        },
{
    assert(postings.push(p).drop_last() =~= postings);
}

/// The net amount of a currency that no posting is in is zero.
pub proof fn lemma_net_amount_absent(postings: Seq<PostingView>, symbol: Seq<char>)
    requires
        forall|k: int| 0 <= k < postings.len() ==> (#[trigger] postings[k]).currency != symbol,
    ensures
        net_amount(postings, symbol) == 0,
    decreases postings.len(),
{
    if postings.len() > 0 {
        lemma_net_amount_absent(postings.drop_last(), symbol);
    }
}

/// A net amount is bounded by the number of postings.
pub proof fn lemma_net_amount_bound(postings: Seq<PostingView>, symbol: Seq<char>)
    ensures
        -0x8000_0000 * postings.len() <= net_amount(postings, symbol) <= 0x7fff_ffff
            * postings.len(),
    decreases postings.len(),
{
    if postings.len() > 0 {
        lemma_net_amount_bound(postings.drop_last(), symbol);
    }
}

/// Nothing is the balance of no postings.
pub proof fn lemma_balance_of_none()
    ensures
        is_balance(Seq::empty(), Seq::empty()),
{
    reveal(is_balance);
}

/// A posting in a currency that has a group adds its amount to that group.
pub proof fn lemma_balance_credited(
    groups: Seq<CurrencyAmountView>,
    postings: Seq<PostingView>,
    p: PostingView,
    j: int,
)
    requires
        is_balance(groups, postings),
        0 <= j < groups.len(),
        groups[j].currency == p.currency,
    ensures
        groups[j].amount == net_amount(postings, p.currency),
        is_balance(
            groups.update(
                j,
                CurrencyAmountView { currency: p.currency, amount: groups[j].amount + p.amount },
            ),
            postings.push(p),
        ),
{
    reveal(is_balance);
    let after = groups.update(
        j,
        CurrencyAmountView { currency: p.currency, amount: groups[j].amount + p.amount },
    );
    let more = postings.push(p);
    assert forall|x: int| 0 <= x < after.len() implies (#[trigger] after[x]).amount == net_amount(
        more,
        after[x].currency,
    ) by {
        lemma_net_amount_push(postings, p, after[x].currency);
    }
    assert forall|x: int| 0 <= x < after.len() implies exists|k: int|
        0 <= k < more.len() && (#[trigger] more[k]).currency == (#[trigger] after[x]).currency by {
        let k = choose|k: int|
            0 <= k < postings.len() && (#[trigger] postings[k]).currency == groups[x].currency;
        assert(more[k].currency == after[x].currency);
    }
    assert forall|k: int| 0 <= k < more.len() implies exists|x: int|
        0 <= x < after.len() && (#[trigger] after[x]).currency == (#[trigger] more[k]).currency by {
        if k < postings.len() {
            let x = choose|x: int|
                0 <= x < groups.len() && (#[trigger] groups[x]).currency == postings[k].currency;
            assert(after[x].currency == more[k].currency);
        } else {
            assert(after[j].currency == more[k].currency);
        }
    }
}

/// A posting in a currency that has no group opens a group with its amount.
pub proof fn lemma_balance_opened(
    groups: Seq<CurrencyAmountView>,
    postings: Seq<PostingView>,
    p: PostingView,
)
    requires
        is_balance(groups, postings),
        forall|j: int| 0 <= j < groups.len() ==> (#[trigger] groups[j]).currency != p.currency,
    ensures
        is_balance(
            groups.push(CurrencyAmountView { currency: p.currency, amount: p.amount as int }),
            postings.push(p),
        ),
{
    reveal(is_balance);
    let after = groups.push(CurrencyAmountView { currency: p.currency, amount: p.amount as int });
    let more = postings.push(p);
    assert forall|k: int| 0 <= k < postings.len() implies (#[trigger] postings[k]).currency
        != p.currency by {
        let x = choose|x: int|
            0 <= x < groups.len() && (#[trigger] groups[x]).currency == postings[k].currency;
    }
    lemma_net_amount_absent(postings, p.currency);
    assert forall|x: int| 0 <= x < after.len() implies (#[trigger] after[x]).amount == net_amount(
        more,
        after[x].currency,
    ) by {
        lemma_net_amount_push(postings, p, after[x].currency);
    }
    assert forall|x: int| 0 <= x < after.len() implies exists|k: int|
        0 <= k < more.len() && (#[trigger] more[k]).currency == (#[trigger] after[x]).currency by {
        if x < groups.len() {
            let k = choose|k: int|
                0 <= k < postings.len() && (#[trigger] postings[k]).currency == groups[x].currency;
            assert(more[k].currency == after[x].currency);
        } else {
            assert(more[postings.len() as int].currency == after[x].currency);
        }
    }
    assert forall|k: int| 0 <= k < more.len() implies exists|x: int|
        0 <= x < after.len() && (#[trigger] after[x]).currency == (#[trigger] more[k]).currency by {
        if k < postings.len() {
            let x = choose|x: int|
                0 <= x < groups.len() && (#[trigger] groups[x]).currency == postings[k].currency;
            assert(after[x].currency == more[k].currency);
        } else {
            assert(after[groups.len() as int].currency == more[k].currency);
        }
    }
}

/// The place of the group of the currency `symbol`, if there is one.
fn find_group(groups: &Vec<CurrencyAmount>, symbol: &String) -> (r: Option<usize>)
    ensures
        match r {
            Some(j) => j < groups@.len() && groups@[j as int].currency@ == symbol@,
            None => forall|j: int|
                0 <= j < groups@.len() ==> (#[trigger] groups@[j]).currency@ != symbol@,
        },
{
    let mut j: usize = 0;
    while j < groups.len()
        invariant
            j <= groups.len(),
            forall|k: int| 0 <= k < j ==> (#[trigger] groups@[k]).currency@ != symbol@,
        decreases groups.len() - j,
    {
        if groups[j].currency == *symbol {
            return Some(j);
        }
        j += 1;
    }
    None
}

/// The balance of the postings against the account `account` of the book
/// `book` of `owner`; with `real_only`, of those that are not flagged as
/// budget.
pub fn balance_of(
    postings: &Vec<model::Posting>,
    owner: &String,
    book: &String,
    account: &String,
    real_only: bool,
) -> (r: Vec<CurrencyAmount>)
    ensures
        is_balance(
            views(r@),
            views(postings@).filter(
                if real_only {
                    real_postings_on(owner@, book@, account@)
                } else {
                    postings_on(owner@, book@, account@)
                },
            ),
        ),
{
    let ghost q = if real_only {
        real_postings_on(owner@, book@, account@)
    } else {
        postings_on(owner@, book@, account@)
    };
    let ghost rows = views(postings@);
    let mut out: Vec<CurrencyAmount> = Vec::new();
    let mut i: usize = 0;
    proof {
        lemma_balance_of_none();
        lemma_filter_none(rows.take(0), q);
        assert(views(out@) =~= Seq::empty());
    }
    while i < postings.len()
        invariant
            i <= postings.len(),
            rows == views(postings@),
            q == if real_only {
                real_postings_on(owner@, book@, account@)
            } else {
                postings_on(owner@, book@, account@)
            },
            rows.take(i as int).filter(q).len() <= i,
            is_balance(views(out@), rows.take(i as int).filter(q)),
        decreases postings.len() - i,
    {
        let ghost m = rows.take(i as int).filter(q);
        let ghost before = views(out@);
        proof {
            lemma_filter_step(rows, q, i as int);
        }
        let p = &postings[i];
        let flagged = match p.budget {
            Some(b) => b,
            None => false,
        };
        if p.user_name == *owner && p.book_name == *book && p.account_name == *account && !(
        real_only && flagged) {
            let ghost pv = rows[i as int];
            match find_group(&out, &p.currency) {
                Some(j) => {
                    proof {
                        lemma_net_amount_bound(m, pv.currency);
                        lemma_balance_credited(before, m, pv, j as int);
                    }
                    let g = CurrencyAmount {
                        currency: p.currency.clone(),
                        amount: out[j].amount + p.amount as i128,
                    };
                    out[j] = g;
                    proof {
                        assert(views(out@) =~= before.update(j as int, g@));
                    }
                },
                None => {
                    proof {
                        lemma_balance_opened(before, m, pv);
                    }
                    let g = CurrencyAmount { currency: p.currency.clone(), amount: p.amount as i128 };
                    out.push(g);
                    proof {
                        assert(views(out@) =~= before.push(g@));
                    }
                },
            }
        }
        i += 1;
    }
    assert(rows.take(i as int) =~= rows);
    out
}

impl Ledger {
    /// The balance of the account `account` of the book `book` of `owner`
    /// over all its postings. A currency that no posting against the account
    /// is in does not occur. The order of the currencies is not fixed.
    pub fn account_value(&self, owner: &String, book: &String, account: &String) -> (r: Vec<
        CurrencyAmount,
    >)
        ensures
            is_balance(views(r@), self@.account_postings(owner@, book@, account@)),
    {
        balance_of(&self.postings, owner, book, account, false)
    }

    /// The balance of the account `account` of the book `book` of `owner`
    /// over its postings that are not flagged as budget. A currency that no
    /// such posting is in does not occur. The order of the currencies is not
    /// fixed.
    pub fn real_account_value(&self, owner: &String, book: &String, account: &String) -> (r: Vec<
        CurrencyAmount,
    >)
        ensures
            is_balance(views(r@), self@.real_account_postings(owner@, book@, account@)),
    {
        balance_of(&self.postings, owner, book, account, true)
    }
}

} // verus!
