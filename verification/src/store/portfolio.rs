//! The list of holdings: finding, adding, replacing and removing a holding.
//!
//! A portfolio is kept in insertion order. The operations below are stated
//! over the sequence of holding views, whatever identifiers it carries; the
//! portfolios that the store builds carry each identifier at most once
//! (`distinct_ids`), and every operation keeps it so.

use vstd::prelude::*;
use crate::models::crypto::{PortfolioItem, PortfolioItemView};

verus! {

/// Whether some holding of the portfolio is a position in the asset `id`.
pub open spec fn holds(portfolio: Seq<PortfolioItemView>, id: Seq<char>) -> bool {
    exists|i: int| 0 <= i < portfolio.len() && (#[trigger] portfolio[i]).crypto_id == id
}

/// Whether `i` is the place of the first holding of the asset `id`.
pub open spec fn first_holding_at(portfolio: Seq<PortfolioItemView>, id: Seq<char>, i: int) -> bool {
    &&& 0 <= i < portfolio.len()
    &&& portfolio[i].crypto_id == id
    &&& forall|j: int| 0 <= j < i ==> (#[trigger] portfolio[j]).crypto_id != id
}

/// Whether no two holdings of the portfolio are positions in the same asset.
pub open spec fn distinct_ids(portfolio: Seq<PortfolioItemView>) -> bool {
    forall|i: int, j: int|
        0 <= i < j < portfolio.len() ==> (#[trigger] portfolio[i]).crypto_id != (
        #[trigger] portfolio[j]).crypto_id
}

/// Whether exactly one holding of the portfolio is a position in the asset
/// `id`.
pub open spec fn holds_once(portfolio: Seq<PortfolioItemView>, id: Seq<char>) -> bool {
    exists|i: int|
        {
            &&& 0 <= i < portfolio.len()
            &&& (#[trigger] portfolio[i]).crypto_id == id
            &&& forall|j: int|
                0 <= j < portfolio.len() && (#[trigger] portfolio[j]).crypto_id == id ==> j == i
        }
}

/// The portfolio after an attempt to add `item`: the item goes to the end,
/// unless the asset is held already, in which case nothing changes.
pub open spec fn with_added(portfolio: Seq<PortfolioItemView>, item: PortfolioItemView) -> Seq<
    PortfolioItemView,
> {
    if holds(portfolio, item.crypto_id) {
        portfolio
    } else {
        portfolio.push(item)
    }
}

/// The portfolio with `item` in the place of the first holding of the same
/// asset. Every other place keeps its holding; where the asset is not held,
/// that is every place.
pub open spec fn with_updated(portfolio: Seq<PortfolioItemView>, item: PortfolioItemView) -> Seq<
    PortfolioItemView,
> {
    Seq::new(
        portfolio.len(),
        |i: int|
            if first_holding_at(portfolio, item.crypto_id, i) {
                item
            } else {
                portfolio[i]
            },
    )
}

/// The test that a holding passes when it is a position in another asset
/// than `id`.
pub open spec fn is_other_than(id: Seq<char>) -> spec_fn(PortfolioItemView) -> bool {
    |h: PortfolioItemView| h.crypto_id != id
}

/// The portfolio without the holdings of the asset `id`, the others in their
/// order.
pub open spec fn without(portfolio: Seq<PortfolioItemView>, id: Seq<char>) -> Seq<
    PortfolioItemView,
> {
    portfolio.filter(is_other_than(id))
}

/// Finds the first holding of the asset `id` and returns its place.
pub fn find_holding(portfolio: &Vec<PortfolioItem>, id: &String) -> (found: Option<usize>)
    ensures
        match found {
            Some(i) => first_holding_at(portfolio.deep_view(), id@, i as int),
            None => !holds(portfolio.deep_view(), id@),
        },
{
    let mut i: usize = 0;
    while i < portfolio.len()
        invariant
            i <= portfolio.len(),
            forall|j: int| 0 <= j < i ==> (#[trigger] portfolio.deep_view()[j]).crypto_id != id@,
        decreases portfolio.len() - i,
    {
        if portfolio[i].crypto_id == *id {
            return Some(i);
        }
        i += 1;
    }
    None
}

/// Adds `item` at the end, unless the asset is held already.
pub fn add_holding(portfolio: &mut Vec<PortfolioItem>, item: PortfolioItem)
    ensures
        final(portfolio).deep_view() == with_added(old(portfolio).deep_view(), item@),
{
    if find_holding(portfolio, &item.crypto_id).is_none() {
        portfolio.push(item);
    }
}

/// Puts `item` in the place of the first holding of the same asset, if there
/// is one.
pub fn replace_holding(portfolio: &mut Vec<PortfolioItem>, item: PortfolioItem)
    ensures
        final(portfolio).deep_view() == with_updated(old(portfolio).deep_view(), item@),
{
    match find_holding(portfolio, &item.crypto_id) {
        Some(i) => {
            portfolio[i] = item;
        },
        None => {},
    }
}

/// Drops every holding of the asset `id` and keeps the others in their order.
pub fn remove_holding(portfolio: Vec<PortfolioItem>, id: &String) -> (kept: Vec<PortfolioItem>)
    ensures
        kept.deep_view() == without(portfolio.deep_view(), id@),
{
    let ghost before = portfolio.deep_view();
    let mut kept: Vec<PortfolioItem> = Vec::new();
    for item in it: portfolio.into_iter()
        invariant
            it.seq() == portfolio@,
            before == portfolio.deep_view(),
            kept.deep_view() == without(before.take(it.index() as int), id@),
    {
        proof {
            let n = it.index() as int;
            assert(before.take(n + 1) =~= before.take(n).push(item@));
            before.take(n).lemma_filter_push(item@, is_other_than(id@));
        }
        if !(item.crypto_id == *id) {
            kept.push(item);
        }
    }
    proof {
        assert(before.take(before.len() as int) =~= before);
    }
    kept
}

/// After an attempt to add a holding, its asset is held.
pub proof fn lemma_added_is_held(portfolio: Seq<PortfolioItemView>, item: PortfolioItemView)
    ensures
        holds(with_added(portfolio, item), item.crypto_id),
{
    if !holds(portfolio, item.crypto_id) {
        let longer = portfolio.push(item);
        assert(longer[longer.len() - 1].crypto_id == item.crypto_id);
    }
}

/// An attempt to add a holding never makes an asset held twice.
pub proof fn lemma_added_keeps_distinct(portfolio: Seq<PortfolioItemView>, item: PortfolioItemView)
    requires
        distinct_ids(portfolio),
    ensures
        distinct_ids(with_added(portfolio, item)),
{
}

/// A second attempt to add a holding of the same asset changes nothing: the
/// first one stays.
pub proof fn lemma_added_twice(
    portfolio: Seq<PortfolioItemView>,
    first: PortfolioItemView,
    second: PortfolioItemView,
)
    requires
        first.crypto_id == second.crypto_id,
    ensures
        with_added(with_added(portfolio, first), second) == with_added(portfolio, first),
{
    lemma_added_is_held(portfolio, first);
}

/// Replacing a holding never makes an asset held twice.
pub proof fn lemma_updated_keeps_distinct(
    portfolio: Seq<PortfolioItemView>,
    item: PortfolioItemView,
)
    requires
        distinct_ids(portfolio),
    ensures
        distinct_ids(with_updated(portfolio, item)),
{
}

/// Replacing the holding of an asset that is not held changes nothing.
pub proof fn lemma_updated_when_absent(portfolio: Seq<PortfolioItemView>, item: PortfolioItemView)
    requires
        !holds(portfolio, item.crypto_id),
    ensures
        with_updated(portfolio, item) == portfolio,
{
}

/// After the removal of an asset, the asset is not held.
pub proof fn lemma_without_is_not_held(portfolio: Seq<PortfolioItemView>, id: Seq<char>)
    ensures
        !holds(without(portfolio, id), id),
{
}

/// The removal of an asset never makes another asset held twice.
pub proof fn lemma_without_keeps_distinct(portfolio: Seq<PortfolioItemView>, id: Seq<char>)
    requires
        distinct_ids(portfolio),
    ensures
        distinct_ids(without(portfolio, id)),
    decreases portfolio.len(),
{
    reveal(Seq::filter);
    if portfolio.len() > 0 {
        let front = portfolio.drop_last();
        let last = portfolio.last();
        lemma_without_keeps_distinct(front, id);
        if last.crypto_id != id {
            let kept = without(front, id);
            let longer = kept.push(last);
            assert forall|i: int, j: int| 0 <= i < j < longer.len() implies (#[trigger] longer[i]).crypto_id
                != (#[trigger] longer[j]).crypto_id by {
                if j == kept.len() {
                    front.lemma_filter_contains_rev(is_other_than(id), kept[i]);
                }
            }
        }
    }
}

/// Removing an asset right after an attempt to add a holding of it gives
/// what removing it at once would have given.
pub proof fn lemma_without_after_added(portfolio: Seq<PortfolioItemView>, item: PortfolioItemView)
    ensures
        without(with_added(portfolio, item), item.crypto_id) == without(portfolio, item.crypto_id),
{
    portfolio.lemma_filter_push(item, is_other_than(item.crypto_id));
}

/// In a portfolio that holds no asset twice, an asset that is held is held
/// exactly once.
pub proof fn lemma_distinct_holds_once(portfolio: Seq<PortfolioItemView>, id: Seq<char>)
    requires
        distinct_ids(portfolio),
        holds(portfolio, id),
    ensures
        holds_once(portfolio, id),
{
}

} // verus!
