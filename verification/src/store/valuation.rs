//! Pairing holdings with prices.
//!
//! The value of a portfolio is the sum, over the holdings whose asset is in
//! the asset list, of amount times price. Which holdings count, and at which
//! price each, is decided here; the products and their sum are binary64
//! arithmetic and belong to the caller.
//!
//! An asset list is meant to carry each identifier once. Where it carries one
//! several times, the last asset with the identifier gives the price.

use vstd::prelude::*;
use crate::models::crypto::{Cryptocurrency, CryptocurrencyView, Number, PortfolioItemView};
use crate::store::Store;

verus! {

/// One term of a portfolio's value: an amount held and the price of one unit.
#[derive(Clone, Copy, Debug, PartialEq, Eq)]
pub struct PricedHolding {
    pub amount: Number,
    pub price: Number,
}

/// Whether the asset list has an asset with the identifier `id`.
pub open spec fn lists(assets: Seq<CryptocurrencyView>, id: Seq<char>) -> bool {
    exists|i: int| 0 <= i < assets.len() && (#[trigger] assets[i]).id == id
}

/// Whether `i` is the place of the last asset with the identifier `id`.
pub open spec fn last_listing_at(assets: Seq<CryptocurrencyView>, id: Seq<char>, i: int) -> bool {
    &&& 0 <= i < assets.len()
    &&& assets[i].id == id
    &&& forall|j: int| i < j < assets.len() ==> (#[trigger] assets[j]).id != id
}

/// The price of the asset `id` according to the list, if the list has it.
pub open spec fn price_of(assets: Seq<CryptocurrencyView>, id: Seq<char>) -> Option<Number>
    decreases assets.len(),
{
    if assets.len() == 0 {
        None
    } else if assets.last().id == id {
        Some(assets.last().price)
    } else {
        price_of(assets.drop_last(), id)
    }
}

/// Whether no two assets of the list have the same identifier.
pub open spec fn distinct_listings(assets: Seq<CryptocurrencyView>) -> bool {
    forall|i: int, j: int|
        0 <= i < j < assets.len() ==> (#[trigger] assets[i]).id != (#[trigger] assets[j]).id
}

/// The pairing of one holding: its amount with the price of its asset, or
/// nothing where the list does not have the asset.
pub open spec fn pricing(assets: Seq<CryptocurrencyView>) -> spec_fn(PortfolioItemView) -> Option<
    PricedHolding,
> {
    |h: PortfolioItemView|
        match price_of(assets, h.crypto_id) {
            Some(price) => Some(PricedHolding { amount: h.amount, price }),
            None => None,
        }
}

/// The terms of the portfolio's value: one for each holding whose asset is in
/// the list, in the order of the holdings.
pub open spec fn priced(assets: Seq<CryptocurrencyView>, portfolio: Seq<PortfolioItemView>) -> Seq<
    PricedHolding,
> {
    portfolio.filter_map(pricing(assets))
}

/// The price of an asset is that of its last listing, and there is one
/// exactly when the asset is listed.
pub proof fn lemma_price_of(assets: Seq<CryptocurrencyView>, id: Seq<char>)
    ensures
        price_of(assets, id) is Some <==> lists(assets, id),
        forall|i: int| last_listing_at(assets, id, i) ==> price_of(assets, id) == Some(assets[i].price),
    decreases assets.len(),
{
    if assets.len() > 0 {
        let front = assets.drop_last();
        lemma_price_of(front, id);
        if assets.last().id != id {
            if lists(assets, id) {
                let i = choose|i: int| 0 <= i < assets.len() && (#[trigger] assets[i]).id == id;
                assert(front[i].id == id);
            }
            assert forall|i: int| last_listing_at(assets, id, i) implies price_of(assets, id)
                == Some(assets[i].price) by {
                assert(last_listing_at(front, id, i));
            }
        }
    }
}

/// In a list that has each identifier once, the price of an asset is the
/// price of the one asset with its identifier.
pub proof fn lemma_price_of_the_only_listing(assets: Seq<CryptocurrencyView>, i: int)
    requires
        distinct_listings(assets),
        0 <= i < assets.len(),
    ensures
        price_of(assets, assets[i].id) == Some(assets[i].price),
{
    assert(last_listing_at(assets, assets[i].id, i));
    lemma_price_of(assets, assets[i].id);
}

/// The terms of two portfolios laid end to end are the terms of the first
/// followed by the terms of the second.
pub proof fn lemma_priced_concat(
    assets: Seq<CryptocurrencyView>,
    first: Seq<PortfolioItemView>,
    second: Seq<PortfolioItemView>,
)
    ensures
        priced(assets, first + second) == priced(assets, first) + priced(assets, second),
    decreases second.len(),
{
    if second.len() > 0 {
        lemma_priced_concat(assets, first, second.drop_last());
        assert((first + second).drop_last() =~= first + second.drop_last());
    }
}

/// A holding whose asset is not listed adds no term, wherever it stands in
/// the portfolio: the terms are those of the portfolio without it.
pub proof fn lemma_unlisted_holding_adds_nothing(
    assets: Seq<CryptocurrencyView>,
    before: Seq<PortfolioItemView>,
    item: PortfolioItemView,
    after: Seq<PortfolioItemView>,
)
    requires
        !lists(assets, item.crypto_id),
    ensures
        priced(assets, before.push(item) + after) == priced(assets, before + after),
{
    lemma_price_of(assets, item.crypto_id);
    lemma_priced_concat(assets, before.push(item), after);
    lemma_priced_concat(assets, before, after);
    assert(before.push(item).drop_last() =~= before);
}

/// A holding whose asset is listed adds one term at its place: its amount
/// with the price of the last listing of the asset.
pub proof fn lemma_listed_holding_adds_its_term(
    assets: Seq<CryptocurrencyView>,
    before: Seq<PortfolioItemView>,
    item: PortfolioItemView,
    after: Seq<PortfolioItemView>,
    at: int,
)
    requires
        last_listing_at(assets, item.crypto_id, at),
    ensures
        priced(assets, before.push(item) + after) == priced(assets, before).push(
            PricedHolding { amount: item.amount, price: assets[at].price },
        ) + priced(assets, after),
{
    lemma_price_of(assets, item.crypto_id);
    lemma_priced_concat(assets, before.push(item), after);
    assert(before.push(item).drop_last() =~= before);
    assert(priced(assets, before.push(item)) =~= priced(assets, before).push(
        PricedHolding { amount: item.amount, price: assets[at].price },
    ));
}

/// Finds the last asset with the identifier `id` and returns its place.
pub fn find_cryptocurrency(assets: &Vec<Cryptocurrency>, id: &String) -> (found: Option<usize>)
    ensures
        match found {
            Some(i) => last_listing_at(assets.deep_view(), id@, i as int),
            None => !lists(assets.deep_view(), id@),
        },
{
    let mut i: usize = assets.len();
    while i > 0
        invariant
            i <= assets.len(),
            forall|j: int| i <= j < assets.len() ==> (#[trigger] assets.deep_view()[j]).id != id@,
        decreases i,
    {
        i -= 1;
        if assets[i].id == *id {
            return Some(i);
        }
    }
    None
}

impl Store {
    /// Pairs each holding whose asset is listed with the asset's price.
    ///
    /// The value of the portfolio is the sum of `amount` times `price` over
    /// the pairs returned. A holding whose asset is not listed has no pair,
    /// and so adds nothing.
    pub fn priced_holdings(&self) -> (terms: Vec<PricedHolding>)
        ensures
            terms@ == priced(self@.cryptocurrencies, self@.portfolio),
    {
        let ghost assets = self@.cryptocurrencies;
        let ghost portfolio = self@.portfolio;
        let mut terms: Vec<PricedHolding> = Vec::new();
        let mut i: usize = 0;
        while i < self.portfolio.len()
            invariant
                i <= self.portfolio.len(),
                assets == self@.cryptocurrencies,
                portfolio == self@.portfolio,
                terms@ == priced(assets, portfolio.take(i as int)),
            decreases self.portfolio.len() - i,
        {
            let item = &self.portfolio[i];
            proof {
                portfolio.lemma_filter_map_take_succ(pricing(assets), i as int);
                lemma_price_of(assets, item.crypto_id@);
            }
            match find_cryptocurrency(&self.cryptocurrencies, &item.crypto_id) {
                Some(at) => {
                    terms.push(
                        PricedHolding { amount: item.amount, price: self.cryptocurrencies[at].price },
                    );
                },
                None => {},
            }
            i += 1;
        }
        proof {
            assert(portfolio.take(portfolio.len() as int) =~= portfolio);
        }
        terms
    }
}

} // verus!
