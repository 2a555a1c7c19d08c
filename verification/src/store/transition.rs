//! The store as a mathematical object: its state, its actions, and the
//! transition that takes one state and one action to the next state.

use vstd::prelude::*;
use crate::models::crypto::{CryptocurrencyView, PortfolioItemView};
use crate::store::portfolio::{
    distinct_ids, holds, holds_once, lemma_added_is_held, lemma_added_keeps_distinct,
    lemma_added_twice, lemma_distinct_holds_once, lemma_updated_keeps_distinct,
    lemma_updated_when_absent, lemma_without_after_added, lemma_without_is_not_held,
    lemma_without_keeps_distinct, with_added, with_updated, without,
};

verus! {

/// What a `Store` is to the contracts.
pub struct StoreView {
    /// The asset list, in the order in which the gateway gave it.
    pub cryptocurrencies: Seq<CryptocurrencyView>,
    /// The holdings, in the order in which they were added.
    pub portfolio: Seq<PortfolioItemView>,
    /// The asset whose detail was loaded last, if any.
    pub selected_cryptocurrency: Option<CryptocurrencyView>,
    pub loading: bool,
    /// The message of the last failure that was not cleared since.
    pub error: Option<Seq<char>>,
}

impl StoreView {
    /// The state before any action: nothing listed, nothing held, nothing
    /// selected, not loading, no error.
    pub open spec fn initial() -> StoreView {
        StoreView {
            cryptocurrencies: Seq::empty(),
            portfolio: Seq::empty(),
            selected_cryptocurrency: None,
            loading: false,
            error: None,
        }
    }

    /// The portfolio has at most one holding per asset.
    pub open spec fn well_formed(self) -> bool {
        distinct_ids(self.portfolio)
    }
}

/// What a `StoreAction` is to the contracts.
pub enum StoreActionView {
    FetchCryptocurrencies,
    SetCryptocurrencies(Seq<CryptocurrencyView>),
    FetchCryptocurrencyDetails(Seq<char>),
    SetSelectedCryptocurrency(CryptocurrencyView),
    AddToPortfolio(PortfolioItemView),
    RemoveFromPortfolio(Seq<char>),
    UpdatePortfolioItem(PortfolioItemView),
    SavePortfolio,
    SetError(Seq<char>),
    ClearError,
    SetLoading(bool),
}

/// The state that follows `state` under `action`.
///
/// Starting a fetch raises the loading flag and clears the error; starting a
/// save raises the flag and leaves the error. A loaded list or detail takes
/// the place of the previous one and lowers the flag; a failure records its
/// message and lowers the flag. The three portfolio actions touch the
/// portfolio alone.
pub open spec fn transition(state: StoreView, action: StoreActionView) -> StoreView {
    match action {
        StoreActionView::FetchCryptocurrencies => StoreView {
            loading: true,
            error: None,
            ..state
        },
        StoreActionView::SetCryptocurrencies(cryptocurrencies) => StoreView {
            cryptocurrencies,
            loading: false,
            ..state
        },
        StoreActionView::FetchCryptocurrencyDetails(_) => StoreView {
            loading: true,
            error: None,
            ..state
        },
        StoreActionView::SetSelectedCryptocurrency(cryptocurrency) => StoreView {
            selected_cryptocurrency: Some(cryptocurrency),
            loading: false,
            ..state
        },
        StoreActionView::AddToPortfolio(item) => StoreView {
            portfolio: with_added(state.portfolio, item),
            ..state
        },
        StoreActionView::RemoveFromPortfolio(id) => StoreView {
            portfolio: without(state.portfolio, id),
            ..state
        },
        StoreActionView::UpdatePortfolioItem(item) => StoreView {
            portfolio: with_updated(state.portfolio, item),
            ..state
        },
        StoreActionView::SavePortfolio => StoreView { loading: true, ..state },
        StoreActionView::SetError(message) => StoreView {
            error: Some(message),
            loading: false,
            ..state
        },
        StoreActionView::ClearError => StoreView { error: None, ..state },
        StoreActionView::SetLoading(loading) => StoreView { loading, ..state },
    }
}

/// The state that follows `state` under the actions of `actions`, taken in
/// order.
pub open spec fn run(state: StoreView, actions: Seq<StoreActionView>) -> StoreView
    decreases actions.len(),
{
    if actions.len() == 0 {
        state
    } else {
        transition(run(state, actions.drop_last()), actions.last())
    }
}

/// The actions that ask, one after the other, to add each of `items`.
pub open spec fn adds(items: Seq<PortfolioItemView>) -> Seq<StoreActionView> {
    items.map_values(|item: PortfolioItemView| StoreActionView::AddToPortfolio(item))
}

/// No action makes the portfolio hold an asset twice.
pub proof fn lemma_transition_keeps_well_formed(state: StoreView, action: StoreActionView)
    requires
        state.well_formed(),
    ensures
        transition(state, action).well_formed(),
{
    match action {
        StoreActionView::AddToPortfolio(item) => {
            lemma_added_keeps_distinct(state.portfolio, item);
        },
        StoreActionView::RemoveFromPortfolio(id) => {
            lemma_without_keeps_distinct(state.portfolio, id);
        },
        StoreActionView::UpdatePortfolioItem(item) => {
            lemma_updated_keeps_distinct(state.portfolio, item);
        },
        _ => {},
    }
}

/// Whatever actions are applied to the initial state, in whatever order, the
/// portfolio never holds an asset twice.
pub proof fn lemma_reachable_is_well_formed(actions: Seq<StoreActionView>)
    ensures
        run(StoreView::initial(), actions).well_formed(),
    decreases actions.len(),
{
    if actions.len() > 0 {
        lemma_reachable_is_well_formed(actions.drop_last());
        lemma_transition_keeps_well_formed(
            run(StoreView::initial(), actions.drop_last()),
            actions.last(),
        );
    }
}

/// Adding holdings of one and the same asset, once or many times over, ends
/// where the first attempt ended: the rest of the state is untouched, and the
/// portfolio has exactly one holding of the asset, the one it had before or
/// else the first of those added.
pub proof fn lemma_repeated_add_holds_once(state: StoreView, items: Seq<PortfolioItemView>)
    requires
        state.well_formed(),
        items.len() > 0,
        forall|i: int| 0 <= i < items.len() ==> (#[trigger] items[i]).crypto_id == items[0].crypto_id,
    ensures
        run(state, adds(items)) == transition(state, StoreActionView::AddToPortfolio(items[0])),
        run(state, adds(items)).portfolio == with_added(state.portfolio, items[0]),
        holds_once(run(state, adds(items)).portfolio, items[0].crypto_id),
    decreases items.len(),
{
    let first = items[0];
    let once = transition(state, StoreActionView::AddToPortfolio(first));
    assert(adds(items).drop_last() =~= adds(items.drop_last()));
    if items.len() > 1 {
        lemma_repeated_add_holds_once(state, items.drop_last());
        lemma_added_twice(state.portfolio, first, items.last());
    }
    lemma_added_is_held(state.portfolio, first);
    lemma_added_keeps_distinct(state.portfolio, first);
    lemma_distinct_holds_once(once.portfolio, first.crypto_id);
}

/// Adding a holding and then removing its asset leaves the portfolio without
/// the asset, whatever else it holds: the state is the one that the removal
/// alone would have given.
pub proof fn lemma_add_then_remove(state: StoreView, item: PortfolioItemView)
    ensures
        !holds(
            transition(
                transition(state, StoreActionView::AddToPortfolio(item)),
                StoreActionView::RemoveFromPortfolio(item.crypto_id),
            ).portfolio,
            item.crypto_id,
        ),
        transition(
            transition(state, StoreActionView::AddToPortfolio(item)),
            StoreActionView::RemoveFromPortfolio(item.crypto_id),
        ) == transition(state, StoreActionView::RemoveFromPortfolio(item.crypto_id)),
{
    lemma_without_after_added(state.portfolio, item);
    lemma_without_is_not_held(state.portfolio, item.crypto_id);
}

/// Updating the holding of an asset that the portfolio does not hold changes
/// nothing.
pub proof fn lemma_update_when_absent(state: StoreView, item: PortfolioItemView)
    requires
        !holds(state.portfolio, item.crypto_id),
    ensures
        transition(state, StoreActionView::UpdatePortfolioItem(item)) == state,
{
    lemma_updated_when_absent(state.portfolio, item);
}

/// An error that is set after a clearing is the error of the state, and the
/// next clearing removes it again.
pub proof fn lemma_error_round_trip(state: StoreView, message: Seq<char>)
    ensures
        transition(
            transition(state, StoreActionView::ClearError),
            StoreActionView::SetError(message),
        ).error == Some(message),
        transition(
            transition(
                transition(state, StoreActionView::ClearError),
                StoreActionView::SetError(message),
            ),
            StoreActionView::ClearError,
        ).error.is_none(),
{
}

} // verus!
