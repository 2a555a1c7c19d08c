//! The application store: state, actions and the transition between them.
//!
//! `transition` says what each action does to the state, `portfolio` what the
//! three portfolio actions do to the list of holdings. `dispatch` holds the
//! decisions around the market data gateway, `valuation` the pairing of
//! holdings with prices.

pub mod portfolio;
pub mod transition;
pub mod dispatch;
pub mod valuation;

use vstd::prelude::*;
use crate::models::crypto::{Cryptocurrency, PortfolioItem};
use crate::store::portfolio::{add_holding, remove_holding, replace_holding};
use crate::store::transition::{
    lemma_transition_keeps_well_formed, transition, StoreActionView, StoreView,
};

verus! {

/// Everything the views read: the asset list, the portfolio, the selected
/// asset, the loading flag and the last error.
///
/// A store is well formed when its portfolio has at most one holding per
/// asset. `new` gives such a store and every action keeps it so. The fields
/// are open: a store put together by hand may hold an asset twice, and every
/// function still does on it what its contract says.
#[derive(Debug, PartialEq, Eq)]
pub struct Store {
    pub cryptocurrencies: Vec<Cryptocurrency>,
    pub portfolio: Vec<PortfolioItem>,
    pub selected_cryptocurrency: Option<Cryptocurrency>,
    pub loading: bool,
    pub error: Option<String>,
}

impl View for Store {
    type V = StoreView;

    open spec fn view(&self) -> StoreView {
        StoreView {
            cryptocurrencies: self.cryptocurrencies.deep_view(),
            portfolio: self.portfolio.deep_view(),
            selected_cryptocurrency: self.selected_cryptocurrency.deep_view(),
            loading: self.loading,
            error: self.error.deep_view(),
        }
    }
}

impl Clone for Store {
    fn clone(&self) -> (copy: Self)
        ensures
            copy@ == self@,
    {
        Store {
            cryptocurrencies: self.cryptocurrencies.clone(),
            portfolio: self.portfolio.clone(),
            selected_cryptocurrency: match &self.selected_cryptocurrency {
                Some(cryptocurrency) => Some(cryptocurrency.clone()),
                None => None,
            },
            loading: self.loading,
            error: match &self.error {
                Some(message) => Some(message.clone()),
                None => None,
            },
        }
    }
}

impl Store {
    /// The store before any action.
    pub fn new() -> (store: Self)
        ensures
            store@ == StoreView::initial(),
            store@.well_formed(),
    {
        let store = Self {
            cryptocurrencies: Vec::new(),
            portfolio: Vec::new(),
            selected_cryptocurrency: None,
            loading: false,
            error: None,
        };
        assert(store@.cryptocurrencies =~= Seq::empty());
        assert(store@.portfolio =~= Seq::empty());
        store
    }
}

/// A request for a change of state.
#[derive(Debug, PartialEq, Eq)]
pub enum StoreAction {
    /// A fetch of the asset list starts.
    FetchCryptocurrencies,
    /// The asset list arrived.
    SetCryptocurrencies(Vec<Cryptocurrency>),
    /// A fetch of the detail of the asset with this identifier starts.
    FetchCryptocurrencyDetails(String),
    /// The detail of an asset arrived.
    SetSelectedCryptocurrency(Cryptocurrency),
    /// Add a holding, unless the asset is held already.
    AddToPortfolio(PortfolioItem),
    /// Remove the holding of the asset with this identifier.
    RemoveFromPortfolio(String),
    /// Put this holding in the place of the one of the same asset.
    UpdatePortfolioItem(PortfolioItem),
    /// A save of the portfolio starts.
    SavePortfolio,
    /// An operation failed with this message.
    SetError(String),
    /// Forget the last error.
    ClearError,
    /// Set the loading flag.
    SetLoading(bool),
}

impl View for StoreAction {
    type V = StoreActionView;

    open spec fn view(&self) -> StoreActionView {
        match self {
            StoreAction::FetchCryptocurrencies => StoreActionView::FetchCryptocurrencies,
            StoreAction::SetCryptocurrencies(cryptocurrencies) => StoreActionView::SetCryptocurrencies(
                cryptocurrencies.deep_view(),
            ),
            StoreAction::FetchCryptocurrencyDetails(id) => StoreActionView::FetchCryptocurrencyDetails(
                id@,
            ),
            StoreAction::SetSelectedCryptocurrency(cryptocurrency) => StoreActionView::SetSelectedCryptocurrency(
                cryptocurrency@,
            ),
            StoreAction::AddToPortfolio(item) => StoreActionView::AddToPortfolio(item@),
            StoreAction::RemoveFromPortfolio(id) => StoreActionView::RemoveFromPortfolio(id@),
            StoreAction::UpdatePortfolioItem(item) => StoreActionView::UpdatePortfolioItem(item@),
            StoreAction::SavePortfolio => StoreActionView::SavePortfolio,
            StoreAction::SetError(message) => StoreActionView::SetError(message@),
            StoreAction::ClearError => StoreActionView::ClearError,
            StoreAction::SetLoading(loading) => StoreActionView::SetLoading(*loading),
        }
    }
}

impl Clone for StoreAction {
    fn clone(&self) -> (copy: Self)
        ensures
            copy@ == self@,
    {
        match self {
            StoreAction::FetchCryptocurrencies => StoreAction::FetchCryptocurrencies,
            StoreAction::SetCryptocurrencies(cryptocurrencies) => StoreAction::SetCryptocurrencies(
                cryptocurrencies.clone(),
            ),
            StoreAction::FetchCryptocurrencyDetails(id) => StoreAction::FetchCryptocurrencyDetails(
                id.clone(),
            ),
            StoreAction::SetSelectedCryptocurrency(cryptocurrency) => StoreAction::SetSelectedCryptocurrency(
                cryptocurrency.clone(),
            ),
            StoreAction::AddToPortfolio(item) => StoreAction::AddToPortfolio(item.clone()),
            StoreAction::RemoveFromPortfolio(id) => StoreAction::RemoveFromPortfolio(id.clone()),
            StoreAction::UpdatePortfolioItem(item) => StoreAction::UpdatePortfolioItem(item.clone()),
            StoreAction::SavePortfolio => StoreAction::SavePortfolio,
            StoreAction::SetError(message) => StoreAction::SetError(message.clone()),
            StoreAction::ClearError => StoreAction::ClearError,
            StoreAction::SetLoading(loading) => StoreAction::SetLoading(*loading),
        }
    }
}

/// The state that the reducer steps: a store.
#[derive(Debug, PartialEq, Eq)]
pub struct StoreState {
    pub store: Store,
}

impl View for StoreState {
    type V = StoreView;

    open spec fn view(&self) -> StoreView {
        self.store@
    }
}

impl Clone for StoreState {
    fn clone(&self) -> (copy: Self)
        ensures
            copy@ == self@,
    {
        StoreState { store: self.store.clone() }
    }
}

impl Default for StoreState {
    fn default() -> (state: Self)
        ensures
            state@ == StoreView::initial(),
            state@.well_formed(),
    {
        Self { store: Store::new() }
    }
}

impl StoreState {
    /// Computes the state that follows this one under `action`. This state
    /// is left as it is; the next one is a value of its own.
    pub fn reduce(&self, action: StoreAction) -> (next: StoreState)
        ensures
            next@ == transition(self@, action@),
            self@.well_formed() ==> next@.well_formed(),
    {
        proof {
            if self@.well_formed() {
                lemma_transition_keeps_well_formed(self@, action@);
            }
        }
        let mut store = self.store.clone();
        match action {
            StoreAction::FetchCryptocurrencies => {
                store.loading = true;
                store.error = None;
            },
            StoreAction::SetCryptocurrencies(cryptocurrencies) => {
                store.cryptocurrencies = cryptocurrencies;
                store.loading = false;
            },
            StoreAction::FetchCryptocurrencyDetails(_) => {
                store.loading = true;
                store.error = None;
            },
            StoreAction::SetSelectedCryptocurrency(cryptocurrency) => {
                store.selected_cryptocurrency = Some(cryptocurrency);
                store.loading = false;
            },
            StoreAction::AddToPortfolio(item) => {
                add_holding(&mut store.portfolio, item);
            },
            StoreAction::RemoveFromPortfolio(crypto_id) => {
                store.portfolio = remove_holding(store.portfolio, &crypto_id);
            },
            StoreAction::UpdatePortfolioItem(updated_item) => {
                replace_holding(&mut store.portfolio, updated_item);
            },
            StoreAction::SavePortfolio => {
                store.loading = true;
            },
            StoreAction::SetError(error) => {
                store.error = Some(error);
                store.loading = false;
            },
            StoreAction::ClearError => {
                store.error = None;
            },
            StoreAction::SetLoading(loading) => {
                store.loading = loading;
            },
        }
        StoreState { store }
    }
}

} // verus!
