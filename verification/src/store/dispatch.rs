//! The decisions of the dispatcher that stands between the views and the
//! market data gateway.
//!
//! A view hands the dispatcher one action at a time. Three kinds of action
//! stand for work of the gateway, and for each the dispatcher names the
//! request to make. A fetch, of the list or of a detail, changes nothing when
//! it is dispatched: the loading flag stays as it was. A save is applied
//! first, which raises the loading flag, and then asks for its request. Every
//! other action is applied to the state at once and asks for nothing. When the
//! gateway has answered, its reply is turned into the action that records it,
//! and that action is applied like any other.
//!
//! Whoever runs the gateway performs the requests and brings back the replies;
//! nothing here waits or retries.

use vstd::prelude::*;
use crate::models::crypto::{Cryptocurrency, CryptocurrencyView, PortfolioItem, PortfolioItemView};
use crate::store::{Store, StoreAction, StoreState};
use crate::store::transition::{transition, StoreActionView, StoreView};

verus! {

/// One operation of the market data gateway, with what it is given.
#[derive(Debug, PartialEq, Eq)]
pub enum GatewayRequest {
    /// List the assets.
    Cryptocurrencies,
    /// Give the detail of the asset with this identifier.
    CryptocurrencyDetails(String),
    /// Save these holdings.
    UpdatePortfolio(Vec<PortfolioItem>),
}

/// What a `GatewayRequest` is to the contracts.
pub enum GatewayRequestView {
    Cryptocurrencies,
    CryptocurrencyDetails(Seq<char>),
    UpdatePortfolio(Seq<PortfolioItemView>),
}

impl View for GatewayRequest {
    type V = GatewayRequestView;

    open spec fn view(&self) -> GatewayRequestView {
        match self {
            GatewayRequest::Cryptocurrencies => GatewayRequestView::Cryptocurrencies,
            GatewayRequest::CryptocurrencyDetails(id) => GatewayRequestView::CryptocurrencyDetails(
                id@,
            ),
            GatewayRequest::UpdatePortfolio(portfolio) => GatewayRequestView::UpdatePortfolio(
                portfolio.deep_view(),
            ),
        }
    }
}

impl DeepView for GatewayRequest {
    type V = GatewayRequestView;

    open spec fn deep_view(&self) -> GatewayRequestView {
        self.view()
    }
}

/// How the gateway answered a request.
#[derive(Debug, PartialEq, Eq)]
pub enum GatewayReply {
    /// The asset list.
    Cryptocurrencies(Vec<Cryptocurrency>),
    /// The detail of one asset.
    CryptocurrencyDetails(Cryptocurrency),
    /// The holdings as the gateway saved them.
    PortfolioUpdated(Vec<PortfolioItem>),
    /// The request was rejected, with a message to show.
    Failed(String),
}

/// What a `GatewayReply` is to the contracts.
pub enum GatewayReplyView {
    Cryptocurrencies(Seq<CryptocurrencyView>),
    CryptocurrencyDetails(CryptocurrencyView),
    PortfolioUpdated(Seq<PortfolioItemView>),
    Failed(Seq<char>),
}

impl View for GatewayReply {
    type V = GatewayReplyView;

    open spec fn view(&self) -> GatewayReplyView {
        match self {
            GatewayReply::Cryptocurrencies(cryptocurrencies) => GatewayReplyView::Cryptocurrencies(
                cryptocurrencies.deep_view(),
            ),
            GatewayReply::CryptocurrencyDetails(cryptocurrency) => GatewayReplyView::CryptocurrencyDetails(
                cryptocurrency@,
            ),
            GatewayReply::PortfolioUpdated(portfolio) => GatewayReplyView::PortfolioUpdated(
                portfolio.deep_view(),
            ),
            GatewayReply::Failed(message) => GatewayReplyView::Failed(message@),
        }
    }
}

/// What the dispatcher does with an action.
#[derive(Debug, PartialEq, Eq)]
pub enum Dispatch {
    /// Apply this action to the state now; there is no request to make.
    Apply(StoreAction),
    /// Leave the state as it is and make this request.
    Call(GatewayRequest),
    /// Apply this action to the state now, then make this request.
    ApplyThenCall(StoreAction, GatewayRequest),
}

/// What a `Dispatch` is to the contracts.
pub enum DispatchView {
    Apply(StoreActionView),
    Call(GatewayRequestView),
    ApplyThenCall(StoreActionView, GatewayRequestView),
}

impl View for Dispatch {
    type V = DispatchView;

    open spec fn view(&self) -> DispatchView {
        match self {
            Dispatch::Apply(action) => DispatchView::Apply(action@),
            Dispatch::Call(request) => DispatchView::Call(request@),
            Dispatch::ApplyThenCall(action, request) => DispatchView::ApplyThenCall(
                action@,
                request@,
            ),
        }
    }
}

/// What the dispatcher does with `action` in `state`.
///
/// A fetch of the list or of a detail becomes the request of that name and
/// nothing is applied. A save is applied and becomes the request that carries
/// the portfolio as it stands. Any other action is applied and no request is
/// made.
pub open spec fn planned(state: StoreView, action: StoreActionView) -> DispatchView {
    match action {
        StoreActionView::FetchCryptocurrencies => DispatchView::Call(
            GatewayRequestView::Cryptocurrencies,
        ),
        StoreActionView::FetchCryptocurrencyDetails(id) => DispatchView::Call(
            GatewayRequestView::CryptocurrencyDetails(id),
        ),
        StoreActionView::SavePortfolio => DispatchView::ApplyThenCall(
            StoreActionView::SavePortfolio,
            GatewayRequestView::UpdatePortfolio(state.portfolio),
        ),
        _ => DispatchView::Apply(action),
    }
}

/// The state in which dispatching `action` leaves `state`, before any reply.
pub open spec fn dispatched(state: StoreView, action: StoreActionView) -> StoreView {
    match planned(state, action) {
        DispatchView::Apply(applied) => transition(state, applied),
        DispatchView::Call(_) => state,
        DispatchView::ApplyThenCall(applied, _) => transition(state, applied),
    }
}

/// The request that dispatching `action` in `state` asks for, if any.
pub open spec fn requested(state: StoreView, action: StoreActionView) -> Option<
    GatewayRequestView,
> {
    match planned(state, action) {
        DispatchView::Apply(_) => None,
        DispatchView::Call(request) => Some(request),
        DispatchView::ApplyThenCall(_, request) => Some(request),
    }
}

/// The action that records `reply`: a list or a detail is stored, a saved
/// portfolio ends the loading (what the gateway sent back is not read), a
/// rejection becomes the error.
pub open spec fn follow_up(reply: GatewayReplyView) -> StoreActionView {
    match reply {
        GatewayReplyView::Cryptocurrencies(cryptocurrencies) => StoreActionView::SetCryptocurrencies(
            cryptocurrencies,
        ),
        GatewayReplyView::CryptocurrencyDetails(cryptocurrency) => StoreActionView::SetSelectedCryptocurrency(
            cryptocurrency,
        ),
        GatewayReplyView::PortfolioUpdated(_) => StoreActionView::SetLoading(false),
        GatewayReplyView::Failed(message) => StoreActionView::SetError(message),
    }
}

/// Dispatching a fetch of the list, a fetch of a detail or a save asks for a
/// request, and dispatching any other action asks for none. A fetch leaves
/// the state as it was, loading flag included. Every other action, the save
/// among them, is applied: after a save is dispatched the loading flag is up,
/// the error is the one there was, and the request carries the portfolio.
pub proof fn lemma_dispatch_of_request(state: StoreView, action: StoreActionView)
    ensures
        requested(state, action) is Some <==> (action is FetchCryptocurrencies || action
            is FetchCryptocurrencyDetails || action is SavePortfolio),
        (action is FetchCryptocurrencies || action is FetchCryptocurrencyDetails) ==> dispatched(
            state,
            action,
        ) == state,
        !(action is FetchCryptocurrencies || action is FetchCryptocurrencyDetails) ==> dispatched(
            state,
            action,
        ) == transition(state, action),
        dispatched(state, StoreActionView::SavePortfolio) == (StoreView { loading: true, ..state }),
        requested(state, StoreActionView::SavePortfolio) == Some(
            GatewayRequestView::UpdatePortfolio(state.portfolio),
        ),
{
}

/// A save that is dispatched and then answered ends with the loading flag
/// down, whatever the flag was before and whatever the answer is; between the
/// two the flag is up.
pub proof fn lemma_save_raises_then_reply_lowers(state: StoreView, reply: GatewayReplyView)
    ensures
        dispatched(state, StoreActionView::SavePortfolio).loading,
        !transition(dispatched(state, StoreActionView::SavePortfolio), follow_up(reply)).loading,
        transition(dispatched(state, StoreActionView::SavePortfolio), follow_up(reply)).portfolio
            == state.portfolio,
{
}

/// Recording a reply of the gateway, whichever it is, ends the loading and
/// leaves the portfolio as it is. A rejection leaves its message as the error
/// and undoes nothing: list, selection and portfolio stay. Any other reply
/// leaves the error as it was.
pub proof fn lemma_reply_ends_loading(state: StoreView, reply: GatewayReplyView)
    ensures
        !transition(state, follow_up(reply)).loading,
        transition(state, follow_up(reply)).portfolio == state.portfolio,
        reply matches GatewayReplyView::Failed(message) ==> transition(state, follow_up(reply)) == (
        StoreView { error: Some(message), loading: false, ..state }),
        !(reply is Failed) ==> transition(state, follow_up(reply)).error == state.error,
{
}

/// Of two details recorded one after the other, the one recorded last is the
/// one selected, whichever was asked for first.
pub proof fn lemma_last_detail_wins(
    state: StoreView,
    earlier: CryptocurrencyView,
    later: CryptocurrencyView,
)
    ensures
        transition(
            transition(state, follow_up(GatewayReplyView::CryptocurrencyDetails(earlier))),
            follow_up(GatewayReplyView::CryptocurrencyDetails(later)),
        ).selected_cryptocurrency == Some(later),
{
}

impl Store {
    /// Decides what to do with `action`: apply it, make a request of the
    /// gateway and leave the state alone, or apply it and then make a request.
    pub fn plan(&self, action: StoreAction) -> (decision: Dispatch)
        ensures
            decision@ == planned(self@, action@),
    {
        match action {
            StoreAction::FetchCryptocurrencies => Dispatch::Call(GatewayRequest::Cryptocurrencies),
            StoreAction::FetchCryptocurrencyDetails(id) => Dispatch::Call(
                GatewayRequest::CryptocurrencyDetails(id),
            ),
            StoreAction::SavePortfolio => Dispatch::ApplyThenCall(
                StoreAction::SavePortfolio,
                GatewayRequest::UpdatePortfolio(self.portfolio.clone()),
            ),
            other => Dispatch::Apply(other),
        }
    }
}

impl GatewayReply {
    /// Turns the reply into the action that records it.
    pub fn into_action(self) -> (action: StoreAction)
        ensures
            action@ == follow_up(self@),
    {
        match self {
            GatewayReply::Cryptocurrencies(cryptocurrencies) => StoreAction::SetCryptocurrencies(
                cryptocurrencies,
            ),
            GatewayReply::CryptocurrencyDetails(cryptocurrency) => StoreAction::SetSelectedCryptocurrency(
                cryptocurrency,
            ),
            GatewayReply::PortfolioUpdated(_) => StoreAction::SetLoading(false),
            GatewayReply::Failed(message) => StoreAction::SetError(message),
        }
    }
}

impl StoreState {
    /// Dispatches `action`: returns the state after it and the request to
    /// make of the gateway, if the action stands for one.
    ///
    /// A fetch leaves the state as it was: the loading flag in particular is
    /// not raised. A save is applied, so the state returned has the loading
    /// flag up. Every other action is applied and comes with no request.
    pub fn dispatch(&self, action: StoreAction) -> (outcome: (StoreState, Option<GatewayRequest>))
        ensures
            outcome.0@ == dispatched(self@, action@),
            outcome.1.deep_view() == requested(self@, action@),
            self@.well_formed() ==> outcome.0@.well_formed(),
    {
        match self.store.plan(action) {
            Dispatch::Apply(applied) => (self.reduce(applied), None),
            Dispatch::Call(request) => (self.clone(), Some(request)),
            Dispatch::ApplyThenCall(applied, request) => (self.reduce(applied), Some(request)),
        }
    }

    /// Records a reply of the gateway: returns the state after the action
    /// that the reply turns into.
    pub fn settle(&self, reply: GatewayReply) -> (next: StoreState)
        ensures
            next@ == transition(self@, follow_up(reply@)),
            self@.well_formed() ==> next@.well_formed(),
    {
        self.reduce(reply.into_action())
    }
}

} // verus!
