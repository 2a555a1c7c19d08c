use crypto_tracker::models::crypto::{Cryptocurrency, Number, PortfolioItem};
use crypto_tracker::store::dispatch::{Dispatch, GatewayReply, GatewayRequest};
use crypto_tracker::store::{StoreAction, StoreState};

fn num(x: f64) -> Number {
    Number { bits: x.to_bits() }
}

fn asset(id: &str, price: f64) -> Cryptocurrency {
    Cryptocurrency {
        id: id.to_string(),
        name: id.to_uppercase(),
        symbol: id.to_uppercase(),
        price: num(price),
        market_cap: num(0.0),
        volume_24h: num(0.0),
        price_change_24h: num(0.0),
    }
}

fn holding(id: &str, amount: f64) -> PortfolioItem {
    PortfolioItem { crypto_id: id.to_string(), amount: num(amount) }
}

fn state_with(portfolio: Vec<PortfolioItem>) -> StoreState {
    let mut state = StoreState::default();
    state.store.portfolio = portfolio;
    state
}

#[test]
fn rejected_list_fetch_sets_error_and_lowers_loading() {
    let state = StoreState::default();
    let (state, request) = state.dispatch(StoreAction::FetchCryptocurrencies);
    assert_eq!(request, Some(GatewayRequest::Cryptocurrencies));
    let state = state.settle(GatewayReply::Failed("network down".to_string()));
    assert_eq!(state.store.error, Some("network down".to_string()));
    assert!(!state.store.loading);
}

#[test]
fn rejected_list_fetch_after_loading_was_raised() {
    let state = StoreState::default().reduce(StoreAction::SetLoading(true));
    let (state, _) = state.dispatch(StoreAction::FetchCryptocurrencies);
    assert!(state.store.loading);
    let state = state.settle(GatewayReply::Failed("network down".to_string()));
    assert_eq!(state.store.error, Some("network down".to_string()));
    assert!(!state.store.loading);
}

#[test]
fn dispatching_a_list_fetch_does_not_raise_loading() {
    let mut before = state_with(vec![holding("eth", 1.0)]);
    before.store.error = Some("old".to_string());
    let (after, request) = before.dispatch(StoreAction::FetchCryptocurrencies);
    assert_eq!(request, Some(GatewayRequest::Cryptocurrencies));
    assert!(!after.store.loading);
    assert_eq!(after.store.error, Some("old".to_string()));
    assert_eq!(after, before);
}

#[test]
fn dispatching_a_detail_fetch_names_the_asset_and_changes_nothing() {
    let before = state_with(vec![holding("eth", 1.0)]);
    let (after, request) = before.dispatch(StoreAction::FetchCryptocurrencyDetails("solana".to_string()));
    assert_eq!(request, Some(GatewayRequest::CryptocurrencyDetails("solana".to_string())));
    assert!(!after.store.loading);
    assert_eq!(after, before);
}

#[test]
fn dispatching_a_save_raises_loading_and_carries_the_portfolio() {
    let before = state_with(vec![holding("eth", 1.0), holding("bitcoin", 2.0)]);
    assert!(!before.store.loading);
    let (after, request) = before.dispatch(StoreAction::SavePortfolio);
    assert_eq!(
        request,
        Some(GatewayRequest::UpdatePortfolio(vec![holding("eth", 1.0), holding("bitcoin", 2.0)]))
    );
    assert!(after.store.loading);
    assert_eq!(after, before.reduce(StoreAction::SavePortfolio));
    assert_eq!(after.store.portfolio, before.store.portfolio);
}

#[test]
fn dispatching_a_save_keeps_the_error() {
    let mut before = state_with(vec![holding("eth", 1.0)]);
    before.store.error = Some("old".to_string());
    let (after, _) = before.dispatch(StoreAction::SavePortfolio);
    assert!(after.store.loading);
    assert_eq!(after.store.error, Some("old".to_string()));
}

#[test]
fn save_raises_loading_where_the_fetches_do_not() {
    let before = StoreState::default();
    let (after_list, _) = before.dispatch(StoreAction::FetchCryptocurrencies);
    let (after_detail, _) = before.dispatch(StoreAction::FetchCryptocurrencyDetails("eth".to_string()));
    let (after_save, _) = before.dispatch(StoreAction::SavePortfolio);
    assert!(!after_list.store.loading);
    assert!(!after_detail.store.loading);
    assert!(after_save.store.loading);
}

#[test]
fn save_after_add_carries_the_added_holding() {
    let (state, none) = StoreState::default().dispatch(StoreAction::AddToPortfolio(holding("eth", 1.0)));
    assert_eq!(none, None);
    let (_, request) = state.dispatch(StoreAction::SavePortfolio);
    assert_eq!(request, Some(GatewayRequest::UpdatePortfolio(vec![holding("eth", 1.0)])));
}

#[test]
fn other_actions_are_applied_at_once() {
    let before = state_with(vec![holding("eth", 1.0)]);
    let actions = vec![
        StoreAction::SetCryptocurrencies(vec![asset("eth", 10.0)]),
        StoreAction::SetSelectedCryptocurrency(asset("eth", 10.0)),
        StoreAction::AddToPortfolio(holding("bitcoin", 2.0)),
        StoreAction::RemoveFromPortfolio("eth".to_string()),
        StoreAction::UpdatePortfolioItem(holding("eth", 3.0)),
        StoreAction::SetError("e".to_string()),
        StoreAction::ClearError,
        StoreAction::SetLoading(true),
    ];
    for action in actions {
        let (after, request) = before.dispatch(action.clone());
        assert_eq!(request, None);
        assert_eq!(after, before.reduce(action));
    }
}

#[test]
fn plan_applies_or_calls() {
    let state = state_with(vec![holding("eth", 1.0)]);
    assert_eq!(
        state.store.plan(StoreAction::FetchCryptocurrencies),
        Dispatch::Call(GatewayRequest::Cryptocurrencies)
    );
    assert_eq!(
        state.store.plan(StoreAction::FetchCryptocurrencyDetails("eth".to_string())),
        Dispatch::Call(GatewayRequest::CryptocurrencyDetails("eth".to_string()))
    );
    assert_eq!(
        state.store.plan(StoreAction::SavePortfolio),
        Dispatch::ApplyThenCall(
            StoreAction::SavePortfolio,
            GatewayRequest::UpdatePortfolio(vec![holding("eth", 1.0)])
        )
    );
    assert_eq!(state.store.plan(StoreAction::ClearError), Dispatch::Apply(StoreAction::ClearError));
    assert_eq!(
        state.store.plan(StoreAction::SetLoading(true)),
        Dispatch::Apply(StoreAction::SetLoading(true))
    );
}

#[test]
fn replies_turn_into_their_actions() {
    let list = vec![asset("eth", 10.0), asset("bitcoin", 20.0)];
    assert_eq!(
        GatewayReply::Cryptocurrencies(list.clone()).into_action(),
        StoreAction::SetCryptocurrencies(list)
    );
    assert_eq!(
        GatewayReply::CryptocurrencyDetails(asset("eth", 10.0)).into_action(),
        StoreAction::SetSelectedCryptocurrency(asset("eth", 10.0))
    );
    assert_eq!(
        GatewayReply::PortfolioUpdated(vec![holding("eth", 1.0)]).into_action(),
        StoreAction::SetLoading(false)
    );
    assert_eq!(
        GatewayReply::Failed("Cryptocurrency not found".to_string()).into_action(),
        StoreAction::SetError("Cryptocurrency not found".to_string())
    );
}

#[test]
fn successful_list_fetch_stores_the_list() {
    let state = StoreState::default().reduce(StoreAction::SetLoading(true));
    let (state, _) = state.dispatch(StoreAction::FetchCryptocurrencies);
    let list = vec![asset("eth", 10.0), asset("bitcoin", 20.0)];
    let state = state.settle(GatewayReply::Cryptocurrencies(list.clone()));
    assert_eq!(state.store.cryptocurrencies, list);
    assert!(!state.store.loading);
    assert_eq!(state.store.error, None);
}

#[test]
fn successful_detail_fetch_selects_the_asset() {
    let (state, _) = StoreState::default().dispatch(StoreAction::FetchCryptocurrencyDetails("eth".to_string()));
    let state = state.settle(GatewayReply::CryptocurrencyDetails(asset("eth", 10.0)));
    assert_eq!(state.store.selected_cryptocurrency, Some(asset("eth", 10.0)));
    assert!(!state.store.loading);
}

#[test]
fn later_detail_reply_wins() {
    let state = StoreState::default();
    let (state, _) = state.dispatch(StoreAction::FetchCryptocurrencyDetails("eth".to_string()));
    let (state, _) = state.dispatch(StoreAction::FetchCryptocurrencyDetails("bitcoin".to_string()));
    let state = state.settle(GatewayReply::CryptocurrencyDetails(asset("bitcoin", 20.0)));
    let state = state.settle(GatewayReply::CryptocurrencyDetails(asset("eth", 10.0)));
    assert_eq!(state.store.selected_cryptocurrency, Some(asset("eth", 10.0)));
}

#[test]
fn successful_save_lowers_loading_and_ignores_what_came_back() {
    let (pending, request) = state_with(vec![holding("eth", 1.0)]).dispatch(StoreAction::SavePortfolio);
    assert_eq!(request, Some(GatewayRequest::UpdatePortfolio(vec![holding("eth", 1.0)])));
    assert!(pending.store.loading);
    let after = pending.settle(GatewayReply::PortfolioUpdated(vec![holding("bitcoin", 9.0)]));
    assert!(!after.store.loading);
    assert_eq!(after.store.portfolio, vec![holding("eth", 1.0)]);
}

#[test]
fn failed_save_keeps_the_local_portfolio() {
    let (state, _) = StoreState::default().dispatch(StoreAction::AddToPortfolio(holding("eth", 1.0)));
    let (state, _) = state.dispatch(StoreAction::SavePortfolio);
    assert!(state.store.loading);
    let state = state.settle(GatewayReply::Failed("disk full".to_string()));
    assert_eq!(state.store.portfolio, vec![holding("eth", 1.0)]);
    assert_eq!(state.store.error, Some("disk full".to_string()));
    assert!(!state.store.loading);
}

#[test]
fn error_is_cleared_by_the_next_fetch_transition() {
    let state = StoreState::default().settle(GatewayReply::Failed("network down".to_string()));
    let state = state.reduce(StoreAction::FetchCryptocurrencies);
    assert_eq!(state.store.error, None);
    assert!(state.store.loading);
}
