use crypto_tracker::models::crypto::{Cryptocurrency, Number, PortfolioItem};
use crypto_tracker::store::valuation::{find_cryptocurrency, PricedHolding};
use crypto_tracker::store::{Store, StoreAction, StoreState};

fn num(x: f64) -> Number {
    Number { bits: x.to_bits() }
}

fn asset(id: &str, price: f64) -> Cryptocurrency {
    Cryptocurrency {
        id: id.to_string(),
        name: id.to_uppercase(),
        symbol: id.to_uppercase(),
        price: num(price),
        market_cap: num(1245678900000.0),
        volume_24h: num(45678900000.0),
        price_change_24h: num(2.34),
    }
}

fn holding(id: &str, amount: f64) -> PortfolioItem {
    PortfolioItem { crypto_id: id.to_string(), amount: num(amount) }
}

fn store_with(cryptocurrencies: Vec<Cryptocurrency>, portfolio: Vec<PortfolioItem>) -> Store {
    let mut store = Store::new();
    store.cryptocurrencies = cryptocurrencies;
    store.portfolio = portfolio;
    store
}

fn term(amount: f64, price: f64) -> PricedHolding {
    PricedHolding { amount: num(amount), price: num(price) }
}

fn total(store: &Store) -> f64 {
    store
        .priced_holdings()
        .iter()
        .map(|t| f64::from_bits(t.price.bits) * f64::from_bits(t.amount.bits))
        .sum()
}

#[test]
fn two_bitcoin_at_one_hundred_are_worth_two_hundred() {
    let store = store_with(vec![asset("bitcoin", 100.0)], vec![holding("bitcoin", 2.0)]);
    assert_eq!(store.priced_holdings(), vec![term(2.0, 100.0)]);
    assert_eq!(total(&store), 200.0);
}

#[test]
fn value_comes_out_through_the_state_as_well() {
    let state = StoreState::default()
        .reduce(StoreAction::SetCryptocurrencies(vec![asset("bitcoin", 100.0)]))
        .reduce(StoreAction::AddToPortfolio(holding("bitcoin", 2.0)));
    assert_eq!(total(&state.store), 200.0);
}

#[test]
fn holding_of_an_unlisted_asset_adds_nothing() {
    let store = store_with(
        vec![asset("bitcoin", 100.0)],
        vec![holding("dogecoin", 1000.0), holding("bitcoin", 2.0), holding("eth", 3.0)],
    );
    assert_eq!(store.priced_holdings(), vec![term(2.0, 100.0)]);
    assert_eq!(total(&store), 200.0);
}

#[test]
fn only_unlisted_holdings_are_worth_nothing() {
    let store = store_with(vec![asset("bitcoin", 100.0)], vec![holding("eth", 3.0)]);
    assert_eq!(store.priced_holdings(), vec![]);
    assert_eq!(total(&store), 0.0);
}

#[test]
fn empty_portfolio_is_worth_nothing() {
    let store = store_with(vec![asset("bitcoin", 100.0)], vec![]);
    assert_eq!(store.priced_holdings(), vec![]);
    assert_eq!(total(&store), 0.0);
}

#[test]
fn empty_asset_list_prices_nothing() {
    let store = store_with(vec![], vec![holding("bitcoin", 2.0)]);
    assert_eq!(store.priced_holdings(), vec![]);
    assert_eq!(total(&Store::new()), 0.0);
}

#[test]
fn terms_follow_the_order_of_the_holdings() {
    let store = store_with(
        vec![asset("bitcoin", 63542.87), asset("ethereum", 3421.65), asset("solana", 189.32)],
        vec![holding("solana", 10.0), holding("bitcoin", 0.5), holding("ethereum", 2.0)],
    );
    assert_eq!(
        store.priced_holdings(),
        vec![term(10.0, 189.32), term(0.5, 63542.87), term(2.0, 3421.65)]
    );
    assert_eq!(total(&store), 189.32 * 10.0 + 63542.87 * 0.5 + 3421.65 * 2.0);
}

#[test]
fn negative_amount_is_priced_like_any_other() {
    let store = store_with(vec![asset("bitcoin", 100.0)], vec![holding("bitcoin", -1.5)]);
    assert_eq!(store.priced_holdings(), vec![term(-1.5, 100.0)]);
    assert_eq!(total(&store), -150.0);
}

#[test]
fn last_listing_of_an_identifier_gives_the_price() {
    let store = store_with(
        vec![asset("bitcoin", 100.0), asset("eth", 5.0), asset("bitcoin", 300.0)],
        vec![holding("bitcoin", 2.0)],
    );
    assert_eq!(store.priced_holdings(), vec![term(2.0, 300.0)]);
    assert_eq!(total(&store), 600.0);
}

#[test]
fn every_holding_of_a_listed_asset_is_priced() {
    let store = store_with(
        vec![asset("bitcoin", 100.0)],
        vec![holding("bitcoin", 2.0), holding("bitcoin", 3.0)],
    );
    assert_eq!(store.priced_holdings(), vec![term(2.0, 100.0), term(3.0, 100.0)]);
}

#[test]
fn find_cryptocurrency_gives_the_last_place() {
    let assets = vec![asset("bitcoin", 1.0), asset("eth", 2.0), asset("bitcoin", 3.0)];
    assert_eq!(find_cryptocurrency(&assets, &"bitcoin".to_string()), Some(2));
    assert_eq!(find_cryptocurrency(&assets, &"eth".to_string()), Some(1));
    assert_eq!(find_cryptocurrency(&assets, &"solana".to_string()), None);
    assert_eq!(find_cryptocurrency(&Vec::new(), &"eth".to_string()), None);
}

#[test]
fn value_is_recomputed_from_the_current_state() {
    let state = StoreState::default()
        .reduce(StoreAction::SetCryptocurrencies(vec![asset("bitcoin", 100.0)]))
        .reduce(StoreAction::AddToPortfolio(holding("bitcoin", 2.0)));
    assert_eq!(total(&state.store), 200.0);
    let state = state.reduce(StoreAction::SetCryptocurrencies(vec![asset("bitcoin", 150.0)]));
    assert_eq!(total(&state.store), 300.0);
    let state = state.reduce(StoreAction::UpdatePortfolioItem(holding("bitcoin", 4.0)));
    assert_eq!(total(&state.store), 600.0);
    let state = state.reduce(StoreAction::SetCryptocurrencies(vec![]));
    assert_eq!(total(&state.store), 0.0);
}
