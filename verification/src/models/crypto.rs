//! Assets and holdings, with the views that the contracts speak of.

use vstd::prelude::*;

verus! {

/// A binary64 quantity (a price, an amount, a percentage), carried by its
/// IEEE 754 bit pattern.
///
/// The library stores and moves such numbers and never computes with them;
/// two numbers are equal when their bit patterns are.
#[derive(Clone, Copy, Debug, PartialEq, Eq)]
pub struct Number {
    pub bits: u64,
}

/// One tracked cryptocurrency with its market metrics.
#[derive(Debug, PartialEq, Eq)]
pub struct Cryptocurrency {
    pub id: String,
    pub name: String,
    pub symbol: String,
    pub price: Number,
    pub market_cap: Number,
    pub volume_24h: Number,
    pub price_change_24h: Number,
}

/// What a `Cryptocurrency` is to the contracts.
pub struct CryptocurrencyView {
    pub id: Seq<char>,
    pub name: Seq<char>,
    pub symbol: Seq<char>,
    pub price: Number,
    pub market_cap: Number,
    pub volume_24h: Number,
    pub price_change_24h: Number,
}

impl View for Cryptocurrency {
    type V = CryptocurrencyView;

    open spec fn view(&self) -> CryptocurrencyView {
        CryptocurrencyView {
            id: self.id@,
            name: self.name@,
            symbol: self.symbol@,
            price: self.price,
            market_cap: self.market_cap,
            volume_24h: self.volume_24h,
            price_change_24h: self.price_change_24h,
        }
    }
}

impl DeepView for Cryptocurrency {
    type V = CryptocurrencyView;

    open spec fn deep_view(&self) -> CryptocurrencyView {
        self.view()
    }
}

impl Clone for Cryptocurrency {
    fn clone(&self) -> (copy: Self)
        ensures
            copy == *self,
    {
        Cryptocurrency {
            id: self.id.clone(),
            name: self.name.clone(),
            symbol: self.symbol.clone(),
            price: self.price,
            market_cap: self.market_cap,
            volume_24h: self.volume_24h,
            price_change_24h: self.price_change_24h,
        }
    }
}

/// The user's position in one asset.
#[derive(Debug, PartialEq, Eq)]
pub struct PortfolioItem {
    /// Identifier of the asset held; it need not occur in any asset list.
    pub crypto_id: String,
    pub amount: Number,
}

/// What a `PortfolioItem` is to the contracts.
pub struct PortfolioItemView {
    pub crypto_id: Seq<char>,
    pub amount: Number,
}

impl View for PortfolioItem {
    type V = PortfolioItemView;

    open spec fn view(&self) -> PortfolioItemView {
        PortfolioItemView { crypto_id: self.crypto_id@, amount: self.amount }
    }
}

impl DeepView for PortfolioItem {
    type V = PortfolioItemView;

    open spec fn deep_view(&self) -> PortfolioItemView {
        self.view()
    }
}

impl Clone for PortfolioItem {
    fn clone(&self) -> (copy: Self)
        ensures
            copy == *self,
    {
        PortfolioItem { crypto_id: self.crypto_id.clone(), amount: self.amount }
    }
}

} // verus!
