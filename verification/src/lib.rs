//! State container of a cryptocurrency portfolio tracker.
//!
//! The crate holds the data model (`models`) and the store built on it
//! (`store`): a pure transition function over actions, the decisions of the
//! dispatcher that sits between the views and the market data gateway, and the
//! pairing of holdings with prices from which the portfolio is valued.
//! Every function is stated against a mathematical view of the data.

pub mod models;
pub mod store;
