//! Capability contracts for cryptocurrency exchange connectivity: market data,
//! trading and wallet operations, their value types, and a two-tier error model.
pub mod types;
pub mod errors;
pub mod decimal;
pub mod trading;
pub mod market_data;
pub mod wallet;

pub use market_data::MarketData;
pub use trading::Trading;
pub use wallet::Wallet;
