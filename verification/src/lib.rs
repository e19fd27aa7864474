//! The `earn` and `send` commands of a Hyperliquid command line, as verified
//! decisions: what is asked of the exchange, in which order, and what is printed.
pub mod address;
pub mod decimal;
pub mod earn;
pub mod market;
pub mod send;
pub mod text;
