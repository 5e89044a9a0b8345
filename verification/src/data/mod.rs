pub mod types;
pub mod ring;
pub mod buffer;
pub mod kraken;
pub mod polymarket;
