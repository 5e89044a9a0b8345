//! Verified core of a spatial-temporal market forecasting toolkit: the asset
//! universe, the per-asset feature history buffer, the decision logic of the
//! market-data feeds, the indicator scheduling arithmetic, and the integer
//! resampling and construction plans used by the graph layers.
pub mod data;
pub mod indicators;
pub mod layers;
pub mod models;
pub mod text;

pub use data::buffer::FeatureBuffer;
pub use data::types::{Asset, TradeSide};
pub use indicators::engine::{IndicatorEngine, IndicatorPlan, TimescaleConfig};
pub use indicators::fibonacci::fibonacci_time_zones;
pub use layers::graph_conv::{Activation, DynamicFilterGNNConfig, GraphConvConfig};
