pub mod graph_conv;
pub mod kfgn;
pub mod mamba;
