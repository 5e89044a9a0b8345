pub mod stg_mamba;
