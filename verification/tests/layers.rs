use stg_mamba::layers::mamba::mamba_dims;
use stg_mamba::layers::graph_conv::{
    adjacency_plan, Activation, AdjacencyBase, DynamicFilterGNNConfig, GraphConvConfig,
};
use stg_mamba::layers::kfgn::{pool_windows, upsample_sources};

#[test]
fn activation_names() {
    assert_eq!(Activation::from_name("relu"), Activation::Relu);
    assert_eq!(Activation::from_name("gelu"), Activation::Gelu);
    assert_eq!(Activation::from_name("silu"), Activation::Silu);
    assert_eq!(Activation::from_name("tanh"), Activation::Tanh);
    assert_eq!(Activation::from_name("none"), Activation::Identity);
    assert_eq!(Activation::from_name("ReLU"), Activation::Identity);
}

#[test]
fn graph_conv_config_builders() {
    let c = GraphConvConfig::new(32, 64, "relu".to_string());
    assert_eq!(c.in_features, 32);
    assert_eq!(c.out_features, 64);
    assert!(c.bias);
    assert_eq!(c.activation_kind(), Activation::Relu);
    let c = c.with_bias(false);
    assert!(!c.bias);
    assert_eq!(c.activation, "relu");
}

#[test]
fn dynamic_filter_layers() {
    let config = DynamicFilterGNNConfig::new(10, 32);
    assert_eq!(config.num_layers, 2);
    assert!(config.learnable_adj);
    let layers = config.layer_configs();
    assert_eq!(layers.len(), 2);
    assert_eq!(layers[0].activation, "relu");
    assert_eq!(layers[1].activation, "none");
    for l in &layers {
        assert_eq!(l.in_features, 32);
        assert_eq!(l.out_features, 32);
        assert!(l.bias);
    }
    let config = DynamicFilterGNNConfig::new(3, 8).with_num_layers(0).with_learnable_adj(false);
    assert!(config.layer_configs().is_empty());
    assert!(!config.learnable_adj);
    let single = DynamicFilterGNNConfig::new(3, 8).with_num_layers(1).layer_configs();
    assert_eq!(single[0].activation_kind(), Activation::Identity);
}

#[test]
fn pooling_windows_cover_sequence() {
    assert_eq!(pool_windows(12, 2), vec![(0, 2), (2, 2), (4, 2), (6, 2), (8, 2), (10, 2)]);
    assert_eq!(pool_windows(12, 5), vec![(0, 5), (5, 5), (10, 2)]);
    assert_eq!(pool_windows(3, 4), vec![(0, 3)]);
    assert_eq!(pool_windows(0, 3), Vec::<(usize, usize)>::new());
}

#[test]
fn upsampling_repeats_steps() {
    assert_eq!(upsample_sources(4, 12), vec![0, 0, 0, 1, 1, 1, 2, 2, 2, 3, 3, 3]);
    assert_eq!(upsample_sources(3, 12), vec![0, 0, 0, 0, 1, 1, 1, 1, 2, 2, 2, 2]);
    // Steps are repeated ceil(target / len) times, so the last step can be cut.
    assert_eq!(upsample_sources(4, 5), vec![0, 0, 1, 1, 2]);
    assert_eq!(upsample_sources(6, 6), vec![0, 1, 2, 3, 4, 5]);
    assert_eq!(upsample_sources(7, 0), Vec::<usize>::new());
}

#[test]
fn adjacency_assembly() {
    let p = adjacency_plan(true, true);
    assert_eq!(p.base, AdjacencyBase::Static);
    assert!(p.add_learned);
    let p = adjacency_plan(false, true);
    assert_eq!(p.base, AdjacencyBase::Learned);
    assert!(p.add_learned);
    let p = adjacency_plan(true, false);
    assert_eq!(p.base, AdjacencyBase::Static);
    assert!(!p.add_learned);
    let p = adjacency_plan(false, false);
    assert_eq!(p.base, AdjacencyBase::Identity);
    assert!(!p.add_learned);
}

#[test]
fn test_mamba_dimensions() {
    // d_model 32, d_state 8, expand 2, d_conv 4
    let dims = mamba_dims(32, 8, 2, 4);
    assert_eq!(dims.d_inner, 64); // expand * d_model
    assert_eq!(dims.in_proj_dim, 128);
    assert_eq!(dims.x_proj_dim, 17);
    assert_eq!(dims.conv_padding, 3);
}
