//! Configuration and construction plans of the graph-convolution layers.
use vstd::prelude::*;

use crate::text::str_eq;

verus! {

/// Activation applied after a graph convolution.
#[derive(Debug, Clone, Copy, PartialEq, Eq, Structural)]
pub enum Activation {
    Relu,
    Gelu,
    Silu,
    Tanh,
    /// No activation
    Identity,
}

/// The activation a layer's activation name selects: the four known names,
/// and no activation for any other name.
pub open spec fn activation_named(name: Seq<char>) -> Activation {
    if name == "relu"@ {
        Activation::Relu
    } else if name == "gelu"@ {
        Activation::Gelu
    } else if name == "silu"@ {
        Activation::Silu
    } else if name == "tanh"@ {
        Activation::Tanh
    } else {
        Activation::Identity
    }
}

impl Activation {
    /// Select the activation for a layer's activation name.
    pub fn from_name(name: &str) -> (a: Activation)
        ensures
            a == activation_named(name@),
    {
        if str_eq(name, "relu") {
            Activation::Relu
        } else if str_eq(name, "gelu") {
            Activation::Gelu
        } else if str_eq(name, "silu") {
            Activation::Silu
        } else if str_eq(name, "tanh") {
            Activation::Tanh
        } else {
            Activation::Identity
        }
    }
}

/// Configuration for Graph Convolution layer
#[derive(Debug, Clone)]
pub struct GraphConvConfig {
    /// Input feature dimension
    pub in_features: usize,
    /// Output feature dimension
    pub out_features: usize,
    /// Whether to use bias
    pub bias: bool,
    /// Activation function type
    pub activation: String,
}

impl GraphConvConfig {
    /// A configuration with the given dimensions and activation, and bias on.
    pub fn new(in_features: usize, out_features: usize, activation: String) -> (c: Self)
        ensures
            c.in_features == in_features,
            c.out_features == out_features,
            c.bias,
            c.activation@ == activation@,
    {
        GraphConvConfig { in_features, out_features, bias: true, activation }
    }

    /// The same configuration with the given bias setting.
    pub fn with_bias(self, bias: bool) -> (c: Self)
        ensures
            c.in_features == self.in_features,
            c.out_features == self.out_features,
            c.bias == bias,
            c.activation@ == self.activation@,
    {
        GraphConvConfig { bias, ..self }
    }

    /// The activation this layer applies.
    pub fn activation_kind(&self) -> (a: Activation)
        ensures
            a == activation_named(self.activation@),
    {
        Activation::from_name(self.activation.as_str())
    }
}

/// Configuration of the dynamic-filter graph network.
#[derive(Debug, Clone)]
pub struct DynamicFilterGNNConfig {
    /// Number of nodes
    pub num_nodes: usize,
    /// Feature dimension
    pub hidden_dim: usize,
    /// Number of graph convolution layers
    pub num_layers: usize,
    /// Whether to learn adjacency matrix
    pub learnable_adj: bool,
}

impl DynamicFilterGNNConfig {
    /// A configuration with two layers and a learnable adjacency.
    pub fn new(num_nodes: usize, hidden_dim: usize) -> (c: Self)
        ensures
            c.num_nodes == num_nodes,
            c.hidden_dim == hidden_dim,
            c.num_layers == 2,
            c.learnable_adj,
    {
        DynamicFilterGNNConfig { num_nodes, hidden_dim, num_layers: 2, learnable_adj: true }
    }

    /// The same configuration with the given number of layers.
    pub fn with_num_layers(self, num_layers: usize) -> (c: Self)
        ensures
            c.num_nodes == self.num_nodes,
            c.hidden_dim == self.hidden_dim,
            c.num_layers == num_layers,
            c.learnable_adj == self.learnable_adj,
    {
        DynamicFilterGNNConfig { num_layers, ..self }
    }

    /// The same configuration with the given adjacency setting.
    pub fn with_learnable_adj(self, learnable_adj: bool) -> (c: Self)
        ensures
            c.num_nodes == self.num_nodes,
            c.hidden_dim == self.hidden_dim,
            c.num_layers == self.num_layers,
            c.learnable_adj == learnable_adj,
    {
        DynamicFilterGNNConfig { learnable_adj, ..self }
    }

    /// The graph-convolution layers of the network, in order: each maps the
    /// hidden dimension to itself with bias, every layer but the last applies
    /// ReLU, and the last applies no activation.
    pub fn layer_configs(&self) -> (layers: Vec<GraphConvConfig>)
        ensures
            layers@.len() == self.num_layers,
            forall|i: int|
                0 <= i < layers@.len() ==> {
                    &&& (#[trigger] layers@[i]).in_features == self.hidden_dim
                    &&& layers@[i].out_features == self.hidden_dim
                    &&& layers@[i].bias
                    &&& layers@[i].activation@ == if i == self.num_layers - 1 {
                        "none"@
                    } else {
                        "relu"@
                    }
                },
    {
        let mut layers: Vec<GraphConvConfig> = Vec::new();
        let mut i: usize = 0;
        while i < self.num_layers
            invariant
                i <= self.num_layers,
                layers@.len() == i,
                forall|j: int|
                    0 <= j < i ==> {
                        &&& (#[trigger] layers@[j]).in_features == self.hidden_dim
                        &&& layers@[j].out_features == self.hidden_dim
                        &&& layers@[j].bias
                        &&& layers@[j].activation@ == if j == self.num_layers - 1 {
                            "none"@
                        } else {
                            "relu"@
                        }
                    },
            decreases self.num_layers - i,
        {
            let activation = if i == self.num_layers - 1 {
                String::from_str("none")
            } else {
                String::from_str("relu")
            };
            layers.push(
                GraphConvConfig {
                    in_features: self.hidden_dim,
                    out_features: self.hidden_dim,
                    bias: true,
                    activation,
                },
            );
            i = i + 1;
        }
        layers
    }
}

/// The matrix a dynamic adjacency starts from.
#[derive(Debug, Clone, Copy, PartialEq, Eq, Structural)]
pub enum AdjacencyBase {
    /// The static adjacency given with the input
    Static,
    /// The learnable base adjacency
    Learned,
    /// The identity matrix
    Identity,
}

/// How the adjacency of a forward pass is assembled before normalization.
#[derive(Debug, Clone, Copy, PartialEq, Eq)]
pub struct AdjacencyPlan {
    /// The matrix to start from
    pub base: AdjacencyBase,
    /// Whether the learnable adjacency is added to it
    pub add_learned: bool,
}

/// Assemble the adjacency: start from the static adjacency when one is given,
/// else from the learnable one, else from the identity; then add the learnable
/// adjacency whenever there is one (so a learnable adjacency without a static
/// one enters twice).
pub fn adjacency_plan(has_static: bool, has_learned: bool) -> (p: AdjacencyPlan)
    ensures
        p.base == if has_static {
            AdjacencyBase::Static
        } else if has_learned {
            AdjacencyBase::Learned
        } else {
            AdjacencyBase::Identity
        },
        p.add_learned == has_learned,
{
    let base = if has_static {
        AdjacencyBase::Static
    } else if has_learned {
        AdjacencyBase::Learned
    } else {
        AdjacencyBase::Identity
    };
    AdjacencyPlan { base, add_learned: has_learned }
}

/// In the layer plan of a dynamic-filter network, every layer but the last
/// applies ReLU and the last applies no activation.
pub proof fn lemma_layer_activations()
    ensures
        activation_named("relu"@) == Activation::Relu,
        activation_named("none"@) == Activation::Identity,
{
    reveal_strlit("relu");
    reveal_strlit("none");
    reveal_strlit("gelu");
    reveal_strlit("silu");
    reveal_strlit("tanh");
    assert("none"@[0] != "relu"@[0]);
    assert("none"@[0] != "gelu"@[0]);
    assert("none"@[0] != "silu"@[0]);
    assert("none"@[0] != "tanh"@[0]);
}

/// The activation names: "relu", "gelu", "silu" and "tanh" select their
/// activation, and every other name selects none.
pub proof fn lemma_activation_names(name: Seq<char>)
    ensures
        activation_named(name) == Activation::Relu <==> name == "relu"@,
        activation_named(name) == Activation::Gelu <==> name == "gelu"@,
        activation_named(name) == Activation::Silu <==> name == "silu"@,
        activation_named(name) == Activation::Tanh <==> name == "tanh"@,
        activation_named(name) == Activation::Identity <==> name != "relu"@ && name != "gelu"@
            && name != "silu"@ && name != "tanh"@,
{
    reveal_strlit("relu");
    reveal_strlit("gelu");
    reveal_strlit("silu");
    reveal_strlit("tanh");
    assert("relu"@[0] != "gelu"@[0] && "relu"@[0] != "silu"@[0] && "relu"@[0] != "tanh"@[0]);
    assert("gelu"@[0] != "silu"@[0] && "gelu"@[0] != "tanh"@[0] && "silu"@[0] != "tanh"@[0]);
}

} // verus!
