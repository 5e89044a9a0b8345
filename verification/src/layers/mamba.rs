//! Dimension plan of the selective state-space block.
use vstd::prelude::*;

verus! {

/// The layer sizes of a state-space block.
#[derive(Debug, Clone, Copy, PartialEq, Eq)]
pub struct MambaDims {
    /// Expanded inner dimension: `expand * d_model`
    pub d_inner: usize,
    /// Output width of the input projection (value and gate): `2 * d_inner`
    pub in_proj_dim: usize,
    /// Output width of the selective-parameter projection (step, B, C): `2 * d_state + 1`
    pub x_proj_dim: usize,
    /// Left padding of the causal convolution: `d_conv - 1`
    pub conv_padding: usize,
}

/// The layer sizes of a state-space block with model width `d_model`, state
/// size `d_state`, expansion `expand` and convolution kernel `d_conv`.
pub fn mamba_dims(d_model: usize, d_state: usize, expand: usize, d_conv: usize) -> (m: MambaDims)
    requires
        2 * (expand * d_model) <= usize::MAX,
        2 * d_state + 1 <= usize::MAX,
        d_conv >= 1,
    ensures
        m.d_inner == expand * d_model,
        m.in_proj_dim == 2 * (expand * d_model),
        m.x_proj_dim == 2 * d_state + 1,
        m.conv_padding == d_conv - 1,
{
    proof {
        assert(expand * d_model <= 2 * (expand * d_model)) by (nonlinear_arith);
    }
    let d_inner = expand * d_model;
    MambaDims {
        d_inner,
        in_proj_dim: d_inner * 2,
        x_proj_dim: d_state + d_state + 1,
        conv_padding: d_conv - 1,
    }
}

} // verus!
