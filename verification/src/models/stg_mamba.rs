//! Size estimate of the stacked forecasting model.
use vstd::prelude::*;

verus! {

/// Estimated parameter count: each block is taken as ten square hidden
/// projections, plus the input projection and the output projection.
pub open spec fn parameter_estimate(
    hidden_dim: nat,
    num_layers: nat,
    in_channels: nat,
    pred_len: nat,
    out_channels: nat,
) -> nat {
    hidden_dim * hidden_dim * 10 * num_layers + in_channels * hidden_dim + hidden_dim * pred_len
        * out_channels
}

/// Get number of parameters (an estimate from the model's dimensions).
pub fn num_parameters(
    hidden_dim: usize,
    num_layers: usize,
    in_channels: usize,
    pred_len: usize,
    out_channels: usize,
) -> (n: usize)
    requires
        parameter_estimate(
            hidden_dim as nat,
            num_layers as nat,
            in_channels as nat,
            pred_len as nat,
            out_channels as nat,
        ) <= usize::MAX,
    ensures
        n == parameter_estimate(
            hidden_dim as nat,
            num_layers as nat,
            in_channels as nat,
            pred_len as nat,
            out_channels as nat,
        ),
{
    proof {
        let h = hidden_dim as nat;
        let l = num_layers as nat;
        let c = in_channels as nat;
        let p = pred_len as nat;
        let o = out_channels as nat;
        assert(h * h * 10 <= h * h * 10 * l || l == 0) by (nonlinear_arith);
        assert(h * p <= h * p * o || o == 0) by (nonlinear_arith);
        assert(h * h <= h * h * 10) by (nonlinear_arith);
        assert(h * h * 10 * l >= 0 && c * h >= 0 && h * p * o >= 0) by (nonlinear_arith);
    }
    let params_per_gs3b: usize = if num_layers == 0 {
        0
    } else {
        hidden_dim * hidden_dim * 10
    };
    let total_gs3b_params = params_per_gs3b * num_layers;
    let out_params: usize = if out_channels == 0 {
        0
    } else {
        hidden_dim * pred_len * out_channels
    };
    let proj_params = in_channels * hidden_dim + out_params;
    total_gs3b_params + proj_params
}

/// Each extra block adds ten square hidden projections to the estimate, and a
/// model without blocks counts only its input projection (`in_channels`
/// inputs per hidden unit) and its output projection (`pred_len *
/// out_channels` outputs per hidden unit).
pub proof fn lemma_parameter_estimate_parts(
    hidden_dim: nat,
    num_layers: nat,
    in_channels: nat,
    pred_len: nat,
    out_channels: nat,
)
    ensures
        parameter_estimate(hidden_dim, num_layers + 1, in_channels, pred_len, out_channels)
            == parameter_estimate(hidden_dim, num_layers, in_channels, pred_len, out_channels) + 10
            * hidden_dim * hidden_dim,
        parameter_estimate(hidden_dim, 0, in_channels, pred_len, out_channels) == hidden_dim
            * in_channels + hidden_dim * (pred_len * out_channels),
{
    assert(hidden_dim * hidden_dim * 10 * (num_layers + 1) == hidden_dim * hidden_dim * 10
        * num_layers + 10 * hidden_dim * hidden_dim) by (nonlinear_arith);
    assert(hidden_dim * hidden_dim * 10 * 0 == 0) by (nonlinear_arith);
    assert(in_channels * hidden_dim == hidden_dim * in_channels) by (nonlinear_arith);
    assert(hidden_dim * pred_len * out_channels == hidden_dim * (pred_len * out_channels))
        by (nonlinear_arith);
}

} // verus!
