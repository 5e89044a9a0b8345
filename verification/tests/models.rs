use stg_mamba::models::stg_mamba::num_parameters;
use stg_mamba::text::{str_contains, str_eq};

#[test]
fn parameter_estimate() {
    // hidden 32, 2 layers, 3 inputs, 6 steps of 1 output
    assert_eq!(num_parameters(32, 2, 3, 6, 1), 32 * 32 * 10 * 2 + 3 * 32 + 32 * 6);
    assert_eq!(num_parameters(128, 4, 5, 20, 1), 128 * 128 * 10 * 4 + 5 * 128 + 128 * 20);
    assert_eq!(num_parameters(0, 4, 5, 20, 1), 0);
}

#[test]
fn text_helpers() {
    assert!(str_eq("abc", "abc"));
    assert!(!str_eq("abc", "abd"));
    assert!(!str_eq("abc", "ab"));
    assert!(str_eq("", ""));
    assert!(str_contains("bitcoin higher", "higher"));
    assert!(str_contains("abc", ""));
    assert!(!str_contains("ab", "abc"));
    assert!(!str_contains("bear", "bull"));
    assert!(str_contains("é-up", "up"));
}
