//! Fibonacci time zones.
use vstd::prelude::*;

verus! {

/// The Fibonacci time-zone sequence 1, 2, 3, 5, 8, 13, ...
pub open spec fn zone(i: nat) -> nat
    decreases i,
{
    if i == 0 {
        1
    } else if i == 1 {
        2
    } else {
        zone((i - 1) as nat) + zone((i - 2) as nat)
    }
}

proof fn lemma_zone_positive(i: nat)
    ensures
        zone(i) >= 1,
    decreases i,
{
    if i >= 2 {
        lemma_zone_positive((i - 1) as nat);
    }
}

/// The zones grow strictly from one index to the next.
pub proof fn lemma_zone_increasing(i: nat, j: nat)
    requires
        i < j,
    ensures
        zone(i) < zone(j),
    decreases j,
{
    if j >= 2 {
        lemma_zone_positive((j - 2) as nat);
    }
    if j > i + 1 {
        lemma_zone_increasing(i, (j - 1) as nat);
    }
}

/// Fibonacci time zones (for time-based analysis)
/// Returns Fibonacci sequence indices: 1, 2, 3, 5, 8, 13, 21, 34, 55, 89, 144...
///
/// The sequence always starts with 1 and 2; it then grows while it holds fewer
/// than `max_index` zones and the next zone does not exceed `max_index`.
pub fn fibonacci_time_zones(max_index: usize) -> (result: Vec<usize>)
    ensures
        result@.len() >= 2,
        forall|i: int| 0 <= i < result@.len() ==> #[trigger] result@[i] == zone(i as nat),
        result@.len() > 2 ==> result@.len() <= max_index && zone((result@.len() - 1) as nat)
            <= max_index,
        result@.len() < max_index ==> zone(result@.len()) > max_index,
{
    let mut result: Vec<usize> = vec![1, 2];
    while result.len() < max_index
        invariant_except_break
            result@.len() >= 2,
            forall|i: int| 0 <= i < result@.len() ==> #[trigger] result@[i] == zone(i as nat),
            result@.len() > 2 ==> result@.len() <= max_index && zone((result@.len() - 1) as nat)
                <= max_index,
        ensures
            result@.len() >= 2,
            forall|i: int| 0 <= i < result@.len() ==> #[trigger] result@[i] == zone(i as nat),
            result@.len() > 2 ==> result@.len() <= max_index && zone((result@.len() - 1) as nat)
                <= max_index,
            result@.len() < max_index ==> zone(result@.len()) > max_index,
        decreases max_index - result@.len(),
    {
        let n = result.len();
        let last = result[n - 1];
        let before = result[n - 2];
        assert(zone(n as nat) == zone((n - 1) as nat) + zone((n - 2) as nat));
        match last.checked_add(before) {
            Some(next) => {
                if next > max_index {
                    break;
                }
                result.push(next);
            },
            None => {
                break;
            },
        }
    }
    result
}

/// The zones start with 1 and 2, and each later zone is the sum of the two
/// before it.
pub proof fn lemma_zone_recurrence(i: nat)
    ensures
        zone(0) == 1,
        zone(1) == 2,
        zone(i + 2) == zone(i + 1) + zone(i),
{
}

} // verus!
