//! The arithmetic that every measurement uses to combine interval values.

use vstd::prelude::*;

verus! {

/// Two interval values combined: their plain sum.
pub open spec fn combined(a: nat, b: nat) -> nat {
    a + b
}

/// Combining values is commutative and associative, and zero is its identity,
/// so the result does not depend on how iterations are grouped or ordered.
pub proof fn lemma_combine_laws(a: nat, b: nat, c: nat)
    ensures
        combined(a, b) == combined(b, a),
        combined(a, 0) == a,
        combined(combined(a, b), c) == combined(a, combined(b, c)),
{
}

} // verus!
