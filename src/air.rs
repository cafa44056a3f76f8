//! The circuit: its width and its single transition rule.

use vstd::prelude::*;

use crate::cols::{ToyCols, NUM_TOY_COLS};
use crate::trace::ToyTrace;

verus! {

/// The value that the rule asserts to be zero at a row: the transition
/// selector times `cond_a` times `cond_b` times `c`.
///
/// The columns hold canonical encodings, so a column is zero as a field
/// element exactly when its encoding is 0, and the product of encodings is
/// zero exactly when the field product is.
pub open spec fn gated_value(local: ToyCols<u64>, is_transition: bool) -> int {
    (if is_transition { 1int } else { 0int }) * local.cond_a * local.cond_b * local.c
}

/// The rule holds at a row: the gated value is zero.
pub open spec fn row_satisfies(local: ToyCols<u64>, is_transition: bool) -> bool {
    gated_value(local, is_transition) == 0
}

/// Every row meets the rule, each row but the last being a transition row.
pub open spec fn trace_accepted(rows: Seq<ToyCols<u64>>) -> bool {
    forall|i: int| #![trigger rows[i]] 0 <= i < rows.len() ==> row_satisfies(rows[i], i < rows.len() - 1)
}

/// The rule, read as an implication: on a transition row where both flags
/// are nonzero, `c` is zero; anywhere else nothing is asked of `c`.
pub proof fn lemma_rule_as_implication(local: ToyCols<u64>, is_transition: bool)
    ensures
        row_satisfies(local, is_transition) <==> (
        is_transition && local.cond_a != 0 && local.cond_b != 0 ==> local.c == 0),
{
    let a = local.cond_a as int;
    let b = local.cond_b as int;
    let c = local.c as int;
    assert(a != 0 && b != 0 && c != 0 ==> a * b * c != 0) by (nonlinear_arith);
    assert(a == 0 || b == 0 || c == 0 ==> a * b * c == 0) by (nonlinear_arith);
    if is_transition {
        assert(gated_value(local, is_transition) == a * b * c) by (nonlinear_arith)
            requires
                gated_value(local, is_transition) == 1 * a * b * c,
        ;
    } else {
        assert(gated_value(local, is_transition) == 0) by (nonlinear_arith)
            requires
                gated_value(local, is_transition) == 0 * a * b * c,
        ;
    }
}

/// The last row is exempt: whatever it holds, a trace is accepted exactly
/// when it was accepted before that row was replaced.
pub proof fn lemma_last_row_exempt(rows: Seq<ToyCols<u64>>, last: ToyCols<u64>)
    requires
        rows.len() >= 1,
    ensures
        trace_accepted(rows.update(rows.len() - 1, last)) == trace_accepted(rows),
{
    let updated = rows.update(rows.len() - 1, last);
    lemma_rule_as_implication(last, false);
    lemma_rule_as_implication(rows[rows.len() - 1], false);
    assert forall|i: int| #![trigger rows[i]] 0 <= i < rows.len() - 1 implies updated[i] == rows[i] by {}
}

/// A trace of one row has no transition, so it is accepted whatever that
/// row holds.
pub proof fn lemma_single_row_accepted(row: ToyCols<u64>)
    ensures
        trace_accepted(seq![row]),
{
    lemma_rule_as_implication(row, false);
}

/// The circuit: three columns and one gated rule over them.
pub struct ToyAir;

impl ToyAir {
    /// The number of columns that the circuit declares.
    pub fn width(&self) -> (r: usize)
        ensures
            r == NUM_TOY_COLS,
            r == 3,
    {
        NUM_TOY_COLS
    }

    /// Checks the rule at one row span: on a transition row, `cond_a` and
    /// `cond_b` select the assertion that `c` is zero.
    pub fn eval(&self, local: &[u64], is_transition: bool) -> (r: bool)
        requires
            local@.len() == NUM_TOY_COLS,
        ensures
            r == row_satisfies(ToyCols::from_seq(local@), is_transition),
            r == (is_transition && local@[0] != 0 && local@[1] != 0 ==> local@[2] == 0),
    {
        proof {
            lemma_rule_as_implication(ToyCols::from_seq(local@), is_transition);
        }
        let local = ToyCols::borrow(local);
        !(is_transition && *local.cond_a != 0 && *local.cond_b != 0) || *local.c == 0
    }

    /// Checks the rule at every row of a trace, the last row being exempt.
    pub fn accepts(&self, trace: &ToyTrace) -> (r: bool)
        requires
            trace.wf(),
        ensures
            r == trace_accepted(trace.rows()),
    {
        let height = trace.height();
        let mut i: usize = 0;
        while i < height
            invariant
                height == trace.rows().len(),
                trace.wf(),
                i <= height,
                forall|j: int| #![trigger trace.rows()[j]] 0 <= j < i ==>
                    row_satisfies(trace.rows()[j], j < height - 1),
            decreases height - i,
        {
            let row = trace.row_slice(i);
            if !self.eval(row, i + 1 < height) {
                return false;
            }
            i += 1;
        }
        true
    }
}

} // verus!
