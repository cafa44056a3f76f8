//! Traces: row-major values of width `NUM_TOY_COLS`, and their generator.

use rand::rngs::StdRng;
use vstd::prelude::*;

use crate::air::{lemma_rule_as_implication, row_satisfies, trace_accepted};
use crate::cols::{ToyCols, NUM_TOY_COLS};
use crate::rng::{draw_below, draw_flag};

verus! {

/// The odds of a drawn flag being set are `FLAG_NUMERATOR` in
/// `FLAG_DENOMINATOR`: one in two.
pub const FLAG_NUMERATOR: u32 = 1;

/// See `FLAG_NUMERATOR`.
pub const FLAG_DENOMINATOR: u32 = 2;

/// The exclusive upper bound of a drawn `c`, two to the twentieth; drawn
/// values start at 1.
pub const C_BOUND: u64 = 0x10_0000;

/// A trace, as the canonical encodings of its field elements, row after row.
pub struct ToyTrace {
    pub values: Vec<u64>,
}

/// The rows that row-major values of width `NUM_TOY_COLS` stand for.
pub open spec fn rows_of(v: Seq<u64>) -> Seq<ToyCols<u64>> {
    Seq::new(
        v.len() / 3,
        |i: int| ToyCols::from_seq(v.subrange(3 * i, 3 * i + 3)),
    )
}

impl ToyTrace {
    /// At least one row, and every row full.
    pub open spec fn wf(&self) -> bool {
        &&& self.values@.len() % (NUM_TOY_COLS as nat) == 0
        &&& self.values@.len() >= NUM_TOY_COLS
    }

    pub open spec fn rows(&self) -> Seq<ToyCols<u64>> {
        rows_of(self.values@)
    }

    /// The number of rows.
    pub fn height(&self) -> (r: usize)
        requires
            self.wf(),
        ensures
            r == self.rows().len(),
    {
        self.values.len() / NUM_TOY_COLS
    }

    /// The span of values of row `r`.
    pub fn row_slice(&self, r: usize) -> (s: &[u64])
        requires
            self.wf(),
            r < self.rows().len(),
        ensures
            s@ == self.rows()[r as int].to_seq(),
    {
        let values = self.values.as_slice();
        assert(r * 3 + 3 <= values.len()) by (nonlinear_arith)
            requires
                r < values.len() / 3,
        ;
        let start = r * NUM_TOY_COLS;
        let s = &values[start..start + NUM_TOY_COLS];
        assert(s@ =~= self.rows()[r as int].to_seq());
        s
    }
}

/// What the generator puts in a row: two flags of 0 or 1, and a `c` that is
/// zero exactly where a drawn value is not called for. On a row that has a
/// successor `c` is 0 when both flags are set and drawn from `1..C_BOUND`
/// otherwise; on the last row it is the other way round.
pub open spec fn generated_row(row: ToyCols<u64>, is_last: bool) -> bool {
    &&& row.cond_a <= 1
    &&& row.cond_b <= 1
    &&& if (row.cond_a == 1 && row.cond_b == 1) != is_last {
        row.c == 0
    } else {
        1 <= row.c < C_BOUND
    }
}

/// Rows laid out as the generator lays them out meet the rule: the only row
/// that may hold a nonzero `c` under two set flags is the last one, which the
/// transition gate exempts.
pub proof fn lemma_generated_rows_accepted(rows: Seq<ToyCols<u64>>)
    requires
        forall|i: int| #![trigger rows[i]] 0 <= i < rows.len() ==>
            generated_row(rows[i], i == rows.len() - 1),
    ensures
        trace_accepted(rows),
{
    assert forall|i: int| #![trigger rows[i]] 0 <= i < rows.len() implies
        row_satisfies(rows[i], i < rows.len() - 1) by {
        lemma_rule_as_implication(rows[i], i < rows.len() - 1);
    }
}

/// Generates a trace of `len` rows from `rng`. Each row draws two fair flags,
/// then, where `generated_row` calls for it, a `c` in `1..C_BOUND`.
pub fn generate_trace(len: usize, rng: &mut StdRng) -> (r: ToyTrace)
    requires
        1 <= len <= usize::MAX / NUM_TOY_COLS,
    ensures
        r.wf(),
        r.rows().len() == len,
        forall|i: int| #![trigger r.rows()[i]] 0 <= i < len ==>
            generated_row(r.rows()[i], i == len - 1),
        trace_accepted(r.rows()),
{
    let mut values: Vec<u64> = Vec::new();
    let mut i: usize = 0;
    while i < len
        invariant
            1 <= len <= usize::MAX / NUM_TOY_COLS,
            i <= len,
            values@.len() == 3 * i,
            forall|j: int| 0 <= j < i ==>
                generated_row(#[trigger] ToyCols::from_seq(values@.subrange(3 * j, 3 * j + 3)), j == len - 1),
        decreases len - i,
    {
        let cond_a = draw_flag(rng, FLAG_NUMERATOR, FLAG_DENOMINATOR);
        let cond_b = draw_flag(rng, FLAG_NUMERATOR, FLAG_DENOMINATOR);
        let c: u64 = if i != len - 1 {
            if cond_a && cond_b {
                0
            } else {
                draw_below(rng, 1, C_BOUND)
            }
        } else if cond_a && cond_b {
            draw_below(rng, 1, C_BOUND)
        } else {
            0
        };
        let ghost prev = values@;
        values.push(if cond_a { 1 } else { 0 });
        values.push(if cond_b { 1 } else { 0 });
        values.push(c);
        proof {
            assert forall|j: int| 0 <= j < i implies
                #[trigger] ToyCols::from_seq(values@.subrange(3 * j, 3 * j + 3))
                    == ToyCols::from_seq(prev.subrange(3 * j, 3 * j + 3)) by {
            }
        }
        i += 1;
    }
    let r = ToyTrace { values };
    assert forall|k: int| #![trigger r.rows()[k]] 0 <= k < len implies
        generated_row(r.rows()[k], k == len - 1) by {
        assert(r.rows()[k] == ToyCols::from_seq(r.values@.subrange(3 * k, 3 * k + 3)));
    }
    proof {
        lemma_generated_rows_accepted(r.rows());
    }
    r
}

} // verus!
