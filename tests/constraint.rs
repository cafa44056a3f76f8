use dbg_air::{ToyAir, ToyTrace};

#[test]
fn eval_transition_row_both_flags_zero_c() {
    assert!(ToyAir.eval(&[1, 1, 0], true));
}

#[test]
fn eval_transition_row_both_flags_nonzero_c() {
    assert!(!ToyAir.eval(&[1, 1, 3], true));
}

#[test]
fn eval_transition_row_one_flag_clear() {
    assert!(ToyAir.eval(&[0, 1, 7], true));
    assert!(ToyAir.eval(&[1, 0, 7], true));
    assert!(ToyAir.eval(&[0, 0, 7], true));
}

#[test]
fn eval_last_row_is_exempt() {
    assert!(ToyAir.eval(&[1, 1, 9], false));
}

#[test]
fn eval_any_nonzero_flag_counts_as_set() {
    assert!(!ToyAir.eval(&[5, 2, 1], true));
    assert!(ToyAir.eval(&[5, 2, 0], true));
}

#[test]
fn single_row_trace_accepted() {
    let trace = ToyTrace { values: vec![1, 1, 5] };
    assert!(ToyAir.accepts(&trace));
}

#[test]
fn three_rows_with_exempt_last_row_accepted() {
    let trace = ToyTrace { values: vec![1, 1, 0, 0, 1, 7, 1, 1, 9] };
    assert!(ToyAir.accepts(&trace));
}

#[test]
fn three_rows_with_violating_first_row_rejected() {
    let trace = ToyTrace { values: vec![1, 1, 3, 0, 1, 7, 1, 1, 9] };
    assert!(!ToyAir.accepts(&trace));
}

#[test]
fn violation_in_middle_row_rejected() {
    let trace = ToyTrace { values: vec![0, 0, 4, 1, 1, 2, 0, 0, 0] };
    assert!(!ToyAir.accepts(&trace));
}

#[test]
fn trace_height_and_rows() {
    let trace = ToyTrace { values: vec![1, 1, 0, 0, 1, 7] };
    assert_eq!(trace.height(), 2);
    assert_eq!(trace.row_slice(0), &[1, 1, 0]);
    assert_eq!(trace.row_slice(1), &[0, 1, 7]);
}

#[test]
fn last_row_contents_never_change_the_verdict() {
    for last in [[0u64, 0, 0], [1, 1, 9], [1, 1, 0], [0, 1, 5], [3, 4, 5]] {
        let mut good = vec![1, 1, 0, 0, 1, 7];
        good.extend_from_slice(&last);
        assert!(ToyAir.accepts(&ToyTrace { values: good }));
        let mut bad = vec![1, 1, 3, 0, 1, 7];
        bad.extend_from_slice(&last);
        assert!(!ToyAir.accepts(&ToyTrace { values: bad }));
    }
}
