use lower_triangular_correlate::ir::FuseArg;
use lower_triangular_correlate::kernel::{
    lower_as_slice, lower_triangular_correlate_fused, Arithmetic,
};

/// Runs the units at these positions on integers.
fn run(
    values: &[i64],
    lower: &[i64],
    factors: usize,
    paths: usize,
    units: &[usize],
    output: &mut Vec<i64>,
) {
    let inputs = vec![lower.to_vec()];
    let read = |position: usize| values[position];
    let arithmetic = Arithmetic {
        zero: 0i64,
        times: |x: i64, y: i64| x * y,
        plus: |x: i64, y: i64| x + y,
    };
    for pos in units {
        lower_triangular_correlate_fused(
            &inputs,
            output,
            &read,
            FuseArg::Input(0),
            &arithmetic,
            factors,
            paths,
            *pos,
        );
    }
}

#[test]
fn matrix_is_the_input_at_its_position() {
    let inputs = vec![vec![1], vec![2, 3], vec![4]];
    assert_eq!(lower_as_slice(&inputs, FuseArg::Input(1)), &vec![2, 3]);
}

#[test]
fn each_row_is_combined_with_the_matrix() {
    let values = [1, 2, 3, 10, 20, 30];
    let lower = [2, 0, 0, 3, 4, 0, 5, 6, 7];
    let mut output = vec![0; 6];
    run(&values, &lower, 3, 2, &[0, 1], &mut output);
    assert_eq!(output, vec![2, 11, 38, 20, 110, 380]);
}

#[test]
fn unit_writes_its_own_row() {
    let mut output = vec![-1; 6];
    run(&[1, 2, 3, 4, 5, 6], &[1, 0, 1, 1], 2, 3, &[1], &mut output);
    assert_eq!(output, vec![-1, -1, 3, 7, -1, -1]);
}

#[test]
fn unit_past_the_rows_writes_nothing() {
    let mut output = vec![-1; 4];
    run(&[1, 2, 3, 4], &[1, 0, 1, 1], 2, 2, &[2, 3, 100], &mut output);
    assert_eq!(output, vec![-1; 4]);
}

#[test]
fn units_run_in_any_order() {
    let values = [1, 2, 3, 4, 5, 6];
    let lower = [1, 0, 1, 1];
    let mut forward = vec![0; 6];
    let mut backward = vec![0; 6];
    run(&values, &lower, 2, 3, &[0, 1, 2, 3], &mut forward);
    run(&values, &lower, 2, 3, &[3, 2, 1, 0], &mut backward);
    assert_eq!(forward, vec![1, 3, 3, 7, 5, 11]);
    assert_eq!(forward, backward);
}

#[test]
fn entries_above_the_diagonal_do_not_matter() {
    let values = [1, 2, 3];
    let mut zeros = vec![0; 3];
    let mut others = vec![0; 3];
    run(&values, &[2, 0, 0, 3, 4, 0, 5, 6, 7], 3, 1, &[0], &mut zeros);
    run(&values, &[2, 90, 91, 3, 4, 92, 5, 6, 7], 3, 1, &[0], &mut others);
    assert_eq!(zeros, vec![2, 11, 38]);
    assert_eq!(zeros, others);
}

#[test]
fn diagonal_matrix_scales_the_columns() {
    let mut output = vec![0; 4];
    run(&[1, 2, 3, 4], &[10, 0, 0, 100], 2, 2, &[0, 1], &mut output);
    assert_eq!(output, vec![10, 200, 30, 400]);
}

#[test]
fn sums_start_from_zero_and_add_in_order() {
    let inputs = vec![vec!["a".len(); 4]];
    let read = |position: usize| position;
    let arithmetic = Arithmetic {
        zero: 9usize,
        times: |x: usize, y: usize| x + y,
        plus: |x: usize, y: usize| x * 10 + y,
    };
    let mut output = vec![0; 2];
    lower_triangular_correlate_fused(
        &inputs,
        &mut output,
        &read,
        FuseArg::Input(0),
        &arithmetic,
        2,
        1,
        0,
    );
    assert_eq!(output, vec![91, 912]);
}

#[test]
fn no_columns_means_no_writes() {
    let mut output = vec![7; 2];
    run(&[], &[], 0, 2, &[0, 1], &mut output);
    assert_eq!(output, vec![7, 7]);
}

#[test]
fn identity_matrix_gives_the_values_back() {
    let values = [1.5_f32, -2.0, 0.0, -0.0, f32::MAX, f32::MIN_POSITIVE];
    let inputs = vec![vec![1.0_f32, 0.0, 0.0, 0.0, 1.0, 0.0, 0.0, 0.0, 1.0]];
    let read = |position: usize| values[position];
    let arithmetic = Arithmetic {
        zero: 0.0_f32,
        times: |x: f32, y: f32| x * y,
        plus: |x: f32, y: f32| x + y,
    };
    let mut output = vec![f32::NAN; 6];
    for pos in 0..2 {
        lower_triangular_correlate_fused(
            &inputs,
            &mut output,
            &read,
            FuseArg::Input(0),
            &arithmetic,
            3,
            2,
            pos,
        );
    }
    assert_eq!(output, values.to_vec());
}
