//! A correlation from the operations that it is made of to the values that it gives.
use lower_triangular_correlate::fuser::{
    Command, FuserProperties, FuserStatus, LowerTriangularCorrelateFuser, Reply, TraceState,
};
use lower_triangular_correlate::ir::{
    BinaryOpIr, DType, FuseArg, OperationIr, TensorIr, TensorStatus,
};
use lower_triangular_correlate::kernel::{lower_triangular_correlate_fused, Arithmetic};
use lower_triangular_correlate::optimization::{
    AddressType, ExecuteStep, LowerTriangularCorrelateOptimization,
};

fn tensor(id: u64, shape: [usize; 2]) -> TensorIr {
    TensorIr {
        id,
        shape: shape.to_vec(),
        status: TensorStatus::ReadOnly,
        dtype: DType::F32,
    }
}

/// Fuses two elementwise operations and the correlation of what they give.
fn fuse_producers_and_correlation(
    paths: usize,
    factors: usize,
) -> LowerTriangularCorrelateOptimization<&'static str, u8, u8> {
    let mut fuser = LowerTriangularCorrelateFuser::new(0u8);
    let trace = TraceState {
        status: FuserStatus::Open,
        current_output_shape: vec![paths, factors],
    };
    for _ in 0..2 {
        assert!(matches!(
            fuser.fuse(&OperationIr::Other, &trace),
            Command::AskCanFuse
        ));
        let reply = Reply::CanFuse {
            kernel: true,
            elementwise: true,
        };
        assert!(matches!(fuser.resume(reply), Command::FuseBoth));
    }
    let op = BinaryOpIr {
        lhs: tensor(1, [paths, factors]),
        rhs: tensor(2, [factors, factors]),
        out: tensor(3, [paths, factors]),
    };
    let command = fuser.fuse(&OperationIr::LowerTriangularCorrelate(op), &trace);
    assert!(matches!(command, Command::NextBlock { tensor, .. } if tensor.id == 1));
    let command = fuser.resume(Reply::Block {
        independent: FuseArg::Other(7),
    });
    assert!(matches!(command, Command::InputIndexed { tensor } if tensor.id == 2));
    let command = fuser.resume(Reply::Lower {
        lower: Some(FuseArg::Input(1)),
    });
    assert!(matches!(command, Command::OutputUnhandled { tensor } if tensor.id == 3));
    let command = fuser.resume(Reply::Output {
        output: FuseArg::Other(8),
    });
    assert!(matches!(command, Command::CloseBoth));

    assert_eq!(fuser.len(), 3);
    assert_eq!(fuser.status(FuserStatus::Open), FuserStatus::Closed);
    let properties = fuser.properties(FuserProperties {
        score: 2,
        ready: false,
    });
    assert_eq!(
        properties,
        FuserProperties {
            score: 212,
            ready: true
        }
    );
    fuser.finish(4u8, "kernel", "elementwise")
}

/// Executes the optimization on values that the elementwise operations double and increment.
fn execute(
    optimization: &mut LowerTriangularCorrelateOptimization<&'static str, u8, u8>,
    base: Vec<f32>,
    lower: Vec<f32>,
    paths: usize,
    units_per_cube: usize,
) -> Vec<f32> {
    let (arg, step) = optimization.execute(|position| position);
    assert_eq!(step, ExecuteStep::LaunchFused);
    let launch = arg.execute_fused();
    assert_eq!(*launch.trace, "kernel");
    let kernel = launch.runner.run(
        &["read", "write"],
        |config| {
            assert_eq!(*config, "write");
            vec![paths, 2]
        },
        |units| (units.div_ceil(units_per_cube), units_per_cube),
        AddressType::U32,
        AddressType::U32,
    );
    assert_eq!(kernel.working_units, paths);

    let elements = base.len();
    let inputs = vec![base, lower];
    let read = |position: usize| inputs[0][position] * 2.0 + 1.0;
    let arithmetic = Arithmetic {
        zero: 0.0f32,
        times: |x: f32, y: f32| x * y,
        plus: |x: f32, y: f32| x + y,
    };
    let mut output = vec![f32::NAN; elements];
    for pos in 0..kernel.grid.0 * kernel.grid.1 {
        lower_triangular_correlate_fused(
            &inputs,
            &mut output,
            &read,
            kernel.lower,
            &arithmetic,
            kernel.factors,
            kernel.working_units,
            pos,
        );
    }
    assert_eq!(step.next(true), ExecuteStep::Done);
    output
}

#[test]
fn lower_triangular_correlate_fuses_producer_into_single_kernel() {
    let mut optimization = fuse_producers_and_correlation(4, 2);
    assert_eq!(optimization.num_ops_fused(), 3);
    assert_eq!(optimization.to_state().correlate.op.out.id, 3);

    let base = vec![1.0_f32, 2.0, 3.0, 4.0, 5.0, 6.0, 7.0, 8.0];
    let lower = vec![2.0_f32, 0.0, 0.5, 3.0];
    let output = execute(&mut optimization, base, lower, 4, 32);
    assert_eq!(
        output,
        vec![6.0_f32, 16.5, 14.0, 30.5, 22.0, 44.5, 30.0, 58.5]
    );
}

#[test]
fn lower_triangular_correlate_handles_large_path_grid() {
    const PATHS: usize = 65_536;

    let mut optimization = fuse_producers_and_correlation(PATHS, 2);
    let mut base = Vec::with_capacity(PATHS * 2);
    for _ in 0..PATHS {
        base.extend_from_slice(&[1.0_f32, 2.0]);
    }
    let lower = vec![2.0_f32, 0.0, 0.5, 3.0];
    let values = execute(&mut optimization, base, lower, PATHS, 256);
    let last = (PATHS - 1) * 2;

    assert_eq!(values.len(), PATHS * 2);
    assert_eq!(values[0], 6.0);
    assert_eq!(values[1], 16.5);
    assert_eq!(values[last], 6.0);
    assert_eq!(values[last + 1], 16.5);
}
