use lower_triangular_correlate::ir::{BinaryOpIr, DType, FuseArg, TensorIr, TensorStatus};
use lower_triangular_correlate::optimization::{
    AddressType, ExecuteStep, FusedLowerTriangularCorrelate, FusedLowerTriangularCorrelateLaunch,
    LowerTriangularCorrelateOptimization,
};

fn tensor(id: u64, shape: &[usize]) -> TensorIr {
    TensorIr {
        id,
        shape: shape.to_vec(),
        status: TensorStatus::ReadWrite,
        dtype: DType::F32,
    }
}

fn correlate() -> FusedLowerTriangularCorrelate {
    FusedLowerTriangularCorrelate {
        independent: FuseArg::Other(5),
        lower: FuseArg::Input(1),
        output: FuseArg::Other(6),
        factors: 3,
        op: BinaryOpIr {
            lhs: tensor(1, &[7, 3]),
            rhs: tensor(2, &[3, 3]),
            out: tensor(3, &[7, 3]),
        },
    }
}

fn optimization() -> LowerTriangularCorrelateOptimization<String, u8, &'static str> {
    LowerTriangularCorrelateOptimization::new(
        "kernel".to_string(),
        "elementwise".to_string(),
        1,
        "device",
        4,
        3,
        correlate(),
    )
}

#[test]
fn optimization_counts_its_operations() {
    assert_eq!(optimization().num_ops_fused(), 4);
}

#[test]
fn execution_picks_the_operation_at_the_correlation() {
    let mut optimization = optimization();
    let (arg, step) = optimization.execute(|position| format!("operation {position}"));
    assert_eq!(step, ExecuteStep::LaunchFused);
    assert_eq!(arg.into_fallback(), "operation 3");
}

#[test]
fn execution_launches_each_trace_with_its_runner() {
    let mut optimization = optimization();
    let (arg, _) = optimization.execute(|position| position);
    let fused = arg.execute_fused();
    assert_eq!(fused.trace, "kernel");
    assert_eq!(*fused.client, 1);
    assert_eq!(*fused.device, "device");
    let fallback = arg.execute_fallback();
    assert_eq!(fallback.trace, "elementwise");
    assert_eq!(*fallback.client, 1);
    assert_eq!(*fallback.device, "device");
}

#[test]
fn successful_launch_ends_the_execution() {
    assert_eq!(ExecuteStep::LaunchFused.next(true), ExecuteStep::Done);
    assert_eq!(ExecuteStep::Done.next(true), ExecuteStep::Done);
}

#[test]
fn failed_launch_runs_the_fallback() {
    let step = ExecuteStep::LaunchFused.next(false);
    assert_eq!(step, ExecuteStep::LaunchElementwise);
    let step = step.next(true);
    assert_eq!(step, ExecuteStep::RunFallback);
    assert_eq!(step.next(true), ExecuteStep::Done);
}

#[test]
fn saved_optimization_comes_back() {
    let saved = optimization().to_state();
    let restored = LowerTriangularCorrelateOptimization::from_state(&"device", 1u8, saved);
    assert_eq!(restored.num_ops_fused(), 4);
    let again = restored.to_state();
    assert_eq!(again.trace, "kernel");
    assert_eq!(again.trace_read_fallback, "elementwise");
    assert_eq!(again.len, 4);
    assert_eq!(again.fallback_pos, 3);
    assert_eq!(again.correlate.independent, FuseArg::Other(5));
    assert_eq!(again.correlate.lower, FuseArg::Input(1));
    assert_eq!(again.correlate.output, FuseArg::Other(6));
    assert_eq!(again.correlate.factors, 3);
    assert_eq!(again.correlate.op.lhs.shape, vec![7, 3]);
    assert_eq!(again.correlate.op.rhs.status, TensorStatus::ReadWrite);
}

#[test]
fn kernel_is_launched_with_one_unit_per_row() {
    let correlate = correlate();
    let launch = FusedLowerTriangularCorrelateLaunch::new(&correlate).run(
        &[10, 20],
        |config| vec![config + 1, 3],
        |units| (units, "grid"),
        AddressType::U32,
        AddressType::U32,
    );
    assert_eq!(*launch.config_read, 10);
    assert_eq!(*launch.config_write, 20);
    assert_eq!(launch.working_units, 21);
    assert_eq!(launch.grid, (21, "grid"));
    assert_eq!(launch.independent, FuseArg::Other(5));
    assert_eq!(launch.lower, FuseArg::Input(1));
    assert_eq!(launch.output, FuseArg::Other(6));
    assert_eq!(launch.factors, 3);
}

#[test]
fn kernel_uses_the_wider_address_type() {
    let correlate = correlate();
    let address_type = |inputs, outputs| {
        FusedLowerTriangularCorrelateLaunch::new(&correlate)
            .run(&[0, 0], |_| vec![1, 3], |units| units, inputs, outputs)
            .address_type
    };
    assert_eq!(
        address_type(AddressType::U32, AddressType::U32),
        AddressType::U32
    );
    assert_eq!(
        address_type(AddressType::U32, AddressType::U64),
        AddressType::U64
    );
    assert_eq!(
        address_type(AddressType::U64, AddressType::U32),
        AddressType::U64
    );
    assert_eq!(
        address_type(AddressType::U64, AddressType::U64),
        AddressType::U64
    );
}
