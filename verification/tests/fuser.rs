use lower_triangular_correlate::fuser::{
    Command, FuserProperties, FuserStatus, LowerTriangularCorrelateFuser, Reply, TraceState,
};
use lower_triangular_correlate::ir::{
    BinaryOpIr, DType, FuseArg, OperationIr, TensorIr, TensorStatus,
};
use lower_triangular_correlate::settings::{
    FuseSettings, RefLayoutSetting, TraceSettings, TraceSetup, VectorizationSetting,
};

type Fuser = LowerTriangularCorrelateFuser<&'static str>;

fn tensor(id: u64, shape: &[usize], dtype: DType) -> TensorIr {
    TensorIr {
        id,
        shape: shape.to_vec(),
        status: TensorStatus::ReadOnly,
        dtype,
    }
}

fn correlation(lhs: &[usize], rhs: &[usize], out: &[usize]) -> BinaryOpIr {
    BinaryOpIr {
        lhs: tensor(1, lhs, DType::F32),
        rhs: tensor(2, rhs, DType::F32),
        out: tensor(3, out, DType::F32),
    }
}

fn open(shape: &[usize]) -> TraceState {
    TraceState {
        status: FuserStatus::Open,
        current_output_shape: shape.to_vec(),
    }
}

fn fuse_other(fuser: &mut Fuser, kernel: bool, elementwise: bool) -> Command {
    assert!(matches!(
        fuser.fuse(&OperationIr::Other, &open(&[4, 2])),
        Command::AskCanFuse
    ));
    fuser.resume(Reply::CanFuse { kernel, elementwise })
}

fn register(fuser: &mut Fuser) {
    let op = correlation(&[4, 2], &[2, 2], &[4, 2]);
    fuser.fuse(&OperationIr::LowerTriangularCorrelate(op), &open(&[4, 2]));
    fuser.resume(Reply::Block {
        independent: FuseArg::Other(0),
    });
    fuser.resume(Reply::Lower {
        lower: Some(FuseArg::Input(2)),
    });
    fuser.resume(Reply::Output {
        output: FuseArg::Other(1),
    });
}

#[test]
fn valid_correlation_is_recognized() {
    assert!(Fuser::validate(&correlation(&[4, 2], &[2, 2], &[4, 2])));
    assert!(Fuser::validate(&correlation(&[0, 3], &[3, 3], &[0, 3])));
    assert!(Fuser::validate(&correlation(&[4, 0], &[0, 0], &[4, 0])));
}

#[test]
fn wrong_shapes_are_not_correlations() {
    assert!(!Fuser::validate(&correlation(&[4], &[2, 2], &[4])));
    assert!(!Fuser::validate(&correlation(&[4, 2, 1], &[2, 2], &[4, 2, 1])));
    assert!(!Fuser::validate(&correlation(&[4, 2], &[2], &[4, 2])));
    assert!(!Fuser::validate(&correlation(&[4, 2], &[2, 2, 2], &[4, 2])));
    assert!(!Fuser::validate(&correlation(&[4, 2], &[2, 2], &[2, 4])));
    assert!(!Fuser::validate(&correlation(&[4, 2], &[2, 2], &[4])));
    assert!(!Fuser::validate(&correlation(&[4, 2], &[3, 3], &[4, 2])));
    assert!(!Fuser::validate(&correlation(&[4, 2], &[2, 3], &[4, 2])));
}

#[test]
fn other_element_types_are_not_correlations() {
    for dtype in [DType::F64, DType::F16, DType::I32, DType::Bool] {
        let mut op = correlation(&[4, 2], &[2, 2], &[4, 2]);
        op.lhs.dtype = dtype;
        assert!(!Fuser::validate(&op));
        let mut op = correlation(&[4, 2], &[2, 2], &[4, 2]);
        op.rhs.dtype = dtype;
        assert!(!Fuser::validate(&op));
        let mut op = correlation(&[4, 2], &[2, 2], &[4, 2]);
        op.out.dtype = dtype;
        assert!(!Fuser::validate(&op));
    }
}

#[test]
fn traces_are_set_up_for_reading_and_by_default() {
    let (kernel, elementwise) = Fuser::trace_setups(16);
    assert_eq!(
        kernel,
        TraceSetup {
            max_bindings: 16,
            settings: TraceSettings::Custom(FuseSettings {
                inplace: true,
                broadcast: false,
                output_shape_updates: true,
                vectorization: VectorizationSetting::Deactivated,
                ref_layout: RefLayoutSetting::OnlyContiguous,
            }),
        }
    );
    assert_eq!(
        elementwise,
        TraceSetup {
            max_bindings: 16,
            settings: TraceSettings::Default,
        }
    );
}

#[test]
fn new_fuser_is_empty() {
    let fuser = Fuser::new("device");
    assert_eq!(fuser.len(), 0);
    assert_eq!(fuser.status(FuserStatus::Open), FuserStatus::Open);
    assert_eq!(fuser.status(FuserStatus::Closed), FuserStatus::Closed);
    let properties = fuser.properties(FuserProperties {
        score: 5,
        ready: true,
    });
    assert_eq!(
        properties,
        FuserProperties {
            score: 5,
            ready: false
        }
    );
}

#[test]
fn initialization_counts_without_kernel_work() {
    let mut fuser = Fuser::new("device");
    let command = fuser.fuse(&OperationIr::Init, &open(&[]));
    assert!(matches!(command, Command::Done));
    assert_eq!(fuser.len(), 1);
}

#[test]
fn elementwise_operation_needs_both_traces() {
    let mut fuser = Fuser::new("device");
    assert!(matches!(fuse_other(&mut fuser, true, true), Command::FuseBoth));
    assert_eq!(fuser.len(), 1);
    assert!(matches!(fuse_other(&mut fuser, true, false), Command::CloseBoth));
    assert!(matches!(fuse_other(&mut fuser, false, true), Command::CloseBoth));
    assert!(matches!(fuse_other(&mut fuser, false, false), Command::CloseBoth));
    assert_eq!(fuser.len(), 1);
}

#[test]
fn correlation_opens_the_write_block() {
    let mut fuser = Fuser::new("device");
    let op = correlation(&[4, 2], &[2, 2], &[4, 2]);
    let command = fuser.fuse(&OperationIr::LowerTriangularCorrelate(op), &open(&[4, 2]));
    match command {
        Command::NextBlock {
            tensor,
            settings,
            global,
        } => {
            assert_eq!(tensor.id, 1);
            assert!(!global);
            assert_eq!(
                settings,
                FuseSettings {
                    inplace: false,
                    broadcast: false,
                    output_shape_updates: false,
                    vectorization: VectorizationSetting::Deactivated,
                    ref_layout: RefLayoutSetting::OnlyContiguous,
                }
            );
        }
        other => panic!("expected a block, got {other:?}"),
    }
}

#[test]
fn invalid_correlation_ends_the_fusion() {
    let mut fuser = Fuser::new("device");
    let op = correlation(&[4, 2], &[3, 3], &[4, 2]);
    let command = fuser.fuse(&OperationIr::LowerTriangularCorrelate(op), &open(&[4, 2]));
    assert!(matches!(command, Command::CloseBoth));
    assert_eq!(fuser.len(), 0);
}

#[test]
fn correlation_of_another_shape_ends_the_fusion() {
    let mut fuser = Fuser::new("device");
    let op = correlation(&[4, 2], &[2, 2], &[4, 2]);
    let command = fuser.fuse(&OperationIr::LowerTriangularCorrelate(op), &open(&[8, 2]));
    assert!(matches!(command, Command::CloseBoth));
    let op = correlation(&[4, 2], &[2, 2], &[4, 2]);
    let command = fuser.fuse(&OperationIr::LowerTriangularCorrelate(op), &open(&[]));
    assert!(matches!(command, Command::CloseBoth));
    assert_eq!(fuser.len(), 0);
}

#[test]
fn correlation_without_columns_ends_the_fusion() {
    let mut fuser = Fuser::new("device");
    let op = correlation(&[4, 0], &[0, 0], &[4, 0]);
    let command = fuser.fuse(&OperationIr::LowerTriangularCorrelate(op), &open(&[4, 0]));
    assert!(matches!(command, Command::CloseBoth));
    assert_eq!(fuser.len(), 0);
}

#[test]
fn correlation_without_rows_is_accepted() {
    let mut fuser = Fuser::new("device");
    let op = correlation(&[0, 2], &[2, 2], &[0, 2]);
    let command = fuser.fuse(&OperationIr::LowerTriangularCorrelate(op), &open(&[0, 2]));
    assert!(matches!(command, Command::NextBlock { .. }));
}

#[test]
fn matrix_that_is_no_input_ends_the_fusion() {
    let mut fuser = Fuser::new("device");
    fuse_other(&mut fuser, true, true);
    let op = correlation(&[4, 2], &[2, 2], &[4, 2]);
    fuser.fuse(&OperationIr::LowerTriangularCorrelate(op), &open(&[4, 2]));
    fuser.resume(Reply::Block {
        independent: FuseArg::Other(0),
    });
    let command = fuser.resume(Reply::Lower { lower: None });
    assert!(matches!(command, Command::CloseBoth));
    assert_eq!(fuser.len(), 1);
    assert_eq!(fuser.status(FuserStatus::Open), FuserStatus::Open);
}

#[test]
fn registered_correlation_is_the_last_operation() {
    let mut fuser = Fuser::new("device");
    fuser.fuse(&OperationIr::Init, &open(&[4, 2]));
    fuse_other(&mut fuser, true, true);
    fuse_other(&mut fuser, true, true);
    register(&mut fuser);
    assert_eq!(fuser.len(), 4);

    let optimization = fuser.finish("client", "kernel", "elementwise");
    let state = optimization.to_state();
    assert_eq!(state.len, 4);
    assert_eq!(state.fallback_pos, 3);
    assert_eq!(state.trace, "kernel");
    assert_eq!(state.trace_read_fallback, "elementwise");
    assert_eq!(state.correlate.factors, 2);
    assert_eq!(state.correlate.independent, FuseArg::Other(0));
    assert_eq!(state.correlate.lower, FuseArg::Input(2));
    assert_eq!(state.correlate.output, FuseArg::Other(1));
    assert_eq!(state.correlate.op.lhs.shape, vec![4, 2]);
}

#[test]
fn registered_fuser_ignores_operations() {
    let mut fuser = Fuser::new("device");
    register(&mut fuser);
    for operation in [
        OperationIr::Other,
        OperationIr::Init,
        OperationIr::LowerTriangularCorrelate(correlation(&[4, 2], &[2, 2], &[4, 2])),
    ] {
        let command = fuser.fuse(&operation, &open(&[4, 2]));
        assert!(matches!(command, Command::Done));
        assert_eq!(fuser.len(), 1);
    }
}

#[test]
fn closed_trace_ignores_operations() {
    let mut fuser = Fuser::new("device");
    let closed = TraceState {
        status: FuserStatus::Closed,
        current_output_shape: vec![4, 2],
    };
    for operation in [
        OperationIr::Other,
        OperationIr::Init,
        OperationIr::LowerTriangularCorrelate(correlation(&[4, 2], &[2, 2], &[4, 2])),
    ] {
        let command = fuser.fuse(&operation, &closed);
        assert!(matches!(command, Command::Done));
        assert_eq!(fuser.len(), 0);
    }
}

#[test]
fn correlation_raises_the_score() {
    let mut fuser = Fuser::new("device");
    register(&mut fuser);
    assert_eq!(fuser.status(FuserStatus::Open), FuserStatus::Closed);
    let score = |score| fuser.properties(FuserProperties { score, ready: false });
    assert_eq!(score(0), FuserProperties { score: 210, ready: true });
    assert_eq!(score(u64::MAX - 210).score, u64::MAX);
    assert_eq!(score(u64::MAX - 5).score, u64::MAX);
}

#[test]
fn reset_fuser_is_like_a_new_one() {
    let mut fuser = Fuser::new("device");
    fuse_other(&mut fuser, true, true);
    register(&mut fuser);
    fuser.reset();
    assert_eq!(fuser.len(), 0);
    assert_eq!(fuser.status(FuserStatus::Open), FuserStatus::Open);
    register(&mut fuser);
    assert_eq!(fuser.finish("client", "a", "b").to_state().fallback_pos, 0);
}

#[test]
fn clone_goes_its_own_way() {
    let mut fuser = Fuser::new("device");
    fuse_other(&mut fuser, true, true);
    let op = correlation(&[4, 2], &[2, 2], &[4, 2]);
    fuser.fuse(&OperationIr::LowerTriangularCorrelate(op), &open(&[4, 2]));
    let mut clone = fuser.clone();
    let command = clone.resume(Reply::Block {
        independent: FuseArg::Other(0),
    });
    assert!(matches!(command, Command::InputIndexed { tensor } if tensor.id == 2));
    clone.resume(Reply::Lower { lower: None });
    assert_eq!(clone.len(), 1);
    let command = fuser.resume(Reply::Block {
        independent: FuseArg::Other(0),
    });
    assert!(matches!(command, Command::InputIndexed { .. }));
}

#[test]
fn refused_operation_ends_the_fusion_until_a_reset() {
    let mut fuser = Fuser::new("device");
    fuse_other(&mut fuser, true, true);
    assert!(matches!(fuse_other(&mut fuser, true, false), Command::CloseBoth));
    let closed = TraceState {
        status: FuserStatus::Closed,
        current_output_shape: vec![4, 2],
    };
    for operation in [
        OperationIr::Init,
        OperationIr::Other,
        OperationIr::LowerTriangularCorrelate(correlation(&[4, 2], &[2, 2], &[4, 2])),
    ] {
        assert!(matches!(fuser.fuse(&operation, &closed), Command::Done));
        assert_eq!(fuser.len(), 1);
        assert_eq!(fuser.status(FuserStatus::Closed), FuserStatus::Closed);
        let properties = fuser.properties(FuserProperties {
            score: 1,
            ready: true,
        });
        assert!(!properties.ready);
    }
    fuser.reset();
    register(&mut fuser);
    assert_eq!(fuser.len(), 1);
}

#[test]
fn correlation_needs_a_producer() {
    let mut fuser = Fuser::new("device");
    fuser.fuse(&OperationIr::Init, &open(&[]));
    let op = correlation(&[4, 2], &[2, 2], &[4, 2]);
    let command = fuser.fuse(&OperationIr::LowerTriangularCorrelate(op), &open(&[]));
    assert!(matches!(command, Command::CloseBoth));

    let mut fuser = Fuser::new("device");
    fuse_other(&mut fuser, true, true);
    register(&mut fuser);
    assert_eq!(fuser.len(), 2);
}

#[test]
fn length_adds_up_over_all_kinds_of_operations() {
    let mut fuser = Fuser::new("device");
    fuser.fuse(&OperationIr::Init, &open(&[]));
    fuse_other(&mut fuser, true, true);
    fuser.fuse(&OperationIr::Init, &open(&[4, 2]));
    fuse_other(&mut fuser, true, true);
    assert_eq!(fuser.len(), 4);
    register(&mut fuser);
    assert_eq!(fuser.len(), 5);
    fuser.fuse(&OperationIr::Init, &open(&[4, 2]));
    assert_eq!(fuser.len(), 5);
}
