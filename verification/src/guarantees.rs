//! What each operation of the library gives back, in terms of the values that go in.
//!
//! Every statement here is about any call of an executable function: what the call returns
//! and leaves behind, on the fields of its arguments.
use vstd::prelude::*;
use crate::fuser::{
    Command, FuserProperties, FuserStatus, FuserView, LowerTriangularCorrelateFuser, ProgressView,
    Reply, TraceState,
};
use crate::ir::{
    BinaryOpIr, BinaryOpView, DType, FuseArg, OperationIr, TensorIr, TensorView,
};
use crate::kernel::Arithmetic;
use crate::optimization::{
    AddressType, CorrelateView, ElemwiseRunner, ExecuteStep, FusedLowerTriangularCorrelate,
    FusedLowerTriangularCorrelateLaunch, KernelLaunch, LowerTriangularCorrelateOptimization,
    LowerTriangularCorrelateOptimizationState, LowerTriangularCorrelateTuneArg, TraceLaunch,
};
use crate::settings::{RefLayoutSetting, TraceSettings, TraceSetup, VectorizationSetting};

verus! {

/// Two tensors agree in all their parts.
pub open spec fn same_tensor(left: TensorIr, right: TensorIr) -> bool {
    &&& left.id == right.id
    &&& left.shape@ == right.shape@
    &&& left.status == right.status
    &&& left.dtype == right.dtype
}

/// Two operations agree in all their tensors.
pub open spec fn same_op(left: BinaryOpIr, right: BinaryOpIr) -> bool {
    &&& same_tensor(left.lhs, right.lhs)
    &&& same_tensor(left.rhs, right.rhs)
    &&& same_tensor(left.out, right.out)
}

/// A tensor has all the parts of its model.
pub open spec fn modelled_tensor(tensor: TensorIr, model: TensorView) -> bool {
    &&& model.id == tensor.id
    &&& model.shape == tensor.shape@
    &&& model.status == tensor.status
    &&& model.dtype == tensor.dtype
}

/// An operation has all the tensors of its model.
pub open spec fn modelled_op(op: BinaryOpIr, model: BinaryOpView) -> bool {
    &&& modelled_tensor(op.lhs, model.lhs)
    &&& modelled_tensor(op.rhs, model.rhs)
    &&& modelled_tensor(op.out, model.out)
}

/// Two correlations agree in all their parts.
pub open spec fn same_correlate(
    left: FusedLowerTriangularCorrelate,
    right: FusedLowerTriangularCorrelate,
) -> bool {
    &&& left.independent == right.independent
    &&& left.lower == right.lower
    &&& left.output == right.output
    &&& left.factors == right.factors
    &&& same_op(left.op, right.op)
}

/// The clone of a tensor agrees with it in all parts.
pub proof fn cloned_tensor_is_the_same(tensor: TensorIr, clone: TensorIr)
    requires
        call_ensures(TensorIr::clone, (&tensor,), clone),
    ensures
        same_tensor(clone, tensor),
{
    assert(clone@.shape == tensor@.shape);
}

/// The clone of an operation agrees with it in all parts.
pub proof fn cloned_op_is_the_same(op: BinaryOpIr, clone: BinaryOpIr)
    requires
        call_ensures(BinaryOpIr::clone, (&op,), clone),
    ensures
        same_op(clone, op),
{
    assert(clone@.lhs == op@.lhs && clone@.rhs == op@.rhs && clone@.out == op@.out);
}

/// The clone of a correlation agrees with it in all parts.
pub proof fn cloned_correlate_is_the_same(
    correlate: FusedLowerTriangularCorrelate,
    clone: FusedLowerTriangularCorrelate,
)
    requires
        call_ensures(FusedLowerTriangularCorrelate::clone, (&correlate,), clone),
    ensures
        same_correlate(clone, correlate),
{
    assert(clone@.op == correlate@.op);
    assert(clone@.factors == correlate@.factors);
}

/// Two shapes are the same exactly when they have the same number of dimensions and agree in
/// each.
pub proof fn same_shapes_agree_in_every_dimension(
    left: Vec<usize>,
    right: Vec<usize>,
    same: bool,
)
    requires
        call_ensures(crate::ir::same_shape, (&left, &right), same),
    ensures
        same <==> left@.len() == right@.len() && forall|d: int|
            0 <= d < left@.len() ==> #[trigger] left@[d] == right@[d],
{
    if left@.len() == right@.len() && forall|d: int|
        0 <= d < left@.len() ==> #[trigger] left@[d] == right@[d] {
        assert(left@ =~= right@);
    }
}

/// A new fuser has seen nothing.
pub proof fn new_fuser_has_seen_nothing<D>(device: D, fuser: LowerTriangularCorrelateFuser<D>)
    requires
        call_ensures(LowerTriangularCorrelateFuser::<D>::new, (device,), fuser),
    ensures
        fuser@.correlate is None,
        fuser@.len_stream == 0,
        fuser@.fallback_pos == 0,
        fuser@.progress is Idle,
        fuser.device() == device,
        fuser@.wf(),
{
}

/// A reset fuser has seen nothing, and keeps its device.
pub proof fn reset_fuser_has_seen_nothing<D>(fuser: &mut LowerTriangularCorrelateFuser<D>)
    requires
        call_ensures(LowerTriangularCorrelateFuser::<D>::reset, (fuser,), ()),
    ensures
        final(fuser)@.correlate is None,
        final(fuser)@.len_stream == 0,
        final(fuser)@.fallback_pos == 0,
        final(fuser)@.progress is Idle,
        final(fuser).device() == old(fuser).device(),
        final(fuser)@.wf(),
{
}

/// A fuser is well-formed exactly when its length is a machine integer; when it has no
/// correlation and no position of one, or has an idle correlation of `f > 0` columns at its
/// last position; and when a correlation that is being dealt with has columns. A correlation
/// is of 32-bit floats, of shapes `[p, f]`, `[f, f]` and `[p, f]`.
pub proof fn well_formed_fuser(fuser: FuserView)
    ensures
        fuser.wf() <==> {
            &&& fuser.len_stream <= usize::MAX
            &&& fuser.correlate is None ==> fuser.fallback_pos == 0
            &&& fuser.correlate matches Some(correlate) ==> {
                &&& correlates_floats(correlate.op)
                &&& correlate.factors == correlate.op.lhs.shape[1]
                &&& correlate.factors > 0
                &&& fuser.fallback_pos + 1 == fuser.len_stream
                &&& fuser.progress is Idle
            }
            &&& fuser.progress matches ProgressView::BlockAsked { op } ==> correlates_floats(op)
                && op.lhs.shape[1] > 0
            &&& fuser.progress matches ProgressView::LowerAsked { op, .. } ==> correlates_floats(
                op,
            ) && op.lhs.shape[1] > 0
            &&& fuser.progress matches ProgressView::OutputAsked { op, .. } ==> correlates_floats(
                op,
            ) && op.lhs.shape[1] > 0
        },
{
    match fuser.correlate {
        Some(correlate) => {
            lemma_correlates_floats(correlate.op);
        },
        None => {},
    }
    match fuser.progress {
        ProgressView::BlockAsked { op } => {
            lemma_correlates_floats(op);
        },
        ProgressView::LowerAsked { op, .. } => {
            lemma_correlates_floats(op);
        },
        ProgressView::OutputAsked { op, .. } => {
            lemma_correlates_floats(op);
        },
        _ => {},
    }
}

/// The operation has 32-bit float tensors of shapes `[p, f]`, `[f, f]` and `[p, f]`.
pub open spec fn correlates_floats(op: BinaryOpView) -> bool {
    &&& op.lhs.dtype == DType::F32
    &&& op.rhs.dtype == DType::F32
    &&& op.out.dtype == DType::F32
    &&& exists|p: usize, f: usize|
        op.lhs.shape == #[trigger] seq![p, f] && op.rhs.shape == seq![f, f] && op.out.shape
            == seq![p, f]
}

proof fn lemma_correlates_floats(op: BinaryOpView)
    ensures
        op.is_correlation() <==> correlates_floats(op),
{
    if op.is_correlation() {
        let p = op.lhs.shape[0];
        let f = op.lhs.shape[1];
        assert(op.lhs.shape =~= seq![p, f]);
    }
    if correlates_floats(op) {
        let (p, f) = choose|p: usize, f: usize|
            op.lhs.shape == #[trigger] seq![p, f] && op.rhs.shape == seq![f, f] && op.out.shape
                == seq![p, f];
        assert(op.lhs.shape[1] == f);
    }
}

/// The two traces are created with all the bindings of the device: the kernel's trace in
/// place, contiguous, without broadcasts and vectors, and with a changing output shape; the
/// elementwise one by default.
pub proof fn traces_are_created_for_reading_and_by_default<D>(
    max_bindings: u32,
    setups: (TraceSetup, TraceSetup),
)
    requires
        call_ensures(
            LowerTriangularCorrelateFuser::<D>::trace_setups,
            (max_bindings,),
            setups,
        ),
    ensures
        setups.0.max_bindings == max_bindings,
        setups.1.max_bindings == max_bindings,
        setups.0.settings matches TraceSettings::Custom(settings) && settings.inplace
            && !settings.broadcast && settings.output_shape_updates && settings.vectorization
            == VectorizationSetting::Deactivated && settings.ref_layout
            == RefLayoutSetting::OnlyContiguous,
        setups.1.settings == TraceSettings::Default,
{
}

/// An operation is recognized exactly when its three tensors hold 32-bit floats and have the
/// shapes `[p, f]`, `[f, f]` and `[p, f]`, for any number of rows and columns.
pub proof fn correlations_of_all_sizes_are_recognized<D>(op: BinaryOpIr, valid: bool)
    requires
        call_ensures(LowerTriangularCorrelateFuser::<D>::validate, (&op,), valid),
    ensures
        forall|p: usize, f: usize|
            op.lhs.dtype == DType::F32 && op.rhs.dtype == DType::F32 && op.out.dtype == DType::F32
                && op.lhs.shape@ == #[trigger] seq![p, f] && op.rhs.shape@ == seq![f, f]
                && op.out.shape@ == seq![p, f] ==> valid,
        valid ==> {
            &&& op.lhs.dtype == DType::F32
            &&& op.rhs.dtype == DType::F32
            &&& op.out.dtype == DType::F32
            &&& exists|p: usize, f: usize|
                op.lhs.shape@ == #[trigger] seq![p, f] && op.rhs.shape@ == seq![f, f]
                    && op.out.shape@ == seq![p, f]
        },
{
    lemma_correlates_floats(op@);
}

/// Any operation can be handed to a fuser that is well-formed and deals with none, unless it
/// would be an initialization too many to count.
pub proof fn fuse_takes_any_operation<D>(
    fuser: &mut LowerTriangularCorrelateFuser<D>,
    operation: OperationIr,
    trace: TraceState,
)
    requires
        old(fuser)@.wf(),
        old(fuser)@.progress is Idle,
        operation is Init ==> old(fuser)@.len_stream < usize::MAX,
    ensures
        call_requires(
            LowerTriangularCorrelateFuser::<D>::fuse,
            (fuser, &operation, &trace),
        ),
{
}

/// Whatever an operation is, it leaves the device alone and the fuser well-formed.
pub proof fn fuse_keeps_the_fuser_well_formed<D>(
    fuser: &mut LowerTriangularCorrelateFuser<D>,
    operation: OperationIr,
    trace: TraceState,
    command: Command,
)
    requires
        call_ensures(
            LowerTriangularCorrelateFuser::<D>::fuse,
            (fuser, &operation, &trace),
            command,
        ),
    ensures
        final(fuser)@.wf(),
        final(fuser).device() == old(fuser).device(),
        final(fuser)@.fallback_pos == old(fuser)@.fallback_pos,
        final(fuser)@.correlate == old(fuser)@.correlate,
{
}

/// A fuser with a correlation, or with a closed trace, ignores every operation.
pub proof fn operations_after_the_end_are_ignored<D>(
    fuser: &mut LowerTriangularCorrelateFuser<D>,
    operation: OperationIr,
    trace: TraceState,
    command: Command,
)
    requires
        call_ensures(
            LowerTriangularCorrelateFuser::<D>::fuse,
            (fuser, &operation, &trace),
            command,
        ),
        old(fuser)@.correlate is Some || trace.status == FuserStatus::Closed,
    ensures
        command is Done,
        final(fuser)@ == old(fuser)@,
{
}

/// An initialization that arrives while the fusion is open joins it and asks for nothing,
/// whatever the trace produces: only the length changes, by one.
pub proof fn initialization_joins_and_keeps_fusion_open<D>(
    fuser: &mut LowerTriangularCorrelateFuser<D>,
    operation: OperationIr,
    trace: TraceState,
    command: Command,
)
    requires
        call_ensures(
            LowerTriangularCorrelateFuser::<D>::fuse,
            (fuser, &operation, &trace),
            command,
        ),
        operation is Init,
        old(fuser)@.correlate is None,
        trace.status == FuserStatus::Open,
    ensures
        command is Done,
        final(fuser)@.len_stream == old(fuser)@.len_stream + 1,
        final(fuser)@.correlate is None,
        final(fuser)@.fallback_pos == old(fuser)@.fallback_pos,
        final(fuser)@.progress == old(fuser)@.progress,
{
}

/// An initialization changes no later decision: any operation that arrives after it is
/// answered as it would have been without it, and adds as much to the length.
pub proof fn initialization_changes_no_later_decision<D>(
    first: &mut LowerTriangularCorrelateFuser<D>,
    initialization: OperationIr,
    trace: TraceState,
    command: Command,
    second: &mut LowerTriangularCorrelateFuser<D>,
    without: &mut LowerTriangularCorrelateFuser<D>,
    operation: OperationIr,
    later: TraceState,
    with_command: Command,
    without_command: Command,
)
    requires
        initialization is Init,
        *old(without) == *old(first),
        *old(second) == *final(first),
        call_ensures(
            LowerTriangularCorrelateFuser::<D>::fuse,
            (first, &initialization, &trace),
            command,
        ),
        call_ensures(
            LowerTriangularCorrelateFuser::<D>::fuse,
            (second, &operation, &later),
            with_command,
        ),
        call_ensures(
            LowerTriangularCorrelateFuser::<D>::fuse,
            (without, &operation, &later),
            without_command,
        ),
    ensures
        with_command is Done <==> without_command is Done,
        with_command is AskCanFuse <==> without_command is AskCanFuse,
        with_command is FuseBoth <==> without_command is FuseBoth,
        with_command is CloseBoth <==> without_command is CloseBoth,
        with_command is NextBlock <==> without_command is NextBlock,
        final(second)@.progress == final(without)@.progress,
        final(second)@.correlate == final(without)@.correlate,
        final(second)@.len_stream - old(second)@.len_stream == final(without)@.len_stream - old(
            without,
        )@.len_stream,
{
}

/// An operation that is neither an initialization nor a correlation makes an open fuser ask
/// both traces, and changes nothing yet.
pub proof fn other_operation_asks_both_traces<D>(
    fuser: &mut LowerTriangularCorrelateFuser<D>,
    operation: OperationIr,
    trace: TraceState,
    command: Command,
)
    requires
        call_ensures(
            LowerTriangularCorrelateFuser::<D>::fuse,
            (fuser, &operation, &trace),
            command,
        ),
        operation is Other,
        old(fuser)@.correlate is None,
        trace.status == FuserStatus::Open,
    ensures
        command is AskCanFuse,
        final(fuser)@ == (FuserView { progress: ProgressView::Asked, ..old(fuser)@ }),
{
}

/// A correlation that arrives while the fusion is open starts a block exactly when its
/// tensors hold 32-bit floats and have the shapes `[p, f]`, `[f, f]` and `[p, f]` with
/// `f > 0`, and the trace produces the shape `[p, f]` too. In every other case, such as a
/// trace whose shape differs in some dimension, it closes both traces and changes nothing.
pub proof fn correlation_starts_block_exactly_on_matching_shapes<D>(
    fuser: &mut LowerTriangularCorrelateFuser<D>,
    op: BinaryOpIr,
    operation: OperationIr,
    trace: TraceState,
    command: Command,
)
    requires
        operation == OperationIr::LowerTriangularCorrelate(op),
        call_ensures(
            LowerTriangularCorrelateFuser::<D>::fuse,
            (fuser, &operation, &trace),
            command,
        ),
        old(fuser)@.correlate is None,
        trace.status == FuserStatus::Open,
    ensures
        forall|p: usize, f: usize|
            f > 0 && op.lhs.dtype == DType::F32 && op.rhs.dtype == DType::F32 && op.out.dtype
                == DType::F32 && op.lhs.shape@ == #[trigger] seq![p, f] && op.rhs.shape@
                == seq![f, f] && op.out.shape@ == seq![p, f] && trace.current_output_shape@
                == seq![p, f] ==> command is NextBlock,
        command is NextBlock ==> {
            &&& op.lhs.dtype == DType::F32
            &&& op.rhs.dtype == DType::F32
            &&& op.out.dtype == DType::F32
            &&& exists|p: usize, f: usize|
                f > 0 && op.lhs.shape@ == #[trigger] seq![p, f] && op.rhs.shape@ == seq![f, f]
                    && op.out.shape@ == seq![p, f] && trace.current_output_shape@ == seq![p, f]
        },
        command !is NextBlock ==> command is CloseBoth && final(fuser)@ == old(fuser)@,
{
    lemma_correlates_floats(op@);
    if command is NextBlock {
        let p = op.lhs.shape@[0];
        let f = op.lhs.shape@[1];
        assert(op.lhs.shape@ =~= seq![p, f]);
    }
}

/// A trace that produces another shape than that of the left side, be it in one dimension or
/// in their number, ends the fusion when the correlation arrives.
pub proof fn correlation_of_another_shape_closes_both_traces<D>(
    fuser: &mut LowerTriangularCorrelateFuser<D>,
    op: BinaryOpIr,
    operation: OperationIr,
    trace: TraceState,
    command: Command,
)
    requires
        operation == OperationIr::LowerTriangularCorrelate(op),
        call_ensures(
            LowerTriangularCorrelateFuser::<D>::fuse,
            (fuser, &operation, &trace),
            command,
        ),
        old(fuser)@.correlate is None,
        trace.status == FuserStatus::Open,
        trace.current_output_shape@.len() != op.lhs.shape@.len() || exists|d: int|
            0 <= d < op.lhs.shape@.len() && #[trigger] trace.current_output_shape@[d]
                != op.lhs.shape@[d],
    ensures
        command is CloseBoth,
        final(fuser)@ == old(fuser)@,
{
}

/// The block that a correlation starts reads its left side, writes to a fixed contiguous
/// output, one element at a time, and neither broadcasts nor reuses its inputs. The fuser
/// waits for it with the operation in hand.
pub proof fn started_block_reads_the_left_side<D>(
    fuser: &mut LowerTriangularCorrelateFuser<D>,
    op: BinaryOpIr,
    operation: OperationIr,
    trace: TraceState,
    command: Command,
)
    requires
        operation == OperationIr::LowerTriangularCorrelate(op),
        call_ensures(
            LowerTriangularCorrelateFuser::<D>::fuse,
            (fuser, &operation, &trace),
            command,
        ),
        command is NextBlock,
    ensures
        same_tensor(command->NextBlock_tensor, op.lhs),
        !command->NextBlock_global,
        !command->NextBlock_settings.inplace,
        !command->NextBlock_settings.broadcast,
        !command->NextBlock_settings.output_shape_updates,
        command->NextBlock_settings.vectorization == VectorizationSetting::Deactivated,
        command->NextBlock_settings.ref_layout == RefLayoutSetting::OnlyContiguous,
        final(fuser)@.progress matches ProgressView::BlockAsked { op: model } && modelled_op(
            op,
            model,
        ),
        final(fuser)@.correlate is None,
        final(fuser)@.len_stream == old(fuser)@.len_stream,
        final(fuser)@.fallback_pos == old(fuser)@.fallback_pos,
{
}

/// The fuser takes the answer to what it asked, and needs room to count only where it counts.
pub proof fn resume_takes_the_answer<D>(
    fuser: &mut LowerTriangularCorrelateFuser<D>,
    reply: Reply,
)
    requires
        old(fuser)@.wf(),
        match old(fuser)@.progress {
            ProgressView::Idle => false,
            ProgressView::Asked => reply matches Reply::CanFuse { kernel, elementwise } && (kernel
                && elementwise ==> old(fuser)@.len_stream < usize::MAX),
            ProgressView::BlockAsked { .. } => reply is Block,
            ProgressView::LowerAsked { .. } => reply is Lower,
            ProgressView::OutputAsked { .. } => reply is Output && old(fuser)@.len_stream
                < usize::MAX,
        },
    ensures
        call_requires(LowerTriangularCorrelateFuser::<D>::resume, (fuser, reply)),
{
}

/// An elementwise operation is fused into both traces exactly when both can take it: it then
/// counts once, and otherwise both traces are closed and nothing changes.
pub proof fn elementwise_operation_joins_exactly_if_both_traces_can<D>(
    fuser: &mut LowerTriangularCorrelateFuser<D>,
    kernel: bool,
    elementwise: bool,
    command: Command,
)
    requires
        call_ensures(
            LowerTriangularCorrelateFuser::<D>::resume,
            (fuser, Reply::CanFuse { kernel, elementwise }),
            command,
        ),
        old(fuser)@.progress is Asked,
    ensures
        kernel && elementwise ==> command is FuseBoth && final(fuser)@.len_stream == old(
            fuser,
        )@.len_stream + 1,
        !(kernel && elementwise) ==> command is CloseBoth && final(fuser)@.len_stream == old(
            fuser,
        )@.len_stream,
        final(fuser)@.progress is Idle,
        final(fuser)@.correlate == old(fuser)@.correlate,
        final(fuser)@.fallback_pos == old(fuser)@.fallback_pos,
        final(fuser).device() == old(fuser).device(),
        final(fuser)@.wf(),
{
}

/// Once the block is started, the right side of the correlation is to be read by index.
pub proof fn started_block_asks_for_the_right_side<D>(
    fuser: &mut LowerTriangularCorrelateFuser<D>,
    independent: FuseArg,
    command: Command,
)
    requires
        call_ensures(
            LowerTriangularCorrelateFuser::<D>::resume,
            (fuser, Reply::Block { independent }),
            command,
        ),
        old(fuser)@.progress is BlockAsked,
    ensures
        ({
            let op = old(fuser)@.progress->BlockAsked_op;
            &&& command is InputIndexed
            &&& modelled_tensor(command->InputIndexed_tensor, op.rhs)
            &&& final(fuser)@ == FuserView {
                progress: ProgressView::LowerAsked { op, independent },
                ..old(fuser)@
            }
        }),
        final(fuser).device() == old(fuser).device(),
        final(fuser)@.wf(),
{
}

/// A right side that the trace can place asks for the output of the correlation; one that it
/// cannot place closes both traces and leaves nothing behind.
pub proof fn placed_right_side_asks_for_the_output<D>(
    fuser: &mut LowerTriangularCorrelateFuser<D>,
    lower: Option<FuseArg>,
    command: Command,
)
    requires
        call_ensures(
            LowerTriangularCorrelateFuser::<D>::resume,
            (fuser, Reply::Lower { lower }),
            command,
        ),
        old(fuser)@.progress is LowerAsked,
    ensures
        ({
            let op = old(fuser)@.progress->LowerAsked_op;
            let independent = old(fuser)@.progress->LowerAsked_independent;
            match lower {
                Some(lower) => {
                    &&& command is OutputUnhandled
                    &&& modelled_tensor(command->OutputUnhandled_tensor, op.out)
                    &&& final(fuser)@ == FuserView {
                        progress: ProgressView::OutputAsked { op, independent, lower },
                        ..old(fuser)@
                    }
                },
                None => {
                    &&& command is CloseBoth
                    &&& final(fuser)@ == FuserView { progress: ProgressView::Idle, ..old(fuser)@ }
                },
            }
        }),
        final(fuser).device() == old(fuser).device(),
        final(fuser)@.wf(),
{
}

/// With the output placed, the correlation is registered with the three arguments that the
/// trace gave, with as many factors as its left side has columns, at the position after all
/// operations before it, and both traces are closed.
pub proof fn placed_output_registers_the_correlation<D>(
    fuser: &mut LowerTriangularCorrelateFuser<D>,
    output: FuseArg,
    command: Command,
)
    requires
        call_ensures(
            LowerTriangularCorrelateFuser::<D>::resume,
            (fuser, Reply::Output { output }),
            command,
        ),
        old(fuser)@.progress is OutputAsked,
    ensures
        ({
            let op = old(fuser)@.progress->OutputAsked_op;
            let correlate = CorrelateView {
                independent: old(fuser)@.progress->OutputAsked_independent,
                lower: old(fuser)@.progress->OutputAsked_lower,
                output,
                factors: op.lhs.shape[1] as nat,
                op,
            };
            &&& command is CloseBoth
            &&& final(fuser)@.correlate == Some(correlate)
            &&& final(fuser)@.fallback_pos == old(fuser)@.len_stream
            &&& final(fuser)@.len_stream == old(fuser)@.len_stream + 1
            &&& final(fuser)@.progress is Idle
        }),
        final(fuser).device() == old(fuser).device(),
        final(fuser)@.wf(),
{
}

/// The status is closed exactly when there is a correlation or the trace is closed.
pub proof fn status_is_closed_by_correlation_or_trace<D>(
    fuser: LowerTriangularCorrelateFuser<D>,
    trace: FuserStatus,
    status: FuserStatus,
)
    requires
        call_ensures(LowerTriangularCorrelateFuser::<D>::status, (&fuser, trace), status),
    ensures
        status == FuserStatus::Closed <==> fuser@.correlate is Some || trace
            == FuserStatus::Closed,
{
}

/// The fusion is ready exactly when there is a correlation. It then scores 210 more than its
/// trace, or the most there is; without one it scores what the trace does.
pub proof fn correlation_adds_to_the_score<D>(
    fuser: LowerTriangularCorrelateFuser<D>,
    trace: FuserProperties,
    properties: FuserProperties,
)
    requires
        call_ensures(
            LowerTriangularCorrelateFuser::<D>::properties,
            (&fuser, trace),
            properties,
        ),
    ensures
        properties.ready <==> fuser@.correlate is Some,
        fuser@.correlate is None ==> properties.score == trace.score,
        fuser@.correlate is Some && trace.score + 210 <= u64::MAX ==> properties.score
            == trace.score + 210,
        fuser@.correlate is Some && trace.score + 210 > u64::MAX ==> properties.score == u64::MAX,
{
}

/// The length is the number of operations counted so far.
pub proof fn length_is_what_was_counted<D>(fuser: LowerTriangularCorrelateFuser<D>, len: usize)
    requires
        call_ensures(LowerTriangularCorrelateFuser::<D>::len, (&fuser,), len),
    ensures
        len == fuser@.len_stream,
{
}

/// The clone of a fuser has decided the same things, on a clone of the device.
pub proof fn cloned_fuser_has_decided_the_same<D: Clone>(
    fuser: LowerTriangularCorrelateFuser<D>,
    clone: LowerTriangularCorrelateFuser<D>,
)
    requires
        call_ensures(LowerTriangularCorrelateFuser::<D>::clone, (&fuser,), clone),
    ensures
        clone@.correlate == fuser@.correlate,
        clone@.len_stream == fuser@.len_stream,
        clone@.fallback_pos == fuser@.fallback_pos,
        clone@.progress == fuser@.progress,
        cloned(fuser.device(), clone.device()),
{
}

/// A fuser with a correlation can be finished. What is saved of the result is the traces that
/// were handed over, each in its role, and the fuser's correlation, length and position.
pub proof fn finished_fuser_is_saved_as_decided<T: Clone, C, D: Clone>(
    fuser: &mut LowerTriangularCorrelateFuser<D>,
    client: C,
    trace: T,
    trace_read_fallback: T,
    optimization: LowerTriangularCorrelateOptimization<T, C, D>,
    state: LowerTriangularCorrelateOptimizationState<T>,
)
    requires
        old(fuser)@.correlate is Some,
        call_ensures(
            LowerTriangularCorrelateFuser::<D>::finish::<T, C>,
            (fuser, client, trace, trace_read_fallback),
            optimization,
        ),
        call_ensures(
            LowerTriangularCorrelateOptimization::<T, C, D>::to_state,
            (&optimization,),
            state,
        ),
    ensures
        call_requires(
            LowerTriangularCorrelateFuser::<D>::finish::<T, C>,
            (fuser, client, trace, trace_read_fallback),
        ),
        *final(fuser) == *old(fuser),
        cloned(trace, state.trace),
        cloned(trace_read_fallback, state.trace_read_fallback),
        state.len == old(fuser)@.len_stream,
        state.fallback_pos == old(fuser)@.fallback_pos,
        state.correlate.independent == old(fuser)@.correlate->0.independent,
        state.correlate.lower == old(fuser)@.correlate->0.lower,
        state.correlate.output == old(fuser)@.correlate->0.output,
        state.correlate.factors == old(fuser)@.correlate->0.factors,
        modelled_op(state.correlate.op, old(fuser)@.correlate->0.op),
        optimization@.client == client,
        cloned(old(fuser).device(), optimization@.device),
{
    assert(state.correlate@ == old(fuser)@.correlate->0);
    assert(state.correlate@.factors == state.correlate.factors);
}

/// An optimization counts and saves what it was made of: the length, the position and the
/// correlation as they were given, and clones of the traces, each in its role.
pub proof fn new_optimization_is_saved_as_given<T: Clone, C, D>(
    trace: T,
    trace_read_fallback: T,
    client: C,
    device: D,
    len: usize,
    fallback_pos: usize,
    correlate: FusedLowerTriangularCorrelate,
    optimization: LowerTriangularCorrelateOptimization<T, C, D>,
    state: LowerTriangularCorrelateOptimizationState<T>,
    ops: usize,
)
    requires
        call_ensures(
            LowerTriangularCorrelateOptimization::<T, C, D>::new,
            (trace, trace_read_fallback, client, device, len, fallback_pos, correlate),
            optimization,
        ),
        call_ensures(
            LowerTriangularCorrelateOptimization::<T, C, D>::to_state,
            (&optimization,),
            state,
        ),
        call_ensures(
            LowerTriangularCorrelateOptimization::<T, C, D>::num_ops_fused,
            (&optimization,),
            ops,
        ),
    ensures
        ops == len,
        cloned(trace, state.trace),
        cloned(trace_read_fallback, state.trace_read_fallback),
        state.len == len,
        state.fallback_pos == fallback_pos,
        same_correlate(state.correlate, correlate),
{
    lemma_same_correlate(state.correlate, correlate);
}

/// An optimization that is restored from a saved state counts and saves what the state holds.
pub proof fn restored_optimization_is_saved_as_it_was<T: Clone, C, D: Clone>(
    device: D,
    client: C,
    saved: LowerTriangularCorrelateOptimizationState<T>,
    optimization: LowerTriangularCorrelateOptimization<T, C, D>,
    state: LowerTriangularCorrelateOptimizationState<T>,
    ops: usize,
)
    requires
        call_ensures(
            LowerTriangularCorrelateOptimization::<T, C, D>::from_state,
            (&device, client, saved),
            optimization,
        ),
        call_ensures(
            LowerTriangularCorrelateOptimization::<T, C, D>::to_state,
            (&optimization,),
            state,
        ),
        call_ensures(
            LowerTriangularCorrelateOptimization::<T, C, D>::num_ops_fused,
            (&optimization,),
            ops,
        ),
    ensures
        ops == saved.len,
        cloned(saved.trace, state.trace),
        cloned(saved.trace_read_fallback, state.trace_read_fallback),
        state.len == saved.len,
        state.fallback_pos == saved.fallback_pos,
        same_correlate(state.correlate, saved.correlate),
        optimization@.client == client,
        cloned(device, optimization@.device),
{
    lemma_same_correlate(state.correlate, saved.correlate);
}

proof fn lemma_same_correlate(
    left: FusedLowerTriangularCorrelate,
    right: FusedLowerTriangularCorrelate,
)
    requires
        left@ == right@,
    ensures
        same_correlate(left, right),
{
    assert(left@.factors == right@.factors);
    assert(left@.op == right@.op);
    assert(left@.op.lhs.shape == right@.op.lhs.shape);
    assert(left@.op.rhs.shape == right@.op.rhs.shape);
    assert(left@.op.out.shape == right@.op.out.shape);
}

/// An execution starts with the fused kernel. It holds the fallback operation that stands at
/// the given position; it launches the first trace by the fused runner and, if it comes to
/// that, the second one by the elementwise runner, both on the given client and device.
pub proof fn execution_launches_what_was_given<T, C, D, B, F: FnOnce(usize) -> B>(
    trace: T,
    trace_read_fallback: T,
    client: C,
    device: D,
    len: usize,
    fallback_pos: usize,
    correlate: FusedLowerTriangularCorrelate,
    optimization: &mut LowerTriangularCorrelateOptimization<T, C, D>,
    fallback: F,
    execution: (LowerTriangularCorrelateTuneArg<T, C, D, B>, ExecuteStep),
    fused: TraceLaunch<'static, T, C, D, FusedLowerTriangularCorrelateLaunch<'static>>,
    elementwise: TraceLaunch<'static, T, C, D, ElemwiseRunner>,
    operation: B,
)
    requires
        call_ensures(
            LowerTriangularCorrelateOptimization::<T, C, D>::new,
            (trace, trace_read_fallback, client, device, len, fallback_pos, correlate),
            *old(optimization),
        ),
        call_ensures(
            LowerTriangularCorrelateOptimization::<T, C, D>::execute::<B, F>,
            (optimization, fallback),
            execution,
        ),
        call_ensures(
            LowerTriangularCorrelateTuneArg::<T, C, D, B>::execute_fused,
            (&execution.0,),
            fused,
        ),
        call_ensures(
            LowerTriangularCorrelateTuneArg::<T, C, D, B>::execute_fallback,
            (&execution.0,),
            elementwise,
        ),
        call_ensures(
            LowerTriangularCorrelateTuneArg::<T, C, D, B>::into_fallback,
            (execution.0,),
            operation,
        ),
    ensures
        *final(optimization) == *old(optimization),
        execution.1 == ExecuteStep::LaunchFused,
        call_ensures(fallback, (fallback_pos,), operation),
        *fused.trace == trace,
        *fused.client == client,
        *fused.device == device,
        fused.runner@.independent == correlate.independent,
        fused.runner@.lower == correlate.lower,
        fused.runner@.output == correlate.output,
        fused.runner@.factors == correlate.factors,
        modelled_op(correlate.op, fused.runner@.op),
        *elementwise.trace == trace_read_fallback,
        *elementwise.client == client,
        *elementwise.device == device,
{
}

/// What follows each step of an execution: after the fused kernel, nothing if it was launched
/// and the elementwise operations if not; after those, the fallback operation; and after that
/// nothing.
pub proof fn execution_falls_back_only_after_a_failed_launch(
    step: ExecuteStep,
    succeeded: bool,
    next: ExecuteStep,
)
    requires
        call_ensures(ExecuteStep::next, (step, succeeded), next),
    ensures
        step == ExecuteStep::LaunchFused && succeeded ==> next == ExecuteStep::Done,
        step == ExecuteStep::LaunchFused && !succeeded ==> next
            == ExecuteStep::LaunchElementwise,
        step == ExecuteStep::LaunchElementwise && succeeded ==> next == ExecuteStep::RunFallback,
        step == ExecuteStep::RunFallback ==> next == ExecuteStep::Done,
        step == ExecuteStep::Done ==> next == ExecuteStep::Done,
{
}

/// The kernel is launched on one unit per row of the shape that the second block works on,
/// spread as the host does for that many units, with the two blocks in their order, with the
/// wider of the two address types, and with the arguments and factors of the correlation.
pub proof fn kernel_is_launched_for_the_rows_of_the_output<
    K,
    G,
    S: FnOnce(&'static K) -> Vec<usize>,
    P: FnOnce(usize) -> G,
>(
    correlate: FusedLowerTriangularCorrelate,
    runner: FusedLowerTriangularCorrelateLaunch<'static>,
    configs: &'static [K],
    output_shape: S,
    grid: P,
    inputs: AddressType,
    outputs: AddressType,
    launch: KernelLaunch<'static, K, G>,
)
    requires
        call_ensures(FusedLowerTriangularCorrelateLaunch::new, (&correlate,), runner),
        call_ensures(
            FusedLowerTriangularCorrelateLaunch::run::<K, G, S, P>,
            (&runner, configs, output_shape, grid, inputs, outputs),
            launch,
        ),
    ensures
        *launch.config_read == configs@[0],
        *launch.config_write == configs@[1],
        exists|shape: Vec<usize>| #[trigger]
            call_ensures(output_shape, (&configs@[1],), shape) && launch.working_units
                == shape@[0],
        call_ensures(grid, (launch.working_units,), launch.grid),
        launch.address_type == AddressType::U32 <==> inputs == AddressType::U32 && outputs
            == AddressType::U32,
        launch.independent == correlate.independent,
        launch.lower == correlate.lower,
        launch.output == correlate.output,
        launch.factors == correlate.factors,
{
    assert(runner@.factors == correlate@.factors);
}

/// The matrix is the input buffer that the argument names.
pub proof fn matrix_is_the_named_input<T>(
    inputs: Vec<Vec<T>>,
    position: usize,
    matrix: &'static Vec<T>,
)
    requires
        position < inputs@.len(),
        call_ensures(
            crate::kernel::lower_as_slice::<T>,
            (&inputs, FuseArg::Input(position)),
            matrix,
        ),
    ensures
        matrix@ == inputs@[position as int]@,
{
}

/// Arithmetic is total exactly when every pair of elements has a product and a sum.
pub proof fn total_arithmetic<T, M: Fn(T, T) -> T, A: Fn(T, T) -> T>(
    arithmetic: Arithmetic<T, M, A>,
)
    ensures
        arithmetic.total() <==> {
            &&& forall|x: T, y: T| #[trigger] call_requires(arithmetic.times, (x, y))
            &&& forall|x: T, y: T| #[trigger] call_requires(arithmetic.plus, (x, y))
        },
{
}

/// A unit can run on any buffers that hold its row and the whole matrix, and a unit past the
/// rows on any buffers at all.
pub proof fn unit_runs_on_buffers_that_hold_its_row<
    T: Copy,
    R: Fn(usize) -> T,
    M: Fn(T, T) -> T,
    A: Fn(T, T) -> T,
>(
    inputs: Vec<Vec<T>>,
    output: &mut Vec<T>,
    read: R,
    input: usize,
    arithmetic: Arithmetic<T, M, A>,
    factors: usize,
    paths: usize,
    pos: usize,
)
    requires
        forall|x: T, y: T| #[trigger] call_requires(arithmetic.times, (x, y)),
        forall|x: T, y: T| #[trigger] call_requires(arithmetic.plus, (x, y)),
        input < inputs@.len(),
        pos < paths ==> inputs@[input as int].len() >= factors * factors,
        pos < paths ==> old(output).len() >= pos * factors + factors,
        pos < paths ==> forall|position: usize|
            pos * factors <= position < pos * factors + factors ==> #[trigger] call_requires(
                read,
                (position,),
            ),
    ensures
        call_requires(
            crate::kernel::lower_triangular_correlate_fused::<T, R, M, A>,
            (&inputs, output, &read, FuseArg::Input(input), &arithmetic, factors, paths, pos),
        ),
{
}

/// A unit writes its own row and nothing else: no other element changes, and none at all if
/// the unit is past the rows.
pub proof fn unit_writes_nothing_but_its_row<
    T: Copy,
    R: Fn(usize) -> T,
    M: Fn(T, T) -> T,
    A: Fn(T, T) -> T,
>(
    inputs: Vec<Vec<T>>,
    output: &mut Vec<T>,
    read: R,
    lower: FuseArg,
    arithmetic: Arithmetic<T, M, A>,
    factors: usize,
    paths: usize,
    pos: usize,
)
    requires
        call_ensures(
            crate::kernel::lower_triangular_correlate_fused::<T, R, M, A>,
            (&inputs, output, &read, lower, &arithmetic, factors, paths, pos),
            (),
        ),
    ensures
        final(output)@.len() == old(output)@.len(),
        pos >= paths ==> final(output)@ == old(output)@,
        forall|i: int|
            0 <= i < old(output)@.len() && (i < pos * factors || i >= pos * factors + factors)
                ==> #[trigger] final(output)@[i] == old(output)@[i],
{
}

/// Element `j` of the row that a unit writes is a running sum: it starts from zero and adds,
/// for each `k` from 0 to `j`, the value at `pos * factors + k` times the matrix element at
/// `j * factors + k`.
pub proof fn unit_sums_its_row_up_to_the_diagonal<
    T: Copy,
    R: Fn(usize) -> T,
    M: Fn(T, T) -> T,
    A: Fn(T, T) -> T,
>(
    inputs: Vec<Vec<T>>,
    output: &mut Vec<T>,
    read: R,
    element: spec_fn(usize) -> T,
    input: usize,
    arithmetic: Arithmetic<T, M, A>,
    times: spec_fn(T, T) -> T,
    plus: spec_fn(T, T) -> T,
    factors: usize,
    paths: usize,
    pos: usize,
    j: int,
)
    requires
        input < inputs@.len(),
        pos < paths,
        0 <= j < factors,
        forall|position: usize, value: T| #[trigger]
            call_ensures(read, (position,), value) ==> value == element(position),
        forall|x: T, y: T, product: T| #[trigger]
            call_ensures(arithmetic.times, (x, y), product) ==> product == times(x, y),
        forall|x: T, y: T, sum: T| #[trigger]
            call_ensures(arithmetic.plus, (x, y), sum) ==> sum == plus(x, y),
        call_ensures(
            crate::kernel::lower_triangular_correlate_fused::<T, R, M, A>,
            (&inputs, output, &read, FuseArg::Input(input), &arithmetic, factors, paths, pos),
            (),
        ),
    ensures
        exists|sums: Seq<T>|
            #![trigger sums.len()]
            {
                &&& sums.len() == j + 2
                &&& sums[0] == arithmetic.zero
                &&& forall|k: int|
                    0 <= k <= j ==> sums[k + 1] == plus(
                        #[trigger] sums[k],
                        times(
                            element((pos * factors + k) as usize),
                            inputs@[input as int]@[j * factors + k],
                        ),
                    )
                &&& final(output)@[pos * factors + j] == sums[j + 1]
            },
{
    let lower = inputs@[input as int]@;
    let columns = factors as nat;
    let path = pos as int;
    assert(crate::kernel::correlates_path(
        arithmetic,
        read,
        lower,
        columns,
        path,
        final(output)@,
    ));
    let values = choose|values: Seq<T>|
        #![trigger crate::kernel::reads_path(read, columns, path, values)]
        crate::kernel::reads_path(read, columns, path, values) && forall|i: int|
            #![trigger crate::kernel::matrix_row(lower, columns, i)]
            0 <= i < columns ==> arithmetic.accumulates(
                values,
                crate::kernel::matrix_row(lower, columns, i),
                (i + 1) as nat,
                crate::kernel::matrix_row(final(output)@, columns, path)[i],
            );
    let weights = crate::kernel::matrix_row(lower, columns, j);
    let last = crate::kernel::matrix_row(final(output)@, columns, path)[j];
    let terms = (j + 1) as nat;
    assert(arithmetic.accumulates(values, weights, terms, last));
    let sums = choose|sums: Seq<T>|
        #![trigger arithmetic.partial_sums(values, weights, terms, sums)]
        arithmetic.partial_sums(values, weights, terms, sums) && sums[terms as int] == last;
    assert forall|k: int| 0 <= k <= j implies sums[k + 1] == plus(
        #[trigger] sums[k],
        times(element((pos * factors + k) as usize), lower[j * factors + k]),
    ) by {
        assert(arithmetic.adds_product(sums[k], values[k], weights[k], sums[k + 1]));
        assert(values[k] == element((pos * factors + k) as usize));
        assert(weights[k] == lower[j * factors + k]);
    }
    assert(sums.len() == j + 2);
}

} // verus!
