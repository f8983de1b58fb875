//! The fuser: which operations join the fused kernel, and what its two traces do for each.
//!
//! The host keeps two traces of the operations. One becomes the fused kernel; the other
//! holds the elementwise operations alone, for the case that the fused kernel cannot be
//! launched. The fuser decides what is done to them: for each operation,
//! [`LowerTriangularCorrelateFuser::fuse`] gives a first [`Command`], and each command that
//! asks for something is answered by a [`Reply`] to
//! [`LowerTriangularCorrelateFuser::resume`], which gives the next one.
use vstd::prelude::*;
use crate::ir::{
    same_shape, BinaryOpIr, BinaryOpView, DType, FuseArg, OperationIr, OperationView, TensorIr,
    TensorView,
};
use crate::optimization::{
    CorrelateView, FusedLowerTriangularCorrelate, LowerTriangularCorrelateOptimization,
    OptimizationView,
};
use crate::settings::{
    FuseSettings, RefLayoutSetting, TraceSettings, TraceSetup, VectorizationSetting,
};

verus! {

/// What a fused correlation adds to the score of its trace. The kernel removes the write of
/// the producers' output, the correlation's read of it, and the extra kernel launch that
/// there would be in between.
pub const CORRELATE_SCORE: u64 = 210;

/// Whether a trace or a fuser takes more operations.
#[derive(Clone, Copy, Debug, PartialEq, Eq, Structural)]
pub enum FuserStatus {
    /// No more operations can be fused.
    Closed,
    /// More operations can be fused.
    Open,
}

/// How good a fusion is, and whether it can run.
#[derive(Clone, Copy, Debug, PartialEq, Eq, Structural)]
pub struct FuserProperties {
    /// Higher is better.
    pub score: u64,
    /// Whether the fusion can be executed.
    pub ready: bool,
}

/// What the fuser reads of the trace that becomes the fused kernel.
#[derive(Debug)]
pub struct TraceState {
    pub status: FuserStatus,
    /// The shape of what the operations fused so far produce.
    pub current_output_shape: Vec<usize>,
}

/// What a [`TraceState`] stands for.
pub struct TraceStateView {
    pub status: FuserStatus,
    pub current_output_shape: Seq<usize>,
}

impl View for TraceState {
    type V = TraceStateView;

    open spec fn view(&self) -> TraceStateView {
        TraceStateView {
            status: self.status,
            current_output_shape: self.current_output_shape@,
        }
    }
}

/// What the host does to the traces next.
#[derive(Debug)]
pub enum Command {
    /// Nothing: the operation is dealt with.
    Done,
    /// Ask both traces whether they can fuse the operation, and answer with
    /// [`Reply::CanFuse`].
    AskCanFuse,
    /// Fuse the operation into both traces. The operation is then dealt with.
    FuseBoth,
    /// Close both traces. The operation is then dealt with.
    CloseBoth,
    /// Start a block of the kernel's trace that reads this tensor, with these settings and
    /// this flag, and answer with [`Reply::Block`].
    NextBlock {
        tensor: TensorIr,
        settings: FuseSettings,
        global: bool,
    },
    /// Add this tensor to the kernel's trace as an input that is read by index, and answer
    /// with [`Reply::Lower`].
    InputIndexed { tensor: TensorIr },
    /// Add this tensor to the kernel's trace as an output that the kernel writes itself, and
    /// answer with [`Reply::Output`].
    OutputUnhandled { tensor: TensorIr },
}

/// What a [`Command`] stands for.
pub enum CommandView {
    Done,
    AskCanFuse,
    FuseBoth,
    CloseBoth,
    NextBlock { tensor: TensorView, settings: FuseSettings, global: bool },
    InputIndexed { tensor: TensorView },
    OutputUnhandled { tensor: TensorView },
}

impl View for Command {
    type V = CommandView;

    open spec fn view(&self) -> CommandView {
        match self {
            Command::Done => CommandView::Done,
            Command::AskCanFuse => CommandView::AskCanFuse,
            Command::FuseBoth => CommandView::FuseBoth,
            Command::CloseBoth => CommandView::CloseBoth,
            Command::NextBlock { tensor, settings, global } => CommandView::NextBlock {
                tensor: tensor@,
                settings: *settings,
                global: *global,
            },
            Command::InputIndexed { tensor } => CommandView::InputIndexed { tensor: tensor@ },
            Command::OutputUnhandled { tensor } => CommandView::OutputUnhandled {
                tensor: tensor@,
            },
        }
    }
}

/// The host's answer to a [`Command`].
#[derive(Clone, Copy, Debug, PartialEq, Eq)]
pub enum Reply {
    /// Whether the kernel's trace and the elementwise trace can fuse the operation.
    CanFuse { kernel: bool, elementwise: bool },
    /// The argument of the tensor that the new block reads.
    Block { independent: FuseArg },
    /// The argument of the input, if the trace could add it.
    Lower { lower: Option<FuseArg> },
    /// The argument of the output.
    Output { output: FuseArg },
}

/// How far the current operation has got.
#[derive(Debug)]
enum Progress {
    Idle,
    Asked,
    BlockAsked { op: BinaryOpIr },
    LowerAsked { op: BinaryOpIr, independent: FuseArg },
    OutputAsked { op: BinaryOpIr, independent: FuseArg, lower: FuseArg },
}

/// How far an operation has got: which answer the fuser waits for, and what it has by then.
pub enum ProgressView {
    /// No operation is being dealt with.
    Idle,
    /// An elementwise operation waits for [`Reply::CanFuse`].
    Asked,
    /// A correlation waits for [`Reply::Block`].
    BlockAsked { op: BinaryOpView },
    /// A correlation waits for [`Reply::Lower`].
    LowerAsked { op: BinaryOpView, independent: FuseArg },
    /// A correlation waits for [`Reply::Output`].
    OutputAsked { op: BinaryOpView, independent: FuseArg, lower: FuseArg },
}

impl View for Progress {
    type V = ProgressView;

    closed spec fn view(&self) -> ProgressView {
        match self {
            Progress::Idle => ProgressView::Idle,
            Progress::Asked => ProgressView::Asked,
            Progress::BlockAsked { op } => ProgressView::BlockAsked { op: op@ },
            Progress::LowerAsked { op, independent } => ProgressView::LowerAsked {
                op: op@,
                independent: *independent,
            },
            Progress::OutputAsked { op, independent, lower } => ProgressView::OutputAsked {
                op: op@,
                independent: *independent,
                lower: *lower,
            },
        }
    }
}

impl ProgressView {
    /// The reply is what the fuser waits for.
    pub open spec fn expects(self, reply: Reply) -> bool {
        match self {
            ProgressView::Idle => false,
            ProgressView::Asked => reply is CanFuse,
            ProgressView::BlockAsked { .. } => reply is Block,
            ProgressView::LowerAsked { .. } => reply is Lower,
            ProgressView::OutputAsked { .. } => reply is Output,
        }
    }

    /// The correlation that is being dealt with, if one is.
    pub open spec fn correlation(self) -> Option<BinaryOpView> {
        match self {
            ProgressView::Idle => None,
            ProgressView::Asked => None,
            ProgressView::BlockAsked { op } => Some(op),
            ProgressView::LowerAsked { op, .. } => Some(op),
            ProgressView::OutputAsked { op, .. } => Some(op),
        }
    }
}

/// What the fuser has decided so far.
#[verifier::ext_equal]
pub struct FuserView {
    /// The correlation that the fused kernel computes, once there is one.
    pub correlate: Option<CorrelateView>,
    /// The number of operations that the fusion replaces.
    pub len_stream: nat,
    /// The position of the correlation among them, once there is one.
    pub fallback_pos: nat,
    /// How far the current operation has got.
    pub progress: ProgressView,
}

impl FuserView {
    /// No operation has been seen.
    pub open spec fn initial() -> FuserView {
        FuserView {
            correlate: None,
            len_stream: 0,
            fallback_pos: 0,
            progress: ProgressView::Idle,
        }
    }

    /// What holds between any two calls: the correlation is the last of the operations that
    /// the fusion replaces; and it is one that the kernel can compute, as is one that is
    /// being dealt with.
    pub open spec fn wf(self) -> bool {
        &&& self.len_stream <= usize::MAX
        &&& match self.correlate {
            None => self.fallback_pos == 0,
            Some(correlate) => {
                &&& correlate.wf()
                &&& self.fallback_pos + 1 == self.len_stream
                &&& self.progress is Idle
            },
        }
        &&& match self.progress.correlation() {
            None => true,
            Some(op) => op.is_correlation() && op.factors() > 0,
        }
    }

    /// One more operation is part of the fusion.
    pub open spec fn counting_one_more(self) -> FuserView {
        FuserView { len_stream: self.len_stream + 1, ..self }
    }

    /// The current operation has got to `progress`.
    pub open spec fn at(self, progress: ProgressView) -> FuserView {
        FuserView { progress, ..self }
    }

    /// The fuser takes an operation only while it has no correlation and the kernel's trace
    /// is open.
    pub open spec fn takes_operations(self, trace: TraceStateView) -> bool {
        self.correlate is None && trace.status is Open
    }

    /// A correlation is fused if the kernel can compute it, if it reads what the kernel's
    /// trace produces, and if it has columns.
    pub open spec fn accepts_correlation(op: BinaryOpView, trace: TraceStateView) -> bool {
        &&& op.is_correlation()
        &&& trace.current_output_shape == op.lhs.shape
        &&& op.factors() > 0
    }

    /// What happens when an operation arrives.
    pub open spec fn fuse(self, operation: OperationView, trace: TraceStateView) -> (
        FuserView,
        CommandView,
    ) {
        if !self.takes_operations(trace) {
            (self, CommandView::Done)
        } else {
            match operation {
                OperationView::LowerTriangularCorrelate(op) => if Self::accepts_correlation(
                    op,
                    trace,
                ) {
                    (
                        self.at(ProgressView::BlockAsked { op }),
                        CommandView::NextBlock {
                            tensor: op.lhs,
                            settings: crate::settings::write_settings(),
                            global: false,
                        },
                    )
                } else {
                    (self, CommandView::CloseBoth)
                },
                OperationView::Init => (self.counting_one_more(), CommandView::Done),
                OperationView::Other => (
                    self.at(ProgressView::Asked),
                    CommandView::AskCanFuse,
                ),
            }
        }
    }

    /// What happens when the host answers.
    pub open spec fn resume(self, reply: Reply) -> (FuserView, CommandView) {
        let idle = self.at(ProgressView::Idle);
        match (self.progress, reply) {
            (ProgressView::Asked, Reply::CanFuse { kernel, elementwise }) => if kernel
                && elementwise {
                (idle.counting_one_more(), CommandView::FuseBoth)
            } else {
                (idle, CommandView::CloseBoth)
            },
            (ProgressView::BlockAsked { op }, Reply::Block { independent }) => (
                self.at(ProgressView::LowerAsked { op, independent }),
                CommandView::InputIndexed { tensor: op.rhs },
            ),
            (ProgressView::LowerAsked { op, independent }, Reply::Lower { lower }) => match lower {
                Some(lower) => (
                    self.at(ProgressView::OutputAsked { op, independent, lower }),
                    CommandView::OutputUnhandled { tensor: op.out },
                ),
                None => (idle, CommandView::CloseBoth),
            },
            (
                ProgressView::OutputAsked { op, independent, lower },
                Reply::Output { output },
            ) => (
                FuserView {
                    correlate: Some(
                        CorrelateView { independent, lower, output, factors: op.factors(), op },
                    ),
                    len_stream: self.len_stream + 1,
                    fallback_pos: self.len_stream,
                    progress: ProgressView::Idle,
                },
                CommandView::CloseBoth,
            ),
            _ => (self, CommandView::Done),
        }
    }

    /// Whether the fuser takes more operations: not once it has a correlation, and before
    /// that as long as the kernel's trace does.
    pub open spec fn status(self, trace: FuserStatus) -> FuserStatus {
        if self.correlate is Some {
            FuserStatus::Closed
        } else {
            trace
        }
    }

    /// The properties of the fusion, given those of the kernel's trace: it can run once it
    /// has a correlation, and then scores higher by a fixed amount.
    pub open spec fn properties(self, trace: FuserProperties) -> FuserProperties {
        if self.correlate is Some {
            FuserProperties {
                score: if trace.score + CORRELATE_SCORE > u64::MAX {
                    u64::MAX
                } else {
                    (trace.score + CORRELATE_SCORE) as u64
                },
                ready: true,
            }
        } else {
            FuserProperties { score: trace.score, ready: false }
        }
    }
}

/// Fuses elementwise producers into a row-wise lower-triangular correlation kernel.
#[derive(Debug)]
pub struct LowerTriangularCorrelateFuser<D> {
    device: D,
    correlate: Option<FusedLowerTriangularCorrelate>,
    len_stream: usize,
    fallback_pos: usize,
    progress: Progress,
}

impl<D> View for LowerTriangularCorrelateFuser<D> {
    type V = FuserView;

    closed spec fn view(&self) -> FuserView {
        FuserView {
            correlate: match self.correlate {
                None => None,
                Some(correlate) => Some(correlate@),
            },
            len_stream: self.len_stream as nat,
            fallback_pos: self.fallback_pos as nat,
            progress: self.progress@,
        }
    }
}

impl<D> LowerTriangularCorrelateFuser<D> {
    /// The device that the kernel runs on.
    pub closed spec fn device(self) -> D {
        self.device
    }

    /// What holds between any two calls.
    pub open spec fn wf(self) -> bool {
        self@.wf()
    }

    /// A fuser that has seen no operation.
    pub fn new(device: D) -> (fuser: Self)
        ensures
            fuser.wf(),
            fuser@ == FuserView::initial(),
            fuser.device() == device,
    {
        LowerTriangularCorrelateFuser {
            device,
            correlate: None,
            len_stream: 0,
            fallback_pos: 0,
            progress: Progress::Idle,
        }
    }

    /// How the host creates the kernel's trace and the elementwise trace, in this order, on
    /// a device that takes `max_bindings` bindings.
    pub fn trace_setups(max_bindings: u32) -> (setups: (TraceSetup, TraceSetup))
        ensures
            setups.0 == (TraceSetup {
                max_bindings,
                settings: TraceSettings::Custom(crate::settings::read_settings()),
            }),
            setups.1 == (TraceSetup { max_bindings, settings: TraceSettings::Default }),
    {
        let settings_read = FuseSettings {
            inplace: true,
            ref_layout: RefLayoutSetting::OnlyContiguous,
            broadcast: false,
            output_shape_updates: true,
            vectorization: VectorizationSetting::Deactivated,
        };
        (
            TraceSetup { max_bindings, settings: TraceSettings::Custom(settings_read) },
            TraceSetup { max_bindings, settings: TraceSettings::Default },
        )
    }

    /// Whether the operation is a correlation that the kernel can compute.
    pub fn validate(op: &BinaryOpIr) -> (valid: bool)
        ensures
            valid == op@.is_correlation(),
    {
        let lhs = &op.lhs.shape;
        let rhs = &op.rhs.shape;
        let out = &op.out.shape;
        let valid = op.lhs.dtype == DType::F32 && op.rhs.dtype == DType::F32 && op.out.dtype
            == DType::F32 && lhs.len() == 2 && rhs.len() == 2 && same_shape(out, lhs) && lhs[1]
            == rhs[0] && rhs[0] == rhs[1];
        assert(rhs@.len() == 2 ==> rhs@ =~= seq![rhs@[0], rhs@[1]]);
        valid
    }

    /// Deals with an operation up to the first thing that the host has to do.
    pub fn fuse(&mut self, operation: &OperationIr, trace: &TraceState) -> (command: Command)
        requires
            old(self).wf(),
            old(self)@.progress is Idle,
            old(self)@.fuse(operation@, trace@).0.len_stream <= usize::MAX,
        ensures
            final(self).wf(),
            final(self).device() == old(self).device(),
            (final(self)@, command@) == old(self)@.fuse(operation@, trace@),
    {
        if self.correlate.is_some() || trace.status == FuserStatus::Closed {
            return Command::Done;
        }
        match operation {
            OperationIr::LowerTriangularCorrelate(op) => self.on_correlate(op, trace),
            OperationIr::Init => {
                // Initialization registers its handle eagerly and needs no kernel work.
                self.len_stream += 1;
                Command::Done
            },
            OperationIr::Other => {
                self.progress = Progress::Asked;
                Command::AskCanFuse
            },
        }
    }

    /// Goes on with the current operation up to the next thing that the host has to do.
    pub fn resume(&mut self, reply: Reply) -> (command: Command)
        requires
            old(self).wf(),
            old(self)@.progress.expects(reply),
            old(self)@.resume(reply).0.len_stream <= usize::MAX,
        ensures
            final(self).wf(),
            final(self).device() == old(self).device(),
            (final(self)@, command@) == old(self)@.resume(reply),
    {
        let mut progress = Progress::Idle;
        std::mem::swap(&mut progress, &mut self.progress);
        match (progress, reply) {
            (
                Progress::Asked,
                Reply::CanFuse { kernel, elementwise },
            ) => self.on_elemwise_read(kernel, elementwise),
            (Progress::BlockAsked { op }, Reply::Block { independent }) => {
                let tensor = op.rhs.clone();
                self.progress = Progress::LowerAsked { op, independent };
                Command::InputIndexed { tensor }
            },
            (
                Progress::LowerAsked { op, independent },
                Reply::Lower { lower: Some(lower) },
            ) => {
                let tensor = op.out.clone();
                self.progress = Progress::OutputAsked { op, independent, lower };
                Command::OutputUnhandled { tensor }
            },
            (Progress::LowerAsked { .. }, Reply::Lower { lower: None }) => Command::CloseBoth,
            (Progress::OutputAsked { op, independent, lower }, Reply::Output { output }) => {
                self.fallback_pos = self.len_stream;
                self.len_stream += 1;
                let factors = op.lhs.shape[1];
                self.correlate = Some(
                    FusedLowerTriangularCorrelate { independent, lower, output, factors, op },
                );
                Command::CloseBoth
            },
            _ => Command::Done,
        }
    }

    /// Fuses an elementwise operation if both traces can, and ends the fusion otherwise.
    fn on_elemwise_read(&mut self, kernel: bool, elementwise: bool) -> (command: Command)
        requires
            old(self).wf(),
            old(self)@.correlate is None,
            old(self)@.progress is Idle,
            kernel && elementwise ==> old(self)@.len_stream < usize::MAX,
        ensures
            final(self).wf(),
            final(self).device() == old(self).device(),
            kernel && elementwise ==> final(self)@ == old(self)@.counting_one_more() && command@
                == CommandView::FuseBoth,
            !(kernel && elementwise) ==> final(self)@ == old(self)@ && command@
                == CommandView::CloseBoth,
    {
        if kernel && elementwise {
            self.len_stream += 1;
            Command::FuseBoth
        } else {
            Command::CloseBoth
        }
    }

    /// Starts the block that writes the correlated values if the kernel can compute the
    /// correlation, and ends the fusion otherwise.
    fn on_correlate(&mut self, op: &BinaryOpIr, trace: &TraceState) -> (command: Command)
        requires
            old(self).wf(),
            old(self)@.progress is Idle,
            old(self)@.takes_operations(trace@),
        ensures
            final(self).wf(),
            final(self).device() == old(self).device(),
            (final(self)@, command@) == old(self)@.fuse(
                OperationView::LowerTriangularCorrelate(op@),
                trace@,
            ),
    {
        if !Self::validate(op) {
            return Command::CloseBoth;
        }
        if !same_shape(&trace.current_output_shape, &op.lhs.shape) {
            return Command::CloseBoth;
        }
        if op.lhs.shape[1] == 0 {
            return Command::CloseBoth;
        }
        let settings = FuseSettings {
            inplace: false,
            output_shape_updates: false,
            vectorization: VectorizationSetting::Deactivated,
            broadcast: false,
            ref_layout: RefLayoutSetting::OnlyContiguous,
        };
        self.progress = Progress::BlockAsked { op: op.clone() };
        Command::NextBlock { tensor: op.lhs.clone(), settings, global: false }
    }

    /// Forgets all operations. The host resets both traces too.
    pub fn reset(&mut self)
        ensures
            final(self).wf(),
            final(self).device() == old(self).device(),
            final(self)@ == FuserView::initial(),
    {
        self.correlate = None;
        self.len_stream = 0;
        self.fallback_pos = 0;
        self.progress = Progress::Idle;
    }

    /// Whether more operations can be fused, given the status of the kernel's trace.
    pub fn status(&self, trace: FuserStatus) -> (status: FuserStatus)
        ensures
            status == self@.status(trace),
    {
        if self.correlate.is_some() {
            FuserStatus::Closed
        } else {
            trace
        }
    }

    /// The properties of the fusion, given those of the kernel's trace.
    pub fn properties(&self, trace: FuserProperties) -> (properties: FuserProperties)
        ensures
            properties == self@.properties(trace),
    {
        let mut properties = trace;
        properties.ready = self.correlate.is_some();
        if self.correlate.is_some() {
            properties.score = properties.score.saturating_add(CORRELATE_SCORE);
        }
        properties
    }

    /// The number of operations that the fusion replaces.
    pub fn len(&self) -> (len: usize)
        ensures
            len == self@.len_stream,
    {
        self.len_stream
    }

    /// The optimization, once there is a correlation, made of the finished traces and the
    /// client of the device.
    pub fn finish<T, C>(&mut self, client: C, trace: T, trace_read_fallback: T) -> (optimization:
        LowerTriangularCorrelateOptimization<T, C, D>) where D: Clone
        requires
            old(self)@.correlate is Some,
        ensures
            *final(self) == *old(self),
            cloned(old(self).device(), optimization@.device),
            optimization@ == (OptimizationView {
                trace,
                trace_read_fallback,
                client,
                device: optimization@.device,
                len: old(self)@.len_stream,
                fallback_pos: old(self)@.fallback_pos,
                correlate: old(self)@.correlate->0,
            }),
    {
        let correlate = self.correlate.as_ref().unwrap().clone();
        LowerTriangularCorrelateOptimization::new(
            trace,
            trace_read_fallback,
            client,
            self.device.clone(),
            self.len_stream,
            self.fallback_pos,
            correlate,
        )
    }
}

impl Clone for Progress {
    fn clone(&self) -> (progress: Self)
        ensures
            progress@ == self@,
    {
        match self {
            Progress::Idle => Progress::Idle,
            Progress::Asked => Progress::Asked,
            Progress::BlockAsked { op } => Progress::BlockAsked { op: op.clone() },
            Progress::LowerAsked { op, independent } => Progress::LowerAsked {
                op: op.clone(),
                independent: *independent,
            },
            Progress::OutputAsked { op, independent, lower } => Progress::OutputAsked {
                op: op.clone(),
                independent: *independent,
                lower: *lower,
            },
        }
    }
}

impl<D: Clone> Clone for LowerTriangularCorrelateFuser<D> {
    fn clone(&self) -> (fuser: Self)
        ensures
            fuser@ == self@,
            cloned(self.device(), fuser.device()),
    {
        LowerTriangularCorrelateFuser {
            device: self.device.clone(),
            correlate: match &self.correlate {
                None => None,
                Some(correlate) => Some(correlate.clone()),
            },
            len_stream: self.len_stream,
            fallback_pos: self.fallback_pos,
            progress: self.progress.clone(),
        }
    }
}

} // verus!
