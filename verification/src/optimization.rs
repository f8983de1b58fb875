//! The fused operation: what it launches, what it falls back to, and how it is saved.
use vstd::prelude::*;
use std::sync::Arc;
use crate::ir::{BinaryOpIr, BinaryOpView, FuseArg};

verus! {

/// A correlation that a fused kernel computes.
#[derive(Debug)]
pub struct FusedLowerTriangularCorrelate {
    /// The values to correlate, as the kernel computes them from its inputs.
    pub independent: FuseArg,
    /// The lower-triangular matrix.
    pub lower: FuseArg,
    /// Where the correlated values go.
    pub output: FuseArg,
    /// The number of columns of all three.
    pub factors: usize,
    /// The operation that the kernel stands for.
    pub op: BinaryOpIr,
}

/// What a [`FusedLowerTriangularCorrelate`] stands for.
#[verifier::ext_equal]
pub struct CorrelateView {
    pub independent: FuseArg,
    pub lower: FuseArg,
    pub output: FuseArg,
    pub factors: nat,
    pub op: BinaryOpView,
}

impl View for FusedLowerTriangularCorrelate {
    type V = CorrelateView;

    open spec fn view(&self) -> CorrelateView {
        CorrelateView {
            independent: self.independent,
            lower: self.lower,
            output: self.output,
            factors: self.factors as nat,
            op: self.op@,
        }
    }
}

impl Clone for FusedLowerTriangularCorrelate {
    fn clone(&self) -> (correlate: Self)
        ensures
            correlate@ == self@,
    {
        FusedLowerTriangularCorrelate {
            independent: self.independent,
            lower: self.lower,
            output: self.output,
            factors: self.factors,
            op: self.op.clone(),
        }
    }
}

impl CorrelateView {
    /// The operation is a correlation of at least one column, and the kernel works with that
    /// number of columns.
    pub open spec fn wf(self) -> bool {
        &&& self.op.is_correlation()
        &&& self.factors == self.op.factors()
        &&& self.factors > 0
    }
}

/// What an optimization holds: the two finished traces, the client and the device that they
/// run on, and what the fuser decided.
#[derive(Debug)]
struct LowerTriangularCorrelateOptimizationInfo<T, C, D> {
    trace: T,
    trace_read_fallback: T,
    client: C,
    device: D,
    len: usize,
    fallback_pos: usize,
    correlate: FusedLowerTriangularCorrelate,
}

/// What an optimization, or an execution of it, stands for.
pub struct OptimizationView<T, C, D> {
    /// The trace of the fused kernel.
    pub trace: T,
    /// The trace of the elementwise operations alone.
    pub trace_read_fallback: T,
    pub client: C,
    pub device: D,
    /// The number of operations that the optimization replaces.
    pub len: nat,
    /// The position of the correlation among them.
    pub fallback_pos: nat,
    pub correlate: CorrelateView,
}

impl<T, C, D> View for LowerTriangularCorrelateOptimizationInfo<T, C, D> {
    type V = OptimizationView<T, C, D>;

    closed spec fn view(&self) -> OptimizationView<T, C, D> {
        OptimizationView {
            trace: self.trace,
            trace_read_fallback: self.trace_read_fallback,
            client: self.client,
            device: self.device,
            len: self.len as nat,
            fallback_pos: self.fallback_pos as nat,
            correlate: self.correlate@,
        }
    }
}

/// Fused lower-triangular correlation operation.
#[derive(Debug)]
pub struct LowerTriangularCorrelateOptimization<T, C, D> {
    info: Arc<LowerTriangularCorrelateOptimizationInfo<T, C, D>>,
}

impl<T, C, D> View for LowerTriangularCorrelateOptimization<T, C, D> {
    type V = OptimizationView<T, C, D>;

    closed spec fn view(&self) -> OptimizationView<T, C, D> {
        self.info@
    }
}

/// An optimization as it is saved: all of it but the client and the device.
#[derive(Debug)]
pub struct LowerTriangularCorrelateOptimizationState<T> {
    pub trace: T,
    pub trace_read_fallback: T,
    pub correlate: FusedLowerTriangularCorrelate,
    pub len: usize,
    pub fallback_pos: usize,
}

impl<T, C, D> OptimizationView<T, C, D> {
    /// The state holds what is saved of the optimization, with clones of its traces.
    pub open spec fn saved_as(self, state: LowerTriangularCorrelateOptimizationState<T>) -> bool where
        T: Clone,
     {
        &&& cloned(self.trace, state.trace)
        &&& cloned(self.trace_read_fallback, state.trace_read_fallback)
        &&& state.correlate@ == self.correlate
        &&& state.len == self.len
        &&& state.fallback_pos == self.fallback_pos
    }

    /// The optimization is what the state describes, with this client and with a clone of
    /// this device.
    pub open spec fn restored_from(
        self,
        device: D,
        client: C,
        state: LowerTriangularCorrelateOptimizationState<T>,
    ) -> bool where D: Clone {
        &&& self.trace == state.trace
        &&& self.trace_read_fallback == state.trace_read_fallback
        &&& self.client == client
        &&& cloned(device, self.device)
        &&& self.len == state.len
        &&& self.fallback_pos == state.fallback_pos
        &&& self.correlate == state.correlate@
    }
}

impl<T, C, D> LowerTriangularCorrelateOptimization<T, C, D> {
    /// An optimization of `len` operations, of which the one at `fallback_pos` is the
    /// correlation.
    pub fn new(
        trace: T,
        trace_read_fallback: T,
        client: C,
        device: D,
        len: usize,
        fallback_pos: usize,
        correlate: FusedLowerTriangularCorrelate,
    ) -> (optimization: Self)
        ensures
            optimization@ == (OptimizationView {
                trace,
                trace_read_fallback,
                client,
                device,
                len: len as nat,
                fallback_pos: fallback_pos as nat,
                correlate: correlate@,
            }),
    {
        LowerTriangularCorrelateOptimization {
            info: Arc::new(
                LowerTriangularCorrelateOptimizationInfo {
                    trace,
                    trace_read_fallback,
                    client,
                    device,
                    len,
                    fallback_pos,
                    correlate,
                },
            ),
        }
    }

    /// The number of operations that the optimization replaces.
    pub fn num_ops_fused(&self) -> (len: usize)
        ensures
            len == self@.len,
    {
        self.info.len
    }

    /// What is saved of the optimization.
    pub fn to_state(&self) -> (state: LowerTriangularCorrelateOptimizationState<T>) where T: Clone
        ensures
            self@.saved_as(state),
    {
        LowerTriangularCorrelateOptimizationState {
            trace: self.info.trace.clone(),
            trace_read_fallback: self.info.trace_read_fallback.clone(),
            correlate: self.info.correlate.clone(),
            len: self.info.len,
            fallback_pos: self.info.fallback_pos,
        }
    }

    /// The optimization that a saved state describes, on a device with its client.
    pub fn from_state(
        device: &D,
        client: C,
        state: LowerTriangularCorrelateOptimizationState<T>,
    ) -> (optimization: Self) where D: Clone
        ensures
            optimization@.restored_from(*device, client, state),
    {
        LowerTriangularCorrelateOptimization {
            info: Arc::new(
                LowerTriangularCorrelateOptimizationInfo {
                    trace: state.trace,
                    trace_read_fallback: state.trace_read_fallback,
                    client,
                    device: device.clone(),
                    len: state.len,
                    fallback_pos: state.fallback_pos,
                    correlate: state.correlate,
                },
            ),
        }
    }
}

/// What an execution does next.
#[derive(Clone, Copy, Debug, PartialEq, Eq, Structural)]
pub enum ExecuteStep {
    /// Launch what [`LowerTriangularCorrelateTuneArg::execute_fused`] gives.
    LaunchFused,
    /// Launch what [`LowerTriangularCorrelateTuneArg::execute_fallback`] gives.
    LaunchElementwise,
    /// Run the fallback operation.
    RunFallback,
    /// Nothing: the execution is over.
    Done,
}

impl ExecuteStep {
    /// The step that follows this one, given whether this one succeeded: the elementwise
    /// operations and then the fallback operation run if the fused kernel cannot be launched,
    /// and nothing else runs otherwise.
    pub open spec fn after(self, succeeded: bool) -> ExecuteStep {
        match self {
            ExecuteStep::LaunchFused => if succeeded {
                ExecuteStep::Done
            } else {
                ExecuteStep::LaunchElementwise
            },
            ExecuteStep::LaunchElementwise => ExecuteStep::RunFallback,
            ExecuteStep::RunFallback => ExecuteStep::Done,
            ExecuteStep::Done => ExecuteStep::Done,
        }
    }

    /// The step that follows this one, given whether this one succeeded. The elementwise
    /// operations have to succeed.
    pub fn next(self, succeeded: bool) -> (step: ExecuteStep)
        requires
            self == ExecuteStep::LaunchElementwise ==> succeeded,
        ensures
            step == self.after(succeeded),
    {
        match self {
            ExecuteStep::LaunchFused => if succeeded {
                ExecuteStep::Done
            } else {
                ExecuteStep::LaunchElementwise
            },
            ExecuteStep::LaunchElementwise => ExecuteStep::RunFallback,
            ExecuteStep::RunFallback => ExecuteStep::Done,
            ExecuteStep::Done => ExecuteStep::Done,
        }
    }
}

/// A trace to launch, where, and by which runner.
#[derive(Debug)]
pub struct TraceLaunch<'a, T, C, D, R> {
    pub trace: &'a T,
    pub client: &'a C,
    pub device: &'a D,
    pub runner: R,
}

/// The runner of a trace that holds elementwise operations alone.
#[derive(Clone, Copy, Debug, PartialEq, Eq, Structural)]
pub struct ElemwiseRunner;

/// The runner of the fused kernel.
#[derive(Debug)]
pub struct FusedLowerTriangularCorrelateLaunch<'a> {
    correlate: &'a FusedLowerTriangularCorrelate,
}

impl<'a> View for FusedLowerTriangularCorrelateLaunch<'a> {
    type V = CorrelateView;

    closed spec fn view(&self) -> CorrelateView {
        self.correlate@
    }
}

/// One execution of an optimization.
#[derive(Debug)]
pub struct LowerTriangularCorrelateTuneArg<T, C, D, B> {
    info: Arc<LowerTriangularCorrelateOptimizationInfo<T, C, D>>,
    fallback: B,
}

impl<T, C, D, B> View for LowerTriangularCorrelateTuneArg<T, C, D, B> {
    type V = OptimizationView<T, C, D>;

    closed spec fn view(&self) -> OptimizationView<T, C, D> {
        self.info@
    }
}

impl<T, C, D, B> LowerTriangularCorrelateTuneArg<T, C, D, B> {
    /// The operation that computes the correlation without the fused kernel.
    pub closed spec fn fallback(self) -> B {
        self.fallback
    }

    /// The fused kernel's trace, for the fused kernel's runner.
    pub fn execute_fused(&self) -> (launch: TraceLaunch<
        '_,
        T,
        C,
        D,
        FusedLowerTriangularCorrelateLaunch<'_>,
    >)
        ensures
            *launch.trace == self@.trace,
            *launch.client == self@.client,
            *launch.device == self@.device,
            launch.runner@ == self@.correlate,
    {
        TraceLaunch {
            trace: &self.info.trace,
            client: &self.info.client,
            device: &self.info.device,
            runner: FusedLowerTriangularCorrelateLaunch::new(&self.info.correlate),
        }
    }

    /// The elementwise trace, for the elementwise runner. The fallback operation runs after
    /// it.
    pub fn execute_fallback(&self) -> (launch: TraceLaunch<'_, T, C, D, ElemwiseRunner>)
        ensures
            *launch.trace == self@.trace_read_fallback,
            *launch.client == self@.client,
            *launch.device == self@.device,
    {
        TraceLaunch {
            trace: &self.info.trace_read_fallback,
            client: &self.info.client,
            device: &self.info.device,
            runner: ElemwiseRunner,
        }
    }

    /// The operation that computes the correlation without the fused kernel.
    pub fn into_fallback(self) -> (fallback: B)
        ensures
            fallback == self.fallback(),
    {
        self.fallback
    }
}

impl<T, C, D> LowerTriangularCorrelateOptimization<T, C, D> {
    /// Starts an execution: picks the fallback operation, which is the one at the position
    /// of the correlation, and says what to do first.
    pub fn execute<B, F: FnOnce(usize) -> B>(&mut self, fallback: F) -> (execution: (
        LowerTriangularCorrelateTuneArg<T, C, D, B>,
        ExecuteStep,
    ))
        requires
            call_requires(fallback, (old(self)@.fallback_pos as usize,)),
        ensures
            *final(self) == *old(self),
            execution.0@ == old(self)@,
            call_ensures(
                fallback,
                (old(self)@.fallback_pos as usize,),
                execution.0.fallback(),
            ),
            execution.1 == ExecuteStep::LaunchFused,
    {
        let arg = LowerTriangularCorrelateTuneArg {
            info: self.info.clone(),
            fallback: fallback(self.info.fallback_pos),
        };
        (arg, ExecuteStep::LaunchFused)
    }
}

/// The width of the integers with which a kernel addresses its buffers.
#[derive(Clone, Copy, Debug, PartialEq, Eq, Structural)]
pub enum AddressType {
    U32,
    U64,
}

/// The address type that both sides can work with. Calls `max` of
/// `cubecl::ir::AddressType`, whose order puts the 32-bit addresses before the 64-bit ones:
/// the result is 64-bit if either argument is, and 32-bit otherwise.
#[verifier::external_body]
fn wider_address_type(left: AddressType, right: AddressType) -> (wider: AddressType)
    ensures
        wider == (if left == AddressType::U64 || right == AddressType::U64 {
            AddressType::U64
        } else {
            AddressType::U32
        }),
{
    let left = match left {
        AddressType::U32 => cubecl::ir::AddressType::U32,
        AddressType::U64 => cubecl::ir::AddressType::U64,
    };
    let right = match right {
        AddressType::U32 => cubecl::ir::AddressType::U32,
        AddressType::U64 => cubecl::ir::AddressType::U64,
    };
    match left.max(right) {
        cubecl::ir::AddressType::U32 => AddressType::U32,
        cubecl::ir::AddressType::U64 => AddressType::U64,
    }
}

/// All that the kernel is launched with. One unit works on one row of the output.
#[derive(Debug)]
pub struct KernelLaunch<'a, K, G> {
    /// The number of rows of the output.
    pub working_units: usize,
    /// How the host spreads that many units over the device.
    pub grid: G,
    pub address_type: AddressType,
    /// The block that computes the independent values.
    pub config_read: &'a K,
    /// The block that writes the correlated values.
    pub config_write: &'a K,
    pub independent: FuseArg,
    pub lower: FuseArg,
    pub output: FuseArg,
    pub factors: usize,
}

impl<'a> FusedLowerTriangularCorrelateLaunch<'a> {
    /// The runner of the kernel for this correlation.
    pub fn new(correlate: &'a FusedLowerTriangularCorrelate) -> (launch: Self)
        ensures
            launch@ == correlate@,
    {
        FusedLowerTriangularCorrelateLaunch { correlate }
    }

    /// What the kernel is launched with, for a trace of two blocks, of which the first reads
    /// and the second writes. `output_shape` gives the shape that a block works on, and
    /// `grid` spreads working units over the device. `inputs` and `outputs` are the address
    /// types that the buffers need.
    pub fn run<'b, K, G, S: FnOnce(&'b K) -> Vec<usize>, P: FnOnce(usize) -> G>(
        &self,
        configs: &'b [K],
        output_shape: S,
        grid: P,
        inputs: AddressType,
        outputs: AddressType,
    ) -> (launch: KernelLaunch<'b, K, G>)
        requires
            configs@.len() >= 2,
            call_requires(output_shape, (&configs@[1],)),
            forall|shape: Vec<usize>| #[trigger]
                call_ensures(output_shape, (&configs@[1],), shape) ==> shape@.len() > 0
                    && call_requires(grid, (shape@[0],)),
        ensures
            *launch.config_read == configs@[0],
            *launch.config_write == configs@[1],
            exists|shape: Vec<usize>| #[trigger]
                call_ensures(output_shape, (&configs@[1],), shape) && launch.working_units
                    == shape@[0],
            call_ensures(grid, (launch.working_units,), launch.grid),
            launch.address_type == (if inputs == AddressType::U64 || outputs == AddressType::U64 {
                AddressType::U64
            } else {
                AddressType::U32
            }),
            launch.independent == self@.independent,
            launch.lower == self@.lower,
            launch.output == self@.output,
            launch.factors == self@.factors,
    {
        let config_read = &configs[0];
        let config_write = &configs[1];
        let shape = output_shape(config_write);
        let working_units = shape[0];
        KernelLaunch {
            working_units,
            grid: grid(working_units),
            address_type: wider_address_type(inputs, outputs),
            config_read,
            config_write,
            independent: self.correlate.independent,
            lower: self.correlate.lower,
            output: self.correlate.output,
            factors: self.correlate.factors,
        }
    }
}

} // verus!
