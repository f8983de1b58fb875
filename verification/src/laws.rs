//! What holds across the fuser, the optimization and the kernel.
use vstd::prelude::*;
use crate::fuser::{
    CommandView, FuserProperties, FuserStatus, FuserView, ProgressView, Reply, TraceStateView,
};
use crate::ir::{BinaryOpView, FuseArg, OperationView};
use crate::kernel::Arithmetic;
use crate::optimization::{
    CorrelateView, ExecuteStep, LowerTriangularCorrelateOptimizationState, OptimizationView,
};

verus! {

/// Something that happens to a fuser.
pub enum Event {
    /// An operation arrives, with the kernel's trace in this state.
    Operation(OperationView, TraceStateView),
    /// The host answers a command.
    Answer(Reply),
    /// The fuser is reset.
    Reset,
}

/// The event can happen to the fuser: operations arrive one at a time, answers are those
/// that the fuser waits for, and the operations can be counted.
pub open spec fn possible(fuser: FuserView, event: Event) -> bool {
    &&& match event {
        Event::Operation(..) => fuser.progress is Idle,
        Event::Answer(reply) => fuser.progress.expects(reply),
        Event::Reset => true,
    }
    &&& after_event(fuser, event).len_stream <= usize::MAX
}

/// What an event makes of a fuser.
pub open spec fn after_event(fuser: FuserView, event: Event) -> FuserView {
    match event {
        Event::Operation(operation, trace) => fuser.fuse(operation, trace).0,
        Event::Answer(reply) => fuser.resume(reply).0,
        Event::Reset => FuserView::initial(),
    }
}

/// The event makes an operation part of the fusion: it is an initialization that the fuser
/// takes, or the answer after which an elementwise operation is fused, or the one after
/// which the correlation is registered.
pub open spec fn joins(fuser: FuserView, event: Event) -> bool {
    match event {
        Event::Operation(operation, trace) => operation is Init && fuser.takes_operations(trace),
        Event::Answer(reply) => {
            ||| fuser.resume(reply).1 is FuseBoth
            ||| fuser.resume(reply).0.correlate is Some
        },
        Event::Reset => false,
    }
}

/// What a new fuser has become after the events.
pub open spec fn after_events(events: Seq<Event>) -> FuserView
    decreases events.len(),
{
    if events.len() == 0 {
        FuserView::initial()
    } else {
        after_event(after_events(events.drop_last()), events.last())
    }
}

/// Each of the events can happen to the fuser that the ones before it leave.
pub open spec fn possible_events(events: Seq<Event>) -> bool
    decreases events.len(),
{
    events.len() > 0 ==> {
        &&& possible_events(events.drop_last())
        &&& possible(after_events(events.drop_last()), events.last())
    }
}

/// How many operations the events since the last reset have made part of the fusion.
pub open spec fn joined(events: Seq<Event>) -> nat
    decreases events.len(),
{
    if events.len() == 0 || events.last() is Reset {
        0
    } else if joins(after_events(events.drop_last()), events.last()) {
        joined(events.drop_last()) + 1
    } else {
        joined(events.drop_last())
    }
}

/// Whatever happens to a fuser, it stays well-formed.
pub proof fn fuser_stays_well_formed(events: Seq<Event>)
    requires
        possible_events(events),
    ensures
        after_events(events).wf(),
    decreases events.len(),
{
    if events.len() > 0 {
        fuser_stays_well_formed(events.drop_last());
    }
}

/// Whatever happens to a fuser, its length is the number of operations that have become
/// part of the fusion since it was new or reset.
pub proof fn length_counts_joined_operations(events: Seq<Event>)
    requires
        possible_events(events),
    ensures
        after_events(events).len_stream == joined(events),
    decreases events.len(),
{
    if events.len() > 0 {
        length_counts_joined_operations(events.drop_last());
        fuser_stays_well_formed(events.drop_last());
    }
}

/// Whatever happens to a fuser, the correlation that it has registered is one that the kernel
/// can compute, and it is the last operation of the fusion: the position of the fallback
/// operation is the last one.
pub proof fn registered_correlation_is_last(events: Seq<Event>)
    requires
        possible_events(events),
        after_events(events).correlate is Some,
    ensures
        after_events(events).correlate->0.wf(),
        after_events(events).fallback_pos + 1 == after_events(events).len_stream,
{
    fuser_stays_well_formed(events);
}

/// What an event makes the fuser tell the host to do.
pub open spec fn command_of(fuser: FuserView, event: Event) -> CommandView {
    match event {
        Event::Operation(operation, trace) => fuser.fuse(operation, trace).1,
        Event::Answer(reply) => fuser.resume(reply).1,
        Event::Reset => CommandView::Done,
    }
}

/// The fusion has ended since the last reset: the host was told to close the traces, or an
/// operation found the kernel's trace closed.
pub open spec fn ended(events: Seq<Event>) -> bool
    decreases events.len(),
{
    &&& events.len() > 0
    &&& events.last() !is Reset
    &&& {
        ||| ended(events.drop_last())
        ||| command_of(after_events(events.drop_last()), events.last()) is CloseBoth
        ||| events.last() matches Event::Operation(_, trace) && trace.status is Closed
    }
}

/// Once the fusion has ended, operations find the kernel's trace closed until the next
/// reset: the host closes the traces when it is told to, and a closed trace stays closed.
pub open spec fn trace_stays_closed(events: Seq<Event>) -> bool
    decreases events.len(),
{
    events.len() > 0 ==> {
        &&& trace_stays_closed(events.drop_last())
        &&& events.last() matches Event::Operation(_, trace) ==> ended(events.drop_last())
            ==> trace.status is Closed
    }
}

/// None of the events is a reset.
pub open spec fn without_reset(events: Seq<Event>) -> bool {
    forall|i: int| 0 <= i < events.len() ==> #[trigger] events[i] !is Reset
}

/// When a fusion has ended, no operation is being dealt with.
proof fn lemma_ended_is_idle(events: Seq<Event>)
    requires
        possible_events(events),
        trace_stays_closed(events),
        ended(events),
    ensures
        after_events(events).progress is Idle,
    decreases events.len(),
{
    if ended(events.drop_last()) {
        lemma_ended_is_idle(events.drop_last());
    }
}

/// A fusion that has a correlation has ended.
proof fn lemma_registered_has_ended(events: Seq<Event>)
    requires
        possible_events(events),
        after_events(events).correlate is Some,
    ensures
        ended(events),
    decreases events.len(),
{
    if events.len() > 0 && after_events(events.drop_last()).correlate is Some {
        lemma_registered_has_ended(events.drop_last());
    }
}

/// What is possible as a whole is possible up to any event.
proof fn lemma_prefix_is_possible(events: Seq<Event>, n: int)
    requires
        possible_events(events),
        trace_stays_closed(events),
        0 <= n <= events.len(),
    ensures
        possible_events(events.take(n)),
        trace_stays_closed(events.take(n)),
    decreases events.len() - n,
{
    if n < events.len() {
        lemma_prefix_is_possible(events, n + 1);
        assert(events.take(n + 1).drop_last() =~= events.take(n));
    } else {
        assert(events.take(n) =~= events);
    }
}

/// Once a fusion has ended, nothing changes it until it is reset: it keeps its length and
/// its correlation, or stays without one, whatever operations arrive.
pub proof fn ended_fusion_stays_as_it_is(events: Seq<Event>, more: Seq<Event>)
    requires
        possible_events(events + more),
        trace_stays_closed(events + more),
        ended(events),
        without_reset(more),
    ensures
        after_events(events + more) == after_events(events),
        joined(events + more) == joined(events),
        ended(events + more),
    decreases more.len(),
{
    let all = events + more;
    if more.len() == 0 {
        assert(all =~= events);
    } else {
        let fewer = more.drop_last();
        assert(all.drop_last() =~= events + fewer);
        assert(all.last() == more[more.len() - 1]);
        assert forall|i: int| 0 <= i < fewer.len() implies #[trigger] fewer[i] !is Reset by {
            assert(fewer[i] == more[i]);
        }
        ended_fusion_stays_as_it_is(events, fewer);
        lemma_ended_is_idle(events + fewer);
    }
}

/// An elementwise operation that one of the traces cannot fuse ends the fusion without
/// changing it: until a reset no operation, not even a correlation that the kernel can
/// compute, makes it ready or longer, and it stays closed.
pub proof fn refused_operation_ends_fusion(
    events: Seq<Event>,
    trace: TraceStateView,
    kernel: bool,
    elementwise: bool,
    more: Seq<Event>,
    properties: FuserProperties,
)
    requires
        after_events(events).takes_operations(trace),
        !(kernel && elementwise),
        ({
            let refused = events.push(Event::Operation(OperationView::Other, trace)).push(
                Event::Answer(Reply::CanFuse { kernel, elementwise }),
            );
            possible_events(refused + more) && trace_stays_closed(refused + more)
        }),
        without_reset(more),
    ensures
        ({
            let refused = events.push(Event::Operation(OperationView::Other, trace)).push(
                Event::Answer(Reply::CanFuse { kernel, elementwise }),
            );
            let fuser = after_events(refused + more);
            &&& fuser == after_events(events)
            &&& fuser.len_stream == after_events(events).len_stream
            &&& !fuser.properties(properties).ready
            &&& ended(refused + more)
            &&& fuser.status(FuserStatus::Closed) == FuserStatus::Closed
        }),
{
    let asked = events.push(Event::Operation(OperationView::Other, trace));
    let refused = asked.push(Event::Answer(Reply::CanFuse { kernel, elementwise }));
    assert(refused.drop_last() =~= asked);
    assert(asked.drop_last() =~= events);
    assert((refused + more).take(refused.len() as int) =~= refused);
    lemma_prefix_is_possible(refused + more, refused.len() as int);
    assert(possible_events(asked));
    assert(possible(after_events(events), asked.last()));
    ended_fusion_stays_as_it_is(refused, more);
}

/// The event leaves an operation out: the operation is dealt with and has not become part
/// of the fusion.
pub open spec fn leaves_out(fuser: FuserView, event: Event) -> bool {
    &&& event !is Reset
    &&& after_event(fuser, event).progress is Idle
    &&& !joins(fuser, event)
}

/// The operations that become part of a fusion are the first ones that arrive: once one is
/// left out, none joins until a reset.
pub proof fn joined_operations_come_first(events: Seq<Event>, n: int, m: int)
    requires
        possible_events(events),
        trace_stays_closed(events),
        0 <= n < m < events.len(),
        without_reset(events.subrange(n, m + 1)),
        leaves_out(after_events(events.take(n)), events[n]),
    ensures
        !joins(after_events(events.take(m)), events[m]),
{
    let upto = events.take(n + 1);
    let between = events.subrange(n + 1, m);
    assert(upto.drop_last() =~= events.take(n));
    assert(events.take(m + 1).drop_last() =~= events.take(m));
    assert(upto + between =~= events.take(m));
    lemma_prefix_is_possible(events, n);
    lemma_prefix_is_possible(events, n + 1);
    lemma_prefix_is_possible(events, m);
    lemma_prefix_is_possible(events, m + 1);
    if after_events(events.take(n)).correlate is Some {
        lemma_registered_has_ended(events.take(n));
    }
    assert(events.subrange(n, m + 1)[0] == events[n]);
    assert(ended(upto));
    assert forall|i: int| 0 <= i < between.len() implies #[trigger] between[i] !is Reset by {
        assert(between[i] == events.subrange(n, m + 1)[i + 1]);
    }
    ended_fusion_stays_as_it_is(upto, between);
    lemma_ended_is_idle(events.take(m));
    assert(events.take(m + 1).last() == events[m]);
}

/// The kernel's trace produces nothing as long as no operation has joined since the last
/// reset.
pub open spec fn empty_until_joined(events: Seq<Event>) -> bool
    decreases events.len(),
{
    events.len() > 0 ==> {
        &&& empty_until_joined(events.drop_last())
        &&& events.last() matches Event::Operation(_, trace) ==> joined(events.drop_last()) == 0
            ==> trace.current_output_shape.len() == 0
    }
}

/// A fusion that is ready replaces at least two operations, and takes no more: the
/// correlation does not come first.
pub proof fn ready_fusion_replaces_two_operations(
    events: Seq<Event>,
    status: FuserStatus,
    properties: FuserProperties,
)
    requires
        possible_events(events),
        empty_until_joined(events),
        after_events(events).properties(properties).ready,
    ensures
        after_events(events).len_stream >= 2,
        after_events(events).status(status) == FuserStatus::Closed,
{
    lemma_correlation_does_not_come_first(events);
}

proof fn lemma_correlation_does_not_come_first(events: Seq<Event>)
    requires
        possible_events(events),
        empty_until_joined(events),
    ensures
        after_events(events).progress.correlation() is Some ==> after_events(events).len_stream
            >= 1,
        after_events(events).correlate is Some ==> after_events(events).len_stream >= 2,
    decreases events.len(),
{
    if events.len() > 0 {
        lemma_correlation_does_not_come_first(events.drop_last());
        length_counts_joined_operations(events.drop_last());
        fuser_stays_well_formed(events.drop_last());
    }
}

/// How many elementwise operations the events since the last reset have made part of the
/// fusion.
pub open spec fn producers(events: Seq<Event>) -> nat
    decreases events.len(),
{
    if events.len() == 0 || events.last() is Reset {
        0
    } else if command_of(after_events(events.drop_last()), events.last()) is FuseBoth {
        producers(events.drop_last()) + 1
    } else {
        producers(events.drop_last())
    }
}

/// How many initializations the events since the last reset have made part of the fusion.
pub open spec fn initializations(events: Seq<Event>) -> nat
    decreases events.len(),
{
    if events.len() == 0 || events.last() is Reset {
        0
    } else if events.last() matches Event::Operation(operation, trace) && operation is Init
        && after_events(events.drop_last()).takes_operations(trace) {
        initializations(events.drop_last()) + 1
    } else {
        initializations(events.drop_last())
    }
}

/// The length of a fusion is made up of the initializations that it took, the elementwise
/// operations that were fused, and the correlation once it is registered.
pub proof fn length_adds_up(events: Seq<Event>)
    requires
        possible_events(events),
    ensures
        after_events(events).len_stream == initializations(events) + producers(events) + (
        if after_events(events).correlate is Some {
            1nat
        } else {
            0nat
        }),
    decreases events.len(),
{
    if events.len() > 0 {
        length_adds_up(events.drop_last());
        fuser_stays_well_formed(events.drop_last());
    }
}

/// The kernel's trace produces nothing as long as no elementwise operation has been fused
/// since the last reset.
pub open spec fn empty_until_fused(events: Seq<Event>) -> bool
    decreases events.len(),
{
    events.len() > 0 ==> {
        &&& empty_until_fused(events.drop_last())
        &&& events.last() matches Event::Operation(_, trace) ==> producers(events.drop_last()) == 0
            ==> trace.current_output_shape.len() == 0
    }
}

/// A fusion that is ready has an elementwise producer before its correlation.
pub proof fn ready_fusion_has_a_producer(events: Seq<Event>, properties: FuserProperties)
    requires
        possible_events(events),
        empty_until_fused(events),
        after_events(events).properties(properties).ready,
    ensures
        producers(events) >= 1,
        after_events(events).len_stream >= producers(events) + 1,
{
    lemma_producers_come_first(events);
}

proof fn lemma_producers_come_first(events: Seq<Event>)
    requires
        possible_events(events),
        empty_until_fused(events),
    ensures
        producers(events) <= after_events(events).len_stream,
        after_events(events).progress.correlation() is Some ==> producers(events) >= 1,
        after_events(events).correlate is Some ==> producers(events) >= 1 && after_events(
            events,
        ).len_stream >= producers(events) + 1,
    decreases events.len(),
{
    if events.len() > 0 {
        lemma_producers_come_first(events.drop_last());
        fuser_stays_well_formed(events.drop_last());
    }
}

/// Once a fuser has a correlation, or the kernel's trace is closed, no operation changes it
/// or asks anything of the traces.
pub proof fn closed_fuser_ignores_operations(
    fuser: FuserView,
    operation: OperationView,
    trace: TraceStateView,
)
    requires
        fuser.status(trace.status) == FuserStatus::Closed,
    ensures
        fuser.fuse(operation, trace) == (fuser, CommandView::Done),
{
}

/// A fusion is ready exactly when it has a correlation. It is then closed, and it scores at
/// least as high as its trace.
pub proof fn ready_means_registered(
    fuser: FuserView,
    status: FuserStatus,
    properties: FuserProperties,
)
    ensures
        fuser.properties(properties).ready <==> fuser.correlate is Some,
        fuser.properties(properties).ready ==> fuser.status(status) == FuserStatus::Closed,
        fuser.properties(properties).score >= properties.score,
{
}

/// An operation that ends the fusion closes both traces and leaves the fuser as it was
/// before the operation arrived: a correlation that is not accepted, a correlation whose
/// matrix cannot be an input, and an elementwise operation that one of the traces cannot
/// fuse.
pub proof fn refused_operations_change_nothing(
    fuser: FuserView,
    op: BinaryOpView,
    trace: TraceStateView,
    independent: FuseArg,
    kernel: bool,
    elementwise: bool,
)
    requires
        fuser.progress is Idle,
        fuser.takes_operations(trace),
    ensures
        !FuserView::accepts_correlation(op, trace) ==> fuser.fuse(
            OperationView::LowerTriangularCorrelate(op),
            trace,
        ) == (fuser, CommandView::CloseBoth),
        FuserView::accepts_correlation(op, trace) ==> fuser.fuse(
            OperationView::LowerTriangularCorrelate(op),
            trace,
        ).0.resume(Reply::Block { independent }).0.resume(Reply::Lower { lower: None }) == (
            fuser,
            CommandView::CloseBoth,
        ),
        !(kernel && elementwise) ==> fuser.fuse(OperationView::Other, trace).0.resume(
            Reply::CanFuse { kernel, elementwise },
        ) == (fuser, CommandView::CloseBoth),
{
}

/// An accepted correlation whose three tensors the trace can place is registered with the
/// arguments that the trace gave, as the last operation of the fusion, and both traces are
/// closed. On the way the trace is asked to read the left side, to index the right side and
/// to leave the output to the kernel.
pub proof fn accepted_correlation_is_registered(
    fuser: FuserView,
    op: BinaryOpView,
    trace: TraceStateView,
    independent: FuseArg,
    lower: FuseArg,
    output: FuseArg,
)
    requires
        fuser.progress is Idle,
        fuser.takes_operations(trace),
        FuserView::accepts_correlation(op, trace),
    ensures
        ({
            let block = fuser.fuse(OperationView::LowerTriangularCorrelate(op), trace);
            let matrix = block.0.resume(Reply::Block { independent });
            let write = matrix.0.resume(Reply::Lower { lower: Some(lower) });
            let end = write.0.resume(Reply::Output { output });
            &&& block.1 == CommandView::NextBlock {
                tensor: op.lhs,
                settings: crate::settings::write_settings(),
                global: false,
            }
            &&& matrix.1 == CommandView::InputIndexed { tensor: op.rhs }
            &&& write.1 == CommandView::OutputUnhandled { tensor: op.out }
            &&& end.1 == CommandView::CloseBoth
            &&& end.0 == FuserView {
                correlate: Some(
                    CorrelateView { independent, lower, output, factors: op.factors(), op },
                ),
                len_stream: fuser.len_stream + 1,
                fallback_pos: fuser.len_stream,
                progress: ProgressView::Idle,
            }
        }),
{
}

/// An elementwise operation that both traces can fuse becomes part of the fusion.
pub proof fn fusible_operation_is_fused(fuser: FuserView, trace: TraceStateView)
    requires
        fuser.progress is Idle,
        fuser.takes_operations(trace),
    ensures
        fuser.fuse(OperationView::Other, trace).1 == CommandView::AskCanFuse,
        fuser.fuse(OperationView::Other, trace).0.resume(
            Reply::CanFuse { kernel: true, elementwise: true },
        ) == (fuser.counting_one_more(), CommandView::FuseBoth),
{
}

/// The buffers of a registered correlation fit the kernel: for each row that a unit works
/// on, the unit's reads of the independent values and of the matrix and its writes stay
/// within buffers of the sizes that the tensors' shapes give.
pub proof fn registered_correlation_fits_kernel(
    fuser: FuserView,
    path: int,
    j: int,
    k: int,
)
    requires
        fuser.wf(),
        fuser.correlate is Some,
        0 <= path < fuser.correlate->0.op.paths(),
        0 <= k <= j < fuser.correlate->0.factors,
    ensures
        ({
            let correlate = fuser.correlate->0;
            let op = correlate.op;
            let factors = correlate.factors;
            &&& 0 <= path * factors + k < op.lhs.shape[0] * op.lhs.shape[1]
            &&& 0 <= j * factors + k < op.rhs.shape[0] * op.rhs.shape[1]
            &&& 0 <= path * factors + j < op.out.shape[0] * op.out.shape[1]
            &&& factors * factors <= op.rhs.shape[0] * op.rhs.shape[1]
            &&& path * factors + factors <= op.out.shape[0] * op.out.shape[1]
        }),
{
    let op = fuser.correlate->0.op;
    let rows = op.paths() as int;
    let columns = op.factors() as int;
    crate::kernel::lemma_position_in_rows(path, k, rows, columns);
    crate::kernel::lemma_position_in_rows(j, k, columns, columns);
    crate::kernel::lemma_position_in_rows(path, j, rows, columns);
}

/// If the fused kernel can be launched, nothing else runs. If it cannot, the elementwise
/// operations run first and the fallback operation after them, and then nothing else.
pub proof fn fallback_runs_only_after_failed_launch(succeeded: bool)
    ensures
        succeeded ==> ExecuteStep::LaunchFused.after(succeeded) == ExecuteStep::Done,
        !succeeded ==> {
            let elementwise = ExecuteStep::LaunchFused.after(succeeded);
            let fallback = elementwise.after(true);
            &&& elementwise == ExecuteStep::LaunchElementwise
            &&& fallback == ExecuteStep::RunFallback
            &&& fallback.after(true) == ExecuteStep::Done
            &&& fallback.after(false) == ExecuteStep::Done
        },
{
}

/// An optimization that is saved and restored on the same device and client is the same,
/// as long as clones of traces and devices are equal to what they are clones of.
pub proof fn saved_optimization_is_restored<T: Clone, C, D: Clone>(
    optimization: OptimizationView<T, C, D>,
    state: LowerTriangularCorrelateOptimizationState<T>,
    restored: OptimizationView<T, C, D>,
)
    requires
        forall|x: T, y: T| #[trigger] cloned(x, y) ==> x == y,
        forall|x: D, y: D| #[trigger] cloned(x, y) ==> x == y,
        optimization.saved_as(state),
        restored.restored_from(optimization.device, optimization.client, state),
    ensures
        restored == optimization,
{
}

impl<T, M: Fn(T, T) -> T, A: Fn(T, T) -> T> Arithmetic<T, M, A> {
    /// Products and sums are these functions of their arguments.
    pub open spec fn computes(
        self,
        times: spec_fn(T, T) -> T,
        plus: spec_fn(T, T) -> T,
    ) -> bool {
        &&& forall|x: T, y: T, product: T| #[trigger]
            call_ensures(self.times, (x, y), product) ==> product == times(x, y)
        &&& forall|x: T, y: T, sum: T| #[trigger]
            call_ensures(self.plus, (x, y), sum) ==> sum == plus(x, y)
    }
}

/// The sum of the products of the first `terms` elements of `values` and `weights`, from
/// `zero` and in order.
pub open spec fn weighted_sum<T>(
    zero: T,
    times: spec_fn(T, T) -> T,
    plus: spec_fn(T, T) -> T,
    values: Seq<T>,
    weights: Seq<T>,
    terms: nat,
) -> T
    decreases terms,
{
    if terms == 0 {
        zero
    } else {
        plus(
            weighted_sum(zero, times, plus, values, weights, (terms - 1) as nat),
            times(values[terms - 1], weights[terms - 1]),
        )
    }
}

/// With arithmetic that has one outcome for each pair of arguments, a sum that the kernel
/// accumulates has one outcome too.
pub proof fn accumulation_is_weighted_sum<T, M: Fn(T, T) -> T, A: Fn(T, T) -> T>(
    arithmetic: Arithmetic<T, M, A>,
    times: spec_fn(T, T) -> T,
    plus: spec_fn(T, T) -> T,
    values: Seq<T>,
    weights: Seq<T>,
    terms: nat,
    sum: T,
)
    requires
        arithmetic.computes(times, plus),
        arithmetic.accumulates(values, weights, terms, sum),
    ensures
        sum == weighted_sum(arithmetic.zero, times, plus, values, weights, terms),
{
    let sums = choose|sums: Seq<T>|
        #![trigger arithmetic.partial_sums(values, weights, terms, sums)]
        arithmetic.partial_sums(values, weights, terms, sums) && sums[terms as int] == sum;
    lemma_partial_sums(arithmetic, times, plus, values, weights, terms, sums, terms);
}

proof fn lemma_partial_sums<T, M: Fn(T, T) -> T, A: Fn(T, T) -> T>(
    arithmetic: Arithmetic<T, M, A>,
    times: spec_fn(T, T) -> T,
    plus: spec_fn(T, T) -> T,
    values: Seq<T>,
    weights: Seq<T>,
    terms: nat,
    sums: Seq<T>,
    upto: nat,
)
    requires
        arithmetic.computes(times, plus),
        arithmetic.partial_sums(values, weights, terms, sums),
        upto <= terms,
    ensures
        sums[upto as int] == weighted_sum(arithmetic.zero, times, plus, values, weights, upto),
    decreases upto,
{
    if upto > 0 {
        let k = upto - 1;
        lemma_partial_sums(
            arithmetic,
            times,
            plus,
            values,
            weights,
            terms,
            sums,
            k as nat,
        );
        assert(arithmetic.adds_product(sums[k], values[k], weights[k], sums[k + 1]));
    }
}

/// With arithmetic and reads that have one outcome for each argument, a correlated row has
/// one outcome too: its element `j` is the sum of the first `j + 1` values of the row,
/// weighted by row `j` of the matrix.
pub proof fn correlated_row_is_determined<
    T,
    R: Fn(usize) -> T,
    M: Fn(T, T) -> T,
    A: Fn(T, T) -> T,
>(
    arithmetic: Arithmetic<T, M, A>,
    times: spec_fn(T, T) -> T,
    plus: spec_fn(T, T) -> T,
    read: R,
    element: spec_fn(usize) -> T,
    lower: Seq<T>,
    factors: nat,
    path: int,
    output: Seq<T>,
    j: int,
)
    requires
        arithmetic.computes(times, plus),
        forall|position: usize, value: T| #[trigger]
            call_ensures(read, (position,), value) ==> value == element(position),
        crate::kernel::correlates_path(arithmetic, read, lower, factors, path, output),
        0 <= j < factors,
    ensures
        crate::kernel::matrix_row(output, factors, path)[j] == weighted_sum(
            arithmetic.zero,
            times,
            plus,
            Seq::new(
                factors,
                |k: int| element(crate::kernel::position_of(factors, path, k) as usize),
            ),
            crate::kernel::matrix_row(lower, factors, j),
            (j + 1) as nat,
        ),
{
    let values = choose|values: Seq<T>|
        #![trigger crate::kernel::reads_path(read, factors, path, values)]
        crate::kernel::reads_path(read, factors, path, values) && forall|i: int|
            #![trigger crate::kernel::matrix_row(lower, factors, i)]
            0 <= i < factors ==> arithmetic.accumulates(
                values,
                crate::kernel::matrix_row(lower, factors, i),
                (i + 1) as nat,
                crate::kernel::matrix_row(output, factors, path)[i],
            );
    let row = Seq::new(
        factors,
        |k: int| element(crate::kernel::position_of(factors, path, k) as usize),
    );
    assert(values =~= row);
    accumulation_is_weighted_sum(
        arithmetic,
        times,
        plus,
        values,
        crate::kernel::matrix_row(lower, factors, j),
        (j + 1) as nat,
        crate::kernel::matrix_row(output, factors, path)[j],
    );
}

/// Stopping at the diagonal loses nothing: if the weights after the first `terms` add
/// nothing, the sum over the whole row is the sum over the first `terms`.
pub proof fn zeros_above_diagonal_add_nothing<T>(
    zero: T,
    times: spec_fn(T, T) -> T,
    plus: spec_fn(T, T) -> T,
    values: Seq<T>,
    weights: Seq<T>,
    terms: nat,
    factors: nat,
)
    requires
        terms <= factors,
        forall|k: int, sum: T|
            terms <= k < factors ==> #[trigger] plus(sum, times(values[k], weights[k])) == sum,
    ensures
        weighted_sum(zero, times, plus, values, weights, factors) == weighted_sum(
            zero,
            times,
            plus,
            values,
            weights,
            terms,
        ),
    decreases factors,
{
    if terms < factors {
        zeros_above_diagonal_add_nothing(
            zero,
            times,
            plus,
            values,
            weights,
            terms,
            (factors - 1) as nat,
        );
    }
}

/// The matrix has `one` on its diagonal and `zero` below it.
pub open spec fn identity_up_to_diagonal<T>(
    lower: Seq<T>,
    factors: nat,
    zero: T,
    one: T,
) -> bool {
    forall|j: int, k: int|
        0 <= k <= j < factors ==> #[trigger] crate::kernel::matrix_row(lower, factors, j)[k] == (
        if k == j {
            one
        } else {
            zero
        })
}

impl<T, M: Fn(T, T) -> T, A: Fn(T, T) -> T> Arithmetic<T, M, A> {
    /// On the values that `regular` holds of, `zero` and `one` work as they should, up to
    /// `same`: adding a value times zero to zero gives zero, and adding a value times one to
    /// zero gives the same value.
    pub open spec fn has_units(
        self,
        one: T,
        regular: spec_fn(T) -> bool,
        same: spec_fn(T, T) -> bool,
    ) -> bool {
        &&& forall|value: T, sum: T|
            regular(value) && #[trigger] self.adds_product(self.zero, value, self.zero, sum)
                ==> sum == self.zero
        &&& forall|value: T, sum: T|
            regular(value) && #[trigger] self.adds_product(self.zero, value, one, sum) ==> same(
                sum,
                value,
            )
    }
}

/// Arithmetic in which `one` is neutral for products, `zero` is neutral for sums, and
/// a product with `zero` adds nothing has units on all values.
pub proof fn neutral_elements_are_units<T, M: Fn(T, T) -> T, A: Fn(T, T) -> T>(
    arithmetic: Arithmetic<T, M, A>,
    times: spec_fn(T, T) -> T,
    plus: spec_fn(T, T) -> T,
    one: T,
)
    requires
        arithmetic.computes(times, plus),
        forall|x: T| #[trigger] times(x, one) == x,
        forall|x: T| #[trigger] plus(arithmetic.zero, x) == x,
        forall|sum: T, x: T| #[trigger] plus(sum, times(x, arithmetic.zero)) == sum,
    ensures
        arithmetic.has_units(one, |x: T| true, |x: T, y: T| x == y),
{
}

/// An identity matrix gives the values of a row back. `regular` picks the values for which
/// the arithmetic has units (of floating-point numbers, the finite ones), and `same` is what
/// counts as the same value (of floating-point numbers, comparing equal).
pub proof fn identity_matrix_gives_row_back<
    T,
    R: Fn(usize) -> T,
    M: Fn(T, T) -> T,
    A: Fn(T, T) -> T,
>(
    arithmetic: Arithmetic<T, M, A>,
    one: T,
    regular: spec_fn(T) -> bool,
    same: spec_fn(T, T) -> bool,
    read: R,
    lower: Seq<T>,
    factors: nat,
    path: int,
    output: Seq<T>,
)
    requires
        arithmetic.has_units(one, regular, same),
        identity_up_to_diagonal(lower, factors, arithmetic.zero, one),
        forall|k: int, value: T|
            0 <= k < factors && #[trigger] call_ensures(
                read,
                (crate::kernel::position_of(factors, path, k) as usize,),
                value,
            ) ==> regular(value),
        crate::kernel::correlates_path(arithmetic, read, lower, factors, path, output),
    ensures
        exists|values: Seq<T>| #[trigger]
            crate::kernel::reads_path(read, factors, path, values) && forall|j: int|
                0 <= j < factors ==> same(
                    #[trigger] crate::kernel::matrix_row(output, factors, path)[j],
                    values[j],
                ),
{
    let values = choose|values: Seq<T>|
        #![trigger crate::kernel::reads_path(read, factors, path, values)]
        crate::kernel::reads_path(read, factors, path, values) && forall|i: int|
            #![trigger crate::kernel::matrix_row(lower, factors, i)]
            0 <= i < factors ==> arithmetic.accumulates(
                values,
                crate::kernel::matrix_row(lower, factors, i),
                (i + 1) as nat,
                crate::kernel::matrix_row(output, factors, path)[i],
            );
    assert forall|j: int| 0 <= j < factors implies same(
        #[trigger] crate::kernel::matrix_row(output, factors, path)[j],
        values[j],
    ) by {
        let weights = crate::kernel::matrix_row(lower, factors, j);
        let sum = crate::kernel::matrix_row(output, factors, path)[j];
        assert(arithmetic.accumulates(values, weights, (j + 1) as nat, sum));
        let sums = choose|sums: Seq<T>|
            #![trigger arithmetic.partial_sums(values, weights, (j + 1) as nat, sums)]
            arithmetic.partial_sums(values, weights, (j + 1) as nat, sums) && sums[j + 1] == sum;
        assert forall|k: int| 0 <= k < factors implies regular(#[trigger] values[k]) by {
            assert(call_ensures(
                read,
                (crate::kernel::position_of(factors, path, k) as usize,),
                values[k],
            ));
        }
        lemma_sums_stay_zero(arithmetic, one, regular, same, values, weights, j, sums, j);
        assert(arithmetic.adds_product(sums[j], values[j], weights[j], sums[j + 1]));
    }
}

/// As long as the weights are zero, the partial sums are.
proof fn lemma_sums_stay_zero<T, M: Fn(T, T) -> T, A: Fn(T, T) -> T>(
    arithmetic: Arithmetic<T, M, A>,
    one: T,
    regular: spec_fn(T) -> bool,
    same: spec_fn(T, T) -> bool,
    values: Seq<T>,
    weights: Seq<T>,
    j: int,
    sums: Seq<T>,
    upto: int,
)
    requires
        arithmetic.has_units(one, regular, same),
        arithmetic.partial_sums(values, weights, (j + 1) as nat, sums),
        forall|k: int| 0 <= k < j ==> regular(#[trigger] values[k]),
        forall|k: int| 0 <= k < j ==> #[trigger] weights[k] == arithmetic.zero,
        0 <= upto <= j,
    ensures
        sums[upto] == arithmetic.zero,
    decreases upto,
{
    if upto > 0 {
        let k = upto - 1;
        lemma_sums_stay_zero(arithmetic, one, regular, same, values, weights, j, sums, k);
        assert(arithmetic.adds_product(sums[k], values[k], weights[k], sums[k + 1]));
    }
}

/// What the matrix holds above its diagonal does not matter: with two matrices that agree
/// on and below the diagonal, the same rows are correlations of the same values.
pub proof fn upper_triangle_is_not_read<
    T,
    R: Fn(usize) -> T,
    M: Fn(T, T) -> T,
    A: Fn(T, T) -> T,
>(
    arithmetic: Arithmetic<T, M, A>,
    read: R,
    lower: Seq<T>,
    other: Seq<T>,
    factors: nat,
    path: int,
    output: Seq<T>,
)
    requires
        forall|j: int, k: int|
            0 <= k <= j < factors ==> #[trigger] crate::kernel::matrix_row(lower, factors, j)[k]
                == crate::kernel::matrix_row(other, factors, j)[k],
        crate::kernel::correlates_path(arithmetic, read, lower, factors, path, output),
    ensures
        crate::kernel::correlates_path(arithmetic, read, other, factors, path, output),
{
    let values = choose|values: Seq<T>|
        #![trigger crate::kernel::reads_path(read, factors, path, values)]
        crate::kernel::reads_path(read, factors, path, values) && forall|j: int|
            #![trigger crate::kernel::matrix_row(lower, factors, j)]
            0 <= j < factors ==> arithmetic.accumulates(
                values,
                crate::kernel::matrix_row(lower, factors, j),
                (j + 1) as nat,
                crate::kernel::matrix_row(output, factors, path)[j],
            );
    assert forall|j: int|
        #![trigger crate::kernel::matrix_row(other, factors, j)]
        0 <= j < factors implies arithmetic.accumulates(
        values,
        crate::kernel::matrix_row(other, factors, j),
        (j + 1) as nat,
        crate::kernel::matrix_row(output, factors, path)[j],
    ) by {
        arithmetic.lemma_accumulates_prefix(
            values,
            crate::kernel::matrix_row(lower, factors, j),
            values,
            crate::kernel::matrix_row(other, factors, j),
            (j + 1) as nat,
            crate::kernel::matrix_row(output, factors, path)[j],
        );
    }
}

/// Every element of the output belongs to exactly one row and column, and so is written by
/// exactly one unit.
pub proof fn every_element_has_one_unit(paths: nat, factors: nat, position: int)
    requires
        0 <= position < paths * factors,
    ensures
        exists|path: int, j: int|
            0 <= path < paths && 0 <= j < factors && #[trigger] crate::kernel::position_of(
                factors,
                path,
                j,
            ) == position,
        forall|path: int, j: int, other: int, i: int|
            0 <= j < factors && 0 <= i < factors && #[trigger] crate::kernel::position_of(
                factors,
                path,
                j,
            ) == position && #[trigger] crate::kernel::position_of(factors, other, i) == position
                ==> path == other && j == i,
{
    assert(factors > 0) by (nonlinear_arith)
        requires
            0 <= position < paths * factors,
    ;
    let path = position / factors as int;
    let j = position % factors as int;
    vstd::arithmetic::div_mod::lemma_fundamental_div_mod(position, factors as int);
    assert(0 <= path < paths && factors * path == path * factors) by (nonlinear_arith)
        requires
            0 <= position < paths * factors,
            factors > 0,
            position == factors * path + j,
            0 <= j < factors,
    ;
    assert(crate::kernel::position_of(factors, path, j) == position);
    assert forall|row: int, column: int, other: int, i: int|
        0 <= column < factors && 0 <= i < factors && #[trigger] crate::kernel::position_of(
            factors,
            row,
            column,
        ) == position && #[trigger] crate::kernel::position_of(factors, other, i)
            == position implies row == other && column == i by {
        lemma_positions_differ(factors, row, column, other, i);
    }
}

/// Two elements in different rows have different positions.
proof fn lemma_positions_differ(factors: nat, row: int, column: int, other: int, i: int)
    by (nonlinear_arith)
    requires
        0 <= column < factors,
        0 <= i < factors,
        row * factors + column == other * factors + i,
    ensures
        row == other,
        column == i,
{
}

/// Running units one after the other, in any order, correlates every row whose unit is
/// among them: `outputs` are the contents of the output before each unit and at the end.
pub proof fn units_correlate_their_rows<
    T,
    R: Fn(usize) -> T,
    M: Fn(T, T) -> T,
    A: Fn(T, T) -> T,
>(
    arithmetic: Arithmetic<T, M, A>,
    read: R,
    lower: Seq<T>,
    factors: nat,
    paths: nat,
    units: Seq<int>,
    outputs: Seq<Seq<T>>,
    path: int,
)
    requires
        outputs.len() == units.len() + 1,
        outputs[0].len() >= paths * factors,
        forall|n: int|
            #![trigger units[n]]
            0 <= n < units.len() ==> crate::kernel::unit_effect(
                arithmetic,
                read,
                lower,
                factors,
                paths,
                units[n],
                outputs[n],
                outputs[n + 1],
            ),
        0 <= path < paths,
        units.contains(path),
    ensures
        crate::kernel::correlates_path(
            arithmetic,
            read,
            lower,
            factors,
            path,
            outputs.last(),
        ),
    decreases units.len(),
{
    let last = units.len() - 1;
    let before = outputs[last];
    let after = outputs[last + 1];
    assert(crate::kernel::unit_effect(
        arithmetic,
        read,
        lower,
        factors,
        paths,
        units[last],
        before,
        after,
    ));
    if units[last] != path {
        let fewer = units.drop_last();
        let n = units.index_of(path);
        assert(fewer[n] == path);
        assert forall|m: int| #![trigger fewer[m]] 0 <= m < fewer.len() implies crate::kernel::unit_effect(
            arithmetic,
            read,
            lower,
            factors,
            paths,
            fewer[m],
            outputs.drop_last()[m],
            outputs.drop_last()[m + 1],
        ) by {
            assert(fewer[m] == units[m]);
        }
        units_correlate_their_rows(
            arithmetic,
            read,
            lower,
            factors,
            paths,
            fewer,
            outputs.drop_last(),
            path,
        );
        lemma_lengths_stay(arithmetic, read, lower, factors, paths, units, outputs, last);
        let row_before = crate::kernel::matrix_row(before, factors, path);
        let row_after = crate::kernel::matrix_row(after, factors, path);
        assert forall|j: int| 0 <= j < factors implies row_after[j] == row_before[j] by {
            crate::kernel::lemma_position_in_rows(path, j, paths as int, factors as int);
            let position = crate::kernel::position_of(factors, path, j);
            let unit = units[last];
            if unit * factors <= position < unit * factors + factors {
                lemma_positions_differ(factors, path, j, unit, position - unit * factors);
            }
            assert(after[position] == before[position]);
        }
        assert(row_after =~= row_before);
    }
}

/// No unit changes the length of the output.
proof fn lemma_lengths_stay<T, R: Fn(usize) -> T, M: Fn(T, T) -> T, A: Fn(T, T) -> T>(
    arithmetic: Arithmetic<T, M, A>,
    read: R,
    lower: Seq<T>,
    factors: nat,
    paths: nat,
    units: Seq<int>,
    outputs: Seq<Seq<T>>,
    upto: int,
)
    requires
        outputs.len() == units.len() + 1,
        forall|n: int|
            #![trigger units[n]]
            0 <= n < units.len() ==> crate::kernel::unit_effect(
                arithmetic,
                read,
                lower,
                factors,
                paths,
                units[n],
                outputs[n],
                outputs[n + 1],
            ),
        0 <= upto <= units.len(),
    ensures
        outputs[upto].len() == outputs[0].len(),
    decreases upto,
{
    if upto > 0 {
        lemma_lengths_stay(arithmetic, read, lower, factors, paths, units, outputs, upto - 1);
        let unit = units[upto - 1];
    }
}

/// Running the units of all rows with an identity matrix gives every value back, element for
/// element. `regular` and `same` are as in [`identity_matrix_gives_row_back`].
pub proof fn identity_matrix_gives_values_back<
    T,
    R: Fn(usize) -> T,
    M: Fn(T, T) -> T,
    A: Fn(T, T) -> T,
>(
    arithmetic: Arithmetic<T, M, A>,
    one: T,
    regular: spec_fn(T) -> bool,
    same: spec_fn(T, T) -> bool,
    read: R,
    element: spec_fn(usize) -> T,
    lower: Seq<T>,
    factors: nat,
    paths: nat,
    units: Seq<int>,
    outputs: Seq<Seq<T>>,
    position: usize,
)
    requires
        arithmetic.has_units(one, regular, same),
        identity_up_to_diagonal(lower, factors, arithmetic.zero, one),
        forall|at: usize, value: T| #[trigger]
            call_ensures(read, (at,), value) ==> value == element(at),
        forall|at: usize| at < paths * factors ==> regular(#[trigger] element(at)),
        paths * factors <= usize::MAX,
        outputs.len() == units.len() + 1,
        outputs[0].len() >= paths * factors,
        forall|n: int|
            #![trigger units[n]]
            0 <= n < units.len() ==> crate::kernel::unit_effect(
                arithmetic,
                read,
                lower,
                factors,
                paths,
                units[n],
                outputs[n],
                outputs[n + 1],
            ),
        forall|path: int| 0 <= path < paths ==> #[trigger] units.contains(path),
        position < paths * factors,
    ensures
        same(outputs.last()[position as int], element(position)),
{
    every_element_has_one_unit(paths, factors, position as int);
    let (path, j) = choose|path: int, j: int|
        0 <= path < paths && 0 <= j < factors && #[trigger] crate::kernel::position_of(
            factors,
            path,
            j,
        ) == position;
    units_correlate_their_rows(
        arithmetic,
        read,
        lower,
        factors,
        paths,
        units,
        outputs,
        path,
    );
    let output = outputs.last();
    assert forall|k: int, value: T|
        0 <= k < factors && #[trigger] call_ensures(
            read,
            (crate::kernel::position_of(factors, path, k) as usize,),
            value,
        ) implies regular(value) by {
        crate::kernel::lemma_position_in_rows(path, k, paths as int, factors as int);
        let at = crate::kernel::position_of(factors, path, k) as usize;
        assert(regular(element(at)));
    }
    identity_matrix_gives_row_back(
        arithmetic,
        one,
        regular,
        same,
        read,
        lower,
        factors,
        path,
        output,
    );
    let values = choose|values: Seq<T>| #[trigger]
        crate::kernel::reads_path(read, factors, path, values) && forall|i: int|
            0 <= i < factors ==> same(
                #[trigger] crate::kernel::matrix_row(output, factors, path)[i],
                values[i],
            );
    assert(same(crate::kernel::matrix_row(output, factors, path)[j], values[j]));
    assert(call_ensures(
        read,
        (crate::kernel::position_of(factors, path, j) as usize,),
        values[j],
    ));
}

} // verus!
