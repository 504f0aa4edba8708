use vstd::prelude::*;

use crate::channel::{
    channel_history, channel_step, delivers_at, lemma_at_most_one_delivery,
    lemma_delivered_value_is_the_sent_value, lemma_not_empty_is_preserved, ResultChannel,
    SlotState,
};

verus! {

/// A native status code carried by a failed operation, as the runtime
/// reports it (negative values are failures in the native convention; the
/// bridge itself does not interpret the value).
#[derive(Clone, Copy, PartialEq, Eq, Structural, Debug)]
pub struct NativeError {
    pub code: i32,
}

/// Where the completion callback of one operation stands.
pub enum CallbackPhase {
    /// Begin accepted the operation; the runtime will invoke the callback
    /// exactly once, possibly before Begin even returns.
    AwaitingInvocation,
    /// The callback has fired and has deposited the harvested outcome.
    Invoked,
    /// Begin reported immediate failure, so the callback was never handed
    /// to the runtime and can never fire.
    NeverScheduled,
}

/// One Begin/End operation bridged into a single awaitable outcome.
///
/// The bridge owns a fresh [`ResultChannel`] per operation. When Begin
/// reports immediate failure, the channel handed out to the consumer is a
/// second, freshly filled one: the first channel's producer half is owned
/// by the never-to-be-invoked callback and is abandoned with it, so even an
/// inconsistent native error report cannot lead to a double deposit. Here
/// that abandonment is captured by the `NeverScheduled` phase, under which
/// [`BridgeOperation::complete`] is never enabled.
pub struct BridgeOperation<T> {
    channel: ResultChannel<Result<T, NativeError>>,
    phase: CallbackPhase,
}

impl<T> BridgeOperation<T> {
    /// Where the operation's callback stands.
    pub closed spec fn phase(&self) -> CallbackPhase {
        self.phase
    }

    /// Abstract state of the channel backing the awaitable.
    pub closed spec fn channel_state(&self) -> SlotState<Result<T, NativeError>> {
        self.channel.state()
    }

    /// Internal consistency: the channel can be empty only while the
    /// callback is still awaited, and a never-scheduled callback leaves the
    /// channel already resolved (or drained) with a failure.
    pub open spec fn wf(&self) -> bool {
        match self.phase() {
            CallbackPhase::AwaitingInvocation => self.channel_state() is Empty,
            CallbackPhase::Invoked => !(self.channel_state() is Empty),
            CallbackPhase::NeverScheduled => !(self.channel_state() is Empty),
        }
    }

    /// The callback may fire only while the operation awaits it.
    pub open spec fn completion_enabled(&self) -> bool {
        self.phase() is AwaitingInvocation
    }

    /// The consumer can resume without further waiting.
    pub open spec fn resolved(&self) -> bool {
        self.channel_state() is Filled
    }

    /// Start one operation from what Begin reported.
    ///
    /// If Begin accepted the call, the awaitable is backed by the empty
    /// channel whose producer half the callback owns. If Begin signalled
    /// immediate failure, no callback invocation will ever occur, and the
    /// awaitable is already resolved to exactly that failure.
    pub fn start(begin_status: Result<(), NativeError>) -> (op: Self)
        ensures
            op.wf(),
            begin_status is Ok ==> op.phase() is AwaitingInvocation && op.channel_state() is Empty,
            begin_status matches Err(e) ==> op.phase() is NeverScheduled && op.channel_state()
                == SlotState::Filled(Err::<T, NativeError>(e)),
    {
        match begin_status {
            Ok(()) => BridgeOperation {
                channel: ResultChannel::new(),
                phase: CallbackPhase::AwaitingInvocation,
            },
            Err(e) => {
                let mut channel = ResultChannel::new();
                channel.send(Err(e));
                BridgeOperation { channel, phase: CallbackPhase::NeverScheduled }
            },
        }
    }

    /// The completion callback's single invocation: deposit the outcome
    /// that the End call harvested from the operation context. Enabled
    /// exactly once per accepted operation; a second invocation, or one for
    /// an operation whose Begin already failed, violates the precondition
    /// and is a defect of the native runtime, not an ordinary failure.
    pub fn complete(&mut self, outcome: Result<T, NativeError>)
        requires
            old(self).wf(),
            old(self).completion_enabled(),
        ensures
            final(self).wf(),
            final(self).phase() is Invoked,
            final(self).channel_state() == SlotState::Filled(outcome),
            callback_fires(old(self).view_state(), final(self).view_state()),
    {
        self.channel.send(outcome);
        self.phase = CallbackPhase::Invoked;
    }

    /// Consumer resumption: take the delivered outcome, exactly once.
    pub fn take(&mut self) -> (outcome: Result<T, NativeError>)
        requires
            old(self).wf(),
            old(self).resolved(),
        ensures
            final(self).wf(),
            final(self).phase() == old(self).phase(),
            final(self).channel_state() is Consumed,
            old(self).channel_state() == SlotState::Filled(outcome),
            consumer_takes(old(self).view_state(), final(self).view_state()),
    {
        self.channel.recv()
    }

    /// Consumer polling: resume with the outcome if one has been delivered,
    /// keep waiting otherwise. Waiting is a pure data dependency on the
    /// channel; no outcome can be observed twice.
    pub fn poll(&mut self) -> (r: Option<Result<T, NativeError>>)
        requires
            old(self).wf(),
            !(old(self).channel_state() is Consumed),
        ensures
            final(self).wf(),
            final(self).phase() == old(self).phase(),
            old(self).channel_state() is Empty ==> r is None && final(self).channel_state() is Empty,
            old(self).channel_state() matches SlotState::Filled(v) ==> r == Some(v) && final(self).channel_state() is Consumed,
    {
        self.channel.try_recv()
    }
}

/// The observable state of one operation: callback phase and channel slot.
pub type OperationView<T> = (CallbackPhase, SlotState<Result<T, NativeError>>);

impl<T> BridgeOperation<T> {
    /// The operation's observable state.
    pub open spec fn view_state(&self) -> OperationView<T> {
        (self.phase(), self.channel_state())
    }
}

/// The completion callback fires: it deposits the harvested outcome into
/// the empty channel, exactly as [`BridgeOperation::complete`] does.
pub open spec fn callback_fires<T>(pre: OperationView<T>, post: OperationView<T>) -> bool {
    &&& pre.0 is AwaitingInvocation
    &&& post.0 is Invoked
    &&& pre.1 is Empty
    &&& post.1 is Filled
}

/// The consumer resumes: it takes the delivered outcome out of the
/// channel, exactly as [`BridgeOperation::take`] does.
pub open spec fn consumer_takes<T>(pre: OperationView<T>, post: OperationView<T>) -> bool {
    &&& post.0 == pre.0
    &&& pre.1 is Filled
    &&& post.1 is Consumed
}

/// A possible lifetime of one accepted operation: it starts with the
/// callback awaited and the channel empty, and every later state follows
/// from its predecessor by stuttering, by the callback firing, or by the
/// consumer taking the outcome.
pub open spec fn accepted_history<T>(h: Seq<OperationView<T>>) -> bool {
    &&& h.len() > 0
    &&& h[0].0 is AwaitingInvocation
    &&& h[0].1 is Empty
    &&& forall|i: int|
        0 <= i < h.len() - 1 ==> (h[i] == h[i + 1] || #[trigger] callback_fires(h[i], h[i + 1])
            || consumer_takes(h[i], h[i + 1]))
}

/// The callback fires at position `i` of a history.
pub open spec fn fires_at<T>(h: Seq<OperationView<T>>, i: int) -> bool {
    &&& 0 <= i < h.len() - 1
    &&& callback_fires(h[i], h[i + 1])
}

/// The consumer resumes at position `i` of a history.
pub open spec fn resumes_at<T>(h: Seq<OperationView<T>>, i: int) -> bool {
    &&& 0 <= i < h.len() - 1
    &&& consumer_takes(h[i], h[i + 1])
}

/// The channel slots of an accepted operation's lifetime form a lifetime
/// of one channel.
proof fn lemma_slot_projection_is_channel_history<T>(
    h: Seq<OperationView<T>>,
    p: Seq<SlotState<Result<T, NativeError>>>,
)
    requires
        accepted_history(h),
        p == h.map_values(|s: OperationView<T>| s.1),
    ensures
        channel_history(p),
{
    assert forall|i: int| 0 <= i < p.len() - 1 implies (p[i] == p[i + 1] || #[trigger] channel_step(
        p[i],
        p[i + 1],
    )) by {
        assert(h[i] == h[i + 1] || callback_fires(h[i], h[i + 1]) || consumer_takes(
            h[i],
            h[i + 1],
        ));
    }
}

/// Once the callback of an accepted operation has fired, its phase stays
/// `Invoked` for the rest of the lifetime.
proof fn lemma_invoked_is_final<T>(h: Seq<OperationView<T>>, i: int, j: int)
    requires
        accepted_history(h),
        0 <= i <= j < h.len(),
        h[i].0 is Invoked,
    ensures
        h[j].0 is Invoked,
    decreases j - i,
{
    if i < j {
        assert(h[i] == h[i + 1] || callback_fires(h[i], h[i + 1]) || consumer_takes(
            h[i],
            h[i + 1],
        ));
        lemma_invoked_is_final(h, i + 1, j);
    }
}

/// Law (the callback fires at most once): in any lifetime of one accepted
/// operation there is at most one position at which the completion
/// callback fires.
pub proof fn lemma_callback_fires_at_most_once<T>(h: Seq<OperationView<T>>, i: int, j: int)
    requires
        accepted_history(h),
        fires_at(h, i),
        fires_at(h, j),
    ensures
        i == j,
{
    if i < j {
        lemma_invoked_is_final(h, i + 1, j);
    } else if j < i {
        lemma_invoked_is_final(h, j + 1, i);
    }
}

/// Law (the consumer resumes at most once): in any lifetime of one
/// accepted operation there is at most one position at which the consumer
/// takes an outcome.
pub proof fn lemma_consumer_resumes_at_most_once<T>(h: Seq<OperationView<T>>, i: int, j: int)
    requires
        accepted_history(h),
        resumes_at(h, i),
        resumes_at(h, j),
    ensures
        i == j,
{
    let p = h.map_values(|s: OperationView<T>| s.1);
    lemma_slot_projection_is_channel_history(h, p);
    assert(delivers_at(p, i));
    assert(delivers_at(p, j));
    lemma_at_most_one_delivery(p, i, j);
}

/// Law (what resumes the consumer is what the callback harvested): if the
/// callback of an accepted operation fires depositing outcome `v`, then
/// whenever the consumer resumes, it resumes with exactly `v`.
pub proof fn lemma_consumer_obtains_callback_outcome<T>(
    h: Seq<OperationView<T>>,
    i: int,
    j: int,
    v: Result<T, NativeError>,
)
    requires
        accepted_history(h),
        fires_at(h, i),
        resumes_at(h, j),
        h[i + 1].1 == SlotState::Filled(v),
    ensures
        h[j].1 == SlotState::Filled(v),
{
    let p = h.map_values(|s: OperationView<T>| s.1);
    lemma_slot_projection_is_channel_history(h, p);
    assert(delivers_at(p, j));
    if j <= i {
        lemma_not_empty_is_preserved(p, j, i);
    }
    lemma_delivered_value_is_the_sent_value(p, i + 1, j);
}

/// Law (immediate failure): an operation whose Begin reported failure `e`
/// starts already resolved — the consumer resumes without waiting and
/// obtains exactly `Err(e)` — and its completion callback is never enabled,
/// so no callback invocation is ever observed for it.
pub proof fn lemma_immediate_failure_resolves_without_callback<T>(
    op: BridgeOperation<T>,
    e: NativeError,
)
    requires
        op.wf(),
        op.phase() is NeverScheduled,
        op.channel_state() == SlotState::Filled(Err::<T, NativeError>(e)),
    ensures
        op.resolved(),
        !op.completion_enabled(),
        forall|v: Result<T, NativeError>|
            op.channel_state() == SlotState::Filled(v) ==> v == Err::<T, NativeError>(e),
{
}

} // verus!
