use vstd::prelude::*;

verus! {

/// State of the one-shot cell inside a [`ResultChannel`].
///
/// The cell starts `Empty`, is filled at most once by the producer side, and
/// the single filled value is handed to the consumer at most once, leaving
/// the cell `Consumed`.
pub enum SlotState<T> {
    Empty,
    Filled(T),
    Consumed,
}

/// Single-producer, single-consumer handoff of one outcome value from the
/// completion path of a native operation to the one awaiting consumer.
///
/// The contracts below admit exactly the transitions `Empty -> Filled(v)`
/// (one deposit) and `Filled(v) -> Consumed` (one delivery, of `v` itself);
/// delivery is always enabled from `Filled`, so a deposited value is never
/// dropped.
pub struct ResultChannel<T> {
    slot: SlotState<T>,
}

impl<T> ResultChannel<T> {
    /// Abstract state of the channel.
    pub closed spec fn state(&self) -> SlotState<T> {
        self.slot
    }

    /// A fresh, empty channel.
    pub fn new() -> (c: Self)
        ensures
            c.state() is Empty,
    {
        ResultChannel { slot: SlotState::Empty }
    }

    /// Producer side: deposit the single outcome value.
    pub fn send(&mut self, value: T)
        requires
            old(self).state() is Empty,
        ensures
            final(self).state() == SlotState::Filled(value),
    {
        self.slot = SlotState::Filled(value);
    }

    /// Consumer side: take the delivered value. The value returned is
    /// exactly the one deposited, and afterwards the cell is `Consumed`,
    /// from which neither a further deposit nor a further delivery is
    /// admitted.
    pub fn recv(&mut self) -> (value: T)
        requires
            old(self).state() is Filled,
        ensures
            final(self).state() is Consumed,
            old(self).state() == SlotState::Filled(value),
    {
        let mut slot = SlotState::Consumed;
        core::mem::swap(&mut self.slot, &mut slot);
        match slot {
            SlotState::Filled(value) => value,
            _ => vstd::pervasive::unreached(),
        }
    }

    /// Consumer side, polling form: deliver the value if one is present,
    /// report `None` (consumer keeps waiting) while the cell is still empty.
    pub fn try_recv(&mut self) -> (r: Option<T>)
        requires
            !(old(self).state() is Consumed),
        ensures
            old(self).state() is Empty ==> r is None && final(self).state() is Empty,
            old(self).state() matches SlotState::Filled(v) ==> r == Some(v) && final(self).state() is Consumed,
    {
        match &self.slot {
            SlotState::Empty => None,
            _ => Some(self.recv()),
        }
    }
}

/// One atomic step of the channel protocol: a deposit or a delivery.
pub open spec fn channel_step<T>(pre: SlotState<T>, post: SlotState<T>) -> bool {
    ||| (pre is Empty && post is Filled)
    ||| (pre is Filled && post is Consumed)
}

/// A possible lifetime of one channel: it starts `Empty` and every later
/// state follows from its predecessor by stuttering or by one
/// [`channel_step`].
pub open spec fn channel_history<T>(h: Seq<SlotState<T>>) -> bool {
    &&& h.len() > 0
    &&& h[0] is Empty
    &&& forall|i: int|
        0 <= i < h.len() - 1 ==> (h[i] == h[i + 1] || #[trigger] channel_step(h[i], h[i + 1]))
}

/// A delivery to the consumer happens at position `i` of a history.
pub open spec fn delivers_at<T>(h: Seq<SlotState<T>>, i: int) -> bool {
    &&& 0 <= i < h.len() - 1
    &&& h[i] is Filled
    &&& h[i + 1] is Consumed
}

/// Once a channel is `Consumed`, it stays `Consumed` for the rest of the
/// history: no step leads out of `Consumed`.
pub proof fn lemma_consumed_is_final<T>(h: Seq<SlotState<T>>, i: int, j: int)
    requires
        channel_history(h),
        0 <= i <= j < h.len(),
        h[i] is Consumed,
    ensures
        h[j] is Consumed,
    decreases j - i,
{
    if i < j {
        assert(h[i] == h[i + 1] || channel_step(h[i], h[i + 1]));
        lemma_consumed_is_final(h, i + 1, j);
    }
}

/// Once the cell holds or has handed over a value it never becomes empty
/// again: nothing can be un-deposited.
pub proof fn lemma_not_empty_is_preserved<T>(h: Seq<SlotState<T>>, i: int, j: int)
    requires
        channel_history(h),
        0 <= i <= j < h.len(),
        !(h[i] is Empty),
    ensures
        !(h[j] is Empty),
    decreases j - i,
{
    if i < j {
        assert(h[i] == h[i + 1] || channel_step(h[i], h[i + 1]));
        lemma_not_empty_is_preserved(h, i + 1, j);
    }
}

/// The channel never delivers twice: in any lifetime of one channel there is
/// at most one position at which a delivery happens.
pub proof fn lemma_at_most_one_delivery<T>(h: Seq<SlotState<T>>, i: int, j: int)
    requires
        channel_history(h),
        delivers_at(h, i),
        delivers_at(h, j),
    ensures
        i == j,
{
    if i < j {
        lemma_consumed_is_final(h, i + 1, j);
    } else if j < i {
        lemma_consumed_is_final(h, j + 1, i);
    }
}

/// The channel never swaps or corrupts the value in flight: from the moment
/// a value is deposited until the moment it is delivered, the cell holds
/// that very value, so the delivery hands over exactly what was sent.
pub proof fn lemma_delivered_value_is_the_sent_value<T>(h: Seq<SlotState<T>>, i: int, j: int)
    requires
        channel_history(h),
        0 <= i <= j,
        delivers_at(h, j),
        h[i] is Filled,
    ensures
        h[j] == h[i],
    decreases j - i,
{
    if i < j {
        assert(h[i] == h[i + 1] || channel_step(h[i], h[i + 1]));
        if h[i + 1] is Consumed {
            lemma_consumed_is_final(h, i + 1, j);
        }
        lemma_delivered_value_is_the_sent_value(h, i + 1, j);
    }
}

} // verus!
