//! The event channel and its poll adapter.
//!
//! Engine callbacks produce [`Event`]s; the caller pulls them back out one
//! `poll` at a time. The channel is a strict FIFO queue with a single
//! logical consumer: `poll` takes the channel exclusively, so receives can
//! never interleave. The queue is bounded: under backpressure the oldest
//! audio frame is dropped (a stale frame is useless), while state
//! transitions are always kept. Once the producer side is gone, polling an
//! emptied channel reports `ChannelDisconnected`, and keeps reporting it.

use vstd::prelude::*;

verus! {

use crate::errors::SpotifyError;
use crate::events::Event;

/// The position of the oldest audio frame in `q`, or -1 when `q` holds none.
pub open spec fn first_audio_index(q: Seq<Event>) -> int
    decreases q.len(),
{
    if q.len() == 0 {
        -1
    } else if q[0].is_audio() {
        0
    } else {
        let r = first_audio_index(q.drop_first());
        if r < 0 {
            -1
        } else {
            r + 1
        }
    }
}

proof fn lemma_first_audio_props(q: Seq<Event>)
    ensures
        first_audio_index(q) >= 0 ==> first_audio_index(q) < q.len() && q[first_audio_index(
            q,
        )].is_audio() && (forall|j: int| 0 <= j < first_audio_index(q) ==> !q[j].is_audio()),
        first_audio_index(q) < 0 ==> forall|j: int| 0 <= j < q.len() ==> !q[j].is_audio(),
    decreases q.len(),
{
    if q.len() > 0 && !q[0].is_audio() {
        let t = q.drop_first();
        lemma_first_audio_props(t);
        let r = first_audio_index(t);
        assert(forall|j: int| 0 <= j < t.len() ==> t[j] == q[j + 1]);
        if r >= 0 {
            assert(first_audio_index(q) == r + 1);
            assert(q[r + 1].is_audio());
            assert forall|j: int| 0 <= j < r + 1 implies !q[j].is_audio() by {
                if j > 0 {
                    assert(t[j - 1] == q[j]);
                }
            }
        } else {
            assert forall|j: int| 0 <= j < q.len() implies !q[j].is_audio() by {
                if j > 0 {
                    assert(t[j - 1] == q[j]);
                }
            }
        }
    }
}

/// What producing `e` on a channel with queue `q` and capacity `cap` leaves
/// in the queue: state transitions are always appended; an audio frame is
/// appended while there is room, displaces the oldest queued audio frame
/// when there is none, and is itself discarded when the full queue holds
/// state transitions only.
pub open spec fn produce_spec(q: Seq<Event>, cap: int, e: Event) -> Seq<Event> {
    if !e.is_audio() {
        q.push(e)
    } else if q.len() < cap {
        q.push(e)
    } else if first_audio_index(q) >= 0 {
        q.remove(first_audio_index(q)).push(e)
    } else {
        q
    }
}

/// What one poll of a channel with queue `q` returns: the oldest queued
/// event; the distinct no-event value when the queue is merely empty; the
/// `ChannelDisconnected` error only when it is empty and the producer is
/// gone.
pub open spec fn poll_outcome(q: Seq<Event>, disconnected: bool) -> Result<
    Option<Event>,
    SpotifyError,
> {
    if q.len() > 0 {
        Ok(Some(q[0]))
    } else if disconnected {
        Err(SpotifyError::ChannelDisconnected)
    } else {
        Ok(None)
    }
}

/// What one poll leaves in the queue: the polled event is removed; nothing
/// else changes.
pub open spec fn poll_rest(q: Seq<Event>, disconnected: bool) -> Seq<Event> {
    if q.len() > 0 {
        q.drop_first()
    } else {
        q
    }
}

/// The queue left after producing each event of `es` in order.
pub open spec fn produce_all(q: Seq<Event>, cap: int, es: Seq<Event>) -> Seq<Event>
    decreases es.len(),
{
    if es.len() == 0 {
        q
    } else {
        produce_all(produce_spec(q, cap, es[0]), cap, es.drop_first())
    }
}

/// The event channel: a bounded FIFO queue of domain events, the producer
/// liveness flag, and the poll adapter's configured wait bound.
pub struct EventChannel {
    queue: Vec<Event>,
    capacity: usize,
    wait_ms: u64,
    disconnected: bool,
}

impl View for EventChannel {
    type V = Seq<Event>;

    closed spec fn view(&self) -> Seq<Event> {
        self.queue@
    }
}

impl EventChannel {
    /// The bound on how many events the queue holds before frames are dropped.
    pub closed spec fn spec_capacity(self) -> int {
        self.capacity as int
    }

    /// The producer side has been torn down.
    pub closed spec fn is_disconnected(self) -> bool {
        self.disconnected
    }

    /// The configured bound, in milliseconds, that one poll may wait.
    pub closed spec fn spec_wait_ms(self) -> u64 {
        self.wait_ms
    }

    /// A fresh, connected, empty channel with the given capacity and poll
    /// wait bound.
    pub fn new(capacity: usize, wait_ms: u64) -> (r: EventChannel)
        requires
            capacity >= 1,
        ensures
            r@ == Seq::<Event>::empty(),
            r.spec_capacity() == capacity,
            r.spec_wait_ms() == wait_ms,
            !r.is_disconnected(),
    {
        EventChannel { queue: Vec::new(), capacity, wait_ms, disconnected: false }
    }

    /// Number of queued events.
    pub fn len(&self) -> (r: usize)
        ensures
            r == self@.len(),
    {
        self.queue.len()
    }

    /// The capacity the channel was created with.
    pub fn capacity(&self) -> (r: usize)
        ensures
            r == self.spec_capacity(),
    {
        self.capacity
    }

    /// The configured poll wait bound in milliseconds. The host must wait
    /// exactly this long for an event before a poll reports the no-event
    /// value.
    pub fn wait_bound_ms(&self) -> (r: u64)
        ensures
            r == self.spec_wait_ms(),
    {
        self.wait_ms
    }

    /// Has the producer side been torn down?
    pub fn disconnected(&self) -> (r: bool)
        ensures
            r == self.is_disconnected(),
    {
        self.disconnected
    }

    /// Producer endpoint: enqueue one event under the backpressure policy of
    /// [`produce_spec`].
    pub fn produce(&mut self, e: Event)
        requires
            !old(self).is_disconnected(),
        ensures
            final(self)@ == produce_spec(old(self)@, old(self).spec_capacity(), e),
            final(self).spec_capacity() == old(self).spec_capacity(),
            final(self).spec_wait_ms() == old(self).spec_wait_ms(),
            !final(self).is_disconnected(),
    {
        let is_frame = event_is_audio(&e);
        if !is_frame || self.queue.len() < self.capacity {
            self.queue.push(e);
            return ;
        }
        let n = self.queue.len();
        let mut i: usize = 0;
        while i < n
            invariant
                i <= n,
                n == self.queue@.len(),
                *self == *old(self),
                !self.is_disconnected(),
                is_frame == e.is_audio(),
                is_frame,
                n >= self.spec_capacity(),
                forall|j: int| 0 <= j < i ==> !self.queue@[j].is_audio(),
            decreases n - i,
        {
            if event_is_audio(&self.queue[i]) {
                proof {
                    lemma_first_audio_props(self.queue@);
                    let fai = first_audio_index(self.queue@);
                    assert(fai >= 0);
                    assert(!(fai < i as int));
                    assert(!(fai > i as int));
                }
                self.queue.remove(i);
                self.queue.push(e);
                return ;
            }
            i += 1;
        }
        proof {
            lemma_first_audio_props(self.queue@);
        }
    }

    /// Consumer endpoint: one bounded-wait receive. Returns the oldest event
    /// and removes it; the no-event value when the queue is merely empty;
    /// `ChannelDisconnected` exactly when the queue is empty and the
    /// producer is gone.
    pub fn poll(&mut self) -> (r: Result<Option<Event>, SpotifyError>)
        ensures
            r == poll_outcome(old(self)@, old(self).is_disconnected()),
            final(self)@ == poll_rest(old(self)@, old(self).is_disconnected()),
            final(self).is_disconnected() == old(self).is_disconnected(),
            final(self).spec_capacity() == old(self).spec_capacity(),
            final(self).spec_wait_ms() == old(self).spec_wait_ms(),
    {
        if self.queue.len() > 0 {
            let e = self.queue.remove(0);
            proof {
                assert(old(self)@.remove(0) =~= old(self)@.drop_first());
            }
            Ok(Some(e))
        } else if self.disconnected {
            Err(SpotifyError::ChannelDisconnected)
        } else {
            Ok(None)
        }
    }

    /// Producer teardown: every poll that finds the queue empty from now on
    /// reports `ChannelDisconnected`. Already queued events remain readable.
    pub fn disconnect(&mut self)
        ensures
            final(self)@ == old(self)@,
            final(self).is_disconnected(),
            final(self).spec_capacity() == old(self).spec_capacity(),
            final(self).spec_wait_ms() == old(self).spec_wait_ms(),
    {
        self.disconnected = true;
    }

    /// Remove and return every queued event, oldest first: the delivered
    /// sequence is exactly the queued sequence, each event once.
    pub fn drain(&mut self) -> (r: Vec<Event>)
        ensures
            r@ == old(self)@,
            final(self)@ == Seq::<Event>::empty(),
            final(self).is_disconnected() == old(self).is_disconnected(),
            final(self).spec_capacity() == old(self).spec_capacity(),
            final(self).spec_wait_ms() == old(self).spec_wait_ms(),
    {
        let ghost orig = self.queue@;
        let mut out: Vec<Event> = Vec::new();
        while self.queue.len() > 0
            invariant
                out@ + self.queue@ == orig,
                self.disconnected == old(self).is_disconnected(),
                self.spec_capacity() == old(self).spec_capacity(),
                self.spec_wait_ms() == old(self).spec_wait_ms(),
            decreases self.queue@.len(),
        {
            let e = self.queue.remove(0);
            out.push(e);
            proof {
                assert(out@ + self.queue@ =~= orig);
            }
        }
        proof {
            assert(out@ =~= orig);
        }
        out
    }
}

fn event_is_audio(e: &Event) -> (b: bool)
    ensures
        b == e.is_audio(),
{
    matches!(e, Event::AudioData { .. })
}

/// A poll that finds nothing within its wait bound reports the distinct
/// no-event value, never an error, and leaves the channel unchanged.
pub proof fn lemma_empty_poll_is_no_event(q: Seq<Event>, disconnected: bool)
    requires
        q.len() == 0,
        !disconnected,
    ensures
        poll_outcome(q, disconnected) == Ok::<Option<Event>, SpotifyError>(None),
        poll_rest(q, disconnected) == q,
{
}

/// Events produced while the queue never exceeds its capacity are queued in
/// exactly the order produced; with `poll` removing only the head, they are
/// then delivered in that order, each exactly once.
pub proof fn lemma_fifo_delivery(q: Seq<Event>, cap: int, es: Seq<Event>)
    requires
        q.len() + es.len() <= cap,
    ensures
        produce_all(q, cap, es) == q + es,
    decreases es.len(),
{
    if es.len() == 0 {
        assert(q + es =~= q);
    } else {
        assert(produce_spec(q, cap, es[0]) == q.push(es[0]));
        lemma_fifo_delivery(q.push(es[0]), cap, es.drop_first());
        assert(q.push(es[0]) + es.drop_first() =~= q + es);
    }
}

/// The events of `q` that are state transitions, in queue order.
pub open spec fn state_changes_of(q: Seq<Event>) -> Seq<Event> {
    q.filter(|x: Event| !x.is_audio())
}

proof fn lemma_filter_push(q: Seq<Event>, e: Event)
    ensures
        !e.is_audio() ==> state_changes_of(q.push(e)) == state_changes_of(q).push(e),
        e.is_audio() ==> state_changes_of(q.push(e)) == state_changes_of(q),
{
    reveal(Seq::filter);
    assert(q.push(e).drop_last() =~= q);
    assert(q.push(e).last() == e);
}

proof fn lemma_filter_single(e: Event)
    ensures
        !e.is_audio() ==> state_changes_of(seq![e]) == seq![e],
        e.is_audio() ==> state_changes_of(seq![e]) == Seq::<Event>::empty(),
{
    reveal_with_fuel(Seq::filter, 2);
    assert(seq![e].drop_last() =~= Seq::<Event>::empty());
    assert(seq![e].last() == e);
    if !e.is_audio() {
        assert(state_changes_of(seq![e]) =~= seq![e]);
    }
}

proof fn lemma_filter_remove_audio(q: Seq<Event>, i: int)
    requires
        0 <= i < q.len(),
        q[i].is_audio(),
    ensures
        state_changes_of(q.remove(i)) == state_changes_of(q),
{
    let p = (|x: Event| !x.is_audio());
    let a = q.subrange(0, i);
    let m = q.subrange(i, i + 1);
    let b = q.subrange(i + 1, q.len() as int);
    assert(m =~= seq![q[i]]);
    lemma_filter_single(q[i]);
    assert(q =~= (a + m) + b);
    assert(q.remove(i) =~= a + b);
    Seq::filter_distributes_over_add(a + m, b, p);
    Seq::filter_distributes_over_add(a, m, p);
    Seq::filter_distributes_over_add(a, b, p);
    assert(state_changes_of(q.remove(i)) =~= state_changes_of(q));
}

/// The backpressure policy never loses a state transition: a produce extends
/// the state-transition subsequence by exactly the produced event when it is
/// one, and leaves that subsequence untouched when it is an audio frame —
/// whether the frame was queued, displaced an older frame, or was discarded.
pub proof fn lemma_state_changes_never_dropped(q: Seq<Event>, cap: int, e: Event)
    ensures
        !e.is_audio() ==> state_changes_of(produce_spec(q, cap, e)) == state_changes_of(q).push(
            e,
        ),
        e.is_audio() ==> state_changes_of(produce_spec(q, cap, e)) == state_changes_of(q),
{
    if !e.is_audio() || q.len() < cap {
        lemma_filter_push(q, e);
    } else {
        let fai = first_audio_index(q);
        if fai >= 0 {
            lemma_first_audio_props(q);
            lemma_filter_remove_audio(q, fai);
            lemma_filter_push(q.remove(fai), e);
        }
    }
}

/// Over a whole production run: whatever backpressure does to audio frames,
/// the state transitions queued afterwards are exactly those already queued
/// followed by every produced one, in production order.
pub proof fn lemma_all_state_changes_delivered(q: Seq<Event>, cap: int, es: Seq<Event>)
    ensures
        state_changes_of(produce_all(q, cap, es)) == state_changes_of(q) + state_changes_of(es),
    decreases es.len(),
{
    reveal_with_fuel(Seq::filter, 1);
    if es.len() == 0 {
        assert(state_changes_of(es) =~= Seq::<Event>::empty());
        assert(state_changes_of(q) + state_changes_of(es) =~= state_changes_of(q));
    } else {
        let head = es[0];
        let rest = es.drop_first();
        lemma_state_changes_never_dropped(q, cap, head);
        lemma_all_state_changes_delivered(produce_spec(q, cap, head), cap, rest);
        assert(es =~= seq![head] + rest);
        lemma_filter_single(head);
        Seq::filter_distributes_over_add(seq![head], rest, |x: Event| !x.is_audio());
        if !head.is_audio() {
            assert(state_changes_of(q).push(head) =~= state_changes_of(q) + seq![head]);
            assert((state_changes_of(q) + seq![head]) + state_changes_of(rest) =~= state_changes_of(
                q,
            ) + (seq![head] + state_changes_of(rest)));
        } else {
            assert(state_changes_of(es) =~= state_changes_of(rest));
        }
    }
}

/// Disconnection is permanent: once a poll has reported
/// `ChannelDisconnected`, the channel is unchanged and still disconnected,
/// so every subsequent poll reports `ChannelDisconnected` as well.
pub proof fn lemma_disconnected_is_permanent(q: Seq<Event>, disconnected: bool)
    requires
        poll_outcome(q, disconnected) == Err::<Option<Event>, SpotifyError>(
            SpotifyError::ChannelDisconnected,
        ),
    ensures
        poll_rest(q, disconnected) == q,
        poll_outcome(poll_rest(q, disconnected), disconnected) == Err::<
            Option<Event>,
            SpotifyError,
        >(SpotifyError::ChannelDisconnected),
{
}

} // verus!
