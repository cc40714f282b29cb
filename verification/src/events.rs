//! The outward event queue: user-visible status and streaming events, with
//! the ordering discipline a consumer may rely on. `StreamingStarted` opens
//! a session in the queue, `StreamingStopped` closes it, and haptics events
//! appear only inside an open session.

use vstd::prelude::*;

verus! {

/// An event posted by the core for the embedding program to consume, in
/// FIFO order. Durations are nanoseconds; frequency is millihertz;
/// amplitude is thousandths of full scale.
#[derive(Clone, PartialEq, Debug)]
pub enum ClientCoreEvent {
    UpdateHudMessage { message: String },
    StreamingStarted { view_width: u32, view_height: u32, refresh_rate_millihz: u32 },
    StreamingStopped,
    Haptics { device_id: u64, duration_ns: u64, frequency_millihz: u32, amplitude_millis: u32 },
}

/// Whether the event history ends inside a streaming session: a
/// `StreamingStarted` has been posted with no later `StreamingStopped`.
pub open spec fn session_open(q: Seq<ClientCoreEvent>) -> bool
    decreases q.len(),
{
    if q.len() == 0 {
        false
    } else {
        match q.last() {
            ClientCoreEvent::StreamingStarted { .. } => true,
            ClientCoreEvent::StreamingStopped => false,
            _ => session_open(q.drop_last()),
        }
    }
}

/// The queue discipline: every haptics event was posted inside an open
/// session.
pub open spec fn events_ordered(q: Seq<ClientCoreEvent>) -> bool
    decreases q.len(),
{
    if q.len() == 0 {
        true
    } else {
        events_ordered(q.drop_last()) && (q.last() is Haptics ==> session_open(q.drop_last()))
    }
}

/// How one appended event changes the two queue predicates.
pub proof fn lemma_push_event(q: Seq<ClientCoreEvent>, e: ClientCoreEvent)
    ensures
        session_open(q.push(e)) == (if e is StreamingStarted {
            true
        } else if e is StreamingStopped {
            false
        } else {
            session_open(q)
        }),
        events_ordered(q.push(e)) == (events_ordered(q) && (e is Haptics ==> session_open(q))),
{
    assert(q.push(e).drop_last() =~= q);
    assert(q.push(e).last() == e);
}

/// Every prefix of a well-ordered queue is well-ordered.
pub proof fn lemma_ordered_prefix(q: Seq<ClientCoreEvent>, n: int)
    requires
        events_ordered(q),
        0 <= n <= q.len(),
    ensures
        events_ordered(q.subrange(0, n)),
    decreases q.len(),
{
    if n == q.len() {
        assert(q.subrange(0, n) =~= q);
    } else {
        assert(q.len() > 0);
        lemma_ordered_prefix(q.drop_last(), n);
        assert(q.drop_last().subrange(0, n) =~= q.subrange(0, n));
    }
}

/// An open session has a witness: a `StreamingStarted` event with no
/// `StreamingStopped` after it.
pub proof fn lemma_session_open_witness(q: Seq<ClientCoreEvent>)
    requires
        session_open(q),
    ensures
        exists|j: int|
            0 <= j < q.len() && q[j] is StreamingStarted && (forall|k: int|
                j < k < q.len() ==> !(#[trigger] q[k] is StreamingStopped)),
    decreases q.len(),
{
    if q.last() is StreamingStarted {
        let j = q.len() - 1;
        assert(0 <= j < q.len() && q[j] is StreamingStarted && (forall|k: int|
            j < k < q.len() ==> !(#[trigger] q[k] is StreamingStopped)));
    } else {
        lemma_session_open_witness(q.drop_last());
        let j = choose|j: int|
            0 <= j < q.drop_last().len() && q.drop_last()[j] is StreamingStarted && (forall|k: int|
                j < k < q.drop_last().len() ==> !(#[trigger] q.drop_last()[k] is StreamingStopped));
        assert(q[j] is StreamingStarted);
        assert(forall|k: int| j < k < q.len() - 1 ==> #[trigger] q[k] == q.drop_last()[k]);
        assert(!(q.last() is StreamingStopped));
        assert(forall|k: int| j < k < q.len() ==> !(#[trigger] q[k] is StreamingStopped));
    }
}

/// Event ordering: in a well-ordered queue, every haptics event is preceded
/// by a `StreamingStarted` for the same session — no `StreamingStopped`
/// stands between the two.
pub proof fn lemma_haptics_ordering(q: Seq<ClientCoreEvent>, i: int)
    requires
        events_ordered(q),
        0 <= i < q.len(),
        q[i] is Haptics,
    ensures
        exists|j: int|
            0 <= j < i && q[j] is StreamingStarted && (forall|k: int|
                j < k < i ==> !(#[trigger] q[k] is StreamingStopped)),
{
    lemma_ordered_prefix(q, i + 1);
    let qp = q.subrange(0, i + 1);
    assert(events_ordered(qp));
    assert(qp.last() is Haptics);
    assert(session_open(qp.drop_last()));
    assert(qp.drop_last() =~= q.subrange(0, i));
    lemma_session_open_witness(q.subrange(0, i));
    let j = choose|j: int|
        0 <= j < i && q.subrange(0, i)[j] is StreamingStarted && (forall|k: int|
            j < k < i ==> !(#[trigger] q.subrange(0, i)[k] is StreamingStopped));
    assert(q[j] is StreamingStarted);
    assert forall|k: int| j < k < i implies !(#[trigger] q[k] is StreamingStopped) by {
        assert(q.subrange(0, i)[k] == q[k]);
        assert(!(q.subrange(0, i)[k] is StreamingStopped));
    }
}

} // verus!
