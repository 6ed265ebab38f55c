//! What a connection does over a whole sequence of inputs, and the laws
//! that hold of it.

use crate::codec::{frame_command, DecodeError};
use crate::connection::{emitted, ends_active, next_state, pressed, ConnInput, ConnState};
use crate::models::events::{Event, Key};
use crate::models::websocket::{ChangeCurrentPageData, WsEvent};
use crate::store::{after_enqueue_all, drained, lemma_drain_keeps_order, AppStateView};
use vstd::prelude::*;

verus! {

/// The state after a sequence of inputs.
pub open spec fn run_state(state: ConnState, inputs: Seq<ConnInput>) -> ConnState
    decreases inputs.len(),
{
    if inputs.len() == 0 {
        state
    } else {
        run_state(next_state(state, inputs[0]), inputs.drop_first())
    }
}

/// The events that a sequence of inputs causes, in order.
pub open spec fn run_events(state: ConnState, inputs: Seq<ConnInput>) -> Seq<Event>
    decreases inputs.len(),
{
    if inputs.len() == 0 {
        Seq::empty()
    } else {
        emitted(state, inputs[0]) + run_events(next_state(state, inputs[0]), inputs.drop_first())
    }
}

/// The keys that a sequence of inputs causes to be pressed, in order.
pub open spec fn run_keys(state: ConnState, inputs: Seq<ConnInput>) -> Seq<Key>
    decreases inputs.len(),
{
    if inputs.len() == 0 {
        Seq::empty()
    } else {
        pressed(state, inputs[0]) + run_keys(next_state(state, inputs[0]), inputs.drop_first())
    }
}

/// Whether a connection is over, or about to be.
pub open spec fn is_ending(state: ConnState) -> bool {
    state is ShuttingDown || state is Closed
}

/// An input that is a message asking to change to page `index`.
pub open spec fn is_page_change(input: ConnInput, index: usize) -> bool {
    input matches ConnInput::Frame(text) && frame_command(text@) == Ok::<WsEvent, DecodeError>(
        WsEvent::ChangeCurrentPage { data: ChangeCurrentPageData { new_page_index: index } },
    )
}

/// An input that is a message which does not decode.
pub open spec fn is_malformed(input: ConnInput) -> bool {
    input matches ConnInput::Frame(text) && frame_command(text@) is Err
}

/// An input that ends an active connection.
pub open spec fn is_end(input: ConnInput) -> bool {
    input is ReadFailed || input is StreamEnded || input is ShutdownRequested
}

/// A run over two sequences of inputs, one after the other, is the run over
/// the first followed by the run over the second from where the first ended.
pub proof fn lemma_run_split(state: ConnState, first: Seq<ConnInput>, rest: Seq<ConnInput>)
    ensures
        run_state(state, first + rest) == run_state(run_state(state, first), rest),
        run_events(state, first + rest) == run_events(state, first) + run_events(
            run_state(state, first),
            rest,
        ),
        run_keys(state, first + rest) == run_keys(state, first) + run_keys(
            run_state(state, first),
            rest,
        ),
    decreases first.len(),
{
    if first.len() == 0 {
        assert(first + rest =~= rest);
        assert(run_events(state, first) + run_events(state, rest) =~= run_events(state, rest));
        assert(run_keys(state, first) + run_keys(state, rest) =~= run_keys(state, rest));
    } else {
        let next = next_state(state, first[0]);
        assert((first + rest)[0] == first[0]);
        assert((first + rest).drop_first() =~= first.drop_first() + rest);
        lemma_run_split(next, first.drop_first(), rest);
        assert(run_events(state, first + rest) =~= run_events(state, first) + run_events(
            run_state(state, first),
            rest,
        ));
        assert(run_keys(state, first + rest) =~= run_keys(state, first) + run_keys(
            run_state(state, first),
            rest,
        ));
    }
}

/// Once a connection is shutting down or closed, it stays so and causes no
/// further event and no key press, whatever comes in.
pub proof fn lemma_silent_after_end(state: ConnState, inputs: Seq<ConnInput>)
    requires
        is_ending(state),
    ensures
        is_ending(run_state(state, inputs)),
        run_events(state, inputs) == Seq::<Event>::empty(),
        run_keys(state, inputs) == Seq::<Key>::empty(),
    decreases inputs.len(),
{
    if inputs.len() > 0 {
        lemma_silent_after_end(next_state(state, inputs[0]), inputs.drop_first());
        assert(run_events(state, inputs) =~= Seq::<Event>::empty());
        assert(run_keys(state, inputs) =~= Seq::<Key>::empty());
    }
}

/// A sequence of page changes on an active connection causes one "slide
/// changed" event for each, in the order of arrival and with its page index,
/// causes no other event, and leaves the connection active.
pub proof fn lemma_page_changes_in_order(inputs: Seq<ConnInput>, indices: Seq<usize>)
    requires
        inputs.len() == indices.len(),
        forall|k: int| 0 <= k < inputs.len() ==> is_page_change(#[trigger] inputs[k], indices[k]),
    ensures
        run_state(ConnState::Active, inputs) == ConnState::Active,
        run_events(ConnState::Active, inputs) == Seq::new(
            indices.len(),
            |k: int| Event::SlideChanged { new_page_index: indices[k] },
        ),
    decreases inputs.len(),
{
    let expected = Seq::new(
        indices.len(),
        |k: int| Event::SlideChanged { new_page_index: indices[k] },
    );
    if inputs.len() == 0 {
        assert(run_events(ConnState::Active, inputs) =~= expected);
    } else {
        assert(is_page_change(inputs[0], indices[0]));
        let rest = inputs.drop_first();
        let rest_indices = indices.drop_first();
        assert forall|k: int| 0 <= k < rest.len() implies is_page_change(
            #[trigger] rest[k],
            rest_indices[k],
        ) by {
            assert(is_page_change(inputs[k + 1], indices[k + 1]));
        }
        lemma_page_changes_in_order(rest, rest_indices);
        assert(emitted(ConnState::Active, inputs[0]) == seq![
            Event::SlideChanged { new_page_index: indices[0] },
        ]);
        assert(run_events(ConnState::Active, inputs) =~= expected);
    }
}

/// A message that does not decode changes nothing: with it or without it,
/// at any place in a sequence of inputs, the connection ends in the same
/// state and causes the same events and key presses. What comes after it is
/// dispatched as if it had not been there.
pub proof fn lemma_malformed_frame_is_skipped(
    state: ConnState,
    before: Seq<ConnInput>,
    bad: ConnInput,
    after: Seq<ConnInput>,
)
    requires
        is_malformed(bad),
    ensures
        run_state(state, before + seq![bad] + after) == run_state(state, before + after),
        run_events(state, before + seq![bad] + after) == run_events(state, before + after),
        run_keys(state, before + seq![bad] + after) == run_keys(state, before + after),
{
    let reached = run_state(state, before);
    let tail = seq![bad] + after;
    assert(before + seq![bad] + after =~= before + tail);
    lemma_run_split(state, before, tail);
    lemma_run_split(state, before, after);
    assert(tail[0] == bad);
    assert(tail.drop_first() =~= after);
    assert(next_state(reached, bad) == reached);
    assert(emitted(reached, bad) =~= Seq::<Event>::empty());
    assert(pressed(reached, bad) =~= Seq::<Key>::empty());
    assert(run_events(reached, tail) =~= run_events(reached, after));
    assert(run_keys(reached, tail) =~= run_keys(reached, after));
}

/// A "connection closed" event is the last event of a connection: nothing
/// follows it, so there is at most one.
pub proof fn lemma_closed_is_last(state: ConnState, inputs: Seq<ConnInput>)
    ensures
        forall|i: int|
            0 <= i < run_events(state, inputs).len() && #[trigger] run_events(state, inputs)[i]
                == Event::ConnectionClosed ==> i == run_events(state, inputs).len() - 1,
    decreases inputs.len(),
{
    if inputs.len() > 0 {
        let next = next_state(state, inputs[0]);
        let head = emitted(state, inputs[0]);
        let rest = run_events(next, inputs.drop_first());
        lemma_closed_is_last(next, inputs.drop_first());
        if ends_active(state, inputs[0]) {
            lemma_silent_after_end(next, inputs.drop_first());
        }
        assert(run_events(state, inputs) =~= head + rest);
        assert forall|i: int|
            0 <= i < run_events(state, inputs).len() && #[trigger] run_events(state, inputs)[i]
                == Event::ConnectionClosed implies i == run_events(state, inputs).len() - 1 by {
            if i >= head.len() {
                assert(rest[i - head.len()] == Event::ConnectionClosed);
            }
        }
    }
}

/// A "connection established" event is the first event of a connection, and
/// only a connection that starts by connecting has one.
pub proof fn lemma_established_is_first(state: ConnState, inputs: Seq<ConnInput>)
    ensures
        forall|i: int|
            0 <= i < run_events(state, inputs).len() && #[trigger] run_events(state, inputs)[i]
                == Event::ConnectionEstablished ==> i == 0 && state is Connecting,
    decreases inputs.len(),
{
    if inputs.len() > 0 {
        let next = next_state(state, inputs[0]);
        let head = emitted(state, inputs[0]);
        let rest = run_events(next, inputs.drop_first());
        lemma_established_is_first(next, inputs.drop_first());
        assert(run_events(state, inputs) =~= head + rest);
        assert forall|i: int|
            0 <= i < run_events(state, inputs).len() && #[trigger] run_events(state, inputs)[i]
                == Event::ConnectionEstablished implies i == 0 && state is Connecting by {
            if i >= head.len() {
                assert(rest[i - head.len()] == Event::ConnectionEstablished);
            }
        }
    }
}

/// On an active connection, the first input that ends it is reported by a
/// "connection closed" event, which is the last event of the run, and the
/// connection is active no longer.
pub proof fn lemma_end_is_reported(inputs: Seq<ConnInput>, k: int)
    requires
        0 <= k < inputs.len(),
        is_end(inputs[k]),
    ensures
        is_ending(run_state(ConnState::Active, inputs)),
        run_events(ConnState::Active, inputs).len() > 0,
        run_events(ConnState::Active, inputs).last() == Event::ConnectionClosed,
    decreases inputs.len(),
{
    let next = next_state(ConnState::Active, inputs[0]);
    let head = emitted(ConnState::Active, inputs[0]);
    let rest = run_events(next, inputs.drop_first());
    assert(run_events(ConnState::Active, inputs) =~= head + rest);
    if is_end(inputs[0]) {
        lemma_silent_after_end(next, inputs.drop_first());
    } else {
        assert(next == ConnState::Active);
        assert(inputs.drop_first()[k - 1] == inputs[k]);
        lemma_end_is_reported(inputs.drop_first(), k - 1);
    }
}

/// A request for shutdown, at any place in the traffic of an active
/// connection, makes the run contain exactly one "connection closed" event:
/// the run's last event is one, and no event before it is. No event follows
/// it, whatever else arrives.
pub proof fn lemma_shutdown_closes_once(inputs: Seq<ConnInput>, k: int)
    requires
        0 <= k < inputs.len(),
        inputs[k] is ShutdownRequested,
    ensures
        is_ending(run_state(ConnState::Active, inputs)),
        run_events(ConnState::Active, inputs).len() > 0,
        run_events(ConnState::Active, inputs).last() == Event::ConnectionClosed,
        forall|i: int|
            0 <= i < run_events(ConnState::Active, inputs).len() - 1 ==> #[trigger] run_events(
                ConnState::Active,
                inputs,
            )[i] != Event::ConnectionClosed,
{
    lemma_end_is_reported(inputs, k);
    lemma_closed_is_last(ConnState::Active, inputs);
}

/// Page changes reach the consumer as they arrived: when the events of a
/// sequence of page changes on an active connection are enqueued in a store
/// whose queue is empty, the next drain hands out exactly one "slide
/// changed" event for each, in the order of arrival and with its page index.
pub proof fn lemma_page_changes_reach_consumer(
    store: AppStateView,
    inputs: Seq<ConnInput>,
    indices: Seq<usize>,
)
    requires
        store.queue == Some(Seq::<Event>::empty()),
        inputs.len() == indices.len(),
        forall|k: int| 0 <= k < inputs.len() ==> is_page_change(#[trigger] inputs[k], indices[k]),
    ensures
        drained(after_enqueue_all(store, run_events(ConnState::Active, inputs))) == Seq::new(
            indices.len(),
            |k: int| Event::SlideChanged { new_page_index: indices[k] },
        ),
{
    let events = run_events(ConnState::Active, inputs);
    lemma_page_changes_in_order(inputs, indices);
    lemma_drain_keeps_order(store, events);
    assert(drained(store) + events =~= events);
}

} // verus!
