//! The pull engine as a state machine over plain values.
//!
//! The engine never touches the platform itself. Whoever drives it performs
//! the action it asks for and reports what came of it as the next event. A
//! session and its message pump are one such driver.

use vstd::prelude::*;
use crate::error::WgcError;
use crate::frame::NativeSize;
use crate::platform::spec_hresult_from_win32;

verus! {

/// Where a capture session stands in its life.
#[derive(Debug, Clone, Copy, PartialEq, Eq, Structural)]
pub enum SessionPhase {
    /// Set up; the compositor delivers nothing yet.
    Created,
    /// Started; frames arrive.
    Capturing,
    /// The source closed or the session was torn down. Nothing follows.
    Stopped,
}

/// What the driver reports to the engine.
#[derive(Debug, Clone, Copy, PartialEq, Eq, Structural)]
pub enum StreamEvent {
    /// The platform accepted the start of the capture.
    Started,
    /// The pool had no surface ready.
    NoSurface,
    /// The pool handed out a surface whose content has this size.
    Surface(NativeSize),
    /// The pool was recreated at this size.
    Recreated(NativeSize),
    /// A call on the pool or on a surface failed with this `HRESULT`.
    Failed(i32),
    /// The wait ended because a message was dispatched.
    Dispatched,
    /// The wait itself failed with this Win32 error code.
    WaitFailed(u32),
    /// The wait saw the termination signal.
    Quit,
}

impl StreamEvent {
    /// The event for a dequeue that brought an error with this code. A code
    /// that is no failure code comes with an empty result: no surface was
    /// ready.
    pub fn from_dequeue_error(code: i32) -> (r: StreamEvent)
        ensures
            code >= 0 ==> r == StreamEvent::NoSurface,
            code < 0 ==> r == StreamEvent::Failed(code),
    {
        if code >= 0 {
            StreamEvent::NoSurface
        } else {
            StreamEvent::Failed(code)
        }
    }
}

/// How a wait on the platform's message channel ended.
#[derive(Debug, Clone, Copy, PartialEq, Eq, Structural)]
pub enum WaitOutcome {
    /// A message was dispatched. A frame may or may not be ready.
    Dispatched,
    /// The termination signal arrived.
    Quit,
    /// The wait failed with this Win32 error code.
    Failed(u32),
}

impl WaitOutcome {
    /// The event that reports this outcome to the engine.
    pub open spec fn event(self) -> StreamEvent {
        match self {
            WaitOutcome::Dispatched => StreamEvent::Dispatched,
            WaitOutcome::Quit => StreamEvent::Quit,
            WaitOutcome::Failed(code) => StreamEvent::WaitFailed(code),
        }
    }

    /// The event that reports this outcome to the engine.
    pub fn to_event(self) -> (r: StreamEvent)
        ensures
            r == self.event(),
    {
        match self {
            WaitOutcome::Dispatched => StreamEvent::Dispatched,
            WaitOutcome::Quit => StreamEvent::Quit,
            WaitOutcome::Failed(code) => StreamEvent::WaitFailed(code),
        }
    }
}

/// What the engine asks of the driver in return.
#[derive(Debug, Clone, Copy, PartialEq, Eq, Structural)]
pub enum StreamAction {
    /// Try to take a surface from the pool.
    Dequeue,
    /// Hand the surface just reported to the consumer as a frame.
    Deliver,
    /// Drop the surface just reported and recreate the pool at this size.
    Recreate(NativeSize),
    /// Block until the platform dispatches a message or signals the end.
    Wait,
    /// Report this error to the consumer. The stream stays usable.
    Fail(WgcError),
    /// Report the end of the stream to the consumer.
    End,
}

/// The engine's state: the size the pool holds and the session's phase.
#[derive(Debug, Clone, Copy, PartialEq, Eq, Structural)]
pub struct StreamState {
    /// The size the frame pool was last created or recreated with.
    pub buffer_size: NativeSize,
    /// Where the session stands.
    pub phase: SessionPhase,
}

impl StreamState {
    /// The state and the action that follow one event.
    ///
    /// A stopped stream answers every event with `End` and does not change. A
    /// surface is delivered exactly when its size is the pool's size; any other
    /// surface is to be dropped and the pool recreated at the surface's size.
    /// The pool's size changes only on the report that it was recreated.
    pub open spec fn step(self, event: StreamEvent) -> (StreamState, StreamAction) {
        if self.phase == SessionPhase::Stopped {
            (self, StreamAction::End)
        } else {
            match event {
                StreamEvent::Started => (
                    StreamState { buffer_size: self.buffer_size, phase: SessionPhase::Capturing },
                    StreamAction::Dequeue,
                ),
                StreamEvent::NoSurface => (self, StreamAction::Wait),
                StreamEvent::Surface(size) => if size == self.buffer_size {
                    (self, StreamAction::Deliver)
                } else {
                    (self, StreamAction::Recreate(size))
                },
                StreamEvent::Recreated(size) => (
                    StreamState { buffer_size: size, phase: self.phase },
                    StreamAction::Dequeue,
                ),
                StreamEvent::Failed(code) => (self, StreamAction::Fail(WgcError::Platform(code))),
                StreamEvent::Dispatched => (self, StreamAction::Dequeue),
                StreamEvent::WaitFailed(code) => (
                    self,
                    StreamAction::Fail(WgcError::Platform(spec_hresult_from_win32(code) as i32)),
                ),
                StreamEvent::Quit => (
                    StreamState { buffer_size: self.buffer_size, phase: SessionPhase::Stopped },
                    StreamAction::End,
                ),
            }
        }
    }

    /// The state after a sequence of events, taken in order.
    pub open spec fn run(self, events: Seq<StreamEvent>) -> StreamState
        decreases events.len(),
    {
        if events.len() == 0 {
            self
        } else {
            self.run(events.drop_last()).step(events.last()).0
        }
    }

    /// The action that answers the event at position `i` of a sequence.
    pub open spec fn action_at(self, events: Seq<StreamEvent>, i: int) -> StreamAction {
        self.run(events.take(i)).step(events[i]).1
    }

    /// The size of the last recreation that a sequence of events reports, or
    /// `initial` where it reports none.
    pub open spec fn last_pool_size(initial: NativeSize, events: Seq<StreamEvent>) -> NativeSize
        decreases events.len(),
    {
        if events.len() == 0 {
            initial
        } else {
            match events.last() {
                StreamEvent::Recreated(size) => size,
                _ => Self::last_pool_size(initial, events.drop_last()),
            }
        }
    }

    /// The engine for a session that was just set up over a pool of the given
    /// size.
    pub fn new(buffer_size: NativeSize) -> (r: StreamState)
        ensures
            r == (StreamState { buffer_size, phase: SessionPhase::Created }),
    {
        StreamState { buffer_size, phase: SessionPhase::Created }
    }

    /// Whether the stream has ended.
    pub fn is_stopped(&self) -> (r: bool)
        ensures
            r == (self.phase == SessionPhase::Stopped),
    {
        match self.phase {
            SessionPhase::Stopped => true,
            _ => false,
        }
    }

    /// Takes one event; gives the state that follows and what to do next.
    pub fn advance(self, event: StreamEvent) -> (r: (StreamState, StreamAction))
        ensures
            r == self.step(event),
    {
        if self.is_stopped() {
            return (self, StreamAction::End);
        }
        match event {
            StreamEvent::Started => (
                StreamState { buffer_size: self.buffer_size, phase: SessionPhase::Capturing },
                StreamAction::Dequeue,
            ),
            StreamEvent::NoSurface => (self, StreamAction::Wait),
            StreamEvent::Surface(size) => {
                if size.width == self.buffer_size.width && size.height == self.buffer_size.height {
                    (self, StreamAction::Deliver)
                } else {
                    (self, StreamAction::Recreate(size))
                }
            },
            StreamEvent::Recreated(size) => (
                StreamState { buffer_size: size, phase: self.phase },
                StreamAction::Dequeue,
            ),
            StreamEvent::Failed(code) => (self, StreamAction::Fail(WgcError::Platform(code))),
            StreamEvent::Dispatched => (self, StreamAction::Dequeue),
            StreamEvent::WaitFailed(code) => (self, StreamAction::Fail(WgcError::from_win32(code))),
            StreamEvent::Quit => (
                StreamState { buffer_size: self.buffer_size, phase: SessionPhase::Stopped },
                StreamAction::End,
            ),
        }
    }
}

/// A stopped stream stays stopped and keeps its pool size, whatever follows.
pub proof fn lemma_stopped_is_absorbing(state: StreamState, events: Seq<StreamEvent>)
    requires
        state.phase == SessionPhase::Stopped,
    ensures
        state.run(events) == state,
    decreases events.len(),
{
    if events.len() > 0 {
        lemma_stopped_is_absorbing(state, events.drop_last());
    }
}

/// Running a sequence is running a prefix of it and the rest from there.
pub proof fn lemma_run_split(state: StreamState, events: Seq<StreamEvent>, k: int)
    requires
        0 <= k <= events.len(),
    ensures
        state.run(events) == state.run(events.take(k)).run(events.skip(k)),
    decreases events.len() - k,
{
    if k == events.len() {
        assert(events.take(k) =~= events);
        assert(events.skip(k) =~= Seq::<StreamEvent>::empty());
    } else {
        let rest = events.skip(k);
        lemma_run_split(state, events.drop_last(), k);
        assert(events.drop_last().take(k) =~= events.take(k));
        assert(events.drop_last().skip(k) =~= rest.drop_last());
        assert(rest.last() == events.last());
    }
}

/// Termination is final: once the stream has answered an event with `End`, it
/// answers every later event with `End`.
pub proof fn lemma_end_is_final(state: StreamState, events: Seq<StreamEvent>, i: int, j: int)
    requires
        0 <= i <= j < events.len(),
        state.action_at(events, i) == StreamAction::End,
    ensures
        state.action_at(events, j) == StreamAction::End,
{
    if i < j {
        let before = state.run(events.take(i));
        let after = before.step(events[i]).0;
        assert(after.phase == SessionPhase::Stopped);
        let upto = events.take(j);
        assert(upto.take(i + 1).drop_last() =~= events.take(i));
        assert(upto.take(i + 1).last() == events[i]);
        assert(state.run(upto.take(i + 1)) == after);
        lemma_run_split(state, upto, i + 1);
        lemma_stopped_is_absorbing(after, upto.skip(i + 1));
    }
}

/// The stream never hands out a surface whose size differs from the pool's:
/// where the answer to an event is `Deliver`, the event reported a surface of
/// exactly the pool's size at that moment, and the state did not change.
pub proof fn lemma_delivered_size_is_pool_size(
    state: StreamState,
    events: Seq<StreamEvent>,
    i: int,
)
    requires
        0 <= i < events.len(),
        state.action_at(events, i) == StreamAction::Deliver,
    ensures
        events[i] == StreamEvent::Surface(state.run(events.take(i)).buffer_size),
        state.run(events.take(i + 1)) == state.run(events.take(i)),
{
    assert(events.take(i + 1).drop_last() =~= events.take(i));
    assert(events.take(i + 1).last() == events[i]);
}

/// A surface of another size than the pool's is dropped and answered with
/// exactly one request to recreate the pool at the surface's size. Once the
/// recreation is reported, the pool has that size, and a surface of that size
/// is delivered.
pub proof fn lemma_mismatch_recreates_once(state: StreamState, size: NativeSize)
    requires
        state.phase != SessionPhase::Stopped,
        size != state.buffer_size,
    ensures
        state.step(StreamEvent::Surface(size)) == (state, StreamAction::Recreate(size)),
        state.step(StreamEvent::Recreated(size)).0.buffer_size == size,
        state.step(StreamEvent::Recreated(size)).0.phase == state.phase,
        state.step(StreamEvent::Recreated(size)).0.step(StreamEvent::Surface(size)).1
            == StreamAction::Deliver,
{
}

/// While the stream has not stopped, the pool size it holds is the size of the
/// last recreation reported to it, or the size it began with.
pub proof fn lemma_pool_size_follows_recreation(state: StreamState, events: Seq<StreamEvent>)
    requires
        state.run(events).phase != SessionPhase::Stopped,
    ensures
        state.run(events).buffer_size == StreamState::last_pool_size(state.buffer_size, events),
    decreases events.len(),
{
    if events.len() > 0 {
        let before = state.run(events.drop_last());
        if before.phase != SessionPhase::Stopped {
            lemma_pool_size_follows_recreation(state, events.drop_last());
        }
    }
}

/// No event leads back to `Created`, and a started session never counts as
/// unstarted again.
pub proof fn lemma_no_way_back_to_created(state: StreamState, events: Seq<StreamEvent>)
    requires
        state.run(events).phase == SessionPhase::Created,
    ensures
        state.phase == SessionPhase::Created,
        forall|i: int| 0 <= i < events.len() ==> events[i] != StreamEvent::Started
            && events[i] != StreamEvent::Quit,
    decreases events.len(),
{
    if events.len() > 0 {
        let before = state.run(events.drop_last());
        lemma_no_way_back_to_created(state, events.drop_last());
        assert forall|i: int| 0 <= i < events.len() implies events[i] != StreamEvent::Started
            && events[i] != StreamEvent::Quit by {
            if i < events.len() - 1 {
                assert(events.drop_last()[i] == events[i]);
            }
        }
    }
}

} // verus!
