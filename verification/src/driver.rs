//! The stream driver: an explicit reconnecting state machine
//! (`Connecting -> Active -> (Reconnecting -> Connecting)* -> Terminated`)
//! that turns transport messages into the unified apply/undo event sequence.
//! The outside work (opening a connection, reading a message, sleeping) is
//! performed by the caller, which feeds the outcome back in as a
//! [`TransportEvent`] and carries out the returned [`DriverAction`].

use vstd::prelude::*;
use crate::event::BlockEvent;
use crate::event::BlockEventView;
use crate::event::NewBlock;
use crate::event::NewBlockView;
use crate::event::UndoSignal;
use crate::event::UndoSignalView;
use crate::retry::RetryState;
use crate::retry::backoff_delay_spec;

verus! {

/// The connection lifecycle states.
#[derive(Debug, Clone, Copy, PartialEq, Eq, Structural)]
pub enum DriverPhase {
    Connecting,
    Active,
    Reconnecting,
    Terminated,
}

/// The parameters bound to one connection attempt.
#[derive(Debug, Clone, PartialEq, Eq)]
pub struct Session {
    pub start_block: i64,
    pub stop_block: u64,
    pub module_name: String,
    pub cursor: Option<String>,
}

/// Mathematical image of a [`Session`].
pub struct SessionView {
    pub start_block: i64,
    pub stop_block: u64,
    pub module_name: Seq<char>,
    pub cursor: Option<Seq<char>>,
}

impl View for Session {
    type V = SessionView;

    open spec fn view(&self) -> SessionView {
        SessionView {
            start_block: self.start_block,
            stop_block: self.stop_block,
            module_name: self.module_name@,
            cursor: match self.cursor {
                Some(ref c) => Some(c@),
                None => None,
            },
        }
    }
}

/// What the transport reported back to the driver.
#[derive(Debug, Clone, PartialEq, Eq)]
pub enum TransportEvent {
    /// The connection for the current session is established.
    Opened,
    /// The connection attempt failed; transient failures are retried,
    /// fatal ones terminate the pipeline.
    OpenFailed { transient: bool },
    /// A block-data message was read.
    BlockData(NewBlock),
    /// A block-undo message was read.
    BlockUndo(UndoSignal),
    /// The stream closed cleanly: the requested range is exhausted.
    Closed,
    /// A transport error interrupted reading.
    ReadFailed,
    /// The backoff sleep has elapsed.
    Woke,
}

/// Mathematical image of a [`TransportEvent`].
pub enum TransportEventView {
    Opened,
    OpenFailed { transient: bool },
    BlockData(NewBlockView),
    BlockUndo(UndoSignalView),
    Closed,
    ReadFailed,
    Woke,
}

impl View for TransportEvent {
    type V = TransportEventView;

    open spec fn view(&self) -> TransportEventView {
        match self {
            TransportEvent::Opened => TransportEventView::Opened,
            TransportEvent::OpenFailed { transient } => TransportEventView::OpenFailed {
                transient: *transient,
            },
            TransportEvent::BlockData(b) => TransportEventView::BlockData(b@),
            TransportEvent::BlockUndo(u) => TransportEventView::BlockUndo(u@),
            TransportEvent::Closed => TransportEventView::Closed,
            TransportEvent::ReadFailed => TransportEventView::ReadFailed,
            TransportEvent::Woke => TransportEventView::Woke,
        }
    }
}

/// What the caller must do next.
#[derive(Debug, Clone, PartialEq, Eq)]
pub enum DriverAction {
    /// Open a transport connection with the driver's current session.
    OpenSession,
    /// Read the next message from the open stream.
    ReadNext,
    /// Hand this event to the driver loop, then read the next message.
    Emit(BlockEvent),
    /// Sleep for the given backoff delay, then report `Woke`.
    Wait { delay_ms: u64 },
    /// The requested range is exhausted; stop cleanly.
    EndOfStream,
    /// A fatal error; stop with a failure.
    FatalStop,
}

/// Mathematical image of a [`DriverAction`].
pub enum DriverActionView {
    OpenSession,
    ReadNext,
    Emit(BlockEventView),
    Wait { delay_ms: u64 },
    EndOfStream,
    FatalStop,
}

impl View for DriverAction {
    type V = DriverActionView;

    open spec fn view(&self) -> DriverActionView {
        match self {
            DriverAction::OpenSession => DriverActionView::OpenSession,
            DriverAction::ReadNext => DriverActionView::ReadNext,
            DriverAction::Emit(e) => DriverActionView::Emit(e@),
            DriverAction::Wait { delay_ms } => DriverActionView::Wait { delay_ms: *delay_ms },
            DriverAction::EndOfStream => DriverActionView::EndOfStream,
            DriverAction::FatalStop => DriverActionView::FatalStop,
        }
    }
}

/// Mathematical image of the whole driver.
pub struct DriverModel {
    pub phase: DriverPhase,
    pub session: SessionView,
    pub attempt: u64,
    pub acked_cursor: Option<Seq<char>>,
    pub fatal: bool,
}

/// Which transport events may arrive in which phase.
pub open spec fn accepts(d: DriverModel, ev: TransportEventView) -> bool {
    match ev {
        TransportEventView::Opened => d.phase == DriverPhase::Connecting,
        TransportEventView::OpenFailed { .. } => d.phase == DriverPhase::Connecting,
        TransportEventView::BlockData(_) => d.phase == DriverPhase::Active,
        TransportEventView::BlockUndo(_) => d.phase == DriverPhase::Active,
        TransportEventView::Closed => d.phase == DriverPhase::Active,
        TransportEventView::ReadFailed => d.phase == DriverPhase::Active,
        TransportEventView::Woke => d.phase == DriverPhase::Reconnecting,
    }
}

/// The transition relation of the state machine, as one total function over
/// the accepted (phase, event) pairs.
pub open spec fn step_model(d: DriverModel, ev: TransportEventView) -> (DriverModel,
    DriverActionView) {
    match ev {
        TransportEventView::Opened => (
            DriverModel { phase: DriverPhase::Active, ..d },
            DriverActionView::ReadNext,
        ),
        TransportEventView::OpenFailed { transient } => if transient {
            (
                DriverModel { phase: DriverPhase::Reconnecting, ..d },
                DriverActionView::Wait { delay_ms: backoff_delay_spec(d.attempt as nat) },
            )
        } else {
            (
                DriverModel { phase: DriverPhase::Terminated, fatal: true, ..d },
                DriverActionView::FatalStop,
            )
        },
        TransportEventView::BlockData(b) => (
            DriverModel {
                session: SessionView { cursor: Some(b.cursor), ..d.session },
                attempt: 0,
                ..d
            },
            DriverActionView::Emit(BlockEventView::New(b)),
        ),
        TransportEventView::BlockUndo(u) => (
            DriverModel {
                session: SessionView { cursor: Some(u.last_valid_cursor), ..d.session },
                attempt: 0,
                ..d
            },
            DriverActionView::Emit(BlockEventView::Undo(u)),
        ),
        TransportEventView::Closed => (
            DriverModel { phase: DriverPhase::Terminated, fatal: false, ..d },
            DriverActionView::EndOfStream,
        ),
        TransportEventView::ReadFailed => (
            DriverModel { phase: DriverPhase::Reconnecting, ..d },
            DriverActionView::Wait { delay_ms: backoff_delay_spec(d.attempt as nat) },
        ),
        TransportEventView::Woke => (
            DriverModel {
                phase: DriverPhase::Connecting,
                attempt: if d.attempt < u64::MAX {
                    (d.attempt + 1) as u64
                } else {
                    d.attempt
                },
                session: SessionView { cursor: d.acked_cursor, ..d.session },
                ..d
            },
            DriverActionView::OpenSession,
        ),
    }
}

/// The stream driver: reconnect-with-resume encoded as a state machine, so
/// that the session used after a failure always carries the last
/// acknowledged cursor.
pub struct StreamDriver {
    pub phase: DriverPhase,
    pub session: Session,
    pub retry: RetryState,
    pub acked_cursor: Option<String>,
    pub fatal: bool,
}

impl StreamDriver {
    /// The driver's mathematical image.
    pub open spec fn model(&self) -> DriverModel {
        DriverModel {
            phase: self.phase,
            session: self.session@,
            attempt: self.retry.attempt,
            acked_cursor: match self.acked_cursor {
                Some(ref c) => Some(c@),
                None => None,
            },
            fatal: self.fatal,
        }
    }

    /// A driver about to open its first session. `resume_cursor` is the
    /// persisted checkpoint, or nothing to stream from `start_block`.
    pub fn new(
        module_name: String,
        start_block: i64,
        stop_block: u64,
        resume_cursor: Option<String>,
    ) -> (d: StreamDriver)
        ensures
            d.model().phase == DriverPhase::Connecting,
            d.model().session.start_block == start_block,
            d.model().session.stop_block == stop_block,
            d.model().session.module_name == module_name@,
            d.model().session.cursor == match resume_cursor {
                Some(ref c) => Some(c@),
                None => None::<Seq<char>>,
            },
            d.model().acked_cursor == d.model().session.cursor,
            d.model().attempt == 0,
            !d.model().fatal,
    {
        let session_cursor = match &resume_cursor {
            Some(c) => Some(c.clone()),
            None => None,
        };
        StreamDriver {
            phase: DriverPhase::Connecting,
            session: Session { start_block, stop_block, module_name, cursor: session_cursor },
            retry: RetryState::new(),
            acked_cursor: resume_cursor,
            fatal: false,
        }
    }

    /// Record that the driver loop has applied an event and persisted this
    /// cursor: it is now the one that is safe to resume from.
    pub fn acknowledge(&mut self, cursor: String)
        ensures
            final(self).model() == (DriverModel {
                acked_cursor: Some(cursor@),
                ..old(self).model()
            }),
    {
        self.acked_cursor = Some(cursor);
    }

    /// May this transport event arrive now? Callers outside the verified
    /// library check this before calling [`StreamDriver::step`].
    pub fn accepts_event(&self, ev: &TransportEvent) -> (r: bool)
        ensures
            r == accepts(self.model(), ev@),
    {
        match ev {
            TransportEvent::Opened => self.phase == DriverPhase::Connecting,
            TransportEvent::OpenFailed { .. } => self.phase == DriverPhase::Connecting,
            TransportEvent::BlockData(_) => self.phase == DriverPhase::Active,
            TransportEvent::BlockUndo(_) => self.phase == DriverPhase::Active,
            TransportEvent::Closed => self.phase == DriverPhase::Active,
            TransportEvent::ReadFailed => self.phase == DriverPhase::Active,
            TransportEvent::Woke => self.phase == DriverPhase::Reconnecting,
        }
    }

    /// Feed one transport outcome in; returns what the caller must do next.
    /// The driver follows [`step_model`] exactly.
    pub fn step(&mut self, ev: TransportEvent) -> (a: DriverAction)
        requires
            accepts(old(self).model(), ev@),
        ensures
            final(self).model() == step_model(old(self).model(), ev@).0,
            a@ == step_model(old(self).model(), ev@).1,
    {
        match ev {
            TransportEvent::Opened => {
                self.phase = DriverPhase::Active;
                DriverAction::ReadNext
            },
            TransportEvent::OpenFailed { transient } => {
                if transient {
                    self.phase = DriverPhase::Reconnecting;
                    DriverAction::Wait { delay_ms: self.retry.next_delay_ms() }
                } else {
                    self.phase = DriverPhase::Terminated;
                    self.fatal = true;
                    DriverAction::FatalStop
                }
            },
            TransportEvent::BlockData(b) => {
                self.session.cursor = Some(b.cursor.clone());
                self.retry.on_success();
                DriverAction::Emit(BlockEvent::New(b))
            },
            TransportEvent::BlockUndo(u) => {
                self.session.cursor = Some(u.last_valid_cursor.clone());
                self.retry.on_success();
                DriverAction::Emit(BlockEvent::Undo(u))
            },
            TransportEvent::Closed => {
                self.phase = DriverPhase::Terminated;
                self.fatal = false;
                DriverAction::EndOfStream
            },
            TransportEvent::ReadFailed => {
                let delay = self.retry.next_delay_ms();
                self.phase = DriverPhase::Reconnecting;
                DriverAction::Wait { delay_ms: delay }
            },
            TransportEvent::Woke => {
                self.retry.on_failure();
                self.session.cursor = match &self.acked_cursor {
                    Some(c) => Some(c.clone()),
                    None => None,
                };
                self.phase = DriverPhase::Connecting;
                DriverAction::OpenSession
            },
        }
    }
}

/// Is this transport event a stream message (block data or undo)?
pub open spec fn is_message(ev: TransportEventView) -> bool {
    ev is BlockData || ev is BlockUndo
}

/// The block event that a stream message carries.
pub open spec fn message_event(ev: TransportEventView) -> BlockEventView
    recommends
        is_message(ev),
{
    match ev {
        TransportEventView::BlockData(b) => BlockEventView::New(b),
        TransportEventView::BlockUndo(u) => BlockEventView::Undo(u),
        _ => BlockEventView::Undo(
            UndoSignalView { last_valid_cursor: Seq::empty(), last_valid_block_number: 0 },
        ),
    }
}

/// The block events the driver emits while it consumes `evs`, in order.
pub open spec fn emitted_events(d: DriverModel, evs: Seq<TransportEventView>) -> Seq<
    BlockEventView,
>
    decreases evs.len(),
{
    if evs.len() == 0 {
        Seq::empty()
    } else {
        let next = step_model(d, evs[0]);
        let rest = emitted_events(next.0, evs.skip(1));
        match next.1 {
            DriverActionView::Emit(e) => seq![e] + rest,
            _ => rest,
        }
    }
}

/// Law: while the driver is active, it emits every received stream message,
/// in the order received, and silently drops none.
pub proof fn lemma_no_message_dropped(d: DriverModel, evs: Seq<TransportEventView>)
    requires
        d.phase == DriverPhase::Active,
        forall|i: int| 0 <= i < evs.len() ==> is_message(#[trigger] evs[i]),
    ensures
        emitted_events(d, evs) =~= Seq::new(evs.len(), |i: int| message_event(evs[i])),
    decreases evs.len(),
{
    if evs.len() > 0 {
        let next = step_model(d, evs[0]);
        assert(next.0.phase == DriverPhase::Active);
        assert(next.1 == DriverActionView::Emit(message_event(evs[0])));
        lemma_no_message_dropped(next.0, evs.skip(1));
        assert(forall|i: int|
            0 <= i < evs.skip(1).len() ==> #[trigger] evs.skip(1)[i] == evs[i + 1]);
    }
}

/// Law: a step never changes which cursor is acknowledged; only the driver
/// loop's explicit acknowledgement does.
pub proof fn lemma_step_preserves_acked(d: DriverModel, ev: TransportEventView)
    ensures
        step_model(d, ev).0.acked_cursor == d.acked_cursor,
{
}

/// Law: when the driver reconnects, the session it opens carries exactly the
/// last acknowledged cursor, never a later received-but-unapplied one.
pub proof fn lemma_reconnect_resumes_from_acked(d: DriverModel)
    requires
        d.phase == DriverPhase::Reconnecting,
    ensures
        step_model(d, TransportEventView::Woke).0.session.cursor == d.acked_cursor,
        step_model(d, TransportEventView::Woke).1 == DriverActionView::OpenSession,
        step_model(d, TransportEventView::Woke).0.phase == DriverPhase::Connecting,
{
}

} // verus!
