//! The lifecycle of one connection: admitted, open while frames come in,
//! closing once either direction ends, closed after a single cleanup.
use vstd::prelude::*;

use crate::guard::GuardError;
use crate::membership::without_session;
use crate::protocol::{frame_command, ChatCommand, CommandView, FrameError};
use crate::registry::Outbox;
use crate::state::ChatServerState;

verus! {

/// Where a connection stands. A connection that is refused at admission
/// never has a phase.
#[derive(Debug, Clone, Copy, PartialEq, Eq, Structural)]
pub enum Phase {
    /// Frames are read and dispatched; the writer drains the channel.
    Open,
    /// One direction has ended; the other must be stopped.
    Closing,
    /// Cleanup has run.
    Closed,
}

/// What the reader took from the socket.
#[derive(Debug)]
pub enum Inbound {
    /// A text frame.
    Text(String),
    /// A close frame, or the end of the stream.
    Close,
    /// A binary, ping or pong frame.
    Other,
    /// The socket failed.
    Failed,
}

/// What the reader does next.
#[derive(Debug)]
pub enum ReaderStep {
    /// Hand the command to the command processor.
    Dispatch(ChatCommand),
    /// Discard the frame and go on reading.
    Skip(FrameError),
    /// Go on reading.
    Ignore,
    /// Stop reading: the connection is closing.
    Stop,
}

pub enum InboundView {
    Text(Seq<char>),
    Close,
    Other,
    Failed,
}

pub enum StepView {
    Dispatch(CommandView),
    Skip(FrameError),
    Ignore,
    Stop,
}

impl Inbound {
    pub open spec fn view(&self) -> InboundView {
        match self {
            Inbound::Text(t) => InboundView::Text(t@),
            Inbound::Close => InboundView::Close,
            Inbound::Other => InboundView::Other,
            Inbound::Failed => InboundView::Failed,
        }
    }
}

impl ReaderStep {
    pub open spec fn view(&self) -> StepView {
        match self {
            ReaderStep::Dispatch(c) => StepView::Dispatch(c.view()),
            ReaderStep::Skip(e) => StepView::Skip(*e),
            ReaderStep::Ignore => StepView::Ignore,
            ReaderStep::Stop => StepView::Stop,
        }
    }
}

/// The phase after the reader took `frame`, and what it does next. Only a
/// close frame or a failed socket ends reading; a frame that does not decode
/// is skipped.
pub open spec fn reader_next(phase: Phase, frame: InboundView) -> (Phase, StepView) {
    if phase != Phase::Open {
        (phase, StepView::Stop)
    } else {
        match frame {
            InboundView::Text(t) => (
                Phase::Open,
                match frame_command(t) {
                    Ok(c) => StepView::Dispatch(c),
                    Err(e) => StepView::Skip(e),
                },
            ),
            InboundView::Other => (Phase::Open, StepView::Ignore),
            InboundView::Close => (Phase::Closing, StepView::Stop),
            InboundView::Failed => (Phase::Closing, StepView::Stop),
        }
    }
}

/// The phase after the writer ended.
pub open spec fn writer_next(phase: Phase) -> Phase {
    if phase == Phase::Open {
        Phase::Closing
    } else {
        phase
    }
}

/// One admitted connection.
#[derive(Debug)]
pub struct ConnectionSession {
    user_id: u128,
    phase: Phase,
}

impl ConnectionSession {
    pub closed spec fn user(&self) -> u128 {
        self.user_id
    }

    pub closed spec fn phase_of(&self) -> Phase {
        self.phase
    }

    /// The user the session belongs to.
    pub fn user_id(&self) -> (r: u128)
        ensures
            r == self.user(),
    {
        self.user_id
    }

    /// The current phase.
    pub fn phase(&self) -> (r: Phase)
        ensures
            r == self.phase_of(),
    {
        self.phase
    }

    /// Opens a connection once its credential has been checked. A refused
    /// credential leaves the state untouched; an accepted one registers the
    /// session's channel, replacing an earlier one of the same user, and
    /// opens the session.
    pub fn accept(auth: Result<u128, GuardError>, outbox: Outbox, state: &mut ChatServerState) -> (r:
        Result<ConnectionSession, GuardError>)
        ensures
            final(state).room_members.view() == old(state).room_members.view(),
            match auth {
                Ok(id) => {
                    &&& r matches Ok(s) && s.user() == id && s.phase_of() == Phase::Open
                    &&& final(state).connections.view() == old(state).connections.view().insert(id)
                },
                Err(e) => {
                    &&& r == Err::<ConnectionSession, GuardError>(e)
                    &&& final(state).connections.view() == old(state).connections.view()
                },
            },
    {
        match auth {
            Ok(id) => {
                state.open_session(id, outbox);
                Ok(ConnectionSession { user_id: id, phase: Phase::Open })
            },
            Err(e) => Err(e),
        }
    }

    /// Takes one frame from the reader and says what the reader does next.
    pub fn on_inbound(&mut self, frame: Inbound) -> (r: ReaderStep)
        ensures
            (final(self).phase_of(), r.view()) == reader_next(old(self).phase_of(), frame.view()),
            final(self).user() == old(self).user(),
    {
        if self.phase != Phase::Open {
            return ReaderStep::Stop;
        }
        match frame {
            Inbound::Text(text) => match ChatCommand::decode(text.as_str()) {
                Ok(cmd) => ReaderStep::Dispatch(cmd),
                Err(e) => ReaderStep::Skip(e),
            },
            Inbound::Other => ReaderStep::Ignore,
            Inbound::Close | Inbound::Failed => {
                self.phase = Phase::Closing;
                ReaderStep::Stop
            },
        }
    }

    /// Records that the writer ended: its socket failed or its channel closed.
    pub fn on_writer_end(&mut self)
        ensures
            final(self).phase_of() == writer_next(old(self).phase_of()),
            final(self).user() == old(self).user(),
    {
        if self.phase == Phase::Open {
            self.phase = Phase::Closing;
        }
    }

    /// The single cleanup point: the first call removes the session's
    /// connection entry and its place in every room, and closes the session;
    /// later calls change nothing. Returns whether cleanup ran.
    pub fn close(&mut self, state: &mut ChatServerState) -> (cleaned: bool)
        ensures
            final(self).phase_of() == Phase::Closed,
            final(self).user() == old(self).user(),
            cleaned == (old(self).phase_of() != Phase::Closed),
            cleaned ==> {
                &&& final(state).connections.view() == old(state).connections.view().remove(
                    old(self).user(),
                )
                &&& final(state).room_members.view() == without_session(
                    old(state).room_members.view(),
                    old(self).user(),
                )
            },
            !cleaned ==> final(state).connections.view() == old(state).connections.view()
                && final(state).room_members.view() == old(state).room_members.view(),
    {
        if self.phase == Phase::Closed {
            return false;
        }
        state.cleanup(self.user_id);
        self.phase = Phase::Closed;
        true
    }
}

/// Once a session's cleanup has run, the registry holds no channel for it and
/// no room lists it among its members.
pub proof fn lemma_closed_session_leaves_no_trace(
    live: Set<u128>,
    rooms: Map<Seq<char>, Set<u128>>,
    id: u128,
)
    ensures
        !live.remove(id).contains(id),
        forall|room: Seq<char>| #[trigger]
            without_session(rooms, id).dom().contains(room) ==> !without_session(rooms, id)[room].contains(
                id,
            ),
{
}

/// A frame that does not decode is skipped and leaves the session open, so a
/// valid frame after it is still dispatched.
pub proof fn lemma_malformed_frame_keeps_reading(bad: Seq<char>, good: Seq<char>)
    requires
        frame_command(bad) is Err,
        frame_command(good) is Ok,
    ensures
        reader_next(Phase::Open, InboundView::Text(bad)) == (
            Phase::Open,
            StepView::Skip(frame_command(bad)->Err_0),
        ),
        reader_next(reader_next(Phase::Open, InboundView::Text(bad)).0, InboundView::Text(good)) == (
            Phase::Open,
            StepView::Dispatch(frame_command(good)->Ok_0),
        ),
{
}

} // verus!
