use vstd::prelude::*;
use vstd::string::*;

use crate::codes::MAX_REQUEST_SIZE;
use crate::codes::WEBSOCKET_BASE;
use crate::outcome::Outcome;
use crate::outcome::OutcomeView;

verus! {

/// Where a connection stands between two events.
#[derive(Clone, Copy, Debug, PartialEq, Eq, Structural)]
pub enum Phase {
    /// Waiting for the next inbound frame.
    Idle,
    /// A frame has been handed to the worker; its outcome is awaited.
    Busy,
    /// The inbound stream ended or a failure closed the connection.
    Closed,
}

/// The decisions taken on one upgraded connection. The caller performs the
/// actions that it returns and feeds back what happened.
pub struct Handler {
    phase: Phase,
    max_frame_size: usize,
}

pub struct HandlerView {
    pub phase: Phase,
    pub max_frame_size: nat,
}

impl View for Handler {
    type V = HandlerView;

    closed spec fn view(&self) -> HandlerView {
        HandlerView { phase: self.phase, max_frame_size: self.max_frame_size as nat }
    }
}

/// What reading the inbound half of the connection gave.
pub enum Received {
    /// A frame, binary or text, as raw bytes.
    Frame(Vec<u8>),
    /// A ping, pong or close control frame, which carries no request.
    Control,
    /// The transport failed to deliver a frame (this includes a frame over the size limit).
    ReceiveError,
    /// The peer closed the inbound stream.
    PeerClosed,
}

pub enum ReceivedView {
    Frame(Seq<u8>),
    Control,
    ReceiveError,
    PeerClosed,
}

impl View for Received {
    type V = ReceivedView;

    open spec fn view(&self) -> ReceivedView {
        match self {
            Received::Frame(bytes) => ReceivedView::Frame(bytes@),
            Received::Control => ReceivedView::Control,
            Received::ReceiveError => ReceivedView::ReceiveError,
            Received::PeerClosed => ReceivedView::PeerClosed,
        }
    }
}

/// What the caller is to do next on the connection.
pub enum Action {
    /// Read the next inbound frame.
    AwaitFrame,
    /// Run the worker on these bytes and report its outcome.
    Invoke(Vec<u8>),
    /// Send these bytes as one binary frame, then read the next inbound frame.
    Send(Vec<u8>),
    /// Send a close frame with this code and reason, then stop reading.
    Close(u16, String),
    /// Stop reading; flush and close the outbound half.
    Finish,
}

pub enum ActionView {
    AwaitFrame,
    Invoke(Seq<u8>),
    Send(Seq<u8>),
    Close(u16, Seq<char>),
    Finish,
}

impl View for Action {
    type V = ActionView;

    open spec fn view(&self) -> ActionView {
        match self {
            Action::AwaitFrame => ActionView::AwaitFrame,
            Action::Invoke(bytes) => ActionView::Invoke(bytes@),
            Action::Send(bytes) => ActionView::Send(bytes@),
            Action::Close(code, reason) => ActionView::Close(*code, reason@),
            Action::Finish => ActionView::Finish,
        }
    }
}

/// The close code that reports status code `status`.
pub open spec fn close_code(status: u8) -> u16 {
    (WEBSOCKET_BASE + status) as u16
}

/// The close reason that carries `diagnostic`.
pub open spec fn close_reason(diagnostic: Seq<char>) -> Seq<char> {
    "internal error: "@ + diagnostic
}

/// `h` with its phase set to `phase`.
pub open spec fn with_phase(h: HandlerView, phase: Phase) -> HandlerView {
    HandlerView { phase, ..h }
}

/// The next state and action of a handler that is not busy when reading
/// gave `r`. A closed handler takes nothing more; a frame within the size
/// limit is handed to the worker; an oversized frame, a control frame or a
/// receive error is dropped and the connection stays open.
pub open spec fn receive_step(h: HandlerView, r: ReceivedView) -> (HandlerView, ActionView) {
    if h.phase == Phase::Closed {
        (h, ActionView::Finish)
    } else {
        match r {
            ReceivedView::Frame(bytes) => if bytes.len() <= h.max_frame_size {
                (with_phase(h, Phase::Busy), ActionView::Invoke(bytes))
            } else {
                (h, ActionView::AwaitFrame)
            },
            ReceivedView::Control => (h, ActionView::AwaitFrame),
            ReceivedView::ReceiveError => (h, ActionView::AwaitFrame),
            ReceivedView::PeerClosed => (with_phase(h, Phase::Closed), ActionView::Finish),
        }
    }
}

/// The next state and action of a busy handler when the worker's outcome
/// `o` arrives: success is sent back verbatim, failure closes the connection.
pub open spec fn outcome_step(h: HandlerView, o: OutcomeView) -> (HandlerView, ActionView) {
    match o {
        OutcomeView::Success(out) => (with_phase(h, Phase::Idle), ActionView::Send(out)),
        OutcomeView::Failure(status, diagnostic) => (
            with_phase(h, Phase::Closed),
            ActionView::Close(close_code(status), close_reason(diagnostic)),
        ),
    }
}

/// The states and actions of a handler that is not busy and reads `rs` in
/// turn, as long as none of them hands a frame to the worker.
pub open spec fn receive_all(h: HandlerView, rs: Seq<ReceivedView>) -> (HandlerView, Seq<ActionView>)
    decreases rs.len(),
{
    if rs.len() == 0 {
        (h, Seq::empty())
    } else {
        let (next, first) = receive_step(h, rs[0]);
        let (last, rest) = receive_all(next, rs.drop_first());
        (last, seq![first] + rest)
    }
}

/// Frames are served one at a time. A handler that hands a frame to the
/// worker becomes busy, and a busy handler takes no frame; the outcome then
/// yields exactly one reply or one close, after which the handler is no
/// longer busy. So the answer to one frame is written before the next is read.
pub proof fn lemma_one_request_at_a_time(h: HandlerView, r: ReceivedView, o: OutcomeView)
    requires
        h.phase != Phase::Busy,
        receive_step(h, r).1 is Invoke,
    ensures
        receive_step(h, r).0.phase == Phase::Busy,
        ({
            let (after, answer) = outcome_step(receive_step(h, r).0, o);
            &&& after.phase != Phase::Busy
            &&& (answer is Send && after.phase == Phase::Idle) || (answer is Close
                && after.phase == Phase::Closed)
            &&& after.max_frame_size == h.max_frame_size
        }),
{
}

/// A failure closes the connection with the close code `WEBSOCKET_BASE`
/// plus the status code and the reason `"internal error: "` followed by the
/// diagnostic, and sends no data frame for the request.
pub proof fn lemma_failure_closes(h: HandlerView, status: u8, diagnostic: Seq<char>)
    requires
        h.phase == Phase::Busy,
    ensures
        outcome_step(h, OutcomeView::Failure(status, diagnostic)) == (
            with_phase(h, Phase::Closed),
            ActionView::Close(close_code(status), close_reason(diagnostic)),
        ),
        close_code(status) == WEBSOCKET_BASE + status,
        !(outcome_step(h, OutcomeView::Failure(status, diagnostic)).1 is Send),
{
}

/// A closed connection processes no further frame: whatever it reads
/// afterwards, it stays closed and its only action is to finish.
pub proof fn lemma_closed_takes_no_frame(h: HandlerView, rs: Seq<ReceivedView>)
    requires
        h.phase == Phase::Closed,
    ensures
        receive_all(h, rs).0 == h,
        receive_all(h, rs).1.len() == rs.len(),
        forall|i: int| 0 <= i < rs.len() ==> #[trigger] receive_all(h, rs).1[i] is Finish,
    decreases rs.len(),
{
    if rs.len() > 0 {
        lemma_closed_takes_no_frame(h, rs.drop_first());
        let rest = receive_all(h, rs.drop_first()).1;
        assert forall|i: int| 0 <= i < rs.len() implies #[trigger] receive_all(h, rs).1[i] is Finish by {
            if i > 0 {
                assert(receive_all(h, rs).1[i] == rest[i - 1]);
            }
        }
    }
}

/// A frame longer than the handler's limit never reaches the worker, and
/// the handler's state is left as it was.
pub proof fn lemma_oversized_frame_not_dispatched(h: HandlerView, bytes: Seq<u8>)
    requires
        h.phase != Phase::Busy,
        bytes.len() > h.max_frame_size,
    ensures
        receive_step(h, ReceivedView::Frame(bytes)).0 == h,
        !(receive_step(h, ReceivedView::Frame(bytes)).1 is Invoke),
{
}

impl Handler {
    /// A handler for a fresh connection whose frames may hold up to
    /// `max_frame_size` bytes.
    pub fn new(max_frame_size: usize) -> (h: Handler)
        ensures
            h@.phase == Phase::Idle,
            h@.max_frame_size == max_frame_size as nat,
    {
        Handler { phase: Phase::Idle, max_frame_size }
    }

    /// A handler with the limit of `MAX_REQUEST_SIZE` bytes per frame.
    pub fn with_default_limit() -> (h: Handler)
        ensures
            h@.phase == Phase::Idle,
            h@.max_frame_size == MAX_REQUEST_SIZE as nat,
    {
        Handler::new(MAX_REQUEST_SIZE)
    }

    pub fn phase(&self) -> (p: Phase)
        ensures
            p == self@.phase,
    {
        self.phase
    }

    pub fn max_frame_size(&self) -> (n: usize)
        ensures
            n as nat == self@.max_frame_size,
    {
        self.max_frame_size
    }

    /// Whether the handler may take the next inbound frame: it may not while
    /// the outcome of the previous one is outstanding.
    pub fn accepts_frame(&self) -> (b: bool)
        ensures
            b == (self@.phase != Phase::Busy),
    {
        self.phase != Phase::Busy
    }

    /// Takes what reading the connection gave.
    pub fn on_receive(&mut self, r: Received) -> (a: Action)
        requires
            old(self)@.phase != Phase::Busy,
        ensures
            (final(self)@, a@) == receive_step(old(self)@, r@),
    {
        if self.phase == Phase::Closed {
            return Action::Finish;
        }
        match r {
            Received::Frame(bytes) => {
                if bytes.len() <= self.max_frame_size {
                    self.phase = Phase::Busy;
                    Action::Invoke(bytes)
                } else {
                    Action::AwaitFrame
                }
            },
            Received::Control => Action::AwaitFrame,
            Received::ReceiveError => Action::AwaitFrame,
            Received::PeerClosed => {
                self.phase = Phase::Closed;
                Action::Finish
            },
        }
    }

    /// Takes the outcome of the frame last handed to the worker.
    pub fn on_outcome(&mut self, o: Outcome) -> (a: Action)
        requires
            old(self)@.phase == Phase::Busy,
        ensures
            (final(self)@, a@) == outcome_step(old(self)@, o@),
    {
        match o {
            Outcome::Success(out) => {
                self.phase = Phase::Idle;
                Action::Send(out)
            },
            Outcome::Failure(status, diagnostic) => {
                self.phase = Phase::Closed;
                let mut reason = String::from_str("internal error: ");
                reason.append(diagnostic.as_str());
                Action::Close(WEBSOCKET_BASE + status as u16, reason)
            },
        }
    }
}

} // verus!
