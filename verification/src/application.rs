//! The unified event stream and the decisions of the loops around it.
//!
//! Three kinds of loop run around the stream. Two produce: the input listener
//! polls the terminal, the relay re-tags what a session reports. One consumes:
//! it takes the events one by one and hands them to the application. Each loop
//! is a step function here, from what the loop observed to what it does next;
//! the waiting itself is the driver's business.

use crate::cancel_token::CancelToken;
use crate::networking::{handshake_frame, valid_display_name, ConnectError, Event, Session, SessionView};
use vstd::prelude::*;

verus! {

/// One item of the stream that the consuming loop reads. `T` is the terminal
/// decoder's event, which is carried to the application unread.
#[derive(Debug, PartialEq, Eq, Clone)]
pub enum GeneralEvent<T> {
    /// A session reported something.
    Networking(Event),
    /// The terminal reported something.
    Input(T),
    /// The application wants to be drawn again.
    RedrawRequested,
    /// The consuming loop is to end.
    Exit,
}

/// What one bounded wait on the terminal gave.
#[derive(Debug, PartialEq, Eq, Clone)]
pub enum Polled<T> {
    /// Nothing arrived within the interval.
    Nothing,
    /// One event was decoded.
    Ready(T),
    /// The terminal could not be polled or read.
    Failed,
}

/// What one bounded wait on a session's private channel gave.
#[derive(Debug, PartialEq, Eq, Clone)]
pub enum Received {
    /// Nothing arrived within the interval.
    Timeout,
    /// The session's side of the channel is gone.
    Disconnected,
    /// The session reported this.
    Item(Event),
}

/// What a producing loop does next.
#[derive(Debug, PartialEq, Eq, Clone)]
pub enum WorkerAction<T> {
    /// End the loop.
    Stop,
    /// Wait once more.
    Again,
    /// Put this event into the stream, then wait once more.
    Forward(GeneralEvent<T>),
}

/// The input listener's rule. It ends when the stop flag is raised, when the
/// stream no longer takes events, and when the terminal fails; it forwards
/// each decoded event as `Input`, and waits again where nothing arrived.
pub open spec fn listener_rule<T>(cancelled: bool, stream_open: bool, polled: Polled<T>)
    -> WorkerAction<T> {
    if cancelled || !stream_open {
        WorkerAction::Stop
    } else {
        match polled {
            Polled::Nothing => WorkerAction::Again,
            Polled::Ready(event) => WorkerAction::Forward(GeneralEvent::Input(event)),
            Polled::Failed => WorkerAction::Stop,
        }
    }
}

/// The relay's rule. It ends when the stop flag is raised, when the stream no
/// longer takes events, and when the session's channel is gone; it forwards
/// each report as `Networking`, and waits again where nothing arrived.
pub open spec fn relay_rule<T>(cancelled: bool, stream_open: bool, received: Received)
    -> WorkerAction<T> {
    if cancelled || !stream_open {
        WorkerAction::Stop
    } else {
        match received {
            Received::Timeout => WorkerAction::Again,
            Received::Item(event) => WorkerAction::Forward(GeneralEvent::Networking(event)),
            Received::Disconnected => WorkerAction::Stop,
        }
    }
}

/// One step of the input listener. `cancelled` is what the stop flag showed
/// before the wait, `stream_open` whether the stream took the last event that
/// was forwarded, `polled` what the wait gave.
pub fn listener_step<T>(cancelled: bool, stream_open: bool, polled: Polled<T>) -> (action:
    WorkerAction<T>)
    ensures
        action == listener_rule(cancelled, stream_open, polled),
{
    if cancelled || !stream_open {
        return WorkerAction::Stop;
    }
    match polled {
        Polled::Nothing => WorkerAction::Again,
        Polled::Ready(event) => WorkerAction::Forward(GeneralEvent::Input(event)),
        Polled::Failed => WorkerAction::Stop,
    }
}

/// One step of the relay. `cancelled` is what the stop flag showed before the
/// wait, `stream_open` whether the stream took the last event that was
/// forwarded, `received` what the wait gave.
pub fn relay_step<T>(cancelled: bool, stream_open: bool, received: Received) -> (action:
    WorkerAction<T>)
    ensures
        action == relay_rule::<T>(cancelled, stream_open, received),
{
    if cancelled || !stream_open {
        return WorkerAction::Stop;
    }
    match received {
        Received::Timeout => WorkerAction::Again,
        Received::Item(event) => WorkerAction::Forward(GeneralEvent::Networking(event)),
        Received::Disconnected => WorkerAction::Stop,
    }
}

/// What the consuming loop does with one event.
#[derive(Debug, PartialEq, Eq, Clone)]
pub enum Dispatch<T> {
    /// End the loop and join the workers.
    Shutdown,
    /// Call the application's render callback once.
    Render,
    /// Hand the event to the application's event handler.
    Handle(GeneralEvent<T>),
}

/// The consuming loop's rule: the two sentinels are its own, everything else
/// is the application's.
pub open spec fn dispatch_rule<T>(event: GeneralEvent<T>) -> Dispatch<T> {
    match event {
        GeneralEvent::Exit => Dispatch::Shutdown,
        GeneralEvent::RedrawRequested => Dispatch::Render,
        other => Dispatch::Handle(other),
    }
}

/// At which point an attempt to reach the peer failed.
#[derive(Debug, PartialEq, Eq, Clone, Copy, Structural)]
pub enum LinkFailure {
    /// The address resolved to nothing.
    NoAddress,
    /// Nothing accepted the connection.
    Refused,
    /// The connection stood, and the handshake could not be written.
    HandshakeNotWritten,
}

/// The error that a failed attempt is reported as.
pub open spec fn link_error(failure: LinkFailure) -> ConnectError {
    match failure {
        LinkFailure::NoAddress => ConnectError::Unreachable,
        LinkFailure::Refused => ConnectError::Unreachable,
        LinkFailure::HandshakeNotWritten => ConnectError::IoFailure,
    }
}

/// What `start_network_session` returned, with the frame as text.
pub open spec fn outcome_text(result: Result<String, ConnectError>) -> Result<
    Seq<char>,
    ConnectError,
> {
    match result {
        Ok(frame) => Ok(frame@),
        Err(error) => Err(error),
    }
}

/// What the consuming loop keeps track of.
pub ghost struct LoopState {
    /// Whether the loop's stop flag was raised through the loop itself.
    pub exiting: bool,
    /// The active session, if there is one.
    pub session: Option<SessionView>,
}

impl LoopState {
    /// The state of a loop that has just been made.
    pub open spec fn idle() -> LoopState {
        LoopState { exiting: false, session: None }
    }

    /// The state after `exit`.
    pub open spec fn exited(self) -> LoopState {
        LoopState { exiting: true, session: self.session }
    }

    /// The state after the application asked for the exit, or did not.
    pub open spec fn asked(self, exit: bool) -> LoopState {
        if exit {
            self.exited()
        } else {
            self
        }
    }

    /// Whether `exit` has an `Exit` event put into the stream.
    pub open spec fn exit_announced(self) -> bool {
        !self.exiting
    }

    /// The state after `stop_network_session`.
    pub open spec fn stopped(self) -> LoopState {
        LoopState { exiting: self.exiting, session: None }
    }

    /// What `start_network_session` returns: the handshake to transmit, or
    /// the refusal.
    pub open spec fn start_outcome(self, name: Seq<char>) -> Result<Seq<char>, ConnectError> {
        if self.session is Some {
            Err(ConnectError::AlreadyConnected)
        } else {
            Ok(handshake_frame(name))
        }
    }

    /// The state after `start_network_session`.
    pub open spec fn started(self, name: Seq<char>, address: Seq<char>) -> LoopState {
        if self.session is Some {
            self
        } else {
            LoopState {
                exiting: self.exiting,
                session: Some(SessionView { name, address, stopped: false }),
            }
        }
    }

    /// The state after the consuming loop took `event`.
    pub open spec fn dispatched<T>(self, event: GeneralEvent<T>) -> LoopState {
        if event is Exit {
            LoopState { exiting: true, session: None }
        } else {
            self
        }
    }
}

/// The consuming loop's own state and the controls that the application has
/// over it. It is owned by the consuming thread alone.
pub struct ActiveEventLoop {
    cancel_token: CancelToken,
    network_session: Option<Session>,
}

impl View for ActiveEventLoop {
    type V = LoopState;

    closed spec fn view(&self) -> LoopState {
        LoopState {
            exiting: self.cancel_token.raised_here(),
            session: match self.network_session {
                Some(session) => Some(session@),
                None => None,
            },
        }
    }
}

impl ActiveEventLoop {
    /// A loop with a stop flag of its own and no session.
    pub fn new() -> (active: Self)
        ensures
            active@ == LoopState::idle(),
    {
        ActiveEventLoop { cancel_token: CancelToken::new(), network_session: None }
    }

    /// The loop's own handle on its stop flag.
    pub closed spec fn flag(&self) -> CancelToken {
        self.cancel_token
    }

    /// A handle on the loop's stop flag, for a worker to poll: a copy of the
    /// loop's own handle, which knows what the loop has done so far.
    pub fn stop_flag(&self) -> (flag: CancelToken)
        ensures
            flag == self.flag(),
            flag.raised_here() == self@.exiting,
    {
        self.cancel_token.clone()
    }

    /// Whether the loop has raised its stop flag: by `exit`, by
    /// `stream_closed`, or on an `Exit` taken off the stream.
    pub fn is_exiting(&self) -> (exiting: bool)
        ensures
            exiting == self@.exiting,
    {
        self.cancel_token.is_set_here()
    }

    /// The active session, if there is one.
    pub fn network_session(&self) -> (session: Option<&Session>)
        ensures
            session is Some <==> self@.session is Some,
            session is Some ==> session.unwrap()@ == self@.session.unwrap(),
    {
        self.network_session.as_ref()
    }

    /// The event that asks for a redraw. The caller puts it into the stream;
    /// where the stream does not take it, `stream_closed` is next.
    pub fn request_redraw<T>(&self) -> (event: GeneralEvent<T>)
        ensures
            event is RedrawRequested,
    {
        GeneralEvent::RedrawRequested
    }

    /// The stream no longer takes events: nothing can be announced any more,
    /// so the stop flag is raised directly.
    pub fn stream_closed(&mut self)
        ensures
            final(self)@ == old(self)@.exited(),
    {
        self.cancel_token.set();
    }

    /// Asks for the end of the loop: raises the stop flag and returns the
    /// `Exit` event for the caller to put into the stream. Where the loop
    /// has raised its flag before, the call changes nothing and announces
    /// nothing.
    pub fn exit<T>(&mut self) -> (event: Option<GeneralEvent<T>>)
        ensures
            final(self)@ == old(self)@.exited(),
            event is Some <==> old(self)@.exit_announced(),
            event is Some ==> event.unwrap() is Exit,
    {
        let announced = self.cancel_token.is_set_here();
        self.cancel_token.set();
        if announced {
            None
        } else {
            Some(GeneralEvent::Exit)
        }
    }

    /// Starts a session of `name` with the peer at `socket`, unless one is
    /// active. On success the session is recorded, with a stop flag of its
    /// own, and the handshake frame is returned for the caller to transmit
    /// once the connection stands; if it never does, `network_link_failed` is
    /// next. With a session active, nothing changes.
    pub fn start_network_session(&mut self, name: &str, socket: &str) -> (result: Result<
        String,
        ConnectError,
    >)
        requires
            valid_display_name(name@),
        ensures
            final(self)@ == old(self)@.started(name@, socket@),
            outcome_text(result) == old(self)@.start_outcome(name@),
    {
        if self.network_session.is_some() {
            return Err(ConnectError::AlreadyConnected);
        }
        let session = Session::new(name, socket, CancelToken::new());
        let frame = session.handshake();
        self.network_session = Some(session);
        Ok(frame)
    }

    /// The peer of the session just started could not be reached: the
    /// session is given up, and the error to report is returned.
    pub fn network_link_failed(&mut self, failure: LinkFailure) -> (error: ConnectError)
        ensures
            final(self)@ == old(self)@.stopped(),
            error == link_error(failure),
    {
        self.stop_network_session();
        match failure {
            LinkFailure::NoAddress => ConnectError::Unreachable,
            LinkFailure::Refused => ConnectError::Unreachable,
            LinkFailure::HandshakeNotWritten => ConnectError::IoFailure,
        }
    }

    /// Stops the active session, if there is one, and forgets it. The relay
    /// is not told: it ends when it finds the session's channel gone.
    pub fn stop_network_session(&mut self)
        ensures
            final(self)@ == old(self)@.stopped(),
    {
        match self.network_session.take() {
            Some(mut session) => {
                session.stop();
            },
            None => {},
        }
    }

    /// Takes one event off the stream. `Exit` raises the stop flag, stops
    /// the session and ends the loop; `RedrawRequested` asks for one call of
    /// the render callback; every other event goes to the application.
    pub fn dispatch<T>(&mut self, event: GeneralEvent<T>) -> (action: Dispatch<T>)
        ensures
            action == dispatch_rule(event),
            final(self)@ == old(self)@.dispatched(event),
    {
        match event {
            GeneralEvent::Exit => {
                self.cancel_token.set();
                self.stop_network_session();
                Dispatch::Shutdown
            },
            GeneralEvent::RedrawRequested => Dispatch::Render,
            other => Dispatch::Handle(other),
        }
    }
}

/// The loop before it runs.
pub struct EventLoop {}

impl EventLoop {
    /// A loop that has not started anything yet.
    pub fn new() -> (event_loop: Self) {
        EventLoop {  }
    }

    /// The running loop's state: a fresh stop flag, no session.
    pub fn activate(&mut self) -> (active: ActiveEventLoop)
        ensures
            active@ == LoopState::idle(),
    {
        ActiveEventLoop::new()
    }
}

/// What the input listener puts into the stream, in order, when the terminal
/// gives `polls` one after another, the stop flag stays down and the stream
/// takes every event.
pub open spec fn listener_output<T>(polls: Seq<Polled<T>>) -> Seq<GeneralEvent<T>>
    decreases polls.len(),
{
    if polls.len() == 0 {
        Seq::empty()
    } else {
        match listener_rule(false, true, polls[0]) {
            WorkerAction::Stop => Seq::empty(),
            WorkerAction::Again => listener_output(polls.drop_first()),
            WorkerAction::Forward(event) => seq![event] + listener_output(polls.drop_first()),
        }
    }
}

/// What the relay puts into the stream, in order, when the session's channel
/// gives `waits` one after another, the stop flag stays down and the stream
/// takes every event.
pub open spec fn relay_output<T>(waits: Seq<Received>) -> Seq<GeneralEvent<T>>
    decreases waits.len(),
{
    if waits.len() == 0 {
        Seq::empty()
    } else {
        match relay_rule::<T>(false, true, waits[0]) {
            WorkerAction::Stop => Seq::empty(),
            WorkerAction::Again => relay_output(waits.drop_first()),
            WorkerAction::Forward(event) => seq![event] + relay_output(waits.drop_first()),
        }
    }
}

/// What the consuming loop hands to the application's event handler, in
/// order, when it takes `stream` off the channel.
pub open spec fn handled<T>(stream: Seq<GeneralEvent<T>>) -> Seq<GeneralEvent<T>>
    decreases stream.len(),
{
    if stream.len() == 0 {
        Seq::empty()
    } else {
        match dispatch_rule(stream[0]) {
            Dispatch::Shutdown => Seq::empty(),
            Dispatch::Render => handled(stream.drop_first()),
            Dispatch::Handle(event) => seq![event] + handled(stream.drop_first()),
        }
    }
}

/// The listener forwards the terminal's events one for one and in the order
/// in which they were decoded: nothing is dropped, doubled or moved.
pub proof fn law_listener_keeps_order<T>(events: Seq<T>)
    ensures
        listener_output(events.map_values(|event: T| Polled::Ready(event)))
            == events.map_values(|event: T| GeneralEvent::Input(event)),
    decreases events.len(),
{
    let polls = events.map_values(|event: T| Polled::Ready(event));
    let inputs = events.map_values(|event: T| GeneralEvent::Input(event));
    if events.len() > 0 {
        let rest = events.drop_first();
        law_listener_keeps_order(rest);
        assert(polls.drop_first() == rest.map_values(|event: T| Polled::Ready(event)));
        assert(inputs == seq![GeneralEvent::Input(events[0])] + rest.map_values(
            |event: T| GeneralEvent::Input(event),
        ));
    } else {
        assert(inputs == Seq::<GeneralEvent<T>>::empty());
    }
}

/// The relay forwards a session's reports one for one and in order.
pub proof fn law_relay_keeps_order<T>(reports: Seq<Event>)
    ensures
        relay_output::<T>(reports.map_values(|report: Event| Received::Item(report)))
            == reports.map_values(|report: Event| GeneralEvent::<T>::Networking(report)),
    decreases reports.len(),
{
    let waits = reports.map_values(|report: Event| Received::Item(report));
    let tagged = reports.map_values(|report: Event| GeneralEvent::<T>::Networking(report));
    if reports.len() > 0 {
        let rest = reports.drop_first();
        law_relay_keeps_order::<T>(rest);
        assert(waits.drop_first() == rest.map_values(|report: Event| Received::Item(report)));
        assert(tagged == seq![GeneralEvent::<T>::Networking(reports[0])] + rest.map_values(
            |report: Event| GeneralEvent::<T>::Networking(report),
        ));
    } else {
        assert(tagged == Seq::<GeneralEvent<T>>::empty());
    }
}

/// The consuming loop hands terminal events to the application one for one
/// and in the order in which they came off the stream.
pub proof fn law_consumer_keeps_order<T>(events: Seq<T>)
    ensures
        handled(events.map_values(|event: T| GeneralEvent::Input(event))) == events.map_values(
            |event: T| GeneralEvent::Input(event),
        ),
    decreases events.len(),
{
    let inputs = events.map_values(|event: T| GeneralEvent::Input(event));
    if events.len() > 0 {
        let rest = events.drop_first();
        law_consumer_keeps_order(rest);
        assert(inputs.drop_first() == rest.map_values(|event: T| GeneralEvent::Input(event)));
        assert(inputs == seq![inputs[0]] + inputs.drop_first());
    } else {
        assert(inputs == Seq::<GeneralEvent<T>>::empty());
    }
}

/// Waits that give nothing leave no trace: the listener's output is the same
/// with and without them.
pub proof fn law_idle_polls_leave_no_trace<T>(before: Seq<Polled<T>>, after: Seq<Polled<T>>)
    ensures
        listener_output(before + seq![Polled::Nothing] + after) == listener_output(before + after),
    decreases before.len(),
{
    let with = before + seq![Polled::Nothing] + after;
    let without = before + after;
    if before.len() == 0 {
        assert(with.drop_first() == after);
        assert(without == after);
    } else {
        let rest = before.drop_first();
        law_idle_polls_leave_no_trace(rest, after);
        assert(with.drop_first() == rest + seq![Polled::Nothing] + after);
        assert(without.drop_first() == rest + after);
        assert(with[0] == before[0]);
        assert(without[0] == before[0]);
    }
}

/// The consuming loop ends at the first `Exit`: nothing that stands behind
/// it in the stream reaches the application.
pub proof fn law_nothing_handled_after_exit<T>(
    before: Seq<GeneralEvent<T>>,
    after: Seq<GeneralEvent<T>>,
)
    requires
        forall|i: int| 0 <= i < before.len() ==> !(before[i] is Exit),
    ensures
        handled(before + seq![GeneralEvent::Exit] + after) == handled(before),
    decreases before.len(),
{
    let stream = before + seq![GeneralEvent::Exit] + after;
    if before.len() == 0 {
        assert(stream[0] == GeneralEvent::<T>::Exit);
    } else {
        let rest = before.drop_first();
        assert forall|i: int| 0 <= i < rest.len() implies !(rest[i] is Exit) by {
            assert(rest[i] == before[i + 1]);
        }
        law_nothing_handled_after_exit(rest, after);
        assert(stream.drop_first() == rest + seq![GeneralEvent::Exit] + after);
        assert(stream[0] == before[0]);
    }
}

/// Terminal events reach the application as `Input` events in the order in
/// which the terminal gave them, provided the channel between the listener
/// and the consuming loop keeps the order of what one producer puts in.
pub proof fn law_input_order_end_to_end<T>(events: Seq<T>)
    ensures
        handled(listener_output(events.map_values(|event: T| Polled::Ready(event))))
            == events.map_values(|event: T| GeneralEvent::Input(event)),
{
    law_listener_keeps_order(events);
    law_consumer_keeps_order(events);
}

/// Once the stop flag is seen raised, every producing loop ends at that very
/// step, whatever it was given.
pub proof fn law_raised_flag_ends_workers<T>(
    stream_open: bool,
    polled: Polled<T>,
    received: Received,
)
    ensures
        listener_rule(true, stream_open, polled) == WorkerAction::<T>::Stop,
        relay_rule::<T>(true, stream_open, received) == WorkerAction::<T>::Stop,
{
}

/// A second `start_network_session` without a `stop_network_session` in
/// between is refused as `AlreadyConnected` and leaves the loop, and with it
/// the first session, as it was.
pub proof fn law_single_active_session(
    state: LoopState,
    first_name: Seq<char>,
    first_address: Seq<char>,
    second_name: Seq<char>,
    second_address: Seq<char>,
)
    ensures
        ({
            let once = state.started(first_name, first_address);
            &&& once.start_outcome(second_name) == Err::<Seq<char>, ConnectError>(
                ConnectError::AlreadyConnected,
            )
            &&& once.started(second_name, second_address) == once
        }),
{
}

/// `exit` twice is `exit` once: the second call leaves the state alone and
/// announces nothing.
pub proof fn law_exit_idempotent(state: LoopState)
    ensures
        state.exited().exited() == state.exited(),
        !state.exited().exit_announced(),
{
}

/// `stop_network_session` twice is `stop_network_session` once.
pub proof fn law_stop_idempotent(state: LoopState)
    ensures
        state.stopped().stopped() == state.stopped(),
        state.stopped().session is None,
{
}

/// After `stop_network_session` a session can be started again.
pub proof fn law_restart_after_stop(state: LoopState, name: Seq<char>)
    ensures
        state.stopped().start_outcome(name) == Ok::<Seq<char>, ConnectError>(
            handshake_frame(name),
        ),
{
}

} // verus!
