//! The session of the brand socket feed.
//!
//! The session is a state machine. It is told what the transport saw (a
//! handshake that succeeded, a connection that was lost, a payload) and what
//! the caller asked for, and it answers with the actions that are now due:
//! close that connection, tell the consumer, hand this event on. It performs
//! nothing itself.
//!
//! The feed counts as synchronized once the marker `SyncEnd` has arrived on the
//! connection that is held now. A new connection starts over: what an earlier
//! connection saw does not count for it. A loss that the transport reports
//! names the connection that was lost; the loss of a connection that is no
//! longer held changes nothing.

use vstd::prelude::*;
use crate::brand_socket::models::{
    BrandSocketEvent, BrandSocketEventDeserializeErr, BrandSocketEventDeserialized,
};
use crate::text::{decimal, decimal_string};

verus! {

/// The consumer of the feed. Implemented by the user of the client.
pub trait BrandSocketApiEventHandler {
    /// An event arrived.
    fn on_event(&self, event: BrandSocketEvent);

    /// A connection was established.
    fn on_connected(&self);

    /// The connection was lost.
    fn on_disconnected(&self);
}

/// Where the session stands.
#[derive(Debug, Clone, Copy, PartialEq, Eq, Structural)]
pub enum SessionState {
    /// No connection is held.
    Disconnected,
    /// The connection with this handle is held; `synced` tells whether
    /// `SyncEnd` has arrived on it.
    Connected { connection: u64, synced: bool },
}

/// What is due after a step of the session. The owner of the transport
/// performs the actions in the order in which they are listed.
#[derive(Debug, Clone, PartialEq, Eq)]
pub enum SessionAction {
    /// Start the transport and register the session for its callbacks.
    StartTransport { debug_payloads: bool },
    /// Stop the transport.
    StopTransport,
    /// Close the connection with this handle.
    Disconnect(u64),
    /// Tell the consumer that a connection was established.
    NotifyConnected,
    /// Tell the consumer that the connection was lost.
    NotifyDisconnected,
    /// Hand the event to the consumer.
    Deliver(BrandSocketEvent),
    /// Log that a payload was dropped, with this message.
    Report(String),
}

/// Mathematical counterpart of [`SessionAction`].
pub enum SessionActionView {
    StartTransport { debug_payloads: bool },
    StopTransport,
    Disconnect(u64),
    NotifyConnected,
    NotifyDisconnected,
    Deliver(BrandSocketEvent),
    Report(Seq<char>),
}

impl View for SessionAction {
    type V = SessionActionView;

    open spec fn view(&self) -> SessionActionView {
        match self {
            SessionAction::StartTransport { debug_payloads } => SessionActionView::StartTransport {
                debug_payloads: *debug_payloads,
            },
            SessionAction::StopTransport => SessionActionView::StopTransport,
            SessionAction::Disconnect(connection) => SessionActionView::Disconnect(*connection),
            SessionAction::NotifyConnected => SessionActionView::NotifyConnected,
            SessionAction::NotifyDisconnected => SessionActionView::NotifyDisconnected,
            SessionAction::Deliver(event) => SessionActionView::Deliver(*event),
            SessionAction::Report(message) => SessionActionView::Report(message@),
        }
    }
}

/// The actions of a list, each by its view.
pub open spec fn action_views(actions: Seq<SessionAction>) -> Seq<SessionActionView> {
    actions.map_values(|action: SessionAction| action@)
}

/// What the session is told.
pub enum SessionInput {
    /// The transport completed a handshake; the connection has this handle.
    Connected(u64),
    /// The transport lost the connection with this handle.
    Disconnected(u64),
    /// The caller asked to disconnect.
    DisconnectRequested,
    /// A payload arrived and was decoded, at this time in microseconds since
    /// the epoch.
    Received(BrandSocketEventDeserialized, i64),
}

/// The message under which an unsupported payload is reported.
pub open spec fn not_supported_report(reason: Seq<char>) -> Seq<char> {
    "Not supported event: "@ + reason
}

/// The message under which a malformed payload is reported.
pub open spec fn malformed_report(reason: Seq<char>) -> Seq<char> {
    "Failed to deserialize: "@ + reason
}

impl SessionState {
    /// Whether a connection is held.
    pub open spec fn is_connected(self) -> bool {
        self is Connected
    }

    /// Whether a connection is held on which `SyncEnd` has arrived.
    pub open spec fn is_synced(self) -> bool {
        self matches SessionState::Connected { synced, .. } && synced
    }

    /// Whether the connection with this handle is the one that is held.
    pub open spec fn holds(self, handle: u64) -> bool {
        self matches SessionState::Connected { connection, .. } && connection == handle
    }

    /// The state after an input.
    pub open spec fn after(self, input: SessionInput) -> SessionState {
        match input {
            SessionInput::Connected(connection) => SessionState::Connected {
                connection,
                synced: false,
            },
            SessionInput::Disconnected(lost) => if self.holds(lost) {
                SessionState::Disconnected
            } else {
                self
            },
            SessionInput::DisconnectRequested => SessionState::Disconnected,
            SessionInput::Received(received, _) => match (self, received.result) {
                (SessionState::Connected { connection, .. }, Ok(event)) if event.is_sync_end() => {
                    SessionState::Connected { connection, synced: true }
                },
                _ => self,
            },
        }
    }

    /// The actions that an input makes due in this state.
    pub open spec fn actions_on(self, input: SessionInput) -> Seq<SessionActionView> {
        match input {
            SessionInput::Connected(_) => match self {
                SessionState::Connected { connection: previous, .. } => seq![
                    SessionActionView::Disconnect(previous),
                    SessionActionView::NotifyConnected,
                ],
                SessionState::Disconnected => seq![SessionActionView::NotifyConnected],
            },
            SessionInput::Disconnected(lost) => if self.holds(lost) {
                seq![SessionActionView::NotifyDisconnected]
            } else {
                seq![]
            },
            SessionInput::DisconnectRequested => match self {
                SessionState::Connected { connection, .. } => seq![
                    SessionActionView::Disconnect(connection),
                    SessionActionView::NotifyDisconnected,
                ],
                SessionState::Disconnected => seq![],
            },
            SessionInput::Received(received, _) => match received.result {
                Ok(event) => seq![SessionActionView::Deliver(event)],
                Err(BrandSocketEventDeserializeErr::NotSupported(reason)) => seq![
                    SessionActionView::Report(not_supported_report(reason@)),
                ],
                Err(BrandSocketEventDeserializeErr::Serde(reason)) => seq![
                    SessionActionView::Report(malformed_report(reason@)),
                ],
            },
        }
    }

    /// The state after a run of inputs, the first of them first.
    pub open spec fn after_all(self, inputs: Seq<SessionInput>) -> SessionState
        decreases inputs.len(),
    {
        if inputs.len() == 0 {
            self
        } else {
            self.after_all(inputs.drop_last()).after(inputs.last())
        }
    }
}

/// A wait for synchronization ran out of time.
#[derive(Debug, Clone, Copy, PartialEq, Eq, Structural)]
pub struct TimeoutError {
    /// The time that the caller was ready to wait, in nanoseconds.
    pub timeout: u128,
}

impl TimeoutError {
    /// The message of the error.
    pub open spec fn message(self) -> Seq<char> {
        "Timeout "@ + decimal(self.timeout as nat) + "ns"@
    }

    /// Writes the message of the error.
    pub fn to_string(&self) -> (text: String)
        ensures
            text@ == self.message(),
    {
        "Timeout ".to_owned().concat(decimal_string(self.timeout).as_str()).concat("ns")
    }
}

/// What a waiting caller does next.
#[derive(Debug, Clone, Copy, PartialEq, Eq, Structural)]
pub enum WaitStep {
    /// The feed is synchronized: the wait ends well.
    Ended,
    /// Nothing yet: sleep for this many milliseconds, then ask again.
    Pause(u64),
    /// The time is up: the wait ends with this error.
    TimedOut(TimeoutError),
}

/// Milliseconds between two looks at the session while waiting.
pub const SYNC_POLL_MILLIS: u64 = 250;

/// One look at the session while waiting for synchronization.
///
/// `waited` is `None` for the first look and afterwards the time since the
/// wait began, taken right after the pause. The time limit is tested first, so
/// that a wait that has used up its time ends even if the feed has caught up
/// during the last pause.
pub open spec fn wait_step(synced: bool, waited: Option<u128>, timeout: u128) -> WaitStep {
    if waited matches Some(elapsed) && elapsed > timeout {
        WaitStep::TimedOut(TimeoutError { timeout })
    } else if synced {
        WaitStep::Ended
    } else {
        WaitStep::Pause(SYNC_POLL_MILLIS)
    }
}

/// The state of the feed's one session.
#[derive(Debug, Clone, Copy, PartialEq, Eq)]
pub struct BrandSocketApiInner {
    state: SessionState,
    last_event_timestamp: i64,
}

impl BrandSocketApiInner {
    /// Where the session stands.
    pub closed spec fn state(&self) -> SessionState {
        self.state
    }

    /// Time of the last payload, in microseconds since the epoch; not above 0
    /// while none has arrived.
    pub closed spec fn last_event_timestamp(&self) -> i64 {
        self.last_event_timestamp
    }

    /// A session without a connection that has seen no payload.
    pub fn new() -> (inner: Self)
        ensures
            inner.state() == SessionState::Disconnected,
            inner.last_event_timestamp() == 0,
    {
        BrandSocketApiInner { state: SessionState::Disconnected, last_event_timestamp: 0 }
    }

    /// Where the session stands.
    pub fn get_state(&self) -> (state: SessionState)
        ensures
            state == self.state(),
    {
        self.state
    }

    /// Whether a connection is held.
    pub fn is_connected(&self) -> (connected: bool)
        ensures
            connected == self.state().is_connected(),
    {
        match self.state {
            SessionState::Connected { .. } => true,
            SessionState::Disconnected => false,
        }
    }

    /// Whether a connection is held on which `SyncEnd` has arrived.
    pub fn is_synced(&self) -> (synced: bool)
        ensures
            synced == self.state().is_synced(),
    {
        match self.state {
            SessionState::Connected { synced, .. } => synced,
            SessionState::Disconnected => false,
        }
    }

    /// The transport completed a handshake. The new connection becomes the
    /// one that is held; one that was held before is to be closed first.
    pub fn on_connect(&mut self, connection: u64) -> (actions: Vec<SessionAction>)
        ensures
            final(self).state() == old(self).state().after(SessionInput::Connected(connection)),
            final(self).last_event_timestamp() == old(self).last_event_timestamp(),
            action_views(actions@) == old(self).state().actions_on(
                SessionInput::Connected(connection),
            ),
    {
        let mut actions: Vec<SessionAction> = Vec::new();
        if let SessionState::Connected { connection: previous, .. } = self.state {
            actions.push(SessionAction::Disconnect(previous));
        }
        actions.push(SessionAction::NotifyConnected);
        self.state = SessionState::Connected { connection, synced: false };
        assert(action_views(actions@) =~= old(self).state().actions_on(
            SessionInput::Connected(connection),
        ));
        actions
    }

    /// The transport lost the connection with the handle `connection`. If
    /// that is the connection that is held, the session lets go of it and
    /// tells the consumer. The loss of any other connection, such as one that
    /// was ordered closed when its successor arrived, changes nothing.
    pub fn on_disconnect(&mut self, connection: u64) -> (actions: Vec<SessionAction>)
        ensures
            final(self).state() == old(self).state().after(SessionInput::Disconnected(connection)),
            final(self).last_event_timestamp() == old(self).last_event_timestamp(),
            action_views(actions@) == old(self).state().actions_on(
                SessionInput::Disconnected(connection),
            ),
    {
        let mut actions: Vec<SessionAction> = Vec::new();
        if let SessionState::Connected { connection: held, .. } = self.state {
            if held == connection {
                actions.push(SessionAction::NotifyDisconnected);
                self.state = SessionState::Disconnected;
            }
        }
        assert(action_views(actions@) =~= old(self).state().actions_on(
            SessionInput::Disconnected(connection),
        ));
        actions
    }

    /// The caller asks to disconnect. The connection that is held, if any, is
    /// let go: it is to be closed and the consumer is told. Without one
    /// nothing happens.
    pub fn disconnect(&mut self) -> (actions: Vec<SessionAction>)
        ensures
            final(self).state() == old(self).state().after(SessionInput::DisconnectRequested),
            final(self).last_event_timestamp() == old(self).last_event_timestamp(),
            action_views(actions@) == old(self).state().actions_on(
                SessionInput::DisconnectRequested,
            ),
            old(self).state() is Disconnected ==> *final(self) == *old(self) && actions@.len() == 0,
    {
        let mut actions: Vec<SessionAction> = Vec::new();
        if let SessionState::Connected { connection, .. } = self.state {
            actions.push(SessionAction::Disconnect(connection));
            actions.push(SessionAction::NotifyDisconnected);
        }
        self.state = SessionState::Disconnected;
        assert(action_views(actions@) =~= old(self).state().actions_on(
            SessionInput::DisconnectRequested,
        ));
        actions
    }

    /// A payload arrived at time `now`, in microseconds since the epoch.
    ///
    /// An event is handed on to the consumer as it is; `SyncEnd` on the held
    /// connection also marks the feed as synchronized. A payload that gave no
    /// event is reported and dropped.
    pub fn on_event(&mut self, event: BrandSocketEventDeserialized, now: i64) -> (actions: Vec<
        SessionAction,
    >)
        ensures
            final(self).state() == old(self).state().after(SessionInput::Received(event, now)),
            final(self).last_event_timestamp() == now,
            action_views(actions@) == old(self).state().actions_on(
                SessionInput::Received(event, now),
            ),
    {
        self.last_event_timestamp = now;
        let mut actions: Vec<SessionAction> = Vec::new();
        match event.result {
            Ok(event) => {
                if is_sync_end(&event) {
                    if let SessionState::Connected { connection, .. } = self.state {
                        self.state = SessionState::Connected { connection, synced: true };
                    }
                }
                actions.push(SessionAction::Deliver(event));
            },
            Err(BrandSocketEventDeserializeErr::NotSupported(reason)) => {
                actions.push(
                    SessionAction::Report(
                        "Not supported event: ".to_owned().concat(reason.as_str()),
                    ),
                );
            },
            Err(BrandSocketEventDeserializeErr::Serde(reason)) => {
                actions.push(
                    SessionAction::Report(
                        "Failed to deserialize: ".to_owned().concat(reason.as_str()),
                    ),
                );
            },
        }
        assert(action_views(actions@) =~= old(self).state().actions_on(
            SessionInput::Received(event, now),
        ));
        actions
    }

    /// The time of the last payload, if one has arrived.
    pub fn get_last_event_timestamp(&self) -> (timestamp: Option<i64>)
        ensures
            timestamp == if self.last_event_timestamp() <= 0 {
                None
            } else {
                Some(self.last_event_timestamp())
            },
    {
        if self.last_event_timestamp <= 0 {
            None
        } else {
            Some(self.last_event_timestamp)
        }
    }

    /// One look at the session while waiting for synchronization: see
    /// [`wait_step`]. Times are in nanoseconds.
    pub fn wait_until_sync_ended(&self, waited: Option<u128>, timeout: u128) -> (step: WaitStep)
        ensures
            step == wait_step(self.state().is_synced(), waited, timeout),
    {
        if let Some(elapsed) = waited {
            if elapsed > timeout {
                return WaitStep::TimedOut(TimeoutError { timeout });
            }
        }
        if self.is_synced() {
            WaitStep::Ended
        } else {
            WaitStep::Pause(SYNC_POLL_MILLIS)
        }
    }
}

impl SessionActionView {
    /// Whether the action is for the consumer of the feed, not for the owner
    /// of the transport.
    pub open spec fn for_consumer(self) -> bool {
        self is NotifyConnected || self is NotifyDisconnected || self is Deliver
    }
}

/// Performs an action as far as it concerns the consumer: the handler is
/// told of the connection, of its loss or of the event, by the call of its
/// method for that. Any other action comes back, for the owner of the
/// transport to perform.
pub fn notify<H: BrandSocketApiEventHandler>(handler: &H, action: SessionAction) -> (left: Option<
    SessionAction,
>)
    ensures
        left == if action@.for_consumer() {
            None
        } else {
            Some(action)
        },
        action is NotifyConnected ==> call_ensures(H::on_connected, (handler,), ()),
        action is NotifyDisconnected ==> call_ensures(H::on_disconnected, (handler,), ()),
        action matches SessionAction::Deliver(event) ==> call_ensures(
            H::on_event,
            (handler, event),
            (),
        ),
{
    match action {
        SessionAction::NotifyConnected => {
            handler.on_connected();
            None
        },
        SessionAction::NotifyDisconnected => {
            handler.on_disconnected();
            None
        },
        SessionAction::Deliver(event) => {
            handler.on_event(event);
            None
        },
        other => Some(other),
    }
}

/// Tells whether the event is the marker that ends the initial synchronization.
pub fn is_sync_end(event: &BrandSocketEvent) -> (marker: bool)
    ensures
        marker == event.is_sync_end(),
{
    match event {
        BrandSocketEvent::Property(message) => message.name == "SyncEnd".to_owned(),
        _ => false,
    }
}

/// Whether the input is a payload that decoded to the marker `SyncEnd`.
pub open spec fn is_sync_end_input(input: SessionInput) -> bool {
    input matches SessionInput::Received(received, _) && received.result matches Ok(event)
        && event.is_sync_end()
}

/// Whether the input leaves a session that holds `connection` holding it: it
/// is a payload, or the loss of another connection.
pub open spec fn keeps_hold(input: SessionInput, connection: u64) -> bool {
    input is Received || (input matches SessionInput::Disconnected(lost) && lost != connection)
}

/// Whether every input after the one at `index` leaves `connection` held.
pub open spec fn held_after(inputs: Seq<SessionInput>, index: int, connection: u64) -> bool {
    forall|k: int| index < k < inputs.len() ==> keeps_hold(#[trigger] inputs[k], connection)
}

/// Whether the input at `index` is the handshake of `connection` and nothing
/// came after it that ends the hold: the connection is the one that is held.
pub open spec fn holds_since(inputs: Seq<SessionInput>, index: int, connection: u64) -> bool {
    0 <= index < inputs.len() && inputs[index] == SessionInput::Connected(connection)
        && held_after(inputs, index, connection)
}

/// Whether `SyncEnd` is among the inputs after the one at `index`.
pub open spec fn sync_end_after(inputs: Seq<SessionInput>, index: int) -> bool {
    exists|j: int| index < j < inputs.len() && is_sync_end_input(#[trigger] inputs[j])
}

/// Whether `state` fits the run of inputs: it holds a connection exactly if the
/// run has a handshake that nothing follows but payloads and losses of other
/// connections, and then holds that connection; and it is synchronized
/// exactly if `SyncEnd` is among those payloads.
pub open spec fn state_tells(state: SessionState, inputs: Seq<SessionInput>) -> bool {
    match state {
        SessionState::Disconnected => nothing_held(inputs),
        SessionState::Connected { connection, synced } => exists|index: int|
            holds_synced_since(inputs, index, connection, synced),
    }
}

/// Whether no handshake of the run is still in force at its end.
pub open spec fn nothing_held(inputs: Seq<SessionInput>) -> bool {
    forall|index: int, connection: u64| !holds_since(inputs, index, connection)
}

/// Whether `connection` is held since the input at `index` and `synced` tells
/// whether `SyncEnd` came after it.
pub open spec fn holds_synced_since(
    inputs: Seq<SessionInput>,
    index: int,
    connection: u64,
    synced: bool,
) -> bool {
    holds_since(inputs, index, connection) && (synced <==> sync_end_after(inputs, index))
}

/// At most one handshake of a run is still in force at its end: the
/// connection that is held is held since one input, and is one connection.
pub proof fn lemma_held_connection_is_unique(
    inputs: Seq<SessionInput>,
    first: int,
    first_connection: u64,
    second: int,
    second_connection: u64,
)
    requires
        holds_since(inputs, first, first_connection),
        holds_since(inputs, second, second_connection),
    ensures
        first == second,
        first_connection == second_connection,
{
    if first < second {
        assert(keeps_hold(inputs[second], first_connection));
    }
    if second < first {
        assert(keeps_hold(inputs[first], second_connection));
    }
}

/// The state of a session tells what has happened to it. After any run of
/// inputs from the start, the session holds a connection exactly if the run
/// has a handshake that nothing follows but payloads and losses of other
/// connections, and it holds that connection; and it is synchronized
/// exactly if `SyncEnd` is among those payloads. `SyncEnd` from before the
/// handshake does not count.
pub proof fn lemma_state_tells_the_run(inputs: Seq<SessionInput>)
    ensures
        state_tells(SessionState::Disconnected.after_all(inputs), inputs),
    decreases inputs.len(),
{
    if inputs.len() == 0 {
        assert(nothing_held(inputs));
    } else {
        let before = inputs.drop_last();
        let last = inputs.last();
        let n = inputs.len() as int;
        lemma_state_tells_the_run(before);
        let earlier = SessionState::Disconnected.after_all(before);
        let now = SessionState::Disconnected.after_all(inputs);
        assert(now == earlier.after(last));
        assert(inputs[n - 1] == last);
        match last {
            SessionInput::Connected(connection) => {
                assert(!sync_end_after(inputs, n - 1));
                assert(holds_synced_since(inputs, n - 1, connection, false));
                assert(now->connection == connection && now->synced == false);
                assert(exists|index: int|
                    holds_synced_since(inputs, index, now->connection, now->synced));
            },
            SessionInput::DisconnectRequested => {
                assert forall|index: int, connection: u64|
                    !holds_since(inputs, index, connection) by {
                    if holds_since(inputs, index, connection) {
                        assert(!keeps_hold(inputs[n - 1], connection));
                    }
                }
            },
            _ => {
                match earlier {
                    SessionState::Connected { connection, synced } if keeps_hold(
                        last,
                        connection,
                    ) => {
                        let index = choose|index: int|
                            holds_synced_since(before, index, connection, synced);
                        assert(inputs[index] == before[index]);
                        assert forall|k: int| index < k < inputs.len() implies keeps_hold(
                            #[trigger] inputs[k],
                            connection,
                        ) by {
                            if k < n - 1 {
                                assert(before[k] == inputs[k]);
                            }
                        }
                        if sync_end_after(before, index) {
                            let j = choose|j: int|
                                index < j < before.len() && is_sync_end_input(
                                    #[trigger] before[j],
                                );
                            assert(inputs[j] == before[j]);
                        }
                        if sync_end_after(inputs, index) {
                            let j = choose|j: int|
                                index < j < inputs.len() && is_sync_end_input(
                                    #[trigger] inputs[j],
                                );
                            if j < n - 1 {
                                assert(before[j] == inputs[j]);
                            }
                        }
                        let synced_now = synced || is_sync_end_input(last);
                        assert(holds_synced_since(inputs, index, connection, synced_now));
                        assert(now->connection == connection && now->synced == synced_now);
                        assert(exists|index: int|
                            holds_synced_since(inputs, index, now->connection, now->synced));
                    },
                    _ => {
                        assert(now == SessionState::Disconnected);
                        assert forall|index: int, connection: u64|
                            !holds_since(inputs, index, connection) by {
                            if holds_since(inputs, index, connection) {
                                lemma_holds_before(inputs, index, connection);
                                match earlier {
                                    SessionState::Connected { connection: held, synced } => {
                                        let at = choose|at: int|
                                            holds_synced_since(before, at, held, synced);
                                        lemma_held_connection_is_unique(
                                            before,
                                            at,
                                            held,
                                            index,
                                            connection,
                                        );
                                        assert(keeps_hold(inputs[n - 1], connection));
                                    },
                                    SessionState::Disconnected => {
                                        assert(nothing_held(before));
                                    },
                                }
                            }
                        }
                    },
                }
            },
        }
    }
}

/// A connection that is held at the end of a run that does not end with its
/// own handshake was held before the last input.
proof fn lemma_holds_before(inputs: Seq<SessionInput>, index: int, connection: u64)
    requires
        inputs.len() > 0,
        !(inputs.last() is Connected),
        holds_since(inputs, index, connection),
    ensures
        holds_since(inputs.drop_last(), index, connection),
{
    let before = inputs.drop_last();
    assert(inputs[inputs.len() - 1] == inputs.last());
    assert(before[index] == inputs[index]);
    assert forall|k: int| index < k < before.len() implies keeps_hold(
        #[trigger] before[k],
        connection,
    ) by {
        assert(before[k] == inputs[k]);
    }
}

/// Whether the run has a handshake that is still in force at its end, with
/// `SyncEnd` among the payloads after it.
pub open spec fn sync_end_on_held_connection(inputs: Seq<SessionInput>) -> bool {
    exists|index: int, connection: u64|
        holds_since(inputs, index, connection) && sync_end_after(inputs, index)
}

/// A session is synchronized exactly if a connection was established, is
/// still held, and `SyncEnd` has arrived after its handshake.
pub proof fn lemma_synced_iff_sync_end_on_held_connection(inputs: Seq<SessionInput>)
    ensures
        SessionState::Disconnected.after_all(inputs).is_synced() <==> sync_end_on_held_connection(
            inputs,
        ),
{
    lemma_state_tells_the_run(inputs);
    let state = SessionState::Disconnected.after_all(inputs);
    match state {
        SessionState::Disconnected => {
            assert(nothing_held(inputs));
        },
        SessionState::Connected { connection, synced } => {
            let held = choose|index: int| holds_synced_since(inputs, index, connection, synced);
            if synced {
                assert(holds_since(inputs, held, connection) && sync_end_after(inputs, held));
            }
            if sync_end_on_held_connection(inputs) {
                let (index, other) = choose|index: int, other: u64|
                    holds_since(inputs, index, other) && sync_end_after(inputs, index);
                lemma_held_connection_is_unique(inputs, held, connection, index, other);
            }
        },
    }
}

/// The handles that an action list orders to be closed.
pub open spec fn closed_by(actions: Seq<SessionActionView>) -> Set<u64> {
    Set::new(|connection: u64| actions.contains(SessionActionView::Disconnect(connection)))
}

/// The handle that a state holds, as a set.
pub open spec fn held_by(state: SessionState) -> Set<u64> {
    match state {
        SessionState::Connected { connection, .. } => set![connection],
        SessionState::Disconnected => Set::empty(),
    }
}

/// The connections that are open after a run of inputs from the start: those
/// that a handshake brought and that were neither ordered to be closed nor
/// reported lost since.
pub open spec fn open_connections(inputs: Seq<SessionInput>) -> Set<u64>
    decreases inputs.len(),
{
    if inputs.len() == 0 {
        Set::empty()
    } else {
        let state = SessionState::Disconnected.after_all(inputs.drop_last());
        let kept = open_connections(inputs.drop_last()).difference(
            closed_by(state.actions_on(inputs.last())),
        );
        match inputs.last() {
            SessionInput::Connected(connection) => kept.insert(connection),
            SessionInput::Disconnected(lost) => kept.remove(lost),
            _ => kept,
        }
    }
}

/// No two connections are open at once: after any run of inputs, the open
/// connections are the one that the session holds, or none.
pub proof fn lemma_one_connection_at_a_time(inputs: Seq<SessionInput>)
    ensures
        open_connections(inputs) == held_by(SessionState::Disconnected.after_all(inputs)),
    decreases inputs.len(),
{
    if inputs.len() > 0 {
        let before = inputs.drop_last();
        lemma_one_connection_at_a_time(before);
        let state = SessionState::Disconnected.after_all(before);
        let actions = state.actions_on(inputs.last());
        match (state, inputs.last()) {
            (SessionState::Connected { connection: previous, .. }, SessionInput::Connected(_)) => {
                assert(actions[0] == SessionActionView::Disconnect(previous));
                assert(closed_by(actions).contains(previous));
            },
            (
                SessionState::Connected { connection: previous, .. },
                SessionInput::DisconnectRequested,
            ) => {
                assert(actions[0] == SessionActionView::Disconnect(previous));
                assert(closed_by(actions).contains(previous));
            },
            _ => {},
        }
        assert(open_connections(inputs) =~= held_by(
            SessionState::Disconnected.after_all(inputs),
        ));
    }
}

/// A second handshake closes the first connection: the order to close it
/// comes before anything else, and the new connection is then the one held,
/// not yet synchronized.
pub proof fn lemma_second_connection_closes_first(previous: u64, synced: bool, connection: u64)
    ensures
        ({
            let state = SessionState::Connected { connection: previous, synced };
            let input = SessionInput::Connected(connection);
            &&& state.actions_on(input)[0] == SessionActionView::Disconnect(previous)
            &&& state.after(input) == SessionState::Connected { connection, synced: false }
        }),
{
}

/// Disconnecting without a connection does nothing: the state stays and no
/// action is due.
pub proof fn lemma_disconnect_without_connection()
    ensures
        SessionState::Disconnected.after(SessionInput::DisconnectRequested)
            == SessionState::Disconnected,
        SessionState::Disconnected.actions_on(SessionInput::DisconnectRequested)
            == Seq::<SessionActionView>::empty(),
{
}

/// One look of a waiting caller: whether the feed was synchronized, and the
/// time waited so far (`None` at the first look).
pub struct Look {
    pub synced: bool,
    pub waited: Option<u128>,
}

/// Whether the look was taken within the time limit.
pub open spec fn in_time(look: Look, timeout: u128) -> bool {
    !(look.waited matches Some(elapsed) && elapsed > timeout)
}

/// How a wait ends that takes the given looks in turn: well, with a timeout,
/// or not at all within these looks.
pub open spec fn wait_outcome(looks: Seq<Look>, timeout: u128) -> Option<Result<(), TimeoutError>>
    decreases looks.len(),
{
    if looks.len() == 0 {
        None
    } else {
        match wait_step(looks[0].synced, looks[0].waited, timeout) {
            WaitStep::Ended => Some(Ok(())),
            WaitStep::TimedOut(error) => Some(Err(error)),
            WaitStep::Pause(_) => wait_outcome(looks.drop_first(), timeout),
        }
    }
}

/// Whether the look at `index` finds the feed synchronized, in time, and no
/// look before it did or ran out of time.
pub open spec fn first_synced_look(looks: Seq<Look>, timeout: u128, index: int) -> bool {
    &&& 0 <= index < looks.len()
    &&& looks[index].synced
    &&& in_time(looks[index], timeout)
    &&& forall|j: int| 0 <= j < index ==> !(#[trigger] looks[j]).synced && in_time(looks[j], timeout)
}

/// Whether the look at `index` is past the time limit, and no look before it
/// was or found the feed synchronized.
pub open spec fn first_late_look(looks: Seq<Look>, timeout: u128, index: int) -> bool {
    &&& 0 <= index < looks.len()
    &&& !in_time(looks[index], timeout)
    &&& forall|j: int| 0 <= j < index ==> !(#[trigger] looks[j]).synced && in_time(looks[j], timeout)
}

/// A wait ends well exactly if some look within the time limit finds the feed
/// synchronized before any look is past the limit. It ends with a timeout,
/// which carries the limit, exactly if a look is past the limit before any
/// finds the feed synchronized.
pub proof fn lemma_wait_ends_well_iff_synced_in_time(looks: Seq<Look>, timeout: u128)
    ensures
        wait_outcome(looks, timeout) == Some(Ok::<(), TimeoutError>(())) <==> exists|index: int|
            first_synced_look(looks, timeout, index),
        wait_outcome(looks, timeout) == Some(
            Err::<(), TimeoutError>(TimeoutError { timeout }),
        ) <==> exists|index: int| first_late_look(looks, timeout, index),
        wait_outcome(looks, timeout) matches Some(Err(error)) ==> error.timeout == timeout,
    decreases looks.len(),
{
    if looks.len() == 0 {
    } else {
        let rest = looks.drop_first();
        lemma_wait_ends_well_iff_synced_in_time(rest, timeout);
        match wait_step(looks[0].synced, looks[0].waited, timeout) {
            WaitStep::Ended => {
                assert(first_synced_look(looks, timeout, 0));
                assert forall|index: int| !first_late_look(looks, timeout, index) by {
                    if first_late_look(looks, timeout, index) {
                        if index > 0 {
                            assert(!looks[0].synced);
                        }
                    }
                }
            },
            WaitStep::TimedOut(_) => {
                assert(first_late_look(looks, timeout, 0));
                assert forall|index: int| !first_synced_look(looks, timeout, index) by {
                    if first_synced_look(looks, timeout, index) {
                        if index > 0 {
                            assert(in_time(looks[0], timeout));
                        }
                    }
                }
            },
            WaitStep::Pause(_) => {
                assert forall|index: int|
                    first_synced_look(looks, timeout, index) implies first_synced_look(
                    rest,
                    timeout,
                    index - 1,
                ) by {
                    assert(index > 0);
                    assert(rest[index - 1] == looks[index]);
                    assert forall|j: int| 0 <= j < index - 1 implies !(#[trigger] rest[j]).synced
                        && in_time(rest[j], timeout) by {
                        assert(rest[j] == looks[j + 1]);
                    }
                }
                assert forall|index: int|
                    first_late_look(looks, timeout, index) implies first_late_look(
                    rest,
                    timeout,
                    index - 1,
                ) by {
                    assert(index > 0);
                    assert(rest[index - 1] == looks[index]);
                    assert forall|j: int| 0 <= j < index - 1 implies !(#[trigger] rest[j]).synced
                        && in_time(rest[j], timeout) by {
                        assert(rest[j] == looks[j + 1]);
                    }
                }
                assert forall|index: int|
                    first_synced_look(rest, timeout, index) implies first_synced_look(
                    looks,
                    timeout,
                    index + 1,
                ) by {
                    assert(rest[index] == looks[index + 1]);
                    assert forall|j: int| 0 <= j < index + 1 implies !(#[trigger] looks[j]).synced
                        && in_time(looks[j], timeout) by {
                        if j > 0 {
                            assert(rest[j - 1] == looks[j]);
                        }
                    }
                }
                assert forall|index: int|
                    first_late_look(rest, timeout, index) implies first_late_look(
                    looks,
                    timeout,
                    index + 1,
                ) by {
                    assert(rest[index] == looks[index + 1]);
                    assert forall|j: int| 0 <= j < index + 1 implies !(#[trigger] looks[j]).synced
                        && in_time(looks[j], timeout) by {
                        if j > 0 {
                            assert(rest[j - 1] == looks[j]);
                        }
                    }
                }
                if exists|index: int| first_synced_look(looks, timeout, index) {
                    let index = choose|index: int| first_synced_look(looks, timeout, index);
                    assert(first_synced_look(rest, timeout, index - 1));
                }
                if exists|index: int| first_synced_look(rest, timeout, index) {
                    let index = choose|index: int| first_synced_look(rest, timeout, index);
                    assert(first_synced_look(looks, timeout, index + 1));
                }
                if exists|index: int| first_late_look(looks, timeout, index) {
                    let index = choose|index: int| first_late_look(looks, timeout, index);
                    assert(first_late_look(rest, timeout, index - 1));
                }
                if exists|index: int| first_late_look(rest, timeout, index) {
                    let index = choose|index: int| first_late_look(rest, timeout, index);
                    assert(first_late_look(looks, timeout, index + 1));
                }
            },
        }
    }
}

/// A wait on a session ends well exactly if, at some look within the time
/// limit and before any look past it, a connection has been established and
/// `SyncEnd` has arrived after its handshake. Here `runs[k]` is what the
/// session has been told, from its start, when look `k` is taken.
pub proof fn lemma_wait_ends_well_iff_sync_end_seen_in_time(
    runs: Seq<Seq<SessionInput>>,
    looks: Seq<Look>,
    timeout: u128,
)
    requires
        looks.len() == runs.len(),
        forall|k: int|
            0 <= k < looks.len() ==> (#[trigger] looks[k]).synced
                == SessionState::Disconnected.after_all(runs[k]).is_synced(),
    ensures
        wait_outcome(looks, timeout) == Some(Ok::<(), TimeoutError>(())) <==> exists|k: int|
            first_synced_look(looks, timeout, k) && sync_end_on_held_connection(runs[k]),
{
    lemma_wait_ends_well_iff_synced_in_time(looks, timeout);
    if exists|k: int| first_synced_look(looks, timeout, k) {
        let k = choose|k: int| first_synced_look(looks, timeout, k);
        assert(looks[k].synced);
        lemma_synced_iff_sync_end_on_held_connection(runs[k]);
        assert(first_synced_look(looks, timeout, k) && sync_end_on_held_connection(runs[k]));
    }
}

/// A wait does not go on for ever: once a look is past the time limit, the
/// wait has ended, at that look or before.
pub proof fn lemma_wait_ends_when_time_is_up(looks: Seq<Look>, timeout: u128, late: int)
    requires
        0 <= late < looks.len(),
        !in_time(looks[late], timeout),
    ensures
        wait_outcome(looks, timeout) is Some,
    decreases looks.len(),
{
    match wait_step(looks[0].synced, looks[0].waited, timeout) {
        WaitStep::Pause(_) => {
            let rest = looks.drop_first();
            assert(late > 0);
            assert(rest[late - 1] == looks[late]);
            lemma_wait_ends_when_time_is_up(rest, timeout, late - 1);
        },
        _ => {},
    }
}

} // verus!
