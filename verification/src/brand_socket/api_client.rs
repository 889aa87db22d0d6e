//! The client of the brand socket feed: the session together with the
//! transport that serves it, and the settings of the handshake.

use vstd::prelude::*;
use crate::brand::api_client::header_texts;
use crate::brand_socket::callback::{
    action_views, is_sync_end_input, wait_step, BrandSocketApiInner, SessionAction,
    SessionActionView, SessionInput, SessionState, WaitStep,
};
use crate::brand_socket::models::BrandSocketEventDeserialized;
use crate::models::AccountType;

verus! {

/// Where the feed lives and how to authenticate. Implemented by the user of
/// the client.
pub trait BrandSocketApiConfig {
    /// Address of the socket server.
    fn get_server_url(&self) -> String;

    /// The key sent in the `brand-api-key` header of the handshake.
    fn get_api_key(&self) -> String;

    /// The kind of accounts whose events are asked for.
    fn get_account_type(&self) -> AccountType;
}

/// The fixed names of the feed's handshake.
#[derive(Clone, Copy, Debug)]
pub struct SocketIoConfig {
    pub namespace: &'static str,
    pub handshake_path: &'static str,
    pub api_key_header_name: &'static str,
    pub query_param_type_name: &'static str,
}

impl Default for SocketIoConfig {
    fn default() -> (conf: Self)
        ensures
            conf.namespace@ == "/brand-socket"@,
            conf.handshake_path@ == "/brand-socket/socket.io"@,
            conf.api_key_header_name@ == "brand-api-key"@,
            conf.query_param_type_name@ == "type"@,
    {
        Self {
            namespace: "/brand-socket",
            handshake_path: "/brand-socket/socket.io",
            api_key_header_name: "brand-api-key",
            query_param_type_name: "type",
        }
    }
}

/// The headers of the handshake: the API key.
pub open spec fn handshake_header_texts(api_key: Seq<char>) -> Seq<(Seq<char>, Seq<char>)> {
    seq![("brand-api-key"@, api_key)]
}

/// The query of the handshake: the kind of accounts.
pub open spec fn handshake_query_texts(account_type: AccountType) -> Seq<(Seq<char>, Seq<char>)> {
    seq![("type"@, account_type.wire_name())]
}

/// Path of the handshake on the server.
pub fn handshake_path() -> (path: &'static str)
    ensures
        path@ == "/brand-socket/socket.io"@,
{
    SocketIoConfig::default().handshake_path
}

/// Namespace of the feed on the socket.
pub fn namespace() -> (namespace: &'static str)
    ensures
        namespace@ == "/brand-socket"@,
{
    SocketIoConfig::default().namespace
}

/// Builds the headers of the handshake.
pub fn handshake_headers(api_key: String) -> (headers: Vec<(String, String)>)
    ensures
        header_texts(headers@) == handshake_header_texts(api_key@),
{
    let conf = SocketIoConfig::default();
    let mut headers: Vec<(String, String)> = Vec::new();
    headers.push((conf.api_key_header_name.to_owned(), api_key));
    assert(header_texts(headers@) =~= handshake_header_texts(api_key@));
    headers
}

/// Builds the query of the handshake.
pub fn handshake_query(account_type: AccountType) -> (params: Vec<(String, String)>)
    ensures
        header_texts(params@) == handshake_query_texts(account_type),
{
    let conf = SocketIoConfig::default();
    let mut params: Vec<(String, String)> = Vec::new();
    params.push((conf.query_param_type_name.to_owned(), account_type.to_string()));
    assert(header_texts(params@) =~= handshake_query_texts(account_type));
    params
}

/// The settings that the transport asks for, answered from the user's
/// configuration.
pub struct BrandSocketApiConfigWrapper<C: BrandSocketApiConfig> {
    pub config: C,
}

impl<C: BrandSocketApiConfig> BrandSocketApiConfigWrapper<C> {
    /// Settings answered from `config`.
    pub fn new(config: C) -> (wrapper: Self)
        ensures
            wrapper.config == config,
    {
        Self { config }
    }

    /// Address of the socket server: what the configuration answers when it
    /// is asked for it.
    pub fn get_server_url(&self, _client_name: &str) -> (url: String)
        ensures
            call_ensures(C::get_server_url, (&self.config,), url),
    {
        self.config.get_server_url()
    }

    /// Path of the handshake on the server.
    pub fn get_handshake_path(&self, _client_name: &str) -> (path: String)
        ensures
            path@ == "/brand-socket/socket.io"@,
    {
        handshake_path().to_owned()
    }

    /// Headers of the handshake, with the key that the configuration answers
    /// when it is asked for it.
    pub fn get_headers(&self, _client_name: &str) -> (headers: Vec<(String, String)>)
        ensures
            exists|api_key: String|
                #![trigger call_ensures(C::get_api_key, (&self.config,), api_key)]
                call_ensures(C::get_api_key, (&self.config,), api_key) && header_texts(headers@)
                    == handshake_header_texts(api_key@),
    {
        let api_key = self.config.get_api_key();
        let ghost asked = api_key;
        let headers = handshake_headers(api_key);
        assert(call_ensures(C::get_api_key, (&self.config,), asked) && header_texts(headers@)
            == handshake_header_texts(asked@));
        headers
    }

    /// Query of the handshake, with the kind of accounts that the
    /// configuration answers when it is asked for it.
    pub fn get_query_params(&self, _client_name: &str) -> (params: Vec<(String, String)>)
        ensures
            exists|account_type: AccountType|
                #![trigger call_ensures(C::get_account_type, (&self.config,), account_type)]
                call_ensures(C::get_account_type, (&self.config,), account_type) && header_texts(
                    params@,
                ) == handshake_query_texts(account_type),
    {
        let account_type = self.config.get_account_type();
        let params = handshake_query(account_type);
        assert(call_ensures(C::get_account_type, (&self.config,), account_type) && header_texts(
            params@,
        ) == handshake_query_texts(account_type));
        params
    }

    /// Address of the websocket: there always is one, and it is what the
    /// configuration answers when it is asked for the address of the socket
    /// server.
    pub fn get_url(&self, _client_name: &str) -> (url: Option<String>)
        ensures
            url matches Some(address) && call_ensures(
                C::get_server_url,
                (&self.config,),
                address,
            ),
    {
        Some(self.config.get_server_url())
    }
}

/// Where the client stands, as its user sees it.
#[derive(Debug, Clone, Copy, PartialEq, Eq, Structural)]
pub enum ClientPhase {
    /// Not started, or stopped.
    Disconnected,
    /// Started; no handshake has succeeded yet, or the connection was lost.
    Connecting,
    /// A connection is held; `synced` tells whether `SyncEnd` has arrived on it.
    Connected { synced: bool },
}

/// The phase of a client whose transport is or is not started and whose
/// session is in `session`.
pub open spec fn phase_of(started: bool, session: SessionState) -> ClientPhase {
    if !started {
        ClientPhase::Disconnected
    } else {
        match session {
            SessionState::Disconnected => ClientPhase::Connecting,
            SessionState::Connected { synced, .. } => ClientPhase::Connected { synced },
        }
    }
}

/// Client of the brand socket feed: the session and the transport that
/// serves it. The handshake settings are answered by
/// [`BrandSocketApiConfigWrapper`].
#[derive(Debug, Clone, Copy, PartialEq, Eq)]
pub struct BrandSocketApiClient {
    transport_started: bool,
    inner: BrandSocketApiInner,
}

impl BrandSocketApiClient {
    /// Whether the transport is started.
    pub closed spec fn started(&self) -> bool {
        self.transport_started
    }

    /// Where the session stands.
    pub closed spec fn session(&self) -> SessionState {
        self.inner.state()
    }

    /// Time of the last payload, in microseconds since the epoch.
    pub closed spec fn last_event_timestamp(&self) -> i64 {
        self.inner.last_event_timestamp()
    }

    /// Where the client stands.
    pub open spec fn phase(&self) -> ClientPhase {
        phase_of(self.started(), self.session())
    }

    /// A client that is not started.
    pub fn new() -> (client: Self)
        ensures
            !client.started(),
            client.session() == SessionState::Disconnected,
            client.last_event_timestamp() == 0,
    {
        Self { transport_started: false, inner: BrandSocketApiInner::new() }
    }

    /// Name under which the transport runs.
    pub fn client_name() -> (name: &'static str)
        ensures
            name@ == "trade-locker-brand-socket"@,
    {
        "trade-locker-brand-socket"
    }

    /// The session of the client.
    pub fn inner(&self) -> (inner: &BrandSocketApiInner)
        ensures
            inner.state() == self.session(),
            inner.last_event_timestamp() == self.last_event_timestamp(),
    {
        &self.inner
    }

    /// Asks for a connection: the transport is to be started. What the client
    /// holds from an earlier `connect` is let go first, the connection before
    /// the transport, so that no two of them are ever live. The session
    /// changes again when the transport reports the handshake.
    pub fn connect(&mut self, debug_payloads: bool) -> (actions: Vec<SessionAction>)
        ensures
            final(self).started(),
            final(self).session() == SessionState::Disconnected,
            final(self).last_event_timestamp() == old(self).last_event_timestamp(),
            action_views(actions@) == release_actions(old(self).started(), old(self).session())
                + seq![SessionActionView::StartTransport { debug_payloads }],
    {
        let mut actions = self.disconnect();
        actions.push(SessionAction::StartTransport { debug_payloads });
        self.transport_started = true;
        assert(action_views(actions@) =~= release_actions(
            old(self).started(),
            old(self).session(),
        ) + seq![SessionActionView::StartTransport { debug_payloads }]);
        actions
    }

    /// Lets go of the connection and stops the transport, as far as there is
    /// either. A client that holds neither is left as it is.
    pub fn disconnect(&mut self) -> (actions: Vec<SessionAction>)
        ensures
            !final(self).started(),
            final(self).session() == SessionState::Disconnected,
            final(self).last_event_timestamp() == old(self).last_event_timestamp(),
            action_views(actions@) == release_actions(old(self).started(), old(self).session()),
            !old(self).started() && old(self).session() is Disconnected ==> *final(self) == *old(
                self,
            ) && actions@.len() == 0,
    {
        let mut actions = self.inner.disconnect();
        if self.transport_started {
            actions.push(SessionAction::StopTransport);
        }
        self.transport_started = false;
        assert(action_views(actions@) =~= release_actions(
            old(self).started(),
            old(self).session(),
        ));
        actions
    }

    /// The transport reports how the handshake ended.
    ///
    /// A handshake that succeeded is a step of the session as in
    /// [`BrandSocketApiClient::on_connect`], and `connect` has done its work.
    /// A handshake that failed ends the attempt: the client gives up as on
    /// `disconnect`, and the failure comes back for the caller of `connect`,
    /// with what the transport reported.
    pub fn on_handshake(&mut self, outcome: HandshakeOutcome) -> (concluded: (
        Result<(), String>,
        Vec<SessionAction>,
    ))
        ensures
            final(self).last_event_timestamp() == old(self).last_event_timestamp(),
            match outcome {
                HandshakeOutcome::Established(connection) => {
                    &&& concluded.0 is Ok
                    &&& final(self).started() == old(self).started()
                    &&& final(self).session() == old(self).session().after(
                        SessionInput::Connected(connection),
                    )
                    &&& action_views(concluded.1@) == old(self).session().actions_on(
                        SessionInput::Connected(connection),
                    )
                },
                HandshakeOutcome::Failed(report) => {
                    &&& concluded.0 matches Err(message) && message@ == handshake_failure(report@)
                    &&& !final(self).started()
                    &&& final(self).session() == SessionState::Disconnected
                    &&& action_views(concluded.1@) == release_actions(
                        old(self).started(),
                        old(self).session(),
                    )
                },
            },
    {
        match outcome {
            HandshakeOutcome::Established(connection) => (Ok(()), self.on_connect(connection)),
            HandshakeOutcome::Failed(report) => {
                let actions = self.disconnect();
                (Err("Failed to connect: ".to_owned().concat(report.as_str())), actions)
            },
        }
    }

    /// Whether the transport is started and a connection is held.
    pub fn is_connected(&self) -> (connected: bool)
        ensures
            connected == (self.started() && self.session().is_connected()),
    {
        self.transport_started && self.inner.is_connected()
    }

    /// The transport completed a handshake: see
    /// [`BrandSocketApiInner::on_connect`].
    pub fn on_connect(&mut self, connection: u64) -> (actions: Vec<SessionAction>)
        ensures
            final(self).started() == old(self).started(),
            final(self).session() == old(self).session().after(SessionInput::Connected(connection)),
            final(self).last_event_timestamp() == old(self).last_event_timestamp(),
            action_views(actions@) == old(self).session().actions_on(
                SessionInput::Connected(connection),
            ),
    {
        self.inner.on_connect(connection)
    }

    /// The transport lost the connection with the handle `connection`: see
    /// [`BrandSocketApiInner::on_disconnect`].
    pub fn on_disconnect(&mut self, connection: u64) -> (actions: Vec<SessionAction>)
        ensures
            final(self).started() == old(self).started(),
            final(self).session() == old(self).session().after(
                SessionInput::Disconnected(connection),
            ),
            final(self).last_event_timestamp() == old(self).last_event_timestamp(),
            action_views(actions@) == old(self).session().actions_on(
                SessionInput::Disconnected(connection),
            ),
    {
        self.inner.on_disconnect(connection)
    }

    /// A payload arrived: see [`BrandSocketApiInner::on_event`].
    pub fn on_event(&mut self, event: BrandSocketEventDeserialized, now: i64) -> (actions: Vec<
        SessionAction,
    >)
        ensures
            final(self).started() == old(self).started(),
            final(self).session() == old(self).session().after(SessionInput::Received(event, now)),
            final(self).last_event_timestamp() == now,
            action_views(actions@) == old(self).session().actions_on(
                SessionInput::Received(event, now),
            ),
    {
        self.inner.on_event(event, now)
    }

    /// The time of the last payload, if one has arrived.
    pub fn get_last_event_timestamp(&self) -> (timestamp: Option<i64>)
        ensures
            timestamp == if self.last_event_timestamp() <= 0 {
                None
            } else {
                Some(self.last_event_timestamp())
            },
    {
        self.inner.get_last_event_timestamp()
    }

    /// One look at the session while waiting for synchronization: see
    /// [`wait_step`]. Whether the transport is started is not asked.
    pub fn wait_until_sync_ended(&self, waited: Option<u128>, timeout: u128) -> (step: WaitStep)
        ensures
            step == wait_step(self.session().is_synced(), waited, timeout),
    {
        self.inner.wait_until_sync_ended(waited, timeout)
    }
}

/// The order to stop the transport, where it is started.
pub open spec fn stop_if(started: bool) -> Seq<SessionActionView> {
    if started {
        seq![SessionActionView::StopTransport]
    } else {
        seq![]
    }
}

/// What is due when a client lets go of what it holds: the held connection is
/// closed and the consumer told, then the transport is stopped; each as far
/// as it is there.
pub open spec fn release_actions(started: bool, session: SessionState) -> Seq<SessionActionView> {
    session.actions_on(SessionInput::DisconnectRequested) + stop_if(started)
}

/// How a handshake ended.
#[derive(Debug, Clone, PartialEq, Eq)]
pub enum HandshakeOutcome {
    /// It succeeded; the connection has this handle.
    Established(u64),
    /// It failed; holds what the transport reported.
    Failed(String),
}

/// The message with which a failed handshake comes back to the caller of
/// `connect`.
pub open spec fn handshake_failure(report: Seq<char>) -> Seq<char> {
    "Failed to connect: "@ + report
}

/// Disconnecting a client that was never connected does nothing: no action is
/// due, and the client stays disconnected.
pub proof fn lemma_disconnect_when_never_connected()
    ensures
        release_actions(false, SessionState::Disconnected) == Seq::<SessionActionView>::empty(),
        phase_of(false, SessionState::Disconnected) == ClientPhase::Disconnected,
{
}

/// A second `connect` lets go of the first before it starts anew: the order
/// to start the transport comes last, after the held connection was ordered
/// closed and the running transport ordered stopped.
pub proof fn lemma_second_connect_releases_the_first(
    connection: u64,
    synced: bool,
    debug_payloads: bool,
)
    ensures
        release_actions(true, SessionState::Connected { connection, synced }) + seq![
            SessionActionView::StartTransport { debug_payloads },
        ] == seq![
            SessionActionView::Disconnect(connection),
            SessionActionView::NotifyDisconnected,
            SessionActionView::StopTransport,
            SessionActionView::StartTransport { debug_payloads },
        ],
        release_actions(true, SessionState::Disconnected) + seq![
            SessionActionView::StartTransport { debug_payloads },
        ] == seq![
            SessionActionView::StopTransport,
            SessionActionView::StartTransport { debug_payloads },
        ],
{
}

/// The walk of a client through its phases. `connect` leads to connecting; a
/// handshake leads on to connected and not yet synchronized; `SyncEnd` on
/// that connection leads to synchronized; the loss of the held connection
/// leads back to connecting, while the loss of another one changes nothing;
/// `disconnect` and a failed handshake lead to disconnected, from every phase.
pub proof fn lemma_phases(
    session: SessionState,
    connection: u64,
    received: BrandSocketEventDeserialized,
    now: i64,
)
    ensures
        phase_of(true, SessionState::Disconnected) == ClientPhase::Connecting,
        phase_of(true, session.after(SessionInput::Connected(connection)))
            == (ClientPhase::Connected { synced: false }),
        session is Connected && is_sync_end_input(SessionInput::Received(received, now))
            ==> phase_of(true, session.after(SessionInput::Received(received, now)))
            == (ClientPhase::Connected { synced: true }),
        !is_sync_end_input(SessionInput::Received(received, now)) ==> phase_of(
            true,
            session.after(SessionInput::Received(received, now)),
        ) == phase_of(true, session),
        session.holds(connection) ==> phase_of(
            true,
            session.after(SessionInput::Disconnected(connection)),
        ) == ClientPhase::Connecting,
        !session.holds(connection) ==> session.after(SessionInput::Disconnected(connection))
            == session,
        phase_of(false, session.after(SessionInput::DisconnectRequested))
            == ClientPhase::Disconnected,
{
}

} // verus!
