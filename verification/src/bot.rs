//! The bot: its connection to the chat service, the history of its room,
//! the bus to the web viewers and the tracker of verification requests.
//!
//! The bot holds state and takes decisions; it never waits. Connecting is a
//! sequence of steps: `connect` says what to do first, and `connect_step`
//! takes the outcome of each call and says what to do next, until the
//! connection stands or the attempt is given up. Whoever drives the bot
//! holds it under one lock for the whole of a connect or a disconnect, so
//! that two of them never interleave.

use vstd::prelude::*;
use crate::bus::{reads_from, MessageBus, MessageReceiver};
use crate::credentials::{
    session_present,
    session_spec,
    stored_record,
    with_session,
    CredentialStore,
    RecordView,
};
use crate::error::BotError;
use crate::handshake::{
    accept_begin,
    accept_next,
    accept_start,
    accept_step,
    cancel_begin,
    cancel_effect,
    cancel_next,
    cancel_start,
    cancel_step,
    confirm_begin,
    confirm_effect,
    confirm_next,
    confirm_start,
    confirm_step,
    AcceptPhase,
    CancelPhase,
    ConfirmPhase,
    EngineCall,
    EngineEvent,
};
use crate::history::{
    backfilled,
    events_view,
    inbound_line,
    line_view,
    lines_view,
    HistoryBuffer,
    RoomEvent,
};
use crate::seqs::{lemma_filter_nothing, lemma_filter_step};
use crate::identifiers::{room_id_parses, user_id_parses, valid_room_id, valid_user_id};
use crate::verification::{
    observations_view,
    requests_view,
    sas_view,
    CoordinatorView,
    RequestView,
    SasInfo,
    SasObservation,
    VerificationCoordinator,
    VerificationRequestInfo,
};

verus! {

/// The largest number of events that one request for history may ask for:
/// the largest integer that every client of the protocol can represent.
pub const MAX_REQUEST_LIMIT: u64 = 0x001F_FFFF_FFFF_FFFF;

/// The number of events asked for where the configured limit is out of
/// range.
pub const FALLBACK_REQUEST_LIMIT: u64 = 50;

/// Where a connect stands.
#[derive(Debug, Clone, Copy, PartialEq, Eq, Structural)]
pub enum ConnectPhase {
    /// The client of the engine is being built.
    BuildingClient,
    /// The stored session is being resumed.
    Resuming,
    /// A login with the password is under way.
    LoggingIn,
    /// The handlers for verification requests are being set up.
    WatchingVerifications,
    /// The state of cross-signing is being asked for.
    CheckingCrossSigning,
    /// Cross-signing is being bootstrapped.
    Bootstrapping,
    /// The room is being joined.
    JoiningRoom,
    /// The recent messages of the room are being fetched.
    Backfilling,
    /// The subscription to arriving events is being started.
    StartingSync,
}

/// The state of the connection.
#[derive(Debug, Clone, Copy, PartialEq, Eq, Structural)]
pub enum ConnectionState {
    Disconnected,
    Connecting(ConnectPhase),
    Connected,
}

/// A session as the server hands it out at login.
#[derive(Debug)]
pub struct SessionTokens {
    pub device_id: String,
    pub access_token: String,
    pub user_id: String,
}

/// What a session holds, as plain sequences.
pub struct SessionView {
    pub device_id: Seq<char>,
    pub access_token: Seq<char>,
    pub user_id: Seq<char>,
}

impl View for SessionTokens {
    type V = SessionView;

    open spec fn view(&self) -> SessionView {
        SessionView {
            device_id: self.device_id@,
            access_token: self.access_token@,
            user_id: self.user_id@,
        }
    }
}

/// The outcome of the last call of a connect.
#[derive(Debug)]
pub enum ConnectEvent {
    /// The call went through.
    Completed,
    /// The call failed.
    Failed,
    /// The login went through; the session is absent where the engine
    /// shows none afterwards.
    LoggedIn { session: Option<SessionTokens> },
    /// The state of cross-signing: complete, incomplete, or absent where
    /// the engine cannot tell.
    CrossSigning { complete: Option<bool> },
    /// The recent events of the room, newest first.
    History { newest_first: Vec<RoomEvent> },
}

/// What to do next in a connect.
#[derive(Debug)]
pub enum ConnectCall {
    /// Build the client of the engine for this server on the local store
    /// at this path, which is encrypted under this passphrase or, where
    /// none is given, not encrypted at all.
    BuildClient { homeserver: String, store_path: String, passphrase: Option<String> },
    /// Resume this session.
    RestoreSession { session: SessionTokens },
    /// Log in with this user name and this password.
    Login { username: String, password: String },
    /// Set up the handlers for verification requests.
    WatchVerifications,
    /// Ask for the state of cross-signing.
    CheckCrossSigning,
    /// Bootstrap cross-signing.
    BootstrapCrossSigning,
    /// Join this room.
    JoinRoom { room_id: String },
    /// Fetch this many of the most recent events of this room.
    FetchHistory { room_id: String, limit: u64 },
    /// Start the subscription to arriving events.
    StartSync,
    /// The connect is over, with this result.
    Finish(Result<(), BotError>),
}

/// What a call holds, as plain sequences.
pub enum ConnectCallView {
    BuildClient { homeserver: Seq<char>, store_path: Seq<char>, passphrase: Option<Seq<char>> },
    RestoreSession { session: SessionView },
    Login { username: Seq<char>, password: Seq<char> },
    WatchVerifications,
    CheckCrossSigning,
    BootstrapCrossSigning,
    JoinRoom { room_id: Seq<char> },
    FetchHistory { room_id: Seq<char>, limit: u64 },
    StartSync,
    Finish(Result<(), BotError>),
}

impl View for ConnectCall {
    type V = ConnectCallView;

    open spec fn view(&self) -> ConnectCallView {
        match *self {
            ConnectCall::BuildClient {
                homeserver,
                store_path,
                passphrase,
            } => ConnectCallView::BuildClient {
                homeserver: homeserver@,
                store_path: store_path@,
                passphrase: match passphrase {
                    Some(p) => Some(p@),
                    None => None,
                },
            },
            ConnectCall::RestoreSession { session } => ConnectCallView::RestoreSession {
                session: session@,
            },
            ConnectCall::Login { username, password } => ConnectCallView::Login {
                username: username@,
                password: password@,
            },
            ConnectCall::WatchVerifications => ConnectCallView::WatchVerifications,
            ConnectCall::CheckCrossSigning => ConnectCallView::CheckCrossSigning,
            ConnectCall::BootstrapCrossSigning => ConnectCallView::BootstrapCrossSigning,
            ConnectCall::JoinRoom { room_id } => ConnectCallView::JoinRoom { room_id: room_id@ },
            ConnectCall::FetchHistory { room_id, limit } => ConnectCallView::FetchHistory {
                room_id: room_id@,
                limit,
            },
            ConnectCall::StartSync => ConnectCallView::StartSync,
            ConnectCall::Finish(result) => ConnectCallView::Finish(result),
        }
    }
}

/// The state of the bot.
pub struct BotView {
    pub homeserver: Seq<char>,
    pub username: Seq<char>,
    pub room_id: Seq<char>,
    pub store_path: Seq<char>,
    pub history_limit: usize,
    pub connection: ConnectionState,
    pub history: Seq<Seq<char>>,
    /// The lines that the bus has delivered, in their order. A new viewer
    /// reads from the position behind the last of them.
    pub delivered: Seq<Seq<char>>,
    pub verification: CoordinatorView,
}

/// What one step of a connect leaves: the state of the connection, the next
/// call, the history and the vault.
pub struct ConnectOutcome {
    pub connection: ConnectionState,
    pub call: ConnectCallView,
    pub history: Seq<Seq<char>>,
    pub vault: Option<RecordView>,
}

/// The number of events that a backfill asks for: the configured limit, or
/// the fallback where the limit is out of range.
pub open spec fn request_limit(history_limit: usize) -> u64 {
    if history_limit <= MAX_REQUEST_LIMIT {
        history_limit as u64
    } else {
        FALLBACK_REQUEST_LIMIT
    }
}

/// The step that goes on to the next phase with the next call.
pub open spec fn connect_proceed(
    bot: BotView,
    vault: Option<RecordView>,
    phase: ConnectPhase,
    call: ConnectCallView,
) -> ConnectOutcome {
    ConnectOutcome {
        connection: ConnectionState::Connecting(phase),
        call,
        history: bot.history,
        vault,
    }
}

/// The step that gives the connect up: the bot is disconnected again.
pub open spec fn connect_abort(
    bot: BotView,
    vault: Option<RecordView>,
    error: BotError,
) -> ConnectOutcome {
    ConnectOutcome {
        connection: ConnectionState::Disconnected,
        call: ConnectCallView::Finish(Err(error)),
        history: bot.history,
        vault,
    }
}

/// The step to a login with the user name of the bot and the password.
pub open spec fn connect_login(
    bot: BotView,
    vault: Option<RecordView>,
    password: Seq<char>,
) -> ConnectOutcome {
    connect_proceed(
        bot,
        vault,
        ConnectPhase::LoggingIn,
        ConnectCallView::Login { username: bot.username, password },
    )
}

/// How the bot authenticates once the client is built: it resumes the
/// stored session where there is one that can be read and that names a
/// well-formed user id, and logs in with the password otherwise.
pub open spec fn connect_authenticate(
    bot: BotView,
    vault: Option<RecordView>,
    password: Seq<char>,
    passphrase: Seq<char>,
) -> ConnectOutcome {
    if session_present(vault) {
        match session_spec(vault, passphrase) {
            Ok((device_id, access_token, user_id)) if valid_user_id(user_id) => connect_proceed(
                bot,
                vault,
                ConnectPhase::Resuming,
                ConnectCallView::RestoreSession {
                    session: SessionView { device_id, access_token, user_id },
                },
            ),
            _ => connect_login(bot, vault, password),
        }
    } else {
        connect_login(bot, vault, password)
    }
}

/// The record that a login leaves without its session: the one that the
/// vault holds, or, where the vault is empty, a new one with the user name
/// and the password that the login went through with.
pub open spec fn record_after_login(
    vault: Option<RecordView>,
    username: Seq<char>,
    password: Seq<char>,
    passphrase: Seq<char>,
) -> RecordView {
    match vault {
        Some(record) => record,
        None => stored_record(username, password, passphrase),
    }
}

/// The vault after a login that went through: it holds a record, made by
/// this login where there was none, and the new session is stored beside
/// the password where the engine shows one.
pub open spec fn vault_after_login(
    vault: Option<RecordView>,
    username: Seq<char>,
    password: Seq<char>,
    session: Option<SessionTokens>,
    passphrase: Seq<char>,
) -> Option<RecordView> {
    let record = record_after_login(vault, username, password, passphrase);
    match session {
        Some(s) => Some(
            with_session(record, s.device_id@, s.access_token@, s.user_id@, passphrase),
        ),
        None => Some(record),
    }
}

/// The step to the room, once encryption is set up as far as it could be:
/// the room is joined where its id is well-formed.
pub open spec fn connect_join(bot: BotView, vault: Option<RecordView>) -> ConnectOutcome {
    if valid_room_id(bot.room_id) {
        connect_proceed(
            bot,
            vault,
            ConnectPhase::JoiningRoom,
            ConnectCallView::JoinRoom { room_id: bot.room_id },
        )
    } else {
        connect_abort(bot, vault, BotError::InvalidIdentifier)
    }
}

/// The requests whose user id is well-formed.
pub open spec fn has_valid_user() -> spec_fn(RequestView) -> bool {
    |r: RequestView| valid_user_id(r.other_user_id)
}

/// The requests that a reconciliation asks the engine about: none where
/// the bot is not connected, which ends the reconciling; else the tracked
/// requests whose user id is well-formed, in their order.
pub open spec fn reconcile_targets_spec(bot: BotView) -> Option<Seq<RequestView>> {
    if bot.connection is Connected {
        Some(bot.verification.requests.filter(has_valid_user()))
    } else {
        None
    }
}

/// How a connect starts.
pub open spec fn connect_start(bot: BotView, passphrase: Seq<char>) -> (
    ConnectionState,
    ConnectCallView,
) {
    if bot.connection is Connected {
        (ConnectionState::Connected, ConnectCallView::Finish(Ok(())))
    } else {
        (
            ConnectionState::Connecting(ConnectPhase::BuildingClient),
            ConnectCallView::BuildClient {
                homeserver: bot.homeserver,
                store_path: bot.store_path,
                passphrase: if passphrase.len() > 0 {
                    Some(passphrase)
                } else {
                    None
                },
            },
        )
    }
}

/// One step of a connect.
pub open spec fn connect_next(
    bot: BotView,
    vault: Option<RecordView>,
    password: Seq<char>,
    passphrase: Seq<char>,
    event: ConnectEvent,
) -> ConnectOutcome {
    match bot.connection {
        ConnectionState::Connecting(phase) => match (phase, event) {
            (ConnectPhase::BuildingClient, ConnectEvent::Completed) => connect_authenticate(
                bot,
                vault,
                password,
                passphrase,
            ),
            (ConnectPhase::BuildingClient, ConnectEvent::Failed) => connect_abort(
                bot,
                vault,
                BotError::RemoteRejected,
            ),
            (ConnectPhase::Resuming, ConnectEvent::Completed) => connect_proceed(
                bot,
                vault,
                ConnectPhase::WatchingVerifications,
                ConnectCallView::WatchVerifications,
            ),
            (ConnectPhase::Resuming, ConnectEvent::Failed) => connect_login(bot, vault, password),
            (ConnectPhase::LoggingIn, ConnectEvent::LoggedIn { session }) => connect_proceed(
                bot,
                vault_after_login(vault, bot.username, password, session, passphrase),
                ConnectPhase::WatchingVerifications,
                ConnectCallView::WatchVerifications,
            ),
            (ConnectPhase::LoggingIn, ConnectEvent::Failed) => connect_abort(
                bot,
                vault,
                BotError::AuthFailure,
            ),
            (ConnectPhase::WatchingVerifications, ConnectEvent::Completed)
            | (ConnectPhase::WatchingVerifications, ConnectEvent::Failed) => connect_proceed(
                bot,
                vault,
                ConnectPhase::CheckingCrossSigning,
                ConnectCallView::CheckCrossSigning,
            ),
            (ConnectPhase::CheckingCrossSigning, ConnectEvent::CrossSigning { complete }) => {
                if complete == Some(true) {
                    connect_join(bot, vault)
                } else {
                    connect_proceed(
                        bot,
                        vault,
                        ConnectPhase::Bootstrapping,
                        ConnectCallView::BootstrapCrossSigning,
                    )
                }
            },
            (ConnectPhase::CheckingCrossSigning, ConnectEvent::Failed) => connect_join(bot, vault),
            (ConnectPhase::Bootstrapping, ConnectEvent::Completed)
            | (ConnectPhase::Bootstrapping, ConnectEvent::Failed) => connect_join(bot, vault),
            (ConnectPhase::JoiningRoom, ConnectEvent::Completed) => connect_proceed(
                bot,
                vault,
                ConnectPhase::Backfilling,
                ConnectCallView::FetchHistory {
                    room_id: bot.room_id,
                    limit: request_limit(bot.history_limit),
                },
            ),
            (ConnectPhase::JoiningRoom, ConnectEvent::Failed) => connect_abort(
                bot,
                vault,
                BotError::RemoteRejected,
            ),
            (ConnectPhase::Backfilling, ConnectEvent::History { newest_first }) => ConnectOutcome {
                connection: ConnectionState::Connecting(ConnectPhase::StartingSync),
                call: ConnectCallView::StartSync,
                history: backfilled(
                    events_view(newest_first@),
                    request_limit(bot.history_limit) as nat,
                ),
                vault,
            },
            (ConnectPhase::Backfilling, ConnectEvent::Failed) => connect_proceed(
                bot,
                vault,
                ConnectPhase::StartingSync,
                ConnectCallView::StartSync,
            ),
            (ConnectPhase::StartingSync, ConnectEvent::Completed) => ConnectOutcome {
                connection: ConnectionState::Connected,
                call: ConnectCallView::Finish(Ok(())),
                history: bot.history,
                vault,
            },
            (ConnectPhase::StartingSync, ConnectEvent::Failed) => connect_abort(
                bot,
                vault,
                BotError::RemoteRejected,
            ),
            _ => connect_abort(bot, vault, BotError::OutOfTurn),
        },
        _ => ConnectOutcome {
            connection: bot.connection,
            call: ConnectCallView::Finish(Err(BotError::OutOfTurn)),
            history: bot.history,
            vault,
        },
    }
}

/// An upper bound on the steps that a connect still takes.
pub open spec fn connect_steps_left(connection: ConnectionState) -> nat {
    match connection {
        ConnectionState::Disconnected => 0,
        ConnectionState::Connected => 0,
        ConnectionState::Connecting(phase) => match phase {
            ConnectPhase::StartingSync => 1,
            ConnectPhase::Backfilling => 2,
            ConnectPhase::JoiningRoom => 3,
            ConnectPhase::Bootstrapping => 4,
            ConnectPhase::CheckingCrossSigning => 5,
            ConnectPhase::WatchingVerifications => 6,
            ConnectPhase::LoggingIn => 7,
            ConnectPhase::Resuming => 8,
            ConnectPhase::BuildingClient => 9,
        },
    }
}

/// The number of events that a backfill asks for.
pub fn backfill_request_limit(history_limit: usize) -> (out: u64)
    ensures
        out == request_limit(history_limit),
        out <= history_limit || out == FALLBACK_REQUEST_LIMIT,
{
    if history_limit as u64 <= MAX_REQUEST_LIMIT {
        history_limit as u64
    } else {
        FALLBACK_REQUEST_LIMIT
    }
}

/// The bot.
pub struct MatrixBot {
    homeserver: String,
    username: String,
    room_id: String,
    store_path: String,
    history_limit: usize,
    connection: ConnectionState,
    message_tx: MessageBus,
    message_history: HistoryBuffer,
    verification: VerificationCoordinator,
}

impl View for MatrixBot {
    type V = BotView;

    closed spec fn view(&self) -> BotView {
        BotView {
            homeserver: self.homeserver@,
            username: self.username@,
            room_id: self.room_id@,
            store_path: self.store_path@,
            history_limit: self.history_limit,
            connection: self.connection,
            history: self.message_history@,
            delivered: self.message_tx.delivered(),
            verification: self.verification@,
        }
    }
}

impl MatrixBot {
    /// A bot that is not connected yet, with an empty history and no
    /// verification request, and the first receiver of its bus.
    pub fn new(
        homeserver: &str,
        username: &str,
        room_id: &str,
        history_limit: usize,
        store_path: &str,
    ) -> (out: (Self, MessageReceiver))
        ensures
            out.0@ == (BotView {
                homeserver: homeserver@,
                username: username@,
                room_id: room_id@,
                store_path: store_path@,
                history_limit,
                connection: ConnectionState::Disconnected,
                history: Seq::<Seq<char>>::empty(),
                delivered: Seq::<Seq<char>>::empty(),
                verification: CoordinatorView {
                    requests: Seq::<RequestView>::empty(),
                    active: None,
                },
            }),
            reads_from(out.1) == 0,
    {
        let (message_tx, message_rx) = MessageBus::new();
        let bot = MatrixBot {
            homeserver: homeserver.to_owned(),
            username: username.to_owned(),
            room_id: room_id.to_owned(),
            store_path: store_path.to_owned(),
            history_limit,
            connection: ConnectionState::Disconnected,
            message_tx,
            message_history: HistoryBuffer::new(),
            verification: VerificationCoordinator::new(),
        };
        (bot, message_rx)
    }

    /// The address of the server.
    pub fn homeserver(&self) -> (out: &str)
        ensures
            out@ == self@.homeserver,
    {
        self.homeserver.as_str()
    }

    /// The user name of the account.
    pub fn username(&self) -> (out: &str)
        ensures
            out@ == self@.username,
    {
        self.username.as_str()
    }

    /// The id of the room.
    pub fn room_id(&self) -> (out: &str)
        ensures
            out@ == self@.room_id,
    {
        self.room_id.as_str()
    }

    /// Where the engine keeps its state.
    pub fn store_path(&self) -> (out: &str)
        ensures
            out@ == self@.store_path,
    {
        self.store_path.as_str()
    }

    /// The state of the connection.
    pub fn connection(&self) -> (out: ConnectionState)
        ensures
            out == self@.connection,
    {
        self.connection
    }

    /// Whether the connection stands.
    pub fn is_connected(&self) -> (out: bool)
        ensures
            out == (self@.connection is Connected),
    {
        match self.connection {
            ConnectionState::Connected => true,
            _ => false,
        }
    }

    /// Starts a connect. A bot that is connected stays so and the connect
    /// is over at once, with success. Otherwise the bot is connecting from
    /// now on, and the client of the engine is to be built for the bot's
    /// server on the bot's store: encrypted under the passphrase where that
    /// is not empty.
    pub fn connect(&mut self, store_passphrase: &str) -> (out: ConnectCall)
        ensures
            final(self)@ == (BotView {
                connection: connect_start(old(self)@, store_passphrase@).0,
                ..old(self)@
            }),
            out@ == connect_start(old(self)@, store_passphrase@).1,
    {
        if self.is_connected() {
            return ConnectCall::Finish(Ok(()));
        }
        self.connection = ConnectionState::Connecting(ConnectPhase::BuildingClient);
        ConnectCall::BuildClient {
            homeserver: self.homeserver.clone(),
            store_path: self.store_path.clone(),
            passphrase: if store_passphrase.is_empty() {
                None
            } else {
                Some(store_passphrase.to_owned())
            },
        }
    }

    /// The call that joins the room, or the end of the connect where the
    /// id of the room is not well-formed.
    fn join_or_give_up(&mut self) -> (out: ConnectCall)
        ensures
            final(self)@ == (BotView {
                connection: if valid_room_id(old(self)@.room_id) {
                    ConnectionState::Connecting(ConnectPhase::JoiningRoom)
                } else {
                    ConnectionState::Disconnected
                },
                ..old(self)@
            }),
            out@ == if valid_room_id(old(self)@.room_id) {
                ConnectCallView::JoinRoom { room_id: old(self)@.room_id }
            } else {
                ConnectCallView::Finish(Err(BotError::InvalidIdentifier))
            },
    {
        if room_id_parses(self.room_id.as_str()) {
            self.connection = ConnectionState::Connecting(ConnectPhase::JoiningRoom);
            ConnectCall::JoinRoom { room_id: self.room_id.clone() }
        } else {
            self.connection = ConnectionState::Disconnected;
            ConnectCall::Finish(Err(BotError::InvalidIdentifier))
        }
    }

    /// The call that logs in with the user name of the bot.
    fn log_in(&mut self, matrix_password: &str) -> (out: ConnectCall)
        ensures
            final(self)@ == (BotView {
                connection: ConnectionState::Connecting(ConnectPhase::LoggingIn),
                ..old(self)@
            }),
            out@ == (ConnectCallView::Login {
                username: old(self)@.username,
                password: matrix_password@,
            }),
    {
        self.connection = ConnectionState::Connecting(ConnectPhase::LoggingIn);
        ConnectCall::Login { username: self.username.clone(), password: matrix_password.to_owned() }
    }

    /// The call that authenticates: a resume of the stored session, or a
    /// login.
    fn authenticate(
        &mut self,
        matrix_password: &str,
        store_passphrase: &str,
        credentials_store: &CredentialStore,
    ) -> (out: ConnectCall)
        ensures
            final(self)@ == (BotView {
                connection: connect_authenticate(
                    old(self)@,
                    credentials_store@,
                    matrix_password@,
                    store_passphrase@,
                ).connection,
                ..old(self)@
            }),
            out@ == connect_authenticate(
                old(self)@,
                credentials_store@,
                matrix_password@,
                store_passphrase@,
            ).call,
    {
        if credentials_store.session_exists() {
            match credentials_store.get_session(store_passphrase) {
                Ok((device_id, access_token, user_id)) => {
                    if user_id_parses(user_id.as_str()) {
                        self.connection = ConnectionState::Connecting(ConnectPhase::Resuming);
                        return ConnectCall::RestoreSession {
                            session: SessionTokens { device_id, access_token, user_id },
                        };
                    }
                },
                Err(_) => {},
            }
        }
        self.log_in(matrix_password)
    }

    /// Takes one step of a connect: from the outcome of the last call to
    /// the next call.
    ///
    /// Once the client is built, the stored session is resumed where there
    /// is one; where there is none, where it cannot be read, or where the
    /// resume fails, the bot logs in with the password. A login that goes
    /// through stores the new session in the vault; where the vault is
    /// empty, it is this first login that goes through which makes the
    /// record, with the user name and the password. A login that fails ends
    /// the connect with `AuthFailure` and leaves the vault as it was. Setting up the verification handlers and
    /// cross-signing is best effort: a failure there does not end the
    /// connect. Then the room is joined, the history is filled from the
    /// most recent events, and the subscription to arriving events is
    /// started; only when that stands is the bot connected. A connect that
    /// is given up leaves the bot disconnected. An outcome that the phase
    /// did not wait for ends the connect with `OutOfTurn`.
    pub fn connect_step(
        &mut self,
        event: ConnectEvent,
        matrix_password: &str,
        store_passphrase: &str,
        credentials_store: &mut CredentialStore,
    ) -> (out: ConnectCall)
        ensures
            ({
                let outcome = connect_next(
                    old(self)@,
                    old(credentials_store)@,
                    matrix_password@,
                    store_passphrase@,
                    event,
                );
                &&& out@ == outcome.call
                &&& final(self)@ == (BotView {
                    connection: outcome.connection,
                    history: outcome.history,
                    ..old(self)@
                })
                &&& final(credentials_store)@ == outcome.vault
            }),
            final(credentials_store).path() == old(credentials_store).path(),
            old(credentials_store).wf() ==> final(credentials_store).wf(),
    {
        let phase = match self.connection {
            ConnectionState::Connecting(phase) => phase,
            _ => { return ConnectCall::Finish(Err(BotError::OutOfTurn)); },
        };
        match (phase, event) {
            (ConnectPhase::BuildingClient, ConnectEvent::Completed) => self.authenticate(
                matrix_password,
                store_passphrase,
                credentials_store,
            ),
            (ConnectPhase::BuildingClient, ConnectEvent::Failed) => self.give_up(
                BotError::RemoteRejected,
            ),
            (ConnectPhase::Resuming, ConnectEvent::Completed) => {
                self.connection = ConnectionState::Connecting(ConnectPhase::WatchingVerifications);
                ConnectCall::WatchVerifications
            },
            (ConnectPhase::Resuming, ConnectEvent::Failed) => self.log_in(matrix_password),
            (ConnectPhase::LoggingIn, ConnectEvent::LoggedIn { session }) => {
                if !credentials_store.credentials_exist() {
                    credentials_store.store_credentials(
                        self.username.as_str(),
                        matrix_password,
                        store_passphrase,
                    );
                }
                match session {
                    Some(s) => {
                        let _ = credentials_store.store_session(
                            s.device_id.as_str(),
                            s.access_token.as_str(),
                            s.user_id.as_str(),
                            store_passphrase,
                        );
                    },
                    None => {},
                }
                self.connection = ConnectionState::Connecting(ConnectPhase::WatchingVerifications);
                ConnectCall::WatchVerifications
            },
            (ConnectPhase::LoggingIn, ConnectEvent::Failed) => self.give_up(BotError::AuthFailure),
            (ConnectPhase::WatchingVerifications, ConnectEvent::Completed)
            | (ConnectPhase::WatchingVerifications, ConnectEvent::Failed) => {
                self.connection = ConnectionState::Connecting(ConnectPhase::CheckingCrossSigning);
                ConnectCall::CheckCrossSigning
            },
            (ConnectPhase::CheckingCrossSigning, ConnectEvent::CrossSigning { complete }) => {
                match complete {
                    Some(true) => self.join_or_give_up(),
                    _ => {
                        self.connection = ConnectionState::Connecting(ConnectPhase::Bootstrapping);
                        ConnectCall::BootstrapCrossSigning
                    },
                }
            },
            (ConnectPhase::CheckingCrossSigning, ConnectEvent::Failed) => self.join_or_give_up(),
            (ConnectPhase::Bootstrapping, ConnectEvent::Completed)
            | (ConnectPhase::Bootstrapping, ConnectEvent::Failed) => self.join_or_give_up(),
            (ConnectPhase::JoiningRoom, ConnectEvent::Completed) => {
                self.connection = ConnectionState::Connecting(ConnectPhase::Backfilling);
                ConnectCall::FetchHistory {
                    room_id: self.room_id.clone(),
                    limit: backfill_request_limit(self.history_limit),
                }
            },
            (ConnectPhase::JoiningRoom, ConnectEvent::Failed) => self.give_up(
                BotError::RemoteRejected,
            ),
            (ConnectPhase::Backfilling, ConnectEvent::History { newest_first }) => {
                let limit = backfill_request_limit(self.history_limit);
                self.message_history.backfill(&newest_first, limit as usize);
                self.connection = ConnectionState::Connecting(ConnectPhase::StartingSync);
                ConnectCall::StartSync
            },
            (ConnectPhase::Backfilling, ConnectEvent::Failed) => {
                self.connection = ConnectionState::Connecting(ConnectPhase::StartingSync);
                ConnectCall::StartSync
            },
            (ConnectPhase::StartingSync, ConnectEvent::Completed) => {
                self.connection = ConnectionState::Connected;
                ConnectCall::Finish(Ok(()))
            },
            (ConnectPhase::StartingSync, ConnectEvent::Failed) => self.give_up(
                BotError::RemoteRejected,
            ),
            _ => self.give_up(BotError::OutOfTurn),
        }
    }

    /// Gives a connect up.
    fn give_up(&mut self, error: BotError) -> (out: ConnectCall)
        ensures
            final(self)@ == (BotView { connection: ConnectionState::Disconnected, ..old(self)@ }),
            out@ == ConnectCallView::Finish(Err(error)),
    {
        self.connection = ConnectionState::Disconnected;
        ConnectCall::Finish(Err(error))
    }

    /// Disconnects. The bot is disconnected afterwards and its history is
    /// empty. The stored session is cleared in every case, so that no
    /// session is resumed after a logout. `true` is returned where a
    /// connection stood: the background tasks are to be stopped and the
    /// server is to be told of the logout, as far as it can be reached. The
    /// tracked verification requests and the bus stay.
    pub fn disconnect(&mut self, credentials_store: &mut CredentialStore) -> (out: bool)
        ensures
            out == (old(self)@.connection is Connected),
            final(self)@ == (BotView {
                connection: ConnectionState::Disconnected,
                history: Seq::<Seq<char>>::empty(),
                ..old(self)@
            }),
            final(credentials_store)@ == crate::credentials::cleared(old(credentials_store)@),
            final(credentials_store).path() == old(credentials_store).path(),
            final(credentials_store).wf(),
    {
        let was_connected = self.is_connected();
        credentials_store.clear_session();
        self.connection = ConnectionState::Disconnected;
        self.message_history.clear();
        was_connected
    }

    /// A copy of the history, oldest line first.
    pub fn get_message_history(&self) -> (out: Vec<String>)
        ensures
            lines_view(out@) == self@.history,
    {
        self.message_history.snapshot()
    }

    /// Whether a message can be sent now: the bot must be connected and
    /// the id of its room well-formed.
    pub fn send_message(&self) -> (out: Result<(), BotError>)
        ensures
            out == if !(self@.connection is Connected) {
                Err::<(), BotError>(BotError::NotConnected)
            } else if !valid_room_id(self@.room_id) {
                Err::<(), BotError>(BotError::InvalidIdentifier)
            } else {
                Ok::<(), BotError>(())
            },
    {
        if !self.is_connected() {
            Err(BotError::NotConnected)
        } else if !room_id_parses(self.room_id.as_str()) {
            Err(BotError::InvalidIdentifier)
        } else {
            Ok(())
        }
    }

    /// A receiver for a new viewer. It reads from the position that the
    /// bus has reached: it sees the lines delivered from now on.
    pub fn subscribe(&self) -> (out: MessageReceiver)
        ensures
            reads_from(out) == self@.delivered.len(),
    {
        self.message_tx.subscribe()
    }

    /// Takes in an event that arrived. A text message of the bot's room is
    /// appended to the history as a line, and that line is published on
    /// the bus once and returned: the bus delivers it where a viewer
    /// listens, and drops it otherwise, which is no error. Any other event
    /// changes nothing, and nothing is published.
    pub fn on_message(&mut self, event: &RoomEvent) -> (out: Option<String>)
        ensures
            line_view(out) == inbound_line(old(self)@.room_id, event@),
            final(self)@ == (BotView {
                history: match inbound_line(old(self)@.room_id, event@) {
                    Some(line) => old(self)@.history.push(line),
                    None => old(self)@.history,
                },
                delivered: final(self)@.delivered,
                ..old(self)@
            }),
            match inbound_line(old(self)@.room_id, event@) {
                Some(line) => final(self)@.delivered == old(self)@.delivered.push(line)
                    || final(self)@.delivered == old(self)@.delivered,
                None => final(self)@.delivered == old(self)@.delivered,
            },
    {
        match self.message_history.on_inbound(self.room_id.as_str(), event) {
            Some(line) => {
                let _ = self.message_tx.publish(line.clone());
                Some(line)
            },
            None => None,
        }
    }

    /// The tracked verification requests, in the order of their arrival.
    pub fn get_verification_requests(&self) -> (out: Vec<VerificationRequestInfo>)
        ensures
            requests_view(out@) == self@.verification.requests,
    {
        self.verification.requests()
    }

    /// The challenge that is to be shown, if there is one.
    pub fn get_active_sas(&self) -> (out: Option<SasInfo>)
        ensures
            sas_view(out) == self@.verification.active,
    {
        self.verification.active_sas()
    }

    /// Takes in a verification request that arrived.
    pub fn on_verification_request(
        &mut self,
        request_id: &str,
        other_user_id: &str,
        other_device_id: &str,
    )
        ensures
            final(self)@ == (BotView {
                verification: old(self)@.verification.with_request(
                    RequestView {
                        request_id: request_id@,
                        other_user_id: other_user_id@,
                        other_device_id: other_device_id@,
                        status: crate::verification::pending_status(),
                    },
                ),
                ..old(self)@
            }),
            old(self)@.verification.wf() ==> final(self)@.verification.wf(),
    {
        self.verification.on_request(request_id, other_user_id, other_device_id);
    }

    /// The requests that a reconciliation has to ask the engine about.
    /// Nothing comes back where the bot is not connected: the reconciling
    /// then ends. Else the tracked requests whose user id is well-formed
    /// come back, in the order of their arrival.
    pub fn reconcile_targets(&self) -> (out: Option<Vec<VerificationRequestInfo>>)
        ensures
            match reconcile_targets_spec(self@) {
                Some(targets) => out matches Some(list) && requests_view(list@) == targets,
                None => out is None,
            },
    {
        if !self.is_connected() {
            return None;
        }
        let known = self.verification.requests();
        let ghost all = self@.verification.requests;
        let ghost keep = has_valid_user();
        let mut targets: Vec<VerificationRequestInfo> = Vec::new();
        let mut i: usize = 0;
        proof {
            lemma_filter_nothing(all, keep);
        }
        while i < known.len()
            invariant
                i <= known.len(),
                all == requests_view(known@),
                keep == has_valid_user(),
                requests_view(targets@) =~= all.take(i as int).filter(keep),
            decreases known.len() - i,
        {
            proof {
                lemma_filter_step(all, keep, i as int);
            }
            if user_id_parses(known[i].other_user_id.as_str()) {
                targets.push(known[i].clone());
            }
            i += 1;
        }
        assert(all.take(i as int) =~= all);
        Some(targets)
    }

    /// Takes in the observations of one reconciliation: what the engine
    /// shows of the tracked requests, in their order.
    pub fn reconcile(&mut self, observations: &Vec<(String, SasObservation)>)
        ensures
            final(self)@ == (BotView {
                verification: old(self)@.verification.reconciled_all(
                    observations_view(observations@),
                ),
                ..old(self)@
            }),
            old(self)@.verification.wf() ==> final(self)@.verification.wf(),
    {
        self.verification.reconcile_all(observations);
    }

    /// Starts the accept of a verification request of `other_user_id`.
    pub fn accept_verification(&self, other_user_id: &str) -> (out: (AcceptPhase, EngineCall))
        ensures
            out == accept_start(self@.connection is Connected, valid_user_id(other_user_id@)),
    {
        accept_begin(self.is_connected(), user_id_parses(other_user_id))
    }

    /// Takes one step of an accept.
    pub fn accept_verification_step(&self, phase: AcceptPhase, event: &EngineEvent) -> (out: (
        AcceptPhase,
        EngineCall,
    ))
        ensures
            out == accept_next(self@.connection is Connected, phase, *event),
    {
        accept_step(self.is_connected(), phase, event)
    }

    /// Starts the confirm of the challenge of a request of `other_user_id`.
    pub fn confirm_verification(&self, other_user_id: &str) -> (out: (ConfirmPhase, EngineCall))
        ensures
            out == confirm_start(self@.connection is Connected, valid_user_id(other_user_id@)),
    {
        confirm_begin(self.is_connected(), user_id_parses(other_user_id))
    }

    /// Takes one step of a confirm. Where the confirmed challenge is seen
    /// done, no challenge is to be shown any more.
    pub fn confirm_verification_step(&mut self, phase: ConfirmPhase, event: &EngineEvent) -> (out: (
        ConfirmPhase,
        EngineCall,
    ))
        ensures
            out == confirm_next(old(self)@.connection is Connected, phase, *event),
            final(self)@ == (BotView {
                verification: confirm_effect(
                    old(self)@.connection is Connected,
                    phase,
                    *event,
                    old(self)@.verification,
                ),
                ..old(self)@
            }),
            old(self)@.verification.wf() ==> final(self)@.verification.wf(),
    {
        let connected = self.is_connected();
        confirm_step(&mut self.verification, connected, phase, event)
    }

    /// Starts the cancel of a verification request of `other_user_id`.
    pub fn cancel_verification(&self, other_user_id: &str) -> (out: (CancelPhase, EngineCall))
        ensures
            out == cancel_start(self@.connection is Connected, valid_user_id(other_user_id@)),
    {
        cancel_begin(self.is_connected(), user_id_parses(other_user_id))
    }

    /// Takes one step of the cancel of the request `request_id`. Once the
    /// cancel has ended well, the request is no longer tracked and its
    /// challenge is no longer shown.
    pub fn cancel_verification_step(
        &mut self,
        phase: CancelPhase,
        request_id: &str,
        event: &EngineEvent,
    ) -> (out: (CancelPhase, EngineCall))
        ensures
            out == cancel_next(old(self)@.connection is Connected, phase, *event),
            final(self)@ == (BotView {
                verification: cancel_effect(
                    old(self)@.connection is Connected,
                    phase,
                    request_id@,
                    *event,
                    old(self)@.verification,
                ),
                ..old(self)@
            }),
            old(self)@.verification.wf() ==> final(self)@.verification.wf(),
    {
        let connected = self.is_connected();
        cancel_step(&mut self.verification, connected, phase, request_id, event)
    }
}

/// Every step of a connect brings it nearer to its end. The call is
/// `Finish` exactly when the bot is not connecting any more; the bot is
/// connected exactly when the connect ended well, and that only from the
/// last phase; and a connect that is given up leaves the bot disconnected.
pub proof fn lemma_connect_step_progress(
    bot: BotView,
    vault: Option<RecordView>,
    password: Seq<char>,
    passphrase: Seq<char>,
    event: ConnectEvent,
)
    requires
        bot.connection is Connecting,
    ensures
        ({
            let outcome = connect_next(bot, vault, password, passphrase, event);
            &&& connect_steps_left(outcome.connection) < connect_steps_left(bot.connection)
            &&& outcome.call is Finish <==> !(outcome.connection is Connecting)
            &&& outcome.connection is Connected <==> outcome.call == ConnectCallView::Finish(
                Ok(()),
            )
            &&& outcome.connection is Connected ==> bot.connection == ConnectionState::Connecting(
                ConnectPhase::StartingSync,
            ) && event is Completed
            &&& connect_steps_left(bot.connection) <= 9
        }),
{
}

/// A connect of a bot that is connected changes nothing and ends well at
/// once.
pub proof fn lemma_connect_is_idempotent(bot: BotView, passphrase: Seq<char>)
    requires
        bot.connection is Connected,
    ensures
        connect_start(bot, passphrase) == (
            ConnectionState::Connected,
            ConnectCallView::Finish(Ok(())),
        ),
{
}

/// A stored session that cannot be resumed is no end of the connect: the
/// bot logs in with the password, and the session of that login takes the
/// place of the stored one.
pub proof fn lemma_failed_resume_falls_back_to_login(
    bot: BotView,
    vault: Option<RecordView>,
    password: Seq<char>,
    passphrase: Seq<char>,
    session: SessionTokens,
)
    requires
        bot.connection == ConnectionState::Connecting(ConnectPhase::Resuming),
    ensures
        ({
            let fallen_back = connect_next(bot, vault, password, passphrase, ConnectEvent::Failed);
            let logged_in = connect_next(
                BotView { connection: fallen_back.connection, ..bot },
                fallen_back.vault,
                password,
                passphrase,
                ConnectEvent::LoggedIn { session: Some(session) },
            );
            &&& fallen_back.call == (ConnectCallView::Login { username: bot.username, password })
            &&& fallen_back.vault == vault
            &&& session_spec(logged_in.vault, passphrase) == Ok::<
                (Seq<char>, Seq<char>, Seq<char>),
                crate::error::VaultError,
            >((session.device_id@, session.access_token@, session.user_id@))
        }),
{
    crate::credentials::lemma_store_session_then_get(
        record_after_login(vault, bot.username, password, passphrase),
        session.device_id@,
        session.access_token@,
        session.user_id@,
        passphrase,
    );
}

/// The vault changes at one step of a connect only: where a login went
/// through. A connect that is given up, at whatever step, leaves the vault
/// as that step found it. In particular a first login that is refused
/// leaves the vault empty.
pub proof fn lemma_only_a_login_that_went_through_changes_the_vault(
    bot: BotView,
    vault: Option<RecordView>,
    password: Seq<char>,
    passphrase: Seq<char>,
    event: ConnectEvent,
)
    ensures
        ({
            let outcome = connect_next(bot, vault, password, passphrase, event);
            &&& outcome.vault != vault ==> bot.connection == ConnectionState::Connecting(
                ConnectPhase::LoggingIn,
            ) && event is LoggedIn
            &&& outcome.call matches ConnectCallView::Finish(Err(_)) ==> outcome.vault == vault
        }),
{
}

/// The first login that goes through makes the record: from then on the
/// vault gives back the user name of the bot and the password of that
/// login. A record that the vault holds already is kept as it is.
pub proof fn lemma_first_login_makes_the_record(
    bot: BotView,
    vault: Option<RecordView>,
    password: Seq<char>,
    passphrase: Seq<char>,
    session: Option<SessionTokens>,
)
    requires
        bot.connection == ConnectionState::Connecting(ConnectPhase::LoggingIn),
    ensures
        ({
            let outcome = connect_next(
                bot,
                vault,
                password,
                passphrase,
                ConnectEvent::LoggedIn { session },
            );
            &&& outcome.vault is Some
            &&& vault is None ==> crate::credentials::retrieve_spec(outcome.vault, passphrase)
                == Ok::<(Seq<char>, Seq<char>), crate::error::VaultError>(
                (bot.username, password),
            )
            &&& vault is Some ==> crate::credentials::retrieve_spec(outcome.vault, passphrase)
                == crate::credentials::retrieve_spec(vault, passphrase)
        }),
{
    crate::credentials::lemma_store_then_retrieve(bot.username, password, passphrase);
}

} // verus!
