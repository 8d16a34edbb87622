//! What the web front end exchanges with its clients, and the decisions
//! behind its answers.

use vstd::prelude::*;
use vstd::string::StringExecFns;
use crate::bot::{BotView, ConnectionState, MatrixBot};
use crate::config::AuthConfig;
use crate::credentials::{retrieve_spec, CredentialStore, RecordView};
use crate::digest::hash_value_spec;
use crate::error::{bot_error_text, vault_error_text, BotError};
use crate::identifiers::valid_room_id;
use crate::text::{blank, is_blank, same_text};

verus! {

/// The status of an answer that grants the request.
pub const STATUS_OK: u16 = 200;

/// The status of an answer to a request that lacks something.
pub const STATUS_BAD_REQUEST: u16 = 400;

/// The status of an answer that refuses the request.
pub const STATUS_UNAUTHORIZED: u16 = 401;

/// The status of an answer to a request that failed on the way.
pub const STATUS_INTERNAL_SERVER_ERROR: u16 = 500;

/// A request to send a message to the room.
#[derive(Debug, Clone)]
pub struct SendMessageRequest {
    pub message: String,
}

/// The answer to a request to send.
#[derive(Debug, Clone)]
pub struct SendMessageResponse {
    pub success: bool,
    pub error: Option<String>,
}

/// The answer to a request for the history.
#[derive(Debug, Clone)]
pub struct MessageHistoryResponse {
    pub messages: Vec<String>,
}

/// A request to log in: the vault passphrase, and the password of the
/// account where the vault does not hold it yet.
#[derive(Debug, Clone)]
pub struct LoginRequest {
    pub matrix_password: Option<String>,
    pub sqlite_password: String,
}

/// The answer to a request to log in or out.
#[derive(Debug, Clone)]
pub struct LoginResponse {
    pub success: bool,
    pub error: Option<String>,
}

/// The answer to a request for the status.
#[derive(Debug, Clone, Copy, PartialEq, Eq, Structural)]
pub struct StatusResponse {
    pub connected: bool,
    pub credentials_exist: bool,
}

/// What the handlers share.
pub struct AppState {
    pub bot: MatrixBot,
    pub auth: Option<AuthConfig>,
    pub credentials_store: CredentialStore,
    pub username: String,
}

/// What a login request leads to.
#[derive(Debug)]
pub enum LoginStep {
    /// Answer at once, with this status.
    Respond { status: u16, response: LoginResponse },
    /// Connect with this password, and answer by the outcome.
    Connect { matrix_password: String },
}

/// What a login request leads to, as plain values: an answer with its
/// status, its success and its error, or a connect with a password.
pub enum LoginStepView {
    Respond { status: u16, success: bool, error: Option<Seq<char>> },
    Connect { matrix_password: Seq<char> },
}

/// The view of a text that may be absent.
pub open spec fn text_view(text: Option<String>) -> Option<Seq<char>> {
    match text {
        Some(t) => Some(t@),
        None => None,
    }
}

impl View for LoginStep {
    type V = LoginStepView;

    open spec fn view(&self) -> LoginStepView {
        match *self {
            LoginStep::Respond { status, response } => LoginStepView::Respond {
                status,
                success: response.success,
                error: text_view(response.error),
            },
            LoginStep::Connect { matrix_password } => LoginStepView::Connect {
                matrix_password: matrix_password@,
            },
        }
    }
}

/// What a login request leads to.
pub open spec fn login_plan(
    connected: bool,
    vault: Option<RecordView>,
    username: Seq<char>,
    request: LoginRequest,
) -> LoginStepView {
    if connected {
        LoginStepView::Respond { status: STATUS_OK, success: true, error: None }
    } else if vault is Some {
        match retrieve_spec(vault, request.sqlite_password@) {
            Ok((stored_username, stored_password)) => {
                if stored_username != username {
                    LoginStepView::Respond {
                        status: STATUS_UNAUTHORIZED,
                        success: false,
                        error: Some("Username mismatch with stored credentials"@),
                    }
                } else {
                    LoginStepView::Connect { matrix_password: stored_password }
                }
            },
            Err(e) => LoginStepView::Respond {
                status: STATUS_UNAUTHORIZED,
                success: false,
                error: Some(
                    "Failed to retrieve credentials: "@ + vault_error_text(e)
                        + ". Wrong SQLite password?"@,
                ),
            },
        }
    } else {
        match request.matrix_password {
            Some(password) => LoginStepView::Connect { matrix_password: password@ },
            None => LoginStepView::Respond {
                status: STATUS_BAD_REQUEST,
                success: false,
                error: Some("Matrix password required for first login"@),
            },
        }
    }
}

/// An answer that grants a login or a logout.
pub fn login_granted() -> (out: LoginResponse)
    ensures
        out.success,
        out.error is None,
{
    LoginResponse { success: true, error: None }
}

/// An answer that refuses a login, with the reason.
pub fn login_refused(reason: String) -> (out: LoginResponse)
    ensures
        !out.success,
        text_view(out.error) == Some(reason@),
{
    LoginResponse { success: false, error: Some(reason) }
}

/// The reason that an answer gives for a connect that failed: the words of
/// the engine where it gave some, else the sentence of the error.
pub open spec fn connect_failure_text(error: BotError, detail: Option<String>) -> Seq<char> {
    "Failed to connect: "@ + match detail {
        Some(words) => words@,
        None => bot_error_text(error),
    }
}

/// The answer to a login request once the connect is over: granted where
/// it ended well, refused with the reason otherwise. `detail` holds the
/// words of the engine on the call that failed, where it gave some.
pub fn login_response(outcome: Result<(), BotError>, detail: Option<String>) -> (out: (
    u16,
    LoginResponse,
))
    ensures
        match outcome {
            Ok(_) => out.0 == STATUS_OK && out.1.success && out.1.error is None,
            Err(e) => out.0 == STATUS_UNAUTHORIZED && !out.1.success && text_view(out.1.error)
                == Some(connect_failure_text(e, detail)),
        },
{
    match outcome {
        Ok(_) => (STATUS_OK, login_granted()),
        Err(e) => {
            let mut reason = "Failed to connect: ".to_owned();
            match detail {
                Some(words) => reason.append(words.as_str()),
                None => reason.append(e.message().as_str()),
            }
            (STATUS_UNAUTHORIZED, login_refused(reason))
        },
    }
}

/// The answer to a request to send once the message was handed to the
/// server or refused by it, with the server's words.
pub fn send_response(failure: Option<String>) -> (out: (u16, SendMessageResponse))
    ensures
        out.1.success == (failure is None),
        text_view(out.1.error) == text_view(failure),
        out.0 == if failure is None {
            STATUS_OK
        } else {
            STATUS_INTERNAL_SERVER_ERROR
        },
{
    match failure {
        None => (STATUS_OK, SendMessageResponse { success: true, error: None }),
        Some(text) => (
            STATUS_INTERNAL_SERVER_ERROR,
            SendMessageResponse { success: false, error: Some(text) },
        ),
    }
}

impl AppState {
    /// Whether a request may pass the door: always where no authentication
    /// is configured; else only with the configured header, whose value
    /// must have the configured digest.
    pub fn authorize(&self, header_value: Option<&str>) -> (out: bool)
        ensures
            out == match (self.auth, header_value) {
                (None, _) => true,
                (Some(auth), Some(value)) => hash_value_spec(value@) == auth.header_value_hash@,
                (Some(_), None) => false,
            },
    {
        match &self.auth {
            None => true,
            Some(auth) => auth.permits(header_value),
        }
    }

    /// The status: whether the bot is connected and whether the vault holds
    /// credentials.
    pub fn status(&self) -> (out: StatusResponse)
        ensures
            out.connected == (self.bot@.connection is Connected),
            out.credentials_exist == (self.credentials_store@ is Some),
    {
        StatusResponse {
            connected: self.bot.is_connected(),
            credentials_exist: self.credentials_store.credentials_exist(),
        }
    }

    /// Decides on a login request, and changes nothing.
    ///
    /// A bot that is connected grants it at once. Where the vault holds
    /// credentials, they are read with the passphrase of the request: a
    /// failure to read them, or a user name other than the configured one,
    /// refuses the request; else the stored password is the one to connect
    /// with. Where the vault is empty, this is the first login: the
    /// request must bring the password, which is the one to connect with.
    /// It is stored in the vault only once the login has gone through.
    pub fn login(&self, request: &LoginRequest) -> (out: LoginStep)
        ensures
            out@ == login_plan(
                self.bot@.connection is Connected,
                self.credentials_store@,
                self.username@,
                *request,
            ),
    {
        if self.bot.is_connected() {
            return LoginStep::Respond { status: STATUS_OK, response: login_granted() };
        }
        if self.credentials_store.credentials_exist() {
            match self.credentials_store.get_credentials(request.sqlite_password.as_str()) {
                Ok((stored_username, stored_password)) => {
                    if !same_text(stored_username.as_str(), self.username.as_str()) {
                        LoginStep::Respond {
                            status: STATUS_UNAUTHORIZED,
                            response: login_refused(
                                "Username mismatch with stored credentials".to_owned(),
                            ),
                        }
                    } else {
                        LoginStep::Connect { matrix_password: stored_password }
                    }
                },
                Err(e) => {
                    let mut reason = "Failed to retrieve credentials: ".to_owned();
                    reason.append(e.message().as_str());
                    reason.append(". Wrong SQLite password?");
                    LoginStep::Respond {
                        status: STATUS_UNAUTHORIZED,
                        response: login_refused(reason),
                    }
                },
            }
        } else {
            match &request.matrix_password {
                Some(password) => LoginStep::Connect { matrix_password: password.clone() },
                None => LoginStep::Respond {
                    status: STATUS_BAD_REQUEST,
                    response: login_refused("Matrix password required for first login".to_owned()),
                },
            }
        }
    }

    /// Logs out: the bot is disconnected and the stored session is
    /// cleared, whether a connection stood or not. `true` is returned where
    /// a connection stood that the server has to be told the end of. The
    /// answer grants the request in either case.
    pub fn logout(&mut self) -> (out: (bool, LoginResponse))
        ensures
            out.0 == (old(self).bot@.connection is Connected),
            out.1.success,
            out.1.error is None,
            final(self).bot@ == (BotView {
                connection: ConnectionState::Disconnected,
                history: Seq::<Seq<char>>::empty(),
                ..old(self).bot@
            }),
            final(self).credentials_store@ == crate::credentials::cleared(
                old(self).credentials_store@,
            ),
            final(self).credentials_store.path() == old(self).credentials_store.path(),
            final(self).username@ == old(self).username@,
            final(self).auth == old(self).auth,
    {
        let was_connected = self.bot.disconnect(&mut self.credentials_store);
        (was_connected, login_granted())
    }

    /// Decides on a request to send. A message that is empty but for white
    /// space is refused as a bad request. A bot that cannot send refuses
    /// with its reason. Otherwise nothing is returned, and the message is
    /// to be handed to the server.
    pub fn send_message(&self, request: &SendMessageRequest) -> (out: Option<
        (u16, SendMessageResponse),
    >)
        ensures
            match out {
                None => !is_blank(request.message@) && self.bot@.connection is Connected
                    && valid_room_id(self.bot@.room_id),
                Some((status, response)) => {
                    &&& !response.success
                    &&& if is_blank(request.message@) {
                        status == STATUS_BAD_REQUEST && text_view(response.error) == Some(
                            "Message cannot be empty"@,
                        )
                    } else if !(self.bot@.connection is Connected) {
                        status == STATUS_INTERNAL_SERVER_ERROR && text_view(response.error)
                            == Some(bot_error_text(BotError::NotConnected))
                    } else {
                        !valid_room_id(self.bot@.room_id) && status
                            == STATUS_INTERNAL_SERVER_ERROR && text_view(response.error) == Some(
                            bot_error_text(BotError::InvalidIdentifier),
                        )
                    }
                },
            },
    {
        if blank(request.message.as_str()) {
            return Some(
                (
                    STATUS_BAD_REQUEST,
                    SendMessageResponse {
                        success: false,
                        error: Some("Message cannot be empty".to_owned()),
                    },
                ),
            );
        }
        match self.bot.send_message() {
            Ok(_) => None,
            Err(e) => Some(
                (
                    STATUS_INTERNAL_SERVER_ERROR,
                    SendMessageResponse { success: false, error: Some(e.message()) },
                ),
            ),
        }
    }

    /// The answer to a request for the history.
    pub fn history(&self) -> (out: MessageHistoryResponse)
        ensures
            crate::history::lines_view(out.messages@) == self.bot@.history,
    {
        MessageHistoryResponse { messages: self.bot.get_message_history() }
    }
}

} // verus!
