use matrix_web_bot::bot::{
    backfill_request_limit, ConnectCall, ConnectEvent, ConnectPhase, ConnectionState, MatrixBot,
    SessionTokens, FALLBACK_REQUEST_LIMIT, MAX_REQUEST_LIMIT,
};
use matrix_web_bot::credentials::CredentialStore;
use matrix_web_bot::error::BotError;
use matrix_web_bot::handshake::{
    AcceptPhase, CancelPhase, ConfirmPhase, EngineCall, EngineEvent, FlowSighting,
};
use matrix_web_bot::history::{MessageKind, RoomEvent};
use matrix_web_bot::verification::SasObservation;
use tokio::sync::broadcast::error::TryRecvError;

const ROOM: &str = "!room:example.org";

fn bot() -> MatrixBot {
    MatrixBot::new("https://matrix.example.org", "bot", ROOM, 2, "./store").0
}

fn vault_with_password() -> CredentialStore {
    let mut vault = CredentialStore::new("db");
    vault.store_credentials("bot", "secret", "vaultpw");
    vault
}

fn tokens() -> SessionTokens {
    SessionTokens {
        device_id: "DEV".to_string(),
        access_token: "token".to_string(),
        user_id: "@bot:example.org".to_string(),
    }
}

fn text(sender: &str, body: &str) -> RoomEvent {
    RoomEvent {
        room_id: ROOM.to_string(),
        sender: sender.to_string(),
        kind: MessageKind::Text,
        body: body.to_string(),
    }
}

fn is(call: &ConnectCall, expected: &str) -> bool {
    format!("{:?}", call) == expected
}

/// Drives a bot that is building its client to the end of a connect with a
/// fresh login.
fn finish_connect(bot: &mut MatrixBot, vault: &mut CredentialStore) {
    let steps = vec![
        ConnectEvent::Completed,
        ConnectEvent::LoggedIn {
            session: Some(tokens()),
        },
        ConnectEvent::Completed,
        ConnectEvent::CrossSigning {
            complete: Some(true),
        },
        ConnectEvent::Completed,
        ConnectEvent::History {
            newest_first: Vec::new(),
        },
        ConnectEvent::Completed,
    ];
    for event in steps {
        bot.connect_step(event, "secret", "vaultpw", vault);
    }
}

fn connected_bot() -> (MatrixBot, CredentialStore) {
    let mut b = bot();
    let mut vault = vault_with_password();
    b.connect("vaultpw");
    finish_connect(&mut b, &mut vault);
    assert!(b.is_connected());
    (b, vault)
}

#[test]
fn new_bot_is_disconnected_and_empty() {
    let b = bot();
    assert!(!b.is_connected());
    assert_eq!(b.connection(), ConnectionState::Disconnected);
    assert_eq!(b.homeserver(), "https://matrix.example.org");
    assert_eq!(b.username(), "bot");
    assert_eq!(b.room_id(), ROOM);
    assert_eq!(b.store_path(), "./store");
    assert!(b.get_message_history().is_empty());
    assert!(b.get_verification_requests().is_empty());
    assert!(b.get_active_sas().is_none());
}

#[test]
fn first_connect_logs_in_and_stores_the_session() {
    let mut b = bot();
    let mut vault = vault_with_password();

    let call = b.connect("vaultpw");
    assert!(is(
        &call,
        "BuildClient { homeserver: \"https://matrix.example.org\", store_path: \"./store\", \
         passphrase: Some(\"vaultpw\") }"
    ));
    assert_eq!(
        b.connection(),
        ConnectionState::Connecting(ConnectPhase::BuildingClient)
    );

    let call = b.connect_step(ConnectEvent::Completed, "secret", "vaultpw", &mut vault);
    assert!(is(&call, "Login { username: \"bot\", password: \"secret\" }"));

    let call = b.connect_step(
        ConnectEvent::LoggedIn {
            session: Some(tokens()),
        },
        "secret",
        "vaultpw",
        &mut vault,
    );
    assert!(is(&call, "WatchVerifications"));
    assert!(vault.session_exists());
    assert_eq!(
        vault.get_session("vaultpw"),
        Ok((
            "DEV".to_string(),
            "token".to_string(),
            "@bot:example.org".to_string()
        ))
    );

    let call = b.connect_step(ConnectEvent::Completed, "secret", "vaultpw", &mut vault);
    assert!(is(&call, "CheckCrossSigning"));
    let call = b.connect_step(
        ConnectEvent::CrossSigning { complete: None },
        "secret",
        "vaultpw",
        &mut vault,
    );
    assert!(is(&call, "BootstrapCrossSigning"));
    // A bootstrap that fails does not end the connect.
    let call = b.connect_step(ConnectEvent::Failed, "secret", "vaultpw", &mut vault);
    assert!(is(&call, "JoinRoom { room_id: \"!room:example.org\" }"));
    let call = b.connect_step(ConnectEvent::Completed, "secret", "vaultpw", &mut vault);
    assert!(is(
        &call,
        "FetchHistory { room_id: \"!room:example.org\", limit: 2 }"
    ));
    assert!(!b.is_connected());
    let call = b.connect_step(
        ConnectEvent::History {
            newest_first: vec![text("@c:x", "3"), text("@b:x", "2"), text("@a:x", "1")],
        },
        "secret",
        "vaultpw",
        &mut vault,
    );
    assert!(is(&call, "StartSync"));
    assert_eq!(b.get_message_history(), vec!["@b:x: 2", "@c:x: 3"]);
    assert!(!b.is_connected());
    let call = b.connect_step(ConnectEvent::Completed, "secret", "vaultpw", &mut vault);
    assert!(is(&call, "Finish(Ok(()))"));
    assert!(b.is_connected());
}

#[test]
fn connect_of_a_connected_bot_is_a_no_op() {
    let (mut b, _) = connected_bot();
    let call = b.connect("vaultpw");
    assert!(is(&call, "Finish(Ok(()))"));
    assert!(b.is_connected());
}

#[test]
fn empty_passphrase_means_a_plain_store() {
    let mut b = bot();
    let call = b.connect("");
    assert!(is(
        &call,
        "BuildClient { homeserver: \"https://matrix.example.org\", store_path: \"./store\", \
         passphrase: None }"
    ));
}

#[test]
fn stored_session_is_resumed() {
    let mut b = bot();
    let mut vault = vault_with_password();
    assert_eq!(
        vault.store_session("DEV", "token", "@bot:example.org", "vaultpw"),
        Ok(())
    );
    b.connect("vaultpw");
    let call = b.connect_step(ConnectEvent::Completed, "secret", "vaultpw", &mut vault);
    match call {
        ConnectCall::RestoreSession { session } => {
            assert_eq!(session.device_id, "DEV");
            assert_eq!(session.access_token, "token");
            assert_eq!(session.user_id, "@bot:example.org");
        }
        other => panic!("unexpected call {:?}", other),
    }
    let call = b.connect_step(ConnectEvent::Completed, "secret", "vaultpw", &mut vault);
    assert!(is(&call, "WatchVerifications"));
}

#[test]
fn resume_that_fails_falls_back_to_login() {
    let mut b = bot();
    let mut vault = vault_with_password();
    assert_eq!(
        vault.store_session("OLD", "stale", "@bot:example.org", "vaultpw"),
        Ok(())
    );
    b.connect("vaultpw");
    b.connect_step(ConnectEvent::Completed, "secret", "vaultpw", &mut vault);
    let call = b.connect_step(ConnectEvent::Failed, "secret", "vaultpw", &mut vault);
    assert!(is(&call, "Login { username: \"bot\", password: \"secret\" }"));
    b.connect_step(
        ConnectEvent::LoggedIn {
            session: Some(tokens()),
        },
        "secret",
        "vaultpw",
        &mut vault,
    );
    assert_eq!(
        vault.get_session("vaultpw"),
        Ok((
            "DEV".to_string(),
            "token".to_string(),
            "@bot:example.org".to_string()
        ))
    );
}

#[test]
fn session_with_a_malformed_user_id_is_not_resumed() {
    let mut b = bot();
    let mut vault = vault_with_password();
    assert_eq!(vault.store_session("DEV", "token", "nobody", "vaultpw"), Ok(()));
    b.connect("vaultpw");
    let call = b.connect_step(ConnectEvent::Completed, "secret", "vaultpw", &mut vault);
    assert!(is(&call, "Login { username: \"bot\", password: \"secret\" }"));
}

#[test]
fn login_that_fails_is_an_auth_failure() {
    let mut b = bot();
    let mut vault = vault_with_password();
    b.connect("vaultpw");
    b.connect_step(ConnectEvent::Completed, "secret", "vaultpw", &mut vault);
    let call = b.connect_step(ConnectEvent::Failed, "secret", "vaultpw", &mut vault);
    assert!(is(&call, "Finish(Err(AuthFailure))"));
    assert_eq!(b.connection(), ConnectionState::Disconnected);
    assert!(!vault.session_exists());
}

#[test]
fn first_login_that_goes_through_makes_the_record() {
    let mut b = bot();
    let mut vault = CredentialStore::new("db");
    b.connect("vaultpw");
    b.connect_step(ConnectEvent::Completed, "secret", "vaultpw", &mut vault);
    assert!(!vault.credentials_exist());
    let call = b.connect_step(
        ConnectEvent::LoggedIn {
            session: Some(tokens()),
        },
        "secret",
        "vaultpw",
        &mut vault,
    );
    assert!(is(&call, "WatchVerifications"));
    assert_eq!(
        vault.get_credentials("vaultpw"),
        Ok(("bot".to_string(), "secret".to_string()))
    );
    assert_eq!(
        vault.get_session("vaultpw"),
        Ok((
            "DEV".to_string(),
            "token".to_string(),
            "@bot:example.org".to_string()
        ))
    );
}

#[test]
fn first_login_without_a_session_makes_the_record_alone() {
    let mut b = bot();
    let mut vault = CredentialStore::new("db");
    b.connect("vaultpw");
    b.connect_step(ConnectEvent::Completed, "secret", "vaultpw", &mut vault);
    b.connect_step(
        ConnectEvent::LoggedIn { session: None },
        "secret",
        "vaultpw",
        &mut vault,
    );
    assert_eq!(
        vault.get_credentials("vaultpw"),
        Ok(("bot".to_string(), "secret".to_string()))
    );
    assert!(!vault.session_exists());
}

#[test]
fn first_login_that_is_refused_leaves_the_vault_empty() {
    let mut b = bot();
    let mut vault = CredentialStore::new("db");
    b.connect("vaultpw");
    b.connect_step(ConnectEvent::Completed, "mistyped", "vaultpw", &mut vault);
    let call = b.connect_step(ConnectEvent::Failed, "mistyped", "vaultpw", &mut vault);
    assert!(is(&call, "Finish(Err(AuthFailure))"));
    assert!(!vault.credentials_exist());
}

#[test]
fn later_login_keeps_the_stored_password() {
    let mut b = bot();
    let mut vault = vault_with_password();
    b.connect("vaultpw");
    b.connect_step(ConnectEvent::Completed, "other", "vaultpw", &mut vault);
    b.connect_step(
        ConnectEvent::LoggedIn {
            session: Some(tokens()),
        },
        "other",
        "vaultpw",
        &mut vault,
    );
    assert_eq!(
        vault.get_credentials("vaultpw"),
        Ok(("bot".to_string(), "secret".to_string()))
    );
    assert!(vault.session_exists());
}

#[test]
fn client_that_cannot_be_built_ends_the_connect() {
    let mut b = bot();
    let mut vault = vault_with_password();
    b.connect("vaultpw");
    let call = b.connect_step(ConnectEvent::Failed, "secret", "vaultpw", &mut vault);
    assert!(is(&call, "Finish(Err(RemoteRejected))"));
    assert_eq!(b.connection(), ConnectionState::Disconnected);
}

#[test]
fn room_that_cannot_be_joined_ends_the_connect() {
    let mut b = bot();
    let mut vault = vault_with_password();
    b.connect("vaultpw");
    b.connect_step(ConnectEvent::Completed, "secret", "vaultpw", &mut vault);
    b.connect_step(ConnectEvent::LoggedIn { session: None }, "secret", "vaultpw", &mut vault);
    b.connect_step(ConnectEvent::Completed, "secret", "vaultpw", &mut vault);
    let call = b.connect_step(
        ConnectEvent::CrossSigning {
            complete: Some(false),
        },
        "secret",
        "vaultpw",
        &mut vault,
    );
    assert!(is(&call, "BootstrapCrossSigning"));
    let call = b.connect_step(ConnectEvent::Completed, "secret", "vaultpw", &mut vault);
    assert!(is(&call, "JoinRoom { room_id: \"!room:example.org\" }"));
    let call = b.connect_step(ConnectEvent::Failed, "secret", "vaultpw", &mut vault);
    assert!(is(&call, "Finish(Err(RemoteRejected))"));
    assert!(!b.is_connected());
    assert_eq!(b.connection(), ConnectionState::Disconnected);
}

#[test]
fn malformed_room_id_ends_the_connect() {
    let mut b = MatrixBot::new("https://matrix.example.org", "bot", "room", 2, "./store").0;
    let mut vault = vault_with_password();
    b.connect("vaultpw");
    b.connect_step(ConnectEvent::Completed, "secret", "vaultpw", &mut vault);
    b.connect_step(ConnectEvent::LoggedIn { session: None }, "secret", "vaultpw", &mut vault);
    b.connect_step(ConnectEvent::Completed, "secret", "vaultpw", &mut vault);
    let call = b.connect_step(
        ConnectEvent::CrossSigning {
            complete: Some(true),
        },
        "secret",
        "vaultpw",
        &mut vault,
    );
    assert!(is(&call, "Finish(Err(InvalidIdentifier))"));
    assert_eq!(b.connection(), ConnectionState::Disconnected);
}

#[test]
fn history_that_cannot_be_fetched_does_not_end_the_connect() {
    let mut b = bot();
    let mut vault = vault_with_password();
    b.connect("vaultpw");
    b.connect_step(ConnectEvent::Completed, "secret", "vaultpw", &mut vault);
    b.connect_step(ConnectEvent::LoggedIn { session: None }, "secret", "vaultpw", &mut vault);
    b.connect_step(ConnectEvent::Completed, "secret", "vaultpw", &mut vault);
    b.connect_step(ConnectEvent::Failed, "secret", "vaultpw", &mut vault);
    b.connect_step(ConnectEvent::Completed, "secret", "vaultpw", &mut vault);
    let call = b.connect_step(ConnectEvent::Failed, "secret", "vaultpw", &mut vault);
    assert!(is(&call, "StartSync"));
    let call = b.connect_step(ConnectEvent::Completed, "secret", "vaultpw", &mut vault);
    assert!(is(&call, "Finish(Ok(()))"));
    assert!(b.is_connected());
}

#[test]
fn outcome_out_of_turn_ends_the_connect() {
    let mut b = bot();
    let mut vault = vault_with_password();
    let call = b.connect_step(ConnectEvent::Completed, "secret", "vaultpw", &mut vault);
    assert!(is(&call, "Finish(Err(OutOfTurn))"));
    assert_eq!(b.connection(), ConnectionState::Disconnected);
    b.connect("vaultpw");
    let call = b.connect_step(
        ConnectEvent::CrossSigning { complete: None },
        "secret",
        "vaultpw",
        &mut vault,
    );
    assert!(is(&call, "Finish(Err(OutOfTurn))"));
    assert_eq!(b.connection(), ConnectionState::Disconnected);
    let (mut b, mut vault) = connected_bot();
    let call = b.connect_step(ConnectEvent::Completed, "secret", "vaultpw", &mut vault);
    assert!(is(&call, "Finish(Err(OutOfTurn))"));
    assert!(b.is_connected());
}

#[test]
fn request_limit_is_the_history_limit_within_range() {
    assert_eq!(MAX_REQUEST_LIMIT, 9007199254740991);
    assert_eq!(FALLBACK_REQUEST_LIMIT, 50);
    assert_eq!(backfill_request_limit(0), 0);
    assert_eq!(backfill_request_limit(50), 50);
    assert_eq!(
        backfill_request_limit(9007199254740991),
        9007199254740991
    );
    assert_eq!(backfill_request_limit(9007199254740992), 50);
    assert_eq!(backfill_request_limit(usize::MAX), 50);
}

#[test]
fn disconnect_clears_history_and_session() {
    let (mut b, mut vault) = connected_bot();
    b.on_message(&text("@a:x", "hello"));
    assert!(vault.session_exists());
    assert!(b.disconnect(&mut vault));
    assert!(!b.is_connected());
    assert!(b.get_message_history().is_empty());
    assert!(!vault.session_exists());
    assert!(vault.credentials_exist());
    // A second disconnect finds nothing to log out from.
    assert!(!b.disconnect(&mut vault));
}

#[test]
fn disconnect_of_a_bot_that_never_connected_clears_the_session_too() {
    let mut b = bot();
    let mut vault = vault_with_password();
    assert_eq!(
        vault.store_session("DEV", "token", "@bot:example.org", "vaultpw"),
        Ok(())
    );
    assert!(!b.disconnect(&mut vault));
    assert!(!vault.session_exists());
    assert!(vault.credentials_exist());
}

#[test]
fn room_id_is_whatever_starts_with_an_exclamation_mark() {
    for (room, accepted) in [
        ("!room:example.org", true),
        ("!", true),
        ("!no-server", true),
        ("room", false),
        ("", false),
        ("#room:example.org", false),
        (" !room:example.org", false),
    ] {
        let mut b = MatrixBot::new("https://matrix.example.org", "bot", room, 2, "./store").0;
        let mut vault = vault_with_password();
        b.connect("vaultpw");
        finish_connect(&mut b, &mut vault);
        assert_eq!(b.is_connected(), accepted, "{:?}", room);
    }
    let long = format!("!{}:example.org", "r".repeat(300));
    let mut b = MatrixBot::new("https://matrix.example.org", "bot", &long, 2, "./store").0;
    let mut vault = vault_with_password();
    b.connect("vaultpw");
    finish_connect(&mut b, &mut vault);
    assert!(b.is_connected());
    assert_eq!(b.send_message(), Ok(()));
}

#[test]
fn message_is_recorded_and_published() {
    let (mut b, mut first) = MatrixBot::new("https://matrix.example.org", "bot", ROOM, 2, "./s");
    let mut viewer = b.subscribe();
    assert_eq!(
        b.on_message(&text("@a:x", "hello")),
        Some("@a:x: hello".to_string())
    );
    let mut late = b.subscribe();
    assert_eq!(b.get_message_history(), vec!["@a:x: hello"]);
    assert_eq!(first.try_recv(), Ok("@a:x: hello".to_string()));
    assert_eq!(viewer.try_recv(), Ok("@a:x: hello".to_string()));
    assert_eq!(late.try_recv(), Err(TryRecvError::Empty));

    let elsewhere = RoomEvent {
        room_id: "!other:example.org".to_string(),
        sender: "@a:x".to_string(),
        kind: MessageKind::Text,
        body: "psst".to_string(),
    };
    assert_eq!(b.on_message(&elsewhere), None);
    let image = RoomEvent {
        room_id: ROOM.to_string(),
        sender: "@a:x".to_string(),
        kind: MessageKind::Other,
        body: "cat.png".to_string(),
    };
    assert_eq!(b.on_message(&image), None);
    assert_eq!(b.get_message_history().len(), 1);
    assert_eq!(viewer.try_recv(), Err(TryRecvError::Empty));
}

#[test]
fn send_needs_a_connection_and_a_room() {
    let b = bot();
    assert_eq!(b.send_message(), Err(BotError::NotConnected));
    let (b, _) = connected_bot();
    assert_eq!(b.send_message(), Ok(()));
}

#[test]
fn verification_needs_a_connection_and_a_user_id() {
    let b = bot();
    assert_eq!(
        b.accept_verification("@a:example.org").1,
        EngineCall::Finish(Err(BotError::NotConnected))
    );
    assert_eq!(
        b.confirm_verification("@a:example.org").1,
        EngineCall::Finish(Err(BotError::NotConnected))
    );
    assert_eq!(
        b.cancel_verification("@a:example.org").1,
        EngineCall::Finish(Err(BotError::NotConnected))
    );
    let (b, _) = connected_bot();
    assert_eq!(
        b.accept_verification("nobody"),
        (
            AcceptPhase::Finished,
            EngineCall::Finish(Err(BotError::InvalidIdentifier))
        )
    );
    assert_eq!(
        b.confirm_verification("@nobody"),
        (
            ConfirmPhase::Finished,
            EngineCall::Finish(Err(BotError::InvalidIdentifier))
        )
    );
    assert_eq!(
        b.cancel_verification(""),
        (
            CancelPhase::Finished,
            EngineCall::Finish(Err(BotError::InvalidIdentifier))
        )
    );
    assert_eq!(
        b.accept_verification("@a:example.org"),
        (
            AcceptPhase::FindingRequest { attempt: 0 },
            EngineCall::FindRequest { delay_ms: 0 }
        )
    );
}

#[test]
fn verification_through_the_bot() {
    let (mut b, _) = connected_bot();
    b.on_verification_request("r1", "@a:example.org", "DEV1");
    b.on_verification_request("r2", "not a user", "DEV2");
    b.on_verification_request("r3", "@c:example.org", "DEV3");

    let targets = b.reconcile_targets().unwrap();
    assert_eq!(targets.len(), 2);
    assert_eq!(targets[0].request_id, "r1");
    assert_eq!(targets[1].request_id, "r3");

    let seen = vec![(
        "r1".to_string(),
        SasObservation {
            can_be_presented: true,
            is_done: false,
            emoji: None,
            decimals: Some((1000, 2000, 3000)),
        },
    )];
    b.reconcile(&seen);
    let active = b.get_active_sas().unwrap();
    assert_eq!(active.request_id, "r1");
    assert_eq!(active.decimals, Some((1000, 2000, 3000)));
    assert_eq!(active.emoji, None);

    // Accept of a request that nobody knows.
    let (mut phase, mut call) = b.accept_verification("@a:example.org");
    let mut steps = 0;
    while let EngineCall::FindRequest { .. } | EngineCall::FindFlow { .. } = call {
        let event = match call {
            EngineCall::FindRequest { .. } => EngineEvent::RequestLookup { found: false },
            _ => EngineEvent::FlowLookup(FlowSighting::Absent),
        };
        let next = b.accept_verification_step(phase, &event);
        phase = next.0;
        call = next.1;
        steps += 1;
    }
    assert_eq!(call, EngineCall::Finish(Err(BotError::NotFound)));
    assert_eq!(steps, 10);

    // Confirm, with the challenge done afterwards.
    let (phase, _) = b.confirm_verification("@a:example.org");
    let (phase, call) = b.confirm_verification_step(
        phase,
        &EngineEvent::FlowLookup(FlowSighting::Sas {
            can_be_presented: true,
            is_done: false,
        }),
    );
    assert_eq!(call, EngineCall::ConfirmSas);
    let (phase, _) = b.confirm_verification_step(phase, &EngineEvent::CallSucceeded);
    let (_, call) = b.confirm_verification_step(phase, &EngineEvent::Settled { is_done: true });
    assert_eq!(call, EngineCall::Finish(Ok(())));
    assert!(b.get_active_sas().is_none());

    // Cancel of a pending request.
    let (phase, _) = b.cancel_verification("@c:example.org");
    let (phase, _) =
        b.cancel_verification_step(phase, "r3", &EngineEvent::RequestLookup { found: true });
    let (_, call) = b.cancel_verification_step(phase, "r3", &EngineEvent::CallSucceeded);
    assert_eq!(call, EngineCall::Finish(Ok(())));
    let left = b.get_verification_requests();
    assert_eq!(left.len(), 2);
    assert_eq!(left[0].request_id, "r1");
    assert_eq!(left[1].request_id, "r2");
}

#[test]
fn reconciling_ends_without_a_connection() {
    let mut b = bot();
    b.on_verification_request("r1", "@a:example.org", "DEV1");
    assert!(b.reconcile_targets().is_none());
}

#[test]
fn error_messages() {
    assert_eq!(BotError::NotConnected.message(), "Not connected");
    assert_eq!(
        BotError::Unsupported.message(),
        "Unsupported verification type"
    );
}
