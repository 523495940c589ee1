//! Signing in and out, seen from outside.

use fastpotify::actions::Action;
use fastpotify::credentials::{
    playback_account_matches, playback_credentials, AuthenticationType, Credentials, Lease, Loaded,
    Slot, StorageError, StoredGrant, StoredToken,
};
use fastpotify::events::{AuthStatus, Command, Event, LocalPlayback};
use fastpotify::gateway::{AccountId, ApiError, ApiSource, SessionState};
use fastpotify::model::Moment;
use fastpotify::models::{EngineConfig, User};
use fastpotify::responses::ApiResponse;
use fastpotify::worker::Worker;

const DEFAULT_WEB_CLIENT_ID: &str = "default-web-client";

fn worker() -> Worker {
    Worker::new(
        EngineConfig { revision: 0 },
        Some("personal".to_string()),
        vec!["user-library-read".to_string()],
    )
}

fn quiet() -> Moment {
    Moment { now: 0, interrupted: None, personal_grant: Ok(()) }
}

/// Takes the events out of what the worker asked for.
fn events(worker: &mut Worker) -> Vec<Event> {
    let mut events = Vec::new();
    for action in worker.take_actions() {
        if let Action::Emit(event) = action {
            events.push(event);
        }
    }
    events
}

fn run(worker: &mut Worker, commands: Vec<Command>) {
    for command in commands {
        if !worker.step(command, quiet()) {
            return;
        }
    }
}

fn with_password(username: &str, password: &str) -> Credentials {
    Credentials {
        username: Some(username.to_string()),
        auth_type: AuthenticationType::UserPass,
        auth_data: password.as_bytes().to_vec(),
    }
}

fn verify(worker: &mut Worker, source: ApiSource, account: &str) {
    worker.api.set_state(source, SessionState::Authorizing);
    worker.on_web_verified(
        source,
        StoredToken {
            client_id: if source == ApiSource::Personal {
                "personal".to_string()
            } else {
                DEFAULT_WEB_CLIENT_ID.to_string()
            },
            ..StoredToken::default()
        },
        User {
            id: account.to_string(),
            display_name: Some("Listener".to_string()),
            product: Some("premium".to_string()),
            ..User::default()
        },
        Ok(()),
    );
}

fn connected(event: &Event) -> bool {
    matches!(event, Event::Auth(AuthStatus::Connected { .. }))
}

fn playback_failed(event: &Event) -> bool {
    matches!(event, Event::Playback(LocalPlayback::Failed(_)))
}

/// Stored grants, changed only by what the worker asks for.
#[derive(Default)]
struct Shelf {
    shared: Option<StoredToken>,
}

impl Shelf {
    fn carry_out(&mut self, actions: Vec<Action>) -> Vec<Event> {
        let mut events = Vec::new();
        for action in actions {
            match action {
                Action::DeleteGrant { lease } => {
                    if lease.slot == Slot::Shared {
                        self.shared = None;
                    }
                }
                Action::Emit(event) => events.push(event),
                _ => {}
            }
        }
        events
    }
}

#[test]
fn expired_grants_are_forgotten_and_a_new_sign_in_completes_without_restart() {
    let mut worker = worker();
    verify(&mut worker, ApiSource::Shared, "alice");
    let old = worker.credentials.lease(Slot::Shared);
    let mut shelf = Shelf {
        shared: Some(StoredToken {
            client_id: DEFAULT_WEB_CLIENT_ID.to_string(),
            access_token: "dummy-expired-access".to_string(),
            refresh_token: "dummy-rejected-refresh".to_string(),
            ..StoredToken::default()
        }),
    };
    worker.on_web_verification_failed(
        ApiSource::Shared,
        ApiError::SignInExpired { api_source: ApiSource::Shared },
    );
    assert!(!worker.credentials.current(&old));
    assert!(!worker.signed_in);
    let actions = worker.take_actions();
    shelf.carry_out(actions);
    assert!(shelf.shared.is_none());
    verify(&mut worker, ApiSource::Shared, "alice");
    assert!(worker.signed_in);
    assert!(events(&mut worker).iter().any(connected));
}

#[test]
fn old_api_and_verification_errors_cannot_sign_out_a_new_session() {
    let mut worker = worker();
    verify(&mut worker, ApiSource::Shared, "alice");
    let generation: u64 = worker.session;
    let shared = worker.credentials.lease(Slot::Shared);
    let personal = worker.credentials.lease(Slot::Personal);
    worker.sign_out();
    verify(&mut worker, ApiSource::Shared, "bob");
    let _ = worker.take_actions();
    run(
        &mut worker,
        vec![
            Command::ApiFinished {
                generation,
                response: Box::new(ApiResponse::Me(Err(ApiError::SignInExpired {
                    api_source: ApiSource::Shared,
                }))),
                expired: Some(ApiSource::Shared),
                shared_lease: shared,
                personal_lease: personal,
            },
            Command::WebVerificationFailed {
                source: ApiSource::Shared,
                lease: shared,
                attempt: 0,
                error: ApiError::SignInExpired { api_source: ApiSource::Shared },
            },
            Command::Shutdown,
        ],
    );
    assert!(worker.signed_in);
    assert_eq!(worker.api.account(), Some(AccountId::new("bob".to_string())));
    assert!(events(&mut worker).is_empty());
}

#[test]
fn signout_rejects_late_restore_browser_verification_and_engine_results() {
    let mut worker = worker();
    let shared = worker.credentials.lease(Slot::Shared);
    let playback = worker.credentials.lease(Slot::Playback);
    let attempt: u64 = worker.authorization_attempt;
    let token = StoredToken {
        client_id: DEFAULT_WEB_CLIENT_ID.to_string(),
        access_token: "dummy-access".to_string(),
        refresh_token: "dummy-refresh".to_string(),
        ..StoredToken::default()
    };
    run(
        &mut worker,
        vec![
            Command::SignOut,
            Command::CredentialsRestored {
                slot: Slot::Playback,
                lease: playback,
                result: Ok(Loaded {
                    grant: Some(StoredGrant::Playback(with_password(
                        "dummy-account",
                        "dummy-grant",
                    ))),
                    warning: None,
                }),
            },
            Command::WebSignedIn {
                source: ApiSource::Shared,
                token: Box::new(token.clone()),
                lease: shared,
                attempt,
            },
            Command::WebVerified {
                source: ApiSource::Shared,
                token: Box::new(token),
                user: Box::new(User {
                    id: "dummy-account".to_string(),
                    product: Some("premium".to_string()),
                    ..User::default()
                }),
                lease: shared,
                attempt,
            },
            Command::PlaybackAuthorized {
                access_token: "dummy-streaming-token".to_string(),
                lease: playback,
                attempt,
            },
            Command::EngineConnected {
                engine: None,
                error: Some("late engine error".to_string()),
                lease: playback,
            },
            Command::Shutdown,
        ],
    );
    assert!(!worker.signed_in);
    assert!(!worker.engine_busy);
    assert!(worker.playback_grant.is_none());
    assert!(worker.web_tokens.shared.is_none() && worker.web_tokens.personal.is_none());
    assert!(worker.api.account().is_none());
    assert!(events(&mut worker).iter().all(|event| !matches!(
        event,
        Event::Auth(AuthStatus::Connected { .. })
            | Event::Playback(
                LocalPlayback::Connecting
                    | LocalPlayback::Ready { .. }
                    | LocalPlayback::Failed(_)
            )
    )));
}

#[test]
fn restored_playback_requires_the_verified_account() {
    let mut worker = worker();
    verify(&mut worker, ApiSource::Shared, "alice");
    worker.playback_grant = Some(with_password("bob", "dummy-reusable-grant"));
    worker.resume_engine();
    assert!(!worker.engine_busy);
    assert!(!worker.engine);
    assert!(!playback_account_matches(
        worker.playback_grant.as_ref().unwrap(),
        worker.api.account()
    ));
    assert!(events(&mut worker).iter().any(playback_failed));
}

#[test]
fn personal_verification_unblocks_sign_in_while_shared_verification_waits() {
    let mut worker = worker();
    worker.api.set_state(ApiSource::Shared, SessionState::Authorizing);
    verify(&mut worker, ApiSource::Personal, "alice");
    assert!(worker.signed_in);
    assert_eq!(worker.premium, Some(true));
    assert_eq!(worker.api.state(ApiSource::Shared), &SessionState::Authorizing);
    let emitted = events(&mut worker);
    assert!(emitted.iter().any(connected));
    assert!(emitted.iter().any(|event| matches!(event, Event::Api(response) if matches!(response.as_ref(), ApiResponse::Me(Ok(user)) if user.id == "alice"))));
    let credentials =
        playback_credentials(worker.api.account(), "dummy-streaming-token".to_string()).unwrap();
    assert_eq!(credentials.username.as_deref(), Some("alice"));
    assert_eq!(credentials.auth_data, b"dummy-streaming-token");
    assert_eq!(credentials.auth_type, AuthenticationType::SpotifyToken);
    verify(&mut worker, ApiSource::Shared, "alice");
    assert!(worker.signed_in);
    assert_eq!(worker.api.account(), Some(AccountId::new("alice".to_string())));
    assert!(!events(&mut worker).iter().any(connected));
}

#[test]
fn a_mismatched_grant_cannot_replace_the_verified_playback_account() {
    let mut worker = worker();
    verify(&mut worker, ApiSource::Shared, "alice");
    let _ = worker.take_actions();
    verify(&mut worker, ApiSource::Personal, "bob");
    assert_eq!(worker.api.account(), Some(AccountId::new("alice".to_string())));
    assert_eq!(worker.api.state(ApiSource::Personal), &SessionState::Unavailable);
    assert!(events(&mut worker).iter().any(|event| matches!(event, Event::Error(_))));
}

#[test]
fn a_playback_browser_result_after_sign_out_cannot_start_an_engine() {
    let mut worker = worker();
    worker.engine_busy = true;
    worker.on_playback_authorized("dummy-streaming-token".to_string());
    assert!(!worker.engine_busy);
    assert!(!worker.engine);
    assert!(events(&mut worker).iter().any(playback_failed));
    assert!(playback_credentials(Some(AccountId::new(String::new())), "dummy".to_string())
        .is_none());
}

// ---- starting up ------------------------------------------------------------

fn lease_of(action: &Action) -> Option<Lease> {
    match action {
        Action::LoadGrant { lease } => Some(*lease),
        _ => None,
    }
}

fn restored(slot: Slot, lease: Lease, grant: Option<StoredGrant>) -> Command {
    Command::CredentialsRestored { slot, lease, result: Ok(Loaded { grant, warning: None }) }
}

#[test]
fn a_start_reads_every_slot_and_without_grants_ends_signed_out() {
    let mut worker = worker();
    worker.restore_session();
    assert!(worker.api.is_authorizing(ApiSource::Shared));
    assert!(worker.api.is_authorizing(ApiSource::Personal));
    let leases: Vec<Lease> = worker.take_actions().iter().filter_map(lease_of).collect();
    let slots: Vec<Slot> = leases.iter().map(|lease| lease.slot).collect();
    assert_eq!(slots, vec![Slot::Shared, Slot::Personal, Slot::Playback]);
    worker.step(restored(Slot::Playback, leases[2], None), quiet());
    worker.step(restored(Slot::Shared, leases[0], None), quiet());
    assert!(worker.take_actions().is_empty());
    worker.step(restored(Slot::Personal, leases[1], None), quiet());
    let told = events(&mut worker);
    assert_eq!(told.len(), 1);
    assert!(matches!(told[0], Event::Auth(AuthStatus::SignedOut)));
    assert_eq!(worker.api.state(ApiSource::Shared), &SessionState::Unavailable);
    assert_eq!(worker.api.state(ApiSource::Personal), &SessionState::Unavailable);
}

#[test]
fn a_stored_grant_is_verified_only_with_every_permission() {
    let token = |scopes: Vec<String>| StoredToken {
        client_id: DEFAULT_WEB_CLIENT_ID.to_string(),
        scopes,
        ..StoredToken::default()
    };
    let mut worker = worker();
    let lease = worker.credentials.lease(Slot::Shared);
    let lacking = token(vec!["streaming".to_string()]);
    worker.step(restored(Slot::Shared, lease, Some(StoredGrant::Web(lacking))), quiet());
    assert!(worker.web_tokens.shared.is_none());
    let told = events(&mut worker);
    assert!(matches!(&told[0], Event::Error(text) if text == "Spotify permissions changed. Sign in again."));

    let full = token(vec!["streaming".to_string(), "user-library-read".to_string()]);
    worker.step(restored(Slot::Shared, lease, Some(StoredGrant::Web(full))), quiet());
    assert!(worker.web_tokens.shared.is_some());
    assert!(worker.api.is_authorizing(ApiSource::Shared));
    let actions = worker.take_actions();
    assert!(matches!(&actions[0], Action::Emit(Event::Auth(AuthStatus::Connecting))));
    assert!(matches!(
        &actions[1],
        Action::VerifyToken { source: ApiSource::Shared, attempt: 0, .. }
    ));
}

#[test]
fn a_stored_personal_grant_counts_only_for_the_configured_app() {
    let mut worker = worker();
    let lease = worker.credentials.lease(Slot::Personal);
    let foreign = StoredToken {
        client_id: "somebody-else".to_string(),
        scopes: vec!["user-library-read".to_string()],
        ..StoredToken::default()
    };
    worker.step(restored(Slot::Personal, lease, Some(StoredGrant::Web(foreign))), quiet());
    assert!(worker.web_tokens.personal.is_none());
    assert!(!worker.take_actions().iter().any(|action| matches!(action, Action::VerifyToken { .. })));
}

#[test]
fn trouble_with_storage_is_shown() {
    let mut worker = worker();
    let lease = worker.credentials.lease(Slot::Shared);
    worker.step(
        Command::CredentialsRestored {
            slot: Slot::Shared,
            lease,
            result: Err(StorageError::Failed("keyring locked".to_string())),
        },
        quiet(),
    );
    worker.step(
        Command::CredentialsRestored {
            slot: Slot::Shared,
            lease,
            result: Ok(Loaded { grant: None, warning: Some(StorageError::Stale) }),
        },
        quiet(),
    );
    let told: Vec<String> = events(&mut worker)
        .into_iter()
        .filter_map(|event| match event {
            Event::Error(text) => Some(text),
            _ => None,
        })
        .collect();
    assert_eq!(
        told,
        vec![
            "keyring locked".to_string(),
            "The stored sign-in changed in the meantime.".to_string()
        ]
    );
}

// ---- the browser ------------------------------------------------------------

#[test]
fn a_sign_in_completes_from_browser_to_account() {
    let mut worker = worker();
    worker.step(Command::SignIn, quiet());
    assert!(worker.cancel_signin);
    let (lease, attempt) = match worker.take_actions().pop() {
        Some(Action::BeginSignIn { source: ApiSource::Shared, client_id: None, lease, attempt }) => {
            (lease, attempt)
        }
        _ => panic!("no browser flow"),
    };
    assert_eq!(attempt, 1);
    let token = StoredToken { access_token: "fresh".to_string(), ..StoredToken::default() };
    worker.step(
        Command::WebSignedIn {
            source: ApiSource::Shared,
            token: Box::new(token.clone()),
            lease,
            attempt,
        },
        quiet(),
    );
    worker.step(
        Command::WebVerified {
            source: ApiSource::Shared,
            token: Box::new(token),
            user: Box::new(User { id: "alice".to_string(), ..User::default() }),
            lease,
            attempt,
        },
        quiet(),
    );
    assert!(worker.signed_in && !worker.cancel_signin);
    assert_eq!(worker.premium, None);
    let actions = worker.take_actions();
    assert!(matches!(&actions[0], Action::VerifyToken { .. }));
    assert!(matches!(&actions[1], Action::RememberToken { source: ApiSource::Shared, .. }));
    assert!(matches!(
        &actions[2],
        Action::Emit(Event::Auth(AuthStatus::Connected { username })) if username == "alice"
    ));
}

#[test]
fn only_one_browser_flow_is_open_at_a_time() {
    let mut worker = worker();
    worker.step(Command::SignIn, quiet());
    let _ = worker.take_actions();
    worker.step(Command::SignIn, quiet());
    worker.step(Command::AuthorizePlayback, quiet());
    assert!(worker.take_actions().is_empty());
    assert_eq!(worker.authorization_attempt, 1);
}

#[test]
fn a_cancelled_sign_in_is_not_heard_any_more() {
    let mut worker = worker();
    worker.step(Command::SignIn, quiet());
    let lease = worker.credentials.lease(Slot::Shared);
    let _ = worker.take_actions();
    worker.step(Command::CancelSignIn, quiet());
    assert!(matches!(worker.take_actions()[..], [Action::CancelBrowser]));
    assert_eq!(worker.api.state(ApiSource::Shared), &SessionState::Unavailable);
    worker.step(
        Command::WebSignedIn {
            source: ApiSource::Shared,
            token: Box::new(StoredToken::default()),
            lease,
            attempt: 1,
        },
        quiet(),
    );
    assert!(worker.take_actions().is_empty());
    assert!(worker.web_tokens.shared.is_none());
}

#[test]
fn a_personal_app_waits_for_the_open_browser_flow() {
    let mut worker = worker();
    worker.step(Command::SignIn, quiet());
    let _ = worker.take_actions();
    worker.step(Command::ConfigurePersonalWebApp(Some("mine".to_string())), quiet());
    assert_eq!(worker.pending_authorization, Some(ApiSource::Personal));
    let actions = worker.take_actions();
    assert!(matches!(&actions[0], Action::CancelBrowser));
    assert!(matches!(&actions[1], Action::Revoke { slot: Slot::Personal }));
    assert!(matches!(&actions[2], Action::DeleteGrant { lease } if lease.slot == Slot::Personal));
    assert!(matches!(&actions[3], Action::Emit(Event::WebApp { client_id: None })));
    assert_eq!(actions.len(), 4);
    worker.step(Command::SignInEnded { source: ApiSource::Shared, attempt: 1 }, quiet());
    assert_eq!(worker.pending_authorization, None);
    assert_eq!(worker.authorizing_source, Some(ApiSource::Personal));
    assert!(matches!(
        worker.take_actions().pop(),
        Some(Action::BeginSignIn { source: ApiSource::Personal, client_id: Some(id), attempt: 2, .. })
            if id == "mine"
    ));
}

#[test]
fn a_personal_app_that_cannot_be_asked_is_reported() {
    let mut worker = worker();
    let moment = Moment {
        now: 0,
        interrupted: None,
        personal_grant: Err("not a client id".to_string()),
    };
    worker.step(Command::ConfigurePersonalWebApp(Some("???".to_string())), moment);
    assert!(!worker.cancel_signin);
    assert!(events(&mut worker)
        .iter()
        .any(|event| matches!(event, Event::Error(text) if text == "not a client id")));
}

#[test]
fn removing_the_personal_app_opens_no_browser() {
    let mut worker = worker();
    worker.step(Command::ConfigurePersonalWebApp(None), quiet());
    assert_eq!(worker.web_client_id, None);
    assert!(!worker.cancel_signin);
    assert!(!worker.take_actions().iter().any(|action| matches!(action, Action::BeginSignIn { .. })));
}

// ---- rejected grants --------------------------------------------------------

#[test]
fn a_rejected_personal_grant_leaves_the_shared_session_signed_in() {
    let mut worker = worker();
    verify(&mut worker, ApiSource::Shared, "alice");
    worker.api.set_state(ApiSource::Personal, SessionState::Authorizing);
    let _ = worker.take_actions();
    let lease = worker.credentials.lease(Slot::Personal);
    worker.step(
        Command::WebVerificationFailed {
            source: ApiSource::Personal,
            lease,
            attempt: 0,
            error: ApiError::Status { status: 400, message: "invalid_client".to_string() },
        },
        quiet(),
    );
    assert!(worker.signed_in);
    assert!(worker.api.is_ready(ApiSource::Shared));
    let told = events(&mut worker);
    assert_eq!(told.len(), 1);
    assert!(matches!(
        &told[0],
        Event::Error(text) if text == "Personal app authorization failed: invalid_client"
    ));
}

#[test]
fn a_rejected_shared_grant_signs_out() {
    let mut worker = worker();
    verify(&mut worker, ApiSource::Shared, "alice");
    let _ = worker.take_actions();
    worker.on_web_verification_failed(
        ApiSource::Shared,
        ApiError::Unreachable("no route".to_string()),
    );
    assert!(!worker.signed_in);
    let told = events(&mut worker);
    assert!(matches!(
        &told[0],
        Event::Auth(AuthStatus::Failed(text)) if text == "Shared Spotify sign-in failed: no route"
    ));
    assert!(matches!(&told[1], Event::Error(text) if text == "Shared Spotify sign-in failed: no route"));
}

#[test]
fn an_expired_answer_gives_up_only_the_grant_in_use() {
    let expired = |worker: &Worker, shared: Lease| Command::ApiFinished {
        generation: worker.session,
        response: Box::new(ApiResponse::Me(Err(ApiError::SignInExpired {
            api_source: ApiSource::Shared,
        }))),
        expired: Some(ApiSource::Shared),
        shared_lease: shared,
        personal_lease: worker.credentials.lease(Slot::Personal),
    };
    let mut worker = worker();
    verify(&mut worker, ApiSource::Shared, "alice");
    let before = worker.credentials.lease(Slot::Shared);
    worker.credentials.invalidate(Slot::Shared);
    let _ = worker.take_actions();
    let stale = expired(&worker, before);
    worker.step(stale, quiet());
    assert!(worker.signed_in);
    assert!(worker.take_actions().is_empty());

    let current = expired(&worker, worker.credentials.lease(Slot::Shared));
    worker.step(current, quiet());
    assert!(!worker.signed_in);
    assert_eq!(worker.api.state(ApiSource::Shared), &SessionState::Unavailable);
    let told = events(&mut worker);
    assert!(matches!(
        &told[0],
        Event::Auth(AuthStatus::Failed(text))
            if text == "Your Spotify sign-in expired. Please sign in again."
    ));
    assert!(matches!(&told[1], Event::Api(_)));
}

#[test]
fn signing_out_deletes_every_grant_and_forgets_the_session() {
    let mut worker = worker();
    verify(&mut worker, ApiSource::Shared, "alice");
    worker.engine = true;
    worker.cancel_signin = true;
    let _ = worker.take_actions();
    worker.step(Command::SignOut, quiet());
    let actions = worker.take_actions();
    assert_eq!(actions.len(), 8);
    assert!(matches!(&actions[0], Action::RevokeAll));
    assert!(matches!(&actions[1], Action::StopEngine));
    assert!(matches!(&actions[2], Action::CancelBrowser));
    let deleted: Vec<Slot> = actions
        .iter()
        .filter_map(|action| match action {
            Action::DeleteGrant { lease } => Some(lease.slot),
            _ => None,
        })
        .collect();
    assert_eq!(deleted, vec![Slot::Shared, Slot::Personal, Slot::Playback]);
    assert!(matches!(&actions[6], Action::Emit(Event::Playback(LocalPlayback::Unavailable))));
    assert!(matches!(&actions[7], Action::Emit(Event::Auth(AuthStatus::SignedOut))));
    assert_eq!(worker.session, 1);
    assert!(!worker.engine && !worker.cancel_signin);
}

#[test]
fn a_stale_lease_stays_stale() {
    let mut worker = worker();
    let lease = worker.credentials.lease(Slot::Shared);
    worker.step(Command::SignIn, quiet());
    assert!(!worker.credentials.current(&lease));
    run(
        &mut worker,
        vec![Command::CancelSignIn, Command::SignOut, Command::SignIn, Command::SignOut],
    );
    assert!(!worker.credentials.current(&lease));
    assert_eq!(worker.credentials.shared, 5);
}

#[test]
fn adding_a_personal_app_signs_in_to_it() {
    let mut worker = worker();
    verify(&mut worker, ApiSource::Shared, "alice");
    let _ = worker.take_actions();
    worker.step(Command::ConfigurePersonalWebApp(Some("mine".to_string())), quiet());
    let (lease, attempt) = match worker.take_actions().pop() {
        Some(Action::BeginSignIn { source: ApiSource::Personal, lease, attempt, .. }) => {
            (lease, attempt)
        }
        _ => panic!("no browser flow"),
    };
    let token = || StoredToken { client_id: "mine".to_string(), ..StoredToken::default() };
    worker.step(
        Command::WebSignedIn {
            source: ApiSource::Personal,
            token: Box::new(token()),
            lease,
            attempt,
        },
        quiet(),
    );
    worker.step(
        Command::WebVerified {
            source: ApiSource::Personal,
            token: Box::new(token()),
            user: Box::new(User { id: "alice".to_string(), ..User::default() }),
            lease,
            attempt,
        },
        quiet(),
    );
    assert!(worker.api.personal_ready() && worker.api.is_ready(ApiSource::Shared));
    assert!(!worker.cancel_signin);
    assert!(events(&mut worker)
        .iter()
        .any(|event| matches!(event, Event::WebApp { client_id: Some(id) } if id == "mine")));
}

#[test]
fn a_new_sign_in_overtakes_the_old_one() {
    let mut worker = worker();
    worker.step(Command::SignIn, quiet());
    let old = worker.credentials.lease(Slot::Shared);
    worker.step(Command::SignInEnded { source: ApiSource::Shared, attempt: 1 }, quiet());
    worker.step(Command::SignIn, quiet());
    let _ = worker.take_actions();
    worker.step(
        Command::WebVerified {
            source: ApiSource::Shared,
            token: Box::new(StoredToken::default()),
            user: Box::new(User { id: "alice".to_string(), ..User::default() }),
            lease: old,
            attempt: 1,
        },
        quiet(),
    );
    assert!(!worker.signed_in && worker.cancel_signin);
    assert!(worker.take_actions().is_empty());
}
