//! What the work beside the command loop reports.

use fastpotify::credentials::{CredentialStore, Lease, Slot, StorageError, StoredToken};
use fastpotify::events::{AuthStatus, Command, ConnectedEngine, Event, LocalPlayback};
use fastpotify::gateway::{ApiError, ApiGateway, ApiSource, SessionState};
use fastpotify::models::{LocalState, Lyrics, Release, Rootlist, User};
use fastpotify::tasks::{
    browser_opened, connection_finished, connection_refused, engine_notify, lyrics_asked,
    lyrics_begin, lyrics_cached, lyrics_fallen_back, lyrics_kept, lyrics_told, order_refused,
    playback_authorization_finished, receiver_answered, receiver_begun, receiver_handed,
    rootlist_read, rootlist_told, sign_in_finished, storage_notice, update_checked, update_told,
    Activation, Connection, EngineEvent, LyricsStep, NameLookup, ReceiverStep, Verdict,
    Verification,
};

/// A store, a lease that holds and one that does not.
fn leases(slot: Slot) -> (CredentialStore, Lease, Lease) {
    let mut store = CredentialStore::new();
    let stale = store.lease(slot);
    store.invalidate(slot);
    let current = store.lease(slot);
    (store, current, stale)
}

#[test]
fn a_storage_failure_is_shown_while_it_matters() {
    let (store, current, stale) = leases(Slot::Shared);
    let failed = || StorageError::Failed("disk full".to_string());
    assert!(matches!(
        storage_notice(&store, &current, failed()),
        Some(Event::Error(text)) if text == "disk full"
    ));
    assert!(storage_notice(&store, &stale, failed()).is_none());
    assert!(storage_notice(&store, &current, StorageError::Stale).is_none());
}

#[test]
fn only_the_shared_sign_in_shows_its_address() {
    assert!(matches!(
        browser_opened(ApiSource::Shared, "https://accounts".to_string()),
        Some(Event::Auth(AuthStatus::WaitingForBrowser { url })) if url == "https://accounts"
    ));
    assert!(browser_opened(ApiSource::Personal, "https://accounts".to_string()).is_none());
}

#[test]
fn a_browser_flow_hands_its_grant_on() {
    let (store, current, _) = leases(Slot::Shared);
    let token = StoredToken { access_token: "fresh".to_string(), ..StoredToken::default() };
    let outcome = sign_in_finished(&store, ApiSource::Shared, current, 4, Ok(token));
    assert!(outcome.events.is_empty());
    match outcome.command {
        Some(Command::WebSignedIn { source, token, lease, attempt }) => {
            assert_eq!((source, lease, attempt), (ApiSource::Shared, current, 4));
            assert_eq!(token.access_token, "fresh");
        }
        _ => panic!("no grant"),
    }
}

#[test]
fn a_failed_browser_flow_is_explained() {
    let (store, current, stale) = leases(Slot::Shared);
    let failed = |source: ApiSource, lease: Lease, message: &str| {
        let outcome = sign_in_finished(&store, source, lease, 4, Err(message.to_string()));
        assert!(matches!(outcome.command, Some(Command::SignInEnded { attempt: 4, .. })));
        outcome.events
    };
    let shared = failed(ApiSource::Shared, current, "port in use");
    assert_eq!(shared.len(), 2);
    assert!(matches!(&shared[0], Event::Auth(AuthStatus::SignedOut)));
    assert!(matches!(&shared[1], Event::Error(text) if text == "Sign-in failed: port in use"));
    let personal = failed(ApiSource::Personal, current, "port in use");
    assert_eq!(personal.len(), 1);
    let cancelled = failed(ApiSource::Shared, current, "sign-in was cancelled");
    assert_eq!(cancelled.len(), 1);
    assert!(matches!(&cancelled[0], Event::Auth(AuthStatus::SignedOut)));
    assert!(failed(ApiSource::Shared, stale, "port in use").is_empty());
}

#[test]
fn a_failed_playback_flow_is_explained() {
    let (store, current, stale) = leases(Slot::Playback);
    let failed = |lease: Lease, message: &str| {
        let outcome = playback_authorization_finished(&store, lease, 2, Err(message.to_string()));
        assert!(matches!(outcome.command, Some(Command::PlaybackAuthEnded { attempt: 2 })));
        outcome.events
    };
    assert!(matches!(
        &failed(current, "refused")[..],
        [Event::Playback(LocalPlayback::Failed(text))] if text == "refused"
    ));
    assert!(matches!(
        &failed(current, "cancelled by the listener")[..],
        [Event::Playback(LocalPlayback::Unavailable)]
    ));
    assert!(failed(stale, "refused").is_empty());
    let done = playback_authorization_finished(&store, current, 2, Ok("tok".to_string()));
    assert!(matches!(
        done.command,
        Some(Command::PlaybackAuthorized { access_token, .. }) if access_token == "tok"
    ));
}

// ---- verification -----------------------------------------------------------

fn begin(lease: Lease) -> Verification {
    Verification::begin(ApiSource::Shared, StoredToken::default(), lease, 1)
}

#[test]
fn a_verification_waits_longer_each_time_up_to_a_minute() {
    let (store, current, _) = leases(Slot::Shared);
    let mut verification = begin(current);
    let mut waits: Vec<u64> = Vec::new();
    for _ in 0..8 {
        let down = Err(ApiError::Status { status: 503, message: "busy".to_string() });
        match verification.answered(&store, down) {
            Verdict::Retry { wait_s, next } => {
                waits.push(wait_s);
                verification = next;
            }
            Verdict::Report(_) => panic!("gave up"),
        }
    }
    assert_eq!(waits, vec![2, 4, 8, 16, 32, 60, 60, 60]);
}

#[test]
fn a_verification_ends_with_a_definite_answer() {
    let (store, current, stale) = leases(Slot::Shared);
    let user = User { id: "alice".to_string(), ..User::default() };
    assert!(matches!(
        begin(current).answered(&store, Ok(user)),
        Verdict::Report(Command::WebVerified { user, attempt: 1, .. }) if user.id == "alice"
    ));
    let refused = || Err(ApiError::Status { status: 499, message: "no".to_string() });
    assert!(matches!(
        begin(current).answered(&store, refused()),
        Verdict::Report(Command::WebVerificationFailed {
            error: ApiError::Status { status: 499, .. },
            ..
        })
    ));
    let expired = Err(ApiError::SignInExpired { api_source: ApiSource::Shared });
    assert!(matches!(
        begin(current).answered(&store, expired),
        Verdict::Report(Command::WebVerificationFailed { error: ApiError::SignInExpired { .. }, .. })
    ));
    assert!(matches!(
        begin(stale).answered(&store, refused()),
        Verdict::Report(Command::SignInEnded { source: ApiSource::Shared, attempt: 1 })
    ));
    let border = Err(ApiError::Status { status: 500, message: "oops".to_string() });
    assert!(matches!(begin(current).answered(&store, border), Verdict::Retry { .. }));
    let silent = Err(ApiError::Unreachable("timeout".to_string()));
    assert!(matches!(begin(current).answered(&store, silent), Verdict::Retry { .. }));
}

#[test]
fn a_verification_that_nobody_waits_for_ends() {
    let (store, current, stale) = leases(Slot::Shared);
    assert!(begin(current).overtaken(&store).is_none());
    assert!(matches!(
        begin(stale).overtaken(&store),
        Some(Command::SignInEnded { source: ApiSource::Shared, attempt: 1 })
    ));
    let mut api = ApiGateway::new();
    assert!(begin(current).waited(&api).is_some());
    api.set_state(ApiSource::Shared, SessionState::Authorizing);
    assert!(begin(current).waited(&api).is_none());
}

// ---- the engine -------------------------------------------------------------

fn failure(connection: Connection) -> Option<String> {
    let (_, current, _) = leases(Slot::Playback);
    match connection_finished(current, connection) {
        Command::EngineConnected { engine, error, lease } => {
            assert_eq!(lease, current);
            assert_eq!(engine.is_some(), error.is_none());
            error
        }
        _ => panic!("another command"),
    }
}

#[test]
fn a_connection_reports_its_engine_or_a_plain_reason() {
    let engine = ConnectedEngine { device_id: "device".to_string(), credentials: None };
    assert_eq!(failure(Connection::Connected(engine)), None);
    assert_eq!(
        failure(Connection::NoCache("no space".to_string())),
        Some("no space".to_string())
    );
    assert_eq!(
        failure(Connection::TimedOut),
        Some("Connecting to Spotify timed out".to_string())
    );
    let refused = anyhow::Error::msg("BadCredentials").context("login failed");
    assert_eq!(
        failure(Connection::Refused(refused)),
        Some("Spotify rejected the saved sign-in. Please sign in again.".to_string())
    );
}

#[test]
fn a_refused_connection_is_put_plainly() {
    let (_, current, _) = leases(Slot::Playback);
    assert!(matches!(
        connection_refused(current, "DNS is down".to_string()),
        Command::EngineConnected { engine: None, error: Some(text), .. }
            if text == "Couldn't reach Spotify: DNS is down"
    ));
}

#[test]
fn an_engine_is_heard_while_its_session_lasts() {
    let (store, current, stale) = leases(Slot::Playback);
    let state = || EngineEvent::State(LocalState { position_ms: 5, ..LocalState::default() });
    let heard = engine_notify(&store, &current, state());
    assert!(matches!(&heard.events[..], [Event::Local(state)] if state.position_ms == 5));
    assert!(heard.command.is_none());
    let ended = engine_notify(&store, &current, EngineEvent::SessionEnded);
    assert!(ended.events.is_empty());
    assert!(matches!(ended.command, Some(Command::Reconnect)));
    let late = engine_notify(&store, &stale, state());
    assert!(late.events.is_empty() && late.command.is_none());
    let late = engine_notify(&store, &stale, EngineEvent::SessionEnded);
    assert!(late.events.is_empty() && late.command.is_none());
}

#[test]
fn a_refused_order_is_shown() {
    assert!(matches!(
        order_refused("channel closed"),
        Event::Error(text) if text == "Playback error: channel closed"
    ));
}

fn reason(step: ReceiverStep<u8>) -> String {
    match step {
        ReceiverStep::Over(Event::ReceiverActivated { name, result: Err(reason) }) => {
            assert_eq!(name, "Kitchen");
            reason
        }
        _ => panic!("it goes on"),
    }
}

#[test]
fn a_receiver_is_asked_only_with_a_grant_and_a_sign_in() {
    let (store, current, stale) = leases(Slot::Playback);
    let name = || "Kitchen".to_string();
    assert_eq!(
        reason(receiver_begun(&store, current, name(), None)),
        "Enable playback on this computer first, so there is an account to hand over"
    );
    let changed = "Sign-in changed before receiver activation.";
    assert_eq!(reason(receiver_begun(&store, stale, name(), Some(7))), changed);
    assert_eq!(reason(receiver_begun(&store, stale, name(), None)), changed);
    assert!(matches!(
        receiver_begun(&store, current, name(), Some(7)),
        ReceiverStep::Ask(Activation { grant: 7, .. })
    ));
}

#[test]
fn a_receiver_is_given_the_grant_only_while_the_sign_in_lasts() {
    let (store, current, stale) = leases(Slot::Playback);
    let asked = |lease: Lease| Activation { name: "Kitchen".to_string(), lease, grant: 7u8 };
    assert_eq!(
        reason(receiver_answered(asked(current), &store, Err("no answer".to_string()))),
        "no answer"
    );
    assert_eq!(
        reason(receiver_answered(asked(stale), &store, Err("no answer".to_string()))),
        "no answer"
    );
    assert_eq!(
        reason(receiver_answered(asked(stale), &store, Ok(()))),
        "Sign-in changed before receiver activation."
    );
    let activation = match receiver_answered(asked(current), &store, Ok(())) {
        ReceiverStep::HandOver(activation) => activation,
        _ => panic!("nothing is handed over"),
    };
    assert_eq!(activation.grant, 7);
    assert!(matches!(
        receiver_handed(activation, Ok(())),
        Event::ReceiverActivated { name, result: Ok(()) } if name == "Kitchen"
    ));
}

#[test]
fn every_user_is_told_of_in_order() {
    let ids = vec!["a".to_string(), "b".to_string(), "a".to_string()];
    let mut lookup = NameLookup::begin(ids);
    let mut told = Vec::new();
    while let Some(id) = lookup.next() {
        let name = if id == "b" { None } else { Some(format!("Name of {id}")) };
        match lookup.answered(name) {
            Some(Event::UserName { id, name }) => told.push((id, name)),
            _ => panic!("another event"),
        }
    }
    assert!(lookup.answered(None).is_none());
    let first = ("a".to_string(), Some("Name of a".to_string()));
    assert_eq!(told, vec![first.clone(), ("b".to_string(), None), first]);
}

// ---- lookups ----------------------------------------------------------------

fn chain() -> anyhow::Error {
    anyhow::Error::msg("socket closed").context("asking GitHub")
}

#[test]
fn a_failed_lookup_shows_every_cause() {
    assert!(matches!(
        update_checked(true, Err(chain())),
        Event::UpdateChecked { manual: true, result: Err(text) } if text == "asking GitHub: socket closed"
    ));
    assert!(matches!(
        rootlist_read(Err(chain())),
        Event::Rootlist { result: Err(text) } if text == "asking GitHub: socket closed"
    ));
    assert!(matches!(
        lyrics_fallen_back("uri".to_string(), Err(chain())),
        Event::Lyrics { uri, result: Err(text) }
            if uri == "uri" && text == "asking GitHub: socket closed"
    ));
}

#[test]
fn a_lookup_hands_its_find_on() {
    let release = Release {
        version: "1.2.3".to_string(),
        url: "https://release".to_string(),
        ..Release::default()
    };
    assert!(matches!(
        update_checked(false, Ok(Some(release))),
        Event::UpdateChecked { manual: false, result: Ok(Some(found)) } if found.version == "1.2.3"
    ));
    let tree = Rootlist { entries: vec!["a".to_string()], ..Rootlist::default() };
    assert!(matches!(
        rootlist_read(Ok(tree)),
        Event::Rootlist { result: Ok(found) } if found.entries.len() == 1
    ));
    let why = || "gone".to_string();
    assert!(matches!(
        update_told(true, Err(why())),
        Event::UpdateChecked { manual: true, result: Err(text) } if text == "gone"
    ));
    assert!(matches!(
        rootlist_told(Err(why())),
        Event::Rootlist { result: Err(text) } if text == "gone"
    ));
    assert!(matches!(
        lyrics_told("uri".to_string(), Ok(None)),
        Event::Lyrics { uri, result: Ok(None) } if uri == "uri"
    ));
}

#[test]
fn lyrics_come_from_spotify_first() {
    let words = || Lyrics {
        lines: vec!["oh we were born".to_string()],
        synced: true,
        ..Lyrics::default()
    };
    let file_name = match lyrics_begin("spotify:track:4XsH9zBWPOCdXoH9ZDdS8r") {
        LyricsStep::ReadCache { file_name } => file_name,
        _ => panic!("no file"),
    };
    assert_eq!(file_name, "spotify-4XsH9zBWPOCdXoH9ZDdS8r.json");
    assert!(matches!(lyrics_begin("spotify:episode:1"), LyricsStep::FallBack));
    assert!(matches!(lyrics_begin("spotify:trac"), LyricsStep::FallBack));

    let file = || file_name.clone();
    assert!(matches!(lyrics_cached(file(), Some(Some(words())), false), LyricsStep::Found(_)));
    assert!(matches!(lyrics_cached(file(), Some(None), true), LyricsStep::FallBack));
    assert!(matches!(lyrics_cached(file(), None, false), LyricsStep::FallBack));
    assert!(matches!(lyrics_cached(file(), None, true), LyricsStep::AskEngine { .. }));

    assert!(matches!(
        lyrics_asked(file(), Ok(None)),
        LyricsStep::Keep { found: None, .. }
    ));
    assert!(matches!(lyrics_asked(file(), Err(chain())), LyricsStep::FallBack));
    assert!(matches!(lyrics_kept(Some(words())), LyricsStep::Found(found) if found == words()));
    assert!(matches!(lyrics_kept(None), LyricsStep::FallBack));
}
