//! Playback on this computer: when an engine comes up, goes down and comes
//! back.

use fastpotify::actions::Action;
use fastpotify::credentials::{AuthenticationType, Credentials, Lease, Loaded, Slot, StoredGrant};
use fastpotify::events::{Command, ConnectedEngine, Event, LocalPlayback};
use fastpotify::gateway::{AccountId, ApiSource, SessionState};
use fastpotify::model::Moment;
use fastpotify::models::{
    EngineConfig, Interrupted, LikedSongs, LoadSpec, PlayerCommand, Receiver, User,
};
use fastpotify::responses::ApiResponse;
use fastpotify::worker::Worker;

const MINUTE: u64 = 60_000_000_000;

fn moment(now: u64) -> Moment {
    Moment { now, interrupted: None, personal_grant: Ok(()) }
}

fn playing(now: u64) -> Moment {
    Moment {
        now,
        interrupted: Some(Interrupted {
            uri: "spotify:track:disco2000".to_string(),
            position_ms: 61_000,
            playing: true,
        }),
        personal_grant: Ok(()),
    }
}

fn grant(username: &str) -> Credentials {
    Credentials {
        username: Some(username.to_string()),
        auth_type: AuthenticationType::StoredCredentials,
        auth_data: vec![1, 2, 3],
    }
}

/// A worker that "alice" is signed in to.
fn signed_in() -> Worker {
    let mut worker = Worker::new(EngineConfig { revision: 3 }, None, Vec::new());
    worker.api.set_state(
        ApiSource::Shared,
        SessionState::Ready { account: AccountId::new("alice".to_string()) },
    );
    worker.signed_in = true;
    worker
}

fn engine(credentials: Option<Credentials>) -> Option<ConnectedEngine> {
    Some(ConnectedEngine { device_id: "device".to_string(), credentials })
}

fn playback(worker: &Worker) -> Lease {
    worker.credentials.lease(Slot::Playback)
}

fn shown(actions: &[Action]) -> Vec<LocalPlayback> {
    actions
        .iter()
        .filter_map(|action| match action {
            Action::Emit(Event::Playback(state)) => Some(state.clone()),
            _ => None,
        })
        .collect()
}

fn connects(actions: &[Action]) -> usize {
    actions.iter().filter(|action| matches!(action, Action::ConnectEngine { .. })).count()
}

#[test]
fn a_streaming_token_connects_an_engine_for_the_account() {
    let mut worker = signed_in();
    worker.step(Command::AuthorizePlayback, moment(0));
    let (lease, attempt) = match worker.take_actions().pop() {
        Some(Action::BeginPlaybackAuthorization { lease, attempt }) => (lease, attempt),
        _ => panic!("no browser flow"),
    };
    assert!(worker.cancel_signin && worker.engine_busy);
    worker.step(
        Command::PlaybackAuthorized { access_token: "tok".to_string(), lease, attempt },
        moment(0),
    );
    assert!(worker.engine_busy && !worker.cancel_signin);
    let actions = worker.take_actions();
    assert_eq!(shown(&actions), vec![LocalPlayback::Connecting]);
    match &actions[1] {
        Action::ConnectEngine { credentials, config, lease: under } => {
            assert_eq!(credentials.username.as_deref(), Some("alice"));
            assert_eq!(credentials.auth_type, AuthenticationType::SpotifyToken);
            assert_eq!(credentials.auth_data, b"tok");
            assert_eq!(config.revision, 3);
            assert_eq!(*under, lease);
        }
        _ => panic!("no connection"),
    }
}

#[test]
fn a_second_connection_does_not_pile_up() {
    let mut worker = signed_in();
    worker.connect_engine(grant("alice"));
    let _ = worker.take_actions();
    worker.connect_engine(grant("alice"));
    worker.step(Command::AuthorizePlayback, moment(0));
    assert!(worker.take_actions().is_empty());
}

#[test]
fn a_playback_grant_in_flight_keeps_the_engine_busy() {
    let mut worker = signed_in();
    worker.playback_grant = Some(grant("alice"));
    worker.step(Command::AuthorizePlayback, moment(0));
    let _ = worker.take_actions();
    worker.on_account_checked(Some(true));
    worker.step(Command::Reconnect, moment(0));
    assert!(worker.engine_busy && worker.cancel_signin);
    assert!(worker.take_actions().is_empty());
    worker.step(Command::PlaybackAuthEnded { attempt: 0 }, moment(0));
    assert!(worker.engine_busy);
    worker.step(Command::PlaybackAuthEnded { attempt: 1 }, moment(0));
    assert!(worker.engine_busy && !worker.cancel_signin);
    assert_eq!(connects(&worker.take_actions()), 1);
}

#[test]
fn what_a_playback_grant_held_back_is_made_up_for() {
    for ending in [Command::PlaybackAuthEnded { attempt: 1 }, Command::CancelSignIn] {
        let mut worker = signed_in();
        worker.playback_grant = Some(grant("alice"));
        worker.engine = true;
        worker.step(Command::AuthorizePlayback, moment(0));
        worker.step(Command::RestartEngine(EngineConfig { revision: 9 }), playing(0));
        assert!(!worker.engine && worker.resume.is_some());
        assert_eq!(connects(&worker.take_actions()), 0);
        worker.step(ending, moment(0));
        assert!(worker.take_actions().iter().any(|action| matches!(
            action,
            Action::ConnectEngine { config, .. } if config.revision == 9
        )));
        let lease = playback(&worker);
        worker.step(
            Command::EngineConnected { engine: engine(None), error: None, lease },
            moment(0),
        );
        worker.step(Command::VerifyResume, moment(0));
        assert!(worker.take_actions().iter().any(|action| matches!(
            action,
            Action::LoadAgain(load) if load.position_ms == 61_000
        )));
    }
}

#[test]
fn a_playback_grant_that_ends_leaves_the_engine_free() {
    let mut worker = signed_in();
    worker.step(Command::AuthorizePlayback, moment(0));
    worker.step(Command::PlaybackAuthEnded { attempt: 1 }, moment(0));
    assert!(!worker.engine_busy && !worker.cancel_signin);
    assert_eq!(connects(&worker.take_actions()), 0);
}

#[test]
fn giving_up_on_a_playback_grant_frees_the_engine() {
    let mut worker = signed_in();
    worker.step(Command::AuthorizePlayback, moment(0));
    let lease = playback(&worker);
    worker.step(Command::CancelSignIn, moment(0));
    assert!(!worker.engine_busy && !worker.cancel_signin);
    worker.step(Command::AuthorizePlayback, moment(0));
    assert!(worker.engine_busy);
    worker.step(Command::PlaybackAuthEnded { attempt: 1 }, moment(0));
    let late = "late".to_string();
    worker.step(Command::PlaybackAuthorized { access_token: late, lease, attempt: 1 }, moment(0));
    assert!(worker.engine_busy && worker.cancel_signin);
    assert_eq!(connects(&worker.take_actions()), 0);
}

#[test]
fn a_connection_that_ends_with_nobody_signed_in_frees_the_engine() {
    let mut worker = signed_in();
    worker.playback_grant = Some(grant("alice"));
    worker.resume_engine();
    worker.signed_in = false;
    let lease = playback(&worker);
    let _ = worker.take_actions();
    worker.step(
        Command::EngineConnected { engine: engine(Some(grant("alice"))), error: None, lease },
        moment(0),
    );
    assert!(!worker.engine && !worker.engine_busy);
    assert!(matches!(worker.take_actions()[..], [Action::DiscardEngine]));
    worker.signed_in = true;
    worker.on_account_checked(Some(true));
    assert_eq!(connects(&worker.take_actions()), 1);
}

#[test]
fn every_kind_of_grant_is_held_against_the_account() {
    for auth_type in [
        AuthenticationType::UserPass,
        AuthenticationType::StoredCredentials,
        AuthenticationType::StoredFacebookCredentials,
        AuthenticationType::SpotifyToken,
        AuthenticationType::FacebookToken,
    ] {
        let mut worker = signed_in();
        let lease = playback(&worker);
        let foreign = Credentials { auth_type, ..grant("bob") };
        worker.step(
            Command::EngineConnected { engine: engine(Some(foreign)), error: None, lease },
            moment(0),
        );
        assert!(!worker.engine && worker.playback_grant.is_none());
    }
}

#[test]
fn a_connected_engine_is_kept_and_its_grant_stored() {
    let mut worker = signed_in();
    worker.engine_busy = true;
    let lease = playback(&worker);
    worker.step(
        Command::EngineConnected { engine: engine(Some(grant("alice"))), error: None, lease },
        moment(0),
    );
    assert!(worker.engine && !worker.engine_busy);
    assert_eq!(worker.playback_grant, Some(grant("alice")));
    let actions = worker.take_actions();
    assert!(matches!(&actions[0], Action::SaveGrant { grant: saved, .. } if *saved == grant("alice")));
    assert!(matches!(&actions[1], Action::KeepEngine));
    assert_eq!(shown(&actions), vec![LocalPlayback::Ready { device_id: "device".to_string() }]);
}

#[test]
fn an_engine_of_another_account_is_discarded() {
    let mut worker = signed_in();
    let lease = playback(&worker);
    worker.step(
        Command::EngineConnected { engine: engine(Some(grant("bob"))), error: None, lease },
        moment(0),
    );
    assert!(!worker.engine);
    assert!(worker.playback_grant.is_none());
    let actions = worker.take_actions();
    assert!(matches!(&actions[0], Action::DiscardEngine));
    assert_eq!(
        shown(&actions),
        vec![LocalPlayback::Failed(
            "Playback was authorized for another Spotify account. Enable playback again with the signed-in account."
                .to_string()
        )]
    );
}

#[test]
fn an_engine_that_comes_up_after_a_sign_out_is_discarded() {
    let mut worker = signed_in();
    let lease = playback(&worker);
    worker.step(Command::SignOut, moment(0));
    let _ = worker.take_actions();
    worker.step(
        Command::EngineConnected { engine: engine(Some(grant("alice"))), error: None, lease },
        moment(0),
    );
    assert!(matches!(worker.take_actions()[..], [Action::DiscardEngine]));
    assert!(!worker.engine);
}

#[test]
fn a_failed_connection_says_why() {
    let mut worker = signed_in();
    worker.resume = Some(LoadSpec::default());
    worker.on_engine_connected(None, Some("no network".to_string()));
    worker.on_engine_connected(None, None);
    assert!(worker.resume.is_none());
    assert_eq!(
        shown(&worker.take_actions()),
        vec![
            LocalPlayback::Failed("no network".to_string()),
            LocalPlayback::Failed("Local playback is unavailable".to_string())
        ]
    );
}

#[test]
fn without_premium_no_engine_runs() {
    let mut worker = signed_in();
    worker.engine = true;
    worker.playback_grant = Some(grant("alice"));
    worker.on_account_checked(Some(false));
    assert!(!worker.engine);
    let needed = || LocalPlayback::Failed("Local playback needs Spotify Premium.".to_string());
    let actions = worker.take_actions();
    assert!(matches!(&actions[0], Action::StopEngine));
    assert_eq!(shown(&actions), vec![needed()]);
    worker.connect_engine(grant("alice"));
    worker.authorize_playback();
    let actions = worker.take_actions();
    assert_eq!(shown(&actions), vec![needed(), needed()]);
    assert_eq!(connects(&actions), 0);
    worker.resume_engine();
    assert!(worker.take_actions().is_empty());
}

#[test]
fn the_plan_in_an_answer_is_acted_on_for_the_signed_in_account_only() {
    let me = |worker: &Worker, id: &str, product: &str| Command::ApiFinished {
        generation: worker.session,
        response: Box::new(ApiResponse::Me(Ok(User {
            id: id.to_string(),
            product: Some(product.to_string()),
            ..User::default()
        }))),
        expired: None,
        shared_lease: worker.credentials.lease(Slot::Shared),
        personal_lease: worker.credentials.lease(Slot::Personal),
    };
    let mut worker = signed_in();
    let other = me(&worker, "bob", "free");
    worker.step(other, moment(0));
    assert_eq!(worker.premium, None);
    let own = me(&worker, "alice", "free");
    worker.step(own, moment(0));
    assert_eq!(worker.premium, Some(false));
    let own = me(&worker, "alice", "premium");
    worker.step(own, moment(0));
    assert_eq!(worker.premium, Some(true));
}

#[test]
fn a_stored_grant_brings_the_engine_up_once_the_account_is_verified() {
    let mut worker = signed_in();
    let lease = playback(&worker);
    worker.step(
        Command::CredentialsRestored {
            slot: Slot::Playback,
            lease,
            result: Ok(Loaded {
                grant: Some(StoredGrant::Playback(grant("alice"))),
                warning: None,
            }),
        },
        moment(0),
    );
    assert!(worker.engine_busy);
    assert_eq!(connects(&worker.take_actions()), 1);
}

#[test]
fn a_dropped_session_comes_back_where_it_was() {
    let mut worker = signed_in();
    worker.playback_grant = Some(grant("alice"));
    worker.engine = true;
    worker.step(Command::Reconnect, playing(0));
    assert!(!worker.engine && worker.engine_busy);
    let spot = LoadSpec {
        context_uri: None,
        uris: vec!["spotify:track:disco2000".to_string()],
        position_ms: 61_000,
        play: true,
        ..LoadSpec::default()
    };
    assert_eq!(worker.resume, Some(spot.clone()));
    let actions = worker.take_actions();
    assert!(matches!(&actions[0], Action::StopEngine));
    assert_eq!(connects(&actions), 1);
    let lease = playback(&worker);
    worker.step(Command::EngineConnected { engine: engine(None), error: None, lease }, moment(0));
    assert!(worker.take_actions()
        .iter()
        .any(|action| matches!(action, Action::CheckResumeIn { delay_ms: 1_500 })));
    for _ in 0..3 {
        worker.step(Command::VerifyResume, moment(0));
        let actions = worker.take_actions();
        assert!(matches!(&actions[0], Action::LoadAgain(load) if *load == spot));
        assert!(matches!(&actions[1], Action::CheckResumeIn { delay_ms: 4_000 }));
    }
    worker.step(Command::VerifyResume, moment(0));
    assert!(worker.take_actions().is_empty());
    assert!(worker.resume_verify.is_none());
}

#[test]
fn a_pickup_ends_once_something_plays() {
    let mut worker = signed_in();
    worker.engine = true;
    worker.resume_verify = Some((LoadSpec::default(), 1));
    worker.step(Command::VerifyResume, playing(0));
    assert!(worker.resume_verify.is_none());
    assert!(worker.take_actions().is_empty());
}

#[test]
fn six_reconnects_in_ten_minutes_are_enough() {
    let mut worker = signed_in();
    for at in 0..6u64 {
        worker.step(Command::Reconnect, moment(at * MINUTE));
    }
    assert_eq!(worker.reconnects.len(), 6);
    assert!(worker.take_actions().is_empty());
    worker.step(Command::Reconnect, moment(9 * MINUTE));
    assert_eq!(
        shown(&worker.take_actions()),
        vec![LocalPlayback::Failed(
            "Local playback keeps dropping. Re-enable it from Settings.".to_string()
        )]
    );
    worker.step(Command::Reconnect, moment(10 * MINUTE));
    assert_eq!(worker.reconnects, vec![
        MINUTE,
        2 * MINUTE,
        3 * MINUTE,
        4 * MINUTE,
        5 * MINUTE,
        10 * MINUTE
    ]);
    assert!(worker.take_actions().is_empty());
}

#[test]
fn a_restart_takes_the_new_settings() {
    let mut worker = signed_in();
    worker.playback_grant = Some(grant("alice"));
    worker.step(Command::RestartEngine(EngineConfig { revision: 9 }), moment(0));
    assert!(worker.take_actions().iter().any(|action| matches!(
        action,
        Action::ConnectEngine { config, .. } if config.revision == 9
    )));
}

#[test]
fn orders_need_an_engine() {
    let mut worker = signed_in();
    worker.step(Command::Player(PlayerCommand::Pause), moment(0));
    assert!(matches!(
        &worker.take_actions()[0],
        Action::Emit(Event::Error(text)) if text == "Local playback isn't set up on this computer yet"
    ));
    worker.engine = true;
    worker.step(Command::Player(PlayerCommand::Pause), moment(0));
    assert!(matches!(&worker.take_actions()[0], Action::Play(PlayerCommand::Pause)));
    worker.step(Command::Rootlist, moment(0));
    worker.step(Command::UserNames(vec!["u".to_string()]), moment(0));
    let actions = worker.take_actions();
    assert!(matches!(&actions[0], Action::FetchRootlist));
    assert!(matches!(&actions[1], Action::FetchUserNames(ids) if ids.len() == 1));
}

#[test]
fn a_receiver_gets_the_accounts_own_grant_only() {
    let receiver = || Box::new(Receiver::default());
    let mut worker = signed_in();
    worker.playback_grant = Some(grant("bob"));
    worker.step(Command::ActivateReceiver(receiver()), moment(0));
    worker.playback_grant = Some(grant("alice"));
    worker.step(Command::ActivateReceiver(receiver()), moment(0));
    let actions = worker.take_actions();
    assert!(matches!(&actions[0], Action::ActivateReceiver { credentials: None, .. }));
    assert!(matches!(&actions[1], Action::ActivateReceiver { credentials: Some(own), .. } if *own == grant("alice")));
}

#[test]
fn caches_are_kept_per_account() {
    let mut worker = signed_in();
    worker.step(
        Command::LoadPlaylistCache { id: "pl".to_string(), generation: 2 },
        moment(0),
    );
    worker.step(
        Command::StorePlaylistCache {
            id: "pl".to_string(),
            snapshot: "s".to_string(),
            items: Vec::new(),
            total: 7,
            next_offset: Some(0),
        },
        moment(0),
    );
    worker.step(Command::LoadLikedSongsCache { generation: 3 }, moment(0));
    let liked = |account: &str| LikedSongs {
        account_id: account.to_string(),
        ..LikedSongs::default()
    };
    worker.step(Command::StoreLikedSongsCache(liked("bob")), moment(0));
    worker.step(Command::StoreLikedSongsCache(liked("alice")), moment(0));
    let actions = worker.take_actions();
    assert_eq!(actions.len(), 4);
    assert!(matches!(
        &actions[0],
        Action::ReadPlaylistCache { account_id, file_name, generation: 2, .. }
            if account_id == "alice" && file_name == "pl.json"
    ));
    assert!(matches!(
        &actions[1],
        Action::WritePlaylistCache { file_name, cached, .. }
            if file_name == "pl.json" && cached.total == Some(7)
    ));
    assert!(matches!(&actions[2], Action::ReadLikedSongs { generation: 3, .. }));
    assert!(matches!(&actions[3], Action::WriteLikedSongs(cache) if cache.account_id == "alice"));
    worker.sign_out();
    let _ = worker.take_actions();
    worker.step(Command::LoadLikedSongsCache { generation: 3 }, moment(0));
    assert!(worker.take_actions().is_empty());
}

#[test]
fn a_newer_editorial_search_replaces_the_older_one() {
    let search = |serial: u64| Command::SearchEditorialPlaylists {
        query: "pulp".to_string(),
        serial,
    };
    let mut worker = signed_in();
    worker.step(search(1), moment(0));
    assert!(worker.take_actions().is_empty());
    worker.api.set_state(
        ApiSource::Personal,
        SessionState::Ready { account: AccountId::new("alice".to_string()) },
    );
    worker.step(search(2), moment(0));
    worker.step(search(3), moment(0));
    let actions = worker.take_actions();
    assert!(matches!(&actions[0], Action::SearchEditorial { serial: 2, .. }));
    assert!(matches!(&actions[1], Action::AbortEditorialSearch));
    assert!(matches!(&actions[2], Action::SearchEditorial { serial: 3, .. }));
}

#[test]
fn shutting_down_stops_the_engine_and_the_loop() {
    let mut worker = signed_in();
    worker.engine = true;
    assert!(worker.has_room(2));
    assert!(worker.step(Command::DiscoverReceivers, moment(0)));
    assert!(!worker.step(Command::Shutdown, moment(0)));
    let actions = worker.take_actions();
    assert!(matches!(&actions[0], Action::DiscoverReceivers));
    assert!(matches!(&actions[1], Action::StopEngine));
    worker.session = u64::MAX - 1;
    assert!(!worker.has_room(2));
    assert!(worker.has_room(1));
}
