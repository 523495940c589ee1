//! Requests to the Web API: their routes, calls and answers, and what the
//! answers teach.

use fastpotify::actions::Action;
use fastpotify::credentials::{web_slot, Slot};
use fastpotify::events::Command;
use fastpotify::exchange::{
    handle, refusal, reply_fits, ApiCall, ApiReply, Exchange, Progress, SearchKinds, TimeRange,
};
use fastpotify::gateway::{
    AccountId, ApiError, ApiGateway, ApiSource, PlaylistAccess, SessionState,
};
use fastpotify::model::Moment;
use fastpotify::models::{
    EngineConfig, Owner, Page, PlayRequest, PlayableItem, Playlist, SearchResults, Track, User,
};
use fastpotify::requests::{operation_for, ApiRequest, Operation, RecentsFor, RemoteAction};
use fastpotify::responses::{observe_playlists, ApiResponse};
use fastpotify::worker::Worker;

fn ready(api: &mut ApiGateway, source: ApiSource, account: &str) -> bool {
    api.install(source, AccountId::new(account.to_string())).is_ok()
}

fn playlist(id: &str, owner: Option<&str>) -> Playlist {
    Playlist {
        id: id.to_string(),
        owner: Owner { id: owner.map(str::to_string), ..Owner::default() },
        ..Playlist::default()
    }
}

// ---- sessions ---------------------------------------------------------------

#[test]
fn both_apps_agree_on_one_account() {
    let mut api = ApiGateway::new();
    assert_eq!(api.account(), None);
    assert!(ready(&mut api, ApiSource::Personal, "alice"));
    assert_eq!(api.account(), Some(AccountId::new("alice".to_string())));
    assert!(!ready(&mut api, ApiSource::Shared, "bob"));
    assert_eq!(api.state(ApiSource::Shared), &SessionState::Unavailable);
    assert!(ready(&mut api, ApiSource::Shared, "alice"));
    api.clear(ApiSource::Personal);
    assert!(!api.personal_ready());
    assert_eq!(api.account(), Some(AccountId::new("alice".to_string())));
    api.clear_all();
    assert_eq!(api.account(), None);
}

#[test]
fn each_app_has_its_slot() {
    assert_eq!(web_slot(ApiSource::Shared), Slot::Shared);
    assert_eq!(web_slot(ApiSource::Personal), Slot::Personal);
}

// ---- routes -----------------------------------------------------------------

fn route(request: ApiRequest) -> Operation {
    operation_for(&ApiGateway::new(), &request)
}

#[test]
fn requests_take_their_routes() {
    assert_eq!(route(ApiRequest::Me), Operation::CanonicalAccount);
    assert_eq!(route(ApiRequest::Devices), Operation::Playback);
    assert_eq!(
        route(ApiRequest::AddToQueue {
            uri: "u".to_string(),
            device_id: None,
            label: "l".to_string()
        }),
        Operation::Playback
    );
    assert_eq!(route(ApiRequest::TopArtists { generation: 0 }), Operation::UserData);
    assert_eq!(route(ApiRequest::MyPlaylists { offset: 0 }), Operation::PlaylistLibrary);
    assert_eq!(
        route(ApiRequest::Discover { term: "t".to_string(), generation: 0 }),
        Operation::PlaylistSearch
    );
    assert_eq!(
        route(ApiRequest::CreatePlaylist {
            name: "n".to_string(),
            public: true,
            description: String::new()
        }),
        Operation::PlaylistCreation
    );
    assert_eq!(
        route(ApiRequest::ArtistTopTracks { id: "a".to_string() }),
        Operation::UnsupportedDevelopmentMode
    );
    assert_eq!(route(ApiRequest::Album { id: "a".to_string() }), Operation::Catalog);
}

#[test]
fn membership_of_a_playlist_needs_the_shared_app() {
    let contains = |uris: &[&str]| ApiRequest::Contains {
        uris: uris.iter().map(|uri| uri.to_string()).collect(),
    };
    assert_eq!(route(contains(&["spotify:track:1"])), Operation::UserData);
    assert_eq!(
        route(contains(&["spotify:track:1", "spotify:playlist:2"])),
        Operation::UnsupportedDevelopmentMode
    );
    assert_eq!(route(contains(&[])), Operation::UserData);
}

#[test]
fn requests_nobody_waits_for_run_in_the_background() {
    assert!(ApiRequest::MyPlaylists { offset: 0 }.background());
    assert!(ApiRequest::Contains { uris: Vec::new() }.background());
    assert!(ApiRequest::PlaybackState { seq: 0 }.background());
    assert!(!ApiRequest::Me.background());
    assert!(!ApiRequest::Search { query: "q".to_string(), serial: 0 }.background());
}

// ---- playlists --------------------------------------------------------------

fn items(id: &str) -> ApiRequest {
    ApiRequest::PlaylistItems { id: id.to_string(), offset: 0, generation: 0 }
}

#[test]
fn shown_playlists_are_known_and_refused_ones_forgotten() {
    let mut api = ApiGateway::new();
    assert_eq!(
        operation_for(&api, &items("a")),
        Operation::PlaylistItems(PlaylistAccess::Unknown)
    );
    let page = Page {
        items: vec![
            playlist("a", Some("bob")),
            playlist("b", None),
            playlist("a", Some("alice")),
        ],
        total: 3,
        ..Page::default()
    };
    observe_playlists(&mut api, &ApiResponse::MyPlaylists { offset: 0, result: Ok(page) });
    assert_eq!(
        operation_for(&api, &items("a")),
        Operation::PlaylistItems(PlaylistAccess::OwnedBy(Some("alice".to_string())))
    );
    assert_eq!(api.playlist_access(&"b".to_string()), PlaylistAccess::OwnedBy(None));
    let refused = |status: u16| ApiResponse::PlaylistUpdated {
        id: "a".to_string(),
        result: Err(ApiError::Status { status, message: "no".to_string() }),
    };
    observe_playlists(&mut api, &refused(404));
    assert!(api.playlist_access(&"a".to_string()) != PlaylistAccess::Unknown);
    observe_playlists(&mut api, &refused(403));
    assert_eq!(api.playlist_access(&"a".to_string()), PlaylistAccess::Unknown);
    assert_eq!(api.playlist_access(&"b".to_string()), PlaylistAccess::OwnedBy(None));
}

#[test]
fn answers_leave_sessions_alone() {
    let mut api = ApiGateway::new();
    ready(&mut api, ApiSource::Shared, "alice");
    observe_playlists(&mut api, &ApiResponse::PlaylistCreated(Ok(playlist("a", Some("alice")))));
    observe_playlists(
        &mut api,
        &ApiResponse::PlaylistFollowChanged {
            id: "a".to_string(),
            followed: true,
            result: Err(ApiError::Status { status: 403, message: "no".to_string() }),
        },
    );
    assert_eq!(api.account(), Some(AccountId::new("alice".to_string())));
    assert_eq!(api.state(ApiSource::Personal), &SessionState::Unavailable);
}

// ---- calls and answers ------------------------------------------------------

fn open(request: ApiRequest) -> Exchange {
    Exchange::open(&ApiGateway::new(), request)
}

#[test]
fn a_request_asks_for_the_right_page() {
    let exchange = open(ApiRequest::TopTracks { offset: 50, full: true, generation: 1 });
    assert!(matches!(
        exchange.call(),
        ApiCall::TopTracks { range: TimeRange::Short, limit: 50, offset: 50 }
    ));
    let exchange = open(ApiRequest::TopTracks { offset: 0, full: false, generation: 1 });
    assert!(matches!(exchange.call(), ApiCall::TopTracks { limit: 20, .. }));
    let exchange = open(items("a"));
    assert!(matches!(exchange.call(), ApiCall::PlaylistItems { id, limit: 50, .. } if id == "a"));
    let exchange = open(ApiRequest::Search { query: "pulp".to_string(), serial: 1 });
    match exchange.call() {
        ApiCall::Search { query, kinds } => {
            assert_eq!(query, "pulp");
            assert_eq!(
                kinds.names(),
                vec!["track", "artist", "album", "playlist", "show", "episode"]
            );
        }
        _ => panic!("another call"),
    }
    assert_eq!(SearchKinds::Playlists.names(), vec!["playlist"]);
    assert_eq!(TimeRange::Short.name(), "short_term");
    assert_eq!(TimeRange::Medium.name(), "medium_term");
    let exchange = open(ApiRequest::SetSaved { uris: vec!["u".to_string()], saved: false });
    assert!(matches!(exchange.call(), ApiCall::Unsave { uris } if uris.len() == 1));
    let exchange = open(ApiRequest::FollowPlaylist { id: "p".to_string(), follow: true });
    assert!(matches!(exchange.call(), ApiCall::FollowPlaylist { id } if id == "p"));
}

#[test]
fn duplicates_are_looked_for_by_uri() {
    let exchange = open(ApiRequest::CheckPlaylistDuplicates {
        playlist_id: "p".to_string(),
        playlist_name: "Pulp".to_string(),
        items: vec![
            PlayableItem::Track(Track { uri: "u1".to_string(), ..Track::default() }),
            PlayableItem::Track(Track { uri: "u2".to_string(), ..Track::default() }),
        ],
        position: None,
    });
    match exchange.call() {
        ApiCall::PlaylistDuplicates { id, uris } => {
            assert_eq!(id, "p");
            assert_eq!(uris, vec!["u1".to_string(), "u2".to_string()]);
        }
        _ => panic!("another call"),
    }
}

fn finished(progress: Option<Progress>) -> (ApiResponse, Option<ApiSource>) {
    match progress {
        Some(Progress::Finished { response, expired }) => (response, expired),
        _ => panic!("not finished"),
    }
}

#[test]
fn an_answer_carries_what_the_request_is_known_by() {
    let mut api = ApiGateway::new();
    ready(&mut api, ApiSource::Shared, "alice");
    let exchange = Exchange::open(&api, ApiRequest::SavedTracks { offset: 100, generation: 6 });
    let reply = ApiReply::SavedTracks(Ok(Page::default()));
    match finished(handle(&mut api, exchange, reply)) {
        (ApiResponse::SavedTracks { offset, generation, account_id, result }, None) => {
            assert_eq!((offset, generation), (100, 6));
            assert_eq!(account_id.as_deref(), Some("alice"));
            assert!(result.is_ok());
        }
        _ => panic!("another answer"),
    }
    let recents = open(ApiRequest::RecentlyPlayed {
        who: RecentsFor::Panel,
        generation: 2,
        before: None,
        limit: 20,
    });
    let failed = ApiError::Unreachable("gone".to_string());
    let reply = refusal(&recents.request, failed);
    assert!(reply_fits(&recents.request, &reply));
    match finished(handle(&mut api, recents, reply)) {
        (ApiResponse::RecentlyPlayed { who: RecentsFor::Panel, limit: 20, result, .. }, None) => {
            assert_eq!(result, Err(ApiError::Unreachable("gone".to_string())));
        }
        _ => panic!("another answer"),
    }
}

#[test]
fn a_change_to_a_playlist_is_named() {
    let mut api = ApiGateway::new();
    let change = |request: ApiRequest, api: &mut ApiGateway| {
        let reply = ApiReply::Snapshot(Ok(Some("snap".to_string())));
        match finished(handle(api, open(request), reply)).0 {
            ApiResponse::PlaylistItemsChanged { id, message, result } => {
                assert_eq!(id, "p");
                assert_eq!(result, Ok(Some("snap".to_string())));
                message
            }
            _ => panic!("another answer"),
        }
    };
    let added = ApiRequest::AddToPlaylist {
        playlist_id: "p".to_string(),
        playlist_name: "Pulp".to_string(),
        uris: Vec::new(),
        position: None,
    };
    assert_eq!(change(added, &mut api), "Added to Pulp");
    let removed = ApiRequest::RemoveFromPlaylist {
        playlist_id: "p".to_string(),
        uris: Vec::new(),
        snapshot_id: None,
    };
    assert_eq!(change(removed, &mut api), "Removed from playlist");
    let moved = ApiRequest::ReorderPlaylist {
        playlist_id: "p".to_string(),
        range_start: 0,
        insert_before: 2,
        snapshot_id: None,
    };
    assert_eq!(change(moved, &mut api), "");
}

#[test]
fn shuffle_is_on_before_the_context_starts() {
    let mut api = ApiGateway::new();
    let request = || ApiRequest::ShufflePlay {
        device_id: Some("d".to_string()),
        play: PlayRequest { context_uri: Some("c".to_string()), ..PlayRequest::default() },
    };
    let exchange = open(request());
    assert!(matches!(exchange.call(), ApiCall::Shuffle { on: true, .. }));
    let exchange = match handle(&mut api, exchange, ApiReply::Done(Ok(()))) {
        Some(Progress::Again(exchange)) => exchange,
        _ => panic!("nothing to play"),
    };
    assert!(matches!(
        exchange.call(),
        ApiCall::Play { play: Some(play), .. } if play.context_uri.as_deref() == Some("c")
    ));
    assert!(matches!(
        finished(handle(&mut api, exchange, ApiReply::Done(Ok(())))),
        (ApiResponse::Remote { action: RemoteAction::Play, result: Ok(()) }, None)
    ));
    let expired = ApiError::SignInExpired { api_source: ApiSource::Personal };
    assert!(matches!(
        finished(handle(&mut api, open(request()), ApiReply::Done(Err(expired)))),
        (
            ApiResponse::Remote { action: RemoteAction::Play, result: Err(_) },
            Some(ApiSource::Personal)
        )
    ));
}

#[test]
fn a_reply_of_another_kind_is_not_taken() {
    let mut api = ApiGateway::new();
    let reply = ApiReply::Found(Ok(SearchResults {
        playlists: Some(Page { items: vec![playlist("a", None)], total: 1, ..Page::default() }),
        ..SearchResults::default()
    }));
    assert!(handle(&mut api, open(ApiRequest::Me), reply).is_none());
    assert_eq!(api.playlist_access(&"a".to_string()), PlaylistAccess::Unknown);
}

#[test]
fn a_search_teaches_its_playlists() {
    let mut api = ApiGateway::new();
    let found = SearchResults {
        playlists: Some(Page { items: vec![playlist("a", Some("spotify"))], total: 1, ..Page::default() }),
        ..SearchResults::default()
    };
    let exchange = open(ApiRequest::Search { query: "q".to_string(), serial: 3 });
    let (response, _) = finished(handle(&mut api, exchange, ApiReply::Found(Ok(found))));
    assert!(matches!(response, ApiResponse::Search { serial: 3, .. }));
    assert_eq!(
        api.playlist_access(&"a".to_string()),
        PlaylistAccess::OwnedBy(Some("spotify".to_string()))
    );
}

// ---- the worker's side ------------------------------------------------------

#[test]
fn an_answer_of_an_earlier_session_is_not_shown() {
    let quiet = || Moment { now: 0, interrupted: None, personal_grant: Ok(()) };
    let mut worker = Worker::new(EngineConfig { revision: 0 }, None, Vec::new());
    worker.step(Command::Api(ApiRequest::Me), quiet());
    let (generation, shared_lease, personal_lease) = match worker.take_actions().pop() {
        Some(Action::Dispatch {
            request: ApiRequest::Me,
            background: false,
            generation,
            shared_lease,
            personal_lease,
        }) => (generation, shared_lease, personal_lease),
        _ => panic!("not dispatched"),
    };
    let answer = || Command::ApiFinished {
        generation,
        response: Box::new(ApiResponse::Me(Ok(User::default()))),
        expired: None,
        shared_lease,
        personal_lease,
    };
    worker.step(answer(), quiet());
    assert_eq!(worker.take_actions().len(), 1);
    worker.sign_out();
    let _ = worker.take_actions();
    worker.step(answer(), quiet());
    assert!(worker.take_actions().is_empty());
}
