//! Whose playlists are Spotify's own, and how they are looked up.

use fastpotify::events::Event;
use fastpotify::gateway::{ApiError, ApiGateway};
use fastpotify::models::{is_spotify_owned, Owner, Page, Playlist, SearchResults};
use fastpotify::requests::{operation_for, ApiRequest, Operation};
use fastpotify::tasks::{editorial_finished, editorial_found, EditorialSearch};

#[test]
fn search_uses_the_catalog_route() {
    // Operation::Catalog already falls back to the shared app on its own
    // when no personal app is ready, same as every other catalog lookup;
    // search needs no routing decision of its own.
    let gateway = ApiGateway::new();
    let request = ApiRequest::Search { query: "pulp".to_string(), serial: 1 };
    assert_eq!(operation_for(&gateway, &request), Operation::Catalog);
}

fn playlist(owner_id: Option<&str>, display_name: Option<&str>) -> Playlist {
    Playlist {
        owner: Owner {
            id: owner_id.map(str::to_string),
            display_name: display_name.map(str::to_string),
            ..Owner::default()
        },
        ..Playlist::default()
    }
}

#[test]
fn a_playlist_owned_by_the_spotify_account_is_editorial() {
    assert!(is_spotify_owned(&playlist(Some("spotify"), Some("Spotify"))));
}

#[test]
fn a_listener_owned_playlist_with_a_display_name_is_not_editorial() {
    assert!(!is_spotify_owned(&playlist(Some("some-listener"), Some("Some Listener"))));
}

#[test]
fn a_playlist_missing_a_display_name_falls_back_to_editorial() {
    // Matches the same heuristic already used to find Spotify's playlists
    // on Home: a missing display name means Spotify itself, since every
    // other owner Spotify returns one for.
    assert!(is_spotify_owned(&playlist(Some("some-curator"), None)));
}

fn named(name: &str, owner_id: &str, display_name: Option<&str>) -> Playlist {
    Playlist { name: name.to_string(), ..playlist(Some(owner_id), display_name) }
}

fn results(playlists: Vec<Playlist>) -> SearchResults {
    SearchResults {
        playlists: Some(Page { items: playlists, total: 3, ..Page::default() }),
        ..SearchResults::default()
    }
}

#[test]
fn an_editorial_lookup_keeps_spotifys_playlists_in_order() {
    let found = editorial_found(
        "pulp".to_string(),
        7,
        results(vec![
            named("This Is Pulp", "spotify", Some("Spotify")),
            named("my pulp", "some-listener", Some("Some Listener")),
            named("Britpop", "some-curator", None),
        ]),
    );
    match found {
        Some(Event::EditorialPlaylists { query, serial, playlists }) => {
            assert_eq!(query, "pulp");
            assert_eq!(serial, 7);
            let names: Vec<String> = playlists.into_iter().map(|one| one.name).collect();
            assert_eq!(names, vec!["This Is Pulp".to_string(), "Britpop".to_string()]);
        }
        _ => panic!("nothing found"),
    }
}

#[test]
fn an_editorial_lookup_without_a_find_says_nothing() {
    let others = results(vec![named("my pulp", "some-listener", Some("Some Listener"))]);
    assert!(editorial_found("pulp".to_string(), 7, others).is_none());
    assert!(editorial_found("pulp".to_string(), 7, SearchResults::default()).is_none());
}

#[test]
fn an_editorial_lookup_that_fails_or_takes_too_long_says_nothing() {
    let finished = |outcome: EditorialSearch| editorial_finished("pulp".to_string(), 7, outcome);
    let failed = ApiError::Status { status: 429, message: "slow down".to_string() };
    assert!(finished(EditorialSearch::Failed(failed)).is_none());
    assert!(finished(EditorialSearch::TimedOut).is_none());
    let found = results(vec![named("This Is Pulp", "spotify", Some("Spotify"))]);
    assert!(matches!(
        finished(EditorialSearch::Found(found)),
        Some(Event::EditorialPlaylists { serial: 7, playlists, .. }) if playlists.len() == 1
    ));
}
