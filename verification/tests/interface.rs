//! The interface's handle: what leaves for the worker, and what is recorded.

use fastpotify::backend::Backend;
use fastpotify::events::Command;
use fastpotify::models::{PlayableItem, PlayerCommand, Track};
use fastpotify::requests::ApiRequest;

fn page(id: &str, offset: u32) -> ApiRequest {
    ApiRequest::PlaylistItems { id: id.to_string(), offset, generation: 1 }
}

#[test]
fn offline_lets_only_artwork_and_shutdown_through() {
    let mut backend = Backend::new(false);
    assert!(matches!(backend.send(Command::SignIn), Some(Command::SignIn)));
    backend.set_offline(true);
    assert!(backend.send(Command::SignIn).is_none());
    assert!(backend.api(ApiRequest::Me).is_none());
    assert!(backend.player(PlayerCommand::Play).is_none());
    let accent = Command::Accent { url: "https://art".to_string() };
    assert!(matches!(backend.send(accent), Some(Command::Accent { url }) if url == "https://art"));
    assert!(matches!(backend.shutdown(), Some(Command::Shutdown)));
    backend.set_offline(false);
    assert!(matches!(
        backend.player(PlayerCommand::Play),
        Some(Command::Player(PlayerCommand::Play))
    ));
    assert!(matches!(backend.api(ApiRequest::Me), Some(Command::Api(ApiRequest::Me))));
}

#[test]
fn playlist_requests_are_recorded_until_they_are_taken() {
    let mut backend = Backend::new(true);
    backend.set_offline(true);
    backend.api(page("a", 0));
    backend.api(ApiRequest::Me);
    backend.api(page("a", 50));
    backend.api(ApiRequest::PlaylistSample { id: "b".to_string(), offset: 3, generation: 9 });
    assert_eq!(
        backend.take_playlist_item_requests(),
        vec![("a".to_string(), 0, 1), ("a".to_string(), 50, 1)]
    );
    assert!(backend.take_playlist_item_requests().is_empty());
    assert_eq!(backend.take_playlist_sample_requests(), vec![("b".to_string(), 3, 9)]);
}

#[test]
fn additions_are_recorded_in_order() {
    let mut backend = Backend::new(true);
    backend.api(ApiRequest::CheckPlaylistDuplicates {
        playlist_id: "p".to_string(),
        playlist_name: "Pulp".to_string(),
        items: vec![PlayableItem::Track(Track { uri: "u1".to_string(), ..Track::default() })],
        position: None,
    });
    backend.api(page("p", 0));
    backend.api(ApiRequest::AddToPlaylist {
        playlist_id: "p".to_string(),
        playlist_name: "Pulp".to_string(),
        uris: vec!["u1".to_string()],
        position: Some(2),
    });
    let taken = backend.take_playlist_add_requests();
    assert_eq!(taken.len(), 2);
    assert!(matches!(
        &taken[0],
        ApiRequest::CheckPlaylistDuplicates { playlist_name, items, position: None, .. }
            if playlist_name == "Pulp" && items[0].uri() == "u1"
    ));
    assert!(matches!(
        &taken[1],
        ApiRequest::AddToPlaylist { uris, position: Some(2), .. } if uris == &vec!["u1".to_string()]
    ));
    assert!(backend.take_playlist_add_requests().is_empty());
}

#[test]
fn nothing_is_recorded_unasked() {
    let mut backend = Backend::new(false);
    backend.api(page("a", 0));
    assert!(backend.take_playlist_item_requests().is_empty());
}
