//! Playlists on disk: what is written, and what is read back.

use fastpotify::events::Event;
use fastpotify::models::PlaylistItem;
use fastpotify::playlist_cache::{checkpoint, CachedPlaylist};
use fastpotify::tasks::playlist_cache_read;

fn count(value: &serde_json::Value) -> Option<u32> {
    value.as_u64().and_then(|number| u32::try_from(number).ok())
}

#[test]
fn the_original_complete_cache_format_remains_readable() {
    let file: serde_json::Value =
        serde_json::from_str(r#"{"snapshot":"old","items":[]}"#).unwrap();
    let cached = CachedPlaylist {
        snapshot: file["snapshot"].as_str().unwrap().to_string(),
        items: file["items"].as_array().unwrap().iter().map(|_| PlaylistItem::default()).collect(),
        total: count(&file["total"]),
        next_offset: count(&file["next_offset"]),
    };

    assert_eq!(cached.snapshot, "old");
    assert_eq!(cached.total, None);
    assert_eq!(cached.next_offset, None);
    let restored = cached.restored().unwrap();
    assert_eq!(restored.snapshot, "old");
    assert_eq!(restored.total, 0);
    assert_eq!(restored.next_offset, None);
}

fn rows(number: usize) -> Vec<PlaylistItem> {
    (0..number).map(|_| PlaylistItem::default()).collect()
}

#[test]
fn a_checkpoint_is_read_back_as_it_was_written() {
    let cached = checkpoint("second".to_string(), rows(2), 10_000, Some(500));
    assert_eq!(cached.total, Some(10_000));
    let restored = cached.restored().unwrap();
    assert_eq!(restored.snapshot, "second");
    assert_eq!(restored.items.len(), 2);
    assert_eq!(restored.total, 10_000);
    assert_eq!(restored.next_offset, Some(500));
}

#[test]
fn a_cache_without_a_total_counts_its_rows() {
    let cached = CachedPlaylist {
        snapshot: "old".to_string(),
        items: rows(3),
        total: None,
        next_offset: None,
    };
    assert_eq!(cached.restored().unwrap().total, 3);
}

#[test]
fn numbers_that_do_not_fit_together_are_refused() {
    assert!(checkpoint("s".to_string(), rows(3), 2, None).restored().is_none());
    assert!(checkpoint("s".to_string(), rows(1), 2, Some(3)).restored().is_none());
    assert!(checkpoint("s".to_string(), rows(2), 2, Some(2)).restored().is_some());
}

#[test]
fn reading_reports_what_was_asked_for_and_what_was_usable() {
    let event = playlist_cache_read(
        "alice".to_string(),
        "pl".to_string(),
        4,
        Some(checkpoint("s".to_string(), rows(1), 1, None)),
    );
    match event {
        Event::PlaylistCache { account_id, id, generation, cache } => {
            assert_eq!((account_id.as_str(), id.as_str(), generation), ("alice", "pl", 4));
            assert_eq!(cache.unwrap().snapshot, "s");
        }
        _ => panic!("another event"),
    }
    let missing = playlist_cache_read("alice".to_string(), "pl".to_string(), 4, None);
    assert!(matches!(missing, Event::PlaylistCache { cache: None, .. }));
    let broken = checkpoint("s".to_string(), rows(2), 1, None);
    let broken = playlist_cache_read("alice".to_string(), "pl".to_string(), 4, Some(broken));
    assert!(matches!(broken, Event::PlaylistCache { cache: None, .. }));
}
