//! The data that travels between the Web API, the engine and the interface.
//!
//! Every type holds what the library reads of it and what identifies the
//! object it stands for. Whatever else the sender said of it travels in
//! `extra`, in the sender's own form: the library hands it on unread.

use vstd::prelude::*;

use crate::text::{copy_text, copy_texts};

verus! {

/// An account as the Web API describes it.
#[derive(Debug, Default, PartialEq, Eq)]
pub struct User {
    pub id: String,
    pub display_name: Option<String>,
    /// The plan, where the grant may see it ("premium", "free", ...).
    pub product: Option<String>,
    pub extra: String,
}

impl Clone for User {
    fn clone(&self) -> (copy: Self)
        ensures
            copy == *self,
    {
        User {
            id: self.id.clone(),
            display_name: copy_text(&self.display_name),
            product: copy_text(&self.product),
            extra: self.extra.clone(),
        }
    }
}

impl User {
    /// The display name, or the id where there is none.
    pub open spec fn spec_name(&self) -> Seq<char> {
        match self.display_name {
            Some(name) => name@,
            None => self.id@,
        }
    }

    /// Whether the plan is Premium; `None` while the plan is unknown.
    pub open spec fn spec_premium(&self) -> Option<bool> {
        match self.product {
            Some(product) => Some(product@ == "premium"@),
            None => None,
        }
    }

    /// The display name, or the id where there is none.
    pub fn name(&self) -> (name: String)
        ensures
            name@ == self.spec_name(),
    {
        match &self.display_name {
            Some(name) => name.clone(),
            None => self.id.clone(),
        }
    }

    /// Whether the plan is Premium; `None` while the plan is unknown.
    pub fn premium(&self) -> (premium: Option<bool>)
        ensures
            premium == self.spec_premium(),
    {
        match &self.product {
            Some(product) => Some(*product == "premium".to_owned()),
            None => None,
        }
    }
}

/// Who a playlist belongs to.
#[derive(Clone, Debug, Default, PartialEq, Eq)]
pub struct Owner {
    pub id: Option<String>,
    pub display_name: Option<String>,
    pub uri: Option<String>,
    pub extra: String,
}

#[derive(Clone, Debug, Default, PartialEq, Eq)]
pub struct Playlist {
    pub id: String,
    pub name: String,
    pub snapshot_id: Option<String>,
    pub owner: Owner,
    pub extra: String,
}

impl Playlist {
    /// The owner's display name. Spotify names every other owner, so a missing
    /// name means Spotify itself.
    pub open spec fn spec_owner_name(&self) -> Seq<char> {
        match self.owner.display_name {
            Some(name) => name@,
            None => "Spotify"@,
        }
    }

    /// The owner's display name, "Spotify" where it is missing.
    pub fn owner_name(&self) -> (name: String)
        ensures
            name@ == self.spec_owner_name(),
    {
        match &self.owner.display_name {
            Some(name) => name.clone(),
            None => "Spotify".to_owned(),
        }
    }
}

/// Whether Spotify itself, rather than a listener or another curator, owns a
/// playlist.
pub open spec fn spotify_owned(playlist: Playlist) -> bool {
    ||| playlist.owner.id.deep_view() == Some("spotify"@)
    ||| playlist.spec_owner_name() == "Spotify"@
}

/// Whether Spotify itself, rather than a listener or another curator, owns
/// this playlist: the ones a personal Development Mode app cannot see.
pub fn is_spotify_owned(playlist: &Playlist) -> (owned: bool)
    ensures
        owned == spotify_owned(*playlist),
{
    let by_id = match &playlist.owner.id {
        Some(id) => *id == "spotify".to_owned(),
        None => false,
    };
    by_id || playlist.owner_name() == "Spotify".to_owned()
}

#[derive(Debug, Default, PartialEq, Eq)]
pub struct Track {
    pub id: Option<String>,
    pub name: String,
    pub uri: String,
    pub extra: String,
}

impl Clone for Track {
    fn clone(&self) -> (copy: Self)
        ensures
            copy == *self,
    {
        Track {
            id: copy_text(&self.id),
            name: self.name.clone(),
            uri: self.uri.clone(),
            extra: self.extra.clone(),
        }
    }
}

#[derive(Debug, Default, PartialEq, Eq)]
pub struct Episode {
    pub id: String,
    pub name: String,
    pub uri: String,
    pub extra: String,
}

impl Clone for Episode {
    fn clone(&self) -> (copy: Self)
        ensures
            copy == *self,
    {
        Episode {
            id: self.id.clone(),
            name: self.name.clone(),
            uri: self.uri.clone(),
            extra: self.extra.clone(),
        }
    }
}

/// Something that can be played: a song or a podcast episode.
#[derive(Debug, PartialEq, Eq)]
pub enum PlayableItem {
    Track(Track),
    Episode(Episode),
}

impl Clone for PlayableItem {
    fn clone(&self) -> (copy: Self)
        ensures
            copy == *self,
    {
        match self {
            PlayableItem::Track(track) => PlayableItem::Track(track.clone()),
            PlayableItem::Episode(episode) => PlayableItem::Episode(episode.clone()),
        }
    }
}

impl PlayableItem {
    pub open spec fn spec_uri(&self) -> Seq<char> {
        match self {
            PlayableItem::Track(track) => track.uri@,
            PlayableItem::Episode(episode) => episode.uri@,
        }
    }

    pub fn uri(&self) -> (uri: String)
        ensures
            uri@ == self.spec_uri(),
    {
        match self {
            PlayableItem::Track(track) => track.uri.clone(),
            PlayableItem::Episode(episode) => episode.uri.clone(),
        }
    }
}

#[derive(Clone, Debug, Default, PartialEq, Eq)]
pub struct Artist {
    pub id: String,
    pub name: String,
    pub uri: String,
    pub extra: String,
}

#[derive(Clone, Debug, Default, PartialEq, Eq)]
pub struct Album {
    pub id: String,
    pub name: String,
    pub uri: String,
    pub extra: String,
}

#[derive(Clone, Debug, Default, PartialEq, Eq)]
pub struct Show {
    pub id: String,
    pub name: String,
    pub uri: String,
    pub extra: String,
}

/// One page of a list that is read by offset.
#[derive(Clone, Debug, Default, PartialEq, Eq)]
pub struct Page<T> {
    pub items: Vec<T>,
    pub total: u32,
    pub next: Option<String>,
    pub extra: String,
}

/// One page of a list that is read by cursor.
#[derive(Clone, Debug, Default, PartialEq, Eq)]
pub struct CursorPage<T> {
    pub items: Vec<T>,
    pub after: Option<String>,
    pub extra: String,
}

#[derive(Clone, Debug, Default, PartialEq, Eq)]
pub struct Device {
    pub id: Option<String>,
    pub name: String,
    pub is_active: bool,
    pub extra: String,
}

#[derive(Clone, Debug, Default, PartialEq, Eq)]
pub struct PlaybackState {
    pub device: Option<Device>,
    pub is_playing: bool,
    pub progress_ms: Option<u32>,
    pub item: Option<PlayableItem>,
    pub extra: String,
}

#[derive(Clone, Debug, Default, PartialEq, Eq)]
pub struct Queue {
    pub currently_playing: Option<PlayableItem>,
    pub queue: Vec<PlayableItem>,
    pub extra: String,
}

#[derive(Clone, Debug, Default, PartialEq, Eq)]
pub struct PlayHistory {
    pub track: Track,
    pub played_at: String,
    pub extra: String,
}

/// One row of a playlist, with who put it there.
#[derive(Clone, Debug, Default, PartialEq, Eq)]
pub struct PlaylistItem {
    pub added_by: Option<String>,
    pub item: Option<PlayableItem>,
    pub extra: String,
}

#[derive(Clone, Debug, Default, PartialEq, Eq)]
pub struct SavedTrack {
    pub added_at: String,
    pub track: Track,
    pub extra: String,
}

#[derive(Clone, Debug, Default, PartialEq, Eq)]
pub struct SavedAlbum {
    pub added_at: String,
    pub album: Album,
    pub extra: String,
}

#[derive(Clone, Debug, Default, PartialEq, Eq)]
pub struct SavedShow {
    pub added_at: String,
    pub show: Show,
    pub extra: String,
}

#[derive(Clone, Debug, Default, PartialEq, Eq)]
pub struct SavedEpisode {
    pub added_at: String,
    pub episode: Episode,
    pub extra: String,
}

/// What a search found, one page for each kind that was asked for.
#[derive(Clone, Debug, Default, PartialEq, Eq)]
pub struct SearchResults {
    pub tracks: Option<Page<Track>>,
    pub artists: Option<Page<Artist>>,
    pub albums: Option<Page<Album>>,
    pub playlists: Option<Page<Playlist>>,
    pub shows: Option<Page<Show>>,
    pub episodes: Option<Page<Episode>>,
    pub extra: String,
}

/// What a remote device is asked to play.
#[derive(Clone, Debug, Default, PartialEq, Eq)]
pub struct PlayRequest {
    pub context_uri: Option<String>,
    pub uris: Vec<String>,
    pub position_ms: u32,
    pub extra: String,
}

/// What the local engine is asked to load.
#[derive(Debug, Default, PartialEq, Eq)]
pub struct LoadSpec {
    pub context_uri: Option<String>,
    pub uris: Vec<String>,
    pub position_ms: u32,
    pub play: bool,
    pub extra: String,
}

/// The content of a [`LoadSpec`].
pub struct LoadModel {
    pub context_uri: Option<Seq<char>>,
    pub uris: Seq<Seq<char>>,
    pub position_ms: u32,
    pub play: bool,
    pub extra: Seq<char>,
}

impl View for LoadSpec {
    type V = LoadModel;

    open spec fn view(&self) -> LoadModel {
        LoadModel {
            context_uri: self.context_uri.deep_view(),
            uris: self.uris.deep_view(),
            position_ms: self.position_ms,
            play: self.play,
            extra: self.extra@,
        }
    }
}

impl DeepView for LoadSpec {
    type V = LoadModel;

    open spec fn deep_view(&self) -> LoadModel {
        self@
    }
}

impl Clone for LoadSpec {
    fn clone(&self) -> (copy: Self)
        ensures
            copy@ == self@,
    {
        let uris = copy_texts(&self.uris);
        assert(uris.deep_view() =~= self.uris.deep_view());
        LoadSpec {
            context_uri: copy_text(&self.context_uri),
            uris,
            position_ms: self.position_ms,
            play: self.play,
            extra: self.extra.clone(),
        }
    }
}

/// What the local engine was doing when it was asked.
#[derive(Clone, Debug, Default, PartialEq, Eq)]
pub struct Interrupted {
    pub uri: String,
    pub position_ms: u32,
    pub playing: bool,
}

impl LoadModel {
    /// The load that picks an interrupted song up where it stopped.
    pub open spec fn picking_up(interrupted: Interrupted) -> LoadModel {
        LoadModel {
            context_uri: None,
            uris: seq![interrupted.uri@],
            position_ms: interrupted.position_ms,
            play: interrupted.playing,
            extra: Seq::empty(),
        }
    }
}

impl LoadSpec {
    /// The load that picks an interrupted song up where it stopped.
    pub fn picking_up(interrupted: Interrupted) -> (spec: LoadSpec)
        ensures
            spec@ == LoadModel::picking_up(interrupted),
    {
        let mut uris: Vec<String> = Vec::new();
        uris.push(interrupted.uri);
        assert(uris.deep_view() =~= seq![interrupted.uri@]);
        LoadSpec {
            context_uri: None,
            uris,
            position_ms: interrupted.position_ms,
            play: interrupted.playing,
            extra: String::new(),
        }
    }
}

/// An order to the local engine.
#[derive(Clone, Debug, PartialEq, Eq)]
pub enum PlayerCommand {
    Load(LoadSpec),
    Play,
    Pause,
    Next,
    Previous,
    Seek { position_ms: u32 },
    Volume { percent: u8 },
    Shuffle { on: bool },
    Repeat { mode: String },
    /// Any other order the engine knows, in its own form.
    Other(String),
}

/// What the local engine is doing, for the interface.
#[derive(Clone, Debug, Default, PartialEq, Eq)]
pub struct LocalState {
    pub item: Option<PlayableItem>,
    pub position_ms: u32,
    pub playing: bool,
    pub extra: String,
}

/// The audio settings an engine is started with, by the number under which
/// the application keeps them.
#[derive(Clone, Copy, Debug, Default, PartialEq, Eq)]
pub struct EngineConfig {
    pub revision: u64,
}

/// A Spotify Connect receiver seen on the local network.
#[derive(Clone, Debug, Default, PartialEq, Eq)]
pub struct Receiver {
    pub name: String,
    pub address: String,
    pub extra: String,
}

/// A published release.
#[derive(Clone, Debug, Default, PartialEq, Eq)]
pub struct Release {
    pub version: String,
    pub url: String,
    pub extra: String,
}

/// The track whose words are wanted.
#[derive(Clone, Debug, Default, PartialEq, Eq)]
pub struct LyricsQuery {
    pub title: String,
    pub artist: String,
    pub duration_ms: u32,
    pub extra: String,
}

/// The words of a track, line by line.
#[derive(Clone, Debug, Default, PartialEq, Eq)]
pub struct Lyrics {
    pub lines: Vec<String>,
    pub synced: bool,
    pub extra: String,
}

/// An account's playlist tree, folders and all, and which of its playlists
/// take songs from this account.
#[derive(Clone, Debug, Default, PartialEq, Eq)]
pub struct Rootlist {
    pub entries: Vec<String>,
    pub writable: Vec<String>,
    pub extra: String,
}

/// One account's Liked Songs as they were last read.
#[derive(Clone, Debug, Default, PartialEq, Eq)]
pub struct LikedSongs {
    pub account_id: String,
    pub tracks: Vec<SavedTrack>,
    pub total: u32,
    pub extra: String,
}

}
