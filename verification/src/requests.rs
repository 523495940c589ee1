//! What the interface can ask of the Web API, and by which route.

use vstd::prelude::*;

use crate::gateway::{AccessModel, ApiGateway, GatewayModel, PlaylistAccess};
use crate::models::{PlayRequest, PlayableItem};
use crate::text::begins_with;

verus! {

/// How many rows of a playlist one request reads.
pub const PLAYLIST_PAGE_SIZE: u32 = 50;

/// How many requests that nobody waits for may be under way at once.
pub const BACKGROUND_REQUESTS: usize = 4;

#[derive(Clone, Copy, Debug, PartialEq, Eq, Structural)]
pub enum RemoteAction {
    Play,
    Pause,
    Next,
    Previous,
    Seek,
    Volume,
    Shuffle,
    Repeat,
}

/// Which of the two readers of the recently-played endpoint an answer
/// belongs to: the shelf on Home, or the Recents tab in the queue panel.
#[derive(Clone, Copy, Debug, PartialEq, Eq, Structural)]
pub enum RecentsFor {
    Home,
    Panel,
}

#[derive(Clone, Debug)]
pub enum ApiRequest {
    Me,
    Devices,
    PlaybackState {
        seq: u64,
    },
    Queue {
        seq: u64,
    },
    RecentlyPlayed {
        /// Request owner. Home and Recents use separate generation counters,
        /// so generation alone cannot route the response.
        who: RecentsFor,
        generation: u64,
        before: Option<String>,
        limit: u32,
    },
    TopTracks {
        offset: u32,
        full: bool,
        generation: u64,
    },
    TopArtists {
        generation: u64,
    },
    Recommendations {
        seed_tracks: Vec<String>,
        seed_artists: Vec<String>,
        generation: u64,
    },
    Discover {
        term: String,
        generation: u64,
    },
    MyPlaylists {
        offset: u32,
    },
    Playlist {
        id: String,
        generation: u64,
    },
    PlaylistItems {
        id: String,
        offset: u32,
        generation: u64,
    },
    /// A slice of a playlist read only for who added its songs; the rows
    /// on screen stay untouched.
    PlaylistSample {
        id: String,
        offset: u32,
        generation: u64,
    },
    CreatePlaylist {
        name: String,
        public: bool,
        description: String,
    },
    UpdatePlaylist {
        id: String,
        name: Option<String>,
        description: Option<String>,
        public: Option<bool>,
    },
    CheckPlaylistDuplicates {
        playlist_id: String,
        playlist_name: String,
        items: Vec<PlayableItem>,
        position: Option<u32>,
    },
    AddToPlaylist {
        playlist_id: String,
        playlist_name: String,
        uris: Vec<String>,
        position: Option<u32>,
    },
    RemoveFromPlaylist {
        playlist_id: String,
        uris: Vec<String>,
        snapshot_id: Option<String>,
    },
    ReorderPlaylist {
        playlist_id: String,
        range_start: u32,
        insert_before: u32,
        snapshot_id: Option<String>,
    },
    FollowPlaylist {
        id: String,
        follow: bool,
    },
    SavedTracks {
        offset: u32,
        generation: u64,
    },
    SavedAlbums {
        offset: u32,
    },
    FollowedArtists {
        after: Option<String>,
    },
    SavedShows {
        offset: u32,
    },
    SavedEpisodes {
        offset: u32,
    },
    SetSaved {
        uris: Vec<String>,
        saved: bool,
    },
    Contains {
        uris: Vec<String>,
    },
    Search {
        query: String,
        serial: u64,
    },
    Artist {
        id: String,
    },
    ArtistTopTracks {
        id: String,
    },
    ArtistAlbums {
        id: String,
        groups: String,
        offset: u32,
    },
    RelatedArtists {
        id: String,
    },
    Album {
        id: String,
    },
    AlbumTracks {
        id: String,
        offset: u32,
    },
    Show {
        id: String,
    },
    ShowEpisodes {
        id: String,
        offset: u32,
    },
    Track {
        id: String,
    },
    /// One episode, asked for by a link to it: the podcast it belongs to
    /// is the page that opens.
    Episode {
        id: String,
    },
    Remote {
        action: RemoteAction,
        device_id: Option<String>,
        play: Option<PlayRequest>,
        position_ms: u32,
        percent: u8,
        flag: bool,
        repeat: String,
    },
    Transfer {
        device_id: String,
        play: bool,
    },
    /// Shuffle on, then start the context, one after the other: sent as two
    /// independent requests they race, and shuffle sometimes lost.
    ShufflePlay {
        device_id: Option<String>,
        play: PlayRequest,
    },
    AddToQueue {
        uri: String,
        device_id: Option<String>,
        label: String,
    },
}

impl ApiRequest {
    /// Whether nobody is waiting for the answer, so the request may queue
    /// behind a few others of its kind.
    pub open spec fn spec_background(self) -> bool {
        ||| self is PlaybackState
        ||| self is RecentlyPlayed
        ||| self is TopTracks
        ||| self is TopArtists
        ||| self is Recommendations
        ||| self is Discover
        ||| self is MyPlaylists
        ||| self is PlaylistSample
        ||| self is Contains
    }

    /// Whether nobody is waiting for the answer, so the request may queue
    /// behind a few others of its kind.
    pub fn background(&self) -> (background: bool)
        ensures
            background == self.spec_background(),
    {
        match self {
            ApiRequest::PlaybackState { .. } => true,
            ApiRequest::RecentlyPlayed { .. } => true,
            ApiRequest::TopTracks { .. } => true,
            ApiRequest::TopArtists { .. } => true,
            ApiRequest::Recommendations { .. } => true,
            ApiRequest::Discover { .. } => true,
            ApiRequest::MyPlaylists { .. } => true,
            ApiRequest::PlaylistSample { .. } => true,
            ApiRequest::Contains { .. } => true,
            _ => false,
        }
    }
}

/// The kind of work a request is, which decides which app may do it.
#[derive(Debug, PartialEq, Eq)]
pub enum Operation {
    CanonicalAccount,
    Playback,
    UserData,
    UnsupportedDevelopmentMode,
    PlaylistLibrary,
    PlaylistCreation,
    PlaylistSearch,
    Catalog,
    PlaylistMetadata(PlaylistAccess),
    PlaylistItems(PlaylistAccess),
    PlaylistMutation(PlaylistAccess),
}

/// The content of an [`Operation`].
pub enum OperationModel {
    CanonicalAccount,
    Playback,
    UserData,
    UnsupportedDevelopmentMode,
    PlaylistLibrary,
    PlaylistCreation,
    PlaylistSearch,
    Catalog,
    PlaylistMetadata(AccessModel),
    PlaylistItems(AccessModel),
    PlaylistMutation(AccessModel),
}

impl View for Operation {
    type V = OperationModel;

    open spec fn view(&self) -> OperationModel {
        match self {
            Operation::CanonicalAccount => OperationModel::CanonicalAccount,
            Operation::Playback => OperationModel::Playback,
            Operation::UserData => OperationModel::UserData,
            Operation::UnsupportedDevelopmentMode => OperationModel::UnsupportedDevelopmentMode,
            Operation::PlaylistLibrary => OperationModel::PlaylistLibrary,
            Operation::PlaylistCreation => OperationModel::PlaylistCreation,
            Operation::PlaylistSearch => OperationModel::PlaylistSearch,
            Operation::Catalog => OperationModel::Catalog,
            Operation::PlaylistMetadata(access) => OperationModel::PlaylistMetadata(access@),
            Operation::PlaylistItems(access) => OperationModel::PlaylistItems(access@),
            Operation::PlaylistMutation(access) => OperationModel::PlaylistMutation(access@),
        }
    }
}

/// Whether a list of uris names a playlist.
pub open spec fn names_playlist(uris: Seq<String>) -> bool {
    exists|i: int|
        0 <= i < uris.len() && "spotify:playlist:"@.is_prefix_of(#[trigger] uris[i]@)
}

/// Whether a list of uris names a playlist.
fn any_playlist(uris: &Vec<String>) -> (any: bool)
    ensures
        any == names_playlist(uris@),
{
    let mut i: usize = 0;
    while i < uris.len()
        invariant
            i <= uris@.len(),
            forall|j: int|
                0 <= j < i ==> !"spotify:playlist:"@.is_prefix_of(#[trigger] uris@[j]@),
        decreases uris@.len() - i,
    {
        if begins_with(uris[i].as_str(), "spotify:playlist:") {
            return true;
        }
        i += 1;
    }
    false
}

/// The route of a request. Requests to one playlist carry what the gateway
/// knows of it.
pub open spec fn route(api: GatewayModel, request: ApiRequest) -> OperationModel {
    match request {
        ApiRequest::Me => OperationModel::CanonicalAccount,
        ApiRequest::Devices
        | ApiRequest::PlaybackState { .. }
        | ApiRequest::Queue { .. }
        | ApiRequest::Remote { .. }
        | ApiRequest::Transfer { .. }
        | ApiRequest::ShufflePlay { .. }
        | ApiRequest::AddToQueue { .. } => OperationModel::Playback,
        ApiRequest::RecentlyPlayed { .. }
        | ApiRequest::TopTracks { .. }
        | ApiRequest::TopArtists { .. }
        | ApiRequest::SavedTracks { .. }
        | ApiRequest::SavedAlbums { .. }
        | ApiRequest::FollowedArtists { .. }
        | ApiRequest::SavedShows { .. }
        | ApiRequest::SavedEpisodes { .. }
        | ApiRequest::SetSaved { .. } => OperationModel::UserData,
        // Development Mode cannot answer membership for playlists it omits.
        ApiRequest::Contains { uris } => if names_playlist(uris@) {
            OperationModel::UnsupportedDevelopmentMode
        } else {
            OperationModel::UserData
        },
        ApiRequest::MyPlaylists { .. } => OperationModel::PlaylistLibrary,
        ApiRequest::CreatePlaylist { .. } => OperationModel::PlaylistCreation,
        ApiRequest::Discover { .. } => OperationModel::PlaylistSearch,
        ApiRequest::Playlist { id, .. } => OperationModel::PlaylistMetadata(api.access(id@)),
        ApiRequest::PlaylistItems { id, .. }
        | ApiRequest::PlaylistSample { id, .. } => OperationModel::PlaylistItems(api.access(id@)),
        ApiRequest::CheckPlaylistDuplicates { playlist_id, .. } => OperationModel::PlaylistItems(
            api.access(playlist_id@),
        ),
        ApiRequest::UpdatePlaylist { id, .. }
        | ApiRequest::FollowPlaylist { id, .. } => OperationModel::PlaylistMutation(
            api.access(id@),
        ),
        ApiRequest::AddToPlaylist { playlist_id, .. }
        | ApiRequest::RemoveFromPlaylist { playlist_id, .. }
        | ApiRequest::ReorderPlaylist { playlist_id, .. } => OperationModel::PlaylistMutation(
            api.access(playlist_id@),
        ),
        ApiRequest::Recommendations { .. }
        | ApiRequest::ArtistTopTracks { .. }
        | ApiRequest::RelatedArtists { .. } => OperationModel::UnsupportedDevelopmentMode,
        ApiRequest::Search { .. }
        | ApiRequest::Artist { .. }
        | ApiRequest::ArtistAlbums { .. }
        | ApiRequest::Album { .. }
        | ApiRequest::AlbumTracks { .. }
        | ApiRequest::Show { .. }
        | ApiRequest::ShowEpisodes { .. }
        | ApiRequest::Track { .. }
        | ApiRequest::Episode { .. } => OperationModel::Catalog,
    }
}

/// The route of a request.
pub fn operation_for(api: &ApiGateway, request: &ApiRequest) -> (operation: Operation)
    ensures
        operation@ == route(api@, *request),
{
    match request {
        ApiRequest::Me => Operation::CanonicalAccount,
        ApiRequest::Devices
        | ApiRequest::PlaybackState { .. }
        | ApiRequest::Queue { .. }
        | ApiRequest::Remote { .. }
        | ApiRequest::Transfer { .. }
        | ApiRequest::ShufflePlay { .. }
        | ApiRequest::AddToQueue { .. } => Operation::Playback,
        ApiRequest::RecentlyPlayed { .. }
        | ApiRequest::TopTracks { .. }
        | ApiRequest::TopArtists { .. }
        | ApiRequest::SavedTracks { .. }
        | ApiRequest::SavedAlbums { .. }
        | ApiRequest::FollowedArtists { .. }
        | ApiRequest::SavedShows { .. }
        | ApiRequest::SavedEpisodes { .. }
        | ApiRequest::SetSaved { .. } => Operation::UserData,
        ApiRequest::Contains { uris } => if any_playlist(uris) {
            Operation::UnsupportedDevelopmentMode
        } else {
            Operation::UserData
        },
        ApiRequest::MyPlaylists { .. } => Operation::PlaylistLibrary,
        ApiRequest::CreatePlaylist { .. } => Operation::PlaylistCreation,
        ApiRequest::Discover { .. } => Operation::PlaylistSearch,
        // Ordinary catalog search may use the personal app: Spotify leaves the
        // playlists such an app cannot see out of the answer, it does not
        // refuse the request.
        ApiRequest::Search { .. } => Operation::Catalog,
        ApiRequest::Playlist { id, .. } => Operation::PlaylistMetadata(api.playlist_access(id)),
        ApiRequest::PlaylistItems { id, .. }
        | ApiRequest::PlaylistSample { id, .. } => Operation::PlaylistItems(
            api.playlist_access(id),
        ),
        ApiRequest::CheckPlaylistDuplicates { playlist_id, .. } => Operation::PlaylistItems(
            api.playlist_access(playlist_id),
        ),
        ApiRequest::UpdatePlaylist { id, .. }
        | ApiRequest::FollowPlaylist { id, .. } => Operation::PlaylistMutation(
            api.playlist_access(id),
        ),
        ApiRequest::AddToPlaylist { playlist_id, .. }
        | ApiRequest::RemoveFromPlaylist { playlist_id, .. }
        | ApiRequest::ReorderPlaylist { playlist_id, .. } => Operation::PlaylistMutation(
            api.playlist_access(playlist_id),
        ),
        ApiRequest::Recommendations { .. }
        | ApiRequest::ArtistTopTracks { .. }
        | ApiRequest::RelatedArtists { .. } => Operation::UnsupportedDevelopmentMode,
        ApiRequest::Artist { .. }
        | ApiRequest::ArtistAlbums { .. }
        | ApiRequest::Album { .. }
        | ApiRequest::AlbumTracks { .. }
        | ApiRequest::Show { .. }
        | ApiRequest::ShowEpisodes { .. }
        | ApiRequest::Track { .. }
        | ApiRequest::Episode { .. } => Operation::Catalog,
    }
}

}
