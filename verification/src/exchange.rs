//! Carrying one request to the Web API: which call to make, and the answer
//! once the call has come back.

use vstd::prelude::*;
use vstd::string::*;

use crate::gateway::{ApiError, ApiGateway, ApiSource};
use crate::models::{
    Album, Artist, CursorPage, Device, Episode, Page, PlayHistory, PlayRequest, PlayableItem,
    PlaybackState, Playlist, PlaylistItem, Queue, SavedAlbum, SavedEpisode, SavedShow, SavedTrack,
    SearchResults, Show, Track, User,
};
use crate::requests::{ApiRequest, RemoteAction, PLAYLIST_PAGE_SIZE};
use crate::responses::{observe_playlists, observed, ApiResponse, ApiResult};
use crate::text::joined;

verus! {

/// The span that the most-played lists cover.
#[derive(Clone, Copy, Debug, PartialEq, Eq, Structural)]
pub enum TimeRange {
    Short,
    Medium,
}

impl TimeRange {
    /// The name the Web API has for the span.
    pub fn name(self) -> (name: String)
        ensures
            name@ == match self {
                TimeRange::Short => "short_term"@,
                TimeRange::Medium => "medium_term"@,
            },
    {
        match self {
            TimeRange::Short => "short_term".to_owned(),
            TimeRange::Medium => "medium_term".to_owned(),
        }
    }
}

/// What a search looks for.
#[derive(Clone, Copy, Debug, PartialEq, Eq, Structural)]
pub enum SearchKinds {
    Playlists,
    Everything,
}

impl SearchKinds {
    /// The names the Web API has for the kinds.
    pub fn names(self) -> (names: Vec<String>)
        ensures
            names.deep_view() == match self {
                SearchKinds::Playlists => seq!["playlist"@],
                SearchKinds::Everything => seq![
                    "track"@,
                    "artist"@,
                    "album"@,
                    "playlist"@,
                    "show"@,
                    "episode"@,
                ],
            },
    {
        let mut names: Vec<String> = Vec::new();
        match self {
            SearchKinds::Playlists => {
                names.push("playlist".to_owned());
            },
            SearchKinds::Everything => {
                names.push("track".to_owned());
                names.push("artist".to_owned());
                names.push("album".to_owned());
                names.push("playlist".to_owned());
                names.push("show".to_owned());
                names.push("episode".to_owned());
            },
        }
        names
    }
}

/// One call to the Web API.
#[derive(Debug)]
pub enum ApiCall<'a> {
    Me,
    Devices,
    PlaybackState,
    Queue,
    RecentlyPlayed { limit: u32, before: &'a Option<String> },
    TopTracks { range: TimeRange, limit: u32, offset: u32 },
    TopArtists { range: TimeRange, limit: u32 },
    Recommendations { seed_tracks: &'a Vec<String>, seed_artists: &'a Vec<String>, limit: u32 },
    Search { query: &'a String, kinds: SearchKinds },
    MyPlaylists { offset: u32, limit: u32 },
    Playlist { id: &'a String },
    PlaylistItems { id: &'a String, offset: u32, limit: u32 },
    CreatePlaylist { name: &'a String, public: bool, description: &'a String },
    UpdatePlaylist {
        id: &'a String,
        name: &'a Option<String>,
        description: &'a Option<String>,
        public: Option<bool>,
    },
    PlaylistDuplicates { id: &'a String, uris: Vec<String> },
    AddPlaylistItems { id: &'a String, uris: &'a Vec<String>, position: Option<u32> },
    RemovePlaylistItems {
        id: &'a String,
        uris: &'a Vec<String>,
        snapshot_id: &'a Option<String>,
    },
    ReorderPlaylist {
        id: &'a String,
        range_start: u32,
        insert_before: u32,
        snapshot_id: &'a Option<String>,
    },
    FollowPlaylist { id: &'a String },
    UnfollowPlaylist { id: &'a String },
    SavedTracks { offset: u32, limit: u32 },
    SavedAlbums { offset: u32, limit: u32 },
    FollowedArtists { after: &'a Option<String>, limit: u32 },
    SavedShows { offset: u32, limit: u32 },
    SavedEpisodes { offset: u32, limit: u32 },
    Save { uris: &'a Vec<String> },
    Unsave { uris: &'a Vec<String> },
    Contains { uris: &'a Vec<String> },
    Artist { id: &'a String },
    ArtistTopTracks { id: &'a String },
    ArtistAlbums { id: &'a String, groups: &'a String, offset: u32, limit: u32 },
    RelatedArtists { id: &'a String },
    Album { id: &'a String },
    AlbumTracks { id: &'a String, offset: u32, limit: u32 },
    Show { id: &'a String },
    ShowEpisodes { id: &'a String, offset: u32, limit: u32 },
    Track { id: &'a String },
    Episode { id: &'a String },
    Play { device_id: &'a Option<String>, play: Option<&'a PlayRequest> },
    Pause { device_id: &'a Option<String> },
    Next { device_id: &'a Option<String> },
    Previous { device_id: &'a Option<String> },
    Seek { position_ms: u32, device_id: &'a Option<String> },
    Volume { percent: u8, device_id: &'a Option<String> },
    Shuffle { on: bool, device_id: &'a Option<String> },
    Repeat { mode: &'a String, device_id: &'a Option<String> },
    Transfer { device_id: &'a String, play: bool },
    AddToQueue { uri: &'a String, device_id: &'a Option<String> },
}

/// A request on its way, with the account it was sent for.
pub struct Exchange {
    pub request: ApiRequest,
    pub account_id: Option<String>,
    /// Whether shuffle is on already, for a request that turns it on first.
    pub shuffled: bool,
}

impl Exchange {
    /// Puts a request on its way for the account the gateway has verified.
    pub fn open(api: &ApiGateway, request: ApiRequest) -> (exchange: Exchange)
        ensures
            exchange.request == request,
            exchange.account_id.deep_view() == api@.account(),
            !exchange.shuffled,
    {
        let account_id = match api.account() {
            Some(account) => Some(account.into_string()),
            None => None,
        };
        Exchange { request, account_id, shuffled: false }
    }
}

/// The uris of `items`, in order.
pub open spec fn uris_of(items: Seq<PlayableItem>) -> Seq<Seq<char>> {
    items.map_values(|item: PlayableItem| item.spec_uri())
}

/// The uris of `items`, in order.
fn collect_uris(items: &Vec<PlayableItem>) -> (uris: Vec<String>)
    ensures
        uris.deep_view() == uris_of(items@),
{
    let mut uris: Vec<String> = Vec::new();
    let mut i: usize = 0;
    while i < items.len()
        invariant
            i <= items@.len(),
            uris@.len() == i,
            forall|j: int| 0 <= j < i ==> #[trigger] uris@[j]@ == items@[j].spec_uri(),
        decreases items@.len() - i,
    {
        uris.push(items[i].uri());
        i += 1;
    }
    assert(uris.deep_view() =~= uris_of(items@));
    uris
}

/// What a remote device is asked to play, where something is.
pub open spec fn spec_wanted<'a>(play: Option<PlayRequest>) -> Option<&'a PlayRequest> {
    match play {
        Some(play) => Some(&play),
        None => None,
    }
}

fn wanted(play: &Option<PlayRequest>) -> (wanted: Option<&PlayRequest>)
    ensures
        wanted == spec_wanted(*play),
{
    match play {
        Some(play) => Some(play),
        None => None,
    }
}

/// The playlists a search found.
pub open spec fn found_playlists(results: SearchResults) -> Seq<Playlist> {
    match results.playlists {
        Some(page) => page.items@,
        None => Seq::empty(),
    }
}

/// Whether an answer reports a change to the rows of a playlist.
pub open spec fn changed(
    response: ApiResponse,
    playlist_id: String,
    shown: Seq<char>,
    snapshot: ApiResult<Option<String>>,
) -> bool {
    &&& response matches ApiResponse::PlaylistItemsChanged { id, message, result }
    &&& id == playlist_id
    &&& message@ == shown
    &&& result == snapshot
}

/// What a call to the Web API came back with, by the kind of value it gives.
#[derive(Debug)]
pub enum ApiReply {
    User(ApiResult<User>),
    Devices(ApiResult<Vec<Device>>),
    PlaybackState(ApiResult<Option<PlaybackState>>),
    Queue(ApiResult<Queue>),
    History(ApiResult<CursorPage<PlayHistory>>),
    TrackPage(ApiResult<Page<Track>>),
    ArtistPage(ApiResult<Page<Artist>>),
    Tracks(ApiResult<Vec<Track>>),
    Found(ApiResult<SearchResults>),
    PlaylistPage(ApiResult<Page<Playlist>>),
    Playlist(ApiResult<Playlist>),
    Rows(ApiResult<Page<PlaylistItem>>),
    Done(ApiResult<()>),
    Uris(ApiResult<Vec<String>>),
    Snapshot(ApiResult<Option<String>>),
    SavedTracks(ApiResult<Page<SavedTrack>>),
    SavedAlbums(ApiResult<Page<SavedAlbum>>),
    ArtistCursor(ApiResult<CursorPage<Artist>>),
    SavedShows(ApiResult<Page<SavedShow>>),
    SavedEpisodes(ApiResult<Page<SavedEpisode>>),
    Flags(ApiResult<Vec<bool>>),
    Artist(ApiResult<Artist>),
    Artists(ApiResult<Vec<Artist>>),
    AlbumPage(ApiResult<Page<Album>>),
    Album(ApiResult<Album>),
    Show(ApiResult<Show>),
    EpisodePage(ApiResult<Page<Episode>>),
    Track(ApiResult<Track>),
    Episode(ApiResult<Episode>),
}

impl ApiReply {
    /// The error a call failed with.
    pub open spec fn spec_error(self) -> Option<ApiError> {
        match self {
            ApiReply::User(Err(error)) => Some(error),
            ApiReply::Devices(Err(error)) => Some(error),
            ApiReply::PlaybackState(Err(error)) => Some(error),
            ApiReply::Queue(Err(error)) => Some(error),
            ApiReply::History(Err(error)) => Some(error),
            ApiReply::TrackPage(Err(error)) => Some(error),
            ApiReply::ArtistPage(Err(error)) => Some(error),
            ApiReply::Tracks(Err(error)) => Some(error),
            ApiReply::Found(Err(error)) => Some(error),
            ApiReply::PlaylistPage(Err(error)) => Some(error),
            ApiReply::Playlist(Err(error)) => Some(error),
            ApiReply::Rows(Err(error)) => Some(error),
            ApiReply::Done(Err(error)) => Some(error),
            ApiReply::Uris(Err(error)) => Some(error),
            ApiReply::Snapshot(Err(error)) => Some(error),
            ApiReply::SavedTracks(Err(error)) => Some(error),
            ApiReply::SavedAlbums(Err(error)) => Some(error),
            ApiReply::ArtistCursor(Err(error)) => Some(error),
            ApiReply::SavedShows(Err(error)) => Some(error),
            ApiReply::SavedEpisodes(Err(error)) => Some(error),
            ApiReply::Flags(Err(error)) => Some(error),
            ApiReply::Artist(Err(error)) => Some(error),
            ApiReply::Artists(Err(error)) => Some(error),
            ApiReply::AlbumPage(Err(error)) => Some(error),
            ApiReply::Album(Err(error)) => Some(error),
            ApiReply::Show(Err(error)) => Some(error),
            ApiReply::EpisodePage(Err(error)) => Some(error),
            ApiReply::Track(Err(error)) => Some(error),
            ApiReply::Episode(Err(error)) => Some(error),
            _ => None,
        }
    }

    /// The app whose grant a call found expired.
    pub open spec fn spec_expired(self) -> Option<ApiSource> {
        match self.spec_error() {
            Some(error) => error.spec_expired(),
            None => None,
        }
    }

    /// The app whose grant a call found expired.
    pub fn expired(&self) -> (source: Option<ApiSource>)
        ensures
            source == self.spec_expired(),
    {
        match self {
            ApiReply::User(Err(error)) => error.expired(),
            ApiReply::Devices(Err(error)) => error.expired(),
            ApiReply::PlaybackState(Err(error)) => error.expired(),
            ApiReply::Queue(Err(error)) => error.expired(),
            ApiReply::History(Err(error)) => error.expired(),
            ApiReply::TrackPage(Err(error)) => error.expired(),
            ApiReply::ArtistPage(Err(error)) => error.expired(),
            ApiReply::Tracks(Err(error)) => error.expired(),
            ApiReply::Found(Err(error)) => error.expired(),
            ApiReply::PlaylistPage(Err(error)) => error.expired(),
            ApiReply::Playlist(Err(error)) => error.expired(),
            ApiReply::Rows(Err(error)) => error.expired(),
            ApiReply::Done(Err(error)) => error.expired(),
            ApiReply::Uris(Err(error)) => error.expired(),
            ApiReply::Snapshot(Err(error)) => error.expired(),
            ApiReply::SavedTracks(Err(error)) => error.expired(),
            ApiReply::SavedAlbums(Err(error)) => error.expired(),
            ApiReply::ArtistCursor(Err(error)) => error.expired(),
            ApiReply::SavedShows(Err(error)) => error.expired(),
            ApiReply::SavedEpisodes(Err(error)) => error.expired(),
            ApiReply::Flags(Err(error)) => error.expired(),
            ApiReply::Artist(Err(error)) => error.expired(),
            ApiReply::Artists(Err(error)) => error.expired(),
            ApiReply::AlbumPage(Err(error)) => error.expired(),
            ApiReply::Album(Err(error)) => error.expired(),
            ApiReply::Show(Err(error)) => error.expired(),
            ApiReply::EpisodePage(Err(error)) => error.expired(),
            ApiReply::Track(Err(error)) => error.expired(),
            ApiReply::Episode(Err(error)) => error.expired(),
            _ => None,
        }
    }
}

/// Whether a reply is of the kind that a request's calls give.
pub open spec fn fits(request: ApiRequest, reply: ApiReply) -> bool {
    match request {
        ApiRequest::Me => reply is User,
        ApiRequest::Devices => reply is Devices,
        ApiRequest::PlaybackState { .. } => reply is PlaybackState,
        ApiRequest::Queue { .. } => reply is Queue,
        ApiRequest::RecentlyPlayed { .. } => reply is History,
        ApiRequest::TopTracks { .. } => reply is TrackPage,
        ApiRequest::TopArtists { .. } => reply is ArtistPage,
        ApiRequest::Recommendations { .. } => reply is Tracks,
        ApiRequest::Discover { .. } => reply is Found,
        ApiRequest::MyPlaylists { .. } => reply is PlaylistPage,
        ApiRequest::Playlist { .. } => reply is Playlist,
        ApiRequest::PlaylistItems { .. } => reply is Rows,
        ApiRequest::PlaylistSample { .. } => reply is Rows,
        ApiRequest::CreatePlaylist { .. } => reply is Playlist,
        ApiRequest::UpdatePlaylist { .. } => reply is Done,
        ApiRequest::CheckPlaylistDuplicates { .. } => reply is Uris,
        ApiRequest::AddToPlaylist { .. } => reply is Snapshot,
        ApiRequest::RemoveFromPlaylist { .. } => reply is Snapshot,
        ApiRequest::ReorderPlaylist { .. } => reply is Snapshot,
        ApiRequest::FollowPlaylist { .. } => reply is Done,
        ApiRequest::SavedTracks { .. } => reply is SavedTracks,
        ApiRequest::SavedAlbums { .. } => reply is SavedAlbums,
        ApiRequest::FollowedArtists { .. } => reply is ArtistCursor,
        ApiRequest::SavedShows { .. } => reply is SavedShows,
        ApiRequest::SavedEpisodes { .. } => reply is SavedEpisodes,
        ApiRequest::SetSaved { .. } => reply is Done,
        ApiRequest::Contains { .. } => reply is Flags,
        ApiRequest::Search { .. } => reply is Found,
        ApiRequest::Artist { .. } => reply is Artist,
        ApiRequest::ArtistTopTracks { .. } => reply is Tracks,
        ApiRequest::ArtistAlbums { .. } => reply is AlbumPage,
        ApiRequest::RelatedArtists { .. } => reply is Artists,
        ApiRequest::Album { .. } => reply is Album,
        ApiRequest::AlbumTracks { .. } => reply is TrackPage,
        ApiRequest::Show { .. } => reply is Show,
        ApiRequest::ShowEpisodes { .. } => reply is EpisodePage,
        ApiRequest::Track { .. } => reply is Track,
        ApiRequest::Episode { .. } => reply is Episode,
        ApiRequest::Remote { .. } => reply is Done,
        ApiRequest::Transfer { .. } => reply is Done,
        ApiRequest::ShufflePlay { .. } => reply is Done,
        ApiRequest::AddToQueue { .. } => reply is Done,
    }
}

/// Whether a reply is of the kind that a request's calls give.
pub fn reply_fits(request: &ApiRequest, reply: &ApiReply) -> (fit: bool)
    ensures
        fit == fits(*request, *reply),
{
    match (request, reply) {
        (ApiRequest::Me, ApiReply::User(_)) => true,
        (ApiRequest::Devices, ApiReply::Devices(_)) => true,
        (ApiRequest::PlaybackState { .. }, ApiReply::PlaybackState(_)) => true,
        (ApiRequest::Queue { .. }, ApiReply::Queue(_)) => true,
        (ApiRequest::RecentlyPlayed { .. }, ApiReply::History(_)) => true,
        (ApiRequest::TopTracks { .. }, ApiReply::TrackPage(_)) => true,
        (ApiRequest::TopArtists { .. }, ApiReply::ArtistPage(_)) => true,
        (ApiRequest::Recommendations { .. }, ApiReply::Tracks(_)) => true,
        (ApiRequest::Discover { .. }, ApiReply::Found(_)) => true,
        (ApiRequest::MyPlaylists { .. }, ApiReply::PlaylistPage(_)) => true,
        (ApiRequest::Playlist { .. }, ApiReply::Playlist(_)) => true,
        (ApiRequest::PlaylistItems { .. }, ApiReply::Rows(_)) => true,
        (ApiRequest::PlaylistSample { .. }, ApiReply::Rows(_)) => true,
        (ApiRequest::CreatePlaylist { .. }, ApiReply::Playlist(_)) => true,
        (ApiRequest::UpdatePlaylist { .. }, ApiReply::Done(_)) => true,
        (ApiRequest::CheckPlaylistDuplicates { .. }, ApiReply::Uris(_)) => true,
        (ApiRequest::AddToPlaylist { .. }, ApiReply::Snapshot(_)) => true,
        (ApiRequest::RemoveFromPlaylist { .. }, ApiReply::Snapshot(_)) => true,
        (ApiRequest::ReorderPlaylist { .. }, ApiReply::Snapshot(_)) => true,
        (ApiRequest::FollowPlaylist { .. }, ApiReply::Done(_)) => true,
        (ApiRequest::SavedTracks { .. }, ApiReply::SavedTracks(_)) => true,
        (ApiRequest::SavedAlbums { .. }, ApiReply::SavedAlbums(_)) => true,
        (ApiRequest::FollowedArtists { .. }, ApiReply::ArtistCursor(_)) => true,
        (ApiRequest::SavedShows { .. }, ApiReply::SavedShows(_)) => true,
        (ApiRequest::SavedEpisodes { .. }, ApiReply::SavedEpisodes(_)) => true,
        (ApiRequest::SetSaved { .. }, ApiReply::Done(_)) => true,
        (ApiRequest::Contains { .. }, ApiReply::Flags(_)) => true,
        (ApiRequest::Search { .. }, ApiReply::Found(_)) => true,
        (ApiRequest::Artist { .. }, ApiReply::Artist(_)) => true,
        (ApiRequest::ArtistTopTracks { .. }, ApiReply::Tracks(_)) => true,
        (ApiRequest::ArtistAlbums { .. }, ApiReply::AlbumPage(_)) => true,
        (ApiRequest::RelatedArtists { .. }, ApiReply::Artists(_)) => true,
        (ApiRequest::Album { .. }, ApiReply::Album(_)) => true,
        (ApiRequest::AlbumTracks { .. }, ApiReply::TrackPage(_)) => true,
        (ApiRequest::Show { .. }, ApiReply::Show(_)) => true,
        (ApiRequest::ShowEpisodes { .. }, ApiReply::EpisodePage(_)) => true,
        (ApiRequest::Track { .. }, ApiReply::Track(_)) => true,
        (ApiRequest::Episode { .. }, ApiReply::Episode(_)) => true,
        (ApiRequest::Remote { .. }, ApiReply::Done(_)) => true,
        (ApiRequest::Transfer { .. }, ApiReply::Done(_)) => true,
        (ApiRequest::ShufflePlay { .. }, ApiReply::Done(_)) => true,
        (ApiRequest::AddToQueue { .. }, ApiReply::Done(_)) => true,
        _ => false,
    }
}

/// The reply to a request for which no app could be found.
pub fn refusal(request: &ApiRequest, error: ApiError) -> (reply: ApiReply)
    ensures
        fits(*request, reply),
        reply.spec_error() == Some(error),
{
    match request {
        ApiRequest::Me => ApiReply::User(Err(error)),
        ApiRequest::Devices => ApiReply::Devices(Err(error)),
        ApiRequest::PlaybackState { .. } => ApiReply::PlaybackState(Err(error)),
        ApiRequest::Queue { .. } => ApiReply::Queue(Err(error)),
        ApiRequest::RecentlyPlayed { .. } => ApiReply::History(Err(error)),
        ApiRequest::TopTracks { .. } => ApiReply::TrackPage(Err(error)),
        ApiRequest::TopArtists { .. } => ApiReply::ArtistPage(Err(error)),
        ApiRequest::Recommendations { .. } => ApiReply::Tracks(Err(error)),
        ApiRequest::Discover { .. } => ApiReply::Found(Err(error)),
        ApiRequest::MyPlaylists { .. } => ApiReply::PlaylistPage(Err(error)),
        ApiRequest::Playlist { .. } => ApiReply::Playlist(Err(error)),
        ApiRequest::PlaylistItems { .. } => ApiReply::Rows(Err(error)),
        ApiRequest::PlaylistSample { .. } => ApiReply::Rows(Err(error)),
        ApiRequest::CreatePlaylist { .. } => ApiReply::Playlist(Err(error)),
        ApiRequest::UpdatePlaylist { .. } => ApiReply::Done(Err(error)),
        ApiRequest::CheckPlaylistDuplicates { .. } => ApiReply::Uris(Err(error)),
        ApiRequest::AddToPlaylist { .. } => ApiReply::Snapshot(Err(error)),
        ApiRequest::RemoveFromPlaylist { .. } => ApiReply::Snapshot(Err(error)),
        ApiRequest::ReorderPlaylist { .. } => ApiReply::Snapshot(Err(error)),
        ApiRequest::FollowPlaylist { .. } => ApiReply::Done(Err(error)),
        ApiRequest::SavedTracks { .. } => ApiReply::SavedTracks(Err(error)),
        ApiRequest::SavedAlbums { .. } => ApiReply::SavedAlbums(Err(error)),
        ApiRequest::FollowedArtists { .. } => ApiReply::ArtistCursor(Err(error)),
        ApiRequest::SavedShows { .. } => ApiReply::SavedShows(Err(error)),
        ApiRequest::SavedEpisodes { .. } => ApiReply::SavedEpisodes(Err(error)),
        ApiRequest::SetSaved { .. } => ApiReply::Done(Err(error)),
        ApiRequest::Contains { .. } => ApiReply::Flags(Err(error)),
        ApiRequest::Search { .. } => ApiReply::Found(Err(error)),
        ApiRequest::Artist { .. } => ApiReply::Artist(Err(error)),
        ApiRequest::ArtistTopTracks { .. } => ApiReply::Tracks(Err(error)),
        ApiRequest::ArtistAlbums { .. } => ApiReply::AlbumPage(Err(error)),
        ApiRequest::RelatedArtists { .. } => ApiReply::Artists(Err(error)),
        ApiRequest::Album { .. } => ApiReply::Album(Err(error)),
        ApiRequest::AlbumTracks { .. } => ApiReply::TrackPage(Err(error)),
        ApiRequest::Show { .. } => ApiReply::Show(Err(error)),
        ApiRequest::ShowEpisodes { .. } => ApiReply::EpisodePage(Err(error)),
        ApiRequest::Track { .. } => ApiReply::Track(Err(error)),
        ApiRequest::Episode { .. } => ApiReply::Episode(Err(error)),
        ApiRequest::Remote { .. } => ApiReply::Done(Err(error)),
        ApiRequest::Transfer { .. } => ApiReply::Done(Err(error)),
        ApiRequest::ShufflePlay { .. } => ApiReply::Done(Err(error)),
        ApiRequest::AddToQueue { .. } => ApiReply::Done(Err(error)),
    }
}

/// Whether `call` is what `exchange` asks of the Web API next.
pub open spec fn asks(exchange: Exchange, call: ApiCall<'_>) -> bool {
    match exchange.request {
        ApiRequest::Me => call == ApiCall::Me,
        ApiRequest::Devices => call == ApiCall::Devices,
        ApiRequest::PlaybackState { .. } => call == ApiCall::PlaybackState,
        ApiRequest::Queue { .. } => call == ApiCall::Queue,
        ApiRequest::RecentlyPlayed { before, limit, .. } => {
            call == ApiCall::RecentlyPlayed { limit, before: &before }
        },
        ApiRequest::TopTracks { offset, full, .. } => {
            call == ApiCall::TopTracks {
                range: TimeRange::Short,
                limit: if full { 50 } else { 20 },
                offset,
            }
        },
        ApiRequest::TopArtists { .. } => {
            call == ApiCall::TopArtists { range: TimeRange::Medium, limit: 20 }
        },
        ApiRequest::Recommendations { seed_tracks, seed_artists, .. } => {
            call == ApiCall::Recommendations {
                seed_tracks: &seed_tracks,
                seed_artists: &seed_artists,
                limit: 20,
            }
        },
        ApiRequest::Discover { term, .. } => {
            call == ApiCall::Search { query: &term, kinds: SearchKinds::Playlists }
        },
        ApiRequest::MyPlaylists { offset } => call == ApiCall::MyPlaylists { offset, limit: 50 },
        ApiRequest::Playlist { id, .. } => call == ApiCall::Playlist { id: &id },
        ApiRequest::PlaylistItems { id, offset, .. } => {
            call == ApiCall::PlaylistItems { id: &id, offset, limit: PLAYLIST_PAGE_SIZE }
        },
        ApiRequest::PlaylistSample { id, offset, .. } => {
            call == ApiCall::PlaylistItems { id: &id, offset, limit: PLAYLIST_PAGE_SIZE }
        },
        ApiRequest::CreatePlaylist { name, public, description } => {
            call == ApiCall::CreatePlaylist { name: &name, public, description: &description }
        },
        ApiRequest::UpdatePlaylist { id, name, description, public } => {
            call == ApiCall::UpdatePlaylist {
                id: &id,
                name: &name,
                description: &description,
                public,
            }
        },
        ApiRequest::CheckPlaylistDuplicates { playlist_id, items, .. } => {
            &&& call matches ApiCall::PlaylistDuplicates { id, uris }
            &&& *id == playlist_id
            &&& uris.deep_view() == uris_of(items@)
        },
        ApiRequest::AddToPlaylist { playlist_id, uris, position, .. } => {
            call == ApiCall::AddPlaylistItems { id: &playlist_id, uris: &uris, position }
        },
        ApiRequest::RemoveFromPlaylist { playlist_id, uris, snapshot_id } => {
            call == ApiCall::RemovePlaylistItems {
                id: &playlist_id,
                uris: &uris,
                snapshot_id: &snapshot_id,
            }
        },
        ApiRequest::ReorderPlaylist { playlist_id, range_start, insert_before, snapshot_id } => {
            call == ApiCall::ReorderPlaylist {
                id: &playlist_id,
                range_start,
                insert_before,
                snapshot_id: &snapshot_id,
            }
        },
        ApiRequest::FollowPlaylist { id, follow } => call == if follow {
            ApiCall::FollowPlaylist { id: &id }
        } else {
            ApiCall::UnfollowPlaylist { id: &id }
        },
        ApiRequest::SavedTracks { offset, .. } => {
            call == ApiCall::SavedTracks { offset, limit: 50 }
        },
        ApiRequest::SavedAlbums { offset } => call == ApiCall::SavedAlbums { offset, limit: 50 },
        ApiRequest::FollowedArtists { after } => {
            call == ApiCall::FollowedArtists { after: &after, limit: 50 }
        },
        ApiRequest::SavedShows { offset } => call == ApiCall::SavedShows { offset, limit: 50 },
        ApiRequest::SavedEpisodes { offset } => {
            call == ApiCall::SavedEpisodes { offset, limit: 50 }
        },
        ApiRequest::SetSaved { uris, saved } => call == if saved {
            ApiCall::Save { uris: &uris }
        } else {
            ApiCall::Unsave { uris: &uris }
        },
        ApiRequest::Contains { uris } => call == ApiCall::Contains { uris: &uris },
        ApiRequest::Search { query, .. } => {
            call == ApiCall::Search { query: &query, kinds: SearchKinds::Everything }
        },
        ApiRequest::Artist { id } => call == ApiCall::Artist { id: &id },
        ApiRequest::ArtistTopTracks { id } => call == ApiCall::ArtistTopTracks { id: &id },
        ApiRequest::ArtistAlbums { id, groups, offset } => {
            call == ApiCall::ArtistAlbums { id: &id, groups: &groups, offset, limit: 50 }
        },
        ApiRequest::RelatedArtists { id } => call == ApiCall::RelatedArtists { id: &id },
        ApiRequest::Album { id } => call == ApiCall::Album { id: &id },
        ApiRequest::AlbumTracks { id, offset } => {
            call == ApiCall::AlbumTracks { id: &id, offset, limit: 50 }
        },
        ApiRequest::Show { id } => call == ApiCall::Show { id: &id },
        ApiRequest::ShowEpisodes { id, offset } => {
            call == ApiCall::ShowEpisodes { id: &id, offset, limit: 50 }
        },
        ApiRequest::Track { id } => call == ApiCall::Track { id: &id },
        ApiRequest::Episode { id } => call == ApiCall::Episode { id: &id },
        ApiRequest::Remote {
            action,
            device_id,
            play,
            position_ms,
            percent,
            flag,
            repeat,
        } => call == match action {
            RemoteAction::Play => ApiCall::Play { device_id: &device_id, play: spec_wanted(play) },
            RemoteAction::Pause => ApiCall::Pause { device_id: &device_id },
            RemoteAction::Next => ApiCall::Next { device_id: &device_id },
            RemoteAction::Previous => ApiCall::Previous { device_id: &device_id },
            RemoteAction::Seek => ApiCall::Seek { position_ms, device_id: &device_id },
            RemoteAction::Volume => ApiCall::Volume { percent, device_id: &device_id },
            RemoteAction::Shuffle => ApiCall::Shuffle { on: flag, device_id: &device_id },
            RemoteAction::Repeat => ApiCall::Repeat { mode: &repeat, device_id: &device_id },
        },
        ApiRequest::Transfer { device_id, play } => {
            call == ApiCall::Transfer { device_id: &device_id, play }
        },
        ApiRequest::ShufflePlay { device_id, play } => call == if exchange.shuffled {
            ApiCall::Play { device_id: &device_id, play: Some(&play) }
        } else {
            ApiCall::Shuffle { on: true, device_id: &device_id }
        },
        ApiRequest::AddToQueue { uri, device_id, .. } => {
            call == ApiCall::AddToQueue { uri: &uri, device_id: &device_id }
        },
    }
}

impl Exchange {
    /// What to ask of the Web API next.
    pub fn call(&self) -> (call: ApiCall<'_>)
        ensures
            asks(*self, call),
    {
        match &self.request {
            ApiRequest::Me => ApiCall::Me,
            ApiRequest::Devices => ApiCall::Devices,
            ApiRequest::PlaybackState { .. } => ApiCall::PlaybackState,
            ApiRequest::Queue { .. } => ApiCall::Queue,
            ApiRequest::RecentlyPlayed { before, limit, .. } => {
                ApiCall::RecentlyPlayed { limit: *limit, before }
            },
            ApiRequest::TopTracks { offset, full, .. } => {
                ApiCall::TopTracks {
                    range: TimeRange::Short,
                    limit: if *full { 50 } else { 20 },
                    offset: *offset,
                }
            },
            ApiRequest::TopArtists { .. } => {
                ApiCall::TopArtists { range: TimeRange::Medium, limit: 20 }
            },
            ApiRequest::Recommendations { seed_tracks, seed_artists, .. } => {
                ApiCall::Recommendations { seed_tracks, seed_artists, limit: 20 }
            },
            ApiRequest::Discover { term, .. } => {
                ApiCall::Search { query: term, kinds: SearchKinds::Playlists }
            },
            ApiRequest::MyPlaylists { offset } => {
                ApiCall::MyPlaylists { offset: *offset, limit: 50 }
            },
            ApiRequest::Playlist { id, .. } => ApiCall::Playlist { id },
            ApiRequest::PlaylistItems { id, offset, .. } => {
                ApiCall::PlaylistItems { id, offset: *offset, limit: PLAYLIST_PAGE_SIZE }
            },
            ApiRequest::PlaylistSample { id, offset, .. } => {
                ApiCall::PlaylistItems { id, offset: *offset, limit: PLAYLIST_PAGE_SIZE }
            },
            ApiRequest::CreatePlaylist { name, public, description } => {
                ApiCall::CreatePlaylist { name, public: *public, description }
            },
            ApiRequest::UpdatePlaylist { id, name, description, public } => {
                ApiCall::UpdatePlaylist { id, name, description, public: *public }
            },
            ApiRequest::CheckPlaylistDuplicates { playlist_id, items, .. } =>
            ApiCall::PlaylistDuplicates { id: playlist_id, uris: collect_uris(items) },
            ApiRequest::AddToPlaylist { playlist_id, uris, position, .. } => {
                ApiCall::AddPlaylistItems { id: playlist_id, uris, position: *position }
            },
            ApiRequest::RemoveFromPlaylist { playlist_id, uris, snapshot_id } => {
                ApiCall::RemovePlaylistItems { id: playlist_id, uris, snapshot_id }
            },
            ApiRequest::ReorderPlaylist {
                playlist_id,
                range_start,
                insert_before,
                snapshot_id,
            } => {
                ApiCall::ReorderPlaylist {
                    id: playlist_id,
                    range_start: *range_start,
                    insert_before: *insert_before,
                    snapshot_id,
                }
            },
            ApiRequest::FollowPlaylist { id, follow } => if *follow {
                ApiCall::FollowPlaylist { id }
            } else {
                ApiCall::UnfollowPlaylist { id }
            },
            ApiRequest::SavedTracks { offset, .. } => {
                ApiCall::SavedTracks { offset: *offset, limit: 50 }
            },
            ApiRequest::SavedAlbums { offset } => {
                ApiCall::SavedAlbums { offset: *offset, limit: 50 }
            },
            ApiRequest::FollowedArtists { after } => ApiCall::FollowedArtists { after, limit: 50 },
            ApiRequest::SavedShows { offset } => ApiCall::SavedShows { offset: *offset, limit: 50 },
            ApiRequest::SavedEpisodes { offset } => {
                ApiCall::SavedEpisodes { offset: *offset, limit: 50 }
            },
            ApiRequest::SetSaved { uris, saved } => if *saved {
                ApiCall::Save { uris }
            } else {
                ApiCall::Unsave { uris }
            },
            ApiRequest::Contains { uris } => ApiCall::Contains { uris },
            ApiRequest::Search { query, .. } => {
                ApiCall::Search { query, kinds: SearchKinds::Everything }
            },
            ApiRequest::Artist { id } => ApiCall::Artist { id },
            ApiRequest::ArtistTopTracks { id } => ApiCall::ArtistTopTracks { id },
            ApiRequest::ArtistAlbums { id, groups, offset } => {
                ApiCall::ArtistAlbums { id, groups, offset: *offset, limit: 50 }
            },
            ApiRequest::RelatedArtists { id } => ApiCall::RelatedArtists { id },
            ApiRequest::Album { id } => ApiCall::Album { id },
            ApiRequest::AlbumTracks { id, offset } => {
                ApiCall::AlbumTracks { id, offset: *offset, limit: 50 }
            },
            ApiRequest::Show { id } => ApiCall::Show { id },
            ApiRequest::ShowEpisodes { id, offset } => {
                ApiCall::ShowEpisodes { id, offset: *offset, limit: 50 }
            },
            ApiRequest::Track { id } => ApiCall::Track { id },
            ApiRequest::Episode { id } => ApiCall::Episode { id },
            ApiRequest::Remote {
                action,
                device_id,
                play,
                position_ms,
                percent,
                flag,
                repeat,
            } => match action {
                RemoteAction::Play => ApiCall::Play { device_id, play: wanted(play) },
                RemoteAction::Pause => ApiCall::Pause { device_id },
                RemoteAction::Next => ApiCall::Next { device_id },
                RemoteAction::Previous => ApiCall::Previous { device_id },
                RemoteAction::Seek => ApiCall::Seek { position_ms: *position_ms, device_id },
                RemoteAction::Volume => ApiCall::Volume { percent: *percent, device_id },
                RemoteAction::Shuffle => ApiCall::Shuffle { on: *flag, device_id },
                RemoteAction::Repeat => ApiCall::Repeat { mode: repeat, device_id },
            },
            ApiRequest::Transfer { device_id, play } => {
                ApiCall::Transfer { device_id, play: *play }
            },
            ApiRequest::ShufflePlay { device_id, play } => if self.shuffled {
                ApiCall::Play { device_id, play: Some(play) }
            } else {
                ApiCall::Shuffle { on: true, device_id }
            },
            ApiRequest::AddToQueue { uri, device_id, .. } => ApiCall::AddToQueue { uri, device_id },
        }
    }
}

/// Whether `response` is the answer to the request of `exchange` once `reply`
/// has come: it carries what the interface knows the request by, and the
/// outcome of the call.
pub open spec fn answers(exchange: Exchange, reply: ApiReply, response: ApiResponse) -> bool {
    match (exchange.request, reply) {
        (ApiRequest::Me, ApiReply::User(result)) => response == (ApiResponse::Me(result)),
        (ApiRequest::Devices, ApiReply::Devices(result)) => {
            response == (ApiResponse::Devices(result))
        },
        (ApiRequest::PlaybackState { seq }, ApiReply::PlaybackState(result)) => {
            response == (ApiResponse::PlaybackState { seq, result })
        },
        (ApiRequest::Queue { seq }, ApiReply::Queue(result)) => {
            response == (ApiResponse::Queue { seq, result })
        },
        (ApiRequest::RecentlyPlayed { who, generation, limit, .. }, ApiReply::History(result)) => {
            response == (ApiResponse::RecentlyPlayed { who, generation, limit, result })
        },
        (ApiRequest::TopTracks { offset, full, generation }, ApiReply::TrackPage(result)) => {
            response == (ApiResponse::TopTracks { offset, full, generation, result })
        },
        (ApiRequest::TopArtists { generation }, ApiReply::ArtistPage(result)) => response
            == (ApiResponse::TopArtists {
            generation,
            result: match result {
                Ok(page) => Ok(page.items),
                Err(error) => Err(error),
            },
        }),
        (ApiRequest::Recommendations { generation, .. }, ApiReply::Tracks(result)) => {
            response == (ApiResponse::Recommendations { generation, result })
        },
        (ApiRequest::Discover { term, generation }, ApiReply::Found(found)) => {
            &&& response matches ApiResponse::Discover { term: t, generation: g, result }
            &&& t == term
            &&& g == generation
            &&& match found {
                Ok(results) => result matches Ok(playlists) && playlists@ == found_playlists(
                    results,
                ),
                Err(error) => result == Err::<Vec<Playlist>, ApiError>(error),
            }
        },
        (ApiRequest::MyPlaylists { offset }, ApiReply::PlaylistPage(result)) => {
            response == (ApiResponse::MyPlaylists { offset, result })
        },
        (ApiRequest::Playlist { id, generation }, ApiReply::Playlist(result)) => {
            response == (ApiResponse::Playlist { id, generation, result })
        },
        (ApiRequest::PlaylistItems { id, offset, generation }, ApiReply::Rows(result)) => {
            response == (ApiResponse::PlaylistItems { id, offset, generation, result })
        },
        (ApiRequest::PlaylistSample { id, generation, .. }, ApiReply::Rows(result)) => {
            response == (ApiResponse::PlaylistSample { id, generation, result })
        },
        (ApiRequest::CreatePlaylist { .. }, ApiReply::Playlist(result)) => {
            response == (ApiResponse::PlaylistCreated(result))
        },
        (ApiRequest::UpdatePlaylist { id, .. }, ApiReply::Done(result)) => {
            response == (ApiResponse::PlaylistUpdated { id, result })
        },
        (ApiRequest::CheckPlaylistDuplicates {
            playlist_id,
            playlist_name,
            items,
            position,
        }, ApiReply::Uris(result)) => {
            response == (ApiResponse::PlaylistDuplicatesChecked {
                playlist_id,
                playlist_name,
                items,
                position,
                result,
            })
        },
        (
            ApiRequest::AddToPlaylist { playlist_id, playlist_name, .. },
            ApiReply::Snapshot(snapshot),
        ) => changed(response, playlist_id, "Added to "@ + playlist_name@, snapshot),
        (ApiRequest::RemoveFromPlaylist { playlist_id, .. }, ApiReply::Snapshot(snapshot)) =>
        changed(response, playlist_id, "Removed from playlist"@, snapshot),
        (ApiRequest::ReorderPlaylist { playlist_id, .. }, ApiReply::Snapshot(snapshot)) => changed(
            response,
            playlist_id,
            Seq::empty(),
            snapshot,
        ),
        (ApiRequest::FollowPlaylist { id, follow }, ApiReply::Done(result)) => {
            response == (ApiResponse::PlaylistFollowChanged { id, followed: follow, result })
        },
        (ApiRequest::SavedTracks { offset, generation }, ApiReply::SavedTracks(result)) => response
            == (ApiResponse::SavedTracks {
            offset,
            generation,
            account_id: exchange.account_id,
            result,
        }),
        (ApiRequest::SavedAlbums { offset }, ApiReply::SavedAlbums(result)) => {
            response == (ApiResponse::SavedAlbums { offset, result })
        },
        (ApiRequest::FollowedArtists { after }, ApiReply::ArtistCursor(result)) => {
            response == (ApiResponse::FollowedArtists { after, result })
        },
        (ApiRequest::SavedShows { offset }, ApiReply::SavedShows(result)) => {
            response == (ApiResponse::SavedShows { offset, result })
        },
        (ApiRequest::SavedEpisodes { offset }, ApiReply::SavedEpisodes(result)) => {
            response == (ApiResponse::SavedEpisodes { offset, result })
        },
        (ApiRequest::SetSaved { uris, saved }, ApiReply::Done(result)) => {
            response == (ApiResponse::SavedChanged { uris, saved, result })
        },
        (ApiRequest::Contains { uris }, ApiReply::Flags(result)) => {
            response == (ApiResponse::Contains { uris, result })
        },
        (ApiRequest::Search { query, serial }, ApiReply::Found(result)) => {
            response == (ApiResponse::Search { query, serial, result })
        },
        (ApiRequest::Artist { id }, ApiReply::Artist(result)) => {
            response == (ApiResponse::Artist { id, result })
        },
        (ApiRequest::ArtistTopTracks { id }, ApiReply::Tracks(result)) => {
            response == (ApiResponse::ArtistTopTracks { id, result })
        },
        (ApiRequest::ArtistAlbums { id, groups, offset }, ApiReply::AlbumPage(result)) => {
            response == (ApiResponse::ArtistAlbums { id, groups, offset, result })
        },
        (ApiRequest::RelatedArtists { id }, ApiReply::Artists(result)) => {
            response == (ApiResponse::RelatedArtists { id, result })
        },
        (ApiRequest::Album { id }, ApiReply::Album(result)) => {
            response == (ApiResponse::Album { id, result })
        },
        (ApiRequest::AlbumTracks { id, offset }, ApiReply::TrackPage(result)) => {
            response == (ApiResponse::AlbumTracks { id, offset, result })
        },
        (ApiRequest::Show { id }, ApiReply::Show(result)) => {
            response == (ApiResponse::Show { id, result })
        },
        (ApiRequest::ShowEpisodes { id, offset }, ApiReply::EpisodePage(result)) => {
            response == (ApiResponse::ShowEpisodes { id, offset, result })
        },
        (ApiRequest::Track { id }, ApiReply::Track(result)) => {
            response == (ApiResponse::Track { id, result })
        },
        (ApiRequest::Episode { id }, ApiReply::Episode(result)) => {
            response == (ApiResponse::Episode { id, result })
        },
        (ApiRequest::Remote { action, .. }, ApiReply::Done(result)) => {
            response == (ApiResponse::Remote { action, result })
        },
        (ApiRequest::Transfer { device_id, .. }, ApiReply::Done(result)) => {
            response == (ApiResponse::Transferred { device_id, result })
        },
        (ApiRequest::ShufflePlay { .. }, ApiReply::Done(result)) => {
            response == (ApiResponse::Remote { action: RemoteAction::Play, result })
        },
        (ApiRequest::AddToQueue { label, .. }, ApiReply::Done(result)) => {
            response == (ApiResponse::QueueAdded { label, result })
        },
        _ => false,
    }
}

/// The answer to a request once its last call has been replied to; nothing
/// where the reply is of another kind.
pub fn response_for(exchange: Exchange, reply: ApiReply) -> (response: Option<ApiResponse>)
    ensures
        response is Some <==> fits(exchange.request, reply),
        response matches Some(response) ==> answers(exchange, reply, response),
{
    match (exchange.request, reply) {
        (ApiRequest::Me, ApiReply::User(result)) => Some(ApiResponse::Me(result)),
        (ApiRequest::Devices, ApiReply::Devices(result)) => Some(ApiResponse::Devices(result)),
        (ApiRequest::PlaybackState { seq }, ApiReply::PlaybackState(result)) => {
            Some(ApiResponse::PlaybackState { seq, result })
        },
        (ApiRequest::Queue { seq }, ApiReply::Queue(result)) => {
            Some(ApiResponse::Queue { seq, result })
        },
        (ApiRequest::RecentlyPlayed { who, generation, limit, .. }, ApiReply::History(result)) => {
            Some(ApiResponse::RecentlyPlayed { who, generation, limit, result })
        },
        (ApiRequest::TopTracks { offset, full, generation }, ApiReply::TrackPage(result)) => {
            Some(ApiResponse::TopTracks { offset, full, generation, result })
        },
        (ApiRequest::TopArtists { generation }, ApiReply::ArtistPage(result)) => {
            let result = match result {
                Ok(page) => Ok(page.items),
                Err(error) => Err(error),
            };
            Some(ApiResponse::TopArtists { generation, result })
        },
        (ApiRequest::Recommendations { generation, .. }, ApiReply::Tracks(result)) => {
            Some(ApiResponse::Recommendations { generation, result })
        },
        (ApiRequest::Discover { term, generation }, ApiReply::Found(found)) => {
            let result = match found {
                Ok(results) => match results.playlists {
                    Some(page) => Ok(page.items),
                    None => Ok(Vec::new()),
                },
                Err(error) => Err(error),
            };
            Some(ApiResponse::Discover { term, generation, result })
        },
        (ApiRequest::MyPlaylists { offset }, ApiReply::PlaylistPage(result)) => {
            Some(ApiResponse::MyPlaylists { offset, result })
        },
        (ApiRequest::Playlist { id, generation }, ApiReply::Playlist(result)) => {
            Some(ApiResponse::Playlist { id, generation, result })
        },
        (ApiRequest::PlaylistItems { id, offset, generation }, ApiReply::Rows(result)) => {
            Some(ApiResponse::PlaylistItems { id, offset, generation, result })
        },
        (ApiRequest::PlaylistSample { id, generation, .. }, ApiReply::Rows(result)) => {
            Some(ApiResponse::PlaylistSample { id, generation, result })
        },
        (ApiRequest::CreatePlaylist { .. }, ApiReply::Playlist(result)) => {
            Some(ApiResponse::PlaylistCreated(result))
        },
        (ApiRequest::UpdatePlaylist { id, .. }, ApiReply::Done(result)) => {
            Some(ApiResponse::PlaylistUpdated { id, result })
        },
        (ApiRequest::CheckPlaylistDuplicates {
            playlist_id,
            playlist_name,
            items,
            position,
        }, ApiReply::Uris(result)) => {
            Some(ApiResponse::PlaylistDuplicatesChecked {
                playlist_id,
                playlist_name,
                items,
                position,
                result,
            })
        },
        (
            ApiRequest::AddToPlaylist { playlist_id, playlist_name, .. },
            ApiReply::Snapshot(result),
        ) => {
            let message = joined("Added to ", playlist_name.as_str());
            Some(ApiResponse::PlaylistItemsChanged { id: playlist_id, message, result })
        },
        (ApiRequest::RemoveFromPlaylist { playlist_id, .. }, ApiReply::Snapshot(result)) => {
            let message = "Removed from playlist".to_owned();
            Some(ApiResponse::PlaylistItemsChanged { id: playlist_id, message, result })
        },
        (ApiRequest::ReorderPlaylist { playlist_id, .. }, ApiReply::Snapshot(result)) => Some(
            ApiResponse::PlaylistItemsChanged { id: playlist_id, message: String::new(), result },
        ),
        (ApiRequest::FollowPlaylist { id, follow }, ApiReply::Done(result)) => {
            Some(ApiResponse::PlaylistFollowChanged { id, followed: follow, result })
        },
        (ApiRequest::SavedTracks { offset, generation }, ApiReply::SavedTracks(result)) => {
            let account_id = exchange.account_id;
            Some(ApiResponse::SavedTracks { offset, generation, account_id, result })
        },
        (ApiRequest::SavedAlbums { offset }, ApiReply::SavedAlbums(result)) => {
            Some(ApiResponse::SavedAlbums { offset, result })
        },
        (ApiRequest::FollowedArtists { after }, ApiReply::ArtistCursor(result)) => {
            Some(ApiResponse::FollowedArtists { after, result })
        },
        (ApiRequest::SavedShows { offset }, ApiReply::SavedShows(result)) => {
            Some(ApiResponse::SavedShows { offset, result })
        },
        (ApiRequest::SavedEpisodes { offset }, ApiReply::SavedEpisodes(result)) => {
            Some(ApiResponse::SavedEpisodes { offset, result })
        },
        (ApiRequest::SetSaved { uris, saved }, ApiReply::Done(result)) => {
            Some(ApiResponse::SavedChanged { uris, saved, result })
        },
        (ApiRequest::Contains { uris }, ApiReply::Flags(result)) => {
            Some(ApiResponse::Contains { uris, result })
        },
        (ApiRequest::Search { query, serial }, ApiReply::Found(result)) => {
            Some(ApiResponse::Search { query, serial, result })
        },
        (ApiRequest::Artist { id }, ApiReply::Artist(result)) => {
            Some(ApiResponse::Artist { id, result })
        },
        (ApiRequest::ArtistTopTracks { id }, ApiReply::Tracks(result)) => {
            Some(ApiResponse::ArtistTopTracks { id, result })
        },
        (ApiRequest::ArtistAlbums { id, groups, offset }, ApiReply::AlbumPage(result)) => {
            Some(ApiResponse::ArtistAlbums { id, groups, offset, result })
        },
        (ApiRequest::RelatedArtists { id }, ApiReply::Artists(result)) => {
            Some(ApiResponse::RelatedArtists { id, result })
        },
        (ApiRequest::Album { id }, ApiReply::Album(result)) => {
            Some(ApiResponse::Album { id, result })
        },
        (ApiRequest::AlbumTracks { id, offset }, ApiReply::TrackPage(result)) => {
            Some(ApiResponse::AlbumTracks { id, offset, result })
        },
        (ApiRequest::Show { id }, ApiReply::Show(result)) => Some(ApiResponse::Show { id, result }),
        (ApiRequest::ShowEpisodes { id, offset }, ApiReply::EpisodePage(result)) => {
            Some(ApiResponse::ShowEpisodes { id, offset, result })
        },
        (ApiRequest::Track { id }, ApiReply::Track(result)) => {
            Some(ApiResponse::Track { id, result })
        },
        (ApiRequest::Episode { id }, ApiReply::Episode(result)) => {
            Some(ApiResponse::Episode { id, result })
        },
        (ApiRequest::Remote { action, .. }, ApiReply::Done(result)) => {
            Some(ApiResponse::Remote { action, result })
        },
        (ApiRequest::Transfer { device_id, .. }, ApiReply::Done(result)) => {
            Some(ApiResponse::Transferred { device_id, result })
        },
        (ApiRequest::ShufflePlay { .. }, ApiReply::Done(result)) => {
            Some(ApiResponse::Remote { action: RemoteAction::Play, result })
        },
        (ApiRequest::AddToQueue { label, .. }, ApiReply::Done(result)) => {
            Some(ApiResponse::QueueAdded { label, result })
        },
        _ => None,
    }
}

/// How far a request has come.
pub enum Progress {
    /// One more call is to be made.
    Again(Exchange),
    /// The answer, and the app whose grant was found expired on the way.
    Finished { response: ApiResponse, expired: Option<ApiSource> },
}

/// Whether a request still has a call to make once `reply` has come: shuffle
/// was turned on, and now the context is to be started.
pub open spec fn continues(exchange: Exchange, reply: ApiReply) -> bool {
    exchange.request is ShufflePlay && !exchange.shuffled && reply is Done && reply.spec_error()
        is None
}

/// Takes the reply to a request's call: makes the next call if there is one,
/// and otherwise answers, remembering the playlists the answer showed. A reply
/// of the wrong kind changes nothing.
pub fn handle(api: &mut ApiGateway, exchange: Exchange, reply: ApiReply) -> (progress: Option<
    Progress,
>)
    ensures
        progress is Some <==> fits(exchange.request, reply),
        continues(exchange, reply) ==> progress == Some(
            Progress::Again(Exchange { shuffled: true, ..exchange }),
        ),
        fits(exchange.request, reply) && !continues(exchange, reply) ==> {
            &&& progress matches Some(Progress::Finished { response, expired })
            &&& answers(exchange, reply, response)
            &&& expired == reply.spec_expired()
            &&& final(api)@ == observed(old(api)@, response)
        },
        continues(exchange, reply) || !fits(exchange.request, reply) ==> final(api)@ == old(api)@,
{
    let again = match (&exchange.request, &reply) {
        (ApiRequest::ShufflePlay { .. }, ApiReply::Done(Ok(_))) => !exchange.shuffled,
        _ => false,
    };
    if again {
        return Some(
            Progress::Again(
                Exchange {
                    request: exchange.request,
                    account_id: exchange.account_id,
                    shuffled: true,
                },
            ),
        );
    }
    let expired = reply.expired();
    match response_for(exchange, reply) {
        Some(response) => {
            observe_playlists(api, &response);
            Some(Progress::Finished { response, expired })
        },
        None => None,
    }
}

}
