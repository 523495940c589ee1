//! What the Web API answered, and what an answer teaches about playlists.

use vstd::prelude::*;

use crate::gateway::{ApiError, ApiGateway, GatewayModel};
use crate::models::{
    Album, Artist, CursorPage, Device, Episode, Page, PlayHistory, PlayableItem, PlaybackState,
    Playlist, PlaylistItem, Queue, SavedAlbum, SavedEpisode, SavedShow, SavedTrack, SearchResults,
    Show, Track, User,
};
use crate::requests::{RecentsFor, RemoteAction};

verus! {

pub type ApiResult<T> = Result<T, ApiError>;

#[derive(Debug)]
pub enum ApiResponse {
    Me(ApiResult<User>),
    Devices(ApiResult<Vec<Device>>),
    PlaybackState {
        seq: u64,
        result: ApiResult<Option<PlaybackState>>,
    },
    Queue {
        seq: u64,
        result: ApiResult<Queue>,
    },
    RecentlyPlayed {
        who: RecentsFor,
        generation: u64,
        limit: u32,
        result: ApiResult<CursorPage<PlayHistory>>,
    },
    TopTracks {
        offset: u32,
        full: bool,
        generation: u64,
        result: ApiResult<Page<Track>>,
    },
    TopArtists {
        generation: u64,
        result: ApiResult<Vec<Artist>>,
    },
    Recommendations {
        generation: u64,
        result: ApiResult<Vec<Track>>,
    },
    Discover {
        term: String,
        generation: u64,
        result: ApiResult<Vec<Playlist>>,
    },
    MyPlaylists {
        offset: u32,
        result: ApiResult<Page<Playlist>>,
    },
    Playlist {
        id: String,
        generation: u64,
        result: ApiResult<Playlist>,
    },
    PlaylistItems {
        id: String,
        offset: u32,
        generation: u64,
        result: ApiResult<Page<PlaylistItem>>,
    },
    PlaylistSample {
        id: String,
        generation: u64,
        result: ApiResult<Page<PlaylistItem>>,
    },
    PlaylistCreated(ApiResult<Playlist>),
    PlaylistUpdated {
        id: String,
        result: ApiResult<()>,
    },
    PlaylistDuplicatesChecked {
        playlist_id: String,
        playlist_name: String,
        items: Vec<PlayableItem>,
        position: Option<u32>,
        result: ApiResult<Vec<String>>,
    },
    PlaylistItemsChanged {
        id: String,
        message: String,
        result: ApiResult<Option<String>>,
    },
    PlaylistFollowChanged {
        id: String,
        followed: bool,
        result: ApiResult<()>,
    },
    SavedTracks {
        offset: u32,
        generation: u64,
        account_id: Option<String>,
        result: ApiResult<Page<SavedTrack>>,
    },
    SavedAlbums {
        offset: u32,
        result: ApiResult<Page<SavedAlbum>>,
    },
    FollowedArtists {
        after: Option<String>,
        result: ApiResult<CursorPage<Artist>>,
    },
    SavedShows {
        offset: u32,
        result: ApiResult<Page<SavedShow>>,
    },
    SavedEpisodes {
        offset: u32,
        result: ApiResult<Page<SavedEpisode>>,
    },
    SavedChanged {
        uris: Vec<String>,
        saved: bool,
        result: ApiResult<()>,
    },
    Contains {
        uris: Vec<String>,
        result: ApiResult<Vec<bool>>,
    },
    Search {
        query: String,
        serial: u64,
        result: ApiResult<SearchResults>,
    },
    Artist {
        id: String,
        result: ApiResult<Artist>,
    },
    ArtistTopTracks {
        id: String,
        result: ApiResult<Vec<Track>>,
    },
    ArtistAlbums {
        id: String,
        groups: String,
        offset: u32,
        result: ApiResult<Page<Album>>,
    },
    RelatedArtists {
        id: String,
        result: ApiResult<Vec<Artist>>,
    },
    Album {
        id: String,
        result: ApiResult<Album>,
    },
    AlbumTracks {
        id: String,
        offset: u32,
        result: ApiResult<Page<Track>>,
    },
    Show {
        id: String,
        result: ApiResult<Show>,
    },
    ShowEpisodes {
        id: String,
        offset: u32,
        result: ApiResult<Page<Episode>>,
    },
    Track {
        id: String,
        result: ApiResult<Track>,
    },
    Episode {
        id: String,
        result: ApiResult<Episode>,
    },
    Remote {
        action: RemoteAction,
        result: ApiResult<()>,
    },
    Transferred {
        device_id: String,
        result: ApiResult<()>,
    },
    QueueAdded {
        label: String,
        result: ApiResult<()>,
    },
}

/// The playlists an answer shows, in order.
pub open spec fn shown_playlists(response: ApiResponse) -> Seq<Playlist> {
    match response {
        ApiResponse::Discover { result: Ok(playlists), .. } => playlists@,
        ApiResponse::MyPlaylists { result: Ok(page), .. } => page.items@,
        ApiResponse::Playlist { result: Ok(playlist), .. } => seq![playlist],
        ApiResponse::PlaylistCreated(Ok(playlist)) => seq![playlist],
        ApiResponse::Search { result: Ok(results), .. } => match results.playlists {
            Some(page) => page.items@,
            None => Seq::empty(),
        },
        _ => Seq::empty(),
    }
}

/// Whether a request was refused for want of permission.
pub open spec fn forbidden(error: ApiError) -> bool {
    error.spec_status() == Some(403u16)
}

/// The playlist that refused a read of its rows or a change, where an answer
/// is such a refusal. Reading only a playlist's details never is.
pub open spec fn forbidding_playlist(response: ApiResponse) -> Option<Seq<char>> {
    match response {
        ApiResponse::PlaylistUpdated { id, result: Err(error) } => if forbidden(error) {
            Some(id@)
        } else {
            None
        },
        ApiResponse::PlaylistItemsChanged { id, result: Err(error), .. } => if forbidden(error) {
            Some(id@)
        } else {
            None
        },
        ApiResponse::PlaylistItems { id, result: Err(error), .. } => if forbidden(error) {
            Some(id@)
        } else {
            None
        },
        ApiResponse::PlaylistSample { id, result: Err(error), .. } => if forbidden(error) {
            Some(id@)
        } else {
            None
        },
        ApiResponse::PlaylistDuplicatesChecked { playlist_id, result: Err(error), .. } => {
            if forbidden(error) {
                Some(playlist_id@)
            } else {
                None
            }
        },
        ApiResponse::PlaylistFollowChanged { id, result: Err(error), .. } => if forbidden(error) {
            Some(id@)
        } else {
            None
        },
        _ => None,
    }
}

/// What the gateway knows once it has seen an answer: every playlist shown is
/// remembered, and one that refused is forgotten.
pub open spec fn observed(api: GatewayModel, response: ApiResponse) -> GatewayModel {
    match forbidding_playlist(response) {
        Some(id) => api.refused(id),
        None => api.all_seen(shown_playlists(response)),
    }
}

/// Forgets a playlist whose answer was a refusal.
fn observe_failure(api: &mut ApiGateway, id: &String, error: &ApiError)
    ensures
        final(api)@ == if forbidden(*error) {
            old(api)@.refused(id@)
        } else {
            old(api)@
        },
{
    match error.status() {
        Some(status) => {
            if status == 403 {
                api.invalidate_playlist_access(id);
            }
        },
        None => {},
    }
}

/// Learns from an answer which playlists exist and which one refused.
pub fn observe_playlists(api: &mut ApiGateway, response: &ApiResponse)
    ensures
        final(api)@ == observed(old(api)@, *response),
{
    proof {
        reveal_with_fuel(GatewayModel::all_seen, 2);
    }
    match response {
        ApiResponse::Discover { result: Ok(playlists), .. } => api.observe_playlists(playlists),
        ApiResponse::MyPlaylists { result: Ok(page), .. } => api.observe_playlists(&page.items),
        ApiResponse::Playlist { result: Ok(playlist), .. } => {
            assert(seq![*playlist].drop_last() =~= Seq::empty());
            api.observe_playlist(playlist)
        },
        ApiResponse::PlaylistCreated(Ok(playlist)) => {
            assert(seq![*playlist].drop_last() =~= Seq::empty());
            api.observe_playlist(playlist)
        },
        ApiResponse::Search { result: Ok(results), .. } => {
            match &results.playlists {
                Some(page) => api.observe_playlists(&page.items),
                None => {},
            }
        },
        ApiResponse::PlaylistUpdated { id, result: Err(error) } => observe_failure(api, id, error),
        ApiResponse::PlaylistItemsChanged { id, result: Err(error), .. } => observe_failure(
            api,
            id,
            error,
        ),
        ApiResponse::PlaylistItems { id, result: Err(error), .. } => observe_failure(
            api,
            id,
            error,
        ),
        ApiResponse::PlaylistSample { id, result: Err(error), .. } => observe_failure(
            api,
            id,
            error,
        ),
        ApiResponse::PlaylistDuplicatesChecked { playlist_id, result: Err(error), .. } =>
        observe_failure(api, playlist_id, error),
        ApiResponse::PlaylistFollowChanged { id, result: Err(error), .. } => observe_failure(
            api,
            id,
            error,
        ),
        _ => {},
    }
}

}
