//! Which app may answer which request, what may wait, and what is learnt of
//! playlists on the way.

use vstd::prelude::*;

use crate::gateway::{other, AccessModel, ApiError, ApiSource, GatewayModel, SessionModel};
use crate::models::Playlist;
use crate::requests::{route, ApiRequest, OperationModel};
use crate::responses::{forbidding_playlist, observed, shown_playlists, ApiResponse};

verus! {

// ---- routes ---------------------------------------------------------------------

/// Whether a request asks about the membership of a playlist: one of its uris
/// begins as a playlist's does.
pub open spec fn asks_of_a_playlist(request: ApiRequest) -> bool {
    request matches ApiRequest::Contains { uris } && exists|i: int|
        0 <= i < uris@.len() && "spotify:playlist:"@.is_prefix_of(#[trigger] uris@[i]@)
}

/// What a personal app in Development Mode cannot answer goes to the shared app
/// alone: recommendations, an artist's top tracks and relations, and membership
/// of playlists. Nothing else does.
pub proof fn what_development_mode_lacks_goes_to_the_shared_app(
    api: GatewayModel,
    request: ApiRequest,
)
    ensures
        route(api, request) is UnsupportedDevelopmentMode <==> request is Recommendations
            || request is ArtistTopTracks || request is RelatedArtists || asks_of_a_playlist(
            request,
        ),
{
}

/// Lookups in the catalogue are open to either app, ordinary search included;
/// nothing else is a lookup in the catalogue.
pub proof fn the_catalogue_is_open_to_either_app(api: GatewayModel, request: ApiRequest)
    ensures
        route(api, request) is Catalog <==> request is Search || request is Artist || request
            is ArtistAlbums || request is Album || request is AlbumTracks || request is Show
            || request is ShowEpisodes || request is Track || request is Episode,
{
}

/// Whose account it is, is asked of the app that signed the listener in, and
/// devices are ordered about by the route for playback; no other request takes
/// either.
pub proof fn the_account_and_devices_have_their_own_routes(api: GatewayModel, request: ApiRequest)
    ensures
        route(api, request) is CanonicalAccount <==> request is Me,
        route(api, request) is Playback <==> request is Devices || request is PlaybackState
            || request is Queue || request is Remote || request is Transfer || request
            is ShufflePlay || request is AddToQueue,
{
}

/// What belongs to the listener alone, their history, their favourites and what
/// they saved, is theirs to read and change through either app; membership only
/// where no playlist is asked about.
pub proof fn the_listeners_own_things_are_user_data(api: GatewayModel, request: ApiRequest)
    ensures
        route(api, request) is UserData <==> request is RecentlyPlayed || request is TopTracks
            || request is TopArtists || request is SavedTracks || request is SavedAlbums || request
            is FollowedArtists || request is SavedShows || request is SavedEpisodes || request
            is SetSaved || (request is Contains && !asks_of_a_playlist(request)),
{
}

/// Lists of playlists are routed by what is done: listed, made or discovered.
pub proof fn lists_of_playlists_have_their_own_routes(api: GatewayModel, request: ApiRequest)
    ensures
        route(api, request) is PlaylistLibrary <==> request is MyPlaylists,
        route(api, request) is PlaylistCreation <==> request is CreatePlaylist,
        route(api, request) is PlaylistSearch <==> request is Discover,
{
}

/// A request to one playlist is routed by what it does there: reads its details,
/// reads its rows, or changes it.
pub proof fn a_playlist_is_routed_by_what_is_done_to_it(api: GatewayModel, request: ApiRequest)
    ensures
        route(api, request) is PlaylistMetadata <==> request is Playlist,
        route(api, request) is PlaylistItems <==> request is PlaylistItems || request
            is PlaylistSample || request is CheckPlaylistDuplicates,
        route(api, request) is PlaylistMutation <==> request is UpdatePlaylist || request
            is AddToPlaylist || request is RemoveFromPlaylist || request is ReorderPlaylist
            || request is FollowPlaylist,
{
}

/// The playlist that a request is to.
pub open spec fn target(request: ApiRequest) -> Option<Seq<char>> {
    match request {
        ApiRequest::Playlist { id, .. }
        | ApiRequest::PlaylistItems { id, .. }
        | ApiRequest::PlaylistSample { id, .. }
        | ApiRequest::UpdatePlaylist { id, .. }
        | ApiRequest::FollowPlaylist { id, .. } => Some(id@),
        ApiRequest::CheckPlaylistDuplicates { playlist_id, .. }
        | ApiRequest::AddToPlaylist { playlist_id, .. }
        | ApiRequest::RemoveFromPlaylist { playlist_id, .. }
        | ApiRequest::ReorderPlaylist { playlist_id, .. } => Some(playlist_id@),
        _ => None,
    }
}

/// What a route says is known of a playlist.
pub open spec fn known_on(operation: OperationModel) -> Option<AccessModel> {
    match operation {
        OperationModel::PlaylistMetadata(access)
        | OperationModel::PlaylistItems(access)
        | OperationModel::PlaylistMutation(access) => Some(access),
        _ => None,
    }
}

/// A route carries what is known of the very playlist that the request is to:
/// its owner where it was seen, nothing where it was not.
pub proof fn a_route_carries_what_is_known_of_its_playlist(api: GatewayModel, request: ApiRequest)
    ensures
        match target(request) {
            Some(id) => known_on(route(api, request)) == Some(
                if api.playlists.contains_key(id) {
                    AccessModel::OwnedBy(api.playlists[id])
                } else {
                    AccessModel::Unknown
                },
            ),
            None => known_on(route(api, request)) is None,
        },
{
}

/// Requests that are to no playlist are routed alike whatever is known.
pub proof fn other_routes_do_not_depend_on_what_is_known(
    one: GatewayModel,
    two: GatewayModel,
    request: ApiRequest,
)
    requires
        target(request) is None,
    ensures
        route(one, request) == route(two, request),
{
}

// ---- what may wait ----------------------------------------------------------------

/// Whether a request changes something, or orders a device about.
pub open spec fn acts_for_the_listener(request: ApiRequest) -> bool {
    ||| request is CreatePlaylist
    ||| request is UpdatePlaylist
    ||| request is AddToPlaylist
    ||| request is RemoveFromPlaylist
    ||| request is ReorderPlaylist
    ||| request is FollowPlaylist
    ||| request is SetSaved
    ||| request is Remote
    ||| request is Transfer
    ||| request is ShufflePlay
    ||| request is AddToQueue
}

/// Whether a page is open that shows the answer to a request.
pub open spec fn fills_a_page(request: ApiRequest) -> bool {
    ||| request is Me
    ||| request is Devices
    ||| request is Queue
    ||| request is Playlist
    ||| request is PlaylistItems
    ||| request is CheckPlaylistDuplicates
    ||| request is SavedTracks
    ||| request is SavedAlbums
    ||| request is FollowedArtists
    ||| request is SavedShows
    ||| request is SavedEpisodes
    ||| request is Search
    ||| request is Artist
    ||| request is ArtistTopTracks
    ||| request is ArtistAlbums
    ||| request is RelatedArtists
    ||| request is Album
    ||| request is AlbumTracks
    ||| request is Show
    ||| request is ShowEpisodes
    ||| request is Track
    ||| request is Episode
}

/// A request waits behind others exactly where nobody waits for it: it neither
/// acts for the listener nor fills a page they have opened.
pub proof fn only_what_nobody_waits_for_may_wait(request: ApiRequest)
    ensures
        request.spec_background() <==> !acts_for_the_listener(request) && !fills_a_page(request),
{
}

// ---- what answers teach -------------------------------------------------------------

/// Whether an answer shows a playlist at some place.
pub open spec fn shows(response: ApiResponse, playlist: Playlist) -> bool {
    match response {
        ApiResponse::Playlist { result: Ok(shown), .. } => shown == playlist,
        ApiResponse::PlaylistCreated(Ok(made)) => made == playlist,
        ApiResponse::MyPlaylists { result: Ok(page), .. } => page.items@.contains(playlist),
        ApiResponse::Discover { result: Ok(found), .. } => found@.contains(playlist),
        ApiResponse::Search { result: Ok(found), .. } => found.playlists matches Some(page)
            && page.items@.contains(playlist),
        _ => false,
    }
}

/// What is learnt from an answer is every playlist in it, and nothing else.
pub proof fn every_playlist_in_an_answer_is_learnt(response: ApiResponse, playlist: Playlist)
    ensures
        shown_playlists(response).contains(playlist) <==> shows(response, playlist),
{
    match response {
        ApiResponse::Playlist { result: Ok(shown), .. } => {
            assert(seq![shown][0] == shown);
        },
        ApiResponse::PlaylistCreated(Ok(made)) => {
            assert(seq![made][0] == made);
        },
        _ => {},
    }
}

/// The refusal of a request to read the rows of a playlist or to change it.
pub open spec fn refuses(response: ApiResponse, id: Seq<char>, error: ApiError) -> bool {
    match response {
        ApiResponse::PlaylistItems { id: of, result: Err(why), .. } => of@ == id && why == error,
        ApiResponse::PlaylistSample { id: of, result: Err(why), .. } => of@ == id && why == error,
        ApiResponse::PlaylistDuplicatesChecked { playlist_id: of, result: Err(why), .. } => of@
            == id && why == error,
        ApiResponse::PlaylistItemsChanged { id: of, result: Err(why), .. } => of@ == id && why
            == error,
        ApiResponse::PlaylistUpdated { id: of, result: Err(why) } => of@ == id && why == error,
        ApiResponse::PlaylistFollowChanged { id: of, result: Err(why), .. } => of@ == id && why
            == error,
        _ => false,
    }
}

/// A playlist counts as refusing exactly where its rows or a change were denied
/// with status 403: no other status does that, no other failure, and not the
/// refusal of its details.
pub proof fn only_a_denial_counts_as_refusing(response: ApiResponse, id: Seq<char>)
    ensures
        forbidding_playlist(response) == Some(id) <==> exists|status: u16, message: String|
            status == 403 && #[trigger] refuses(
                response,
                id,
                ApiError::Status { status, message },
            ),
{
    if forbidding_playlist(response) == Some(id) {
        let error = match response {
            ApiResponse::PlaylistItems { result: Err(error), .. } => error,
            ApiResponse::PlaylistSample { result: Err(error), .. } => error,
            ApiResponse::PlaylistDuplicatesChecked { result: Err(error), .. } => error,
            ApiResponse::PlaylistItemsChanged { result: Err(error), .. } => error,
            ApiResponse::PlaylistUpdated { result: Err(error), .. } => error,
            ApiResponse::PlaylistFollowChanged { result: Err(error), .. } => error,
            _ => arbitrary(),
        };
        let message = error->message;
        assert(error == (ApiError::Status { status: 403, message }));
        assert(refuses(response, id, ApiError::Status { status: 403, message }));
    }
}

/// A refusal takes away what was known of its playlist, and of no other; the
/// next request to it is routed as to one never seen, whatever it does there.
pub proof fn a_refusal_forgets_its_playlist_only(
    api: GatewayModel,
    response: ApiResponse,
    id: Seq<char>,
    request: ApiRequest,
)
    requires
        forbidding_playlist(response) == Some(id),
        target(request) is Some,
    ensures
        known_on(route(observed(api, response), request)) == if target(request) == Some(id) {
            Some(AccessModel::Unknown)
        } else {
            known_on(route(api, request))
        },
{
}

// ---- sessions and the account -------------------------------------------------------

/// The account in force is that of a session that is ready, the shared app's
/// before the personal app's; where neither is ready there is none.
pub proof fn a_ready_session_names_the_account(api: GatewayModel, account: Seq<char>)
    ensures
        api.shared == (SessionModel::Ready { account }) ==> api.account() == Some(account),
        api.personal == (SessionModel::Ready { account }) && !(api.shared is Ready)
            ==> api.account() == Some(account),
        api.account() is None <==> !(api.shared is Ready) && !(api.personal is Ready),
{
}

/// The apps are told apart: what is said of one session leaves the other as it
/// was, and what is known of playlists too.
pub proof fn the_two_sessions_are_told_apart(
    api: GatewayModel,
    source: ApiSource,
    state: SessionModel,
)
    ensures
        api.with_state(source, state).state(source) == state,
        api.with_state(source, state).state(other(source)) == api.state(other(source)),
        api.with_state(source, state).playlists == api.playlists,
        api.state(ApiSource::Shared) == api.shared,
        api.state(ApiSource::Personal) == api.personal,
        other(source) != source,
        api.cleared(source).state(source) is Unavailable,
        api.cleared(source).state(other(source)) == api.state(other(source)),
{
}

/// An account is taken where the other app is ready for the same one, or not
/// ready at all; then both are ready for one account, and else they would not
/// be.
pub proof fn an_account_is_taken_where_the_apps_agree(
    api: GatewayModel,
    source: ApiSource,
    account: Seq<char>,
)
    ensures
        api.accepts(source, account) <==> api.with_state(
            source,
            SessionModel::Ready { account },
        ).agrees(),
        api.agrees() <==> (api.shared is Ready && api.personal is Ready
            ==> api.shared->account == api.personal->account),
{
}

/// What went wrong is told in the service's own words, and an expired sign-in
/// in plain ones.
pub proof fn an_error_is_told_in_its_own_words(error: ApiError)
    ensures
        match error {
            ApiError::SignInExpired { api_source } => error.spec_text()
                == "Your Spotify sign-in expired. Please sign in again."@ && error.spec_expired()
                == Some(api_source) && error.spec_status() is None,
            ApiError::Status { status, message } => error.spec_text() == message@
                && error.spec_status() == Some(status) && error.spec_expired() is None,
            ApiError::Unreachable(message) => error.spec_text() == message@ && error.spec_status()
                is None && error.spec_expired() is None,
        },
{
}

}
