//! What the interface is told of a request: the answer of its own kind, under
//! what the interface knows it by, with what the Web API replied.

use vstd::prelude::*;

use crate::exchange::{answers, asks, continues, fits, refusal, ApiCall, ApiReply, Exchange};
use crate::gateway::{ApiError, ApiGateway, ApiSource};
use crate::laws::calls::{about, reads_from};
use crate::requests::{ApiRequest, RemoteAction};
use crate::responses::ApiResponse;

verus! {

// ---- kinds --------------------------------------------------------------------

/// A question is answered with the answer of its own kind, and no other
/// question is.
pub proof fn a_question_gets_the_answer_of_its_kind(
    exchange: Exchange,
    reply: ApiReply,
    response: ApiResponse,
)
    requires
        answers(exchange, reply, response),
    ensures
        response is Me <==> exchange.request is Me,
        response is Devices <==> exchange.request is Devices,
        response is PlaybackState <==> exchange.request is PlaybackState,
        response is Queue <==> exchange.request is Queue,
        response is RecentlyPlayed <==> exchange.request is RecentlyPlayed,
        response is TopTracks <==> exchange.request is TopTracks,
        response is TopArtists <==> exchange.request is TopArtists,
        response is Recommendations <==> exchange.request is Recommendations,
        response is Discover <==> exchange.request is Discover,
        response is MyPlaylists <==> exchange.request is MyPlaylists,
        response is Playlist <==> exchange.request is Playlist,
        response is PlaylistItems <==> exchange.request is PlaylistItems,
        response is PlaylistSample <==> exchange.request is PlaylistSample,
        response is SavedTracks <==> exchange.request is SavedTracks,
        response is SavedAlbums <==> exchange.request is SavedAlbums,
        response is FollowedArtists <==> exchange.request is FollowedArtists,
        response is SavedShows <==> exchange.request is SavedShows,
        response is SavedEpisodes <==> exchange.request is SavedEpisodes,
        response is Contains <==> exchange.request is Contains,
        response is Search <==> exchange.request is Search,
        response is Artist <==> exchange.request is Artist,
        response is ArtistTopTracks <==> exchange.request is ArtistTopTracks,
        response is ArtistAlbums <==> exchange.request is ArtistAlbums,
        response is RelatedArtists <==> exchange.request is RelatedArtists,
        response is Album <==> exchange.request is Album,
        response is AlbumTracks <==> exchange.request is AlbumTracks,
        response is Show <==> exchange.request is Show,
        response is ShowEpisodes <==> exchange.request is ShowEpisodes,
        response is Track <==> exchange.request is Track,
        response is Episode <==> exchange.request is Episode,
{
}

/// A change, and an order to a device, is answered as what it was.
pub proof fn a_change_gets_the_answer_of_its_kind(
    exchange: Exchange,
    reply: ApiReply,
    response: ApiResponse,
)
    requires
        answers(exchange, reply, response),
    ensures
        response is PlaylistCreated <==> exchange.request is CreatePlaylist,
        response is PlaylistUpdated <==> exchange.request is UpdatePlaylist,
        response is PlaylistDuplicatesChecked <==> exchange.request is CheckPlaylistDuplicates,
        response is PlaylistItemsChanged <==> exchange.request is AddToPlaylist
            || exchange.request is RemoveFromPlaylist
            || exchange.request is ReorderPlaylist,
        response is PlaylistFollowChanged <==> exchange.request is FollowPlaylist,
        response is SavedChanged <==> exchange.request is SetSaved,
        response is Remote <==> exchange.request is Remote || exchange.request is ShufflePlay,
        response is Transferred <==> exchange.request is Transfer,
        response is QueueAdded <==> exchange.request is AddToQueue,
{
}

/// Whether a reply is of the kind that a call gives.
pub open spec fn gives(call: ApiCall<'_>, reply: ApiReply) -> bool {
    match reply {
        ApiReply::User(_) => call is Me,
        ApiReply::Devices(_) => call is Devices,
        ApiReply::PlaybackState(_) => call is PlaybackState,
        ApiReply::Queue(_) => call is Queue,
        ApiReply::History(_) => call is RecentlyPlayed,
        ApiReply::TrackPage(_) => call is TopTracks || call is AlbumTracks,
        ApiReply::ArtistPage(_) => call is TopArtists,
        ApiReply::Tracks(_) => call is Recommendations || call is ArtistTopTracks,
        ApiReply::Found(_) => call is Search,
        ApiReply::PlaylistPage(_) => call is MyPlaylists,
        ApiReply::Playlist(_) => call is Playlist || call is CreatePlaylist,
        ApiReply::Rows(_) => call is PlaylistItems,
        ApiReply::Uris(_) => call is PlaylistDuplicates,
        ApiReply::Snapshot(_) => call is AddPlaylistItems || call is RemovePlaylistItems
            || call is ReorderPlaylist,
        ApiReply::SavedTracks(_) => call is SavedTracks,
        ApiReply::SavedAlbums(_) => call is SavedAlbums,
        ApiReply::ArtistCursor(_) => call is FollowedArtists,
        ApiReply::SavedShows(_) => call is SavedShows,
        ApiReply::SavedEpisodes(_) => call is SavedEpisodes,
        ApiReply::Flags(_) => call is Contains,
        ApiReply::Artist(_) => call is Artist,
        ApiReply::Artists(_) => call is RelatedArtists,
        ApiReply::AlbumPage(_) => call is ArtistAlbums,
        ApiReply::Album(_) => call is Album,
        ApiReply::Show(_) => call is Show,
        ApiReply::EpisodePage(_) => call is ShowEpisodes,
        ApiReply::Track(_) => call is Track,
        ApiReply::Episode(_) => call is Episode,
        ApiReply::Done(_) => call is UpdatePlaylist || call is FollowPlaylist
            || call is UnfollowPlaylist || call is Save || call is Unsave || call is Play
            || call is Pause || call is Next || call is Previous || call is Seek || call is Volume
            || call is Shuffle || call is Repeat || call is Transfer || call is AddToQueue,
    }
}

/// A reply fits a request exactly where it is of the kind that the request's
/// own call gives.
pub proof fn a_reply_fits_where_its_call_was_made<'a>(
    exchange: Exchange,
    call: ApiCall<'a>,
    reply: ApiReply,
)
    requires
        asks(exchange, call),
    ensures
        fits(exchange.request, reply) <==> gives(call, reply),
{
}

/// Only a reply that fits is answered.
pub proof fn only_a_fitting_reply_is_answered(
    exchange: Exchange,
    reply: ApiReply,
    response: ApiResponse,
)
    requires
        answers(exchange, reply, response),
    ensures
        fits(exchange.request, reply),
{
}

/// Every request but a shuffled context is done with its first call, and that
/// one with its second.
pub proof fn every_other_request_is_one_call(exchange: Exchange, reply: ApiReply)
    requires
        !(exchange.request is ShufflePlay) || exchange.shuffled,
    ensures
        !continues(exchange, reply),
{
}

// ---- what an answer is known by -------------------------------------------------

/// The id of what an answer is about.
pub open spec fn answered_about(response: ApiResponse) -> Option<String> {
    match response {
        ApiResponse::Playlist { id, .. }
        | ApiResponse::PlaylistItems { id, .. }
        | ApiResponse::PlaylistSample { id, .. }
        | ApiResponse::PlaylistUpdated { id, .. }
        | ApiResponse::PlaylistItemsChanged { id, .. }
        | ApiResponse::PlaylistFollowChanged { id, .. }
        | ApiResponse::Artist { id, .. }
        | ApiResponse::ArtistTopTracks { id, .. }
        | ApiResponse::ArtistAlbums { id, .. }
        | ApiResponse::RelatedArtists { id, .. }
        | ApiResponse::Album { id, .. }
        | ApiResponse::AlbumTracks { id, .. }
        | ApiResponse::Show { id, .. }
        | ApiResponse::ShowEpisodes { id, .. }
        | ApiResponse::Track { id, .. }
        | ApiResponse::Episode { id, .. } => Some(id),
        ApiResponse::PlaylistDuplicatesChecked { playlist_id, .. } => Some(playlist_id),
        _ => None,
    }
}

/// Where the rows of an answer begin.
pub open spec fn answered_from(response: ApiResponse) -> Option<u32> {
    match response {
        ApiResponse::TopTracks { offset, .. }
        | ApiResponse::MyPlaylists { offset, .. }
        | ApiResponse::PlaylistItems { offset, .. }
        | ApiResponse::SavedTracks { offset, .. }
        | ApiResponse::SavedAlbums { offset, .. }
        | ApiResponse::SavedShows { offset, .. }
        | ApiResponse::SavedEpisodes { offset, .. }
        | ApiResponse::ArtistAlbums { offset, .. }
        | ApiResponse::AlbumTracks { offset, .. }
        | ApiResponse::ShowEpisodes { offset, .. } => Some(offset),
        _ => None,
    }
}

/// The number by which the interface tells the answers to one kind of request
/// apart.
pub open spec fn numbered(request: ApiRequest) -> Option<u64> {
    match request {
        ApiRequest::RecentlyPlayed { generation, .. }
        | ApiRequest::TopTracks { generation, .. }
        | ApiRequest::TopArtists { generation, .. }
        | ApiRequest::Recommendations { generation, .. }
        | ApiRequest::Discover { generation, .. }
        | ApiRequest::Playlist { generation, .. }
        | ApiRequest::PlaylistItems { generation, .. }
        | ApiRequest::PlaylistSample { generation, .. }
        | ApiRequest::SavedTracks { generation, .. } => Some(generation),
        ApiRequest::PlaybackState { seq } | ApiRequest::Queue { seq } => Some(seq),
        ApiRequest::Search { serial, .. } => Some(serial),
        _ => None,
    }
}

/// The number that an answer carries.
pub open spec fn answered_under(response: ApiResponse) -> Option<u64> {
    match response {
        ApiResponse::RecentlyPlayed { generation, .. }
        | ApiResponse::TopTracks { generation, .. }
        | ApiResponse::TopArtists { generation, .. }
        | ApiResponse::Recommendations { generation, .. }
        | ApiResponse::Discover { generation, .. }
        | ApiResponse::Playlist { generation, .. }
        | ApiResponse::PlaylistItems { generation, .. }
        | ApiResponse::PlaylistSample { generation, .. }
        | ApiResponse::SavedTracks { generation, .. } => Some(generation),
        ApiResponse::PlaybackState { seq, .. } | ApiResponse::Queue { seq, .. } => Some(seq),
        ApiResponse::Search { serial, .. } => Some(serial),
        _ => None,
    }
}

/// An answer is about what was asked, begins where the request said, and carries
/// the request's number, so that a stale one can be told. (A sample's answer does
/// not say where it was taken.)
pub proof fn an_answer_is_known_by_its_request(
    exchange: Exchange,
    reply: ApiReply,
    response: ApiResponse,
)
    requires
        answers(exchange, reply, response),
    ensures
        answered_about(response) == about(exchange.request),
        answered_under(response) == numbered(exchange.request),
        answered_from(response) == if exchange.request is PlaylistSample {
            None
        } else {
            reads_from(exchange.request)
        },
{
}

/// The rest of what the interface knows a question by comes back with its
/// answer: the shelf it is for, the words searched for, the cursor.
pub proof fn an_answer_repeats_its_question(
    exchange: Exchange,
    reply: ApiReply,
    response: ApiResponse,
)
    requires
        answers(exchange, reply, response),
    ensures
        response matches ApiResponse::RecentlyPlayed { who, limit, .. } ==> who
            == exchange.request->who && limit == exchange.request->limit,
        response matches ApiResponse::TopTracks { full, .. } ==> full == exchange.request->full,
        response matches ApiResponse::Discover { term, .. } ==> term == exchange.request->term,
        response matches ApiResponse::Search { query, .. } ==> query == exchange.request->query,
        response matches ApiResponse::FollowedArtists { after, .. } ==> after
            == exchange.request->after,
        response matches ApiResponse::ArtistAlbums { groups, .. } ==> groups
            == exchange.request->groups,
        response matches ApiResponse::Contains { uris, .. } ==> uris
            == exchange.request->Contains_uris,
        response matches ApiResponse::SavedTracks { account_id, .. } ==> account_id
            == exchange.account_id,
{
}

/// The answer to a change says what was changed, and how.
pub proof fn an_answer_says_what_was_changed(
    exchange: Exchange,
    reply: ApiReply,
    response: ApiResponse,
)
    requires
        answers(exchange, reply, response),
    ensures
        response matches ApiResponse::PlaylistFollowChanged { followed, .. } ==> followed
            == exchange.request->follow,
        response matches ApiResponse::SavedChanged { uris, saved, .. } ==> uris
            == exchange.request->SetSaved_uris && saved == exchange.request->saved,
        response matches ApiResponse::PlaylistDuplicatesChecked {
            playlist_name,
            items,
            position,
            ..
        } ==> playlist_name == exchange.request->CheckPlaylistDuplicates_playlist_name && items
            == exchange.request->items && position
            == exchange.request->CheckPlaylistDuplicates_position,
        response matches ApiResponse::Transferred { device_id, .. } ==> device_id
            == exchange.request->Transfer_device_id,
        response matches ApiResponse::QueueAdded { label, .. } ==> label
            == exchange.request->label,
        response matches ApiResponse::Remote { action, .. } ==> action == (
        if exchange.request is ShufflePlay {
            RemoteAction::Play
        } else {
            exchange.request->action
        }),
{
}

/// What the listener reads once the rows of a playlist have changed: where the
/// songs went, that they are gone, or nothing where they only moved.
pub proof fn a_changed_playlist_is_announced(
    exchange: Exchange,
    reply: ApiReply,
    response: ApiResponse,
)
    requires
        answers(exchange, reply, response),
    ensures
        response matches ApiResponse::PlaylistItemsChanged { message, .. } ==> {
            &&& exchange.request is AddToPlaylist ==> message@ == "Added to "@
                + exchange.request->AddToPlaylist_playlist_name@
            &&& exchange.request is RemoveFromPlaylist ==> message@ == "Removed from playlist"@
            &&& exchange.request is ReorderPlaylist ==> message@.len() == 0
        },
{
}

// ---- outcomes -------------------------------------------------------------------

/// What the Web API replied is what the interface gets, success or failure.
pub proof fn the_reply_is_handed_on(exchange: Exchange, reply: ApiReply, response: ApiResponse)
    requires
        answers(exchange, reply, response),
    ensures
        response matches ApiResponse::Me(result) ==> reply == ApiReply::User(result),
        response matches ApiResponse::Devices(result) ==> reply == ApiReply::Devices(result),
        response matches ApiResponse::PlaybackState { result, .. }
            ==> reply == ApiReply::PlaybackState(result),
        response matches ApiResponse::Queue { result, .. } ==> reply == ApiReply::Queue(result),
        response matches ApiResponse::RecentlyPlayed { result, .. }
            ==> reply == ApiReply::History(result),
        response matches ApiResponse::TopTracks { result, .. }
            ==> reply == ApiReply::TrackPage(result),
        response matches ApiResponse::Recommendations { result, .. }
            ==> reply == ApiReply::Tracks(result),
        response matches ApiResponse::MyPlaylists { result, .. }
            ==> reply == ApiReply::PlaylistPage(result),
        response matches ApiResponse::Playlist { result, .. }
            ==> reply == ApiReply::Playlist(result),
        response matches ApiResponse::PlaylistItems { result, .. }
            ==> reply == ApiReply::Rows(result),
        response matches ApiResponse::PlaylistSample { result, .. }
            ==> reply == ApiReply::Rows(result),
        response matches ApiResponse::PlaylistCreated(result)
            ==> reply == ApiReply::Playlist(result),
        response matches ApiResponse::PlaylistUpdated { result, .. }
            ==> reply == ApiReply::Done(result),
        response matches ApiResponse::PlaylistDuplicatesChecked { result, .. }
            ==> reply == ApiReply::Uris(result),
        response matches ApiResponse::PlaylistItemsChanged { result, .. }
            ==> reply == ApiReply::Snapshot(result),
        response matches ApiResponse::PlaylistFollowChanged { result, .. }
            ==> reply == ApiReply::Done(result),
        response matches ApiResponse::SavedTracks { result, .. }
            ==> reply == ApiReply::SavedTracks(result),
        response matches ApiResponse::SavedAlbums { result, .. }
            ==> reply == ApiReply::SavedAlbums(result),
        response matches ApiResponse::FollowedArtists { result, .. }
            ==> reply == ApiReply::ArtistCursor(result),
        response matches ApiResponse::SavedShows { result, .. }
            ==> reply == ApiReply::SavedShows(result),
        response matches ApiResponse::SavedEpisodes { result, .. }
            ==> reply == ApiReply::SavedEpisodes(result),
        response matches ApiResponse::SavedChanged { result, .. }
            ==> reply == ApiReply::Done(result),
        response matches ApiResponse::Contains { result, .. } ==> reply == ApiReply::Flags(result),
        response matches ApiResponse::Search { result, .. } ==> reply == ApiReply::Found(result),
        response matches ApiResponse::Artist { result, .. } ==> reply == ApiReply::Artist(result),
        response matches ApiResponse::ArtistTopTracks { result, .. }
            ==> reply == ApiReply::Tracks(result),
        response matches ApiResponse::ArtistAlbums { result, .. }
            ==> reply == ApiReply::AlbumPage(result),
        response matches ApiResponse::RelatedArtists { result, .. }
            ==> reply == ApiReply::Artists(result),
        response matches ApiResponse::Album { result, .. } ==> reply == ApiReply::Album(result),
        response matches ApiResponse::AlbumTracks { result, .. }
            ==> reply == ApiReply::TrackPage(result),
        response matches ApiResponse::Show { result, .. } ==> reply == ApiReply::Show(result),
        response matches ApiResponse::ShowEpisodes { result, .. }
            ==> reply == ApiReply::EpisodePage(result),
        response matches ApiResponse::Track { result, .. } ==> reply == ApiReply::Track(result),
        response matches ApiResponse::Episode { result, .. } ==> reply == ApiReply::Episode(result),
        response matches ApiResponse::Remote { result, .. } ==> reply == ApiReply::Done(result),
        response matches ApiResponse::Transferred { result, .. }
            ==> reply == ApiReply::Done(result),
        response matches ApiResponse::QueueAdded { result, .. } ==> reply == ApiReply::Done(result),
{
}

/// Of the top artists the interface gets the page's rows, and of a discovery
/// the playlists that were found, in order, none where there is no page.
pub proof fn rows_are_taken_out_of_their_page(
    exchange: Exchange,
    reply: ApiReply,
    response: ApiResponse,
)
    requires
        answers(exchange, reply, response),
    ensures
        response matches ApiResponse::TopArtists { result, .. } ==> (match result {
            Ok(artists) => reply matches ApiReply::ArtistPage(Ok(page)) && page.items == artists,
            Err(error) => reply == ApiReply::ArtistPage(Err(error)),
        }),
        response matches ApiResponse::Discover { result, .. } ==> (match result {
            Ok(playlists) => reply matches ApiReply::Found(Ok(found)) && match found.playlists {
                Some(page) => page.items@ == playlists@,
                None => playlists@.len() == 0,
            },
            Err(error) => reply == ApiReply::Found(Err(error)),
        }),
{
}

/// What an answer failed with.
pub open spec fn failure(response: ApiResponse) -> Option<ApiError> {
    match response {
        ApiResponse::Me(Err(error)) => Some(error),
        ApiResponse::Devices(Err(error)) => Some(error),
        ApiResponse::PlaybackState { result: Err(error), .. } => Some(error),
        ApiResponse::Queue { result: Err(error), .. } => Some(error),
        ApiResponse::RecentlyPlayed { result: Err(error), .. } => Some(error),
        ApiResponse::TopTracks { result: Err(error), .. } => Some(error),
        ApiResponse::Recommendations { result: Err(error), .. } => Some(error),
        ApiResponse::MyPlaylists { result: Err(error), .. } => Some(error),
        ApiResponse::Playlist { result: Err(error), .. } => Some(error),
        ApiResponse::PlaylistItems { result: Err(error), .. } => Some(error),
        ApiResponse::PlaylistSample { result: Err(error), .. } => Some(error),
        ApiResponse::PlaylistCreated(Err(error)) => Some(error),
        ApiResponse::PlaylistUpdated { result: Err(error), .. } => Some(error),
        ApiResponse::PlaylistDuplicatesChecked { result: Err(error), .. } => Some(error),
        ApiResponse::PlaylistItemsChanged { result: Err(error), .. } => Some(error),
        ApiResponse::PlaylistFollowChanged { result: Err(error), .. } => Some(error),
        ApiResponse::SavedTracks { result: Err(error), .. } => Some(error),
        ApiResponse::SavedAlbums { result: Err(error), .. } => Some(error),
        ApiResponse::FollowedArtists { result: Err(error), .. } => Some(error),
        ApiResponse::SavedShows { result: Err(error), .. } => Some(error),
        ApiResponse::SavedEpisodes { result: Err(error), .. } => Some(error),
        ApiResponse::SavedChanged { result: Err(error), .. } => Some(error),
        ApiResponse::Contains { result: Err(error), .. } => Some(error),
        ApiResponse::Search { result: Err(error), .. } => Some(error),
        ApiResponse::Artist { result: Err(error), .. } => Some(error),
        ApiResponse::ArtistTopTracks { result: Err(error), .. } => Some(error),
        ApiResponse::ArtistAlbums { result: Err(error), .. } => Some(error),
        ApiResponse::RelatedArtists { result: Err(error), .. } => Some(error),
        ApiResponse::Album { result: Err(error), .. } => Some(error),
        ApiResponse::AlbumTracks { result: Err(error), .. } => Some(error),
        ApiResponse::Show { result: Err(error), .. } => Some(error),
        ApiResponse::ShowEpisodes { result: Err(error), .. } => Some(error),
        ApiResponse::Track { result: Err(error), .. } => Some(error),
        ApiResponse::Episode { result: Err(error), .. } => Some(error),
        ApiResponse::Remote { result: Err(error), .. } => Some(error),
        ApiResponse::Transferred { result: Err(error), .. } => Some(error),
        ApiResponse::QueueAdded { result: Err(error), .. } => Some(error),
        ApiResponse::TopArtists { result: Err(error), .. } => Some(error),
        ApiResponse::Discover { result: Err(error), .. } => Some(error),
        _ => None,
    }
}

/// A request for which no app could be found is answered with the reason.
pub proof fn a_refused_request_is_answered_with_the_reason(
    exchange: Exchange,
    error: ApiError,
    reply: ApiReply,
    response: ApiResponse,
)
    requires
        call_ensures(refusal, (&exchange.request, error), reply),
        answers(exchange, reply, response),
    ensures
        failure(response) == Some(error),
{
}

/// Whether a reply is a success.
pub open spec fn succeeded(reply: ApiReply) -> bool {
    match reply {
        ApiReply::User(Ok(_))
        | ApiReply::Devices(Ok(_))
        | ApiReply::PlaybackState(Ok(_))
        | ApiReply::Queue(Ok(_))
        | ApiReply::History(Ok(_))
        | ApiReply::TrackPage(Ok(_))
        | ApiReply::ArtistPage(Ok(_))
        | ApiReply::Tracks(Ok(_))
        | ApiReply::Found(Ok(_))
        | ApiReply::PlaylistPage(Ok(_))
        | ApiReply::Playlist(Ok(_))
        | ApiReply::Rows(Ok(_))
        | ApiReply::Done(Ok(_))
        | ApiReply::Uris(Ok(_))
        | ApiReply::Snapshot(Ok(_))
        | ApiReply::SavedTracks(Ok(_))
        | ApiReply::SavedAlbums(Ok(_))
        | ApiReply::ArtistCursor(Ok(_))
        | ApiReply::SavedShows(Ok(_))
        | ApiReply::SavedEpisodes(Ok(_))
        | ApiReply::Flags(Ok(_))
        | ApiReply::Artist(Ok(_))
        | ApiReply::Artists(Ok(_))
        | ApiReply::AlbumPage(Ok(_))
        | ApiReply::Album(Ok(_))
        | ApiReply::Show(Ok(_))
        | ApiReply::EpisodePage(Ok(_))
        | ApiReply::Track(Ok(_))
        | ApiReply::Episode(Ok(_)) => true,
        _ => false,
    }
}

/// A failure of any kind of call is seen as what it is, and a success never as
/// one.
pub proof fn a_failure_is_seen_as_what_it_is(error: ApiError, reply: ApiReply)
    ensures
        succeeded(reply) ==> reply.spec_error() is None && reply.spec_expired() is None,
        ApiReply::User(Err(error)).spec_error() == Some(error),
        ApiReply::Devices(Err(error)).spec_error() == Some(error),
        ApiReply::PlaybackState(Err(error)).spec_error() == Some(error),
        ApiReply::Queue(Err(error)).spec_error() == Some(error),
        ApiReply::History(Err(error)).spec_error() == Some(error),
        ApiReply::TrackPage(Err(error)).spec_error() == Some(error),
        ApiReply::ArtistPage(Err(error)).spec_error() == Some(error),
        ApiReply::Tracks(Err(error)).spec_error() == Some(error),
        ApiReply::Found(Err(error)).spec_error() == Some(error),
        ApiReply::PlaylistPage(Err(error)).spec_error() == Some(error),
        ApiReply::Playlist(Err(error)).spec_error() == Some(error),
        ApiReply::Rows(Err(error)).spec_error() == Some(error),
        ApiReply::Done(Err(error)).spec_error() == Some(error),
        ApiReply::Uris(Err(error)).spec_error() == Some(error),
        ApiReply::Snapshot(Err(error)).spec_error() == Some(error),
        ApiReply::SavedTracks(Err(error)).spec_error() == Some(error),
        ApiReply::SavedAlbums(Err(error)).spec_error() == Some(error),
        ApiReply::ArtistCursor(Err(error)).spec_error() == Some(error),
        ApiReply::SavedShows(Err(error)).spec_error() == Some(error),
        ApiReply::SavedEpisodes(Err(error)).spec_error() == Some(error),
        ApiReply::Flags(Err(error)).spec_error() == Some(error),
        ApiReply::Artist(Err(error)).spec_error() == Some(error),
        ApiReply::Artists(Err(error)).spec_error() == Some(error),
        ApiReply::AlbumPage(Err(error)).spec_error() == Some(error),
        ApiReply::Album(Err(error)).spec_error() == Some(error),
        ApiReply::Show(Err(error)).spec_error() == Some(error),
        ApiReply::EpisodePage(Err(error)).spec_error() == Some(error),
        ApiReply::Track(Err(error)).spec_error() == Some(error),
        ApiReply::Episode(Err(error)).spec_error() == Some(error),
{
}

/// An expired grant is noticed whatever was asked, as the grant of the app it
/// was; no other failure is taken for one.
pub proof fn an_expired_grant_is_noticed_whatever_was_asked(
    api_source: ApiSource,
    other: ApiError,
    reply: ApiReply,
)
    requires
        other is Status || other is Unreachable,
    ensures
        reply.spec_error() == Some(ApiError::SignInExpired { api_source }) ==> reply.spec_expired()
            == Some(api_source),
        reply.spec_error() == Some(other) ==> reply.spec_expired() is None,
{
}

/// A request goes on its way as it was made, for the account in force, with
/// nothing done yet.
pub proof fn a_request_goes_on_its_way_as_it_was_made(
    api: ApiGateway,
    request: ApiRequest,
    exchange: Exchange,
)
    requires
        call_ensures(Exchange::open, (&api, request), exchange),
    ensures
        exchange.request == request,
        !exchange.shuffled,
        match exchange.account_id {
            Some(id) => api@.account() == Some(id@),
            None => api@.account() is None,
        },
{
}

}
