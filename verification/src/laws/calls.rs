//! What a request asks of the Web API: the call of its own kind, with its own
//! values.

use vstd::prelude::*;

use crate::exchange::{asks, uris_of, ApiCall, Exchange, SearchKinds, TimeRange};
use crate::models::{PlayRequest, PlayableItem};
use crate::requests::{ApiRequest, RemoteAction};

verus! {

// ---- remote devices -----------------------------------------------------------

/// Every order to a remote device leads to the call of the same name, and to no
/// other: a device that is told to skip never goes back.
pub proof fn a_remote_order_is_the_call_of_its_name<'a>(
    exchange: Exchange,
    call: ApiCall<'a>,
    action: RemoteAction,
)
    requires
        exchange.request matches ApiRequest::Remote { action: ordered, .. } && ordered == action,
        asks(exchange, call),
    ensures
        call is Play <==> action == RemoteAction::Play,
        call is Pause <==> action == RemoteAction::Pause,
        call is Next <==> action == RemoteAction::Next,
        call is Previous <==> action == RemoteAction::Previous,
        call is Seek <==> action == RemoteAction::Seek,
        call is Volume <==> action == RemoteAction::Volume,
        call is Shuffle <==> action == RemoteAction::Shuffle,
        call is Repeat <==> action == RemoteAction::Repeat,
{
}

/// An order to a remote device carries the request's own argument: the spot to
/// seek to, the volume, the switch, the mode, what is to be played.
pub proof fn a_remote_order_carries_its_argument<'a>(
    exchange: Exchange,
    call: ApiCall<'a>,
    wanted: Option<PlayRequest>,
    spot: u32,
    loudness: u8,
    on: bool,
    mode: String,
)
    requires
        exchange.request matches ApiRequest::Remote {
            play,
            position_ms,
            percent,
            flag,
            repeat,
            ..
        } && play == wanted && position_ms == spot && percent == loudness && flag == on && repeat
            == mode,
        asks(exchange, call),
    ensures
        call matches ApiCall::Seek { position_ms, .. } ==> position_ms == spot,
        call matches ApiCall::Volume { percent, .. } ==> percent == loudness,
        call matches ApiCall::Shuffle { on: switched, .. } ==> switched == on,
        call matches ApiCall::Repeat { mode: set, .. } ==> *set == mode,
        call matches ApiCall::Play { play, .. } ==> (match play {
            Some(play) => wanted == Some(*play),
            None => wanted is None,
        }),
{
}

/// Different orders lead to different calls, whatever else the requests say.
pub proof fn different_orders_are_different_calls<'a>(
    one: Exchange,
    two: Exchange,
    first: ApiCall<'a>,
    second: ApiCall<'a>,
)
    requires
        one.request is Remote,
        two.request is Remote,
        one.request->Remote_action != two.request->Remote_action,
        asks(one, first),
        asks(two, second),
    ensures
        first != second,
{
}

/// The device a request is for: `None` where it is for none, `Some(None)` where
/// it is for the one in use.
pub open spec fn aimed_at(request: ApiRequest) -> Option<Option<String>> {
    match request {
        ApiRequest::Remote { device_id, .. } => Some(device_id),
        ApiRequest::ShufflePlay { device_id, .. } => Some(device_id),
        ApiRequest::AddToQueue { device_id, .. } => Some(device_id),
        ApiRequest::Transfer { device_id, .. } => Some(Some(device_id)),
        _ => None,
    }
}

/// The device a call goes to.
pub open spec fn goes_to(call: ApiCall<'_>) -> Option<Option<String>> {
    match call {
        ApiCall::Play { device_id, .. } => Some(*device_id),
        ApiCall::Pause { device_id } => Some(*device_id),
        ApiCall::Next { device_id } => Some(*device_id),
        ApiCall::Previous { device_id } => Some(*device_id),
        ApiCall::Seek { device_id, .. } => Some(*device_id),
        ApiCall::Volume { device_id, .. } => Some(*device_id),
        ApiCall::Shuffle { device_id, .. } => Some(*device_id),
        ApiCall::Repeat { device_id, .. } => Some(*device_id),
        ApiCall::AddToQueue { device_id, .. } => Some(*device_id),
        ApiCall::Transfer { device_id, .. } => Some(Some(*device_id)),
        _ => None,
    }
}

/// A call goes to the device that its request is for.
pub proof fn a_call_goes_to_the_requests_device<'a>(exchange: Exchange, call: ApiCall<'a>)
    requires
        asks(exchange, call),
    ensures
        goes_to(call) == aimed_at(exchange.request),
{
}

/// A transfer, a queued song and a shuffled context are handed on as they are.
pub proof fn playback_is_handed_on<'a>(exchange: Exchange, call: ApiCall<'a>)
    requires
        asks(exchange, call),
    ensures
        call is Transfer <==> exchange.request is Transfer,
        call matches ApiCall::Transfer { play, .. } ==> play == exchange.request->Transfer_play,
        call is AddToQueue <==> exchange.request is AddToQueue,
        call matches ApiCall::AddToQueue { uri, .. } ==> *uri == exchange.request->AddToQueue_uri,
        exchange.request matches ApiRequest::ShufflePlay { play: context, .. }
            ==> if exchange.shuffled {
            call matches ApiCall::Play { play: Some(play), .. } && *play == context
        } else {
            call matches ApiCall::Shuffle { on: true, .. }
        },
{
}

// ---- everything else ----------------------------------------------------------

/// A question is put as it was asked: each kind of lookup leads to the call of
/// its own kind, and to no other.
pub proof fn a_question_is_put_as_it_was_asked<'a>(exchange: Exchange, call: ApiCall<'a>)
    requires
        asks(exchange, call),
    ensures
        call is Me <==> exchange.request is Me,
        call is Devices <==> exchange.request is Devices,
        call is PlaybackState <==> exchange.request is PlaybackState,
        call is Queue <==> exchange.request is Queue,
        call is RecentlyPlayed <==> exchange.request is RecentlyPlayed,
        call is TopTracks <==> exchange.request is TopTracks,
        call is TopArtists <==> exchange.request is TopArtists,
        call is Recommendations <==> exchange.request is Recommendations,
        call is Search <==> exchange.request is Search || exchange.request is Discover,
        call is MyPlaylists <==> exchange.request is MyPlaylists,
        call is Playlist <==> exchange.request is Playlist,
        call is PlaylistItems <==> exchange.request is PlaylistItems || exchange.request
            is PlaylistSample,
        call is PlaylistDuplicates <==> exchange.request is CheckPlaylistDuplicates,
        call is SavedTracks <==> exchange.request is SavedTracks,
        call is SavedAlbums <==> exchange.request is SavedAlbums,
        call is FollowedArtists <==> exchange.request is FollowedArtists,
        call is SavedShows <==> exchange.request is SavedShows,
        call is SavedEpisodes <==> exchange.request is SavedEpisodes,
        call is Contains <==> exchange.request is Contains,
        call is Artist <==> exchange.request is Artist,
        call is ArtistTopTracks <==> exchange.request is ArtistTopTracks,
        call is ArtistAlbums <==> exchange.request is ArtistAlbums,
        call is RelatedArtists <==> exchange.request is RelatedArtists,
        call is Album <==> exchange.request is Album,
        call is AlbumTracks <==> exchange.request is AlbumTracks,
        call is Show <==> exchange.request is Show,
        call is ShowEpisodes <==> exchange.request is ShowEpisodes,
        call is Track <==> exchange.request is Track,
        call is Episode <==> exchange.request is Episode,
{
}

/// A change is made as it was asked for: adding adds, removing removes, and
/// following, saving and their opposites are told apart.
pub proof fn a_change_is_made_as_it_was_asked_for<'a>(exchange: Exchange, call: ApiCall<'a>)
    requires
        asks(exchange, call),
    ensures
        call is CreatePlaylist <==> exchange.request is CreatePlaylist,
        call is UpdatePlaylist <==> exchange.request is UpdatePlaylist,
        call is AddPlaylistItems <==> exchange.request is AddToPlaylist,
        call is RemovePlaylistItems <==> exchange.request is RemoveFromPlaylist,
        call is ReorderPlaylist <==> exchange.request is ReorderPlaylist,
        call is FollowPlaylist <==> (exchange.request matches ApiRequest::FollowPlaylist {
            follow,
            ..
        } && follow),
        call is UnfollowPlaylist <==> (exchange.request matches ApiRequest::FollowPlaylist {
            follow,
            ..
        } && !follow),
        call is Save <==> (exchange.request matches ApiRequest::SetSaved { saved, .. } && saved),
        call is Unsave <==> (exchange.request matches ApiRequest::SetSaved { saved, .. } && !saved),
{
}

/// What a request is about: the id of one playlist, artist, album, show, track
/// or episode.
pub open spec fn about(request: ApiRequest) -> Option<String> {
    match request {
        ApiRequest::Playlist { id, .. }
        | ApiRequest::PlaylistItems { id, .. }
        | ApiRequest::PlaylistSample { id, .. }
        | ApiRequest::UpdatePlaylist { id, .. }
        | ApiRequest::FollowPlaylist { id, .. }
        | ApiRequest::Artist { id }
        | ApiRequest::ArtistTopTracks { id }
        | ApiRequest::ArtistAlbums { id, .. }
        | ApiRequest::RelatedArtists { id }
        | ApiRequest::Album { id }
        | ApiRequest::AlbumTracks { id, .. }
        | ApiRequest::Show { id }
        | ApiRequest::ShowEpisodes { id, .. }
        | ApiRequest::Track { id }
        | ApiRequest::Episode { id } => Some(id),
        ApiRequest::CheckPlaylistDuplicates { playlist_id, .. }
        | ApiRequest::AddToPlaylist { playlist_id, .. }
        | ApiRequest::RemoveFromPlaylist { playlist_id, .. }
        | ApiRequest::ReorderPlaylist { playlist_id, .. } => Some(playlist_id),
        _ => None,
    }
}

/// What a call is about.
pub open spec fn touches(call: ApiCall<'_>) -> Option<String> {
    match call {
        ApiCall::Playlist { id }
        | ApiCall::PlaylistItems { id, .. }
        | ApiCall::UpdatePlaylist { id, .. }
        | ApiCall::PlaylistDuplicates { id, .. }
        | ApiCall::AddPlaylistItems { id, .. }
        | ApiCall::RemovePlaylistItems { id, .. }
        | ApiCall::ReorderPlaylist { id, .. }
        | ApiCall::FollowPlaylist { id }
        | ApiCall::UnfollowPlaylist { id }
        | ApiCall::Artist { id }
        | ApiCall::ArtistTopTracks { id }
        | ApiCall::ArtistAlbums { id, .. }
        | ApiCall::RelatedArtists { id }
        | ApiCall::Album { id }
        | ApiCall::AlbumTracks { id, .. }
        | ApiCall::Show { id }
        | ApiCall::ShowEpisodes { id, .. }
        | ApiCall::Track { id }
        | ApiCall::Episode { id } => Some(*id),
        _ => None,
    }
}

/// A call is about what its request is about.
pub proof fn a_call_is_about_what_was_asked<'a>(exchange: Exchange, call: ApiCall<'a>)
    requires
        asks(exchange, call),
    ensures
        touches(call) == about(exchange.request),
{
}

/// Where a request reads on from.
pub open spec fn reads_from(request: ApiRequest) -> Option<u32> {
    match request {
        ApiRequest::TopTracks { offset, .. }
        | ApiRequest::MyPlaylists { offset }
        | ApiRequest::PlaylistItems { offset, .. }
        | ApiRequest::PlaylistSample { offset, .. }
        | ApiRequest::SavedTracks { offset, .. }
        | ApiRequest::SavedAlbums { offset }
        | ApiRequest::SavedShows { offset }
        | ApiRequest::SavedEpisodes { offset }
        | ApiRequest::ArtistAlbums { offset, .. }
        | ApiRequest::AlbumTracks { offset, .. }
        | ApiRequest::ShowEpisodes { offset, .. } => Some(offset),
        _ => None,
    }
}

/// Where a call reads on from, and how many rows it reads at most.
pub open spec fn page(call: ApiCall<'_>) -> Option<(u32, u32)> {
    match call {
        ApiCall::TopTracks { offset, limit, .. }
        | ApiCall::MyPlaylists { offset, limit }
        | ApiCall::PlaylistItems { offset, limit, .. }
        | ApiCall::SavedTracks { offset, limit }
        | ApiCall::SavedAlbums { offset, limit }
        | ApiCall::SavedShows { offset, limit }
        | ApiCall::SavedEpisodes { offset, limit }
        | ApiCall::ArtistAlbums { offset, limit, .. }
        | ApiCall::AlbumTracks { offset, limit, .. }
        | ApiCall::ShowEpisodes { offset, limit, .. } => Some((offset, limit)),
        _ => None,
    }
}

/// A list is read on from where the request says, fifty rows at a time; only
/// the short list of top tracks is read twenty at a time.
pub proof fn a_list_is_read_on_from_where_it_was_asked<'a>(exchange: Exchange, call: ApiCall<'a>)
    requires
        asks(exchange, call),
    ensures
        match reads_from(exchange.request) {
            Some(from) => page(call) matches Some((offset, limit)) && offset == from && limit == (
            if exchange.request matches ApiRequest::TopTracks { full: false, .. } {
                20u32
            } else {
                50u32
            }),
            None => page(call) is None,
        },
{
}

/// The lists that are not read by offset are read as far as they are asked for.
pub proof fn other_lists_are_read_as_far_as_asked<'a>(exchange: Exchange, call: ApiCall<'a>)
    requires
        asks(exchange, call),
    ensures
        call matches ApiCall::RecentlyPlayed { limit, before } ==> limit
            == exchange.request->RecentlyPlayed_limit && *before
            == exchange.request->RecentlyPlayed_before,
        call matches ApiCall::FollowedArtists { after, limit } ==> limit == 50 && *after
            == exchange.request->FollowedArtists_after,
        call matches ApiCall::Recommendations { seed_tracks, seed_artists, limit } ==> limit == 20
            && *seed_tracks == exchange.request->Recommendations_seed_tracks && *seed_artists
            == exchange.request->Recommendations_seed_artists,
        call matches ApiCall::TopTracks { range, .. } ==> range == TimeRange::Short,
        call matches ApiCall::TopArtists { range, limit } ==> range == TimeRange::Medium && limit
            == 20,
        call matches ApiCall::ArtistAlbums { groups, .. } ==> *groups
            == exchange.request->ArtistAlbums_groups,
{
}

/// A search looks for the listener's own words; discovery looks for playlists
/// only, an ordinary search for everything.
pub proof fn a_search_looks_for_the_listeners_words<'a>(exchange: Exchange, call: ApiCall<'a>)
    requires
        asks(exchange, call),
    ensures
        call matches ApiCall::Search { query, kinds } ==> {
            &&& exchange.request matches ApiRequest::Search { query: words, .. } ==> *query == words
                && kinds == SearchKinds::Everything
            &&& exchange.request matches ApiRequest::Discover { term, .. } ==> *query == term
                && kinds == SearchKinds::Playlists
        },
{
}

/// A change to a playlist carries the request's own words, rows and places.
pub proof fn a_playlist_change_carries_the_requests_values<'a>(
    exchange: Exchange,
    call: ApiCall<'a>,
)
    requires
        asks(exchange, call),
    ensures
        call matches ApiCall::CreatePlaylist { name, public, description } ==> *name
            == exchange.request->CreatePlaylist_name && public
            == exchange.request->CreatePlaylist_public && *description
            == exchange.request->CreatePlaylist_description,
        call matches ApiCall::UpdatePlaylist { name, description, public, .. } ==> *name
            == exchange.request->UpdatePlaylist_name && *description
            == exchange.request->UpdatePlaylist_description && public
            == exchange.request->UpdatePlaylist_public,
        call matches ApiCall::AddPlaylistItems { uris, position, .. } ==> *uris
            == exchange.request->AddToPlaylist_uris && position
            == exchange.request->AddToPlaylist_position,
        call matches ApiCall::RemovePlaylistItems { uris, snapshot_id, .. } ==> *uris
            == exchange.request->RemoveFromPlaylist_uris && *snapshot_id
            == exchange.request->RemoveFromPlaylist_snapshot_id,
        call matches ApiCall::ReorderPlaylist {
            range_start,
            insert_before,
            snapshot_id,
            ..
        } ==> range_start == exchange.request->range_start && insert_before
            == exchange.request->insert_before && *snapshot_id
            == exchange.request->ReorderPlaylist_snapshot_id,
        call matches ApiCall::Save { uris } ==> *uris == exchange.request->SetSaved_uris,
        call matches ApiCall::Unsave { uris } ==> *uris == exchange.request->SetSaved_uris,
        call matches ApiCall::Contains { uris } ==> *uris == exchange.request->Contains_uris,
{
}

/// A check for duplicates asks for every song and episode that is to be added,
/// in order, each by its own uri.
pub proof fn every_item_is_checked_for_duplicates<'a>(
    exchange: Exchange,
    call: ApiCall<'a>,
    asked: Vec<PlayableItem>,
)
    requires
        exchange.request matches ApiRequest::CheckPlaylistDuplicates { items, .. } && items
            == asked,
        asks(exchange, call),
    ensures
        call matches ApiCall::PlaylistDuplicates { uris, .. } && uris@.len() == asked@.len()
            && forall|i: int|
            0 <= i < asked@.len() ==> (match asked@[i] {
                PlayableItem::Track(track) => #[trigger] uris@[i]@ == track.uri@,
                PlayableItem::Episode(episode) => uris@[i]@ == episode.uri@,
            }),
{
    let uris = call->PlaylistDuplicates_uris;
    assert(uris.deep_view().len() == uris@.len());
    assert forall|i: int| 0 <= i < asked@.len() implies (match asked@[i] {
        PlayableItem::Track(track) => #[trigger] uris@[i]@ == track.uri@,
        PlayableItem::Episode(episode) => uris@[i]@ == episode.uri@,
    }) by {
        assert(uris.deep_view()[i] == uris@[i]@);
        assert(uris_of(asked@)[i] == asked@[i].spec_uri());
    }
}

/// Whether a list of names has `name` in it.
pub open spec fn is_named(names: Seq<String>, name: Seq<char>) -> bool {
    exists|i: int| 0 <= i < names.len() && #[trigger] names[i]@ == name
}

/// The spans and kinds go by the Web API's own names: a search for playlists
/// names nothing else, and one for everything names each kind once.
pub proof fn spans_and_kinds_go_by_the_web_apis_names(
    range: TimeRange,
    name: String,
    kinds: SearchKinds,
    names: Vec<String>,
)
    requires
        call_ensures(TimeRange::name, (range,), name),
        call_ensures(SearchKinds::names, (kinds,), names),
    ensures
        range == TimeRange::Short ==> name@ == "short_term"@,
        range == TimeRange::Medium ==> name@ == "medium_term"@,
        is_named(names@, "playlist"@),
        kinds == SearchKinds::Playlists ==> names@.len() == 1,
        kinds == SearchKinds::Everything ==> names@.len() == 6 && is_named(names@, "track"@)
            && is_named(names@, "artist"@) && is_named(names@, "album"@) && is_named(
            names@,
            "show"@,
        ) && is_named(names@, "episode"@),
{
    assert(names.deep_view().len() == names@.len());
    assert forall|i: int| 0 <= i < names@.len() implies #[trigger] names@[i]@
        == names.deep_view()[i] by {}
    match kinds {
        SearchKinds::Playlists => {
            assert(names@[0]@ == "playlist"@);
        },
        SearchKinds::Everything => {
            assert(names@[0]@ == "track"@);
            assert(names@[1]@ == "artist"@);
            assert(names@[2]@ == "album"@);
            assert(names@[3]@ == "playlist"@);
            assert(names@[4]@ == "show"@);
            assert(names@[5]@ == "episode"@);
        },
    }
}

}
