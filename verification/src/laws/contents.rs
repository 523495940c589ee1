//! The contents of the values that travel: an action, an event, a route or a
//! worker is told by its content to be what it is, field by field.

use vstd::prelude::*;

use crate::actions::{shown, Action, ActionModel};
use crate::backend::{addition, AdditionModel, Backend, BackendModel};
use crate::credentials::{Credentials, StoredToken};
use crate::events::{
    AuthModel, AuthStatus, Command, Event, EventModel, LocalPlayback, PlaybackModel,
};
use crate::gateway::{AccessModel, ApiGateway, PlaylistAccess, SessionModel, SessionState};
use crate::models::{LoadSpec, PlayerCommand};
use crate::requests::{
    operation_for, ApiRequest, Operation, OperationModel, BACKGROUND_REQUESTS,
};
use crate::tasks::CONNECT_TIMEOUT_S;
use crate::worker::Worker;

verus! {

// ---- actions --------------------------------------------------------------------------

/// An action's content is of the action's own kind.
pub proof fn an_actions_content_is_of_its_kind(action: Action)
    ensures
        action@ is Emit <==> action is Emit,
        action@ is LoadGrant <==> action is LoadGrant,
        action@ is Revoke <==> action is Revoke,
        action@ is RevokeAll <==> action is RevokeAll,
        action@ is DeleteGrant <==> action is DeleteGrant,
        action@ is SaveGrant <==> action is SaveGrant,
        action@ is RememberToken <==> action is RememberToken,
        action@ is BeginSignIn <==> action is BeginSignIn,
        action@ is BeginPlaybackAuthorization <==> action is BeginPlaybackAuthorization,
        action@ is CancelBrowser <==> action is CancelBrowser,
        action@ is VerifyToken <==> action is VerifyToken,
        action@ is ConnectEngine <==> action is ConnectEngine,
        action@ is KeepEngine <==> action is KeepEngine,
        action@ is DiscardEngine <==> action is DiscardEngine,
        action@ is StopEngine <==> action is StopEngine,
        action@ is Play <==> action is Play,
        action@ is LoadAgain <==> action is LoadAgain,
        action@ is CheckResumeIn <==> action is CheckResumeIn,
        action@ is Dispatch <==> action is Dispatch,
        action@ is FetchAccent <==> action is FetchAccent,
        action@ is DiscoverReceivers <==> action is DiscoverReceivers,
        action@ is ActivateReceiver <==> action is ActivateReceiver,
        action@ is CheckForUpdates <==> action is CheckForUpdates,
        action@ is FetchLyrics <==> action is FetchLyrics,
        action@ is FetchRootlist <==> action is FetchRootlist,
        action@ is FetchUserNames <==> action is FetchUserNames,
        action@ is ReadPlaylistCache <==> action is ReadPlaylistCache,
        action@ is WritePlaylistCache <==> action is WritePlaylistCache,
        action@ is AbortEditorialSearch <==> action is AbortEditorialSearch,
        action@ is SearchEditorial <==> action is SearchEditorial,
        action@ is ReadLikedSongs <==> action is ReadLikedSongs,
        action@ is WriteLikedSongs <==> action is WriteLikedSongs,
{
}

/// An action's content holds the action's own values: those that open, verify
/// and store grants.
pub proof fn a_grants_action_keeps_its_values(action: Action)
    ensures
        match action {
            Action::LoadGrant { lease } => action@ == ActionModel::LoadGrant { lease },
            Action::Revoke { slot } => action@ == ActionModel::Revoke { slot },
            Action::DeleteGrant { lease } => action@ == ActionModel::DeleteGrant { lease },
            Action::SaveGrant { lease, grant } => action@ matches ActionModel::SaveGrant {
                lease: under,
                grant: kept,
            } && under == lease && kept == grant@,
            Action::RememberToken { source, lease } => action@ == ActionModel::RememberToken {
                source,
                lease,
            },
            Action::BeginSignIn { source, client_id, lease, attempt } => action@ matches
                ActionModel::BeginSignIn {
                source: of,
                client_id: app,
                lease: under,
                attempt: number,
            } && of == source && app == client_id.deep_view() && under == lease && number
                == attempt,
            Action::BeginPlaybackAuthorization { lease, attempt } => action@
                == ActionModel::BeginPlaybackAuthorization { lease, attempt },
            Action::VerifyToken { source, token, lease, attempt } => action@ matches
                ActionModel::VerifyToken {
                source: of,
                token: held,
                lease: under,
                attempt: number,
            } && of == source && held == token@ && under == lease && number == attempt,
            Action::ActivateReceiver { receiver, credentials, lease } => action@ matches
                ActionModel::ActivateReceiver {
                receiver: picked,
                credentials: given,
                lease: under,
            } && picked == receiver && given == credentials.deep_view() && under == lease,
            _ => true,
        },
{
}

/// An action's content holds the action's own values: those of playback, requests
/// and lookups.
pub proof fn any_other_action_keeps_its_values(action: Action)
    ensures
        match action {
            Action::Emit(event) => action@ == ActionModel::Emit(event@),
            Action::ConnectEngine { credentials, config, lease } => action@ matches
                ActionModel::ConnectEngine { credentials: grant, config: settings, lease: under }
                && grant == credentials@ && settings == config && under == lease,
            Action::Play(order) => action@ == ActionModel::Play(order),
            Action::LoadAgain(load) => action@ == ActionModel::LoadAgain(load@),
            Action::CheckResumeIn { delay_ms } => action@
                == ActionModel::CheckResumeIn { delay_ms },
            Action::Dispatch { request, background, generation, shared_lease, personal_lease } => {
                action@ == ActionModel::Dispatch {
                    request,
                    background,
                    generation,
                    shared_lease,
                    personal_lease,
                }
            },
            Action::FetchAccent { url } => action@ == ActionModel::FetchAccent { url },
            Action::CheckForUpdates { manual } => action@
                == ActionModel::CheckForUpdates { manual },
            Action::FetchLyrics(request) => action@ == ActionModel::FetchLyrics(request),
            Action::FetchUserNames(ids) => action@ == ActionModel::FetchUserNames(ids),
            Action::ReadPlaylistCache { account_id, file_name, id, generation } => action@ matches
                ActionModel::ReadPlaylistCache {
                account_id: whose,
                file_name: file,
                id: of,
                generation: under,
            } && whose == account_id@ && file == file_name@ && of == id@ && under == generation,
            Action::WritePlaylistCache { account_id, file_name, cached } => action@ matches
                ActionModel::WritePlaylistCache {
                account_id: whose,
                file_name: file,
                cached: written,
            } && whose == account_id@ && file == file_name@ && written == cached,
            Action::SearchEditorial { query, serial } => action@ == ActionModel::SearchEditorial {
                query,
                serial,
            },
            Action::ReadLikedSongs { account_id, generation } => action@ matches
                ActionModel::ReadLikedSongs { account_id: whose, generation: under } && whose
                == account_id@ && under == generation,
            Action::WriteLikedSongs(cache) => action@ == ActionModel::WriteLikedSongs(cache),
            _ => true,
        },
{
}

/// A list of actions is shown action by action, in order.
pub proof fn actions_are_shown_in_order(actions: Seq<Action>)
    ensures
        shown(actions).len() == actions.len(),
        forall|i: int| 0 <= i < actions.len() ==> #[trigger] shown(actions)[i] == actions[i]@,
{
}

// ---- events ---------------------------------------------------------------------------

/// An event's content is the event's own.
pub proof fn an_events_content_is_its_own(event: Event)
    ensures
        match event {
            Event::Auth(status) => event@ == EventModel::Auth(status@),
            Event::Playback(playback) => event@ == EventModel::Playback(playback@),
            Event::Api(response) => event@ == EventModel::Api(*response),
            Event::Error(text) => event@ == EventModel::Error(text@),
            Event::WebApp { client_id } => event@ matches EventModel::WebApp { client_id: app }
                && app == client_id.deep_view(),
            _ => event@ == EventModel::Found(event),
        },
{
}

/// What is shown of signing in and of playback is of its own kind, with its own
/// words.
pub proof fn a_status_shows_what_it_is(status: AuthStatus, playback: LocalPlayback)
    ensures
        match status@ {
            AuthModel::Starting => status is Starting,
            AuthModel::SignedOut => status is SignedOut,
            AuthModel::WaitingForBrowser { url } => status matches
                AuthStatus::WaitingForBrowser { url: shown } && shown@ == url,
            AuthModel::Connecting => status is Connecting,
            AuthModel::Connected { username } => status matches AuthStatus::Connected {
                username: shown,
            } && shown@ == username,
            AuthModel::Failed(text) => status matches AuthStatus::Failed(shown) && shown@ == text,
        },
        match playback@ {
            PlaybackModel::Unavailable => playback is Unavailable,
            PlaybackModel::Authorizing => playback is Authorizing,
            PlaybackModel::Connecting => playback is Connecting,
            PlaybackModel::Ready { device_id } => playback matches LocalPlayback::Ready {
                device_id: shown,
            } && shown@ == device_id,
            PlaybackModel::Failed(text) => playback matches LocalPlayback::Failed(shown) && shown@
                == text,
        },
{
}

// ---- grants, loads and sessions ---------------------------------------------------------

/// The contents of grants and loads are theirs, field by field.
pub proof fn grants_and_loads_keep_their_values(
    token: StoredToken,
    credentials: Credentials,
    load: LoadSpec,
)
    ensures
        token@.client_id == token.client_id@ && token@.access_token == token.access_token@
            && token@.refresh_token == token.refresh_token@ && token@.extra == token.extra@,
        token@.scopes == token.scopes.deep_view(),
        credentials@.username == credentials.username.deep_view() && credentials@.auth_type
            == credentials.auth_type && credentials@.auth_data == credentials.auth_data@,
        load@.context_uri == load.context_uri.deep_view() && load@.uris == load.uris.deep_view(),
        load@.position_ms == load.position_ms && load@.play == load.play && load@.extra
            == load.extra@,
{
}

/// A gateway's content says of each session, and of each playlist, what the
/// gateway itself says.
pub proof fn a_gateways_content_is_its_own(api: ApiGateway, access: PlaylistAccess)
    ensures
        api.shared is Unavailable <==> api@.shared is Unavailable,
        api.shared is Authorizing <==> api@.shared is Authorizing,
        api.shared matches SessionState::Ready { account } ==> api@.shared == (
        SessionModel::Ready { account: account@ }),
        api.personal is Unavailable <==> api@.personal is Unavailable,
        api.personal is Authorizing <==> api@.personal is Authorizing,
        api.personal matches SessionState::Ready { account } ==> api@.personal == (
        SessionModel::Ready { account: account@ }),
        forall|id: Seq<char>| #[trigger]
            api@.playlists.contains_key(id) <==> api.playlists@.contains_key(id),
        forall|id: Seq<char>| #[trigger]
            api@.playlists.contains_key(id) ==> api@.playlists[id]
                == api.playlists@[id].deep_view(),
        access is Unknown <==> access@ is Unknown,
        access matches PlaylistAccess::OwnedBy(owner) ==> access@ == AccessModel::OwnedBy(
            owner.deep_view(),
        ),
{
}

/// The route that is taken is the one that was found, with what is known of the
/// playlist; and only the shared app is taken for what Development Mode lacks.
pub proof fn the_route_that_is_taken_is_the_one_found(
    api: ApiGateway,
    request: ApiRequest,
    operation: Operation,
)
    requires
        call_ensures(operation_for, (&api, &request), operation),
    ensures
        operation is CanonicalAccount <==> operation@ is CanonicalAccount,
        operation is Playback <==> operation@ is Playback,
        operation is UserData <==> operation@ is UserData,
        operation is UnsupportedDevelopmentMode <==> operation@ is UnsupportedDevelopmentMode,
        operation is PlaylistLibrary <==> operation@ is PlaylistLibrary,
        operation is PlaylistCreation <==> operation@ is PlaylistCreation,
        operation is PlaylistSearch <==> operation@ is PlaylistSearch,
        operation is Catalog <==> operation@ is Catalog,
        operation matches Operation::PlaylistMetadata(access) ==> operation@
            == OperationModel::PlaylistMetadata(access@),
        operation matches Operation::PlaylistItems(access) ==> operation@
            == OperationModel::PlaylistItems(access@),
        operation matches Operation::PlaylistMutation(access) ==> operation@
            == OperationModel::PlaylistMutation(access@),
        request is Recommendations || request is ArtistTopTracks || request is RelatedArtists
            ==> operation is UnsupportedDevelopmentMode,
        request is Search || request is Artist || request is Album || request is Track
            ==> operation is Catalog,
{
}

/// A worker's content is the worker's own, field by field.
pub proof fn a_workers_content_is_its_own(worker: Worker)
    ensures
        worker@.credentials == worker.credentials,
        worker@.web_tokens.shared == worker.web_tokens.shared.deep_view(),
        worker@.web_tokens.personal == worker.web_tokens.personal.deep_view(),
        worker@.playback_grant == worker.playback_grant.deep_view(),
        worker@.restore_pending == worker.restore_pending,
        worker@.authorization_attempt == worker.authorization_attempt,
        worker@.session == worker.session,
        worker@.engine_config == worker.engine_config,
        worker@.web_client_id == worker.web_client_id.deep_view(),
        worker@.web_scopes == worker.web_scopes.deep_view(),
        worker@.api == worker.api@,
        worker@.engine == worker.engine,
        worker@.engine_busy == worker.engine_busy,
        worker@.playback_flow == worker.playback_flow,
        worker@.signed_in == worker.signed_in,
        worker@.premium == worker.premium,
        worker@.cancel_signin == worker.cancel_signin,
        worker@.authorizing_source == worker.authorizing_source,
        worker@.pending_authorization == worker.pending_authorization,
        worker@.reconnects == worker.reconnects@,
        worker@.editorial_fetch == worker.editorial_fetch,
        worker@.resume == worker.resume.deep_view(),
        worker.resume_verify is None ==> worker@.resume_verify is None,
        worker.resume_verify matches Some((load, tries)) ==> worker@.resume_verify == Some(
            (load@, tries),
        ),
        worker@.log == shown(worker.actions@),
{
}

// ---- the interface ----------------------------------------------------------------------

/// Online every command leaves as it is; offline only artwork and shutdown do.
/// Orders and requests leave like any other command, and a shutdown always.
pub proof fn a_command_leaves_as_it_is(
    backend: Backend,
    command: Command,
    order: PlayerCommand,
    sent: Option<Command>,
    played: Option<Command>,
    stopped: Option<Command>,
)
    requires
        call_ensures(Backend::send, (&backend, command), sent),
        call_ensures(Backend::player, (&backend, order), played),
        call_ensures(Backend::shutdown, (&backend,), stopped),
    ensures
        sent is Some <==> !backend.offline || command is Accent || command is Shutdown,
        sent matches Some(left) ==> left == command,
        played == if backend.offline {
            None
        } else {
            Some(Command::Player(order))
        },
        stopped == Some(Command::Shutdown),
{
}

/// A new handle is online and has recorded nothing.
pub proof fn a_new_handle_is_online(recording: bool, backend: Backend)
    requires
        call_ensures(Backend::new, (recording,), backend),
    ensures
        !backend@.offline,
        backend@.recording == recording,
        backend@.items.len() == 0 && backend@.samples.len() == 0 && backend@.additions.len() == 0,
{
}

/// A request is recorded as what it was: pages and samples apart, additions with
/// what is added where, and nothing else at all.
pub proof fn a_request_is_recorded_as_what_it_was(backend: BackendModel, request: ApiRequest)
    requires
        backend.recording,
    ensures
        ({
            let after = backend.recorded(request);
            &&& after.offline == backend.offline && after.recording
            &&& after.items == match request {
                ApiRequest::PlaylistItems { id, offset, generation } => backend.items.push(
                    (id@, offset, generation),
                ),
                _ => backend.items,
            }
            &&& after.samples == match request {
                ApiRequest::PlaylistSample { id, offset, generation } => backend.samples.push(
                    (id@, offset, generation),
                ),
                _ => backend.samples,
            }
            &&& after.additions.len() == backend.additions.len() + (if request
                is CheckPlaylistDuplicates || request is AddToPlaylist {
                1int
            } else {
                0
            })
        }),
        request matches ApiRequest::AddToPlaylist { playlist_id, playlist_name, uris, position }
            ==> backend.recorded(request).additions.last() == Some(
            AdditionModel::Add {
                playlist_id: playlist_id@,
                playlist_name: playlist_name@,
                uris: uris@,
                position,
            },
        ),
        request matches ApiRequest::CheckPlaylistDuplicates {
            playlist_id,
            playlist_name,
            items,
            position,
        } ==> backend.recorded(request).additions.last() == Some(
            AdditionModel::Check {
                playlist_id: playlist_id@,
                playlist_name: playlist_name@,
                items: items@,
                position,
            },
        ),
        addition(request) is Some <==> request is CheckPlaylistDuplicates || request
            is AddToPlaylist,
{
}

/// Four requests that nobody waits for may be under way at once, and an engine
/// has forty-five seconds to connect.
pub proof fn the_limits_of_waiting()
    ensures
        BACKGROUND_REQUESTS == 4,
        CONNECT_TIMEOUT_S == 45,
{
}

}
