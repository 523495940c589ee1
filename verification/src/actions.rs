//! What the worker asks to be done. Each step of the worker leaves a list of
//! actions; the application carries them out in order.

use vstd::prelude::*;

use crate::credentials::{Credentials, CredentialsModel, Lease, Slot, StoredToken, TokenModel};
use crate::events::{Event, EventModel, LyricsRequest};
use crate::gateway::ApiSource;
use crate::models::{EngineConfig, LikedSongs, LoadModel, LoadSpec, PlayerCommand, Receiver};
use crate::playlist_cache::CachedPlaylist;
use crate::requests::ApiRequest;

verus! {

pub enum Action {
    /// Tell the interface, and wake it.
    Emit(Event),
    /// Read the slot's grant and report it with `Command::CredentialsRestored`.
    LoadGrant { lease: Lease },
    /// Mark the slot's stored grant as revoked.
    Revoke { slot: Slot },
    /// Mark every stored grant as revoked.
    RevokeAll,
    /// Delete the slot's stored grant.
    DeleteGrant { lease: Lease },
    /// Store the reusable playback grant.
    SaveGrant { lease: Lease, grant: Credentials },
    /// Store the Web API grant that has just been verified.
    RememberToken { source: ApiSource, lease: Lease },
    /// Open the browser for a Web API grant, of the personal app where
    /// `client_id` names it, and report with `Command::WebSignedIn` or
    /// `Command::SignInEnded`.
    BeginSignIn { source: ApiSource, client_id: Option<String>, lease: Lease, attempt: u64 },
    /// Open the browser for the playback grant and report with
    /// `Command::PlaybackAuthorized` or `Command::PlaybackAuthEnded`.
    BeginPlaybackAuthorization { lease: Lease, attempt: u64 },
    /// Give up on the browser flow that is open.
    CancelBrowser,
    /// Ask whose grant this is, and report the verdict.
    VerifyToken { source: ApiSource, token: StoredToken, lease: Lease, attempt: u64 },
    /// Connect an engine and report with `Command::EngineConnected`.
    ConnectEngine { credentials: Credentials, config: EngineConfig, lease: Lease },
    /// The engine that has just connected is the one in use from now on.
    KeepEngine,
    /// Shut the engine down that has just connected.
    DiscardEngine,
    /// Shut the engine down that is in use.
    StopEngine,
    /// Hand an order to the engine in use; a failure is shown.
    Play(PlayerCommand),
    /// Hand a load to the engine in use; a failure is not shown.
    LoadAgain(LoadSpec),
    /// Send `Command::VerifyResume` after a while.
    CheckResumeIn { delay_ms: u64 },
    /// Carry a request to the Web API and report with `Command::ApiFinished`,
    /// unless the session ends first.
    Dispatch {
        request: ApiRequest,
        background: bool,
        generation: u64,
        shared_lease: Lease,
        personal_lease: Lease,
    },
    FetchAccent { url: String },
    DiscoverReceivers,
    ActivateReceiver { receiver: Receiver, credentials: Option<Credentials>, lease: Lease },
    CheckForUpdates { manual: bool },
    FetchLyrics(LyricsRequest),
    FetchRootlist,
    FetchUserNames(Vec<String>),
    ReadPlaylistCache { account_id: String, file_name: String, id: String, generation: u64 },
    WritePlaylistCache { account_id: String, file_name: String, cached: CachedPlaylist },
    /// Abandon the editorial lookup that was started last.
    AbortEditorialSearch,
    SearchEditorial { query: String, serial: u64 },
    ReadLikedSongs { account_id: String, generation: u64 },
    WriteLikedSongs(LikedSongs),
}

/// The content of an [`Action`].
pub enum ActionModel {
    Emit(EventModel),
    LoadGrant { lease: Lease },
    Revoke { slot: Slot },
    RevokeAll,
    DeleteGrant { lease: Lease },
    SaveGrant { lease: Lease, grant: CredentialsModel },
    RememberToken { source: ApiSource, lease: Lease },
    BeginSignIn { source: ApiSource, client_id: Option<Seq<char>>, lease: Lease, attempt: u64 },
    BeginPlaybackAuthorization { lease: Lease, attempt: u64 },
    CancelBrowser,
    VerifyToken { source: ApiSource, token: TokenModel, lease: Lease, attempt: u64 },
    ConnectEngine { credentials: CredentialsModel, config: EngineConfig, lease: Lease },
    KeepEngine,
    DiscardEngine,
    StopEngine,
    Play(PlayerCommand),
    LoadAgain(LoadModel),
    CheckResumeIn { delay_ms: u64 },
    Dispatch {
        request: ApiRequest,
        background: bool,
        generation: u64,
        shared_lease: Lease,
        personal_lease: Lease,
    },
    FetchAccent { url: String },
    DiscoverReceivers,
    ActivateReceiver { receiver: Receiver, credentials: Option<CredentialsModel>, lease: Lease },
    CheckForUpdates { manual: bool },
    FetchLyrics(LyricsRequest),
    FetchRootlist,
    FetchUserNames(Vec<String>),
    ReadPlaylistCache {
        account_id: Seq<char>,
        file_name: Seq<char>,
        id: Seq<char>,
        generation: u64,
    },
    WritePlaylistCache { account_id: Seq<char>, file_name: Seq<char>, cached: CachedPlaylist },
    AbortEditorialSearch,
    SearchEditorial { query: String, serial: u64 },
    ReadLikedSongs { account_id: Seq<char>, generation: u64 },
    WriteLikedSongs(LikedSongs),
}

impl View for Action {
    type V = ActionModel;

    open spec fn view(&self) -> ActionModel {
        match *self {
            Action::Emit(event) => ActionModel::Emit(event@),
            Action::LoadGrant { lease } => ActionModel::LoadGrant { lease },
            Action::Revoke { slot } => ActionModel::Revoke { slot },
            Action::RevokeAll => ActionModel::RevokeAll,
            Action::DeleteGrant { lease } => ActionModel::DeleteGrant { lease },
            Action::SaveGrant { lease, grant } => ActionModel::SaveGrant { lease, grant: grant@ },
            Action::RememberToken { source, lease } => ActionModel::RememberToken {
                source,
                lease,
            },
            Action::BeginSignIn { source, client_id, lease, attempt } => ActionModel::BeginSignIn {
                source,
                client_id: client_id.deep_view(),
                lease,
                attempt,
            },
            Action::BeginPlaybackAuthorization { lease, attempt } => {
                ActionModel::BeginPlaybackAuthorization { lease, attempt }
            },
            Action::CancelBrowser => ActionModel::CancelBrowser,
            Action::VerifyToken { source, token, lease, attempt } => ActionModel::VerifyToken {
                source,
                token: token@,
                lease,
                attempt,
            },
            Action::ConnectEngine { credentials, config, lease } => ActionModel::ConnectEngine {
                credentials: credentials@,
                config,
                lease,
            },
            Action::KeepEngine => ActionModel::KeepEngine,
            Action::DiscardEngine => ActionModel::DiscardEngine,
            Action::StopEngine => ActionModel::StopEngine,
            Action::Play(command) => ActionModel::Play(command),
            Action::LoadAgain(spec) => ActionModel::LoadAgain(spec@),
            Action::CheckResumeIn { delay_ms } => ActionModel::CheckResumeIn { delay_ms },
            Action::Dispatch { request, background, generation, shared_lease, personal_lease } => {
                ActionModel::Dispatch {
                    request,
                    background,
                    generation,
                    shared_lease,
                    personal_lease,
                }
            },
            Action::FetchAccent { url } => ActionModel::FetchAccent { url },
            Action::DiscoverReceivers => ActionModel::DiscoverReceivers,
            Action::ActivateReceiver { receiver, credentials, lease } => {
                ActionModel::ActivateReceiver {
                    receiver,
                    credentials: credentials.deep_view(),
                    lease,
                }
            },
            Action::CheckForUpdates { manual } => ActionModel::CheckForUpdates { manual },
            Action::FetchLyrics(request) => ActionModel::FetchLyrics(request),
            Action::FetchRootlist => ActionModel::FetchRootlist,
            Action::FetchUserNames(ids) => ActionModel::FetchUserNames(ids),
            Action::ReadPlaylistCache { account_id, file_name, id, generation } => {
                ActionModel::ReadPlaylistCache {
                    account_id: account_id@,
                    file_name: file_name@,
                    id: id@,
                    generation,
                }
            },
            Action::WritePlaylistCache { account_id, file_name, cached } => {
                ActionModel::WritePlaylistCache {
                    account_id: account_id@,
                    file_name: file_name@,
                    cached,
                }
            },
            Action::AbortEditorialSearch => ActionModel::AbortEditorialSearch,
            Action::SearchEditorial { query, serial } => ActionModel::SearchEditorial {
                query,
                serial,
            },
            Action::ReadLikedSongs { account_id, generation } => ActionModel::ReadLikedSongs {
                account_id: account_id@,
                generation,
            },
            Action::WriteLikedSongs(cache) => ActionModel::WriteLikedSongs(cache),
        }
    }
}

/// The content of a list of actions.
pub open spec fn shown(actions: Seq<Action>) -> Seq<ActionModel> {
    Seq::new(actions.len(), |i: int| actions[i]@)
}

}
