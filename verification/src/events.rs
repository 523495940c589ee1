//! What the interface and the background work send the worker, and what the
//! worker tells the interface.

use vstd::prelude::*;

use crate::credentials::{Credentials, Lease, Loaded, Slot, StorageError, StoredToken};
use crate::gateway::{ApiError, ApiSource};
use crate::models::{
    EngineConfig, LikedSongs, LocalState, Lyrics, LyricsQuery, PlayerCommand, Playlist,
    PlaylistItem, Receiver, Release, Rootlist, User,
};
use crate::playlist_cache::PlaylistCache;
use crate::requests::ApiRequest;
use crate::responses::ApiResponse;

verus! {

#[derive(Clone, Debug, PartialEq)]
pub enum AuthStatus {
    Starting,
    SignedOut,
    WaitingForBrowser { url: String },
    Connecting,
    Connected { username: String },
    Failed(String),
}

/// The content of an [`AuthStatus`].
pub enum AuthModel {
    Starting,
    SignedOut,
    WaitingForBrowser { url: Seq<char> },
    Connecting,
    Connected { username: Seq<char> },
    Failed(Seq<char>),
}

impl View for AuthStatus {
    type V = AuthModel;

    open spec fn view(&self) -> AuthModel {
        match self {
            AuthStatus::Starting => AuthModel::Starting,
            AuthStatus::SignedOut => AuthModel::SignedOut,
            AuthStatus::WaitingForBrowser { url } => AuthModel::WaitingForBrowser { url: url@ },
            AuthStatus::Connecting => AuthModel::Connecting,
            AuthStatus::Connected { username } => AuthModel::Connected { username: username@ },
            AuthStatus::Failed(text) => AuthModel::Failed(text@),
        }
    }
}

/// The state of playback on this computer, independent of Web API sign-in.
#[derive(Clone, Debug, PartialEq)]
pub enum LocalPlayback {
    /// Not authorized; local playback is unavailable but the app still works.
    Unavailable,
    /// The browser is open for the playback grant.
    Authorizing,
    /// Connecting the librespot engine.
    Connecting,
    /// This computer is a ready Spotify Connect device.
    Ready { device_id: String },
    Failed(String),
}

/// The content of a [`LocalPlayback`].
pub enum PlaybackModel {
    Unavailable,
    Authorizing,
    Connecting,
    Ready { device_id: Seq<char> },
    Failed(Seq<char>),
}

impl View for LocalPlayback {
    type V = PlaybackModel;

    open spec fn view(&self) -> PlaybackModel {
        match self {
            LocalPlayback::Unavailable => PlaybackModel::Unavailable,
            LocalPlayback::Authorizing => PlaybackModel::Authorizing,
            LocalPlayback::Connecting => PlaybackModel::Connecting,
            LocalPlayback::Ready { device_id } => PlaybackModel::Ready { device_id: device_id@ },
            LocalPlayback::Failed(text) => PlaybackModel::Failed(text@),
        }
    }
}

/// A lyrics lookup.
#[derive(Debug)]
pub struct LyricsRequest {
    /// The track the answer is for, so a stale one is ignored.
    pub uri: String,
    pub query: LyricsQuery,
}

/// What the worker needs to know of an engine that has connected.
#[derive(Debug)]
pub struct ConnectedEngine {
    pub device_id: String,
    /// The reusable grant the service handed out for the next time.
    pub credentials: Option<Credentials>,
}

pub enum Command {
    CredentialsRestored { slot: Slot, lease: Lease, result: Result<Loaded, StorageError> },
    /// Start (or restart) the Web API sign-in in the browser.
    SignIn,
    CancelSignIn,
    SignOut,
    /// Authorize local playback on this computer (a separate browser grant).
    AuthorizePlayback,
    /// Reload the engine config (audio settings changed).
    RestartEngine(EngineConfig),
    Player(PlayerCommand),
    Api(ApiRequest),
    ApiFinished {
        generation: u64,
        response: Box<ApiResponse>,
        expired: Option<ApiSource>,
        shared_lease: Lease,
        personal_lease: Lease,
    },
    Accent { url: String },
    Shutdown,
    /// Internal: the Web API browser flow produced a grant.
    WebSignedIn { source: ApiSource, token: Box<StoredToken>, lease: Lease, attempt: u64 },
    /// Internal: a grant was accepted, for this account.
    WebVerified {
        source: ApiSource,
        token: Box<StoredToken>,
        user: Box<User>,
        lease: Lease,
        attempt: u64,
    },
    /// Internal: a grant was rejected.
    WebVerificationFailed { source: ApiSource, lease: Lease, attempt: u64, error: ApiError },
    /// Internal: a Web API browser flow or verification ended (success or not).
    SignInEnded { source: ApiSource, attempt: u64 },
    /// Internal: the playback browser flow ended without a credential.
    PlaybackAuthEnded { attempt: u64 },
    /// Internal: the playback grant produced a streaming access token.
    PlaybackAuthorized { access_token: String, lease: Lease, attempt: u64 },
    /// Internal: an engine connection attempt finished.
    EngineConnected { engine: Option<ConnectedEngine>, error: Option<String>, lease: Lease },
    /// Internal: librespot's session ended on its own.
    Reconnect,
    /// Look for Spotify Connect receivers on the local network.
    DiscoverReceivers,
    /// Send the account to a receiver so it joins Spotify Connect.
    ActivateReceiver(Box<Receiver>),
    /// Ask GitHub whether a newer release exists. Manual checks report every
    /// outcome; the daily check only announces a new release.
    CheckForUpdates { manual: bool },
    /// The words of a track, from LRCLIB.
    Lyrics(Box<LyricsRequest>),
    /// The account's playlist tree, folders and all, from the session.
    Rootlist,
    /// Check that a reconnect's pickup really started, and try again if not.
    VerifyResume,
    /// Add, replace, or remove the optional personal Web API application.
    ConfigurePersonalWebApp(Option<String>),
    /// Read a playlist's cached items from disk.
    LoadPlaylistCache { id: String, generation: u64 },
    /// Remember a playlist prefix on disk under its snapshot.
    StorePlaylistCache {
        id: String,
        snapshot: String,
        items: Vec<PlaylistItem>,
        total: u32,
        next_offset: Option<u32>,
    },
    /// Resolve user ids to display names through the streaming session.
    UserNames(Vec<String>),
    /// Fetch Spotify-owned playlists for a search separately, through the
    /// shared app, to merge into results a personal app already returned.
    SearchEditorialPlaylists { query: String, serial: u64 },
    LoadLikedSongsCache { generation: u64 },
    StoreLikedSongsCache(LikedSongs),
}

pub enum Event {
    Auth(AuthStatus),
    Playback(LocalPlayback),
    /// Receivers seen on the local network that Spotify has not listed.
    Receivers(Vec<Receiver>),
    ReceiverActivated { name: String, result: Result<(), String> },
    Local(Box<LocalState>),
    Api(Box<ApiResponse>),
    Accent { url: String, color: [u8; 3] },
    Error(String),
    /// GitHub answered an update check, or the request failed.
    UpdateChecked { manual: bool, result: Result<Option<Release>, String> },
    /// Track lyrics, or `None` when unavailable.
    Lyrics { uri: String, result: Result<Option<Lyrics>, String> },
    /// The account's playlist tree, folders and all, and which of its
    /// playlists take songs from this account.
    Rootlist { result: Result<Rootlist, String> },
    /// Spotify-owned playlists found for a search already on screen, to
    /// merge in ahead of whatever the personal app already returned.
    EditorialPlaylists { query: String, serial: u64, playlists: Vec<Playlist> },
    /// The result of reading a playlist cache for this load generation.
    PlaylistCache {
        account_id: String,
        id: String,
        generation: u64,
        cache: Option<PlaylistCache>,
    },
    /// A user id resolved to a display name (`None` when nothing answers).
    UserName { id: String, name: Option<String> },
    /// The verified personal Web API app, or `None` when it is disabled.
    WebApp { client_id: Option<String> },
    LikedSongsCache { account_id: String, generation: u64, cache: Option<LikedSongs> },
}

/// The content of an [`Event`]. Events that only carry on what other work
/// found stand for themselves.
pub enum EventModel {
    Auth(AuthModel),
    Playback(PlaybackModel),
    Api(ApiResponse),
    Error(Seq<char>),
    WebApp { client_id: Option<Seq<char>> },
    Found(Event),
}

impl View for Event {
    type V = EventModel;

    open spec fn view(&self) -> EventModel {
        match self {
            Event::Auth(status) => EventModel::Auth(status@),
            Event::Playback(playback) => EventModel::Playback(playback@),
            Event::Api(response) => EventModel::Api(**response),
            Event::Error(text) => EventModel::Error(text@),
            Event::WebApp { client_id } => EventModel::WebApp {
                client_id: client_id.deep_view(),
            },
            _ => EventModel::Found(*self),
        }
    }
}

}
