//! What the worker knows, and what every command makes of it.
//!
//! A [`WorkerModel`] is the content of a worker: its knowledge, and in `log`
//! what it has asked to be done, in order. Each function here gives the state
//! after one event.

use vstd::prelude::*;

use crate::actions::ActionModel;
use crate::credentials::{
    bound_credentials, names_account, slot_of, CredentialStore, CredentialsModel, Lease, Loaded,
    Slot, StorageError, StoredGrant, TokenModel,
};
use crate::events::{AuthModel, Command, ConnectedEngine, EventModel, PlaybackModel};
use crate::gateway::{
    other, ApiError, ApiSource, GatewayModel, SessionModel, ACCOUNT_MISMATCH, SIGN_IN_EXPIRED,
};
use crate::models::{EngineConfig, Interrupted, LikedSongs, LoadModel, Receiver, User};
use crate::playlist_cache::CachedPlaylist;
use crate::requests::ApiRequest;
use crate::responses::ApiResponse;
use crate::text::PREMIUM_NEEDED;

verus! {

pub const NOT_SET_UP: &'static str = "Local playback isn't set up on this computer yet";

pub const PERMISSIONS_CHANGED: &'static str = "Spotify permissions changed. Sign in again.";

pub const SHARED_FAILED: &'static str = "Shared Spotify sign-in failed: ";

pub const PERSONAL_FAILED: &'static str = "Personal app authorization failed: ";

pub const FINISH_SIGN_IN: &'static str = "Finish signing in to Spotify before enabling playback.";

pub const STORED_FOR_ANOTHER: &'static str =
    "Stored playback belongs to another Spotify account. Enable playback again.";

pub const AUTHORIZED_FOR_ANOTHER: &'static str =
    "Playback was authorized for another Spotify account. Enable playback again with the signed-in account.";

pub const KEEPS_DROPPING: &'static str =
    "Local playback keeps dropping. Re-enable it from Settings.";

pub const PLAYBACK_UNAVAILABLE: &'static str = "Local playback is unavailable";

/// How far back reconnects are counted: ten minutes, in nanoseconds.
pub const RECONNECT_WINDOW_NS: u64 = 600_000_000_000;

/// How many reconnects the window may hold.
pub const RECONNECT_LIMIT: usize = 6;

/// How long after a reconnect the pickup is first tried.
pub const FIRST_RESUME_CHECK_MS: u64 = 1_500;

/// How long after a try the pickup is checked again.
pub const NEXT_RESUME_CHECK_MS: u64 = 4_000;

/// How often the pickup is tried.
pub const RESUME_TRIES: u8 = 3;

/// Which slots are still being read after a start.
#[derive(Clone, Copy, Debug, PartialEq, Eq, Structural)]
pub struct RestorePending {
    pub shared: bool,
    pub personal: bool,
    pub playback: bool,
}

impl RestorePending {
    /// Whether any slot is still being read.
    pub open spec fn any(self) -> bool {
        self.shared || self.personal || self.playback
    }

    /// The slots once `slot` has been read.
    pub open spec fn without(self, slot: Slot) -> RestorePending {
        match slot {
            Slot::Shared => RestorePending { shared: false, ..self },
            Slot::Personal => RestorePending { personal: false, ..self },
            Slot::Playback => RestorePending { playback: false, ..self },
        }
    }

    /// The slots when each is as `pending` says.
    pub open spec fn all(pending: bool) -> RestorePending {
        RestorePending { shared: pending, personal: pending, playback: pending }
    }
}

/// The grants held for the two Web API apps.
pub struct TokensModel {
    pub shared: Option<TokenModel>,
    pub personal: Option<TokenModel>,
}

impl TokensModel {
    pub open spec fn none() -> TokensModel {
        TokensModel { shared: None, personal: None }
    }

    pub open spec fn held(self, source: ApiSource) -> Option<TokenModel> {
        match source {
            ApiSource::Shared => self.shared,
            ApiSource::Personal => self.personal,
        }
    }

    pub open spec fn with(self, source: ApiSource, token: Option<TokenModel>) -> TokensModel {
        match source {
            ApiSource::Shared => TokensModel { shared: token, ..self },
            ApiSource::Personal => TokensModel { personal: token, ..self },
        }
    }
}

/// What the worker reads of its surroundings when it takes a command.
#[derive(Debug)]
pub struct Moment {
    /// The time, in nanoseconds on a clock that never goes back.
    pub now: u64,
    /// What the engine in use is playing.
    pub interrupted: Option<Interrupted>,
    /// Whether a sign-in can be prepared for the personal app that will be
    /// configured once the command has been taken, or why not.
    pub personal_grant: Result<(), String>,
}

/// The content of a worker.
#[verifier::ext_equal]
pub struct WorkerModel {
    pub credentials: CredentialStore,
    pub web_tokens: TokensModel,
    pub playback_grant: Option<CredentialsModel>,
    pub restore_pending: RestorePending,
    pub authorization_attempt: u64,
    pub session: u64,
    pub engine_config: EngineConfig,
    pub web_client_id: Option<Seq<char>>,
    pub web_scopes: Seq<Seq<char>>,
    pub api: GatewayModel,
    pub engine: bool,
    pub engine_busy: bool,
    pub playback_flow: Option<u64>,
    pub signed_in: bool,
    pub premium: Option<bool>,
    pub cancel_signin: bool,
    pub authorizing_source: Option<ApiSource>,
    pub pending_authorization: Option<ApiSource>,
    pub reconnects: Seq<u64>,
    pub editorial_fetch: bool,
    pub resume: Option<LoadModel>,
    pub resume_verify: Option<(LoadModel, u8)>,
    pub log: Seq<ActionModel>,
}

/// What the listener is told when an app's grant was rejected.
pub open spec fn rejection(source: ApiSource, error: ApiError) -> Seq<char> {
    match source {
        ApiSource::Shared => SHARED_FAILED@ + error.spec_text(),
        ApiSource::Personal => PERSONAL_FAILED@ + error.spec_text(),
    }
}

impl WorkerModel {
    /// A worker that has done nothing yet.
    pub open spec fn fresh(
        engine_config: EngineConfig,
        web_client_id: Option<Seq<char>>,
        web_scopes: Seq<Seq<char>>,
    ) -> WorkerModel {
        WorkerModel {
            credentials: CredentialStore { shared: 0, personal: 0, playback: 0 },
            web_tokens: TokensModel::none(),
            playback_grant: None,
            restore_pending: RestorePending::all(false),
            authorization_attempt: 0,
            session: 0,
            engine_config,
            web_client_id,
            web_scopes,
            api: GatewayModel::empty(),
            engine: false,
            engine_busy: false,
            playback_flow: None,
            signed_in: false,
            premium: None,
            cancel_signin: false,
            authorizing_source: None,
            pending_authorization: None,
            reconnects: Seq::empty(),
            editorial_fetch: false,
            resume: None,
            resume_verify: None,
            log: Seq::empty(),
        }
    }

    /// Whether every counter can still go up `steps` times.
    pub open spec fn room(self, steps: int) -> bool {
        &&& self.credentials.room(steps)
        &&& self.authorization_attempt + steps <= u64::MAX
        &&& self.session + steps <= u64::MAX
    }

    /// What holds of a worker at all times: sessions that are ready agree on
    /// the account, reconnects and pickups stay within their limits, only a
    /// personal app that is configured waits for the browser, and a playback
    /// flow that is in flight keeps the engine busy.
    pub open spec fn valid(self) -> bool {
        &&& self.api.agrees()
        &&& self.reconnects.len() <= RECONNECT_LIMIT
        &&& self.resume_verify matches Some((_, tries)) ==> tries <= RESUME_TRIES
        &&& self.pending_authorization matches Some(source) ==> source == ApiSource::Personal
            && self.web_client_id is Some
        &&& self.playback_flow matches Some(attempt) ==> self.engine_busy && attempt
            <= self.authorization_attempt
    }

    /// Whether an engine is being connected: what keeps it busy is not a
    /// playback flow.
    pub open spec fn connecting(self) -> bool {
        self.engine_busy && self.playback_flow is None
    }

    /// Asks for an action.
    pub open spec fn acts(self, action: ActionModel) -> WorkerModel {
        WorkerModel { log: self.log.push(action), ..self }
    }

    /// Tells the interface.
    pub open spec fn emits(self, event: EventModel) -> WorkerModel {
        self.acts(ActionModel::Emit(event))
    }

    pub open spec fn shows_error(self, text: Seq<char>) -> WorkerModel {
        self.emits(EventModel::Error(text))
    }

    pub open spec fn shows_auth(self, status: AuthModel) -> WorkerModel {
        self.emits(EventModel::Auth(status))
    }

    pub open spec fn shows_playback(self, playback: PlaybackModel) -> WorkerModel {
        self.emits(EventModel::Playback(playback))
    }

    pub open spec fn with_api(self, api: GatewayModel) -> WorkerModel {
        WorkerModel { api, ..self }
    }

    /// The slot whose grant the open browser flow is for.
    pub open spec fn authorizing_slot(self) -> Slot {
        match self.authorizing_source {
            Some(source) => slot_of(source),
            None => Slot::Playback,
        }
    }

    /// Whether the personal app in force is the one a grant was given to.
    pub open spec fn is_personal_app(self, client_id: Seq<char>) -> bool {
        self.web_client_id == Some(client_id)
    }

    // ---- Web API sign-in --------------------------------------------------

    /// Every slot is read again, and the apps that may have a grant there
    /// count as being authorized meanwhile.
    pub open spec fn restore_session(self) -> WorkerModel {
        let api = self.api.with_state(ApiSource::Shared, SessionModel::Authorizing);
        WorkerModel {
            restore_pending: RestorePending::all(true),
            api: if self.web_client_id is Some {
                api.with_state(ApiSource::Personal, SessionModel::Authorizing)
            } else {
                api
            },
            ..self
        }.acts(ActionModel::LoadGrant { lease: self.credentials.spec_lease(Slot::Shared) }).acts(
            ActionModel::LoadGrant { lease: self.credentials.spec_lease(Slot::Personal) },
        ).acts(ActionModel::LoadGrant { lease: self.credentials.spec_lease(Slot::Playback) })
    }

    /// What went wrong while a slot was read is shown.
    pub open spec fn shows_storage(self, result: Result<Loaded, StorageError>) -> WorkerModel {
        match result {
            Ok(loaded) => match loaded.warning {
                Some(warning) => self.shows_error(warning.spec_text()),
                None => self,
            },
            Err(error) => self.shows_error(error.spec_text()),
        }
    }

    /// A Web API grant came out of storage. It counts only for the shared app
    /// or the personal app in force, and only with every permission.
    pub open spec fn takes_web_grant(self, source: ApiSource, token: TokenModel) -> WorkerModel {
        if source == ApiSource::Shared || self.is_personal_app(token.client_id) {
            if token.has_scopes(self.web_scopes) {
                if self.signed_in {
                    self.on_web_signed_in(source, token)
                } else {
                    self.shows_auth(AuthModel::Connecting).on_web_signed_in(source, token)
                }
            } else {
                self.shows_error(PERMISSIONS_CHANGED@)
            }
        } else {
            self
        }
    }

    /// A grant came out of storage.
    pub open spec fn takes_grant(self, slot: Slot, grant: Option<StoredGrant>) -> WorkerModel {
        match grant {
            Some(StoredGrant::Playback(grant)) => WorkerModel {
                playback_grant: Some(grant@),
                ..self
            }.resume_engine(),
            Some(StoredGrant::Web(token)) => self.takes_web_grant(slot.spec_source(), token@),
            None => self,
        }
    }

    /// A Web API slot that held no usable grant leaves its app unavailable.
    pub open spec fn closes_empty_slot(self, slot: Slot) -> WorkerModel {
        if slot != Slot::Playback && self.web_tokens.held(slot.spec_source()) is None {
            self.with_api(self.api.cleared(slot.spec_source()))
        } else {
            self
        }
    }

    /// With every slot read and no Web API grant in any, nobody is signed in.
    pub open spec fn settles_restore(self) -> WorkerModel {
        if !self.restore_pending.any() && !self.signed_in && self.web_tokens.shared is None
            && self.web_tokens.personal is None {
            self.shows_auth(AuthModel::SignedOut)
        } else {
            self
        }
    }

    /// A slot has been read.
    pub open spec fn on_credentials_restored(
        self,
        slot: Slot,
        lease: Lease,
        result: Result<Loaded, StorageError>,
    ) -> WorkerModel {
        let grant = match result {
            Ok(loaded) => loaded.grant,
            Err(_) => None,
        };
        if self.credentials.holds(lease) {
            WorkerModel {
                restore_pending: self.restore_pending.without(slot),
                ..self
            }.shows_storage(result).takes_grant(slot, grant).closes_empty_slot(
                slot,
            ).settles_restore()
        } else {
            self
        }
    }

    /// There is a grant for an app: it is held, and verified.
    pub open spec fn on_web_signed_in(self, source: ApiSource, token: TokenModel) -> WorkerModel {
        WorkerModel {
            web_tokens: self.web_tokens.with(source, Some(token)),
            api: self.api.with_state(source, SessionModel::Authorizing),
            ..self
        }.acts(
            ActionModel::VerifyToken {
                source,
                token,
                lease: self.credentials.spec_lease(slot_of(source)),
                attempt: self.authorization_attempt,
            },
        )
    }

    /// A stored grant is to be deleted.
    pub open spec fn delete_stored_grant(self, slot: Slot) -> WorkerModel {
        self.acts(ActionModel::DeleteGrant { lease: self.credentials.spec_lease(slot) })
    }

    /// An app's grant is given up: its leases are stale, it is deleted from
    /// storage and its session closed.
    pub open spec fn forget_web_grant(self, source: ApiSource) -> WorkerModel {
        let slot = slot_of(source);
        let revoked = WorkerModel { credentials: self.credentials.moved(slot), ..self }.acts(
            ActionModel::Revoke { slot },
        ).delete_stored_grant(slot);
        WorkerModel {
            web_tokens: revoked.web_tokens.with(source, None),
            api: revoked.api.cleared(source),
            ..revoked
        }
    }

    /// An app's grant was rejected. An expired one is forgotten. The listener
    /// is signed out unless the shared app is still there to answer.
    pub open spec fn on_web_verification_failed(
        self,
        source: ApiSource,
        error: ApiError,
    ) -> WorkerModel {
        let closed = if error is SignInExpired {
            self.forget_web_grant(source)
        } else {
            self.with_api(self.api.cleared(source))
        };
        let told = if source == ApiSource::Shared || !(closed.api.state(other(source)) is Ready) {
            WorkerModel { signed_in: false, ..closed }.shows_auth(
                AuthModel::Failed(rejection(source, error)),
            )
        } else {
            closed
        };
        told.shows_error(rejection(source, error))
    }

    /// Whether a verified grant may be taken: its app is being authorized, and
    /// is the one in force.
    pub open spec fn awaits(self, source: ApiSource, client_id: Seq<char>) -> bool {
        self.api.state(source) is Authorizing && (source == ApiSource::Personal
            ==> self.is_personal_app(client_id))
    }

    /// The account becomes the signed-in one, unless somebody is already.
    pub open spec fn connects(self, user: User) -> WorkerModel {
        if self.signed_in {
            self
        } else {
            WorkerModel { signed_in: true, ..self }.shows_auth(
                AuthModel::Connected { username: user.spec_name() },
            )
        }
    }

    /// The account's details are shown and its plan acted on.
    pub open spec fn presents(self, user: User) -> WorkerModel {
        self.emits(EventModel::Api(ApiResponse::Me(Ok(user)))).on_account_checked(
            user.spec_premium(),
        )
    }

    /// A verified grant belongs to another account than the one already
    /// verified: it is not taken.
    pub open spec fn rejects_account(self, source: ApiSource) -> WorkerModel {
        let closed = self.with_api(self.api.cleared(source));
        if source == ApiSource::Shared {
            WorkerModel { signed_in: false, ..closed }.shows_auth(
                AuthModel::Failed(ACCOUNT_MISMATCH@),
            ).shows_error(ACCOUNT_MISMATCH@)
        } else {
            closed.shows_error(ACCOUNT_MISMATCH@)
        }
    }

    /// The account of a session that has just become ready is welcomed: the
    /// grant is stored, and the listener is signed in.
    pub open spec fn welcomes(
        self,
        source: ApiSource,
        client_id: Seq<char>,
        user: User,
    ) -> WorkerModel {
        let stored = if self.web_tokens.held(source) is Some {
            self.acts(
                ActionModel::RememberToken {
                    source,
                    lease: self.credentials.spec_lease(slot_of(source)),
                },
            )
        } else {
            self
        };
        match source {
            ApiSource::Shared => stored.connects(user).presents(user),
            ApiSource::Personal => {
                let announced = stored.emits(EventModel::WebApp { client_id: Some(client_id) });
                if announced.signed_in {
                    announced
                } else {
                    announced.connects(user).presents(user)
                }
            },
        }
    }

    /// A verified grant is taken: its session is ready, and its account
    /// welcomed.
    pub open spec fn accepts_account(
        self,
        source: ApiSource,
        client_id: Seq<char>,
        user: User,
    ) -> WorkerModel {
        self.with_api(
            self.api.with_state(source, SessionModel::Ready { account: user.id@ }),
        ).welcomes(source, client_id, user)
    }

    /// A grant was verified for an account.
    pub open spec fn on_web_verified(
        self,
        source: ApiSource,
        client_id: Seq<char>,
        user: User,
        personal_grant: Result<(), String>,
    ) -> WorkerModel {
        if !self.awaits(source, client_id) {
            self
        } else if self.api.accepts(source, user.id@) {
            self.accepts_account(source, client_id, user).finish_authorization(
                source,
                personal_grant,
            )
        } else {
            self.rejects_account(source).finish_authorization(source, personal_grant)
        }
    }

    /// The sign-in that was waiting for the browser, if any, starts.
    pub open spec fn starts_pending(self, personal_grant: Result<(), String>) -> WorkerModel {
        match self.pending_authorization {
            Some(pending) => WorkerModel { pending_authorization: None, ..self }.sign_in_source(
                pending,
                personal_grant,
            ),
            None => self,
        }
    }

    /// An app's browser flow is over.
    pub open spec fn finish_authorization(
        self,
        source: ApiSource,
        personal_grant: Result<(), String>,
    ) -> WorkerModel {
        if self.authorizing_source == Some(source) {
            WorkerModel { cancel_signin: false, authorizing_source: None, ..self }.starts_pending(
                personal_grant,
            )
        } else {
            self
        }
    }

    /// The playback flow in flight, if any, does not keep the engine busy any
    /// more.
    pub open spec fn ends_playback_flow(self) -> WorkerModel {
        if self.playback_flow is Some {
            WorkerModel { engine_busy: false, playback_flow: None, ..self }
        } else {
            self
        }
    }

    /// A playback browser flow is over without a grant. What it held back is
    /// made up for: the engine is brought up from the stored grant. The browser
    /// is free if it was the latest flow.
    pub open spec fn finish_playback_authorization(
        self,
        attempt: u64,
        personal_grant: Result<(), String>,
    ) -> WorkerModel {
        let over = if self.playback_flow == Some(attempt) {
            self.ends_playback_flow().resume_engine()
        } else {
            self
        };
        if over.authorization_attempt == attempt {
            WorkerModel { cancel_signin: false, ..over }.starts_pending(personal_grant)
        } else {
            over
        }
    }

    /// A browser flow opens for an app: earlier results for it are stale.
    pub open spec fn opens_browser(self, source: ApiSource) -> WorkerModel {
        let slot = slot_of(source);
        let credentials = self.credentials.moved(slot);
        let attempt = (self.authorization_attempt + 1) as u64;
        WorkerModel {
            credentials,
            restore_pending: self.restore_pending.without(slot),
            authorization_attempt: attempt,
            cancel_signin: true,
            authorizing_source: Some(source),
            api: self.api.with_state(source, SessionModel::Authorizing),
            ..self
        }.acts(
            ActionModel::BeginSignIn {
                source,
                client_id: if source == ApiSource::Personal {
                    self.web_client_id
                } else {
                    None
                },
                lease: credentials.spec_lease(slot),
                attempt,
            },
        )
    }

    /// A sign-in is asked for. One browser flow at a time; the personal app
    /// must be configured, and its grant possible.
    pub open spec fn sign_in_source(
        self,
        source: ApiSource,
        personal_grant: Result<(), String>,
    ) -> WorkerModel {
        if self.cancel_signin {
            self
        } else if source == ApiSource::Personal {
            if self.web_client_id is None {
                self
            } else {
                match personal_grant {
                    Ok(_) => self.opens_browser(source),
                    Err(error) => self.shows_error(error@),
                }
            }
        } else {
            self.opens_browser(source)
        }
    }

    /// The browser flow that is open, if any, is told to stop, and its results
    /// are stale.
    pub open spec fn cancels_browser(self) -> WorkerModel {
        if self.cancel_signin {
            WorkerModel {
                credentials: self.credentials.moved(self.authorizing_slot()),
                ..self
            }.acts(ActionModel::CancelBrowser)
        } else {
            self
        }
    }

    /// The listener gives up on signing in, or on the playback grant. What a
    /// playback flow held back is made up for.
    pub open spec fn cancel_sign_in(self) -> WorkerModel {
        let told = self.cancels_browser();
        let source = told.authorizing_source;
        let stopped = WorkerModel {
            authorization_attempt: (self.authorization_attempt + 1) as u64,
            cancel_signin: false,
            authorizing_source: None,
            pending_authorization: None,
            api: if source is Some && told.api.state(source->0) is Authorizing {
                told.api.cleared(source->0)
            } else {
                told.api
            },
            ..told
        };
        if self.cancel_signin && self.playback_flow == Some(self.authorization_attempt) {
            stopped.ends_playback_flow().resume_engine()
        } else {
            stopped
        }
    }

    /// A browser flow reported that it is over.
    pub open spec fn on_sign_in_ended(
        self,
        source: ApiSource,
        attempt: u64,
        personal_grant: Result<(), String>,
    ) -> WorkerModel {
        if self.authorizing_source == Some(source) && self.authorization_attempt == attempt {
            WorkerModel {
                cancel_signin: false,
                authorizing_source: None,
                api: if self.api.state(source) is Authorizing {
                    self.api.cleared(source)
                } else {
                    self.api
                },
                ..self
            }.starts_pending(personal_grant)
        } else {
            self
        }
    }

    /// The personal app is added, replaced or removed. Its old grant is given
    /// up, and a new app is signed in to as soon as the browser is free.
    pub open spec fn configure_personal_web_app(
        self,
        client_id: Option<Seq<char>>,
        personal_grant: Result<(), String>,
    ) -> WorkerModel {
        let in_flight = self.cancel_signin;
        let dropped = WorkerModel {
            web_client_id: client_id,
            ..self.cancels_browser().forget_web_grant(ApiSource::Personal)
        }.emits(EventModel::WebApp { client_id: None });
        if client_id is None {
            WorkerModel { pending_authorization: None, ..dropped }
        } else if in_flight {
            WorkerModel { pending_authorization: Some(ApiSource::Personal), ..dropped }
        } else {
            dropped.sign_in_source(ApiSource::Personal, personal_grant)
        }
    }

    /// The engine in use, if any, is shut down.
    pub open spec fn stops_engine(self) -> WorkerModel {
        if self.engine {
            WorkerModel { engine: false, ..self }.acts(ActionModel::StopEngine)
        } else {
            self
        }
    }

    /// Everything the session held, gone; every lease stale.
    pub open spec fn signed_out_state(self) -> WorkerModel {
        WorkerModel {
            signed_in: false,
            session: (self.session + 1) as u64,
            authorization_attempt: (self.authorization_attempt + 1) as u64,
            credentials: self.credentials.all_moved(),
            restore_pending: RestorePending::all(false),
            web_tokens: TokensModel::none(),
            playback_grant: None,
            engine: false,
            engine_busy: false,
            playback_flow: None,
            premium: None,
            resume: None,
            resume_verify: None,
            cancel_signin: false,
            authorizing_source: None,
            pending_authorization: None,
            api: GatewayModel::empty(),
            ..self
        }
    }

    /// The listener signs out.
    pub open spec fn sign_out(self) -> WorkerModel {
        let out = self.signed_out_state().acts(ActionModel::RevokeAll);
        let stopped = if self.engine {
            out.acts(ActionModel::StopEngine)
        } else {
            out
        };
        let cancelled = if self.cancel_signin {
            stopped.acts(ActionModel::CancelBrowser)
        } else {
            stopped
        };
        cancelled.delete_stored_grant(Slot::Shared).delete_stored_grant(
            Slot::Personal,
        ).delete_stored_grant(Slot::Playback).shows_playback(
            PlaybackModel::Unavailable,
        ).shows_auth(AuthModel::SignedOut)
    }

    // ---- local playback engine -------------------------------------------

    /// The playback browser flow gave a streaming token: the flow is over, and
    /// an engine is connected in its place.
    pub open spec fn on_playback_authorized(self, access_token: Seq<char>) -> WorkerModel {
        match bound_credentials(self.api.account(), access_token) {
            Some(credentials) => self.ends_playback_flow().connect_engine(credentials),
            None => WorkerModel {
                engine_busy: false,
                playback_flow: None,
                ..self
            }.shows_playback(PlaybackModel::Failed(FINISH_SIGN_IN@)),
        }
    }

    /// Whether an engine may be brought up from a stored grant.
    pub open spec fn may_resume(self) -> bool {
        self.signed_in && !self.engine && !self.engine_busy && self.premium != Some(false)
    }

    /// The engine is brought up from the stored grant, if there is one and it
    /// is the verified account's.
    pub open spec fn resume_engine(self) -> WorkerModel {
        match self.playback_grant {
            Some(credentials) => if !self.may_resume() {
                self
            } else if credentials.username == self.api.account() {
                self.connect_engine(credentials)
            } else {
                self.shows_playback(PlaybackModel::Failed(STORED_FOR_ANOTHER@))
            },
            None => self,
        }
    }

    /// The reconnects that still count at `now`.
    pub open spec fn recent_reconnects(self, now: u64) -> Seq<u64> {
        self.reconnects.filter(|at: u64| now - at < RECONNECT_WINDOW_NS)
    }

    /// The engine's session dropped or its settings changed. What was playing
    /// is remembered, and the engine brought up again, unless that has
    /// happened too often lately.
    pub open spec fn reconnect_engine(self, moment: Moment) -> WorkerModel {
        if !self.signed_in {
            self
        } else {
            let down = WorkerModel {
                resume_verify: None,
                resume: if !self.engine {
                    self.resume
                } else {
                    match moment.interrupted {
                        Some(interrupted) => Some(LoadModel::picking_up(interrupted)),
                        None => None,
                    }
                },
                ..self
            }.stops_engine();
            let recent = self.recent_reconnects(moment.now);
            if recent.len() >= RECONNECT_LIMIT {
                WorkerModel { reconnects: recent, resume: None, ..down }.shows_playback(
                    PlaybackModel::Failed(KEEPS_DROPPING@),
                )
            } else {
                WorkerModel { reconnects: recent.push(moment.now), ..down }.resume_engine()
            }
        }
    }

    /// The listener wants local playback. One browser flow and one connection
    /// at a time, and never without Premium. The engine counts as busy until
    /// the flow is over.
    pub open spec fn authorize_playback(self) -> WorkerModel {
        if self.engine_busy || self.cancel_signin {
            self
        } else if self.premium == Some(false) {
            self.shows_playback(PlaybackModel::Failed(PREMIUM_NEEDED@))
        } else {
            let credentials = self.credentials.moved(Slot::Playback);
            let attempt = (self.authorization_attempt + 1) as u64;
            WorkerModel {
                credentials,
                authorization_attempt: attempt,
                cancel_signin: true,
                engine_busy: true,
                playback_flow: Some(attempt),
                ..self
            }.shows_playback(PlaybackModel::Authorizing).acts(
                ActionModel::BeginPlaybackAuthorization {
                    lease: credentials.spec_lease(Slot::Playback),
                    attempt,
                },
            )
        }
    }

    /// An engine is connected, unless one is being connected already or the
    /// plan is known not to allow it.
    pub open spec fn connect_engine(self, credentials: CredentialsModel) -> WorkerModel {
        if self.engine_busy {
            self
        } else if self.premium == Some(false) {
            self.shows_playback(PlaybackModel::Failed(PREMIUM_NEEDED@))
        } else {
            WorkerModel { cancel_signin: false, engine_busy: true, ..self }.shows_playback(
                PlaybackModel::Connecting,
            ).acts(
                ActionModel::ConnectEngine {
                    credentials,
                    config: self.engine_config,
                    lease: self.credentials.spec_lease(Slot::Playback),
                },
            )
        }
    }

    /// A pickup that was waiting for an engine is scheduled.
    pub open spec fn schedules_pickup(self) -> WorkerModel {
        match self.resume {
            Some(spec) => WorkerModel {
                resume: None,
                resume_verify: Some((spec, 0)),
                ..self
            }.acts(ActionModel::CheckResumeIn { delay_ms: FIRST_RESUME_CHECK_MS }),
            None => self,
        }
    }

    /// A connected engine is taken into use.
    pub open spec fn adopts_engine(self, device_id: Seq<char>) -> WorkerModel {
        WorkerModel { engine: true, reconnects: Seq::empty(), ..self.schedules_pickup() }.acts(
            ActionModel::KeepEngine,
        ).shows_playback(PlaybackModel::Ready { device_id })
    }

    /// The connection attempt in flight does not keep the engine busy any
    /// more; a playback flow still does.
    pub open spec fn ends_connection(self) -> WorkerModel {
        WorkerModel { engine_busy: self.playback_flow is Some, ..self }
    }

    /// A connection attempt is over that nobody wants the engine of: its slot
    /// has moved on, or nobody is signed in.
    pub open spec fn drops_connection(self, lease: Lease, arrived: bool) -> WorkerModel {
        let over = if self.credentials.holds(lease) {
            self.ends_connection()
        } else {
            self
        };
        if arrived {
            over.acts(ActionModel::DiscardEngine)
        } else {
            over
        }
    }

    /// A connection attempt is over. An engine whose grant names another
    /// account is not taken into use.
    pub open spec fn on_engine_connected(
        self,
        engine: Option<ConnectedEngine>,
        error: Option<String>,
    ) -> WorkerModel {
        let idle = self.ends_connection();
        match engine {
            Some(engine) => match engine.credentials {
                Some(grant) => if names_account(grant@, self.api.account()) {
                    WorkerModel { playback_grant: Some(grant@), ..idle }.acts(
                        ActionModel::SaveGrant {
                            lease: self.credentials.spec_lease(Slot::Playback),
                            grant: grant@,
                        },
                    ).adopts_engine(engine.device_id@)
                } else {
                    idle.acts(ActionModel::DiscardEngine).shows_playback(
                        PlaybackModel::Failed(AUTHORIZED_FOR_ANOTHER@),
                    )
                },
                None => idle.adopts_engine(engine.device_id@),
            },
            None => WorkerModel { resume: None, ..idle }.shows_playback(
                PlaybackModel::Failed(
                    match error {
                        Some(error) => error@,
                        None => PLAYBACK_UNAVAILABLE@,
                    },
                ),
            ),
        }
    }

    /// The plan is known, or known to be unknown. Without Premium the engine
    /// goes down; otherwise it may come up.
    pub open spec fn on_account_checked(self, premium: Option<bool>) -> WorkerModel {
        let checked = WorkerModel { premium, ..self };
        if premium == Some(false) {
            if self.playback_grant is Some {
                checked.stops_engine().shows_playback(PlaybackModel::Failed(PREMIUM_NEEDED@))
            } else {
                checked.stops_engine()
            }
        } else {
            checked.resume_engine()
        }
    }

    /// It is time to see whether the pickup after a reconnect has started.
    pub open spec fn verify_resume(self, playing: bool) -> WorkerModel {
        match self.resume_verify {
            Some((spec, tries)) => if self.engine && !playing && tries < RESUME_TRIES {
                WorkerModel { resume_verify: Some((spec, (tries + 1) as u8)), ..self }.acts(
                    ActionModel::LoadAgain(spec),
                ).acts(ActionModel::CheckResumeIn { delay_ms: NEXT_RESUME_CHECK_MS })
            } else {
                WorkerModel { resume_verify: None, ..self }
            },
            None => self,
        }
    }

    // ---- the Web API and the rest -----------------------------------------

    /// A request is carried to the Web API under the session of now.
    pub open spec fn dispatch(self, request: ApiRequest) -> WorkerModel {
        self.acts(
            ActionModel::Dispatch {
                request,
                background: request.spec_background(),
                generation: self.session,
                shared_lease: self.credentials.spec_lease(Slot::Shared),
                personal_lease: self.credentials.spec_lease(Slot::Personal),
            },
        )
    }

    /// A request found an app's grant expired.
    pub open spec fn on_grant_expired(self, source: ApiSource) -> WorkerModel {
        let forgotten = self.forget_web_grant(source);
        match source {
            ApiSource::Personal => forgotten.emits(EventModel::WebApp { client_id: None }),
            ApiSource::Shared => WorkerModel { signed_in: false, ..forgotten }.shows_auth(
                AuthModel::Failed(SIGN_IN_EXPIRED@),
            ),
        }
    }

    /// The plan of the signed-in account is acted on wherever an answer shows
    /// it.
    pub open spec fn notices_account(self, response: ApiResponse) -> WorkerModel {
        match response {
            ApiResponse::Me(Ok(user)) => if self.signed_in && self.api.account() == Some(user.id@) {
                self.on_account_checked(user.spec_premium())
            } else {
                self
            },
            _ => self,
        }
    }

    /// A request is answered. The answer counts only within the session it was
    /// asked in, and an expired grant only while it is still the one in use.
    pub open spec fn on_api_finished(
        self,
        generation: u64,
        response: ApiResponse,
        expired: Option<ApiSource>,
        shared_lease: Lease,
        personal_lease: Lease,
    ) -> WorkerModel {
        if generation != self.session {
            self
        } else {
            match expired {
                Some(source) => {
                    let lease = match source {
                        ApiSource::Shared => shared_lease,
                        ApiSource::Personal => personal_lease,
                    };
                    if self.credentials.holds(lease) {
                        self.on_grant_expired(source).notices_account(response).emits(
                            EventModel::Api(response),
                        )
                    } else {
                        self
                    }
                },
                None => self.notices_account(response).emits(EventModel::Api(response)),
            }
        }
    }

    /// A receiver gets the playback grant, if that is the verified account's.
    pub open spec fn activate_receiver(self, receiver: Receiver) -> WorkerModel {
        self.acts(
            ActionModel::ActivateReceiver {
                receiver,
                credentials: match self.playback_grant {
                    Some(grant) => if grant.username == self.api.account() {
                        Some(grant)
                    } else {
                        None
                    },
                    None => None,
                },
                lease: self.credentials.spec_lease(Slot::Playback),
            },
        )
    }

    /// An action that only an engine can do; without one nothing is done.
    pub open spec fn asks_engine(self, action: ActionModel) -> WorkerModel {
        if self.engine {
            self.acts(action)
        } else {
            self
        }
    }

    pub open spec fn load_playlist_cache(self, id: Seq<char>, generation: u64) -> WorkerModel {
        match self.api.account() {
            Some(account_id) => self.acts(
                ActionModel::ReadPlaylistCache {
                    account_id,
                    file_name: id + ".json"@,
                    id,
                    generation,
                },
            ),
            None => self,
        }
    }

    pub open spec fn store_playlist_cache(
        self,
        id: Seq<char>,
        cached: CachedPlaylist,
    ) -> WorkerModel {
        match self.api.account() {
            Some(account_id) => self.acts(
                ActionModel::WritePlaylistCache { account_id, file_name: id + ".json"@, cached },
            ),
            None => self,
        }
    }

    /// Spotify-owned playlists are looked up for a search, in place of any
    /// earlier lookup, where a personal app answered the search.
    pub open spec fn fetch_editorial_playlists(self, query: String, serial: u64) -> WorkerModel {
        let aborted = if self.editorial_fetch {
            self.acts(ActionModel::AbortEditorialSearch)
        } else {
            self
        };
        if self.api.personal is Ready {
            WorkerModel { editorial_fetch: true, ..aborted }.acts(
                ActionModel::SearchEditorial { query, serial },
            )
        } else {
            WorkerModel { editorial_fetch: false, ..aborted }
        }
    }

    pub open spec fn load_liked_songs(self, generation: u64) -> WorkerModel {
        match self.api.account() {
            Some(account_id) => self.acts(ActionModel::ReadLikedSongs { account_id, generation }),
            None => self,
        }
    }

    pub open spec fn store_liked_songs(self, cache: LikedSongs) -> WorkerModel {
        if self.api.account() == Some(cache.account_id@) {
            self.acts(ActionModel::WriteLikedSongs(cache))
        } else {
            self
        }
    }

    /// What one command makes of the state.
    pub open spec fn step(self, command: Command, moment: Moment) -> WorkerModel {
        let grant = moment.personal_grant;
        match command {
            Command::CredentialsRestored { slot, lease, result } => self.on_credentials_restored(
                slot,
                lease,
                result,
            ),
            Command::SignIn => self.sign_in_source(ApiSource::Shared, grant),
            Command::CancelSignIn => self.cancel_sign_in(),
            Command::SignOut => self.sign_out(),
            Command::AuthorizePlayback => self.authorize_playback(),
            Command::RestartEngine(config) => WorkerModel {
                engine_config: config,
                ..self
            }.reconnect_engine(moment),
            Command::Player(command) => if self.engine {
                self.acts(ActionModel::Play(command))
            } else {
                self.shows_error(NOT_SET_UP@)
            },
            Command::Api(request) => self.dispatch(request),
            Command::ApiFinished {
                generation,
                response,
                expired,
                shared_lease,
                personal_lease,
            } => self.on_api_finished(
                generation,
                *response,
                expired,
                shared_lease,
                personal_lease,
            ),
            Command::Accent { url } => self.acts(ActionModel::FetchAccent { url }),
            Command::Shutdown => self.stops_engine(),
            Command::WebSignedIn { source, token, lease, attempt } => {
                if self.credentials.holds(lease) && self.authorizing_source == Some(source)
                    && self.authorization_attempt == attempt {
                    self.on_web_signed_in(source, token@)
                } else if self.authorization_attempt == attempt {
                    self.finish_authorization(source, grant)
                } else {
                    self
                }
            },
            Command::WebVerified { source, token, user, lease, attempt } => {
                if self.credentials.holds(lease) {
                    self.on_web_verified(source, token@.client_id, *user, grant)
                } else if self.authorization_attempt == attempt {
                    self.finish_authorization(source, grant)
                } else {
                    self
                }
            },
            Command::WebVerificationFailed { source, lease, attempt, error } => {
                let heard = if self.credentials.holds(lease) {
                    self.on_web_verification_failed(source, error)
                } else {
                    self
                };
                if heard.authorization_attempt == attempt {
                    heard.finish_authorization(source, grant)
                } else {
                    heard
                }
            },
            Command::SignInEnded { source, attempt } => self.on_sign_in_ended(
                source,
                attempt,
                grant,
            ),
            Command::PlaybackAuthEnded { attempt } => self.finish_playback_authorization(
                attempt,
                grant,
            ),
            Command::PlaybackAuthorized { access_token, lease, attempt } => {
                if self.credentials.holds(lease) {
                    self.on_playback_authorized(access_token@)
                } else {
                    self.finish_playback_authorization(attempt, grant)
                }
            },
            Command::EngineConnected { engine, error, lease } => {
                if self.credentials.holds(lease) && self.signed_in {
                    self.on_engine_connected(engine, error)
                } else {
                    self.drops_connection(lease, engine is Some)
                }
            },
            Command::Reconnect => self.reconnect_engine(moment),
            Command::DiscoverReceivers => self.acts(ActionModel::DiscoverReceivers),
            Command::ActivateReceiver(receiver) => self.activate_receiver(*receiver),
            Command::CheckForUpdates { manual } => self.acts(
                ActionModel::CheckForUpdates { manual },
            ),
            Command::Lyrics(request) => self.acts(ActionModel::FetchLyrics(*request)),
            Command::Rootlist => self.asks_engine(ActionModel::FetchRootlist),
            Command::VerifyResume => self.verify_resume(moment.interrupted is Some),
            Command::ConfigurePersonalWebApp(client_id) => self.configure_personal_web_app(
                client_id.deep_view(),
                grant,
            ),
            Command::LoadPlaylistCache { id, generation } => self.load_playlist_cache(
                id@,
                generation,
            ),
            Command::StorePlaylistCache { id, snapshot, items, total, next_offset } => {
                self.store_playlist_cache(
                    id@,
                    CachedPlaylist { snapshot, items, total: Some(total), next_offset },
                )
            },
            Command::UserNames(ids) => self.asks_engine(ActionModel::FetchUserNames(ids)),
            Command::SearchEditorialPlaylists { query, serial } => self.fetch_editorial_playlists(
                query,
                serial,
            ),
            Command::LoadLikedSongsCache { generation } => self.load_liked_songs(generation),
            Command::StoreLikedSongsCache(cache) => self.store_liked_songs(cache),
        }
    }

    /// The state after a run of commands, each taken in its moment, up to the
    /// first that shuts the worker down.
    pub open spec fn run(self, commands: Seq<(Command, Moment)>) -> WorkerModel
        decreases commands.len(),
    {
        if commands.len() == 0 {
            self
        } else {
            let (command, moment) = commands[0];
            let next = self.step(command, moment);
            if command is Shutdown {
                next
            } else {
                next.run(commands.drop_first())
            }
        }
    }
}

}
