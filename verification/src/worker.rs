//! The worker: takes one command at a time and decides what is to be done.

use vstd::prelude::*;
use vstd::string::*;

use crate::actions::{shown, Action, ActionModel};
use crate::credentials::{
    playback_account_matches, playback_credentials, web_slot, CredentialStore, Credentials, Lease,
    Loaded, Slot, StorageError, StoredGrant, StoredToken,
};
use crate::events::{AuthStatus, Command, ConnectedEngine, Event, LocalPlayback};
use crate::gateway::{
    AccountId, AccountMismatch, ApiError, ApiGateway, ApiSource, SessionState, SIGN_IN_EXPIRED,
};
use crate::laws::step::a_step_is_sound;
use crate::model::{
    Moment, RestorePending, TokensModel, WorkerModel, AUTHORIZED_FOR_ANOTHER, FINISH_SIGN_IN,
    FIRST_RESUME_CHECK_MS, KEEPS_DROPPING, NEXT_RESUME_CHECK_MS, NOT_SET_UP, PERMISSIONS_CHANGED,
    PERSONAL_FAILED, PLAYBACK_UNAVAILABLE, RECONNECT_LIMIT, RECONNECT_WINDOW_NS, RESUME_TRIES,
    SHARED_FAILED, STORED_FOR_ANOTHER,
};
use crate::models::{
    EngineConfig, LikedSongs, LoadSpec, PlayerCommand, PlaylistItem, Receiver, User,
};
use crate::playlist_cache::{checkpoint, CachedPlaylist};
use crate::requests::ApiRequest;
use crate::responses::ApiResponse;
use crate::text::{copy_text, joined, same_text, PREMIUM_NEEDED};

verus! {

/// The grants held for the two Web API apps.
#[derive(Debug)]
pub struct WebTokens {
    pub shared: Option<StoredToken>,
    pub personal: Option<StoredToken>,
}

impl View for WebTokens {
    type V = TokensModel;

    open spec fn view(&self) -> TokensModel {
        TokensModel { shared: self.shared.deep_view(), personal: self.personal.deep_view() }
    }
}

impl WebTokens {
    /// Whether a grant is held for an app.
    pub fn holds(&self, source: ApiSource) -> (held: bool)
        ensures
            held == (self@.held(source) is Some),
    {
        match source {
            ApiSource::Shared => self.shared.is_some(),
            ApiSource::Personal => self.personal.is_some(),
        }
    }

    /// Whether no grant is held at all.
    pub fn is_empty(&self) -> (empty: bool)
        ensures
            empty == (self@ == TokensModel::none()),
    {
        self.shared.is_none() && self.personal.is_none()
    }

    fn set(&mut self, source: ApiSource, token: Option<StoredToken>)
        ensures
            final(self)@ == old(self)@.with(source, token.deep_view()),
    {
        match source {
            ApiSource::Shared => {
                self.shared = token;
            },
            ApiSource::Personal => {
                self.personal = token;
            },
        }
    }
}

/// Everything the backend knows between two commands, and what it has asked
/// to be done.
pub struct Worker {
    pub credentials: CredentialStore,
    pub web_tokens: WebTokens,
    pub playback_grant: Option<Credentials>,
    pub restore_pending: RestorePending,
    pub authorization_attempt: u64,
    /// Counts sign-outs, so that an answer from an earlier session is known.
    pub session: u64,
    pub engine_config: EngineConfig,
    pub web_client_id: Option<String>,
    /// The permissions a Web API grant must have.
    pub web_scopes: Vec<String>,
    pub api: ApiGateway,
    /// Whether an engine is in use.
    pub engine: bool,
    /// True while a playback grant or engine connection is in flight, so a
    /// second attempt does not pile up.
    pub engine_busy: bool,
    /// The attempt of the playback grant that is in flight.
    pub playback_flow: Option<u64>,
    pub signed_in: bool,
    /// The plan, once the Web API has answered.
    pub premium: Option<bool>,
    /// Whether a browser flow is open that can be cancelled.
    pub cancel_signin: bool,
    pub authorizing_source: Option<ApiSource>,
    pub pending_authorization: Option<ApiSource>,
    pub reconnects: Vec<u64>,
    /// Whether an editorial-playlists lookup was started. A newer search
    /// aborts it rather than letting a stale keystroke's request finish and
    /// add its own load to the shared app's already-congested quota.
    pub editorial_fetch: bool,
    /// What the engine was playing when it went down, to load again once
    /// the next one is up.
    pub resume: Option<LoadSpec>,
    /// A pickup in flight: the load to repeat and how often it was tried.
    pub resume_verify: Option<(LoadSpec, u8)>,
    /// What is to be done, in order.
    pub actions: Vec<Action>,
}

impl View for Worker {
    type V = WorkerModel;

    open spec fn view(&self) -> WorkerModel {
        WorkerModel {
            credentials: self.credentials,
            web_tokens: self.web_tokens@,
            playback_grant: self.playback_grant.deep_view(),
            restore_pending: self.restore_pending,
            authorization_attempt: self.authorization_attempt,
            session: self.session,
            engine_config: self.engine_config,
            web_client_id: self.web_client_id.deep_view(),
            web_scopes: self.web_scopes.deep_view(),
            api: self.api@,
            engine: self.engine,
            engine_busy: self.engine_busy,
            playback_flow: self.playback_flow,
            signed_in: self.signed_in,
            premium: self.premium,
            cancel_signin: self.cancel_signin,
            authorizing_source: self.authorizing_source,
            pending_authorization: self.pending_authorization,
            reconnects: self.reconnects@,
            editorial_fetch: self.editorial_fetch,
            resume: self.resume.deep_view(),
            resume_verify: match self.resume_verify {
                Some((spec, tries)) => Some((spec@, tries)),
                None => None,
            },
            log: shown(self.actions@),
        }
    }
}

impl Worker {
    /// A worker that has done nothing yet.
    pub fn new(
        engine_config: EngineConfig,
        web_client_id: Option<String>,
        web_scopes: Vec<String>,
    ) -> (worker: Worker)
        ensures
            worker@ == WorkerModel::fresh(
                engine_config,
                web_client_id.deep_view(),
                web_scopes.deep_view(),
            ),
            worker@.valid(),
    {
        let worker = Worker {
            credentials: CredentialStore::new(),
            web_tokens: WebTokens { shared: None, personal: None },
            playback_grant: None,
            restore_pending: RestorePending { shared: false, personal: false, playback: false },
            authorization_attempt: 0,
            session: 0,
            engine_config,
            web_client_id,
            web_scopes,
            api: ApiGateway::new(),
            engine: false,
            engine_busy: false,
            playback_flow: None,
            signed_in: false,
            premium: None,
            cancel_signin: false,
            authorizing_source: None,
            pending_authorization: None,
            reconnects: Vec::new(),
            editorial_fetch: false,
            resume: None,
            resume_verify: None,
            actions: Vec::new(),
        };
        assert(worker@.log =~= Seq::empty());
        assert(worker@.reconnects =~= Seq::empty());
        worker
    }

    /// Takes what is to be done so far, and starts an empty list.
    pub fn take_actions(&mut self) -> (actions: Vec<Action>)
        ensures
            shown(actions@) == old(self)@.log,
            final(self)@ == (WorkerModel { log: Seq::empty(), ..old(self)@ }),
    {
        let mut actions: Vec<Action> = Vec::new();
        std::mem::swap(&mut actions, &mut self.actions);
        assert(self@.log =~= Seq::empty());
        actions
    }

    fn act(&mut self, action: Action)
        ensures
            final(self)@ == old(self)@.acts(action@),
    {
        self.actions.push(action);
        assert(self@.log =~= old(self)@.log.push(action@));
    }

    fn emit(&mut self, event: Event)
        ensures
            final(self)@ == old(self)@.emits(event@),
    {
        self.act(Action::Emit(event));
    }

    fn show_error(&mut self, text: String)
        ensures
            final(self)@ == old(self)@.shows_error(text@),
    {
        self.emit(Event::Error(text));
    }

    fn show_auth(&mut self, status: AuthStatus)
        ensures
            final(self)@ == old(self)@.shows_auth(status@),
    {
        self.emit(Event::Auth(status));
    }

    fn show_playback(&mut self, playback: LocalPlayback)
        ensures
            final(self)@ == old(self)@.shows_playback(playback@),
    {
        self.emit(Event::Playback(playback));
    }

    /// The id of the verified account.
    fn account_id(&self) -> (id: Option<String>)
        ensures
            id.deep_view() == self@.api.account(),
    {
        match self.api.account() {
            Some(account) => Some(account.into_string()),
            None => None,
        }
    }

    /// Whether the personal app in force is the one a grant was given to.
    fn is_personal_app(&self, client_id: &String) -> (same: bool)
        ensures
            same == self@.is_personal_app(client_id@),
    {
        match &self.web_client_id {
            Some(configured) => *configured == *client_id,
            None => false,
        }
    }

    /// The slot whose grant the open browser flow is for.
    fn authorizing_slot(&self) -> (slot: Slot)
        ensures
            slot == self@.authorizing_slot(),
    {
        match self.authorizing_source {
            Some(source) => web_slot(source),
            None => Slot::Playback,
        }
    }

    // ---- Web API sign-in --------------------------------------------------

    /// Starts reading every slot, to pick up the session of the last run.
    pub fn restore_session(&mut self)
        ensures
            final(self)@ == old(self)@.restore_session(),
    {
        self.restore_pending = RestorePending { shared: true, personal: true, playback: true };
        self.api.set_state(ApiSource::Shared, SessionState::Authorizing);
        if self.web_client_id.is_some() {
            self.api.set_state(ApiSource::Personal, SessionState::Authorizing);
        }
        let lease = self.credentials.lease(Slot::Shared);
        self.act(Action::LoadGrant { lease });
        let lease = self.credentials.lease(Slot::Personal);
        self.act(Action::LoadGrant { lease });
        let lease = self.credentials.lease(Slot::Playback);
        self.act(Action::LoadGrant { lease });
    }

    fn take_web_grant(&mut self, source: ApiSource, token: StoredToken)
        ensures
            final(self)@ == old(self)@.takes_web_grant(source, token@),
    {
        if source == ApiSource::Shared || self.is_personal_app(&token.client_id) {
            if token.has_scopes(&self.web_scopes) {
                if !self.signed_in {
                    self.show_auth(AuthStatus::Connecting);
                }
                self.on_web_signed_in(source, token);
            } else {
                self.show_error(PERMISSIONS_CHANGED.to_owned());
            }
        }
    }

    fn take_grant(&mut self, slot: Slot, grant: Option<StoredGrant>)
        ensures
            final(self)@ == old(self)@.takes_grant(slot, grant),
    {
        match grant {
            Some(StoredGrant::Playback(grant)) => {
                self.playback_grant = Some(grant);
                self.resume_engine();
            },
            Some(StoredGrant::Web(token)) => {
                self.take_web_grant(slot.source(), token);
            },
            None => {},
        }
    }

    fn close_empty_slot(&mut self, slot: Slot)
        ensures
            final(self)@ == old(self)@.closes_empty_slot(slot),
    {
        if slot != Slot::Playback && !self.web_tokens.holds(slot.source()) {
            self.api.clear(slot.source());
        }
    }

    fn settle_restore(&mut self)
        ensures
            final(self)@ == old(self)@.settles_restore(),
    {
        let pending = self.restore_pending.shared || self.restore_pending.personal
            || self.restore_pending.playback;
        if !pending && !self.signed_in && self.web_tokens.is_empty() {
            self.show_auth(AuthStatus::SignedOut);
        }
    }

    fn restored_slot(&mut self, slot: Slot)
        ensures
            final(self)@ == (WorkerModel {
                restore_pending: old(self)@.restore_pending.without(slot),
                ..old(self)@
            }),
    {
        match slot {
            Slot::Shared => {
                self.restore_pending.shared = false;
            },
            Slot::Personal => {
                self.restore_pending.personal = false;
            },
            Slot::Playback => {
                self.restore_pending.playback = false;
            },
        }
    }

    /// Takes what was read from a slot, if the slot has not moved on since.
    pub fn on_credentials_restored(
        &mut self,
        slot: Slot,
        lease: Lease,
        result: Result<Loaded, StorageError>,
    )
        ensures
            final(self)@ == old(self)@.on_credentials_restored(slot, lease, result),
    {
        if !self.credentials.current(&lease) {
            return;
        }
        self.restored_slot(slot);
        let grant = match result {
            Ok(loaded) => {
                if let Some(warning) = &loaded.warning {
                    self.show_error(warning.text());
                }
                loaded.grant
            },
            Err(error) => {
                self.show_error(error.text());
                None
            },
        };
        self.take_grant(slot, grant);
        self.close_empty_slot(slot);
        self.settle_restore();
    }

    /// Holds an app's grant, and has it verified.
    pub fn on_web_signed_in(&mut self, source: ApiSource, token: StoredToken)
        ensures
            final(self)@ == old(self)@.on_web_signed_in(source, token@),
    {
        let lease = self.credentials.lease(web_slot(source));
        self.web_tokens.set(source, Some(token.clone()));
        self.api.set_state(source, SessionState::Authorizing);
        let attempt: u64 = self.authorization_attempt;
        self.act(Action::VerifyToken { source, token, lease, attempt });
    }

    fn delete_stored_grant(&mut self, slot: Slot)
        ensures
            final(self)@ == old(self)@.delete_stored_grant(slot),
    {
        let lease = self.credentials.lease(slot);
        self.act(Action::DeleteGrant { lease });
    }

    /// Gives up an app's grant.
    pub fn forget_web_grant(&mut self, source: ApiSource)
        requires
            old(self)@.room(1),
        ensures
            final(self)@ == old(self)@.forget_web_grant(source),
    {
        let slot = web_slot(source);
        self.credentials.invalidate(slot);
        self.act(Action::Revoke { slot });
        self.delete_stored_grant(slot);
        self.web_tokens.set(source, None);
        self.api.clear(source);
    }

    /// Takes the rejection of an app's grant.
    pub fn on_web_verification_failed(&mut self, source: ApiSource, error: ApiError)
        requires
            old(self)@.room(1),
        ensures
            final(self)@ == old(self)@.on_web_verification_failed(source, error),
    {
        // A rejected refresh grant cannot restore a session next time.
        // Forget only this grant and ask for a fresh browser approval.
        match error.expired() {
            Some(_) => self.forget_web_grant(source),
            None => self.api.clear(source),
        }
        let text = error.text();
        let message = match source {
            ApiSource::Shared => joined(SHARED_FAILED, text.as_str()),
            ApiSource::Personal => joined(PERSONAL_FAILED, text.as_str()),
        };
        let other_ready = match source {
            ApiSource::Shared => self.api.personal_ready(),
            ApiSource::Personal => self.api.is_ready(ApiSource::Shared),
        };
        if source == ApiSource::Shared || !other_ready {
            self.signed_in = false;
            self.show_auth(AuthStatus::Failed(message.clone()));
        }
        self.show_error(message);
    }

    fn connect_account(&mut self, user: &User)
        ensures
            final(self)@ == old(self)@.connects(*user),
    {
        if !self.signed_in {
            self.signed_in = true;
            self.show_auth(AuthStatus::Connected { username: user.name() });
        }
    }

    fn present_account(&mut self, user: User)
        ensures
            final(self)@ == old(self)@.presents(user),
    {
        let premium = user.premium();
        self.emit(Event::Api(Box::new(ApiResponse::Me(Ok(user)))));
        self.on_account_checked(premium);
    }

    fn reject_account(&mut self, source: ApiSource, mismatch: AccountMismatch)
        ensures
            final(self)@ == old(self)@.rejects_account(source),
    {
        self.api.clear(source);
        if source == ApiSource::Shared {
            self.signed_in = false;
            self.show_auth(AuthStatus::Failed(mismatch.text()));
        }
        self.show_error(mismatch.text());
    }

    fn welcome(&mut self, source: ApiSource, client_id: String, user: User)
        ensures
            final(self)@ == old(self)@.welcomes(source, client_id@, user),
    {
        if self.web_tokens.holds(source) {
            let lease = self.credentials.lease(web_slot(source));
            self.act(Action::RememberToken { source, lease });
        }
        match source {
            ApiSource::Shared => {
                self.connect_account(&user);
                self.present_account(user);
            },
            ApiSource::Personal => {
                self.emit(Event::WebApp { client_id: Some(client_id) });
                if !self.signed_in {
                    self.connect_account(&user);
                    self.present_account(user);
                }
            },
        }
    }

    /// Takes the account that an app's grant was verified for.
    pub fn on_web_verified(
        &mut self,
        source: ApiSource,
        token: StoredToken,
        user: User,
        personal_grant: Result<(), String>,
    )
        requires
            old(self)@.room(1),
        ensures
            final(self)@ == old(self)@.on_web_verified(
                source,
                token@.client_id,
                user,
                personal_grant,
            ),
    {
        if !self.api.is_authorizing(source) || (source == ApiSource::Personal
            && !self.is_personal_app(&token.client_id)) {
            return;
        }
        match self.api.install(source, AccountId::new(user.id.clone())) {
            Err(mismatch) => self.reject_account(source, mismatch),
            Ok(()) => self.welcome(source, token.client_id, user),
        }
        self.finish_authorization(source, personal_grant);
    }

    fn start_pending(&mut self, personal_grant: Result<(), String>)
        requires
            old(self)@.room(1),
        ensures
            final(self)@ == old(self)@.starts_pending(personal_grant),
    {
        match self.pending_authorization {
            Some(pending) => {
                self.pending_authorization = None;
                self.sign_in_source(pending, personal_grant);
            },
            None => {},
        }
    }

    /// Ends an app's browser flow, and starts the one that waited for it.
    pub fn finish_authorization(&mut self, source: ApiSource, personal_grant: Result<(), String>)
        requires
            old(self)@.room(1),
        ensures
            final(self)@ == old(self)@.finish_authorization(source, personal_grant),
    {
        if self.authorizing_source != Some(source) {
            return;
        }
        self.cancel_signin = false;
        self.authorizing_source = None;
        self.start_pending(personal_grant);
    }

    fn end_playback_flow(&mut self)
        ensures
            final(self)@ == old(self)@.ends_playback_flow(),
    {
        if self.playback_flow.is_some() {
            self.playback_flow = None;
            self.engine_busy = false;
        }
    }

    /// Ends a playback browser flow that got no grant, brings up the engine it
    /// held back, and starts the flow that waited for the browser.
    pub fn finish_playback_authorization(
        &mut self,
        attempt: u64,
        personal_grant: Result<(), String>,
    )
        requires
            old(self)@.room(1),
        ensures
            final(self)@ == old(self)@.finish_playback_authorization(attempt, personal_grant),
    {
        if self.playback_flow == Some(attempt) {
            self.end_playback_flow();
            self.resume_engine();
        }
        if self.authorization_attempt == attempt {
            self.cancel_signin = false;
            self.start_pending(personal_grant);
        }
    }

    /// Signs in to the shared app.
    pub fn sign_in(&mut self, personal_grant: Result<(), String>)
        requires
            old(self)@.room(1),
        ensures
            final(self)@ == old(self)@.sign_in_source(ApiSource::Shared, personal_grant),
    {
        self.sign_in_source(ApiSource::Shared, personal_grant);
    }

    fn open_browser(&mut self, source: ApiSource)
        requires
            old(self)@.room(1),
        ensures
            final(self)@ == old(self)@.opens_browser(source),
    {
        let slot = web_slot(source);
        self.credentials.invalidate(slot);
        self.restored_slot(slot);
        let lease = self.credentials.lease(slot);
        self.authorization_attempt = self.authorization_attempt + 1;
        let attempt: u64 = self.authorization_attempt;
        self.cancel_signin = true;
        self.authorizing_source = Some(source);
        self.api.set_state(source, SessionState::Authorizing);
        let client_id = match source {
            ApiSource::Shared => None,
            ApiSource::Personal => copy_text(&self.web_client_id),
        };
        self.act(Action::BeginSignIn { source, client_id, lease, attempt });
    }

    /// Opens the browser for an app's grant, unless it is open already.
    pub fn sign_in_source(&mut self, source: ApiSource, personal_grant: Result<(), String>)
        requires
            old(self)@.room(1),
        ensures
            final(self)@ == old(self)@.sign_in_source(source, personal_grant),
    {
        if self.cancel_signin {
            return;
        }
        match source {
            ApiSource::Shared => self.open_browser(source),
            ApiSource::Personal => {
                if self.web_client_id.is_none() {
                    return;
                }
                match personal_grant {
                    Ok(_) => self.open_browser(source),
                    Err(error) => self.show_error(error),
                }
            },
        }
    }

    fn cancel_browser(&mut self)
        requires
            old(self)@.room(1),
        ensures
            final(self)@ == old(self)@.cancels_browser(),
    {
        if self.cancel_signin {
            let slot = self.authorizing_slot();
            self.credentials.invalidate(slot);
            self.act(Action::CancelBrowser);
        }
    }

    /// Gives up on the browser flow that is open, and on the one that waits.
    pub fn cancel_sign_in(&mut self)
        requires
            old(self)@.room(1),
        ensures
            final(self)@ == old(self)@.cancel_sign_in(),
    {
        self.cancel_browser();
        let playback = self.cancel_signin && self.playback_flow == Some(
            self.authorization_attempt,
        );
        self.authorization_attempt = self.authorization_attempt + 1;
        self.cancel_signin = false;
        match self.authorizing_source {
            Some(source) => {
                self.authorizing_source = None;
                if self.api.is_authorizing(source) {
                    self.api.clear(source);
                }
            },
            None => {},
        }
        self.pending_authorization = None;
        if playback {
            self.end_playback_flow();
            self.resume_engine();
        }
    }

    /// Takes the end of an app's browser flow, if it is the latest one.
    pub fn on_sign_in_ended(
        &mut self,
        source: ApiSource,
        attempt: u64,
        personal_grant: Result<(), String>,
    )
        requires
            old(self)@.room(1),
        ensures
            final(self)@ == old(self)@.on_sign_in_ended(source, attempt, personal_grant),
    {
        if self.authorizing_source == Some(source) && self.authorization_attempt == attempt {
            self.cancel_signin = false;
            self.authorizing_source = None;
            if self.api.is_authorizing(source) {
                self.api.clear(source);
            }
            self.start_pending(personal_grant);
        }
    }

    /// Adds, replaces or removes the personal app.
    pub fn configure_personal_web_app(
        &mut self,
        client_id: Option<String>,
        personal_grant: Result<(), String>,
    )
        requires
            old(self)@.room(2),
        ensures
            final(self)@ == old(self)@.configure_personal_web_app(
                client_id.deep_view(),
                personal_grant,
            ),
    {
        let authorization_in_flight = self.cancel_signin;
        self.cancel_browser();
        self.forget_web_grant(ApiSource::Personal);
        self.web_client_id = client_id;
        self.emit(Event::WebApp { client_id: None });
        if self.web_client_id.is_some() {
            if authorization_in_flight {
                self.pending_authorization = Some(ApiSource::Personal);
            } else {
                self.sign_in_source(ApiSource::Personal, personal_grant);
            }
        } else {
            self.pending_authorization = None;
        }
    }

    fn stop_engine(&mut self)
        ensures
            final(self)@ == old(self)@.stops_engine(),
    {
        if self.engine {
            self.engine = false;
            self.act(Action::StopEngine);
        }
    }

    /// Ends the session: everything it held is gone, and whatever is still
    /// under way for it will find its lease stale.
    pub fn sign_out(&mut self)
        requires
            old(self)@.room(1),
        ensures
            final(self)@ == old(self)@.sign_out(),
    {
        let engine = self.engine;
        let browser = self.cancel_signin;
        self.signed_in = false;
        self.session = self.session + 1;
        self.authorization_attempt = self.authorization_attempt + 1;
        self.credentials.invalidate_all();
        self.restore_pending = RestorePending { shared: false, personal: false, playback: false };
        self.web_tokens = WebTokens { shared: None, personal: None };
        self.playback_grant = None;
        self.engine = false;
        self.engine_busy = false;
        self.playback_flow = None;
        self.premium = None;
        self.resume = None;
        self.resume_verify = None;
        self.cancel_signin = false;
        self.authorizing_source = None;
        self.pending_authorization = None;
        self.api.clear_all();
        self.act(Action::RevokeAll);
        if engine {
            self.act(Action::StopEngine);
        }
        if browser {
            self.act(Action::CancelBrowser);
        }
        self.delete_stored_grant(Slot::Shared);
        self.delete_stored_grant(Slot::Personal);
        self.delete_stored_grant(Slot::Playback);
        self.show_playback(LocalPlayback::Unavailable);
        self.show_auth(AuthStatus::SignedOut);
    }

    // ---- local playback engine -------------------------------------------

    /// Connects an engine with the streaming token the browser flow gave.
    pub fn on_playback_authorized(&mut self, access_token: String)
        ensures
            final(self)@ == old(self)@.on_playback_authorized(access_token@),
    {
        match playback_credentials(self.api.account(), access_token) {
            Some(credentials) => {
                self.end_playback_flow();
                self.connect_engine(credentials);
            },
            None => {
                self.engine_busy = false;
                self.playback_flow = None;
                self.show_playback(LocalPlayback::Failed(FINISH_SIGN_IN.to_owned()));
            },
        }
    }

    /// Brings the engine up from a credential stored by a previous playback
    /// authorization, if there is one. Silent when there is nothing to resume.
    pub fn resume_engine(&mut self)
        ensures
            final(self)@ == old(self)@.resume_engine(),
    {
        let without_premium = match self.premium {
            Some(premium) => !premium,
            None => false,
        };
        if !self.signed_in || self.engine || self.engine_busy || without_premium {
            return;
        }
        let credentials = match &self.playback_grant {
            Some(credentials) => credentials.clone(),
            None => {
                return;
            },
        };
        if same_text(&credentials.username, &self.account_id()) {
            self.connect_engine(credentials);
        } else {
            self.show_playback(LocalPlayback::Failed(STORED_FOR_ANOTHER.to_owned()));
        }
    }

    /// Drops the reconnects that no longer count.
    fn forget_old_reconnects(&mut self, now: u64)
        ensures
            final(self)@ == (WorkerModel {
                reconnects: old(self)@.recent_reconnects(now),
                ..old(self)@
            }),
    {
        let ghost counts = |at: u64| now - at < RECONNECT_WINDOW_NS;
        let mut recent: Vec<u64> = Vec::new();
        let mut i: usize = 0;
        while i < self.reconnects.len()
            invariant
                i <= self.reconnects@.len(),
                self@ == old(self)@,
                counts == (|at: u64| now - at < RECONNECT_WINDOW_NS),
                recent@ == self.reconnects@.take(i as int).filter(counts),
            decreases self.reconnects@.len() - i,
        {
            let at: u64 = self.reconnects[i];
            proof {
                reveal(Seq::filter);
                assert(self.reconnects@.take(i + 1).drop_last() =~= self.reconnects@.take(
                    i as int,
                ));
            }
            if now.saturating_sub(at) < RECONNECT_WINDOW_NS {
                recent.push(at);
            }
            i += 1;
        }
        assert(self.reconnects@.take(self.reconnects@.len() as int) =~= self.reconnects@);
        self.reconnects = recent;
    }

    /// Reconnects the engine after its session dropped or audio settings
    /// changed. Whatever was playing comes back at the same spot on the new
    /// session, so a dropped connection is a pause of a few seconds rather
    /// than silence.
    pub fn reconnect_engine(&mut self, moment: Moment)
        ensures
            final(self)@ == old(self)@.reconnect_engine(moment),
    {
        if !self.signed_in {
            return;
        }
        self.resume_verify = None;
        if self.engine {
            self.resume = match moment.interrupted {
                Some(interrupted) => Some(LoadSpec::picking_up(interrupted)),
                None => None,
            };
        }
        self.stop_engine();
        self.forget_old_reconnects(moment.now);
        if self.reconnects.len() >= RECONNECT_LIMIT {
            self.resume = None;
            self.show_playback(LocalPlayback::Failed(KEEPS_DROPPING.to_owned()));
            return;
        }
        self.reconnects.push(moment.now);
        self.resume_engine();
    }

    /// Starts (or re-enters) the playback authorization in the browser. This is
    /// a distinct grant from the Web API sign-in: it uses Spotify's streaming
    /// client identity, the one librespot can play with.
    pub fn authorize_playback(&mut self)
        requires
            old(self)@.room(1),
        ensures
            final(self)@ == old(self)@.authorize_playback(),
    {
        if self.engine_busy || self.cancel_signin {
            return;
        }
        if let Some(premium) = self.premium {
            if !premium {
                self.show_playback(LocalPlayback::Failed(PREMIUM_NEEDED.to_owned()));
                return;
            }
        }
        self.credentials.invalidate(Slot::Playback);
        self.authorization_attempt = self.authorization_attempt + 1;
        let attempt: u64 = self.authorization_attempt;
        let lease = self.credentials.lease(Slot::Playback);
        self.cancel_signin = true;
        self.engine_busy = true;
        self.playback_flow = Some(attempt);
        self.show_playback(LocalPlayback::Authorizing);
        self.act(Action::BeginPlaybackAuthorization { lease, attempt });
    }

    /// Has an engine connected, away from the command loop: a slow or hung
    /// handshake never blocks it.
    pub fn connect_engine(&mut self, credentials: Credentials)
        ensures
            final(self)@ == old(self)@.connect_engine(credentials@),
    {
        if self.engine_busy {
            return;
        }
        if let Some(premium) = self.premium {
            if !premium {
                self.show_playback(LocalPlayback::Failed(PREMIUM_NEEDED.to_owned()));
                return;
            }
        }
        self.cancel_signin = false;
        self.engine_busy = true;
        self.show_playback(LocalPlayback::Connecting);
        let lease = self.credentials.lease(Slot::Playback);
        let config = self.engine_config;
        self.act(Action::ConnectEngine { credentials, config, lease });
    }

    fn adopt_engine(&mut self, device_id: String)
        ensures
            final(self)@ == old(self)@.adopts_engine(device_id@),
    {
        let waiting = self.resume.take();
        if let Some(spec) = waiting {
            // Delay resume until Spirc finishes registering. An early load can
            // return 400 and leave playback stopped. Verify the load and retry
            // if needed.
            self.resume_verify = Some((spec, 0));
            self.act(Action::CheckResumeIn { delay_ms: FIRST_RESUME_CHECK_MS });
        }
        self.engine = true;
        self.reconnects = Vec::new();
        assert(self.reconnects@ =~= Seq::empty());
        self.act(Action::KeepEngine);
        self.show_playback(LocalPlayback::Ready { device_id });
    }

    fn end_connection(&mut self)
        ensures
            final(self)@ == old(self)@.ends_connection(),
    {
        self.engine_busy = self.playback_flow.is_some();
    }

    /// Takes the outcome of a connection attempt.
    pub fn on_engine_connected(&mut self, engine: Option<ConnectedEngine>, error: Option<String>)
        ensures
            final(self)@ == old(self)@.on_engine_connected(engine, error),
    {
        self.end_connection();
        match engine {
            Some(engine) => {
                if let Some(grant) = engine.credentials {
                    if !playback_account_matches(&grant, self.api.account()) {
                        self.act(Action::DiscardEngine);
                        self.show_playback(
                            LocalPlayback::Failed(AUTHORIZED_FOR_ANOTHER.to_owned()),
                        );
                        return;
                    }
                    self.playback_grant = Some(grant.clone());
                    let lease = self.credentials.lease(Slot::Playback);
                    self.act(Action::SaveGrant { lease, grant });
                }
                self.adopt_engine(engine.device_id);
            },
            None => {
                self.resume = None;
                let message = match error {
                    Some(error) => error,
                    None => PLAYBACK_UNAVAILABLE.to_owned(),
                };
                self.show_playback(LocalPlayback::Failed(message));
            },
        }
    }

    /// Starts the engine only for Premium accounts. librespot 0.8 calls
    /// `exit(1)` for Free accounts, which cannot be caught. If the plan is
    /// unknown, the engine is started.
    pub fn on_account_checked(&mut self, premium: Option<bool>)
        ensures
            final(self)@ == old(self)@.on_account_checked(premium),
    {
        self.premium = premium;
        if let Some(premium) = premium {
            if !premium {
                self.stop_engine();
                if self.playback_grant.is_some() {
                    self.show_playback(LocalPlayback::Failed(PREMIUM_NEEDED.to_owned()));
                }
                return;
            }
        }
        self.resume_engine();
    }

    /// Verifies playback after reconnect and retries loads rejected while
    /// Spirc is still registering.
    pub fn verify_resume(&mut self, playing: bool)
        ensures
            final(self)@ == old(self)@.verify_resume(playing),
    {
        let pickup = self.resume_verify.take();
        if let Some((spec, tries)) = pickup {
            if self.engine && !playing && tries < RESUME_TRIES {
                self.resume_verify = Some((spec.clone(), tries + 1));
                self.act(Action::LoadAgain(spec));
                self.act(Action::CheckResumeIn { delay_ms: NEXT_RESUME_CHECK_MS });
            }
        }
    }

    // ---- the Web API and the rest -----------------------------------------

    /// Has a request carried to the Web API.
    pub fn dispatch(&mut self, request: ApiRequest)
        ensures
            final(self)@ == old(self)@.dispatch(request),
    {
        let background = request.background();
        let generation: u64 = self.session;
        let shared_lease = self.credentials.lease(Slot::Shared);
        let personal_lease = self.credentials.lease(Slot::Personal);
        self.act(
            Action::Dispatch { request, background, generation, shared_lease, personal_lease },
        );
    }

    fn on_grant_expired(&mut self, source: ApiSource)
        requires
            old(self)@.room(1),
        ensures
            final(self)@ == old(self)@.on_grant_expired(source),
    {
        self.forget_web_grant(source);
        match source {
            ApiSource::Personal => self.emit(Event::WebApp { client_id: None }),
            ApiSource::Shared => {
                self.signed_in = false;
                self.show_auth(AuthStatus::Failed(SIGN_IN_EXPIRED.to_owned()));
            },
        }
    }

    fn notice_account(&mut self, response: &ApiResponse)
        ensures
            final(self)@ == old(self)@.notices_account(*response),
    {
        if let ApiResponse::Me(Ok(user)) = response {
            let verified = match self.account_id() {
                Some(id) => id == user.id,
                None => false,
            };
            if self.signed_in && verified {
                self.on_account_checked(user.premium());
            }
        }
    }

    /// Takes the answer to a request.
    pub fn on_api_finished(
        &mut self,
        generation: u64,
        response: Box<ApiResponse>,
        expired: Option<ApiSource>,
        shared_lease: Lease,
        personal_lease: Lease,
    )
        requires
            old(self)@.room(1),
        ensures
            final(self)@ == old(self)@.on_api_finished(
                generation,
                *response,
                expired,
                shared_lease,
                personal_lease,
            ),
    {
        if generation != self.session {
            return;
        }
        if let Some(source) = expired {
            let lease = match source {
                ApiSource::Shared => shared_lease,
                ApiSource::Personal => personal_lease,
            };
            if !self.credentials.current(&lease) {
                return;
            }
            self.on_grant_expired(source);
        }
        self.notice_account(&*response);
        self.emit(Event::Api(response));
    }

    /// Sends the stored playback credential to a receiver so it can sign in.
    pub fn activate_receiver(&mut self, receiver: Receiver)
        ensures
            final(self)@ == old(self)@.activate_receiver(receiver),
    {
        let account = self.account_id();
        let credentials = match &self.playback_grant {
            Some(grant) => if same_text(&grant.username, &account) {
                Some(grant.clone())
            } else {
                None
            },
            None => None,
        };
        let lease = self.credentials.lease(Slot::Playback);
        self.act(Action::ActivateReceiver { receiver, credentials, lease });
    }

    fn ask_engine(&mut self, action: Action)
        ensures
            final(self)@ == old(self)@.asks_engine(action@),
    {
        if self.engine {
            self.act(action);
        }
    }

    /// Asks for the account's playlist tree, which only the streaming session
    /// can see.
    pub fn fetch_rootlist(&mut self)
        ensures
            final(self)@ == old(self)@.asks_engine(ActionModel::FetchRootlist),
    {
        self.ask_engine(Action::FetchRootlist);
    }

    /// Asks Spotify who is behind each user id. Only the streaming session
    /// can ask; without one the interface shows the bare ids.
    pub fn fetch_user_names(&mut self, ids: Vec<String>)
        ensures
            final(self)@ == old(self)@.asks_engine(ActionModel::FetchUserNames(ids)),
    {
        self.ask_engine(Action::FetchUserNames(ids));
    }

    /// Loads cached playlist items. The interface compares the cached snapshot
    /// with the live playlist before using them.
    pub fn load_playlist_cache(&mut self, id: String, generation: u64)
        ensures
            final(self)@ == old(self)@.load_playlist_cache(id@, generation),
    {
        if let Some(account_id) = self.account_id() {
            let file_name = joined(id.as_str(), ".json");
            self.act(Action::ReadPlaylistCache { account_id, file_name, id, generation });
        }
    }

    /// Keeps a playlist on disk, as far as it was read.
    pub fn store_playlist_cache(
        &mut self,
        id: String,
        snapshot: String,
        items: Vec<PlaylistItem>,
        total: u32,
        next_offset: Option<u32>,
    )
        ensures
            final(self)@ == old(self)@.store_playlist_cache(
                id@,
                CachedPlaylist { snapshot, items, total: Some(total), next_offset },
            ),
    {
        if let Some(account_id) = self.account_id() {
            let file_name = joined(id.as_str(), ".json");
            let cached = checkpoint(snapshot, items, total, next_offset);
            self.act(Action::WritePlaylistCache { account_id, file_name, cached });
        }
    }

    /// Looks up Spotify-owned playlists for a search already on screen. A
    /// personal Development Mode app cannot see them, so this asks the
    /// shared app separately. Only the latest search's lookup is worth the
    /// shared app's quota, so a new one aborts the one before.
    pub fn fetch_editorial_playlists(&mut self, query: String, serial: u64)
        ensures
            final(self)@ == old(self)@.fetch_editorial_playlists(query, serial),
    {
        if self.editorial_fetch {
            self.editorial_fetch = false;
            self.act(Action::AbortEditorialSearch);
        }
        if !self.api.personal_ready() {
            return;
        }
        self.act(Action::SearchEditorial { query, serial });
        self.editorial_fetch = true;
    }

    /// Reads the verified account's Liked Songs from disk.
    pub fn load_liked_songs(&mut self, generation: u64)
        ensures
            final(self)@ == old(self)@.load_liked_songs(generation),
    {
        if let Some(account_id) = self.account_id() {
            self.act(Action::ReadLikedSongs { account_id, generation });
        }
    }

    /// Keeps Liked Songs on disk, if they are the verified account's.
    pub fn store_liked_songs(&mut self, cache: LikedSongs)
        ensures
            final(self)@ == old(self)@.store_liked_songs(cache),
    {
        let own = match self.account_id() {
            Some(id) => id == cache.account_id,
            None => false,
        };
        if own {
            self.act(Action::WriteLikedSongs(cache));
        }
    }

    // ---- the command loop -------------------------------------------------

    fn take_web_signed_in(
        &mut self,
        source: ApiSource,
        token: StoredToken,
        lease: Lease,
        attempt: u64,
        moment: Moment,
    )
        requires
            old(self)@.room(1),
        ensures
            final(self)@ == old(self)@.step(
                Command::WebSignedIn { source, token: Box::new(token), lease, attempt },
                moment,
            ),
    {
        if self.credentials.current(&lease) && self.authorizing_source == Some(source)
            && self.authorization_attempt == attempt {
            self.on_web_signed_in(source, token);
        } else if self.authorization_attempt == attempt {
            self.finish_authorization(source, moment.personal_grant);
        }
    }

    fn take_web_verified(
        &mut self,
        source: ApiSource,
        token: StoredToken,
        user: User,
        lease: Lease,
        attempt: u64,
        moment: Moment,
    )
        requires
            old(self)@.room(1),
        ensures
            final(self)@ == old(self)@.step(
                Command::WebVerified {
                    source,
                    token: Box::new(token),
                    user: Box::new(user),
                    lease,
                    attempt,
                },
                moment,
            ),
    {
        if self.credentials.current(&lease) {
            self.on_web_verified(source, token, user, moment.personal_grant);
        } else if self.authorization_attempt == attempt {
            self.finish_authorization(source, moment.personal_grant);
        }
    }

    fn take_web_verification_failed(
        &mut self,
        source: ApiSource,
        lease: Lease,
        attempt: u64,
        error: ApiError,
        moment: Moment,
    )
        requires
            old(self)@.room(2),
        ensures
            final(self)@ == old(self)@.step(
                Command::WebVerificationFailed { source, lease, attempt, error },
                moment,
            ),
    {
        if self.credentials.current(&lease) {
            self.on_web_verification_failed(source, error);
        }
        if self.authorization_attempt == attempt {
            self.finish_authorization(source, moment.personal_grant);
        }
    }

    fn take_playback_authorized(
        &mut self,
        access_token: String,
        lease: Lease,
        attempt: u64,
        moment: Moment,
    )
        requires
            old(self)@.room(1),
        ensures
            final(self)@ == old(self)@.step(
                Command::PlaybackAuthorized { access_token, lease, attempt },
                moment,
            ),
    {
        if self.credentials.current(&lease) {
            self.on_playback_authorized(access_token);
        } else {
            self.finish_playback_authorization(attempt, moment.personal_grant);
        }
    }

    fn take_engine_connected(
        &mut self,
        engine: Option<ConnectedEngine>,
        error: Option<String>,
        lease: Lease,
        Ghost(moment): Ghost<Moment>,
    )
        ensures
            final(self)@ == old(self)@.step(
                Command::EngineConnected { engine, error, lease },
                moment,
            ),
    {
        if self.credentials.current(&lease) && self.signed_in {
            self.on_engine_connected(engine, error);
        } else {
            if self.credentials.current(&lease) {
                self.end_connection();
            }
            if engine.is_some() {
                self.act(Action::DiscardEngine);
            }
        }
    }

    /// Hands an order to the engine in use.
    pub fn play(&mut self, command: PlayerCommand)
        ensures
            final(self)@ == (if old(self)@.engine {
                old(self)@.acts(ActionModel::Play(command))
            } else {
                old(self)@.shows_error(NOT_SET_UP@)
            }),
    {
        if self.engine {
            self.act(Action::Play(command));
        } else {
            self.show_error(NOT_SET_UP.to_owned());
        }
    }

    /// Whether every counter can still go up `steps` times.
    pub fn has_room(&self, steps: u64) -> (room: bool)
        ensures
            room == self@.room(steps as int),
    {
        let left: u64 = u64::MAX - steps;
        self.credentials.shared <= left && self.credentials.personal <= left
            && self.credentials.playback <= left && self.authorization_attempt <= left
            && self.session <= left
    }

    /// Takes one command. What is to be done about it is added to the
    /// actions; `false` says that it was the last command.
    pub fn step(&mut self, command: Command, moment: Moment) -> (running: bool)
        requires
            old(self)@.room(2),
        ensures
            final(self)@ == old(self)@.step(command, moment),
            running == !(command is Shutdown),
            old(self)@.valid() ==> final(self)@.valid(),
    {
        proof {
            if self@.valid() {
                a_step_is_sound(self@, command, moment);
            }
        }
        match command {
            Command::CredentialsRestored { slot, lease, result } => {
                self.on_credentials_restored(slot, lease, result);
            },
            Command::SignIn => {
                self.sign_in(moment.personal_grant);
            },
            Command::CancelSignIn => {
                self.cancel_sign_in();
            },
            Command::SignOut => {
                self.sign_out();
            },
            Command::AuthorizePlayback => {
                self.authorize_playback();
            },
            Command::RestartEngine(config) => {
                self.engine_config = config;
                self.reconnect_engine(moment);
            },
            Command::Player(command) => {
                self.play(command);
            },
            Command::Api(request) => {
                self.dispatch(request);
            },
            Command::ApiFinished {
                generation,
                response,
                expired,
                shared_lease,
                personal_lease,
            } => {
                self.on_api_finished(generation, response, expired, shared_lease, personal_lease);
            },
            Command::Accent { url } => {
                self.act(Action::FetchAccent { url });
            },
            Command::Shutdown => {
                self.stop_engine();
                return false;
            },
            Command::WebSignedIn { source, token, lease, attempt } => {
                self.take_web_signed_in(source, *token, lease, attempt, moment);
            },
            Command::WebVerified { source, token, user, lease, attempt } => {
                self.take_web_verified(source, *token, *user, lease, attempt, moment);
            },
            Command::WebVerificationFailed { source, lease, attempt, error } => {
                self.take_web_verification_failed(source, lease, attempt, error, moment);
            },
            Command::SignInEnded { source, attempt } => {
                self.on_sign_in_ended(source, attempt, moment.personal_grant);
            },
            Command::PlaybackAuthEnded { attempt } => {
                self.finish_playback_authorization(attempt, moment.personal_grant);
            },
            Command::PlaybackAuthorized { access_token, lease, attempt } => {
                self.take_playback_authorized(access_token, lease, attempt, moment);
            },
            Command::EngineConnected { engine, error, lease } => {
                self.take_engine_connected(engine, error, lease, Ghost(moment));
            },
            Command::Reconnect => {
                self.reconnect_engine(moment);
            },
            Command::DiscoverReceivers => {
                self.act(Action::DiscoverReceivers);
            },
            Command::ActivateReceiver(receiver) => {
                self.activate_receiver(*receiver);
            },
            Command::CheckForUpdates { manual } => {
                self.act(Action::CheckForUpdates { manual });
            },
            Command::Lyrics(request) => {
                self.act(Action::FetchLyrics(*request));
            },
            Command::Rootlist => {
                self.fetch_rootlist();
            },
            Command::VerifyResume => {
                self.verify_resume(moment.interrupted.is_some());
            },
            Command::ConfigurePersonalWebApp(client_id) => {
                self.configure_personal_web_app(client_id, moment.personal_grant);
            },
            Command::LoadPlaylistCache { id, generation } => {
                self.load_playlist_cache(id, generation);
            },
            Command::StorePlaylistCache { id, snapshot, items, total, next_offset } => {
                self.store_playlist_cache(id, snapshot, items, total, next_offset);
            },
            Command::UserNames(ids) => {
                self.fetch_user_names(ids);
            },
            Command::SearchEditorialPlaylists { query, serial } => {
                self.fetch_editorial_playlists(query, serial);
            },
            Command::LoadLikedSongsCache { generation } => {
                self.load_liked_songs(generation);
            },
            Command::StoreLikedSongsCache(cache) => {
                self.store_liked_songs(cache);
            },
        }
        true
    }
}

}
