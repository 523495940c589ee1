//! What holds of every command a worker takes, whatever its state.

use vstd::prelude::*;

use crate::actions::ActionModel;
use crate::credentials::{
    names_account, slot_of, CredentialStore, Lease, Loaded, Slot, StorageError, StoredGrant,
    StoredToken,
};
use crate::events::{Command, ConnectedEngine, EventModel, LyricsRequest};
use crate::gateway::{ApiError, ApiSource, SessionModel};
use crate::model::{Moment, WorkerModel};
use crate::models::{EngineConfig, LikedSongs, PlayerCommand, PlaylistItem, Receiver, User};
use crate::requests::ApiRequest;
use crate::responses::ApiResponse;

verus! {

/// Whether no slot has gone back from `earlier` to `later`, and none moved on
/// more than `steps` times.
pub open spec fn store_advances(
    earlier: CredentialStore,
    later: CredentialStore,
    steps: int,
) -> bool {
    &&& earlier.shared <= later.shared <= earlier.shared + steps
    &&& earlier.personal <= later.personal <= earlier.personal + steps
    &&& earlier.playback <= later.playback <= earlier.playback + steps
}

/// Whether `later` can come after `earlier`: no counter has gone back, none
/// went up more than `steps` times, and a playback flow that has come up has a
/// number that was not in use.
pub open spec fn advances(earlier: WorkerModel, later: WorkerModel, steps: int) -> bool {
    &&& store_advances(earlier.credentials, later.credentials, steps)
    &&& earlier.authorization_attempt <= later.authorization_attempt
        <= earlier.authorization_attempt + steps
    &&& earlier.session <= later.session <= earlier.session + steps
    &&& later.playback_flow matches Some(attempt) ==> earlier.playback_flow == Some(attempt)
        || attempt > earlier.authorization_attempt
}

/// Whether an action that a step asked for is in order, for the state the
/// step found, the state it left and the account in force meanwhile.
pub open spec fn in_order(
    before: WorkerModel,
    after: WorkerModel,
    account: Option<Seq<char>>,
    action: ActionModel,
) -> bool {
    match action {
        ActionModel::ConnectEngine { credentials, config, lease } => {
            &&& credentials.username == account
            &&& after.premium != Some(false)
            &&& after.engine_busy
            &&& !before.connecting()
            &&& after.playback_flow is None
            &&& config == after.engine_config
            &&& lease == after.credentials.spec_lease(Slot::Playback)
        },
        ActionModel::SaveGrant { lease, grant } => {
            &&& names_account(grant, account)
            &&& after.engine
            &&& after.playback_grant == Some(grant)
            &&& lease == after.credentials.spec_lease(Slot::Playback)
        },
        ActionModel::ActivateReceiver { credentials, lease, .. } => {
            &&& credentials matches Some(grant) ==> grant.username == account
            &&& lease == after.credentials.spec_lease(Slot::Playback)
        },
        ActionModel::BeginSignIn { source, client_id, lease, attempt } => {
            &&& after.cancel_signin
            &&& after.authorizing_source == Some(source)
            &&& after.api.state(source) is Authorizing
            &&& attempt == after.authorization_attempt
            &&& lease == after.credentials.spec_lease(slot_of(source))
            &&& source == ApiSource::Personal ==> client_id is Some && client_id
                == after.web_client_id
        },
        ActionModel::BeginPlaybackAuthorization { lease, attempt } => {
            &&& after.cancel_signin
            &&& after.engine_busy
            &&& after.playback_flow == Some(attempt)
            &&& after.premium != Some(false)
            &&& attempt == after.authorization_attempt
            &&& lease == after.credentials.spec_lease(Slot::Playback)
        },
        ActionModel::VerifyToken { source, token, lease, attempt } => {
            &&& after.web_tokens.held(source) == Some(token)
            &&& after.api.state(source) is Authorizing
            &&& attempt == after.authorization_attempt
            &&& lease == after.credentials.spec_lease(slot_of(source))
        },
        ActionModel::Dispatch { generation, shared_lease, personal_lease, .. } => {
            &&& generation == after.session
            &&& shared_lease == after.credentials.spec_lease(Slot::Shared)
            &&& personal_lease == after.credentials.spec_lease(Slot::Personal)
        },
        ActionModel::ReadPlaylistCache { account_id, .. } => Some(account_id) == account,
        ActionModel::WritePlaylistCache { account_id, .. } => Some(account_id) == account,
        ActionModel::ReadLikedSongs { account_id, .. } => Some(account_id) == account,
        ActionModel::WriteLikedSongs(cache) => Some(cache.account_id@) == account,
        _ => true,
    }
}

/// Whether a step only added to the log, and what it added is in order.
pub open spec fn logs(before: WorkerModel, after: WorkerModel, account: Option<Seq<char>>) -> bool {
    &&& before.log.len() <= after.log.len()
    &&& forall|i: int| 0 <= i < before.log.len() ==> after.log[i] == before.log[i]
    &&& forall|i: int|
        before.log.len() <= i < after.log.len() ==> in_order(
            before,
            after,
            account,
            #[trigger] after.log[i],
        )
}

/// Whether the verified account is the same before and after, where there is
/// one both times.
pub open spec fn keeps_account(before: WorkerModel, after: WorkerModel) -> bool {
    before.api.account() is Some && after.api.account() is Some ==> before.api.account()
        == after.api.account()
}

/// Whether a step is sound: counters go forward, the log only grows and what
/// is added is in order, the state stays valid and the account does not change
/// hands.
pub open spec fn sound(
    before: WorkerModel,
    after: WorkerModel,
    account: Option<Seq<char>>,
) -> bool {
    &&& advances(before, after, 2)
    &&& logs(before, after, account)
    &&& after.valid()
    &&& keeps_account(before, after)
}

/// Whether a playback flow that was in flight before still is.
pub open spec fn holds_flow(before: WorkerModel, after: WorkerModel) -> bool {
    before.playback_flow is Some ==> after.playback_flow == before.playback_flow
}

/// Whether a command can end the playback flow with the number `attempt`: its
/// own report, or the listener giving up or signing out.
pub open spec fn ends_flow(command: Command, attempt: u64) -> bool {
    match command {
        Command::PlaybackAuthorized { .. } => true,
        Command::PlaybackAuthEnded { attempt: ended } => ended == attempt,
        Command::CancelSignIn | Command::SignOut => true,
        _ => false,
    }
}

impl WorkerModel {
    /// The account in force while a command is taken.
    pub open spec fn in_force(self, command: Command, moment: Moment) -> Option<Seq<char>> {
        match command {
            Command::WebVerified { source, user, lease, .. } => if self.credentials.holds(lease)
                && self.api.accepts(source, user.id@) {
                self.api.with_state(source, SessionModel::Ready { account: user.id@ }).account()
            } else {
                self.api.account()
            },
            Command::ApiFinished { .. } => self.step(command, moment).api.account(),
            _ => self.api.account(),
        }
    }
}

/// Every command a valid worker takes makes a sound step: its counters go
/// forward, what was asked stays asked, what it asks for is in order, it stays
/// valid, the account does not change hands, and a playback flow in flight
/// stays so unless the command can end it.
pub proof fn a_step_is_sound(worker: WorkerModel, command: Command, moment: Moment)
    requires
        worker.valid(),
        worker.room(2),
    ensures
        sound(worker, worker.step(command, moment), worker.in_force(command, moment)),
        worker.playback_flow matches Some(attempt) ==> ends_flow(command, attempt) || holds_flow(
            worker,
            worker.step(command, moment),
        ),
{
    match command {
        Command::CredentialsRestored { slot, lease, result } => {
            taking_restored_is_sound(worker, slot, lease, result, moment);
        },
        Command::SignIn => taking_sign_in_is_sound(worker, moment),
        Command::CancelSignIn => taking_cancel_is_sound(worker, moment),
        Command::SignOut => taking_sign_out_is_sound(worker, moment),
        Command::AuthorizePlayback => taking_authorize_is_sound(worker, moment),
        Command::RestartEngine(config) => taking_restart_is_sound(worker, config, moment),
        Command::Player(command) => taking_player_is_sound(worker, command, moment),
        Command::Api(request) => taking_api_is_sound(worker, request, moment),
        Command::ApiFinished { generation, response, expired, shared_lease, personal_lease } => {
            taking_answer_is_sound(
                worker,
                generation,
                response,
                expired,
                shared_lease,
                personal_lease,
                moment,
            );
        },
        Command::Accent { url } => taking_accent_is_sound(worker, url, moment),
        Command::Shutdown => taking_shutdown_is_sound(worker, moment),
        Command::WebSignedIn { source, token, lease, attempt } => {
            taking_signed_in_is_sound(worker, source, token, lease, attempt, moment);
        },
        Command::WebVerified { source, token, user, lease, attempt } => {
            taking_verified_is_sound(worker, source, token, user, lease, attempt, moment);
        },
        Command::WebVerificationFailed { source, lease, attempt, error } => {
            taking_failed_is_sound(worker, source, lease, attempt, error, moment);
        },
        Command::SignInEnded { source, attempt } => {
            taking_ended_is_sound(worker, source, attempt, moment);
        },
        Command::PlaybackAuthEnded { attempt } => {
            taking_playback_ended_is_sound(worker, attempt, moment);
        },
        Command::PlaybackAuthorized { access_token, lease, attempt } => {
            taking_playback_authorized_is_sound(worker, access_token, lease, attempt, moment);
        },
        Command::EngineConnected { engine, error, lease } => {
            taking_connected_is_sound(worker, engine, error, lease, moment);
        },
        Command::Reconnect => taking_reconnect_is_sound(worker, moment),
        Command::DiscoverReceivers => taking_discover_is_sound(worker, moment),
        Command::ActivateReceiver(receiver) => taking_activate_is_sound(worker, receiver, moment),
        Command::CheckForUpdates { manual } => taking_updates_is_sound(worker, manual, moment),
        Command::Lyrics(request) => taking_lyrics_is_sound(worker, request, moment),
        Command::Rootlist => taking_rootlist_is_sound(worker, moment),
        Command::VerifyResume => taking_verify_resume_is_sound(worker, moment),
        Command::ConfigurePersonalWebApp(client_id) => {
            taking_configure_is_sound(worker, client_id, moment);
        },
        Command::LoadPlaylistCache { id, generation } => {
            taking_load_playlist_is_sound(worker, id, generation, moment);
        },
        Command::StorePlaylistCache { id, snapshot, items, total, next_offset } => {
            taking_store_playlist_is_sound(worker, id, snapshot, items, total, next_offset, moment);
        },
        Command::UserNames(ids) => taking_user_names_is_sound(worker, ids, moment),
        Command::SearchEditorialPlaylists { query, serial } => {
            taking_editorial_is_sound(worker, query, serial, moment);
        },
        Command::LoadLikedSongsCache { generation } => {
            taking_load_liked_is_sound(worker, generation, moment);
        },
        Command::StoreLikedSongsCache(cache) => taking_store_liked_is_sound(worker, cache, moment),
    }
}

// ---- each event -------------------------------------------------------------

proof fn grant_is_sound(w: WorkerModel, slot: Slot, grant: Option<StoredGrant>)
    requires
        w.valid(),
    ensures
        ({
            let after = w.takes_grant(slot, grant);
            &&& sound(w, after, w.api.account())
            &&& advances(w, after, 0)
            &&& holds_flow(w, after)
            &&& opens_nothing(w, after)
        }),
{
}

/// Whether no browser flow was opened for an app.
spec fn opens_nothing(before: WorkerModel, after: WorkerModel) -> bool {
    forall|i: int|
        before.log.len() <= i < after.log.len() ==> !(#[trigger] after.log[i] is BeginSignIn)
}

/// What has been read settles: a slot that is empty closes its session, and
/// nothing else changes but what is shown.
proof fn settled_is_sound(w: WorkerModel, m: WorkerModel, account: Option<Seq<char>>, slot: Slot)
    requires
        sound(w, m, account),
        advances(w, m, 0),
        holds_flow(w, m),
        opens_nothing(w, m),
    ensures
        ({
            let after = m.closes_empty_slot(slot).settles_restore();
            &&& sound(w, after, account)
            &&& holds_flow(w, after)
        }),
{
    let after = m.closes_empty_slot(slot).settles_restore();
    assert forall|i: int| w.log.len() <= i < after.log.len() implies in_order(
        w,
        after,
        account,
        #[trigger] after.log[i],
    ) by {
        if i < m.log.len() {
            assert(after.log[i] == m.log[i]);
            assert(in_order(w, m, account, m.log[i]));
            assert(!(m.log[i] is BeginSignIn));
        }
    }
}

proof fn restore_is_sound(
    w: WorkerModel,
    slot: Slot,
    lease: Lease,
    result: Result<Loaded, StorageError>,
)
    requires
        w.valid(),
    ensures
        sound(w, w.on_credentials_restored(slot, lease, result), w.api.account()),
        holds_flow(w, w.on_credentials_restored(slot, lease, result)),
{
    let grant = match result {
        Ok(loaded) => loaded.grant,
        Err(_) => None,
    };
    let read = WorkerModel {
        restore_pending: w.restore_pending.without(slot),
        ..w
    }.shows_storage(result);
    let taken = read.takes_grant(slot, grant);
    let account = w.api.account();
    grant_is_sound(read, slot, grant);
    assert forall|i: int| w.log.len() <= i < taken.log.len() implies in_order(
        w,
        taken,
        account,
        #[trigger] taken.log[i],
    ) by {
        if i < read.log.len() {
            assert(taken.log[i] == read.log[i]);
        } else {
            assert(in_order(read, taken, account, taken.log[i]));
        }
    }
    assert(sound(w, taken, account));
    assert forall|i: int| w.log.len() <= i < taken.log.len() implies !(#[trigger] taken.log[i]
        is BeginSignIn) by {
        if i < read.log.len() {
            assert(taken.log[i] == read.log[i]);
        }
    }
    settled_is_sound(w, taken, account, slot);
}

proof fn sign_in_is_sound(w: WorkerModel, source: ApiSource, grant: Result<(), String>)
    requires
        w.valid(),
        w.room(1),
    ensures
        sound(w, w.sign_in_source(source, grant), w.api.account()),
        holds_flow(w, w.sign_in_source(source, grant)),
{
}

proof fn cancel_is_sound(w: WorkerModel)
    requires
        w.valid(),
        w.room(1),
    ensures
        sound(w, w.cancel_sign_in(), w.api.account()),
{
}

proof fn sign_out_is_sound(w: WorkerModel)
    requires
        w.valid(),
        w.room(1),
    ensures
        sound(w, w.sign_out(), w.api.account()),
{
}

proof fn authorize_is_sound(w: WorkerModel)
    requires
        w.valid(),
        w.room(1),
    ensures
        sound(w, w.authorize_playback(), w.api.account()),
        holds_flow(w, w.authorize_playback()),
{
}

proof fn reconnect_is_sound(w: WorkerModel, moment: Moment)
    requires
        w.valid(),
    ensures
        sound(w, w.reconnect_engine(moment), w.api.account()),
        holds_flow(w, w.reconnect_engine(moment)),
{
}

proof fn expired_is_sound(w: WorkerModel, source: ApiSource)
    requires
        w.valid(),
        w.room(1),
    ensures
        ({
            let after = w.on_grant_expired(source);
            &&& sound(w, after, w.api.account())
            &&& advances(w, after, 1)
            &&& only_emits(w, after)
        }),
{
}

proof fn notice_is_sound(w: WorkerModel, response: ApiResponse)
    requires
        w.valid(),
    ensures
        ({
            let after = w.notices_account(response).emits(EventModel::Api(response));
            &&& sound(w, after, w.api.account())
            &&& advances(w, after, 0)
            &&& holds_flow(w, after)
            &&& after.api == w.api
        }),
{
}

proof fn answer_is_sound(
    w: WorkerModel,
    generation: u64,
    response: ApiResponse,
    expired: Option<ApiSource>,
    shared_lease: Lease,
    personal_lease: Lease,
)
    requires
        w.valid(),
        w.room(1),
    ensures
        ({
            let after = w.on_api_finished(
                generation,
                response,
                expired,
                shared_lease,
                personal_lease,
            );
            sound(w, after, after.api.account()) && holds_flow(w, after)
        }),
{
    match expired {
        None => notice_is_sound(w, response),
        Some(source) => {
            let forgotten = w.on_grant_expired(source);
            expired_is_sound(w, source);
            notice_is_sound(forgotten, response);
            let after = forgotten.notices_account(response).emits(EventModel::Api(response));
            let account = after.api.account();
            assert forall|i: int| w.log.len() <= i < after.log.len() implies in_order(
                w,
                after,
                account,
                #[trigger] after.log[i],
            ) by {
                if i < forgotten.log.len() {
                    assert(after.log[i] == forgotten.log[i]);
                } else {
                    assert(in_order(forgotten, after, account, after.log[i]));
                }
            }
            assert(sound(w, after, account));
        },
    }
}

/// What the end of a browser flow leaves as it was, and what it may add.
spec fn only_opens_browser(before: WorkerModel, after: WorkerModel) -> bool {
    &&& after.premium == before.premium
    &&& after.engine_busy == before.engine_busy
    &&& after.playback_flow == before.playback_flow
    &&& after.engine_config == before.engine_config
    &&& after.credentials.playback == before.credentials.playback
    &&& after.api.account() is Some ==> after.api.account() == before.api.account()
    &&& forall|i: int|
        before.log.len() <= i < after.log.len() ==> (#[trigger] after.log[i] is Emit
            || after.log[i] is BeginSignIn)
}

proof fn finish_is_sound(w: WorkerModel, source: ApiSource, grant: Result<(), String>)
    requires
        w.valid(),
        w.room(1),
    ensures
        ({
            let after = w.finish_authorization(source, grant);
            &&& sound(w, after, w.api.account())
            &&& advances(w, after, 1)
            &&& only_opens_browser(w, after)
        }),
{
}

proof fn finish_playback_is_sound(w: WorkerModel, attempt: u64, grant: Result<(), String>)
    requires
        w.valid(),
        w.room(1),
    ensures
        sound(w, w.finish_playback_authorization(attempt, grant), w.api.account()),
{
}

/// Whether an action is one that taking a verified grant may ask for.
spec fn takes_account(action: ActionModel) -> bool {
    action is Emit || action is RememberToken || action is StopEngine || action is ConnectEngine
}

proof fn accept_is_sound(w: WorkerModel, source: ApiSource, client_id: Seq<char>, user: User)
    requires
        w.valid(),
        w.awaits(source, client_id),
        w.api.accepts(source, user.id@),
    ensures
        ({
            let account = w.api.with_state(
                source,
                SessionModel::Ready { account: user.id@ },
            ).account();
            let after = w.accepts_account(source, client_id, user);
            &&& sound(w, after, account)
            &&& advances(w, after, 0)
            &&& after.api.account() == account
            &&& holds_flow(w, after)
            &&& forall|i: int|
                w.log.len() <= i < after.log.len() ==> takes_account(#[trigger] after.log[i])
        }),
{
}

proof fn reject_is_sound(w: WorkerModel, source: ApiSource)
    requires
        w.valid(),
    ensures
        ({
            let after = w.rejects_account(source);
            &&& sound(w, after, w.api.account())
            &&& advances(w, after, 0)
            &&& only_emits(w, after)
        }),
{
}

/// Whether nothing but events, revocations and deletions was added, and
/// nothing that matters to what follows was changed.
spec fn only_emits(before: WorkerModel, after: WorkerModel) -> bool {
    &&& after.engine_busy == before.engine_busy
    &&& after.playback_flow == before.playback_flow
    &&& after.api.account() is Some ==> after.api.account() == before.api.account()
    &&& forall|i: int|
        before.log.len() <= i < after.log.len() ==> (#[trigger] after.log[i] is Emit
            || after.log[i] is Revoke || after.log[i] is DeleteGrant)
}

proof fn failed_is_sound(w: WorkerModel, source: ApiSource, error: ApiError)
    requires
        w.valid(),
        w.room(1),
    ensures
        ({
            let after = w.on_web_verification_failed(source, error);
            &&& sound(w, after, w.api.account())
            &&& advances(w, after, 1)
            &&& only_emits(w, after)
        }),
{
}

/// A flow that ends after a quiet step makes a sound step with it.
proof fn then_finish_is_sound(
    w: WorkerModel,
    m: WorkerModel,
    source: ApiSource,
    grant: Result<(), String>,
)
    requires
        w.room(2),
        sound(w, m, w.api.account()),
        advances(w, m, 1),
        only_emits(w, m),
    ensures
        sound(w, m.finish_authorization(source, grant), w.api.account()),
        holds_flow(w, m.finish_authorization(source, grant)),
{
    finish_is_sound(m, source, grant);
    let f = m.finish_authorization(source, grant);
    assert forall|i: int| w.log.len() <= i < f.log.len() implies in_order(
        w,
        f,
        w.api.account(),
        #[trigger] f.log[i],
    ) by {
        if i < m.log.len() {
            assert(f.log[i] == m.log[i]);
        }
    }
}

/// A flow that ends once its grant has been taken makes a sound step with it.
proof fn accept_then_finish_is_sound(
    w: WorkerModel,
    m: WorkerModel,
    account: Option<Seq<char>>,
    source: ApiSource,
    grant: Result<(), String>,
)
    requires
        w.room(1),
        sound(w, m, account),
        advances(w, m, 0),
        m.api.account() == account,
        holds_flow(w, m),
        forall|i: int| w.log.len() <= i < m.log.len() ==> takes_account(#[trigger] m.log[i]),
    ensures
        sound(w, m.finish_authorization(source, grant), account),
        holds_flow(w, m.finish_authorization(source, grant)),
{
    finish_is_sound(m, source, grant);
    let f = m.finish_authorization(source, grant);
    assert forall|i: int| w.log.len() <= i < f.log.len() implies in_order(
        w,
        f,
        account,
        #[trigger] f.log[i],
    ) by {
        if i < m.log.len() {
            assert(f.log[i] == m.log[i]);
            assert(in_order(w, m, account, m.log[i]));
            assert(takes_account(m.log[i]));
        }
    }
}

proof fn verified_is_sound(
    w: WorkerModel,
    source: ApiSource,
    client_id: Seq<char>,
    user: User,
    grant: Result<(), String>,
)
    requires
        w.valid(),
        w.room(2),
    ensures
        sound(
            w,
            w.on_web_verified(source, client_id, user, grant),
            if w.api.accepts(source, user.id@) {
                w.api.with_state(source, SessionModel::Ready { account: user.id@ }).account()
            } else {
                w.api.account()
            },
        ),
        holds_flow(w, w.on_web_verified(source, client_id, user, grant)),
{
    if w.awaits(source, client_id) {
        if w.api.accepts(source, user.id@) {
            let account = w.api.with_state(
                source,
                SessionModel::Ready { account: user.id@ },
            ).account();
            accept_is_sound(w, source, client_id, user);
            accept_then_finish_is_sound(
                w,
                w.accepts_account(source, client_id, user),
                account,
                source,
                grant,
            );
        } else {
            reject_is_sound(w, source);
            then_finish_is_sound(w, w.rejects_account(source), source, grant);
        }
    }
}

proof fn ended_is_sound(
    w: WorkerModel,
    source: ApiSource,
    attempt: u64,
    grant: Result<(), String>,
)
    requires
        w.valid(),
        w.room(1),
    ensures
        sound(w, w.on_sign_in_ended(source, attempt, grant), w.api.account()),
        holds_flow(w, w.on_sign_in_ended(source, attempt, grant)),
{
}

proof fn configure_is_sound(
    w: WorkerModel,
    client_id: Option<Seq<char>>,
    grant: Result<(), String>,
)
    requires
        w.valid(),
        w.room(2),
    ensures
        sound(w, w.configure_personal_web_app(client_id, grant), w.api.account()),
        holds_flow(w, w.configure_personal_web_app(client_id, grant)),
{
}

proof fn connected_is_sound(
    w: WorkerModel,
    engine: Option<ConnectedEngine>,
    error: Option<String>,
)
    requires
        w.valid(),
    ensures
        sound(w, w.on_engine_connected(engine, error), w.api.account()),
        holds_flow(w, w.on_engine_connected(engine, error)),
{
}

// ---- each command -----------------------------------------------------------

proof fn taking_restored_is_sound(
    w: WorkerModel,
    slot: Slot,
    lease: Lease,
    result: Result<Loaded, StorageError>,
    moment: Moment,
)
    requires
        w.valid(),
        w.room(2),
    ensures
        ({
            let command = Command::CredentialsRestored { slot, lease, result };
            &&& sound(w, w.step(command, moment), w.in_force(command, moment))
            &&& holds_flow(w, w.step(command, moment))
        }),
{
    restore_is_sound(w, slot, lease, result);
}

proof fn taking_sign_in_is_sound(w: WorkerModel, moment: Moment)
    requires
        w.valid(),
        w.room(2),
    ensures
        sound(w, w.step(Command::SignIn, moment), w.in_force(Command::SignIn, moment)),
        holds_flow(w, w.step(Command::SignIn, moment)),
{
    sign_in_is_sound(w, ApiSource::Shared, moment.personal_grant);
}

proof fn taking_cancel_is_sound(w: WorkerModel, moment: Moment)
    requires
        w.valid(),
        w.room(2),
    ensures
        sound(w, w.step(Command::CancelSignIn, moment), w.in_force(Command::CancelSignIn, moment)),
{
    cancel_is_sound(w);
}

proof fn taking_sign_out_is_sound(w: WorkerModel, moment: Moment)
    requires
        w.valid(),
        w.room(2),
    ensures
        sound(w, w.step(Command::SignOut, moment), w.in_force(Command::SignOut, moment)),
{
    sign_out_is_sound(w);
}

proof fn taking_authorize_is_sound(w: WorkerModel, moment: Moment)
    requires
        w.valid(),
        w.room(2),
    ensures
        ({
            let command = Command::AuthorizePlayback;
            &&& sound(w, w.step(command, moment), w.in_force(command, moment))
            &&& holds_flow(w, w.step(command, moment))
        }),
{
    authorize_is_sound(w);
}

proof fn taking_restart_is_sound(w: WorkerModel, config: EngineConfig, moment: Moment)
    requires
        w.valid(),
        w.room(2),
    ensures
        ({
            let command = Command::RestartEngine(config);
            &&& sound(w, w.step(command, moment), w.in_force(command, moment))
            &&& holds_flow(w, w.step(command, moment))
        }),
{
    reconnect_is_sound(WorkerModel { engine_config: config, ..w }, moment);
}

proof fn taking_player_is_sound(w: WorkerModel, command: PlayerCommand, moment: Moment)
    requires
        w.valid(),
        w.room(2),
    ensures
        ({
            let command = Command::Player(command);
            &&& sound(w, w.step(command, moment), w.in_force(command, moment))
            &&& holds_flow(w, w.step(command, moment))
        }),
{
}

proof fn taking_api_is_sound(w: WorkerModel, request: ApiRequest, moment: Moment)
    requires
        w.valid(),
        w.room(2),
    ensures
        sound(w, w.step(Command::Api(request), moment), w.in_force(Command::Api(request), moment)),
        holds_flow(w, w.step(Command::Api(request), moment)),
{
}

proof fn taking_answer_is_sound(
    w: WorkerModel,
    generation: u64,
    response: Box<ApiResponse>,
    expired: Option<ApiSource>,
    shared_lease: Lease,
    personal_lease: Lease,
    moment: Moment,
)
    requires
        w.valid(),
        w.room(2),
    ensures
        ({
            let command = Command::ApiFinished {
                generation,
                response,
                expired,
                shared_lease,
                personal_lease,
            };
            &&& sound(w, w.step(command, moment), w.in_force(command, moment))
            &&& holds_flow(w, w.step(command, moment))
        }),
{
    answer_is_sound(w, generation, *response, expired, shared_lease, personal_lease);
}

proof fn taking_accent_is_sound(w: WorkerModel, url: String, moment: Moment)
    requires
        w.valid(),
        w.room(2),
    ensures
        ({
            let command = Command::Accent { url };
            &&& sound(w, w.step(command, moment), w.in_force(command, moment))
            &&& holds_flow(w, w.step(command, moment))
        }),
{
}

proof fn taking_shutdown_is_sound(w: WorkerModel, moment: Moment)
    requires
        w.valid(),
        w.room(2),
    ensures
        sound(w, w.step(Command::Shutdown, moment), w.in_force(Command::Shutdown, moment)),
        holds_flow(w, w.step(Command::Shutdown, moment)),
{
}

proof fn taking_signed_in_is_sound(
    w: WorkerModel,
    source: ApiSource,
    token: Box<StoredToken>,
    lease: Lease,
    attempt: u64,
    moment: Moment,
)
    requires
        w.valid(),
        w.room(2),
    ensures
        ({
            let command = Command::WebSignedIn { source, token, lease, attempt };
            &&& sound(w, w.step(command, moment), w.in_force(command, moment))
            &&& holds_flow(w, w.step(command, moment))
        }),
{
    finish_is_sound(w, source, moment.personal_grant);
}

proof fn taking_verified_is_sound(
    w: WorkerModel,
    source: ApiSource,
    token: Box<StoredToken>,
    user: Box<User>,
    lease: Lease,
    attempt: u64,
    moment: Moment,
)
    requires
        w.valid(),
        w.room(2),
    ensures
        ({
            let command = Command::WebVerified { source, token, user, lease, attempt };
            &&& sound(w, w.step(command, moment), w.in_force(command, moment))
            &&& holds_flow(w, w.step(command, moment))
        }),
{
    verified_is_sound(w, source, token@.client_id, *user, moment.personal_grant);
    finish_is_sound(w, source, moment.personal_grant);
}

proof fn taking_failed_is_sound(
    w: WorkerModel,
    source: ApiSource,
    lease: Lease,
    attempt: u64,
    error: ApiError,
    moment: Moment,
)
    requires
        w.valid(),
        w.room(2),
    ensures
        ({
            let command = Command::WebVerificationFailed { source, lease, attempt, error };
            &&& sound(w, w.step(command, moment), w.in_force(command, moment))
            &&& holds_flow(w, w.step(command, moment))
        }),
{
    failed_is_sound(w, source, error);
    finish_is_sound(w, source, moment.personal_grant);
    then_finish_is_sound(
        w,
        w.on_web_verification_failed(source, error),
        source,
        moment.personal_grant,
    );
}

proof fn taking_ended_is_sound(w: WorkerModel, source: ApiSource, attempt: u64, moment: Moment)
    requires
        w.valid(),
        w.room(2),
    ensures
        ({
            let command = Command::SignInEnded { source, attempt };
            &&& sound(w, w.step(command, moment), w.in_force(command, moment))
            &&& holds_flow(w, w.step(command, moment))
        }),
{
    ended_is_sound(w, source, attempt, moment.personal_grant);
}

proof fn taking_playback_ended_is_sound(w: WorkerModel, attempt: u64, moment: Moment)
    requires
        w.valid(),
        w.room(2),
    ensures
        ({
            let command = Command::PlaybackAuthEnded { attempt };
            sound(w, w.step(command, moment), w.in_force(command, moment))
        }),
        w.playback_flow is Some && w.playback_flow != Some(attempt) ==> holds_flow(
            w,
            w.step(Command::PlaybackAuthEnded { attempt }, moment),
        ),
{
    finish_playback_is_sound(w, attempt, moment.personal_grant);
}

proof fn taking_playback_authorized_is_sound(
    w: WorkerModel,
    access_token: String,
    lease: Lease,
    attempt: u64,
    moment: Moment,
)
    requires
        w.valid(),
        w.room(2),
    ensures
        ({
            let command = Command::PlaybackAuthorized { access_token, lease, attempt };
            sound(w, w.step(command, moment), w.in_force(command, moment))
        }),
{
    finish_playback_is_sound(w, attempt, moment.personal_grant);
}

proof fn taking_connected_is_sound(
    w: WorkerModel,
    engine: Option<ConnectedEngine>,
    error: Option<String>,
    lease: Lease,
    moment: Moment,
)
    requires
        w.valid(),
        w.room(2),
    ensures
        ({
            let command = Command::EngineConnected { engine, error, lease };
            &&& sound(w, w.step(command, moment), w.in_force(command, moment))
            &&& holds_flow(w, w.step(command, moment))
        }),
{
    connected_is_sound(w, engine, error);
}

proof fn taking_reconnect_is_sound(w: WorkerModel, moment: Moment)
    requires
        w.valid(),
        w.room(2),
    ensures
        sound(w, w.step(Command::Reconnect, moment), w.in_force(Command::Reconnect, moment)),
        holds_flow(w, w.step(Command::Reconnect, moment)),
{
    reconnect_is_sound(w, moment);
}

proof fn taking_discover_is_sound(w: WorkerModel, moment: Moment)
    requires
        w.valid(),
        w.room(2),
    ensures
        ({
            let command = Command::DiscoverReceivers;
            &&& sound(w, w.step(command, moment), w.in_force(command, moment))
            &&& holds_flow(w, w.step(command, moment))
        }),
{
}

proof fn taking_activate_is_sound(w: WorkerModel, receiver: Box<Receiver>, moment: Moment)
    requires
        w.valid(),
        w.room(2),
    ensures
        ({
            let command = Command::ActivateReceiver(receiver);
            &&& sound(w, w.step(command, moment), w.in_force(command, moment))
            &&& holds_flow(w, w.step(command, moment))
        }),
{
}

proof fn taking_updates_is_sound(w: WorkerModel, manual: bool, moment: Moment)
    requires
        w.valid(),
        w.room(2),
    ensures
        ({
            let command = Command::CheckForUpdates { manual };
            &&& sound(w, w.step(command, moment), w.in_force(command, moment))
            &&& holds_flow(w, w.step(command, moment))
        }),
{
}

proof fn taking_lyrics_is_sound(w: WorkerModel, request: Box<LyricsRequest>, moment: Moment)
    requires
        w.valid(),
        w.room(2),
    ensures
        ({
            let command = Command::Lyrics(request);
            &&& sound(w, w.step(command, moment), w.in_force(command, moment))
            &&& holds_flow(w, w.step(command, moment))
        }),
{
}

proof fn taking_rootlist_is_sound(w: WorkerModel, moment: Moment)
    requires
        w.valid(),
        w.room(2),
    ensures
        sound(w, w.step(Command::Rootlist, moment), w.in_force(Command::Rootlist, moment)),
        holds_flow(w, w.step(Command::Rootlist, moment)),
{
}

proof fn taking_verify_resume_is_sound(w: WorkerModel, moment: Moment)
    requires
        w.valid(),
        w.room(2),
    ensures
        sound(w, w.step(Command::VerifyResume, moment), w.in_force(Command::VerifyResume, moment)),
        holds_flow(w, w.step(Command::VerifyResume, moment)),
{
}

proof fn taking_configure_is_sound(w: WorkerModel, client_id: Option<String>, moment: Moment)
    requires
        w.valid(),
        w.room(2),
    ensures
        ({
            let command = Command::ConfigurePersonalWebApp(client_id);
            &&& sound(w, w.step(command, moment), w.in_force(command, moment))
            &&& holds_flow(w, w.step(command, moment))
        }),
{
    configure_is_sound(w, client_id.deep_view(), moment.personal_grant);
}

proof fn taking_load_playlist_is_sound(w: WorkerModel, id: String, generation: u64, moment: Moment)
    requires
        w.valid(),
        w.room(2),
    ensures
        ({
            let command = Command::LoadPlaylistCache { id, generation };
            &&& sound(w, w.step(command, moment), w.in_force(command, moment))
            &&& holds_flow(w, w.step(command, moment))
        }),
{
}

proof fn taking_store_playlist_is_sound(
    w: WorkerModel,
    id: String,
    snapshot: String,
    items: Vec<PlaylistItem>,
    total: u32,
    next_offset: Option<u32>,
    moment: Moment,
)
    requires
        w.valid(),
        w.room(2),
    ensures
        ({
            let command = Command::StorePlaylistCache { id, snapshot, items, total, next_offset };
            &&& sound(w, w.step(command, moment), w.in_force(command, moment))
            &&& holds_flow(w, w.step(command, moment))
        }),
{
}

proof fn taking_user_names_is_sound(w: WorkerModel, ids: Vec<String>, moment: Moment)
    requires
        w.valid(),
        w.room(2),
    ensures
        ({
            let command = Command::UserNames(ids);
            &&& sound(w, w.step(command, moment), w.in_force(command, moment))
            &&& holds_flow(w, w.step(command, moment))
        }),
{
}

proof fn taking_editorial_is_sound(w: WorkerModel, query: String, serial: u64, moment: Moment)
    requires
        w.valid(),
        w.room(2),
    ensures
        ({
            let command = Command::SearchEditorialPlaylists { query, serial };
            &&& sound(w, w.step(command, moment), w.in_force(command, moment))
            &&& holds_flow(w, w.step(command, moment))
        }),
{
}

proof fn taking_load_liked_is_sound(w: WorkerModel, generation: u64, moment: Moment)
    requires
        w.valid(),
        w.room(2),
    ensures
        ({
            let command = Command::LoadLikedSongsCache { generation };
            &&& sound(w, w.step(command, moment), w.in_force(command, moment))
            &&& holds_flow(w, w.step(command, moment))
        }),
{
}

proof fn taking_store_liked_is_sound(w: WorkerModel, cache: LikedSongs, moment: Moment)
    requires
        w.valid(),
        w.room(2),
    ensures
        ({
            let command = Command::StoreLikedSongsCache(cache);
            &&& sound(w, w.step(command, moment), w.in_force(command, moment))
            &&& holds_flow(w, w.step(command, moment))
        }),
{
}

}
