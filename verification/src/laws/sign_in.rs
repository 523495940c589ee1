//! Signing in: what a flow needs to complete, and what cannot disturb a
//! session.

use vstd::prelude::*;

use crate::actions::ActionModel;
use crate::credentials::{slot_of, Lease, Loaded, Slot, StorageError, StoredToken};
use crate::events::{AuthModel, Command, EventModel};
use crate::gateway::{other, ApiError, ApiSource, SessionModel};
use crate::laws::step::a_step_is_sound;
use crate::model::{rejection, Moment, WorkerModel};
use crate::models::{EngineConfig, User};
use crate::responses::ApiResponse;

verus! {

/// An account, once verified, is never replaced by another one directly: it
/// has to be given up first.
pub proof fn the_account_never_changes_hands(worker: WorkerModel, command: Command, moment: Moment)
    requires
        worker.valid(),
        worker.room(2),
        worker.api.account() is Some,
        worker.step(command, moment).api.account() is Some,
    ensures
        worker.step(command, moment).api.account() == worker.api.account(),
{
    a_step_is_sound(worker, command, moment);
}

/// A sign-in that opened the browser completes with the grant and the account
/// it brings, whatever came before: nothing needs to be restarted.
pub proof fn a_sign_in_completes(
    worker: WorkerModel,
    token: StoredToken,
    user: User,
    asked: Moment,
    granted: Moment,
    verified: Moment,
)
    requires
        worker.valid(),
        worker.room(2),
        !worker.cancel_signin,
        worker.api.accepts(ApiSource::Shared, user.id@),
    ensures
        ({
            let opened = worker.step(Command::SignIn, asked);
            let lease = opened.credentials.spec_lease(Slot::Shared);
            let attempt = opened.authorization_attempt;
            let held = opened.step(
                Command::WebSignedIn {
                    source: ApiSource::Shared,
                    token: Box::new(token),
                    lease,
                    attempt,
                },
                granted,
            );
            let done = held.step(
                Command::WebVerified {
                    source: ApiSource::Shared,
                    token: Box::new(token),
                    user: Box::new(user),
                    lease,
                    attempt,
                },
                verified,
            );
            &&& opened.log == worker.log.push(
                ActionModel::BeginSignIn {
                    source: ApiSource::Shared,
                    client_id: None,
                    lease,
                    attempt,
                },
            )
            &&& held.log == opened.log.push(
                ActionModel::VerifyToken {
                    source: ApiSource::Shared,
                    token: token@,
                    lease,
                    attempt,
                },
            )
            &&& done.signed_in
            &&& done.api.shared == SessionModel::Ready { account: user.id@ }
            &&& done.api.account() == Some(user.id@)
            &&& done.web_tokens.shared == Some(token@)
            &&& done.premium == user.spec_premium()
            &&& done.log.contains(
                ActionModel::RememberToken { source: ApiSource::Shared, lease },
            )
        }),
{
    let opened = worker.step(Command::SignIn, asked);
    assert(opened == worker.opens_browser(ApiSource::Shared));
    let lease = opened.credentials.spec_lease(Slot::Shared);
    let attempt = opened.authorization_attempt;
    let held = opened.step(
        Command::WebSignedIn { source: ApiSource::Shared, token: Box::new(token), lease, attempt },
        granted,
    );
    assert(held == opened.on_web_signed_in(ApiSource::Shared, token@));
    verified_shared_sign_in(held, token@.client_id, user, verified.personal_grant);
}

proof fn verified_shared_sign_in(
    held: WorkerModel,
    client_id: Seq<char>,
    user: User,
    grant: Result<(), String>,
)
    requires
        held.api.shared is Authorizing,
        held.api.accepts(ApiSource::Shared, user.id@),
        held.web_tokens.shared is Some,
        held.pending_authorization != Some(ApiSource::Shared),
    ensures
        ({
            let done = held.on_web_verified(ApiSource::Shared, client_id, user, grant);
            &&& done.signed_in
            &&& done.api.shared == SessionModel::Ready { account: user.id@ }
            &&& done.web_tokens == held.web_tokens
            &&& done.premium == user.spec_premium()
            &&& done.log.contains(
                ActionModel::RememberToken {
                    source: ApiSource::Shared,
                    lease: held.credentials.spec_lease(Slot::Shared),
                },
            )
        }),
{
    let done = held.on_web_verified(ApiSource::Shared, client_id, user, grant);
    assert(done.log[held.log.len() as int] == (ActionModel::RememberToken {
        source: ApiSource::Shared,
        lease: held.credentials.spec_lease(Slot::Shared),
    }));
}

/// A personal app that is added while no browser flow is open is signed in to,
/// and announced once its grant is verified for the account in force.
pub proof fn adding_a_personal_app_completes(
    worker: WorkerModel,
    client_id: String,
    token: StoredToken,
    user: User,
    asked: Moment,
    granted: Moment,
    verified: Moment,
)
    requires
        worker.valid(),
        worker.room(3),
        !worker.cancel_signin,
        worker.pending_authorization is None,
        asked.personal_grant is Ok,
        token.client_id@ == client_id@,
        worker.api.accepts(ApiSource::Personal, user.id@),
    ensures
        ({
            let opened = worker.step(Command::ConfigurePersonalWebApp(Some(client_id)), asked);
            let lease = opened.credentials.spec_lease(Slot::Personal);
            let attempt = opened.authorization_attempt;
            let held = opened.step(
                Command::WebSignedIn {
                    source: ApiSource::Personal,
                    token: Box::new(token),
                    lease,
                    attempt,
                },
                granted,
            );
            let done = held.step(
                Command::WebVerified {
                    source: ApiSource::Personal,
                    token: Box::new(token),
                    user: Box::new(user),
                    lease,
                    attempt,
                },
                verified,
            );
            &&& opened.log.last() == ActionModel::BeginSignIn {
                source: ApiSource::Personal,
                client_id: Some(client_id@),
                lease,
                attempt,
            }
            &&& held.log.last() is VerifyToken
            &&& done.signed_in && !done.cancel_signin
            &&& done.api.personal == SessionModel::Ready { account: user.id@ }
            &&& done.api.shared == worker.api.shared
            &&& done.web_tokens.personal == Some(token@)
            &&& done.log.contains(app_announcement(client_id@))
        }),
{
    let opened = worker.configure_personal_web_app(Some(client_id@), asked.personal_grant);
    assert(worker.step(Command::ConfigurePersonalWebApp(Some(client_id)), asked) == opened);
    let lease = opened.credentials.spec_lease(Slot::Personal);
    let attempt = opened.authorization_attempt;
    let source = ApiSource::Personal;
    let held = opened.on_web_signed_in(source, token@);
    assert(opened.step(
        Command::WebSignedIn { source, token: Box::new(token), lease, attempt },
        granted,
    ) == held);
    verified_personal_sign_in(held, client_id@, user, verified.personal_grant);
    assert(held.step(
        Command::WebVerified {
            source,
            token: Box::new(token),
            user: Box::new(user),
            lease,
            attempt,
        },
        verified,
    ) == held.on_web_verified(source, client_id@, user, verified.personal_grant));
}

/// The event that says which personal app is in use.
pub open spec fn app_announcement(client_id: Seq<char>) -> ActionModel {
    ActionModel::Emit(EventModel::WebApp { client_id: Some(client_id) })
}

proof fn verified_personal_sign_in(
    held: WorkerModel,
    client_id: Seq<char>,
    user: User,
    grant: Result<(), String>,
)
    requires
        held.api.personal is Authorizing,
        held.api.accepts(ApiSource::Personal, user.id@),
        held.web_tokens.personal is Some,
        held.is_personal_app(client_id),
        held.authorizing_source == Some(ApiSource::Personal),
        held.pending_authorization is None,
    ensures
        ({
            let done = held.on_web_verified(ApiSource::Personal, client_id, user, grant);
            &&& done.signed_in && !done.cancel_signin
            &&& done.api.personal == SessionModel::Ready { account: user.id@ }
            &&& done.api.shared == held.api.shared
            &&& done.web_tokens == held.web_tokens
            &&& done.log.contains(app_announcement(client_id))
        }),
{
    let done = held.on_web_verified(ApiSource::Personal, client_id, user, grant);
    assert(done.log[held.log.len() + 1int] == app_announcement(client_id));
}

/// A personal app that waits for the browser gets it as soon as the flow that
/// is open reports its end.
pub proof fn a_waiting_app_gets_the_browser(
    worker: WorkerModel,
    source: ApiSource,
    moment: Moment,
)
    requires
        worker.valid(),
        worker.room(1),
        worker.pending_authorization is Some,
        worker.authorizing_source == Some(source),
        moment.personal_grant is Ok,
    ensures
        ({
            let attempt = worker.authorization_attempt;
            let after = worker.step(Command::SignInEnded { source, attempt }, moment);
            &&& after.pending_authorization is None
            &&& after.cancel_signin
            &&& after.authorizing_source == Some(ApiSource::Personal)
            &&& after.log.last() matches ActionModel::BeginSignIn { source: of, client_id, .. }
            &&& of == ApiSource::Personal
            &&& client_id == worker.web_client_id
        }),
{
    let attempt = worker.authorization_attempt;
    assert(worker.step(Command::SignInEnded { source, attempt }, moment)
        == worker.on_sign_in_ended(source, attempt, moment.personal_grant));
}

/// The slot of the grant that a sign-in result is about.
pub open spec fn grant_slot(result: Command) -> Option<Slot> {
    match result {
        Command::WebSignedIn { lease, .. } => Some(lease.slot),
        Command::WebVerified { lease, .. } => Some(lease.slot),
        Command::WebVerificationFailed { lease, .. } => Some(lease.slot),
        _ => None,
    }
}

/// A new browser flow overtakes every earlier one for the same app: grants,
/// verdicts and failures that were still under way are not heard any more.
pub proof fn a_new_flow_overtakes_earlier_ones(
    worker: WorkerModel,
    source: ApiSource,
    result: Command,
)
    requires
        worker.room(1),
        worker.may_have_started(result),
        grant_slot(result) == Some(slot_of(source)),
    ensures
        worker.opens_browser(source).overtaken(result),
{
}

/// Whichever app is verified first signs the listener in, while the other may
/// still be waiting; the second one does not announce them again.
pub proof fn either_app_signs_the_listener_in(
    worker: WorkerModel,
    source: ApiSource,
    token: StoredToken,
    user: User,
    lease: Lease,
    attempt: u64,
    moment: Moment,
)
    requires
        worker.valid(),
        worker.room(2),
        worker.awaits(source, token@.client_id),
        worker.credentials.holds(lease),
        worker.api.accepts(source, user.id@),
    ensures
        ({
            let after = worker.step(
                Command::WebVerified {
                    source,
                    token: Box::new(token),
                    user: Box::new(user),
                    lease,
                    attempt,
                },
                moment,
            );
            &&& after.signed_in
            &&& worker.signed_in ==> forall|i: int|
                worker.log.len() <= i < after.log.len() ==> !(#[trigger] after.log[i] matches
                    ActionModel::Emit(EventModel::Auth(_)))
            &&& !worker.signed_in ==> after.log.contains(announcement(user)) && after.premium
                == user.spec_premium()
        }),
{
    let accepted = worker.accepts_account(source, token@.client_id, user);
    let after = accepted.finish_authorization(source, moment.personal_grant);
    assert(worker.step(
        Command::WebVerified {
            source,
            token: Box::new(token),
            user: Box::new(user),
            lease,
            attempt,
        },
        moment,
    ) == after);
    accepting_announces_once(worker, source, token@.client_id, user);
    ending_a_flow_keeps_grants(accepted, source, moment.personal_grant);
    if !worker.signed_in {
        let at = accepted.log.index_of(announcement(user));
        assert(after.log[at] == accepted.log[at]);
    } else {
        assert forall|i: int| worker.log.len() <= i < after.log.len() implies !(
        #[trigger] after.log[i] matches ActionModel::Emit(EventModel::Auth(_))) by {
            if i < accepted.log.len() {
                assert(after.log[i] == accepted.log[i]);
            }
        }
    }
}

/// The event that says who is signed in.
pub open spec fn announcement(user: User) -> ActionModel {
    ActionModel::Emit(EventModel::Auth(AuthModel::Connected { username: user.spec_name() }))
}

proof fn accepting_announces_once(
    worker: WorkerModel,
    source: ApiSource,
    client_id: Seq<char>,
    user: User,
)
    ensures
        ({
            let after = worker.accepts_account(source, client_id, user);
            &&& after.signed_in
            &&& after.credentials == worker.credentials
            &&& after.authorization_attempt == worker.authorization_attempt
            &&& after.session == worker.session
            &&& worker.log.len() <= after.log.len()
            &&& worker.signed_in ==> forall|i: int|
                worker.log.len() <= i < after.log.len() ==> !(#[trigger] after.log[i] matches
                    ActionModel::Emit(EventModel::Auth(_)))
            &&& !worker.signed_in ==> after.log.contains(announcement(user)) && after.premium
                == user.spec_premium()
        }),
{
    let after = worker.accepts_account(source, client_id, user);
    if !worker.signed_in {
        let stored = if worker.web_tokens.held(source) is Some {
            1int
        } else {
            0
        };
        let announced = if source == ApiSource::Personal {
            1int
        } else {
            0
        };
        assert(after.log[worker.log.len() + stored + announced] == announcement(user));
    }
}

/// Whether an app's grant has been given up: none is held, its session is not
/// ready, it is deleted from storage, and no earlier lease on it holds.
pub open spec fn given_up(before: WorkerModel, after: WorkerModel, source: ApiSource) -> bool {
    &&& after.web_tokens.held(source) is None
    &&& !(after.api.state(source) is Ready)
    &&& exists|i: int|
        before.log.len() <= i < after.log.len() && (#[trigger] after.log[i] matches
            ActionModel::DeleteGrant { lease } && lease.slot == slot_of(source))
    &&& forall|lease: Lease|
        lease.slot == slot_of(source) && #[trigger] before.credentials.issued(lease)
            ==> !after.credentials.holds(lease)
}

/// An expired grant is given up when its verification says so, and nothing of
/// the other app's.
pub proof fn an_expired_verification_gives_the_grant_up(
    worker: WorkerModel,
    source: ApiSource,
    lease: Lease,
    attempt: u64,
    api_source: ApiSource,
    moment: Moment,
)
    requires
        worker.valid(),
        worker.room(2),
        worker.credentials.holds(lease),
    ensures
        ({
            let after = worker.step(
                Command::WebVerificationFailed {
                    source,
                    lease,
                    attempt,
                    error: ApiError::SignInExpired { api_source },
                },
                moment,
            );
            &&& given_up(worker, after, source)
            &&& after.web_tokens.held(other(source)) == worker.web_tokens.held(other(source))
            &&& source == ApiSource::Shared ==> !after.signed_in
        }),
{
    let error = ApiError::SignInExpired { api_source };
    let heard = worker.on_web_verification_failed(source, error);
    assert(heard.log[worker.log.len() + 1int] is DeleteGrant);
    let after = worker.step(
        Command::WebVerificationFailed { source, lease, attempt, error },
        moment,
    );
    ending_a_flow_keeps_grants(heard, source, moment.personal_grant);
    assert(after.log[worker.log.len() + 1int] == heard.log[worker.log.len() + 1int]);
}

proof fn ending_a_flow_keeps_grants(
    worker: WorkerModel,
    source: ApiSource,
    grant: Result<(), String>,
)
    requires
        worker.room(1),
    ensures
        ({
            let after = worker.finish_authorization(source, grant);
            &&& after.web_tokens == worker.web_tokens
            &&& after.signed_in == worker.signed_in
            &&& after.premium == worker.premium
            &&& worker.log.len() <= after.log.len()
            &&& forall|i: int| 0 <= i < worker.log.len() ==> after.log[i] == worker.log[i]
            &&& forall|i: int|
                worker.log.len() <= i < after.log.len() ==> !(#[trigger] after.log[i] matches
                    ActionModel::Emit(EventModel::Auth(_)))
            &&& worker.credentials.shared <= after.credentials.shared
            &&& worker.credentials.personal <= after.credentials.personal
            &&& worker.credentials.playback <= after.credentials.playback
            &&& forall|app: ApiSource|
                !(worker.api.state(app) is Ready) ==> !(#[trigger] after.api.state(app) is Ready)
        }),
{
}

/// An expired grant is given up when an answer of its own session says so,
/// and nothing of the other app's.
pub proof fn an_expired_answer_gives_the_grant_up(
    worker: WorkerModel,
    source: ApiSource,
    response: ApiResponse,
    shared_lease: Lease,
    personal_lease: Lease,
    moment: Moment,
)
    requires
        worker.valid(),
        worker.room(2),
        worker.credentials.holds(
            if source == ApiSource::Shared {
                shared_lease
            } else {
                personal_lease
            },
        ),
    ensures
        ({
            let after = worker.step(
                Command::ApiFinished {
                    generation: worker.session,
                    response: Box::new(response),
                    expired: Some(source),
                    shared_lease,
                    personal_lease,
                },
                moment,
            );
            &&& given_up(worker, after, source)
            &&& after.web_tokens.held(other(source)) == worker.web_tokens.held(other(source))
            &&& source == ApiSource::Shared ==> !after.signed_in
        }),
{
    let after = worker.on_api_finished(
        worker.session,
        response,
        Some(source),
        shared_lease,
        personal_lease,
    );
    assert(after.log[worker.log.len() + 1int] is DeleteGrant);
}

/// An answer that found a grant expired is not heard once that grant has been
/// replaced, not even within the same session.
pub proof fn an_old_answer_cannot_expire_a_new_grant(
    worker: WorkerModel,
    generation: u64,
    source: ApiSource,
    response: ApiResponse,
    shared_lease: Lease,
    personal_lease: Lease,
    moment: Moment,
)
    requires
        !worker.credentials.holds(
            if source == ApiSource::Shared {
                shared_lease
            } else {
                personal_lease
            },
        ),
    ensures
        worker.step(
            Command::ApiFinished {
                generation,
                response: Box::new(response),
                expired: Some(source),
                shared_lease,
                personal_lease,
            },
            moment,
        ) == worker,
{
}

/// A rejected personal app leaves the session of a ready shared app as it
/// was: the listener only sees why.
pub proof fn a_rejected_personal_app_leaves_the_session(
    worker: WorkerModel,
    lease: Lease,
    attempt: u64,
    error: ApiError,
    moment: Moment,
)
    requires
        worker.valid(),
        worker.room(2),
        worker.credentials.holds(lease),
        worker.api.shared is Ready,
    ensures
        ({
            let after = worker.step(
                Command::WebVerificationFailed {
                    source: ApiSource::Personal,
                    lease,
                    attempt,
                    error,
                },
                moment,
            );
            &&& after.signed_in == worker.signed_in
            &&& after.api.shared == worker.api.shared
            &&& after.web_tokens.shared == worker.web_tokens.shared
            &&& after.playback_grant == worker.playback_grant
            &&& after.log.contains(
                ActionModel::Emit(EventModel::Error(rejection(ApiSource::Personal, error))),
            )
            &&& forall|i: int|
                worker.log.len() <= i < after.log.len() ==> !(#[trigger] after.log[i] matches
                    ActionModel::Emit(EventModel::Auth(_)))
        }),
{
    let source = ApiSource::Personal;
    let heard = worker.on_web_verification_failed(source, error);
    let after = worker.step(
        Command::WebVerificationFailed { source, lease, attempt, error },
        moment,
    );
    ending_a_flow_keeps_grants(heard, source, moment.personal_grant);
    assert(heard.log.last() == ActionModel::Emit(EventModel::Error(rejection(source, error))));
    assert(after.log[heard.log.len() - 1] == heard.log.last());
}

/// A grant verified for another account than the one in force is not taken:
/// the account stays, and so does the other app's session. (Where the end of
/// the shared app's flow lets a waiting one open for the personal app, that
/// app is authorized anew and its account given up.)
pub proof fn a_mismatched_grant_is_not_taken(
    worker: WorkerModel,
    source: ApiSource,
    token: StoredToken,
    user: User,
    lease: Lease,
    attempt: u64,
    moment: Moment,
)
    requires
        worker.valid(),
        worker.room(2),
        worker.awaits(source, token@.client_id),
        worker.credentials.holds(lease),
        !worker.api.accepts(source, user.id@),
        !(source == ApiSource::Shared && worker.authorizing_source == Some(source)
            && worker.pending_authorization is Some && moment.personal_grant is Ok),
    ensures
        ({
            let after = worker.step(
                Command::WebVerified {
                    source,
                    token: Box::new(token),
                    user: Box::new(user),
                    lease,
                    attempt,
                },
                moment,
            );
            &&& after.api.state(other(source)) == worker.api.state(other(source))
            &&& after.api.account() == worker.api.account()
            &&& after.api.account() != Some(user.id@)
            &&& !(after.api.state(source) is Ready)
            &&& after.playback_grant == worker.playback_grant
            &&& after.premium == worker.premium
        }),
{
}

/// While a browser flow is open, no other one is opened.
pub proof fn one_browser_flow_at_a_time(worker: WorkerModel, moment: Moment)
    requires
        worker.cancel_signin,
    ensures
        worker.step(Command::SignIn, moment) == worker,
        worker.step(Command::AuthorizePlayback, moment) == worker,
{
}

/// A browser flow that is opened is the one that can be cancelled from then
/// on, and the latest attempt.
pub proof fn an_opened_flow_is_the_current_one(
    worker: WorkerModel,
    command: Command,
    moment: Moment,
    i: int,
)
    requires
        worker.valid(),
        worker.room(2),
        worker.log.len() <= i < worker.step(command, moment).log.len(),
        worker.step(command, moment).log[i] is BeginSignIn || worker.step(
            command,
            moment,
        ).log[i] is BeginPlaybackAuthorization,
    ensures
        ({
            let after = worker.step(command, moment);
            &&& after.cancel_signin
            &&& match after.log[i] {
                ActionModel::BeginSignIn { source, lease, attempt, .. } => after.authorizing_source
                    == Some(source) && after.credentials.holds(lease) && attempt
                    == after.authorization_attempt,
                ActionModel::BeginPlaybackAuthorization { lease, attempt } => {
                    after.credentials.holds(lease) && attempt == after.authorization_attempt
                },
                _ => false,
            }
        }),
{
    a_step_is_sound(worker, command, moment);
}

/// A flow that the listener cancelled is over: its results are overtaken, and
/// another one can be opened.
pub proof fn a_cancelled_flow_is_over(
    worker: WorkerModel,
    source: ApiSource,
    token: StoredToken,
    moment: Moment,
)
    requires
        worker.room(1),
        worker.cancel_signin,
        worker.authorizing_source == Some(source),
    ensures
        ({
            let after = worker.step(Command::CancelSignIn, moment);
            let lease = worker.credentials.spec_lease(slot_of(source));
            let attempt = worker.authorization_attempt;
            &&& !after.cancel_signin && after.authorizing_source is None
                && after.pending_authorization is None
            &&& !(after.api.state(source) is Authorizing)
            &&& after.overtaken(
                Command::WebSignedIn { source, token: Box::new(token), lease, attempt },
            )
            &&& after.overtaken(Command::SignInEnded { source, attempt })
            &&& after.log.len() > worker.log.len()
            &&& after.log[worker.log.len() as int] is CancelBrowser
            &&& worker.playback_flow != Some(attempt) ==> after.log.len() == worker.log.len() + 1
        }),
{
}

/// What reading an empty slot reports.
pub open spec fn empty_slot(worker: WorkerModel, slot: Slot) -> Command {
    Command::CredentialsRestored {
        slot,
        lease: worker.credentials.spec_lease(slot),
        result: Ok(Loaded { grant: None, warning: None }),
    }
}

/// A start that finds no grant in any slot, in whatever order they are read,
/// ends signed out: the listener is told so at the end, and only then.
pub proof fn a_start_without_grants_ends_signed_out(
    engine_config: EngineConfig,
    web_client_id: Option<Seq<char>>,
    web_scopes: Seq<Seq<char>>,
    first: Slot,
    second: Slot,
    third: Slot,
    moment: Moment,
)
    requires
        first != second,
        second != third,
        third != first,
    ensures
        ({
            let start = WorkerModel::fresh(
                engine_config,
                web_client_id,
                web_scopes,
            ).restore_session();
            let one = start.step(empty_slot(start, first), moment);
            let two = one.step(empty_slot(start, second), moment);
            let end = two.step(empty_slot(start, third), moment);
            &&& one.log == start.log && two.log == start.log
            &&& end.log == start.log.push(ActionModel::Emit(EventModel::Auth(AuthModel::SignedOut)))
            &&& end.api.shared is Unavailable && end.api.personal is Unavailable
            &&& !end.signed_in
        }),
{
    let start = WorkerModel::fresh(engine_config, web_client_id, web_scopes).restore_session();
    reading_an_empty_slot(start, first, moment);
    let one = start.step(empty_slot(start, first), moment);
    reading_an_empty_slot(one, second, moment);
    let two = one.step(empty_slot(start, second), moment);
    reading_an_empty_slot(two, third, moment);
}

proof fn reading_an_empty_slot(worker: WorkerModel, slot: Slot, moment: Moment)
    requires
        !worker.signed_in,
        worker.web_tokens.shared is None,
        worker.web_tokens.personal is None,
    ensures
        ({
            let pending = worker.restore_pending.without(slot);
            let after = worker.step(empty_slot(worker, slot), moment);
            let read = WorkerModel {
                restore_pending: pending,
                api: if slot == Slot::Playback {
                    worker.api
                } else {
                    worker.api.cleared(slot.spec_source())
                },
                ..worker
            };
            after == if pending.any() {
                read
            } else {
                read.shows_auth(AuthModel::SignedOut)
            }
        }),
{
    let lease = worker.credentials.spec_lease(slot);
    let result: Result<Loaded, StorageError> = Ok(Loaded { grant: None, warning: None });
    assert(worker.step(Command::CredentialsRestored { slot, lease, result }, moment)
        == worker.on_credentials_restored(slot, lease, result));
}

}
