//! Sessions, step by step: how they are opened, verified, refused and closed,
//! and what the listener reads on the way.

use vstd::prelude::*;

use crate::actions::ActionModel;
use crate::credentials::{
    slot_of, CredentialStore, Credentials, Lease, Loaded, Slot, StorageError, StoredGrant,
    StoredToken,
};
use crate::events::{AuthModel, Command, EventModel, PlaybackModel};
use crate::gateway::{ApiError, ApiSource, SessionModel};
use crate::laws::commands::only_asks;
use crate::model::{Moment, WorkerModel};
use crate::models::{EngineConfig, User};
use crate::responses::ApiResponse;

verus! {

/// The event that shows where signing in stands.
pub open spec fn auth_event(status: AuthModel) -> ActionModel {
    ActionModel::Emit(EventModel::Auth(status))
}

/// The event that shows an error.
pub open spec fn error_event(text: Seq<char>) -> ActionModel {
    ActionModel::Emit(EventModel::Error(text))
}

/// The event that shows which personal app is in use.
pub open spec fn app_event(client_id: Option<Seq<char>>) -> ActionModel {
    ActionModel::Emit(EventModel::WebApp { client_id })
}

// ---- starting -------------------------------------------------------------------------

/// A new worker knows nothing and has asked for nothing; it keeps what it was
/// given.
pub proof fn a_new_worker_knows_nothing(
    engine_config: EngineConfig,
    web_client_id: Option<Seq<char>>,
    web_scopes: Seq<Seq<char>>,
)
    ensures
        ({
            let worker = WorkerModel::fresh(engine_config, web_client_id, web_scopes);
            &&& worker.engine_config == engine_config
            &&& worker.web_client_id == web_client_id
            &&& worker.web_scopes == web_scopes
            &&& worker.log.len() == 0
            &&& !worker.signed_in && !worker.engine && !worker.engine_busy && !worker.cancel_signin
            &&& !worker.editorial_fetch && worker.playback_flow is None
            &&& worker.api.shared is Unavailable && worker.api.personal is Unavailable
            &&& worker.api.playlists == Map::<Seq<char>, Option<Seq<char>>>::empty()
            &&& worker.web_tokens.shared is None && worker.web_tokens.personal is None
            &&& worker.playback_grant is None && worker.premium is None
            &&& worker.authorizing_source is None && worker.pending_authorization is None
            &&& worker.reconnects.len() == 0
            &&& worker.resume is None && worker.resume_verify is None
            &&& !worker.restore_pending.shared && !worker.restore_pending.personal
                && !worker.restore_pending.playback
            &&& worker.session == 0 && worker.authorization_attempt == 0
        }),
{
}

/// A start reads every slot once, under good leases; the shared app counts as
/// being authorized meanwhile, and a personal app where one is configured.
pub proof fn a_start_reads_every_slot(worker: WorkerModel)
    ensures
        ({
            let after = worker.restore_session();
            &&& after.log == worker.log + seq![
                ActionModel::LoadGrant { lease: worker.credentials.spec_lease(Slot::Shared) },
                ActionModel::LoadGrant { lease: worker.credentials.spec_lease(Slot::Personal) },
                ActionModel::LoadGrant { lease: worker.credentials.spec_lease(Slot::Playback) },
            ]
            &&& after.restore_pending.shared && after.restore_pending.personal
                && after.restore_pending.playback
            &&& after.api.shared is Authorizing
            &&& worker.web_client_id is Some ==> after.api.personal is Authorizing
            &&& worker.web_client_id is None ==> after.api.personal == worker.api.personal
            &&& after == (WorkerModel {
                restore_pending: after.restore_pending,
                api: after.api,
                log: after.log,
                ..worker
            })
        }),
{
    assert(worker.restore_session().log =~= worker.log + seq![
        ActionModel::LoadGrant { lease: worker.credentials.spec_lease(Slot::Shared) },
        ActionModel::LoadGrant { lease: worker.credentials.spec_lease(Slot::Personal) },
        ActionModel::LoadGrant { lease: worker.credentials.spec_lease(Slot::Playback) },
    ]);
}

/// What reading a slot reports, with a grant or without, and a warning or not.
pub open spec fn slot_read(
    slot: Slot,
    lease: Lease,
    grant: Option<StoredGrant>,
    warning: Option<StorageError>,
) -> Command {
    Command::CredentialsRestored { slot, lease, result: Ok(Loaded { grant, warning }) }
}

/// A stored Web API grant is held and verified where it is the shared app's or
/// the configured personal app's and allows everything needed; the listener,
/// unless signed in already, sees that they are being connected.
pub proof fn a_stored_grant_is_verified_before_it_counts(
    worker: WorkerModel,
    source: ApiSource,
    token: StoredToken,
    lease: Lease,
    moment: Moment,
)
    requires
        worker.credentials.holds(lease),
        source == ApiSource::Shared || worker.web_client_id == Some(token.client_id@),
        token@.has_scopes(worker.web_scopes),
    ensures
        ({
            let command = slot_read(slot_of(source), lease, Some(StoredGrant::Web(token)), None);
            let after = worker.step(command, moment);
            let connecting = if worker.signed_in {
                seq![]
            } else {
                seq![auth_event(AuthModel::Connecting)]
            };
            &&& after.log == worker.log + connecting + seq![
                ActionModel::VerifyToken {
                    source,
                    token: token@,
                    lease: worker.credentials.spec_lease(slot_of(source)),
                    attempt: worker.authorization_attempt,
                },
            ]
            &&& match source {
                ApiSource::Shared => after.web_tokens.shared == Some(token@)
                    && after.web_tokens.personal == worker.web_tokens.personal && after.api.shared
                    is Authorizing && after.api.personal == worker.api.personal
                    && !after.restore_pending.shared && after.restore_pending.personal
                    == worker.restore_pending.personal,
                ApiSource::Personal => after.web_tokens.personal == Some(token@)
                    && after.web_tokens.shared == worker.web_tokens.shared && after.api.personal
                    is Authorizing && after.api.shared == worker.api.shared
                    && !after.restore_pending.personal && after.restore_pending.shared
                    == worker.restore_pending.shared,
            }
            &&& after.signed_in == worker.signed_in
            &&& after.playback_grant == worker.playback_grant
        }),
{
    let result: Result<Loaded, StorageError> = Ok(
        Loaded { grant: Some(StoredGrant::Web(token)), warning: None },
    );
    let slot = slot_of(source);
    let after = worker.step(Command::CredentialsRestored { slot, lease, result }, moment);
    assert(after == worker.on_credentials_restored(slot, lease, result));
    let connecting = if worker.signed_in {
        seq![]
    } else {
        seq![auth_event(AuthModel::Connecting)]
    };
    assert(after.log =~= worker.log + connecting + seq![after.log.last()]);
}

/// A stored grant that allows too little is not used: the listener reads that
/// permissions changed. One of another personal app is passed over in silence.
/// Neither is held or verified.
pub proof fn a_stored_grant_that_does_not_fit_is_not_used(
    worker: WorkerModel,
    source: ApiSource,
    token: StoredToken,
    lease: Lease,
    moment: Moment,
)
    requires
        worker.credentials.holds(lease),
        !(source == ApiSource::Shared || worker.web_client_id == Some(token.client_id@))
            || !token@.has_scopes(worker.web_scopes),
    ensures
        ({
            let command = slot_read(slot_of(source), lease, Some(StoredGrant::Web(token)), None);
            let after = worker.step(command, moment);
            let ours = source == ApiSource::Shared || worker.web_client_id == Some(
                token.client_id@,
            );
            &&& after.web_tokens == worker.web_tokens
            &&& after.log.contains(error_event("Spotify permissions changed. Sign in again."@))
                || !ours
            &&& forall|i: int|
                worker.log.len() <= i < after.log.len() ==> !(#[trigger] after.log[i]
                    is VerifyToken) && (after.log[i] == error_event(
                    "Spotify permissions changed. Sign in again."@,
                ) ==> ours)
        }),
{
    let result: Result<Loaded, StorageError> = Ok(
        Loaded { grant: Some(StoredGrant::Web(token)), warning: None },
    );
    let slot = slot_of(source);
    let after = worker.step(Command::CredentialsRestored { slot, lease, result }, moment);
    assert(after == worker.on_credentials_restored(slot, lease, result));
    let ours = source == ApiSource::Shared || worker.web_client_id == Some(token.client_id@);
    if ours {
        assert(after.log[worker.log.len() as int] == error_event(
            "Spotify permissions changed. Sign in again."@,
        ));
    }
}

/// A stored playback grant is held, and brings the engine up where it can.
pub proof fn a_stored_playback_grant_is_held(
    worker: WorkerModel,
    grant: Credentials,
    lease: Lease,
    moment: Moment,
)
    requires
        worker.credentials.holds(lease),
    ensures
        ({
            let command = slot_read(
                Slot::Playback,
                lease,
                Some(StoredGrant::Playback(grant)),
                None,
            );
            let after = worker.step(command, moment);
            let up = worker.signed_in && !worker.engine && !worker.engine_busy && worker.premium
                != Some(false) && grant@.username == worker.api.account();
            &&& after.playback_grant == Some(grant@)
            &&& !after.restore_pending.playback
            &&& after.api == worker.api && after.web_tokens == worker.web_tokens
            &&& up ==> after.engine_busy && after.log.contains(
                ActionModel::ConnectEngine {
                    credentials: grant@,
                    config: worker.engine_config,
                    lease: worker.credentials.spec_lease(Slot::Playback),
                },
            )
            &&& !up ==> after.engine_busy == worker.engine_busy
        }),
{
    let result: Result<Loaded, StorageError> = Ok(
        Loaded { grant: Some(StoredGrant::Playback(grant)), warning: None },
    );
    let slot = Slot::Playback;
    let after = worker.step(Command::CredentialsRestored { slot, lease, result }, moment);
    assert(after == worker.on_credentials_restored(slot, lease, result));
    assert(after.engine_busy && !worker.engine_busy ==> after.log[worker.log.len() + 1int]
        is ConnectEngine);
}

/// What went wrong while a slot was read is shown, in storage's own words.
pub proof fn what_went_wrong_with_a_slot_is_shown(
    worker: WorkerModel,
    slot: Slot,
    lease: Lease,
    grant: Option<StoredGrant>,
    error: StorageError,
    moment: Moment,
)
    requires
        worker.credentials.holds(lease),
    ensures
        ({
            let failed = worker.step(
                Command::CredentialsRestored { slot, lease, result: Err(error) },
                moment,
            );
            let warned = worker.step(slot_read(slot, lease, grant, Some(error)), moment);
            &&& failed.log.len() > worker.log.len()
            &&& failed.log[worker.log.len() as int] == error_event(error.spec_text())
            &&& failed.web_tokens == worker.web_tokens
            &&& failed.playback_grant == worker.playback_grant
            &&& warned.log.len() > worker.log.len()
            &&& warned.log[worker.log.len() as int] == error_event(error.spec_text())
        }),
{
    let failure: Result<Loaded, StorageError> = Err(error);
    assert(worker.step(Command::CredentialsRestored { slot, lease, result: failure }, moment)
        == worker.on_credentials_restored(slot, lease, failure));
    let warning: Result<Loaded, StorageError> = Ok(Loaded { grant, warning: Some(error) });
    assert(worker.step(Command::CredentialsRestored { slot, lease, result: warning }, moment)
        == worker.on_credentials_restored(slot, lease, warning));
}

// ---- signing in -------------------------------------------------------------------------

/// Signing in opens the browser for the shared app, under a new attempt and a
/// new lease; the app counts as being authorized from then on, and a stored
/// grant that was still being read is not waited for.
pub proof fn signing_in_opens_the_browser(worker: WorkerModel, moment: Moment)
    requires
        worker.room(1),
        !worker.cancel_signin,
    ensures
        ({
            let after = worker.step(Command::SignIn, moment);
            &&& after.authorization_attempt == worker.authorization_attempt + 1
            &&& after.credentials.shared == worker.credentials.shared + 1
            &&& after.credentials.personal == worker.credentials.personal
                && after.credentials.playback == worker.credentials.playback
            &&& after.cancel_signin
            &&& after.authorizing_source == Some(ApiSource::Shared)
            &&& after.api.shared is Authorizing && after.api.personal == worker.api.personal
                && after.api.playlists == worker.api.playlists
            &&& !after.restore_pending.shared && after.restore_pending.personal
                == worker.restore_pending.personal && after.restore_pending.playback
                == worker.restore_pending.playback
            &&& after == (WorkerModel {
                authorization_attempt: after.authorization_attempt,
                credentials: after.credentials,
                cancel_signin: true,
                authorizing_source: after.authorizing_source,
                api: after.api,
                restore_pending: after.restore_pending,
                log: worker.log.push(
                    ActionModel::BeginSignIn {
                        source: ApiSource::Shared,
                        client_id: None,
                        lease: Lease {
                            slot: Slot::Shared,
                            generation: after.credentials.shared,
                        },
                        attempt: after.authorization_attempt,
                    },
                ),
                ..worker
            })
        }),
{
}

/// The grant that an open flow brings is held and verified, and nothing else
/// changes: the flow is open until that is done. A grant of the open flow's
/// attempt that does not count only ends the flow.
pub proof fn the_grant_of_an_open_flow_is_verified(
    worker: WorkerModel,
    source: ApiSource,
    token: StoredToken,
    lease: Lease,
    moment: Moment,
)
    requires
        worker.credentials.holds(lease),
        worker.authorizing_source == Some(source),
    ensures
        ({
            let after = worker.step(
                Command::WebSignedIn {
                    source,
                    token: Box::new(token),
                    lease,
                    attempt: worker.authorization_attempt,
                },
                moment,
            );
            &&& match source {
                ApiSource::Shared => after.web_tokens.shared == Some(token@)
                    && after.web_tokens.personal == worker.web_tokens.personal && after.api.shared
                    is Authorizing && after.api.personal == worker.api.personal,
                ApiSource::Personal => after.web_tokens.personal == Some(token@)
                    && after.web_tokens.shared == worker.web_tokens.shared && after.api.personal
                    is Authorizing && after.api.shared == worker.api.shared,
            }
            &&& after.api.playlists == worker.api.playlists
            &&& after == (WorkerModel {
                web_tokens: after.web_tokens,
                api: after.api,
                log: worker.log.push(
                    ActionModel::VerifyToken {
                        source,
                        token: token@,
                        lease: worker.credentials.spec_lease(slot_of(source)),
                        attempt: worker.authorization_attempt,
                    },
                ),
                ..worker
            })
        }),
{
}

/// A verified grant that nobody waits for changes nothing: its app is not being
/// authorized, or is a personal app that is not the configured one.
pub proof fn a_verdict_nobody_waits_for_changes_nothing(
    worker: WorkerModel,
    source: ApiSource,
    token: StoredToken,
    user: User,
    lease: Lease,
    attempt: u64,
    moment: Moment,
)
    requires
        worker.credentials.holds(lease),
        match source {
            ApiSource::Shared => !(worker.api.shared is Authorizing),
            ApiSource::Personal => !(worker.api.personal is Authorizing) || worker.web_client_id
                != Some(token.client_id@),
        },
    ensures
        worker.step(
            Command::WebVerified {
                source,
                token: Box::new(token),
                user: Box::new(user),
                lease,
                attempt,
            },
            moment,
        ) == worker,
{
}

/// A verified shared sign-in makes the session ready for the account and stores
/// the grant; a listener who was not signed in is greeted by name; then the
/// account is shown, and its plan acted on.
pub proof fn a_verified_shared_sign_in_greets_the_listener(
    worker: WorkerModel,
    token: StoredToken,
    user: User,
    lease: Lease,
    attempt: u64,
    moment: Moment,
)
    requires
        worker.valid(),
        worker.room(2),
        worker.credentials.holds(lease),
        worker.api.shared is Authorizing,
        worker.api.personal matches SessionModel::Ready { account } ==> account == user.id@,
        worker.web_tokens.shared is Some,
    ensures
        ({
            let after = worker.step(
                Command::WebVerified {
                    source: ApiSource::Shared,
                    token: Box::new(token),
                    user: Box::new(user),
                    lease,
                    attempt,
                },
                moment,
            );
            let greeted = if worker.signed_in {
                seq![]
            } else {
                seq![
                    auth_event(
                        AuthModel::Connected {
                            username: match user.display_name {
                                Some(name) => name@,
                                None => user.id@,
                            },
                        },
                    ),
                ]
            };
            let begins = worker.log + seq![
                ActionModel::RememberToken {
                    source: ApiSource::Shared,
                    lease: worker.credentials.spec_lease(Slot::Shared),
                },
            ] + greeted + seq![ActionModel::Emit(EventModel::Api(ApiResponse::Me(Ok(user))))];
            &&& begins.is_prefix_of(after.log)
            &&& after.signed_in
            &&& after.api.shared == SessionModel::Ready { account: user.id@ }
            &&& after.premium == user.spec_premium()
            &&& after.web_tokens == worker.web_tokens
        }),
{
    let source = ApiSource::Shared;
    let accepted = worker.accepts_account(source, token@.client_id, user);
    let after = accepted.finish_authorization(source, moment.personal_grant);
    assert(worker.step(
        Command::WebVerified {
            source,
            token: Box::new(token),
            user: Box::new(user),
            lease,
            attempt,
        },
        moment,
    ) == after);
    shared_welcome(worker, token@.client_id, user);
    ending_keeps_the_log(accepted, source, moment.personal_grant);
    let greeted = if worker.signed_in {
        seq![]
    } else {
        seq![auth_event(AuthModel::Connected { username: user.spec_name() })]
    };
    let begins = worker.log + seq![
        ActionModel::RememberToken {
            source,
            lease: worker.credentials.spec_lease(Slot::Shared),
        },
    ] + greeted + seq![ActionModel::Emit(EventModel::Api(ApiResponse::Me(Ok(user))))];
    assert forall|i: int| 0 <= i < begins.len() implies begins[i] == after.log[i] by {
        assert(begins[i] == accepted.log[i]);
    }
}

proof fn shared_welcome(worker: WorkerModel, client_id: Seq<char>, user: User)
    requires
        worker.web_tokens.shared is Some,
    ensures
        ({
            let source = ApiSource::Shared;
            let accepted = worker.accepts_account(source, client_id, user);
            let greeted = if worker.signed_in {
                seq![]
            } else {
                seq![auth_event(AuthModel::Connected { username: user.spec_name() })]
            };
            let begins = worker.log + seq![
                ActionModel::RememberToken {
                    source,
                    lease: worker.credentials.spec_lease(Slot::Shared),
                },
            ] + greeted + seq![ActionModel::Emit(EventModel::Api(ApiResponse::Me(Ok(user))))];
            &&& begins.len() <= accepted.log.len()
            &&& forall|i: int| 0 <= i < begins.len() ==> begins[i] == accepted.log[i]
            &&& accepted.signed_in
            &&& accepted.api.shared == SessionModel::Ready { account: user.id@ }
            &&& accepted.premium == user.spec_premium()
            &&& accepted.web_tokens == worker.web_tokens
            &&& accepted.pending_authorization == worker.pending_authorization
            &&& accepted.credentials == worker.credentials
            &&& accepted.authorization_attempt == worker.authorization_attempt
            &&& accepted.session == worker.session
        }),
{
}

proof fn ending_keeps_the_log(worker: WorkerModel, source: ApiSource, grant: Result<(), String>)
    requires
        worker.room(1),
        worker.pending_authorization != Some(ApiSource::Shared),
    ensures
        ({
            let after = worker.finish_authorization(source, grant);
            &&& after.log.len() >= worker.log.len()
            &&& forall|i: int| 0 <= i < worker.log.len() ==> after.log[i] == worker.log[i]
            &&& after.signed_in == worker.signed_in
            &&& after.premium == worker.premium
            &&& after.web_tokens == worker.web_tokens
            &&& after.api.shared == worker.api.shared
        }),
{
}

/// A verified personal app is announced and its grant stored; a listener who is
/// signed in already is not greeted again, and neither the account nor the plan
/// is looked at anew.
pub proof fn a_verified_personal_app_is_announced(
    worker: WorkerModel,
    token: StoredToken,
    user: User,
    lease: Lease,
    attempt: u64,
    moment: Moment,
)
    requires
        worker.valid(),
        worker.room(2),
        worker.signed_in,
        worker.credentials.holds(lease),
        worker.api.personal is Authorizing,
        worker.web_client_id == Some(token.client_id@),
        worker.api.shared matches SessionModel::Ready { account } ==> account == user.id@,
        worker.web_tokens.personal is Some,
        worker.authorizing_source != Some(ApiSource::Personal),
    ensures
        ({
            let after = worker.step(
                Command::WebVerified {
                    source: ApiSource::Personal,
                    token: Box::new(token),
                    user: Box::new(user),
                    lease,
                    attempt,
                },
                moment,
            );
            &&& after.api.personal == SessionModel::Ready { account: user.id@ }
            &&& after.api.shared == worker.api.shared && after.api.playlists == worker.api.playlists
            &&& after == (WorkerModel {
                api: after.api,
                log: worker.log + seq![
                    ActionModel::RememberToken {
                        source: ApiSource::Personal,
                        lease: worker.credentials.spec_lease(Slot::Personal),
                    },
                    app_event(Some(token.client_id@)),
                ],
                ..worker
            })
        }),
{
    let source = ApiSource::Personal;
    let after = worker.step(
        Command::WebVerified {
            source,
            token: Box::new(token),
            user: Box::new(user),
            lease,
            attempt,
        },
        moment,
    );
    assert(after == worker.accepts_account(source, token@.client_id, user));
    assert(after.log =~= worker.log + seq![
        ActionModel::RememberToken {
            source,
            lease: worker.credentials.spec_lease(Slot::Personal),
        },
        app_event(Some(token.client_id@)),
    ]);
}

/// A grant of another account is refused in plain words; where it was the shared
/// app's, the listener is signed out as well.
pub proof fn a_grant_of_another_account_is_refused(
    worker: WorkerModel,
    source: ApiSource,
    token: StoredToken,
    user: User,
    verified: Seq<char>,
    lease: Lease,
    attempt: u64,
    moment: Moment,
)
    requires
        worker.credentials.holds(lease),
        worker.authorizing_source != Some(source),
        verified != user.id@,
        match source {
            ApiSource::Shared => worker.api.shared is Authorizing && worker.api.personal
                == (SessionModel::Ready { account: verified }),
            ApiSource::Personal => worker.api.personal is Authorizing && worker.api.shared
                == (SessionModel::Ready { account: verified }) && worker.web_client_id == Some(
                token.client_id@,
            ),
        },
    ensures
        ({
            let after = worker.step(
                Command::WebVerified {
                    source,
                    token: Box::new(token),
                    user: Box::new(user),
                    lease,
                    attempt,
                },
                moment,
            );
            let why =
                "This app was authorized for another Spotify account. Sign in with the same account."@;
            &&& match source {
                ApiSource::Shared => {
                    &&& !after.signed_in
                    &&& after.api.shared is Unavailable && after.api.personal == worker.api.personal
                    &&& after.log == worker.log + seq![
                        auth_event(AuthModel::Failed(why)),
                        error_event(why),
                    ]
                },
                ApiSource::Personal => {
                    &&& after.signed_in == worker.signed_in
                    &&& after.api.personal is Unavailable && after.api.shared == worker.api.shared
                    &&& after.log == worker.log + seq![error_event(why)]
                },
            }
            &&& after == (WorkerModel {
                signed_in: after.signed_in,
                api: after.api,
                log: after.log,
                ..worker
            })
        }),
{
    let after = worker.step(
        Command::WebVerified {
            source,
            token: Box::new(token),
            user: Box::new(user),
            lease,
            attempt,
        },
        moment,
    );
    assert(after == worker.rejects_account(source));
    let why =
        "This app was authorized for another Spotify account. Sign in with the same account."@;
    match source {
        ApiSource::Shared => {
            assert(after.log =~= worker.log + seq![
                auth_event(AuthModel::Failed(why)),
                error_event(why),
            ]);
        },
        ApiSource::Personal => {
            assert(after.log =~= worker.log + seq![error_event(why)]);
        },
    }
}

/// A refused grant closes its app's session and is told as what it is. Where
/// nothing is left to answer, or the shared app was refused, the listener is
/// signed out. Only an expired grant is given up; any other is kept.
pub proof fn a_refused_grant_closes_its_session(
    worker: WorkerModel,
    source: ApiSource,
    lease: Lease,
    attempt: u64,
    error: ApiError,
    moment: Moment,
)
    requires
        worker.credentials.holds(lease),
        worker.authorizing_source != Some(source),
        !(error is SignInExpired),
    ensures
        ({
            let after = worker.step(
                Command::WebVerificationFailed { source, lease, attempt, error },
                moment,
            );
            let text = match error {
                ApiError::Status { message, .. } => message@,
                ApiError::Unreachable(message) => message@,
                _ => seq![],
            };
            let why = match source {
                ApiSource::Shared => "Shared Spotify sign-in failed: "@ + text,
                ApiSource::Personal => "Personal app authorization failed: "@ + text,
            };
            let out = source == ApiSource::Shared || !(worker.api.shared is Ready);
            &&& match source {
                ApiSource::Shared => after.api.shared is Unavailable && after.api.personal
                    == worker.api.personal,
                ApiSource::Personal => after.api.personal is Unavailable && after.api.shared
                    == worker.api.shared,
            }
            &&& after.signed_in == (worker.signed_in && !out)
            &&& after.log == worker.log + (if out {
                seq![auth_event(AuthModel::Failed(why)), error_event(why)]
            } else {
                seq![error_event(why)]
            })
            &&& after == (WorkerModel {
                signed_in: after.signed_in,
                api: after.api,
                log: after.log,
                ..worker
            })
        }),
{
    let after = worker.step(
        Command::WebVerificationFailed { source, lease, attempt, error },
        moment,
    );
    assert(after == worker.on_web_verification_failed(source, error));
    let why = match source {
        ApiSource::Shared => "Shared Spotify sign-in failed: "@ + error.spec_text(),
        ApiSource::Personal => "Personal app authorization failed: "@ + error.spec_text(),
    };
    if source == ApiSource::Shared || !(worker.api.shared is Ready) {
        assert(after.log =~= worker.log + seq![
            auth_event(AuthModel::Failed(why)),
            error_event(why),
        ]);
    } else {
        assert(after.log =~= worker.log + seq![error_event(why)]);
    }
}

/// An expired grant is given up as it is refused: revoked, deleted and no longer
/// held, its session closed; the listener reads that the sign-in expired.
pub proof fn an_expired_grant_is_refused_and_given_up(
    worker: WorkerModel,
    source: ApiSource,
    api_source: ApiSource,
    lease: Lease,
    attempt: u64,
    moment: Moment,
)
    requires
        worker.room(1),
        worker.credentials.holds(lease),
        worker.authorizing_source != Some(source),
    ensures
        ({
            let after = worker.step(
                Command::WebVerificationFailed {
                    source,
                    lease,
                    attempt,
                    error: ApiError::SignInExpired { api_source },
                },
                moment,
            );
            let slot = slot_of(source);
            let text = "Your Spotify sign-in expired. Please sign in again."@;
            let why = match source {
                ApiSource::Shared => "Shared Spotify sign-in failed: "@ + text,
                ApiSource::Personal => "Personal app authorization failed: "@ + text,
            };
            let out = source == ApiSource::Shared || !(worker.api.shared is Ready);
            &&& after.log == worker.log + seq![
                ActionModel::Revoke { slot },
                ActionModel::DeleteGrant { lease: after.credentials.spec_lease(slot) },
            ] + (if out {
                seq![auth_event(AuthModel::Failed(why)), error_event(why)]
            } else {
                seq![error_event(why)]
            })
            &&& after.credentials == worker.credentials.moved(slot)
            &&& after.signed_in == (worker.signed_in && !out)
            &&& match source {
                ApiSource::Shared => after.web_tokens.shared is None && after.web_tokens.personal
                    == worker.web_tokens.personal && after.api.shared is Unavailable
                    && after.api.personal == worker.api.personal,
                ApiSource::Personal => after.web_tokens.personal is None && after.web_tokens.shared
                    == worker.web_tokens.shared && after.api.personal is Unavailable
                    && after.api.shared == worker.api.shared,
            }
        }),
{
    let error = ApiError::SignInExpired { api_source };
    let after = worker.step(
        Command::WebVerificationFailed { source, lease, attempt, error },
        moment,
    );
    assert(after == worker.on_web_verification_failed(source, error));
    let slot = slot_of(source);
    let text = "Your Spotify sign-in expired. Please sign in again."@;
    let why = match source {
        ApiSource::Shared => "Shared Spotify sign-in failed: "@ + text,
        ApiSource::Personal => "Personal app authorization failed: "@ + text,
    };
    let given_up = worker.log + seq![
        ActionModel::Revoke { slot },
        ActionModel::DeleteGrant { lease: after.credentials.spec_lease(slot) },
    ];
    if source == ApiSource::Shared || !(worker.api.shared is Ready) {
        assert(after.log =~= given_up + seq![
            auth_event(AuthModel::Failed(why)),
            error_event(why),
        ]);
    } else {
        assert(after.log =~= given_up + seq![error_event(why)]);
    }
}

/// The end of the open flow frees the browser, and an app that was still being
/// authorized is closed; the end of any other flow changes nothing.
pub proof fn the_end_of_a_flow_frees_the_browser(
    worker: WorkerModel,
    source: ApiSource,
    attempt: u64,
    moment: Moment,
)
    requires
        worker.pending_authorization is None,
    ensures
        ({
            let after = worker.step(Command::SignInEnded { source, attempt }, moment);
            if worker.authorizing_source == Some(source) && worker.authorization_attempt
                == attempt {
                &&& !after.cancel_signin
                &&& after.authorizing_source is None
                &&& match source {
                    ApiSource::Shared => after.api.shared == (if worker.api.shared is Authorizing {
                        SessionModel::Unavailable
                    } else {
                        worker.api.shared
                    }) && after.api.personal == worker.api.personal,
                    ApiSource::Personal => after.api.personal == (
                    if worker.api.personal is Authorizing {
                        SessionModel::Unavailable
                    } else {
                        worker.api.personal
                    }) && after.api.shared == worker.api.shared,
                }
                &&& after == (WorkerModel {
                    cancel_signin: false,
                    authorizing_source: None,
                    api: after.api,
                    ..worker
                })
            } else {
                after == worker
            }
        }),
{
}

/// A result of the open flow's own attempt that comes under a stale lease only
/// ends the flow: nothing of it is taken.
pub proof fn a_stale_result_of_the_open_flow_only_ends_it(
    worker: WorkerModel,
    source: ApiSource,
    token: StoredToken,
    user: User,
    error: ApiError,
    lease: Lease,
    moment: Moment,
)
    requires
        !worker.credentials.holds(lease),
        worker.authorizing_source == Some(source),
        worker.pending_authorization is None,
    ensures
        ({
            let attempt = worker.authorization_attempt;
            let ended = WorkerModel {
                cancel_signin: false,
                authorizing_source: None,
                ..worker
            };
            &&& worker.step(
                Command::WebSignedIn { source, token: Box::new(token), lease, attempt },
                moment,
            ) == ended
            &&& worker.step(
                Command::WebVerified {
                    source,
                    token: Box::new(token),
                    user: Box::new(user),
                    lease,
                    attempt,
                },
                moment,
            ) == ended
            &&& worker.step(
                Command::WebVerificationFailed { source, lease, attempt, error },
                moment,
            ) == ended
        }),
{
}

/// A verdict on the open flow's grant frees the browser, whatever it is.
pub proof fn a_verdict_frees_the_browser(
    worker: WorkerModel,
    source: ApiSource,
    token: StoredToken,
    user: User,
    error: ApiError,
    lease: Lease,
    moment: Moment,
)
    requires
        worker.credentials.holds(lease),
        worker.authorizing_source == Some(source),
        worker.pending_authorization is None,
        match source {
            ApiSource::Shared => worker.api.shared is Authorizing,
            ApiSource::Personal => worker.api.personal is Authorizing && worker.web_client_id
                == Some(token.client_id@),
        },
    ensures
        ({
            let attempt = worker.authorization_attempt;
            let accepted = worker.step(
                Command::WebVerified {
                    source,
                    token: Box::new(token),
                    user: Box::new(user),
                    lease,
                    attempt,
                },
                moment,
            );
            let refused = worker.step(
                Command::WebVerificationFailed { source, lease, attempt, error },
                moment,
            );
            &&& !accepted.cancel_signin && accepted.authorizing_source is None
            &&& !refused.cancel_signin && refused.authorizing_source is None
        }),
{
}

/// A refusal is the same whether its flow is still open or not, but for the
/// browser, which it frees.
pub proof fn a_refusal_is_the_same_without_its_flow(
    worker: WorkerModel,
    source: ApiSource,
    error: ApiError,
    lease: Lease,
    moment: Moment,
)
    requires
        worker.credentials.holds(lease),
        worker.authorizing_source == Some(source),
        worker.pending_authorization is None,
    ensures
        ({
            let attempt = worker.authorization_attempt;
            let idle = WorkerModel { cancel_signin: false, authorizing_source: None, ..worker };
            let refused = Command::WebVerificationFailed { source, lease, attempt, error };
            worker.step(refused, moment) == idle.step(refused, moment)
        }),
{
    let attempt = worker.authorization_attempt;
    let idle = WorkerModel { cancel_signin: false, authorizing_source: None, ..worker };
    let refused = Command::WebVerificationFailed { source, lease, attempt, error };
    let heard = worker.on_web_verification_failed(source, error);
    assert(worker.step(refused, moment) == heard.finish_authorization(
        source,
        moment.personal_grant,
    ));
    assert(idle.step(refused, moment) == idle.on_web_verification_failed(source, error));
    assert(WorkerModel { cancel_signin: false, authorizing_source: None, ..heard }
        == idle.on_web_verification_failed(source, error));
}

/// Whether the personal app has got the browser it waited for.
pub open spec fn has_got_the_browser(worker: WorkerModel) -> bool {
    &&& worker.pending_authorization is None
    &&& worker.cancel_signin
    &&& worker.authorizing_source == Some(ApiSource::Personal)
    &&& worker.log.last() matches ActionModel::BeginSignIn { source, client_id, .. } && source
        == ApiSource::Personal && client_id == worker.web_client_id
}

proof fn a_free_browser_goes_to_the_waiting_app(worker: WorkerModel, grant: Result<(), String>)
    requires
        worker.web_client_id is Some,
        worker.pending_authorization == Some(ApiSource::Personal),
        !worker.cancel_signin,
        grant is Ok,
    ensures
        has_got_the_browser(worker.starts_pending(grant)),
        worker.starts_pending(grant).web_client_id == worker.web_client_id,
{
}

/// However a flow ends, a personal app that waited for the browser gets it next:
/// after a refusal as after the end of a playback flow.
pub proof fn a_waiting_app_comes_next_however_the_flow_ends(
    worker: WorkerModel,
    source: ApiSource,
    error: ApiError,
    lease: Lease,
    moment: Moment,
)
    requires
        worker.web_client_id is Some,
        worker.pending_authorization == Some(ApiSource::Personal),
        worker.authorizing_source == Some(source),
        moment.personal_grant is Ok,
    ensures
        ({
            let attempt = worker.authorization_attempt;
            let refused = worker.step(
                Command::WebVerificationFailed { source, lease, attempt, error },
                moment,
            );
            let ended = worker.step(Command::PlaybackAuthEnded { attempt }, moment);
            &&& has_got_the_browser(refused) && refused.web_client_id == worker.web_client_id
            &&& has_got_the_browser(ended) && ended.web_client_id == worker.web_client_id
        }),
{
    let attempt = worker.authorization_attempt;
    let grant = moment.personal_grant;
    let heard = if worker.credentials.holds(lease) {
        worker.on_web_verification_failed(source, error)
    } else {
        worker
    };
    let freed = WorkerModel { cancel_signin: false, authorizing_source: None, ..heard };
    a_free_browser_goes_to_the_waiting_app(freed, grant);
    assert(worker.step(
        Command::WebVerificationFailed { source, lease, attempt, error },
        moment,
    ) == heard.finish_authorization(source, grant));
    assert(heard.finish_authorization(source, grant) == freed.starts_pending(grant));
    let over = if worker.playback_flow == Some(attempt) {
        worker.ends_playback_flow().resume_engine()
    } else {
        worker
    };
    let free = WorkerModel { cancel_signin: false, ..over };
    a_free_browser_goes_to_the_waiting_app(free, grant);
    assert(worker.step(Command::PlaybackAuthEnded { attempt }, moment)
        == worker.finish_playback_authorization(attempt, grant));
    assert(worker.finish_playback_authorization(attempt, grant) == free.starts_pending(grant));
}

/// A personal app that is verified first signs the listener in: the app is
/// announced, the listener greeted, the account shown and its plan acted on.
pub proof fn a_personal_app_can_sign_the_listener_in(
    worker: WorkerModel,
    token: StoredToken,
    user: User,
    lease: Lease,
    attempt: u64,
    moment: Moment,
)
    requires
        !worker.signed_in,
        worker.credentials.holds(lease),
        worker.api.personal is Authorizing,
        worker.web_client_id == Some(token.client_id@),
        worker.api.shared matches SessionModel::Ready { account } ==> account == user.id@,
        worker.web_tokens.personal is Some,
        worker.authorizing_source != Some(ApiSource::Personal),
    ensures
        ({
            let after = worker.step(
                Command::WebVerified {
                    source: ApiSource::Personal,
                    token: Box::new(token),
                    user: Box::new(user),
                    lease,
                    attempt,
                },
                moment,
            );
            let begins = worker.log + seq![
                ActionModel::RememberToken {
                    source: ApiSource::Personal,
                    lease: worker.credentials.spec_lease(Slot::Personal),
                },
                app_event(Some(token.client_id@)),
                auth_event(AuthModel::Connected { username: user.spec_name() }),
                ActionModel::Emit(EventModel::Api(ApiResponse::Me(Ok(user)))),
            ];
            &&& begins.is_prefix_of(after.log)
            &&& after.signed_in
            &&& after.premium == user.spec_premium()
            &&& after.api.personal == SessionModel::Ready { account: user.id@ }
            &&& after.api.shared == worker.api.shared
        }),
{
    let source = ApiSource::Personal;
    let after = worker.step(
        Command::WebVerified {
            source,
            token: Box::new(token),
            user: Box::new(user),
            lease,
            attempt,
        },
        moment,
    );
    assert(after == worker.accepts_account(source, token@.client_id, user));
    let begins = worker.log + seq![
        ActionModel::RememberToken {
            source,
            lease: worker.credentials.spec_lease(Slot::Personal),
        },
        app_event(Some(token.client_id@)),
        auth_event(AuthModel::Connected { username: user.spec_name() }),
        ActionModel::Emit(EventModel::Api(ApiResponse::Me(Ok(user)))),
    ];
    assert forall|i: int| 0 <= i < begins.len() implies begins[i] == after.log[i] by {}
}

/// A verdict stores the grant only where one is held.
pub proof fn only_a_grant_that_is_held_is_stored(
    worker: WorkerModel,
    source: ApiSource,
    token: StoredToken,
    user: User,
    lease: Lease,
    attempt: u64,
    moment: Moment,
    i: int,
)
    requires
        match source {
            ApiSource::Shared => worker.web_tokens.shared is None,
            ApiSource::Personal => worker.web_tokens.personal is None,
        },
        worker.authorizing_source is None,
        worker.log.len() <= i < worker.step(
            Command::WebVerified {
                source,
                token: Box::new(token),
                user: Box::new(user),
                lease,
                attempt,
            },
            moment,
        ).log.len(),
    ensures
        !(worker.step(
            Command::WebVerified {
                source,
                token: Box::new(token),
                user: Box::new(user),
                lease,
                attempt,
            },
            moment,
        ).log[i] is RememberToken),
{
}

/// With a slot read and nothing found in it, the listener is told that they are
/// signed out exactly where that was the last slot, nobody is signed in and no
/// Web API grant is held; and an app without a grant is closed.
pub proof fn nobody_is_called_signed_out_too_early(
    worker: WorkerModel,
    slot: Slot,
    lease: Lease,
    moment: Moment,
)
    requires
        worker.credentials.holds(lease),
    ensures
        ({
            let after = worker.step(slot_read(slot, lease, None, None), moment);
            let waiting = (worker.restore_pending.shared && slot != Slot::Shared) || (
            worker.restore_pending.personal && slot != Slot::Personal) || (
            worker.restore_pending.playback && slot != Slot::Playback);
            let held = worker.web_tokens.shared is Some || worker.web_tokens.personal is Some;
            &&& after.log == if !waiting && !worker.signed_in && !held {
                worker.log.push(auth_event(AuthModel::SignedOut))
            } else {
                worker.log
            }
            &&& after.restore_pending.shared == (worker.restore_pending.shared && slot
                != Slot::Shared)
            &&& after.restore_pending.personal == (worker.restore_pending.personal && slot
                != Slot::Personal)
            &&& after.restore_pending.playback == (worker.restore_pending.playback && slot
                != Slot::Playback)
            &&& after.api.shared == (if slot == Slot::Shared && worker.web_tokens.shared is None {
                SessionModel::Unavailable
            } else {
                worker.api.shared
            })
            &&& after.api.personal == (if slot == Slot::Personal && worker.web_tokens.personal
                is None {
                SessionModel::Unavailable
            } else {
                worker.api.personal
            })
        }),
{
    let result: Result<Loaded, StorageError> = Ok(Loaded { grant: None, warning: None });
    assert(worker.step(Command::CredentialsRestored { slot, lease, result }, moment)
        == worker.on_credentials_restored(slot, lease, result));
}

/// A streaming token that comes under a stale lease is worth no more than the
/// news that its flow is over.
pub proof fn a_stale_streaming_token_only_ends_its_flow(
    worker: WorkerModel,
    access_token: String,
    lease: Lease,
    attempt: u64,
    moment: Moment,
)
    requires
        !worker.credentials.holds(lease),
    ensures
        worker.step(Command::PlaybackAuthorized { access_token, lease, attempt }, moment)
            == worker.step(Command::PlaybackAuthEnded { attempt }, moment),
{
}

/// The end of the latest playback flow frees the browser; the end of an earlier
/// one does not touch it.
pub proof fn the_end_of_the_latest_playback_flow_frees_the_browser(
    worker: WorkerModel,
    attempt: u64,
    moment: Moment,
)
    requires
        worker.pending_authorization is None,
        worker.playback_grant is None,
    ensures
        ({
            let after = worker.step(Command::PlaybackAuthEnded { attempt }, moment);
            let flow = worker.playback_flow == Some(attempt);
            after == (WorkerModel {
                cancel_signin: worker.cancel_signin && attempt != worker.authorization_attempt,
                engine_busy: worker.engine_busy && !flow,
                playback_flow: if flow {
                    None
                } else {
                    worker.playback_flow
                },
                ..worker
            })
        }),
{
}

// ---- the personal app -------------------------------------------------------------------

/// The personal app is replaced or removed by giving its old grant up: a flow
/// that is open is told to stop, the stored grant is revoked and deleted, the
/// session closed, and the interface told that no personal app is in use. A new
/// app waits for the browser where a flow was open, and is signed in to at once
/// where none was.
pub proof fn configuring_an_app_gives_the_old_one_up(
    worker: WorkerModel,
    client_id: Option<String>,
    moment: Moment,
)
    requires
        worker.room(3),
    ensures
        ({
            let after = worker.step(Command::ConfigurePersonalWebApp(client_id), moment);
            let stopped = if worker.cancel_signin {
                seq![ActionModel::CancelBrowser]
            } else {
                seq![]
            };
            let revoked = worker.log + stopped + seq![ActionModel::Revoke { slot: Slot::Personal }];
            let at = revoked.len() as int;
            &&& revoked.is_prefix_of(after.log)
            &&& after.log.len() >= at + 2
            &&& after.log[at] matches ActionModel::DeleteGrant { lease } && lease.slot
                == Slot::Personal && lease.generation > worker.credentials.personal
            &&& after.log[at + 1] == app_event(None)
            &&& after.web_client_id == client_id.deep_view()
            &&& after.web_tokens.personal is None && after.web_tokens.shared
                == worker.web_tokens.shared
            &&& after.api.shared == worker.api.shared
            &&& after.signed_in == worker.signed_in && after.playback_grant
                == worker.playback_grant
            &&& client_id is None ==> after.pending_authorization is None && after.log.len() == at
                + 2 && after.api.personal is Unavailable
            &&& client_id is Some && worker.cancel_signin ==> after.pending_authorization == Some(
                ApiSource::Personal,
            ) && after.log.len() == at + 2 && after.api.personal is Unavailable
            &&& client_id is Some && !worker.cancel_signin ==> after.log.len() == at + 3 && (
            match moment.personal_grant {
                Ok(_) => after.api.personal is Authorizing && after.cancel_signin && (
                after.log.last() matches ActionModel::BeginSignIn { source, client_id: app, .. }
                    && source == ApiSource::Personal && app == client_id.deep_view()),
                Err(why) => after.api.personal is Unavailable && !after.cancel_signin
                    && after.log.last() == error_event(why@),
            })
        }),
{
    let after = worker.step(Command::ConfigurePersonalWebApp(client_id), moment);
    assert(after == worker.configure_personal_web_app(
        client_id.deep_view(),
        moment.personal_grant,
    ));
    let stopped = if worker.cancel_signin {
        seq![ActionModel::CancelBrowser]
    } else {
        seq![]
    };
    let revoked = worker.log + stopped + seq![ActionModel::Revoke { slot: Slot::Personal }];
    assert forall|i: int| 0 <= i < revoked.len() implies revoked[i] == after.log[i] by {}
}

// ---- giving up ---------------------------------------------------------------------------

/// Giving up on an open flow tells the browser to stop and makes the flow's own
/// leases stale, and no others: those of the app it was for, or those on the
/// playback grant where it was for none.
pub proof fn giving_up_makes_the_open_flow_stale(worker: WorkerModel, moment: Moment)
    requires
        worker.room(1),
        worker.cancel_signin,
    ensures
        ({
            let after = worker.step(Command::CancelSignIn, moment);
            let given_up = match worker.authorizing_source {
                Some(ApiSource::Shared) => Slot::Shared,
                Some(ApiSource::Personal) => Slot::Personal,
                None => Slot::Playback,
            };
            &&& after.credentials.shared == worker.credentials.shared + (if given_up
                == Slot::Shared {
                1int
            } else {
                0
            })
            &&& after.credentials.personal == worker.credentials.personal + (if given_up
                == Slot::Personal {
                1int
            } else {
                0
            })
            &&& after.credentials.playback == worker.credentials.playback + (if given_up
                == Slot::Playback {
                1int
            } else {
                0
            })
            &&& after.log.len() > worker.log.len()
            &&& after.log[worker.log.len() as int] is CancelBrowser
            &&& after.authorization_attempt == worker.authorization_attempt + 1
            &&& !after.cancel_signin
            &&& after.api.shared == (if given_up == Slot::Shared && worker.api.shared
                is Authorizing {
                SessionModel::Unavailable
            } else {
                worker.api.shared
            })
            &&& after.api.personal == (if given_up == Slot::Personal && worker.api.personal
                is Authorizing {
                SessionModel::Unavailable
            } else {
                worker.api.personal
            })
            &&& after.api.playlists == worker.api.playlists
            &&& after.web_tokens == worker.web_tokens
            &&& after.playback_grant == worker.playback_grant
            &&& after.signed_in == worker.signed_in && after.premium == worker.premium
            &&& after.session == worker.session && after.engine == worker.engine
            &&& after.resume == worker.resume && after.resume_verify == worker.resume_verify
        }),
{
    assert(worker.step(Command::CancelSignIn, moment) == worker.cancel_sign_in());
}

/// Giving up where no flow is open stops nothing, and only what was still waiting
/// is dropped; results of earlier attempts are stale from then on.
pub proof fn giving_up_without_a_flow_stops_nothing(worker: WorkerModel, moment: Moment)
    requires
        worker.room(1),
        !worker.cancel_signin,
    ensures
        ({
            let after = worker.step(Command::CancelSignIn, moment);
            &&& after.log == worker.log
            &&& after.credentials == worker.credentials
            &&& after.authorization_attempt == worker.authorization_attempt + 1
            &&& !after.cancel_signin && after.authorizing_source is None
                && after.pending_authorization is None
            &&& after.playback_flow == worker.playback_flow
            &&& after.engine_busy == worker.engine_busy
        }),
{
}

/// What a listener reads when they sign out, and what is done, in order: the
/// stored grants are revoked, the engine stopped and the browser told to stop
/// where there is one, every stored grant deleted, playback shown as
/// unavailable and the listener as signed out. The settings stay.
pub proof fn signing_out_is_done_in_order(worker: WorkerModel, moment: Moment)
    requires
        worker.room(1),
    ensures
        ({
            let after = worker.step(Command::SignOut, moment);
            let stopped = if worker.engine {
                seq![ActionModel::StopEngine]
            } else {
                seq![]
            };
            let cancelled = if worker.cancel_signin {
                seq![ActionModel::CancelBrowser]
            } else {
                seq![]
            };
            &&& after.log == worker.log + seq![ActionModel::RevokeAll] + stopped + cancelled + seq![
                ActionModel::DeleteGrant { lease: after.credentials.spec_lease(Slot::Shared) },
                ActionModel::DeleteGrant { lease: after.credentials.spec_lease(Slot::Personal) },
                ActionModel::DeleteGrant { lease: after.credentials.spec_lease(Slot::Playback) },
                ActionModel::Emit(EventModel::Playback(PlaybackModel::Unavailable)),
                auth_event(AuthModel::SignedOut),
            ]
            &&& after.session == worker.session + 1
            &&& after.authorization_attempt == worker.authorization_attempt + 1
            &&& after.credentials == (CredentialStore {
                shared: (worker.credentials.shared + 1) as u64,
                personal: (worker.credentials.personal + 1) as u64,
                playback: (worker.credentials.playback + 1) as u64,
            })
            &&& after.engine_config == worker.engine_config && after.web_client_id
                == worker.web_client_id && after.web_scopes == worker.web_scopes
            &&& after.api.shared is Unavailable && after.api.personal is Unavailable
            &&& after.api.playlists == Map::<Seq<char>, Option<Seq<char>>>::empty()
            &&& !after.restore_pending.shared && !after.restore_pending.personal
                && !after.restore_pending.playback
        }),
{
    let after = worker.step(Command::SignOut, moment);
    assert(after == worker.sign_out());
    let stopped = if worker.engine {
        seq![ActionModel::StopEngine]
    } else {
        seq![]
    };
    let cancelled = if worker.cancel_signin {
        seq![ActionModel::CancelBrowser]
    } else {
        seq![]
    };
    assert(after.log =~= worker.log + seq![ActionModel::RevokeAll] + stopped + cancelled + seq![
        ActionModel::DeleteGrant { lease: after.credentials.spec_lease(Slot::Shared) },
        ActionModel::DeleteGrant { lease: after.credentials.spec_lease(Slot::Personal) },
        ActionModel::DeleteGrant { lease: after.credentials.spec_lease(Slot::Playback) },
        ActionModel::Emit(EventModel::Playback(PlaybackModel::Unavailable)),
        auth_event(AuthModel::SignedOut),
    ]);
}

// ---- answers -----------------------------------------------------------------------------

/// An answer within its session is shown as it is, last; an answer of another
/// session changes nothing.
pub proof fn an_answer_is_shown_within_its_session(
    worker: WorkerModel,
    generation: u64,
    response: ApiResponse,
    shared_lease: Lease,
    personal_lease: Lease,
    moment: Moment,
)
    ensures
        ({
            let after = worker.step(
                Command::ApiFinished {
                    generation,
                    response: Box::new(response),
                    expired: None,
                    shared_lease,
                    personal_lease,
                },
                moment,
            );
            &&& generation != worker.session ==> after == worker
            &&& generation == worker.session ==> after.log.len() > worker.log.len()
                && after.log.last() == ActionModel::Emit(EventModel::Api(response))
            &&& generation == worker.session && !(response matches ApiResponse::Me(Ok(_)))
                ==> only_asks(
                worker,
                after,
                seq![ActionModel::Emit(EventModel::Api(response))],
            )
        }),
{
    let shown = ActionModel::Emit(EventModel::Api(response));
    assert(worker.log.push(shown) =~= worker.log + seq![shown]);
}

/// The plan that an answer shows counts where it is the signed-in account's, and
/// only there.
pub proof fn a_plan_counts_for_the_signed_in_account(
    worker: WorkerModel,
    user: User,
    shared_lease: Lease,
    personal_lease: Lease,
    moment: Moment,
)
    ensures
        ({
            let response = ApiResponse::Me(Ok(user));
            let after = worker.step(
                Command::ApiFinished {
                    generation: worker.session,
                    response: Box::new(response),
                    expired: None,
                    shared_lease,
                    personal_lease,
                },
                moment,
            );
            let plan = match user.product {
                Some(product) => Some(product@ == "premium"@),
                None => None,
            };
            if worker.signed_in && worker.api.account() == Some(user.id@) {
                &&& after.premium == plan
                &&& plan == Some(false) ==> !after.engine
            } else {
                only_asks(worker, after, seq![ActionModel::Emit(EventModel::Api(response))])
            }
        }),
{
    let response = ApiResponse::Me(Ok(user));
    let shown = ActionModel::Emit(EventModel::Api(response));
    assert(worker.log.push(shown) =~= worker.log + seq![shown]);
    let after = worker.step(
        Command::ApiFinished {
            generation: worker.session,
            response: Box::new(response),
            expired: None,
            shared_lease,
            personal_lease,
        },
        moment,
    );
    assert(after == worker.on_api_finished(
        worker.session,
        response,
        None,
        shared_lease,
        personal_lease,
    ));
}

/// An answer that found its own app's grant expired says so: the shared app's
/// loss signs the listener out in plain words, the personal app's only ends its
/// use; the answer is shown all the same.
pub proof fn an_expired_grant_is_told_of(
    worker: WorkerModel,
    source: ApiSource,
    response: ApiResponse,
    shared_lease: Lease,
    personal_lease: Lease,
    moment: Moment,
)
    requires
        worker.room(1),
        match source {
            ApiSource::Shared => worker.credentials.holds(shared_lease),
            ApiSource::Personal => worker.credentials.holds(personal_lease),
        },
        !(response matches ApiResponse::Me(Ok(_))),
    ensures
        ({
            let after = worker.step(
                Command::ApiFinished {
                    generation: worker.session,
                    response: Box::new(response),
                    expired: Some(source),
                    shared_lease,
                    personal_lease,
                },
                moment,
            );
            let slot = slot_of(source);
            let told = match source {
                ApiSource::Shared => auth_event(
                    AuthModel::Failed("Your Spotify sign-in expired. Please sign in again."@),
                ),
                ApiSource::Personal => app_event(None),
            };
            &&& after.log == worker.log + seq![
                ActionModel::Revoke { slot },
                ActionModel::DeleteGrant { lease: after.credentials.spec_lease(slot) },
                told,
                ActionModel::Emit(EventModel::Api(response)),
            ]
            &&& after.credentials == worker.credentials.moved(slot)
            &&& after.signed_in == (worker.signed_in && source != ApiSource::Shared)
            &&& match source {
                ApiSource::Shared => after.web_tokens.shared is None && after.web_tokens.personal
                    == worker.web_tokens.personal && after.api.shared is Unavailable
                    && after.api.personal == worker.api.personal,
                ApiSource::Personal => after.web_tokens.personal is None && after.web_tokens.shared
                    == worker.web_tokens.shared && after.api.personal is Unavailable
                    && after.api.shared == worker.api.shared,
            }
        }),
{
    let after = worker.step(
        Command::ApiFinished {
            generation: worker.session,
            response: Box::new(response),
            expired: Some(source),
            shared_lease,
            personal_lease,
        },
        moment,
    );
    assert(after == worker.on_api_finished(
        worker.session,
        response,
        Some(source),
        shared_lease,
        personal_lease,
    ));
    let slot = slot_of(source);
    assert(after.log =~= worker.log + seq![
        ActionModel::Revoke { slot },
        ActionModel::DeleteGrant { lease: after.credentials.spec_lease(slot) },
        after.log[worker.log.len() + 2int],
        ActionModel::Emit(EventModel::Api(response)),
    ]);
}

}
