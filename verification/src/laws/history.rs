//! What holds over any run of commands: time only goes forward, and a result
//! that has been overtaken is never heard again.

use vstd::prelude::*;

use crate::actions::ActionModel;
use crate::credentials::{Lease, Slot};
use crate::events::Command;
use crate::laws::step::{a_step_is_sound, advances};
use crate::model::{Moment, WorkerModel};
use crate::models::EngineConfig;

verus! {

/// A new worker is valid, and so is one that has begun to read its grants.
pub proof fn a_new_worker_is_valid(
    engine_config: EngineConfig,
    web_client_id: Option<Seq<char>>,
    web_scopes: Seq<Seq<char>>,
)
    ensures
        WorkerModel::fresh(engine_config, web_client_id, web_scopes).valid(),
        WorkerModel::fresh(engine_config, web_client_id, web_scopes).restore_session().valid(),
{
}

/// Whatever commands a worker takes, it stays valid, its counters never go
/// back, and what it asked to be done stays asked.
pub proof fn a_run_is_sound(worker: WorkerModel, commands: Seq<(Command, Moment)>)
    requires
        worker.valid(),
        worker.room(2int * commands.len()),
    ensures
        worker.run(commands).valid(),
        advances(worker, worker.run(commands), 2int * commands.len()),
        worker.log.is_prefix_of(worker.run(commands).log),
    decreases commands.len(),
{
    if commands.len() > 0 {
        let (command, moment) = commands[0];
        a_step_is_sound(worker, command, moment);
        let next = worker.step(command, moment);
        assert(worker.log.is_prefix_of(next.log));
        if !(command is Shutdown) {
            a_run_is_sound(next, commands.drop_first());
            let end = next.run(commands.drop_first());
            assert forall|i: int| 0 <= i < worker.log.len() implies worker.log[i]
                == end.log[i] by {
                assert(worker.log[i] == next.log[i]);
            }
            assert(worker.log.is_prefix_of(end.log));
        }
    }
}

/// A lease that has gone stale stays stale, whatever happens next.
pub proof fn a_stale_lease_stays_stale(
    worker: WorkerModel,
    commands: Seq<(Command, Moment)>,
    lease: Lease,
)
    requires
        worker.valid(),
        worker.room(2int * commands.len()),
        worker.credentials.issued(lease),
        !worker.credentials.holds(lease),
    ensures
        worker.run(commands).credentials.issued(lease),
        !worker.run(commands).credentials.holds(lease),
{
    a_run_is_sound(worker, commands);
}

impl WorkerModel {
    /// Whether a command is the result of work that may have been started by
    /// now: its lease has been taken, its attempt begun, its session seen.
    pub open spec fn may_have_started(self, result: Command) -> bool {
        match result {
            Command::CredentialsRestored { lease, .. } => self.credentials.issued(lease),
            Command::ApiFinished { generation, .. } => generation <= self.session,
            Command::WebSignedIn { lease, attempt, .. } => self.credentials.issued(lease) && attempt
                <= self.authorization_attempt,
            Command::WebVerified { lease, attempt, .. } => self.credentials.issued(lease) && attempt
                <= self.authorization_attempt,
            Command::WebVerificationFailed { lease, attempt, .. } => self.credentials.issued(lease)
                && attempt <= self.authorization_attempt,
            Command::SignInEnded { attempt, .. } => attempt <= self.authorization_attempt,
            Command::PlaybackAuthEnded { attempt } => attempt <= self.authorization_attempt,
            Command::PlaybackAuthorized { lease, attempt, .. } => self.credentials.issued(lease)
                && attempt <= self.authorization_attempt,
            Command::EngineConnected { lease, .. } => self.credentials.issued(lease),
            _ => false,
        }
    }

    /// Whether a result comes too late: its slot has moved on, a newer attempt
    /// has begun, or its session is over.
    pub open spec fn overtaken(self, result: Command) -> bool {
        match result {
            Command::CredentialsRestored { lease, .. } => !self.credentials.holds(lease),
            Command::ApiFinished { generation, .. } => generation != self.session,
            Command::WebSignedIn { lease, attempt, .. } => !self.credentials.holds(lease) && attempt
                != self.authorization_attempt,
            Command::WebVerified { lease, attempt, .. } => !self.credentials.holds(lease) && attempt
                != self.authorization_attempt,
            Command::WebVerificationFailed { lease, attempt, .. } => !self.credentials.holds(lease)
                && attempt != self.authorization_attempt,
            Command::SignInEnded { attempt, .. } => attempt != self.authorization_attempt,
            Command::PlaybackAuthEnded { attempt } => attempt != self.authorization_attempt
                && self.playback_flow != Some(attempt),
            Command::PlaybackAuthorized { lease, attempt, .. } => !self.credentials.holds(lease)
                && attempt != self.authorization_attempt && self.playback_flow != Some(attempt),
            Command::EngineConnected { lease, .. } => !self.credentials.holds(lease),
            _ => false,
        }
    }

    /// What a result that comes too late leaves: everything as it was, but
    /// that an engine nobody wants any more is shut down.
    pub open spec fn ignores(self, result: Command) -> WorkerModel {
        match result {
            Command::EngineConnected { engine: Some(_), .. } => self.acts(
                ActionModel::DiscardEngine,
            ),
            _ => self,
        }
    }
}

/// A result that comes too late changes nothing.
pub proof fn an_overtaken_result_is_ignored(worker: WorkerModel, result: Command, moment: Moment)
    requires
        worker.overtaken(result),
    ensures
        worker.step(result, moment) == worker.ignores(result),
{
    match result {
        Command::CredentialsRestored { slot, lease, result } => {},
        Command::ApiFinished { generation, response, expired, shared_lease, personal_lease } => {},
        Command::WebSignedIn { source, token, lease, attempt } => {},
        Command::WebVerified { source, token, user, lease, attempt } => {},
        Command::WebVerificationFailed { source, lease, attempt, error } => {},
        Command::SignInEnded { source, attempt } => {},
        Command::PlaybackAuthEnded { attempt } => {},
        Command::PlaybackAuthorized { access_token, lease, attempt } => {},
        Command::EngineConnected { engine, error, lease } => {},
        _ => {},
    }
}

/// A result that has been overtaken stays overtaken, whatever happens next.
pub proof fn an_overtaken_result_stays_overtaken(
    worker: WorkerModel,
    commands: Seq<(Command, Moment)>,
    result: Command,
)
    requires
        worker.valid(),
        worker.room(2int * commands.len()),
        worker.may_have_started(result),
        worker.overtaken(result),
    ensures
        worker.run(commands).overtaken(result),
{
    a_run_is_sound(worker, commands);
}

/// Signing out overtakes all work under way, whatever it is for.
pub proof fn signing_out_overtakes_all_work(worker: WorkerModel, result: Command)
    requires
        worker.room(1),
        worker.may_have_started(result),
    ensures
        worker.sign_out().may_have_started(result),
        worker.sign_out().overtaken(result),
{
}

/// No result of work started before a sign-out is heard after it, however
/// late it comes and whatever has happened since: not a grant that was being
/// read, a browser flow, a verification, an engine, nor an answer.
pub proof fn no_late_result_undoes_a_sign_out(
    worker: WorkerModel,
    commands: Seq<(Command, Moment)>,
    result: Command,
    moment: Moment,
)
    requires
        worker.valid(),
        worker.room(1 + 2int * commands.len()),
        worker.may_have_started(result),
    ensures
        ({
            let now = worker.sign_out().run(commands);
            now.step(result, moment) == now.ignores(result)
        }),
{
    let out = worker.sign_out();
    assert(out.valid());
    assert(out.room(2int * commands.len()));
    signing_out_overtakes_all_work(worker, result);
    an_overtaken_result_stays_overtaken(out, commands, result);
    an_overtaken_result_is_ignored(out.run(commands), result, moment);
}

/// Whether a command can be what an action reports back.
pub open spec fn reports(action: ActionModel, result: Command) -> bool {
    match (action, result) {
        (
            ActionModel::BeginSignIn { source, lease, attempt, .. },
            Command::WebSignedIn { source: of, lease: under, attempt: number, .. },
        ) => of == source && under == lease && number == attempt,
        (
            ActionModel::BeginSignIn { source, attempt, .. },
            Command::SignInEnded { source: of, attempt: number },
        ) => of == source && number == attempt,
        (
            ActionModel::BeginPlaybackAuthorization { lease, attempt },
            Command::PlaybackAuthorized { lease: under, attempt: number, .. },
        ) => under == lease && number == attempt,
        (
            ActionModel::BeginPlaybackAuthorization { attempt, .. },
            Command::PlaybackAuthEnded { attempt: number },
        ) => number == attempt,
        (
            ActionModel::VerifyToken { source, lease, attempt, .. },
            Command::WebVerified { source: of, lease: under, attempt: number, .. },
        ) => of == source && under == lease && number == attempt,
        (
            ActionModel::VerifyToken { source, lease, attempt, .. },
            Command::WebVerificationFailed { source: of, lease: under, attempt: number, .. },
        ) => of == source && under == lease && number == attempt,
        (
            ActionModel::VerifyToken { source, attempt, .. },
            Command::SignInEnded { source: of, attempt: number },
        ) => of == source && number == attempt,
        (
            ActionModel::ConnectEngine { lease, .. },
            Command::EngineConnected { lease: under, .. },
        ) => under == lease,
        (
            ActionModel::Dispatch { generation, .. },
            Command::ApiFinished { generation: number, .. },
        ) => number == generation,
        _ => false,
    }
}

/// Whatever a step asks for, its report is one of work that has been started.
pub proof fn what_is_asked_for_has_started(
    worker: WorkerModel,
    command: Command,
    moment: Moment,
    i: int,
    result: Command,
)
    requires
        worker.valid(),
        worker.room(2),
        worker.log.len() <= i < worker.step(command, moment).log.len(),
        reports(worker.step(command, moment).log[i], result),
    ensures
        worker.step(command, moment).may_have_started(result),
{
    a_step_is_sound(worker, command, moment);
}

/// Nothing that was asked for before a sign-out is heard after it: a report
/// that comes once the listener has signed out, at whatever distance from
/// either, is ignored.
pub proof fn nothing_asked_before_a_sign_out_is_heard_after_it(
    worker: WorkerModel,
    command: Command,
    moment: Moment,
    i: int,
    before: Seq<(Command, Moment)>,
    after: Seq<(Command, Moment)>,
    result: Command,
    late: Moment,
)
    requires
        worker.valid(),
        worker.room(3 + 2int * before.len() + 2int * after.len()),
        worker.log.len() <= i < worker.step(command, moment).log.len(),
        reports(worker.step(command, moment).log[i], result),
    ensures
        ({
            let now = worker.step(command, moment).run(before).sign_out().run(after);
            now.step(result, late) == now.ignores(result)
        }),
{
    what_is_asked_for_has_started(worker, command, moment, i, result);
    a_step_is_sound(worker, command, moment);
    let asked = worker.step(command, moment);
    a_run_is_sound(asked, before);
    no_late_result_undoes_a_sign_out(asked.run(before), after, result, late);
}

/// Signing out leaves nothing of the session: no grant, no account, no engine
/// and nothing under way, every lease stale, and every stored grant deleted.
pub proof fn signing_out_leaves_nothing(worker: WorkerModel)
    requires
        worker.room(1),
    ensures
        ({
            let out = worker.sign_out();
            &&& !out.signed_in && !out.engine && !out.engine_busy && !out.cancel_signin
                && out.playback_flow is None
            &&& out.playback_grant is None && out.web_tokens.shared is None
                && out.web_tokens.personal is None
            &&& out.api.account() is None && out.premium is None && out.resume is None
                && out.resume_verify is None
            &&& out.authorizing_source is None && out.pending_authorization is None
            &&& forall|lease: Lease| #[trigger]
                worker.credentials.issued(lease) ==> !out.credentials.holds(lease)
            &&& forall|slot: Slot|
                out.log.contains(
                    #[trigger] deletion(out.credentials.spec_lease(slot)),
                )
        }),
{
    let out = worker.sign_out();
    let base = worker.log.len() + 1 + (if worker.engine {
        1int
    } else {
        0
    }) + (if worker.cancel_signin {
        1int
    } else {
        0
    });
    assert(out.log[base] == deletion(out.credentials.spec_lease(Slot::Shared)));
    assert(out.log[base + 1] == deletion(out.credentials.spec_lease(Slot::Personal)));
    assert(out.log[base + 2] == deletion(out.credentials.spec_lease(Slot::Playback)));
    assert forall|slot: Slot| out.log.contains(
        #[trigger] deletion(out.credentials.spec_lease(slot)),
    ) by {
        match slot {
            Slot::Shared => {},
            Slot::Personal => {},
            Slot::Playback => {},
        }
    }
}

/// The deletion of the grant that a lease is for.
pub open spec fn deletion(lease: Lease) -> ActionModel {
    ActionModel::DeleteGrant { lease }
}

}
