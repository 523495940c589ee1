//! Playback on this computer: for whom an engine runs, how often it is tried,
//! and how a song comes back after a dropped session.

use vstd::prelude::*;

use crate::actions::ActionModel;
use crate::credentials::{names_account, Credentials, Lease, Slot};
use crate::events::{Command, ConnectedEngine, EventModel, PlaybackModel};
use crate::laws::step::{a_step_is_sound, ends_flow, in_order};
use crate::model::{
    Moment, WorkerModel, KEEPS_DROPPING, RECONNECT_LIMIT, RECONNECT_WINDOW_NS, RESUME_TRIES,
};
use crate::models::{EngineConfig, Interrupted, LoadModel};

verus! {

/// An engine is connected only with the verified account's grant, only where
/// the plan may allow it, and only while none is being connected already.
pub proof fn an_engine_is_connected_for_the_verified_account(
    worker: WorkerModel,
    command: Command,
    moment: Moment,
    i: int,
)
    requires
        worker.valid(),
        worker.room(2),
        worker.log.len() <= i < worker.step(command, moment).log.len(),
        worker.step(command, moment).log[i] is ConnectEngine,
    ensures
        ({
            let after = worker.step(command, moment);
            &&& !worker.connecting() && after.connecting()
            &&& after.premium != Some(false)
            &&& after.log[i] matches ActionModel::ConnectEngine { credentials, config, lease }
            &&& credentials.username == worker.in_force(command, moment)
            &&& config == after.engine_config
            &&& after.credentials.holds(lease)
        }),
{
    a_step_is_sound(worker, command, moment);
}

/// Asking for local playback keeps the engine busy from the moment the browser
/// opens, so that no second attempt piles up.
pub proof fn asking_for_playback_keeps_the_engine_busy(worker: WorkerModel, moment: Moment)
    requires
        worker.room(1),
        !worker.engine_busy,
        !worker.cancel_signin,
        worker.premium != Some(false),
    ensures
        ({
            let after = worker.step(Command::AuthorizePlayback, moment);
            let lease = after.credentials.spec_lease(Slot::Playback);
            let attempt = after.authorization_attempt;
            &&& after.engine_busy
            &&& after.playback_flow == Some(attempt)
            &&& after.log.last() == ActionModel::BeginPlaybackAuthorization { lease, attempt }
        }),
{
}

/// While a playback grant is in flight, the engine stays busy and none is
/// connected, whatever else happens; only the flow's own report, giving up or
/// signing out ends that.
pub proof fn the_engine_is_busy_while_a_playback_grant_is_in_flight(
    worker: WorkerModel,
    command: Command,
    moment: Moment,
    attempt: u64,
)
    requires
        worker.valid(),
        worker.room(2),
        worker.playback_flow == Some(attempt),
        !ends_flow(command, attempt),
    ensures
        ({
            let after = worker.step(command, moment);
            &&& after.playback_flow == Some(attempt)
            &&& after.engine_busy
            &&& forall|i: int|
                worker.log.len() <= i < after.log.len() ==> !(#[trigger] after.log[i]
                    is ConnectEngine)
        }),
{
    a_step_is_sound(worker, command, moment);
    let after = worker.step(command, moment);
    assert forall|i: int| worker.log.len() <= i < after.log.len() implies !(
    #[trigger] after.log[i] is ConnectEngine) by {
        assert(in_order(worker, after, worker.in_force(command, moment), after.log[i]));
    }
}

/// A connection attempt that ends leaves the engine free for the next one,
/// whether or not anybody is still signed in when it reports.
pub proof fn a_connection_that_ends_frees_the_engine(
    worker: WorkerModel,
    engine: Option<ConnectedEngine>,
    error: Option<String>,
    lease: Lease,
    moment: Moment,
)
    requires
        worker.playback_flow is None,
        worker.credentials.holds(lease),
    ensures
        !worker.step(Command::EngineConnected { engine, error, lease }, moment).engine_busy,
{
    assert(worker.step(Command::EngineConnected { engine, error, lease }, moment) == (
    if worker.signed_in {
        worker.on_engine_connected(engine, error)
    } else {
        worker.drops_connection(lease, engine is Some)
    }));
}

/// Whether a command ends the playback flow in flight without a grant: the
/// flow reports so, or the listener gives up on it.
pub open spec fn ends_without_grant(worker: WorkerModel, command: Command) -> bool {
    match command {
        Command::PlaybackAuthEnded { attempt } => worker.playback_flow == Some(attempt),
        Command::CancelSignIn => worker.cancel_signin && worker.playback_flow == Some(
            worker.authorization_attempt,
        ),
        _ => false,
    }
}

/// Whether the engine can be brought up from the stored grant.
pub open spec fn can_resume(worker: WorkerModel) -> bool {
    &&& worker.signed_in
    &&& !worker.engine
    &&& worker.premium != Some(false)
    &&& worker.playback_grant matches Some(grant) && grant.username == worker.api.account()
}

/// Where a playback flow ends, the engine is brought up if it can be.
proof fn a_freed_engine_resumes(worker: WorkerModel)
    requires
        worker.playback_flow is Some,
    ensures
        ({
            let over = worker.ends_playback_flow().resume_engine();
            &&& over.playback_flow is None
            &&& over.engine_busy == can_resume(worker)
            &&& over.resume == worker.resume
            &&& over.credentials == worker.credentials
            &&& over.log.len() >= worker.log.len()
            &&& can_resume(worker) ==> over.log.len() == worker.log.len() + 2 && over.log.last()
                == ActionModel::ConnectEngine {
                credentials: worker.playback_grant->0,
                config: worker.engine_config,
                lease: worker.credentials.spec_lease(Slot::Playback),
            }
        }),
{
}

/// A waiting sign-in leaves the engine as it is, and the log as a beginning.
proof fn a_waiting_sign_in_keeps_the_engine(worker: WorkerModel, grant: Result<(), String>)
    ensures
        ({
            let after = worker.starts_pending(grant);
            &&& after.playback_flow == worker.playback_flow
            &&& after.engine_busy == worker.engine_busy
            &&& after.resume == worker.resume
            &&& after.credentials.spec_lease(Slot::Playback) == worker.credentials.spec_lease(
                Slot::Playback,
            )
            &&& worker.log.is_prefix_of(after.log)
        }),
{
}

/// A playback flow that ends without a grant leaves the engine free, unless it
/// is brought up from the stored grant at once: what the flow held back, a
/// dropped session, new settings or a plan just learnt, is made up for.
pub proof fn a_flow_without_a_grant_holds_nothing_back(
    worker: WorkerModel,
    command: Command,
    moment: Moment,
)
    requires
        worker.valid(),
        worker.room(2),
        ends_without_grant(worker, command),
    ensures
        ({
            let after = worker.step(command, moment);
            &&& after.playback_flow is None
            &&& after.engine_busy == can_resume(worker)
            &&& after.resume == worker.resume
            &&& can_resume(worker) ==> exists|i: int|
                worker.log.len() <= i < after.log.len() && #[trigger] after.log[i]
                    == (ActionModel::ConnectEngine {
                    credentials: worker.playback_grant->0,
                    config: worker.engine_config,
                    lease: after.credentials.spec_lease(Slot::Playback),
                })
        }),
{
    let after = worker.step(command, moment);
    match command {
        Command::PlaybackAuthEnded { attempt } => {
            let over = worker.ends_playback_flow().resume_engine();
            a_freed_engine_resumes(worker);
            a_waiting_sign_in_keeps_the_engine(
                WorkerModel { cancel_signin: false, ..over },
                moment.personal_grant,
            );
            assert(after == worker.finish_playback_authorization(attempt, moment.personal_grant));
            assert(can_resume(worker) ==> after.log[over.log.len() - 1] == over.log.last());
        },
        _ => {
            assert(after == worker.cancel_sign_in());
            assert(after.log[after.log.len() - 1] == after.log.last());
        },
    }
}

/// Playback grants are stored, and handed to receivers, only where they are
/// the verified account's; and stored only together with their engine.
pub proof fn playback_grants_stay_with_the_verified_account(
    worker: WorkerModel,
    command: Command,
    moment: Moment,
    i: int,
)
    requires
        worker.valid(),
        worker.room(2),
        worker.log.len() <= i < worker.step(command, moment).log.len(),
    ensures
        match worker.step(command, moment).log[i] {
            ActionModel::SaveGrant { grant, .. } => names_account(
                grant,
                worker.in_force(command, moment),
            ) && worker.step(command, moment).engine && worker.step(
                command,
                moment,
            ).playback_grant == Some(grant),
            ActionModel::ActivateReceiver { credentials: Some(grant), .. } => grant.username
                == worker.in_force(command, moment),
            _ => true,
        },
{
    a_step_is_sound(worker, command, moment);
}

/// What is read from and written to disk is the verified account's.
pub proof fn caches_belong_to_the_verified_account(
    worker: WorkerModel,
    command: Command,
    moment: Moment,
    i: int,
)
    requires
        worker.valid(),
        worker.room(2),
        worker.log.len() <= i < worker.step(command, moment).log.len(),
    ensures
        match worker.step(command, moment).log[i] {
            ActionModel::ReadPlaylistCache { account_id, .. }
            | ActionModel::WritePlaylistCache { account_id, .. }
            | ActionModel::ReadLikedSongs { account_id, .. } => worker.in_force(command, moment)
                == Some(account_id),
            ActionModel::WriteLikedSongs(cache) => worker.in_force(command, moment) == Some(
                cache.account_id@,
            ),
            _ => true,
        },
{
    a_step_is_sound(worker, command, moment);
}

/// An engine that comes up with another account's grant is shut down at once,
/// and its grant is not kept.
pub proof fn an_engine_of_another_account_is_not_used(
    worker: WorkerModel,
    device_id: String,
    grant: Credentials,
    error: Option<String>,
    lease: Lease,
    moment: Moment,
)
    requires
        worker.credentials.holds(lease),
        worker.signed_in,
        !names_account(grant@, worker.api.account()),
    ensures
        ({
            let engine = Some(ConnectedEngine { device_id, credentials: Some(grant) });
            let after = worker.step(Command::EngineConnected { engine, error, lease }, moment);
            &&& after.engine == worker.engine
            &&& after.playback_grant == worker.playback_grant
            &&& after.log[worker.log.len() as int] is DiscardEngine
            &&& forall|i: int|
                worker.log.len() <= i < after.log.len() ==> !(#[trigger] after.log[i] is SaveGrant)
                    && !(after.log[i] is KeepEngine)
        }),
{
}

/// An account known to have no Premium plan has no engine.
pub proof fn no_engine_without_premium(worker: WorkerModel)
    ensures
        !worker.on_account_checked(Some(false)).engine,
        worker.engine ==> worker.on_account_checked(Some(false)).log[worker.log.len() as int]
            is StopEngine,
{
}

/// A stored grant of the verified account brings an engine up unless the plan
/// is known not to allow it: an unknown plan does not stand in the way.
pub proof fn an_engine_comes_up_unless_the_plan_forbids_it(
    worker: WorkerModel,
    premium: Option<bool>,
)
    requires
        worker.signed_in,
        !worker.engine,
        !worker.engine_busy,
        worker.playback_grant matches Some(grant) && grant.username == worker.api.account(),
        premium != Some(false),
    ensures
        ({
            let after = worker.on_account_checked(premium);
            &&& after.engine_busy
            &&& after.log.last() == ActionModel::ConnectEngine {
                credentials: worker.playback_grant->0,
                config: worker.engine_config,
                lease: worker.credentials.spec_lease(Slot::Playback),
            }
        }),
{
}

/// After as many reconnects as the window holds, the next one is refused: no
/// engine is brought up, nothing waits to be picked up, and the listener is
/// told.
pub proof fn reconnects_are_limited(worker: WorkerModel, moment: Moment)
    requires
        worker.signed_in,
        worker.recent_reconnects(moment.now).len() >= RECONNECT_LIMIT,
    ensures
        ({
            let after = worker.step(Command::Reconnect, moment);
            &&& !after.engine && after.engine_busy == worker.engine_busy
            &&& after.resume is None && after.resume_verify is None
            &&& after.log.last() == ActionModel::Emit(
                EventModel::Playback(PlaybackModel::Failed(KEEPS_DROPPING@)),
            )
            &&& forall|i: int|
                worker.log.len() <= i < after.log.len() ==> !(#[trigger] after.log[i]
                    is ConnectEngine)
        }),
{
}

/// Every reconnect that is let through is counted, together with those of the
/// window before it and no others.
pub proof fn reconnects_are_counted(worker: WorkerModel, moment: Moment)
    requires
        worker.signed_in,
        worker.recent_reconnects(moment.now).len() < RECONNECT_LIMIT,
    ensures
        ({
            let after = worker.step(Command::Reconnect, moment);
            &&& after.reconnects == worker.recent_reconnects(moment.now).push(moment.now)
            &&& after.reconnects.len() <= RECONNECT_LIMIT
            &&& forall|i: int|
                0 <= i < after.reconnects.len() ==> moment.now - #[trigger] after.reconnects[i]
                    < RECONNECT_WINDOW_NS
        }),
{
    let recent = worker.recent_reconnects(moment.now);
    assert forall|i: int| 0 <= i < recent.len() implies moment.now - #[trigger] recent[i]
        < RECONNECT_WINDOW_NS by {
        worker.reconnects.lemma_filter_pred(|at: u64| moment.now - at < RECONNECT_WINDOW_NS, i);
    }
    assert(worker.step(Command::Reconnect, moment) == worker.reconnect_engine(moment));
}

/// What was playing when the session dropped, or new audio settings replaced
/// the engine, comes back at the same spot once the next engine is up, as long
/// as nothing else has started to play. The next engine is asked for at once,
/// unless one is being connected already.
pub proof fn what_was_playing_comes_back(
    worker: WorkerModel,
    command: Command,
    interrupted: Interrupted,
    engine: ConnectedEngine,
    error: Option<String>,
    dropped: Moment,
    connected: Moment,
    checked: Moment,
)
    requires
        worker.signed_in,
        worker.engine,
        worker.playback_flow is None,
        worker.premium != Some(false),
        worker.playback_grant matches Some(grant) && grant.username == worker.api.account(),
        worker.recent_reconnects(dropped.now).len() < RECONNECT_LIMIT,
        command is Reconnect || command is RestartEngine,
        dropped.interrupted == Some(interrupted),
        engine.credentials matches Some(grant) ==> names_account(grant@, worker.api.account()),
        checked.interrupted is None,
    ensures
        ({
            let down = worker.step(command, dropped);
            let lease = down.credentials.spec_lease(Slot::Playback);
            let arrived = Command::EngineConnected { engine: Some(engine), error, lease };
            let up = down.step(arrived, connected);
            let again = up.step(Command::VerifyResume, checked);
            &&& !worker.engine_busy ==> down.log.last() == ActionModel::ConnectEngine {
                credentials: worker.playback_grant->0,
                config: down.engine_config,
                lease,
            }
            &&& up.engine
            &&& again.log.contains(ActionModel::LoadAgain(LoadModel::picking_up(interrupted)))
        }),
{
    let settled = match command {
        Command::RestartEngine(config) => WorkerModel { engine_config: config, ..worker },
        _ => worker,
    };
    let down = settled.reconnect_engine(dropped);
    match command {
        Command::RestartEngine(config) => {
            assert(worker.step(Command::RestartEngine(config), dropped) == down);
        },
        _ => {
            assert(worker.step(Command::Reconnect, dropped) == down);
        },
    }
    assert(down.resume == Some(LoadModel::picking_up(interrupted)));
    let lease = down.credentials.spec_lease(Slot::Playback);
    let up = down.on_engine_connected(Some(engine), error);
    assert(down.step(Command::EngineConnected { engine: Some(engine), error, lease }, connected)
        == up);
    assert(up.resume_verify == Some((LoadModel::picking_up(interrupted), 0u8)));
    let again = up.verify_resume(false);
    assert(up.step(Command::VerifyResume, checked) == again);
    assert(again.log[up.log.len() as int] == ActionModel::LoadAgain(
        LoadModel::picking_up(interrupted),
    ));
}

/// A worker that has checked its pickup `times` times, with nothing playing
/// at any of them.
pub open spec fn checked_pickup(worker: WorkerModel, times: nat) -> WorkerModel
    decreases times,
{
    if times == 0 {
        worker
    } else {
        checked_pickup(worker, (times - 1) as nat).verify_resume(false)
    }
}

/// A pickup that never starts to play is tried three times and then given up:
/// the checks ask for that many loads, and end.
pub proof fn a_pickup_is_tried_three_times(worker: WorkerModel, load: LoadModel, times: nat)
    requires
        worker.engine,
        worker.resume_verify == Some((load, 0u8)),
    ensures
        ({
            let after = checked_pickup(worker, times);
            if times <= RESUME_TRIES {
                &&& after.resume_verify == Some((load, times as u8))
                &&& after.log.len() == worker.log.len() + 2 * times
                &&& forall|k: int|
                    0 <= k < times ==> #[trigger] after.log[worker.log.len() + 2 * k]
                        == ActionModel::LoadAgain(load)
            } else {
                &&& after.resume_verify is None
                &&& after.log == checked_pickup(worker, RESUME_TRIES as nat).log
            }
        }),
    decreases times,
{
    if times > 0 {
        let prior = (times - 1) as nat;
        a_pickup_is_tried_three_times(worker, load, prior);
        let before = checked_pickup(worker, prior);
        let after = checked_pickup(worker, times);
        assert(after == before.verify_resume(false));
        if times <= RESUME_TRIES {
            assert forall|k: int| 0 <= k < times implies #[trigger] after.log[worker.log.len() + 2
                * k] == ActionModel::LoadAgain(load) by {
                if k < prior {
                    assert(after.log[worker.log.len() + 2 * k] == before.log[worker.log.len() + 2
                        * k]);
                }
            }
        } else if prior == RESUME_TRIES {
            assert(before == checked_pickup(worker, RESUME_TRIES as nat));
        }
        assert(before.engine) by {
            checking_keeps_the_engine(worker, prior);
        }
    }
}

proof fn checking_keeps_the_engine(worker: WorkerModel, times: nat)
    ensures
        checked_pickup(worker, times).engine == worker.engine,
    decreases times,
{
    if times > 0 {
        checking_keeps_the_engine(worker, (times - 1) as nat);
    }
}

/// New audio settings reach the next engine: whatever is connected after a
/// restart is connected with them.
pub proof fn a_restart_uses_the_new_settings(
    worker: WorkerModel,
    config: EngineConfig,
    moment: Moment,
    i: int,
)
    requires
        worker.valid(),
        worker.room(2),
        worker.log.len() <= i < worker.step(Command::RestartEngine(config), moment).log.len(),
    ensures
        worker.step(Command::RestartEngine(config), moment).engine_config == config,
        worker.step(Command::RestartEngine(config), moment).log[i] matches
            ActionModel::ConnectEngine { config: used, .. } ==> used == config,
{
    a_step_is_sound(worker, Command::RestartEngine(config), moment);
}

}
