//! The local engine, step by step: when one is asked for and with what, what
//! its arrival or failure leads to, and how a song comes back.

use vstd::prelude::*;
use vstd::utf8::encode_utf8;

use crate::actions::ActionModel;
use crate::credentials::{names_account, AuthenticationType, CredentialsModel, Lease, Slot};
use crate::events::{Command, ConnectedEngine, EventModel, PlaybackModel};
use crate::laws::commands::only_asks;
use crate::model::{Moment, WorkerModel, RECONNECT_LIMIT};
use crate::models::{EngineConfig, Interrupted, LoadModel, LoadSpec};

verus! {

// ---- a song that comes back -----------------------------------------------------------

/// Whether a load brings a song back as it was: that song alone, at the same
/// spot, paused where it was paused and playing where it played.
pub open spec fn brings_back(load: LoadModel, interrupted: Interrupted) -> bool {
    &&& load.context_uri is None
    &&& load.uris.len() == 1
    &&& load.uris[0] == interrupted.uri@
    &&& load.position_ms == interrupted.position_ms
    &&& load.play == interrupted.playing
    &&& load.extra.len() == 0
}

/// The load made of an interrupted song brings it back as it was.
pub proof fn an_interrupted_song_is_remembered_as_it_was(interrupted: Interrupted, load: LoadSpec)
    requires
        call_ensures(LoadSpec::picking_up, (interrupted,), load),
    ensures
        load.uris@.len() == 1 && load.uris@[0]@ == interrupted.uri@,
        load.context_uri is None,
        load.position_ms == interrupted.position_ms,
        load.play == interrupted.playing,
        brings_back(load@, interrupted),
{
    assert(load.uris.deep_view().len() == load.uris@.len());
    assert(load.uris.deep_view()[0] == load.uris@[0]@);
}

/// After a dropped session or new audio settings, the load that the next engine
/// gets brings the song back as it was: what was paused stays paused, what was
/// playing plays, each at the spot where it stopped.
pub proof fn a_song_comes_back_as_it_was(
    worker: WorkerModel,
    command: Command,
    interrupted: Interrupted,
    engine: ConnectedEngine,
    error: Option<String>,
    dropped: Moment,
    connected: Moment,
    checked: Moment,
)
    requires
        worker.signed_in,
        worker.engine,
        worker.playback_flow is None,
        worker.premium != Some(false),
        worker.playback_grant matches Some(grant) && grant.username == worker.api.account(),
        worker.recent_reconnects(dropped.now).len() < RECONNECT_LIMIT,
        command is Reconnect || command is RestartEngine,
        dropped.interrupted == Some(interrupted),
        engine.credentials matches Some(grant) ==> names_account(grant@, worker.api.account()),
        checked.interrupted is None,
    ensures
        ({
            let down = worker.step(command, dropped);
            let lease = down.credentials.spec_lease(Slot::Playback);
            let up = down.step(
                Command::EngineConnected { engine: Some(engine), error, lease },
                connected,
            );
            let again = up.step(Command::VerifyResume, checked);
            &&& again.log.len() > up.log.len()
            &&& again.log[up.log.len() as int] matches ActionModel::LoadAgain(load)
            &&& load.context_uri is None
            &&& load.uris == seq![interrupted.uri@]
            &&& load.position_ms == interrupted.position_ms
            &&& load.play == interrupted.playing
        }),
{
    let settled = match command {
        Command::RestartEngine(config) => WorkerModel { engine_config: config, ..worker },
        _ => worker,
    };
    let down = settled.reconnect_engine(dropped);
    match command {
        Command::RestartEngine(config) => {
            assert(worker.step(Command::RestartEngine(config), dropped) == down);
        },
        _ => {
            assert(worker.step(Command::Reconnect, dropped) == down);
        },
    }
    let lease = down.credentials.spec_lease(Slot::Playback);
    let up = down.on_engine_connected(Some(engine), error);
    assert(down.step(Command::EngineConnected { engine: Some(engine), error, lease }, connected)
        == up);
    let again = up.verify_resume(false);
    assert(up.step(Command::VerifyResume, checked) == again);
    assert(again.log[up.log.len() as int] is LoadAgain);
}

/// What is remembered of a song when the engine goes down: the song as it was
/// where one was in the engine, nothing where none was; and where there was no
/// engine, what was remembered before.
pub proof fn what_is_remembered_when_the_engine_goes_down(
    worker: WorkerModel,
    command: Command,
    moment: Moment,
)
    requires
        worker.signed_in,
        command is Reconnect || command is RestartEngine,
        worker.recent_reconnects(moment.now).len() < RECONNECT_LIMIT,
    ensures
        ({
            let down = worker.step(command, moment);
            &&& !down.engine
            &&& down.resume_verify is None
            &&& !worker.engine ==> down.resume == worker.resume
            &&& worker.engine ==> match moment.interrupted {
                Some(interrupted) => down.resume matches Some(load) && brings_back(
                    load,
                    interrupted,
                ),
                None => down.resume is None,
            }
            &&& worker.engine ==> down.log.len() > worker.log.len()
                && down.log[worker.log.len() as int] is StopEngine
        }),
{
    let settled = match command {
        Command::RestartEngine(config) => WorkerModel { engine_config: config, ..worker },
        _ => worker,
    };
    let down = settled.reconnect_engine(moment);
    match command {
        Command::RestartEngine(config) => {
            assert(worker.step(Command::RestartEngine(config), moment) == down);
        },
        _ => {
            assert(worker.step(Command::Reconnect, moment) == down);
        },
    }
}

/// Nobody who is signed out is reconnected: only the settings are remembered.
pub proof fn nobody_signed_out_is_reconnected(
    worker: WorkerModel,
    config: EngineConfig,
    moment: Moment,
)
    requires
        !worker.signed_in,
    ensures
        worker.step(Command::Reconnect, moment) == worker,
        worker.step(Command::RestartEngine(config), moment) == (WorkerModel {
            engine_config: config,
            ..worker
        }),
{
}

/// A reconnect brings the engine up from the stored grant wherever it can be
/// brought up, at once, unless one is on its way; and nothing is asked for
/// where it cannot.
pub proof fn a_reconnect_brings_the_engine_up_where_it_can(worker: WorkerModel, moment: Moment)
    requires
        worker.signed_in,
        worker.recent_reconnects(moment.now).len() < RECONNECT_LIMIT,
    ensures
        ({
            let after = worker.step(Command::Reconnect, moment);
            let asks = !worker.engine_busy && worker.premium != Some(false) && (
            worker.playback_grant matches Some(grant) && grant.username == worker.api.account());
            &&& asks ==> after.engine_busy && after.log.last() == (ActionModel::ConnectEngine {
                credentials: worker.playback_grant->0,
                config: worker.engine_config,
                lease: worker.credentials.spec_lease(Slot::Playback),
            })
            &&& !asks ==> after.engine_busy == worker.engine_busy && forall|i: int|
                worker.log.len() <= i < after.log.len() ==> !(#[trigger] after.log[i]
                    is ConnectEngine)
            &&& after.playback_grant == worker.playback_grant && after.api == worker.api
                && after.signed_in
        }),
{
    assert(worker.step(Command::Reconnect, moment) == worker.reconnect_engine(moment));
}

/// New settings are taken up by a reconnect: a restart is nothing but the new
/// settings and then what a dropped session leads to.
pub proof fn a_restart_is_a_reconnect_with_new_settings(
    worker: WorkerModel,
    config: EngineConfig,
    moment: Moment,
)
    ensures
        worker.step(Command::RestartEngine(config), moment) == (WorkerModel {
            engine_config: config,
            ..worker
        }).step(Command::Reconnect, moment),
        worker.step(Command::RestartEngine(config), moment).engine_config == config,
{
}

/// A reconnect counts for ten minutes, and six of them are too many: of those
/// remembered, exactly the ones less than ten minutes old count.
pub proof fn a_reconnect_counts_for_ten_minutes(worker: WorkerModel, now: u64, at: u64)
    ensures
        worker.recent_reconnects(now).contains(at) <==> worker.reconnects.contains(at) && now - at
            < 600_000_000_000,
        (forall|i: int|
            0 <= i < worker.reconnects.len() ==> now - #[trigger] worker.reconnects[i]
                < 600_000_000_000) ==> worker.recent_reconnects(now) == worker.reconnects,
        RECONNECT_LIMIT == 6,
{
    let recent = |at: u64| now - at < 600_000_000_000;
    assert(worker.recent_reconnects(now) =~= worker.reconnects.filter(recent));
    worker.reconnects.filter_lemma(recent);
    if worker.reconnects.contains(at) && recent(at) {
        let i = worker.reconnects.index_of(at);
        assert(worker.reconnects.filter(recent).contains(worker.reconnects[i]));
    }
    if worker.reconnects.filter(recent).contains(at) {
        worker.reconnects.lemma_filter_contains_rev(recent, at);
        let i = worker.reconnects.filter(recent).index_of(at);
        assert(recent(worker.reconnects.filter(recent)[i]));
    }
    if forall|i: int|
        0 <= i < worker.reconnects.len() ==> now - #[trigger] worker.reconnects[i]
            < 600_000_000_000 {
        all_kept(worker.reconnects, recent);
    }
}

proof fn all_kept(all: Seq<u64>, keep: spec_fn(u64) -> bool)
    requires
        forall|i: int| 0 <= i < all.len() ==> keep(#[trigger] all[i]),
    ensures
        all.filter(keep) == all,
    decreases all.len(),
{
    reveal(Seq::filter);
    if all.len() > 0 {
        all_kept(all.drop_last(), keep);
        assert(all.drop_last().push(all.last()) =~= all);
        assert(keep(all[all.len() - 1]));
    }
}

/// The check of a pickup: while nothing plays it loads the song again, three
/// times at most, and looks again four seconds later; as soon as something
/// plays, the engine is gone or the tries are used up, the pickup is over and
/// nothing is asked for.
pub proof fn a_pickup_is_checked_until_something_plays(
    worker: WorkerModel,
    load: LoadModel,
    tries: u8,
    moment: Moment,
)
    requires
        worker.resume_verify == Some((load, tries)),
    ensures
        ({
            let after = worker.step(Command::VerifyResume, moment);
            if worker.engine && moment.interrupted is None && tries < 3 {
                &&& after.resume_verify == Some((load, (tries + 1) as u8))
                &&& after.log == worker.log + seq![
                    ActionModel::LoadAgain(load),
                    ActionModel::CheckResumeIn { delay_ms: 4_000 },
                ]
                &&& after == (WorkerModel {
                    resume_verify: after.resume_verify,
                    log: after.log,
                    ..worker
                })
            } else {
                after == (WorkerModel { resume_verify: None, ..worker })
            }
        }),
{
    let after = worker.step(Command::VerifyResume, moment);
    assert(after == worker.verify_resume(moment.interrupted is Some));
    if worker.engine && moment.interrupted is None && tries < 3 {
        assert(after.log =~= worker.log + seq![
            ActionModel::LoadAgain(load),
            ActionModel::CheckResumeIn { delay_ms: 4_000 },
        ]);
    }
}

/// Without a pickup under way there is nothing to check.
pub proof fn without_a_pickup_there_is_nothing_to_check(worker: WorkerModel, moment: Moment)
    requires
        worker.resume_verify is None,
    ensures
        worker.step(Command::VerifyResume, moment) == worker,
{
}

// ---- arrivals and failures --------------------------------------------------------------

/// Whether an engine that connected is for the verified account: it brought no
/// grant of its own, or one that names that account.
pub open spec fn is_ours(worker: WorkerModel, engine: ConnectedEngine) -> bool {
    engine.credentials matches Some(grant) ==> grant.username.deep_view() is Some
        && grant.username.deep_view() == worker.api.account() && grant.username->0@.len() > 0
}

/// An engine of the verified account is taken into use: the grant it brought is
/// stored, the song that waited is looked for a second and a half later, past
/// reconnects are forgiven, and the device is shown as ready.
pub proof fn an_engine_of_the_account_is_taken_into_use(
    worker: WorkerModel,
    engine: ConnectedEngine,
    error: Option<String>,
    lease: Lease,
    moment: Moment,
)
    requires
        worker.credentials.holds(lease),
        worker.signed_in,
        is_ours(worker, engine),
    ensures
        ({
            let after = worker.step(
                Command::EngineConnected { engine: Some(engine), error, lease },
                moment,
            );
            let saved = match engine.credentials {
                Some(grant) => seq![
                    ActionModel::SaveGrant {
                        lease: worker.credentials.spec_lease(Slot::Playback),
                        grant: grant@,
                    },
                ],
                None => seq![],
            };
            let checks = if worker.resume is Some {
                seq![ActionModel::CheckResumeIn { delay_ms: 1_500 }]
            } else {
                seq![]
            };
            &&& after.log == worker.log + saved + checks + seq![
                ActionModel::KeepEngine,
                ActionModel::Emit(
                    EventModel::Playback(PlaybackModel::Ready { device_id: engine.device_id@ }),
                ),
            ]
            &&& after.engine
            &&& after.engine_busy == (worker.playback_flow is Some)
            &&& after.reconnects.len() == 0
            &&& after.resume is None
            &&& after.resume_verify == match worker.resume {
                Some(load) => Some((load, 0u8)),
                None => worker.resume_verify,
            }
            &&& after.playback_grant == match engine.credentials {
                Some(grant) => Some(grant@),
                None => worker.playback_grant,
            }
            &&& after.api == worker.api && after.signed_in && after.credentials
                == worker.credentials && after.premium == worker.premium
        }),
{
    let after = worker.step(
        Command::EngineConnected { engine: Some(engine), error, lease },
        moment,
    );
    assert(after == worker.on_engine_connected(Some(engine), error));
    let saved = match engine.credentials {
        Some(grant) => seq![
            ActionModel::SaveGrant {
                lease: worker.credentials.spec_lease(Slot::Playback),
                grant: grant@,
            },
        ],
        None => seq![],
    };
    let checks = if worker.resume is Some {
        seq![ActionModel::CheckResumeIn { delay_ms: 1_500 }]
    } else {
        seq![]
    };
    assert(after.log =~= worker.log + saved + checks + seq![
        ActionModel::KeepEngine,
        ActionModel::Emit(
            EventModel::Playback(PlaybackModel::Ready { device_id: engine.device_id@ }),
        ),
    ]);
}

/// A connection that failed says why, and what waited for it is given up; an
/// engine of another account is shut down and the listener told to enable
/// playback again.
pub proof fn a_failed_connection_says_why(
    worker: WorkerModel,
    engine: ConnectedEngine,
    error: Option<String>,
    lease: Lease,
    moment: Moment,
)
    requires
        worker.credentials.holds(lease),
        worker.signed_in,
        !is_ours(worker, engine),
    ensures
        ({
            let failed = worker.step(
                Command::EngineConnected { engine: None, error, lease },
                moment,
            );
            let foreign = worker.step(
                Command::EngineConnected { engine: Some(engine), error, lease },
                moment,
            );
            let why = match error {
                Some(why) => why@,
                None => "Local playback is unavailable"@,
            };
            &&& failed.log == worker.log + seq![
                ActionModel::Emit(EventModel::Playback(PlaybackModel::Failed(why))),
            ]
            &&& failed.resume is None
            &&& failed == (WorkerModel {
                engine_busy: worker.playback_flow is Some,
                resume: None,
                log: failed.log,
                ..worker
            })
            &&& foreign.log == worker.log + seq![
                ActionModel::DiscardEngine,
                ActionModel::Emit(
                    EventModel::Playback(
                        PlaybackModel::Failed(
                            "Playback was authorized for another Spotify account. Enable playback again with the signed-in account."@,
                        ),
                    ),
                ),
            ]
            &&& foreign == (WorkerModel {
                engine_busy: worker.playback_flow is Some,
                log: foreign.log,
                ..worker
            })
        }),
{
    let failed = worker.step(Command::EngineConnected { engine: None, error, lease }, moment);
    assert(failed == worker.on_engine_connected(None, error));
    let foreign = worker.step(
        Command::EngineConnected { engine: Some(engine), error, lease },
        moment,
    );
    assert(foreign == worker.on_engine_connected(Some(engine), error));
    let why = match error {
        Some(why) => why@,
        None => "Local playback is unavailable"@,
    };
    assert(failed.log =~= worker.log + seq![
        ActionModel::Emit(EventModel::Playback(PlaybackModel::Failed(why))),
    ]);
    assert(foreign.log =~= worker.log + seq![
        ActionModel::DiscardEngine,
        ActionModel::Emit(
            EventModel::Playback(
                PlaybackModel::Failed(
                    "Playback was authorized for another Spotify account. Enable playback again with the signed-in account."@,
                ),
            ),
        ),
    ]);
}

/// An engine that nobody wants any more is shut down, and nothing else is made
/// of its arrival.
pub proof fn an_unwanted_engine_is_shut_down(
    worker: WorkerModel,
    engine: Option<ConnectedEngine>,
    error: Option<String>,
    lease: Lease,
    moment: Moment,
)
    requires
        !worker.signed_in || !worker.credentials.holds(lease),
    ensures
        ({
            let after = worker.step(Command::EngineConnected { engine, error, lease }, moment);
            &&& after.log == if engine is Some {
                worker.log.push(ActionModel::DiscardEngine)
            } else {
                worker.log
            }
            &&& after == (WorkerModel {
                engine_busy: after.engine_busy,
                log: after.log,
                ..worker
            })
            &&& after.engine_busy == if worker.credentials.holds(lease) {
                worker.playback_flow is Some
            } else {
                worker.engine_busy
            }
        }),
{
}

// ---- asking for playback ----------------------------------------------------------------

/// Asking for local playback opens the browser under a new attempt and a new
/// lease, and shows that; without Premium the listener only reads that it needs
/// Premium; and while a flow or a connection is under way nothing happens.
pub proof fn asking_for_playback_opens_the_browser(worker: WorkerModel, moment: Moment)
    requires
        worker.room(1),
    ensures
        ({
            let after = worker.step(Command::AuthorizePlayback, moment);
            if worker.engine_busy || worker.cancel_signin {
                after == worker
            } else if worker.premium == Some(false) {
                only_asks(
                    worker,
                    after,
                    seq![
                        ActionModel::Emit(
                            EventModel::Playback(
                                PlaybackModel::Failed("Local playback needs Spotify Premium."@),
                            ),
                        ),
                    ],
                )
            } else {
                &&& after.authorization_attempt == worker.authorization_attempt + 1
                &&& after.credentials == worker.credentials.moved(Slot::Playback)
                &&& after.cancel_signin && after.engine_busy
                &&& after.playback_flow == Some(after.authorization_attempt)
                &&& after.log == worker.log + seq![
                    ActionModel::Emit(EventModel::Playback(PlaybackModel::Authorizing)),
                    ActionModel::BeginPlaybackAuthorization {
                        lease: after.credentials.spec_lease(Slot::Playback),
                        attempt: after.authorization_attempt,
                    },
                ]
                &&& after == (WorkerModel {
                    authorization_attempt: after.authorization_attempt,
                    credentials: after.credentials,
                    cancel_signin: true,
                    engine_busy: true,
                    playback_flow: after.playback_flow,
                    log: after.log,
                    ..worker
                })
            }
        }),
{
    let after = worker.step(Command::AuthorizePlayback, moment);
    assert(after == worker.authorize_playback());
    let premium = ActionModel::Emit(
        EventModel::Playback(PlaybackModel::Failed("Local playback needs Spotify Premium."@)),
    );
    assert(worker.log.push(premium) =~= worker.log + seq![premium]);
    if !(worker.engine_busy || worker.cancel_signin) && worker.premium != Some(false) {
        assert(after.log =~= worker.log + seq![
            ActionModel::Emit(EventModel::Playback(PlaybackModel::Authorizing)),
            ActionModel::BeginPlaybackAuthorization {
                lease: after.credentials.spec_lease(Slot::Playback),
                attempt: after.authorization_attempt,
            },
        ]);
    }
}

/// The grant that a streaming token is turned into for an account.
pub open spec fn token_grant(account: Seq<char>, access_token: Seq<char>) -> CredentialsModel {
    CredentialsModel {
        username: Some(account),
        auth_type: AuthenticationType::SpotifyToken,
        auth_data: encode_utf8(access_token),
    }
}

/// A streaming token connects an engine for the verified account, with the
/// settings of now; without an account the listener is told to finish signing
/// in; and without Premium that it needs Premium.
pub proof fn a_streaming_token_connects_an_engine(
    worker: WorkerModel,
    access_token: String,
    lease: Lease,
    attempt: u64,
    moment: Moment,
)
    requires
        worker.credentials.holds(lease),
        worker.playback_flow is Some,
    ensures
        ({
            let after = worker.step(
                Command::PlaybackAuthorized { access_token, lease, attempt },
                moment,
            );
            let named = worker.api.account() matches Some(account) && account.len() > 0;
            &&& after.playback_flow is None
            &&& after.playback_grant == worker.playback_grant
            &&& named && worker.premium != Some(false) ==> after.engine_busy
                && !after.cancel_signin && after.log == worker.log + seq![
                ActionModel::Emit(EventModel::Playback(PlaybackModel::Connecting)),
                ActionModel::ConnectEngine {
                    credentials: token_grant(worker.api.account()->0, access_token@),
                    config: worker.engine_config,
                    lease: worker.credentials.spec_lease(Slot::Playback),
                },
            ]
            &&& named && worker.premium == Some(false) ==> !after.engine_busy && after.log
                == worker.log + seq![
                ActionModel::Emit(
                    EventModel::Playback(
                        PlaybackModel::Failed("Local playback needs Spotify Premium."@),
                    ),
                ),
            ]
            &&& !named ==> !after.engine_busy && after.log == worker.log + seq![
                ActionModel::Emit(
                    EventModel::Playback(
                        PlaybackModel::Failed(
                            "Finish signing in to Spotify before enabling playback."@,
                        ),
                    ),
                ),
            ]
        }),
{
    let after = worker.step(Command::PlaybackAuthorized { access_token, lease, attempt }, moment);
    assert(after == worker.on_playback_authorized(access_token@));
    assert(after.log =~= worker.log + after.log.skip(worker.log.len() as int));
    let asked = after.log.skip(worker.log.len() as int);
    if asked.len() == 2 {
        assert(asked =~= seq![asked[0], asked[1]]);
    } else {
        assert(asked =~= seq![asked[0]]);
    }
}

/// A stored grant brings an engine up for the verified account only: one of
/// another account is told of, and nothing is connected.
pub proof fn a_stored_grant_of_another_account_is_told_of(
    worker: WorkerModel,
    premium: Option<bool>,
)
    requires
        worker.signed_in,
        !worker.engine,
        !worker.engine_busy,
        worker.playback_grant matches Some(grant) && grant.username != worker.api.account(),
        premium != Some(false),
    ensures
        worker.on_account_checked(premium) == (WorkerModel {
            premium,
            log: worker.log.push(
                ActionModel::Emit(
                    EventModel::Playback(
                        PlaybackModel::Failed(
                            "Stored playback belongs to another Spotify account. Enable playback again."@,
                        ),
                    ),
                ),
            ),
            ..worker
        }),
{
}

/// A plan that is known not to allow local playback ends it: the engine in use
/// is stopped, and a listener who had enabled playback reads why. Any other
/// plan, known or not, is only remembered where an engine runs or is on its way.
pub proof fn a_plan_is_acted_on(worker: WorkerModel, premium: Option<bool>)
    ensures
        ({
            let after = worker.on_account_checked(premium);
            let stopped = if worker.engine {
                seq![ActionModel::StopEngine]
            } else {
                seq![]
            };
            let told = if worker.playback_grant is Some {
                seq![
                    ActionModel::Emit(
                        EventModel::Playback(
                            PlaybackModel::Failed("Local playback needs Spotify Premium."@),
                        ),
                    ),
                ]
            } else {
                seq![]
            };
            &&& after.premium == premium
            &&& premium == Some(false) ==> after == (WorkerModel {
                premium,
                engine: false,
                log: worker.log + stopped + told,
                ..worker
            })
            &&& premium != Some(false) && (worker.engine || worker.engine_busy
                || !worker.signed_in || worker.playback_grant is None) ==> after == (WorkerModel {
                premium,
                ..worker
            })
        }),
{
    let after = worker.on_account_checked(premium);
    if premium == Some(false) {
        let stopped = if worker.engine {
            seq![ActionModel::StopEngine]
        } else {
            seq![]
        };
        let told = if worker.playback_grant is Some {
            seq![
                ActionModel::Emit(
                    EventModel::Playback(
                        PlaybackModel::Failed("Local playback needs Spotify Premium."@),
                    ),
                ),
            ]
        } else {
            seq![]
        };
        assert(after.log =~= worker.log + stopped + told);
    }
}

/// Refused for want of a free window, a reconnect stops the engine, forgets the
/// song and says so in plain words.
pub proof fn a_refused_reconnect_says_so(worker: WorkerModel, moment: Moment)
    requires
        worker.signed_in,
        worker.recent_reconnects(moment.now).len() >= 6,
    ensures
        ({
            let after = worker.step(Command::Reconnect, moment);
            let stopped = if worker.engine {
                seq![ActionModel::StopEngine]
            } else {
                seq![]
            };
            &&& after.log == worker.log + stopped + seq![
                ActionModel::Emit(
                    EventModel::Playback(
                        PlaybackModel::Failed(
                            "Local playback keeps dropping. Re-enable it from Settings."@,
                        ),
                    ),
                ),
            ]
            &&& after.resume is None && after.resume_verify is None && !after.engine
            &&& after.reconnects == worker.recent_reconnects(moment.now)
        }),
{
    let after = worker.step(Command::Reconnect, moment);
    assert(after == worker.reconnect_engine(moment));
    let stopped = if worker.engine {
        seq![ActionModel::StopEngine]
    } else {
        seq![]
    };
    assert(after.log =~= worker.log + stopped + seq![after.log.last()]);
}

}
