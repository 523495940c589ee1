//! What each command of the interface leads to: which actions, with which of
//! its values, and what stays as it was.

use vstd::prelude::*;

use crate::actions::ActionModel;
use crate::credentials::Slot;
use crate::events::{Command, EventModel, LyricsRequest};
use crate::model::{Moment, WorkerModel};
use crate::models::{LikedSongs, PlayerCommand, PlaylistItem, Receiver};
use crate::requests::ApiRequest;

verus! {

/// Whether a step asked for exactly these actions, in order, and changed nothing
/// else.
pub open spec fn only_asks(
    before: WorkerModel,
    after: WorkerModel,
    actions: Seq<ActionModel>,
) -> bool {
    after == WorkerModel { log: before.log + actions, ..before }
}

/// An order to the engine in use is handed to it, as it is; without an engine
/// the listener reads that there is none.
pub proof fn an_order_goes_to_the_engine_in_use(
    worker: WorkerModel,
    order: PlayerCommand,
    moment: Moment,
)
    ensures
        ({
            let after = worker.step(Command::Player(order), moment);
            if worker.engine {
                only_asks(worker, after, seq![ActionModel::Play(order)])
            } else {
                only_asks(
                    worker,
                    after,
                    seq![
                        ActionModel::Emit(
                            EventModel::Error(
                                "Local playback isn't set up on this computer yet"@,
                            ),
                        ),
                    ],
                )
            }
        }),
{
    let after = worker.step(Command::Player(order), moment);
    assert(after.log =~= worker.log + after.log.skip(worker.log.len() as int));
    assert(after.log.skip(worker.log.len() as int) =~= seq![after.log.last()]);
}

/// A request is carried to the Web API as it is, once, under the session and
/// the leases of the moment, so that its answer can be told from a late one.
pub proof fn a_request_is_carried_under_the_session_of_now(
    worker: WorkerModel,
    request: ApiRequest,
    moment: Moment,
)
    ensures
        ({
            let after = worker.step(Command::Api(request), moment);
            &&& after == (WorkerModel { log: after.log, ..worker })
            &&& after.log.len() == worker.log.len() + 1
            &&& after.log.drop_last() == worker.log
            &&& after.log.last() matches ActionModel::Dispatch {
                request: carried,
                background,
                generation,
                shared_lease,
                personal_lease,
            }
            &&& carried == request
            &&& background == request.spec_background()
            &&& generation == worker.session
            &&& shared_lease.slot == Slot::Shared && worker.credentials.holds(shared_lease)
            &&& personal_lease.slot == Slot::Personal && worker.credentials.holds(personal_lease)
        }),
{
    let after = worker.step(Command::Api(request), moment);
    assert(after.log.drop_last() =~= worker.log);
}

/// Lookups that need no account are asked for as they were wanted.
pub proof fn a_lookup_is_asked_for_as_it_was_wanted(
    worker: WorkerModel,
    url: String,
    manual: bool,
    request: LyricsRequest,
    moment: Moment,
)
    ensures
        only_asks(
            worker,
            worker.step(Command::Accent { url }, moment),
            seq![ActionModel::FetchAccent { url }],
        ),
        only_asks(
            worker,
            worker.step(Command::DiscoverReceivers, moment),
            seq![ActionModel::DiscoverReceivers],
        ),
        only_asks(
            worker,
            worker.step(Command::CheckForUpdates { manual }, moment),
            seq![ActionModel::CheckForUpdates { manual }],
        ),
        only_asks(
            worker,
            worker.step(Command::Lyrics(Box::new(request)), moment),
            seq![ActionModel::FetchLyrics(request)],
        ),
{
    assert(worker.log.push(ActionModel::FetchAccent { url }) =~= worker.log
        + seq![ActionModel::FetchAccent { url }]);
    assert(worker.log.push(ActionModel::DiscoverReceivers) =~= worker.log
        + seq![ActionModel::DiscoverReceivers]);
    assert(worker.log.push(ActionModel::CheckForUpdates { manual }) =~= worker.log
        + seq![ActionModel::CheckForUpdates { manual }]);
    assert(worker.log.push(ActionModel::FetchLyrics(request)) =~= worker.log
        + seq![ActionModel::FetchLyrics(request)]);
}

/// What only the streaming session knows is asked of the engine in use; without
/// one nothing happens.
pub proof fn the_session_is_asked_only_through_an_engine(
    worker: WorkerModel,
    ids: Vec<String>,
    moment: Moment,
)
    ensures
        ({
            let tree = worker.step(Command::Rootlist, moment);
            let names = worker.step(Command::UserNames(ids), moment);
            if worker.engine {
                &&& only_asks(worker, tree, seq![ActionModel::FetchRootlist])
                &&& only_asks(worker, names, seq![ActionModel::FetchUserNames(ids)])
            } else {
                tree == worker && names == worker
            }
        }),
{
    assert(worker.log.push(ActionModel::FetchRootlist) =~= worker.log
        + seq![ActionModel::FetchRootlist]);
    assert(worker.log.push(ActionModel::FetchUserNames(ids)) =~= worker.log
        + seq![ActionModel::FetchUserNames(ids)]);
}

/// Shutting down shuts the engine in use down, and asks for nothing else.
pub proof fn shutting_down_stops_the_engine(worker: WorkerModel, moment: Moment)
    ensures
        ({
            let after = worker.step(Command::Shutdown, moment);
            &&& !after.engine
            &&& after.log == if worker.engine {
                worker.log + seq![ActionModel::StopEngine]
            } else {
                worker.log
            }
            &&& after == (WorkerModel { engine: false, log: after.log, ..worker })
        }),
{
    assert(worker.log.push(ActionModel::StopEngine) =~= worker.log
        + seq![ActionModel::StopEngine]);
}

// ---- caches -------------------------------------------------------------------------

/// A playlist is kept as far as it was read: with a verified account exactly one
/// file is written, that account's for that playlist, and it holds the command's
/// own snapshot, rows, total and place to read on from. Without an account
/// nothing is written.
pub proof fn a_playlist_is_kept_as_far_as_it_was_read(
    worker: WorkerModel,
    id: String,
    snapshot: String,
    items: Vec<PlaylistItem>,
    total: u32,
    next_offset: Option<u32>,
    moment: Moment,
)
    ensures
        ({
            let after = worker.step(
                Command::StorePlaylistCache { id, snapshot, items, total, next_offset },
                moment,
            );
            match worker.api.account() {
                Some(account) => {
                    &&& after == (WorkerModel { log: after.log, ..worker })
                    &&& after.log.len() == worker.log.len() + 1
                    &&& after.log.drop_last() == worker.log
                    &&& after.log.last() matches ActionModel::WritePlaylistCache {
                        account_id,
                        file_name,
                        cached,
                    }
                    &&& account_id == account
                    &&& file_name == id@ + ".json"@
                    &&& cached.snapshot == snapshot
                    &&& cached.items == items
                    &&& cached.total == Some(total)
                    &&& cached.next_offset == next_offset
                },
                None => after == worker,
            }
        }),
{
    let after = worker.step(
        Command::StorePlaylistCache { id, snapshot, items, total, next_offset },
        moment,
    );
    if worker.api.account() is Some {
        assert(after.log.drop_last() =~= worker.log);
    }
}

/// A playlist's rows are looked for where they are kept: in the same file of the
/// same account, for the load that wants them.
pub proof fn a_playlist_is_looked_for_where_it_is_kept(
    worker: WorkerModel,
    id: String,
    generation: u64,
    snapshot: String,
    items: Vec<PlaylistItem>,
    total: u32,
    next_offset: Option<u32>,
    moment: Moment,
)
    ensures
        ({
            let stored = worker.step(
                Command::StorePlaylistCache { id, snapshot, items, total, next_offset },
                moment,
            );
            let looked = worker.step(Command::LoadPlaylistCache { id, generation }, moment);
            match worker.api.account() {
                Some(account) => {
                    &&& looked == (WorkerModel { log: looked.log, ..worker })
                    &&& looked.log.len() == worker.log.len() + 1
                    &&& looked.log.drop_last() == worker.log
                    &&& looked.log.last() matches ActionModel::ReadPlaylistCache {
                        account_id,
                        file_name,
                        id: of,
                        generation: under,
                    }
                    &&& stored.log.last() matches ActionModel::WritePlaylistCache {
                        account_id: whose,
                        file_name: written,
                        ..
                    }
                    &&& account_id == account && whose == account
                    &&& file_name == written
                    &&& of == id@ && under == generation
                },
                None => looked == worker,
            }
        }),
{
    let looked = worker.step(Command::LoadPlaylistCache { id, generation }, moment);
    if worker.api.account() is Some {
        assert(looked.log.drop_last() =~= worker.log);
    }
}

/// Different playlists are kept in different files.
pub proof fn different_playlists_have_different_files(
    worker: WorkerModel,
    one: String,
    two: String,
    generation: u64,
    moment: Moment,
)
    requires
        worker.api.account() is Some,
        one@ != two@,
    ensures
        ({
            let first = worker.step(Command::LoadPlaylistCache { id: one, generation }, moment);
            let second = worker.step(Command::LoadPlaylistCache { id: two, generation }, moment);
            &&& first.log.last() is ReadPlaylistCache && second.log.last() is ReadPlaylistCache
            &&& first.log.last()->ReadPlaylistCache_file_name
                != second.log.last()->ReadPlaylistCache_file_name
        }),
{
    let left = one@ + ".json"@;
    let right = two@ + ".json"@;
    if left == right {
        assert(left.take(left.len() - ".json"@.len()) =~= one@);
        assert(right.take(right.len() - ".json"@.len()) =~= two@);
    }
}

/// Liked Songs are read for the verified account, and written only where they
/// are that account's, as they were handed over.
pub proof fn liked_songs_are_kept_for_their_own_account(
    worker: WorkerModel,
    cache: LikedSongs,
    generation: u64,
    moment: Moment,
)
    ensures
        ({
            let looked = worker.step(Command::LoadLikedSongsCache { generation }, moment);
            let stored = worker.step(Command::StoreLikedSongsCache(cache), moment);
            &&& match worker.api.account() {
                Some(account_id) => only_asks(
                    worker,
                    looked,
                    seq![ActionModel::ReadLikedSongs { account_id, generation }],
                ),
                None => looked == worker,
            }
            &&& if worker.api.account() == Some(cache.account_id@) {
                only_asks(worker, stored, seq![ActionModel::WriteLikedSongs(cache)])
            } else {
                stored == worker
            }
        }),
{
    if let Some(account_id) = worker.api.account() {
        let read = ActionModel::ReadLikedSongs { account_id, generation };
        assert(worker.log.push(read) =~= worker.log + seq![read]);
    }
    assert(worker.log.push(ActionModel::WriteLikedSongs(cache)) =~= worker.log
        + seq![ActionModel::WriteLikedSongs(cache)]);
}

// ---- editorial lookups and receivers ----------------------------------------------------

/// A search is followed up among Spotify's own playlists where a personal app
/// answered it, under its own words and number; an earlier follow-up is given up
/// first, and only then.
pub proof fn a_search_is_followed_up_under_its_own_number(
    worker: WorkerModel,
    query: String,
    serial: u64,
    moment: Moment,
)
    ensures
        ({
            let after = worker.step(Command::SearchEditorialPlaylists { query, serial }, moment);
            let aborted = if worker.editorial_fetch {
                seq![ActionModel::AbortEditorialSearch]
            } else {
                seq![]
            };
            let started = if worker.api.personal is Ready {
                seq![ActionModel::SearchEditorial { query, serial }]
            } else {
                seq![]
            };
            &&& after.log == worker.log + aborted + started
            &&& after.editorial_fetch == (worker.api.personal is Ready)
            &&& after == (WorkerModel {
                editorial_fetch: after.editorial_fetch,
                log: after.log,
                ..worker
            })
        }),
{
    let after = worker.step(Command::SearchEditorialPlaylists { query, serial }, moment);
    let aborted = if worker.editorial_fetch {
        seq![ActionModel::AbortEditorialSearch]
    } else {
        seq![]
    };
    let started = if worker.api.personal is Ready {
        seq![ActionModel::SearchEditorial { query, serial }]
    } else {
        seq![]
    };
    assert(after.log =~= worker.log + aborted + started);
}

/// A receiver is activated as it was picked, with the playback grant where that
/// is the verified account's and with none where it is not, under the lease on
/// that grant.
pub proof fn a_receiver_gets_the_verified_accounts_grant(
    worker: WorkerModel,
    receiver: Receiver,
    moment: Moment,
)
    ensures
        ({
            let after = worker.step(Command::ActivateReceiver(Box::new(receiver)), moment);
            &&& after == (WorkerModel { log: after.log, ..worker })
            &&& after.log.len() == worker.log.len() + 1
            &&& after.log.drop_last() == worker.log
            &&& after.log.last() matches ActionModel::ActivateReceiver {
                receiver: picked,
                credentials,
                lease,
            }
            &&& picked == receiver
            &&& lease.slot == Slot::Playback && worker.credentials.holds(lease)
            &&& credentials is Some ==> credentials == worker.playback_grant
            &&& credentials is Some <==> (worker.playback_grant matches Some(grant)
                && grant.username == worker.api.account())
        }),
{
    let after = worker.step(Command::ActivateReceiver(Box::new(receiver)), moment);
    assert(after.log.drop_last() =~= worker.log);
}

}
