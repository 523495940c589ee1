//! Requests, lookups and what is kept of them.

use vstd::arithmetic::power2::{lemma2_to64, lemma_pow2_pos, lemma_pow2_unfold, pow2};
use vstd::prelude::*;

use crate::backend::{addition, AdditionModel, BackendModel};
use crate::events::Command;
use crate::exchange::{answers, asks, continues, ApiCall, ApiReply, Exchange};
use crate::gateway::{AccessModel, ApiError, GatewayModel};
use crate::models::{Playlist, PlaylistItem, User};
use crate::playlist_cache::CachedPlaylist;
use crate::requests::{route, ApiRequest, OperationModel, RemoteAction};
use crate::responses::{
    forbidding_playlist, observed, shown_playlists, ApiResponse, ApiResult,
};
use crate::tasks::{next_wait, Verdict, Verification, FIRST_WAIT_S, LONGEST_WAIT_S};

verus! {

// ---- playlists --------------------------------------------------------------

/// What an answer shows of a playlist is what is known of it afterwards; where
/// it shows one twice, the last time counts.
pub proof fn a_shown_playlist_is_known(api: GatewayModel, response: ApiResponse, i: int)
    requires
        forbidding_playlist(response) is None,
        0 <= i < shown_playlists(response).len(),
        forall|j: int|
            i < j < shown_playlists(response).len() ==> #[trigger] shown_playlists(response)[j].id@
                != shown_playlists(response)[i].id@,
    ensures
        observed(api, response).access(shown_playlists(response)[i].id@) == AccessModel::OwnedBy(
            shown_playlists(response)[i].owner.id.deep_view(),
        ),
{
    last_showing_counts(api, shown_playlists(response), i);
}

proof fn last_showing_counts(api: GatewayModel, playlists: Seq<Playlist>, i: int)
    requires
        0 <= i < playlists.len(),
        forall|j: int| i < j < playlists.len() ==> #[trigger] playlists[j].id@ != playlists[i].id@,
    ensures
        api.all_seen(playlists).access(playlists[i].id@) == AccessModel::OwnedBy(
            playlists[i].owner.id.deep_view(),
        ),
    decreases playlists.len(),
{
    if i < playlists.len() - 1 {
        let rest = playlists.drop_last();
        assert(rest[i] == playlists[i]);
        last_showing_counts(api, rest, i);
        assert(playlists.last() == playlists[playlists.len() - 1]);
    }
}

/// A playlist that an answer does not show stays as it was known.
pub proof fn other_playlists_stay_as_known(api: GatewayModel, response: ApiResponse, id: Seq<char>)
    requires
        forbidding_playlist(response) != Some(id),
        forall|j: int|
            0 <= j < shown_playlists(response).len() ==> #[trigger] shown_playlists(
                response,
            )[j].id@ != id,
    ensures
        observed(api, response).access(id) == api.access(id),
{
    if forbidding_playlist(response) is None {
        unshown_stays(api, shown_playlists(response), id);
    }
}

proof fn unshown_stays(api: GatewayModel, playlists: Seq<Playlist>, id: Seq<char>)
    requires
        forall|j: int| 0 <= j < playlists.len() ==> #[trigger] playlists[j].id@ != id,
    ensures
        api.all_seen(playlists).access(id) == api.access(id),
    decreases playlists.len(),
{
    if playlists.len() > 0 {
        let rest = playlists.drop_last();
        assert forall|j: int| 0 <= j < rest.len() implies #[trigger] rest[j].id@ != id by {
            assert(rest[j] == playlists[j]);
        }
        unshown_stays(api, rest, id);
        assert(playlists.last() == playlists[playlists.len() - 1]);
    }
}

/// A playlist that refused a request is forgotten, so that the next request to
/// it is routed as to one never seen.
pub proof fn a_refused_playlist_is_forgotten(
    api: GatewayModel,
    response: ApiResponse,
    id: String,
    offset: u32,
    generation: u64,
)
    requires
        forbidding_playlist(response) == Some(id@),
    ensures
        observed(api, response).access(id@) is Unknown,
        route(observed(api, response), ApiRequest::PlaylistItems { id, offset, generation })
            == OperationModel::PlaylistItems(AccessModel::Unknown),
{
}

/// Answers change what is known of playlists, and never a session.
pub proof fn answers_leave_sessions_alone(api: GatewayModel, response: ApiResponse)
    ensures
        observed(api, response).shared == api.shared,
        observed(api, response).personal == api.personal,
        observed(api, response).account() == api.account(),
{
    seeing_leaves_sessions_alone(api, shown_playlists(response));
}

proof fn seeing_leaves_sessions_alone(api: GatewayModel, playlists: Seq<Playlist>)
    ensures
        api.all_seen(playlists).shared == api.shared,
        api.all_seen(playlists).personal == api.personal,
    decreases playlists.len(),
{
    if playlists.len() > 0 {
        seeing_leaves_sessions_alone(api, playlists.drop_last());
    }
}

/// Shuffle is turned on first, and the context is started only once that is
/// done; where it fails, nothing is started and the failure is the answer.
pub proof fn shuffle_comes_before_the_context<'a>(
    exchange: Exchange,
    first: ApiCall<'a>,
    then: ApiCall<'a>,
    outcome: ApiResult<()>,
)
    requires
        exchange.request is ShufflePlay,
        !exchange.shuffled,
        asks(exchange, first),
        asks(Exchange { shuffled: true, ..exchange }, then),
    ensures
        first matches ApiCall::Shuffle { on: true, .. },
        then is Play,
        continues(exchange, ApiReply::Done(outcome)) <==> outcome is Ok,
        !continues(Exchange { shuffled: true, ..exchange }, ApiReply::Done(outcome)),
        answers(
            exchange,
            ApiReply::Done(outcome),
            ApiResponse::Remote { action: RemoteAction::Play, result: outcome },
        ),
{
}

// ---- verification -----------------------------------------------------------

/// How long a verification waits after its `n`th retry, counted from zero.
pub open spec fn nth_wait(n: nat) -> u64
    decreases n,
{
    if n == 0 {
        FIRST_WAIT_S
    } else {
        next_wait(nth_wait((n - 1) as nat))
    }
}

/// The waits double from two seconds on, and never exceed a minute.
pub proof fn waits_double_up_to_a_minute(n: nat)
    ensures
        nth_wait(n) == if pow2(n + 1) <= LONGEST_WAIT_S {
            pow2(n + 1)
        } else {
            LONGEST_WAIT_S as nat
        },
        FIRST_WAIT_S <= nth_wait(n) <= LONGEST_WAIT_S,
    decreases n,
{
    lemma_pow2_unfold(n + 1);
    lemma_pow2_pos(n);
    if n == 0 {
        lemma2_to64();
    } else {
        waits_double_up_to_a_minute((n - 1) as nat);
    }
}

/// Asking again changes nothing about a verification but how long it will
/// wait the next time.
pub proof fn a_retry_only_waits_longer(
    verification: Verification,
    current: bool,
    answer: Result<User, ApiError>,
)
    ensures
        verification.verdict(current, answer) matches Verdict::Retry { wait_s, next } ==> {
            &&& wait_s == verification.wait_s
            &&& next.source == verification.source
            &&& next.token == verification.token
            &&& next.lease == verification.lease
            &&& next.attempt == verification.attempt
            &&& next.wait_s == next_wait(verification.wait_s)
        },
{
}

// ---- caches -----------------------------------------------------------------

/// What is kept of a playlist as far as it was read is read back as it was.
pub proof fn a_checkpoint_is_read_back(
    snapshot: String,
    items: Vec<PlaylistItem>,
    total: u32,
    next_offset: Option<u32>,
)
    requires
        items@.len() <= total,
        next_offset matches Some(offset) ==> offset <= total,
    ensures
        ({
            let cached = CachedPlaylist { snapshot, items, total: Some(total), next_offset };
            cached.consistent() && cached.spec_total() == total
        }),
{
}

/// The first format, which wrote no numbers down, stays readable: it holds a
/// whole playlist.
pub proof fn the_first_format_stays_readable(snapshot: String, items: Vec<PlaylistItem>)
    requires
        items@.len() <= u32::MAX,
    ensures
        ({
            let cached = CachedPlaylist { snapshot, items, total: None, next_offset: None };
            cached.consistent() && cached.spec_total() == items@.len()
        }),
{
}

// ---- the interface ----------------------------------------------------------

/// Offline, nothing leaves for the worker but artwork and shutdown, and those
/// leave as they are.
pub proof fn offline_lets_only_artwork_and_shutdown_through(backend: BackendModel, command: Command)
    requires
        backend.offline,
    ensures
        backend.sent(command) == if command is Accent || command is Shutdown {
            Some(command)
        } else {
            None
        },
{
}

/// The record once several requests have been made, in order.
pub open spec fn all_recorded(backend: BackendModel, requests: Seq<ApiRequest>) -> BackendModel
    decreases requests.len(),
{
    if requests.len() == 0 {
        backend
    } else {
        all_recorded(backend, requests.drop_last()).recorded(requests.last())
    }
}

/// The playlist pages among several requests, in order.
pub open spec fn pages_among(requests: Seq<ApiRequest>) -> Seq<(Seq<char>, u32, u64)>
    decreases requests.len(),
{
    if requests.len() == 0 {
        Seq::empty()
    } else {
        match requests.last() {
            ApiRequest::PlaylistItems { id, offset, generation } => pages_among(
                requests.drop_last(),
            ).push((id@, offset, generation)),
            _ => pages_among(requests.drop_last()),
        }
    }
}

/// The playlist samples among several requests, in order.
pub open spec fn samples_among(requests: Seq<ApiRequest>) -> Seq<(Seq<char>, u32, u64)>
    decreases requests.len(),
{
    if requests.len() == 0 {
        Seq::empty()
    } else {
        match requests.last() {
            ApiRequest::PlaylistSample { id, offset, generation } => samples_among(
                requests.drop_last(),
            ).push((id@, offset, generation)),
            _ => samples_among(requests.drop_last()),
        }
    }
}

/// The additions among several requests, in order.
pub open spec fn additions_among(requests: Seq<ApiRequest>) -> Seq<Option<AdditionModel>>
    decreases requests.len(),
{
    if requests.len() == 0 {
        Seq::empty()
    } else if addition(requests.last()) is Some {
        additions_among(requests.drop_last()).push(addition(requests.last()))
    } else {
        additions_among(requests.drop_last())
    }
}

/// A recording handle that was emptied holds every page, sample and addition
/// asked for since, in order and once; offline or not.
pub proof fn every_playlist_request_is_recorded(backend: BackendModel, requests: Seq<ApiRequest>)
    requires
        backend.recording,
        backend.items.len() == 0,
        backend.samples.len() == 0,
        backend.additions.len() == 0,
    ensures
        all_recorded(backend, requests) == (BackendModel {
            items: pages_among(requests),
            samples: samples_among(requests),
            additions: additions_among(requests),
            ..backend
        }),
    decreases requests.len(),
{
    if requests.len() > 0 {
        every_playlist_request_is_recorded(backend, requests.drop_last());
    }
}

/// A handle that does not record keeps no trace of a request.
pub proof fn nothing_is_recorded_unasked(backend: BackendModel, requests: Seq<ApiRequest>)
    requires
        !backend.recording,
    ensures
        all_recorded(backend, requests) == backend,
    decreases requests.len(),
{
    if requests.len() > 0 {
        nothing_is_recorded_unasked(backend, requests.drop_last());
    }
}

}
