//! Lookups, receivers and users: what the interface is told, and how often.

use vstd::prelude::*;

use crate::actions::ActionModel;
use crate::credentials::{Lease, Slot};
use crate::events::Event;
use crate::exchange::found_playlists;
use crate::model::WorkerModel;
use crate::models::{spotify_owned, Playlist, Receiver};
use crate::tasks::{
    begins, editorial, editorial_shown, goes_on, EditorialSearch, ReceiverStep,
};

verus! {

// ---- receivers ----------------------------------------------------------------

/// What the interface is told over the course of an activation: by the step it
/// begins with, else by the one after the receiver was asked, else by its end.
pub open spec fn activation_told<T>(
    begun: ReceiverStep<T>,
    answered: ReceiverStep<T>,
    ended: Event,
) -> Seq<Event> {
    match begun {
        ReceiverStep::Over(event) => seq![event],
        _ => match answered {
            ReceiverStep::Over(event) => seq![event],
            _ => seq![ended],
        },
    }
}

/// An activation tells the interface exactly once, under the receiver's name.
/// The receiver is asked only where the lease held at the start and there is a
/// grant; the grant is handed over only where it then answered and the lease
/// still held; and what the interface is told is an error in every other case.
pub proof fn an_activation_is_told_of_once<T>(
    name: String,
    lease: Lease,
    grant: Option<T>,
    current: bool,
    begun: ReceiverStep<T>,
    asked: Result<(), String>,
    still_current: bool,
    answered: ReceiverStep<T>,
    handed: Result<(), String>,
)
    requires
        begins(current, lease, name, grant, begun),
        begun matches ReceiverStep::Ask(activation) ==> goes_on(
            activation,
            still_current,
            asked,
            answered,
        ),
    ensures
        ({
            let told = activation_told(
                begun,
                answered,
                Event::ReceiverActivated { name, result: handed },
            );
            let contacted = begun is Ask;
            let given = contacted && answered is HandOver;
            &&& told.len() == 1
            &&& told[0] matches Event::ReceiverActivated { name: of, result }
            &&& of == name
            &&& contacted <==> current && grant is Some
            &&& given <==> contacted && asked is Ok && still_current
            &&& if given {
                result == handed
            } else {
                result is Err
            }
            &&& given ==> (answered matches ReceiverStep::HandOver(activation) && activation.name
                == name && grant == Some(activation.grant))
        }),
{
}

/// Without a grant of the verified account a receiver is not contacted: none
/// goes along with the order to activate it, so the activation ends where it
/// begins.
pub proof fn a_receiver_needs_the_accounts_grant<T>(
    worker: WorkerModel,
    receiver: Receiver,
    current: bool,
    begun: ReceiverStep<T>,
)
    requires
        worker.playback_grant matches Some(grant) ==> grant.username != worker.api.account(),
        begins(
            current,
            worker.credentials.spec_lease(Slot::Playback),
            receiver.name,
            None::<T>,
            begun,
        ),
    ensures
        worker.activate_receiver(receiver).log.last() == (ActionModel::ActivateReceiver {
            receiver,
            credentials: None,
            lease: worker.credentials.spec_lease(Slot::Playback),
        }),
        begun matches ReceiverStep::Over(Event::ReceiverActivated { name, result: Err(_) }) && name
            == receiver.name,
{
}

// ---- users --------------------------------------------------------------------

/// What a lookup of the users in `rest` tells the interface, given the names
/// that are answered, one after the other.
pub open spec fn names_told(rest: Seq<String>, names: Seq<Option<String>>) -> Seq<Event>
    decreases rest.len(),
{
    if rest.len() == 0 || names.len() == 0 {
        seq![]
    } else {
        seq![Event::UserName { id: rest[0], name: names[0] }] + names_told(
            rest.skip(1),
            names.skip(1),
        )
    }
}

/// Names are looked up only with an engine, and then the interface is told
/// once for every user, in order, repeats and all.
pub proof fn every_user_is_told_of_in_order(
    worker: WorkerModel,
    ids: Vec<String>,
    names: Seq<Option<String>>,
)
    requires
        names.len() == ids@.len(),
    ensures
        ({
            let after = worker.asks_engine(ActionModel::FetchUserNames(ids));
            if worker.engine {
                after.log == worker.log.push(ActionModel::FetchUserNames(ids))
            } else {
                after == worker
            }
        }),
        names_told(ids@, names).len() == ids@.len(),
        forall|i: int|
            0 <= i < ids@.len() ==> #[trigger] names_told(ids@, names)[i] == (Event::UserName {
                id: ids@[i],
                name: names[i],
            }),
{
    told_in_order(ids@, names);
}

proof fn told_in_order(rest: Seq<String>, names: Seq<Option<String>>)
    requires
        names.len() == rest.len(),
    ensures
        names_told(rest, names).len() == rest.len(),
        forall|i: int|
            0 <= i < rest.len() ==> #[trigger] names_told(rest, names)[i] == (Event::UserName {
                id: rest[i],
                name: names[i],
            }),
    decreases rest.len(),
{
    if rest.len() > 0 {
        told_in_order(rest.skip(1), names.skip(1));
        assert forall|i: int| 0 <= i < rest.len() implies #[trigger] names_told(rest, names)[i] == (
        Event::UserName { id: rest[i], name: names[i] }) by {
            if i > 0 {
                assert(names_told(rest, names)[i] == names_told(rest.skip(1), names.skip(1))[i
                    - 1]);
            }
        }
    }
}

// ---- editorial lookups --------------------------------------------------------

/// Only the latest editorial lookup goes on: a new search aborts the one
/// before it, before anything else, whether or not it starts another.
pub proof fn a_new_search_aborts_the_old_one(worker: WorkerModel, query: String, serial: u64)
    requires
        worker.editorial_fetch,
    ensures
        ({
            let after = worker.fetch_editorial_playlists(query, serial);
            &&& after.log[worker.log.len() as int] is AbortEditorialSearch
            &&& after.editorial_fetch == (worker.api.personal is Ready)
            &&& after.log.len() == worker.log.len() + (if worker.api.personal is Ready {
                2int
            } else {
                1
            })
        }),
{
}

/// An editorial lookup is started only where a personal app answered the
/// search, and shows something only where it was answered with a playlist of
/// Spotify's own: an error, a timeout and an empty find show nothing.
pub proof fn an_editorial_lookup_shows_finds_only(
    worker: WorkerModel,
    query: String,
    serial: u64,
    outcome: EditorialSearch,
)
    ensures
        ({
            let after = worker.fetch_editorial_playlists(query, serial);
            if worker.api.personal is Ready {
                after.log.last() == ActionModel::SearchEditorial { query, serial }
            } else {
                forall|i: int|
                    worker.log.len() <= i < after.log.len() ==> #[trigger] after.log[i]
                        is AbortEditorialSearch
            }
        }),
        editorial_shown(outcome).len() > 0 <==> (outcome matches EditorialSearch::Found(results)
            && exists|i: int|
            0 <= i < found_playlists(results).len() && spotify_owned(
                #[trigger] found_playlists(results)[i],
            )),
{
    if let EditorialSearch::Found(results) = outcome {
        let found = found_playlists(results);
        let owned = |candidate: Playlist| spotify_owned(candidate);
        found.filter_lemma(owned);
        if found.filter(owned).len() > 0 {
            let first = found.filter(owned)[0];
            assert(found.filter(owned).contains(first));
            found.lemma_filter_contains_rev(owned, first);
            let at = found.index_of(first);
            assert(spotify_owned(found[at]));
        }
        if exists|i: int| 0 <= i < found.len() && spotify_owned(#[trigger] found[i]) {
            let i = choose|i: int| 0 <= i < found.len() && spotify_owned(#[trigger] found[i]);
            assert(owned(found[i]));
            assert(found.filter(owned).contains(found[i]));
        }
    }
}

/// An editorial lookup gives back playlists of Spotify's own only, and every
/// one that was found.
pub proof fn an_editorial_lookup_is_exact(found: Seq<Playlist>, playlist: Playlist)
    ensures
        editorial(found).contains(playlist) <==> found.contains(playlist)
            && spotify_owned(playlist),
{
    let owned = |candidate: Playlist| spotify_owned(candidate);
    found.filter_lemma(owned);
    if found.contains(playlist) && owned(playlist) {
        let at = found.index_of(playlist);
        assert(found.filter(owned).contains(found[at]));
    }
    if found.filter(owned).contains(playlist) {
        found.lemma_filter_contains_rev(owned, playlist);
        let at = found.filter(owned).index_of(playlist);
        assert(owned(found.filter(owned)[at]));
    }
}

}
