//! Grants, leases and accounts: what a lease is good for, whom a grant is for,
//! and what it must allow.

use vstd::prelude::*;
use vstd::utf8::encode_utf8;

use crate::credentials::{
    bound_credentials, names_account, slot_of, AuthenticationType, CredentialStore,
    CredentialsModel, Lease, Slot, StorageError, StoredToken,
};
use crate::gateway::ApiSource;
use crate::models::User;

verus! {

/// A lease is good from when it is taken until its own slot moves on; other
/// slots may move as they like.
pub proof fn a_lease_is_good_until_its_slot_moves_on(
    store: CredentialStore,
    slot: Slot,
    moving: Slot,
)
    requires
        store.room(1),
    ensures
        store.spec_lease(slot).slot == slot,
        store.holds(store.spec_lease(slot)),
        store.issued(store.spec_lease(slot)),
        store.moved(moving).issued(store.spec_lease(slot)),
        store.moved(moving).holds(store.spec_lease(slot)) <==> moving != slot,
        !store.all_moved().holds(store.spec_lease(slot)),
{
}

/// A slot that moves on moves on by one, and no other slot moves.
pub proof fn one_slot_moves_by_one(store: CredentialStore, moving: Slot, slot: Slot)
    requires
        store.room(1),
    ensures
        store.moved(moving).spec_lease(slot).generation == store.spec_lease(slot).generation + (
        if slot == moving {
            1int
        } else {
            0
        }),
        store.all_moved().spec_lease(slot).generation == store.spec_lease(slot).generation + 1,
{
}

/// Two leases on one slot are both good only where they are the same lease.
pub proof fn one_lease_at_a_time_is_good(store: CredentialStore, one: Lease, two: Lease)
    requires
        store.holds(one),
        store.holds(two),
        one.slot == two.slot,
    ensures
        one == two,
{
}

/// Each app has a slot of its own, neither of them the one for playback.
pub proof fn each_app_has_its_own_slot(source: ApiSource)
    ensures
        slot_of(source).spec_source() == source,
        slot_of(source) != Slot::Playback,
        slot_of(ApiSource::Shared) == Slot::Shared,
        slot_of(ApiSource::Personal) == Slot::Personal,
{
}

/// A streaming token is bound to the verified account, as a token and byte for
/// byte; without an account, or with one that has no name, to nobody.
pub proof fn a_streaming_token_is_bound_to_the_account(
    account: Option<Seq<char>>,
    access_token: Seq<char>,
)
    ensures
        match bound_credentials(account, access_token) {
            Some(credentials) => credentials.username == account && account is Some
                && account->0.len() > 0 && credentials.auth_type
                == AuthenticationType::SpotifyToken && credentials.auth_data == encode_utf8(
                access_token,
            ),
            None => account is None || account->0.len() == 0,
        },
{
}

/// A grant is the verified account's where it names that account; one that names
/// nobody is nobody's, even while no account is verified.
pub proof fn a_grant_is_whose_name_it_bears(
    credentials: CredentialsModel,
    account: Option<Seq<char>>,
)
    ensures
        names_account(credentials, account) <==> credentials.username is Some
            && credentials.username == account && credentials.username->0.len() > 0,
{
}

/// Whether a grant allows one thing: it stands among its permissions.
pub open spec fn allows(token: StoredToken, permission: Seq<char>) -> bool {
    exists|j: int| 0 <= j < token.scopes@.len() && #[trigger] token.scopes@[j]@ == permission
}

/// A Web API grant is enough where it allows each thing that is needed; more
/// does no harm, and the order does not matter.
pub proof fn a_grant_is_enough_where_it_allows_each_thing(
    token: StoredToken,
    required: Vec<String>,
    enough: bool,
)
    requires
        call_ensures(StoredToken::has_scopes, (&token, &required), enough),
    ensures
        enough <==> forall|i: int|
            0 <= i < required@.len() ==> allows(token, #[trigger] required@[i]@),
{
    assert(required.deep_view().len() == required@.len());
    assert forall|i: int| 0 <= i < required@.len() implies token@.scopes.contains(
        required.deep_view()[i],
    ) == allows(token, #[trigger] required@[i]@) by {
        let needed = required@[i]@;
        assert(required.deep_view()[i] == needed);
        if token@.scopes.contains(needed) {
            let j = token@.scopes.index_of(needed);
            assert(token.scopes@[j]@ == needed);
        }
        if allows(token, needed) {
            let j = choose|j: int|
                0 <= j < token.scopes@.len() && #[trigger] token.scopes@[j]@ == needed;
            assert(token@.scopes[j] == needed);
        }
    }
    if forall|i: int| 0 <= i < required@.len() ==> allows(token, #[trigger] required@[i]@) {
        assert forall|i: int| 0 <= i < required.deep_view().len() implies token@.scopes.contains(
            #[trigger] required.deep_view()[i],
        ) by {
            assert(allows(token, required@[i]@));
        }
    }
}

/// A listener goes by their display name, or by their id where they have none.
/// Their plan is Premium where the service calls it so, anything else is not,
/// and an unknown plan is neither.
pub proof fn a_listener_is_named_and_has_a_plan(user: User, name: String, premium: Option<bool>)
    requires
        call_ensures(User::name, (&user,), name),
        call_ensures(User::premium, (&user,), premium),
    ensures
        name@ == user.spec_name(),
        premium == user.spec_premium(),
        user.display_name matches Some(shown) ==> name@ == shown@,
        user.display_name is None ==> name@ == user.id@,
        premium is None <==> user.product is None,
        premium == Some(true) <==> (user.product matches Some(plan) && plan@ == "premium"@),
{
}

/// What storage could not do is told in its own words.
pub proof fn a_storage_error_is_told_in_its_own_words(text: String)
    ensures
        StorageError::Failed(text).spec_text() == text@,
        StorageError::Stale.spec_text() == "The stored sign-in changed in the meantime."@,
{
}

}
