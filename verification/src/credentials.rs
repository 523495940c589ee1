//! Grants, and the leases under which their results may still be applied.
//!
//! Work that touches a grant runs on its own and reports back later. It carries
//! a [`Lease`] on the grant's slot; signing out, signing in again or replacing
//! an app moves the slot on, and every lease taken before is stale for good.

use vstd::prelude::*;
use vstd::string::*;
use vstd::utf8::encode_utf8;

use crate::gateway::{AccountId, ApiSource};
use crate::text::{copy_text, copy_texts};

verus! {

/// Where a grant is kept: one slot for each Web API app and one for playback.
#[derive(Clone, Copy, Debug, PartialEq, Eq, Structural)]
pub enum Slot {
    Shared,
    Personal,
    Playback,
}

/// The slot that holds the grant of a Web API app.
pub open spec fn slot_of(source: ApiSource) -> Slot {
    match source {
        ApiSource::Shared => Slot::Shared,
        ApiSource::Personal => Slot::Personal,
    }
}

/// The slot that holds the grant of a Web API app.
pub fn web_slot(source: ApiSource) -> (slot: Slot)
    ensures
        slot == slot_of(source),
{
    match source {
        ApiSource::Shared => Slot::Shared,
        ApiSource::Personal => Slot::Personal,
    }
}

impl Slot {
    /// The app whose grant stands in this slot; everything but the shared slot
    /// is read as the personal app's.
    pub open spec fn spec_source(self) -> ApiSource {
        if self == Slot::Shared {
            ApiSource::Shared
        } else {
            ApiSource::Personal
        }
    }

    /// The app whose grant stands in this slot.
    pub fn source(self) -> (source: ApiSource)
        ensures
            source == self.spec_source(),
    {
        match self {
            Slot::Shared => ApiSource::Shared,
            _ => ApiSource::Personal,
        }
    }
}

/// Permission to apply a result to a slot, good until the slot moves on.
#[derive(Clone, Copy, Debug, PartialEq, Eq, Structural)]
pub struct Lease {
    pub slot: Slot,
    pub generation: u64,
}

/// The generation each slot is in.
#[derive(Clone, Copy, Debug, PartialEq, Eq, Structural)]
pub struct CredentialStore {
    pub shared: u64,
    pub personal: u64,
    pub playback: u64,
}

impl CredentialStore {
    /// The generation `slot` is in.
    pub open spec fn generation(self, slot: Slot) -> u64 {
        match slot {
            Slot::Shared => self.shared,
            Slot::Personal => self.personal,
            Slot::Playback => self.playback,
        }
    }

    /// A lease on `slot` as it is now.
    pub open spec fn spec_lease(self, slot: Slot) -> Lease {
        Lease { slot, generation: self.generation(slot) }
    }

    /// Whether the slot has not moved on since the lease was taken.
    pub open spec fn holds(self, lease: Lease) -> bool {
        self.generation(lease.slot) == lease.generation
    }

    /// Whether the lease can have been taken from this store.
    pub open spec fn issued(self, lease: Lease) -> bool {
        lease.generation <= self.generation(lease.slot)
    }

    /// The store once `slot` has moved on.
    pub open spec fn moved(self, slot: Slot) -> CredentialStore {
        match slot {
            Slot::Shared => CredentialStore { shared: (self.shared + 1) as u64, ..self },
            Slot::Personal => CredentialStore { personal: (self.personal + 1) as u64, ..self },
            Slot::Playback => CredentialStore { playback: (self.playback + 1) as u64, ..self },
        }
    }

    /// The store once every slot has moved on.
    pub open spec fn all_moved(self) -> CredentialStore {
        self.moved(Slot::Shared).moved(Slot::Personal).moved(Slot::Playback)
    }

    /// Whether every slot can move on `steps` times more.
    pub open spec fn room(self, steps: int) -> bool {
        &&& self.shared + steps <= u64::MAX
        &&& self.personal + steps <= u64::MAX
        &&& self.playback + steps <= u64::MAX
    }

    pub fn new() -> (store: CredentialStore)
        ensures
            store == (CredentialStore { shared: 0, personal: 0, playback: 0 }),
    {
        CredentialStore { shared: 0, personal: 0, playback: 0 }
    }

    /// Takes a lease on a slot as it is now.
    pub fn lease(&self, slot: Slot) -> (lease: Lease)
        ensures
            lease == self.spec_lease(slot),
            self.holds(lease),
    {
        let generation: u64 = match slot {
            Slot::Shared => self.shared,
            Slot::Personal => self.personal,
            Slot::Playback => self.playback,
        };
        Lease { slot, generation }
    }

    /// Whether a lease is still good.
    pub fn current(&self, lease: &Lease) -> (current: bool)
        ensures
            current == self.holds(*lease),
    {
        self.lease(lease.slot).generation == lease.generation
    }

    /// Makes every lease on a slot stale.
    pub fn invalidate(&mut self, slot: Slot)
        requires
            old(self).room(1),
        ensures
            *final(self) == old(self).moved(slot),
    {
        match slot {
            Slot::Shared => {
                self.shared = self.shared + 1;
            },
            Slot::Personal => {
                self.personal = self.personal + 1;
            },
            Slot::Playback => {
                self.playback = self.playback + 1;
            },
        }
    }

    /// Makes every lease stale.
    pub fn invalidate_all(&mut self)
        requires
            old(self).room(1),
        ensures
            *final(self) == old(self).all_moved(),
    {
        self.shared = self.shared + 1;
        self.personal = self.personal + 1;
        self.playback = self.playback + 1;
    }
}

/// Why a stored grant could not be read or written.
#[derive(Clone, Debug, PartialEq, Eq)]
pub enum StorageError {
    /// The slot moved on while the work was under way.
    Stale,
    Failed(String),
}

impl StorageError {
    pub open spec fn spec_text(&self) -> Seq<char> {
        match self {
            StorageError::Stale => "The stored sign-in changed in the meantime."@,
            StorageError::Failed(text) => text@,
        }
    }

    pub fn text(&self) -> (text: String)
        ensures
            text@ == self.spec_text(),
    {
        match self {
            StorageError::Stale => "The stored sign-in changed in the meantime.".to_owned(),
            StorageError::Failed(text) => text.clone(),
        }
    }
}

/// A Web API grant: the app it was given to, its tokens and what they allow.
/// What else the service said of it travels in `extra`, unread.
#[derive(Debug, Default, PartialEq, Eq)]
pub struct StoredToken {
    pub client_id: String,
    pub access_token: String,
    pub refresh_token: String,
    pub scopes: Vec<String>,
    pub extra: String,
}

/// The content of a [`StoredToken`].
pub struct TokenModel {
    pub client_id: Seq<char>,
    pub access_token: Seq<char>,
    pub refresh_token: Seq<char>,
    pub scopes: Seq<Seq<char>>,
    pub extra: Seq<char>,
}

impl View for StoredToken {
    type V = TokenModel;

    open spec fn view(&self) -> TokenModel {
        TokenModel {
            client_id: self.client_id@,
            access_token: self.access_token@,
            refresh_token: self.refresh_token@,
            scopes: self.scopes.deep_view(),
            extra: self.extra@,
        }
    }
}

impl DeepView for StoredToken {
    type V = TokenModel;

    open spec fn deep_view(&self) -> TokenModel {
        self@
    }
}

impl Clone for StoredToken {
    fn clone(&self) -> (copy: Self)
        ensures
            copy@ == self@,
    {
        let scopes = copy_texts(&self.scopes);
        assert(scopes.deep_view() =~= self.scopes.deep_view());
        StoredToken {
            client_id: self.client_id.clone(),
            access_token: self.access_token.clone(),
            refresh_token: self.refresh_token.clone(),
            scopes,
            extra: self.extra.clone(),
        }
    }
}

impl TokenModel {
    /// Whether the grant allows everything in `required`.
    pub open spec fn has_scopes(self, required: Seq<Seq<char>>) -> bool {
        forall|i: int|
            0 <= i < required.len() ==> self.scopes.contains(#[trigger] required[i])
    }
}

/// Whether a text stands in a list.
fn listed(texts: &Vec<String>, text: &String) -> (found: bool)
    ensures
        found == texts.deep_view().contains(text@),
{
    let mut i: usize = 0;
    while i < texts.len()
        invariant
            i <= texts@.len(),
            forall|j: int| 0 <= j < i ==> #[trigger] texts.deep_view()[j] != text@,
        decreases texts@.len() - i,
    {
        if texts[i] == *text {
            assert(texts.deep_view()[i as int] == text@);
            return true;
        }
        i += 1;
    }
    false
}

impl StoredToken {
    /// Whether the grant allows everything in `required`.
    pub fn has_scopes(&self, required: &Vec<String>) -> (all: bool)
        ensures
            all == self@.has_scopes(required.deep_view()),
    {
        let mut i: usize = 0;
        while i < required.len()
            invariant
                i <= required@.len(),
                forall|j: int|
                    0 <= j < i ==> self@.scopes.contains(#[trigger] required.deep_view()[j]),
            decreases required@.len() - i,
        {
            if !listed(&self.scopes, &required[i]) {
                assert(!self@.scopes.contains(required.deep_view()[i as int]));
                return false;
            }
            i += 1;
        }
        true
    }
}

/// How the engine is to read the secret of a playback grant.
#[derive(Clone, Copy, Debug, PartialEq, Eq, Structural)]
pub enum AuthenticationType {
    UserPass,
    StoredCredentials,
    StoredFacebookCredentials,
    SpotifyToken,
    FacebookToken,
}

/// What the engine signs in to the streaming service with.
#[derive(Debug, PartialEq, Eq)]
pub struct Credentials {
    pub username: Option<String>,
    pub auth_type: AuthenticationType,
    pub auth_data: Vec<u8>,
}

/// The content of [`Credentials`].
pub struct CredentialsModel {
    pub username: Option<Seq<char>>,
    pub auth_type: AuthenticationType,
    pub auth_data: Seq<u8>,
}

impl View for Credentials {
    type V = CredentialsModel;

    open spec fn view(&self) -> CredentialsModel {
        CredentialsModel {
            username: self.username.deep_view(),
            auth_type: self.auth_type,
            auth_data: self.auth_data@,
        }
    }
}

impl DeepView for Credentials {
    type V = CredentialsModel;

    open spec fn deep_view(&self) -> CredentialsModel {
        self@
    }
}

impl Clone for Credentials {
    fn clone(&self) -> (copy: Self)
        ensures
            copy@ == self@,
    {
        let auth_data = self.auth_data.clone();
        assert(auth_data@ =~= self.auth_data@);
        Credentials {
            username: copy_text(&self.username),
            auth_type: self.auth_type,
            auth_data,
        }
    }
}

/// A streaming token bound to a verified account; nothing without an account.
pub open spec fn bound_credentials(
    account: Option<Seq<char>>,
    access_token: Seq<char>,
) -> Option<CredentialsModel> {
    match account {
        Some(id) => if id.len() == 0 {
            None
        } else {
            Some(
                CredentialsModel {
                    username: Some(id),
                    auth_type: AuthenticationType::SpotifyToken,
                    auth_data: encode_utf8(access_token),
                },
            )
        },
        None => None,
    }
}

/// Binds a streaming token to an account verified by either Web API grant.
/// A late browser result after sign-out must not start an anonymous session.
pub fn playback_credentials(account: Option<AccountId>, access_token: String) -> (credentials:
    Option<Credentials>)
    ensures
        credentials.deep_view() == bound_credentials(account.deep_view(), access_token@),
{
    match account {
        Some(account) => {
            let id = account.into_string();
            if id.as_str().is_empty() {
                None
            } else {
                Some(
                    Credentials {
                        username: Some(id),
                        auth_type: AuthenticationType::SpotifyToken,
                        auth_data: access_token.as_str().as_bytes_vec(),
                    },
                )
            }
        },
        None => None,
    }
}

/// Whether a grant names an account, and names the verified one.
pub open spec fn names_account(
    credentials: CredentialsModel,
    account: Option<Seq<char>>,
) -> bool {
    match credentials.username {
        Some(name) => name.len() > 0 && account == Some(name),
        None => false,
    }
}

/// Whether a grant names an account, and names the verified one.
pub fn playback_account_matches(credentials: &Credentials, account: Option<AccountId>) -> (matches:
    bool)
    ensures
        matches == names_account(credentials@, account.deep_view()),
{
    match (&credentials.username, account) {
        (Some(name), Some(account)) => !name.as_str().is_empty() && account.into_string() == *name,
        _ => false,
    }
}

/// A grant as it comes out of storage.
#[derive(Debug)]
pub enum StoredGrant {
    Web(StoredToken),
    Playback(Credentials),
}

/// What reading a slot gave: a grant, if there was one, and what went wrong on
/// the way to it.
#[derive(Debug)]
pub struct Loaded {
    pub grant: Option<StoredGrant>,
    pub warning: Option<StorageError>,
}

}
