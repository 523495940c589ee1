//! The two Web API sessions, the account they agree on, and what is known of
//! the playlists they may touch.

use vstd::hash_map::StringHashMap;
use vstd::prelude::*;
use vstd::string::*;

use crate::models::Playlist;
use crate::text::copy_text;

verus! {

/// Which Web API app answers: the one everybody shares, or the listener's own.
#[derive(Clone, Copy, Debug, PartialEq, Eq, Structural)]
pub enum ApiSource {
    Shared,
    Personal,
}

/// A verified account.
#[derive(Debug, PartialEq, Eq)]
pub struct AccountId {
    id: String,
}

impl View for AccountId {
    type V = Seq<char>;

    closed spec fn view(&self) -> Seq<char> {
        self.id@
    }
}

impl DeepView for AccountId {
    type V = Seq<char>;

    open spec fn deep_view(&self) -> Seq<char> {
        self@
    }
}

impl AccountId {
    pub fn new(id: String) -> (account: AccountId)
        ensures
            account@ == id@,
    {
        AccountId { id }
    }

    pub fn as_str(&self) -> (id: &str)
        ensures
            id@ == self@,
    {
        self.id.as_str()
    }

    pub fn into_string(self) -> (id: String)
        ensures
            id@ == self@,
    {
        self.id
    }
}

impl Clone for AccountId {
    fn clone(&self) -> (copy: Self)
        ensures
            copy@ == self@,
    {
        AccountId { id: self.id.clone() }
    }
}

/// Why a Web API request failed.
#[derive(Clone, Debug, PartialEq, Eq)]
pub enum ApiError {
    /// The app's grant is no longer accepted.
    SignInExpired { api_source: ApiSource },
    /// The service answered with an error status.
    Status { status: u16, message: String },
    /// No answer came.
    Unreachable(String),
}

impl ApiError {
    pub open spec fn spec_status(&self) -> Option<u16> {
        match self {
            ApiError::Status { status, .. } => Some(*status),
            _ => None,
        }
    }

    pub open spec fn spec_text(&self) -> Seq<char> {
        match self {
            ApiError::SignInExpired { .. } => SIGN_IN_EXPIRED@,
            ApiError::Status { message, .. } => message@,
            ApiError::Unreachable(message) => message@,
        }
    }

    /// The app whose grant expired, where that is what happened.
    pub open spec fn spec_expired(&self) -> Option<ApiSource> {
        match self {
            ApiError::SignInExpired { api_source } => Some(*api_source),
            _ => None,
        }
    }

    pub fn status(&self) -> (status: Option<u16>)
        ensures
            status == self.spec_status(),
    {
        match self {
            ApiError::Status { status, .. } => Some(*status),
            _ => None,
        }
    }

    pub fn text(&self) -> (text: String)
        ensures
            text@ == self.spec_text(),
    {
        match self {
            ApiError::SignInExpired { .. } => SIGN_IN_EXPIRED.to_owned(),
            ApiError::Status { message, .. } => message.clone(),
            ApiError::Unreachable(message) => message.clone(),
        }
    }

    /// The app whose grant expired, where that is what happened.
    pub fn expired(&self) -> (source: Option<ApiSource>)
        ensures
            source == self.spec_expired(),
    {
        match self {
            ApiError::SignInExpired { api_source } => Some(*api_source),
            _ => None,
        }
    }
}

/// Shown when the shared app's grant is no longer accepted.
pub const SIGN_IN_EXPIRED: &'static str = "Your Spotify sign-in expired. Please sign in again.";

/// Shown when the two apps were authorized for different accounts.
pub const ACCOUNT_MISMATCH: &'static str =
    "This app was authorized for another Spotify account. Sign in with the same account.";

/// Where one app's session stands.
#[derive(Debug, PartialEq, Eq)]
pub enum SessionState {
    Unavailable,
    Authorizing,
    Ready { account: AccountId },
}

/// The content of a [`SessionState`].
pub enum SessionModel {
    Unavailable,
    Authorizing,
    Ready { account: Seq<char> },
}

impl View for SessionState {
    type V = SessionModel;

    open spec fn view(&self) -> SessionModel {
        match self {
            SessionState::Unavailable => SessionModel::Unavailable,
            SessionState::Authorizing => SessionModel::Authorizing,
            SessionState::Ready { account } => SessionModel::Ready { account: account@ },
        }
    }
}

/// The refusal of an account that differs from the one already verified.
#[derive(Clone, Copy, Debug, PartialEq, Eq)]
pub struct AccountMismatch;

impl AccountMismatch {
    pub fn text(&self) -> (text: String)
        ensures
            text@ == ACCOUNT_MISMATCH@,
    {
        ACCOUNT_MISMATCH.to_owned()
    }
}

/// What is known of a playlist when a request to it is routed.
#[derive(Debug, PartialEq, Eq)]
pub enum PlaylistAccess {
    /// Never seen, or its last answer was a refusal.
    Unknown,
    /// Seen, with the owner it was seen under.
    OwnedBy(Option<String>),
}

/// The content of a [`PlaylistAccess`].
pub enum AccessModel {
    Unknown,
    OwnedBy(Option<Seq<char>>),
}

impl View for PlaylistAccess {
    type V = AccessModel;

    open spec fn view(&self) -> AccessModel {
        match self {
            PlaylistAccess::Unknown => AccessModel::Unknown,
            PlaylistAccess::OwnedBy(owner) => AccessModel::OwnedBy(owner.deep_view()),
        }
    }
}

/// The sessions of both apps and the playlists seen through them.
pub struct ApiGateway {
    pub shared: SessionState,
    pub personal: SessionState,
    pub playlists: StringHashMap<Option<String>>,
}

/// The content of an [`ApiGateway`]: `playlists` maps the id of every playlist
/// that was seen to its owner.
pub struct GatewayModel {
    pub shared: SessionModel,
    pub personal: SessionModel,
    pub playlists: Map<Seq<char>, Option<Seq<char>>>,
}

impl View for ApiGateway {
    type V = GatewayModel;

    open spec fn view(&self) -> GatewayModel {
        GatewayModel {
            shared: self.shared@,
            personal: self.personal@,
            playlists: self.playlists@.map_values(|owner: Option<String>| owner.deep_view()),
        }
    }
}

impl GatewayModel {
    /// Both sessions closed and nothing known of any playlist.
    pub open spec fn empty() -> GatewayModel {
        GatewayModel {
            shared: SessionModel::Unavailable,
            personal: SessionModel::Unavailable,
            playlists: Map::empty(),
        }
    }

    pub open spec fn state(self, source: ApiSource) -> SessionModel {
        match source {
            ApiSource::Shared => self.shared,
            ApiSource::Personal => self.personal,
        }
    }

    pub open spec fn with_state(self, source: ApiSource, state: SessionModel) -> GatewayModel {
        match source {
            ApiSource::Shared => GatewayModel { shared: state, ..self },
            ApiSource::Personal => GatewayModel { personal: state, ..self },
        }
    }

    pub open spec fn cleared(self, source: ApiSource) -> GatewayModel {
        self.with_state(source, SessionModel::Unavailable)
    }

    /// The account of the sessions that are ready.
    pub open spec fn account(self) -> Option<Seq<char>> {
        match (self.shared, self.personal) {
            (SessionModel::Ready { account }, _) => Some(account),
            (_, SessionModel::Ready { account }) => Some(account),
            _ => None,
        }
    }

    /// Sessions that are ready at the same time belong to one account.
    pub open spec fn agrees(self) -> bool {
        match (self.shared, self.personal) {
            (SessionModel::Ready { account: one }, SessionModel::Ready { account: two }) => one
                == two,
            _ => true,
        }
    }

    /// Whether `account` may become ready in `source`: the other session is not
    /// ready, or is ready for the same account.
    pub open spec fn accepts(self, source: ApiSource, account: Seq<char>) -> bool {
        match self.state(other(source)) {
            SessionModel::Ready { account: verified } => verified == account,
            _ => true,
        }
    }

    /// What is known of the playlist `id`.
    pub open spec fn access(self, id: Seq<char>) -> AccessModel {
        if self.playlists.contains_key(id) {
            AccessModel::OwnedBy(self.playlists[id])
        } else {
            AccessModel::Unknown
        }
    }

    /// The gateway once `playlist` has been seen.
    pub open spec fn seen(self, playlist: Playlist) -> GatewayModel {
        GatewayModel {
            playlists: self.playlists.insert(playlist.id@, playlist.owner.id.deep_view()),
            ..self
        }
    }

    /// The gateway once `playlists` have been seen, in order.
    pub open spec fn all_seen(self, playlists: Seq<Playlist>) -> GatewayModel
        decreases playlists.len(),
    {
        if playlists.len() == 0 {
            self
        } else {
            self.all_seen(playlists.drop_last()).seen(playlists.last())
        }
    }

    /// The gateway once the playlist `id` has refused a request.
    pub open spec fn refused(self, id: Seq<char>) -> GatewayModel {
        GatewayModel { playlists: self.playlists.remove(id), ..self }
    }
}

/// The other app.
pub open spec fn other(source: ApiSource) -> ApiSource {
    match source {
        ApiSource::Shared => ApiSource::Personal,
        ApiSource::Personal => ApiSource::Shared,
    }
}

impl ApiGateway {
    pub fn new() -> (api: ApiGateway)
        ensures
            api@ == GatewayModel::empty(),
    {
        let api = ApiGateway {
            shared: SessionState::Unavailable,
            personal: SessionState::Unavailable,
            playlists: StringHashMap::new(),
        };
        assert(api@.playlists =~= Map::empty());
        api
    }

    pub fn state(&self, source: ApiSource) -> (state: &SessionState)
        ensures
            state@ == self@.state(source),
    {
        match source {
            ApiSource::Shared => &self.shared,
            ApiSource::Personal => &self.personal,
        }
    }

    pub fn set_state(&mut self, source: ApiSource, state: SessionState)
        ensures
            final(self)@ == old(self)@.with_state(source, state@),
    {
        match source {
            ApiSource::Shared => {
                self.shared = state;
            },
            ApiSource::Personal => {
                self.personal = state;
            },
        }
    }

    /// Closes one app's session.
    pub fn clear(&mut self, source: ApiSource)
        ensures
            final(self)@ == old(self)@.cleared(source),
    {
        self.set_state(source, SessionState::Unavailable);
    }

    /// Closes both sessions and forgets every playlist.
    pub fn clear_all(&mut self)
        ensures
            final(self)@ == GatewayModel::empty(),
    {
        *self = ApiGateway::new();
    }

    pub fn is_authorizing(&self, source: ApiSource) -> (authorizing: bool)
        ensures
            authorizing == (self@.state(source) is Authorizing),
    {
        match self.state(source) {
            SessionState::Authorizing => true,
            _ => false,
        }
    }

    pub fn is_ready(&self, source: ApiSource) -> (ready: bool)
        ensures
            ready == (self@.state(source) is Ready),
    {
        match self.state(source) {
            SessionState::Ready { .. } => true,
            _ => false,
        }
    }

    pub fn personal_ready(&self) -> (ready: bool)
        ensures
            ready == (self@.personal is Ready),
    {
        self.is_ready(ApiSource::Personal)
    }

    /// The account of the sessions that are ready.
    pub fn account(&self) -> (account: Option<AccountId>)
        ensures
            account.deep_view() == self@.account(),
    {
        match (&self.shared, &self.personal) {
            (SessionState::Ready { account }, _) => Some(account.clone()),
            (_, SessionState::Ready { account }) => Some(account.clone()),
            _ => None,
        }
    }

    /// Makes an app's session ready for a verified account, unless the other
    /// session is ready for a different one.
    pub fn install(&mut self, source: ApiSource, account: AccountId) -> (installed: Result<
        (),
        AccountMismatch,
    >)
        ensures
            installed is Ok <==> old(self)@.accepts(source, account@),
            final(self)@ == if old(self)@.accepts(source, account@) {
                old(self)@.with_state(source, SessionModel::Ready { account: account@ })
            } else {
                old(self)@
            },
    {
        let verified = match source {
            ApiSource::Shared => &self.personal,
            ApiSource::Personal => &self.shared,
        };
        let accepted = match verified {
            SessionState::Ready { account: verified } => verified.as_str().to_owned()
                == account.as_str().to_owned(),
            _ => true,
        };
        if accepted {
            self.set_state(source, SessionState::Ready { account });
            Ok(())
        } else {
            Err(AccountMismatch)
        }
    }

    /// What is known of a playlist.
    pub fn playlist_access(&self, id: &String) -> (access: PlaylistAccess)
        ensures
            access@ == self@.access(id@),
    {
        match self.playlists.get(id.as_str()) {
            Some(owner) => PlaylistAccess::OwnedBy(copy_text(owner)),
            None => PlaylistAccess::Unknown,
        }
    }

    /// Remembers a playlist that an answer showed.
    pub fn observe_playlist(&mut self, playlist: &Playlist)
        ensures
            final(self)@ == old(self)@.seen(*playlist),
    {
        self.playlists.insert(playlist.id.clone(), copy_text(&playlist.owner.id));
        assert(self@.playlists =~= old(self)@.seen(*playlist).playlists);
    }

    /// Remembers the playlists that an answer showed.
    pub fn observe_playlists(&mut self, playlists: &Vec<Playlist>)
        ensures
            final(self)@ == old(self)@.all_seen(playlists@),
    {
        let ghost before = self@;
        let mut i: usize = 0;
        while i < playlists.len()
            invariant
                i <= playlists@.len(),
                self@ == before.all_seen(playlists@.take(i as int)),
            decreases playlists@.len() - i,
        {
            self.observe_playlist(&playlists[i]);
            assert(playlists@.take(i + 1).drop_last() =~= playlists@.take(i as int));
            i += 1;
        }
        assert(playlists@.take(playlists@.len() as int) =~= playlists@);
    }

    /// Forgets what is known of a playlist that refused a request.
    pub fn invalidate_playlist_access(&mut self, id: &String)
        ensures
            final(self)@ == old(self)@.refused(id@),
    {
        self.playlists.remove(id.as_str());
        assert(self@.playlists =~= old(self)@.refused(id@).playlists);
    }
}

}
