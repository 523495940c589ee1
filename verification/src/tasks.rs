//! The decisions of the work that runs beside the command loop: what a
//! browser flow, a verification, a connection or a lookup reports when it is
//! over, and to whom.

use vstd::prelude::*;
use vstd::string::*;

use crate::credentials::{CredentialStore, Lease, StorageError, StoredToken};
use crate::events::{
    AuthModel, AuthStatus, Command, ConnectedEngine, Event, EventModel, LocalPlayback,
    PlaybackModel,
};
use crate::exchange::found_playlists;
use crate::gateway::{ApiError, ApiGateway, ApiSource};
use crate::models::{
    is_spotify_owned, spotify_owned, LocalState, Lyrics, Playlist, Release, Rootlist,
    SearchResults, User,
};
use crate::playlist_cache::{CachedPlaylist, PlaylistCache};
use crate::text::{
    after_prefix, contains_part, error_text, friendly_connect_text, friendly_text, has_part, joined,
    lowercase, prints,
};

verus! {

pub const SIGN_IN_FAILED: &'static str = "Sign-in failed: ";

pub const PLAYBACK_ERROR: &'static str = "Playback error: ";

pub const CONNECT_TIMED_OUT: &'static str = "Connecting to Spotify timed out";

pub const SIGN_IN_CHANGED: &'static str = "Sign-in changed before receiver activation.";

pub const NOTHING_TO_HAND_OVER: &'static str =
    "Enable playback on this computer first, so there is an account to hand over";

/// How long an engine may take to connect.
pub const CONNECT_TIMEOUT_S: u64 = 45;

/// How long a verification waits before it asks again the first time.
pub const FIRST_WAIT_S: u64 = 2;

/// How long a verification waits at most before it asks again.
pub const LONGEST_WAIT_S: u64 = 60;

/// What a piece of work reports when it is over: events for the interface,
/// and a command for the worker.
pub struct Outcome {
    pub events: Vec<Event>,
    pub command: Option<Command>,
}

/// The events of an outcome, in order.
pub open spec fn told(events: Seq<Event>) -> Seq<EventModel> {
    Seq::new(events.len(), |i: int| events[i]@)
}

// ---- storage --------------------------------------------------------------

/// What the listener is told of a storage failure: nothing when the slot has
/// moved on since.
pub fn storage_notice(credentials: &CredentialStore, lease: &Lease, error: StorageError) -> (event:
    Option<Event>)
    ensures
        event is Some <==> credentials.holds(*lease) && !(error is Stale),
        event matches Some(event) ==> event@ == EventModel::Error(error.spec_text()),
{
    if !credentials.current(lease) {
        return None;
    }
    match error {
        StorageError::Stale => None,
        StorageError::Failed(_) => Some(Event::Error(error.text())),
    }
}

// ---- Web API sign-in ------------------------------------------------------

/// What the listener is told when a browser flow opens: the shared app's
/// sign-in shows the address.
pub fn browser_opened(source: ApiSource, url: String) -> (event: Option<Event>)
    ensures
        event is Some <==> source == ApiSource::Shared,
        event matches Some(event) ==> event@ == EventModel::Auth(
            AuthModel::WaitingForBrowser { url: url@ },
        ),
{
    match source {
        ApiSource::Shared => Some(Event::Auth(AuthStatus::WaitingForBrowser { url })),
        ApiSource::Personal => None,
    }
}

/// What is told of a Web API browser flow that failed: nothing once its slot
/// has moved on; otherwise that the listener is signed out, where the shared
/// app was asked, and why, unless they cancelled it themselves.
pub open spec fn sign_in_failure(source: ApiSource, current: bool, message: Seq<char>) -> Seq<
    EventModel,
> {
    let signed_out = if current && source == ApiSource::Shared {
        seq![EventModel::Auth(AuthModel::SignedOut)]
    } else {
        seq![]
    };
    if current && !has_part(message, "cancelled"@) {
        signed_out.push(EventModel::Error(SIGN_IN_FAILED@ + message))
    } else {
        signed_out
    }
}

/// What a Web API browser flow reports.
pub fn sign_in_finished(
    credentials: &CredentialStore,
    source: ApiSource,
    lease: Lease,
    attempt: u64,
    result: Result<StoredToken, String>,
) -> (outcome: Outcome)
    ensures
        match result {
            Ok(token) => outcome.events@.len() == 0 && outcome.command == Some(
                Command::WebSignedIn { source, token: Box::new(token), lease, attempt },
            ),
            Err(message) => told(outcome.events@) == sign_in_failure(
                source,
                credentials.holds(lease),
                message@,
            ) && outcome.command == Some(Command::SignInEnded { source, attempt }),
        },
{
    let mut events: Vec<Event> = Vec::new();
    match result {
        Ok(token) => Outcome {
            events,
            command: Some(
                Command::WebSignedIn { source, token: Box::new(token), lease, attempt },
            ),
        },
        Err(message) => {
            let current = credentials.current(&lease);
            if current && source == ApiSource::Shared {
                events.push(Event::Auth(AuthStatus::SignedOut));
            }
            if current && !contains_part(message.as_str(), "cancelled") {
                events.push(Event::Error(joined(SIGN_IN_FAILED, message.as_str())));
            }
            assert(told(events@) =~= sign_in_failure(source, current, message@));
            Outcome { events, command: Some(Command::SignInEnded { source, attempt }) }
        },
    }
}

/// A grant on its way to being verified: whose it should be is asked again
/// and again, at growing distances, until there is a definite answer.
#[derive(Debug)]
pub struct Verification {
    pub source: ApiSource,
    pub token: StoredToken,
    pub lease: Lease,
    pub attempt: u64,
    /// How long to wait before asking again.
    pub wait_s: u64,
}

/// What follows an answer to a verification.
pub enum Verdict {
    /// It is over, and this is its report.
    Report(Command),
    /// Wait this long and ask again.
    Retry { wait_s: u64, next: Verification },
}

/// How long to wait after a wait of `wait_s`.
pub open spec fn next_wait(wait_s: u64) -> u64 {
    if wait_s * 2 <= LONGEST_WAIT_S {
        (wait_s * 2) as u64
    } else {
        LONGEST_WAIT_S
    }
}

/// Whether an error settles a verification: the grant expired, or the service
/// refused it. Anything else may pass.
pub open spec fn settles(error: ApiError) -> bool {
    error is SignInExpired || match error.spec_status() {
        Some(status) => status < 500,
        None => false,
    }
}

impl Verification {
    /// The report of a verification that nobody waits for any more.
    pub open spec fn ended(self) -> Command {
        Command::SignInEnded { source: self.source, attempt: self.attempt }
    }

    /// A verification that has not asked yet.
    pub fn begin(source: ApiSource, token: StoredToken, lease: Lease, attempt: u64) -> (begun:
        Verification)
        ensures
            begun == (Verification { source, token, lease, attempt, wait_s: FIRST_WAIT_S }),
    {
        Verification { source, token, lease, attempt, wait_s: FIRST_WAIT_S }
    }

    /// The report where it is not worth asking any more: the slot has moved
    /// on.
    pub fn overtaken(&self, credentials: &CredentialStore) -> (report: Option<Command>)
        ensures
            report == if credentials.holds(self.lease) {
                None
            } else {
                Some(self.ended())
            },
    {
        if credentials.current(&self.lease) {
            None
        } else {
            Some(Command::SignInEnded { source: self.source, attempt: self.attempt })
        }
    }

    /// What the service's answer leads to.
    pub open spec fn verdict(self, current: bool, answer: Result<User, ApiError>) -> Verdict {
        match answer {
            Ok(user) => Verdict::Report(
                Command::WebVerified {
                    source: self.source,
                    token: Box::new(self.token),
                    user: Box::new(user),
                    lease: self.lease,
                    attempt: self.attempt,
                },
            ),
            Err(error) => if !settles(error) {
                Verdict::Retry {
                    wait_s: self.wait_s,
                    next: Verification { wait_s: next_wait(self.wait_s), ..self },
                }
            } else if current {
                Verdict::Report(
                    Command::WebVerificationFailed {
                        source: self.source,
                        lease: self.lease,
                        attempt: self.attempt,
                        error,
                    },
                )
            } else {
                Verdict::Report(self.ended())
            },
        }
    }

    /// Takes the service's answer.
    pub fn answered(
        self,
        credentials: &CredentialStore,
        answer: Result<User, ApiError>,
    ) -> (verdict: Verdict)
        ensures
            verdict == self.verdict(credentials.holds(self.lease), answer),
    {
        let Verification { source, token, lease, attempt, wait_s } = self;
        let error = match answer {
            Ok(user) => {
                return Verdict::Report(
                    Command::WebVerified {
                        source,
                        token: Box::new(token),
                        user: Box::new(user),
                        lease,
                        attempt,
                    },
                );
            },
            Err(error) => error,
        };
        let settled = match &error {
            ApiError::SignInExpired { .. } => true,
            _ => match error.status() {
                Some(status) => status < 500,
                None => false,
            },
        };
        if !settled {
            let wait_next: u64 = if wait_s <= LONGEST_WAIT_S / 2 {
                wait_s * 2
            } else {
                LONGEST_WAIT_S
            };
            let next = Verification { source, token, lease, attempt, wait_s: wait_next };
            return Verdict::Retry { wait_s, next };
        }
        if credentials.current(&lease) {
            Verdict::Report(Command::WebVerificationFailed { source, lease, attempt, error })
        } else {
            Verdict::Report(Command::SignInEnded { source, attempt })
        }
    }

    /// The report where it is not worth asking again after a wait: the app is
    /// not being authorized any more.
    pub fn waited(&self, api: &ApiGateway) -> (report: Option<Command>)
        ensures
            report == if api@.state(self.source) is Authorizing {
                None
            } else {
                Some(self.ended())
            },
    {
        if api.is_authorizing(self.source) {
            None
        } else {
            Some(Command::SignInEnded { source: self.source, attempt: self.attempt })
        }
    }
}

// ---- local playback engine ------------------------------------------------

/// What is told of a playback browser flow that failed: nothing once its slot
/// has moved on.
pub open spec fn playback_failure(current: bool, message: Seq<char>) -> Seq<EventModel> {
    if !current {
        seq![]
    } else if has_part(message, "cancelled"@) {
        seq![EventModel::Playback(PlaybackModel::Unavailable)]
    } else {
        seq![EventModel::Playback(PlaybackModel::Failed(message))]
    }
}

/// What the playback browser flow reports: the streaming token it got, or why
/// it got none.
pub fn playback_authorization_finished(
    credentials: &CredentialStore,
    lease: Lease,
    attempt: u64,
    result: Result<String, String>,
) -> (outcome: Outcome)
    ensures
        match result {
            Ok(access_token) => outcome.events@.len() == 0 && outcome.command == Some(
                Command::PlaybackAuthorized { access_token, lease, attempt },
            ),
            Err(message) => told(outcome.events@) == playback_failure(
                credentials.holds(lease),
                message@,
            ) && outcome.command == Some(Command::PlaybackAuthEnded { attempt }),
        },
{
    let mut events: Vec<Event> = Vec::new();
    match result {
        Ok(access_token) => Outcome {
            events,
            command: Some(Command::PlaybackAuthorized { access_token, lease, attempt }),
        },
        Err(message) => {
            let ghost text = message@;
            let current = credentials.current(&lease);
            if current {
                if contains_part(message.as_str(), "cancelled") {
                    events.push(Event::Playback(LocalPlayback::Unavailable));
                } else {
                    events.push(Event::Playback(LocalPlayback::Failed(message)));
                }
            }
            assert(told(events@) =~= playback_failure(current, text));
            Outcome { events, command: Some(Command::PlaybackAuthEnded { attempt }) }
        },
    }
}

/// How an attempt to connect an engine ended.
pub enum Connection {
    /// The engine's cache could not be opened.
    NoCache(String),
    Connected(ConnectedEngine),
    Refused(anyhow::Error),
    TimedOut,
}

/// Whether an attempt to connect may show `shown`: an engine shows nothing, and
/// a refusal what its error printed in full is put to the listener as.
pub open spec fn connection_shows(connection: Connection, shown: Option<Seq<char>>) -> bool {
    match connection {
        Connection::NoCache(message) => shown == Some(message@),
        Connection::Connected(_) => shown is None,
        Connection::Refused(error) => exists|text: String| #[trigger]
            prints(&error, text) && shown == Some(friendly_text(text@, lowercase(text@))),
        Connection::TimedOut => shown == Some(CONNECT_TIMED_OUT@),
    }
}

/// What an attempt to connect an engine reports. A refusal is printed and
/// reported as [`connection_refused`] says.
pub fn connection_finished(lease: Lease, connection: Connection) -> (command: Command)
    ensures
        command matches Command::EngineConnected { engine, error, lease: under } && under == lease
            && connection_shows(connection, error.deep_view()) && engine == match connection {
            Connection::Connected(engine) => Some(engine),
            _ => None,
        },
{
    match connection {
        Connection::NoCache(message) => Command::EngineConnected {
            engine: None,
            error: Some(message),
            lease,
        },
        Connection::Connected(engine) => Command::EngineConnected {
            engine: Some(engine),
            error: None,
            lease,
        },
        Connection::Refused(error) => {
            let text = error_text(&error);
            assert(prints(&error, text));
            connection_refused(lease, text)
        },
        Connection::TimedOut => Command::EngineConnected {
            engine: None,
            error: Some(CONNECT_TIMED_OUT.to_owned()),
            lease,
        },
    }
}

/// What a refused attempt to connect an engine reports, for the text of the
/// refusal.
pub fn connection_refused(lease: Lease, text: String) -> (command: Command)
    ensures
        command matches Command::EngineConnected { engine: None, error: Some(shown), lease: under }
            && under == lease && shown@ == friendly_text(text@, lowercase(text@)),
{
    Command::EngineConnected { engine: None, error: Some(friendly_connect_text(text)), lease }
}

/// What an engine says of itself.
#[derive(Debug)]
pub enum EngineEvent {
    State(LocalState),
    SessionEnded,
}

/// What becomes of an engine's event: nothing once its slot has moved on, so
/// that an engine of an earlier session is not heard.
pub fn engine_notify(credentials: &CredentialStore, lease: &Lease, event: EngineEvent) -> (outcome:
    Outcome)
    ensures
        if !credentials.holds(*lease) {
            outcome.events@.len() == 0 && outcome.command is None
        } else {
            match event {
                EngineEvent::State(state) => outcome.events@ == seq![Event::Local(Box::new(state))]
                    && outcome.command is None,
                EngineEvent::SessionEnded => outcome.events@.len() == 0 && outcome.command == Some(
                    Command::Reconnect,
                ),
            }
        },
{
    let mut events: Vec<Event> = Vec::new();
    if !credentials.current(lease) {
        return Outcome { events, command: None };
    }
    match event {
        EngineEvent::State(state) => {
            events.push(Event::Local(Box::new(state)));
            assert(events@ =~= seq![Event::Local(Box::new(state))]);
            Outcome { events, command: None }
        },
        EngineEvent::SessionEnded => Outcome { events, command: Some(Command::Reconnect) },
    }
}

/// What the listener is told when the engine did not take an order.
pub fn order_refused(message: &str) -> (event: Event)
    ensures
        event@ == EventModel::Error(PLAYBACK_ERROR@ + message@),
{
    Event::Error(joined(PLAYBACK_ERROR, message))
}

// ---- receivers on the local network ---------------------------------------

/// A receiver on its way to being given the account, under the lease on the
/// grant it is to get.
#[derive(Debug)]
pub struct Activation<T> {
    pub name: String,
    pub lease: Lease,
    pub grant: T,
}

/// What an activation does next.
pub enum ReceiverStep<T> {
    /// Ask the receiver who it is.
    Ask(Activation<T>),
    /// Hand the grant over.
    HandOver(Activation<T>),
    /// It is over, and the interface is told.
    Over(Event),
}

/// Whether a step tells the interface that the receiver `name` was not
/// activated, and why.
pub open spec fn gives_up<T>(step: ReceiverStep<T>, name: String, reason: Seq<char>) -> bool {
    step matches ReceiverStep::Over(Event::ReceiverActivated { name: of, result: Err(message) })
        && of == name && message@ == reason
}

fn given_up<T>(name: String, reason: &str) -> (step: ReceiverStep<T>)
    ensures
        gives_up(step, name, reason@),
{
    ReceiverStep::Over(Event::ReceiverActivated { name, result: Err(reason.to_owned()) })
}

/// How an activation begins, where the lease is `current` or not: the receiver
/// is not asked once the slot has moved on, nor where there is no grant to
/// give.
pub open spec fn begins<T>(
    current: bool,
    lease: Lease,
    name: String,
    grant: Option<T>,
    step: ReceiverStep<T>,
) -> bool {
    if !current {
        gives_up(step, name, SIGN_IN_CHANGED@)
    } else {
        match grant {
            Some(grant) => step == ReceiverStep::Ask(Activation { name, lease, grant }),
            None => gives_up(step, name, NOTHING_TO_HAND_OVER@),
        }
    }
}

/// What follows once the receiver has been asked, where the lease is still
/// `current` or not: nothing is handed over where it did not answer, nor once
/// the slot has moved on.
pub open spec fn goes_on<T>(
    activation: Activation<T>,
    current: bool,
    asked: Result<(), String>,
    step: ReceiverStep<T>,
) -> bool {
    match asked {
        Err(message) => step == ReceiverStep::<T>::Over(
            Event::ReceiverActivated { name: activation.name, result: Err(message) },
        ),
        Ok(_) => if current {
            step == ReceiverStep::HandOver(activation)
        } else {
            gives_up(step, activation.name, SIGN_IN_CHANGED@)
        },
    }
}

/// Begins an activation.
pub fn receiver_begun<T>(
    credentials: &CredentialStore,
    lease: Lease,
    name: String,
    grant: Option<T>,
) -> (step: ReceiverStep<T>)
    ensures
        begins(credentials.holds(lease), lease, name, grant, step),
{
    if !credentials.current(&lease) {
        return given_up(name, SIGN_IN_CHANGED);
    }
    match grant {
        Some(grant) => ReceiverStep::Ask(Activation { name, lease, grant }),
        None => given_up(name, NOTHING_TO_HAND_OVER),
    }
}

/// Goes on with an activation once the receiver has been asked.
pub fn receiver_answered<T>(
    activation: Activation<T>,
    credentials: &CredentialStore,
    asked: Result<(), String>,
) -> (step: ReceiverStep<T>)
    ensures
        goes_on(activation, credentials.holds(activation.lease), asked, step),
{
    match asked {
        Err(message) => ReceiverStep::Over(
            Event::ReceiverActivated { name: activation.name, result: Err(message) },
        ),
        Ok(_) => if credentials.current(&activation.lease) {
            ReceiverStep::HandOver(activation)
        } else {
            given_up(activation.name, SIGN_IN_CHANGED)
        },
    }
}

/// Ends an activation once the grant has been handed over, or could not be.
pub fn receiver_handed<T>(activation: Activation<T>, result: Result<(), String>) -> (event: Event)
    ensures
        event == (Event::ReceiverActivated { name: activation.name, result }),
{
    Event::ReceiverActivated { name: activation.name, result }
}

// ---- lookups --------------------------------------------------------------

/// The text of an error in place of the error.
fn printed<T>(result: Result<T, anyhow::Error>) -> (printed: Result<T, String>)
    ensures
        match result {
            Ok(value) => printed == Ok::<T, String>(value),
            Err(error) => printed matches Err(text) && prints(&error, text),
        },
{
    match result {
        Ok(value) => Ok(value),
        Err(error) => Err(error_text(&error)),
    }
}

/// What the interface is told of an update check; a failure is printed.
pub fn update_checked(manual: bool, result: Result<Option<Release>, anyhow::Error>) -> (event:
    Event)
    ensures
        event matches Event::UpdateChecked { manual: asked, result: shown } && asked == manual
            && match result {
            Ok(release) => shown == Ok::<Option<Release>, String>(release),
            Err(error) => shown matches Err(text) && prints(&error, text),
        },
{
    update_told(manual, printed(result))
}

/// What the interface is told of an update check.
pub fn update_told(manual: bool, result: Result<Option<Release>, String>) -> (event: Event)
    ensures
        event == (Event::UpdateChecked { manual, result }),
{
    Event::UpdateChecked { manual, result }
}

/// What the interface is told of the account's playlist tree; a failure is
/// printed.
pub fn rootlist_read(result: Result<Rootlist, anyhow::Error>) -> (event: Event)
    ensures
        event matches Event::Rootlist { result: shown } && match result {
            Ok(rootlist) => shown == Ok::<Rootlist, String>(rootlist),
            Err(error) => shown matches Err(text) && prints(&error, text),
        },
{
    rootlist_told(printed(result))
}

/// What the interface is told of the account's playlist tree.
pub fn rootlist_told(result: Result<Rootlist, String>) -> (event: Event)
    ensures
        event == (Event::Rootlist { result }),
{
    Event::Rootlist { result }
}

/// A list of users whose names are looked up, one after the other.
#[derive(Debug)]
pub struct NameLookup {
    pub ids: Vec<String>,
    /// How many have been looked up.
    pub told: usize,
}

impl NameLookup {
    /// Whether no more have been looked up than there are.
    pub open spec fn valid(self) -> bool {
        self.told <= self.ids@.len()
    }

    /// The users still to be looked up, in order.
    pub open spec fn rest(self) -> Seq<String> {
        self.ids@.skip(self.told as int)
    }

    /// A lookup that has not begun.
    pub fn begin(ids: Vec<String>) -> (lookup: NameLookup)
        ensures
            lookup.valid(),
            lookup.rest() == ids@,
    {
        let lookup = NameLookup { ids, told: 0 };
        assert(lookup.rest() =~= ids@);
        lookup
    }

    /// Whom to ask for next, if anybody.
    pub fn next(&self) -> (id: Option<String>)
        requires
            self.valid(),
        ensures
            id == if self.rest().len() > 0 {
                Some(self.rest()[0])
            } else {
                None
            },
    {
        if self.told < self.ids.len() {
            Some(self.ids[self.told].clone())
        } else {
            None
        }
    }

    /// Takes the answer for the next user: what the interface is told, `None`
    /// for a name that nothing answered to.
    pub fn answered(&mut self, name: Option<String>) -> (event: Option<Event>)
        requires
            old(self).valid(),
        ensures
            final(self).valid(),
            if old(self).rest().len() > 0 {
                &&& event == Some(Event::UserName { id: old(self).rest()[0], name })
                &&& final(self).rest() == old(self).rest().skip(1)
            } else {
                &&& event is None
                &&& final(self).rest() == old(self).rest()
            },
    {
        if self.told < self.ids.len() {
            let id = self.ids[self.told].clone();
            self.told = self.told + 1;
            assert(self.rest() =~= old(self).rest().skip(1));
            Some(Event::UserName { id, name })
        } else {
            None
        }
    }
}

/// What a lyrics lookup does next. Spotify's own words go first: they follow
/// the recording exactly. Everything else falls back to LRCLIB.
#[derive(Debug)]
pub enum LyricsStep {
    /// See whether this file holds an earlier answer of Spotify's.
    ReadCache { file_name: String },
    /// Ask the engine in use.
    AskEngine { file_name: String },
    /// Keep Spotify's answer in this file, "none" included.
    Keep { file_name: String, found: Option<Lyrics> },
    /// Ask LRCLIB.
    FallBack,
    Found(Lyrics),
}

/// What follows once Spotify's answer is known.
pub open spec fn lyrics_known(found: Option<Lyrics>) -> LyricsStep {
    match found {
        Some(lyrics) => LyricsStep::Found(lyrics),
        None => LyricsStep::FallBack,
    }
}

/// How a lyrics lookup begins: only a track can have Spotify's words, and they
/// are kept in a file named after its id.
pub fn lyrics_begin(uri: &str) -> (step: LyricsStep)
    ensures
        !"spotify:track:"@.is_prefix_of(uri@) ==> step is FallBack,
        "spotify:track:"@.is_prefix_of(uri@) ==> (step matches LyricsStep::ReadCache { file_name }
            && file_name@ == "spotify-"@ + uri@.skip("spotify:track:"@.len() as int) + ".json"@),
{
    match after_prefix(uri, "spotify:track:") {
        Some(id) => {
            assert(id@ =~= uri@.skip("spotify:track:"@.len() as int));
            let named = joined("spotify-", id.as_str());
            LyricsStep::ReadCache { file_name: joined(named.as_str(), ".json") }
        },
        None => LyricsStep::FallBack,
    }
}

/// What follows once the file has been read: an earlier answer settles it;
/// without one the engine is asked, where there is one.
pub fn lyrics_cached(file_name: String, cached: Option<Option<Lyrics>>, engine: bool) -> (step:
    LyricsStep)
    ensures
        step == match cached {
            Some(found) => lyrics_known(found),
            None => if engine {
                LyricsStep::AskEngine { file_name }
            } else {
                LyricsStep::FallBack
            },
        },
{
    match cached {
        Some(found) => lyrics_kept(found),
        None => if engine {
            LyricsStep::AskEngine { file_name }
        } else {
            LyricsStep::FallBack
        },
    }
}

/// What follows once the engine has answered: an answer is kept, a failure is
/// not.
pub fn lyrics_asked(file_name: String, answer: Result<Option<Lyrics>, anyhow::Error>) -> (step:
    LyricsStep)
    ensures
        step == match answer {
            Ok(found) => LyricsStep::Keep { file_name, found },
            Err(_) => LyricsStep::FallBack,
        },
{
    match answer {
        Ok(found) => LyricsStep::Keep { file_name, found },
        Err(_) => LyricsStep::FallBack,
    }
}

/// What follows once Spotify's answer is known and kept.
pub fn lyrics_kept(found: Option<Lyrics>) -> (step: LyricsStep)
    ensures
        step == lyrics_known(found),
{
    match found {
        Some(lyrics) => LyricsStep::Found(lyrics),
        None => LyricsStep::FallBack,
    }
}

/// What the interface is told of the words LRCLIB had; a failure is printed.
pub fn lyrics_fallen_back(uri: String, result: Result<Option<Lyrics>, anyhow::Error>) -> (event:
    Event)
    ensures
        event matches Event::Lyrics { uri: of, result: shown } && of == uri && match result {
            Ok(lyrics) => shown == Ok::<Option<Lyrics>, String>(lyrics),
            Err(error) => shown matches Err(text) && prints(&error, text),
        },
{
    lyrics_told(uri, printed(result))
}

/// What the interface is told of the words of a track.
pub fn lyrics_told(uri: String, result: Result<Option<Lyrics>, String>) -> (event: Event)
    ensures
        event == (Event::Lyrics { uri, result }),
{
    Event::Lyrics { uri, result }
}

/// What the interface is told of a playlist cache: nothing usable where there
/// is no file, or its numbers do not fit together.
pub fn playlist_cache_read(
    account_id: String,
    id: String,
    generation: u64,
    cached: Option<CachedPlaylist>,
) -> (event: Event)
    ensures
        event == (Event::PlaylistCache {
            account_id,
            id,
            generation,
            cache: match cached {
                Some(cached) => if cached.consistent() {
                    Some(
                        PlaylistCache {
                            snapshot: cached.snapshot,
                            items: cached.items,
                            total: cached.spec_total(),
                            next_offset: cached.next_offset,
                        },
                    )
                } else {
                    None
                },
                None => None,
            },
        }),
{
    let cache = match cached {
        Some(cached) => cached.restored(),
        None => None,
    };
    Event::PlaylistCache { account_id, id, generation, cache }
}

/// The playlists of Spotify's own among those given, in order.
pub open spec fn editorial(playlists: Seq<Playlist>) -> Seq<Playlist> {
    playlists.filter(|playlist: Playlist| spotify_owned(playlist))
}

fn editorial_only(playlists: Vec<Playlist>) -> (owned: Vec<Playlist>)
    ensures
        owned@ == editorial(playlists@),
{
    let ghost all = playlists@;
    let mut owned: Vec<Playlist> = Vec::new();
    for playlist in it: playlists.into_iter()
        invariant
            it.seq() == all,
            owned@ == editorial(all.take(it.index())),
    {
        proof {
            reveal(Seq::filter);
            assert(all.take(it.index() + 1).drop_last() =~= all.take(it.index()));
        }
        if is_spotify_owned(&playlist) {
            owned.push(playlist);
        }
    }
    assert(all.take(all.len() as int) =~= all);
    owned
}

/// What the interface is told of an editorial lookup that was answered:
/// Spotify's own playlists among those found, or nothing where there is none.
pub fn editorial_found(query: String, serial: u64, results: SearchResults) -> (event: Option<Event>)
    ensures
        event is Some <==> editorial(found_playlists(results)).len() > 0,
        event matches Some(event) ==> (event matches Event::EditorialPlaylists {
            query: asked,
            serial: under,
            playlists,
        } && asked == query && under == serial && playlists@ == editorial(
            found_playlists(results),
        )),
{
    let playlists = match results.playlists {
        Some(page) => page.items,
        None => Vec::new(),
    };
    assert(playlists@ =~= found_playlists(results));
    let playlists = editorial_only(playlists);
    if playlists.len() == 0 {
        None
    } else {
        Some(Event::EditorialPlaylists { query, serial, playlists })
    }
}

/// How an editorial lookup ended.
pub enum EditorialSearch {
    Found(SearchResults),
    /// No client for the shared app, or the search failed.
    Failed(ApiError),
    /// No answer came within the time the shared app may be waited for.
    TimedOut,
}

/// What an editorial lookup has to show: Spotify's own playlists among those
/// found, and nothing on an error or a timeout.
pub open spec fn editorial_shown(outcome: EditorialSearch) -> Seq<Playlist> {
    match outcome {
        EditorialSearch::Found(results) => editorial(found_playlists(results)),
        _ => seq![],
    }
}

/// What the interface is told of an editorial lookup, however it ended: an
/// error, a timeout and an empty find leave what is on screen as it is.
pub fn editorial_finished(query: String, serial: u64, outcome: EditorialSearch) -> (event: Option<
    Event,
>)
    ensures
        event is Some <==> editorial_shown(outcome).len() > 0,
        event matches Some(event) ==> (event matches Event::EditorialPlaylists {
            query: asked,
            serial: under,
            playlists,
        } && asked == query && under == serial && playlists@ == editorial_shown(outcome)),
{
    match outcome {
        EditorialSearch::Found(results) => editorial_found(query, serial, results),
        EditorialSearch::Failed(_) => None,
        EditorialSearch::TimedOut => None,
    }
}

}
