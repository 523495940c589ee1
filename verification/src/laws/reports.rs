//! What the work beside the command loop reports: verifications, browser flows,
//! connections, receivers and lookups.

use vstd::prelude::*;

use crate::credentials::{CredentialStore, Lease, StorageError, StoredToken};
use crate::events::{AuthModel, Command, ConnectedEngine, Event, EventModel, PlaybackModel};
use crate::gateway::{ApiError, ApiGateway, ApiSource};
use crate::models::{
    spotify_owned, LocalState, Lyrics, Playlist, PlaylistItem, Release, Rootlist, SearchResults,
    User,
};
use crate::playlist_cache::{checkpoint, CachedPlaylist, PlaylistCache};
use crate::tasks::{
    begins, browser_opened, connection_finished, connection_refused, editorial, editorial_finished,
    engine_notify, goes_on, lyrics_asked, lyrics_begin, lyrics_cached, lyrics_fallen_back,
    lyrics_kept, lyrics_told, next_wait, order_refused, playback_authorization_finished,
    playlist_cache_read, receiver_handed, rootlist_read, rootlist_told, sign_in_finished,
    storage_notice, told, update_checked, update_told, Activation, Connection, EditorialSearch,
    EngineEvent, LyricsStep, NameLookup, Outcome, ReceiverStep, Verdict, Verification,
};
use crate::text::{
    friendly_connect_error, friendly_connect_text, friendly_connect_words, friendly_text, has_part,
    lowercase, prints,
};

verus! {

// ---- verification -----------------------------------------------------------------

/// A refusal settles a verification: any status below 500 is reported, with the
/// error that came, and any other status is asked again about. Nothing else
/// decides which.
pub proof fn a_refused_grant_is_reported_and_a_failing_service_asked_again(
    verification: Verification,
    credentials: CredentialStore,
    status: u16,
    message: String,
    verdict: Verdict,
)
    requires
        call_ensures(
            Verification::answered,
            (verification, &credentials, Err(ApiError::Status { status, message })),
            verdict,
        ),
    ensures
        verdict is Retry <==> status >= 500,
        status < 500 && credentials.holds(verification.lease) ==> verdict == Verdict::Report(
            Command::WebVerificationFailed {
                source: verification.source,
                lease: verification.lease,
                attempt: verification.attempt,
                error: ApiError::Status { status, message },
            },
        ),
        status < 500 && !credentials.holds(verification.lease) ==> verdict == Verdict::Report(
            Command::SignInEnded { source: verification.source, attempt: verification.attempt },
        ),
{
}

/// An expired sign-in is always reported, and a service that cannot be reached
/// always asked again.
pub proof fn an_expired_grant_is_reported_and_silence_asked_again(
    verification: Verification,
    credentials: CredentialStore,
    api_source: ApiSource,
    message: String,
    expired: Verdict,
    unreachable: Verdict,
)
    requires
        call_ensures(
            Verification::answered,
            (verification, &credentials, Err(ApiError::SignInExpired { api_source })),
            expired,
        ),
        call_ensures(
            Verification::answered,
            (verification, &credentials, Err(ApiError::Unreachable(message))),
            unreachable,
        ),
    ensures
        credentials.holds(verification.lease) ==> expired == Verdict::Report(
            Command::WebVerificationFailed {
                source: verification.source,
                lease: verification.lease,
                attempt: verification.attempt,
                error: ApiError::SignInExpired { api_source },
            },
        ),
        !credentials.holds(verification.lease) ==> expired == Verdict::Report(
            Command::SignInEnded { source: verification.source, attempt: verification.attempt },
        ),
        unreachable is Retry,
{
}

/// An accepted grant is reported with the account it is for, under the lease and
/// the attempt it was verified under, even where the slot has moved on: the
/// worker decides then.
pub proof fn an_accepted_grant_is_reported_with_its_account(
    verification: Verification,
    credentials: CredentialStore,
    user: User,
    verdict: Verdict,
)
    requires
        call_ensures(Verification::answered, (verification, &credentials, Ok(user)), verdict),
    ensures
        verdict matches Verdict::Report(Command::WebVerified {
            source,
            token,
            user: found,
            lease,
            attempt,
        }) && source == verification.source && *token == verification.token && *found == user
            && lease == verification.lease && attempt == verification.attempt,
{
}

/// A verification that asks again has waited what it was to wait, and will wait
/// twice as long, a minute at most; a new one waits two seconds first.
pub proof fn a_verification_waits_longer_and_longer(
    verification: Verification,
    credentials: CredentialStore,
    error: ApiError,
    verdict: Verdict,
    source: ApiSource,
    token: StoredToken,
    lease: Lease,
    attempt: u64,
    begun: Verification,
)
    requires
        call_ensures(Verification::answered, (verification, &credentials, Err(error)), verdict),
        call_ensures(Verification::begin, (source, token, lease, attempt), begun),
    ensures
        verdict matches Verdict::Retry { wait_s, next } ==> {
            &&& wait_s == verification.wait_s
            &&& verification.wait_s <= 30 ==> next.wait_s == 2 * verification.wait_s
            &&& verification.wait_s > 30 ==> next.wait_s == 60
            &&& next.source == verification.source && next.token == verification.token
            &&& next.lease == verification.lease && next.attempt == verification.attempt
        },
        begun.wait_s == 2,
        begun.source == source && begun.token == token && begun.lease == lease && begun.attempt
            == attempt,
        next_wait(begun.wait_s) == 4,
{
}

/// A verification goes on exactly as long as its lease is good and its app is
/// being authorized; else it ends under its own attempt.
pub proof fn a_verification_ends_once_nobody_waits(
    verification: Verification,
    credentials: CredentialStore,
    api: ApiGateway,
    overtaken: Option<Command>,
    waited: Option<Command>,
)
    requires
        call_ensures(Verification::overtaken, (&verification, &credentials), overtaken),
        call_ensures(Verification::waited, (&verification, &api), waited),
    ensures
        overtaken is None <==> credentials.holds(verification.lease),
        overtaken matches Some(report) ==> (report matches Command::SignInEnded { source, attempt }
            && source == verification.source && attempt == verification.attempt),
        waited is None <==> (match verification.source {
            ApiSource::Shared => api@.shared is Authorizing,
            ApiSource::Personal => api@.personal is Authorizing,
        }),
        waited matches Some(report) ==> (report matches Command::SignInEnded { source, attempt }
            && source == verification.source && attempt == verification.attempt),
{
}

// ---- browser flows ------------------------------------------------------------------

/// The address of a sign-in is shown for the shared app, and only for it.
pub proof fn the_shared_sign_in_shows_its_address(
    source: ApiSource,
    url: String,
    event: Option<Event>,
)
    requires
        call_ensures(browser_opened, (source, url), event),
    ensures
        match source {
            ApiSource::Shared => event matches Some(event) && event@ == EventModel::Auth(
                AuthModel::WaitingForBrowser { url: url@ },
            ),
            ApiSource::Personal => event is None,
        },
{
}

/// A flow that got a grant hands it on, untouched, under its own lease and
/// attempt, and shows nothing yet.
pub proof fn a_grant_is_handed_on_as_it_came(
    credentials: CredentialStore,
    source: ApiSource,
    lease: Lease,
    attempt: u64,
    token: StoredToken,
    outcome: Outcome,
)
    requires
        call_ensures(
            sign_in_finished,
            (&credentials, source, lease, attempt, Ok::<StoredToken, String>(token)),
            outcome,
        ),
    ensures
        outcome.events@.len() == 0,
        outcome.command matches Some(Command::WebSignedIn {
            source: of,
            token: got,
            lease: under,
            attempt: number,
        }) && of == source && *got == token && under == lease && number == attempt,
{
}

/// A flow that failed always ends. The listener reads why, unless they cancelled
/// it themselves, and where the shared app was asked that they are signed out;
/// nothing is shown of one that has been overtaken.
pub proof fn a_failed_sign_in_says_why(
    credentials: CredentialStore,
    source: ApiSource,
    lease: Lease,
    attempt: u64,
    message: String,
    outcome: Outcome,
)
    requires
        call_ensures(
            sign_in_finished,
            (&credentials, source, lease, attempt, Err::<StoredToken, String>(message)),
            outcome,
        ),
    ensures
        outcome.command matches Some(Command::SignInEnded { source: of, attempt: number }) && of
            == source && number == attempt,
        ({
            let shown = told(outcome.events@);
            let why = EventModel::Error("Sign-in failed: "@ + message@);
            let out = EventModel::Auth(AuthModel::SignedOut);
            let current = credentials.holds(lease);
            &&& shown.contains(why) <==> current && !has_part(message@, "cancelled"@)
            &&& shown.contains(out) <==> current && source == ApiSource::Shared
            &&& forall|i: int|
                0 <= i < shown.len() ==> #[trigger] shown[i] == why || shown[i] == out
            &&& shown.len() <= 2
        }),
{
    let shown = told(outcome.events@);
    let current = credentials.holds(lease);
    let why = EventModel::Error("Sign-in failed: "@ + message@);
    let out = EventModel::Auth(AuthModel::SignedOut);
    if current && source == ApiSource::Shared {
        assert(shown[0] == out);
        if !has_part(message@, "cancelled"@) {
            assert(shown[1] == why);
        }
    } else if current && !has_part(message@, "cancelled"@) {
        assert(shown[0] == why);
    }
}

/// The playback flow hands its token on, or ends: as unavailable where the
/// listener cancelled it, else with the reason; an overtaken one shows nothing.
pub proof fn the_playback_flow_hands_its_token_on_or_ends(
    credentials: CredentialStore,
    lease: Lease,
    attempt: u64,
    token: String,
    message: String,
    granted: Outcome,
    failed: Outcome,
)
    requires
        call_ensures(
            playback_authorization_finished,
            (&credentials, lease, attempt, Ok::<String, String>(token)),
            granted,
        ),
        call_ensures(
            playback_authorization_finished,
            (&credentials, lease, attempt, Err::<String, String>(message)),
            failed,
        ),
    ensures
        granted.events@.len() == 0,
        granted.command matches Some(Command::PlaybackAuthorized {
            access_token,
            lease: under,
            attempt: number,
        }) && access_token == token && under == lease && number == attempt,
        failed.command matches Some(Command::PlaybackAuthEnded { attempt: number }) && number
            == attempt,
        !credentials.holds(lease) ==> failed.events@.len() == 0,
        credentials.holds(lease) ==> failed.events@.len() == 1 && failed.events@[0]@
            == EventModel::Playback(
            if has_part(message@, "cancelled"@) {
                PlaybackModel::Unavailable
            } else {
                PlaybackModel::Failed(message@)
            },
        ),
{
    assert(told(failed.events@).len() == failed.events@.len());
    assert(credentials.holds(lease) ==> told(failed.events@)[0] == failed.events@[0]@);
}

/// A storage failure is told in its own words while its slot stands, and never
/// one that only says that the slot has moved on.
pub proof fn a_storage_failure_is_told_while_it_matters(
    credentials: CredentialStore,
    lease: Lease,
    text: String,
    failed: Option<Event>,
    stale: Option<Event>,
)
    requires
        call_ensures(storage_notice, (&credentials, &lease, StorageError::Failed(text)), failed),
        call_ensures(storage_notice, (&credentials, &lease, StorageError::Stale), stale),
    ensures
        stale is None,
        failed is Some <==> credentials.holds(lease),
        failed matches Some(event) ==> event@ == EventModel::Error(text@),
{
}

// ---- the engine ---------------------------------------------------------------------

/// An engine that connected is handed on with no error; an attempt that failed
/// has no engine and says why, in whatever words there are.
pub proof fn a_connection_reports_its_engine_or_why_not(
    lease: Lease,
    engine: ConnectedEngine,
    message: String,
    text: String,
    connected: Command,
    uncached: Command,
    timed_out: Command,
    refused: Command,
)
    requires
        call_ensures(connection_finished, (lease, Connection::Connected(engine)), connected),
        call_ensures(connection_finished, (lease, Connection::NoCache(message)), uncached),
        call_ensures(connection_finished, (lease, Connection::TimedOut), timed_out),
        call_ensures(connection_refused, (lease, text), refused),
    ensures
        connected == (Command::EngineConnected { engine: Some(engine), error: None, lease }),
        uncached matches Command::EngineConnected { engine: None, error: Some(why), lease: under }
            && why@ == message@ && under == lease,
        timed_out matches Command::EngineConnected { engine: None, error: Some(why), lease: under }
            && why@ == "Connecting to Spotify timed out"@ && under == lease,
        refused matches Command::EngineConnected { engine: None, error: Some(why), lease: under }
            && why@ == friendly_text(text@, lowercase(text@)) && under == lease,
{
}

/// An engine is heard while its slot stands: its state is shown, and the end of
/// its session leads to a reconnect. Once the slot has moved on, it is not heard
/// at all.
pub proof fn an_engine_is_heard_while_its_slot_stands(
    credentials: CredentialStore,
    lease: Lease,
    state: LocalState,
    playing: Outcome,
    ended: Outcome,
)
    requires
        call_ensures(engine_notify, (&credentials, &lease, EngineEvent::State(state)), playing),
        call_ensures(engine_notify, (&credentials, &lease, EngineEvent::SessionEnded), ended),
    ensures
        playing.command is None,
        ended.events@.len() == 0,
        if credentials.holds(lease) {
            &&& playing.events@.len() == 1
            &&& playing.events@[0] matches Event::Local(shown) && *shown == state
            &&& ended.command == Some(Command::Reconnect)
        } else {
            playing.events@.len() == 0 && ended.command is None
        },
{
}

/// What the engine would not do is told as a playback error.
pub proof fn a_refused_order_is_told(message: &str, event: Event)
    requires
        call_ensures(order_refused, (message,), event),
    ensures
        event@ == EventModel::Error("Playback error: "@ + message@),
{
}

/// The plain words for a failed connection: a rejected sign-in and a missing
/// plan are told as such, an unreachable service with its cause, and anything
/// else as it came. A rejected sign-in is told before anything else, and a
/// missing plan before an unreachable service.
pub proof fn a_failed_connection_is_told_plainly(text: Seq<char>, lower: Seq<char>)
    ensures
        ({
            let shown = friendly_text(text, lower);
            let rejected = has_part(lower, "badcredentials"@) || has_part(
                lower,
                "bad credentials"@,
            );
            let unpaid = has_part(lower, "premium"@);
            let unreachable = has_part(lower, "dns"@) || has_part(lower, "connect"@) || has_part(
                lower,
                "resolve"@,
            );
            &&& rejected ==> shown
                == "Spotify rejected the saved sign-in. Please sign in again."@
            &&& !rejected && unpaid ==> shown == "Local playback needs Spotify Premium."@
            &&& !rejected && !unpaid && unreachable ==> shown == "Couldn't reach Spotify: "@ + text
            &&& !rejected && !unpaid && !unreachable ==> shown == text
        }),
{
}

/// A failed connection is told in plain words however its error comes: as an
/// error that is printed in full, as its text, or as its text beside the same
/// text in lower case.
pub proof fn an_error_is_put_in_plain_words(
    error: &anyhow::Error,
    text: String,
    lower: &str,
    by_error: String,
    by_text: String,
    by_words: String,
    lease: Lease,
    refused: Command,
)
    requires
        call_ensures(friendly_connect_error, (error,), by_error),
        call_ensures(friendly_connect_text, (text,), by_text),
        call_ensures(friendly_connect_words, (text, lower), by_words),
        call_ensures(connection_finished, (lease, Connection::Refused(*error)), refused),
    ensures
        by_words@ == friendly_text(text@, lower@),
        by_text@ == friendly_text(text@, lowercase(text@)),
        exists|printed: String| #[trigger]
            prints(error, printed) && by_error@ == friendly_text(printed@, lowercase(printed@)),
        exists|printed: String| #[trigger]
            prints(error, printed) && (refused matches Command::EngineConnected {
                engine: None,
                error: Some(why),
                lease: under,
            } && under == lease && why@ == friendly_text(printed@, lowercase(printed@))),
{
    let shown = refused->EngineConnected_error.deep_view();
    let printed = choose|printed: String| #[trigger]
        prints(error, printed) && shown == Some(friendly_text(printed@, lowercase(printed@)));
    assert(prints(error, printed));
}

/// A text has a part exactly where it is that part with something, or nothing,
/// before and after it.
pub proof fn a_part_stands_between_a_beginning_and_an_end(text: Seq<char>, part: Seq<char>)
    ensures
        has_part(text, part) <==> exists|before: Seq<char>, after: Seq<char>|
            text == #[trigger] (before + part + after),
{
    if has_part(text, part) {
        let at = choose|at: int|
            0 <= at <= text.len() - part.len() && #[trigger] text.subrange(at, at + part.len())
                == part;
        let before = text.take(at);
        let after = text.skip(at + part.len());
        assert forall|i: int| 0 <= i < part.len() implies text[at + i] == part[i] by {
            assert(text.subrange(at, at + part.len())[i] == part[i]);
        }
        assert(text =~= before + part + after);
    }
    if exists|before: Seq<char>, after: Seq<char>| text == #[trigger] (before + part + after) {
        let (before, after) = choose|before: Seq<char>, after: Seq<char>|
            text == #[trigger] (before + part + after);
        let at = before.len() as int;
        assert(text.subrange(at, at + part.len()) =~= part);
    }
}

// ---- receivers ----------------------------------------------------------------------

/// Why a receiver was not activated is said in words: the sign-in changed, or
/// there is nothing to hand over; what the receiver itself said is repeated.
pub proof fn a_receiver_that_was_not_activated_says_why<T>(
    current: bool,
    lease: Lease,
    name: String,
    grant: Option<T>,
    begun: ReceiverStep<T>,
    activation: Activation<T>,
    still_current: bool,
    asked: Result<(), String>,
    answered: ReceiverStep<T>,
    handed: Result<(), String>,
    ended: Event,
)
    requires
        begins(current, lease, name, grant, begun),
        goes_on(activation, still_current, asked, answered),
        call_ensures(receiver_handed::<T>, (activation, handed), ended),
    ensures
        begun matches ReceiverStep::Over(event) ==> (event matches Event::ReceiverActivated {
            name: of,
            result: Err(why),
        } && of == name && why@ == (if current {
            "Enable playback on this computer first, so there is an account to hand over"@
        } else {
            "Sign-in changed before receiver activation."@
        })),
        answered matches ReceiverStep::Over(event) ==> (event matches Event::ReceiverActivated {
            name: of,
            result: Err(why),
        } && of == activation.name && match asked {
            Err(message) => why == message,
            Ok(_) => why@ == "Sign-in changed before receiver activation."@,
        }),
        begun matches ReceiverStep::Ask(next) ==> next.name == name && next.lease == lease && grant
            == Some(next.grant),
        answered matches ReceiverStep::HandOver(next) ==> next == activation,
        ended == (Event::ReceiverActivated { name: activation.name, result: handed }),
{
}

// ---- lookups ------------------------------------------------------------------------

/// What was found is told as it was found, for what it was asked for.
pub proof fn a_find_is_told_as_it_was_found(
    manual: bool,
    release: Result<Option<Release>, String>,
    tree: Result<Rootlist, String>,
    uri: String,
    words: Result<Option<Lyrics>, String>,
    update: Event,
    rootlist: Event,
    lyrics: Event,
)
    requires
        call_ensures(update_told, (manual, release), update),
        call_ensures(rootlist_told, (tree,), rootlist),
        call_ensures(lyrics_told, (uri, words), lyrics),
    ensures
        update matches Event::UpdateChecked { manual: asked, result } && asked == manual && result
            == release,
        rootlist matches Event::Rootlist { result } && result == tree,
        lyrics matches Event::Lyrics { uri: of, result } && of == uri && result == words,
{
}

/// A lookup's find is told as it was found, and a failure by printing the very
/// error that came.
pub proof fn a_failed_lookup_prints_its_error(
    manual: bool,
    release: Result<Option<Release>, anyhow::Error>,
    tree: Result<Rootlist, anyhow::Error>,
    uri: String,
    words: Result<Option<Lyrics>, anyhow::Error>,
    update: Event,
    rootlist: Event,
    lyrics: Event,
)
    requires
        call_ensures(update_checked, (manual, release), update),
        call_ensures(rootlist_read, (tree,), rootlist),
        call_ensures(lyrics_fallen_back, (uri, words), lyrics),
    ensures
        update matches Event::UpdateChecked { manual: asked, result } && asked == manual && (
        match (release, result) {
            (Ok(found), Ok(shown)) => shown == found,
            (Err(error), Err(text)) => prints(&error, text),
            _ => false,
        }),
        rootlist matches Event::Rootlist { result } && (match (tree, result) {
            (Ok(found), Ok(shown)) => shown == found,
            (Err(error), Err(text)) => prints(&error, text),
            _ => false,
        }),
        lyrics matches Event::Lyrics { uri: of, result } && of == uri && (match (words, result) {
            (Ok(found), Ok(shown)) => shown == found,
            (Err(error), Err(text)) => prints(&error, text),
            _ => false,
        }),
{
}

/// A lookup of names begins with every user, and asks for the first one that has
/// not been told.
pub proof fn a_lookup_of_names_begins_with_everybody(
    ids: Vec<String>,
    begun: NameLookup,
    next: Option<String>,
)
    requires
        call_ensures(NameLookup::begin, (ids,), begun),
        call_ensures(NameLookup::next, (&begun,), next),
    ensures
        begun.valid(),
        begun.rest() == ids@,
        ids@.len() == 0 ==> next is None,
        ids@.len() > 0 ==> next == Some(ids@[0]),
{
}

/// Spotify's own words go before LRCLIB's. They exist for tracks only; what was
/// kept of an earlier answer settles it, "none" included; without that the
/// engine is asked where there is one. An answer is kept in the track's own
/// file, a failure never, and LRCLIB is asked exactly where Spotify has no words.
pub proof fn spotifys_words_go_first(
    uri: &str,
    begun: LyricsStep,
    file: String,
    cached: Option<Option<Lyrics>>,
    engine: bool,
    read: LyricsStep,
    found: Option<Lyrics>,
    error: anyhow::Error,
    answered: LyricsStep,
    failed: LyricsStep,
    kept: LyricsStep,
)
    requires
        call_ensures(lyrics_begin, (uri,), begun),
        call_ensures(lyrics_cached, (file, cached, engine), read),
        call_ensures(lyrics_asked, (file, Ok::<Option<Lyrics>, anyhow::Error>(found)), answered),
        call_ensures(lyrics_asked, (file, Err::<Option<Lyrics>, anyhow::Error>(error)), failed),
        call_ensures(lyrics_kept, (found,), kept),
    ensures
        begun is FallBack <==> !"spotify:track:"@.is_prefix_of(uri@),
        forall|id: Seq<char>|
            uri@ == #[trigger] ("spotify:track:"@ + id) ==> (begun matches LyricsStep::ReadCache {
                file_name,
            } && file_name@ == "spotify-"@ + id + ".json"@),
        read is FallBack <==> cached == Some(None::<Lyrics>) || (cached is None && !engine),
        read is AskEngine <==> cached is None && engine,
        read matches LyricsStep::AskEngine { file_name } ==> file_name == file,
        read matches LyricsStep::Found(lyrics) ==> cached == Some(Some(lyrics)),
        read is Found || read is FallBack || read is AskEngine,
        answered matches LyricsStep::Keep { file_name, found: keeps } && file_name == file && keeps
            == found,
        failed is FallBack,
        match found {
            Some(lyrics) => kept == LyricsStep::Found(lyrics),
            None => kept is FallBack,
        },
{
    assert forall|id: Seq<char>| uri@ == #[trigger] ("spotify:track:"@ + id) implies (
    begun matches LyricsStep::ReadCache { file_name } && file_name@ == "spotify-"@ + id
        + ".json"@) by {
        assert("spotify:track:"@.is_prefix_of(uri@));
        assert(uri@.skip("spotify:track:"@.len() as int) =~= id);
    }
}

// ---- Spotify's own playlists ----------------------------------------------------------

/// Spotify's own playlists are picked out one by one, in the order in which they
/// were found and as often: a playlist is Spotify's own where its owner is
/// "spotify", or is called "Spotify", or has no name to be called by.
pub proof fn spotifys_own_playlists_are_picked_one_by_one(
    first: Seq<Playlist>,
    rest: Seq<Playlist>,
    playlist: Playlist,
)
    ensures
        editorial(first + rest) == editorial(first) + editorial(rest),
        spotify_owned(playlist) ==> editorial(seq![playlist]) == seq![playlist],
        !spotify_owned(playlist) ==> editorial(seq![playlist]) == Seq::<Playlist>::empty(),
        editorial(seq![]) == Seq::<Playlist>::empty(),
        spotify_owned(playlist) <==> (playlist.owner.id matches Some(id) && id@ == "spotify"@) || (
        match playlist.owner.display_name {
            Some(name) => name@ == "Spotify"@,
            None => true,
        }),
    decreases rest.len(),
{
    reveal(Seq::filter);
    assert(seq![playlist].drop_last() =~= seq![]);
    assert(editorial(seq![playlist].drop_last()) == Seq::<Playlist>::empty());
    assert(seq![playlist].last() == playlist);
    if rest.len() == 0 {
        assert(first + rest =~= first);
    } else {
        spotifys_own_playlists_are_picked_one_by_one(first, rest.drop_last(), playlist);
        assert((first + rest).drop_last() =~= first + rest.drop_last());
        assert((first + rest).last() == rest.last());
    }
}

/// An editorial lookup tells the interface of Spotify's own playlists among those
/// found, under its own words and number, and of nothing where it found none,
/// failed or took too long.
pub proof fn an_editorial_lookup_tells_of_what_it_found(
    query: String,
    serial: u64,
    results: SearchResults,
    error: ApiError,
    found: Option<Event>,
    failed: Option<Event>,
    timed_out: Option<Event>,
)
    requires
        call_ensures(
            editorial_finished,
            (query, serial, EditorialSearch::Found(results)),
            found,
        ),
        call_ensures(editorial_finished, (query, serial, EditorialSearch::Failed(error)), failed),
        call_ensures(editorial_finished, (query, serial, EditorialSearch::TimedOut), timed_out),
    ensures
        failed is None,
        timed_out is None,
        results.playlists is None ==> found is None,
        results.playlists matches Some(page) ==> {
            &&& found is Some <==> editorial(page.items@).len() > 0
            &&& found matches Some(event) ==> (event matches Event::EditorialPlaylists {
                query: asked,
                serial: under,
                playlists,
            } && asked == query && under == serial && playlists@ == editorial(page.items@))
        },
{
    reveal(Seq::filter);
}

// ---- caches ---------------------------------------------------------------------------

/// What is kept of a playlist is read back as it was kept: a file written for a
/// prefix comes back as that prefix, to be read on from the same row, and one
/// written for a whole playlist as a whole one.
pub proof fn what_is_kept_of_a_playlist_is_read_back(
    account_id: String,
    id: String,
    generation: u64,
    snapshot: String,
    items: Vec<PlaylistItem>,
    total: u32,
    next_offset: Option<u32>,
    kept: CachedPlaylist,
    restored: Option<PlaylistCache>,
    read: Event,
)
    requires
        items@.len() <= total,
        next_offset matches Some(offset) ==> offset <= total,
        call_ensures(checkpoint, (snapshot, items, total, next_offset), kept),
        call_ensures(CachedPlaylist::restored, (kept,), restored),
        call_ensures(playlist_cache_read, (account_id, id, generation, Some(kept)), read),
    ensures
        restored == Some(PlaylistCache { snapshot, items, total, next_offset }),
        read == (Event::PlaylistCache {
            account_id,
            id,
            generation,
            cache: Some(PlaylistCache { snapshot, items, total, next_offset }),
        }),
{
}

/// A file whose numbers do not fit together is not used: more rows than the
/// total, or a place to read on from beyond it. One that wrote no total down
/// counts its rows.
pub proof fn a_file_that_does_not_add_up_is_not_used(
    account_id: String,
    id: String,
    generation: u64,
    kept: CachedPlaylist,
    missing: Event,
    read: Event,
)
    requires
        call_ensures(
            playlist_cache_read,
            (account_id, id, generation, None::<CachedPlaylist>),
            missing,
        ),
        call_ensures(playlist_cache_read, (account_id, id, generation, Some(kept)), read),
    ensures
        missing == (Event::PlaylistCache { account_id, id, generation, cache: None }),
        ({
            let rows = kept.items@.len();
            let total = match kept.total {
                Some(total) => total as int,
                None => if rows <= u32::MAX {
                    rows as int
                } else {
                    u32::MAX as int
                },
            };
            let adds_up = rows <= total && (kept.next_offset matches Some(offset) ==> offset
                <= total);
            &&& read matches Event::PlaylistCache {
                account_id: whose,
                id: of,
                generation: under,
                cache,
            }
            &&& whose == account_id && of == id && under == generation
            &&& cache is Some <==> adds_up
            &&& cache matches Some(cache) ==> cache.snapshot == kept.snapshot && cache.items
                == kept.items && cache.total == total && cache.next_offset == kept.next_offset
        }),
{
}

}
