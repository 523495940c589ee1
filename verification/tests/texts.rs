//! Texts: what is found in them, and how errors are put to the listener.

use fastpotify::text::{
    after_prefix, begins_with, contains_part, friendly_connect_error, friendly_connect_text,
    friendly_connect_words, joined, same_text,
};

#[test]
fn known_causes_get_a_plain_sentence() {
    let rejected = "Spotify rejected the saved sign-in. Please sign in again.";
    assert_eq!(friendly_connect_text("Login failed: BadCredentials".to_string()), rejected);
    assert_eq!(friendly_connect_text("BAD CREDENTIALS".to_string()), rejected);
    assert_eq!(
        friendly_connect_text("PREMIUM account required".to_string()),
        "Local playback needs Spotify Premium."
    );
}

#[test]
fn an_unreachable_service_keeps_its_cause() {
    for cause in ["DNS lookup", "Connection reset", "could not Resolve host"] {
        assert_eq!(
            friendly_connect_text(cause.to_string()),
            format!("Couldn't reach Spotify: {cause}")
        );
    }
    assert_eq!(friendly_connect_text("Audio device busy".to_string()), "Audio device busy");
    assert_eq!(friendly_connect_text(String::new()), "");
}

#[test]
fn causes_are_looked_for_in_lower_case_and_shown_as_they_came() {
    assert_eq!(
        friendly_connect_words("DNS down".to_string(), "dns down"),
        "Couldn't reach Spotify: DNS down"
    );
    assert_eq!(friendly_connect_words("DNS down".to_string(), "DNS down"), "DNS down");
    assert_eq!(
        friendly_connect_words("x".to_string(), "bad credentials, premium, dns"),
        "Spotify rejected the saved sign-in. Please sign in again."
    );
}

#[test]
fn every_cause_of_an_error_counts() {
    let error = anyhow::Error::msg("premium required").context("starting the engine");
    assert_eq!(friendly_connect_error(&error), "Local playback needs Spotify Premium.");
    let error = anyhow::Error::msg("no route").context("Connect failed");
    assert_eq!(
        friendly_connect_error(&error),
        "Couldn't reach Spotify: Connect failed: no route"
    );
}

#[test]
fn parts_and_prefixes_are_found() {
    assert!(contains_part("sign-in cancelled", "cancelled"));
    assert!(contains_part("abc", ""));
    assert!(!contains_part("ab", "abc"));
    assert!(!contains_part("aab", "ba"));
    assert!(begins_with("spotify:track:1", "spotify:"));
    assert!(!begins_with("spot", "spotify:"));
    assert_eq!(after_prefix("spotify:track:é1", "spotify:track:"), Some("é1".to_string()));
    assert_eq!(after_prefix("spotify:album:1", "spotify:track:"), None);
    assert_eq!(joined("a", "b"), "ab");
    assert!(same_text(&None, &None));
    assert!(!same_text(&None, &Some(String::new())));
    assert!(same_text(&Some("a".to_string()), &Some("a".to_string())));
}
