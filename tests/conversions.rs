use spotify_bridge::{
    availability_flag, boundary_text, contains_nul, cover_art_read_len, is_spotify,
    millis_or_zero, playing_flag, ticks_to_millis, PlaybackStatus,
};

#[test]
fn identity_predicate_cases() {
    assert!(is_spotify("Spotify.exe"));
    assert!(is_spotify("SpotifyAB.SpotifyMusic_abc123!Spotify"));
    assert!(!is_spotify("OtherApp.exe"));
}

#[test]
fn identity_predicate_is_exact() {
    assert!(!is_spotify("spotify.exe"));
    assert!(!is_spotify("Spotify.exe "));
    assert!(!is_spotify(""));
    assert!(!is_spotify("SpotifyAB.SpotifyMusic"));
    assert!(!is_spotify("Music!Spotify"));
    assert!(!is_spotify("SpotifyA!Spotify"));
    assert!(is_spotify("SpotifyAB!Spotify"));
}

#[test]
fn ticks_truncate_to_millis() {
    assert_eq!(ticks_to_millis(25_000_000), 2500);
    assert_eq!(ticks_to_millis(25_009_999), 2500);
    assert_eq!(ticks_to_millis(9_999), 0);
    assert_eq!(ticks_to_millis(0), 0);
    assert_eq!(ticks_to_millis(-25_009_999), -2500);
    assert_eq!(ticks_to_millis(-10_000), -1);
    assert_eq!(ticks_to_millis(i64::MIN), i64::MIN / 10_000);
    assert_eq!(ticks_to_millis(i64::MAX), i64::MAX / 10_000);
}

#[test]
fn absent_session_gives_sentinels() {
    assert_eq!(millis_or_zero(None), 0);
    assert_eq!(boundary_text(None), "");
    assert_eq!(playing_flag(None), 0);
    assert_eq!(availability_flag::<u32, ()>(&Ok(None)), 0);
    assert_eq!(availability_flag::<u32, ()>(&Err(())), 0);
    assert_eq!(cover_art_read_len(0), None);
}

#[test]
fn present_session_gives_values() {
    assert_eq!(millis_or_zero(Some(1_234_567_890)), 123_456);
    assert_eq!(availability_flag::<u32, ()>(&Ok(Some(3))), 1);
    assert_eq!(boundary_text(Some("Song".to_string())), "Song");
}

#[test]
fn only_playing_counts_as_playing() {
    assert_eq!(playing_flag(Some(PlaybackStatus::Playing)), 1);
    assert_eq!(playing_flag(Some(PlaybackStatus::Paused)), 0);
    assert_eq!(playing_flag(Some(PlaybackStatus::Stopped)), 0);
    assert_eq!(playing_flag(Some(PlaybackStatus::Changing)), 0);
    assert_eq!(playing_flag(Some(PlaybackStatus::Opened)), 0);
    assert_eq!(playing_flag(Some(PlaybackStatus::Closed)), 0);
}

#[test]
fn text_with_nul_becomes_empty() {
    assert!(contains_nul("a\0b"));
    assert!(!contains_nul("ab"));
    assert_eq!(boundary_text(Some("a\0b".to_string())), "");
    assert_eq!(boundary_text(Some("Ünïcode ♫".to_string())), "Ünïcode ♫");
}

#[test]
fn cover_art_sizes() {
    assert_eq!(cover_art_read_len(1), Some(1));
    assert_eq!(cover_art_read_len(48_213), Some(48_213));
    assert_eq!(cover_art_read_len(u32::MAX as u64), Some(u32::MAX));
    assert_eq!(cover_art_read_len(u32::MAX as u64 + 1), None);
}
