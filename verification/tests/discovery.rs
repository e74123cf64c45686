use wavplayer::PlayerError;
use wavplayer::discovery::{filter_wav_paths, has_wav_extension};
use wavplayer::player::{PlaybackConfig, Player};

#[test]
fn wav_extension_rule_is_case_sensitive_and_exact() {
    assert!(has_wav_extension("a.wav"));
    assert!(has_wav_extension("nested/dir/track.wav"));
    assert!(has_wav_extension("two..wav"));
    assert!(has_wav_extension(".wav.wav"));
    assert!(has_wav_extension("m\u{00fc}sic.wav"));
    // A name that is exactly `.wav` is a hidden file with no extension.
    assert!(!has_wav_extension(".wav"));
    assert!(!has_wav_extension("dir/.wav"));
    assert!(!has_wav_extension("a.WAV"));
    assert!(!has_wav_extension("wav"));
    assert!(!has_wav_extension("a.wave"));
    assert!(!has_wav_extension("a.wav.txt"));
    assert!(!has_wav_extension(""));
}

#[test]
fn bare_hidden_wav_file_does_not_start_playback() {
    let discovered = vec![".wav".to_string(), "x/.wav".to_string()];
    let playlist = filter_wav_paths(&discovered);
    assert!(playlist.is_empty());
    let cfg = PlaybackConfig { channels: 2, sample_rate: 44100 };
    match Player::new(playlist, cfg) {
        Err(PlayerError::DiscoveryEmpty) => {}
        _ => panic!("a playlist of extensionless hidden files must be rejected"),
    }
}

#[test]
fn filter_keeps_wav_paths_in_discovered_order() {
    let discovered = vec![
        "b.txt".to_string(),
        "one.wav".to_string(),
        "cover.png".to_string(),
        "two.wav".to_string(),
        "notes".to_string(),
    ];
    let playlist = filter_wav_paths(&discovered);
    assert_eq!(playlist, vec!["one.wav".to_string(), "two.wav".to_string()]);
}

#[test]
fn empty_filter_result_halts_startup() {
    let discovered = vec!["a.mp3".to_string(), "b.flac".to_string()];
    let playlist = filter_wav_paths(&discovered);
    assert!(playlist.is_empty());
    let cfg = PlaybackConfig { channels: 2, sample_rate: 44100 };
    match Player::new(playlist, cfg) {
        Err(PlayerError::DiscoveryEmpty) => {}
        _ => panic!("an empty playlist must be rejected"),
    }
}
