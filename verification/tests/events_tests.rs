use tune::dispatch::Effects;
use tune::i18n::Language;
use tune::input::{KeyCode, KeyKind, KeyPress};
use tune::playback::{
    advance_sequential, begin_playback, choose_lyrics, handle_auto_next, on_audio_arrived, on_decode_failed,
    on_playing, on_seek_prepared, on_seek_unavailable, on_stream_failed, on_volume_changed, restore_last_played,
    start_playback, track_of, Arrival, AutoNext, StartPlan,
};
use tune::player::{PlayMode, PlayerState, Playback, SinkAction, TrackInfo};
use tune::lyrics::{parse_lyrics_text, Lyrics};
use tune::server::{create_server_pool, MusicEntry, ServerConfig};
use tune::store::LastPlayed;
use tune::ui::{App, AppEvent, PlayingSource, ViewMode};

fn song(name: &str) -> MusicEntry {
    MusicEntry {
        absolute_path: format!("/music/{}.mp3", name),
        name: name.to_string(),
        artist: "x".to_string(),
        album: String::new(),
        duration: 1000,
        server_id: "s".to_string(),
    }
}

fn app_with(names: &[&str]) -> App {
    let mut a = App::new(Playback::new(), create_server_pool(&Vec::new()), Vec::new(), Language::En);
    a.set_music_list(names.iter().map(|n| song(n)).collect());
    a
}

fn press(c: KeyCode) -> KeyPress {
    KeyPress { code: c, kind: KeyKind::Press }
}

fn played(fx: &Effects) -> Option<String> {
    fx.play.as_ref().map(|m| m.name.clone())
}

#[test]
fn quitting_needs_confirmation() {
    let mut a = app_with(&["a"]);
    assert_eq!(a.handle_key_event(press(KeyCode::Char('q'))), None);
    assert!(a.confirm_quit);
    assert_eq!(a.handle_key_event(press(KeyCode::Char('n'))), None);
    assert!(!a.confirm_quit);
    a.handle_key_event(press(KeyCode::Esc));
    assert_eq!(a.handle_key_event(press(KeyCode::Char('y'))), Some(AppEvent::Quit));
}

#[test]
fn released_keys_are_ignored() {
    let mut a = app_with(&["a"]);
    let r = a.handle_key_event(KeyPress { code: KeyCode::Char('q'), kind: KeyKind::Release });
    assert_eq!(r, None);
    assert!(!a.confirm_quit);
}

#[test]
fn normal_keys_raise_events() {
    let mut a = app_with(&["a"]);
    assert_eq!(a.handle_key_event(press(KeyCode::Enter)), Some(AppEvent::PlaySelected));
    assert_eq!(a.handle_key_event(press(KeyCode::Char(' '))), Some(AppEvent::TogglePlayback));
    assert_eq!(a.handle_key_event(press(KeyCode::Right)), Some(AppEvent::SeekForward));
    assert_eq!(a.handle_key_event(press(KeyCode::Char('/'))), Some(AppEvent::EnterSearch));
    assert_eq!(a.handle_key_event(press(KeyCode::Char('d'))), None);
    assert_eq!(a.handle_key_event(press(KeyCode::Char('x'))), Some(AppEvent::PlayNext));
    assert_eq!(a.handle_key_event(press(KeyCode::Char('u'))), Some(AppEvent::Nothing));
    assert_eq!(a.status_message, "Queue is empty — press x to play next or w to add to queue");
    assert_eq!(a.handle_key_event(press(KeyCode::Char('l'))), Some(AppEvent::Nothing));
    assert_eq!(a.view_mode, ViewMode::PlaylistList);
    assert_eq!(a.handle_key_event(press(KeyCode::Char('c'))), Some(AppEvent::CreatePlaylist));
    assert_eq!(a.handle_key_event(press(KeyCode::Esc)), Some(AppEvent::Nothing));
    assert_eq!(a.view_mode, ViewMode::Browse);
}

#[test]
fn search_mode_turns_keys_into_search_events() {
    let mut a = app_with(&["abc", "xyz"]);
    a.handle_app_action(AppEvent::EnterSearch);
    assert!(a.search_mode);
    assert_eq!(a.handle_key_event(press(KeyCode::Char('y'))), Some(AppEvent::PushSearchChar('y')));
    a.handle_app_action(AppEvent::PushSearchChar('y'));
    assert_eq!(a.filtered_music.len(), 1);
    a.handle_app_action(AppEvent::DeleteSearchChar);
    assert_eq!(a.filtered_music.len(), 2);
    a.handle_app_action(AppEvent::PushSearchChar('A'));
    a.handle_app_action(AppEvent::ConfirmSearch);
    assert!(!a.search_mode);
    assert_eq!(a.status_message, "Search finished: 1 results");
    a.handle_app_action(AppEvent::CancelSearch);
    assert_eq!(a.search_query, "");
    assert_eq!(a.filtered_music.len(), 2);
}

#[test]
fn naming_a_playlist_by_keys() {
    let mut a = app_with(&["a"]);
    a.handle_app_action(AppEvent::CreatePlaylist);
    assert!(a.creating_playlist);
    for c in "Mix".chars() {
        assert_eq!(a.handle_key_event(press(KeyCode::Char(c))), Some(AppEvent::Nothing));
    }
    a.handle_key_event(press(KeyCode::Backspace));
    assert_eq!(a.new_playlist_name, "Mi");
    assert_eq!(a.handle_key_event(press(KeyCode::Enter)), Some(AppEvent::ConfirmCreatePlaylist));
    let fx = a.handle_app_action(AppEvent::ConfirmCreatePlaylist);
    assert!(fx.save_playlists);
    assert_eq!(a.playlists[0].name, "Mi");
    assert_eq!(a.status_message, "Created playlist: Mi");
    assert!(!a.creating_playlist);
}

#[test]
fn adding_a_song_creates_a_first_playlist() {
    let mut a = app_with(&["a", "b"]);
    let fx = a.handle_app_action(AppEvent::AddToPlaylist);
    assert!(fx.save_playlists);
    assert_eq!(a.playlists.len(), 1);
    assert_eq!(a.playlists[0].name, "Playlist 1");
    assert_eq!(a.playlists[0].songs[0].name, "a");
    assert_eq!(a.status_message, "Added to playlist \"Playlist 1\"");
}

#[test]
fn server_editing_by_keys() {
    let mut a = app_with(&[]);
    a.handle_app_action(AppEvent::ConfigureServer);
    assert!(a.config_mode);
    a.handle_key_event(press(KeyCode::Char('a')));
    assert_eq!(a.config_phase, 1);
    assert_eq!(a.config_inputs, vec!["", "file-transfer", "", "", ""]);
    for c in "home".chars() {
        a.handle_key_event(press(KeyCode::Char(c)));
    }
    a.handle_key_event(press(KeyCode::Tab));
    a.handle_key_event(press(KeyCode::Right));
    assert_eq!(a.config_inputs[1], "navidrome");
    a.handle_key_event(press(KeyCode::Left));
    a.handle_key_event(press(KeyCode::Left));
    assert_eq!(a.config_inputs[1], "local");
    a.handle_key_event(press(KeyCode::Tab));
    for c in " /srv/music ".chars() {
        a.handle_key_event(press(KeyCode::Char(c)));
    }
    a.handle_key_event(press(KeyCode::Enter));
    assert_eq!(a.config_phase, 0);
    assert_eq!(a.config_servers[0].name, "home");
    assert_eq!(a.config_servers[0].server_type, "local");
    assert_eq!(a.config_servers[0].server_url, "/srv/music");
    a.handle_key_event(press(KeyCode::Char(' ')));
    assert!(a.config_servers[0].disabled);
    assert_eq!(a.handle_key_event(press(KeyCode::Esc)), Some(AppEvent::ConfirmConfig));
    let fx = a.handle_app_action(AppEvent::ConfirmConfig);
    assert!(fx.save_servers && fx.refresh);
    assert_eq!(a.server_configs.len(), 1);
    assert!(a.config_servers.is_empty());
    assert_eq!(a.status_message, "Saved 1 server(s)");
}

#[test]
fn refresh_without_a_server_asks_for_one() {
    let mut a = app_with(&[]);
    let fx = a.handle_app_action(AppEvent::Refresh);
    assert!(!fx.refresh);
    assert_eq!(a.status_message, "Press R to configure server URL");
    a.server_configs = vec![ServerConfig { server_url: "http://h".to_string(), ..ServerConfig::default() }];
    let fx = a.handle_app_action(AppEvent::Refresh);
    assert!(fx.refresh && fx.background);
}

#[test]
fn toggling_playback_drives_the_output() {
    let mut a = app_with(&["a"]);
    a.player.state = PlayerState::Playing;
    let fx = a.handle_app_action(AppEvent::TogglePlayback);
    assert_eq!(fx.output, SinkAction::Pause);
    assert_eq!(a.status_message, "Paused");
    let fx = a.handle_app_action(AppEvent::TogglePlayback);
    assert_eq!(fx.output, SinkAction::Play);
    assert_eq!(a.player.state, PlayerState::Playing);
    let fx = a.handle_app_action(AppEvent::Stop);
    assert!(fx.stop_output);
    assert_eq!(a.player.state, PlayerState::Stopped);
    assert_eq!(a.playing_source, None);
}

#[test]
fn play_mode_cycle_reports_the_mode() {
    let mut a = app_with(&["a"]);
    a.handle_app_action(AppEvent::CyclePlayMode);
    assert_eq!(a.player.play_mode, PlayMode::SingleRepeat);
    assert_eq!(a.status_message, "Mode: Single Repeat");
}

#[test]
fn sequential_play_walks_the_list_and_stops() {
    let mut a = app_with(&["a", "b"]);
    let m = start_playback(&mut a).unwrap();
    assert_eq!(m.name, "a");
    assert_eq!(a.playing_source, Some(PlayingSource::Browse(0)));
    match handle_auto_next(&mut a) {
        AutoNext::Play(m) => assert_eq!(m.name, "b"),
        _ => panic!("expected the next song"),
    }
    assert_eq!(a.playing_source, Some(PlayingSource::Browse(1)));
    assert!(advance_sequential(&mut a).is_none());
    assert!(matches!(handle_auto_next(&mut a), AutoNext::Stopped));
    assert_eq!(a.status_message, "End of playlist");
    assert_eq!(a.selected, Some(0));
}

#[test]
fn queued_songs_play_first() {
    let mut a = app_with(&["a", "b", "c"]);
    start_playback(&mut a);
    a.player.queue.push_back(song("c"));
    match handle_auto_next(&mut a) {
        AutoNext::Play(m) => assert_eq!(m.name, "c"),
        _ => panic!("expected the queued song"),
    }
    assert!(a.player.queue.is_empty());
    assert_eq!(a.playing_source, Some(PlayingSource::Browse(2)));
}

#[test]
fn single_repeat_restarts_the_track() {
    let mut a = app_with(&["a"]);
    a.player.play_mode = PlayMode::SingleRepeat;
    assert!(matches!(handle_auto_next(&mut a), AutoNext::Idle));
    a.player.audio_data = Some(vec![1, 2, 3]);
    assert!(matches!(handle_auto_next(&mut a), AutoNext::Restart));
    assert_eq!(a.status_message, "Single-repeat");
}

#[test]
fn shuffle_plays_every_song_once_per_round() {
    let mut a = app_with(&["a", "b", "c", "d"]);
    start_playback(&mut a);
    a.player.play_mode = PlayMode::Shuffle;
    let mut seen = Vec::new();
    for _ in 0..4 {
        match a.handle_app_action(AppEvent::NextTrack).play {
            Some(m) => seen.push(m.name),
            None => panic!("shuffle ended early"),
        }
    }
    let mut sorted = seen.clone();
    sorted.sort();
    sorted.dedup();
    assert!(sorted.len() >= 3);
    assert_ne!(seen[0], "a");
}

#[test]
fn queue_events_report_the_queue_length() {
    let mut a = app_with(&["a", "b"]);
    a.handle_app_action(AppEvent::AddToQueue);
    assert_eq!(a.status_message, "Added to end of queue (1 total)");
    a.navigate_down();
    a.handle_app_action(AppEvent::PlayNext);
    assert_eq!(a.status_message, "Queued as next (2 total)");
    assert_eq!(a.player.queue.get(0).unwrap().name, "b");
    a.handle_app_action(AppEvent::ToggleQueue);
    assert!(a.showing_queue);
    a.queue_selected = 1;
    let fx = a.handle_app_action(AppEvent::QueuePlaySelected);
    assert_eq!(played(&fx), Some("a".to_string()));
    assert_eq!(a.player.queue.len(), 1);
}

#[test]
fn go_to_playing_selects_the_song() {
    let mut a = app_with(&["a", "b", "c"]);
    a.playing_source = Some(PlayingSource::Browse(2));
    a.view_mode = ViewMode::PlaylistList;
    a.handle_app_action(AppEvent::GoToPlaying);
    assert_eq!(a.view_mode, ViewMode::Browse);
    assert_eq!(a.selected, Some(2));
    assert_eq!(a.status_message, "Jumped to: c");
    a.playing_source = None;
    a.handle_app_action(AppEvent::GoToPlaying);
    assert_eq!(a.selected, Some(2));
}

#[test]
fn artist_filter_toggles() {
    let mut a = app_with(&["a", "b"]);
    a.all_music[1].artist = "Other".to_string();
    a.apply_filter();
    a.handle_app_action(AppEvent::FilterByArtist);
    assert_eq!(a.artist_filter, Some("x".to_string()));
    assert_eq!(a.filtered_music.len(), 1);
    a.handle_app_action(AppEvent::FilterByArtist);
    assert_eq!(a.artist_filter, None);
    assert_eq!(a.filtered_music.len(), 2);
    a.handle_app_action(AppEvent::FilterByArtist);
    a.handle_app_action(AppEvent::ClearArtistFilter);
    assert_eq!(a.artist_filter, None);
}

#[test]
fn language_toggle_is_saved() {
    let mut a = app_with(&[]);
    let fx = a.handle_app_action(AppEvent::ToggleLanguage);
    assert!(fx.save_language);
    assert_eq!(a.language, Language::Zh);
    let fx = a.handle_app_action(AppEvent::VolumeDown);
    assert_eq!(fx.volume_step, -1);
}

#[test]
fn starting_a_song_picks_how_to_get_it() {
    let mut a = app_with(&["a"]);
    let m = song("a");
    // the default backend has no base URL: the song is fetched as a whole
    let plan = begin_playback(&mut a, &m, false);
    assert!(matches!(plan, StartPlan::Fetch));
    assert!(a.downloading);
    assert_eq!(a.status_message, "📂 Loading: a");
    assert!(matches!(begin_playback(&mut a, &m, false), StartPlan::Busy));
    a.downloading = false;
    let cfg = ServerConfig { name: "s".to_string(), server_url: "http://h".to_string(), ..ServerConfig::default() };
    a.server = create_server_pool(&vec![cfg]);
    match begin_playback(&mut a, &m, false) {
        StartPlan::Stream(t) => {
            assert_eq!(t.title, "a");
            assert_eq!(t.total_duration_ms, 1000);
        }
        _ => panic!("expected a stream"),
    }
    assert_eq!(a.status_message, "⏳ Downloading: a");
    a.downloading = false;
    assert!(matches!(begin_playback(&mut a, &m, true), StartPlan::ReadCache));
    a.downloading = false;
    a.player.current_track = Some(TrackInfo {
        title: "a".to_string(),
        artist: "x".to_string(),
        absolute_path: String::new(),
        total_duration_ms: 0,
        lyrics: None,
    });
    a.player.audio_data = Some(Vec::new());
    assert!(matches!(begin_playback(&mut a, &m, true), StartPlan::Restart));
}

#[test]
fn last_played_song_is_restored_once() {
    let mut a = app_with(&["a", "b"]);
    let last = LastPlayed { server_id: "s".to_string(), absolute_path: "/music/b.mp3".to_string(), position_ms: 5 };
    assert!(restore_last_played(&mut a, Some(last.clone())));
    assert_eq!(a.playing_source, Some(PlayingSource::Browse(1)));
    assert!(!restore_last_played(&mut a, Some(last)));
    assert!(!restore_last_played(&mut a, None));
}

#[test]
fn timed_server_lyrics_win() {
    let timed = parse_lyrics_text("[00:01.00]x");
    let plain = parse_lyrics_text("just text");
    let embedded = parse_lyrics_text("[00:02.00]y");
    assert!(matches!(choose_lyrics(Some(timed), Some(parse_lyrics_text("z"))), Some(Lyrics::Timed(_))));
    match choose_lyrics(Some(plain), Some(embedded)) {
        Some(Lyrics::Timed(l)) => assert_eq!(l[0].timestamp_ms, 2000),
        _ => panic!("expected the embedded lyrics"),
    }
    assert!(matches!(choose_lyrics(Some(parse_lyrics_text("p")), None), Some(Lyrics::Plain(_))));
}

#[test]
fn start_up_without_a_server_opens_the_configuration() {
    let mut a = app_with(&[]);
    assert!(!a.on_startup());
    assert!(a.config_mode);
    assert_eq!(a.status_message, "Add a server (Enter edit, Tab switch field, Esc save & exit)");
    a.config_mode = false;
    a.server_configs = vec![ServerConfig { server_url: "http://h".to_string(), ..ServerConfig::default() }];
    assert!(a.on_startup());
    assert!(!a.config_mode);
}

#[test]
fn background_results_update_the_status() {
    let mut a = app_with(&["a", "b", "c"]);
    a.error_message = Some("old".to_string());
    a.player.start_track(track_of(&song("b"), None), None, None);
    on_playing(&mut a);
    assert_eq!(a.status_message, "▶ Now playing: b");
    assert!(a.error_message.is_none());
    on_seek_prepared(&mut a, 65_000, true);
    assert_eq!(a.status_message, "Seek → 01:05");
    on_seek_prepared(&mut a, 5_000, false);
    assert_eq!(a.status_message, "Seek ← 00:05");
    on_volume_changed(&mut a, 85);
    assert_eq!(a.status_message, "Volume: 85%");
    on_seek_unavailable(&mut a);
    assert_eq!(a.status_message, "Download in progress, please wait before seeking");
    a.downloading = true;
    on_stream_failed(&mut a, "eof");
    assert!(!a.downloading);
    assert_eq!(a.error_message.as_deref(), Some("Streaming failed: eof"));
    on_decode_failed(&mut a, "bad");
    assert_eq!(a.error_message.as_deref(), Some("Decode failed (unsupported format?): bad"));
}

#[test]
fn arrived_audio_finishes_drops_or_plays() {
    let mut a = app_with(&["a"]);
    a.downloading = true;
    a.download_progress = Some("50%".to_string());
    assert_eq!(on_audio_arrived(&mut a, true), Arrival::Finish);
    assert!(!a.downloading && a.download_progress.is_none());
    assert_eq!(on_audio_arrived(&mut a, false), Arrival::Discard);
    a.playing_source = Some(PlayingSource::Browse(0));
    assert_eq!(on_audio_arrived(&mut a, false), Arrival::Play);
    let t = track_of(&song("a"), None);
    assert_eq!(t.title, "a");
    assert_eq!(t.total_duration_ms, 1000);
}
