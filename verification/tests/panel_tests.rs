use tune::download::{AudioCache, CacheFile, Eviction};
use tune::i18n::Language;
use tune::panel::{lyric_caption, playback_icon, playback_label, playlist_title, volume_label};
use tune::player::{PlayMode, PlayerState, Playback, ShuffleState, TrackInfo};
use tune::server::{create_server_pool, Backend, MusicEntry, ServerConfig};
use tune::ui::{App, Playlist, ViewMode};

fn track() -> TrackInfo {
    TrackInfo {
        title: "Hello".to_string(),
        artist: "Adele".to_string(),
        absolute_path: "/h.mp3".to_string(),
        total_duration_ms: 296_000,
        lyrics: None,
    }
}

fn song(name: &str) -> MusicEntry {
    MusicEntry {
        absolute_path: format!("/{}.mp3", name),
        name: name.to_string(),
        artist: "x".to_string(),
        duration: 0,
        album: String::new(),
        server_id: String::new(),
    }
}

#[test]
fn playback_bar_label_names_state_track_and_mode() {
    assert_eq!(playback_icon(PlayerState::Stopped), "⏹");
    let t = track();
    assert_eq!(
        playback_label(Language::En, PlayerState::Playing, Some(&t), 68_000, PlayMode::Sequential),
        " ▶ Adele - Hello  [01:08/04:56]  [Seq]"
    );
    assert_eq!(playback_label(Language::En, PlayerState::Stopped, None, 0, PlayMode::Shuffle), " ⏹ (Idle)  [Shuffle]");
    assert_eq!(volume_label(Language::En, 85), "Vol: 85%");
}

#[test]
fn lyric_lines_are_cut_to_the_bar() {
    assert_eq!(lyric_caption(None, 40), "");
    assert_eq!(lyric_caption(Some(""), 40), "");
    assert_eq!(lyric_caption(Some("short line"), 40), " short line ");
    // 20 cells: at most 10 bytes, else 8 characters and an ellipsis
    assert_eq!(lyric_caption(Some("abcdefghijklmn"), 20), " abcdefgh… ");
    // multi-byte text is measured in bytes but cut in characters
    assert_eq!(lyric_caption(Some("我还要与你在一起"), 20), " 我还要与你在一起… ");
}

#[test]
fn playlist_view_title_follows_the_search() {
    assert_eq!(playlist_title(Language::En, "", "Mix", 3), " Mix ");
    assert_eq!(playlist_title(Language::En, "a", "Mix", 2), " Search: a (2 results) ");
}

#[test]
fn playlist_selection_is_clamped_to_the_search_results() {
    let mut a = App::new(Playback::new(), create_server_pool(&Vec::new()), Vec::new(), Language::En);
    a.playlists = vec![Playlist { name: "p".to_string(), songs: vec![song("ab"), song("ac"), song("zz")] }];
    a.view_mode = ViewMode::PlaylistContent(0);
    a.pl_content_selected = Some(2);
    a.clamp_playlist_selection();
    assert_eq!(a.pl_content_selected, Some(2));
    a.search_query = "a".to_string();
    a.clamp_playlist_selection();
    assert_eq!(a.pl_content_selected, Some(1));
    a.search_query = "nothing".to_string();
    a.pl_content_selected = Some(5);
    a.clamp_playlist_selection();
    assert_eq!(a.pl_content_selected, Some(5));
}

#[test]
fn pool_lists_are_merged_in_server_order() {
    let mut off = ServerConfig { name: "off".to_string(), server_url: "http://c".to_string(), ..ServerConfig::default() };
    off.disabled = true;
    let pool = create_server_pool(&vec![
        ServerConfig { name: "a".to_string(), server_url: "http://a".to_string(), ..ServerConfig::default() },
        ServerConfig { name: "b".to_string(), server_url: "http://b".to_string(), ..ServerConfig::default() },
        off,
    ]);
    let Backend::Pool(p) = pool else { panic!("expected a pool") };
    let merged = p.merge_lists(vec![Some(vec![song("1"), song("2")]), None, Some(vec![song("3")])]);
    assert_eq!(merged.len(), 2);
    assert_eq!(merged[0].name, "1");
    assert_eq!(merged[1].server_id, "a");
    let merged = p.merge_lists(vec![None, Some(vec![song("4")])]);
    assert_eq!(merged.len(), 1);
    assert_eq!(merged[0].server_id, "b");
}

#[test]
fn eviction_removes_oldest_until_the_excess_is_covered() {
    let gb = 1u64 << 30;
    let files = vec![
        CacheFile { size: gb, modified: 30 },
        CacheFile { size: gb, modified: 10 },
        CacheFile { size: gb, modified: 20 },
    ];
    let mut run = Eviction::plan(&files);
    assert_eq!(run.next_file(), Some(1));
    // the oldest file could not be removed: the next one is tried
    assert_eq!(run.next_file(), Some(2));
    run.removed(gb);
    assert_eq!(run.next_file(), None);
    let mut small = Eviction::plan(&vec![CacheFile { size: 10, modified: 1 }]);
    assert_eq!(small.next_file(), None);
}

#[test]
fn cache_paths_join_like_a_path() {
    let with_slash = AudioCache::new("/tmp/c/".to_string()).path_for("s", "/a");
    let without = AudioCache::new("/tmp/c".to_string()).path_for("s", "/a");
    assert_eq!(with_slash, without);
}

#[test]
fn shuffle_never_repeats_an_index() {
    let mut s = ShuffleState::from_shuffled(vec![0, 1, 2], Some(2), 0);
    let mut seen = Vec::new();
    while let Some(i) = s.next() {
        assert!(!seen.contains(&i));
        seen.push(i);
    }
    assert_eq!(seen.len(), 3);
    assert_ne!(seen[0], 2);
}
