use tune::i18n::Language;
use tune::player::Playback;
use tune::server::{create_server_pool, MusicEntry, ServerConfig};
use tune::ui::{
    build_album_display, build_help_lines, decimal_string, format_duration, sort_songs, App, DisplayItem,
    PlayingSource, SortMode, ViewMode,
};

fn song(name: &str, artist: &str, album: &str, duration: u64) -> MusicEntry {
    MusicEntry {
        absolute_path: format!("/music/{}.mp3", name),
        name: name.to_string(),
        artist: artist.to_string(),
        album: album.to_string(),
        duration,
        server_id: "s".to_string(),
    }
}

fn app() -> App {
    App::new(Playback::new(), create_server_pool(&Vec::new()), Vec::new(), Language::En)
}

fn names(v: &[MusicEntry]) -> Vec<&str> {
    v.iter().map(|m| m.name.as_str()).collect()
}

#[test]
fn format_duration_pads_minutes_and_seconds() {
    assert_eq!(format_duration(0), "00:00");
    assert_eq!(format_duration(999), "00:00");
    assert_eq!(format_duration(61_000), "01:01");
    assert_eq!(format_duration(284_000), "04:44");
    assert_eq!(format_duration(3_600_000), "60:00");
    assert_eq!(format_duration(6_000_000), "100:00");
}

#[test]
fn decimal_string_writes_numbers() {
    assert_eq!(decimal_string(0), "0");
    assert_eq!(decimal_string(7), "7");
    assert_eq!(decimal_string(10), "10");
    assert_eq!(decimal_string(18446744073709551615), "18446744073709551615");
}

#[test]
fn sort_mode_cycles_through_five_orders() {
    let mut m = SortMode::Default;
    let mut seen = Vec::new();
    for _ in 0..5 {
        seen.push(m);
        m = m.next();
    }
    assert_eq!(m, SortMode::Default);
    assert_eq!(seen, vec![SortMode::Default, SortMode::Name, SortMode::Artist, SortMode::Duration, SortMode::Album]);
    assert_eq!(SortMode::Name.label(Language::En), "By name");
    assert_eq!(SortMode::Album.label(Language::En), "sort.album");
}

#[test]
fn sort_by_name_ignores_case_and_is_stable() {
    let songs = vec![song("b", "x", "", 3), song("A", "y", "", 1), song("a", "z", "", 2), song("C", "w", "", 0)];
    let by_name = sort_songs(SortMode::Name, &songs);
    assert_eq!(names(&by_name), vec!["A", "a", "b", "C"]);
    let by_duration = sort_songs(SortMode::Duration, &songs);
    assert_eq!(names(&by_duration), vec!["C", "A", "a", "b"]);
    let by_artist = sort_songs(SortMode::Artist, &songs);
    assert_eq!(names(&by_artist), vec!["C", "b", "A", "a"]);
    let unchanged = sort_songs(SortMode::Default, &songs);
    assert_eq!(names(&unchanged), vec!["b", "A", "a", "C"]);
}

#[test]
fn sort_by_album_then_artist_then_name() {
    let songs = vec![
        song("z", "b", "Beta", 0),
        song("y", "a", "alpha", 0),
        song("x", "b", "Alpha", 0),
        song("w", "a", "ALPHA", 0),
    ];
    let sorted = sort_songs(SortMode::Album, &songs);
    assert_eq!(names(&sorted), vec!["w", "y", "x", "z"]);
}

#[test]
fn album_display_groups_consecutive_songs() {
    let songs = vec![
        song("a", "A1", "One", 0),
        song("b", "A2", "One", 0),
        song("c", "A3", "", 0),
        song("d", "A4", "Two", 0),
    ];
    let items = build_album_display(&songs);
    assert_eq!(items.len(), 6);
    match &items[0] {
        DisplayItem::AlbumHeader { album, artist, song_count } => {
            assert_eq!(album, "One");
            assert_eq!(artist, "A1");
            assert_eq!(*song_count, 2);
        }
        _ => panic!("expected a header"),
    }
    assert!(matches!(items[1], DisplayItem::Song(0)));
    assert!(matches!(items[2], DisplayItem::Song(1)));
    assert!(matches!(items[3], DisplayItem::Song(2)));
    assert!(matches!(items[4], DisplayItem::AlbumHeader { song_count: 1, .. }));
    assert!(matches!(items[5], DisplayItem::Song(3)));
}

#[test]
fn search_filter_matches_name_or_artist_in_any_case() {
    let mut a = app();
    a.set_music_list(vec![song("Hello", "Adele", "", 0), song("Yesterday", "Beatles", "", 0), song("x", "HELLOWEEN", "", 0)]);
    assert_eq!(a.status_message, "3 songs loaded");
    assert_eq!(a.filtered_music.len(), 3);
    a.search_query = "hello".to_string();
    a.apply_filter();
    assert_eq!(names(&a.filtered_music), vec!["Hello", "x"]);
    a.artist_filter = Some("helloween".to_string());
    a.apply_filter();
    assert_eq!(names(&a.filtered_music), vec!["x"]);
    a.search_query = "zzz".to_string();
    a.apply_filter();
    assert!(a.filtered_music.is_empty());
    assert_eq!(a.selected, None);
}

#[test]
fn navigation_skips_album_headers() {
    let mut a = app();
    a.sort_mode = SortMode::Album;
    a.set_music_list(vec![song("a", "x", "One", 0), song("b", "x", "Two", 0)]);
    // display: [Header One, Song 0, Header Two, Song 1]; selection moved off the header
    assert_eq!(a.display_items.len(), 4);
    assert_eq!(a.selected, Some(1));
    a.navigate_down();
    assert_eq!(a.selected, Some(3));
    a.navigate_down();
    assert_eq!(a.selected, Some(3));
    a.navigate_up();
    assert_eq!(a.selected, Some(1));
    a.navigate_up();
    assert_eq!(a.selected, Some(1));
    assert_eq!(a.selected_music().unwrap().name, "a");
    assert_eq!(a.find_display_index_for_song(1), Some(3));
    assert_eq!(a.find_display_index_for_song(5), None);
}

#[test]
fn scrolling_moves_a_page_and_stops_at_the_ends() {
    let mut a = app();
    let songs: Vec<MusicEntry> = (0..40).map(|i| song(&format!("s{}", i), "x", "", 0)).collect();
    a.set_music_list(songs);
    assert_eq!(a.selected, Some(0));
    a.scroll_down();
    assert_eq!(a.selected, Some(15));
    a.scroll_down();
    a.scroll_down();
    assert_eq!(a.selected, Some(39));
    a.scroll_up();
    assert_eq!(a.selected, Some(24));
    a.scroll_up();
    a.scroll_up();
    assert_eq!(a.selected, Some(0));
}

#[test]
fn playlists_create_add_and_delete() {
    let mut a = app();
    a.create_playlist("  Road trip  ".to_string());
    a.create_playlist("   ".to_string());
    assert_eq!(a.playlists[0].name, "Road trip");
    assert_eq!(a.playlists[1].name, "Playlist 2");
    a.add_to_playlist(0, song("a", "x", "", 0));
    a.add_to_playlist(0, song("a", "y", "", 0));
    a.add_to_playlist(0, song("b", "x", "", 0));
    a.add_to_playlist(7, song("c", "x", "", 0));
    assert_eq!(names(&a.playlists[0].songs), vec!["a", "b"]);
    a.view_mode = ViewMode::PlaylistContent(1);
    assert!(a.delete_playlist(0));
    assert_eq!(a.view_mode, ViewMode::PlaylistContent(0));
    assert!(!a.delete_playlist(3));
    assert!(a.delete_playlist(0));
    assert_eq!(a.view_mode, ViewMode::PlaylistList);
    assert!(a.playlists.is_empty());
}

#[test]
fn playlist_content_follows_the_search() {
    let mut a = app();
    a.create_playlist("p".to_string());
    a.add_to_playlist(0, song("Alpha", "x", "", 0));
    a.add_to_playlist(0, song("Beta", "x", "", 0));
    a.view_mode = ViewMode::PlaylistContent(0);
    a.pl_content_selected = Some(0);
    a.search_query = "bet".to_string();
    assert_eq!(names(&a.current_playlist_songs(0)), vec!["Beta"]);
    let (m, list) = a.selected_in_current_view().unwrap();
    assert_eq!(m.name, "Beta");
    assert_eq!(list, "p");
    assert!(a.remove_song_from_current_playlist(1));
    assert_eq!(names(&a.playlists[0].songs), vec!["Alpha"]);
    assert!(!a.remove_song_from_current_playlist(4));
    a.view_mode = ViewMode::Browse;
    assert!(a.current_playlist().is_none());
}

#[test]
fn help_lines_are_translated() {
    let lines = build_help_lines(Language::En);
    assert_eq!(lines.len(), 31);
    assert_eq!(lines[8], format!("  - / _        {}  ", ""));
    assert_eq!(lines[1], "  Enter       Enter Play selected  ");
    assert!(lines[1].starts_with("  Enter       "));
    assert!(lines[1].ends_with("  "));
    let zh = build_help_lines(Language::Zh);
    assert_ne!(lines[1], zh[1]);
}

#[test]
fn playing_source_is_a_plain_value() {
    let p = PlayingSource::PlaylistContent(1, 2);
    assert_eq!(p, PlayingSource::PlaylistContent(1, 2));
    assert_ne!(p, PlayingSource::Browse(2));
}

#[test]
fn server_configs_are_kept() {
    let cfg = ServerConfig::default();
    let a = App::new(Playback::new(), create_server_pool(&vec![cfg]), vec![ServerConfig::default()], Language::Zh);
    assert_eq!(a.server_configs.len(), 1);
    assert_eq!(a.status_message, "准备就绪 - 按 q 退出");
}
