use tune::server::{
    album_song_entry, create_server, create_server_pool, file_type_from_ext, search_song_entry, tag_entries,
    AudioFormat, Backend, FileTransferServer, LocalServer, MusicEntry, MusicServer, Server, ServerConfig,
    SubsonicServer,
};

fn entry(path: &str, server_id: &str) -> MusicEntry {
    MusicEntry {
        absolute_path: path.to_string(),
        name: "n".to_string(),
        artist: "a".to_string(),
        duration: 0,
        album: String::new(),
        server_id: server_id.to_string(),
    }
}

fn config(name: &str, url: &str, kind: &str) -> ServerConfig {
    ServerConfig {
        name: name.to_string(),
        server_url: url.to_string(),
        server_type: kind.to_string(),
        username: "u".to_string(),
        password: "p".to_string(),
        disabled: false,
    }
}

#[test]
fn file_transfer_urls_encode_the_path() {
    let s = FileTransferServer::new("http://h:2333");
    assert_eq!(s.list_url(), "http://h:2333/musicsV2");
    assert_eq!(s.stream_url(&entry("/音乐/a b.mp3", "")), "http://h:2333/file?path=/%E9%9F%B3%E4%B9%90/a%20b.mp3");
}

#[test]
fn subsonic_urls_carry_the_credentials() {
    let s = SubsonicServer::new("http://nd/", "me", "pw");
    assert_eq!(s.base_url(), "http://nd");
    assert_eq!(s.auth_params(), "u=me&p=pw&v=1.16.0&c=tune&f=json");
    assert_eq!(s.stream_url(&entry("42", "")), "http://nd/rest/stream?id=42&u=me&p=pw&v=1.16.0&c=tune&f=json");
    assert_eq!(s.album_url("7"), "http://nd/rest/getAlbum?id=7&u=me&p=pw&v=1.16.0&c=tune&f=json");
    assert_eq!(
        s.cover_url(&entry("42", "")).unwrap(),
        "http://nd/rest/getCoverArt?id=42&u=me&p=pw&v=1.16.0&c=tune&f=json"
    );
    let mut m = entry("42", "");
    m.artist = "A B".to_string();
    m.name = "x&y".to_string();
    assert_eq!(s.lyrics_url(&m), "http://nd/rest/getLyrics?artist=A%20B&title=x%26y&u=me&p=pw&v=1.16.0&c=tune&f=json");
    assert_eq!(s.search_endpoint(), "http://nd/rest/search3");
    let params = s.search_params("love");
    assert_eq!(params.len(), 9);
    assert_eq!(params[0], ("query".to_string(), "love".to_string()));
    assert_eq!(params[1], ("songCount".to_string(), "50".to_string()));
    assert_eq!(params[4], ("u".to_string(), "me".to_string()));
    assert_eq!(params[5], ("p".to_string(), "pw".to_string()));
}

#[test]
fn local_folders_trim_separators_and_know_audio_files() {
    let l = LocalServer::new("/home/me/Music//");
    assert_eq!(l.base_url(), "/home/me/Music");
    assert_eq!(l.stream_url(&entry("/home/me/Music/a.flac", "")), "/home/me/Music/a.flac");
    assert!(LocalServer::is_audio_extension("FLAC"));
    assert!(LocalServer::is_audio_extension("opus"));
    assert!(!LocalServer::is_audio_extension("txt"));
}

#[test]
fn the_server_type_selects_the_adapter() {
    assert!(matches!(create_server(&config("a", "http://x", "navidrome")), Server::Subsonic(_)));
    assert!(matches!(create_server(&config("a", "http://x", "subsonic")), Server::Subsonic(_)));
    assert!(matches!(create_server(&config("a", "/m", "local")), Server::Local(_)));
    assert!(matches!(create_server(&config("a", "http://x", "whatever")), Server::FileTransfer(_)));
}

#[test]
fn the_pool_routes_songs_to_their_server() {
    let mut off = config("", "http://b", "file-transfer");
    off.disabled = true;
    let pool = create_server_pool(&vec![config("nd", "http://a", "navidrome"), off]);
    match &pool {
        Backend::Pool(p) => {
            assert_eq!(p.servers.len(), 2);
            assert_eq!(p.servers[1].id, "file-transfer");
            assert!(p.servers[1].disabled);
        }
        Backend::Single(_) => panic!("expected a pool"),
    }
    assert_eq!(pool.stream_url(&entry("/s.mp3", "file-transfer")), "http://b/file?path=/s.mp3");
    assert_eq!(pool.stream_url(&entry("9", "nd")), "http://a/rest/stream?id=9&u=u&p=p&v=1.16.0&c=tune&f=json");
    // an unknown server id goes to the first enabled server
    assert_eq!(pool.stream_url(&entry("9", "gone")), "http://a/rest/stream?id=9&u=u&p=p&v=1.16.0&c=tune&f=json");
    assert!(matches!(create_server_pool(&Vec::new()), Backend::Single(Server::FileTransfer(_))));
}

#[test]
fn listed_entries_are_tagged_with_their_server() {
    let tagged = tag_entries(vec![entry("/a", ""), entry("/b", "old")], "srv");
    assert_eq!(tagged.len(), 2);
    assert!(tagged.iter().all(|e| e.server_id == "srv"));
    assert_eq!(tagged[1].absolute_path, "/b");
}

#[test]
fn subsonic_songs_become_entries() {
    let e = album_song_entry("1".to_string(), "t".to_string(), 3, None, "Alb", "Art");
    assert_eq!(e.artist, "Art");
    assert_eq!(e.album, "Alb");
    assert_eq!(e.duration, 3000);
    let e = search_song_entry("2".to_string(), "t".to_string(), 4, Some("X".to_string()), None);
    assert_eq!(e.artist, "X");
    assert_eq!(e.album, "");
    assert_eq!(e.duration, 4000);
}

#[test]
fn file_types_come_from_the_extension() {
    assert_eq!(file_type_from_ext("a/b.MP3"), Some(AudioFormat::Mpeg));
    assert_eq!(file_type_from_ext("x.opus"), Some(AudioFormat::Vorbis));
    assert_eq!(file_type_from_ext("x.m4b"), Some(AudioFormat::Mp4));
    assert_eq!(file_type_from_ext("README"), None);
}

#[test]
fn adapters_report_their_features() {
    let ft = FileTransferServer::new("http://h");
    assert_eq!(ft.name(), "文件闪传");
    assert!(!ft.features().search && !ft.features().cover_art);
    assert!(ft.cover_url(&entry("/a.mp3", "")).is_none());
    let nd = SubsonicServer::new("http://nd", "u", "p");
    assert!(nd.features().search && nd.features().cover_art);
    let single = create_server_pool(&Vec::new());
    assert_eq!(single.name(), "文件闪传");
    assert_eq!(single.base_url(), "");
    let pool = create_server_pool(&vec![config("nd", "http://a/", "navidrome")]);
    assert_eq!(pool.name(), "ServerPool");
    assert_eq!(pool.base_url(), "http://a");
    assert!(!pool.features().search);
    assert!(pool.cover_url(&entry("9", "nd")).is_some());
    assert!(pool.cover_url(&entry("9", "other")).is_none());
}
