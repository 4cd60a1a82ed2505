use tune::download::{
    cache_excess, eviction_order, hex16, is_expired, AudioCache, CacheFile, StreamProgress,
};
use tune::i18n::{tr, tf, Language};
use tune::lyrics::{extract_lyrics, parse_lrc_timestamp};
use tune::player::{
    PlayMode, ReadOutcome, SeekTarget, SharedAudioBuf, ShuffleState, StreamingCursor,
};
use tune::server::{
    cover_from_audio, decode_password, encode_password, encode_url_component, encode_url_path, usable_picture,
};
use tune::store::{legacy_language, ConfigStore, LastPlayed};

#[test]
fn hex16_pads_to_sixteen_digits() {
    assert_eq!(hex16(0), "0000000000000000");
    assert_eq!(hex16(255), "00000000000000ff");
    assert_eq!(hex16(u64::MAX), "ffffffffffffffff");
}

#[test]
fn cache_paths_depend_on_server_and_path() {
    let c = AudioCache::new("/tmp/tune-cache".to_string());
    let a = c.path_for("s1", "/a.mp3");
    let b = c.path_for("s1", "/b.mp3");
    assert_eq!(a, c.path_for("s1", "/a.mp3"));
    assert_ne!(a, b);
    assert!(a.starts_with("/tmp/tune-cache/"));
    assert_eq!(a.len(), "/tmp/tune-cache/".len() + 16);
}

#[test]
fn cache_eviction_goes_oldest_first() {
    let files = vec![
        CacheFile { size: 1_000_000_000, modified: 30 },
        CacheFile { size: 1_000_000_000, modified: 10 },
        CacheFile { size: 500_000_000, modified: 20 },
        CacheFile { size: 1, modified: 10 },
    ];
    assert_eq!(cache_excess(&files), 2_500_000_001 - 2_147_483_648);
    assert_eq!(eviction_order(&files), vec![1, 3, 2, 0]);
    assert_eq!(cache_excess(&files[..2].to_vec()), 0);
    assert!(is_expired(2_592_001));
    assert!(!is_expired(2_592_000));
}

#[test]
fn streaming_starts_once_at_the_threshold() {
    let mut p = StreamProgress::new(0);
    assert!(!p.on_chunk(200_000));
    assert!(p.on_chunk(62_144));
    assert!(!p.on_chunk(10));
    assert!(!p.on_finish());
    let mut small = StreamProgress::new(10);
    assert!(!small.on_chunk(10));
    assert!(small.on_finish());
}

#[test]
fn streaming_cursor_reads_and_seeks() {
    let mut buf = SharedAudioBuf::new();
    let mut cur = StreamingCursor::new();
    assert!(matches!(cur.read(&buf, 4), ReadOutcome::Wait));
    buf.push(&[1, 2, 3]);
    match cur.read(&buf, 2) {
        ReadOutcome::Data(d) => assert_eq!(d, vec![1, 2]),
        _ => panic!("expected data"),
    }
    match cur.read(&buf, 8) {
        ReadOutcome::Data(d) => assert_eq!(d, vec![3]),
        _ => panic!("expected data"),
    }
    buf.set_eof();
    assert!(matches!(cur.read(&buf, 8), ReadOutcome::EndOfStream));
    assert_eq!(cur.seek(&buf, SeekTarget::End(-1)), Some(2));
    assert_eq!(cur.seek(&buf, SeekTarget::Current(-5)), None);
    assert_eq!(cur.pos, 2);
    assert_eq!(cur.seek(&buf, SeekTarget::Start(0)), Some(0));
}

#[test]
fn shuffle_state_is_a_permutation_without_immediate_repeat() {
    for _ in 0..20 {
        let mut s = ShuffleState::new(5, Some(3));
        let first = s.next().unwrap();
        assert_ne!(first, 3);
        let mut all = vec![first];
        while let Some(i) = s.next() {
            all.push(i);
        }
        all.sort();
        assert_eq!(all, vec![0, 1, 2, 3, 4]);
    }
    assert!(ShuffleState::new(0, None).next().is_none());
}

#[test]
fn play_mode_labels() {
    assert_eq!(PlayMode::Shuffle.label(Language::En), "Shuffle");
    assert_eq!(PlayMode::Sequential.next_variant().next_variant().next_variant(), PlayMode::Sequential);
}

#[test]
fn passwords_are_stored_in_base64() {
    assert_eq!(encode_password("abc"), "YWJj");
    assert_eq!(decode_password("YWJj"), "abc");
    assert_eq!(decode_password(&encode_password("密码 pw")), "密码 pw");
    assert_eq!(decode_password("not base64!"), "not base64!");
}

#[test]
fn url_encoding_keeps_unreserved_characters() {
    assert_eq!(encode_url_component("a b/c~"), "a%20b%2Fc~");
    assert_eq!(encode_url_path("/歌/a b"), "/%E6%AD%8C/a%20b");
}

#[test]
fn translations_fill_placeholders_in_turn() {
    assert_eq!(tr(Language::En, "status.paused"), "Paused");
    assert_eq!(tr(Language::En, "no.such.key"), "no.such.key");
    let args = vec!["3".to_string(), "4".to_string()];
    assert_eq!(tf(Language::Zh, "status.music_loaded", &args), "共 3 首音乐，已加载 4 首");
}

#[test]
fn lrc_timestamps_parse() {
    assert_eq!(parse_lrc_timestamp("01:02.50"), Some(62_500));
    assert_eq!(parse_lrc_timestamp("00:05"), Some(5_000));
    assert_eq!(parse_lrc_timestamp("00:05.123"), Some(5_123));
    assert_eq!(parse_lrc_timestamp("ab:cd"), None);
}

#[test]
fn audio_without_tags_has_no_lyrics() {
    assert!(extract_lyrics(&[0u8, 1, 2, 3]).is_none());
}

#[test]
fn config_store_debounces_writes() {
    let mut c = ConfigStore::default_config();
    assert_eq!(c.language, "zh");
    assert!(c.save_language("en"));
    assert!(!c.save_playlists(&Vec::new()));
    assert!(c.flush_config());
    assert!(!c.flush_config());
    assert_eq!(c.load_language(), "en");
    let last = LastPlayed { server_id: "s".to_string(), absolute_path: "/a".to_string(), position_ms: 42 };
    c.save_last_played(&last);
    assert_eq!(c.load_last_played().unwrap().position_ms, 42);
    c.clear_last_played();
    assert!(c.load_last_played().is_none());
}

#[test]
fn legacy_language_files() {
    assert_eq!(legacy_language(Some(" \"English\"\n")), "en");
    assert_eq!(legacy_language(Some("en")), "en");
    assert_eq!(legacy_language(Some("fr")), "zh");
    assert_eq!(legacy_language(None), "zh");
}

#[test]
fn audio_without_tags_has_no_cover() {
    assert!(cover_from_audio(&[], "a.mp3").is_none());
    assert!(cover_from_audio(&[0u8, 1, 2, 3], "a.mp3").is_none());
    assert!(cover_from_audio(&[0u8, 1, 2, 3], "no_extension").is_none());
}

#[test]
fn empty_pictures_are_dropped() {
    assert_eq!(usable_picture(Some(vec![1u8, 2])), Some(vec![1u8, 2]));
    assert!(usable_picture(Some(Vec::new())).is_none());
    assert!(usable_picture(None).is_none());
}
