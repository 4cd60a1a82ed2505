use tune::lyrics::{lyrics_from_result, lyrics_query, parse_lyrics_text, split_orig_trans, Lyrics};

#[test]
fn test_lrc_simple() {
    let text = "[00:01.00]Line one
[00:05.50]Line two
[00:10.00]Line three";
    let lyrics = parse_lyrics_text(text);
    match lyrics {
        Lyrics::Timed(lines) => {
            assert_eq!(lines.len(), 3);
            assert_eq!(lines[0].timestamp_ms, 1000);
            assert_eq!(lines[0].text, "Line one");
            assert_eq!(lines[1].timestamp_ms, 5500);
            assert_eq!(lines[1].text, "Line two");
            assert_eq!(lines[2].timestamp_ms, 10000);
        }
        _ => panic!("Expected timed lyrics"),
    }
}

#[test]
fn test_plain_text() {
    let text = "This is just\nsome plain lyrics\nwithout timestamps";
    let lyrics = parse_lyrics_text(text);
    match lyrics {
        Lyrics::Plain(t) => assert!(t.contains("plain lyrics")),
        _ => panic!("Expected plain lyrics"),
    }
}

#[test]
fn test_lines_at() {
    let text = "[00:01.00]First\n[00:05.00]Second\n[00:10.00]Third\n[00:10.00]ThirdTrans";
    let lyrics = parse_lyrics_text(text);
    assert_eq!(lyrics.lines_at(0), (None, None));
    assert_eq!(lyrics.lines_at(500), (None, None));
    // First line
    let (o, t) = lyrics.lines_at(1000);
    assert_eq!(o, Some("First"));
    assert_eq!(t, None);
    let (o, t) = lyrics.lines_at(3000);
    assert_eq!(o, Some("First"));
    assert_eq!(t, None);
    // Second line
    let (o, t) = lyrics.lines_at(5000);
    assert_eq!(o, Some("Second"));
    assert_eq!(t, None);
    let (o, t) = lyrics.lines_at(9999);
    assert_eq!(o, Some("Second"));
    assert_eq!(t, None);
    // Third line with translation
    let (o, t) = lyrics.lines_at(10000);
    assert_eq!(o, Some("Third"));
    assert_eq!(t, Some("ThirdTrans"));
    let (o, t) = lyrics.lines_at(99999);
    assert_eq!(o, Some("Third"));
    assert_eq!(t, Some("ThirdTrans"));
}

#[test]
fn test_tab_separated() {
    // Same line: English\tChinese — single timestamp with tab separator
    let text = "[00:01.00]First\t翻译一\n[00:05.00]Second\t翻译二";
    let lyrics = parse_lyrics_text(text);
    let (o, t) = lyrics.lines_at(1000);
    assert_eq!(o, Some("First"));
    assert_eq!(t, Some("翻译一"));
    let (o, t) = lyrics.lines_at(3000);
    assert_eq!(o, Some("First"));
    assert_eq!(t, Some("翻译一"));
    let (o, t) = lyrics.lines_at(5000);
    assert_eq!(o, Some("Second"));
    assert_eq!(t, Some("翻译二"));
}

#[test]
fn test_split_orig_trans() {
    // Tab separator
    let (l, r) = split_orig_trans("Hello\t世界").unwrap();
    assert_eq!(l, "Hello");
    assert_eq!(r, "世界");
    // Thin space separator
    let (l, r) = split_orig_trans("Hello\u{2009}世界").unwrap();
    assert_eq!(l, "Hello");
    assert_eq!(r, "世界");
    // No separator
    assert!(split_orig_trans("Hello World").is_none());
}

#[test]
fn test_thin_space_separator() {
    // Real-world format: English\u{2009}Chinese
    let text = "[00:17.00]It being in the spring time\u{2009}那是在春天的时节";
    let lyrics = parse_lyrics_text(text);
    let (o, t) = lyrics.lines_at(17000);
    assert_eq!(o, Some("It being in the spring time"));
    assert_eq!(t, Some("那是在春天的时节"));
}

/// Empty title should always return None (no network call).
#[test]
fn test_empty_title() {
    assert!(lyrics_query("", "Some Artist").is_none());
}

#[test]
fn online_query_trims_and_falls_back_to_the_title() {
    assert_eq!(lyrics_query("  Hello ", " Adele "), Some(("Hello".to_string(), "Adele".to_string())));
    assert_eq!(lyrics_query("Hello", "  "), Some(("Hello".to_string(), "Hello".to_string())));
    assert!(lyrics_query("   ", "Adele").is_none());
}

#[test]
fn online_result_prefers_synced_lyrics() {
    let r = lyrics_from_result(Some("[00:01.00]a".to_string()), Some("plain".to_string()));
    assert!(matches!(r, Some(Lyrics::Timed(_))));
    let r = lyrics_from_result(None, Some("plain".to_string()));
    assert!(matches!(r, Some(Lyrics::Plain(_))));
    assert!(lyrics_from_result(None, None).is_none());
    assert!(lyrics_from_result(Some(String::new()), Some("plain".to_string())).is_none());
}
