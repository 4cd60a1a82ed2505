//! The texts of the playback bar and of a playlist's song view: the state
//! icon and track label, the lyric lines cut to the bar's width, the volume,
//! and the playlist title.

use vstd::prelude::*;
use crate::i18n::{fill_placeholders, message_text, message_with, strings_model, tf, tr, Language};
use crate::player::{mode_short_label_key, PlayMode, PlayerState, TrackInfo};
use crate::ui::{decimal, decimal_string, duration_text, format_duration, min_int, sat_sub};
use vstd::utf8::encode_utf8;

verus! {

/// The icon of a player state.
pub open spec fn state_icon(s: PlayerState) -> Seq<char> {
    match s {
        PlayerState::Playing => "▶"@,
        PlayerState::Paused => "⏸"@,
        PlayerState::Stopped => "⏹"@,
    }
}

pub fn playback_icon(s: PlayerState) -> (r: &'static str)
    ensures
        r@ == state_icon(s),
{
    match s {
        PlayerState::Playing => "▶",
        PlayerState::Paused => "⏸",
        PlayerState::Stopped => "⏹",
    }
}

/// The label of the playback bar: the state icon, then artist, title,
/// position and length of the track and the short play-mode name; without a
/// track, the idle text and the mode.
pub open spec fn playback_label_text(
    lang: Language,
    state: PlayerState,
    track: Option<TrackInfo>,
    position_ms: u64,
    mode: PlayMode,
) -> Seq<char> {
    let mode_name = message_text(lang, mode_short_label_key(mode));
    match track {
        Some(t) => " "@ + state_icon(state) + " "@ + t.artist@ + " - "@ + t.title@ + "  ["@ + duration_text(
            position_ms,
        ) + "/"@ + duration_text(t.total_duration_ms) + "]  ["@ + mode_name + "]"@,
        None => " "@ + state_icon(state) + " ("@ + message_text(lang, "playback.idle"@) + ")  ["@ + mode_name
            + "]"@,
    }
}

fn append(s: &mut String, t: &str)
    ensures
        final(s)@ == old(s)@ + t@,
{
    s.append(t);
}

pub fn playback_label(
    lang: Language,
    state: PlayerState,
    track: Option<&TrackInfo>,
    position_ms: u64,
    mode: PlayMode,
) -> (r: String)
    ensures
        r@ == playback_label_text(
            lang,
            state,
            match track {
                Some(t) => Some(*t),
                None => None,
            },
            position_ms,
            mode,
        ),
{
    let mut r = String::new();
    append(&mut r, " ");
    append(&mut r, playback_icon(state));
    match track {
        Some(t) => {
            append(&mut r, " ");
            append(&mut r, t.artist.as_str());
            append(&mut r, " - ");
            append(&mut r, t.title.as_str());
            append(&mut r, "  [");
            let pos = format_duration(position_ms);
            append(&mut r, pos.as_str());
            append(&mut r, "/");
            let total = format_duration(t.total_duration_ms);
            append(&mut r, total.as_str());
            append(&mut r, "]  [");
        },
        None => {
            append(&mut r, " (");
            append(&mut r, tr(lang, "playback.idle"));
            append(&mut r, ")  [");
        },
    }
    let mode_name = mode.short_label(lang);
    append(&mut r, mode_name.as_str());
    append(&mut r, "]");
    proof {
        reveal_strlit(" ");
        reveal_strlit(" - ");
        reveal_strlit("  [");
        reveal_strlit("/");
        reveal_strlit("]  [");
        reveal_strlit(" (");
        reveal_strlit(")  [");
        reveal_strlit("]");
        reveal_strlit("");
        assert(r@ =~= playback_label_text(
            lang,
            state,
            match track {
                Some(t) => Some(*t),
                None => None,
            },
            position_ms,
            mode,
        ));
    }
    r
}

/// A lyric line as the bar's border shows it, for a bar `width` cells wide:
/// nothing for no line or an empty one; a line longer (in UTF-8 bytes) than
/// the width less 10 is cut to that many characters less 2 and ends with
/// `…`; a space stands on either side.
pub open spec fn lyric_caption_text(line: Option<Seq<char>>, width: u16) -> Seq<char> {
    match line {
        Some(s) => if s.len() == 0 {
            Seq::<char>::empty()
        } else {
            let max_len = sat_sub(width as int, 10);
            if encode_utf8(s).len() > max_len {
                let limit = sat_sub(max_len, 2);
                " "@ + s.take(min_int(limit, s.len() as int)) + "… "@
            } else {
                " "@ + s + " "@
            }
        },
        None => Seq::<char>::empty(),
    }
}

pub fn lyric_caption(line: Option<&str>, width: u16) -> (r: String)
    ensures
        r@ == lyric_caption_text(
            match line {
                Some(s) => Some(s@),
                None => None,
            },
            width,
        ),
{
    proof {
        reveal_strlit(" ");
        reveal_strlit("… ");
    }
    let s = match line {
        Some(s) => s,
        None => {
            return String::new();
        },
    };
    let chars = crate::text::chars_of(s);
    if chars.len() == 0 {
        return String::new();
    }
    let max_len: usize = if width >= 10 {
        (width - 10) as usize
    } else {
        0
    };
    let bytes = s.as_bytes_vec();
    let mut r = String::new();
    append(&mut r, " ");
    if bytes.len() > max_len {
        let limit: usize = if max_len >= 2 {
            max_len - 2
        } else {
            0
        };
        let end = if limit < chars.len() {
            limit
        } else {
            chars.len()
        };
        let head = crate::text::string_from(&chars, 0, end);
        append(&mut r, head.as_str());
        append(&mut r, "… ");
        proof {
            assert(chars@.subrange(0, end as int) =~= s@.take(end as int));
        }
    } else {
        append(&mut r, s);
        append(&mut r, " ");
    }
    r
}

/// The volume box of the bar.
pub fn volume_label(lang: Language, percent: u64) -> (r: String)
    ensures
        r@ == message_with(lang, "playback.volume"@, decimal(percent as nat)),
{
    let text = decimal_string(percent);
    crate::i18n::message1(lang, "playback.volume", text.as_str())
}

/// The title of a playlist's song view: the playlist's name, or with a
/// search the search-results text with the number of songs shown.
pub open spec fn playlist_title_text(lang: Language, query: Seq<char>, name: Seq<char>, count: nat) -> Seq<char> {
    if query.len() == 0 {
        " "@ + name + " "@
    } else {
        " "@ + fill_placeholders(message_text(lang, "view.search_results"@), seq![query, decimal(count)]) + " "@
    }
}

pub fn playlist_title(lang: Language, query: &str, name: &str, count: u64) -> (r: String)
    ensures
        r@ == playlist_title_text(lang, query@, name@, count as nat),
{
    proof {
        reveal_strlit(" ");
    }
    let mut r = String::new();
    append(&mut r, " ");
    if query.unicode_len() == 0 {
        append(&mut r, name);
    } else {
        let mut args: Vec<String> = Vec::new();
        args.push(String::from_str(query));
        args.push(decimal_string(count));
        proof {
            assert(strings_model(args@) =~= seq![query@, decimal(count as nat)]);
        }
        let text = tf(lang, "view.search_results", &args);
        append(&mut r, text.as_str());
    }
    append(&mut r, " ");
    r
}

} // verus!
