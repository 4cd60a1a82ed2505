//! Lyrics: the LRC parser, the lookup of the line (and translation) shown at
//! a playback position, and extraction of lyrics embedded in audio tags.

use lofty::file::TaggedFileExt;
use vstd::prelude::*;
use crate::text::{
    chars_of, find_char, line_bounds, lines, parse_u64, parse_u64_at, split_once, string_from,
    trim, trim_end, trim_end_index, trim_indices, utf8_len, utf8_len_at_least, all_digits, digits_value,
    digit_value, is_digit, index_of, lemma_index_of_at, trim_start, is_ws,
};

verus! {

/// A single timed lyric line.
#[derive(Debug)]
pub struct LyricLine {
    /// Timestamp in milliseconds.
    pub timestamp_ms: u64,
    /// The line text (empty for lines that hold only a timestamp).
    pub text: String,
}

/// Parsed lyrics.
#[derive(Debug)]
pub enum Lyrics {
    /// Plain text, no timestamps.
    Plain(String),
    /// Lines with millisecond timestamps.
    Timed(Vec<LyricLine>),
}

/// A timed line as a value: (timestamp in ms, text).
pub type LineModel = (u64, Seq<char>);

/// Lyrics as a value.
pub enum LyricsModel {
    Plain(Seq<char>),
    Timed(Seq<LineModel>),
}

impl View for LyricLine {
    type V = LineModel;

    open spec fn view(&self) -> LineModel {
        (self.timestamp_ms, self.text@)
    }
}

pub open spec fn lines_model(v: Seq<LyricLine>) -> Seq<LineModel> {
    v.map_values(|l: LyricLine| l@)
}

impl View for Lyrics {
    type V = LyricsModel;

    open spec fn view(&self) -> LyricsModel {
        match self {
            Lyrics::Plain(t) => LyricsModel::Plain(t@),
            Lyrics::Timed(l) => LyricsModel::Timed(lines_model(l@)),
        }
    }
}

impl Clone for LyricLine {
    fn clone(&self) -> (r: Self)
        ensures
            r@ == self@,
    {
        LyricLine { timestamp_ms: self.timestamp_ms, text: self.text.clone() }
    }
}

// ───────────────────────── timestamps ─────────────────────────

pub open spec fn two_pow_64() -> int {
    0x1_0000_0000_0000_0000
}

/// The value of an arithmetic expression as 64-bit wrapping arithmetic computes it.
pub open spec fn wrap64(x: int) -> u64 {
    (x % two_pow_64()) as u64
}

/// The centisecond field of an `mm:ss.xx` stamp: the text after the first `.`
/// up to the next `.` (`rest.split('.').nth(1)`).
pub open spec fn fraction_field(after: Seq<char>) -> Seq<char> {
    match split_once(after, '.') {
        Some((f, _)) => f,
        None => after,
    }
}

/// An LRC timestamp `mm:ss`, `mm:ss.xx` or `mm:ss.xxx` in milliseconds.
///
/// A fraction of three or more bytes counts in milliseconds, a shorter one in
/// centiseconds; the sum is computed with 64-bit wrapping arithmetic.
pub open spec fn lrc_timestamp(s: Seq<char>) -> Option<u64> {
    let s = trim(s);
    match split_once(s, ':') {
        None => None,
        Some((min_str, rest)) => match parse_u64(min_str) {
            None => None,
            Some(min) => match split_once(rest, '.') {
                Some((sec_str, after)) => match parse_u64(sec_str) {
                    None => None,
                    Some(sec) => {
                        let frac = fraction_field(after);
                        match parse_u64(trim_end(frac)) {
                            None => None,
                            Some(cent) => {
                                let mult: int = if utf8_len(frac) >= 3 {
                                    1
                                } else {
                                    10
                                };
                                Some(wrap64(min * 60000 + sec * 1000 + cent * mult))
                            },
                        }
                    },
                },
                None => match parse_u64(rest) {
                    None => None,
                    Some(sec) => Some(wrap64(min * 60000 + sec * 1000)),
                },
            },
        },
    }
}

proof fn lemma_wrapping_add(a: int, b: int)
    requires
        0 <= a,
        0 <= b,
    ensures
        (wrap64(a) + wrap64(b)) % two_pow_64() == a % two_pow_64() + b % two_pow_64()
            - (if a % two_pow_64() + b % two_pow_64() >= two_pow_64() {
            two_pow_64()
        } else {
            0
        }),
        vstd::wrapping::u64_specs::wrapping_add(wrap64(a), wrap64(b)) == wrap64(a + b),
{
    let m = two_pow_64();
    vstd::arithmetic::div_mod::lemma_mod_bound(a, m);
    vstd::arithmetic::div_mod::lemma_mod_bound(b, m);
    vstd::arithmetic::div_mod::lemma_add_mod_noop(a, b, m);
    let x = a % m;
    let y = b % m;
    if x + y >= m {
        vstd::arithmetic::div_mod::lemma_mod_adds(a, b, m);
        assert((x + y) % m == x + y - m) by {
            vstd::arithmetic::div_mod::lemma_fundamental_div_mod(x + y, m);
            vstd::arithmetic::div_mod::lemma_mod_bound(x + y, m);
            assert((x + y) / m == 1) by (nonlinear_arith)
                requires
                    m <= x + y < 2 * m,
                    x + y == m * ((x + y) / m) + (x + y) % m,
                    0 <= (x + y) % m < m,
            ;
        }
    } else {
        vstd::arithmetic::div_mod::lemma_small_mod((x + y) as nat, m as nat);
    }
}

proof fn lemma_wrapping_mul(a: u64, k: u64)
    ensures
        vstd::wrapping::u64_specs::wrapping_mul(a, k) == wrap64(a * k),
{
}

/// Parses the LRC timestamp held in the window `[lo, hi)`.
fn lrc_timestamp_at(v: &Vec<char>, lo: usize, hi: usize) -> (r: Option<u64>)
    requires
        lo <= hi <= v.len(),
    ensures
        r == lrc_timestamp(v@.subrange(lo as int, hi as int)),
{
    let ghost w = v@.subrange(lo as int, hi as int);
    let (a, b) = trim_indices(v, lo, hi);
    let ghost s = v@.subrange(a as int, b as int);
    let colon = match find_char(v, a, b, ':') {
        None => {
            return None;
        },
        Some(k) => k,
    };
    proof {
        assert(s.take(colon - a) =~= v@.subrange(a as int, colon as int));
        assert(s.skip(colon - a + 1) =~= v@.subrange(colon + 1, b as int));
    }
    let min = match parse_u64_at(v, a, colon) {
        None => {
            return None;
        },
        Some(m) => m,
    };
    let ghost rest = v@.subrange(colon + 1, b as int);
    match find_char(v, colon + 1, b, '.') {
        Some(dot) => {
            proof {
                assert(rest.take(dot - colon - 1) =~= v@.subrange(colon + 1, dot as int));
                assert(rest.skip(dot - colon) =~= v@.subrange(dot + 1, b as int));
            }
            let sec = match parse_u64_at(v, colon + 1, dot) {
                None => {
                    return None;
                },
                Some(x) => x,
            };
            let ghost after = v@.subrange(dot + 1, b as int);
            let fend = match find_char(v, dot + 1, b, '.') {
                Some(d2) => {
                    proof {
                        assert(after.take(d2 - dot - 1) =~= v@.subrange(dot + 1, d2 as int));
                    }
                    d2
                },
                None => b,
            };
            let tend = trim_end_index(v, dot + 1, fend);
            let cent = match parse_u64_at(v, dot + 1, tend) {
                None => {
                    return None;
                },
                Some(c) => c,
            };
            let mult: u64 = if utf8_len_at_least(v, dot + 1, fend, 3) {
                1
            } else {
                10
            };
            proof {
                lemma_wrapping_mul(min, 60000);
                lemma_wrapping_mul(sec, 1000);
                lemma_wrapping_mul(cent, mult);
                lemma_wrapping_add(min * 60000, sec * 1000);
                lemma_wrapping_add(min * 60000 + sec * 1000, cent * mult);
            }
            Some(min.wrapping_mul(60000).wrapping_add(sec.wrapping_mul(1000)).wrapping_add(
                cent.wrapping_mul(mult),
            ))
        },
        None => {
            let sec = match parse_u64_at(v, colon + 1, b) {
                None => {
                    return None;
                },
                Some(x) => x,
            };
            proof {
                lemma_wrapping_mul(min, 60000);
                lemma_wrapping_mul(sec, 1000);
                lemma_wrapping_add(min * 60000, sec * 1000);
            }
            Some(min.wrapping_mul(60000).wrapping_add(sec.wrapping_mul(1000)))
        },
    }
}

/// Parses an LRC timestamp (`mm:ss`, `mm:ss.xx`, `mm:ss.xxx`) into milliseconds.
pub fn parse_lrc_timestamp(s: &str) -> (r: Option<u64>)
    ensures
        r == lrc_timestamp(s@),
{
    let v = chars_of(s);
    proof {
        assert(v@.subrange(0, v@.len() as int) =~= s@);
    }
    lrc_timestamp_at(&v, 0, v.len())
}


// ───────────────────────── LRC lines ─────────────────────────

/// The timed line an LRC text line stands for: `[stamp]text`, with the stamp
/// and the text trimmed; `None` for any other line.
pub open spec fn lrc_entry(line: Seq<char>) -> Option<LineModel> {
    let l = trim(line);
    if l.len() > 0 && l[0] == '[' {
        match split_once(l.drop_first(), ']') {
            Some((ts, remaining)) => match lrc_timestamp(trim(ts)) {
                Some(ms) => Some((ms, trim(remaining))),
                None => None,
            },
            None => None,
        }
    } else {
        None
    }
}

/// The timed lines of a sequence of text lines, in text order.
pub open spec fn lrc_entries(ls: Seq<Seq<char>>) -> Seq<LineModel>
    decreases ls.len(),
{
    if ls.len() == 0 {
        seq![]
    } else {
        match lrc_entry(ls.last()) {
            Some(e) => lrc_entries(ls.drop_last()).push(e),
            None => lrc_entries(ls.drop_last()),
        }
    }
}

/// Position at which a line stamped `t` enters a list sorted by stamp,
/// after every line whose stamp is not greater (stable insertion).
pub open spec fn upper_bound(s: Seq<LineModel>, t: u64) -> nat
    decreases s.len(),
{
    if s.len() == 0 {
        0
    } else if s.last().0 > t {
        upper_bound(s.drop_last(), t)
    } else {
        s.len()
    }
}

/// Stable sort by timestamp (`sort_by_key(|l| l.timestamp_ms)`).
pub open spec fn sort_by_stamp(s: Seq<LineModel>) -> Seq<LineModel>
    decreases s.len(),
{
    if s.len() == 0 {
        s
    } else {
        let x = s.last();
        let sorted = sort_by_stamp(s.drop_last());
        sorted.insert(upper_bound(sorted, x.0) as int, x)
    }
}

pub open spec fn sorted_by_stamp(s: Seq<LineModel>) -> bool {
    forall|i: int, j: int| 0 <= i <= j < s.len() ==> s[i].0 <= s[j].0
}

/// The timed lines of an LRC text, sorted by timestamp; empty when the text
/// has no timestamped line.
pub open spec fn lrc_lines(text: Seq<char>) -> Seq<LineModel> {
    sort_by_stamp(lrc_entries(lines(text)))
}

proof fn lemma_upper_bound(s: Seq<LineModel>, t: u64)
    requires
        sorted_by_stamp(s),
    ensures
        upper_bound(s, t) <= s.len(),
        forall|i: int| 0 <= i < upper_bound(s, t) ==> s[i].0 <= t,
        forall|i: int| upper_bound(s, t) <= i < s.len() ==> s[i].0 > t,
    decreases s.len(),
{
    if s.len() > 0 {
        if s.last().0 > t {
            lemma_upper_bound(s.drop_last(), t);
            assert forall|i: int| upper_bound(s, t) <= i < s.len() implies s[i].0 > t by {
                if i < s.len() - 1 {
                    assert(s[i] == s.drop_last()[i]);
                }
            }
            assert forall|i: int| 0 <= i < upper_bound(s, t) implies s[i].0 <= t by {
                assert(s[i] == s.drop_last()[i]);
            }
        }
    }
}

/// Stable sorting yields a list sorted by timestamp that holds the same lines.
pub proof fn lemma_sort_by_stamp(s: Seq<LineModel>)
    ensures
        sorted_by_stamp(sort_by_stamp(s)),
        sort_by_stamp(s).to_multiset() == s.to_multiset(),
        sort_by_stamp(s).len() == s.len(),
    decreases s.len(),
{
    if s.len() > 0 {
        let x = s.last();
        let sorted = sort_by_stamp(s.drop_last());
        lemma_sort_by_stamp(s.drop_last());
        lemma_upper_bound(sorted, x.0);
        let p = upper_bound(sorted, x.0) as int;
        let r = sorted.insert(p, x);
        assert forall|i: int, j: int| 0 <= i <= j < r.len() implies r[i].0 <= r[j].0 by {
            if i < p && j < p {
                assert(r[i] == sorted[i] && r[j] == sorted[j]);
            } else if i < p && j == p {
                assert(r[i] == sorted[i]);
            } else if i < p {
                assert(r[i] == sorted[i] && r[j] == sorted[j - 1]);
            } else if i == p && j > p {
                assert(r[j] == sorted[j - 1]);
            } else if i > p {
                assert(r[i] == sorted[i - 1] && r[j] == sorted[j - 1]);
            }
        }
        vstd::seq_lib::lemma_seq_union_to_multiset_commutative::<LineModel>(
            s.drop_last(),
            seq![x],
        );
        assert(s =~= s.drop_last() + seq![x]);
        vstd::seq_lib::lemma_multiset_commutative(s.drop_last(), seq![x]);
        assert(r =~= sorted.take(p) + seq![x] + sorted.skip(p));
        vstd::seq_lib::lemma_multiset_commutative(sorted.take(p) + seq![x], sorted.skip(p));
        vstd::seq_lib::lemma_multiset_commutative(sorted.take(p), seq![x]);
        vstd::seq_lib::lemma_multiset_commutative(sorted.take(p), sorted.skip(p));
        assert(sorted =~= sorted.take(p) + sorted.skip(p));
    }
}

/// Inserts `line` into `out` (sorted by stamp) after every line with a stamp
/// that is not greater.
fn insert_by_stamp(out: &mut Vec<LyricLine>, line: LyricLine)
    ensures
        lines_model(final(out)@) == ({
            let s = lines_model(old(out)@);
            s.insert(upper_bound(s, line.timestamp_ms) as int, line@)
        }),
{
    let t = line.timestamp_ms;
    let ghost s = lines_model(out@);
    let mut p = out.len();
    assert(s.take(p as int) =~= s);
    while p > 0 && out[p - 1].timestamp_ms > t
        invariant
            p <= out.len(),
            s == lines_model(out@),
            upper_bound(s, t) == upper_bound(s.take(p as int), t),
        decreases p,
    {
        proof {
            assert(s.take(p as int).drop_last() =~= s.take(p - 1));
            assert(s.take(p as int).last() == s[p - 1]);
        }
        p = p - 1;
    }
    proof {
        if p > 0 {
            assert(s.take(p as int).last() == s[p - 1]);
        }
    }
    out.insert(p, line);
    proof {
        assert(lines_model(out@) =~= s.insert(p as int, line@));
    }
}

/// The timed lines of an LRC text: every line of the form `[mm:ss.xx]text`
/// (stamp and text trimmed), stably sorted by timestamp; lines of any other
/// form are skipped.
pub fn parse_lrc_lines(text: &str) -> (r: Vec<LyricLine>)
    ensures
        lines_model(r@) == lrc_lines(text@),
        sorted_by_stamp(lines_model(r@)),
        lines_model(r@).to_multiset() == lrc_entries(lines(text@)).to_multiset(),
{
    let v = chars_of(text);
    proof {
        assert(v@.subrange(0, v@.len() as int) =~= text@);
    }
    let bounds = line_bounds(&v, 0, v.len());
    let ghost ls = lines(text@);
    let mut out: Vec<LyricLine> = Vec::new();
    let mut k: usize = 0;
    while k < bounds.len()
        invariant
            v@ == text@,
            ls == lines(v@.subrange(0, v@.len() as int)),
            bounds@.len() == ls.len(),
            forall|j: int|
                #![trigger bounds@[j]]
                0 <= j < bounds@.len() ==> 0 <= bounds@[j].0 <= bounds@[j].1 <= v@.len()
                    && v@.subrange(bounds@[j].0 as int, bounds@[j].1 as int) == ls[j],
            k <= bounds.len(),
            lines_model(out@) == sort_by_stamp(lrc_entries(ls.take(k as int))),
        decreases bounds.len() - k,
    {
        let (lo, hi) = bounds[k];
        let ghost line = ls[k as int];
        let (a, b) = trim_indices(&v, lo, hi);
        let ghost l = v@.subrange(a as int, b as int);
        assert(ls.take(k + 1).drop_last() =~= ls.take(k as int));
        assert(ls.take(k + 1).last() == line);
        let mut entry: Option<LyricLine> = None;
        if a < b && v[a] == '[' {
            assert(l[0] == v@[a as int]);
            assert(l.drop_first() =~= v@.subrange(a + 1, b as int));
            match find_char(&v, a + 1, b, ']') {
                Some(close) => {
                    let ghost rest = l.drop_first();
                    assert(rest.take(close - a - 1) =~= v@.subrange(a + 1, close as int));
                    assert(rest.skip(close - a) =~= v@.subrange(close + 1, b as int));
                    let (c, d) = trim_indices(&v, a + 1, close);
                    match lrc_timestamp_at(&v, c, d) {
                        Some(ms) => {
                            let (e, f) = trim_indices(&v, close + 1, b);
                            let t = string_from(&v, e, f);
                            entry = Some(LyricLine { timestamp_ms: ms, text: t });
                        },
                        None => {},
                    }
                },
                None => {},
            }
        }
        assert(match entry {
            Some(x) => lrc_entry(line) == Some(x@),
            None => lrc_entry(line) is None,
        });
        match entry {
            Some(x) => {
                let ghost e = x@;
                insert_by_stamp(&mut out, x);
                proof {
                    let prev = lrc_entries(ls.take(k as int));
                    assert(lrc_entries(ls.take(k + 1)) == prev.push(e));
                    assert(prev.push(e).drop_last() =~= prev);
                }
            },
            None => {
                assert(lrc_entries(ls.take(k + 1)) == lrc_entries(ls.take(k as int)));
            },
        }
        k = k + 1;
    }
    proof {
        assert(ls.take(k as int) =~= ls);
        assert(v@.subrange(0, v@.len() as int) =~= v@);
        lemma_sort_by_stamp(lrc_entries(ls));
    }
    out
}


// ───────────────────────── whole lyrics ─────────────────────────

/// The lyrics a text stands for: timed when at least one line carries an LRC
/// timestamp, plain (the trimmed text) otherwise.
pub open spec fn lyrics_of_text(text: Seq<char>) -> LyricsModel {
    let t = trim(text);
    if t.len() == 0 {
        LyricsModel::Plain(seq![])
    } else if lrc_lines(t).len() > 0 {
        LyricsModel::Timed(lrc_lines(t))
    } else {
        LyricsModel::Plain(t)
    }
}

/// Number of lines: text lines of plain lyrics, timed lines otherwise.
pub open spec fn model_len(m: LyricsModel) -> nat {
    match m {
        LyricsModel::Plain(t) => lines(t).len(),
        LyricsModel::Timed(l) => l.len(),
    }
}

/// Parses lyrics text that may be in LRC format or plain text.
pub fn parse_lyrics_text(text: &str) -> (r: Lyrics)
    ensures
        r@ == lyrics_of_text(text@),
{
    let v = chars_of(text);
    let (a, b) = trim_indices(&v, 0, v.len());
    proof {
        assert(v@.subrange(0, v@.len() as int) =~= text@);
    }
    if a == b {
        return Lyrics::Plain(String::new());
    }
    let t = string_from(&v, a, b);
    let timed = parse_lrc_lines(t.as_str());
    if timed.len() > 0 {
        Lyrics::Timed(timed)
    } else {
        Lyrics::Plain(t)
    }
}

/// Lyrics parsed from a text, or `None` when they have no line.
pub open spec fn nonempty_lyrics(text: Seq<char>) -> Option<LyricsModel> {
    if model_len(lyrics_of_text(text)) > 0 {
        Some(lyrics_of_text(text))
    } else {
        None
    }
}

pub open spec fn opt_lyrics_model(o: Option<Lyrics>) -> Option<LyricsModel> {
    match o {
        Some(l) => Some(l@),
        None => None,
    }
}

/// Lyrics parsed from a text, or `None` when the parse has no line.
pub fn lyrics_from_text(text: &str) -> (r: Option<Lyrics>)
    ensures
        opt_lyrics_model(r) == nonempty_lyrics(text@),
{
    let parsed = parse_lyrics_text(text);
    if parsed.is_empty() {
        None
    } else {
        Some(parsed)
    }
}

/// The lyrics text stored in the primary tag of an audio file (ID3v2 USLT,
/// Vorbis `LYRICS=`, ...), as lofty reads it from the file's bytes.
pub uninterp spec fn embedded_lyrics_text(data: Seq<u8>) -> Option<Seq<char>>;

pub open spec fn opt_string_view(o: Option<String>) -> Option<Seq<char>> {
    match o {
        Some(s) => Some(s@),
        None => None,
    }
}

/// Reads the lyrics item of the primary tag with lofty
/// (`Probe::guess_file_type`, `Probe::read`, `TaggedFileExt::primary_tag`,
/// `Tag::get_string(ItemKey::Lyrics)`). The contract only names the result:
/// what lofty finds in the bytes is not stated here. lofty documents invalid
/// data as an error (`None` here) and a panic only for an unregistered custom
/// file type, which `guess_file_type` never yields without a registered
/// resolver; none is registered.
#[verifier::external_body]
fn read_embedded_lyrics(data: &[u8]) -> (r: Option<String>)
    ensures
        opt_string_view(r) == embedded_lyrics_text(data@),
{
    let probe = lofty::probe::Probe::new(std::io::Cursor::new(data)).guess_file_type().ok()?;
    let file = probe.read().ok()?;
    let tag = file.primary_tag()?;
    tag.get_string(lofty::prelude::ItemKey::Lyrics).map(|s| s.to_string())
}

/// Embedded lyrics of an audio file (MP3, FLAC, ...), or `None` when the file
/// has no lyrics item or the item parses to nothing.
pub fn extract_lyrics(data: &[u8]) -> (r: Option<Lyrics>)
    ensures
        opt_lyrics_model(r) == (match embedded_lyrics_text(data@) {
            Some(t) => nonempty_lyrics(t),
            None => None,
        }),
{
    match read_embedded_lyrics(data) {
        Some(text) => lyrics_from_text(text.as_str()),
        None => None,
    }
}

// ───────────────────────── lookup by position ─────────────────────────

/// A same-line original/translation pair split at `sep`, both halves
/// trimmed; `None` when there is no `sep` or both halves are empty.
pub open spec fn split_at_separator(t: Seq<char>, sep: char) -> Option<(Seq<char>, Seq<char>)> {
    match split_once(t, sep) {
        Some((l, r)) => {
            let (l2, r2) = (trim(l), trim(r));
            if l2.len() > 0 || r2.len() > 0 {
                Some((l2, r2))
            } else {
                None
            }
        },
        None => None,
    }
}

/// A line split into (original, translation) at a tab, or else at a thin
/// space (U+2009).
pub open spec fn orig_trans(t: Seq<char>) -> Option<(Seq<char>, Seq<char>)> {
    match split_at_separator(t, '\t') {
        Some(p) => Some(p),
        None => split_at_separator(t, '\u{2009}'),
    }
}

fn split_at_sep<'a>(text: &'a str, v: &Vec<char>, sep: char) -> (r: Option<(&'a str, &'a str)>)
    requires
        v@ == text@,
    ensures
        match r {
            Some((l, rr)) => split_at_separator(text@, sep) == Some((l@, rr@)),
            None => split_at_separator(text@, sep) is None,
        },
{
    let n = v.len();
    proof {
        assert(v@.subrange(0, n as int) =~= text@);
    }
    match find_char(v, 0, n, sep) {
        Some(k) => {
            proof {
                assert(text@.take(k as int) =~= v@.subrange(0, k as int));
                assert(text@.skip(k + 1) =~= v@.subrange(k + 1, n as int));
            }
            let (a, b) = trim_indices(v, 0, k);
            let (c, d) = trim_indices(v, k + 1, n);
            if a < b || c < d {
                Some((text.substring_char(a, b), text.substring_char(c, d)))
            } else {
                None
            }
        },
        None => None,
    }
}

/// Splits a lyric line into (original, translation) if it contains a
/// recognised separator (tab or thin space).
pub fn split_orig_trans(text: &str) -> (r: Option<(&str, &str)>)
    ensures
        match r {
            Some((l, rr)) => orig_trans(text@) == Some((l@, rr@)),
            None => orig_trans(text@) is None,
        },
{
    let v = chars_of(text);
    match split_at_sep(text, &v, '\t') {
        Some(p) => Some(p),
        None => split_at_sep(text, &v, '\u{2009}'),
    }
}

/// What is shown after some lines: (original, translation, stamp of the group).
pub type ShownModel = (Option<Seq<char>>, Option<Seq<char>>, Option<u64>);

/// How one more line changes what is shown: a same-line pair replaces both
/// texts; a line with a new stamp starts a group with no translation; a further
/// line with the same stamp is the translation.
pub open spec fn shown_step(st: ShownModel, line: LineModel) -> ShownModel {
    match orig_trans(line.1) {
        Some((l, r)) => (
            Some(
                if l.len() == 0 {
                    r
                } else {
                    l
                },
            ),
            Some(
                if r.len() == 0 {
                    l
                } else {
                    r
                },
            ),
            Some(line.0),
        ),
        None => if Some(line.0) != st.2 {
            (Some(line.1), None, Some(line.0))
        } else {
            (st.0, Some(line.1), st.2)
        },
    }
}

/// What is shown after the first `k` lines.
pub open spec fn shown_after(ls: Seq<LineModel>, k: nat) -> ShownModel
    decreases k,
{
    if k == 0 || k > ls.len() {
        (None, None, None)
    } else {
        shown_step(shown_after(ls, (k - 1) as nat), ls[k - 1])
    }
}

/// Number of leading lines whose stamp is at most `pos`.
pub open spec fn lines_reached(ls: Seq<LineModel>, pos: u64) -> nat
    decreases ls.len(),
{
    if ls.len() == 0 || ls[0].0 > pos {
        0
    } else {
        1 + lines_reached(ls.drop_first(), pos)
    }
}

proof fn lemma_lines_reached(ls: Seq<LineModel>, pos: u64, k: nat)
    requires
        k <= ls.len(),
        forall|j: int| 0 <= j < k ==> ls[j].0 <= pos,
        k < ls.len() ==> ls[k as int].0 > pos,
    ensures
        lines_reached(ls, pos) == k,
    decreases k,
{
    if k > 0 {
        let t = ls.drop_first();
        assert forall|j: int| 0 <= j < k - 1 implies t[j].0 <= pos by {
            assert(t[j] == ls[j + 1]);
        }
        if k < ls.len() {
            assert(t[k - 1] == ls[k as int]);
        }
        lemma_lines_reached(t, pos, (k - 1) as nat);
    }
}

/// (original, translation) shown at a playback position: plain lyrics show
/// their first line when it is not empty; timed lyrics are read up to the last
/// line whose stamp is not after the position.
pub open spec fn lines_at_model(m: LyricsModel, pos: u64) -> (Option<Seq<char>>, Option<Seq<char>>) {
    match m {
        LyricsModel::Plain(t) => (
            if lines(t).len() > 0 && lines(t)[0].len() > 0 {
                Some(lines(t)[0])
            } else {
                None
            },
            None,
        ),
        LyricsModel::Timed(ls) => {
            let st = shown_after(ls, lines_reached(ls, pos));
            (st.0, st.1)
        },
    }
}

pub open spec fn opt_str_view(o: Option<&str>) -> Option<Seq<char>> {
    match o {
        Some(s) => Some(s@),
        None => None,
    }
}

impl Lyrics {
    /// Number of lines.
    pub fn len(&self) -> (r: usize)
        ensures
            r == model_len(self@),
    {
        match self {
            Lyrics::Plain(t) => {
                let v = chars_of(t.as_str());
                proof {
                    assert(v@.subrange(0, v@.len() as int) =~= t@);
                }
                line_bounds(&v, 0, v.len()).len()
            },
            Lyrics::Timed(l) => l.len(),
        }
    }

    pub fn is_empty(&self) -> (r: bool)
        ensures
            r == (model_len(self@) == 0),
    {
        self.len() == 0
    }

    /// Return (original, translation) at the given position.
    ///
    /// Supports two layouts:
    ///   - Two lines sharing the same timestamp: the first is the original,
    ///     the second the translation.
    ///   - A single line holding a tab or thin space: the text before it is
    ///     the original, the text after it the translation.
    pub fn lines_at(&self, position_ms: u64) -> (r: (Option<&str>, Option<&str>))
        ensures
            (opt_str_view(r.0), opt_str_view(r.1)) == lines_at_model(self@, position_ms),
    {
        match self {
            Lyrics::Plain(text) => {
                let t = text.as_str();
                let v = chars_of(t);
                proof {
                    assert(v@.subrange(0, v@.len() as int) =~= t@);
                }
                let bounds = line_bounds(&v, 0, v.len());
                if bounds.len() > 0 && bounds[0].0 < bounds[0].1 {
                    (Some(t.substring_char(bounds[0].0, bounds[0].1)), None)
                } else {
                    (None, None)
                }
            },
            Lyrics::Timed(lines) => {
                let ghost ls = lines_model(lines@);
                let mut original: Option<&str> = None;
                let mut translation: Option<&str> = None;
                let mut current_ts: Option<u64> = None;
                let mut i: usize = 0;
                proof {
                    if lines.len() == 0 {
                        lemma_lines_reached(ls, position_ms, 0);
                    }
                }
                while i < lines.len()
                    invariant_except_break
                        i <= lines.len(),
                        ls == lines_model(lines@),
                        forall|j: int| 0 <= j < i ==> ls[j].0 <= position_ms,
                        i == lines.len() ==> lines_reached(ls, position_ms) == i,
                        (opt_str_view(original), opt_str_view(translation), current_ts)
                            == shown_after(ls, i as nat),
                    ensures
                        i <= lines.len(),
                        ls == lines_model(lines@),
                        lines_reached(ls, position_ms) == i,
                        (opt_str_view(original), opt_str_view(translation), current_ts)
                            == shown_after(ls, i as nat),
                    decreases lines.len() - i,
                {
                    let line = &lines[i];
                    if line.timestamp_ms > position_ms {
                        proof {
                            lemma_lines_reached(ls, position_ms, i as nat);
                        }
                        break;
                    }
                    let ghost prev = (opt_str_view(original), opt_str_view(translation), current_ts);
                    assert(ls[i as int] == line@);
                    match split_orig_trans(line.text.as_str()) {
                        Some((left, right)) => {
                            current_ts = Some(line.timestamp_ms);
                            original = Some(
                                if left.unicode_len() == 0 {
                                    right
                                } else {
                                    left
                                },
                            );
                            translation = Some(
                                if right.unicode_len() == 0 {
                                    left
                                } else {
                                    right
                                },
                            );
                        },
                        None => {
                            let same = match current_ts {
                                Some(c) => c == line.timestamp_ms,
                                None => false,
                            };
                            if !same {
                                current_ts = Some(line.timestamp_ms);
                                original = Some(line.text.as_str());
                                translation = None;
                            } else {
                                translation = Some(line.text.as_str());
                            }
                        },
                    }
                    proof {
                        assert(shown_after(ls, (i + 1) as nat) == shown_step(prev, ls[i as int]));
                    }
                    i = i + 1;
                    if i == lines.len() {
                        proof {
                            lemma_lines_reached(ls, position_ms, i as nat);
                        }
                    }
                }
                (original, translation)
            },
        }
    }
}


// ───────────────────────── online lyrics search ─────────────────────────

/// The query of an online lyrics search: the trimmed title and the trimmed
/// artist (the title again when there is no artist); no search for a blank
/// title.
pub fn lyrics_query(title: &str, artist: &str) -> (r: Option<(String, String)>)
    ensures
        match r {
            Some((t, a)) => trim(title@).len() > 0 && t@ == trim(title@) && a@ == (if trim(artist@).len()
                == 0 {
                trim(title@)
            } else {
                trim(artist@)
            }),
            None => trim(title@).len() == 0,
        },
{
    let t = crate::text::trim_str(title);
    if t.unicode_len() == 0 {
        return None;
    }
    let a = crate::text::trim_str(artist);
    let a2 = if a.unicode_len() == 0 {
        t
    } else {
        a
    };
    Some((String::from_str(t), String::from_str(a2)))
}

/// The lyrics of a search result: its synced lyrics, else its plain lyrics,
/// parsed; none when it has neither or they parse to nothing.
pub fn lyrics_from_result(synced: Option<String>, plain: Option<String>) -> (r: Option<Lyrics>)
    ensures
        opt_lyrics_model(r) == (match synced {
            Some(s) => nonempty_lyrics(s@),
            None => match plain {
                Some(p) => nonempty_lyrics(p@),
                None => None,
            },
        }),
{
    match synced {
        Some(s) => lyrics_from_text(s.as_str()),
        None => match plain {
            Some(p) => lyrics_from_text(p.as_str()),
            None => None,
        },
    }
}


// ───────────────────────── laws of timestamps and lookup ─────────────────────────

proof fn lemma_digit_not_ws(c: char)
    requires
        is_digit(c),
    ensures
        !is_ws(c),
        c != ':',
        c != '.',
        c != '+',
{
}

proof fn lemma_no_ws_ends(s: Seq<char>)
    requires
        s.len() > 0,
        !is_ws(s[0]),
        !is_ws(s.last()),
    ensures
        trim(s) == s,
{
    assert(trim_start(s) == s);
}

proof fn lemma_digits_parse(d: Seq<char>)
    requires
        d.len() > 0,
        all_digits(d),
        digits_value(d) <= u64::MAX,
    ensures
        parse_u64(d) == Some(digits_value(d) as u64),
{
    lemma_digit_not_ws(d[0]);
}

proof fn lemma_digits_no_char(d: Seq<char>, c: char)
    requires
        all_digits(d),
        !is_digit(c),
    ensures
        index_of(d, c) == -1,
{
    assert forall|j: int| 0 <= j < d.len() implies d[j] != c by {
        assert(is_digit(d[j]));
    }
    lemma_index_of_at(d, c, d.len() as int);
}

proof fn lemma_wrap_small(x: int)
    requires
        0 <= x < two_pow_64(),
    ensures
        wrap64(x) == x as u64,
{
    vstd::arithmetic::div_mod::lemma_small_mod(x as nat, two_pow_64() as nat);
}

/// One minute is 60000 ms and one second 1000 ms in every stamp form:
/// `m:s` is m minutes and s seconds, and `m:s.xy` adds xy hundredths of a
/// second (for decimal m, s, x, y whose total fits in 64 bits).
pub proof fn lemma_stamp_minutes(dm: Seq<char>, ds: Seq<char>, x: char, y: char)
    requires
        dm.len() > 0,
        all_digits(dm),
        ds.len() > 0,
        all_digits(ds),
        is_digit(x),
        is_digit(y),
        digits_value(dm) * 60000 + digits_value(ds) * 1000 + 990 <= u64::MAX,
    ensures
        lrc_timestamp(dm + seq![':'] + ds) == Some((digits_value(dm) * 60000 + digits_value(ds) * 1000) as u64),
        lrc_timestamp(dm + seq![':'] + ds + seq!['.', x, y]) == Some(
            (digits_value(dm) * 60000 + digits_value(ds) * 1000 + (digit_value(x) * 10 + digit_value(y)) * 10) as u64,
        ),
{
    let m = digits_value(dm);
    let sv = digits_value(ds);
    assert(is_digit(dm[0]));
    assert(is_digit(ds[ds.len() - 1]));
    lemma_digit_not_ws(dm[0]);
    lemma_digit_not_ws(ds.last());
    assert(m <= u64::MAX) by (nonlinear_arith)
        requires
            m * 60000 + sv * 1000 + 990 <= u64::MAX,
            sv >= 0,
    ;
    assert(sv <= u64::MAX) by (nonlinear_arith)
        requires
            m * 60000 + sv * 1000 + 990 <= u64::MAX,
            m >= 0,
    ;
    lemma_digits_parse(dm);
    lemma_digits_parse(ds);
    lemma_digits_no_char(ds, '.');
    // `m:s`
    let s1 = dm + seq![':'] + ds;
    assert(s1[0] == dm[0]);
    assert(s1.last() == ds.last());
    lemma_no_ws_ends(s1);
    assert forall|j: int| 0 <= j < dm.len() implies s1[j] != ':' by {
        assert(s1[j] == dm[j]);
        assert(is_digit(dm[j]));
    }
    lemma_index_of_at(s1, ':', dm.len() as int);
    assert(s1.take(dm.len() as int) =~= dm);
    assert(s1.skip(dm.len() as int + 1) =~= ds);
    lemma_wrap_small((m * 60000 + sv * 1000) as int);
    // `m:s.xy`
    let xy = seq![x, y];
    let rest = ds + seq!['.', x, y];
    let s2 = dm + seq![':'] + rest;
    assert(s2 =~= dm + seq![':'] + ds + seq!['.', x, y]);
    assert(s2[0] == dm[0]);
    assert(s2.last() == y);
    lemma_digit_not_ws(y);
    lemma_digit_not_ws(x);
    lemma_no_ws_ends(s2);
    assert forall|j: int| 0 <= j < dm.len() implies s2[j] != ':' by {
        assert(s2[j] == dm[j]);
        assert(is_digit(dm[j]));
    }
    lemma_index_of_at(s2, ':', dm.len() as int);
    assert(s2.take(dm.len() as int) =~= dm);
    assert(s2.skip(dm.len() as int + 1) =~= rest);
    assert forall|j: int| 0 <= j < ds.len() implies rest[j] != '.' by {
        assert(rest[j] == ds[j]);
        assert(is_digit(ds[j]));
    }
    lemma_index_of_at(rest, '.', ds.len() as int);
    assert(rest.take(ds.len() as int) =~= ds);
    assert(rest.skip(ds.len() as int + 1) =~= xy);
    assert(all_digits(xy));
    lemma_digits_no_char(xy, '.');
    assert(fraction_field(xy) == xy);
    assert(xy.drop_last() =~= seq![x]);
    assert(seq![x].drop_last() =~= Seq::<char>::empty());
    assert(trim_end(xy) == xy);
    assert(digits_value(seq![x]) == digit_value(x)) by {
        reveal_with_fuel(digits_value, 2);
    }
    assert(digits_value(xy) == digit_value(x) * 10 + digit_value(y));
    assert(utf8_len(seq![x]) == 1) by {
        reveal_with_fuel(utf8_len, 2);
    }
    assert(utf8_len(xy) == 2);
    assert(digit_value(x) * 10 + digit_value(y) <= 99);
    lemma_digits_parse(xy);
    lemma_wrap_small((m * 60000 + sv * 1000 + (digit_value(x) * 10 + digit_value(y)) * 10) as int);
}

/// A three-digit fraction counts in milliseconds: `m:s.xyz` is m minutes,
/// s seconds and xyz ms.
pub proof fn lemma_stamp_millis(dm: Seq<char>, ds: Seq<char>, x: char, y: char, z: char)
    requires
        dm.len() > 0,
        all_digits(dm),
        ds.len() > 0,
        all_digits(ds),
        is_digit(x),
        is_digit(y),
        is_digit(z),
        digits_value(dm) * 60000 + digits_value(ds) * 1000 + 999 <= u64::MAX,
    ensures
        lrc_timestamp(dm + seq![':'] + ds + seq!['.', x, y, z]) == Some(
            (digits_value(dm) * 60000 + digits_value(ds) * 1000 + digit_value(x) * 100 + digit_value(y) * 10
                + digit_value(z)) as u64,
        ),
{
    let m = digits_value(dm);
    let sv = digits_value(ds);
    assert(is_digit(dm[0]));
    lemma_digit_not_ws(dm[0]);
    lemma_digit_not_ws(x);
    lemma_digit_not_ws(y);
    lemma_digit_not_ws(z);
    assert(m <= u64::MAX) by (nonlinear_arith)
        requires
            m * 60000 + sv * 1000 + 999 <= u64::MAX,
            sv >= 0,
    ;
    assert(sv <= u64::MAX) by (nonlinear_arith)
        requires
            m * 60000 + sv * 1000 + 999 <= u64::MAX,
            m >= 0,
    ;
    lemma_digits_parse(dm);
    lemma_digits_parse(ds);
    let f = seq![x, y, z];
    let rest = ds + seq!['.', x, y, z];
    let s2 = dm + seq![':'] + rest;
    assert(s2 =~= dm + seq![':'] + ds + seq!['.', x, y, z]);
    assert(s2[0] == dm[0]);
    assert(s2.last() == z);
    lemma_no_ws_ends(s2);
    assert forall|j: int| 0 <= j < dm.len() implies s2[j] != ':' by {
        assert(s2[j] == dm[j]);
        assert(is_digit(dm[j]));
    }
    lemma_index_of_at(s2, ':', dm.len() as int);
    assert(s2.take(dm.len() as int) =~= dm);
    assert(s2.skip(dm.len() as int + 1) =~= rest);
    assert forall|j: int| 0 <= j < ds.len() implies rest[j] != '.' by {
        assert(rest[j] == ds[j]);
        assert(is_digit(ds[j]));
    }
    lemma_index_of_at(rest, '.', ds.len() as int);
    assert(rest.take(ds.len() as int) =~= ds);
    assert(rest.skip(ds.len() as int + 1) =~= f);
    assert(all_digits(f));
    lemma_digits_no_char(f, '.');
    assert(fraction_field(f) == f);
    assert(f.drop_last() =~= seq![x, y]);
    assert(seq![x, y].drop_last() =~= seq![x]);
    assert(seq![x].drop_last() =~= Seq::<char>::empty());
    assert(trim_end(f) == f);
    assert(digits_value(seq![x]) == digit_value(x)) by {
        reveal_with_fuel(digits_value, 2);
    }
    assert(digits_value(seq![x, y]) == digit_value(x) * 10 + digit_value(y));
    assert(digits_value(f) == (digit_value(x) * 10 + digit_value(y)) * 10 + digit_value(z));
    assert(utf8_len(seq![x]) == 1) by {
        reveal_with_fuel(utf8_len, 2);
    }
    assert(utf8_len(seq![x, y]) == 2);
    assert(utf8_len(f) == 3);
    assert(digits_value(f) <= 999);
    lemma_digits_parse(f);
    lemma_wrap_small(
        (m * 60000 + sv * 1000 + digit_value(x) * 100 + digit_value(y) * 10 + digit_value(z)) as int,
    );
}

/// What is shown after the first `j` lines always carries the stamp of the
/// `j`-th line.
proof fn lemma_shown_stamp(ls: Seq<LineModel>, j: nat)
    requires
        0 < j <= ls.len(),
    ensures
        shown_after(ls, j).2 == Some(ls[j - 1].0),
    decreases j,
{
    if j > 1 {
        lemma_shown_stamp(ls, (j - 1) as nat);
    }
}

/// At a playback position, the lines reached are those whose stamp is not
/// after it. When the last of them has no separator and starts a new stamp
/// (or is the first line), it is shown alone: no translation of an earlier
/// line stays under it.
pub proof fn lemma_new_stamp_clears_translation(ls: Seq<LineModel>, pos: u64, k: nat)
    requires
        0 < k <= ls.len(),
        forall|j: int| 0 <= j < k ==> ls[j].0 <= pos,
        k < ls.len() ==> ls[k as int].0 > pos,
        orig_trans(ls[k - 1].1) is None,
        k == 1 || ls[k - 2].0 != ls[k - 1].0,
    ensures
        lines_at_model(LyricsModel::Timed(ls), pos) == (Some(ls[k - 1].1), None::<Seq<char>>),
{
    lemma_lines_reached(ls, pos, k);
    if k > 1 {
        lemma_shown_stamp(ls, (k - 1) as nat);
    }
}

/// Two lines with one stamp, neither holding a separator, show as the
/// original (the first) over its translation (the second), once the
/// position has reached the second and not the line after it.
pub proof fn lemma_same_stamp_pair(ls: Seq<LineModel>, pos: u64, k: nat)
    requires
        1 < k <= ls.len(),
        forall|j: int| 0 <= j < k ==> ls[j].0 <= pos,
        k < ls.len() ==> ls[k as int].0 > pos,
        orig_trans(ls[k - 2].1) is None,
        orig_trans(ls[k - 1].1) is None,
        k == 2 || ls[k - 3].0 != ls[k - 2].0,
        ls[k - 2].0 == ls[k - 1].0,
    ensures
        lines_at_model(LyricsModel::Timed(ls), pos) == (Some(ls[k - 2].1), Some(ls[k - 1].1)),
{
    lemma_lines_reached(ls, pos, k);
    if k > 2 {
        lemma_shown_stamp(ls, (k - 2) as nat);
    }
    let b = shown_after(ls, (k - 1) as nat);
    assert(b == shown_step(shown_after(ls, (k - 2) as nat), ls[k - 2]));
    assert(b == (Some(ls[k - 2].1), None::<Seq<char>>, Some(ls[k - 2].0)));
    assert(shown_after(ls, k) == shown_step(b, ls[k - 1]));
}

/// A line holding a tab or thin space shows its two halves, whatever came
/// before it (a blank half shows the other one).
pub proof fn lemma_separated_line(ls: Seq<LineModel>, pos: u64, k: nat, l: Seq<char>, r: Seq<char>)
    requires
        0 < k <= ls.len(),
        forall|j: int| 0 <= j < k ==> ls[j].0 <= pos,
        k < ls.len() ==> ls[k as int].0 > pos,
        orig_trans(ls[k - 1].1) == Some((l, r)),
    ensures
        lines_at_model(LyricsModel::Timed(ls), pos) == (
            Some(if l.len() == 0 { r } else { l }),
            Some(if r.len() == 0 { l } else { r }),
        ),
{
    lemma_lines_reached(ls, pos, k);
}

} // verus!
