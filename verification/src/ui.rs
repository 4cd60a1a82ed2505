//! The browsing model of the user interface: the song list with its search
//! filter, artist filter and sort order, the album-grouped display list, the
//! playlists, and the selection in each view.
//!
//! Drawing and terminal input belong to the program; this module keeps the
//! state they read and the rules by which it changes.

use vstd::prelude::*;
use crate::i18n::{fill_placeholders, message_text, strings_model, tf, tr, Language};
use crate::player::Playback;
use crate::server::{Backend, MusicEntry, ServerConfig};
use crate::text::{contains_text, lowercase, str_contains, to_lowercase, trim, trim_str};

verus! {

// ───────────────────────── data types ─────────────────────────

#[derive(Debug)]
pub struct Playlist {
    pub name: String,
    pub songs: Vec<MusicEntry>,
}

impl Clone for Playlist {
    fn clone(&self) -> (r: Self)
        ensures
            r.name == self.name,
            r.songs@ == self.songs@,
    {
        let mut songs: Vec<MusicEntry> = Vec::new();
        let mut k: usize = 0;
        while k < self.songs.len()
            invariant
                k <= self.songs.len(),
                songs@ == self.songs@.take(k as int),
            decreases self.songs.len() - k,
        {
            songs.push(self.songs[k].clone());
            proof {
                assert(songs@ =~= self.songs@.take(k + 1));
            }
            k = k + 1;
        }
        proof {
            assert(self.songs@.take(k as int) =~= self.songs@);
        }
        Playlist { name: self.name.clone(), songs }
    }
}

/// Which list the song that is playing belongs to, and its index there.
#[derive(Debug, Clone, Copy, PartialEq, Eq, Structural)]
pub enum PlayingSource {
    /// Index in the filtered song list.
    Browse(usize),
    /// (playlist index, song index).
    PlaylistContent(usize, usize),
}

#[derive(Debug, Clone, Copy, PartialEq, Eq, Structural)]
pub enum ViewMode {
    Browse,
    PlaylistList,
    PlaylistContent(usize),
}

/// What a key press asks the program to do.
#[derive(Debug, Clone, Copy, PartialEq, Eq, Structural)]
pub enum AppEvent {
    PlaySelected,
    TogglePlayback,
    Stop,
    SeekForward,
    SeekBackward,
    VolumeUp,
    VolumeDown,
    CyclePlayMode,
    EnterSearch,
    ConfirmSearch,
    CancelSearch,
    DeleteSearchChar,
    PushSearchChar(char),
    MoveUp,
    MoveDown,
    ScrollUp,
    ScrollDown,
    CreatePlaylist,
    ConfirmCreatePlaylist,
    AddToPlaylist,
    DeleteItem,
    Refresh,
    GoToPlaying,
    ShowHelp,
    ConfigureServer,
    ConfirmConfig,
    Quit,
    /// No action.
    Nothing,
    AddToQueue,
    PlayNext,
    /// Play the selected queue entry immediately.
    QueuePlaySelected,
    ToggleQueue,
    ToggleLanguage,
    CycleSort,
    /// Skip to the next track.
    NextTrack,
    /// Filter the list by the selected song's artist.
    FilterByArtist,
    /// Clear the artist filter.
    ClearArtistFilter,
    /// Show or hide the cover art.
    ToggleCover,
}

// ───────────────────────── sort mode ─────────────────────────

#[derive(Debug, Clone, Copy, PartialEq, Eq, Structural)]
pub enum SortMode {
    Default,
    Name,
    Artist,
    Duration,
    Album,
}

pub open spec fn next_sort(m: SortMode) -> SortMode {
    match m {
        SortMode::Default => SortMode::Name,
        SortMode::Name => SortMode::Artist,
        SortMode::Artist => SortMode::Duration,
        SortMode::Duration => SortMode::Album,
        SortMode::Album => SortMode::Default,
    }
}

pub open spec fn sort_label_key(m: SortMode) -> Seq<char> {
    match m {
        SortMode::Default => "sort.default"@,
        SortMode::Name => "sort.name"@,
        SortMode::Artist => "sort.artist"@,
        SortMode::Duration => "sort.duration"@,
        SortMode::Album => "sort.album"@,
    }
}

impl SortMode {
    pub fn next(self) -> (r: SortMode)
        ensures
            r == next_sort(self),
    {
        match self {
            SortMode::Default => SortMode::Name,
            SortMode::Name => SortMode::Artist,
            SortMode::Artist => SortMode::Duration,
            SortMode::Duration => SortMode::Album,
            SortMode::Album => SortMode::Default,
        }
    }

    /// Translated name of the sort order.
    pub fn label(self, lang: Language) -> (r: String)
        ensures
            r@ == fill_placeholders(message_text(lang, sort_label_key(self)), seq![]),
    {
        let args: Vec<String> = Vec::new();
        proof {
            assert(strings_model(args@) =~= seq![]);
        }
        match self {
            SortMode::Default => tf(lang, "sort.default", &args),
            SortMode::Name => tf(lang, "sort.name", &args),
            SortMode::Artist => tf(lang, "sort.artist", &args),
            SortMode::Duration => tf(lang, "sort.duration", &args),
            SortMode::Album => tf(lang, "sort.album", &args),
        }
    }
}

/// Five steps through the sort orders come back to the start.
pub proof fn lemma_sort_mode_cycle(m: SortMode)
    ensures
        next_sort(next_sort(next_sort(next_sort(next_sort(m))))) == m,
        next_sort(m) != m,
{
}

// ───────────────────────── decimal text ─────────────────────────

/// Decimal digits of `n`, without leading zeros (`0` is written `0`).
pub open spec fn decimal(n: nat) -> Seq<char>
    decreases n,
{
    if n < 10 {
        seq![digit_char(n)]
    } else {
        decimal(n / 10).push(digit_char(n % 10))
    }
}

pub open spec fn digit_char(d: nat) -> char {
    if d == 0 {
        '0'
    } else if d == 1 {
        '1'
    } else if d == 2 {
        '2'
    } else if d == 3 {
        '3'
    } else if d == 4 {
        '4'
    } else if d == 5 {
        '5'
    } else if d == 6 {
        '6'
    } else if d == 7 {
        '7'
    } else if d == 8 {
        '8'
    } else {
        '9'
    }
}

fn digit(d: u64) -> (c: char)
    requires
        d < 10,
    ensures
        c == digit_char(d as nat),
{
    if d == 0 {
        '0'
    } else if d == 1 {
        '1'
    } else if d == 2 {
        '2'
    } else if d == 3 {
        '3'
    } else if d == 4 {
        '4'
    } else if d == 5 {
        '5'
    } else if d == 6 {
        '6'
    } else if d == 7 {
        '7'
    } else if d == 8 {
        '8'
    } else {
        '9'
    }
}

/// The decimal text of a number (`n.to_string()`).
pub fn decimal_string(n: u64) -> (r: String)
    ensures
        r@ == decimal(n as nat),
{
    let mut digits: Vec<char> = Vec::new();
    let c0 = digit(n % 10);
    digits.push(c0);
    let mut m = n / 10;
    proof {
        assert(digits@.reverse() =~= seq![c0]);
    }
    // digits of n, least significant first
    while m > 0
        invariant
            digits.len() > 0,
            decimal(n as nat) == (if m == 0 {
                digits@.reverse()
            } else {
                decimal(m as nat) + digits@.reverse()
            }),
        decreases m,
    {
        let c = digit(m % 10);
        proof {
            let nd = digits@.push(c);
            assert(nd.reverse() =~= seq![c] + digits@.reverse());
            if m >= 10 {
                assert(decimal(m as nat) + digits@.reverse() =~= decimal((m / 10) as nat) + nd.reverse());
            } else {
                assert(decimal(m as nat) + digits@.reverse() =~= nd.reverse());
            }
        }
        digits.push(c);
        m = m / 10;
    }
    let mut r = String::new();
    let mut k = digits.len();
    while k > 0
        invariant
            k <= digits.len(),
            r@ == digits@.subrange(k as int, digits.len() as int).reverse(),
        decreases k,
    {
        k = k - 1;
        crate::text::push_char(&mut r, digits[k]);
        proof {
            assert(digits@.subrange(k as int, digits.len() as int).reverse() =~= digits@.subrange(
                k + 1,
                digits.len() as int,
            ).reverse().push(digits@[k as int]));
        }
    }
    proof {
        assert(digits@.subrange(0, digits.len() as int) =~= digits@);
    }
    r
}

/// Two-digit zero-padded decimal (`{:02}`).
pub open spec fn pad2(n: nat) -> Seq<char> {
    if n < 10 {
        seq!['0'] + decimal(n)
    } else {
        decimal(n)
    }
}

/// `mm:ss` of a duration in milliseconds; minutes are not capped at 60.
pub open spec fn duration_text(ms: u64) -> Seq<char> {
    pad2(((ms / 1000) / 60) as nat) + seq![':'] + pad2(((ms / 1000) % 60) as nat)
}

fn pad2_string(n: u64) -> (r: String)
    ensures
        r@ == pad2(n as nat),
{
    let d = decimal_string(n);
    if n < 10 {
        let mut r = String::new();
        crate::text::push_char(&mut r, '0');
        let mut r2 = r;
        r2.append(d.as_str());
        r2
    } else {
        d
    }
}

/// A duration as `mm:ss`.
pub fn format_duration(ms: u64) -> (r: String)
    ensures
        r@ == duration_text(ms),
{
    let total_secs = ms / 1000;
    let mins = total_secs / 60;
    let secs = total_secs % 60;
    let mut r = pad2_string(mins);
    crate::text::push_char(&mut r, ':');
    let s = pad2_string(secs);
    r.append(s.as_str());
    r
}

// ───────────────────────── display list ─────────────────────────

/// An item of the browse view's display list. With the album sort order,
/// album headers stand between the groups of songs.
#[derive(Debug)]
pub enum DisplayItem {
    /// A selectable song: its index in the filtered song list.
    Song(usize),
    /// An album header, not selectable.
    AlbumHeader { album: String, artist: String, song_count: usize },
}

/// A display item as plain values.
pub enum ItemModel {
    Song(int),
    Header(Seq<char>, Seq<char>, int),
}

impl View for DisplayItem {
    type V = ItemModel;

    open spec fn view(&self) -> ItemModel {
        match self {
            DisplayItem::Song(i) => ItemModel::Song(*i as int),
            DisplayItem::AlbumHeader { album, artist, song_count } => ItemModel::Header(
                album@,
                artist@,
                *song_count as int,
            ),
        }
    }
}

pub open spec fn items_model(v: Seq<DisplayItem>) -> Seq<ItemModel> {
    v.map_values(|d: DisplayItem| d@)
}

/// Index just past the run of songs, from `j` on, whose album is `album`.
pub open spec fn group_end(s: Seq<MusicEntry>, album: Seq<char>, j: int) -> int
    decreases s.len() - j,
{
    if 0 <= j < s.len() && s[j].album@ == album {
        group_end(s, album, j + 1)
    } else {
        j
    }
}

pub proof fn lemma_group_end(s: Seq<MusicEntry>, album: Seq<char>, j: int)
    requires
        0 <= j <= s.len(),
    ensures
        j <= group_end(s, album, j) <= s.len(),
        forall|k: int| j <= k < group_end(s, album, j) ==> s[k].album@ == album,
        group_end(s, album, j) < s.len() ==> s[group_end(s, album, j)].album@ != album,
    decreases s.len() - j,
{
    if j < s.len() && s[j].album@ == album {
        lemma_group_end(s, album, j + 1);
    }
}

/// The songs `lo..hi` of the filtered list as display items.
pub open spec fn song_items(lo: int, hi: int) -> Seq<ItemModel> {
    Seq::new((hi - lo) as nat, |k: int| ItemModel::Song(lo + k))
}

/// The album-grouped display list of `s` from index `i` on: consecutive songs
/// of one non-empty album get a header (album, artist of its first song,
/// number of songs) before them; songs without an album stand alone.
pub open spec fn album_display(s: Seq<MusicEntry>, i: int) -> Seq<ItemModel>
    decreases s.len() - i,
{
    if i < 0 || i >= s.len() {
        seq![]
    } else if s[i].album@.len() == 0 {
        seq![ItemModel::Song(i)] + album_display(s, i + 1)
    } else {
        let j = group_end(s, s[i].album@, i + 1);
        proof {
            lemma_group_end(s, s[i].album@, i + 1);
        }
        seq![ItemModel::Header(s[i].album@, s[i].artist@, j - i)] + song_items(i, j)
            + album_display(s, j)
    }
}

/// The display list without grouping: every song, in order.
pub open spec fn plain_display(n: int) -> Seq<ItemModel> {
    song_items(0, n)
}

/// Builds the album-grouped display list of a sorted song list.
pub fn build_album_display(songs: &Vec<MusicEntry>) -> (r: Vec<DisplayItem>)
    ensures
        items_model(r@) == album_display(songs@, 0),
{
    let mut items: Vec<DisplayItem> = Vec::new();
    let mut i: usize = 0;
    while i < songs.len()
        invariant
            i <= songs.len(),
            album_display(songs@, 0) == items_model(items@) + album_display(songs@, i as int),
        decreases songs.len() - i,
    {
        let album = songs[i].album.clone();
        let ghost s = songs@;
        let ghost before = items_model(items@);
        if album.as_str().unicode_len() == 0 {
            items.push(DisplayItem::Song(i));
            proof {
                assert(items_model(items@) =~= before.push(ItemModel::Song(i as int)));
                assert(album_display(s, i as int) == seq![ItemModel::Song(i as int)] + album_display(s, i + 1));
                assert(before + album_display(s, i as int) =~= items_model(items@) + album_display(s, i + 1));
            }
            i = i + 1;
        } else {
            let start = i;
            let artist = songs[i].artist.clone();
            i = i + 1;
            proof {
                lemma_group_end(s, album@, start + 1);
            }
            while i < songs.len() && songs[i].album == album
                invariant
                    start < i <= songs.len(),
                    s == songs@,
                    album@ == s[start as int].album@,
                    group_end(s, album@, start + 1) == group_end(s, album@, i as int),
                decreases songs.len() - i,
            {
                i = i + 1;
            }
            let ghost j = i as int;
            proof {
                assert(group_end(s, album@, start + 1) == j);
            }
            items.push(DisplayItem::AlbumHeader { album, artist, song_count: i - start });
            let mut k = start;
            while k < i
                invariant
                    start <= k <= i,
                    items_model(items@) == before + seq![
                        ItemModel::Header(s[start as int].album@, s[start as int].artist@, j - start),
                    ] + song_items(start as int, k as int),
                    j == i,
                decreases i - k,
            {
                let ghost b2 = items_model(items@);
                items.push(DisplayItem::Song(k));
                proof {
                    assert(items_model(items@) =~= b2.push(ItemModel::Song(k as int)));
                    assert(song_items(start as int, k + 1) =~= song_items(start as int, k as int).push(
                        ItemModel::Song(k as int),
                    ));
                }
                k = k + 1;
            }
            proof {
                assert(album_display(s, start as int) == seq![
                    ItemModel::Header(s[start as int].album@, s[start as int].artist@, j - start),
                ] + song_items(start as int, j) + album_display(s, j));
                assert(before + album_display(s, start as int) =~= items_model(items@)
                    + album_display(s, j));
            }
        }
    }
    proof {
        assert(items_model(items@) + album_display(songs@, i as int) =~= items_model(items@));
    }
    items
}

/// The display list of `n` songs without grouping.
fn plain_display_items(n: usize) -> (r: Vec<DisplayItem>)
    ensures
        items_model(r@) == plain_display(n as int),
{
    let mut items: Vec<DisplayItem> = Vec::new();
    let mut k: usize = 0;
    while k < n
        invariant
            k <= n,
            items_model(items@) == song_items(0, k as int),
        decreases n - k,
    {
        let ghost b = items_model(items@);
        items.push(DisplayItem::Song(k));
        proof {
            assert(items_model(items@) =~= b.push(ItemModel::Song(k as int)));
            assert(song_items(0, k + 1) =~= song_items(0, k as int).push(ItemModel::Song(k as int)));
        }
        k = k + 1;
    }
    items
}

// ───────────────────────── sorting ─────────────────────────

/// Lexicographic order of texts, character by character (the order of
/// `str`'s `Ord`, which compares the UTF-8 bytes and so the code points).
pub open spec fn text_lt(a: Seq<char>, b: Seq<char>) -> bool
    decreases a.len(),
{
    if a.len() == 0 {
        b.len() > 0
    } else if b.len() == 0 {
        false
    } else if a[0] != b[0] {
        (a[0] as int) < (b[0] as int)
    } else {
        text_lt(a.drop_first(), b.drop_first())
    }
}

pub proof fn lemma_text_lt_asym(a: Seq<char>, b: Seq<char>)
    ensures
        text_lt(a, b) ==> !text_lt(b, a),
        !text_lt(a, a),
    decreases a.len(),
{
    if a.len() > 0 && b.len() > 0 && a[0] == b[0] {
        lemma_text_lt_asym(a.drop_first(), b.drop_first());
    }
    if a.len() > 0 {
        lemma_text_lt_asym(a.drop_first(), a.drop_first());
    }
}

pub proof fn lemma_text_lt_total(a: Seq<char>, b: Seq<char>)
    ensures
        a != b ==> text_lt(a, b) || text_lt(b, a),
    decreases a.len(),
{
    if a.len() > 0 && b.len() > 0 && a[0] == b[0] {
        lemma_text_lt_total(a.drop_first(), b.drop_first());
        if a.drop_first() == b.drop_first() {
            assert(a =~= seq![a[0]] + a.drop_first());
            assert(b =~= seq![b[0]] + b.drop_first());
        }
    } else if a.len() == 0 && b.len() == 0 {
        assert(a =~= b);
    }
}

pub proof fn lemma_text_lt_trans(a: Seq<char>, b: Seq<char>, c: Seq<char>)
    ensures
        text_lt(a, b) && text_lt(b, c) ==> text_lt(a, c),
    decreases a.len(),
{
    if a.len() > 0 && b.len() > 0 && c.len() > 0 {
        lemma_text_lt_trans(a.drop_first(), b.drop_first(), c.drop_first());
    }
}

/// `!(b < a)` and `!(c < b)` give `!(c < a)`: the order's complement is
/// transitive too.
pub proof fn lemma_text_le_trans(a: Seq<char>, b: Seq<char>, c: Seq<char>)
    ensures
        !text_lt(b, a) && !text_lt(c, b) ==> !text_lt(c, a),
{
    lemma_text_lt_total(a, b);
    lemma_text_lt_total(b, c);
    lemma_text_lt_total(a, c);
    lemma_text_lt_trans(c, a, b);
    lemma_text_lt_trans(b, c, a);
    lemma_text_lt_asym(a, c);
}

/// Lexicographic order of (album, artist, name) keys.
pub open spec fn key3_lt(a: (Seq<char>, Seq<char>, Seq<char>), b: (Seq<char>, Seq<char>, Seq<char>)) -> bool {
    text_lt(a.0, b.0) || (a.0 == b.0 && (text_lt(a.1, b.1) || (a.1 == b.1 && text_lt(a.2, b.2))))
}

pub open spec fn album_key(m: MusicEntry) -> (Seq<char>, Seq<char>, Seq<char>) {
    (lowercase(m.album@), lowercase(m.artist@), lowercase(m.name@))
}

/// `a` sorts strictly before `b` in the given order: by lower-cased name, by
/// lower-cased artist, by duration, or by lower-cased (album, artist, name).
/// The default order keeps the list as it is.
pub open spec fn entry_lt(mode: SortMode, a: MusicEntry, b: MusicEntry) -> bool {
    match mode {
        SortMode::Default => false,
        SortMode::Name => text_lt(lowercase(a.name@), lowercase(b.name@)),
        SortMode::Artist => text_lt(lowercase(a.artist@), lowercase(b.artist@)),
        SortMode::Duration => a.duration < b.duration,
        SortMode::Album => key3_lt(album_key(a), album_key(b)),
    }
}

/// Where `x` enters `t`: after every entry that does not sort after it.
pub open spec fn insert_pos(mode: SortMode, t: Seq<MusicEntry>, x: MusicEntry) -> nat
    decreases t.len(),
{
    if t.len() == 0 {
        0
    } else if entry_lt(mode, x, t.last()) {
        insert_pos(mode, t.drop_last(), x)
    } else {
        t.len()
    }
}

/// Stable sort of `s` by the order of `mode` (equal keys keep their order).
pub open spec fn sort_entries(mode: SortMode, s: Seq<MusicEntry>) -> Seq<MusicEntry>
    decreases s.len(),
{
    if s.len() == 0 {
        s
    } else {
        let t = sort_entries(mode, s.drop_last());
        t.insert(insert_pos(mode, t, s.last()) as int, s.last())
    }
}

/// The song list as `apply_sort` leaves it.
pub open spec fn sorted_songs(mode: SortMode, s: Seq<MusicEntry>) -> Seq<MusicEntry> {
    match mode {
        SortMode::Default => s,
        _ => sort_entries(mode, s),
    }
}

/// No entry sorts before an earlier one.
pub open spec fn sorted_by(mode: SortMode, s: Seq<MusicEntry>) -> bool {
    forall|i: int, j: int| 0 <= i < j < s.len() ==> !entry_lt(mode, #[trigger] s[j], #[trigger] s[i])
}

/// The order of `mode` is a strict weak order.
pub open spec fn weak_order(mode: SortMode) -> bool {
    &&& forall|a: MusicEntry, b: MusicEntry| #[trigger]
        entry_lt(mode, a, b) ==> !entry_lt(mode, b, a)
    &&& forall|a: MusicEntry, b: MusicEntry, c: MusicEntry|
        #![trigger entry_lt(mode, b, a), entry_lt(mode, c, b)]
        !entry_lt(mode, b, a) && !entry_lt(mode, c, b) ==> !entry_lt(mode, c, a)
}

pub proof fn lemma_weak_order(mode: SortMode)
    ensures
        weak_order(mode),
{
    assert forall|a: MusicEntry, b: MusicEntry| #[trigger]
        entry_lt(mode, a, b) implies !entry_lt(mode, b, a) by {
        lemma_text_lt_asym(lowercase(a.name@), lowercase(b.name@));
        lemma_text_lt_asym(lowercase(a.artist@), lowercase(b.artist@));
        lemma_text_lt_asym(lowercase(a.album@), lowercase(b.album@));
    }
    assert forall|a: MusicEntry, b: MusicEntry, c: MusicEntry|
        !entry_lt(mode, b, a) && !entry_lt(mode, c, b) implies !entry_lt(mode, c, a) by {
        let (a1, a2, a3) = album_key(a);
        let (b1, b2, b3) = album_key(b);
        let (c1, c2, c3) = album_key(c);
        lemma_text_le_trans(lowercase(a.name@), lowercase(b.name@), lowercase(c.name@));
        lemma_text_le_trans(lowercase(a.artist@), lowercase(b.artist@), lowercase(c.artist@));
        lemma_text_le_trans(a1, b1, c1);
        lemma_text_le_trans(a2, b2, c2);
        lemma_text_le_trans(a3, b3, c3);
        lemma_text_lt_total(a1, b1);
        lemma_text_lt_total(b1, c1);
        lemma_text_lt_total(a2, b2);
        lemma_text_lt_total(b2, c2);
        lemma_text_lt_asym(a1, c1);
        lemma_text_lt_asym(a2, c2);
        lemma_text_lt_asym(a1, b1);
        lemma_text_lt_asym(b1, c1);
        lemma_text_lt_asym(a2, b2);
        lemma_text_lt_asym(b2, c2);
        lemma_text_lt_trans(c1, a1, b1);
        lemma_text_lt_trans(b1, c1, a1);
        lemma_text_lt_trans(c2, a2, b2);
        lemma_text_lt_trans(b2, c2, a2);
    }
}

proof fn lemma_insert_pos(mode: SortMode, t: Seq<MusicEntry>, x: MusicEntry)
    ensures
        insert_pos(mode, t, x) <= t.len(),
        forall|i: int| insert_pos(mode, t, x) <= i < t.len() ==> entry_lt(mode, x, #[trigger] t[i]),
        insert_pos(mode, t, x) > 0 ==> !entry_lt(mode, x, t[insert_pos(mode, t, x) - 1]),
    decreases t.len(),
{
    if t.len() > 0 && entry_lt(mode, x, t.last()) {
        lemma_insert_pos(mode, t.drop_last(), x);
        assert forall|i: int| insert_pos(mode, t, x) <= i < t.len() implies entry_lt(
            mode,
            x,
            #[trigger] t[i],
        ) by {
            if i < t.len() - 1 {
                assert(t[i] == t.drop_last()[i]);
            }
        }
        if insert_pos(mode, t, x) > 0 {
            assert(t[insert_pos(mode, t, x) - 1] == t.drop_last()[insert_pos(mode, t, x) - 1]);
        }
    }
}

/// Sorting keeps every song, as many times as it occurs, and orders the list
/// by the sort key.
pub proof fn lemma_sort_entries(mode: SortMode, s: Seq<MusicEntry>)
    ensures
        sort_entries(mode, s).to_multiset() == s.to_multiset(),
        sort_entries(mode, s).len() == s.len(),
        sorted_by(mode, sort_entries(mode, s)),
    decreases s.len(),
{
    if s.len() > 0 {
        let x = s.last();
        let t = sort_entries(mode, s.drop_last());
        lemma_sort_entries(mode, s.drop_last());
        lemma_insert_pos(mode, t, x);
        lemma_weak_order(mode);
        let p = insert_pos(mode, t, x) as int;
        let r = t.insert(p, x);
        assert forall|i: int, j: int| 0 <= i < j < r.len() implies !entry_lt(
            mode,
            #[trigger] r[j],
            #[trigger] r[i],
        ) by {
            if j < p {
                assert(r[i] == t[i] && r[j] == t[j]);
            } else if j == p {
                assert(r[i] == t[i]);
                assert(!entry_lt(mode, x, t[p - 1]));
                if i < p - 1 {
                    assert(!entry_lt(mode, t[p - 1], t[i]));
                }
            } else if i < p {
                assert(r[i] == t[i] && r[j] == t[j - 1]);
            } else if i == p {
                assert(r[j] == t[j - 1]);
                assert(entry_lt(mode, x, t[j - 1]));
            } else {
                assert(r[i] == t[i - 1] && r[j] == t[j - 1]);
            }
        }
        assert(s =~= s.drop_last() + seq![x]);
        vstd::seq_lib::lemma_multiset_commutative(s.drop_last(), seq![x]);
        assert(r =~= t.take(p) + seq![x] + t.skip(p));
        vstd::seq_lib::lemma_multiset_commutative(t.take(p) + seq![x], t.skip(p));
        vstd::seq_lib::lemma_multiset_commutative(t.take(p), seq![x]);
        vstd::seq_lib::lemma_multiset_commutative(t.take(p), t.skip(p));
        assert(t =~= t.take(p) + t.skip(p));
    }
}

/// Whether text `a` sorts before text `b`.
fn text_less(a: &str, b: &str) -> (r: bool)
    ensures
        r == text_lt(a@, b@),
{
    let va = crate::text::chars_of(a);
    let vb = crate::text::chars_of(b);
    let mut k: usize = 0;
    proof {
        assert(a@.skip(0) =~= a@);
        assert(b@.skip(0) =~= b@);
    }
    while k < va.len() && k < vb.len() && va[k] == vb[k]
        invariant
            va@ == a@,
            vb@ == b@,
            k <= va.len(),
            k <= vb.len(),
            text_lt(a@, b@) == text_lt(a@.skip(k as int), b@.skip(k as int)),
        decreases va.len() - k,
    {
        proof {
            assert(a@.skip(k as int).drop_first() =~= a@.skip(k + 1));
            assert(b@.skip(k as int).drop_first() =~= b@.skip(k + 1));
        }
        k = k + 1;
    }
    if k == va.len() {
        k < vb.len()
    } else if k == vb.len() {
        false
    } else {
        va[k] < vb[k]
    }
}

/// Whether `a` sorts before `b` in the order of `mode`.
fn entry_less(mode: SortMode, a: &MusicEntry, b: &MusicEntry) -> (r: bool)
    ensures
        r == entry_lt(mode, *a, *b),
{
    match mode {
        SortMode::Default => false,
        SortMode::Name => {
            let x = to_lowercase(a.name.as_str());
            let y = to_lowercase(b.name.as_str());
            text_less(x.as_str(), y.as_str())
        },
        SortMode::Artist => {
            let x = to_lowercase(a.artist.as_str());
            let y = to_lowercase(b.artist.as_str());
            text_less(x.as_str(), y.as_str())
        },
        SortMode::Duration => a.duration < b.duration,
        SortMode::Album => {
            let a1 = to_lowercase(a.album.as_str());
            let b1 = to_lowercase(b.album.as_str());
            if text_less(a1.as_str(), b1.as_str()) {
                return true;
            }
            if a1 != b1 {
                return false;
            }
            let a2 = to_lowercase(a.artist.as_str());
            let b2 = to_lowercase(b.artist.as_str());
            if text_less(a2.as_str(), b2.as_str()) {
                return true;
            }
            if a2 != b2 {
                return false;
            }
            let a3 = to_lowercase(a.name.as_str());
            let b3 = to_lowercase(b.name.as_str());
            text_less(a3.as_str(), b3.as_str())
        },
    }
}

fn insert_sorted(mode: SortMode, out: &mut Vec<MusicEntry>, x: MusicEntry)
    ensures
        final(out)@ == old(out)@.insert(insert_pos(mode, old(out)@, x) as int, x),
{
    let ghost t = out@;
    let mut p = out.len();
    assert(t.take(p as int) =~= t);
    while p > 0 && entry_less(mode, &x, &out[p - 1])
        invariant
            p <= out.len(),
            out@ == t,
            insert_pos(mode, t, x) == insert_pos(mode, t.take(p as int), x),
        decreases p,
    {
        proof {
            assert(t.take(p as int).drop_last() =~= t.take(p - 1));
            assert(t.take(p as int).last() == t[p - 1]);
        }
        p = p - 1;
    }
    proof {
        if p > 0 {
            assert(t.take(p as int).last() == t[p - 1]);
        }
    }
    out.insert(p, x);
}

/// A stably sorted copy of the songs in the order of `mode`.
pub fn sort_songs(mode: SortMode, songs: &Vec<MusicEntry>) -> (r: Vec<MusicEntry>)
    ensures
        r@ == sorted_songs(mode, songs@),
{
    let mut out: Vec<MusicEntry> = Vec::new();
    if mode == SortMode::Default {
        let mut k: usize = 0;
        while k < songs.len()
            invariant
                k <= songs.len(),
                out@ == songs@.take(k as int),
            decreases songs.len() - k,
        {
            out.push(songs[k].clone());
            proof {
                assert(out@ =~= songs@.take(k + 1));
            }
            k = k + 1;
        }
        proof {
            assert(songs@.take(k as int) =~= songs@);
        }
        return out;
    }
    let mut k: usize = 0;
    while k < songs.len()
        invariant
            mode != SortMode::Default,
            k <= songs.len(),
            out@ == sort_entries(mode, songs@.take(k as int)),
        decreases songs.len() - k,
    {
        proof {
            assert(songs@.take(k + 1).drop_last() =~= songs@.take(k as int));
            assert(songs@.take(k + 1).last() == songs@[k as int]);
        }
        insert_sorted(mode, &mut out, songs[k].clone());
        k = k + 1;
    }
    proof {
        assert(songs@.take(k as int) =~= songs@);
    }
    out
}

// ───────────────────────── filtering ─────────────────────────

/// A song matches a search query when its lower-cased name or artist holds
/// the lower-cased query.
pub open spec fn matches_query(m: MusicEntry, q: Seq<char>) -> bool {
    contains_text(lowercase(m.name@), lowercase(q)) || contains_text(lowercase(m.artist@), lowercase(q))
}

/// A song is listed in the browse view: it matches the query (an empty query
/// matches everything) and, with an artist filter, its artist equals the
/// filter's, compared in lower case.
pub open spec fn listed(m: MusicEntry, q: Seq<char>, artist: Option<Seq<char>>) -> bool {
    (q.len() == 0 || matches_query(m, q)) && match artist {
        Some(a) => lowercase(m.artist@) == lowercase(a),
        None => true,
    }
}

pub open spec fn listed_songs(all: Seq<MusicEntry>, q: Seq<char>, artist: Option<Seq<char>>) -> Seq<MusicEntry> {
    all.filter(|m: MusicEntry| listed(m, q, artist))
}

pub open spec fn opt_view(o: Option<String>) -> Option<Seq<char>> {
    match o {
        Some(s) => Some(s@),
        None => None,
    }
}

proof fn lemma_filter_step(s: Seq<MusicEntry>, p: spec_fn(MusicEntry) -> bool, k: int)
    requires
        0 <= k < s.len(),
    ensures
        s.take(k + 1).filter(p) == (if p(s[k]) {
            s.take(k).filter(p).push(s[k])
        } else {
            s.take(k).filter(p)
        }),
{
    reveal(Seq::filter);
    assert(s.take(k + 1).drop_last() =~= s.take(k));
    assert(s.take(k + 1).last() == s[k]);
}

/// The songs of `all` that the query and artist filter let through, in order.
fn filter_songs(all: &Vec<MusicEntry>, query: &str, artist: &Option<String>) -> (r: Vec<MusicEntry>)
    ensures
        r@ == listed_songs(all@, query@, opt_view(*artist)),
{
    let ghost p = |m: MusicEntry| listed(m, query@, opt_view(*artist));
    let q = to_lowercase(query);
    let empty_query = query.unicode_len() == 0;
    let artist_lower: Option<String> = match artist {
        Some(a) => Some(to_lowercase(a.as_str())),
        None => None,
    };
    let mut out: Vec<MusicEntry> = Vec::new();
    let mut k: usize = 0;
    proof {
        reveal(Seq::filter);
        assert(all@.take(0) =~= Seq::<MusicEntry>::empty());
    }
    while k < all.len()
        invariant
            k <= all.len(),
            q@ == lowercase(query@),
            empty_query == (query@.len() == 0),
            match *artist {
                Some(a) => artist_lower is Some && artist_lower->0@ == lowercase(a@),
                None => artist_lower is None,
            },
            p == (|m: MusicEntry| listed(m, query@, opt_view(*artist))),
            out@ == all@.take(k as int).filter(p),
        decreases all.len() - k,
    {
        let m = &all[k];
        let mut keep = true;
        if !empty_query {
            let name = to_lowercase(m.name.as_str());
            let art = to_lowercase(m.artist.as_str());
            keep = str_contains(name.as_str(), q.as_str()) || str_contains(art.as_str(), q.as_str());
        }
        if keep {
            match &artist_lower {
                Some(al) => {
                    let art = to_lowercase(m.artist.as_str());
                    keep = art == *al;
                },
                None => {},
            }
        }
        proof {
            lemma_filter_step(all@, p, k as int);
            assert(keep == p(all@[k as int]));
        }
        if keep {
            out.push(m.clone());
        }
        k = k + 1;
    }
    proof {
        assert(all@.take(k as int) =~= all@);
    }
    out
}

// ───────────────────────── selection in the display list ─────────────────────────

pub open spec fn is_song(d: Seq<ItemModel>, i: int) -> bool {
    0 <= i < d.len() && d[i] is Song
}

pub open spec fn is_header(d: Seq<ItemModel>, i: int) -> bool {
    0 <= i < d.len() && d[i] is Header
}

/// The first song at an index in `lo..=hi`, or -1.
pub open spec fn first_song_in(d: Seq<ItemModel>, lo: int, hi: int) -> int
    decreases hi - lo + 1,
{
    if lo > hi {
        -1
    } else if is_song(d, lo) {
        lo
    } else {
        first_song_in(d, lo + 1, hi)
    }
}

/// The last song at an index below `hi`, or -1.
pub open spec fn last_song_before(d: Seq<ItemModel>, hi: int) -> int
    decreases hi,
{
    if hi <= 0 {
        -1
    } else if is_song(d, hi - 1) {
        hi - 1
    } else {
        last_song_before(d, hi - 1)
    }
}

/// The selection moved onto a song: clamped to the list, then off an album
/// header to the next song after it, else the nearest song before it.
pub open spec fn clamp_target(d: Seq<ItemModel>, di: int) -> int {
    let max = d.len() - 1;
    let c = if di < max {
        di
    } else {
        max
    };
    if is_header(d, c) {
        let f = first_song_in(d, c + 1, max);
        if f >= 0 {
            f
        } else {
            let b = last_song_before(d, c);
            if b >= 0 {
                b
            } else {
                c
            }
        }
    } else {
        c
    }
}

pub open spec fn clamped_selection(d: Seq<ItemModel>, sel: Option<usize>) -> Option<usize> {
    match sel {
        None => None,
        Some(di) => if d.len() == 0 {
            None
        } else {
            Some(clamp_target(d, di as int) as usize)
        },
    }
}

/// Moving up from `n` over album headers (not past index 0).
pub open spec fn skip_headers_back(d: Seq<ItemModel>, n: int) -> int
    decreases n,
{
    if n > 0 && is_header(d, n) {
        skip_headers_back(d, n - 1)
    } else {
        n
    }
}

/// Moving down from `n` over album headers (not past `max`).
pub open spec fn skip_headers_forward(d: Seq<ItemModel>, n: int, max: int) -> int
    decreases max - n,
{
    if n < max && is_header(d, n) {
        skip_headers_forward(d, n + 1, max)
    } else {
        n
    }
}

pub open spec fn sat_sub(a: int, b: int) -> int {
    if a >= b {
        a - b
    } else {
        0
    }
}

pub open spec fn min_int(a: int, b: int) -> int {
    if a <= b {
        a
    } else {
        b
    }
}

/// Lines moved by a page scroll.
pub const PAGE: usize = 15;

// ───────────────────────── the browsing model ─────────────────────────

/// The state of the user interface: lists, selections, overlays, the
/// server configuration being edited and the player.
pub struct App {
    pub language: Language,
    pub all_music: Vec<MusicEntry>,
    pub filtered_music: Vec<MusicEntry>,
    /// Selected index in the display list of the browse view.
    pub selected: Option<usize>,
    pub player: Playback,
    /// The server (or pool of servers) that songs come from.
    pub server: Backend,
    pub status_message: String,
    pub error_message: Option<String>,
    pub search_mode: bool,
    pub search_query: String,
    pub downloading: bool,
    pub download_progress: Option<String>,
    // playlists
    pub playlists: Vec<Playlist>,
    pub view_mode: ViewMode,
    /// Selected playlist in the playlist list.
    pub pl_selected: Option<usize>,
    /// Selected song in a playlist's content.
    pub pl_content_selected: Option<usize>,
    pub creating_playlist: bool,
    pub new_playlist_name: String,
    pub picking_playlist: bool,
    pub pick_index: usize,
    // server configuration
    pub server_configs: Vec<ServerConfig>,
    pub config_servers: Vec<ServerConfig>,
    pub config_mode: bool,
    pub config_phase: u8,
    pub config_focus: usize,
    pub config_edit_idx: usize,
    pub config_inputs: Vec<String>,
    // overlays
    pub show_help: bool,
    pub show_cover: bool,
    pub playing_source: Option<PlayingSource>,
    pub showing_queue: bool,
    pub queue_selected: usize,
    pub confirm_quit: bool,
    /// Position (ms) to resume from once audio starts playing.
    pub resume_position_ms: Option<u64>,
    pub sort_mode: SortMode,
    pub artist_filter: Option<String>,
    /// Display list of the browse view (may hold album headers).
    pub display_items: Vec<DisplayItem>,
}

impl App {
    pub open spec fn display(&self) -> Seq<ItemModel> {
        items_model(self.display_items@)
    }

    /// The display list that the filtered songs and the sort order give.
    pub open spec fn display_for(&self) -> Seq<ItemModel> {
        if self.sort_mode == SortMode::Album {
            album_display(self.filtered_music@, 0)
        } else {
            plain_display(self.filtered_music@.len() as int)
        }
    }

    /// A new model: empty lists, the browse view with the first line
    /// selected, the "ready" message, and the given server configurations.
    pub fn new(player: Playback, server: Backend, configs: Vec<ServerConfig>, language: Language) -> (r: Self)
        ensures
            r.language == language,
            r.all_music@.len() == 0,
            r.filtered_music@.len() == 0,
            r.display_items@.len() == 0,
            r.selected == Some(0usize),
            r.player == player,
            r.server == server,
            r.status_message@ == message_text(language, "app.ready"@),
            r.error_message is None,
            !r.search_mode,
            r.search_query@.len() == 0,
            !r.downloading,
            r.download_progress is None,
            r.playlists@.len() == 0,
            r.view_mode == ViewMode::Browse,
            r.pl_selected is None,
            r.pl_content_selected is None,
            !r.creating_playlist,
            r.new_playlist_name@.len() == 0,
            !r.picking_playlist,
            r.pick_index == 0,
            r.server_configs == configs,
            r.config_servers@.len() == 0,
            !r.config_mode,
            r.config_phase == 0,
            r.config_focus == 0,
            r.config_edit_idx == 0,
            r.config_inputs@.len() == 0,
            !r.show_help,
            !r.show_cover,
            r.playing_source is None,
            !r.showing_queue,
            r.queue_selected == 0,
            !r.confirm_quit,
            r.resume_position_ms is None,
            r.sort_mode == SortMode::Default,
            r.artist_filter is None,
    {
        App {
            language,
            all_music: Vec::new(),
            filtered_music: Vec::new(),
            selected: Some(0),
            player,
            server,
            status_message: String::from_str(tr(language, "app.ready")),
            error_message: None,
            search_mode: false,
            search_query: String::new(),
            downloading: false,
            download_progress: None,
            playlists: Vec::new(),
            view_mode: ViewMode::Browse,
            pl_selected: None,
            pl_content_selected: None,
            creating_playlist: false,
            new_playlist_name: String::new(),
            picking_playlist: false,
            pick_index: 0,
            server_configs: configs,
            config_servers: Vec::new(),
            config_mode: false,
            config_phase: 0,
            config_focus: 0,
            config_edit_idx: 0,
            config_inputs: Vec::new(),
            show_help: false,
            show_cover: false,
            playing_source: None,
            showing_queue: false,
            queue_selected: 0,
            confirm_quit: false,
            resume_position_ms: None,
            sort_mode: SortMode::Default,
            artist_filter: None,
            display_items: Vec::new(),
        }
    }

    /// Sorts the filtered songs by the current sort order.
    pub fn apply_sort(&mut self)
        ensures
            final(self).filtered_music@ == sorted_songs(old(self).sort_mode, old(self).filtered_music@),
            *final(self) == (App { filtered_music: final(self).filtered_music, ..*old(self) }),
    {
        let sorted = sort_songs(self.sort_mode, &self.filtered_music);
        self.filtered_music = sorted;
    }

    /// Moves the browse selection onto a song (see `clamped_selection`).
    fn clamp_selection_to_song(&mut self)
        ensures
            *final(self) == (App {
                selected: clamped_selection(old(self).display(), old(self).selected),
                ..*old(self)
            }),
    {
        let di = match self.selected {
            None => {
                return;
            },
            Some(di) => di,
        };
        if self.display_items.len() == 0 {
            self.selected = None;
            return;
        }
        let ghost d = self.display();
        let max = self.display_items.len() - 1;
        let clamped = if di < max {
            di
        } else {
            max
        };
        let new_di = if self.item_is_header(clamped) {
            match self.first_song_from(clamped + 1, max) {
                Some(f) => f,
                None => match self.last_song_below(clamped) {
                    Some(b) => b,
                    None => clamped,
                },
            }
        } else {
            clamped
        };
        self.selected = Some(new_di);
    }

    fn item_is_header(&self, i: usize) -> (r: bool)
        ensures
            r == is_header(self.display(), i as int),
    {
        if i < self.display_items.len() {
            match &self.display_items[i] {
                DisplayItem::AlbumHeader { .. } => true,
                DisplayItem::Song(_) => false,
            }
        } else {
            false
        }
    }

    fn item_is_song(&self, i: usize) -> (r: bool)
        ensures
            r == is_song(self.display(), i as int),
    {
        if i < self.display_items.len() {
            match &self.display_items[i] {
                DisplayItem::AlbumHeader { .. } => false,
                DisplayItem::Song(_) => true,
            }
        } else {
            false
        }
    }

    fn first_song_from(&self, lo: usize, hi: usize) -> (r: Option<usize>)
        requires
            hi < self.display_items.len(),
        ensures
            match r {
                Some(f) => first_song_in(self.display(), lo as int, hi as int) == f,
                None => first_song_in(self.display(), lo as int, hi as int) < 0,
            },
    {
        let mut i = lo;
        while i <= hi
            invariant
                lo <= i,
                hi < self.display_items.len(),
                first_song_in(self.display(), lo as int, hi as int) == first_song_in(
                    self.display(),
                    i as int,
                    hi as int,
                ),
            decreases hi - i + 1,
        {
            if self.item_is_song(i) {
                return Some(i);
            }
            i = i + 1;
        }
        None
    }

    fn last_song_below(&self, hi: usize) -> (r: Option<usize>)
        ensures
            match r {
                Some(b) => last_song_before(self.display(), hi as int) == b,
                None => last_song_before(self.display(), hi as int) < 0,
            },
    {
        let mut i = hi;
        while i > 0
            invariant
                i <= hi,
                last_song_before(self.display(), hi as int) == last_song_before(self.display(), i as int),
            decreases i,
        {
            if self.item_is_song(i - 1) {
                return Some(i - 1);
            }
            i = i - 1;
        }
        None
    }

    /// Rebuilds the display list from the filtered songs (album headers with
    /// the album sort order) and moves the selection onto a song.
    pub fn rebuild_display(&mut self)
        ensures
            final(self).display() == old(self).display_for(),
            final(self).selected == clamped_selection(old(self).display_for(), old(self).selected),
            *final(self) == (App {
                display_items: final(self).display_items,
                selected: final(self).selected,
                ..*old(self)
            }),
    {
        if self.sort_mode == SortMode::Album {
            self.display_items = build_album_display(&self.filtered_music);
        } else {
            self.display_items = plain_display_items(self.filtered_music.len());
        }
        self.clamp_selection_to_song();
    }
}

/// The (name, songs) of each playlist.
pub open spec fn playlists_model(p: Seq<Playlist>) -> Seq<(Seq<char>, Seq<MusicEntry>)> {
    p.map_values(|x: Playlist| (x.name@, x.songs@))
}

/// The display list of a filtered song list in the given sort order.
pub open spec fn display_of(mode: SortMode, songs: Seq<MusicEntry>) -> Seq<ItemModel> {
    if mode == SortMode::Album {
        album_display(songs, 0)
    } else {
        plain_display(songs.len() as int)
    }
}

/// The song index that a display selection designates, when it is on a song.
pub open spec fn selected_song(d: Seq<ItemModel>, sel: Option<usize>) -> Option<int> {
    match sel {
        Some(di) => if is_song(d, di as int) {
            Some(d[di as int]->Song_0)
        } else {
            None
        },
        None => None,
    }
}

/// The selection after a filter: moved onto a song, then kept within the
/// list (the first line when there was none); none for an empty list.
pub open spec fn selection_after_filter(d: Seq<ItemModel>, n_songs: int, sel: Option<usize>) -> Option<usize> {
    if n_songs == 0 {
        None
    } else {
        let c = clamped_selection(d, sel);
        let idx = match c {
            Some(i) => i as int,
            None => 0,
        };
        Some(min_int(idx, sat_sub(d.len() as int, 1)) as usize)
    }
}

pub open spec fn opt_usize(o: Option<usize>) -> int {
    match o {
        Some(i) => i as int,
        None => 0,
    }
}

/// The songs of a playlist's content view: those that the search query shows.
pub open spec fn content_songs(p: Seq<Playlist>, pl_idx: int, q: Seq<char>) -> Seq<MusicEntry> {
    if 0 <= pl_idx < p.len() {
        listed_songs(p[pl_idx].songs@, q, None)
    } else {
        seq![]
    }
}

/// The default name of a new playlist when it is given a blank name.
pub open spec fn default_playlist_name(lang: Language, n: nat) -> Seq<char> {
    fill_placeholders(message_text(lang, "playlist.default_name"@), seq![decimal(n)])
}

/// Whether a song with this path is in the list.
fn has_path(songs: &Vec<MusicEntry>, path: &String) -> (r: bool)
    ensures
        r == exists|j: int| 0 <= j < songs@.len() && #[trigger] songs@[j].absolute_path@ == path@,
{
    let mut j: usize = 0;
    while j < songs.len()
        invariant
            j <= songs@.len(),
            forall|k: int| 0 <= k < j ==> songs@[k].absolute_path@ != path@,
        decreases songs@.len() - j,
    {
        if songs[j].absolute_path == *path {
            return true;
        }
        j = j + 1;
    }
    false
}

/// The model after the filter is applied: the songs that the query and the
/// artist filter let through, sorted; their display list; the selection
/// moved onto a song within the list.
pub open spec fn filter_applied(o: App, n: App) -> bool {
    let f = sorted_songs(o.sort_mode, listed_songs(o.all_music@, o.search_query@, opt_view(o.artist_filter)));
    let d = display_of(o.sort_mode, f);
    &&& n.filtered_music@ == f
    &&& n.display() == d
    &&& n.selected == selection_after_filter(d, f.len() as int, o.selected)
    &&& n == (App {
        filtered_music: n.filtered_music,
        display_items: n.display_items,
        selected: n.selected,
        ..o
    })
}

/// The playlists after adding song `m` to playlist `idx`: unchanged when
/// there is no such playlist or it already holds a song with that path.
pub open spec fn added_song(pm: Seq<(Seq<char>, Seq<MusicEntry>)>, idx: int, m: MusicEntry) -> Seq<(Seq<char>, Seq<MusicEntry>)> {
    if 0 <= idx < pm.len() && !exists|j: int|
        0 <= j < pm[idx].1.len() && #[trigger] pm[idx].1[j].absolute_path@ == m.absolute_path@ {
        pm.update(idx, (pm[idx].0, pm[idx].1.push(m)))
    } else {
        pm
    }
}

/// The name a new playlist gets: the given name trimmed, or the default
/// name numbered `n` when that is empty.
pub open spec fn new_playlist_name(lang: Language, name: Seq<char>, n: nat) -> Seq<char> {
    if trim(name).len() == 0 {
        default_playlist_name(lang, n)
    } else {
        trim(name)
    }
}

/// A song is under the browse selection.
pub open spec fn browse_has_selection(a: App) -> bool {
    match selected_song(a.display(), a.selected) {
        Some(i) => 0 <= i < a.filtered_music@.len(),
        None => false,
    }
}

/// A song is selected in the current view.
pub open spec fn view_has_selection(a: App) -> bool {
    match a.view_mode {
        ViewMode::Browse => browse_has_selection(a),
        ViewMode::PlaylistContent(pl_idx) => pl_idx < a.playlists@.len() && a.pl_content_selected is Some
            && a.pl_content_selected->0 < content_songs(a.playlists@, pl_idx as int, a.search_query@).len(),
        ViewMode::PlaylistList => false,
    }
}

/// The song selected in the current view (meaningful when there is one).
pub open spec fn selected_entry(a: App) -> MusicEntry {
    match a.view_mode {
        ViewMode::Browse => a.filtered_music@[selected_song(a.display(), a.selected)->0],
        ViewMode::PlaylistContent(pl_idx) => content_songs(a.playlists@, pl_idx as int, a.search_query@)[a.pl_content_selected->0 as int],
        ViewMode::PlaylistList => a.filtered_music@[0],
    }
}

impl App {
    /// Every selection leaves room for a page step without overflow.
    pub open spec fn selections_bounded(&self) -> bool {
        &&& opt_usize(self.selected) + PAGE < usize::MAX
        &&& opt_usize(self.pl_selected) + PAGE < usize::MAX
        &&& opt_usize(self.pl_content_selected) + PAGE < usize::MAX
    }

    /// Rebuilds the filtered list from all songs: the search query and the
    /// artist filter, the sort order, the display list and the selection.
    pub fn apply_filter(&mut self)
        ensures
            filter_applied(*old(self), *final(self)),
    {
        let filtered = filter_songs(&self.all_music, self.search_query.as_str(), &self.artist_filter);
        self.filtered_music = filtered;
        self.apply_sort();
        self.rebuild_display();
        if self.filtered_music.len() == 0 {
            self.selected = None;
        } else {
            let idx = match self.selected {
                Some(i) => i,
                None => 0,
            };
            let last = if self.display_items.len() > 0 {
                self.display_items.len() - 1
            } else {
                0
            };
            self.selected = Some(if idx < last { idx } else { last });
        }
    }

    /// Replaces the song list, filters it and reports how many songs there are.
    pub fn set_music_list(&mut self, musics: Vec<MusicEntry>)
        ensures
            final(self).all_music@ == musics@,
            ({
                let f = sorted_songs(
                    old(self).sort_mode,
                    listed_songs(musics@, old(self).search_query@, opt_view(old(self).artist_filter)),
                );
                let d = display_of(old(self).sort_mode, f);
                &&& final(self).filtered_music@ == f
                &&& final(self).display() == d
                &&& final(self).selected == selection_after_filter(d, f.len() as int, old(self).selected)
            }),
            final(self).status_message@ == fill_placeholders(
                message_text(old(self).language, "status.music_loaded"@),
                seq![decimal(musics@.len()), decimal(musics@.len())],
            ),
            *final(self) == (App {
                all_music: final(self).all_music,
                filtered_music: final(self).filtered_music,
                display_items: final(self).display_items,
                selected: final(self).selected,
                status_message: final(self).status_message,
                ..*old(self)
            }),
    {
        self.all_music = musics;
        self.apply_filter();
        let n = self.all_music.len() as u64;
        let mut args: Vec<String> = Vec::new();
        args.push(decimal_string(n));
        args.push(decimal_string(n));
        proof {
            assert(strings_model(args@) =~= seq![decimal(n as nat), decimal(n as nat)]);
        }
        self.status_message = tf(self.language, "status.music_loaded", &args);
    }

    /// The song under the browse selection (none on an album header).
    pub fn selected_music(&self) -> (r: Option<&MusicEntry>)
        ensures
            r is Some <==> browse_has_selection(*self),
            r == (match selected_song(self.display(), self.selected) {
                Some(i) => if 0 <= i < self.filtered_music@.len() {
                    Some(&self.filtered_music@[i])
                } else {
                    None
                },
                None => None,
            }),
    {
        match self.selected_display_song_index() {
            Some(i) => if i < self.filtered_music.len() {
                Some(&self.filtered_music[i])
            } else {
                None
            },
            None => None,
        }
    }

    /// Index in the filtered list of the song under the browse selection.
    pub fn selected_display_song_index(&self) -> (r: Option<usize>)
        ensures
            match r {
                Some(i) => selected_song(self.display(), self.selected) == Some(i as int),
                None => selected_song(self.display(), self.selected) is None,
            },
    {
        let di = match self.selected {
            Some(di) => di,
            None => {
                return None;
            },
        };
        if di < self.display_items.len() {
            match &self.display_items[di] {
                DisplayItem::Song(i) => Some(*i),
                DisplayItem::AlbumHeader { .. } => None,
            }
        } else {
            None
        }
    }

    /// The display index of the filtered song `data_idx` (its first
    /// occurrence), if it is listed.
    pub fn find_display_index_for_song(&self, data_idx: usize) -> (r: Option<usize>)
        ensures
            match r {
                Some(k) => k < self.display().len() && self.display()[k as int] == ItemModel::Song(
                    data_idx as int,
                ) && forall|j: int|
                    0 <= j < k ==> self.display()[j] != ItemModel::Song(data_idx as int),
                None => forall|j: int|
                    0 <= j < self.display().len() ==> self.display()[j] != ItemModel::Song(
                        data_idx as int,
                    ),
            },
    {
        let mut k: usize = 0;
        while k < self.display_items.len()
            invariant
                k <= self.display_items.len(),
                forall|j: int| 0 <= j < k ==> self.display()[j] != ItemModel::Song(data_idx as int),
            decreases self.display_items.len() - k,
        {
            match &self.display_items[k] {
                DisplayItem::Song(i) => {
                    if *i == data_idx {
                        return Some(k);
                    }
                },
                DisplayItem::AlbumHeader { .. } => {},
            }
            k = k + 1;
        }
        None
    }

    /// The playlist whose content is shown, if any.
    pub fn current_playlist(&self) -> (r: Option<&Playlist>)
        ensures
            r == (match self.view_mode {
                ViewMode::PlaylistContent(idx) => if idx < self.playlists@.len() {
                    Some(&self.playlists@[idx as int])
                } else {
                    None
                },
                _ => None,
            }),
    {
        match self.view_mode {
            ViewMode::PlaylistContent(idx) => if idx < self.playlists.len() {
                Some(&self.playlists[idx])
            } else {
                None
            },
            _ => None,
        }
    }

    /// Adds a song to a playlist unless a song with the same path is already
    /// in it (or there is no such playlist).
    pub fn add_to_playlist(&mut self, pl_idx: usize, music: MusicEntry)
        ensures
            playlists_model(final(self).playlists@) == added_song(
                playlists_model(old(self).playlists@),
                pl_idx as int,
                music,
            ),
            final(self).playlists@.len() == old(self).playlists@.len(),
            *final(self) == (App { playlists: final(self).playlists, ..*old(self) }),
    {
        proof {
            let pm = playlists_model(self.playlists@);
            if pl_idx < self.playlists@.len() {
                assert(pm[pl_idx as int] == (self.playlists@[pl_idx as int].name@, self.playlists@[pl_idx as int].songs@));
            }
        }
        if pl_idx < self.playlists.len() {
            let found = has_path(&self.playlists[pl_idx].songs, &music.absolute_path);
            if !found {
                let ghost old_p = self.playlists@;
                let mut pl = self.playlists.remove(pl_idx);
                pl.songs.push(music);
                self.playlists.insert(pl_idx, pl);
                proof {
                    assert(self.playlists@ =~= old_p.update(pl_idx as int, self.playlists@[pl_idx as int]));
                    assert(playlists_model(self.playlists@) =~= playlists_model(old_p).update(
                        pl_idx as int,
                        (old_p[pl_idx as int].name@, old_p[pl_idx as int].songs@.push(music)),
                    ));
                }
            }
        }
    }

    /// Creates an empty playlist; a blank name gets the default name with
    /// the playlist's number.
    pub fn create_playlist(&mut self, name: String)
        requires
            old(self).playlists@.len() < usize::MAX,
        ensures
            playlists_model(final(self).playlists@) == playlists_model(old(self).playlists@).push(
                (
                    new_playlist_name(old(self).language, name@, (old(self).playlists@.len() + 1) as nat),
                    Seq::<MusicEntry>::empty(),
                ),
            ),
            final(self).playlists@.len() == old(self).playlists@.len() + 1,
            *final(self) == (App { playlists: final(self).playlists, ..*old(self) }),
    {
        let trimmed = trim_str(name.as_str());
        let name = if trimmed.unicode_len() == 0 {
            let n = self.playlists.len() as u64 + 1;
            let mut args: Vec<String> = Vec::new();
            args.push(decimal_string(n));
            proof {
                assert(strings_model(args@) =~= seq![decimal(n as nat)]);
            }
            tf(self.language, "playlist.default_name", &args)
        } else {
            String::from_str(trimmed)
        };
        let ghost old_p = self.playlists@;
        self.playlists.push(Playlist { name, songs: Vec::new() });
        proof {
            assert(playlists_model(self.playlists@) =~= playlists_model(old_p).push(
                (self.playlists@[old_p.len() as int].name@, Seq::<MusicEntry>::empty()),
            ));
        }
    }

    /// Deletes a playlist; the content view of a later playlist keeps showing
    /// it, the view of the deleted one returns to the list. `false` when there
    /// is no such playlist.
    pub fn delete_playlist(&mut self, idx: usize) -> (r: bool)
        ensures
            r == (idx < old(self).playlists@.len()),
            r ==> final(self).playlists@ == old(self).playlists@.remove(idx as int),
            r ==> final(self).view_mode == (match old(self).view_mode {
                ViewMode::PlaylistContent(ci) => if ci == idx {
                    ViewMode::PlaylistList
                } else if ci > idx {
                    ViewMode::PlaylistContent((ci - 1) as usize)
                } else {
                    old(self).view_mode
                },
                _ => old(self).view_mode,
            }),
            !r ==> *final(self) == *old(self),
            *final(self) == (App {
                playlists: final(self).playlists,
                view_mode: final(self).view_mode,
                ..*old(self)
            }),
    {
        if idx < self.playlists.len() {
            match self.view_mode {
                ViewMode::PlaylistContent(ci) => {
                    if ci == idx {
                        self.view_mode = ViewMode::PlaylistList;
                    } else if ci > idx {
                        self.view_mode = ViewMode::PlaylistContent(ci - 1);
                    }
                },
                _ => {},
            }
            self.playlists.remove(idx);
            true
        } else {
            false
        }
    }

    /// Removes a song from the playlist whose content is shown; `false` when
    /// no playlist is shown or it has no such song.
    pub fn remove_song_from_current_playlist(&mut self, song_idx: usize) -> (r: bool)
        ensures
            r == (match old(self).view_mode {
                ViewMode::PlaylistContent(idx) => idx < old(self).playlists@.len() && song_idx
                    < old(self).playlists@[idx as int].songs@.len(),
                _ => false,
            }),
            r ==> (match old(self).view_mode {
                ViewMode::PlaylistContent(idx) => playlists_model(final(self).playlists@)
                    == playlists_model(old(self).playlists@).update(
                    idx as int,
                    (
                        old(self).playlists@[idx as int].name@,
                        old(self).playlists@[idx as int].songs@.remove(song_idx as int),
                    ),
                ),
                _ => true,
            }),
            final(self).playlists@.len() == old(self).playlists@.len(),
            !r ==> *final(self) == *old(self),
            *final(self) == (App { playlists: final(self).playlists, ..*old(self) }),
    {
        match self.view_mode {
            ViewMode::PlaylistContent(idx) => {
                if idx < self.playlists.len() && song_idx < self.playlists[idx].songs.len() {
                    let ghost old_p = self.playlists@;
                    let mut pl = self.playlists.remove(idx);
                    pl.songs.remove(song_idx);
                    self.playlists.insert(idx, pl);
                    proof {
                        assert(playlists_model(self.playlists@) =~= playlists_model(old_p).update(
                            idx as int,
                            (old_p[idx as int].name@, old_p[idx as int].songs@.remove(song_idx as int)),
                        ));
                    }
                    true
                } else {
                    false
                }
            },
            _ => false,
        }
    }

    /// When a playlist's songs are shown: a selection past the songs the
    /// search leaves moves to the last of them (when there is one).
    pub fn clamp_playlist_selection(&mut self)
        ensures
            *final(self) == (App { pl_content_selected: final(self).pl_content_selected, ..*old(self) }),
            final(self).pl_content_selected == match old(self).view_mode {
                ViewMode::PlaylistContent(pl) => {
                    let n = content_songs(old(self).playlists@, pl as int, old(self).search_query@).len();
                    match old(self).pl_content_selected {
                        Some(sel) => if n > 0 && sel >= n {
                            Some((n - 1) as usize)
                        } else {
                            Some(sel)
                        },
                        None => None,
                    }
                },
                _ => old(self).pl_content_selected,
            },
    {
        match self.view_mode {
            ViewMode::PlaylistContent(pl_idx) => {
                let n = self.current_playlist_songs(pl_idx).len();
                match self.pl_content_selected {
                    Some(sel) => {
                        if n > 0 && sel >= n {
                            self.pl_content_selected = Some(n - 1);
                        }
                    },
                    None => {},
                }
            },
            _ => {},
        }
    }

    /// The songs shown in a playlist's content view: those that the search
    /// query matches (all of them for an empty query).
    pub fn current_playlist_songs(&self, pl_idx: usize) -> (r: Vec<MusicEntry>)
        ensures
            r@ == content_songs(self.playlists@, pl_idx as int, self.search_query@),
    {
        if pl_idx < self.playlists.len() {
            filter_songs(&self.playlists[pl_idx].songs, self.search_query.as_str(), &None)
        } else {
            Vec::new()
        }
    }

    /// The selected song in the current view with the name of the list it is
    /// in (the browse view's own name for the song list).
    pub fn selected_in_current_view(&self) -> (r: Option<(MusicEntry, String)>)
        ensures
            r is Some <==> view_has_selection(*self),
            r is Some ==> r.unwrap().0 == selected_entry(*self),
            match self.view_mode {
                ViewMode::Browse => match selected_song(self.display(), self.selected) {
                    Some(i) => if 0 <= i < self.filtered_music@.len() {
                        r is Some && r.unwrap().0 == self.filtered_music@[i] && r.unwrap().1@ == fill_placeholders(
                            message_text(self.language, "view.browse"@),
                            seq![],
                        )
                    } else {
                        r is None
                    },
                    None => r is None,
                },
                ViewMode::PlaylistContent(pl_idx) => {
                    let shown = content_songs(self.playlists@, pl_idx as int, self.search_query@);
                    if pl_idx < self.playlists@.len() && self.pl_content_selected is Some
                        && self.pl_content_selected->0 < shown.len() {
                        r is Some && r.unwrap().0 == shown[self.pl_content_selected->0 as int] && r.unwrap().1@
                            == self.playlists@[pl_idx as int].name@
                    } else {
                        r is None
                    }
                },
                ViewMode::PlaylistList => r is None,
            },
    {
        match self.view_mode {
            ViewMode::Browse => match self.selected_music() {
                Some(m) => {
                    let args: Vec<String> = Vec::new();
                    proof {
                        assert(strings_model(args@) =~= seq![]);
                    }
                    Some((m.clone(), tf(self.language, "view.browse", &args)))
                },
                None => None,
            },
            ViewMode::PlaylistContent(pl_idx) => {
                if pl_idx >= self.playlists.len() {
                    return None;
                }
                let idx = match self.pl_content_selected {
                    Some(i) => i,
                    None => {
                        return None;
                    },
                };
                let shown = self.current_playlist_songs(pl_idx);
                if idx < shown.len() {
                    Some((shown[idx].clone(), self.playlists[pl_idx].name.clone()))
                } else {
                    None
                }
            },
            ViewMode::PlaylistList => None,
        }
    }
}

/// The browse selection after moving up one song (over album headers).
pub open spec fn browse_up(d: Seq<ItemModel>, sel: Option<usize>) -> Option<usize> {
    let new = skip_headers_back(d, sat_sub(opt_usize(sel), 1));
    if new > 0 || is_song(d, new) {
        Some(new as usize)
    } else {
        sel
    }
}

/// The browse selection after moving down one song (over album headers).
pub open spec fn browse_down(d: Seq<ItemModel>, n_songs: int, sel: Option<usize>) -> Option<usize> {
    if n_songs == 0 {
        sel
    } else {
        let new = skip_headers_forward(d, opt_usize(sel) + 1, sat_sub(d.len() as int, 1));
        if is_song(d, new) {
            Some(new as usize)
        } else {
            sel
        }
    }
}

pub open spec fn step_up(sel: Option<usize>) -> Option<usize> {
    if opt_usize(sel) > 0 {
        Some((opt_usize(sel) - 1) as usize)
    } else {
        sel
    }
}

pub open spec fn step_down(sel: Option<usize>, len: int) -> Option<usize> {
    if opt_usize(sel) + 1 < len {
        Some((opt_usize(sel) + 1) as usize)
    } else {
        sel
    }
}

/// Number of songs of the playlist a view shows (0 when it shows none).
pub open spec fn content_len(p: Seq<Playlist>, mode: ViewMode) -> int {
    match mode {
        ViewMode::PlaylistContent(idx) => if idx < p.len() {
            p[idx as int].songs@.len() as int
        } else {
            0
        },
        _ => 0,
    }
}

/// A selection a page further down, within a list of `len` lines.
pub open spec fn page_down(sel: Option<usize>, len: int) -> Option<usize> {
    Some(min_int(opt_usize(sel) + PAGE, len - 1) as usize)
}

/// The model after moving the selection one line up in the current view.
pub open spec fn navigated_up(o: App) -> App {
    match o.view_mode {
        ViewMode::Browse => App { selected: browse_up(o.display(), o.selected), ..o },
        ViewMode::PlaylistList => App { pl_selected: step_up(o.pl_selected), ..o },
        ViewMode::PlaylistContent(_) => App { pl_content_selected: step_up(o.pl_content_selected), ..o },
    }
}

/// The model after moving the selection one line down in the current view.
pub open spec fn navigated_down(o: App) -> App {
    match o.view_mode {
        ViewMode::Browse => App {
            selected: browse_down(o.display(), o.filtered_music@.len() as int, o.selected),
            ..o
        },
        ViewMode::PlaylistList => App { pl_selected: step_down(o.pl_selected, o.playlists@.len() as int), ..o },
        ViewMode::PlaylistContent(_) => App {
            pl_content_selected: if content_len(o.playlists@, o.view_mode) == 0 {
                o.pl_content_selected
            } else {
                step_down(o.pl_content_selected, content_len(o.playlists@, o.view_mode))
            },
            ..o
        },
    }
}

/// The model after moving the selection a page up in the current view.
pub open spec fn scrolled_up(o: App) -> App {
    match o.view_mode {
        ViewMode::Browse => App {
            selected: clamped_selection(o.display(), Some(sat_sub(opt_usize(o.selected), PAGE as int) as usize)),
            ..o
        },
        ViewMode::PlaylistList => App {
            pl_selected: Some(sat_sub(opt_usize(o.pl_selected), PAGE as int) as usize),
            ..o
        },
        ViewMode::PlaylistContent(_) => App {
            pl_content_selected: Some(sat_sub(opt_usize(o.pl_content_selected), PAGE as int) as usize),
            ..o
        },
    }
}

/// The model after moving the selection a page down in the current view;
/// an empty list keeps its selection.
pub open spec fn scrolled_down(o: App) -> App {
    match o.view_mode {
        ViewMode::Browse => if o.filtered_music@.len() == 0 {
            o
        } else {
            let target = min_int(opt_usize(o.selected) + PAGE, sat_sub(o.display().len() as int, 1));
            App { selected: clamped_selection(o.display(), Some(target as usize)), ..o }
        },
        ViewMode::PlaylistList => if o.playlists@.len() == 0 {
            o
        } else {
            App { pl_selected: page_down(o.pl_selected, o.playlists@.len() as int), ..o }
        },
        ViewMode::PlaylistContent(_) => if content_len(o.playlists@, o.view_mode) == 0 {
            o
        } else {
            App { pl_content_selected: page_down(o.pl_content_selected, content_len(o.playlists@, o.view_mode)), ..o }
        },
    }
}

impl App {
    /// Moves the selection of the current view up by one.
    pub fn navigate_up(&mut self)
        ensures
            *final(self) == navigated_up(*old(self)),
    {
        match self.view_mode {
            ViewMode::Browse => {
                let i = match self.selected {
                    Some(i) => i,
                    None => 0,
                };
                let mut new_idx = if i > 0 {
                    i - 1
                } else {
                    0
                };
                let ghost start = new_idx as int;
                while new_idx > 0 && self.item_is_header(new_idx)
                    invariant
                        skip_headers_back(self.display(), start) == skip_headers_back(
                            self.display(),
                            new_idx as int,
                        ),
                    decreases new_idx,
                {
                    new_idx = new_idx - 1;
                }
                if new_idx > 0 || self.item_is_song(new_idx) {
                    self.selected = Some(new_idx);
                }
            },
            ViewMode::PlaylistList => {
                let i = match self.pl_selected {
                    Some(i) => i,
                    None => 0,
                };
                if i > 0 {
                    self.pl_selected = Some(i - 1);
                }
            },
            ViewMode::PlaylistContent(_) => {
                let i = match self.pl_content_selected {
                    Some(i) => i,
                    None => 0,
                };
                if i > 0 {
                    self.pl_content_selected = Some(i - 1);
                }
            },
        }
    }

    /// Moves the selection of the current view down by one.
    pub fn navigate_down(&mut self)
        requires
            old(self).selections_bounded(),
        ensures
            *final(self) == navigated_down(*old(self)),
    {
        match self.view_mode {
            ViewMode::Browse => {
                if self.filtered_music.len() == 0 {
                    return;
                }
                let i = match self.selected {
                    Some(i) => i,
                    None => 0,
                };
                let mut new_idx = i + 1;
                let max = if self.display_items.len() > 0 {
                    self.display_items.len() - 1
                } else {
                    0
                };
                let ghost start = new_idx as int;
                while new_idx < max && self.item_is_header(new_idx)
                    invariant
                        max == sat_sub(self.display().len() as int, 1),
                        skip_headers_forward(self.display(), start, max as int) == skip_headers_forward(
                            self.display(),
                            new_idx as int,
                            max as int,
                        ),
                    decreases max - new_idx,
                {
                    new_idx = new_idx + 1;
                }
                if self.item_is_song(new_idx) {
                    self.selected = Some(new_idx);
                }
            },
            ViewMode::PlaylistList => {
                let i = match self.pl_selected {
                    Some(i) => i,
                    None => 0,
                };
                if i + 1 < self.playlists.len() {
                    self.pl_selected = Some(i + 1);
                }
            },
            ViewMode::PlaylistContent(_) => {
                let len = match self.current_playlist() {
                    Some(p) => p.songs.len(),
                    None => 0,
                };
                if len == 0 {
                    return;
                }
                let i = match self.pl_content_selected {
                    Some(i) => i,
                    None => 0,
                };
                if i + 1 < len {
                    self.pl_content_selected = Some(i + 1);
                }
            },
        }
    }

    /// Moves the selection of the current view a page up.
    pub fn scroll_up(&mut self)
        ensures
            *final(self) == scrolled_up(*old(self)),
    {
        match self.view_mode {
            ViewMode::Browse => {
                let i = match self.selected {
                    Some(i) => i,
                    None => 0,
                };
                self.selected = Some(if i >= PAGE { i - PAGE } else { 0 });
                self.clamp_selection_to_song();
            },
            ViewMode::PlaylistList => {
                let i = match self.pl_selected {
                    Some(i) => i,
                    None => 0,
                };
                self.pl_selected = Some(if i >= PAGE { i - PAGE } else { 0 });
            },
            ViewMode::PlaylistContent(_) => {
                let i = match self.pl_content_selected {
                    Some(i) => i,
                    None => 0,
                };
                self.pl_content_selected = Some(if i >= PAGE { i - PAGE } else { 0 });
            },
        }
    }

    /// Moves the selection of the current view a page down (not past the
    /// last line).
    pub fn scroll_down(&mut self)
        requires
            old(self).selections_bounded(),
        ensures
            *final(self) == scrolled_down(*old(self)),
    {
        match self.view_mode {
            ViewMode::Browse => {
                if self.filtered_music.len() == 0 {
                    return;
                }
                let i = match self.selected {
                    Some(i) => i,
                    None => 0,
                };
                let last = if self.display_items.len() > 0 {
                    self.display_items.len() - 1
                } else {
                    0
                };
                let target = if i + PAGE < last {
                    i + PAGE
                } else {
                    last
                };
                self.selected = Some(target);
                self.clamp_selection_to_song();
            },
            ViewMode::PlaylistList => {
                if self.playlists.len() == 0 {
                    return;
                }
                let i = match self.pl_selected {
                    Some(i) => i,
                    None => 0,
                };
                let last = self.playlists.len() - 1;
                self.pl_selected = Some(if i + PAGE < last { i + PAGE } else { last });
            },
            ViewMode::PlaylistContent(_) => {
                let len = match self.current_playlist() {
                    Some(p) => p.songs.len(),
                    None => 0,
                };
                if len == 0 {
                    return;
                }
                let i = match self.pl_content_selected {
                    Some(i) => i,
                    None => 0,
                };
                let last = len - 1;
                self.pl_content_selected = Some(if i + PAGE < last { i + PAGE } else { last });
            },
        }
    }
}


// ───────────────────────── help overlay ─────────────────────────

/// The lines of the help overlay: each key with its translated description.
pub open spec fn help_lines(lang: Language) -> Seq<Seq<char>> {
    seq![
        "  "@ + message_text(lang, "help.playback_header"@) + "  "@,
        "  Enter       "@ + message_text(lang, "help.play"@) + "  "@,
        "  Space       "@ + message_text(lang, "help.toggle"@) + "  "@,
        "  s           "@ + message_text(lang, "help.stop"@) + "  "@,
        "  ← / →       "@ + message_text(lang, "help.seek"@) + "  "@,
        "  n           "@ + message_text(lang, "help.next_track"@) + "  "@,
        "  m           "@ + message_text(lang, "help.play_mode"@) + "  "@,
        "  + / =       "@ + message_text(lang, "help.volume"@) + "  "@,
        "  - / _        "@ + "  "@,
        "  "@ + message_text(lang, "help.nav_header"@) + "  "@,
        "  ↑ / ↓       "@ + message_text(lang, "help.nav_up_down"@) + "  "@,
        "  PgUp/PgDn   "@ + message_text(lang, "help.nav_page"@) + "  "@,
        "  g           "@ + message_text(lang, "help.goto_playing"@) + "  "@,
        "  /           "@ + message_text(lang, "help.search"@) + "  "@,
        "  f / F       "@ + message_text(lang, "help.filter_artist"@) + "  "@,
        "  "@ + message_text(lang, "help.queue_header"@) + "  "@,
        "  x           "@ + message_text(lang, "help.queue_play_next"@) + "  "@,
        "  w           "@ + message_text(lang, "help.queue_add"@) + "  "@,
        "  u           "@ + message_text(lang, "help.queue_view"@) + "  "@,
        "  "@ + message_text(lang, "help.playlist_header"@) + "  "@,
        "  a           "@ + message_text(lang, "help.playlist_add"@) + "  "@,
        "  l           "@ + message_text(lang, "help.playlist_manage"@) + "  "@,
        "  c           "@ + message_text(lang, "help.playlist_create"@) + "  "@,
        "  d           "@ + message_text(lang, "help.playlist_delete"@) + "  "@,
        "  "@ + message_text(lang, "help.system_header"@) + "  "@,
        "  r           "@ + message_text(lang, "help.refresh"@) + "  "@,
        "  R           "@ + message_text(lang, "help.config"@) + "  "@,
        "  C           "@ + message_text(lang, "help.cover"@) + "  "@,
        "  L           "@ + message_text(lang, "help.language"@) + "  "@,
        "  h / ?       "@ + message_text(lang, "help.help"@) + "  "@,
        "  q / Esc     "@ + message_text(lang, "help.quit"@) + "  "@,
    ]
}

fn help_line(prefix: &str, text: &str) -> (r: String)
    ensures
        r@ == prefix@ + text@ + "  "@,
{
    let mut r = String::from_str(prefix);
    r.append(text);
    r.append("  ");
    r
}

/// The lines of the help overlay in the given language.
pub fn build_help_lines(lang: Language) -> (r: Vec<String>)
    ensures
        r@.map_values(|l: String| l@) == help_lines(lang),
{
    let mut lines: Vec<String> = Vec::new();
    lines.push(help_line("  ", tr(lang, "help.playback_header")));
    lines.push(help_line("  Enter       ", tr(lang, "help.play")));
    lines.push(help_line("  Space       ", tr(lang, "help.toggle")));
    lines.push(help_line("  s           ", tr(lang, "help.stop")));
    lines.push(help_line("  ← / →       ", tr(lang, "help.seek")));
    lines.push(help_line("  n           ", tr(lang, "help.next_track")));
    lines.push(help_line("  m           ", tr(lang, "help.play_mode")));
    lines.push(help_line("  + / =       ", tr(lang, "help.volume")));
    lines.push(help_line("  - / _        ", ""));
    lines.push(help_line("  ", tr(lang, "help.nav_header")));
    lines.push(help_line("  ↑ / ↓       ", tr(lang, "help.nav_up_down")));
    lines.push(help_line("  PgUp/PgDn   ", tr(lang, "help.nav_page")));
    lines.push(help_line("  g           ", tr(lang, "help.goto_playing")));
    lines.push(help_line("  /           ", tr(lang, "help.search")));
    lines.push(help_line("  f / F       ", tr(lang, "help.filter_artist")));
    lines.push(help_line("  ", tr(lang, "help.queue_header")));
    lines.push(help_line("  x           ", tr(lang, "help.queue_play_next")));
    lines.push(help_line("  w           ", tr(lang, "help.queue_add")));
    lines.push(help_line("  u           ", tr(lang, "help.queue_view")));
    lines.push(help_line("  ", tr(lang, "help.playlist_header")));
    lines.push(help_line("  a           ", tr(lang, "help.playlist_add")));
    lines.push(help_line("  l           ", tr(lang, "help.playlist_manage")));
    lines.push(help_line("  c           ", tr(lang, "help.playlist_create")));
    lines.push(help_line("  d           ", tr(lang, "help.playlist_delete")));
    lines.push(help_line("  ", tr(lang, "help.system_header")));
    lines.push(help_line("  r           ", tr(lang, "help.refresh")));
    lines.push(help_line("  R           ", tr(lang, "help.config")));
    lines.push(help_line("  C           ", tr(lang, "help.cover")));
    lines.push(help_line("  L           ", tr(lang, "help.language")));
    lines.push(help_line("  h / ?       ", tr(lang, "help.help")));
    lines.push(help_line("  q / Esc     ", tr(lang, "help.quit")));
    proof {
        let h = help_lines(lang);
        assert(lines@.len() == h.len());
        reveal_strlit("");
        assert forall|i: int| 0 <= i < h.len() implies lines@.map_values(|l: String| l@)[i] == h[i] by {
            assert(lines@[i]@ == h[i]);
        }
        assert(lines@.map_values(|l: String| l@) =~= help_lines(lang));
    }
    lines
}


// ───────────────────────── laws of the browsing model ─────────────────────────

/// The song indices a display list shows, in order (headers skipped).
pub open spec fn song_indices(items: Seq<ItemModel>) -> Seq<int>
    decreases items.len(),
{
    if items.len() == 0 {
        seq![]
    } else {
        let rest = song_indices(items.drop_last());
        match items.last() {
            ItemModel::Song(k) => rest.push(k),
            ItemModel::Header(_, _, _) => rest,
        }
    }
}

/// The integers `lo..hi` in order.
pub open spec fn int_range(lo: int, hi: int) -> Seq<int> {
    Seq::new((hi - lo) as nat, |k: int| lo + k)
}

proof fn lemma_song_indices_append(a: Seq<ItemModel>, b: Seq<ItemModel>)
    ensures
        song_indices(a + b) == song_indices(a) + song_indices(b),
    decreases b.len(),
{
    if b.len() == 0 {
        assert(a + b =~= a);
        assert(song_indices(a) + song_indices(b) =~= song_indices(a));
    } else {
        lemma_song_indices_append(a, b.drop_last());
        assert((a + b).drop_last() =~= a + b.drop_last());
        assert((a + b).last() == b.last());
        match b.last() {
            ItemModel::Song(k) => {
                assert(song_indices(a) + song_indices(b) =~= (song_indices(a) + song_indices(b.drop_last())).push(k));
            },
            ItemModel::Header(_, _, _) => {},
        }
    }
}

proof fn lemma_song_indices_items(lo: int, hi: int)
    requires
        lo <= hi,
    ensures
        song_indices(song_items(lo, hi)) == int_range(lo, hi),
    decreases hi - lo,
{
    if hi > lo {
        lemma_song_indices_items(lo, hi - 1);
        assert(song_items(lo, hi).drop_last() =~= song_items(lo, hi - 1));
        assert(int_range(lo, hi) =~= int_range(lo, hi - 1).push(hi - 1));
    } else {
        assert(song_items(lo, hi) =~= Seq::<ItemModel>::empty());
        assert(int_range(lo, hi) =~= Seq::<int>::empty());
    }
}

/// The album-grouped display list shows every song of the list exactly
/// once, in the list's order; the headers only stand between them.
pub proof fn lemma_album_display_songs(s: Seq<MusicEntry>, i: int)
    requires
        0 <= i <= s.len(),
    ensures
        song_indices(album_display(s, i)) == int_range(i, s.len() as int),
    decreases s.len() - i,
{
    if i == s.len() {
        assert(album_display(s, i) =~= Seq::<ItemModel>::empty());
        assert(int_range(i, s.len() as int) =~= Seq::<int>::empty());
    } else if s[i].album@.len() == 0 {
        lemma_album_display_songs(s, i + 1);
        lemma_song_indices_append(seq![ItemModel::Song(i)], album_display(s, i + 1));
        assert(song_indices(seq![ItemModel::Song(i)]) =~= seq![i]) by {
            assert(seq![ItemModel::Song(i)].drop_last() =~= Seq::<ItemModel>::empty());
            assert(song_indices(Seq::<ItemModel>::empty()) == Seq::<int>::empty());
            assert(seq![ItemModel::Song(i)].last() == ItemModel::Song(i));
        }
        assert(seq![i] + int_range(i + 1, s.len() as int) =~= int_range(i, s.len() as int));
    } else {
        let j = group_end(s, s[i].album@, i + 1);
        lemma_group_end(s, s[i].album@, i + 1);
        lemma_album_display_songs(s, j);
        let h = seq![ItemModel::Header(s[i].album@, s[i].artist@, j - i)];
        lemma_song_indices_append(h, song_items(i, j));
        lemma_song_indices_append(h + song_items(i, j), album_display(s, j));
        lemma_song_indices_items(i, j);
        assert(song_indices(h) =~= Seq::<int>::empty()) by {
            assert(h.drop_last() =~= Seq::<ItemModel>::empty());
            assert(song_indices(Seq::<ItemModel>::empty()) == Seq::<int>::empty());
            assert(h.last() == ItemModel::Header(s[i].album@, s[i].artist@, j - i));
        }
        assert(int_range(i, j) + int_range(j, s.len() as int) =~= int_range(i, s.len() as int));
        assert(Seq::<int>::empty() + int_range(i, j) =~= int_range(i, j));
    }
}

proof fn lemma_first_song_in(d: Seq<ItemModel>, lo: int, hi: int)
    ensures
        first_song_in(d, lo, hi) >= 0 ==> is_song(d, first_song_in(d, lo, hi)),
        first_song_in(d, lo, hi) < 0 ==> forall|k: int| lo <= k <= hi ==> !is_song(d, k),
    decreases hi - lo + 1,
{
    if lo <= hi && !is_song(d, lo) {
        lemma_first_song_in(d, lo + 1, hi);
    }
}

proof fn lemma_last_song_before(d: Seq<ItemModel>, hi: int)
    ensures
        last_song_before(d, hi) >= 0 ==> is_song(d, last_song_before(d, hi)),
        last_song_before(d, hi) < 0 ==> forall|k: int| 0 <= k < hi ==> !is_song(d, k),
    decreases hi,
{
    if hi > 0 && !is_song(d, hi - 1) {
        lemma_last_song_before(d, hi - 1);
    }
}

/// Album headers cannot be selected: when the display list holds a song,
/// clamping any selection lands on a song.
pub proof fn lemma_clamp_lands_on_song(d: Seq<ItemModel>, di: int)
    requires
        0 <= di,
        exists|k: int| is_song(d, k),
    ensures
        is_song(d, clamp_target(d, di)),
{
    let max = d.len() - 1;
    let c = if di < max {
        di
    } else {
        max
    };
    let k = choose|k: int| is_song(d, k);
    if is_header(d, c) {
        lemma_first_song_in(d, c + 1, max);
        lemma_last_song_before(d, c);
        if first_song_in(d, c + 1, max) < 0 && last_song_before(d, c) < 0 {
            assert(k != c);
            assert(false);
        }
    } else {
        assert(0 <= c < d.len());
    }
}

/// Adding a song that a playlist already holds changes nothing: adding the
/// same song twice is adding it once.
pub proof fn lemma_add_song_twice(pm: Seq<(Seq<char>, Seq<MusicEntry>)>, idx: int, m: MusicEntry)
    ensures
        added_song(added_song(pm, idx, m), idx, m) == added_song(pm, idx, m),
{
    let once = added_song(pm, idx, m);
    if 0 <= idx < pm.len() && !exists|j: int|
        0 <= j < pm[idx].1.len() && #[trigger] pm[idx].1[j].absolute_path@ == m.absolute_path@ {
        let k = pm[idx].1.len() as int;
        assert(once[idx].1[k] == m);
        assert(0 <= k < once[idx].1.len() && once[idx].1[k].absolute_path@ == m.absolute_path@);
    }
}

proof fn lemma_skip_forward_to(d: Seq<ItemModel>, n: int, max: int, k: int)
    requires
        n <= k <= max,
        !is_header(d, k),
        forall|j: int| n <= j < k ==> is_header(d, j),
    ensures
        skip_headers_forward(d, n, max) == k,
    decreases k - n,
{
    if n < k {
        lemma_skip_forward_to(d, n + 1, max, k);
    }
}

proof fn lemma_skip_back_to(d: Seq<ItemModel>, n: int, k: int)
    requires
        0 <= k <= n,
        !is_header(d, k),
        forall|j: int| k < j <= n ==> is_header(d, j),
    ensures
        skip_headers_back(d, n) == k,
    decreases n - k,
{
    if k < n {
        lemma_skip_back_to(d, n - 1, k);
    }
}

/// In the browse view, moving down selects the next song line, skipping
/// the album headers between; moving up selects the song line before,
/// skipping headers the same way. Nothing else changes.
pub proof fn lemma_browse_steps_over_headers(o: App, i: usize, k: int)
    requires
        o.view_mode == ViewMode::Browse,
        o.filtered_music@.len() > 0,
        o.selected == Some(i),
        0 <= k < o.display().len(),
        k != i,
        is_song(o.display(), k),
        forall|j: int| (i < j < k || k < j < i) ==> is_header(o.display(), j),
    ensures
        i < k ==> navigated_down(o) == (App { selected: Some(k as usize), ..o }),
        k < i ==> navigated_up(o) == (App { selected: Some(k as usize), ..o }),
{
    let d = o.display();
    if i < k {
        lemma_skip_forward_to(d, i + 1, sat_sub(d.len() as int, 1), k);
    } else {
        lemma_skip_back_to(d, i - 1, k);
    }
}

/// Moving through a playlist's songs goes one song at a time within the
/// playlist's length: down from song `i` selects `i + 1` while there is one,
/// and stays on the last song; up from `i > 0` selects `i - 1`. Nothing else
/// changes.
pub proof fn lemma_playlist_content_steps(o: App, idx: usize, i: usize)
    requires
        o.view_mode == ViewMode::PlaylistContent(idx),
        idx < o.playlists@.len(),
        o.pl_content_selected == Some(i),
    ensures
        i + 1 < o.playlists@[idx as int].songs@.len() ==> navigated_down(o) == (App {
            pl_content_selected: Some((i + 1) as usize),
            ..o
        }),
        i + 1 >= o.playlists@[idx as int].songs@.len() ==> navigated_down(o) == o,
        i > 0 ==> navigated_up(o) == (App { pl_content_selected: Some((i - 1) as usize), ..o }),
        i == 0 ==> navigated_up(o) == o,
{
}

/// Moving through the playlist list goes one playlist at a time within the
/// number of playlists.
pub proof fn lemma_playlist_list_steps(o: App, i: usize)
    requires
        o.view_mode == ViewMode::PlaylistList,
        o.pl_selected == Some(i),
    ensures
        i + 1 < o.playlists@.len() ==> navigated_down(o) == (App { pl_selected: Some((i + 1) as usize), ..o }),
        i + 1 >= o.playlists@.len() ==> navigated_down(o) == o,
        i > 0 ==> navigated_up(o) == (App { pl_selected: Some((i - 1) as usize), ..o }),
{
}

/// A page down in a playlist's songs moves a page further, but not past
/// the playlist's last song.
pub proof fn lemma_playlist_content_page(o: App, idx: usize, i: usize)
    requires
        o.view_mode == ViewMode::PlaylistContent(idx),
        idx < o.playlists@.len(),
        o.playlists@[idx as int].songs@.len() > 0,
        o.pl_content_selected == Some(i),
    ensures
        scrolled_down(o).pl_content_selected == Some(
            (if i + PAGE < o.playlists@[idx as int].songs@.len() {
                i + PAGE
            } else {
                o.playlists@[idx as int].songs@.len() - 1
            }) as usize,
        ),
        scrolled_down(o) == (App { pl_content_selected: scrolled_down(o).pl_content_selected, ..o }),
{
}

/// No two songs of the list share a path.
pub open spec fn distinct_paths(s: Seq<MusicEntry>) -> bool {
    forall|a: int, b: int| 0 <= a < b < s.len() ==> (#[trigger] s[a]).absolute_path@ != (#[trigger] s[b]).absolute_path@
}

/// Adding a song to a playlist that already holds a song with its path
/// changes no playlist.
pub proof fn lemma_add_held_song(pm: Seq<(Seq<char>, Seq<MusicEntry>)>, idx: int, m: MusicEntry, j: int)
    requires
        0 <= idx < pm.len(),
        0 <= j < pm[idx].1.len(),
        pm[idx].1[j].absolute_path@ == m.absolute_path@,
    ensures
        added_song(pm, idx, m) == pm,
{
    assert(pm[idx].1[j].absolute_path@ == m.absolute_path@);
}

/// Adding a song appends it to the playlist when no song there has its path
/// (the other playlists stay), and a playlist whose songs all have distinct
/// paths keeps them distinct.
pub proof fn lemma_add_keeps_paths_distinct(pm: Seq<(Seq<char>, Seq<MusicEntry>)>, idx: int, m: MusicEntry)
    requires
        0 <= idx < pm.len(),
    ensures
        added_song(pm, idx, m).len() == pm.len(),
        forall|k: int| 0 <= k < pm.len() && k != idx ==> added_song(pm, idx, m)[k] == pm[k],
        added_song(pm, idx, m)[idx].0 == pm[idx].0,
        (forall|j: int| 0 <= j < pm[idx].1.len() ==> pm[idx].1[j].absolute_path@ != m.absolute_path@)
            ==> added_song(pm, idx, m)[idx].1 == pm[idx].1.push(m),
        distinct_paths(pm[idx].1) ==> distinct_paths(added_song(pm, idx, m)[idx].1),
{
    let songs = pm[idx].1;
    if forall|j: int| 0 <= j < songs.len() ==> songs[j].absolute_path@ != m.absolute_path@ {
        assert(!exists|j: int| 0 <= j < songs.len() && #[trigger] songs[j].absolute_path@ == m.absolute_path@);
        let ns = songs.push(m);
        if distinct_paths(songs) {
            assert forall|a: int, b: int| 0 <= a < b < ns.len() implies (#[trigger] ns[a]).absolute_path@
                != (#[trigger] ns[b]).absolute_path@ by {
                if b == songs.len() {
                    assert(ns[a] == songs[a]);
                } else {
                    assert(ns[a] == songs[a]);
                    assert(ns[b] == songs[b]);
                }
            }
        }
    } else {
        let j = choose|j: int| 0 <= j < songs.len() && songs[j].absolute_path@ == m.absolute_path@;
        lemma_add_held_song(pm, idx, m, j);
    }
}

/// Every song the browse view lists passes the search query and the artist
/// filter, and every song of the list that passes them is listed.
pub proof fn lemma_listed_songs(all: Seq<MusicEntry>, q: Seq<char>, artist: Option<Seq<char>>)
    ensures
        forall|i: int| 0 <= i < listed_songs(all, q, artist).len() ==> listed(#[trigger] listed_songs(all, q, artist)[i], q, artist),
        forall|i: int| 0 <= i < all.len() && listed(#[trigger] all[i], q, artist) ==> listed_songs(all, q, artist).contains(all[i]),
{
    let p = |m: MusicEntry| listed(m, q, artist);
    all.lemma_filter_len(p);
    assert forall|i: int| 0 <= i < listed_songs(all, q, artist).len() implies listed(
        #[trigger] listed_songs(all, q, artist)[i],
        q,
        artist,
    ) by {
        all.lemma_filter_pred(p, i);
    }
    assert forall|i: int| 0 <= i < all.len() && listed(#[trigger] all[i], q, artist) implies listed_songs(
        all,
        q,
        artist,
    ).contains(all[i]) by {
        all.lemma_filter_contains(p, i);
    }
}


impl App {
    /// Whether every selection has room for a page step (see
    /// `selections_bounded`).
    pub fn selections_ok(&self) -> (r: bool)
        ensures
            r == self.selections_bounded(),
    {
        let a = match self.selected {
            Some(i) => i,
            None => 0,
        };
        let b = match self.pl_selected {
            Some(i) => i,
            None => 0,
        };
        let c = match self.pl_content_selected {
            Some(i) => i,
            None => 0,
        };
        a < usize::MAX - PAGE && b < usize::MAX - PAGE && c < usize::MAX - PAGE
    }
}

} // verus!
