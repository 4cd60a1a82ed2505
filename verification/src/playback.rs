//! What plays next: the play queue first, then the play mode walking the list
//! the playing song came from (sequentially or in a shuffled order), and how
//! a song that is asked for gets played.

use vstd::prelude::*;
use crate::i18n::{message, message1, message_with, plain_message};
use crate::player::{is_permutation_of_range, PlayMode, PlayerState, Playback, ShuffleState, TrackInfo};
use crate::lyrics::Lyrics;
use crate::server::{backend_stream_url, MusicEntry, MusicServer};
use crate::store::LastPlayed;
use crate::text::{starts_with, str_starts_with};
use crate::ui::{
    content_songs, decimal, decimal_string, duration_text, format_duration, selected_entry, selected_song, view_has_selection, App,
    PlayingSource, ViewMode,
};

verus! {

/// Index of the first song of `s` with path `p`, or -1.
pub open spec fn pos_of_path(s: Seq<MusicEntry>, p: Seq<char>) -> int
    decreases s.len(),
{
    if s.len() == 0 {
        -1
    } else if s[0].absolute_path@ == p {
        0
    } else {
        let r = pos_of_path(s.drop_first(), p);
        if r < 0 {
            -1
        } else {
            r + 1
        }
    }
}

pub proof fn lemma_pos_of_path(s: Seq<MusicEntry>, p: Seq<char>)
    ensures
        -1 <= pos_of_path(s, p) < s.len(),
        pos_of_path(s, p) >= 0 ==> s[pos_of_path(s, p)].absolute_path@ == p,
        forall|j: int| 0 <= j < s.len() && (pos_of_path(s, p) < 0 || j < pos_of_path(s, p))
            ==> s[j].absolute_path@ != p,
    decreases s.len(),
{
    if s.len() > 0 && s[0].absolute_path@ != p {
        lemma_pos_of_path(s.drop_first(), p);
        assert forall|j: int| 0 <= j < s.len() && (pos_of_path(s, p) < 0 || j < pos_of_path(s, p))
            implies s[j].absolute_path@ != p by {
            if j > 0 {
                assert(s[j] == s.drop_first()[j - 1]);
            }
        }
    }
}

/// Position of the first song with the given path.
pub fn position_of_path(s: &Vec<MusicEntry>, p: &String) -> (r: Option<usize>)
    ensures
        match r {
            Some(i) => pos_of_path(s@, p@) == i,
            None => pos_of_path(s@, p@) < 0,
        },
{
    let mut k: usize = 0;
    proof {
        lemma_pos_of_path(s@, p@);
    }
    while k < s.len()
        invariant
            k <= s.len(),
            forall|j: int| 0 <= j < k ==> s@[j].absolute_path@ != p@,
            -1 <= pos_of_path(s@, p@) < s@.len(),
            pos_of_path(s@, p@) >= 0 ==> s@[pos_of_path(s@, p@)].absolute_path@ == p@,
            forall|j: int| 0 <= j < s@.len() && (pos_of_path(s@, p@) < 0 || j < pos_of_path(s@, p@))
                ==> s@[j].absolute_path@ != p@,
        decreases s.len() - k,
    {
        if s[k].absolute_path == *p {
            return Some(k);
        }
        k = k + 1;
    }
    None
}

/// The list that the play modes walk: the filtered song list for a song
/// played from the browse view; for one from a playlist, the playlist, or
/// only its songs that the search shows while a search is active.
pub open spec fn source_list(a: App) -> Seq<MusicEntry> {
    match a.playing_source {
        Some(PlayingSource::Browse(_)) => a.filtered_music@,
        Some(PlayingSource::PlaylistContent(pl, _)) => if a.search_query@.len() == 0 {
            if pl < a.playlists@.len() {
                a.playlists@[pl as int].songs@
            } else {
                seq![]
            }
        } else {
            content_songs(a.playlists@, pl as int, a.search_query@)
        },
        None => seq![],
    }
}

/// Number of songs in the list the play modes walk.
pub fn current_list_len(app: &App) -> (r: usize)
    ensures
        r == source_list(*app).len(),
{
    match app.playing_source {
        Some(PlayingSource::Browse(_)) => app.filtered_music.len(),
        Some(PlayingSource::PlaylistContent(pl_idx, _)) => {
            if app.search_query.as_str().unicode_len() == 0 {
                if pl_idx < app.playlists.len() {
                    app.playlists[pl_idx].songs.len()
                } else {
                    0
                }
            } else {
                app.current_playlist_songs(pl_idx).len()
            }
        },
        None => 0,
    }
}

/// The song at `idx` of the list the play modes walk.
pub fn resolve_song_by_index(app: &App, idx: usize) -> (r: Option<MusicEntry>)
    ensures
        r == (if idx < source_list(*app).len() {
            Some(source_list(*app)[idx as int])
        } else {
            None
        }),
{
    match app.playing_source {
        Some(PlayingSource::Browse(_)) => if idx < app.filtered_music.len() {
            Some(app.filtered_music[idx].clone())
        } else {
            None
        },
        Some(PlayingSource::PlaylistContent(pl_idx, _)) => {
            if app.search_query.as_str().unicode_len() == 0 {
                if pl_idx < app.playlists.len() && idx < app.playlists[pl_idx].songs.len() {
                    Some(app.playlists[pl_idx].songs[idx].clone())
                } else {
                    None
                }
            } else {
                let shown = app.current_playlist_songs(pl_idx);
                if idx < shown.len() {
                    Some(shown[idx].clone())
                } else {
                    None
                }
            }
        },
        None => None,
    }
}

/// The playing source moved to index `idx` of the walked list (for a
/// filtered playlist, to the song's index in the whole playlist).
pub open spec fn source_at(a: App, idx: usize) -> Option<PlayingSource> {
    match a.playing_source {
        Some(PlayingSource::Browse(_)) => Some(PlayingSource::Browse(idx)),
        Some(PlayingSource::PlaylistContent(pl, si)) => if a.search_query@.len() == 0 {
            Some(PlayingSource::PlaylistContent(pl, idx))
        } else {
            let shown = content_songs(a.playlists@, pl as int, a.search_query@);
            if idx < shown.len() && pl < a.playlists@.len() && pos_of_path(
                a.playlists@[pl as int].songs@,
                shown[idx as int].absolute_path@,
            ) >= 0 {
                Some(
                    PlayingSource::PlaylistContent(
                        pl,
                        pos_of_path(a.playlists@[pl as int].songs@, shown[idx as int].absolute_path@) as usize,
                    ),
                )
            } else {
                a.playing_source
            }
        },
        None => None,
    }
}

/// Moves the playing source to index `idx` of the walked list.
pub fn update_playing_source_index(app: &mut App, idx: usize)
    ensures
        *final(app) == (App { playing_source: source_at(*old(app), idx), ..*old(app) }),
{
    match app.playing_source {
        Some(PlayingSource::Browse(_)) => {
            app.playing_source = Some(PlayingSource::Browse(idx));
        },
        Some(PlayingSource::PlaylistContent(pl_idx, _)) => {
            if app.search_query.as_str().unicode_len() == 0 {
                app.playing_source = Some(PlayingSource::PlaylistContent(pl_idx, idx));
            } else {
                let shown = app.current_playlist_songs(pl_idx);
                if idx < shown.len() && pl_idx < app.playlists.len() {
                    match position_of_path(&app.playlists[pl_idx].songs, &shown[idx].absolute_path) {
                        Some(found) => {
                            app.playing_source = Some(PlayingSource::PlaylistContent(pl_idx, found));
                        },
                        None => {},
                    }
                }
            }
        },
        None => {},
    }
}

// ───────────────────────── sequential order ─────────────────────────

/// The playing source can be stepped without overflow, and a playlist song
/// that a search walks from exists.
pub open spec fn source_valid(a: App) -> bool {
    match a.playing_source {
        Some(PlayingSource::Browse(i)) => i < usize::MAX,
        Some(PlayingSource::PlaylistContent(pl, si)) => si < usize::MAX && (pl < a.playlists@.len()
            && a.search_query@.len() > 0 ==> si < a.playlists@[pl as int].songs@.len()),
        None => true,
    }
}

/// The song after the playing one in the walked list and the source it
/// plays from; none at the end of the list. With a search active in a
/// playlist, the walk follows the songs the search shows.
pub open spec fn sequential_next(a: App) -> Option<(MusicEntry, PlayingSource)> {
    match a.playing_source {
        Some(PlayingSource::Browse(idx)) => if idx + 1 < a.filtered_music@.len() {
            Some((a.filtered_music@[idx + 1], PlayingSource::Browse((idx + 1) as usize)))
        } else {
            None
        },
        Some(PlayingSource::PlaylistContent(pl, si)) => if pl < a.playlists@.len() {
            let songs = a.playlists@[pl as int].songs@;
            if a.search_query@.len() == 0 {
                if si + 1 < songs.len() {
                    Some((songs[si + 1], PlayingSource::PlaylistContent(pl, (si + 1) as usize)))
                } else {
                    None
                }
            } else {
                let shown = content_songs(a.playlists@, pl as int, a.search_query@);
                let p = pos_of_path(shown, songs[si as int].absolute_path@);
                if p >= 0 && p + 1 < shown.len() {
                    let nx = shown[p + 1];
                    let at = pos_of_path(songs, nx.absolute_path@);
                    if at >= 0 {
                        Some((nx, PlayingSource::PlaylistContent(pl, at as usize)))
                    } else {
                        None
                    }
                } else {
                    None
                }
            }
        } else {
            None
        },
        None => None,
    }
}

/// The song after `song_idx` among a playlist's songs that the search shows,
/// and its index in the whole playlist.
fn next_in_search(app: &App, pl_idx: usize, song_idx: usize) -> (r: Option<(MusicEntry, usize)>)
    requires
        pl_idx < app.playlists@.len(),
        song_idx < app.playlists@[pl_idx as int].songs@.len(),
    ensures
        ({
            let songs = app.playlists@[pl_idx as int].songs@;
            let shown = content_songs(app.playlists@, pl_idx as int, app.search_query@);
            let p = pos_of_path(shown, songs[song_idx as int].absolute_path@);
            r == (if p >= 0 && p + 1 < shown.len() && pos_of_path(songs, shown[p + 1].absolute_path@) >= 0 {
                Some((shown[p + 1], pos_of_path(songs, shown[p + 1].absolute_path@) as usize))
            } else {
                None
            })
        }),
{
    let shown = app.current_playlist_songs(pl_idx);
    proof {
        lemma_pos_of_path(shown@, app.playlists@[pl_idx as int].songs@[song_idx as int].absolute_path@);
    }
    match position_of_path(&shown, &app.playlists[pl_idx].songs[song_idx].absolute_path) {
        Some(p) => {
            if p < shown.len() - 1 {
                let nx = shown[p + 1].clone();
                match position_of_path(&app.playlists[pl_idx].songs, &nx.absolute_path) {
                    Some(at) => Some((nx, at)),
                    None => None,
                }
            } else {
                None
            }
        },
        None => None,
    }
}

/// The next song in order; the playing source moves to it.
pub fn advance_sequential(app: &mut App) -> (r: Option<MusicEntry>)
    requires
        source_valid(*old(app)),
    ensures
        match sequential_next(*old(app)) {
            Some((m, src)) => r == Some(m) && *final(app) == (App {
                playing_source: Some(src),
                ..*old(app)
            }),
            None => r is None && *final(app) == *old(app),
        },
{
    match app.playing_source {
        Some(PlayingSource::Browse(idx)) => {
            let next = idx + 1;
            if next < app.filtered_music.len() {
                app.playing_source = Some(PlayingSource::Browse(next));
                Some(app.filtered_music[next].clone())
            } else {
                None
            }
        },
        Some(PlayingSource::PlaylistContent(pl_idx, song_idx)) => {
            if pl_idx >= app.playlists.len() {
                return None;
            }
            if app.search_query.as_str().unicode_len() == 0 {
                let next = song_idx + 1;
                if next < app.playlists[pl_idx].songs.len() {
                    app.playing_source = Some(PlayingSource::PlaylistContent(pl_idx, next));
                    Some(app.playlists[pl_idx].songs[next].clone())
                } else {
                    None
                }
            } else {
                match next_in_search(app, pl_idx, song_idx) {
                    Some((nx, at)) => {
                        app.playing_source = Some(PlayingSource::PlaylistContent(pl_idx, at));
                        Some(nx)
                    },
                    None => None,
                }
            }
        },
        None => None,
    }
}

// ───────────────────────── shuffled order ─────────────────────────

/// The index a fresh shuffle must not start with: the playing song's index
/// in the walked list.
pub open spec fn shuffle_exclude(a: App) -> Option<usize> {
    match a.playing_source {
        Some(PlayingSource::Browse(i)) => Some(i),
        Some(PlayingSource::PlaylistContent(pl, si)) => if a.search_query@.len() == 0 {
            Some(si)
        } else if pl < a.playlists@.len() && si < a.playlists@[pl as int].songs@.len() {
            let p = pos_of_path(
                content_songs(a.playlists@, pl as int, a.search_query@),
                a.playlists@[pl as int].songs@[si as int].absolute_path@,
            );
            if p >= 0 {
                Some(p as usize)
            } else {
                None
            }
        } else {
            None
        },
        None => None,
    }
}

/// After index `i` of the walked list was drawn from the shuffle order and
/// what remains of the order is `rest`: the song at `i` is returned and the
/// playing source moves to it.
pub open spec fn drawn(o: App, n: App, i: usize, r: Option<MusicEntry>) -> bool {
    &&& r == (if i < source_list(o).len() {
        Some(source_list(o)[i as int])
    } else {
        None
    })
    &&& n == (App {
        player: Playback { shuffle_state: n.player.shuffle_state, ..o.player },
        playing_source: if r is Some {
            source_at(o, i)
        } else {
            o.playing_source
        },
        ..o
    })
}

/// What drawing the next song of the shuffle order does: take the next
/// index of the current order; when it is used up and the list has more
/// than one song, shuffle the list anew, never starting with the playing
/// song, and take the first index of that.
pub open spec fn shuffle_post(o: App, n: App, r: Option<MusicEntry>) -> bool {
    let pending = match o.player.shuffle_state {
        Some(s) => s@.len() > 0,
        None => false,
    };
    if pending {
        let s = o.player.shuffle_state->0@;
        &&& drawn(o, n, s.last(), r)
        &&& n.player.shuffle_state is Some
        &&& n.player.shuffle_state->0@ == s.drop_last()
    } else if source_list(o).len() > 1 {
        exists|i: usize|
            {
                &&& i < source_list(o).len()
                &&& (shuffle_exclude(o) matches Some(ex) ==> i != ex)
                &&& n.player.shuffle_state is Some
                &&& is_permutation_of_range(
                    n.player.shuffle_state->0@.push(i),
                    source_list(o).len() as nat,
                )
                &&& #[trigger] drawn(o, n, i, r)
            }
    } else {
        r is None && n == o
    }
}

fn exclude_index(app: &App) -> (r: Option<usize>)
    ensures
        r == shuffle_exclude(*app),
{
    match app.playing_source {
        Some(PlayingSource::Browse(i)) => Some(i),
        Some(PlayingSource::PlaylistContent(pl_idx, si)) => {
            if app.search_query.as_str().unicode_len() == 0 {
                Some(si)
            } else if pl_idx < app.playlists.len() && si < app.playlists[pl_idx].songs.len() {
                let shown = app.current_playlist_songs(pl_idx);
                position_of_path(&shown, &app.playlists[pl_idx].songs[si].absolute_path)
            } else {
                None
            }
        },
        None => None,
    }
}

/// The song at drawn index `idx`; the playing source moves to it.
fn take_drawn(app: &mut App, idx: usize) -> (r: Option<MusicEntry>)
    ensures
        r == (if idx < source_list(*old(app)).len() {
            Some(source_list(*old(app))[idx as int])
        } else {
            None
        }),
        *final(app) == (App {
            playing_source: if r is Some {
                source_at(*old(app), idx)
            } else {
                old(app).playing_source
            },
            ..*old(app)
        }),
{
    let music = resolve_song_by_index(app, idx);
    if music.is_some() {
        update_playing_source_index(app, idx);
    }
    music
}

pub open spec fn shuffle_pending(o: App) -> bool {
    match o.player.shuffle_state {
        Some(s) => s@.len() > 0,
        None => false,
    }
}

/// Shuffles the walked list anew and draws its first index.
fn reshuffle_and_draw(app: &mut App) -> (r: Option<MusicEntry>)
    requires
        !shuffle_pending(*old(app)),
    ensures
        shuffle_post(*old(app), *final(app), r),
{
    let count = current_list_len(app);
    if count > 1 {
        let exclude = exclude_index(app);
        let st = ShuffleState::new(count, exclude);
        let ghost sv = st@;
        app.player.shuffle_state = Some(st);
        let ghost mid = *app;
        match app.player.next_shuffle_index() {
            Some(idx) => {
                let ghost after_pop = *app;
                let r = take_drawn(app, idx);
                proof {
                    let rest = app.player.shuffle_state->0@;
                    assert(rest.push(idx) =~= sv);
                    crate::player::lemma_permutation_no_duplicates(sv, count as nat);
                    assert(idx == sv[sv.len() - 1]);
                    assert(idx < count);
                    assert(drawn(*old(app), *app, idx, r));
                }
                r
            },
            None => {
                proof {
                    assert(false);
                }
                None
            },
        }
    } else {
        None
    }
}

/// The next song in the shuffled order (see `shuffle_post`).
pub fn advance_shuffle(app: &mut App) -> (r: Option<MusicEntry>)
    ensures
        shuffle_post(*old(app), *final(app), r),
{
    let ghost o = *app;
    match app.player.next_shuffle_index() {
        Some(idx) => {
            let r = take_drawn(app, idx);
            proof {
                assert(drawn(o, *app, idx, r));
            }
            return r;
        },
        None => {},
    }
    proof {
        assert(app.player == o.player);
    }
    reshuffle_and_draw(app)
}

/// After a track starts in shuffle mode without a shuffle order, one is
/// made for the walked list (when it has more than one song); nothing else
/// changes.
pub open spec fn play_started(o: App, n: App) -> bool {
    if o.player.play_mode == PlayMode::Shuffle && o.player.shuffle_state is None && source_list(o).len() > 1 {
        &&& n.player.shuffle_state is Some
        &&& is_permutation_of_range(n.player.shuffle_state->0@, source_list(o).len() as nat)
        &&& n == (App { player: Playback { shuffle_state: n.player.shuffle_state, ..o.player }, ..o })
    } else {
        n == o
    }
}

/// Makes the shuffle order a started track needs (see `play_started`).
pub fn on_play_started(app: &mut App)
    ensures
        play_started(*old(app), *final(app)),
{
    if app.player.play_mode == PlayMode::Shuffle && app.player.shuffle_state.is_none() {
        let count = current_list_len(app);
        if count > 1 {
            app.player.shuffle_state = Some(ShuffleState::new(count, None));
        }
    }
}

// ───────────────────────── auto-next ─────────────────────────

/// What the program does when a track has finished.
#[derive(Debug)]
pub enum AutoNext {
    /// Play this song.
    Play(MusicEntry),
    /// Play the current track again from its beginning.
    Restart,
    /// Nothing is left to play; playback has stopped.
    Stopped,
    /// Nothing happens.
    Idle,
}

/// Where a song taken from the queue plays from: its first occurrence in
/// the list the playing song came from, if it is there.
pub open spec fn queued_source(a: App, path: Seq<char>) -> Option<PlayingSource> {
    match a.playing_source {
        Some(PlayingSource::Browse(_)) => if pos_of_path(a.filtered_music@, path) >= 0 {
            Some(PlayingSource::Browse(pos_of_path(a.filtered_music@, path) as usize))
        } else {
            None
        },
        Some(PlayingSource::PlaylistContent(pl, _)) => if pl < a.playlists@.len() && pos_of_path(
            a.playlists@[pl as int].songs@,
            path,
        ) >= 0 {
            Some(
                PlayingSource::PlaylistContent(
                    pl,
                    pos_of_path(a.playlists@[pl as int].songs@, path) as usize,
                ),
            )
        } else {
            None
        },
        None => None,
    }
}

/// The player after a stop.
pub open spec fn stopped(p: Playback) -> Playback {
    Playback {
        state: PlayerState::Stopped,
        current_track: None,
        audio_data: None,
        seek_offset_ms: 0,
        ..p
    }
}

/// The model after the end of the list: playback stopped, with a message.
pub open spec fn ended(o: App, n: App, key: Seq<char>) -> bool {
    &&& n == (App { player: stopped(o.player), status_message: n.status_message, ..o })
    &&& n.status_message@ == plain_message(o.language, key)
}

/// What happens when a track has finished: a queued song plays first;
/// otherwise single-repeat restarts the track, sequential plays the next
/// song of the list and shuffle the next of the shuffled order, and playback
/// stops at the end of the list.
pub open spec fn auto_next_post(o: App, n: App, r: AutoNext) -> bool {
    let q = o.player.queue@;
    if q.len() > 0 {
        &&& r == AutoNext::Play(q[0])
        &&& n.player.queue@ == q.drop_first()
        &&& n == (App {
            player: Playback { queue: n.player.queue, ..o.player },
            playing_source: queued_source(o, q[0].absolute_path@),
            ..o
        })
    } else {
        match o.player.play_mode {
            PlayMode::SingleRepeat => if o.player.audio_data is Some {
                &&& r == AutoNext::Restart
                &&& n == (App { status_message: n.status_message, ..o })
                &&& n.status_message@ == plain_message(o.language, "status.single_repeat"@)
            } else {
                r == AutoNext::Idle && n == o
            },
            PlayMode::Sequential => match sequential_next(o) {
                Some((m, src)) => r == AutoNext::Play(m) && n == (App { playing_source: Some(src), ..o }),
                None => r == AutoNext::Stopped && ended(o, n, "status.playlist_end"@),
            },
            PlayMode::Shuffle => exists|mid: App, m: Option<MusicEntry>|
                #[trigger] shuffle_post(o, mid, m) && match m {
                    Some(x) => r == AutoNext::Play(x) && n == mid,
                    None => r == AutoNext::Stopped && ended(mid, n, "status.shuffle_end"@),
                },
        }
    }
}

/// Takes the front of the queue; the playing source moves to it when the
/// current list holds it.
fn play_from_queue(app: &mut App) -> (r: AutoNext)
    requires
        old(app).player.queue@.len() > 0,
    ensures
        auto_next_post(*old(app), *final(app), r),
{
    let music = match app.player.queue.pop_front() {
        Some(m) => m,
        None => {
            return AutoNext::Idle;
        },
    };
    match app.playing_source {
        Some(PlayingSource::Browse(_)) => {
            app.playing_source = match position_of_path(&app.filtered_music, &music.absolute_path) {
                Some(idx) => Some(PlayingSource::Browse(idx)),
                None => None,
            };
        },
        Some(PlayingSource::PlaylistContent(pl_idx, _)) => {
            if pl_idx < app.playlists.len() {
                app.playing_source = match position_of_path(&app.playlists[pl_idx].songs, &music.absolute_path) {
                    Some(si) => Some(PlayingSource::PlaylistContent(pl_idx, si)),
                    None => None,
                };
            } else {
                app.playing_source = None;
            }
        },
        None => {},
    }
    AutoNext::Play(music)
}

/// Decides what follows a finished track (see `auto_next_post`).
pub fn handle_auto_next(app: &mut App) -> (r: AutoNext)
    requires
        source_valid(*old(app)),
    ensures
        auto_next_post(*old(app), *final(app), r),
{
    if !app.player.queue.is_empty() {
        return play_from_queue(app);
    }
    match app.player.play_mode {
        PlayMode::SingleRepeat => {
            if app.player.has_audio_data() {
                app.status_message = message(app.language, "status.single_repeat");
                AutoNext::Restart
            } else {
                AutoNext::Idle
            }
        },
        PlayMode::Sequential => {
            match advance_sequential(app) {
                Some(m) => AutoNext::Play(m),
                None => {
                    app.player.stop();
                    app.status_message = message(app.language, "status.playlist_end");
                    AutoNext::Stopped
                },
            }
        },
        PlayMode::Shuffle => {
            let ghost o = *app;
            let m = advance_shuffle(app);
            let ghost mid = *app;
            match m {
                Some(x) => {
                    proof {
                        assert(shuffle_post(o, mid, Some(x)));
                    }
                    AutoNext::Play(x)
                },
                None => {
                    app.player.stop();
                    app.status_message = message(app.language, "status.shuffle_end");
                    proof {
                        assert(shuffle_post(o, mid, None::<MusicEntry>));
                    }
                    AutoNext::Stopped
                },
            }
        },
    }
}

// ───────────────────────── starting a song ─────────────────────────

/// Where a song started from the current view plays from: its display
/// selection in the browse view; in a playlist, the selected index, or with
/// a search active the song's index in the whole playlist.
pub open spec fn start_source(a: App, m: MusicEntry) -> Option<PlayingSource> {
    match a.view_mode {
        ViewMode::Browse => match selected_song(a.display(), a.selected) {
            Some(i) => Some(PlayingSource::Browse(i as usize)),
            None => None,
        },
        ViewMode::PlaylistContent(pl) => if a.search_query@.len() == 0 {
            match a.pl_content_selected {
                Some(si) => Some(PlayingSource::PlaylistContent(pl, si)),
                None => None,
            }
        } else if pl < a.playlists@.len() && pos_of_path(a.playlists@[pl as int].songs@, m.absolute_path@) >= 0 {
            Some(PlayingSource::PlaylistContent(pl, pos_of_path(a.playlists@[pl as int].songs@, m.absolute_path@) as usize))
        } else {
            None
        },
        ViewMode::PlaylistList => a.playing_source,
    }
}

/// The song selected in the current view, to be played; the playing source
/// is set for auto-next. `None` (and nothing changes) without a selection.
pub fn start_playback(app: &mut App) -> (r: Option<MusicEntry>)
    ensures
        if view_has_selection(*old(app)) {
            &&& r == Some(selected_entry(*old(app)))
            &&& *final(app) == (App {
                playing_source: start_source(*old(app), selected_entry(*old(app))),
                ..*old(app)
            })
        } else {
            r is None && *final(app) == *old(app)
        },
{
    let music = match app.selected_in_current_view() {
        Some((m, _)) => m,
        None => {
            return None;
        },
    };
    match app.view_mode {
        ViewMode::Browse => {
            app.playing_source = match app.selected_display_song_index() {
                Some(i) => Some(PlayingSource::Browse(i)),
                None => None,
            };
        },
        ViewMode::PlaylistContent(pl_idx) => {
            if app.search_query.as_str().unicode_len() == 0 {
                app.playing_source = match app.pl_content_selected {
                    Some(si) => Some(PlayingSource::PlaylistContent(pl_idx, si)),
                    None => None,
                };
            } else if pl_idx < app.playlists.len() {
                app.playing_source = match position_of_path(&app.playlists[pl_idx].songs, &music.absolute_path) {
                    Some(at) => Some(PlayingSource::PlaylistContent(pl_idx, at)),
                    None => None,
                };
            } else {
                app.playing_source = None;
            }
        },
        ViewMode::PlaylistList => {},
    }
    Some(music)
}

/// How a song is to be played.
#[derive(Debug)]
pub enum StartPlan {
    /// A download is running; nothing starts.
    Busy,
    /// The song is the current track: play it again from the beginning.
    Restart,
    /// Read the song from the disk cache.
    ReadCache,
    /// Stream the song over HTTP, playing while it downloads.
    Stream(TrackInfo),
    /// Fetch the whole song from the server (local files).
    Fetch,
}

pub open spec fn is_current_track(p: Playback, m: MusicEntry) -> bool {
    &&& p.current_track is Some
    &&& p.current_track->0.title@ == m.name@
    &&& p.current_track->0.artist@ == m.artist@
    &&& p.audio_data is Some
}

/// What starting song `m` does, given whether the disk cache holds it: nothing while a download runs; a restart for the song
/// that is the current track; else the download starts (from the cache, as
/// a stream, or as a whole file for a non-HTTP URL) with a message naming
/// the song.
pub open spec fn begin_post(o: App, n: App, m: MusicEntry, cache_hit: bool, r: StartPlan) -> bool {
    let url = backend_stream_url(o.server, m);
    if o.downloading {
        r == StartPlan::Busy && n == o
    } else if is_current_track(o.player, m) {
        r == StartPlan::Restart && n == o
    } else {
        let http = starts_with(url, "http"@);
        let key = if http {
            if cache_hit {
                "status.cache_reading"@
            } else {
                "status.downloading"@
            }
        } else {
            "status.loading"@
        };
        &&& n == (App {
            error_message: None,
            download_progress: None,
            downloading: true,
            status_message: n.status_message,
            ..o
        })
        &&& n.status_message@ == message_with(o.language, key, m.name@)
        &&& r == (if http {
            if cache_hit {
                StartPlan::ReadCache
            } else {
                StartPlan::Stream(
                    TrackInfo {
                        title: m.name,
                        artist: m.artist,
                        absolute_path: m.absolute_path,
                        total_duration_ms: m.duration,
                        lyrics: None,
                    },
                )
            }
        } else {
            StartPlan::Fetch
        })
    }
}

/// Decides how song `music` starts playing (see `begin_post`).
pub fn begin_playback(app: &mut App, music: &MusicEntry, cache_hit: bool) -> (r: StartPlan)
    ensures
        begin_post(*old(app), *final(app), *music, cache_hit, r),
{
    if app.downloading {
        return StartPlan::Busy;
    }
    let same = match app.player.current_track() {
        Some(t) => t.title == music.name && t.artist == music.artist,
        None => false,
    };
    if same && app.player.has_audio_data() {
        return StartPlan::Restart;
    }
    app.error_message = None;
    app.download_progress = None;
    app.downloading = true;
    let url = app.server.stream_url(music);
    if str_starts_with(url.as_str(), "http") {
        if cache_hit {
            app.status_message = message1(app.language, "status.cache_reading", music.name.as_str());
            StartPlan::ReadCache
        } else {
            app.status_message = message1(app.language, "status.downloading", music.name.as_str());
            StartPlan::Stream(track_of(music, None))
        }
    } else {
        app.status_message = message1(app.language, "status.loading", music.name.as_str());
        StartPlan::Fetch
    }
}


// ───────────────────────── background results ─────────────────────────

/// Lyrics for a downloaded song: timed lyrics from the server win; else the
/// lyrics embedded in the audio tags; else whatever the server had.
pub fn choose_lyrics(server: Option<Lyrics>, embedded: Option<Lyrics>) -> (r: Option<Lyrics>)
    ensures
        r == (match server {
            Some(Lyrics::Timed(_)) => server,
            _ => if embedded is Some {
                embedded
            } else {
                server
            },
        }),
{
    match server {
        Some(Lyrics::Timed(_)) => server,
        _ => match embedded {
            Some(e) => Some(e),
            None => server,
        },
    }
}

/// Whether the lyrics embedded in the audio have to be read: only when the
/// server did not give timed lyrics.
pub fn needs_embedded_lyrics(server: &Option<Lyrics>) -> (r: bool)
    ensures
        r == !(server matches Some(Lyrics::Timed(_))),
{
    match server {
        Some(Lyrics::Timed(_)) => false,
        _ => true,
    }
}

/// Index of the first song with this server and path.
pub open spec fn pos_of_song(s: Seq<MusicEntry>, server_id: Seq<char>, path: Seq<char>) -> int
    decreases s.len(),
{
    if s.len() == 0 {
        -1
    } else if s[0].server_id@ == server_id && s[0].absolute_path@ == path {
        0
    } else {
        let r = pos_of_song(s.drop_first(), server_id, path);
        if r < 0 {
            -1
        } else {
            r + 1
        }
    }
}

pub proof fn lemma_pos_of_song(s: Seq<MusicEntry>, server_id: Seq<char>, path: Seq<char>)
    ensures
        -1 <= pos_of_song(s, server_id, path) < s.len(),
        pos_of_song(s, server_id, path) >= 0 ==> s[pos_of_song(s, server_id, path)].server_id@ == server_id
            && s[pos_of_song(s, server_id, path)].absolute_path@ == path,
        forall|j: int|
            0 <= j < s.len() && (pos_of_song(s, server_id, path) < 0 || j < pos_of_song(s, server_id, path))
                ==> !(s[j].server_id@ == server_id && s[j].absolute_path@ == path),
    decreases s.len(),
{
    if s.len() > 0 && !(s[0].server_id@ == server_id && s[0].absolute_path@ == path) {
        lemma_pos_of_song(s.drop_first(), server_id, path);
        assert forall|j: int|
            0 <= j < s.len() && (pos_of_song(s, server_id, path) < 0 || j < pos_of_song(s, server_id, path))
                implies !(s[j].server_id@ == server_id && s[j].absolute_path@ == path) by {
            if j > 0 {
                assert(s[j] == s.drop_first()[j - 1]);
            }
        }
    }
}

fn position_of_song(s: &Vec<MusicEntry>, server_id: &String, path: &String) -> (r: Option<usize>)
    ensures
        match r {
            Some(i) => pos_of_song(s@, server_id@, path@) == i,
            None => pos_of_song(s@, server_id@, path@) < 0,
        },
{
    let mut k: usize = 0;
    proof {
        lemma_pos_of_song(s@, server_id@, path@);
    }
    while k < s.len()
        invariant
            k <= s.len(),
            forall|j: int| 0 <= j < k ==> !(s@[j].server_id@ == server_id@ && s@[j].absolute_path@ == path@),
            -1 <= pos_of_song(s@, server_id@, path@) < s@.len(),
            pos_of_song(s@, server_id@, path@) >= 0 ==> s@[pos_of_song(s@, server_id@, path@)].server_id@
                == server_id@ && s@[pos_of_song(s@, server_id@, path@)].absolute_path@ == path@,
            forall|j: int|
                0 <= j < s@.len() && (pos_of_song(s@, server_id@, path@) < 0 || j < pos_of_song(
                    s@,
                    server_id@,
                    path@,
                )) ==> !(s@[j].server_id@ == server_id@ && s@[j].absolute_path@ == path@),
        decreases s.len() - k,
    {
        if s[k].server_id == *server_id && s[k].absolute_path == *path {
            return Some(k);
        }
        k = k + 1;
    }
    None
}

/// After the song list has loaded: without a playing source, the song that
/// was playing when the program last quit becomes the playing source (so
/// that going to the playing song finds it) and is named in the status.
/// Returns whether the remembered song is to be forgotten (whenever one was
/// remembered and nothing was playing).
pub fn restore_last_played(app: &mut App, last: Option<LastPlayed>) -> (forget: bool)
    ensures
        forget == (old(app).playing_source is None && last is Some),
        if forget {
            let l = last->0;
            let i = pos_of_song(old(app).all_music@, l.server_id@, l.absolute_path@);
            if i >= 0 {
                &&& *final(app) == (App {
                    playing_source: Some(PlayingSource::Browse(i as usize)),
                    status_message: final(app).status_message,
                    ..*old(app)
                })
                &&& final(app).status_message@ == message_with(
                    old(app).language,
                    "status.last_played"@,
                    old(app).all_music@[i].name@,
                )
            } else {
                *final(app) == *old(app)
            }
        } else {
            *final(app) == *old(app)
        },
{
    if app.playing_source.is_some() {
        return false;
    }
    let l = match last {
        Some(l) => l,
        None => {
            return false;
        },
    };
    proof {
        lemma_pos_of_song(app.all_music@, l.server_id@, l.absolute_path@);
    }
    match position_of_song(&app.all_music, &l.server_id, &l.absolute_path) {
        Some(idx) => {
            app.playing_source = Some(PlayingSource::Browse(idx));
            app.status_message = message1(app.language, "status.last_played", app.all_music[idx].name.as_str());
        },
        None => {},
    }
    true
}

/// The title of the current track; empty without one.
pub open spec fn track_title(t: Option<TrackInfo>) -> Seq<char> {
    match t {
        Some(x) => x.title@,
        None => Seq::<char>::empty(),
    }
}

/// A track has started playing: the status names it, the error clears, and
/// a shuffle order is made where one is needed (see `play_started`).
pub fn on_playing(app: &mut App)
    ensures
        play_started(
            App { status_message: final(app).status_message, error_message: None, ..*old(app) },
            *final(app),
        ),
        final(app).status_message@ == message_with(
            old(app).language,
            "status.playing"@,
            track_title(old(app).player.current_track),
        ),
{
    let msg = match app.player.current_track() {
        Some(t) => message1(app.language, "status.playing", t.title.as_str()),
        None => {
            proof {
                reveal_strlit("");
                assert(""@ =~= Seq::<char>::empty());
            }
            message1(app.language, "status.playing", "")
        },
    };
    app.status_message = msg;
    app.error_message = None;
    on_play_started(app);
}

/// The stream could not be played: nothing is downloading any more and the
/// error names the cause.
pub fn on_stream_failed(app: &mut App, cause: &str)
    ensures
        *final(app) == (App { downloading: false, error_message: final(app).error_message, ..*old(app) }),
        final(app).error_message is Some,
        final(app).error_message->0@ == message_with(old(app).language, "status.stream_fail"@, cause@),
{
    app.downloading = false;
    app.error_message = Some(message1(app.language, "status.stream_fail", cause));
}

/// The downloaded audio could not be decoded.
pub fn on_decode_failed(app: &mut App, cause: &str)
    ensures
        *final(app) == (App { error_message: final(app).error_message, ..*old(app) }),
        final(app).error_message is Some,
        final(app).error_message->0@ == message_with(old(app).language, "status.decode_fail"@, cause@),
{
    app.error_message = Some(message1(app.language, "status.decode_fail", cause));
}

/// What becomes of a song's audio once it has arrived.
#[derive(Debug, Clone, Copy, PartialEq, Eq, Structural)]
pub enum Arrival {
    /// It completes the stream that is playing.
    Finish,
    /// Playback was stopped while it downloaded: it is not played.
    Discard,
    /// It is played from memory.
    Play,
}

/// The audio of a song has arrived (`streaming`: a stream of it is playing):
/// the download is over, and the audio completes the stream, is dropped
/// after a stop, or is played.
pub fn on_audio_arrived(app: &mut App, streaming: bool) -> (r: Arrival)
    ensures
        *final(app) == (App { downloading: false, download_progress: None, ..*old(app) }),
        r == (if streaming {
            Arrival::Finish
        } else if old(app).player.state == PlayerState::Stopped && old(app).playing_source is None {
            Arrival::Discard
        } else {
            Arrival::Play
        }),
{
    let r = if streaming {
        Arrival::Finish
    } else if app.player.state() == PlayerState::Stopped && app.playing_source.is_none() {
        Arrival::Discard
    } else {
        Arrival::Play
    };
    app.downloading = false;
    app.download_progress = None;
    r
}

/// The track of a song, with its lyrics.
pub fn track_of(music: &MusicEntry, lyrics: Option<Lyrics>) -> (r: TrackInfo)
    ensures
        r == (TrackInfo {
            title: music.name,
            artist: music.artist,
            absolute_path: music.absolute_path,
            total_duration_ms: music.duration,
            lyrics,
        }),
{
    TrackInfo {
        title: music.name.clone(),
        artist: music.artist.clone(),
        absolute_path: music.absolute_path.clone(),
        total_duration_ms: music.duration,
        lyrics,
    }
}

/// A seek has been decoded and plays from `pos_ms`: the status tells the
/// direction and the position.
pub fn on_seek_prepared(app: &mut App, pos_ms: u64, forward: bool)
    ensures
        *final(app) == (App { status_message: final(app).status_message, error_message: None, ..*old(app) }),
        final(app).status_message@ == message_with(
            old(app).language,
            if forward {
                "status.seek_forward"@
            } else {
                "status.seek_backward"@
            },
            duration_text(pos_ms),
        ),
{
    let pos = format_duration(pos_ms);
    let key = if forward {
        "status.seek_forward"
    } else {
        "status.seek_backward"
    };
    app.status_message = message1(app.language, key, pos.as_str());
    app.error_message = None;
}

/// The volume changed: the status shows it in percent.
pub fn on_volume_changed(app: &mut App, percent: u64)
    ensures
        *final(app) == (App { status_message: final(app).status_message, ..*old(app) }),
        final(app).status_message@ == message_with(old(app).language, "status.volume"@, decimal(percent as nat)),
{
    let text = decimal_string(percent);
    app.status_message = message1(app.language, "status.volume", text.as_str());
}

/// A seek was asked for while the audio to seek in is not at hand.
pub fn on_seek_unavailable(app: &mut App)
    ensures
        *final(app) == (App { status_message: final(app).status_message, ..*old(app) }),
        final(app).status_message@ == plain_message(old(app).language, "status.seek_unavailable"@),
{
    app.status_message = message(app.language, "status.seek_unavailable");
}

/// The song list could not be loaded.
pub fn on_list_load_failed(app: &mut App, err: String)
    ensures
        *final(app) == (App { error_message: Some(err), status_message: final(app).status_message, ..*old(app) }),
        final(app).status_message@ == plain_message(old(app).language, "status.load_failed"@),
{
    app.error_message = Some(err);
    app.status_message = message(app.language, "status.load_failed");
}

/// A download failed: nothing is downloading any more.
pub fn on_download_failed(app: &mut App, err: String)
    ensures
        *final(app) == (App { downloading: false, download_progress: None, error_message: Some(err), ..*old(app) }),
{
    app.downloading = false;
    app.download_progress = None;
    app.error_message = Some(err);
}


/// The song that is playing, as its source names it (remembered on quit).
pub fn playing_entry(app: &App) -> (r: Option<&MusicEntry>)
    ensures
        r == (match app.playing_source {
            Some(PlayingSource::Browse(i)) => if i < app.filtered_music@.len() {
                Some(&app.filtered_music@[i as int])
            } else {
                None
            },
            Some(PlayingSource::PlaylistContent(pl, si)) => if pl < app.playlists@.len() && si
                < app.playlists@[pl as int].songs@.len() {
                Some(&app.playlists@[pl as int].songs@[si as int])
            } else {
                None
            },
            None => None,
        }),
{
    match app.playing_source {
        Some(PlayingSource::Browse(i)) => if i < app.filtered_music.len() {
            Some(&app.filtered_music[i])
        } else {
            None
        },
        Some(PlayingSource::PlaylistContent(pl, si)) => if pl < app.playlists.len() && si
            < app.playlists[pl].songs.len() {
            Some(&app.playlists[pl].songs[si])
        } else {
            None
        },
        None => None,
    }
}


// ───────────────────────── laws of auto-next ─────────────────────────

/// The browse state after an automatic advance: the same as before.
pub open spec fn same_cursor(o: App, n: App) -> bool {
    &&& n.selected == o.selected
    &&& n.view_mode == o.view_mode
    &&& n.pl_selected == o.pl_selected
    &&& n.pl_content_selected == o.pl_content_selected
    &&& n.filtered_music == o.filtered_music
    &&& n.display_items == o.display_items
    &&& n.search_query == o.search_query
    &&& n.playlists == o.playlists
}

/// Moving on to the next track never moves the browsing cursor, the view
/// or the lists: only the playing source, the player and the status change.
pub proof fn lemma_auto_next_keeps_cursor(o: App, n: App, r: AutoNext)
    requires
        auto_next_post(o, n, r),
    ensures
        same_cursor(o, n),
{
    if o.player.queue@.len() == 0 && o.player.play_mode == PlayMode::Shuffle {
        let (mid, m) = choose|mid: App, m: Option<MusicEntry>|
            #[trigger] shuffle_post(o, mid, m) && match m {
                Some(x) => r == AutoNext::Play(x) && n == mid,
                None => r == AutoNext::Stopped && ended(mid, n, "status.shuffle_end"@),
            };
        if shuffle_pending(o) {
        } else if source_list(o).len() > 1 {
            let i = choose|i: usize|
                {
                    &&& i < source_list(o).len()
                    &&& (shuffle_exclude(o) matches Some(ex) ==> i != ex)
                    &&& mid.player.shuffle_state is Some
                    &&& is_permutation_of_range(
                        mid.player.shuffle_state->0@.push(i),
                        source_list(o).len() as nat,
                    )
                    &&& #[trigger] drawn(o, mid, i, m)
                };
        }
    }
}

/// A queued song always plays before the play mode is consulted, and it
/// leaves the queue.
pub proof fn lemma_queue_first(o: App, n: App, r: AutoNext)
    requires
        auto_next_post(o, n, r),
        o.player.queue@.len() > 0,
    ensures
        r == AutoNext::Play(o.player.queue@[0]),
        n.player.queue@ == o.player.queue@.drop_first(),
        n.player.play_mode == o.player.play_mode,
{
}

/// Sequential play stops after the last song of the list.
pub proof fn lemma_sequential_stops_at_end(o: App, n: App, r: AutoNext)
    requires
        auto_next_post(o, n, r),
        o.player.queue@.len() == 0,
        o.player.play_mode == PlayMode::Sequential,
        sequential_next(o) is None,
    ensures
        r == AutoNext::Stopped,
        n.player.state == PlayerState::Stopped,
        n.player.current_track is None,
{
}

/// Sequential play of a playlist without a search walks its songs in order:
/// after song `si` comes song `si + 1`, with the playing source moving to it,
/// and playback stops only after the playlist's last song.
pub proof fn lemma_playlist_walks_in_order(o: App, n: App, r: AutoNext, pl: usize, si: usize)
    requires
        auto_next_post(o, n, r),
        o.player.queue@.len() == 0,
        o.player.play_mode == PlayMode::Sequential,
        o.search_query@.len() == 0,
        o.playing_source == Some(PlayingSource::PlaylistContent(pl, si)),
        pl < o.playlists@.len(),
    ensures
        si + 1 < o.playlists@[pl as int].songs@.len() ==> r == AutoNext::Play(
            o.playlists@[pl as int].songs@[si + 1],
        ) && n.playing_source == Some(PlayingSource::PlaylistContent(pl, (si + 1) as usize)),
        si + 1 >= o.playlists@[pl as int].songs@.len() ==> r == AutoNext::Stopped,
{
}

/// Sequential play of the browse list walks it in order: after song `i`
/// comes song `i + 1`, and playback stops only after the last song.
pub proof fn lemma_browse_walks_in_order(o: App, n: App, r: AutoNext, i: usize)
    requires
        auto_next_post(o, n, r),
        o.player.queue@.len() == 0,
        o.player.play_mode == PlayMode::Sequential,
        o.playing_source == Some(PlayingSource::Browse(i)),
    ensures
        i + 1 < o.filtered_music@.len() ==> r == AutoNext::Play(o.filtered_music@[i + 1])
            && n.playing_source == Some(PlayingSource::Browse((i + 1) as usize)),
        i + 1 >= o.filtered_music@.len() ==> r == AutoNext::Stopped,
{
}

/// Single-repeat plays the same track again whenever it has its audio.
pub proof fn lemma_single_repeat_restarts(o: App, n: App, r: AutoNext)
    requires
        auto_next_post(o, n, r),
        o.player.queue@.len() == 0,
        o.player.play_mode == PlayMode::SingleRepeat,
        o.player.audio_data is Some,
    ensures
        r == AutoNext::Restart,
        n.player == o.player,
        n.playing_source == o.playing_source,
{
}

/// A fresh shuffle never starts with the song that just played.
pub proof fn lemma_reshuffle_avoids_current(o: App, n: App, r: Option<MusicEntry>)
    requires
        shuffle_post(o, n, r),
        !shuffle_pending(o),
        source_list(o).len() > 1,
        shuffle_exclude(o) is Some,
    ensures
        exists|i: usize|
            i < source_list(o).len() && i != shuffle_exclude(o)->0 && #[trigger] drawn(o, n, i, r),
{
    let i = choose|i: usize|
        {
            &&& i < source_list(o).len()
            &&& (shuffle_exclude(o) matches Some(ex) ==> i != ex)
            &&& n.player.shuffle_state is Some
            &&& is_permutation_of_range(n.player.shuffle_state->0@.push(i), source_list(o).len() as nat)
            &&& #[trigger] drawn(o, n, i, r)
        };
    assert(i < source_list(o).len() && i != shuffle_exclude(o)->0 && drawn(o, n, i, r));
}


/// Whether the playing source can be walked (see `source_valid`).
pub fn source_is_valid(app: &App) -> (r: bool)
    ensures
        r == source_valid(*app),
{
    match app.playing_source {
        Some(PlayingSource::Browse(i)) => i < usize::MAX,
        Some(PlayingSource::PlaylistContent(pl, si)) => {
            si < usize::MAX && (!(pl < app.playlists.len() && app.search_query.as_str().unicode_len() > 0)
                || si < app.playlists[pl].songs.len())
        },
        None => true,
    }
}

} // verus!
