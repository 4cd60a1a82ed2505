//! Playback decisions: play modes, the shuffle order, the play queue, the
//! progressive-download buffer, and the player's state machine.
//!
//! Audio output itself (decoding, the sound device) is not modelled here: the
//! functions below decide what the output has to do and keep the state that
//! the rest of the program reads.

use rand::seq::SliceRandom;
use rand::Rng;
use vstd::prelude::*;
use vstd::std_specs::iter::IteratorSpec;
use crate::i18n::{fill_placeholders, message_text, tf, Language};
use crate::lyrics::{opt_lyrics_model, Lyrics, LyricsModel};
use crate::server::MusicEntry;

verus! {

// ───────────────────────── play mode ─────────────────────────

#[derive(Debug, Clone, Copy, PartialEq, Eq, Structural)]
pub enum PlayMode {
    /// Play the list sequentially; stop after the last track.
    Sequential,
    /// Repeat the current track forever.
    SingleRepeat,
    /// Shuffle through the current list; re-shuffle when exhausted.
    Shuffle,
}

pub open spec fn next_mode(m: PlayMode) -> PlayMode {
    match m {
        PlayMode::Sequential => PlayMode::SingleRepeat,
        PlayMode::SingleRepeat => PlayMode::Shuffle,
        PlayMode::Shuffle => PlayMode::Sequential,
    }
}

pub open spec fn mode_label_key(m: PlayMode) -> Seq<char> {
    match m {
        PlayMode::Sequential => "playmode.sequential"@,
        PlayMode::SingleRepeat => "playmode.single_repeat"@,
        PlayMode::Shuffle => "playmode.shuffle"@,
    }
}

pub open spec fn mode_short_label_key(m: PlayMode) -> Seq<char> {
    match m {
        PlayMode::Sequential => "playmode.short_sequential"@,
        PlayMode::SingleRepeat => "playmode.short_single"@,
        PlayMode::Shuffle => "playmode.short_shuffle"@,
    }
}

impl PlayMode {
    pub fn next_variant(self) -> (r: PlayMode)
        ensures
            r == next_mode(self),
    {
        match self {
            PlayMode::Sequential => PlayMode::SingleRepeat,
            PlayMode::SingleRepeat => PlayMode::Shuffle,
            PlayMode::Shuffle => PlayMode::Sequential,
        }
    }

    /// Translated name of the mode.
    pub fn label(self, lang: Language) -> (r: String)
        ensures
            r@ == message_text(lang, mode_label_key(self)),
    {
        let args: Vec<String> = Vec::new();
        proof {
            assert(args@.map_values(|a: String| a@) =~= seq![]);
        }
        match self {
            PlayMode::Sequential => tf(lang, "playmode.sequential", &args),
            PlayMode::SingleRepeat => tf(lang, "playmode.single_repeat", &args),
            PlayMode::Shuffle => tf(lang, "playmode.shuffle", &args),
        }
    }

    /// Translated short name of the mode.
    pub fn short_label(self, lang: Language) -> (r: String)
        ensures
            r@ == message_text(lang, mode_short_label_key(self)),
    {
        let args: Vec<String> = Vec::new();
        proof {
            assert(args@.map_values(|a: String| a@) =~= seq![]);
        }
        match self {
            PlayMode::Sequential => tf(lang, "playmode.short_sequential", &args),
            PlayMode::SingleRepeat => tf(lang, "playmode.short_single", &args),
            PlayMode::Shuffle => tf(lang, "playmode.short_shuffle", &args),
        }
    }
}

/// Cycling through the modes three times returns to the starting mode.
pub proof fn lemma_play_mode_cycle(m: PlayMode)
    ensures
        next_mode(next_mode(next_mode(m))) == m,
        next_mode(m) != m,
{
}


// ───────────────────────── shuffle ─────────────────────────

/// The indices `0..count` in increasing order.
pub open spec fn index_range(count: nat) -> Seq<usize> {
    Seq::new(count, |i: int| i as usize)
}

/// `s` holds each index `0..count` exactly once.
pub open spec fn is_permutation_of_range(s: Seq<usize>, count: nat) -> bool {
    s.to_multiset() == index_range(count).to_multiset()
}

/// Shuffles the indices in place with the thread-local generator
/// (`rand::seq::SliceRandom::shuffle` with `rand::rng()`). The contract states
/// only what holds of every outcome: the same elements, in some order.
#[verifier::external_body]
fn shuffle_indices(v: &mut Vec<usize>)
    ensures
        final(v)@.len() == old(v)@.len(),
        final(v)@.to_multiset() == old(v)@.to_multiset(),
{
    v.shuffle(&mut rand::rng());
}

/// A random index below `n` (`rand::Rng::random_range(0..n)` with
/// `rand::rng()`); which one is left open.
#[verifier::external_body]
fn random_index_below(n: usize) -> (r: usize)
    requires
        n > 0,
    ensures
        r < n,
{
    rand::rng().random_range(0..n)
}

/// A shuffled play order of list indices, consumed from the back.
#[derive(Debug)]
pub struct ShuffleState {
    remaining: Vec<usize>,
}

impl View for ShuffleState {
    type V = Seq<usize>;

    closed spec fn view(&self) -> Seq<usize> {
        self.remaining@
    }
}

proof fn lemma_range_no_duplicates(count: nat)
    requires
        count <= usize::MAX,
    ensures
        index_range(count).no_duplicates(),
{
}

pub proof fn lemma_permutation_no_duplicates(s: Seq<usize>, count: nat)
    requires
        count <= usize::MAX,
        is_permutation_of_range(s, count),
    ensures
        s.no_duplicates(),
        s.len() == count,
        forall|i: int| 0 <= i < s.len() ==> s[i] < count,
{
    lemma_range_no_duplicates(count);
    index_range(count).lemma_multiset_has_no_duplicates();
    s.lemma_multiset_has_no_duplicates_conv();
    s.to_multiset_ensures();
    index_range(count).to_multiset_ensures();
    assert forall|i: int| 0 <= i < s.len() implies s[i] < count by {
        assert(s.to_multiset().contains(s[i]));
        assert(index_range(count).contains(s[i]));
    }
}

impl ShuffleState {
    /// No index is waiting twice.
    #[verifier::type_invariant]
    spec fn distinct(self) -> bool {
        self.remaining@.no_duplicates()
    }

    /// Arranges an already shuffled order so that, when `exclude` is given and
    /// the list has more than one item, the first index handed out (the last
    /// element) is not `exclude`: if it is, it trades places with the element
    /// at `swap`.
    pub fn from_shuffled(indices: Vec<usize>, exclude: Option<usize>, swap: usize) -> (r: Self)
        requires
            indices.len() > 1 ==> swap < indices.len() - 1,
            indices@.no_duplicates(),
        ensures
            r@.no_duplicates(),
            r@ == (match exclude {
                Some(ex) => if indices@.len() > 1 && indices@.last() == ex {
                    indices@.update(indices@.len() - 1, indices@[swap as int]).update(
                        swap as int,
                        ex,
                    )
                } else {
                    indices@
                },
                None => indices@,
            }),
    {
        let mut indices = indices;
        let len = indices.len();
        match exclude {
            Some(ex) => {
                if len > 1 && indices[len - 1] == ex {
                    let ghost before = indices@;
                    let other = indices[swap];
                    indices.set(len - 1, other);
                    indices.set(swap, ex);
                    proof {
                        let after = indices@;
                        assert forall|i: int, j: int| 0 <= i < after.len() && 0 <= j < after.len() && i != j
                            implies after[i] != after[j] by {
                            let pi = if i == len - 1 { swap as int } else if i == swap { len - 1 } else { i };
                            let pj = if j == len - 1 { swap as int } else if j == swap { len - 1 } else { j };
                            assert(after[i] == before[pi]);
                            assert(after[j] == before[pj]);
                        }
                    }
                }
            },
            None => {},
        }
        ShuffleState { remaining: indices }
    }

    /// Builds a fresh shuffled order of the indices `0..count`.
    ///
    /// If `exclude` is `Some`, the first index handed out is guaranteed not to
    /// equal it (when `count > 1`), so a reshuffle never repeats the track just
    /// played.
    pub fn new(count: usize, exclude: Option<usize>) -> (r: Self)
        ensures
            is_permutation_of_range(r@, count as nat),
            r@.no_duplicates(),
            r@.len() == count,
            match exclude {
                Some(ex) => count > 1 ==> r@.last() != ex,
                None => true,
            },
    {
        let mut indices: Vec<usize> = Vec::new();
        let mut i: usize = 0;
        while i < count
            invariant
                i <= count,
                indices@ == index_range(i as nat),
            decreases count - i,
        {
            indices.push(i);
            i = i + 1;
            proof {
                assert(indices@ =~= index_range(i as nat));
            }
        }
        shuffle_indices(&mut indices);
        let swap = if count > 1 {
            random_index_below(count - 1)
        } else {
            0
        };
        let ghost before = indices@;
        proof {
            lemma_permutation_no_duplicates(before, count as nat);
        }
        let r = ShuffleState::from_shuffled(indices, exclude, swap);
        proof {
            match exclude {
                Some(ex) => {
                    if count > 1 && before.last() == ex {
                        let after = r@;
                        assert(before[swap as int] != before[count - 1]);
                        assert(after.last() == before[swap as int]);
                        vstd::seq_lib::to_multiset_update(before, count - 1, before[swap as int]);
                        let mid = before.update(count - 1, before[swap as int]);
                        vstd::seq_lib::to_multiset_update(mid, swap as int, ex);
                        assert(mid[swap as int] == before[swap as int]);
                        let m = before.to_multiset();
                        let y = before[swap as int];
                        assert(after == mid.update(swap as int, ex));
                        assert(mid.to_multiset() == m.insert(y).remove(ex));
                        assert(after.to_multiset() == m.insert(y).remove(ex).insert(ex).remove(y));
                        assert(m.contains(ex)) by {
                            before.to_multiset_ensures();
                            assert(before.contains(ex));
                        }
                        assert(m.insert(y).remove(ex).insert(ex).remove(y) =~= m) by {
                            broadcast use vstd::multiset::group_multiset_axioms;
                        }
                    }
                },
                None => {},
            }
        }
        r
    }

    /// Pops the next index; `None` once the order is used up. No index is
    /// waiting twice, so an index handed out is never handed out again.
    pub fn next(&mut self) -> (r: Option<usize>)
        ensures
            old(self)@.no_duplicates(),
            final(self)@.no_duplicates(),
            match r {
                Some(i) => old(self)@.len() > 0 && i == old(self)@.last() && final(self)@
                    == old(self)@.drop_last() && !final(self)@.contains(i),
                None => old(self)@.len() == 0 && *final(self) == *old(self),
            },
    {
        proof {
            use_type_invariant(&*self);
        }
        if self.remaining.len() == 0 {
            return None;
        }
        let mut rest: Vec<usize> = Vec::new();
        std::mem::swap(&mut rest, &mut self.remaining);
        let r = rest.pop();
        proof {
            let o = old(self)@;
            assert(rest@ =~= o.drop_last());
            assert forall|k: int| 0 <= k < o.len() - 1 implies o.drop_last()[k] != o.last() by {
                assert(o.drop_last()[k] == o[k]);
            }
        }
        self.remaining = rest;
        r
    }
}

// ───────────────────────── play queue ─────────────────────────

/// A FIFO queue of songs to play before the normal playback order resumes.
/// When non-empty, auto-next consumes from this queue first.
/// Once empty, the player falls back to sequential / shuffle behaviour.
#[derive(Debug)]
pub struct PlayQueue {
    songs: Vec<MusicEntry>,
}

impl View for PlayQueue {
    type V = Seq<MusicEntry>;

    closed spec fn view(&self) -> Seq<MusicEntry> {
        self.songs@
    }
}

/// The sequence with the items at `i` and `j` exchanged.
pub open spec fn swapped<T>(s: Seq<T>, i: int, j: int) -> Seq<T> {
    s.update(i, s[j]).update(j, s[i])
}

impl PlayQueue {
    pub fn new() -> (r: Self)
        ensures
            r@ == Seq::<MusicEntry>::empty(),
    {
        PlayQueue { songs: Vec::new() }
    }

    /// Append a song to the end of the queue.
    pub fn push_back(&mut self, song: MusicEntry)
        ensures
            final(self)@ == old(self)@.push(song),
    {
        self.songs.push(song);
    }

    /// Insert a song at the front of the queue ("play next").
    pub fn push_front(&mut self, song: MusicEntry)
        ensures
            final(self)@ == seq![song] + old(self)@,
    {
        self.songs.insert(0, song);
        proof {
            assert(self.songs@ =~= seq![song] + old(self)@);
        }
    }

    /// Remove and return the first item.
    pub fn pop_front(&mut self) -> (r: Option<MusicEntry>)
        ensures
            match r {
                Some(s) => old(self)@.len() > 0 && s == old(self)@[0] && final(self)@ == old(
                    self,
                )@.drop_first(),
                None => old(self)@.len() == 0 && final(self)@ == old(self)@,
            },
    {
        if self.songs.len() == 0 {
            None
        } else {
            let s = self.songs.remove(0);
            proof {
                assert(self.songs@ =~= old(self)@.drop_first());
            }
            Some(s)
        }
    }

    /// Remove the item at `index`.
    pub fn remove(&mut self, index: usize) -> (r: Option<MusicEntry>)
        ensures
            match r {
                Some(s) => index < old(self)@.len() && s == old(self)@[index as int]
                    && final(self)@ == old(self)@.remove(index as int),
                None => index >= old(self)@.len() && *final(self) == *old(self),
            },
    {
        if index < self.songs.len() {
            Some(self.songs.remove(index))
        } else {
            None
        }
    }

    /// Move the item at `index` one position earlier (towards the front).
    pub fn move_up(&mut self, index: usize)
        ensures
            final(self)@ == (if 0 < index < old(self)@.len() {
                swapped(old(self)@, index as int, index - 1)
            } else {
                old(self)@
            }),
    {
        if index > 0 && index < self.songs.len() {
            let s = self.songs.remove(index);
            self.songs.insert(index - 1, s);
            proof {
                assert(self.songs@ =~= swapped(old(self)@, index as int, index - 1));
            }
        }
    }

    /// Move the item at `index` one position later (towards the back).
    pub fn move_down(&mut self, index: usize)
        ensures
            final(self)@ == (if index + 1 < old(self)@.len() {
                swapped(old(self)@, index as int, index + 1)
            } else {
                old(self)@
            }),
    {
        if index < self.songs.len() && index + 1 < self.songs.len() {
            let s = self.songs.remove(index);
            self.songs.insert(index + 1, s);
            proof {
                assert(self.songs@ =~= swapped(old(self)@, index as int, index + 1));
            }
        }
    }

    /// Remove every item.
    pub fn clear(&mut self)
        ensures
            final(self)@ == Seq::<MusicEntry>::empty(),
    {
        self.songs.clear();
    }

    pub fn len(&self) -> (r: usize)
        ensures
            r == self@.len(),
    {
        self.songs.len()
    }

    pub fn is_empty(&self) -> (r: bool)
        ensures
            r == (self@.len() == 0),
    {
        self.songs.len() == 0
    }

    pub fn get(&self, index: usize) -> (r: Option<&MusicEntry>)
        ensures
            match r {
                Some(s) => index < self@.len() && *s == self@[index as int],
                None => index >= self@.len(),
            },
    {
        if index < self.songs.len() {
            Some(&self.songs[index])
        } else {
            None
        }
    }

    /// The queued songs, front first.
    pub fn iter(&self) -> (r: std::slice::Iter<'_, MusicEntry>)
        ensures
            r.remaining() == self@.as_ref(),
    {
        self.songs.iter()
    }
}

/// Songs leave the queue in the order they were appended: on a non-empty
/// queue, appending a song does not change which song comes out next, and
/// taking the front then leaves the same queue as taking it before the
/// append and appending after.
pub proof fn lemma_queue_fifo(q: Seq<MusicEntry>, s: MusicEntry)
    requires
        q.len() > 0,
    ensures
        q.push(s)[0] == q[0],
        q.push(s).drop_first() == q.drop_first().push(s),
{
    assert(q.push(s).drop_first() =~= q.drop_first().push(s));
}

/// "Play next": a song put at the front is the next one taken, and taking
/// it leaves the queue as it was.
pub proof fn lemma_play_next_is_taken_first(q: Seq<MusicEntry>, s: MusicEntry)
    ensures
        (seq![s] + q)[0] == s,
        (seq![s] + q).drop_first() == q,
{
    assert((seq![s] + q).drop_first() =~= q);
}

/// Moving an item up and then moving it back down restores the queue.
pub proof fn lemma_move_up_then_down(q: Seq<MusicEntry>, index: int)
    requires
        0 < index < q.len(),
    ensures
        swapped(swapped(q, index, index - 1), index - 1, index) == q,
{
    assert(swapped(swapped(q, index, index - 1), index - 1, index) =~= q);
}


// ───────────────────────── progressive download buffer ─────────────────────────

/// The bytes of a progressive download received so far, and whether the
/// download has finished.
#[derive(Debug)]
pub struct SharedAudioBuf {
    pub data: Vec<u8>,
    pub eof: bool,
}

impl SharedAudioBuf {
    pub fn new() -> (r: Self)
        ensures
            r.data@ == Seq::<u8>::empty(),
            !r.eof,
    {
        SharedAudioBuf { data: Vec::new(), eof: false }
    }

    /// Append a chunk of downloaded data.
    pub fn push(&mut self, chunk: &[u8])
        ensures
            final(self).data@ == old(self).data@ + chunk@,
            final(self).eof == old(self).eof,
    {
        self.data.extend_from_slice(chunk);
    }

    /// Mark the download as complete.
    pub fn set_eof(&mut self)
        ensures
            final(self).data@ == old(self).data@,
            final(self).eof,
    {
        self.eof = true;
    }
}

/// What a reader at `pos` does next.
#[derive(Debug, Clone, Copy, PartialEq, Eq, Structural)]
pub enum ReadStep {
    /// Copy this many bytes starting at the position.
    Copy(usize),
    /// The download is complete and everything has been read.
    EndOfStream,
    /// No byte is available yet: wait for more data.
    Wait,
}

/// A reader at `pos` that wants up to `want` bytes: copies what is available,
/// reports the end once everything has been read after the download finished,
/// and waits otherwise.
pub open spec fn read_plan(data_len: int, eof: bool, pos: u64, want: usize) -> ReadStep {
    if pos < data_len {
        ReadStep::Copy(
            if want < data_len - pos {
                want
            } else {
                (data_len - pos) as usize
            },
        )
    } else if eof {
        ReadStep::EndOfStream
    } else {
        ReadStep::Wait
    }
}

pub fn read_step(data_len: usize, eof: bool, pos: u64, want: usize) -> (r: ReadStep)
    ensures
        r == read_plan(data_len as int, eof, pos, want),
{
    if pos < data_len as u64 {
        let available = data_len - pos as usize;
        if want < available {
            ReadStep::Copy(want)
        } else {
            ReadStep::Copy(available)
        }
    } else if eof {
        ReadStep::EndOfStream
    } else {
        ReadStep::Wait
    }
}

/// A seek request, as in `std::io::SeekFrom`.
#[derive(Debug, Clone, Copy, PartialEq, Eq, Structural)]
pub enum SeekTarget {
    Start(u64),
    Current(i64),
    End(i64),
}

/// The position a seek moves to, or `None` for a position before the start
/// (or beyond 64 bits).
pub open spec fn seek_plan(pos: u64, data_len: int, target: SeekTarget) -> Option<u64> {
    match target {
        SeekTarget::Start(p) => Some(p),
        SeekTarget::Current(off) => if 0 <= pos + off <= u64::MAX {
            Some((pos + off) as u64)
        } else {
            None
        },
        SeekTarget::End(off) => if 0 <= data_len + off <= u64::MAX {
            Some((data_len + off) as u64)
        } else {
            None
        },
    }
}

pub fn seek_position(pos: u64, data_len: usize, target: SeekTarget) -> (r: Option<u64>)
    ensures
        r == seek_plan(pos, data_len as int, target),
{
    match target {
        SeekTarget::Start(p) => Some(p),
        SeekTarget::Current(off) => {
            let n: i128 = pos as i128 + off as i128;
            if 0 <= n && n <= u64::MAX as i128 {
                Some(n as u64)
            } else {
                None
            }
        },
        SeekTarget::End(off) => {
            let n: i128 = data_len as i128 + off as i128;
            if 0 <= n && n <= u64::MAX as i128 {
                Some(n as u64)
            } else {
                None
            }
        },
    }
}

/// What a read from the stream yields.
#[derive(Debug)]
pub enum ReadOutcome {
    /// These bytes, read from the reader's position on.
    Data(Vec<u8>),
    /// The download is complete and everything has been read.
    EndOfStream,
    /// No byte is available yet: the reader waits for more data.
    Wait,
}

/// A reader of the progressive-download buffer: the decoder reads and seeks
/// through it while the download is still filling the buffer.
#[derive(Debug)]
pub struct StreamingCursor {
    pub pos: u64,
}

impl StreamingCursor {
    pub fn new() -> (r: Self)
        ensures
            r.pos == 0,
    {
        StreamingCursor { pos: 0 }
    }

    /// Reads up to `want` bytes at the position (see `read_step`) and moves
    /// past them.
    pub fn read(&mut self, buf: &SharedAudioBuf, want: usize) -> (r: ReadOutcome)
        ensures
            match read_plan(buf.data@.len() as int, buf.eof, old(self).pos, want) {
                ReadStep::Copy(n) => final(self).pos == old(self).pos + n && (r matches ReadOutcome::Data(
                    bytes,
                ) && bytes@ == buf.data@.subrange(old(self).pos as int, old(self).pos + n)),
                ReadStep::EndOfStream => final(self).pos == old(self).pos && r is EndOfStream,
                ReadStep::Wait => final(self).pos == old(self).pos && r is Wait,
            },
    {
        match read_step(buf.data.len(), buf.eof, self.pos, want) {
            ReadStep::Copy(n) => {
                let start = self.pos as usize;
                let mut bytes: Vec<u8> = Vec::new();
                let mut k: usize = 0;
                while k < n
                    invariant
                        start as int + n <= buf.data.len(),
                        k <= n,
                        bytes@ == buf.data@.subrange(start as int, start + k),
                    decreases n - k,
                {
                    bytes.push(buf.data[start + k]);
                    proof {
                        assert(bytes@ =~= buf.data@.subrange(start as int, start + k + 1));
                    }
                    k = k + 1;
                }
                self.pos = self.pos + n as u64;
                ReadOutcome::Data(bytes)
            },
            ReadStep::EndOfStream => ReadOutcome::EndOfStream,
            ReadStep::Wait => ReadOutcome::Wait,
        }
    }

    /// Moves the position (see `seek_position`); a seek before the start
    /// fails and leaves the position as it is.
    pub fn seek(&mut self, buf: &SharedAudioBuf, target: SeekTarget) -> (r: Option<u64>)
        ensures
            r == seek_plan(old(self).pos, buf.data@.len() as int, target),
            final(self).pos == match r {
                Some(p) => p,
                None => old(self).pos,
            },
    {
        let r = seek_position(self.pos, buf.data.len(), target);
        match r {
            Some(p) => {
                self.pos = p;
            },
            None => {},
        }
        r
    }
}

// ───────────────────────── player state ─────────────────────────

#[derive(Debug, Clone, Copy, PartialEq, Eq, Structural)]
pub enum PlayerState {
    Playing,
    Paused,
    Stopped,
}

#[derive(Debug)]
pub struct TrackInfo {
    pub title: String,
    pub artist: String,
    pub absolute_path: String,
    pub total_duration_ms: u64,
    pub lyrics: Option<Lyrics>,
}

/// The state after a play/pause toggle.
pub open spec fn toggled(s: PlayerState) -> PlayerState {
    match s {
        PlayerState::Playing => PlayerState::Paused,
        PlayerState::Paused => PlayerState::Playing,
        PlayerState::Stopped => PlayerState::Stopped,
    }
}

/// What the audio output has to do after a state change.
#[derive(Debug, Clone, Copy, PartialEq, Eq, Structural)]
pub enum SinkAction {
    Nothing,
    Pause,
    Play,
}

/// The player's state: what plays, where a seek started, the play mode,
/// the shuffle order and the queue. The audio output follows it.
pub struct Playback {
    pub state: PlayerState,
    pub current_track: Option<TrackInfo>,
    /// Raw audio bytes of the current track, needed for seeking.
    pub audio_data: Option<Vec<u8>>,
    /// Absolute position (ms) at which the current output started.
    pub seek_offset_ms: u64,
    pub play_mode: PlayMode,
    /// `None` when not in shuffle mode.
    pub shuffle_state: Option<ShuffleState>,
    /// Songs queued to play next (checked before shuffle/sequential).
    pub queue: PlayQueue,
}

/// Position a seek goes to: at most 200 ms before the end of the track
/// (a track of unknown length counts as 0 ms long).
pub open spec fn clamp_seek(pos_ms: u64, total_ms: u64) -> u64 {
    let limit = if total_ms >= 200 {
        (total_ms - 200) as u64
    } else {
        0
    };
    if pos_ms < limit {
        pos_ms
    } else {
        limit
    }
}

pub open spec fn track_total(t: Option<TrackInfo>) -> u64 {
    match t {
        Some(t) => t.total_duration_ms,
        None => 0,
    }
}

/// The track with lyrics replaced, when some lyrics are given.
pub open spec fn with_lyrics(t: Option<TrackInfo>, lyrics: Option<Lyrics>) -> Option<TrackInfo> {
    match t {
        Some(tr) => if lyrics is Some {
            Some(TrackInfo { lyrics, ..tr })
        } else {
            Some(tr)
        },
        None => None,
    }
}

impl Playback {
    pub fn new() -> (r: Self)
        ensures
            r.state == PlayerState::Stopped,
            r.current_track is None,
            r.audio_data is None,
            r.seek_offset_ms == 0,
            r.play_mode == PlayMode::Sequential,
            r.shuffle_state is None,
            r.queue@ == Seq::<MusicEntry>::empty(),
    {
        Playback {
            state: PlayerState::Stopped,
            current_track: None,
            audio_data: None,
            seek_offset_ms: 0,
            play_mode: PlayMode::Sequential,
            shuffle_state: None,
            queue: PlayQueue::new(),
        }
    }

    /// A new track starts playing from its beginning. A track of unknown
    /// length takes the length the decoder reports, when it reports one.
    pub fn start_track(
        &mut self,
        track: TrackInfo,
        audio_data: Option<Vec<u8>>,
        decoded_duration_ms: Option<u64>,
    )
        ensures
            final(self).state == PlayerState::Playing,
            final(self).seek_offset_ms == 0,
            final(self).audio_data == audio_data,
            final(self).current_track == Some(
                if track.total_duration_ms == 0 && decoded_duration_ms is Some {
                    TrackInfo { total_duration_ms: decoded_duration_ms->0, ..track }
                } else {
                    track
                },
            ),
            final(self).play_mode == old(self).play_mode,
            final(self).shuffle_state == old(self).shuffle_state,
            final(self).queue == old(self).queue,
    {
        let mut track = track;
        if track.total_duration_ms == 0 {
            match decoded_duration_ms {
                Some(d) => {
                    track.total_duration_ms = d;
                },
                None => {},
            }
        }
        self.audio_data = audio_data;
        self.seek_offset_ms = 0;
        self.state = PlayerState::Playing;
        self.current_track = Some(track);
    }

    /// Update lyrics on the current track after playback has started
    /// (lyrics that arrive later); `None` keeps the current lyrics.
    pub fn set_lyrics(&mut self, lyrics: Option<Lyrics>)
        ensures
            final(self).current_track == with_lyrics(old(self).current_track, lyrics),
            final(self).state == old(self).state,
            final(self).audio_data == old(self).audio_data,
            final(self).seek_offset_ms == old(self).seek_offset_ms,
            final(self).play_mode == old(self).play_mode,
            final(self).shuffle_state == old(self).shuffle_state,
            final(self).queue == old(self).queue,
    {
        if lyrics.is_some() {
            match &mut self.current_track {
                Some(track) => {
                    track.lyrics = lyrics;
                },
                None => {},
            }
        }
    }

    /// The progressive download has finished: keep the full audio for
    /// seeking and take the lyrics, if any.
    pub fn finalize_streaming(&mut self, data: Vec<u8>, lyrics: Option<Lyrics>)
        ensures
            final(self).audio_data == Some(data),
            final(self).current_track == with_lyrics(old(self).current_track, lyrics),
            final(self).state == old(self).state,
            final(self).seek_offset_ms == old(self).seek_offset_ms,
            final(self).play_mode == old(self).play_mode,
            final(self).shuffle_state == old(self).shuffle_state,
            final(self).queue == old(self).queue,
    {
        self.audio_data = Some(data);
        self.set_lyrics(lyrics);
    }

    /// Where a seek to `pos_ms` lands: at most 200 ms before the end.
    pub fn seek_target(&self, pos_ms: u64) -> (r: u64)
        ensures
            r == clamp_seek(pos_ms, track_total(self.current_track)),
    {
        let total = match &self.current_track {
            Some(t) => t.total_duration_ms,
            None => 0,
        };
        let limit = total.saturating_sub(200);
        if pos_ms < limit {
            pos_ms
        } else {
            limit
        }
    }

    /// Where a relative seek of `delta_secs` seconds from `position_ms` lands:
    /// never before the start, at most 200 ms before the end.
    pub fn relative_seek_target(&self, position_ms: u64, delta_secs: i64) -> (r: u64)
        ensures
            r == clamp_seek(
                if position_ms + delta_secs * 1000 <= 0 {
                    0
                } else if position_ms + delta_secs * 1000 > u64::MAX {
                    u64::MAX
                } else {
                    (position_ms + delta_secs * 1000) as u64
                },
                track_total(self.current_track),
            ),
    {
        let raw: i128 = position_ms as i128 + delta_secs as i128 * 1000;
        let pos: u64 = if raw <= 0 {
            0
        } else if raw > u64::MAX as i128 {
            u64::MAX
        } else {
            raw as u64
        };
        self.seek_target(pos)
    }

    /// A seek has been carried out: the output restarts at `pos_ms`.
    pub fn seek_applied(&mut self, pos_ms: u64)
        ensures
            final(self).seek_offset_ms == pos_ms,
            final(self).state == PlayerState::Playing,
            final(self).current_track == old(self).current_track,
            final(self).audio_data == old(self).audio_data,
            final(self).play_mode == old(self).play_mode,
            final(self).shuffle_state == old(self).shuffle_state,
            final(self).queue == old(self).queue,
    {
        self.seek_offset_ms = pos_ms;
        self.state = PlayerState::Playing;
    }

    pub fn pause(&mut self) -> (r: SinkAction)
        ensures
            old(self).state == PlayerState::Playing ==> final(self).state == PlayerState::Paused
                && r == SinkAction::Pause,
            old(self).state != PlayerState::Playing ==> final(self).state == old(self).state
                && r == SinkAction::Nothing,
            final(self).current_track == old(self).current_track,
            final(self).audio_data == old(self).audio_data,
            final(self).seek_offset_ms == old(self).seek_offset_ms,
            final(self).play_mode == old(self).play_mode,
            final(self).shuffle_state == old(self).shuffle_state,
            final(self).queue == old(self).queue,
    {
        if self.state == PlayerState::Playing {
            self.state = PlayerState::Paused;
            SinkAction::Pause
        } else {
            SinkAction::Nothing
        }
    }

    pub fn resume(&mut self) -> (r: SinkAction)
        ensures
            old(self).state == PlayerState::Paused ==> final(self).state == PlayerState::Playing
                && r == SinkAction::Play,
            old(self).state != PlayerState::Paused ==> final(self).state == old(self).state
                && r == SinkAction::Nothing,
            final(self).current_track == old(self).current_track,
            final(self).audio_data == old(self).audio_data,
            final(self).seek_offset_ms == old(self).seek_offset_ms,
            final(self).play_mode == old(self).play_mode,
            final(self).shuffle_state == old(self).shuffle_state,
            final(self).queue == old(self).queue,
    {
        if self.state == PlayerState::Paused {
            self.state = PlayerState::Playing;
            SinkAction::Play
        } else {
            SinkAction::Nothing
        }
    }

    /// Stop playback and forget the current track.
    pub fn stop(&mut self)
        ensures
            final(self).state == PlayerState::Stopped,
            final(self).current_track is None,
            final(self).audio_data is None,
            final(self).seek_offset_ms == 0,
            final(self).play_mode == old(self).play_mode,
            final(self).shuffle_state == old(self).shuffle_state,
            final(self).queue == old(self).queue,
    {
        self.state = PlayerState::Stopped;
        self.current_track = None;
        self.audio_data = None;
        self.seek_offset_ms = 0;
    }

    /// Pause when playing, resume when paused, nothing when stopped.
    pub fn toggle_playback(&mut self) -> (r: SinkAction)
        ensures
            final(self).state == toggled(old(self).state),
            r == (match old(self).state {
                PlayerState::Playing => SinkAction::Pause,
                PlayerState::Paused => SinkAction::Play,
                PlayerState::Stopped => SinkAction::Nothing,
            }),
            final(self).current_track == old(self).current_track,
            final(self).audio_data == old(self).audio_data,
            final(self).seek_offset_ms == old(self).seek_offset_ms,
            final(self).play_mode == old(self).play_mode,
            final(self).shuffle_state == old(self).shuffle_state,
            final(self).queue == old(self).queue,
    {
        match self.state {
            PlayerState::Playing => self.pause(),
            PlayerState::Paused => self.resume(),
            PlayerState::Stopped => SinkAction::Nothing,
        }
    }

    /// Cycle to the next play mode; any shuffle order is dropped.
    pub fn cycle_play_mode(&mut self)
        ensures
            final(self).play_mode == next_mode(old(self).play_mode),
            final(self).shuffle_state is None,
            final(self).state == old(self).state,
            final(self).current_track == old(self).current_track,
            final(self).audio_data == old(self).audio_data,
            final(self).seek_offset_ms == old(self).seek_offset_ms,
            final(self).queue == old(self).queue,
    {
        self.play_mode = self.play_mode.next_variant();
        self.shuffle_state = None;
    }

    /// Pop the next shuffle index; the caller re-shuffles on `None`.
    pub fn next_shuffle_index(&mut self) -> (r: Option<usize>)
        ensures
            match old(self).shuffle_state {
                Some(s) => if s@.len() > 0 {
                    r == Some(s@.last()) && final(self).shuffle_state is Some
                        && final(self).shuffle_state->0@ == s@.drop_last()
                        && !final(self).shuffle_state->0@.contains(s@.last())
                } else {
                    r is None && final(self).shuffle_state == old(self).shuffle_state
                },
                None => r is None && final(self).shuffle_state is None,
            },
            final(self).state == old(self).state,
            final(self).current_track == old(self).current_track,
            final(self).audio_data == old(self).audio_data,
            final(self).seek_offset_ms == old(self).seek_offset_ms,
            final(self).play_mode == old(self).play_mode,
            final(self).queue == old(self).queue,
    {
        match &mut self.shuffle_state {
            Some(s) => s.next(),
            None => None,
        }
    }

    pub fn state(&self) -> (r: PlayerState)
        ensures
            r == self.state,
    {
        self.state
    }

    pub fn current_track(&self) -> (r: Option<&TrackInfo>)
        ensures
            match r {
                Some(t) => self.current_track == Some(*t),
                None => self.current_track is None,
            },
    {
        match &self.current_track {
            Some(t) => Some(t),
            None => None,
        }
    }

    pub fn has_audio_data(&self) -> (r: bool)
        ensures
            r == self.audio_data is Some,
    {
        self.audio_data.is_some()
    }
}

/// Toggling playback twice restores the state it started from.
pub proof fn lemma_toggle_twice(s: PlayerState)
    ensures
        toggled(toggled(s)) == s,
{
}

/// A seek target never lies past 200 ms before the end of the track, and a
/// target before that point is kept as it is.
pub proof fn lemma_clamp_seek(pos_ms: u64, total_ms: u64)
    ensures
        clamp_seek(pos_ms, total_ms) <= pos_ms,
        total_ms >= 200 ==> clamp_seek(pos_ms, total_ms) <= total_ms - 200,
        total_ms < 200 ==> clamp_seek(pos_ms, total_ms) == 0,
        total_ms >= 200 && pos_ms <= total_ms - 200 ==> clamp_seek(pos_ms, total_ms) == pos_ms,
{
}

} // verus!
