//! Downloads: the on-disk audio cache (file names derived from a song's
//! server and path, the age after which an entry expires, which entries go
//! first when the cache outgrows its size limit) and the bookkeeping of a
//! progressive download (when playback may start).
//!
//! Reading the directory, deleting files and the HTTP transfer itself
//! belong to the program.

use std::hash::Hash;
use std::hash::Hasher;
use vstd::prelude::*;
use crate::player::{index_range, is_permutation_of_range};

verus! {

/// Largest total size of the cache: 2 GiB.
pub const CACHE_MAX_BYTES: u64 = 2147483648;

/// Age after which a cached file is removed: 30 days, in seconds.
pub const CACHE_MAX_AGE_SECS: u64 = 2592000;

/// The texts fed to a hasher so far, in order.
pub uninterp spec fn hashed_texts(h: std::collections::hash_map::DefaultHasher) -> Seq<Seq<char>>;

/// The hash `DefaultHasher` computes after being fed these texts.
pub uninterp spec fn text_hash(texts: Seq<Seq<char>>) -> u64;

/// `DefaultHasher::new()`: a hasher that has been fed nothing. Every hasher
/// made this way starts from the same keys, so equal inputs hash equally.
#[verifier::external_body]
fn hasher_new() -> (r: std::collections::hash_map::DefaultHasher)
    ensures
        hashed_texts(r) == Seq::<Seq<char>>::empty(),
{
    std::collections::hash_map::DefaultHasher::new()
}

/// `<str as Hash>::hash`: feeds a text to the hasher.
#[verifier::external_body]
fn hash_text(s: &str, h: &mut std::collections::hash_map::DefaultHasher)
    ensures
        hashed_texts(*final(h)) == hashed_texts(*old(h)).push(s@),
{
    s.hash(h);
}

/// `Hasher::finish`: the hash of what has been fed.
#[verifier::external_body]
fn hasher_finish(h: &std::collections::hash_map::DefaultHasher) -> (r: u64)
    ensures
        r == text_hash(hashed_texts(*h)),
{
    h.finish()
}

pub open spec fn hex_char(d: nat) -> char {
    if d < 10 {
        crate::ui::digit_char(d)
    } else if d == 10 {
        'a'
    } else if d == 11 {
        'b'
    } else if d == 12 {
        'c'
    } else if d == 13 {
        'd'
    } else if d == 14 {
        'e'
    } else {
        'f'
    }
}

/// The last `w` hexadecimal digits of `n` (`{:0w$x}` for a number that
/// fits), most significant first.
pub open spec fn hex_digits(n: nat, w: nat) -> Seq<char>
    decreases w,
{
    if w == 0 {
        seq![]
    } else {
        hex_digits(n / 16, (w - 1) as nat).push(hex_char(n % 16))
    }
}

fn hex_digit(d: u64) -> (c: char)
    requires
        d < 16,
    ensures
        c == hex_char(d as nat),
{
    if d == 0 {
        '0'
    } else if d == 1 {
        '1'
    } else if d == 2 {
        '2'
    } else if d == 3 {
        '3'
    } else if d == 4 {
        '4'
    } else if d == 5 {
        '5'
    } else if d == 6 {
        '6'
    } else if d == 7 {
        '7'
    } else if d == 8 {
        '8'
    } else if d == 9 {
        '9'
    } else if d == 10 {
        'a'
    } else if d == 11 {
        'b'
    } else if d == 12 {
        'c'
    } else if d == 13 {
        'd'
    } else if d == 14 {
        'e'
    } else {
        'f'
    }
}

/// `format!("{:016x}", n)`.
pub fn hex16(n: u64) -> (r: String)
    ensures
        r@ == hex_digits(n as nat, 16),
{
    // digits least significant first
    let mut rev: Vec<char> = Vec::new();
    let mut m = n;
    let mut k: usize = 0;
    proof {
        assert(pow16(0) == 1);
        assert(n as nat / 1 == n as nat);
        assert(hex_digits(n as nat, 16) =~= hex_digits(m as nat, 16) + rev@.reverse());
    }
    while k < 16
        invariant
            k <= 16,
            rev@.len() == k,
            m as nat == n as nat / pow16(k as nat),
            hex_digits(n as nat, 16) == hex_digits(m as nat, (16 - k) as nat) + rev@.reverse(),
        decreases 16 - k,
    {
        let c = hex_digit(m % 16);
        proof {
            let nd = rev@.push(c);
            assert(nd.reverse() =~= seq![c] + rev@.reverse());
            assert(hex_digits(m as nat, (16 - k) as nat) == hex_digits((m / 16) as nat, (15 - k) as nat).push(
                hex_char((m % 16) as nat),
            ));
            assert(hex_digits(m as nat, (16 - k) as nat) + rev@.reverse() =~= hex_digits(
                (m / 16) as nat,
                (15 - k) as nat,
            ) + nd.reverse());
            lemma_div_pow16(n as nat, k as nat);
        }
        rev.push(c);
        m = m / 16;
        k = k + 1;
    }
    let mut r = String::new();
    let mut j: usize = 16;
    proof {
        assert(hex_digits(m as nat, 0) =~= Seq::<char>::empty());
        assert(hex_digits(n as nat, 16) =~= rev@.reverse());
    }
    while j > 0
        invariant
            j <= 16,
            rev@.len() == 16,
            r@ == rev@.subrange(j as int, 16).reverse(),
        decreases j,
    {
        j = j - 1;
        crate::text::push_char(&mut r, rev[j]);
        proof {
            assert(rev@.subrange(j as int, 16).reverse() =~= rev@.subrange(j + 1, 16).reverse().push(
                rev@[j as int],
            ));
        }
    }
    proof {
        assert(rev@.subrange(0, 16) =~= rev@);
    }
    r
}

pub open spec fn pow16(k: nat) -> nat
    decreases k,
{
    if k == 0 {
        1
    } else {
        16 * pow16((k - 1) as nat)
    }
}

proof fn lemma_div_pow16(n: nat, k: nat)
    ensures
        n / pow16(k) / 16 == n / pow16(k + 1),
        pow16(k) > 0,
    decreases k,
{
    if k > 0 {
        lemma_div_pow16(n, (k - 1) as nat);
    }
    assert(pow16(k + 1) == 16 * pow16(k));
    vstd::arithmetic::div_mod::lemma_div_denominator(n as int, pow16(k) as int, 16);
    vstd::arithmetic::mul::lemma_mul_is_commutative(pow16(k) as int, 16);
}

/// The cache directory.
#[derive(Debug)]
pub struct AudioCache {
    pub dir: String,
}

/// Name of the cache file of a song: its hash in 16 hexadecimal digits.
pub open spec fn cache_file_name(server_id: Seq<char>, path: Seq<char>) -> Seq<char> {
    hex_digits(text_hash(seq![server_id, path]) as nat, 16)
}

/// What joins the directory to a file name, as a path join does: a `/`,
/// unless the directory is empty or already ends with one.
pub open spec fn dir_separator(dir: Seq<char>) -> Seq<char> {
    if dir.len() > 0 && dir.last() != '/' {
        seq!['/']
    } else {
        Seq::<char>::empty()
    }
}

impl AudioCache {
    pub fn new(dir: String) -> (r: Self)
        ensures
            r.dir == dir,
    {
        AudioCache { dir }
    }

    /// The cache file of a song: the directory, then the song's file name.
    pub fn path_for(&self, server_id: &str, path: &str) -> (r: String)
        ensures
            r@ == self.dir@ + dir_separator(self.dir@) + cache_file_name(server_id@, path@),
    {
        let mut h = hasher_new();
        hash_text(server_id, &mut h);
        hash_text(path, &mut h);
        let key = hasher_finish(&h);
        proof {
            assert(hashed_texts(h) =~= seq![server_id@, path@]);
        }
        let name = hex16(key);
        let mut r = self.dir.clone();
        let chars = crate::text::chars_of(self.dir.as_str());
        if chars.len() > 0 && chars[chars.len() - 1] != '/' {
            crate::text::push_char(&mut r, '/');
        }
        proof {
            assert(r@ =~= self.dir@ + dir_separator(self.dir@));
        }
        r.append(name.as_str());
        r
    }
}

/// A file found in the cache directory: its size in bytes and when it was
/// last modified (seconds since the epoch).
#[derive(Debug, Clone, Copy, PartialEq, Eq, Structural)]
pub struct CacheFile {
    pub size: u64,
    pub modified: u64,
}

/// A file older than the maximum age is removed.
pub fn is_expired(age_secs: u64) -> (r: bool)
    ensures
        r == (age_secs > CACHE_MAX_AGE_SECS),
{
    age_secs > CACHE_MAX_AGE_SECS
}

pub open spec fn total_size(files: Seq<CacheFile>) -> int
    decreases files.len(),
{
    if files.len() == 0 {
        0
    } else {
        total_size(files.drop_last()) + files.last().size
    }
}

/// How many bytes the cache holds beyond its limit (0 within the limit).
pub fn cache_excess(files: &Vec<CacheFile>) -> (r: u128)
    requires
        files@.len() <= u64::MAX,
    ensures
        r == (if total_size(files@) > CACHE_MAX_BYTES {
            total_size(files@) - CACHE_MAX_BYTES
        } else {
            0
        }),
{
    let mut total: u128 = 0;
    let mut k: usize = 0;
    while k < files.len()
        invariant
            k <= files.len(),
            files@.len() <= u64::MAX,
            total == total_size(files@.take(k as int)),
            total <= k * (u64::MAX as int),
        decreases files.len() - k,
    {
        proof {
            assert(files@.take(k + 1).drop_last() =~= files@.take(k as int));
            assert(total + files@[k as int].size <= (k + 1) * (u64::MAX as int)) by (nonlinear_arith)
                requires
                    total <= k * (u64::MAX as int),
                    files@[k as int].size <= u64::MAX,
            ;
            assert((k + 1) * (u64::MAX as int) <= (u64::MAX as int) * (u64::MAX as int)) by (nonlinear_arith)
                requires
                    k + 1 <= u64::MAX,
            ;
        }
        total = total + files[k].size as u128;
        k = k + 1;
    }
    proof {
        assert(files@.take(k as int) =~= files@);
    }
    if total > CACHE_MAX_BYTES as u128 {
        total - CACHE_MAX_BYTES as u128
    } else {
        0
    }
}

/// Where index `x` enters the order `t`: after every index whose file is
/// not newer.
pub open spec fn age_pos(files: Seq<CacheFile>, t: Seq<usize>, x: usize) -> nat
    decreases t.len(),
{
    if t.len() == 0 {
        0
    } else if files[x as int].modified < files[t.last() as int].modified {
        age_pos(files, t.drop_last(), x)
    } else {
        t.len()
    }
}

/// The indices `0..n` of the files, stably sorted by modification time.
pub open spec fn oldest_first(files: Seq<CacheFile>, n: nat) -> Seq<usize>
    decreases n,
{
    if n == 0 {
        seq![]
    } else {
        let t = oldest_first(files, (n - 1) as nat);
        t.insert(age_pos(files, t, (n - 1) as usize) as int, (n - 1) as usize)
    }
}

proof fn lemma_age_pos(files: Seq<CacheFile>, t: Seq<usize>, x: usize)
    ensures
        age_pos(files, t, x) <= t.len(),
        forall|i: int|
            age_pos(files, t, x) <= i < t.len() ==> files[x as int].modified < files[#[trigger] t[i] as int].modified,
        age_pos(files, t, x) > 0 ==> files[x as int].modified >= files[t[age_pos(files, t, x) - 1] as int].modified,
    decreases t.len(),
{
    if t.len() > 0 && files[x as int].modified < files[t.last() as int].modified {
        lemma_age_pos(files, t.drop_last(), x);
        assert forall|i: int| age_pos(files, t, x) <= i < t.len() implies files[x as int].modified
            < files[#[trigger] t[i] as int].modified by {
            if i < t.len() - 1 {
                assert(t[i] == t.drop_last()[i]);
            }
        }
        if age_pos(files, t, x) > 0 {
            assert(t[age_pos(files, t, x) - 1] == t.drop_last()[age_pos(files, t, x) - 1]);
        }
    }
}

/// The order holds every index once and never puts a newer file before an
/// older one.
pub proof fn lemma_oldest_first(files: Seq<CacheFile>, n: nat)
    requires
        n <= files.len(),
        n <= usize::MAX,
    ensures
        is_permutation_of_range(oldest_first(files, n), n),
        oldest_first(files, n).len() == n,
        forall|i: int, j: int|
            0 <= i < j < n ==> files[#[trigger] oldest_first(files, n)[i] as int].modified
                <= files[#[trigger] oldest_first(files, n)[j] as int].modified,
    decreases n,
{
    if n > 0 {
        let x = (n - 1) as usize;
        let t = oldest_first(files, (n - 1) as nat);
        lemma_oldest_first(files, (n - 1) as nat);
        lemma_age_pos(files, t, x);
        let p = age_pos(files, t, x) as int;
        let r = t.insert(p, x);
        assert forall|i: int, j: int| 0 <= i < j < n implies files[#[trigger] r[i] as int].modified
            <= files[#[trigger] r[j] as int].modified by {
            if j < p {
                assert(r[i] == t[i] && r[j] == t[j]);
            } else if j == p {
                assert(r[i] == t[i]);
                if i < p - 1 {
                    assert(files[t[i] as int].modified <= files[t[p - 1] as int].modified);
                }
            } else if i < p {
                assert(r[i] == t[i] && r[j] == t[j - 1]);
            } else if i == p {
                assert(r[j] == t[j - 1]);
            } else {
                assert(r[i] == t[i - 1] && r[j] == t[j - 1]);
            }
        }
        assert(index_range(n) =~= index_range((n - 1) as nat).push(x));
        vstd::seq_lib::lemma_multiset_commutative(index_range((n - 1) as nat), seq![x]);
        assert(r =~= t.take(p) + seq![x] + t.skip(p));
        vstd::seq_lib::lemma_multiset_commutative(t.take(p) + seq![x], t.skip(p));
        vstd::seq_lib::lemma_multiset_commutative(t.take(p), seq![x]);
        vstd::seq_lib::lemma_multiset_commutative(t.take(p), t.skip(p));
        assert(t =~= t.take(p) + t.skip(p));
        assert(index_range((n - 1) as nat) + seq![x] =~= index_range(n));
        let a = t.take(p).to_multiset();
        let b = seq![x].to_multiset();
        let c = t.skip(p).to_multiset();
        assert(r.to_multiset() == a.add(b).add(c));
        assert(t.to_multiset() == a.add(c));
        assert(index_range(n).to_multiset() == index_range((n - 1) as nat).to_multiset().add(b));
        assert(a.add(b).add(c) =~= a.add(c).add(b)) by {
            broadcast use vstd::multiset::group_multiset_axioms;
        }
    } else {
        assert(index_range(0) =~= Seq::<usize>::empty());
        assert(oldest_first(files, 0) =~= Seq::<usize>::empty());
    }
}

/// The indices of the files, oldest first (files of equal age keep their
/// order): the order in which files leave an over-full cache.
pub fn eviction_order(files: &Vec<CacheFile>) -> (r: Vec<usize>)
    ensures
        r@ == oldest_first(files@, files@.len()),
        is_permutation_of_range(r@, files@.len()),
        forall|i: int, j: int|
            0 <= i < j < r@.len() ==> files@[#[trigger] r@[i] as int].modified
                <= files@[#[trigger] r@[j] as int].modified,
{
    let mut out: Vec<usize> = Vec::new();
    let mut k: usize = 0;
    while k < files.len()
        invariant
            k <= files.len(),
            out@ == oldest_first(files@, k as nat),
            forall|i: int| 0 <= i < out@.len() ==> out@[i] < k,
        decreases files.len() - k,
    {
        let ghost t = out@;
        proof {
            lemma_oldest_first(files@, k as nat);
            lemma_perm_bound(files@, k as nat);
        }
        let mut p = out.len();
        assert(t.take(p as int) =~= t);
        while p > 0 && files[k].modified < files[out[p - 1]].modified
            invariant
                p <= out.len(),
                out@ == t,
                k < files.len(),
                forall|i: int| 0 <= i < out@.len() ==> out@[i] < k,
                age_pos(files@, t, k) == age_pos(files@, t.take(p as int), k),
            decreases p,
        {
            proof {
                assert(t.take(p as int).drop_last() =~= t.take(p - 1));
                assert(t.take(p as int).last() == t[p - 1]);
            }
            p = p - 1;
        }
        proof {
            if p > 0 {
                assert(t.take(p as int).last() == t[p - 1]);
            }
        }
        out.insert(p, k);
        k = k + 1;
    }
    proof {
        lemma_oldest_first(files@, files@.len());
    }
    out
}

/// A run of the cache eviction: the files are tried oldest first, and the
/// run stops once the bytes removed cover the cache's excess or every file
/// has been tried. A file that could not be removed covers nothing.
#[derive(Debug)]
pub struct Eviction {
    order: Vec<usize>,
    pos: usize,
    excess: u128,
}

impl Eviction {
    pub closed spec fn spec_order(&self) -> Seq<usize> {
        self.order@
    }

    pub closed spec fn spec_pos(&self) -> nat {
        self.pos as nat
    }

    pub closed spec fn spec_excess(&self) -> nat {
        self.excess as nat
    }

    /// The run for the files found in the cache: their oldest-first order,
    /// nothing tried yet, and the whole excess still to cover.
    pub fn plan(files: &Vec<CacheFile>) -> (r: Self)
        requires
            files@.len() <= u64::MAX,
        ensures
            r.spec_order() == oldest_first(files@, files@.len()),
            r.spec_pos() == 0,
            r.spec_excess() == (if total_size(files@) > CACHE_MAX_BYTES {
                total_size(files@) - CACHE_MAX_BYTES
            } else {
                0
            }),
    {
        let excess = cache_excess(files);
        let order = eviction_order(files);
        Eviction { order, pos: 0, excess }
    }

    /// The next file to remove (an index into the files); none once the
    /// excess is covered or every file has been tried.
    pub fn next_file(&mut self) -> (r: Option<usize>)
        ensures
            if old(self).spec_excess() == 0 || old(self).spec_pos() >= old(self).spec_order().len() {
                r is None && *final(self) == *old(self)
            } else {
                &&& r == Some(old(self).spec_order()[old(self).spec_pos() as int])
                &&& final(self).spec_pos() == old(self).spec_pos() + 1
                &&& final(self).spec_order() == old(self).spec_order()
                &&& final(self).spec_excess() == old(self).spec_excess()
            },
    {
        if self.excess == 0 || self.pos >= self.order.len() {
            return None;
        }
        let i = self.order[self.pos];
        self.pos = self.pos + 1;
        Some(i)
    }

    /// The file just tried was removed: its size no longer counts against
    /// the excess.
    pub fn removed(&mut self, size: u64)
        ensures
            final(self).spec_excess() == (if old(self).spec_excess() >= size {
                old(self).spec_excess() - size
            } else {
                0
            }),
            final(self).spec_order() == old(self).spec_order(),
            final(self).spec_pos() == old(self).spec_pos(),
    {
        let size = size as u128;
        self.excess = if self.excess >= size {
            self.excess - size
        } else {
            0
        };
    }
}

proof fn lemma_perm_bound(files: Seq<CacheFile>, n: nat)
    requires
        n <= files.len(),
        n <= usize::MAX,
    ensures
        forall|i: int| 0 <= i < oldest_first(files, n).len() ==> oldest_first(files, n)[i] < n,
{
    lemma_oldest_first(files, n);
    crate::player::lemma_permutation_no_duplicates(oldest_first(files, n), n);
}


// ───────────────────────── progressive download ─────────────────────────

/// Bytes to buffer before playback of a stream starts: 256 KiB.
pub const STREAM_THRESHOLD: u64 = 262144;

/// Progress of a progressive download: bytes received, the announced total
/// (0 when unknown), and whether playback has been told to start.
#[derive(Debug, Clone, Copy, PartialEq, Eq, Structural)]
pub struct StreamProgress {
    pub received: u64,
    pub total: u64,
    pub ready_sent: bool,
}

impl StreamProgress {
    pub fn new(total: u64) -> (r: Self)
        ensures
            r == (StreamProgress { received: 0, total, ready_sent: false }),
    {
        StreamProgress { received: 0, total, ready_sent: false }
    }

    /// A chunk of `len` bytes arrived; `true` when playback starts now: the
    /// first time the received bytes reach the threshold.
    pub fn on_chunk(&mut self, len: u64) -> (start: bool)
        requires
            old(self).received + len <= u64::MAX,
        ensures
            final(self).received == old(self).received + len,
            final(self).total == old(self).total,
            start == (!old(self).ready_sent && final(self).received >= STREAM_THRESHOLD),
            final(self).ready_sent == (old(self).ready_sent || start),
    {
        self.received = self.received + len;
        if !self.ready_sent && self.received >= STREAM_THRESHOLD {
            self.ready_sent = true;
            true
        } else {
            false
        }
    }

    /// The download is complete; `true` when playback still has to start
    /// (a file smaller than the threshold).
    pub fn on_finish(&mut self) -> (start: bool)
        ensures
            start == !old(self).ready_sent,
            final(self).ready_sent,
            final(self).received == old(self).received,
            final(self).total == old(self).total,
    {
        let start = !self.ready_sent;
        self.ready_sent = true;
        start
    }
}

} // verus!
