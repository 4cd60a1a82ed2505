//! Character-level text utilities: whitespace, trimming, searching,
//! line splitting and decimal parsing, each with its mathematical meaning.
//!
//! Text is modelled as `Seq<char>`; executable helpers work on a `Vec<char>`
//! window `[lo, hi)` so that no intermediate copies are needed.

use vstd::prelude::*;

verus! {

// ───────────────────────── whitespace ─────────────────────────

/// Unicode `White_Space` property (the set that `char::is_whitespace` tests).
pub open spec fn is_ws(c: char) -> bool {
    let u = c as u32;
    ||| (0x9 <= u && u <= 0xD)
    ||| u == 0x20
    ||| u == 0x85
    ||| u == 0xA0
    ||| u == 0x1680
    ||| (0x2000 <= u && u <= 0x200A)
    ||| u == 0x2028
    ||| u == 0x2029
    ||| u == 0x202F
    ||| u == 0x205F
    ||| u == 0x3000
}

pub fn is_whitespace(c: char) -> (r: bool)
    ensures
        r == is_ws(c),
{
    let u = c as u32;
    (0x9 <= u && u <= 0xD) || u == 0x20 || u == 0x85 || u == 0xA0 || u == 0x1680 || (0x2000
        <= u && u <= 0x200A) || u == 0x2028 || u == 0x2029 || u == 0x202F || u == 0x205F || u
        == 0x3000
}

/// Text with leading whitespace removed (`str::trim_start`).
pub open spec fn trim_start(s: Seq<char>) -> Seq<char>
    decreases s.len(),
{
    if s.len() > 0 && is_ws(s[0]) {
        trim_start(s.drop_first())
    } else {
        s
    }
}

/// Text with trailing whitespace removed (`str::trim_end`).
pub open spec fn trim_end(s: Seq<char>) -> Seq<char>
    decreases s.len(),
{
    if s.len() > 0 && is_ws(s.last()) {
        trim_end(s.drop_last())
    } else {
        s
    }
}

/// Text with leading and trailing whitespace removed (`str::trim`).
pub open spec fn trim(s: Seq<char>) -> Seq<char> {
    trim_end(trim_start(s))
}

proof fn lemma_trim_start_step(s: Seq<char>, i: int, hi: int)
    requires
        0 <= i < hi <= s.len(),
        is_ws(s[i]),
    ensures
        trim_start(s.subrange(i, hi)) == trim_start(s.subrange(i + 1, hi)),
{
    assert(s.subrange(i, hi).drop_first() =~= s.subrange(i + 1, hi));
}

proof fn lemma_trim_end_step(s: Seq<char>, lo: int, j: int)
    requires
        0 <= lo < j <= s.len(),
        is_ws(s[j - 1]),
    ensures
        trim_end(s.subrange(lo, j)) == trim_end(s.subrange(lo, j - 1)),
{
    assert(s.subrange(lo, j).drop_last() =~= s.subrange(lo, j - 1));
}

/// Bounds of `trim_start` of the window `[lo, hi)`.
pub fn trim_start_index(v: &Vec<char>, lo: usize, hi: usize) -> (i: usize)
    requires
        lo <= hi <= v.len(),
    ensures
        lo <= i <= hi,
        trim_start(v@.subrange(lo as int, hi as int)) == v@.subrange(i as int, hi as int),
{
    let mut i = lo;
    while i < hi && is_whitespace(v[i])
        invariant
            lo <= i <= hi <= v.len(),
            trim_start(v@.subrange(lo as int, hi as int)) == trim_start(
                v@.subrange(i as int, hi as int),
            ),
        decreases hi - i,
    {
        proof {
            lemma_trim_start_step(v@, i as int, hi as int);
        }
        i = i + 1;
    }
    proof {
        let w = v@.subrange(i as int, hi as int);
        if i < hi {
            assert(w[0] == v@[i as int]);
        }
        assert(!(w.len() > 0 && is_ws(w[0])));
    }
    i
}

/// Bounds of `trim_end` of the window `[lo, hi)`.
pub fn trim_end_index(v: &Vec<char>, lo: usize, hi: usize) -> (j: usize)
    requires
        lo <= hi <= v.len(),
    ensures
        lo <= j <= hi,
        trim_end(v@.subrange(lo as int, hi as int)) == v@.subrange(lo as int, j as int),
{
    let mut j = hi;
    while j > lo && is_whitespace(v[j - 1])
        invariant
            lo <= j <= hi <= v.len(),
            trim_end(v@.subrange(lo as int, hi as int)) == trim_end(
                v@.subrange(lo as int, j as int),
            ),
        decreases j - lo,
    {
        proof {
            lemma_trim_end_step(v@, lo as int, j as int);
        }
        j = j - 1;
    }
    proof {
        let w = v@.subrange(lo as int, j as int);
        if j > lo {
            assert(w.last() == v@[j - 1]);
        }
        assert(!(w.len() > 0 && is_ws(w.last())));
    }
    j
}

/// Bounds of `trim` of the window `[lo, hi)`.
pub fn trim_indices(v: &Vec<char>, lo: usize, hi: usize) -> (r: (usize, usize))
    requires
        lo <= hi <= v.len(),
    ensures
        lo <= r.0 <= r.1 <= hi,
        trim(v@.subrange(lo as int, hi as int)) == v@.subrange(r.0 as int, r.1 as int),
{
    let i = trim_start_index(v, lo, hi);
    let j = trim_end_index(v, i, hi);
    (i, j)
}

// ───────────────────────── searching ─────────────────────────

/// Index of the first occurrence of `c` in `s`, or -1 when there is none.
pub open spec fn index_of(s: Seq<char>, c: char) -> int
    decreases s.len(),
{
    if s.len() == 0 {
        -1
    } else if s[0] == c {
        0
    } else {
        let r = index_of(s.drop_first(), c);
        if r < 0 {
            -1
        } else {
            r + 1
        }
    }
}

pub proof fn lemma_index_of(s: Seq<char>, c: char)
    ensures
        -1 <= index_of(s, c) < s.len(),
        index_of(s, c) >= 0 ==> s[index_of(s, c)] == c,
        forall|j: int| 0 <= j < s.len() && (index_of(s, c) < 0 || j < index_of(s, c)) ==> s[j] != c,
    decreases s.len(),
{
    if s.len() > 0 && s[0] != c {
        lemma_index_of(s.drop_first(), c);
        assert forall|j: int|
            0 <= j < s.len() && (index_of(s, c) < 0 || j < index_of(s, c)) implies s[j] != c by {
            if j > 0 {
                assert(s[j] == s.drop_first()[j - 1]);
            }
        }
    }
}

/// Characterisation of `index_of` by the first position of `c`.
pub proof fn lemma_index_of_at(s: Seq<char>, c: char, k: int)
    requires
        0 <= k <= s.len(),
        k < s.len() ==> s[k] == c,
        forall|j: int| 0 <= j < k ==> s[j] != c,
    ensures
        index_of(s, c) == (if k < s.len() {
            k
        } else {
            -1
        }),
    decreases s.len(),
{
    if s.len() > 0 && k > 0 {
        let t = s.drop_first();
        assert forall|j: int| 0 <= j < k - 1 implies t[j] != c by {
            assert(t[j] == s[j + 1]);
        }
        if k < s.len() {
            assert(t[k - 1] == s[k]);
        }
        lemma_index_of_at(t, c, k - 1);
        assert(s[0] != c);
    }
}

/// First position of `c` in the window `[lo, hi)`, relative to the whole vector.
pub fn find_char(v: &Vec<char>, lo: usize, hi: usize, c: char) -> (r: Option<usize>)
    requires
        lo <= hi <= v.len(),
    ensures
        match r {
            Some(k) => lo <= k < hi && index_of(v@.subrange(lo as int, hi as int), c) == k - lo,
            None => index_of(v@.subrange(lo as int, hi as int), c) == -1,
        },
{
    let mut k = lo;
    while k < hi
        invariant
            lo <= k <= hi <= v.len(),
            forall|j: int| lo <= j < k ==> v@[j] != c,
        decreases hi - k,
    {
        if v[k] == c {
            proof {
                let w = v@.subrange(lo as int, hi as int);
                assert forall|j: int| 0 <= j < k - lo implies w[j] != c by {
                    assert(w[j] == v@[lo + j]);
                }
                lemma_index_of_at(w, c, k - lo);
            }
            return Some(k);
        }
        k = k + 1;
    }
    proof {
        let w = v@.subrange(lo as int, hi as int);
        assert forall|j: int| 0 <= j < w.len() implies w[j] != c by {
            assert(w[j] == v@[lo + j]);
        }
        lemma_index_of_at(w, c, w.len() as int);
    }
    None
}

/// `str::split_once` on a single character.
pub open spec fn split_once(s: Seq<char>, c: char) -> Option<(Seq<char>, Seq<char>)> {
    let i = index_of(s, c);
    if i < 0 {
        None
    } else {
        Some((s.take(i), s.skip(i + 1)))
    }
}

// ───────────────────────── lines ─────────────────────────

/// A line without the carriage return that preceded its `\n`.
pub open spec fn strip_cr(s: Seq<char>) -> Seq<char> {
    if s.len() > 0 && s.last() == '\r' {
        s.drop_last()
    } else {
        s
    }
}

/// `str::lines`: split at `\n`, drop a `\r` before each `\n`, and produce no
/// final empty line after a trailing `\n`.
pub open spec fn lines(s: Seq<char>) -> Seq<Seq<char>>
    decreases s.len(),
{
    if s.len() == 0 {
        seq![]
    } else {
        let i = index_of(s, '\n');
        if i < 0 {
            seq![s]
        } else {
            proof {
                lemma_index_of(s, '\n');
            }
            seq![strip_cr(s.take(i))] + lines(s.skip(i + 1))
        }
    }
}

/// The window `[lo, hi)` of each line of the window `[start, end)`.
pub fn line_bounds(v: &Vec<char>, start: usize, end: usize) -> (r: Vec<(usize, usize)>)
    requires
        start <= end <= v.len(),
    ensures
        r@.len() == lines(v@.subrange(start as int, end as int)).len(),
        forall|k: int|
            #![trigger r@[k]]
            0 <= k < r@.len() ==> start <= r@[k].0 <= r@[k].1 <= end && v@.subrange(
                r@[k].0 as int,
                r@[k].1 as int,
            ) == lines(v@.subrange(start as int, end as int))[k],
{
    let mut r: Vec<(usize, usize)> = Vec::new();
    let mut pos = start;
    let ghost done: Seq<Seq<char>> = seq![];
    while pos < end
        invariant
            start <= pos <= end <= v.len(),
            lines(v@.subrange(start as int, end as int)) == done + lines(
                v@.subrange(pos as int, end as int),
            ),
            r@.len() == done.len(),
            forall|k: int|
                #![trigger r@[k]]
                0 <= k < r@.len() ==> start <= r@[k].0 <= r@[k].1 <= end && v@.subrange(
                    r@[k].0 as int,
                    r@[k].1 as int,
                ) == done[k],
        decreases end - pos,
    {
        let w = Ghost(v@.subrange(pos as int, end as int));
        match find_char(v, pos, end, '\n') {
            Some(nl) => {
                let mut e = nl;
                if e > pos && v[e - 1] == '\r' {
                    e = e - 1;
                }
                proof {
                    let i = nl - pos;
                    assert(w@.take(i) =~= v@.subrange(pos as int, nl as int));
                    assert(w@.skip(i + 1) =~= v@.subrange(nl + 1, end as int));
                    if nl > pos && v@[nl - 1] == '\r' {
                        assert(strip_cr(w@.take(i)) =~= v@.subrange(pos as int, e as int));
                    } else {
                        assert(strip_cr(w@.take(i)) =~= v@.subrange(pos as int, e as int));
                    }
                    assert(lines(w@) == seq![strip_cr(w@.take(i))] + lines(w@.skip(i + 1)));
                    assert(done + lines(w@) =~= done.push(strip_cr(w@.take(i))) + lines(
                        w@.skip(i + 1),
                    ));
                    done = done.push(strip_cr(w@.take(i)));
                }
                r.push((pos, e));
                pos = nl + 1;
            },
            None => {
                proof {
                    assert(lines(w@) == seq![w@]);
                    assert(lines(v@.subrange(end as int, end as int)) =~= seq![]);
                    assert(done + lines(w@) =~= done.push(w@) + lines(
                        v@.subrange(end as int, end as int),
                    ));
                    done = done.push(w@);
                }
                r.push((pos, end));
                pos = end;
            },
        }
    }
    proof {
        assert(lines(v@.subrange(pos as int, end as int)) =~= seq![]);
        assert(done + seq![] =~= done);
    }
    r
}

// ───────────────────────── decimal numbers ─────────────────────────

pub open spec fn is_digit(c: char) -> bool {
    '0' <= c && c <= '9'
}

pub open spec fn digit_value(c: char) -> nat {
    (c as u32 - '0' as u32) as nat
}

/// Value of a string of decimal digits, most significant first.
pub open spec fn digits_value(d: Seq<char>) -> nat
    decreases d.len(),
{
    if d.len() == 0 {
        0
    } else {
        digits_value(d.drop_last()) * 10 + digit_value(d.last())
    }
}

pub open spec fn all_digits(d: Seq<char>) -> bool {
    forall|i: int| 0 <= i < d.len() ==> is_digit(#[trigger] d[i])
}

/// `u64::from_str`: an optional `+`, then one or more decimal digits whose
/// value fits in 64 bits.
pub open spec fn parse_u64(s: Seq<char>) -> Option<u64> {
    let d = if s.len() > 0 && s[0] == '+' {
        s.drop_first()
    } else {
        s
    };
    if d.len() > 0 && all_digits(d) && digits_value(d) <= u64::MAX {
        Some(digits_value(d) as u64)
    } else {
        None
    }
}

proof fn lemma_digits_value_prefix(d: Seq<char>, k: int)
    requires
        0 <= k <= d.len(),
    ensures
        digits_value(d.take(k)) <= digits_value(d),
    decreases d.len() - k,
{
    if k < d.len() {
        lemma_digits_value_prefix(d, k + 1);
        assert(d.take(k + 1).drop_last() =~= d.take(k));
    } else {
        assert(d.take(k) =~= d);
    }
}

/// `u64::from_str` on the window `[lo, hi)`.
pub fn parse_u64_at(v: &Vec<char>, lo: usize, hi: usize) -> (r: Option<u64>)
    requires
        lo <= hi <= v.len(),
    ensures
        r == parse_u64(v@.subrange(lo as int, hi as int)),
{
    let ghost s = v@.subrange(lo as int, hi as int);
    let mut i = lo;
    if i < hi && v[i] == '+' {
        i = i + 1;
    }
    let ghost d = if s.len() > 0 && s[0] == '+' {
        s.drop_first()
    } else {
        s
    };
    assert(d =~= v@.subrange(i as int, hi as int));
    if i == hi {
        return None;
    }
    let mut acc: u64 = 0;
    let mut k = i;
    while k < hi
        invariant
            lo <= i <= k <= hi <= v.len(),
            s == v@.subrange(lo as int, hi as int),
            d == (if s.len() > 0 && s[0] == '+' {
                s.drop_first()
            } else {
                s
            }),
            d.len() > 0,
            d == v@.subrange(i as int, hi as int),
            forall|j: int| i <= j < k ==> is_digit(v@[j]),
            acc == digits_value(v@.subrange(i as int, k as int)),
        decreases hi - k,
    {
        let c = v[k];
        if !('0' <= c && c <= '9') {
            proof {
                assert(d[k - i] == c);
                assert(!is_digit(d[k - i]));
                assert(!all_digits(d));
            }
            return None;
        }
        let dv: u64 = (c as u32 - '0' as u32) as u64;
        proof {
            let p = v@.subrange(i as int, k + 1);
            assert(p.drop_last() =~= v@.subrange(i as int, k as int));
            assert(digits_value(p) == acc * 10 + dv);
            assert(p =~= d.take(k + 1 - i));
            lemma_digits_value_prefix(d, k + 1 - i);
        }
        match acc.checked_mul(10) {
            Some(m) => match m.checked_add(dv) {
                Some(a) => {
                    acc = a;
                },
                None => {
                    return None;
                },
            },
            None => {
                proof {
                    assert(acc * 10 + dv > u64::MAX) by (nonlinear_arith)
                        requires
                            acc * 10 > u64::MAX,
                    ;
                }
                return None;
            },
        }
        k = k + 1;
    }
    proof {
        assert(v@.subrange(i as int, k as int) =~= d);
    }
    Some(acc)
}

// ───────────────────────── UTF-8 width ─────────────────────────

/// Number of bytes of `c` in UTF-8.
pub open spec fn utf8_width(c: char) -> nat {
    let u = c as u32;
    if u < 0x80 {
        1
    } else if u < 0x800 {
        2
    } else if u < 0x10000 {
        3
    } else {
        4
    }
}

/// Number of bytes of `s` in UTF-8 (`str::len`).
pub open spec fn utf8_len(s: Seq<char>) -> nat
    decreases s.len(),
{
    if s.len() == 0 {
        0
    } else {
        utf8_len(s.drop_last()) + utf8_width(s.last())
    }
}

/// Whether the UTF-8 length of the window `[lo, hi)` is at least `n`.
pub fn utf8_len_at_least(v: &Vec<char>, lo: usize, hi: usize, n: usize) -> (r: bool)
    requires
        lo <= hi <= v.len(),
    ensures
        r == (utf8_len(v@.subrange(lo as int, hi as int)) >= n),
{
    if n == 0 {
        return true;
    }
    let mut total: usize = 0;
    let mut k = lo;
    while k < hi
        invariant
            lo <= k <= hi <= v.len(),
            total == utf8_len(v@.subrange(lo as int, k as int)),
            total < n,
        decreases hi - k,
    {
        let u = v[k] as u32;
        let w: usize = if u < 0x80 {
            1
        } else if u < 0x800 {
            2
        } else if u < 0x10000 {
            3
        } else {
            4
        };
        proof {
            assert(v@.subrange(lo as int, k + 1).drop_last() =~= v@.subrange(lo as int, k as int));
            assert(utf8_len(v@.subrange(lo as int, k + 1)) == total + w);
        }
        if w >= n - total {
            proof {
                lemma_utf8_len_prefix(v@.subrange(lo as int, hi as int), k + 1 - lo);
                assert(v@.subrange(lo as int, hi as int).take(k + 1 - lo) =~= v@.subrange(
                    lo as int,
                    k + 1,
                ));
            }
            return true;
        }
        total = total + w;
        k = k + 1;
    }
    false
}

proof fn lemma_utf8_len_prefix(s: Seq<char>, k: int)
    requires
        0 <= k <= s.len(),
    ensures
        utf8_len(s.take(k)) <= utf8_len(s),
    decreases s.len() - k,
{
    if k < s.len() {
        lemma_utf8_len_prefix(s, k + 1);
        assert(s.take(k + 1).drop_last() =~= s.take(k));
    } else {
        assert(s.take(k) =~= s);
    }
}

// ───────────────────────── conversions ─────────────────────────

/// The characters of a string slice.
pub fn chars_of(s: &str) -> (v: Vec<char>)
    ensures
        v@ == s@,
{
    let mut v: Vec<char> = Vec::new();
    let n = s.unicode_len();
    for i in 0..n
        invariant
            n == s@.len(),
            v@ == s@.take(i as int),
    {
        let c = s.get_char(i);
        proof {
            assert(s@.take(i + 1) =~= v@.push(c));
        }
        v.push(c);
    }
    proof {
        assert(s@.take(n as int) =~= s@);
    }
    v
}

/// Appends a character (`String::push`).
#[verifier::external_body]
pub(crate) fn push_char(s: &mut String, c: char)
    ensures
        final(s)@ == old(s)@.push(c),
{
    s.push(c);
}

/// A new string holding the window `[lo, hi)`.
pub fn string_from(v: &Vec<char>, lo: usize, hi: usize) -> (r: String)
    requires
        lo <= hi <= v.len(),
    ensures
        r@ == v@.subrange(lo as int, hi as int),
{
    let mut r = String::new();
    let mut k = lo;
    while k < hi
        invariant
            lo <= k <= hi <= v.len(),
            r@ == v@.subrange(lo as int, k as int),
        decreases hi - k,
    {
        push_char(&mut r, v[k]);
        proof {
            assert(v@.subrange(lo as int, k + 1) =~= v@.subrange(lo as int, k as int).push(
                v@[k as int],
            ));
        }
        k = k + 1;
    }
    r
}

/// Whether two string slices hold the same characters.
pub fn str_eq(a: &str, b: &str) -> (r: bool)
    ensures
        r == (a@ == b@),
{
    let va = chars_of(a);
    let vb = chars_of(b);
    if va.len() != vb.len() {
        return false;
    }
    let mut k: usize = 0;
    while k < va.len()
        invariant
            va.len() == vb.len(),
            va@ == a@,
            vb@ == b@,
            k <= va.len(),
            forall|j: int| 0 <= j < k ==> va@[j] == vb@[j],
        decreases va.len() - k,
    {
        if va[k] != vb[k] {
            return false;
        }
        k = k + 1;
    }
    proof {
        assert(va@ =~= vb@);
    }
    true
}


/// Text with every trailing `c` removed (`str::trim_end_matches(c)`).
pub open spec fn trim_end_char(s: Seq<char>, c: char) -> Seq<char>
    decreases s.len(),
{
    if s.len() > 0 && s.last() == c {
        trim_end_char(s.drop_last(), c)
    } else {
        s
    }
}

/// `str::trim_end_matches` on a single character.
pub fn trim_end_matches(s: &str, c: char) -> (r: &str)
    ensures
        r@ == trim_end_char(s@, c),
{
    let v = chars_of(s);
    let mut j = v.len();
    proof {
        assert(v@.subrange(0, j as int) =~= s@);
    }
    while j > 0 && v[j - 1] == c
        invariant
            j <= v.len(),
            v@ == s@,
            trim_end_char(s@, c) == trim_end_char(v@.subrange(0, j as int), c),
        decreases j,
    {
        proof {
            assert(v@.subrange(0, j as int).drop_last() =~= v@.subrange(0, j - 1));
        }
        j = j - 1;
    }
    proof {
        if j > 0 {
            assert(v@.subrange(0, j as int).last() == v@[j - 1]);
        }
    }
    s.substring_char(0, j)
}

/// Unicode lower-case mapping of a text, as `str::to_lowercase` computes it.
pub uninterp spec fn lowercase(s: Seq<char>) -> Seq<char>;

/// `str::to_lowercase` (full Unicode case mapping). The contract only names
/// the result; the mapping table is not written out here.
#[verifier::external_body]
pub(crate) fn to_lowercase(s: &str) -> (r: String)
    ensures
        r@ == lowercase(s@),
{
    s.to_lowercase()
}

/// `needle` occurs in `hay` at position `i`.
pub open spec fn occurs_at(hay: Seq<char>, needle: Seq<char>, i: int) -> bool {
    0 <= i && i + needle.len() <= hay.len() && hay.subrange(i, i + needle.len()) == needle
}

/// `str::contains` for a text pattern.
pub open spec fn contains_text(hay: Seq<char>, needle: Seq<char>) -> bool {
    exists|i: int| occurs_at(hay, needle, i)
}

/// Whether `needle` occurs in `hay`.
pub fn str_contains(hay: &str, needle: &str) -> (r: bool)
    ensures
        r == contains_text(hay@, needle@),
{
    let h = chars_of(hay);
    let n = chars_of(needle);
    if n.len() > h.len() {
        proof {
            assert forall|i: int| !occurs_at(hay@, needle@, i) by {}
        }
        return false;
    }
    let last = h.len() - n.len();
    let mut i: usize = 0;
    while i <= last
        invariant
            h@ == hay@,
            n@ == needle@,
            n.len() <= h.len(),
            last == h.len() - n.len(),
            forall|j: int| 0 <= j < i ==> !occurs_at(hay@, needle@, j),
        decreases last + 1 - i,
    {
        let mut k: usize = 0;
        let mut ok = true;
        while k < n.len()
            invariant
                h@ == hay@,
                n@ == needle@,
                i <= last,
                last == h.len() - n.len(),
                k <= n.len(),
                ok ==> forall|m: int| 0 <= m < k ==> h@[i + m] == n@[m],
                !ok ==> !occurs_at(hay@, needle@, i as int),
            decreases n.len() - k,
        {
            if h[i + k] != n[k] {
                proof {
                    if occurs_at(hay@, needle@, i as int) {
                        assert(hay@.subrange(i as int, i + needle.len())[k as int] == h@[i + k]);
                    }
                }
                ok = false;
            }
            k = k + 1;
        }
        if ok {
            proof {
                assert(hay@.subrange(i as int, i + n.len()) =~= needle@);
                assert(occurs_at(hay@, needle@, i as int));
            }
            return true;
        }
        if i == last {
            proof {
                assert forall|j: int| !occurs_at(hay@, needle@, j) by {
                    if 0 <= j && j + needle@.len() <= hay@.len() {
                        assert(j <= last);
                    }
                }
            }
            return false;
        }
        i = i + 1;
    }
    false
}


/// Text with every leading `c` removed (`str::trim_start_matches(c)`).
pub open spec fn trim_start_char(s: Seq<char>, c: char) -> Seq<char>
    decreases s.len(),
{
    if s.len() > 0 && s[0] == c {
        trim_start_char(s.drop_first(), c)
    } else {
        s
    }
}

/// `str::trim_matches` on a single character.
pub fn trim_matches(s: &str, c: char) -> (r: &str)
    ensures
        r@ == trim_end_char(trim_start_char(s@, c), c),
{
    let v = chars_of(s);
    let n = v.len();
    let mut i: usize = 0;
    proof {
        assert(v@.subrange(0, n as int) =~= s@);
    }
    while i < n && v[i] == c
        invariant
            i <= n == v.len(),
            v@ == s@,
            trim_start_char(s@, c) == trim_start_char(v@.subrange(i as int, n as int), c),
        decreases n - i,
    {
        proof {
            assert(v@.subrange(i as int, n as int).drop_first() =~= v@.subrange(i + 1, n as int));
        }
        i = i + 1;
    }
    proof {
        if i < n {
            assert(v@.subrange(i as int, n as int)[0] == v@[i as int]);
        }
    }
    let mut j = n;
    while j > i && v[j - 1] == c
        invariant
            i <= j <= n == v.len(),
            v@ == s@,
            trim_start_char(s@, c) == v@.subrange(i as int, n as int),
            trim_end_char(v@.subrange(i as int, n as int), c) == trim_end_char(
                v@.subrange(i as int, j as int),
                c,
            ),
        decreases j - i,
    {
        proof {
            assert(v@.subrange(i as int, j as int).drop_last() =~= v@.subrange(i as int, j - 1));
        }
        j = j - 1;
    }
    proof {
        if j > i {
            assert(v@.subrange(i as int, j as int).last() == v@[j - 1]);
        }
    }
    s.substring_char(i, j)
}

/// `str::trim` on a string slice.
pub fn trim_str(s: &str) -> (r: &str)
    ensures
        r@ == trim(s@),
{
    let v = chars_of(s);
    proof {
        assert(v@.subrange(0, v@.len() as int) =~= s@);
    }
    let (a, b) = trim_indices(&v, 0, v.len());
    s.substring_char(a, b)
}


/// `hay` begins with `prefix`.
pub open spec fn starts_with(hay: Seq<char>, prefix: Seq<char>) -> bool {
    prefix.len() <= hay.len() && hay.take(prefix.len() as int) == prefix
}

/// Whether `hay` begins with `prefix` (`str::starts_with`).
pub fn str_starts_with(hay: &str, prefix: &str) -> (r: bool)
    ensures
        r == starts_with(hay@, prefix@),
{
    let h = chars_of(hay);
    let p = chars_of(prefix);
    if p.len() > h.len() {
        return false;
    }
    let mut k: usize = 0;
    while k < p.len()
        invariant
            h@ == hay@,
            p@ == prefix@,
            p.len() <= h.len(),
            k <= p.len(),
            forall|j: int| 0 <= j < k ==> h@[j] == p@[j],
        decreases p.len() - k,
    {
        if h[k] != p[k] {
            proof {
                assert(hay@.take(prefix@.len() as int)[k as int] != prefix@[k as int]);
            }
            return false;
        }
        k = k + 1;
    }
    proof {
        assert(hay@.take(prefix@.len() as int) =~= prefix@);
    }
    true
}

} // verus!
