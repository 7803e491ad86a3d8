//! Parsing of the local-link probe. On the one supported platform the probe
//! shells out to the OS wireless-interface query tool; the caller hands the
//! captured output here as plain bytes. The parser scans the line-oriented
//! key:value output case-insensitively and reports Connected exactly when a
//! "state" line's value contains "connected"; output without a parseable
//! "state" line is a probe failure, not merely Disconnected.

use vstd::prelude::*;

verus! {

/// Why a link probe failed (distinct from a successful probe that reports
/// the link as down).
#[derive(Clone, Copy, Debug, PartialEq, Eq, Structural)]
pub enum LinkProbeError {
    /// The query tool could not be launched at all.
    LaunchFailed,
    /// The query tool exited with a non-zero status.
    NonZeroExit,
    /// No "state" line with a value could be found in the output.
    Unparseable,
    /// The platform has no link query tool.
    Unsupported,
}

/// ASCII whitespace: space, tab, line feed, form feed, carriage return.
pub open spec fn is_space(b: u8) -> bool {
    b == 32 || b == 9 || b == 10 || b == 12 || b == 13
}

/// ASCII lowercasing of one byte.
pub open spec fn to_lower(b: u8) -> u8 {
    if 65 <= b && b <= 90 {
        (b + 32) as u8
    } else {
        b
    }
}

/// ASCII lowercasing of a byte sequence.
pub open spec fn lower_bytes(s: Seq<u8>) -> Seq<u8> {
    s.map_values(|b: u8| to_lower(b))
}

/// The sequence without its leading ASCII whitespace.
pub open spec fn trim_front(s: Seq<u8>) -> Seq<u8>
    decreases s.len(),
{
    if s.len() > 0 && is_space(s[0]) {
        trim_front(s.drop_first())
    } else {
        s
    }
}

/// The sequence without its trailing ASCII whitespace.
pub open spec fn trim_back(s: Seq<u8>) -> Seq<u8>
    decreases s.len(),
{
    if s.len() > 0 && is_space(s[s.len() - 1]) {
        trim_back(s.drop_last())
    } else {
        s
    }
}

/// The sequence without leading and trailing ASCII whitespace.
pub open spec fn trim_bytes(s: Seq<u8>) -> Seq<u8> {
    trim_back(trim_front(s))
}

/// The bytes of "state".
pub open spec fn state_key() -> Seq<u8> {
    seq![115u8, 116u8, 97u8, 116u8, 101u8]
}

/// The bytes of "connected".
pub open spec fn connected_key() -> Seq<u8> {
    seq![99u8, 111u8, 110u8, 110u8, 101u8, 99u8, 116u8, 101u8, 100u8]
}

/// `p` is a prefix of `s`.
pub open spec fn begins_with(s: Seq<u8>, p: Seq<u8>) -> bool {
    p.len() <= s.len() && s.take(p.len() as int) == p
}

/// `p` occurs contiguously somewhere in `s`.
pub open spec fn has_sub(s: Seq<u8>, p: Seq<u8>) -> bool {
    exists|i: int| 0 <= i && i + p.len() <= s.len() && #[trigger] s.subrange(i, i + p.len()) == p
}

/// Everything after the first occurrence of `b`, if `b` occurs at all.
pub open spec fn tail_after(s: Seq<u8>, b: u8) -> Option<Seq<u8>>
    decreases s.len(),
{
    if s.len() == 0 {
        None
    } else if s[0] == b {
        Some(s.drop_first())
    } else {
        tail_after(s.drop_first(), b)
    }
}

/// Length of the first line: the number of bytes before the first line feed
/// (the whole sequence when there is none).
pub open spec fn head_line_len(s: Seq<u8>) -> int
    decreases s.len(),
{
    if s.len() == 0 {
        0int
    } else if s[0] == 10 {
        0int
    } else {
        1 + head_line_len(s.drop_first())
    }
}

proof fn lemma_head_line_len_bounds(s: Seq<u8>)
    ensures
        0 <= head_line_len(s) <= s.len(),
    decreases s.len(),
{
    if s.len() > 0 && s[0] != 10 {
        lemma_head_line_len_bounds(s.drop_first());
    }
}

/// What the probe output says, line by line: each line is trimmed and
/// lowercased; the first line that starts with "state" and has a ':' decides
/// the verdict — Connected exactly when the trimmed value after the ':'
/// contains "connected". A "state" line without a ':' is skipped. No such
/// line at all means the output is unparseable.
pub open spec fn link_verdict(s: Seq<u8>) -> Option<bool>
    decreases s.len(),
    via link_verdict_decreases
{
    if s.len() == 0 {
        None
    } else {
        let n = head_line_len(s);
        let line = lower_bytes(trim_bytes(s.take(n)));
        let rest = if n == s.len() {
            Seq::<u8>::empty()
        } else {
            s.skip(n + 1)
        };
        if begins_with(line, state_key()) {
            match tail_after(line, 58) {
                Some(v) => Some(has_sub(trim_bytes(v), connected_key())),
                None => link_verdict(rest),
            }
        } else {
            link_verdict(rest)
        }
    }
}

#[via_fn]
proof fn link_verdict_decreases(s: Seq<u8>) {
    lemma_head_line_len_bounds(s);
}

proof fn lemma_head_line_len_at(s: Seq<u8>, n: int)
    requires
        0 <= n <= s.len(),
        forall|k: int| 0 <= k < n ==> s[k] != 10,
        n == s.len() || s[n] == 10,
    ensures
        head_line_len(s) == n,
    decreases n,
{
    if n == 0 {
    } else {
        lemma_head_line_len_at(s.drop_first(), n - 1);
    }
}

proof fn lemma_trim_front_at(s: Seq<u8>, a: int)
    requires
        0 <= a <= s.len(),
        forall|k: int| 0 <= k < a ==> is_space(s[k]),
        a == s.len() || !is_space(s[a]),
    ensures
        trim_front(s) == s.skip(a),
    decreases a,
{
    if a == 0 {
        assert(s.skip(0) =~= s);
    } else {
        lemma_trim_front_at(s.drop_first(), a - 1);
        assert(s.drop_first().skip(a - 1) =~= s.skip(a));
    }
}

proof fn lemma_trim_back_at(s: Seq<u8>, b: int)
    requires
        0 <= b <= s.len(),
        forall|k: int| b <= k < s.len() ==> is_space(s[k]),
        b == 0 || !is_space(s[b - 1]),
    ensures
        trim_back(s) == s.take(b),
    decreases s.len() - b,
{
    if b == s.len() {
        assert(s.take(b) =~= s);
    } else {
        lemma_trim_back_at(s.drop_last(), b);
        assert(s.drop_last().take(b) =~= s.take(b));
    }
}

/// `trim_bytes` of a stretch of `s`, named by the indices that an
/// inward scan over the whitespace reaches.
proof fn lemma_trim_bytes_at(s: Seq<u8>, lo: int, hi: int, a: int, b: int)
    requires
        0 <= lo <= a <= b <= hi <= s.len(),
        forall|k: int| lo <= k < a ==> is_space(s[k]),
        a == hi || !is_space(s[a]),
        forall|k: int| b <= k < hi ==> is_space(s[k]),
        b == a || !is_space(s[b - 1]),
    ensures
        trim_bytes(s.subrange(lo, hi)) == s.subrange(a, b),
{
    let sub = s.subrange(lo, hi);
    lemma_trim_front_at(sub, a - lo);
    let t1 = sub.skip(a - lo);
    assert(forall|k: int| 0 <= k < t1.len() ==> t1[k] == s[a + k]);
    lemma_trim_back_at(t1, b - a);
    assert(t1.take(b - a) =~= s.subrange(a, b));
}

fn is_space_byte(b: u8) -> (r: bool)
    ensures
        r == is_space(b),
{
    b == 32 || b == 9 || b == 10 || b == 12 || b == 13
}

/// First non-whitespace position at or after `start`, scanning up to `end`.
fn scan_space_forward(s: &Vec<u8>, start: usize, end: usize) -> (a: usize)
    requires
        start <= end <= s@.len(),
    ensures
        start <= a <= end,
        forall|k: int| start <= k < a ==> is_space(s@[k]),
        a == end || !is_space(s@[a as int]),
{
    let mut a: usize = start;
    while a < end && is_space_byte(s[a])
        invariant
            start <= a <= end <= s@.len(),
            forall|k: int| start <= k < a ==> is_space(s@[k]),
        decreases end - a,
    {
        a = a + 1;
    }
    a
}

/// Position just past the last non-whitespace byte in `[low, end)`.
fn scan_space_backward(s: &Vec<u8>, low: usize, end: usize) -> (b: usize)
    requires
        low <= end <= s@.len(),
    ensures
        low <= b <= end,
        forall|k: int| b <= k < end ==> is_space(s@[k]),
        b == low || !is_space(s@[b - 1]),
{
    let mut b: usize = end;
    while b > low && is_space_byte(s[b - 1])
        invariant
            low <= b <= end <= s@.len(),
            forall|k: int| b <= k < end ==> is_space(s@[k]),
        decreases b,
    {
        b = b - 1;
    }
    b
}

/// The stretch `[start, end)` of `s`, trimmed and ASCII-lowercased.
fn trim_lower_range(s: &Vec<u8>, start: usize, end: usize) -> (t: Vec<u8>)
    requires
        start <= end <= s@.len(),
    ensures
        t@ == lower_bytes(trim_bytes(s@.subrange(start as int, end as int))),
{
    let a: usize = scan_space_forward(s, start, end);
    let b: usize = scan_space_backward(s, a, end);
    proof {
        lemma_trim_bytes_at(s@, start as int, end as int, a as int, b as int);
    }
    let mut t: Vec<u8> = Vec::new();
    let mut k: usize = a;
    while k < b
        invariant
            a <= k <= b <= s@.len(),
            t@.len() == k - a,
            forall|j: int| 0 <= j < t@.len() ==> t@[j] == to_lower(s@[a + j]),
        decreases b - k,
    {
        let c: u8 = s[k];
        let lc: u8 = if 65 <= c && c <= 90 {
            c + 32
        } else {
            c
        };
        t.push(lc);
        k = k + 1;
    }
    proof {
        assert(t@ =~= lower_bytes(s@.subrange(a as int, b as int)));
    }
    t
}

/// Does the line start with "state"?
fn begins_with_state(t: &Vec<u8>) -> (r: bool)
    ensures
        r == begins_with(t@, state_key()),
{
    if t.len() < 5 {
        return false;
    }
    let r = t[0] == 115 && t[1] == 116 && t[2] == 97 && t[3] == 116 && t[4] == 101;
    proof {
        if r {
            assert(t@.take(5) =~= state_key());
        } else {
            assert(t@.take(5) != state_key()) by {
                if t@.take(5) == state_key() {
                    assert(t@[0] == 115 && t@[1] == 116 && t@[2] == 97 && t@[3] == 116 && t@[4]
                        == 101);
                }
            }
        }
    }
    r
}

/// Index just past the first ':' in `t`, if any.
fn find_after_colon(t: &Vec<u8>) -> (r: Option<usize>)
    ensures
        match r {
            Some(i) => 1 <= i <= t@.len() && tail_after(t@, 58) == Some(t@.skip(i as int)),
            None => tail_after(t@, 58) is None,
        },
{
    proof {
        assert(t@.skip(0) =~= t@);
    }
    let mut k: usize = 0;
    while k < t.len()
        invariant
            0 <= k <= t@.len(),
            tail_after(t@, 58) == tail_after(t@.skip(k as int), 58),
        decreases t@.len() - k,
    {
        if t[k] == 58 {
            proof {
                assert(t@.skip(k as int).drop_first() =~= t@.skip(k as int + 1));
            }
            return Some(k + 1);
        }
        proof {
            assert(t@.skip(k as int).drop_first() =~= t@.skip(k as int + 1));
        }
        k = k + 1;
    }
    proof {
        assert(t@.skip(k as int) =~= Seq::<u8>::empty());
    }
    None
}

/// Does `t@.subrange(i, i+9)` spell "connected"?
fn connected_at(t: &Vec<u8>, i: usize) -> (r: bool)
    requires
        i + 9 <= t@.len(),
    ensures
        r == (t@.subrange(i as int, i as int + 9) == connected_key()),
{
    let n: usize = t.len();
    let r = t[i] == 99 && t[i + 1] == 111 && t[i + 2] == 110 && t[i + 3] == 110 && t[i + 4] == 101
        && t[i + 5] == 99 && t[i + 6] == 116 && t[i + 7] == 101 && t[i + 8] == 100;
    proof {
        let sub = t@.subrange(i as int, i as int + 9);
        if r {
            assert(sub =~= connected_key());
        } else {
            if sub == connected_key() {
                assert(t@[i as int] == 99 && t@[i as int + 1] == 111 && t@[i as int + 2] == 110
                    && t@[i as int + 3] == 110 && t@[i as int + 4] == 101 && t@[i as int + 5] == 99
                    && t@[i as int + 6] == 116 && t@[i as int + 7] == 101 && t@[i as int + 8]
                    == 100) by {
                    assert(sub[0] == t@[i as int]);
                    assert(sub[1] == t@[i as int + 1]);
                    assert(sub[2] == t@[i as int + 2]);
                    assert(sub[3] == t@[i as int + 3]);
                    assert(sub[4] == t@[i as int + 4]);
                    assert(sub[5] == t@[i as int + 5]);
                    assert(sub[6] == t@[i as int + 6]);
                    assert(sub[7] == t@[i as int + 7]);
                    assert(sub[8] == t@[i as int + 8]);
                }
            }
        }
    }
    r
}

/// Does the stretch `[lo, hi)` of `t` contain "connected"?
fn contains_connected(t: &Vec<u8>, lo: usize, hi: usize) -> (r: bool)
    requires
        lo <= hi <= t@.len(),
    ensures
        r == has_sub(t@.subrange(lo as int, hi as int), connected_key()),
{
    let sub = Ghost(t@.subrange(lo as int, hi as int));
    if hi - lo < 9 {
        proof {
            assert(!has_sub(sub@, connected_key()));
        }
        return false;
    }
    let mut i: usize = lo;
    while i <= hi - 9
        invariant
            9 <= hi,
            lo <= i,
            i <= hi <= t@.len(),
            sub@ == t@.subrange(lo as int, hi as int),
            forall|j: int|
                lo <= j < i ==> #[trigger] t@.subrange(j, j + 9) != connected_key(),
        decreases hi - i,
    {
        if connected_at(t, i) {
            proof {
                let x = i - lo;
                assert(sub@.subrange(x, x + 9) =~= t@.subrange(i as int, i as int + 9));
                assert(has_sub(sub@, connected_key()));
            }
            return true;
        }
        i = i + 1;
    }
    proof {
        assert(!has_sub(sub@, connected_key())) by {
            if has_sub(sub@, connected_key()) {
                let x = choose|x: int|
                    0 <= x && x + connected_key().len() <= sub@.len() && #[trigger] sub@.subrange(
                        x,
                        x + connected_key().len(),
                    ) == connected_key();
                assert(sub@.subrange(x, x + 9) =~= t@.subrange(lo + x, lo + x + 9));
                assert(t@.subrange(lo + x, lo + x + 9) != connected_key());
            }
        }
    }
    false
}

/// End of the line that starts at `start`: the first line feed at or after
/// it, or the end of the buffer.
fn find_line_end(s: &Vec<u8>, start: usize) -> (j: usize)
    requires
        start <= s@.len(),
    ensures
        start <= j <= s@.len(),
        forall|k: int| start <= k < j ==> s@[k] != 10,
        j == s@.len() || s@[j as int] == 10,
{
    let mut j: usize = start;
    while j < s.len() && s[j] != 10
        invariant
            start <= j <= s@.len(),
            forall|k: int| start <= k < j ==> s@[k] != 10,
        decreases s@.len() - j,
    {
        j = j + 1;
    }
    j
}

/// The link check's interpretation of the query tool's result: `exit_ok`
/// says whether the tool exited successfully, `out` is its captured
/// standard output. Reports Connected exactly when the first parseable
/// "state" line's value contains "connected"; a non-zero exit or output
/// without such a line is a probe failure.
pub fn wifi_connected_windows(exit_ok: bool, out: &Vec<u8>) -> (r: Result<bool, LinkProbeError>)
    ensures
        !exit_ok ==> r == Err::<bool, LinkProbeError>(LinkProbeError::NonZeroExit),
        exit_ok ==> r == (match link_verdict(out@) {
            Some(connected) => Ok::<bool, LinkProbeError>(connected),
            None => Err::<bool, LinkProbeError>(LinkProbeError::Unparseable),
        }),
{
    if !exit_ok {
        return Err(LinkProbeError::NonZeroExit);
    }
    proof {
        assert(out@.skip(0) =~= out@);
    }
    let mut pos: usize = 0;
    while pos < out.len()
        invariant
            exit_ok,
            pos <= out@.len(),
            link_verdict(out@) == link_verdict(out@.skip(pos as int)),
        decreases out@.len() - pos,
    {
        let j: usize = find_line_end(out, pos);
        let tail = Ghost(out@.skip(pos as int));
        proof {
            lemma_head_line_len_at(tail@, j - pos);
            assert(tail@.take(j - pos) =~= out@.subrange(pos as int, j as int));
        }
        let line = trim_lower_range(out, pos, j);
        proof {
            assert(line@ == lower_bytes(trim_bytes(tail@.take(head_line_len(tail@)))));
        }
        if begins_with_state(&line) {
            match find_after_colon(&line) {
                Some(i) => {
                    let a: usize = scan_space_forward(&line, i, line.len());
                    let b: usize = scan_space_backward(&line, a, line.len());
                    proof {
                        lemma_trim_bytes_at(line@, i as int, line@.len() as int, a as int, b as int);
                        assert(line@.subrange(i as int, line@.len() as int) =~= line@.skip(
                            i as int,
                        ));
                        assert(trim_bytes(line@.skip(i as int)) == line@.subrange(
                            a as int,
                            b as int,
                        ));
                    }
                    let connected = contains_connected(&line, a, b);
                    proof {
                        assert(tail_after(line@, 58) == Some(line@.skip(i as int)));
                        assert(link_verdict(tail@) == Some(
                            has_sub(trim_bytes(line@.skip(i as int)), connected_key()),
                        ));
                        assert(link_verdict(out@) == Some(connected));
                    }
                    return Ok(connected);
                },
                None => {
                    proof {
                        if j < out.len() {
                            assert(tail@.skip(j - pos + 1) =~= out@.skip(j as int + 1));
                            assert(link_verdict(tail@) == link_verdict(out@.skip(j as int + 1)));
                        } else {
                            assert(j - pos == tail@.len());
                            assert(link_verdict(tail@) == link_verdict(Seq::<u8>::empty()));
                        }
                    }
                },
            }
        } else {
            proof {
                if j < out.len() {
                    assert(tail@.skip(j - pos + 1) =~= out@.skip(j as int + 1));
                    assert(link_verdict(tail@) == link_verdict(out@.skip(j as int + 1)));
                } else {
                    assert(j - pos == tail@.len());
                    assert(link_verdict(tail@) == link_verdict(Seq::<u8>::empty()));
                }
            }
        }
        if j == out.len() {
            proof {
                assert(link_verdict(Seq::<u8>::empty()) is None);
            }
            return Err(LinkProbeError::Unparseable);
        }
        pos = j + 1;
    }
    proof {
        assert(out@.skip(pos as int) =~= Seq::<u8>::empty());
    }
    Err(LinkProbeError::Unparseable)
}

} // verus!
