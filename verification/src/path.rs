//! Unix paths held as their bytes, and the few path operations that `~`
//! expansion needs: component-wise tests for a leading `~` and for the
//! path `~` itself, stripping the leading `~` component, and appending one
//! path to another.
use vstd::prelude::*;

verus! {

/// The path separator `/`.
pub const SLASH: u8 = 47;

/// The byte of `.`, the name of the current directory.
pub const DOT: u8 = 46;

/// The byte of `~`, which stands for the home directory.
pub const TILDE: u8 = 126;

/// The first component of `p` is `~`: `p` is `~`, or starts with `~/`.
pub open spec fn starts_with_tilde(p: Seq<u8>) -> bool {
    p.len() >= 1 && p[0] == TILDE && (p.len() == 1 || p[1] == SLASH)
}

/// Every `/`-separated segment of `s` is empty or `.`, so that `s` adds
/// no component to a path that it ends.
pub open spec fn only_empty_segments(s: Seq<u8>) -> bool {
    forall|i: int|
        0 <= i < s.len() ==> #[trigger] s[i] == SLASH || (s[i] == DOT && (i == 0 || s[i - 1] == SLASH)
            && (i + 1 == s.len() || s[i + 1] == SLASH))
}

/// `p` has the single component `~` (it compares equal to the path `~`).
pub open spec fn is_bare_tilde(p: Seq<u8>) -> bool {
    starts_with_tilde(p) && only_empty_segments(p.skip(1))
}

/// Index at which `s` goes on once the empty and `.` segments that start
/// at `i` are dropped, each with the `/` that ends it.
pub open spec fn skip_empty_front(s: Seq<u8>, i: int) -> int
    decreases s.len() - i,
{
    if i >= s.len() {
        i
    } else if s[i] == SLASH {
        skip_empty_front(s, i + 1)
    } else if s[i] == DOT && i + 1 == s.len() {
        s.len() as int
    } else if s[i] == DOT && s[i + 1] == SLASH {
        skip_empty_front(s, i + 2)
    } else {
        i
    }
}

/// Index at which `s[lo..hi]` ends once the empty and `.` segments at its
/// end are dropped, each with the `/` before it.
pub open spec fn skip_empty_back(s: Seq<u8>, lo: int, hi: int) -> int
    decreases hi - lo,
{
    if hi <= lo {
        lo
    } else if s[hi - 1] == SLASH {
        skip_empty_back(s, lo, hi - 1)
    } else if s[hi - 1] == DOT && hi - 1 == lo {
        lo
    } else if s[hi - 1] == DOT && s[hi - 2] == SLASH {
        skip_empty_back(s, lo, hi - 2)
    } else {
        hi
    }
}

/// What remains of a path that starts with `~/` once the `~` component is
/// stripped: the rest, without the empty and `.` segments at either end.
pub open spec fn strip_tilde(p: Seq<u8>) -> Seq<u8> {
    let a = skip_empty_front(p, 2);
    p.subrange(a, skip_empty_back(p, a, p.len() as int))
}

/// `base` with `rel` appended: a path that starts with `/` replaces
/// `base`; otherwise a `/` is put between them unless `base` is empty or
/// already ends with `/`.
pub open spec fn push_spec(base: Seq<u8>, rel: Seq<u8>) -> Seq<u8> {
    if rel.len() > 0 && rel[0] == SLASH {
        rel
    } else if base.len() > 0 && base.last() != SLASH {
        base + seq![SLASH] + rel
    } else {
        base + rel
    }
}

/// The bytes of a text whose characters are all ASCII.
pub open spec fn ascii_bytes_spec(s: Seq<char>) -> Seq<u8> {
    s.map_values(|c: char| c as u8)
}

/// The bytes of the ASCII text `s`.
pub fn ascii_bytes(s: &str) -> (r: Vec<u8>)
    ensures
        r@ == ascii_bytes_spec(s@),
{
    let n = s.unicode_len();
    let mut r: Vec<u8> = Vec::new();
    let mut i: usize = 0;
    while i < n
        invariant
            n == s@.len(),
            i <= n,
            r@ == ascii_bytes_spec(s@.take(i as int)),
        decreases n - i,
    {
        let c = s.get_char(i);
        r.push(c as u8);
        assert(s@.take(i + 1) == s@.take(i as int).push(c));
        assert(ascii_bytes_spec(s@.take(i + 1)) =~= ascii_bytes_spec(s@.take(i as int)).push(c as u8));
        i = i + 1;
    }
    assert(s@.take(n as int) == s@);
    r
}

/// Appends `s[from..to]` to `v`.
fn extend_from(v: &mut Vec<u8>, s: &[u8], from: usize, to: usize)
    requires
        from <= to <= s@.len(),
    ensures
        final(v)@ == old(v)@ + s@.subrange(from as int, to as int),
{
    let mut i = from;
    while i < to
        invariant
            from <= i <= to <= s@.len(),
            v@ == old(v)@ + s@.subrange(from as int, i as int),
        decreases to - i,
    {
        v.push(s[i]);
        assert(s@.subrange(from as int, i + 1) == s@.subrange(from as int, i as int).push(s@[i as int]));
        i = i + 1;
    }
}

/// Whether the first component of `p` is `~`, as `Path::starts_with("~")`.
pub fn starts_with_tilde_exec(p: &[u8]) -> (b: bool)
    ensures
        b == starts_with_tilde(p@),
{
    let n = p.len();
    n >= 1 && p[0] == TILDE && (n == 1 || p[1] == SLASH)
}

/// Whether `s[from..]` holds only empty and `.` segments.
fn only_empty_segments_from(s: &[u8], from: usize) -> (b: bool)
    requires
        from <= s@.len(),
    ensures
        b == only_empty_segments(s@.skip(from as int)),
{
    let n = s.len();
    let ghost t = s@.skip(from as int);
    let mut i = from;
    while i < n
        invariant
            n == s@.len(),
            from <= i <= n,
            t == s@.skip(from as int),
            forall|k: int| 0 <= k < i - from ==> #[trigger] t[k] == SLASH || (t[k] == DOT && (k == 0
                || t[k - 1] == SLASH) && (k + 1 == t.len() || t[k + 1] == SLASH)),
        decreases n - i,
    {
        let c = s[i];
        if c == SLASH {
            i = i + 1;
        } else if c == DOT && (i == from || s[i - 1] == SLASH) && (i + 1 == n || s[i + 1] == SLASH) {
            i = i + 1;
        } else {
            assert(!(t[i - from] == SLASH || (t[i - from] == DOT && (i - from == 0 || t[i - from - 1]
                == SLASH) && (i - from + 1 == t.len() || t[i - from + 1] == SLASH))));
            return false;
        }
    }
    true
}

/// Whether `p` has the single component `~`, as `p == Path::new("~")`.
pub fn is_bare_tilde_exec(p: &[u8]) -> (b: bool)
    ensures
        b == is_bare_tilde(p@),
{
    if !starts_with_tilde_exec(p) {
        false
    } else {
        only_empty_segments_from(p, 1)
    }
}

/// The path that remains of `p` once its leading `~` component is
/// stripped, as `p.strip_prefix("~")`.
pub fn strip_tilde_exec(p: &[u8]) -> (r: Vec<u8>)
    requires
        starts_with_tilde(p@),
        !is_bare_tilde(p@),
    ensures
        r@ == strip_tilde(p@),
{
    let n = p.len();
    let ghost s = p@;
    let mut a: usize = 2;
    while a < n
        invariant
            n == s.len(),
            s == p@,
            2 <= a <= n,
            skip_empty_front(s, a as int) == skip_empty_front(s, 2),
        ensures
            a == skip_empty_front(s, 2),
        decreases n - a,
    {
        let c = p[a];
        if c == SLASH {
            a = a + 1;
        } else if c == DOT && a + 1 == n {
            a = n;
        } else if c == DOT && p[a + 1] == SLASH {
            a = a + 2;
        } else {
            break;
        }
    }
    let mut b: usize = n;
    while b > a
        invariant
            n == s.len(),
            s == p@,
            a <= b <= n,
            skip_empty_back(s, a as int, b as int) == skip_empty_back(s, a as int, n as int),
        ensures
            b == skip_empty_back(s, a as int, n as int),
        decreases b - a,
    {
        let c = p[b - 1];
        if c == SLASH {
            b = b - 1;
        } else if c == DOT && b - 1 == a {
            b = a;
        } else if c == DOT && p[b - 2] == SLASH {
            b = b - 2;
        } else {
            break;
        }
    }
    let mut r: Vec<u8> = Vec::new();
    extend_from(&mut r, p, a, b);
    assert(r@ =~= strip_tilde(p@));
    r
}

/// `base` with `rel` appended, as `PathBuf::push`.
pub fn push_path(base: &[u8], rel: &[u8]) -> (r: Vec<u8>)
    ensures
        r@ == push_spec(base@, rel@),
{
    let n = rel.len();
    let mut r: Vec<u8> = Vec::new();
    if n > 0 && rel[0] == SLASH {
        extend_from(&mut r, rel, 0, n);
        assert(r@ =~= rel@);
        return r;
    }
    let m = base.len();
    extend_from(&mut r, base, 0, m);
    if m > 0 && base[m - 1] != SLASH {
        r.push(SLASH);
    }
    extend_from(&mut r, rel, 0, n);
    assert(r@ =~= push_spec(base@, rel@));
    r
}

} // verus!
