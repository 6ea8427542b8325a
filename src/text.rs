use vstd::prelude::*;

verus! {

/// Relies on `String::push`: appends one character.
pub assume_specification[ String::push ](s: &mut String, ch: char)
    ensures
        final(s)@ == old(s)@.push(ch),
;

/// Relies on `String::push_str`: appends a string slice.
pub assume_specification[ String::push_str ](s: &mut String, t: &str)
    ensures
        final(s)@ == old(s)@ + t@,
;

/// The characters of `s`, in order.
pub fn chars_of(s: &str) -> (r: Vec<char>)
    ensures
        r@ == s@,
{
    let mut r: Vec<char> = Vec::new();
    for c in it: s.chars()
        invariant
            r@ == it.seq().subrange(0, it.index() as int),
            it.seq() == s@,
    {
        r.push(c);
    }
    r
}


/// The parts, with `sep` between each two.
pub open spec fn join(parts: Seq<Seq<char>>, sep: Seq<char>) -> Seq<char>
    decreases parts.len(),
{
    if parts.len() == 0 {
        Seq::<char>::empty()
    } else if parts.len() == 1 {
        parts[0]
    } else {
        parts[0] + sep + join(parts.drop_first(), sep)
    }
}

/// Joining one more part adds the separator and that part at the end.
pub proof fn join_push(parts: Seq<Seq<char>>, sep: Seq<char>, x: Seq<char>)
    ensures
        parts.len() == 0 ==> join(parts.push(x), sep) == x,
        parts.len() > 0 ==> join(parts.push(x), sep) == join(parts, sep) + sep + x,
    decreases parts.len(),
{
    let q = parts.push(x);
    if parts.len() > 1 {
        join_push(parts.drop_first(), sep, x);
        assert(q.drop_first() =~= parts.drop_first().push(x));
        assert(join(q, sep) =~= join(parts, sep) + sep + x);
    } else if parts.len() == 1 {
        assert(q.drop_first() =~= seq![x]);
        assert(join(seq![x], sep) == x);
        assert(join(q, sep) =~= join(parts, sep) + sep + x);
    }
}

/// The characters `cs[lo..hi]` as a string.
pub fn string_from(cs: &Vec<char>, lo: usize, hi: usize) -> (r: String)
    requires
        lo <= hi <= cs.len(),
    ensures
        r@ == cs@.subrange(lo as int, hi as int),
{
    let mut r = String::new();
    let mut i: usize = lo;
    while i < hi
        invariant
            lo <= i <= hi <= cs.len(),
            r@ == cs@.subrange(lo as int, i as int),
        decreases hi - i,
    {
        r.push(cs[i]);
        assert(cs@.subrange(lo as int, i + 1) =~= cs@.subrange(lo as int, i as int).push(cs@[i as int]));
        i = i + 1;
    }
    r
}

/// `s` with every leftmost, non-overlapping occurrence of `pat` replaced by
/// `val`, scanning from the start.
pub open spec fn replace_all(s: Seq<char>, pat: Seq<char>, val: Seq<char>) -> Seq<char>
    decreases s.len(),
{
    if pat.len() == 0 || s.len() < pat.len() {
        s
    } else if s.subrange(0, pat.len() as int) == pat {
        val + replace_all(s.subrange(pat.len() as int, s.len() as int), pat, val)
    } else {
        seq![s[0]] + replace_all(s.subrange(1, s.len() as int), pat, val)
    }
}

/// Whether `pat` occurs in `s` at position `i`.
fn matches_at(s: &Vec<char>, i: usize, pat: &Vec<char>) -> (r: bool)
    requires
        i + pat.len() <= s.len(),
    ensures
        r == (s@.subrange(i as int, i + pat.len()) == pat@),
{
    let m = pat.len();
    let mut j: usize = 0;
    while j < m
        invariant
            j <= m,
            m == pat.len(),
            i + m <= s.len(),
            s@.subrange(i as int, i + j) == pat@.subrange(0, j as int),
        decreases m - j,
    {
        if s[i + j] != pat[j] {
            assert(s@.subrange(i as int, i + m)[j as int] != pat@[j as int]);
            return false;
        }
        assert(s@.subrange(i as int, i + j + 1) =~= s@.subrange(i as int, i + j).push(s@[i + j]));
        assert(pat@.subrange(0, j + 1) =~= pat@.subrange(0, j as int).push(pat@[j as int]));
        j = j + 1;
    }
    assert(pat@.subrange(0, m as int) =~= pat@);
    true
}

/// Replaces every occurrence of `pat` in `s` by `val`.
pub fn replace_chars(s: &Vec<char>, pat: &Vec<char>, val: &str) -> (r: String)
    requires
        pat.len() > 0,
    ensures
        r@ == replace_all(s@, pat@, val@),
{
    let mut out = String::new();
    let n = s.len();
    let m = pat.len();
    let mut i: usize = 0;
    assert(s@.subrange(0, n as int) =~= s@);
    assert(out@ + replace_all(s@, pat@, val@) =~= replace_all(s@, pat@, val@));
    while i < n
        invariant
            i <= n,
            n == s.len(),
            m == pat.len(),
            m > 0,
            out@ + replace_all(s@.subrange(i as int, n as int), pat@, val@) == replace_all(
                s@,
                pat@,
                val@,
            ),
        decreases n - i,
    {
        let ghost t = s@.subrange(i as int, n as int);
        if n - i >= m && matches_at(s, i, pat) {
            assert(t.subrange(0, m as int) =~= s@.subrange(i as int, i + m));
            assert(t.subrange(m as int, t.len() as int) =~= s@.subrange(i + m, n as int));
            let ghost before = out@;
            out.push_str(val);
            assert(out@ + replace_all(s@.subrange(i + m, n as int), pat@, val@) =~= before + (val@
                + replace_all(s@.subrange(i + m, n as int), pat@, val@)));
            i = i + m;
        } else {
            if n - i >= m {
                assert(t.subrange(0, m as int) =~= s@.subrange(i as int, i + m));
            }
            assert(t.subrange(1, t.len() as int) =~= s@.subrange(i + 1, n as int));
            let ghost before = out@;
            out.push(s[i]);
            assert(out@ + replace_all(s@.subrange(i + 1, n as int), pat@, val@) =~= before + (seq![
                s@[i as int],
            ] + replace_all(s@.subrange(i + 1, n as int), pat@, val@)));
            i = i + 1;
        }
    }
    assert(s@.subrange(n as int, n as int) =~= Seq::<char>::empty());
    assert(out@ + Seq::<char>::empty() =~= out@);
    out
}

/// Whether `c` has the Unicode `White_Space` property.
pub open spec fn is_white_space(c: char) -> bool {
    let n = c as u32;
    (0x9 <= n <= 0xd) || n == 0x20 || n == 0x85 || n == 0xa0 || n == 0x1680 || (0x2000 <= n
        <= 0x200a) || n == 0x2028 || n == 0x2029 || n == 0x202f || n == 0x205f || n == 0x3000
}

/// `s` without its leading white space.
pub open spec fn trim_start_text(s: Seq<char>) -> Seq<char>
    decreases s.len(),
{
    if s.len() > 0 && is_white_space(s[0]) {
        trim_start_text(s.drop_first())
    } else {
        s
    }
}

/// `s` without its trailing white space.
pub open spec fn trim_end_text(s: Seq<char>) -> Seq<char>
    decreases s.len(),
{
    if s.len() > 0 && is_white_space(s.last()) {
        trim_end_text(s.drop_last())
    } else {
        s
    }
}

/// `s` without its leading and trailing white space.
pub open spec fn trim_text(s: Seq<char>) -> Seq<char> {
    trim_end_text(trim_start_text(s))
}

/// Whether every character of `s` is white space.
pub open spec fn all_white_space(s: Seq<char>) -> bool {
    forall|k: int| 0 <= k < s.len() ==> is_white_space(#[trigger] s[k])
}

/// Relies on `str::trim`: `s` without its leading and trailing characters of
/// the Unicode `White_Space` property.
#[verifier::external_body]
pub(crate) fn trimmed(s: &str) -> (r: &str)
    ensures
        r@ == trim_text(s@),
{
    s.trim()
}

proof fn trim_start_empty(s: Seq<char>)
    ensures
        trim_start_text(s).len() == 0 <==> all_white_space(s),
        trim_start_text(s).len() > 0 ==> !is_white_space(trim_start_text(s)[0]),
    decreases s.len(),
{
    if s.len() > 0 && is_white_space(s[0]) {
        let t = s.drop_first();
        trim_start_empty(t);
        if all_white_space(t) {
            assert forall|k: int| 0 <= k < s.len() implies is_white_space(#[trigger] s[k]) by {
                if k > 0 {
                    assert(s[k] == t[k - 1]);
                }
            }
        }
        if all_white_space(s) {
            assert forall|k: int| 0 <= k < t.len() implies is_white_space(#[trigger] t[k]) by {
                assert(t[k] == s[k + 1]);
            }
        }
    } else if s.len() > 0 {
        assert(!is_white_space(s[0]));
    }
}

proof fn trim_end_empty(s: Seq<char>)
    ensures
        trim_end_text(s).len() == 0 <==> all_white_space(s),
    decreases s.len(),
{
    if s.len() > 0 && is_white_space(s.last()) {
        let t = s.drop_last();
        trim_end_empty(t);
        if all_white_space(t) {
            assert forall|k: int| 0 <= k < s.len() implies is_white_space(#[trigger] s[k]) by {
                if k < s.len() - 1 {
                    assert(s[k] == t[k]);
                }
            }
        }
        if all_white_space(s) {
            assert forall|k: int| 0 <= k < t.len() implies is_white_space(#[trigger] t[k]) by {
                assert(t[k] == s[k]);
            }
        }
    } else if s.len() > 0 {
        assert(!is_white_space(s[s.len() - 1]));
    }
}

/// Whether `s` is empty once its leading and trailing white space is
/// removed.
pub fn is_blank_text(s: &str) -> (r: bool)
    ensures
        r == all_white_space(s@),
{
    let t = trimmed(s);
    proof {
        let u = trim_start_text(s@);
        trim_start_empty(s@);
        trim_end_empty(u);
        if u.len() > 0 {
            assert(!is_white_space(u[0]));
        }
    }
    t.is_empty()
}

} // verus!
