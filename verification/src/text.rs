//! Small verified text utilities shared across the library, together with
//! the trusted bridge between character vectors and `String`.

use vstd::prelude::*;

verus! {

/// Relies on `String::from_iter`: builds the string holding exactly the
/// given characters in order.
#[verifier::external_body]
pub(crate) fn chars_to_string(chars: Vec<char>) -> (r: String)
    ensures
        r@ == chars@,
{
    String::from_iter(chars.into_iter())
}

/// The characters of `s`, as a vector.
pub fn str_chars(s: &str) -> (r: Vec<char>)
    ensures
        r@ == s@,
{
    let len = s.unicode_len();
    let mut out: Vec<char> = Vec::new();
    let mut i: usize = 0;
    while i < len
        invariant
            len == s@.len(),
            i <= len,
            out@ == s@.take(i as int),
        decreases len - i,
    {
        out.push(s.get_char(i));
        proof {
            assert(out@ =~= s@.take(i + 1 as int));
        }
        i = i + 1;
    }
    proof {
        assert(s@.take(len as int) =~= s@);
    }
    out
}

/// Whether two string slices hold the same characters.
pub fn str_eq(a: &str, b: &str) -> (r: bool)
    ensures
        r == (a@ == b@),
{
    let alen = a.unicode_len();
    let blen = b.unicode_len();
    if alen != blen {
        proof {
            assert(a@ != b@);
        }
        return false;
    }
    let mut i: usize = 0;
    while i < alen
        invariant
            alen == a@.len(),
            alen == b@.len(),
            i <= alen,
            forall|j: int| 0 <= j < i ==> a@[j] == b@[j],
        decreases alen - i,
    {
        if a.get_char(i) != b.get_char(i) {
            proof {
                assert(a@[i as int] != b@[i as int]);
            }
            return false;
        }
        i = i + 1;
    }
    proof {
        assert(a@ =~= b@);
    }
    true
}

/// What `str::to_lowercase` returns: a function of the characters alone.
pub uninterp spec fn lower_of(s: Seq<char>) -> Seq<char>;

/// Relies on str::to_lowercase: the result depends on the characters
/// alone, and an empty string stays empty.
#[verifier::external_body]
pub(crate) fn to_lowercase(s: &str) -> (r: String)
    ensures
        r@ == lower_of(s@),
        s@.len() == 0 ==> r@.len() == 0,
{
    s.to_lowercase()
}

/// What `char::is_alphanumeric` returns.
pub uninterp spec fn is_alphanumeric_char(c: char) -> bool;

/// Relies on char::is_alphanumeric: the result depends on the character
/// alone.
#[verifier::external_body]
pub(crate) fn char_is_alphanumeric(c: char) -> (r: bool)
    ensures
        r == is_alphanumeric_char(c),
{
    c.is_alphanumeric()
}

/// What `char::is_whitespace` returns.
pub uninterp spec fn is_whitespace_char(c: char) -> bool;

/// Relies on char::is_whitespace: the result depends on the character
/// alone.
#[verifier::external_body]
pub(crate) fn char_is_whitespace(c: char) -> (r: bool)
    ensures
        r == is_whitespace_char(c),
{
    c.is_whitespace()
}

/// What `char::to_uppercase` returns: the uppercase mapping of one
/// character, which may be several characters long.
pub uninterp spec fn upper_first_of(c: char) -> Seq<char>;

/// Relies on char::to_uppercase: the result depends on the character
/// alone.
#[verifier::external_body]
pub(crate) fn char_to_uppercase(c: char) -> (r: Vec<char>)
    ensures
        r@ == upper_first_of(c),
{
    c.to_uppercase().collect()
}

/// `s` without leading whitespace.
pub open spec fn trim_front(s: Seq<char>) -> Seq<char>
    decreases s.len(),
{
    if s.len() > 0 && is_whitespace_char(s[0]) {
        trim_front(s.drop_first())
    } else {
        s
    }
}

/// `s` without trailing whitespace.
pub open spec fn trim_back(s: Seq<char>) -> Seq<char>
    decreases s.len(),
{
    if s.len() > 0 && is_whitespace_char(s[s.len() - 1]) {
        trim_back(s.drop_last())
    } else {
        s
    }
}

/// `s` without leading and trailing whitespace.
pub open spec fn trim_spec(s: Seq<char>) -> Seq<char> {
    trim_back(trim_front(s))
}

/// The bounds of `v[lo..hi]` with leading and trailing whitespace removed.
pub fn trimmed_range(v: &Vec<char>, lo: usize, hi: usize) -> (r: (usize, usize))
    requires
        lo <= hi <= v@.len(),
    ensures
        lo <= r.0 <= r.1 <= hi,
        v@.subrange(r.0 as int, r.1 as int) == trim_spec(v@.subrange(lo as int, hi as int)),
{
    let mut a = lo;
    while a < hi && char_is_whitespace(v[a])
        invariant
            lo <= a <= hi <= v@.len(),
            trim_front(v@.subrange(lo as int, hi as int)) == trim_front(
                v@.subrange(a as int, hi as int),
            ),
        decreases hi - a,
    {
        proof {
            assert(v@.subrange(a as int, hi as int).drop_first() =~= v@.subrange(
                a + 1 as int,
                hi as int,
            ));
        }
        a = a + 1;
    }
    proof {
        assert(trim_front(v@.subrange(a as int, hi as int)) == v@.subrange(a as int, hi as int));
    }
    let mut b = hi;
    while b > a && char_is_whitespace(v[b - 1])
        invariant
            lo <= a <= b <= hi <= v@.len(),
            trim_front(v@.subrange(lo as int, hi as int)) == v@.subrange(a as int, hi as int),
            trim_back(v@.subrange(a as int, hi as int)) == trim_back(
                v@.subrange(a as int, b as int),
            ),
        decreases b - a,
    {
        proof {
            assert(v@.subrange(a as int, b as int).drop_last() =~= v@.subrange(
                a as int,
                b - 1 as int,
            ));
        }
        b = b - 1;
    }
    proof {
        assert(trim_back(v@.subrange(a as int, b as int)) == v@.subrange(a as int, b as int));
    }
    (a, b)
}

/// Index of the first occurrence of `c` in `s`, or `-1`.
pub open spec fn find_char(s: Seq<char>, c: char) -> int
    decreases s.len(),
{
    if s.len() == 0 {
        -1
    } else if s[0] == c {
        0
    } else {
        let r = find_char(s.drop_first(), c);
        if r == -1 {
            -1
        } else {
            r + 1
        }
    }
}

/// `find_char` stays within `[-1, s.len())`.
pub proof fn lemma_find_char_bounds(s: Seq<char>, c: char)
    ensures
        -1 <= find_char(s, c) < s.len(),
    decreases s.len(),
{
    if s.len() > 0 && s[0] != c {
        lemma_find_char_bounds(s.drop_first(), c);
    }
}

/// Index of the last occurrence of `c` in `s`, or `-1`.
pub open spec fn rfind_char(s: Seq<char>, c: char) -> int
    decreases s.len(),
{
    if s.len() == 0 {
        -1
    } else if s[s.len() - 1] == c {
        s.len() - 1
    } else {
        rfind_char(s.drop_last(), c)
    }
}

/// First position of `c` in `v[lo..hi]`, or `hi` when absent.
pub fn find_char_range(v: &Vec<char>, c: char, lo: usize, hi: usize) -> (r: usize)
    requires
        lo <= hi <= v@.len(),
    ensures
        lo <= r <= hi,
        r < hi ==> v@[r as int] == c && find_char(v@.subrange(lo as int, hi as int), c) == r - lo,
        r == hi ==> find_char(v@.subrange(lo as int, hi as int), c) == -1,
{
    let mut i = lo;
    while i < hi
        invariant
            lo <= i <= hi <= v@.len(),
            ({
                let rest = find_char(v@.subrange(i as int, hi as int), c);
                find_char(v@.subrange(lo as int, hi as int), c) == if rest == -1 {
                    -1int
                } else {
                    rest + i - lo
                }
            }),
        decreases hi - i,
    {
        if v[i] == c {
            proof {
                assert(v@.subrange(i as int, hi as int)[0] == c);
                assert(find_char(v@.subrange(i as int, hi as int), c) == 0);
            }
            return i;
        }
        proof {
            let cur = v@.subrange(i as int, hi as int);
            let next = v@.subrange(i + 1 as int, hi as int);
            assert(cur.drop_first() =~= next);
            assert(cur[0] != c);
            lemma_find_char_bounds(next, c);
            let r2 = find_char(next, c);
            assert(find_char(cur, c) == if r2 == -1 {
                -1int
            } else {
                r2 + 1
            });
        }
        i = i + 1;
    }
    proof {
        assert(v@.subrange(hi as int, hi as int).len() == 0);
    }
    hi
}

/// Last position of `c` in `v[0..hi]`, or `hi` when absent.
pub fn rfind_char_upto(v: &Vec<char>, c: char, hi: usize) -> (r: usize)
    requires
        hi <= v@.len(),
    ensures
        r <= hi,
        r < hi ==> v@[r as int] == c && rfind_char(v@.subrange(0, hi as int), c) == r,
        r == hi ==> rfind_char(v@.subrange(0, hi as int), c) == -1,
{
    let mut j = hi;
    while j > 0
        invariant
            j <= hi <= v@.len(),
            rfind_char(v@.subrange(0, hi as int), c) == rfind_char(v@.subrange(0, j as int), c),
        decreases j,
    {
        if v[j - 1] == c {
            proof {
                assert(v@.subrange(0, j as int)[j - 1] == c);
                assert(rfind_char(v@.subrange(0, j as int), c) == j - 1);
            }
            return j - 1;
        }
        proof {
            assert(v@.subrange(0, j as int).drop_last() =~= v@.subrange(0, j - 1 as int));
            assert(v@.subrange(0, j as int)[j - 1] != c);
        }
        j = j - 1;
    }
    proof {
        assert(v@.subrange(0, 0).len() == 0);
    }
    hi
}

/// The string holding `v[lo..hi]`.
pub fn char_range_string(v: &Vec<char>, lo: usize, hi: usize) -> (r: String)
    requires
        lo <= hi <= v@.len(),
    ensures
        r@ == v@.subrange(lo as int, hi as int),
{
    let mut out: Vec<char> = Vec::new();
    let mut i = lo;
    while i < hi
        invariant
            lo <= i <= hi <= v@.len(),
            out@ == v@.subrange(lo as int, i as int),
        decreases hi - i,
    {
        out.push(v[i]);
        proof {
            assert(out@ =~= v@.subrange(lo as int, i + 1 as int));
        }
        i = i + 1;
    }
    chars_to_string(out)
}

/// Append every character of `src` to `out`.
pub fn push_all(out: &mut Vec<char>, src: &Vec<char>)
    ensures
        final(out)@ == old(out)@ + src@,
{
    let n = src.len();
    let mut i: usize = 0;
    while i < n
        invariant
            i <= n,
            n == src@.len(),
            out@ == old(out)@ + src@.subrange(0, i as int),
        decreases n - i,
    {
        out.push(src[i]);
        proof {
            assert(old(out)@ + src@.subrange(0, i + 1 as int) =~= out@);
        }
        i = i + 1;
    }
    proof {
        assert(old(out)@ + src@.subrange(0, n as int) =~= old(out)@ + src@);
    }
}

/// Whether `pat` occurs in `v` at position `i`.
pub fn match_at(v: &Vec<char>, i: usize, pat: &Vec<char>) -> (r: bool)
    requires
        i + pat@.len() <= v@.len(),
    ensures
        r == (v@.subrange(i as int, i + pat@.len()) == pat@),
{
    let m = pat.len();
    let vlen = v.len();
    let mut j: usize = 0;
    while j < m
        invariant
            j <= m,
            m == pat@.len(),
            vlen == v@.len(),
            i + m <= vlen,
            forall|k: int| 0 <= k < j ==> v@[i + k] == pat@[k],
        decreases m - j,
    {
        if v[i + j] != pat[j] {
            proof {
                assert(v@.subrange(i as int, i + m as int) != pat@) by {
                    if v@.subrange(i as int, i + m as int) == pat@ {
                        assert(v@.subrange(i as int, i + m as int)[j as int] == v@[i + j]);
                    }
                }
            }
            return false;
        }
        j = j + 1;
    }
    proof {
        assert(v@.subrange(i as int, i + m as int) =~= pat@);
    }
    true
}

/// `s` with every occurrence of `pat` replaced by `rep`, scanning left to
/// right without rescanning replacements.
pub open spec fn replace_spec(s: Seq<char>, pat: Seq<char>, rep: Seq<char>) -> Seq<char>
    decreases s.len(),
{
    if pat.len() == 0 || s.len() < pat.len() {
        s
    } else if s.subrange(0, pat.len() as int) == pat {
        rep + replace_spec(s.subrange(pat.len() as int, s.len() as int), pat, rep)
    } else {
        seq![s[0]] + replace_spec(s.drop_first(), pat, rep)
    }
}

/// Replace every occurrence of `pat` in `s` by `rep`.
pub fn replace_all(s: &str, pat: &str, rep: &str) -> (r: String)
    requires
        pat@.len() > 0,
    ensures
        r@ == replace_spec(s@, pat@, rep@),
{
    let sc = str_chars(s);
    let pc = str_chars(pat);
    let rc = str_chars(rep);
    let n = sc.len();
    let m = pc.len();
    let mut out: Vec<char> = Vec::new();
    let mut i: usize = 0;
    proof {
        assert(sc@.subrange(0, n as int) =~= s@);
    }
    while i < n
        invariant
            i <= n,
            n == sc@.len(),
            m == pc@.len(),
            m > 0,
            sc@ == s@,
            pc@ == pat@,
            rc@ == rep@,
            replace_spec(s@, pat@, rep@) == out@ + replace_spec(
                sc@.subrange(i as int, n as int),
                pat@,
                rep@,
            ),
        decreases n - i,
    {
        let ghost suffix = sc@.subrange(i as int, n as int);
        if n - i >= m && match_at(&sc, i, &pc) {
            push_all(&mut out, &rc);
            proof {
                assert(suffix.subrange(0, m as int) =~= sc@.subrange(i as int, i + m as int));
                assert(suffix.subrange(m as int, suffix.len() as int) =~= sc@.subrange(
                    i + m as int,
                    n as int,
                ));
                assert(replace_spec(suffix, pat@, rep@) == rep@ + replace_spec(
                    sc@.subrange(i + m as int, n as int),
                    pat@,
                    rep@,
                ));
            }
            i = i + m;
        } else {
            out.push(sc[i]);
            proof {
                if suffix.len() < m {
                    assert(replace_spec(suffix, pat@, rep@) == suffix);
                    assert(suffix =~= seq![sc@[i as int]] + sc@.subrange(i + 1 as int, n as int));
                    assert(replace_spec(sc@.subrange(i + 1 as int, n as int), pat@, rep@)
                        == sc@.subrange(i + 1 as int, n as int));
                } else {
                    assert(suffix.subrange(0, m as int) =~= sc@.subrange(i as int, i + m as int));
                    assert(suffix.subrange(0, m as int) != pat@);
                    assert(suffix.drop_first() =~= sc@.subrange(i + 1 as int, n as int));
                    assert(replace_spec(suffix, pat@, rep@) == seq![suffix[0]] + replace_spec(
                        sc@.subrange(i + 1 as int, n as int),
                        pat@,
                        rep@,
                    ));
                }
            }
            i = i + 1;
        }
    }
    proof {
        assert(sc@.subrange(n as int, n as int).len() == 0);
        assert(replace_spec(sc@.subrange(n as int, n as int), pat@, rep@) =~= Seq::<char>::empty());
        assert(out@ + Seq::<char>::empty() =~= out@);
    }
    chars_to_string(out)
}

/// The character for a single decimal digit `d`.
pub open spec fn dec_digit(d: int) -> char {
    ((d + 48) as u8) as char
}

/// Decimal representation of a non-negative integer, most significant
/// digit first.
pub open spec fn dec_str(n: int) -> Seq<char>
    decreases n,
{
    if n < 10 {
        seq![dec_digit(n)]
    } else {
        dec_str(n / 10).push(dec_digit(n % 10))
    }
}

/// Append the decimal digits of `n` to `acc`.
fn push_dec_digits(n: u32, acc: &mut Vec<char>)
    ensures
        final(acc)@ == old(acc)@ + dec_str(n as int),
    decreases n,
{
    if n >= 10 {
        push_dec_digits(n / 10, acc);
    }
    let d = (n % 10) as u8;
    acc.push((d + 48) as char);
    proof {
        if n < 10 {
            assert(final(acc)@ =~= old(acc)@ + dec_str(n as int));
        } else {
            assert(final(acc)@ =~= old(acc)@ + dec_str(n as int));
        }
    }
}

/// Decimal rendering of a `u32`.
pub fn u32_to_string(n: u32) -> (r: String)
    ensures
        r@ == dec_str(n as int),
{
    let mut digits: Vec<char> = Vec::new();
    push_dec_digits(n, &mut digits);
    proof {
        assert(digits@ =~= dec_str(n as int));
    }
    chars_to_string(digits)
}

} // verus!
