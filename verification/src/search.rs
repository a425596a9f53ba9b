//! Note search: line splitting, case-insensitive substring matching, and
//! snippet clipping.  Walking the workspace and reading files stays in
//! the unverified shell, which hands each file's lines to `search_lines`.

use vstd::prelude::*;
use vstd::string::StringExecFns;

use crate::task::seq_views;
use crate::text::{
    char_range_string, chars_to_string, find_char, find_char_range, lower_of, match_at, str_chars,
    to_lowercase, trim_spec, trimmed_range,
};

verus! {

/// Longest snippet shown in a search result, in characters.
pub const MAX_SNIPPET_CHARS: usize = 200;

/// One match of a search query.
#[derive(Debug, Clone)]
pub struct SearchResult {
    pub file_path: String,
    pub file_name: String,
    pub line_number: usize,
    pub line_content: String,
    pub context_before: String,
    pub context_after: String,
}

/// Whether `needle` occurs contiguously inside `hay`.
pub open spec fn contains_seq(hay: Seq<char>, needle: Seq<char>) -> bool {
    exists|k: int|
        0 <= k && k + needle.len() <= hay.len() && #[trigger] hay.subrange(k, k + needle.len())
            == needle
}

/// Whether `needle` occurs contiguously inside `hay`.
pub fn contains_chars(hay: &Vec<char>, needle: &Vec<char>) -> (r: bool)
    ensures
        r == contains_seq(hay@, needle@),
{
    let n = hay.len();
    let m = needle.len();
    if m > n {
        proof {
            assert(!contains_seq(hay@, needle@));
        }
        return false;
    }
    let mut k: usize = 0;
    while n - k >= m
        invariant
            m <= n,
            n == hay@.len(),
            m == needle@.len(),
            k <= n,
            forall|k2: int|
                0 <= k2 < k ==> #[trigger] hay@.subrange(k2, k2 + needle@.len()) != needle@,
        decreases n - k,
    {
        if match_at(hay, k, needle) {
            proof {
                assert(contains_seq(hay@, needle@));
            }
            return true;
        }
        proof {
            if m == 0 {
                assert(hay@.subrange(k as int, k as int) =~= needle@);
            }
        }
        k = k + 1;
    }
    proof {
        assert(!contains_seq(hay@, needle@));
    }
    false
}

/// Whether the line holds the lowercased query, compared without regard
/// to case.
pub open spec fn spec_line_matches(line: Seq<char>, query_lower: Seq<char>) -> bool {
    contains_seq(lower_of(line), query_lower)
}

/// Whether the line holds the lowercased query.
pub fn line_matches(line: &str, query_lower: &str) -> (r: bool)
    ensures
        r == spec_line_matches(line@, query_lower@),
{
    let lowered = to_lowercase(line);
    let hay = str_chars(lowered.as_str());
    let needle = str_chars(query_lower);
    contains_chars(&hay, &needle)
}

/// A snippet clipped to the display limit, with an ellipsis marking the
/// cut.
pub open spec fn spec_clip(s: Seq<char>) -> Seq<char> {
    if s.len() > MAX_SNIPPET_CHARS as int {
        s.take(MAX_SNIPPET_CHARS as int) + seq!['.', '.', '.']
    } else {
        s
    }
}

/// The trimmed line, clipped to the display limit.
pub fn clip_snippet(v: &Vec<char>, lo: usize, hi: usize) -> (r: String)
    requires
        lo <= hi <= v@.len(),
    ensures
        r@ == spec_clip(trim_spec(v@.subrange(lo as int, hi as int))),
{
    let (a, b) = trimmed_range(v, lo, hi);
    if b - a > MAX_SNIPPET_CHARS {
        let mut out: Vec<char> = Vec::new();
        let mut i = a;
        while i < a + MAX_SNIPPET_CHARS
        invariant
            a <= i <= a + MAX_SNIPPET_CHARS,
            a + MAX_SNIPPET_CHARS <= b <= v@.len(),
            out@ == v@.subrange(a as int, i as int),
        decreases a + MAX_SNIPPET_CHARS - i,
        {
            out.push(v[i]);
            proof {
                assert(out@ =~= v@.subrange(a as int, i + 1 as int));
            }
            i = i + 1;
        }
        out.push('.');
        out.push('.');
        out.push('.');
        proof {
            assert(out@ =~= v@.subrange(a as int, b as int).take(MAX_SNIPPET_CHARS as int) + seq![
                '.',
                '.',
                '.',
            ]);
        }
        chars_to_string(out)
    } else {
        char_range_string(v, a, b)
    }
}

/// `line` without one trailing carriage return.
pub open spec fn strip_cr(line: Seq<char>) -> Seq<char> {
    if line.len() > 0 && line[line.len() - 1] == '\r' {
        line.drop_last()
    } else {
        line
    }
}

/// The lines of a text: pieces between newlines, each without a trailing
/// carriage return, with no entry for the empty tail after a final
/// newline.
pub open spec fn spec_lines(s: Seq<char>) -> Seq<Seq<char>>
    decreases s.len(),
{
    if s.len() == 0 {
        Seq::empty()
    } else {
        let nl = find_char(s, '\n');
        if 0 <= nl < s.len() {
            seq![strip_cr(s.subrange(0, nl))] + spec_lines(s.subrange(nl + 1, s.len() as int))
        } else {
            seq![strip_cr(s)]
        }
    }
}

/// Split a text into lines.
pub fn split_lines(content: &str) -> (r: Vec<String>)
    ensures
        seq_views(r@) == spec_lines(content@),
{
    let chars = str_chars(content);
    let n = chars.len();
    let mut out: Vec<String> = Vec::new();
    let mut p: usize = 0;
    proof {
        assert(chars@.subrange(0, n as int) =~= content@);
        assert(seq_views(out@) =~= Seq::<Seq<char>>::empty());
    }
    while p < n
        invariant
            p <= n,
            n == chars@.len(),
            chars@ == content@,
            spec_lines(content@) == seq_views(out@) + spec_lines(
                chars@.subrange(p as int, n as int),
            ),
        decreases n - p,
    {
        let ghost suffix = chars@.subrange(p as int, n as int);
        let ghost before = seq_views(out@);
        let nl = find_char_range(&chars, '\n', p, n);
        let mut hi = nl;
        if hi > p && chars[hi - 1] == '\r' {
            hi = hi - 1;
        }
        let ghost raw_line = if nl == n {
            suffix
        } else {
            suffix.subrange(0, nl - p)
        };
        proof {
            if nl < n {
                assert(find_char(suffix, '\n') == nl - p);
            } else {
                assert(find_char(suffix, '\n') == -1);
            }
            assert(raw_line =~= chars@.subrange(p as int, nl as int));
            if raw_line.len() > 0 && raw_line[raw_line.len() - 1] == '\r' {
                assert(strip_cr(raw_line) =~= chars@.subrange(p as int, nl - 1));
            } else {
                assert(strip_cr(raw_line) =~= chars@.subrange(p as int, nl as int));
            }
            assert(strip_cr(raw_line) == chars@.subrange(p as int, hi as int));
        }
        out.push(char_range_string(&chars, p, hi));
        proof {
            assert(seq_views(out@) =~= before.push(strip_cr(raw_line)));
            if nl < n {
                assert(suffix.subrange(nl - p + 1, suffix.len() as int) =~= chars@.subrange(
                    nl + 1 as int,
                    n as int,
                ));
                assert(seq_views(out@) + spec_lines(chars@.subrange(nl + 1 as int, n as int)) =~=
                before + spec_lines(suffix));
            } else {
                assert(chars@.subrange(n as int, n as int).len() == 0);
                assert(seq_views(out@) + spec_lines(chars@.subrange(n as int, n as int)) =~= before
                    + spec_lines(suffix));
            }
        }
        if nl == n {
            p = n;
        } else {
            p = nl + 1;
        }
    }
    proof {
        assert(chars@.subrange(n as int, n as int).len() == 0);
        assert(seq_views(out@) + spec_lines(chars@.subrange(n as int, n as int)) =~= seq_views(
            out@,
        ));
    }
    out
}

/// Search one file's lines for the lowercased query: at most
/// `max_results` matches, in line order, each carrying its one-based line
/// number, the trimmed and clipped line, and its neighbouring lines as
/// context.
pub fn search_lines(
    relative_path: &str,
    file_name: &str,
    lines: &Vec<String>,
    query_lower: &str,
    max_results: usize,
) -> (r: Vec<SearchResult>)
    ensures
        r@.len() <= max_results,
        forall|j: int|
            0 <= j < r@.len() ==> {
                let e = #[trigger] r@[j];
                &&& 1 <= e.line_number <= lines@.len()
                &&& spec_line_matches(lines@[e.line_number - 1]@, query_lower@)
                &&& e.file_path@ == relative_path@
                &&& e.file_name@ == file_name@
                &&& e.line_content@ == spec_clip(trim_spec(lines@[e.line_number - 1]@))
                &&& e.context_before@ == (if e.line_number >= 2 {
                    spec_clip(trim_spec(lines@[e.line_number - 2]@))
                } else {
                    Seq::<char>::empty()
                })
                &&& e.context_after@ == (if e.line_number < lines@.len() {
                    spec_clip(trim_spec(lines@[e.line_number as int]@))
                } else {
                    Seq::<char>::empty()
                })
            },
        forall|j1: int, j2: int|
            0 <= j1 < j2 < r@.len() ==> #[trigger] r@[j1].line_number < #[trigger] r@[
                j2
            ].line_number,
        r@.len() < max_results ==> forall|i: int|
            0 <= i < lines@.len() && #[trigger] spec_line_matches(lines@[i]@, query_lower@)
                ==> exists|j: int| 0 <= j < r@.len() && #[trigger] r@[j].line_number == i + 1,
{
    let n = lines.len();
    let mut results: Vec<SearchResult> = Vec::new();
    let mut i: usize = 0;
    while i < n
        invariant
            i <= n,
            n == lines@.len(),
            results@.len() <= max_results,
            forall|j: int|
                0 <= j < results@.len() ==> {
                    let e = #[trigger] results@[j];
                    &&& 1 <= e.line_number <= i
                    &&& spec_line_matches(lines@[e.line_number - 1]@, query_lower@)
                    &&& e.file_path@ == relative_path@
                    &&& e.file_name@ == file_name@
                    &&& e.line_content@ == spec_clip(trim_spec(lines@[e.line_number - 1]@))
                    &&& e.context_before@ == (if e.line_number >= 2 {
                        spec_clip(trim_spec(lines@[e.line_number - 2]@))
                    } else {
                        Seq::<char>::empty()
                    })
                    &&& e.context_after@ == (if e.line_number < lines@.len() {
                        spec_clip(trim_spec(lines@[e.line_number as int]@))
                    } else {
                        Seq::<char>::empty()
                    })
                },
            forall|j1: int, j2: int|
                0 <= j1 < j2 < results@.len() ==> #[trigger] results@[j1].line_number
                    < #[trigger] results@[j2].line_number,
            results@.len() < max_results ==> forall|k: int|
                0 <= k < i && #[trigger] spec_line_matches(lines@[k]@, query_lower@)
                    ==> exists|j: int|
                    0 <= j < results@.len() && #[trigger] results@[j].line_number == k + 1,
        decreases n - i,
    {
        if results.len() >= max_results {
            return results;
        }
        if line_matches(lines[i].as_str(), query_lower) {
            let line_chars = str_chars(lines[i].as_str());
            let line_content = clip_snippet(&line_chars, 0, line_chars.len());
            proof {
                assert(line_chars@.subrange(0, line_chars@.len() as int) =~= lines@[i as int]@);
            }
            let context_before = if i > 0 {
                let prev = str_chars(lines[i - 1].as_str());
                proof {
                    assert(prev@.subrange(0, prev@.len() as int) =~= lines@[i - 1]@);
                }
                clip_snippet(&prev, 0, prev.len())
            } else {
                String::new()
            };
            let context_after = if i + 1 < n {
                let next = str_chars(lines[i + 1].as_str());
                proof {
                    assert(next@.subrange(0, next@.len() as int) =~= lines@[i + 1]@);
                }
                clip_snippet(&next, 0, next.len())
            } else {
                String::new()
            };
            let ghost before = results@;
            results.push(
                SearchResult {
                    file_path: relative_path.to_owned(),
                    file_name: file_name.to_owned(),
                    line_number: i + 1,
                    line_content,
                    context_before,
                    context_after,
                },
            );
            proof {
                assert(results@[results@.len() - 1].line_number == i + 1);
                assert(forall|j: int| 0 <= j < before.len() ==> results@[j] == before[j]);
                assert forall|k: int|
                    0 <= k < i + 1 && #[trigger] spec_line_matches(lines@[k]@, query_lower@)
                        implies exists|j: int|
                        0 <= j < results@.len() && #[trigger] results@[j].line_number == k
                            + 1 by {
                    if k == i {
                        assert(results@[results@.len() - 1].line_number == k + 1);
                    } else {
                        let j = choose|j: int|
                            0 <= j < before.len() && #[trigger] before[j].line_number == k + 1;
                        assert(results@[j].line_number == k + 1);
                    }
                }
            }
        }
        i = i + 1;
    }
    results
}

} // verus!
