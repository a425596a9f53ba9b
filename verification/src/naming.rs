//! Note naming: extracting a title from markdown content, slugging it,
//! deriving date-prefixed filenames, and suggesting renames.

use vstd::prelude::*;
use vstd::string::StringExecFns;

use crate::files::file_exists;
use crate::paths::{
    extension_of, file_name_of, file_stem, join_path, parent_of, path_extension, path_file_name,
    path_parent, spec_path_join, stem_of,
};
use crate::text::{
    char_is_alphanumeric, char_range_string, dec_str, find_char, find_char_range,
    is_alphanumeric_char, lower_of, str_chars, str_eq, to_lowercase, trim_spec, trimmed_range,
    u32_to_string,
};

verus! {

/// The title a single line yields: its trimmed text after a `# ` marker.
pub open spec fn title_candidate(line: Seq<char>) -> Option<Seq<char>> {
    let t = trim_spec(line);
    if t.len() >= 2 && t[0] == '#' && t[1] == ' ' {
        Some(trim_spec(t.subrange(2, t.len() as int)))
    } else {
        None
    }
}

/// The first H1 title in markdown content, scanning line by line.
pub open spec fn spec_extract_title(s: Seq<char>) -> Option<Seq<char>>
    decreases s.len(),
{
    if s.len() == 0 {
        None
    } else {
        let nl = find_char(s, '\n');
        let line = if nl == -1 {
            s
        } else {
            s.subrange(0, nl)
        };
        if title_candidate(line) is Some {
            title_candidate(line)
        } else if 0 <= nl < s.len() {
            spec_extract_title(s.subrange(nl + 1, s.len() as int))
        } else {
            None
        }
    }
}

/// Extract the title from the first H1 heading in markdown content.
pub fn extract_title(content: &str) -> (r: Option<String>)
    ensures
        r is Some <==> spec_extract_title(content@) is Some,
        r is Some ==> r.unwrap()@ == spec_extract_title(content@).unwrap(),
{
    let chars = str_chars(content);
    let n = chars.len();
    let mut p: usize = 0;
    proof {
        assert(chars@.subrange(0, n as int) =~= content@);
    }
    loop
        invariant
            p <= n,
            n == chars@.len(),
            chars@ == content@,
            spec_extract_title(content@) == spec_extract_title(
                chars@.subrange(p as int, n as int),
            ),
        decreases n - p,
    {
        let ghost suffix = chars@.subrange(p as int, n as int);
        if p == n {
            proof {
                assert(suffix.len() == 0);
            }
            return None;
        }
        let nl = find_char_range(&chars, '\n', p, n);
        let ghost line = if nl == n {
            suffix
        } else {
            suffix.subrange(0, nl - p)
        };
        proof {
            if nl < n {
                assert(find_char(suffix, '\n') == nl - p);
                assert(suffix.subrange(0, nl - p) =~= chars@.subrange(p as int, nl as int));
            } else {
                assert(find_char(suffix, '\n') == -1);
                assert(suffix =~= chars@.subrange(p as int, nl as int));
            }
        }
        let (a, b) = trimmed_range(&chars, p, nl);
        proof {
            assert(trim_spec(line) == chars@.subrange(a as int, b as int));
        }
        if b - a >= 2 && chars[a] == '#' && chars[a + 1] == ' ' {
            proof {
                assert(trim_spec(line)[0] == '#');
                assert(trim_spec(line)[1] == ' ');
            }
            let (c, d) = trimmed_range(&chars, a + 2, b);
            proof {
                assert(trim_spec(line).subrange(2, trim_spec(line).len() as int) =~= chars@
                    .subrange(a + 2 as int, b as int));
                assert(title_candidate(line) == Some(chars@.subrange(c as int, d as int)));
            }
            return Some(char_range_string(&chars, c, d));
        }
        proof {
            if b - a >= 2 {
                assert(trim_spec(line)[0] == chars@[a as int]);
                assert(trim_spec(line)[1] == chars@[a + 1]);
            }
            assert(title_candidate(line) is None);
        }
        if nl == n {
            return None;
        }
        proof {
            assert(suffix.subrange(nl - p + 1, suffix.len() as int) =~= chars@.subrange(
                nl + 1 as int,
                n as int,
            ));
        }
        p = nl + 1;
    }
}

/// Each character mapped to itself when alphanumeric, else to a dash.
pub open spec fn slug_map(s: Seq<char>) -> Seq<char> {
    s.map_values(
        |c: char|
            if is_alphanumeric_char(c) {
                c
            } else {
                '-'
            },
    )
}

/// `s` from position `i` on, with runs of dashes collapsed to one;
/// `prev_dash` records whether the previous kept character was a dash.
pub open spec fn collapse_from(s: Seq<char>, i: int, prev_dash: bool) -> Seq<char>
    decreases s.len() - i,
{
    if i < 0 || i >= s.len() {
        Seq::empty()
    } else if s[i] == '-' {
        if prev_dash {
            collapse_from(s, i + 1, true)
        } else {
            seq!['-'] + collapse_from(s, i + 1, true)
        }
    } else {
        seq![s[i]] + collapse_from(s, i + 1, false)
    }
}

/// `s` without leading dashes.
pub open spec fn trim_dash_front(s: Seq<char>) -> Seq<char>
    decreases s.len(),
{
    if s.len() > 0 && s[0] == '-' {
        trim_dash_front(s.drop_first())
    } else {
        s
    }
}

/// `s` without trailing dashes.
pub open spec fn trim_dash_back(s: Seq<char>) -> Seq<char>
    decreases s.len(),
{
    if s.len() > 0 && s[s.len() - 1] == '-' {
        trim_dash_back(s.drop_last())
    } else {
        s
    }
}

/// The slug of a title: its lowercase form with every non-alphanumeric
/// character turned into a dash, dash runs collapsed, and outer dashes
/// trimmed.
pub open spec fn spec_slug(title: Seq<char>) -> Seq<char> {
    trim_dash_back(trim_dash_front(collapse_from(slug_map(lower_of(title)), 0, false)))
}

/// Generate a URL-friendly slug from a title.
pub fn generate_slug(title: &str) -> (r: String)
    ensures
        r@ == spec_slug(title@),
{
    let lower = to_lowercase(title);
    let chars = str_chars(lower.as_str());
    let n = chars.len();

    let mut mapped: Vec<char> = Vec::new();
    let mut i: usize = 0;
    while i < n
        invariant
            i <= n,
            n == chars@.len(),
            mapped@ == slug_map(chars@.subrange(0, i as int)),
        decreases n - i,
    {
        let c = chars[i];
        if char_is_alphanumeric(c) {
            mapped.push(c);
        } else {
            mapped.push('-');
        }
        proof {
            assert(mapped@ =~= slug_map(chars@.subrange(0, i + 1 as int)));
        }
        i = i + 1;
    }
    proof {
        assert(chars@.subrange(0, n as int) =~= chars@);
    }

    let m = mapped.len();
    let mut out: Vec<char> = Vec::new();
    let mut prev_dash = false;
    let mut j: usize = 0;
    while j < m
        invariant
            j <= m,
            m == mapped@.len(),
            collapse_from(mapped@, 0, false) == out@ + collapse_from(
                mapped@,
                j as int,
                prev_dash,
            ),
        decreases m - j,
    {
        let c = mapped[j];
        if c == '-' {
            if !prev_dash {
                out.push('-');
            }
            prev_dash = true;
        } else {
            out.push(c);
            prev_dash = false;
        }
        j = j + 1;
    }
    proof {
        assert(collapse_from(mapped@, m as int, prev_dash) =~= Seq::<char>::empty());
        assert(out@ + Seq::<char>::empty() =~= out@);
        assert(out@ == collapse_from(mapped@, 0, false));
    }

    let olen = out.len();
    proof {
        assert(out@.subrange(0, olen as int) =~= out@);
    }
    let mut a: usize = 0;
    while a < olen && out[a] == '-'
        invariant
            a <= olen,
            olen == out@.len(),
            trim_dash_front(out@) == trim_dash_front(out@.subrange(a as int, olen as int)),
        decreases olen - a,
    {
        proof {
            assert(out@.subrange(a as int, olen as int).drop_first() =~= out@.subrange(
                a + 1 as int,
                olen as int,
            ));
        }
        a = a + 1;
    }
    proof {
        assert(trim_dash_front(out@) == out@.subrange(a as int, olen as int));
    }
    let mut b: usize = olen;
    while b > a && out[b - 1] == '-'
        invariant
            a <= b <= olen,
            olen == out@.len(),
            trim_dash_front(out@) == out@.subrange(a as int, olen as int),
            trim_dash_back(out@.subrange(a as int, olen as int)) == trim_dash_back(
                out@.subrange(a as int, b as int),
            ),
        decreases b - a,
    {
        proof {
            assert(out@.subrange(a as int, b as int).drop_last() =~= out@.subrange(
                a as int,
                b - 1 as int,
            ));
        }
        b = b - 1;
    }
    proof {
        assert(trim_dash_back(out@.subrange(a as int, b as int)) == out@.subrange(
            a as int,
            b as int,
        ));
    }
    char_range_string(&out, a, b)
}

/// A date-prefixed filename for the title: `<date>-<slug>.md`, with
/// `untitled` standing in for an empty slug.
pub open spec fn spec_filename(date: Seq<char>, title: Seq<char>) -> Seq<char> {
    let slug = spec_slug(title);
    if slug.len() == 0 {
        date + "-untitled.md"@
    } else {
        date + "-"@ + slug + ".md"@
    }
}

/// Generate a filename from a title, prefixed with the given date.
pub fn generate_filename(date: &str, title: &str) -> (r: String)
    ensures
        r@ == spec_filename(date@, title@),
{
    let slug = generate_slug(title);
    let mut out = date.to_owned();
    if slug.as_str().unicode_len() == 0 {
        out.append("-untitled.md");
    } else {
        out.append("-");
        out.append(slug.as_str());
        out.append(".md");
    }
    out
}

/// Suggest a new path for a file from its first H1 heading: `None` when
/// the content has no title or the file already carries the derived name.
pub fn suggest_path(current_path: &str, content: &str, date: &str) -> (r: Option<String>)
    ensures
        ({
            match spec_extract_title(content@) {
                None => r is None,
                Some(title) => {
                    let new_name = spec_filename(date@, title);
                    if file_name_of(current_path@) == new_name {
                        r is None
                    } else {
                        r is Some && r.unwrap()@ == spec_path_join(
                            parent_of(current_path@),
                            new_name,
                        )
                    }
                },
            }
        }),
{
    let title = match extract_title(content) {
        Some(t) => t,
        None => {
            return None;
        },
    };
    let new_filename = generate_filename(date, title.as_str());
    let current_filename = path_file_name(current_path);
    if str_eq(current_filename.as_str(), new_filename.as_str()) {
        return None;
    }
    let parent = path_parent(current_path);
    Some(join_path(parent.as_str(), new_filename.as_str()))
}

/// A unique path for a new note: the date-prefixed name when free on
/// disk, else the first free numeric variant up to one hundred, else the
/// caller's fallback stamp.
pub fn generate_unique_path(workspace: &str, content: &str, date: &str, fallback_stamp: &str) -> (r:
    String)
    ensures
        ({
            let title = match spec_extract_title(content@) {
                Some(t) => t,
                None => "untitled"@,
            };
            let base_name = spec_filename(date@, title);
            let stem = stem_of(base_name);
            ||| r@ == spec_path_join(workspace@, base_name)
            ||| (exists|k: int|
                2 <= k <= 100 && r@ == spec_path_join(
                    workspace@,
                    stem + "-"@ + #[trigger] dec_str(k) + ".md"@,
                ))
            ||| r@ == spec_path_join(workspace@, stem + "-"@ + fallback_stamp@ + ".md"@)
        }),
{
    let title = match extract_title(content) {
        Some(t) => t,
        None => "untitled".to_owned(),
    };
    let base_filename = generate_filename(date, title.as_str());
    let base_path = join_path(workspace, base_filename.as_str());
    if !file_exists(base_path.as_str()) {
        return base_path;
    }
    let stem = file_stem(base_filename.as_str());
    let mut counter: u32 = 2;
    while counter <= 100
        invariant
            stem@ == stem_of(spec_filename(
                date@,
                match spec_extract_title(content@) {
                    Some(t) => t,
                    None => "untitled"@,
                },
            )),
            2 <= counter,
        decreases 101 - counter,
    {
        let mut name = stem.clone();
        name.append("-");
        name.append(u32_to_string(counter).as_str());
        name.append(".md");
        let candidate = join_path(workspace, name.as_str());
        if !file_exists(candidate.as_str()) {
            proof {
                assert(name@ == stem@ + "-"@ + dec_str(counter as int) + ".md"@);
            }
            return candidate;
        }
        counter = counter + 1;
    }
    let mut name = stem.clone();
    name.append("-");
    name.append(fallback_stamp);
    name.append(".md");
    join_path(workspace, name.as_str())
}

/// The destination a rename may use: the wanted path when free or equal
/// to the old one, else the first free numeric variant of it, else an
/// error once a hundred variants are taken.  The actual rename is the
/// caller's to perform.
pub fn resolve_rename_target(old_path: &str, new_path: &str) -> (r: Result<String, String>)
    ensures
        old_path@ == new_path@ ==> (r matches Ok(p) && p@ == old_path@),
        r matches Ok(p) ==> {
            let stem = stem_of(file_name_of(new_path@));
            let ext = extension_of(file_name_of(new_path@));
            ||| p@ == new_path@
            ||| (exists|k: int|
                1 <= k <= 100 && p@ == spec_path_join(
                    parent_of(new_path@),
                    stem + "-"@ + #[trigger] dec_str(k) + "."@ + ext,
                ))
        },
        r matches Err(e) ==> e@ == "Too many rename conflicts"@,
{
    if str_eq(old_path, new_path) {
        return Ok(old_path.to_owned());
    }
    if !file_exists(new_path) {
        return Ok(new_path.to_owned());
    }
    let name = path_file_name(new_path);
    let stem = file_stem(name.as_str());
    let ext = path_extension(name.as_str());
    let parent = path_parent(new_path);
    let mut counter: u32 = 1;
    while counter <= 100
        invariant
            1 <= counter,
            old_path@ != new_path@,
            stem@ == stem_of(file_name_of(new_path@)),
            ext@ == extension_of(file_name_of(new_path@)),
            parent@ == parent_of(new_path@),
        decreases 101 - counter,
    {
        let mut candidate_name = stem.clone();
        candidate_name.append("-");
        candidate_name.append(u32_to_string(counter).as_str());
        candidate_name.append(".");
        candidate_name.append(ext.as_str());
        let candidate = join_path(parent.as_str(), candidate_name.as_str());
        if !file_exists(candidate.as_str()) {
            proof {
                assert(candidate_name@ == stem@ + "-"@ + dec_str(counter as int) + "."@ + ext@);
            }
            return Ok(candidate);
        }
        counter = counter + 1;
    }
    Err("Too many rename conflicts".to_owned())
}

} // verus!
