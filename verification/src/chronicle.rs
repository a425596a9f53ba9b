//! Workspace automation pieces around the agent directory: the index
//! files the observer watches, template placeholder substitution, digest
//! range selection and prompt assembly, and the parsing of user command
//! files.  All file reading and writing stays in the unverified shell.

use vstd::prelude::*;
use vstd::string::StringExecFns;

use crate::metadata::{strip_md, strip_md_suffix};
use crate::task::seq_views;
use crate::text::{
    char_is_whitespace, char_range_string, char_to_uppercase, chars_to_string, find_char,
    find_char_range, is_whitespace_char, push_all, replace_all, replace_spec, str_chars, str_eq,
    trim_spec, trimmed_range, upper_first_of,
};

verus! {

/// The subdirectories of the agent directory, in creation order.
pub fn chronicle_subdirs() -> (r: Vec<String>)
    ensures
        seq_views(r@) == seq![
            "prompts"@,
            "processed"@,
            "digests"@,
            "templates"@,
            "entities"@,
            "commands"@,
        ],
{
    let mut v: Vec<String> = Vec::new();
    v.push("prompts".to_owned());
    v.push("processed".to_owned());
    v.push("digests".to_owned());
    v.push("templates".to_owned());
    v.push("entities".to_owned());
    v.push("commands".to_owned());
    proof {
        assert(seq_views(v@) =~= seq![
            "prompts"@,
            "processed"@,
            "digests"@,
            "templates"@,
            "entities"@,
            "commands"@,
        ]);
    }
    v
}

/// The JSON index files seeded into the agent directory with their
/// default contents; the actions index is a list, every other one a map.
pub fn chronicle_index_files() -> (r: Vec<(String, String)>)
    ensures
        r@.len() == 5,
        r@[0].0@ == "tags.json"@ && r@[0].1@ == "{}"@,
        r@[1].0@ == "actions.json"@ && r@[1].1@ == "[]"@,
        r@[2].0@ == "links.json"@ && r@[2].1@ == "{}"@,
        r@[3].0@ == "agent-runs.json"@ && r@[3].1@ == "{}"@,
        r@[4].0@ == "state.json"@ && r@[4].1@ == "{}"@,
{
    let mut v: Vec<(String, String)> = Vec::new();
    v.push(("tags.json".to_owned(), "{}".to_owned()));
    v.push(("actions.json".to_owned(), "[]".to_owned()));
    v.push(("links.json".to_owned(), "{}".to_owned()));
    v.push(("agent-runs.json".to_owned(), "{}".to_owned()));
    v.push(("state.json".to_owned(), "{}".to_owned()));
    v
}

/// The default value an absent index file reads as: the empty list for
/// the actions index, the empty map for every other.
pub fn chronicle_default_json(filename: &str) -> (r: String)
    ensures
        filename@ == "actions.json"@ ==> r@ == "[]"@,
        filename@ != "actions.json"@ ==> r@ == "{}"@,
{
    if str_eq(filename, "actions.json") {
        "[]".to_owned()
    } else {
        "{}".to_owned()
    }
}

/// Template placeholder substitution: the date placeholder takes the
/// given date text and the title placeholder a fixed fresh-note title.
pub fn replace_placeholders(content: &str, date: &str) -> (r: String)
    ensures
        r@ == replace_spec(
            replace_spec(content@, "{{date}}"@, date@),
            "{{title}}"@,
            "New Note"@,
        ),
{
    proof {
        reveal_strlit("{{date}}");
        reveal_strlit("{{title}}");
    }
    let step = replace_all(content, "{{date}}", date);
    replace_all(step.as_str(), "{{title}}", "New Note")
}

/// One parameter substituted into a command body: `{{key}}` becomes the
/// value.
pub open spec fn spec_substituted(s: Seq<char>, key: Seq<char>, value: Seq<char>) -> Seq<char> {
    replace_spec(s, "{{"@ + key + "}}"@, value)
}

/// Substitute one named parameter into a command body.
pub fn substitute_param(content: &str, key: &str, value: &str) -> (r: String)
    ensures
        r@ == spec_substituted(content@, key@, value@),
{
    let mut pat = "{{".to_owned();
    pat.append(key);
    pat.append("}}");
    proof {
        reveal_strlit("{{");
        assert(pat@.len() > 0);
    }
    replace_all(content, pat.as_str(), value)
}

/// The full prompt of a custom command: the working directory header
/// followed by the substituted command body.
pub fn custom_command_prompt(workspace_path: &str, substituted: &str) -> (r: String)
    ensures
        r@ == "Working directory: "@ + workspace_path@ + "\n\n"@ + substituted@,
{
    let mut s = "Working directory: ".to_owned();
    s.append(workspace_path);
    s.append("\n\n");
    s.append(substituted);
    s
}

/// The date range a digest covers: today alone for a daily digest, the
/// trailing week or month otherwise, the caller's bounds for a custom
/// one (today standing in for an absent bound), and an error for any
/// other range word.
pub fn digest_range(
    range: &str,
    today: &str,
    week_ago: &str,
    month_ago: &str,
    from_date: Option<String>,
    to_date: Option<String>,
) -> (r: Result<(String, String), String>)
    ensures
        range@ == "daily"@ ==> (r matches Ok(p) && p.0@ == today@ && p.1@ == today@),
        range@ == "weekly"@ ==> (r matches Ok(p) && p.0@ == week_ago@ && p.1@ == today@),
        range@ == "monthly"@ ==> (r matches Ok(p) && p.0@ == month_ago@ && p.1@ == today@),
        range@ == "custom"@ ==> (r matches Ok(p) && p.0@ == (match from_date {
            Some(f) => f@,
            None => today@,
        }) && p.1@ == (match to_date {
            Some(t) => t@,
            None => today@,
        })),
        (range@ != "daily"@ && range@ != "weekly"@ && range@ != "monthly"@ && range@
            != "custom"@) ==> (r matches Err(e) && e@ == "Unknown range: "@ + range@),
{
    proof {
        reveal_strlit("daily");
        reveal_strlit("weekly");
        reveal_strlit("monthly");
        reveal_strlit("custom");
        assert("daily"@.len() == 5);
        assert("weekly"@.len() == 6);
        assert("monthly"@.len() == 7);
        assert("custom"@.len() == 6);
        assert("weekly"@[0] == 'w');
        assert("custom"@[0] == 'c');
    }
    if str_eq(range, "daily") {
        Ok((today.to_owned(), today.to_owned()))
    } else if str_eq(range, "weekly") {
        Ok((week_ago.to_owned(), today.to_owned()))
    } else if str_eq(range, "monthly") {
        Ok((month_ago.to_owned(), today.to_owned()))
    } else if str_eq(range, "custom") {
        let from = match from_date {
            Some(f) => f,
            None => today.to_owned(),
        };
        let to = match to_date {
            Some(t) => t,
            None => today.to_owned(),
        };
        Ok((from, to))
    } else {
        let mut e = "Unknown range: ".to_owned();
        e.append(range);
        Err(e)
    }
}

/// The output filename of a digest: `<from>-<range>.md`.
pub fn digest_output_filename(from: &str, range: &str) -> (r: String)
    ensures
        r@ == from@ + "-"@ + range@ + ".md"@,
{
    let mut s = from.to_owned();
    s.append("-");
    s.append(range);
    s.append(".md");
    s
}

/// The full digest prompt: the workspace template followed by the
/// period, workspace, and output destination.
pub fn digest_prompt(
    base_prompt: &str,
    range: &str,
    from: &str,
    to: &str,
    workspace_path: &str,
    output_path: &str,
) -> (r: String)
    ensures
        r@ == base_prompt@ + "\n\nGenerate a "@ + range@ + " digest for the period "@ + from@
            + " to "@ + to@ + ".\nWorkspace: "@ + workspace_path@ + "\nWrite output to: "@
            + output_path@,
{
    let mut s = base_prompt.to_owned();
    s.append("\n\nGenerate a ");
    s.append(range);
    s.append(" digest for the period ");
    s.append(from);
    s.append(" to ");
    s.append(to);
    s.append(".\nWorkspace: ");
    s.append(workspace_path);
    s.append("\nWrite output to: ");
    s.append(output_path);
    s
}

/// The heading a single raw line yields: its trimmed text after a `# `
/// marker at the very start of the line.
pub open spec fn raw_heading_candidate(line: Seq<char>) -> Option<Seq<char>> {
    if line.len() >= 2 && line[0] == '#' && line[1] == ' ' {
        Some(trim_spec(line.subrange(2, line.len() as int)))
    } else {
        None
    }
}

/// The first line opening with `# `, trimmed, scanning line by line.
pub open spec fn spec_first_heading(s: Seq<char>) -> Option<Seq<char>>
    decreases s.len(),
{
    if s.len() == 0 {
        None
    } else {
        let nl = find_char(s, '\n');
        let line = if nl == -1 {
            s
        } else {
            s.subrange(0, nl)
        };
        if raw_heading_candidate(line) is Some {
            raw_heading_candidate(line)
        } else if 0 <= nl < s.len() {
            spec_first_heading(s.subrange(nl + 1, s.len() as int))
        } else {
            None
        }
    }
}

/// The first `# ` heading of a document, trimmed.  Unlike the note-title
/// scan, the marker must open the raw line.
pub fn first_heading(content: &str) -> (r: Option<String>)
    ensures
        r is Some <==> spec_first_heading(content@) is Some,
        r is Some ==> r.unwrap()@ == spec_first_heading(content@).unwrap(),
{
    let chars = str_chars(content);
    let n = chars.len();
    let mut p: usize = 0;
    proof {
        assert(chars@.subrange(0, n as int) =~= content@);
    }
    loop
        invariant
            p <= n,
            n == chars@.len(),
            chars@ == content@,
            spec_first_heading(content@) == spec_first_heading(
                chars@.subrange(p as int, n as int),
            ),
        decreases n - p,
    {
        let ghost suffix = chars@.subrange(p as int, n as int);
        if p == n {
            return None;
        }
        let nl = find_char_range(&chars, '\n', p, n);
        let ghost line = if nl == n {
            suffix
        } else {
            suffix.subrange(0, nl - p)
        };
        proof {
            if nl < n {
                assert(find_char(suffix, '\n') == nl - p);
                assert(line =~= chars@.subrange(p as int, nl as int));
            } else {
                assert(find_char(suffix, '\n') == -1);
                assert(line =~= chars@.subrange(p as int, nl as int));
            }
        }
        if nl - p >= 2 && chars[p] == '#' && chars[p + 1] == ' ' {
            proof {
                assert(line[0] == '#');
                assert(line[1] == ' ');
            }
            let (c, d) = trimmed_range(&chars, p + 2, nl);
            proof {
                assert(line.subrange(2, line.len() as int) =~= chars@.subrange(
                    p + 2 as int,
                    nl as int,
                ));
                assert(raw_heading_candidate(line) == Some(chars@.subrange(c as int, d as int)));
            }
            return Some(char_range_string(&chars, c, d));
        }
        proof {
            if line.len() >= 2 {
                assert(line[0] == chars@[p as int]);
                assert(line[1] == chars@[p + 1]);
            }
            assert(raw_heading_candidate(line) is None);
        }
        if nl == n {
            return None;
        }
        proof {
            assert(suffix.subrange(nl - p + 1, suffix.len() as int) =~= chars@.subrange(
                nl + 1 as int,
                n as int,
            ));
        }
        p = nl + 1;
    }
}

/// The display title of a digest file: its first heading, or the file's
/// own name when it has none.
pub fn digest_title(content: &str, filename: &str) -> (r: String)
    ensures
        spec_first_heading(content@) is Some ==> r@ == spec_first_heading(content@).unwrap(),
        spec_first_heading(content@) is None ==> r@ == filename@,
{
    match first_heading(content) {
        Some(t) => t,
        None => filename.to_owned(),
    }
}

/// The description of a command file: its first line that is neither
/// blank nor a heading, trimmed; empty when the file has none.
pub open spec fn spec_command_description(s: Seq<char>) -> Seq<char>
    decreases s.len(),
{
    if s.len() == 0 {
        Seq::empty()
    } else {
        let nl = find_char(s, '\n');
        let line = if nl == -1 {
            s
        } else {
            s.subrange(0, nl)
        };
        if (line.len() > 0 && line[0] == '#') || trim_spec(line).len() == 0 {
            if 0 <= nl < s.len() {
                spec_command_description(s.subrange(nl + 1, s.len() as int))
            } else {
                Seq::empty()
            }
        } else {
            trim_spec(line)
        }
    }
}

/// The description of a command file.
pub fn command_description(content: &str) -> (r: String)
    ensures
        r@ == spec_command_description(content@),
{
    let chars = str_chars(content);
    let n = chars.len();
    let mut p: usize = 0;
    proof {
        assert(chars@.subrange(0, n as int) =~= content@);
    }
    loop
        invariant
            p <= n,
            n == chars@.len(),
            chars@ == content@,
            spec_command_description(content@) == spec_command_description(
                chars@.subrange(p as int, n as int),
            ),
        decreases n - p,
    {
        let ghost suffix = chars@.subrange(p as int, n as int);
        if p == n {
            return String::new();
        }
        let nl = find_char_range(&chars, '\n', p, n);
        let ghost line = if nl == n {
            suffix
        } else {
            suffix.subrange(0, nl - p)
        };
        proof {
            if nl < n {
                assert(find_char(suffix, '\n') == nl - p);
            } else {
                assert(find_char(suffix, '\n') == -1);
            }
            assert(line =~= chars@.subrange(p as int, nl as int));
        }
        let (a, b) = trimmed_range(&chars, p, nl);
        proof {
            assert(trim_spec(line) == chars@.subrange(a as int, b as int));
            if nl - p > 0 {
                assert(line[0] == chars@[p as int]);
            }
        }
        let heading = nl - p > 0 && chars[p] == '#';
        if !heading && b > a {
            return char_range_string(&chars, a, b);
        }
        if nl == n {
            return String::new();
        }
        proof {
            assert(suffix.subrange(nl - p + 1, suffix.len() as int) =~= chars@.subrange(
                nl + 1 as int,
                n as int,
            ));
        }
        p = nl + 1;
    }
}

/// A character that separates words in a template name: a dash, an
/// underscore, or whitespace.
pub open spec fn is_word_sep(c: char) -> bool {
    c == '-' || c == '_' || is_whitespace_char(c)
}

/// A template base name in title case: separator runs become single
/// spaces, outer separators vanish, and each word opens with the
/// uppercase mapping of its first character.
pub open spec fn spec_title_case_from(s: Seq<char>, i: int, in_word: bool, emitted: bool) -> Seq<
    char,
>
    decreases s.len() - i,
{
    if i < 0 || i >= s.len() {
        Seq::empty()
    } else if is_word_sep(s[i]) {
        spec_title_case_from(s, i + 1, false, emitted)
    } else if in_word {
        seq![s[i]] + spec_title_case_from(s, i + 1, true, true)
    } else {
        (if emitted {
            seq![' ']
        } else {
            Seq::empty()
        }) + upper_first_of(s[i]) + spec_title_case_from(s, i + 1, true, true)
    }
}

/// A template base name in title case.
pub open spec fn spec_title_case(s: Seq<char>) -> Seq<char> {
    spec_title_case_from(s, 0, false, false)
}

/// Title-case a template base name.
fn title_case(s: &str) -> (r: String)
    ensures
        r@ == spec_title_case(s@),
{
    let chars = str_chars(s);
    let n = chars.len();
    let mut out: Vec<char> = Vec::new();
    let mut in_word = false;
    let mut emitted = false;
    let mut i: usize = 0;
    while i < n
        invariant
            i <= n,
            n == chars@.len(),
            chars@ == s@,
            in_word ==> emitted,
            spec_title_case(s@) == out@ + spec_title_case_from(s@, i as int, in_word, emitted),
        decreases n - i,
    {
        let c = chars[i];
        let ghost prev = out@;
        let ghost was_in_word = in_word;
        let ghost was_emitted = emitted;
        if c == '-' || c == '_' || char_is_whitespace(c) {
            in_word = false;
            proof {
                assert(is_word_sep(s@[i as int]));
            }
        } else if in_word {
            out.push(c);
            proof {
                assert(!is_word_sep(s@[i as int]));
                assert(out@ + spec_title_case_from(s@, i + 1 as int, true, true) =~= prev + (
                seq![c] + spec_title_case_from(s@, i + 1 as int, true, true)));
            }
        } else {
            if emitted {
                out.push(' ');
            }
            let upper = char_to_uppercase(c);
            push_all(&mut out, &upper);
            in_word = true;
            emitted = true;
            proof {
                assert(!is_word_sep(s@[i as int]));
                if was_emitted {
                    assert(out@ =~= prev + seq![' '] + upper_first_of(c));
                    assert(out@ + spec_title_case_from(s@, i + 1 as int, true, true) =~= prev + (
                    seq![' '] + upper_first_of(c) + spec_title_case_from(
                        s@,
                        i + 1 as int,
                        true,
                        true,
                    )));
                } else {
                    assert(out@ =~= prev + upper_first_of(c));
                    assert(out@ + spec_title_case_from(s@, i + 1 as int, true, true) =~= prev + (
                    Seq::<char>::empty() + upper_first_of(c) + spec_title_case_from(
                        s@,
                        i + 1 as int,
                        true,
                        true,
                    )));
                }
            }
        }
        i = i + 1;
    }
    proof {
        assert(spec_title_case_from(s@, n as int, in_word, emitted) =~= Seq::<char>::empty());
        assert(out@ + Seq::<char>::empty() =~= out@);
    }
    chars_to_string(out)
}

/// The display name and description a template filename earns: the four
/// seeded templates have fixed texts, and any other name is title-cased
/// with a generic description.
pub fn template_meta(filename: &str) -> (r: (String, String))
    ensures
        ({
            let base = strip_md_suffix(filename@);
            if base == "blank"@ {
                r.0@ == "Blank Note"@ && r.1@ == "Start with an empty note"@
            } else if base == "meeting"@ {
                r.0@ == "Meeting"@ && r.1@ == "Agenda, notes, and action items"@
            } else if base == "one-on-one"@ {
                r.0@ == "1:1"@ && r.1@ == "Updates, discussion, and feedback"@
            } else if base == "standup"@ {
                r.0@ == "Standup"@ && r.1@ == "Yesterday, today, and blockers"@
            } else {
                r.0@ == spec_title_case(base) && r.1@ == spec_title_case(base) + " template"@
            }
        }),
{
    proof {
        reveal_strlit("blank");
        reveal_strlit("meeting");
        reveal_strlit("one-on-one");
        reveal_strlit("standup");
        assert("blank"@.len() == 5);
        assert("meeting"@.len() == 7);
        assert("one-on-one"@.len() == 10);
        assert("standup"@.len() == 7);
        assert("meeting"@[0] == 'm');
        assert("standup"@[0] == 's');
    }
    let base = strip_md(filename);
    if str_eq(base.as_str(), "blank") {
        ("Blank Note".to_owned(), "Start with an empty note".to_owned())
    } else if str_eq(base.as_str(), "meeting") {
        ("Meeting".to_owned(), "Agenda, notes, and action items".to_owned())
    } else if str_eq(base.as_str(), "one-on-one") {
        ("1:1".to_owned(), "Updates, discussion, and feedback".to_owned())
    } else if str_eq(base.as_str(), "standup") {
        ("Standup".to_owned(), "Yesterday, today, and blockers".to_owned())
    } else {
        let name = title_case(base.as_str());
        let mut desc = name.clone();
        desc.append(" template");
        (name, desc)
    }
}

/// Index of the first adjacent pair of closing braces at or after `i`, or
/// `-1`.
pub open spec fn find_double_close(s: Seq<char>, i: int) -> int
    decreases s.len() - i,
{
    if i < 0 || i + 2 > s.len() {
        -1
    } else if s[i] == '}' && s[i + 1] == '}' {
        i
    } else {
        find_double_close(s, i + 1)
    }
}

/// The parameter names found after position `i`: the trimmed text of each
/// `{{...}}` pair, left to right, each name kept once in order of first
/// appearance, stopping at an unclosed pair.
pub open spec fn spec_params_from(s: Seq<char>, i: int, acc: Seq<Seq<char>>) -> Seq<Seq<char>>
    decreases s.len() - i,
{
    if i < 0 || i + 2 > s.len() {
        acc
    } else if s[i] == '{' && s[i + 1] == '{' {
        let close = find_double_close(s, i + 2);
        if i + 2 <= close && close + 2 <= s.len() {
            let p = trim_spec(s.subrange(i + 2, close));
            let acc2 = if acc.contains(p) {
                acc
            } else {
                acc.push(p)
            };
            spec_params_from(s, close + 2, acc2)
        } else {
            acc
        }
    } else {
        spec_params_from(s, i + 1, acc)
    }
}

/// The parameter names of a command file.
pub open spec fn spec_command_params(s: Seq<char>) -> Seq<Seq<char>> {
    spec_params_from(s, 0, Seq::empty())
}

/// First position of an adjacent pair of closing braces at or after `lo`,
/// or the text's length when there is none.
fn find_double_close_exec(v: &Vec<char>, lo: usize) -> (r: usize)
    requires
        lo <= v@.len(),
    ensures
        lo <= r <= v@.len(),
        r < v@.len() ==> r + 2 <= v@.len() && v@[r as int] == '}' && v@[r + 1] == '}'
            && find_double_close(v@, lo as int) == r,
        r == v@.len() ==> find_double_close(v@, lo as int) == -1,
{
    let n = v.len();
    let mut j = lo;
    while n - j > 1
        invariant
            lo <= j <= n,
            n == v@.len(),
            find_double_close(v@, lo as int) == find_double_close(v@, j as int),
        decreases n - j,
    {
        if v[j] == '}' && v[j + 1] == '}' {
            return j;
        }
        j = j + 1;
    }
    proof {
        assert(find_double_close(v@, j as int) == -1);
    }
    n
}

/// Whether one of the collected parameter names equals `p`.
fn params_contain(params: &Vec<String>, p: &str) -> (r: bool)
    ensures
        r == seq_views(params@).contains(p@),
{
    let n = params.len();
    let mut i: usize = 0;
    while i < n
        invariant
            i <= n,
            n == params@.len(),
            forall|j: int| 0 <= j < i ==> seq_views(params@)[j] != p@,
        decreases n - i,
    {
        if str_eq(params[i].as_str(), p) {
            proof {
                assert(seq_views(params@)[i as int] == p@);
            }
            return true;
        }
        i = i + 1;
    }
    proof {
        assert(!seq_views(params@).contains(p@)) by {
            if seq_views(params@).contains(p@) {
                let j = choose|j: int| 0 <= j < seq_views(params@).len() && seq_views(params@)[j]
                    == p@;
            }
        }
    }
    false
}

/// The parameter names of a command file: the trimmed text of each
/// `{{...}}` pair, each name once, in order of first appearance.
pub fn command_params(content: &str) -> (r: Vec<String>)
    ensures
        seq_views(r@) == spec_command_params(content@),
{
    let chars = str_chars(content);
    let n = chars.len();
    let mut params: Vec<String> = Vec::new();
    let mut i: usize = 0;
    proof {
        assert(seq_views(params@) =~= Seq::<Seq<char>>::empty());
    }
    while n - i > 1
        invariant
            i <= n,
            n == chars@.len(),
            chars@ == content@,
            spec_command_params(content@) == spec_params_from(
                content@,
                i as int,
                seq_views(params@),
            ),
        decreases n - i,
    {
        if chars[i] == '{' && chars[i + 1] == '{' {
            let close = find_double_close_exec(&chars, i + 2);
            if close == n {
                return params;
            }
            let (a, b) = trimmed_range(&chars, i + 2, close);
            let ghost p = trim_spec(content@.subrange(i + 2, close as int));
            proof {
                assert(chars@.subrange(a as int, b as int) == p);
            }
            let name = char_range_string(&chars, a, b);
            let ghost before = seq_views(params@);
            if !params_contain(&params, name.as_str()) {
                params.push(name);
                proof {
                    assert(seq_views(params@) =~= before.push(p));
                }
            }
            i = close + 2;
        } else {
            i = i + 1;
        }
    }
    proof {
        assert(spec_params_from(content@, i as int, seq_views(params@)) == seq_views(params@));
    }
    params
}

} // verus!
