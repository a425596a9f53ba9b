//! A character-level model of slash-separated paths: file name, parent,
//! join, stem and extension, the sidecar metadata path of a note, and the
//! workspace boundary check applied to canonicalized paths.

use vstd::prelude::*;
use vstd::string::StringExecFns;

use crate::text::{char_range_string, rfind_char, rfind_char_upto, str_chars, str_eq};

verus! {

/// The component after the last separator: the whole path when it has
/// none.
pub open spec fn file_name_of(p: Seq<char>) -> Seq<char> {
    let i = rfind_char(p, '/');
    if i == -1 {
        p
    } else {
        p.subrange(i + 1, p.len() as int)
    }
}

/// Everything before the last separator: empty when the path has none,
/// the root itself for a file directly under the root.
pub open spec fn parent_of(p: Seq<char>) -> Seq<char> {
    let i = rfind_char(p, '/');
    if i == -1 {
        Seq::empty()
    } else if i == 0 {
        seq!['/']
    } else {
        p.subrange(0, i)
    }
}

/// `dir` and `name` joined by a single separator.
pub open spec fn spec_path_join(dir: Seq<char>, name: Seq<char>) -> Seq<char> {
    if dir.len() == 0 {
        name
    } else if dir[dir.len() - 1] == '/' {
        dir + name
    } else {
        dir + seq!['/'] + name
    }
}

/// The file name without its extension: the name up to its last dot,
/// except that a leading dot introduces no extension.
pub open spec fn stem_of(name: Seq<char>) -> Seq<char> {
    let d = rfind_char(name, '.');
    if d <= 0 {
        name
    } else {
        name.subrange(0, d)
    }
}

/// The extension after the last dot: empty when the name has none or
/// starts with its only dot.
pub open spec fn extension_of(name: Seq<char>) -> Seq<char> {
    let d = rfind_char(name, '.');
    if d <= 0 {
        Seq::empty()
    } else {
        name.subrange(d + 1, name.len() as int)
    }
}

/// Whether `target` is `base` itself or lies below it, component-wise.
pub open spec fn path_starts_with(target: Seq<char>, base: Seq<char>) -> bool {
    ||| target == base
    ||| (target.len() > base.len() && target.subrange(0, base.len() as int) == base && (
    base.len() > 0 && base[base.len() - 1] == '/' || target[base.len() as int] == '/'))
}

/// The sidecar metadata path of a note: a `.json` file named after the
/// note's stem inside the `.meta` directory beside it.
pub open spec fn spec_meta_path(p: Seq<char>) -> Seq<char> {
    spec_path_join(
        spec_path_join(parent_of(p), ".meta"@),
        stem_of(file_name_of(p)) + ".json"@,
    )
}

/// The component after the last separator.
pub fn path_file_name(path: &str) -> (r: String)
    ensures
        r@ == file_name_of(path@),
{
    let chars = str_chars(path);
    let n = chars.len();
    let i = rfind_char_upto(&chars, '/', n);
    proof {
        assert(chars@.subrange(0, n as int) =~= chars@);
    }
    if i == n {
        char_range_string(&chars, 0, n)
    } else {
        char_range_string(&chars, i + 1, n)
    }
}

/// Everything before the last separator.
pub fn path_parent(path: &str) -> (r: String)
    ensures
        r@ == parent_of(path@),
{
    let chars = str_chars(path);
    let n = chars.len();
    let i = rfind_char_upto(&chars, '/', n);
    proof {
        assert(chars@.subrange(0, n as int) =~= chars@);
    }
    if i == n {
        String::new()
    } else if i == 0 {
        proof {
            reveal_strlit("/");
            assert("/"@ =~= seq!['/']);
        }
        "/".to_owned()
    } else {
        char_range_string(&chars, 0, i)
    }
}

/// Join `dir` and `name` with a single separator.
pub fn join_path(dir: &str, name: &str) -> (r: String)
    ensures
        r@ == spec_path_join(dir@, name@),
{
    let n = dir.unicode_len();
    if n == 0 {
        return name.to_owned();
    }
    let mut out = dir.to_owned();
    if dir.get_char(n - 1) != '/' {
        out.append("/");
        proof {
            reveal_strlit("/");
            assert("/"@ =~= seq!['/']);
        }
    }
    out.append(name);
    out
}

/// The file name without its extension.
pub fn file_stem(name: &str) -> (r: String)
    ensures
        r@ == stem_of(name@),
{
    let chars = str_chars(name);
    let n = chars.len();
    let d = rfind_char_upto(&chars, '.', n);
    proof {
        assert(chars@.subrange(0, n as int) =~= chars@);
    }
    if d == n || d == 0 {
        char_range_string(&chars, 0, n)
    } else {
        proof {
            assert(chars@ =~= chars@.subrange(0, n as int));
        }
        char_range_string(&chars, 0, d)
    }
}

/// The extension after the last dot of a file name.
pub fn path_extension(name: &str) -> (r: String)
    ensures
        r@ == extension_of(name@),
{
    let chars = str_chars(name);
    let n = chars.len();
    let d = rfind_char_upto(&chars, '.', n);
    proof {
        assert(chars@.subrange(0, n as int) =~= chars@);
    }
    if d == n || d == 0 {
        String::new()
    } else {
        char_range_string(&chars, d + 1, n)
    }
}

/// Whether a file or directory name is hidden (starts with a dot).
pub fn is_hidden(name: &str) -> (r: bool)
    ensures
        r == (name@.len() > 0 && name@[0] == '.'),
{
    if name.unicode_len() == 0 {
        false
    } else {
        name.get_char(0) == '.'
    }
}

/// Whether the path names a markdown file: its extension is `md`,
/// compared without regard to ASCII case.
pub open spec fn spec_is_markdown(p: Seq<char>) -> bool {
    let ext = extension_of(file_name_of(p));
    &&& ext.len() == 2
    &&& (ext[0] == 'm' || ext[0] == 'M')
    &&& (ext[1] == 'd' || ext[1] == 'D')
}

/// Whether the path names a markdown file.
pub fn is_markdown_file(path: &str) -> (r: bool)
    ensures
        r == spec_is_markdown(path@),
{
    let name_s = path_file_name(path);
    let name = str_chars(name_s.as_str());
    let n = name.len();
    let d = rfind_char_upto(&name, '.', n);
    proof {
        assert(name@.subrange(0, n as int) =~= name@);
    }
    if d == n || d == 0 {
        return false;
    }
    if n - (d + 1) != 2 {
        proof {
            assert(extension_of(name@).len() == n - (d + 1));
        }
        return false;
    }
    let c0 = name[d + 1];
    let c1 = name[d + 2];
    proof {
        assert(extension_of(name@)[0] == name@[d + 1]);
        assert(extension_of(name@)[1] == name@[d + 2]);
    }
    (c0 == 'm' || c0 == 'M') && (c1 == 'd' || c1 == 'D')
}

/// The sidecar metadata path for a note.
pub fn get_meta_path(note_path: &str) -> (r: String)
    ensures
        r@ == spec_meta_path(note_path@),
{
    let parent = path_parent(note_path);
    let name = path_file_name(note_path);
    let stem = file_stem(name.as_str());
    let mut file = stem;
    file.append(".json");
    let meta_dir = join_path(parent.as_str(), ".meta");
    join_path(meta_dir.as_str(), file.as_str())
}

/// Whether `path` is `base` itself or lies below it.
pub fn path_has_prefix(path: &str, base: &str) -> (r: bool)
    ensures
        r == path_starts_with(path@, base@),
{
    let blen = base.unicode_len();
    let plen = path.unicode_len();
    if plen < blen {
        return false;
    }
    let mut i: usize = 0;
    while i < blen
        invariant
            blen == base@.len(),
            plen == path@.len(),
            blen <= plen,
            i <= blen,
            forall|j: int| 0 <= j < i ==> path@[j] == base@[j],
        decreases blen - i,
    {
        if path.get_char(i) != base.get_char(i) {
            proof {
                assert(path@[i as int] != base@[i as int]);
                assert(path@ != base@);
                assert(path@.subrange(0, blen as int) != base@) by {
                    if path@.subrange(0, blen as int) == base@ {
                        assert(path@.subrange(0, blen as int)[i as int] == path@[i as int]);
                    }
                }
            }
            return false;
        }
        i = i + 1;
    }
    proof {
        assert(path@.subrange(0, blen as int) =~= base@);
    }
    if plen == blen {
        proof {
            assert(path@ =~= base@);
        }
        return true;
    }
    if blen > 0 && base.get_char(blen - 1) == '/' {
        true
    } else {
        path.get_char(blen) == '/'
    }
}

/// The remainder of `path` below the workspace: the path unchanged when
/// it does not lie below the workspace, else everything after the
/// workspace prefix and its separator.
pub open spec fn spec_workspace_relative(path: Seq<char>, ws: Seq<char>) -> Seq<char> {
    if path == ws {
        Seq::empty()
    } else if !path_starts_with(path, ws) {
        path
    } else if ws.len() > 0 && ws[ws.len() - 1] == '/' {
        path.subrange(ws.len() as int, path.len() as int)
    } else {
        path.subrange(ws.len() as int + 1, path.len() as int)
    }
}

/// Strip the workspace prefix from a path, handing back paths from
/// elsewhere unchanged.
pub fn workspace_relative(path: &str, workspace: &str) -> (r: String)
    ensures
        r@ == spec_workspace_relative(path@, workspace@),
{
    if str_eq(path, workspace) {
        return String::new();
    }
    if !path_has_prefix(path, workspace) {
        return path.to_owned();
    }
    let chars = str_chars(path);
    let wlen = workspace.unicode_len();
    let plen = chars.len();
    if wlen > 0 && workspace.get_char(wlen - 1) == '/' {
        char_range_string(&chars, wlen, plen)
    } else {
        char_range_string(&chars, wlen + 1, plen)
    }
}

/// Check a canonicalized target path against the canonicalized workspace
/// boundary: the target is accepted exactly when it is the workspace
/// itself or lies below it.
pub fn validate_workspace_path(workspace: &str, target: &str) -> (r: Result<String, String>)
    ensures
        r is Ok <==> path_starts_with(target@, workspace@),
        r is Ok ==> r.unwrap()@ == target@,
        r is Err ==> r.unwrap_err()@ == "Path is outside workspace boundary"@,
{
    let wlen = workspace.unicode_len();
    let tlen = target.unicode_len();
    if tlen < wlen {
        proof {
            assert(!path_starts_with(target@, workspace@));
        }
        return Err("Path is outside workspace boundary".to_owned());
    }
    let mut i: usize = 0;
    while i < wlen
        invariant
            wlen == workspace@.len(),
            tlen == target@.len(),
            wlen <= tlen,
            i <= wlen,
            forall|j: int| 0 <= j < i ==> target@[j] == workspace@[j],
        decreases wlen - i,
    {
        if target.get_char(i) != workspace.get_char(i) {
            proof {
                assert(target@[i as int] != workspace@[i as int]);
                assert(target@ != workspace@);
                assert(target@.subrange(0, wlen as int) != workspace@) by {
                    if target@.subrange(0, wlen as int) == workspace@ {
                        assert(target@.subrange(0, wlen as int)[i as int] == target@[i as int]);
                    }
                }
            }
            return Err("Path is outside workspace boundary".to_owned());
        }
        i = i + 1;
    }
    proof {
        assert(target@.subrange(0, wlen as int) =~= workspace@);
    }
    if tlen == wlen {
        proof {
            assert(target@ =~= workspace@);
        }
        return Ok(target.to_owned());
    }
    let boundary_ok = if wlen > 0 && workspace.get_char(wlen - 1) == '/' {
        true
    } else {
        target.get_char(wlen) == '/'
    };
    if boundary_ok {
        Ok(target.to_owned())
    } else {
        proof {
            assert(target@.len() != workspace@.len());
            assert(target@ != workspace@);
        }
        Err("Path is outside workspace boundary".to_owned())
    }
}

} // verus!
