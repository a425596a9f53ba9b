//! Sidecar metadata for a note: the frozen session fields persisted
//! beside the note, and the conversions between them and live sessions.
//! Reading and writing the sidecar file is the unverified shell's job.

use vstd::prelude::*;
use vstd::string::StringExecFns;

use crate::paths::{file_name_of, path_file_name};
use crate::session::{Session, SessionState};
use crate::text::{char_range_string, str_chars};

verus! {

/// Frozen session fields persisted in a note's sidecar record.
#[derive(Debug, Clone)]
pub struct SessionMeta {
    pub started_at: i64,
    pub ended_at: Option<i64>,
    pub duration_minutes: u32,
    pub annotation_count: u32,
    pub last_annotation_at: Option<i64>,
}

impl SessionMeta {
    /// Timestamps in a persisted record are non-negative.
    pub open spec fn wf(self) -> bool {
        &&& self.started_at >= 0
        &&& (self.ended_at is Some ==> self.ended_at.unwrap() >= 0)
        &&& (self.last_annotation_at is Some ==> self.last_annotation_at.unwrap() >= 0)
    }
}

/// File bookkeeping persisted in a note's sidecar record.
#[derive(Debug, Clone)]
pub struct FileMeta {
    pub name: String,
    pub raw_path: Option<String>,
    pub created_at: i64,
    pub updated_at: i64,
}

/// A note's full sidecar record.
#[derive(Debug, Clone)]
pub struct NoteMeta {
    pub id: String,
    pub version: u32,
    pub file: FileMeta,
    pub session: Option<SessionMeta>,
}

/// `s` with every trailing `.md` suffix removed.
pub open spec fn strip_md_suffix(s: Seq<char>) -> Seq<char>
    decreases s.len(),
{
    if s.len() >= 3 && s.subrange(s.len() - 3, s.len() as int) == ".md"@ {
        strip_md_suffix(s.subrange(0, s.len() - 3))
    } else {
        s
    }
}

/// The note's file name with every trailing `.md` suffix removed.
pub fn strip_md(name: &str) -> (r: String)
    ensures
        r@ == strip_md_suffix(name@),
{
    let chars = str_chars(name);
    let mut hi = chars.len();
    proof {
        assert(chars@.subrange(0, hi as int) =~= chars@);
    }
    loop
        invariant
            hi <= chars@.len(),
            chars@ == name@,
            strip_md_suffix(name@) == strip_md_suffix(chars@.subrange(0, hi as int)),
        decreases hi,
    {
        let ghost cur = chars@.subrange(0, hi as int);
        if hi >= 3 && chars[hi - 3] == '.' && chars[hi - 2] == 'm' && chars[hi - 1] == 'd' {
            proof {
                reveal_strlit(".md");
                assert(cur.subrange(hi - 3, hi as int) =~= ".md"@);
                assert(cur.subrange(0, hi - 3) =~= chars@.subrange(0, hi - 3));
            }
            hi = hi - 3;
        } else {
            proof {
                if cur.len() >= 3 {
                    reveal_strlit(".md");
                    assert(cur.subrange(hi - 3, hi as int) != ".md"@) by {
                        if cur.subrange(hi - 3, hi as int) == ".md"@ {
                            assert(cur.subrange(hi - 3, hi as int)[0] == chars@[hi - 3]);
                            assert(cur.subrange(hi - 3, hi as int)[1] == chars@[hi - 2]);
                            assert(cur.subrange(hi - 3, hi as int)[2] == chars@[hi - 1]);
                        }
                    }
                }
                assert(strip_md_suffix(cur) == cur);
            }
            return char_range_string(&chars, 0, hi);
        }
    }
}

impl NoteMeta {
    /// A fresh sidecar record for a note: version one, named after the
    /// note's file name (or `untitled` for an empty one), identified by
    /// that name without its `.md` suffix plus the caller's timestamp
    /// text, created and updated at the given instant, with no session.
    pub fn new(note_path: &str, now_ms: i64, stamp: &str) -> (m: NoteMeta)
        ensures
            m.version == 1,
            m.file.name@ == if file_name_of(note_path@).len() == 0 {
                "untitled"@
            } else {
                file_name_of(note_path@)
            },
            m.id@ == strip_md_suffix(m.file.name@) + "-"@ + stamp@,
            m.file.raw_path is None,
            m.file.created_at == now_ms,
            m.file.updated_at == now_ms,
            m.session is None,
    {
        let name = path_file_name(note_path);
        let name = if name.as_str().unicode_len() == 0 {
            "untitled".to_owned()
        } else {
            name
        };
        let mut id = strip_md(name.as_str());
        id.append("-");
        id.append(stamp);
        NoteMeta {
            id,
            version: 1,
            file: FileMeta { name, raw_path: None, created_at: now_ms, updated_at: now_ms },
            session: None,
        }
    }

    /// Refresh the file's update timestamp.
    pub fn update_file(&mut self, now_ms: i64)
        ensures
            final(self).file.updated_at == now_ms,
            final(self).file.name == old(self).file.name,
            final(self).file.raw_path == old(self).file.raw_path,
            final(self).file.created_at == old(self).file.created_at,
            final(self).id == old(self).id,
            final(self).version == old(self).version,
            final(self).session == old(self).session,
    {
        self.file.updated_at = now_ms;
    }

    /// Attach session metadata.
    pub fn set_session(&mut self, session: SessionMeta)
        ensures
            final(self).session == Some(session),
            final(self).id == old(self).id,
            final(self).version == old(self).version,
            final(self).file == old(self).file,
    {
        self.session = Some(session);
    }
}

/// The sidecar record a session earns: only a session that both started
/// and ended is persisted.
pub fn session_to_meta(s: &Session) -> (r: Option<SessionMeta>)
    requires
        s.wf(),
    ensures
        r is Some <==> (s.started_at is Some && s.ended_at is Some),
        r matches Some(m) ==> (m.started_at == s.started_at.unwrap() && m.ended_at == s.ended_at
            && m.duration_minutes == s.duration_minutes && m.annotation_count == s.annotation_count
            && m.last_annotation_at == s.last_annotation_at && m.wf()),
{
    match (s.started_at, s.ended_at) {
        (Some(started), Some(ended)) => Some(
            SessionMeta {
                started_at: started,
                ended_at: Some(ended),
                duration_minutes: s.duration_minutes,
                annotation_count: s.annotation_count,
                last_annotation_at: s.last_annotation_at,
            },
        ),
        _ => None,
    }
}

/// Restore an ended session from its persisted record; a record without
/// an end instant falls back to its start instant.
pub fn session_from_meta(note_path: String, m: &SessionMeta) -> (s: Session)
    requires
        m.wf(),
    ensures
        s.wf(),
        s.state == SessionState::Ended,
        s.note_path == note_path,
        s.started_at == Some(m.started_at),
        s.ended_at == Some(
            match m.ended_at {
                Some(e) => e,
                None => m.started_at,
            },
        ),
        s.duration_minutes == m.duration_minutes,
        s.annotation_count == m.annotation_count,
        s.last_annotation_at == m.last_annotation_at,
{
    let ended = match m.ended_at {
        Some(e) => e,
        None => m.started_at,
    };
    Session::from_ended(
        note_path,
        m.started_at,
        ended,
        m.duration_minutes,
        m.annotation_count,
        m.last_annotation_at,
    )
}

} // verus!
