//! Session state machine: measures active-editing time on a single note.
//!
//! A session is `Inactive` until the first edit, `Active` while edits
//! arrive, and `Ended` once closed (by hand or by timeout).  Edits after
//! the end are annotations: they are counted but never reopen the session.
//! All timestamps are milliseconds since the Unix epoch; the state machine
//! itself is pure and takes the current instant as an argument.

use vstd::prelude::*;

verus! {

/// Milliseconds in one minute.
pub const MS_PER_MINUTE: i64 = 60000;

#[derive(Debug, Clone, Copy, PartialEq, Eq, Structural)]
pub enum SessionState {
    /// No active session.
    Inactive,
    /// Session in progress.
    Active,
    /// Session ended; further edits are annotations.
    Ended,
}

impl Default for SessionState {
    fn default() -> (r: Self)
        ensures
            r == SessionState::Inactive,
    {
        SessionState::Inactive
    }
}

/// Session configuration: both thresholds are in minutes.
#[derive(Debug, Clone, Copy)]
pub struct SessionConfig {
    /// Inactivity timeout in minutes.
    pub inactivity_timeout_minutes: u32,
    /// Maximum session duration in minutes.
    pub max_duration_minutes: u32,
}

impl Default for SessionConfig {
    fn default() -> (r: Self)
        ensures
            r.inactivity_timeout_minutes == 15,
            r.max_duration_minutes == 120,
    {
        SessionConfig { inactivity_timeout_minutes: 15, max_duration_minutes: 120 }
    }
}

/// Session data for a note.
#[derive(Debug, Clone)]
pub struct Session {
    /// Path to the note file.
    pub note_path: String,
    /// Current state.
    pub state: SessionState,
    /// When the session started (ms since epoch).
    pub started_at: Option<i64>,
    /// When the session ended (ms since epoch).
    pub ended_at: Option<i64>,
    /// When the last edit occurred (ms since epoch).
    pub last_edit_at: Option<i64>,
    /// Frozen duration in minutes once the session has ended.
    pub duration_minutes: u32,
    /// Number of annotations (edits after the session ended).
    pub annotation_count: u32,
    /// When the last annotation occurred (ms since epoch).
    pub last_annotation_at: Option<i64>,
}

/// Whole minutes elapsed from `start` to `end`, never negative.
pub open spec fn minutes_between(start: i64, end: i64) -> int {
    if end >= start {
        (end - start) / (MS_PER_MINUTE as int)
    } else {
        0
    }
}

/// `minutes_between`, clamped into `u32`.
pub open spec fn clamped_minutes(start: i64, end: i64) -> u32 {
    if minutes_between(start, end) > u32::MAX as int {
        u32::MAX
    } else {
        minutes_between(start, end) as u32
    }
}

/// A freshly constructed inactive session for the note at `path`.
pub open spec fn is_fresh_inactive(s: Session, path: Seq<char>) -> bool {
    &&& s.note_path@ == path
    &&& s.state == SessionState::Inactive
    &&& s.started_at is None
    &&& s.ended_at is None
    &&& s.last_edit_at is None
    &&& s.duration_minutes == 0
    &&& s.annotation_count == 0
    &&& s.last_annotation_at is None
}

/// The session `s` started at `now`: the first edit of an inactive session.
pub open spec fn spec_started(s: Session, now: i64) -> Session {
    Session {
        state: SessionState::Active,
        started_at: Some(now),
        last_edit_at: Some(now),
        ended_at: None,
        duration_minutes: 0,
        annotation_count: 0,
        last_annotation_at: None,
        ..s
    }
}

/// Effect of recording an edit at instant `now`.
pub open spec fn spec_record_edit(s: Session, now: i64) -> Session {
    match s.state {
        SessionState::Inactive => spec_started(s, now),
        SessionState::Active => Session { last_edit_at: Some(now), ..s },
        SessionState::Ended => Session {
            annotation_count: (s.annotation_count + 1) as u32,
            last_annotation_at: Some(now),
            ..s
        },
    }
}

/// Effect of ending the session at instant `now`: a no-op unless active.
pub open spec fn spec_end(s: Session, now: i64) -> Session {
    if s.state == SessionState::Active {
        Session {
            state: SessionState::Ended,
            ended_at: Some(now),
            duration_minutes: clamped_minutes(s.started_at.unwrap(), now),
            ..s
        }
    } else {
        s
    }
}

/// Whether an active session has exceeded either timeout threshold at `now`.
pub open spec fn spec_timed_out(s: Session, now: i64, config: SessionConfig) -> bool {
    ||| now - s.started_at.unwrap() >= config.max_duration_minutes as int * MS_PER_MINUTE as int
    ||| now - s.last_edit_at.unwrap() >= config.inactivity_timeout_minutes as int
        * MS_PER_MINUTE as int
}

/// Effect of a timeout check at instant `now`.
pub open spec fn spec_check_timeouts(s: Session, now: i64, config: SessionConfig) -> Session {
    if s.state == SessionState::Active && spec_timed_out(s, now, config) {
        spec_end(s, now)
    } else {
        s
    }
}

impl Session {
    /// Well-formedness: timestamps are set exactly when the state says so,
    /// are non-negative, and annotation data exists only once ended.
    pub open spec fn wf(self) -> bool {
        &&& (self.state == SessionState::Inactive <==> self.started_at is None)
        &&& (self.state == SessionState::Inactive <==> self.last_edit_at is None)
        &&& (self.state == SessionState::Ended <==> self.ended_at is Some)
        &&& (self.state != SessionState::Ended ==> self.duration_minutes == 0
            && self.annotation_count == 0 && self.last_annotation_at is None)
        &&& (self.started_at is Some ==> self.started_at.unwrap() >= 0)
        &&& (self.ended_at is Some ==> self.ended_at.unwrap() >= 0)
        &&& (self.last_edit_at is Some ==> self.last_edit_at.unwrap() >= 0)
        &&& (self.last_annotation_at is Some ==> self.last_annotation_at.unwrap() >= 0)
    }

    /// Create a new inactive session for a note.
    pub fn new(note_path: String) -> (s: Session)
        ensures
            s == (Session {
                note_path: note_path,
                state: SessionState::Inactive,
                started_at: None,
                ended_at: None,
                last_edit_at: None,
                duration_minutes: 0,
                annotation_count: 0,
                last_annotation_at: None,
            }),
            s.wf(),
    {
        Session {
            note_path,
            state: SessionState::Inactive,
            started_at: None,
            ended_at: None,
            last_edit_at: None,
            duration_minutes: 0,
            annotation_count: 0,
            last_annotation_at: None,
        }
    }

    /// Restore a session that already ended (loaded from persisted metadata).
    pub fn from_ended(
        note_path: String,
        started_at: i64,
        ended_at: i64,
        duration_minutes: u32,
        annotation_count: u32,
        last_annotation_at: Option<i64>,
    ) -> (s: Session)
        requires
            started_at >= 0,
            ended_at >= 0,
            last_annotation_at is Some ==> last_annotation_at.unwrap() >= 0,
        ensures
            s == (Session {
                note_path: note_path,
                state: SessionState::Ended,
                started_at: Some(started_at),
                ended_at: Some(ended_at),
                last_edit_at: Some(ended_at),
                duration_minutes: duration_minutes,
                annotation_count: annotation_count,
                last_annotation_at: last_annotation_at,
            }),
            s.wf(),
    {
        Session {
            note_path,
            state: SessionState::Ended,
            started_at: Some(started_at),
            ended_at: Some(ended_at),
            last_edit_at: Some(ended_at),
            duration_minutes,
            annotation_count,
            last_annotation_at,
        }
    }

    /// Start the session at instant `now_ms`, resetting all other fields.
    pub fn start(&mut self, now_ms: i64)
        requires
            now_ms >= 0,
        ensures
            *final(self) == spec_started(*old(self), now_ms),
            final(self).wf(),
    {
        self.state = SessionState::Active;
        self.started_at = Some(now_ms);
        self.last_edit_at = Some(now_ms);
        self.ended_at = None;
        self.duration_minutes = 0;
        self.annotation_count = 0;
        self.last_annotation_at = None;
    }

    /// Record an edit at instant `now_ms`: the first edit starts the
    /// session, an edit while active refreshes the last-edit time, and an
    /// edit after the end is counted as an annotation.
    pub fn record_edit(&mut self, now_ms: i64)
        requires
            old(self).wf(),
            now_ms >= 0,
            old(self).annotation_count < u32::MAX,
        ensures
            *final(self) == spec_record_edit(*old(self), now_ms),
            final(self).wf(),
    {
        match self.state {
            SessionState::Inactive => {
                self.start(now_ms);
            },
            SessionState::Active => {
                self.last_edit_at = Some(now_ms);
            },
            SessionState::Ended => {
                self.annotation_count = self.annotation_count + 1;
                self.last_annotation_at = Some(now_ms);
            },
        }
    }

    /// End the session at instant `now_ms`, freezing its duration; a no-op
    /// unless the session is active.
    pub fn end(&mut self, now_ms: i64)
        requires
            old(self).wf(),
            now_ms >= 0,
        ensures
            *final(self) == spec_end(*old(self), now_ms),
            final(self).wf(),
    {
        if self.state != SessionState::Active {
            return ;
        }
        self.state = SessionState::Ended;
        self.ended_at = Some(now_ms);
        if let Some(started) = self.started_at {
            self.duration_minutes = duration_minutes_exec(started, now_ms);
        }
    }

    /// Check both timeout thresholds at instant `now_ms`, ending the
    /// session when either is exceeded; returns whether it ended here.
    pub fn check_timeouts(&mut self, now_ms: i64, config: &SessionConfig) -> (ended: bool)
        requires
            old(self).wf(),
            now_ms >= 0,
        ensures
            *final(self) == spec_check_timeouts(*old(self), now_ms, *config),
            ended == (old(self).state == SessionState::Active && spec_timed_out(
                *old(self),
                now_ms,
                *config,
            )),
            final(self).wf(),
    {
        if self.state != SessionState::Active {
            return false;
        }
        if let Some(started) = self.started_at {
            let threshold = (config.max_duration_minutes as i64) * MS_PER_MINUTE;
            if now_ms - started >= threshold {
                self.end(now_ms);
                return true;
            }
        }
        if let Some(last_edit) = self.last_edit_at {
            let threshold = (config.inactivity_timeout_minutes as i64) * MS_PER_MINUTE;
            if now_ms - last_edit >= threshold {
                self.end(now_ms);
                return true;
            }
        }
        false
    }

    /// Current duration in minutes: live while active, frozen once ended,
    /// zero while inactive.
    pub fn current_duration_minutes(&self, now_ms: i64) -> (r: u32)
        requires
            self.wf(),
            now_ms >= 0,
        ensures
            self.state == SessionState::Active ==> r == clamped_minutes(
                self.started_at.unwrap(),
                now_ms,
            ),
            self.state == SessionState::Ended ==> r == self.duration_minutes,
            self.state == SessionState::Inactive ==> r == 0,
    {
        match self.state {
            SessionState::Active => {
                if let Some(started) = self.started_at {
                    duration_minutes_exec(started, now_ms)
                } else {
                    0
                }
            },
            SessionState::Ended => self.duration_minutes,
            SessionState::Inactive => 0,
        }
    }

    /// Whether the session is active.
    pub fn is_active(&self) -> (r: bool)
        ensures
            r == (self.state == SessionState::Active),
    {
        self.state == SessionState::Active
    }

    /// Whether the session has ended.
    pub fn has_ended(&self) -> (r: bool)
        ensures
            r == (self.state == SessionState::Ended),
    {
        self.state == SessionState::Ended
    }

    /// An exact copy of this session.
    pub fn snapshot(&self) -> (r: Session)
        ensures
            r == *self,
    {
        Session {
            note_path: self.note_path.clone(),
            state: self.state,
            started_at: self.started_at,
            ended_at: self.ended_at,
            last_edit_at: self.last_edit_at,
            duration_minutes: self.duration_minutes,
            annotation_count: self.annotation_count,
            last_annotation_at: self.last_annotation_at,
        }
    }
}

/// Whole minutes from `start` to `end`, clamped into `u32`.
fn duration_minutes_exec(start: i64, end: i64) -> (r: u32)
    requires
        start >= 0,
        end >= 0,
    ensures
        r == clamped_minutes(start, end),
{
    if end >= start {
        let diff = end - start;
        let mins = diff / MS_PER_MINUTE;
        if mins > u32::MAX as i64 {
            u32::MAX
        } else {
            mins as u32
        }
    } else {
        0
    }
}

/// Relies on chrono::Utc::now and chrono::DateTime::timestamp_millis: the
/// current instant in milliseconds since the Unix epoch.  Nothing is
/// promised of the value.
#[verifier::external_body]
fn now_millis() -> i64 {
    chrono::Utc::now().timestamp_millis()
}

/// The current instant, clamped to the epoch when the clock reads earlier.
fn clock_now() -> (r: i64)
    ensures
        r >= 0,
{
    let t = now_millis();
    if t < 0 {
        0
    } else {
        t
    }
}

/// Serializable session summary for display.
#[derive(Debug, Clone)]
pub struct SessionInfo {
    pub note_path: String,
    pub state: SessionState,
    pub duration_minutes: u32,
    pub annotation_count: u32,
    pub started_at: Option<i64>,
    pub ended_at: Option<i64>,
}

/// Owner of the single live session.  Callers guard it with their own
/// mutual exclusion; every operation here is synchronous.
pub struct SessionManager {
    /// Current session, if any.
    pub current: Option<Session>,
    /// Configuration applied by timeout checks.
    pub config: SessionConfig,
}

impl SessionManager {
    /// Well-formedness: the live session, if any, is well-formed.
    pub open spec fn wf(self) -> bool {
        self.current is Some ==> self.current.unwrap().wf()
    }

    pub fn new(config: SessionConfig) -> (m: SessionManager)
        ensures
            m.current is None,
            m.config == config,
            m.wf(),
    {
        SessionManager { current: None, config }
    }

    /// Current session state, copied out.
    pub fn get_session(&self) -> (r: Option<Session>)
        ensures
            r == self.current,
    {
        match &self.current {
            Some(s) => Some(s.snapshot()),
            None => None,
        }
    }

    /// Start or resume a session for a note: a session restored from
    /// metadata wins over a fresh inactive one.
    pub fn open_note(&mut self, note_path: &str, existing_session: Option<Session>)
        requires
            existing_session is Some ==> existing_session.unwrap().wf(),
        ensures
            final(self).config == old(self).config,
            existing_session is Some ==> final(self).current == existing_session,
            existing_session is None ==> final(self).current is Some && is_fresh_inactive(
                final(self).current.unwrap(),
                note_path@,
            ),
            final(self).wf(),
    {
        match existing_session {
            Some(session) => {
                self.current = Some(session);
            },
            None => {
                self.current = Some(Session::new(note_path.to_owned()));
            },
        }
    }

    /// Close the current note: an active session is ended at the current
    /// instant, and the session (if any) is handed back and dropped here.
    pub fn close_note(&mut self) -> (r: Option<Session>)
        requires
            old(self).wf(),
        ensures
            final(self).current is None,
            final(self).config == old(self).config,
            old(self).current is None ==> r is None,
            old(self).current is Some ==> exists|t: i64|
                t >= 0 && r == Some(#[trigger] spec_end(old(self).current.unwrap(), t)),
    {
        let cur = self.current.take();
        match cur {
            Some(mut session) => {
                let now = clock_now();
                session.end(now);
                proof {
                    assert(spec_end(old(self).current.unwrap(), now) == session);
                }
                Some(session)
            },
            None => None,
        }
    }

    /// Record an edit to the current note at the current instant.
    pub fn record_edit(&mut self)
        requires
            old(self).wf(),
            old(self).current is Some ==> old(self).current.unwrap().annotation_count
                < u32::MAX,
        ensures
            final(self).config == old(self).config,
            old(self).current is None ==> *final(self) == *old(self),
            old(self).current is Some ==> exists|t: i64|
                t >= 0 && final(self).current == Some(
                    #[trigger] spec_record_edit(old(self).current.unwrap(), t),
                ),
            final(self).wf(),
    {
        let cur = self.current.take();
        match cur {
            Some(mut session) => {
                let now = clock_now();
                session.record_edit(now);
                self.current = Some(session);
                proof {
                    assert(final(self).current == Some(
                        spec_record_edit(old(self).current.unwrap(), now),
                    ));
                }
            },
            None => {
                self.current = None;
            },
        }
    }

    /// End the current session at the current instant and report its state.
    pub fn end_session(&mut self) -> (r: Option<Session>)
        requires
            old(self).wf(),
        ensures
            final(self).config == old(self).config,
            old(self).current is None ==> *final(self) == *old(self) && r is None,
            old(self).current is Some ==> exists|t: i64|
                t >= 0 && final(self).current == Some(
                    #[trigger] spec_end(old(self).current.unwrap(), t),
                ) && r == final(self).current,
            final(self).wf(),
    {
        let cur = self.current.take();
        match cur {
            Some(mut session) => {
                let now = clock_now();
                session.end(now);
                let out = session.snapshot();
                self.current = Some(session);
                proof {
                    assert(final(self).current == Some(
                        spec_end(old(self).current.unwrap(), now),
                    ));
                }
                Some(out)
            },
            None => {
                self.current = None;
                None
            },
        }
    }

    /// Check timeouts at the current instant; hands back the session
    /// exactly when this check ended it.
    pub fn check_timeouts(&mut self) -> (r: Option<Session>)
        requires
            old(self).wf(),
        ensures
            final(self).config == old(self).config,
            old(self).current is None ==> *final(self) == *old(self) && r is None,
            old(self).current is Some ==> exists|t: i64|
                #![trigger spec_check_timeouts(old(self).current.unwrap(), t, old(self).config)]
                {
                    let s = old(self).current.unwrap();
                    &&& t >= 0
                    &&& final(self).current == Some(
                        spec_check_timeouts(s, t, old(self).config),
                    )
                    &&& (r is Some <==> s.state == SessionState::Active && spec_timed_out(
                        s,
                        t,
                        old(self).config,
                    ))
                    &&& (r is Some ==> r == final(self).current)
                },
            final(self).wf(),
    {
        let cur = self.current.take();
        match cur {
            Some(mut session) => {
                let now = clock_now();
                let ended = session.check_timeouts(now, &self.config);
                let out = if ended {
                    Some(session.snapshot())
                } else {
                    None
                };
                self.current = Some(session);
                proof {
                    let s = old(self).current.unwrap();
                    assert(final(self).current == Some(
                        spec_check_timeouts(s, now, old(self).config),
                    ));
                }
                out
            },
            None => {
                self.current = None;
                None
            },
        }
    }

    /// Session summary for display, with a live duration for active
    /// sessions.
    pub fn get_session_info(&self) -> (r: Option<SessionInfo>)
        requires
            self.wf(),
        ensures
            r is Some <==> self.current is Some,
            r is Some ==> {
                let s = self.current.unwrap();
                let info = r.unwrap();
                &&& info.note_path == s.note_path
                &&& info.state == s.state
                &&& info.annotation_count == s.annotation_count
                &&& info.started_at == s.started_at
                &&& info.ended_at == s.ended_at
                &&& (s.state == SessionState::Ended ==> info.duration_minutes
                    == s.duration_minutes)
                &&& (s.state == SessionState::Inactive ==> info.duration_minutes == 0)
                &&& (s.state == SessionState::Active ==> exists|t: i64|
                    t >= 0 && info.duration_minutes == #[trigger] clamped_minutes(
                        s.started_at.unwrap(),
                        t,
                    ))
            },
    {
        match &self.current {
            Some(s) => {
                let now = clock_now();
                Some(
                    SessionInfo {
                        note_path: s.note_path.clone(),
                        state: s.state,
                        duration_minutes: s.current_duration_minutes(now),
                        annotation_count: s.annotation_count,
                        started_at: s.started_at,
                        ended_at: s.ended_at,
                    },
                )
            },
            None => None,
        }
    }
}

impl Default for SessionManager {
    fn default() -> (m: Self)
        ensures
            m.current is None,
            m.config.inactivity_timeout_minutes == 15,
            m.config.max_duration_minutes == 120,
    {
        SessionManager::new(SessionConfig::default())
    }
}

/// A zero-minute inactivity timeout ends an active session at the very
/// next timeout check, provided the clock has not gone backwards since the
/// last edit.
pub proof fn lemma_zero_inactivity_times_out(s: Session, now: i64, config: SessionConfig)
    requires
        s.wf(),
        s.state == SessionState::Active,
        config.inactivity_timeout_minutes == 0,
        now >= s.last_edit_at.unwrap(),
    ensures
        spec_timed_out(s, now, config),
        spec_check_timeouts(s, now, config).state == SessionState::Ended,
{
}

/// An edit on an inactive session followed immediately by an end yields an
/// ended session of zero minutes; one further edit is then a single
/// annotation and the session stays ended.
pub proof fn lemma_edit_then_end(s: Session, now: i64)
    requires
        s.wf(),
        s.state == SessionState::Inactive,
        now >= 0,
    ensures
        ({
            let ended = spec_end(spec_record_edit(s, now), now);
            &&& ended.state == SessionState::Ended
            &&& ended.duration_minutes == 0
            &&& spec_record_edit(ended, now).annotation_count == 1
            &&& spec_record_edit(ended, now).state == SessionState::Ended
        }),
{
    let started = spec_record_edit(s, now);
    assert(started.state == SessionState::Active);
    assert(minutes_between(now, now) == 0);
}

} // verus!
