//! Event notification bridge: the closed vocabulary of outbound
//! notification names, the classifier that maps filesystem changes onto
//! it, and the canonical per-task notification order.
//!
//! Delivery is best-effort and at-most-once: the unverified shell emits
//! each event exactly once and drops it if nobody subscribes.

use vstd::prelude::*;

use crate::text::str_eq;

verus! {

/// The closed set of outbound notification kinds.
#[derive(Debug, Clone, Copy, PartialEq, Eq, Structural)]
pub enum NotificationKind {
    /// A task began running.
    TaskStarted,
    /// A task produced one live output line.
    TaskOutput,
    /// A task finished successfully.
    TaskCompleted,
    /// A task failed.
    TaskError,
    /// A pipeline of background agents began.
    AgentsStarted,
    /// A pipeline of background agents finished.
    AgentsCompleted,
    /// The tags index file changed.
    TagsUpdated,
    /// The actions index file changed.
    ActionsUpdated,
    /// The links index file changed.
    LinksUpdated,
    /// A file under the processed-notes directory changed.
    ProcessedUpdated,
}

/// The wire name of each notification kind.
pub open spec fn spec_event_name(kind: NotificationKind) -> Seq<char> {
    match kind {
        NotificationKind::TaskStarted => "agent:task-started"@,
        NotificationKind::TaskOutput => "agent:output-line"@,
        NotificationKind::TaskCompleted => "agent:task-completed"@,
        NotificationKind::TaskError => "agent:task-error"@,
        NotificationKind::AgentsStarted => "agent:agents-started"@,
        NotificationKind::AgentsCompleted => "agent:agents-completed"@,
        NotificationKind::TagsUpdated => "chronicle:tags-updated"@,
        NotificationKind::ActionsUpdated => "chronicle:actions-updated"@,
        NotificationKind::LinksUpdated => "chronicle:links-updated"@,
        NotificationKind::ProcessedUpdated => "chronicle:processed-updated"@,
    }
}

/// The wire name of a notification kind.
pub fn event_name(kind: NotificationKind) -> (r: &'static str)
    ensures
        r@ == spec_event_name(kind),
{
    match kind {
        NotificationKind::TaskStarted => "agent:task-started",
        NotificationKind::TaskOutput => "agent:output-line",
        NotificationKind::TaskCompleted => "agent:task-completed",
        NotificationKind::TaskError => "agent:task-error",
        NotificationKind::AgentsStarted => "agent:agents-started",
        NotificationKind::AgentsCompleted => "agent:agents-completed",
        NotificationKind::TagsUpdated => "chronicle:tags-updated",
        NotificationKind::ActionsUpdated => "chronicle:actions-updated",
        NotificationKind::LinksUpdated => "chronicle:links-updated",
        NotificationKind::ProcessedUpdated => "chronicle:processed-updated",
    }
}

/// The mapping from notification kinds to wire names is one-to-one:
/// distinct kinds never share a name.
pub proof fn lemma_event_names_distinct(a: NotificationKind, b: NotificationKind)
    requires
        a != b,
    ensures
        spec_event_name(a) != spec_event_name(b),
{
    reveal_strlit("agent:task-started");
    reveal_strlit("agent:output-line");
    reveal_strlit("agent:task-completed");
    reveal_strlit("agent:task-error");
    reveal_strlit("agent:agents-started");
    reveal_strlit("agent:agents-completed");
    reveal_strlit("chronicle:tags-updated");
    reveal_strlit("chronicle:actions-updated");
    reveal_strlit("chronicle:links-updated");
    reveal_strlit("chronicle:processed-updated");
    assert(spec_event_name(NotificationKind::TaskStarted).len() == 18);
    assert(spec_event_name(NotificationKind::TaskOutput).len() == 17);
    assert(spec_event_name(NotificationKind::TaskCompleted).len() == 20);
    assert(spec_event_name(NotificationKind::TaskError).len() == 16);
    assert(spec_event_name(NotificationKind::AgentsStarted).len() == 20);
    assert(spec_event_name(NotificationKind::AgentsCompleted).len() == 22);
    assert(spec_event_name(NotificationKind::TagsUpdated).len() == 22);
    assert(spec_event_name(NotificationKind::ActionsUpdated).len() == 25);
    assert(spec_event_name(NotificationKind::LinksUpdated).len() == 23);
    assert(spec_event_name(NotificationKind::ProcessedUpdated).len() == 27);
    assert(spec_event_name(NotificationKind::TaskCompleted)[6]
        != spec_event_name(NotificationKind::AgentsStarted)[6]);
    assert(spec_event_name(NotificationKind::AgentsCompleted)[0]
        != spec_event_name(NotificationKind::TagsUpdated)[0]);
}

/// The kinds of filesystem change the observer reacts to.
#[derive(Debug, Clone, Copy, PartialEq, Eq, Structural)]
pub enum WatchKind {
    /// A file or directory was created.
    Create,
    /// A file or directory was modified.
    Modify,
    /// Anything else the watch backend reports.
    Other,
}

/// Classification of one observed change: creations and modifications of
/// the three named index files map to their own notification; any other
/// change under the processed-notes directory maps to the generic
/// processed-output notification; everything else is ignored.
pub open spec fn spec_classify_change(
    kind: WatchKind,
    filename: Seq<char>,
    in_processed_dir: bool,
) -> Option<NotificationKind> {
    if kind != WatchKind::Create && kind != WatchKind::Modify {
        None
    } else if filename == "tags.json"@ {
        Some(NotificationKind::TagsUpdated)
    } else if filename == "actions.json"@ {
        Some(NotificationKind::ActionsUpdated)
    } else if filename == "links.json"@ {
        Some(NotificationKind::LinksUpdated)
    } else if in_processed_dir {
        Some(NotificationKind::ProcessedUpdated)
    } else {
        None
    }
}

/// Classify one observed filesystem change.  Every observed event is
/// classified independently: notifications are neither deduplicated nor
/// coalesced.
pub fn classify_change(kind: WatchKind, filename: &str, in_processed_dir: bool) -> (r: Option<
    NotificationKind,
>)
    ensures
        r == spec_classify_change(kind, filename@, in_processed_dir),
{
    if kind != WatchKind::Create && kind != WatchKind::Modify {
        None
    } else if str_eq(filename, "tags.json") {
        Some(NotificationKind::TagsUpdated)
    } else if str_eq(filename, "actions.json") {
        Some(NotificationKind::ActionsUpdated)
    } else if str_eq(filename, "links.json") {
        Some(NotificationKind::LinksUpdated)
    } else if in_processed_dir {
        Some(NotificationKind::ProcessedUpdated)
    } else {
        None
    }
}

/// A change to the exact tags index file yields the tags notification and
/// nothing else; no other filename is ever cross-wired to it.
pub proof fn lemma_tags_index_classification(
    kind: WatchKind,
    filename: Seq<char>,
    in_processed_dir: bool,
)
    ensures
        (kind == WatchKind::Create || kind == WatchKind::Modify) && filename == "tags.json"@
            ==> spec_classify_change(kind, filename, in_processed_dir) == Some(
            NotificationKind::TagsUpdated,
        ),
        spec_classify_change(kind, filename, in_processed_dir) == Some(
            NotificationKind::TagsUpdated,
        ) ==> filename == "tags.json"@,
{
}

/// One event in a task's outbound notification sequence.
#[derive(Debug, Clone)]
pub enum TaskEvent {
    /// The task began.
    Started,
    /// One live output line, tagged with its stream origin.
    OutputLine { line: String, is_stderr: bool },
    /// The task finished successfully.
    Completed,
    /// The task failed.
    Failed { message: String },
}

/// The notification sequence owed for a task that produced the given
/// standard-output lines and then ended: `Started` strictly first, the
/// lines in their original relative order, the terminal event strictly
/// last.
pub fn task_event_sequence(stdout_lines: &Vec<String>, succeeded: bool, error_message: &str) -> (evs:
    Vec<TaskEvent>)
    ensures
        evs@.len() == stdout_lines@.len() + 2,
        evs@[0] == TaskEvent::Started,
        forall|i: int|
            0 <= i < stdout_lines@.len() ==> (#[trigger] evs@[i + 1] matches TaskEvent::OutputLine {
                line,
                is_stderr,
            } && line@ == stdout_lines@[i]@ && !is_stderr),
        succeeded ==> evs@[evs@.len() - 1] == TaskEvent::Completed,
        !succeeded ==> (evs@[evs@.len() - 1] matches TaskEvent::Failed { message } && message@
            == error_message@),
{
    let mut evs: Vec<TaskEvent> = Vec::new();
    evs.push(TaskEvent::Started);
    let mut i: usize = 0;
    while i < stdout_lines.len()
        invariant
            i <= stdout_lines@.len(),
            evs@.len() == i + 1,
            evs@[0] == TaskEvent::Started,
            forall|j: int|
                0 <= j < i ==> (#[trigger] evs@[j + 1] matches TaskEvent::OutputLine {
                    line,
                    is_stderr,
                } && line@ == stdout_lines@[j]@ && !is_stderr),
        decreases stdout_lines@.len() - i,
    {
        evs.push(TaskEvent::OutputLine { line: stdout_lines[i].clone(), is_stderr: false });
        i = i + 1;
    }
    if succeeded {
        evs.push(TaskEvent::Completed);
    } else {
        evs.push(TaskEvent::Failed { message: error_message.to_owned() });
    }
    evs
}

} // verus!
