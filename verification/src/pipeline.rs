//! Agent pipeline orchestrator: a fixed ordered set of named stages with a
//! partial-failure policy.  A failure of the very first stage aborts the
//! pipeline; every later stage runs regardless of prior non-first
//! failures, and the pipeline's outcome is the result of the last stage
//! attempted.
//!
//! The unverified shell runs one stage at a time (reading the stage's
//! prompt template and invoking the task runner) and consults
//! `should_continue` between stages; `pipeline_report` turns the attempted
//! stages' outcomes into the per-stage statuses and the overall outcome.

use vstd::prelude::*;
use vstd::string::StringExecFns;

use crate::task::seq_views;

verus! {

/// Terminal status of one pipeline stage.
#[derive(Debug, Clone, PartialEq, Eq)]
pub enum StageStatus {
    /// The stage ran and succeeded.
    Succeeded,
    /// The stage ran and failed with this error.
    Failed(String),
    /// The stage was never attempted.
    Skipped,
}

/// Per-stage statuses under the partial-failure policy: if the first
/// stage failed, every later stage is skipped; otherwise each stage's own
/// outcome stands.
pub open spec fn spec_stage_statuses(outcomes: Seq<Result<(), String>>) -> Seq<StageStatus> {
    if outcomes.len() >= 1 && outcomes[0] is Err {
        seq![StageStatus::Failed(outcomes[0]->Err_0)] + Seq::new(
            (outcomes.len() - 1) as nat,
            |i: int| StageStatus::Skipped,
        )
    } else {
        Seq::new(
            outcomes.len(),
            |i: int|
                match outcomes[i] {
                    Ok(_) => StageStatus::Succeeded,
                    Err(e) => StageStatus::Failed(e),
                },
        )
    }
}

/// Overall pipeline outcome: the first stage's error when it failed, else
/// the outcome of the last stage.
pub open spec fn spec_pipeline_outcome(outcomes: Seq<Result<(), String>>) -> Result<(), String> {
    if outcomes[0] is Err {
        outcomes[0]
    } else {
        outcomes[outcomes.len() - 1]
    }
}

/// Whether the pipeline goes on after the stage at `stage_index` finished:
/// only a failure of the very first stage aborts it.
pub fn should_continue(stage_index: usize, failed: bool) -> (r: bool)
    ensures
        r == !(stage_index == 0 && failed),
{
    !(stage_index == 0 && failed)
}

/// Turn the attempted stages' outcomes into per-stage statuses and the
/// overall outcome.  `outcomes` holds one entry per stage of the fixed
/// pipeline; entries after a first-stage failure are never consulted.
pub fn pipeline_report(outcomes: &Vec<Result<(), String>>) -> (r: (Vec<StageStatus>, Result<
    (),
    String,
>))
    requires
        outcomes@.len() >= 1,
    ensures
        r.0@ == spec_stage_statuses(outcomes@),
        r.1 == spec_pipeline_outcome(outcomes@),
{
    let n = outcomes.len();
    let mut statuses: Vec<StageStatus> = Vec::new();
    if let Err(e) = &outcomes[0] {
        statuses.push(StageStatus::Failed(e.clone()));
        let mut i: usize = 1;
        while i < n
            invariant
                1 <= i <= n,
                statuses@.len() == i,
                statuses@[0] == StageStatus::Failed(outcomes@[0]->Err_0),
                outcomes@[0] is Err,
                forall|j: int| 1 <= j < i ==> statuses@[j] == StageStatus::Skipped,
            decreases n - i,
        {
            statuses.push(StageStatus::Skipped);
            i = i + 1;
        }
        proof {
            assert(statuses@ =~= spec_stage_statuses(outcomes@));
        }
        return (statuses, Err(e.clone()));
    }
    let mut i: usize = 0;
    while i < n
        invariant
            i <= n,
            n == outcomes@.len(),
            outcomes@[0] is Ok,
            statuses@.len() == i,
            forall|j: int|
                0 <= j < i ==> statuses@[j] == (match outcomes@[j] {
                    Ok(_) => StageStatus::Succeeded,
                    Err(e) => StageStatus::Failed(e),
                }),
        decreases n - i,
    {
        match &outcomes[i] {
            Ok(_) => {
                statuses.push(StageStatus::Succeeded);
            },
            Err(e) => {
                statuses.push(StageStatus::Failed(e.clone()));
            },
        }
        i = i + 1;
    }
    proof {
        assert(statuses@ =~= spec_stage_statuses(outcomes@));
    }
    let overall: Result<(), String> = match &outcomes[n - 1] {
        Ok(_) => Ok(()),
        Err(e) => Err(e.clone()),
    };
    proof {
        match outcomes@[n - 1] {
            Ok(u) => {
                assert(overall == Ok::<(), String>(u));
            },
            Err(_) => {},
        }
        assert(overall == outcomes@[n - 1]);
    }
    (statuses, overall)
}

/// A failure of the first stage is fatal: no later stage is attempted and
/// the pipeline reports the first stage's own error.
pub proof fn lemma_first_stage_fatal(outcomes: Seq<Result<(), String>>)
    requires
        outcomes.len() >= 1,
        outcomes[0] is Err,
    ensures
        forall|i: int|
            1 <= i < outcomes.len() ==> #[trigger] spec_stage_statuses(outcomes)[i]
                == StageStatus::Skipped,
        spec_pipeline_outcome(outcomes) == outcomes[0],
{
}

/// A failure after the first stage is not fatal: when the first stage
/// succeeded, every later stage is attempted, whatever failed in between.
pub proof fn lemma_later_failure_not_fatal(outcomes: Seq<Result<(), String>>)
    requires
        outcomes.len() >= 1,
        outcomes[0] is Ok,
    ensures
        forall|i: int|
            0 <= i < outcomes.len() ==> #[trigger] spec_stage_statuses(outcomes)[i]
                != StageStatus::Skipped,
        spec_pipeline_outcome(outcomes) == outcomes[outcomes.len() - 1],
{
    assert forall|i: int| 0 <= i < outcomes.len() implies #[trigger] spec_stage_statuses(
        outcomes,
    )[i] != StageStatus::Skipped by {
        match outcomes[i] {
            Ok(_) => {},
            Err(e) => {},
        }
    }
}

/// The names of the fixed background-agent stages, in their run order.
pub fn agent_stages() -> (r: Vec<String>)
    ensures
        seq_views(r@) == seq!["tagger"@, "actions"@, "context-updater"@],
{
    let mut stages: Vec<String> = Vec::new();
    stages.push("tagger".to_owned());
    stages.push("actions".to_owned());
    stages.push("context-updater".to_owned());
    proof {
        assert(seq_views(stages@) =~= seq!["tagger"@, "actions"@, "context-updater"@]);
    }
    stages
}

/// The step budget passed to each background-agent stage.
pub fn agent_stage_budget() -> (r: u32)
    ensures
        r == 15,
{
    15
}

/// The step budget passed to a note-processing task.
pub fn process_stage_budget() -> (r: u32)
    ensures
        r == 10,
{
    10
}

/// The workspace-relative path of a named stage's prompt template.
pub fn prompt_relpath(agent_name: &str) -> (r: String)
    ensures
        r@ == ".chronicle/prompts/"@ + agent_name@ + ".md"@,
{
    let mut s = ".chronicle/prompts/".to_owned();
    s.append(agent_name);
    s.append(".md");
    s
}

/// The full prompt for processing one note: the workspace's template
/// followed by the note reference.
pub fn process_prompt(template: &str, note_path: &str) -> (r: String)
    ensures
        r@ == template@ + "\n\nProcess this note: "@ + note_path@,
{
    let mut s = template.to_owned();
    s.append("\n\nProcess this note: ");
    s.append(note_path);
    s
}

} // verus!
