use chronicle_core::bridge::{classify_change, event_name, NotificationKind, TaskEvent, WatchKind};
use chronicle_core::bridge::task_event_sequence;
use chronicle_core::pipeline::{
    agent_stages, agent_stage_budget, pipeline_report, process_prompt, process_stage_budget,
    prompt_relpath, should_continue, StageStatus,
};
use chronicle_core::task::{
    classify_spawn_error, tool_task, finish_task, join_lines, task_error_message, TaskError,
};

#[test]
fn test_tool_task_arguments() {
    let t = tool_task("agent", "/ws", "hello", Some(10));
    assert_eq!(t.command, "agent");
    assert_eq!(t.working_dir, "/ws");
    assert_eq!(
        t.args,
        vec![
            "-p",
            "hello",
            "--output-format",
            "text",
            "--allowedTools",
            "Read,Write,Edit,Glob,Grep",
            "--max-turns",
            "10",
        ]
    );
}

#[test]
fn test_tool_task_without_budget() {
    let t = tool_task("agent", "/ws", "p", None);
    assert_eq!(t.args.len(), 6);
    assert!(!t.args.contains(&"--max-turns".to_string()));
}

#[test]
fn test_missing_binary_is_classified_distinctly() {
    let e = classify_spawn_error(true, "No such file or directory (os error 2)");
    assert_eq!(e, TaskError::ToolNotInstalled);
    assert_eq!(
        task_error_message(&e),
        "The agent tool is not installed. Install it and try again."
    );
}

#[test]
fn test_other_spawn_failure_keeps_os_message() {
    let e = classify_spawn_error(false, "Permission denied (os error 13)");
    assert_eq!(e, TaskError::SpawnFailed("Permission denied (os error 13)".to_string()));
    assert_eq!(
        task_error_message(&e),
        "Failed to start the agent tool: Permission denied (os error 13)"
    );
    let not_installed = task_error_message(&TaskError::ToolNotInstalled);
    assert_ne!(task_error_message(&e), not_installed);
}

#[test]
fn test_join_lines() {
    assert_eq!(join_lines(&vec![]), "");
    assert_eq!(join_lines(&vec!["a".to_string()]), "a");
    assert_eq!(join_lines(&vec!["a".to_string(), "b".to_string(), "c".to_string()]), "a\nb\nc");
    assert_eq!(join_lines(&vec!["".to_string(), "".to_string()]), "\n");
}

#[test]
fn test_success_is_independent_of_stderr() {
    let out = vec!["done".to_string()];
    let err = vec!["warning: slow".to_string()];
    let r = finish_task(true, &out, &err, 42);
    assert!(r.success);
    assert_eq!(r.error, Some("warning: slow".to_string()));
    assert_eq!(r.output, "done");
    assert_eq!(r.duration_ms, 42);
}

#[test]
fn test_empty_stderr_yields_no_error() {
    let r = finish_task(false, &vec!["x".to_string()], &vec![], 7);
    assert!(!r.success);
    assert_eq!(r.error, None);
}

#[test]
fn test_task_event_order() {
    let lines = vec!["a".to_string(), "b".to_string(), "c".to_string()];
    let evs = task_event_sequence(&lines, true, "");
    assert_eq!(evs.len(), 5);
    assert!(matches!(evs[0], TaskEvent::Started));
    match (&evs[1], &evs[2], &evs[3]) {
        (
            TaskEvent::OutputLine { line: l1, is_stderr: s1 },
            TaskEvent::OutputLine { line: l2, is_stderr: s2 },
            TaskEvent::OutputLine { line: l3, is_stderr: s3 },
        ) => {
            assert_eq!((l1.as_str(), l2.as_str(), l3.as_str()), ("a", "b", "c"));
            assert!(!s1 && !s2 && !s3);
        }
        _ => panic!("line events out of order"),
    }
    assert!(matches!(evs[4], TaskEvent::Completed));

    let failed = task_event_sequence(&lines, false, "boom");
    match &failed[4] {
        TaskEvent::Failed { message } => assert_eq!(message, "boom"),
        _ => panic!("terminal event missing"),
    }
}

#[test]
fn test_event_names_are_one_to_one() {
    let kinds = [
        NotificationKind::TaskStarted,
        NotificationKind::TaskOutput,
        NotificationKind::TaskCompleted,
        NotificationKind::TaskError,
        NotificationKind::AgentsStarted,
        NotificationKind::AgentsCompleted,
        NotificationKind::TagsUpdated,
        NotificationKind::ActionsUpdated,
        NotificationKind::LinksUpdated,
        NotificationKind::ProcessedUpdated,
    ];
    assert_eq!(event_name(NotificationKind::TaskStarted), "agent:task-started");
    assert_eq!(event_name(NotificationKind::TaskOutput), "agent:output-line");
    assert_eq!(event_name(NotificationKind::TaskCompleted), "agent:task-completed");
    assert_eq!(event_name(NotificationKind::TaskError), "agent:task-error");
    assert_eq!(event_name(NotificationKind::AgentsStarted), "agent:agents-started");
    assert_eq!(event_name(NotificationKind::AgentsCompleted), "agent:agents-completed");
    assert_eq!(event_name(NotificationKind::TagsUpdated), "chronicle:tags-updated");
    assert_eq!(event_name(NotificationKind::ActionsUpdated), "chronicle:actions-updated");
    assert_eq!(event_name(NotificationKind::LinksUpdated), "chronicle:links-updated");
    assert_eq!(event_name(NotificationKind::ProcessedUpdated), "chronicle:processed-updated");
    for a in kinds.iter() {
        for b in kinds.iter() {
            if a != b {
                assert_ne!(event_name(*a), event_name(*b));
            }
        }
    }
}

#[test]
fn test_tags_index_write_classifies_once() {
    // one OS event in, exactly one tags notification out
    assert_eq!(
        classify_change(WatchKind::Modify, "tags.json", false),
        Some(NotificationKind::TagsUpdated)
    );
    assert_eq!(
        classify_change(WatchKind::Create, "tags.json", true),
        Some(NotificationKind::TagsUpdated)
    );
    // no cross-wiring to a different index's event
    assert_eq!(
        classify_change(WatchKind::Modify, "actions.json", false),
        Some(NotificationKind::ActionsUpdated)
    );
    assert_eq!(
        classify_change(WatchKind::Modify, "links.json", false),
        Some(NotificationKind::LinksUpdated)
    );
    // other kinds and other files are ignored
    assert_eq!(classify_change(WatchKind::Other, "tags.json", false), None);
    assert_eq!(classify_change(WatchKind::Modify, "notes.md", false), None);
    assert_eq!(
        classify_change(WatchKind::Modify, "notes.json", true),
        Some(NotificationKind::ProcessedUpdated)
    );
}

#[test]
fn test_first_stage_failure_is_fatal() {
    let outcomes: Vec<Result<(), String>> =
        vec![Err("tagger broke".to_string()), Ok(()), Ok(())];
    let (statuses, overall) = pipeline_report(&outcomes);
    assert_eq!(statuses[0], StageStatus::Failed("tagger broke".to_string()));
    assert_eq!(statuses[1], StageStatus::Skipped);
    assert_eq!(statuses[2], StageStatus::Skipped);
    assert_eq!(overall, Err("tagger broke".to_string()));
    assert!(!should_continue(0, true));
}

#[test]
fn test_later_stage_failure_is_not_fatal() {
    let outcomes: Vec<Result<(), String>> =
        vec![Ok(()), Err("actions broke".to_string()), Ok(())];
    let (statuses, overall) = pipeline_report(&outcomes);
    assert_eq!(statuses[0], StageStatus::Succeeded);
    assert_eq!(statuses[1], StageStatus::Failed("actions broke".to_string()));
    assert_eq!(statuses[2], StageStatus::Succeeded);
    assert_eq!(overall, Ok(()));
    assert!(should_continue(1, true));
    assert!(should_continue(0, false));
}

#[test]
fn test_pipeline_outcome_is_last_attempted() {
    let outcomes: Vec<Result<(), String>> = vec![Ok(()), Ok(()), Err("ctx broke".to_string())];
    let (_, overall) = pipeline_report(&outcomes);
    assert_eq!(overall, Err("ctx broke".to_string()));
}

#[test]
fn test_agent_stage_list_and_budgets() {
    assert_eq!(agent_stages(), vec!["tagger", "actions", "context-updater"]);
    assert_eq!(agent_stage_budget(), 15);
    assert_eq!(process_stage_budget(), 10);
    assert_eq!(prompt_relpath("tagger"), ".chronicle/prompts/tagger.md");
    assert_eq!(
        process_prompt("Do the thing.", "notes/a.md"),
        "Do the thing.\n\nProcess this note: notes/a.md"
    );
}
