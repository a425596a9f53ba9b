use chronicle_core::chronicle::{command_params, template_meta};
use chronicle_core::search::{line_matches, search_lines, split_lines};

#[test]
fn test_split_lines() {
    assert_eq!(split_lines(""), Vec::<String>::new());
    assert_eq!(split_lines("a\nb\nc"), vec!["a", "b", "c"]);
    assert_eq!(split_lines("a\nb\n"), vec!["a", "b"]);
    assert_eq!(split_lines("a\r\nb"), vec!["a", "b"]);
    assert_eq!(split_lines("a\n\nb"), vec!["a", "", "b"]);
}

#[test]
fn test_line_matching_is_case_insensitive() {
    assert!(line_matches("Meeting with SARAH about the API", "sarah"));
    assert!(line_matches("plain line", "plain"));
    assert!(!line_matches("plain line", "absent"));
}

#[test]
fn test_search_lines() {
    let lines: Vec<String> = vec![
        "# Standup".to_string(),
        "Talked to Sarah about the API.".to_string(),
        "Next: review the sarah branch.".to_string(),
        "Unrelated note.".to_string(),
    ];
    let results = search_lines("notes/standup.md", "standup.md", &lines, "sarah", 50);
    assert_eq!(results.len(), 2);
    assert_eq!(results[0].line_number, 2);
    assert_eq!(results[0].file_path, "notes/standup.md");
    assert_eq!(results[0].file_name, "standup.md");
    assert_eq!(results[0].line_content, "Talked to Sarah about the API.");
    assert_eq!(results[0].context_before, "# Standup");
    assert_eq!(results[0].context_after, "Next: review the sarah branch.");
    assert_eq!(results[1].line_number, 3);
    assert_eq!(results[1].context_after, "Unrelated note.");
}

#[test]
fn test_search_respects_result_budget() {
    let lines: Vec<String> = vec!["x".to_string(); 10];
    let results = search_lines("a.md", "a.md", &lines, "x", 3);
    assert_eq!(results.len(), 3);
    assert_eq!(results[0].line_number, 1);
    assert_eq!(results[2].line_number, 3);
}

#[test]
fn test_search_clips_long_lines() {
    let long = format!("start {} needle", "x".repeat(300));
    let lines = vec![long];
    let results = search_lines("a.md", "a.md", &lines, "needle", 10);
    assert_eq!(results.len(), 1);
    assert_eq!(results[0].line_content.chars().count(), 203);
    assert!(results[0].line_content.ends_with("..."));
}

#[test]
fn test_template_meta() {
    assert_eq!(
        template_meta("blank.md"),
        ("Blank Note".to_string(), "Start with an empty note".to_string())
    );
    assert_eq!(
        template_meta("meeting.md"),
        ("Meeting".to_string(), "Agenda, notes, and action items".to_string())
    );
    assert_eq!(
        template_meta("one-on-one.md"),
        ("1:1".to_string(), "Updates, discussion, and feedback".to_string())
    );
    assert_eq!(
        template_meta("standup.md"),
        ("Standup".to_string(), "Yesterday, today, and blockers".to_string())
    );
    assert_eq!(
        template_meta("my_custom-template.md"),
        ("My Custom Template".to_string(), "My Custom Template template".to_string())
    );
}

#[test]
fn test_command_params() {
    let content = "Prep for {{person}}.\nRead notes about {{person}} from {{ date }}.";
    assert_eq!(command_params(content), vec!["person", "date"]);
    assert_eq!(command_params("no params here"), Vec::<String>::new());
    assert_eq!(command_params("dangling {{open"), Vec::<String>::new());
    assert_eq!(command_params("{{}} empty"), vec![""]);
}
