use chronicle_core::chronicle::{
    chronicle_default_json, chronicle_index_files, chronicle_subdirs, command_description,
    custom_command_prompt, digest_output_filename, digest_range, digest_title, first_heading,
    replace_placeholders, substitute_param,
};
use chronicle_core::metadata::{session_from_meta, session_to_meta, NoteMeta, SessionMeta};
use chronicle_core::naming::{extract_title, generate_filename, generate_slug, suggest_path};
use chronicle_core::paths::{
    get_meta_path, is_hidden, is_markdown_file, join_path, path_file_name, path_parent,
    validate_workspace_path, workspace_relative,
};
use chronicle_core::session::{Session, SessionState};

#[test]
fn test_extract_title() {
    assert_eq!(extract_title("# Hello World\n\nContent"), Some("Hello World".to_string()));
    assert_eq!(extract_title("## Not H1\n# This is H1"), Some("This is H1".to_string()));
    assert_eq!(extract_title("No heading here"), None);
    assert_eq!(extract_title("#NoSpace"), None);
}

#[test]
fn test_generate_slug() {
    assert_eq!(generate_slug("Hello World"), "hello-world");
    assert_eq!(generate_slug("Test  Multiple   Spaces"), "test-multiple-spaces");
    assert_eq!(generate_slug("Special!@#$%Characters"), "special-characters");
    assert_eq!(generate_slug("---Leading and Trailing---"), "leading-and-trailing");
}

#[test]
fn test_generate_filename() {
    let filename = generate_filename("2024-12-13", "My Note Title");
    assert!(filename.ends_with("-my-note-title.md"));
    assert!(filename.starts_with("20")); // Starts with year
    assert_eq!(filename, "2024-12-13-my-note-title.md");
    assert_eq!(generate_filename("2024-12-13", "!!!"), "2024-12-13-untitled.md");
}

#[test]
fn test_meta_path() {
    let meta_path = get_meta_path("/workspace/2024-12-13-test.md");
    assert_eq!(meta_path, "/workspace/.meta/2024-12-13-test.json");
}

#[test]
fn test_suggest_path() {
    assert_eq!(
        suggest_path("/w/old.md", "# New Title\n\nBody", "2024-12-13"),
        Some("/w/2024-12-13-new-title.md".to_string())
    );
    assert_eq!(suggest_path("/w/2024-12-13-new-title.md", "# New Title", "2024-12-13"), None);
    assert_eq!(suggest_path("/w/old.md", "no heading", "2024-12-13"), None);
}

#[test]
fn test_generate_unique_path() {
    let dir = tempfile::tempdir().unwrap();
    let ws = dir.path().to_str().unwrap();
    let p = chronicle_core::naming::generate_unique_path(ws, "# My Note", "2024-12-13", "093000");
    assert_eq!(p, format!("{}/2024-12-13-my-note.md", ws));
    let q = chronicle_core::naming::generate_unique_path(ws, "no heading", "2024-12-13", "093000");
    assert_eq!(q, format!("{}/2024-12-13-untitled.md", ws));
}

#[test]
fn test_traversal_rejected() {
    // the canonical form of a traversal out of the workspace
    assert!(validate_workspace_path("/workspace", "/etc/passwd").is_err());
}

#[test]
fn test_resolve_rename_target() {
    let dir = tempfile::tempdir().unwrap();
    let old = format!("{}/a.md", dir.path().to_str().unwrap());
    let new = format!("{}/b.md", dir.path().to_str().unwrap());
    // renaming a path onto itself is a no-op
    assert_eq!(
        chronicle_core::naming::resolve_rename_target(&old, &old),
        Ok(old.clone())
    );
    // a free destination is used as given
    assert_eq!(chronicle_core::naming::resolve_rename_target(&old, &new), Ok(new));
}

#[test]
fn test_absolute_path_outside_workspace_rejected() {
    assert!(validate_workspace_path("/workspace", "/tmp/evil.md").is_err());
}

#[test]
fn test_valid_path_within_workspace() {
    assert_eq!(
        validate_workspace_path("/workspace", "/workspace/test.md"),
        Ok("/workspace/test.md".to_string())
    );
}

#[test]
fn test_subdirectory_path_accepted() {
    assert!(validate_workspace_path("/workspace", "/workspace/notes/meeting.md").is_ok());
}

#[test]
fn test_sibling_prefix_rejected() {
    // a sibling directory sharing a name prefix is not inside the workspace
    assert!(validate_workspace_path("/workspace", "/workspace2/evil.md").is_err());
}

#[test]
fn test_path_helpers() {
    assert_eq!(path_file_name("/a/b/c.md"), "c.md");
    assert_eq!(path_file_name("c.md"), "c.md");
    assert_eq!(path_parent("/a/b/c.md"), "/a/b");
    assert_eq!(path_parent("/c.md"), "/");
    assert_eq!(path_parent("c.md"), "");
    assert_eq!(join_path("/a", "b.md"), "/a/b.md");
    assert_eq!(join_path("/a/", "b.md"), "/a/b.md");
    assert_eq!(join_path("", "b.md"), "b.md");
    assert!(is_hidden(".meta"));
    assert!(!is_hidden("meta"));
    assert!(is_markdown_file("/w/note.md"));
    assert!(is_markdown_file("/w/note.MD"));
    assert!(!is_markdown_file("/w/note.txt"));
    assert!(!is_markdown_file("/w/.md"));
    assert_eq!(workspace_relative("/w/notes/a.md", "/w"), "notes/a.md");
    assert_eq!(workspace_relative("elsewhere/a.md", "/w"), "elsewhere/a.md");
}

#[test]
fn test_note_meta_new() {
    let m = NoteMeta::new("/w/test-note.md", 1_000, "20241213093000");
    assert_eq!(m.version, 1);
    assert_eq!(m.file.name, "test-note.md");
    assert_eq!(m.id, "test-note-20241213093000");
    assert_eq!(m.file.created_at, 1_000);
    assert_eq!(m.file.updated_at, 1_000);
    assert!(m.session.is_none());
}

#[test]
fn test_note_meta_updates() {
    let mut m = NoteMeta::new("/w/a.md", 0, "x");
    m.update_file(9_000);
    assert_eq!(m.file.updated_at, 9_000);
    assert_eq!(m.file.created_at, 0);
    m.set_session(SessionMeta {
        started_at: 0,
        ended_at: Some(60_000),
        duration_minutes: 1,
        annotation_count: 0,
        last_annotation_at: None,
    });
    assert!(m.session.is_some());
    assert_eq!(m.session.unwrap().duration_minutes, 1);
}

#[test]
fn test_session_meta_round_trip() {
    let s = Session::from_ended("a.md".to_string(), 0, 900_000, 15, 2, Some(950_000));
    let meta = session_to_meta(&s).unwrap();
    assert_eq!(meta.started_at, 0);
    assert_eq!(meta.ended_at, Some(900_000));
    assert_eq!(meta.duration_minutes, 15);
    assert_eq!(meta.annotation_count, 2);
    let restored = session_from_meta("a.md".to_string(), &meta);
    assert_eq!(restored.state, SessionState::Ended);
    assert_eq!(restored.duration_minutes, 15);
    assert_eq!(restored.annotation_count, 2);

    let unfinished = Session::new("b.md".to_string());
    assert!(session_to_meta(&unfinished).is_none());
}

#[test]
fn test_digest_range_selection() {
    let today = "2026-02-22";
    let week = "2026-02-15";
    let month = "2026-01-23";
    assert_eq!(
        digest_range("daily", today, week, month, None, None),
        Ok((today.to_string(), today.to_string()))
    );
    assert_eq!(
        digest_range("weekly", today, week, month, None, None),
        Ok((week.to_string(), today.to_string()))
    );
    assert_eq!(
        digest_range("monthly", today, week, month, None, None),
        Ok((month.to_string(), today.to_string()))
    );
    assert_eq!(
        digest_range(
            "custom",
            today,
            week,
            month,
            Some("2026-01-01".to_string()),
            None
        ),
        Ok(("2026-01-01".to_string(), today.to_string()))
    );
    assert_eq!(
        digest_range("yearly", today, week, month, None, None),
        Err("Unknown range: yearly".to_string())
    );
}

#[test]
fn test_digest_prompt_pieces() {
    assert_eq!(digest_output_filename("2026-02-22", "daily"), "2026-02-22-daily.md");
    assert_eq!(digest_title("# February Recap\n...", "x.md"), "February Recap");
    assert_eq!(digest_title("no heading", "x.md"), "x.md");
    assert_eq!(first_heading("intro\n# Late Heading\n"), Some("Late Heading".to_string()));
    assert_eq!(first_heading(" # indented is not a heading"), None);
}

#[test]
fn test_placeholder_substitution() {
    assert_eq!(
        replace_placeholders("# {{title}}\nDate: {{date}}\n", "February 22, 2026"),
        "# New Note\nDate: February 22, 2026\n"
    );
    assert_eq!(
        substitute_param("Prep for {{person}} and {{person}}", "person", "Sam"),
        "Prep for Sam and Sam"
    );
    assert_eq!(
        custom_command_prompt("/w", "body"),
        "Working directory: /w\n\nbody"
    );
}

#[test]
fn test_command_description_parsing() {
    let content = "# Weekly Review\n\nGenerate a summary of this week's notes.\n\nMore text.";
    assert_eq!(command_description(content), "Generate a summary of this week's notes.");
    assert_eq!(command_description("# Only Heading\n\n"), "");
}

#[test]
fn test_chronicle_layout() {
    assert_eq!(
        chronicle_subdirs(),
        vec!["prompts", "processed", "digests", "templates", "entities", "commands"]
    );
    let index = chronicle_index_files();
    assert_eq!(index.len(), 5);
    assert_eq!(index[0], ("tags.json".to_string(), "{}".to_string()));
    assert_eq!(index[1], ("actions.json".to_string(), "[]".to_string()));
    assert_eq!(chronicle_default_json("actions.json"), "[]");
    assert_eq!(chronicle_default_json("tags.json"), "{}");
}
