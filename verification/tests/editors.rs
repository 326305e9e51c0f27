use my_cli::editor::{extract_name_gid, Modified, TodoEditor, TodoId};
use my_cli::models::{FormattedProject, FormattedTodo, Language, Project, Todo};
use my_cli::projects_ui::ProjectEditor;

#[test]
fn name_and_gid_of_new_and_stored_todos() {
    let (name, gid) = extract_name_gid(&TodoId::New(3), "Groceries");
    assert_eq!(name, "New [3] - Groceries");
    assert_eq!(gid, "NEW-[3]");
    let (name, gid) = extract_name_gid(&TodoId::Stored(-12), "Fix bug");
    assert_eq!(name, "[-12] - Fix bug");
    assert_eq!(gid, "[-12]");
}

#[test]
fn gids_differ_between_distinct_ids() {
    let ids = [
        TodoId::New(1),
        TodoId::New(11),
        TodoId::Stored(1),
        TodoId::Stored(11),
        TodoId::New(-1),
        TodoId::Stored(-1),
    ];
    for (i, a) in ids.iter().enumerate() {
        for (j, b) in ids.iter().enumerate() {
            let (_, ga) = extract_name_gid(a, "t");
            let (_, gb) = extract_name_gid(b, "t");
            assert_eq!(i == j, ga == gb);
        }
    }
}

#[test]
fn new_editor_keeps_its_values_and_backups() {
    let e = TodoEditor::new("md", "T", "S", "C", TodoId::New(3), 5);
    assert_eq!(e.id, TodoId::New(3));
    assert_eq!(e.project_id, 5);
    assert_eq!(e.name(), "New [3] - T");
    assert_eq!(e.gid, "NEW-[3]");
    assert_eq!(e.language, "md");
    assert!(!e.modified);
    assert!(!e.is_modified());
}

#[test]
fn editor_renders_heading_and_markdown() {
    let e = TodoEditor::new("md", "T", "S", "C", TodoId::New(3), 5);
    assert_eq!(e.title_str(), "# T\n\n ## S");
    assert_eq!(e.to_display(), "# T\n\n ## S\n\nC");
}

#[test]
fn default_and_id_default_editors() {
    let d = TodoEditor::default();
    assert_eq!(d.id, TodoId::Stored(0));
    assert_eq!(d.title, "Default title");
    assert_eq!(d.subtitle, "Default Subtitle");
    assert!(d.code.starts_with("// A very simple"));
    assert!(d.modified);
    let e = TodoEditor::id_default(7);
    assert_eq!(e.id, TodoId::Stored(7));
    assert_eq!(e.name(), "[7] - Default title");
    assert_eq!(e.gid, "[7]");
    assert_eq!(e.code, d.code);
    assert!(!e.is_modified());
}

#[test]
fn reset_restores_and_replace_keeps_edits() {
    let mut e = TodoEditor::new("md", "T", "S", "C", TodoId::Stored(1), 1);
    e.title = "T2".to_string();
    e.code = "C2".to_string();
    assert!(e.is_modified());
    e.reset();
    assert!(!e.is_modified());
    assert_eq!(e.title, "T");
    assert_eq!(e.code, "C");
    e.subtitle = "S2".to_string();
    assert!(e.is_modified());
    e.replace();
    assert!(!e.is_modified());
    assert_eq!(e.subtitle, "S2");
    e.reset();
    assert_eq!(e.subtitle, "S2");
}

#[test]
fn saved_format_round_trips() {
    let f = FormattedTodo {
        id: 4,
        title: "a".to_string(),
        subtitle: "b".to_string(),
        content: "c".to_string(),
        project_id: 9,
        new: true,
    };
    let e = TodoEditor::from_saved(f.clone());
    assert_eq!(e.id, TodoId::New(4));
    assert_eq!(e.language, "md");
    let back = e.to_saved_format();
    assert_eq!(back.id, f.id);
    assert_eq!(back.new, f.new);
    assert_eq!(back.title, f.title);
    assert_eq!(back.subtitle, f.subtitle);
    assert_eq!(back.content, f.content);
    assert_eq!(back.project_id, f.project_id);
    let stored = TodoEditor::new("md", "x", "y", "z", TodoId::Stored(2), 3).to_saved_format();
    assert_eq!(stored.id, 2);
    assert!(!stored.new);
}

#[test]
fn stored_todo_fills_missing_text_with_none() {
    let t = Todo {
        id: 8,
        title: "title".to_string(),
        subtitle: None,
        content: Some("body".to_string()),
        project_id: 2,
    };
    let f = FormattedTodo::from_todo(t.clone());
    assert_eq!(f.subtitle, "None");
    assert_eq!(f.content, "body");
    assert!(!f.new);
    let e = TodoEditor::from_todo(t);
    assert_eq!(e.id, TodoId::Stored(8));
    assert_eq!(e.language, "md");
    assert_eq!(e.name(), "[8] - title");
    assert_eq!(e.gid, "[8]");
    assert_eq!(e.subtitle_backup, "None");
    assert!(!e.modified);
    assert_eq!(e.subtitle, "None");
    assert_eq!(e.code, "body");
    assert!(!e.is_modified());
}

fn rust() -> Language {
    Language { id: 2, name: "rust".to_string() }
}

#[test]
fn project_editor_names_and_saves() {
    let p = ProjectEditor::new("/p", "Name", &rust(), TodoId::New(1));
    assert_eq!(p.name, "New [1] - Name");
    assert_eq!(p.gid, "NEW-[1]");
    let msg = p.save_message();
    match msg {
        Ok(s) => assert_eq!(s.message(), "Successfully created project Name."),
        Err(_) => panic!("saving a project is logged as a success"),
    }
    let saved = p.to_saved_format();
    assert!(saved.new);
    assert_eq!(saved.language_id, 2);
    let q = ProjectEditor::new("/p", "Name", &rust(), TodoId::Stored(5));
    match q.save_message() {
        Ok(s) => assert_eq!(s.message(), "Updated todo (Name, id 5) successfully."),
        Err(_) => panic!("saving a project is logged as a success"),
    }
}

#[test]
fn project_editor_reset_replace_and_rename() {
    let mut p = ProjectEditor::from_project(
        &Project { id: 3, name: "old".to_string(), path: "/a".to_string(), language_id: 2 },
        &rust(),
    );
    assert_eq!(p.id, TodoId::Stored(3));
    assert!(!p.is_modified());
    p.project_name = "new".to_string();
    p.path = "/b".to_string();
    assert!(p.is_modified());
    p.update_name();
    assert_eq!(p.name, "[3] - new");
    p.reset();
    assert_eq!(p.project_name, "old");
    assert_eq!(p.path, "/a");
    p.project_name = "newer".to_string();
    p.replace();
    assert!(!p.is_modified());
    assert_eq!(p.back_up, "newer");
}

#[test]
fn project_editor_from_formatted_and_defaults() {
    let f = FormattedProject {
        id: 6,
        language_id: 2,
        name: "n".to_string(),
        path: "/n".to_string(),
        new: true,
    };
    let p = ProjectEditor::from_formatted(&f, &rust());
    assert_eq!(p.id, TodoId::New(6));
    assert_eq!(p.path, "/n");
    let d = ProjectEditor::default();
    assert_eq!(d.project_name, "Default project name");
    assert_eq!(d.path, "/some/path");
    assert!(d.modified);
    let i = ProjectEditor::id_default(4);
    assert_eq!(i.id, TodoId::Stored(4));
    assert_eq!(i.gid, "[4]");
}

#[test]
fn long_window_names_are_truncated() {
    let long = "a".repeat(30);
    let p = ProjectEditor::new("/p", &long, &rust(), TodoId::Stored(1));
    assert_eq!(p.name_truncated(), format!("[1] - {}...", "a".repeat(22)));
    let exact = "b".repeat(22);
    let q = ProjectEditor::new("/p", &exact, &rust(), TodoId::Stored(1));
    assert_eq!(q.name_truncated(), format!("[1] - {}", exact));
    let r = ProjectEditor::new("/p", "short", &rust(), TodoId::Stored(1));
    assert_eq!(r.name_truncated(), "[1] - short");
}
