use my_cli::editor::{TodoEditor, TodoId};
use my_cli::models::{Project, ProjectWithLanguageName, Todo};
use my_cli::paths::FsPath;
use my_cli::todos::{
    all_todos_file_message, delete_all_message, delete_message, directory_created_message,
    establish_path, export_log, file_write_message, to_multiple_files, FileTodo, FileWriteOutcome, PathSearch,
    TodoList, TodoListState,
};
use my_cli::ui::LogEntry;

fn todo(title: &str, id: TodoId) -> TodoEditor {
    TodoEditor::new("md", title, "sub", "code", id, 1)
}

fn ok_text(e: &LogEntry) -> String {
    match e {
        Ok(s) => s.message().to_string(),
        Err(d) => panic!("expected a success, got {}", d.message()),
    }
}

fn err_text(e: &LogEntry) -> String {
    match e {
        Ok(s) => panic!("expected an error, got {}", s.message()),
        Err(d) => d.message().to_string(),
    }
}

fn abs(parts: &[&str]) -> FsPath {
    FsPath { root: Some("/".to_string()), parts: parts.iter().map(|p| p.to_string()).collect() }
}

fn rel(parts: &[&str]) -> FsPath {
    FsPath { root: None, parts: parts.iter().map(|p| p.to_string()).collect() }
}

fn parts_of(p: &FsPath) -> Vec<String> {
    p.parts.clone()
}

#[test]
fn files_of_one_title_get_counters() {
    let todos = vec![
        todo("a", TodoId::New(1)),
        todo("b", TodoId::New(2)),
        todo("a", TodoId::New(3)),
        todo("a", TodoId::Stored(4)),
    ];
    let files = to_multiple_files(todos);
    let names: Vec<&str> = files.iter().map(|f| f.filename.as_str()).collect();
    assert_eq!(names, vec!["a.md", "b.md", "a-(1).md", "a-(2).md"]);
    assert_eq!(files[0].file_content, "# a\n\n ## sub\n\ncode");
}

#[test]
fn file_of_one_todo_and_of_the_list() {
    let f = FileTodo::from_todo(&todo("x", TodoId::New(1)));
    assert_eq!(f.filename, "todo-x.md");
    assert_eq!(f.file_content, "# x\n\n ## sub\n\ncode");
    let mut list = TodoList::default();
    list.add(todo("x", TodoId::New(1)));
    list.add(todo("y", TodoId::New(2)));
    let all = FileTodo::from_list(&list);
    assert_eq!(all.filename, "todos.md");
    assert_eq!(all.file_content, "# x\n\n ## sub\n\ncode\n# y\n\n ## sub\n\ncode\n");
}

#[test]
fn default_list_is_empty_and_logged() {
    let list = TodoList::default();
    assert!(list.todos.is_empty());
    assert_eq!(list.new_todos, 0);
    assert!(matches!(list.state, TodoListState::EDIT));
    assert_eq!(list.parent.name, "Project Name");
    let entries = list.log.entries_ref();
    assert_eq!(entries.len(), 1);
    assert_eq!(ok_text(&entries[0]), "Connected to database.");
}

#[test]
fn new_todos_are_numbered_in_order() {
    let mut list = TodoList::default();
    list.add_new_todo();
    list.add_new_todo();
    assert_eq!(list.new_todos, 2);
    assert_eq!(list.todos[0].id, TodoId::New(1));
    assert_eq!(list.todos[1].id, TodoId::New(2));
    assert_eq!(list.todos[1].title, "");
    assert_eq!(list.todos[1].language, "md");
    assert_eq!(list.todos[1].name, "New [2] - ");
    assert_eq!(list.todos[1].gid, "NEW-[2]");
    assert_eq!(list.todos[1].back_up, "");
    assert!(!list.todos[1].modified);
}

#[test]
fn export_stops_only_when_the_directory_fails() {
    let files = vec![
        FileTodo { filename: "a.md".into(), file_content: "x".into() },
        FileTodo { filename: "b.md".into(), file_content: "y".into() },
    ];
    let logs = export_log(
        "/out",
        None,
        &files,
        &vec![FileWriteOutcome::CreateFailed("denied".into()), FileWriteOutcome::Written],
    );
    assert_eq!(logs.len(), 3);
    assert_eq!(ok_text(&logs[0]), "The directory /out was successfully created.");
    assert_eq!(err_text(&logs[1]), "An error occured creating the file : denied");
    assert_eq!(ok_text(&logs[2]), "Generated file b.md for for this project.");
    let failed = export_log("/out", Some("no permission".into()), &files, &vec![]);
    assert_eq!(failed.len(), 1);
    assert_eq!(err_text(&failed[0]), "no permission");
}

#[test]
fn retrieve_replaces_stored_and_keeps_unsaved() {
    let mut list = TodoList::default();
    list.add(todo("old stored", TodoId::Stored(1)));
    list.add_new_todo();
    list.retrieve(vec![
        Todo {
            id: 10,
            title: "ten".to_string(),
            subtitle: Some("s".to_string()),
            content: None,
            project_id: 3,
        },
        Todo { id: 11, title: "eleven".to_string(), subtitle: None, content: None, project_id: 3 },
    ]);
    let ids: Vec<TodoId> = list.todos.iter().map(|t| t.id).collect();
    assert_eq!(ids, vec![TodoId::Stored(10), TodoId::Stored(11), TodoId::New(1)]);
    assert_eq!(list.todos[0].code, "None");
    assert_eq!(list.todos[0].gid, "[10]");
    assert_eq!(list.todos[0].name, "[10] - ten");
    assert_eq!(list.todos[0].language, "md");
    assert_eq!(list.todos[1].subtitle, "None");
}

#[test]
fn save_plan_splits_inserts_and_updates() {
    let mut list = TodoList::default();
    list.add(todo("s1", TodoId::Stored(5)));
    list.add(todo("n1", TodoId::New(1)));
    list.add(todo("s2", TodoId::Stored(6)));
    let (inserts, updates) = list.save_plan();
    assert_eq!(inserts.len(), 1);
    assert_eq!(inserts[0].title, "n1");
    assert_eq!(inserts[0].subtitle.as_deref(), Some("sub"));
    assert_eq!(updates.len(), 2);
    assert_eq!(updates[0].id, 5);
    assert_eq!(updates[1].id, 6);
    assert_eq!(updates[1].content.as_deref(), Some("code"));
    let saved = list.to_saved_format();
    assert_eq!(saved.len(), 3);
    assert!(saved[1].new);
}

#[test]
fn discards_are_removed_one_after_the_other() {
    let mut list = TodoList::default();
    list.add(todo("a", TodoId::New(1)));
    list.add(todo("b", TodoId::New(2)));
    list.add(todo("c", TodoId::New(3)));
    let entry = list.discard(0, 1, "a");
    assert_eq!(ok_text(&entry), "Discarded new Todo (1, titled a ) successfully.");
    list.discard(0, 2, "b");
    list.apply_removals();
    assert!(list.remove.is_empty());
    let titles: Vec<&str> = list.todos.iter().map(|t| t.title.as_str()).collect();
    assert_eq!(titles, vec!["c"]);
}

#[test]
fn log_and_refresh_flags() {
    let mut list = TodoList::default();
    assert!(!list.take_refresh());
    list.push_log(delete_message(4, "t"));
    assert!(list.take_refresh());
    assert!(!list.take_refresh());
    assert!(list.log.take_scroll());
    assert!(!list.log.take_scroll());
    let entries = list.log.entries_ref();
    assert_eq!(ok_text(&entries[1]), "Deleted Todo (4, titled t ) successfully.");
}

#[test]
fn preview_and_missing_target() {
    let mut list = TodoList::default();
    let shown = list.display_target();
    assert_eq!(shown.title, "An Error Occured");
    assert_eq!(shown.code, "**Could not open the todo...**");
    assert_eq!(shown.id, TodoId::New(404));
    list.add(todo("a", TodoId::Stored(1)));
    list.open_preview(0);
    assert!(matches!(list.state, TodoListState::VIEW));
    assert_eq!(list.display_target().title, "a");
}

#[test]
fn selection_follows_the_todos() {
    let mut list = TodoList::default();
    list.add(todo("a", TodoId::New(1)));
    list.add(todo("b", TodoId::New(2)));
    list.add(todo("c", TodoId::New(3)));
    list.sync_selection();
    assert_eq!(list.multiple_files.selection, vec![false, false, false]);
    assert!(!list.any_selected());
    list.multiple_files.selection[2] = true;
    list.multiple_files.selection[0] = true;
    list.sync_selection();
    assert!(list.any_selected());
    let picked: Vec<String> = list.selected_todos().into_iter().map(|t| t.title).collect();
    assert_eq!(picked, vec!["a".to_string(), "c".to_string()]);
    list.add(todo("d", TodoId::New(4)));
    list.sync_selection();
    assert_eq!(list.multiple_files.selection.len(), 4);
    assert!(!list.any_selected());
    assert!(list.multiple_files.files.is_none());
}

#[test]
fn save_and_file_messages() {
    assert_eq!(
        ok_text(&TodoList::save_message(2, 3)),
        "Added 2 todos and edited 3 todos successfully."
    );
    assert_eq!(ok_text(&all_todos_file_message()), "Generated file for all todos for this project.");
    assert_eq!(ok_text(&delete_all_message()), "Deleted all todos for this project.");
    match directory_created_message("/tmp/x") {
        Ok(s) => {
            assert_eq!(s.message(), "The directory /tmp/x was successfully created.");
            assert_eq!(s.success_message(), "(file operation)");
        }
        Err(_) => panic!("creating a directory is logged as a success"),
    }
}

#[test]
fn each_file_outcome_has_its_entry() {
    assert_eq!(
        ok_text(&file_write_message("a.md", &FileWriteOutcome::Written)),
        "Generated file a.md for for this project."
    );
    assert_eq!(
        err_text(&file_write_message("a.md", &FileWriteOutcome::CreateFailed("denied".into()))),
        "An error occured creating the file : denied"
    );
    assert_eq!(
        err_text(&file_write_message("a.md", &FileWriteOutcome::RemoveFailed("busy".into()))),
        "busy"
    );
    assert_eq!(
        err_text(&file_write_message("a.md", &FileWriteOutcome::WriteFailed("full".into()))),
        "full"
    );
}

#[test]
fn with_parent_sets_the_project() {
    let mut list = TodoList::default();
    let parent = ProjectWithLanguageName::new((
        Project { id: 5, name: "p".to_string(), path: "/p".to_string(), language_id: 1 },
        "rust".to_string(),
    ));
    list.with_parent(&parent);
    assert_eq!(list.parent.id, 5);
    assert_eq!(list.parent.language_name, "rust");
    list.add_new_todo();
    assert_eq!(list.todos[0].project_id, 5);
}

#[test]
fn establish_path_appends_missing_components_in_order() {
    let leftovers = vec![Some("c".to_string()), None, Some("b".to_string())];
    let p = establish_path(&leftovers, &abs(&["x"]));
    assert_eq!(p.root.as_deref(), Some("/"));
    assert_eq!(parts_of(&p), vec!["x", "b", "c"]);
}

#[test]
fn path_search_unwinds_to_an_existing_ancestor() {
    let mut search = PathSearch::start(&rel(&["b", "c"]), &abs(&["x"]));
    assert_eq!(parts_of(&search.candidate()), vec!["x", "b", "c"]);
    assert!(search.advance(None).is_none());
    assert_eq!(parts_of(&search.candidate()), vec!["x", "b"]);
    assert!(search.advance(None).is_none());
    assert_eq!(parts_of(&search.candidate()), vec!["x"]);
    match search.advance(Some(abs(&["real", "x"]))) {
        Some(Ok(p)) => {
            assert_eq!(p.root.as_deref(), Some("/"));
            assert_eq!(parts_of(&p), vec!["real", "x", "b", "c"]);
        }
        _ => panic!("an existing ancestor ends the search"),
    }
}

#[test]
fn path_search_fails_when_nothing_exists() {
    let mut search = PathSearch::start(&abs(&["q"]), &abs(&["ignored"]));
    assert_eq!(parts_of(&search.candidate()), vec!["q"]);
    assert!(search.advance(None).is_none());
    assert!(search.candidate().parts.is_empty());
    match search.advance(None) {
        Some(Err(e)) => assert_eq!(
            e.message(),
            "The path was fully unwinded and couldn't find a correct base directory(e.g, a drive)."
        ),
        _ => panic!("an exhausted search fails"),
    }
}

#[test]
fn database_entries_carry_the_database_note() {
    match delete_all_message() {
        Ok(s) => assert_eq!(s.clone().success_message(), "(database operation)"),
        Err(_) => panic!("deleting is logged as a success"),
    }
}
