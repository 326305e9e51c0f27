use my_cli::cli::{
    default_sync_msg, default_table_settings, find_project, query_header, query_time_message, Cli,
    CliAction, Commands, SyncAction, SynchronousCli, TimeReport, ToArgs, TodoActions, TypeOfAdds,
};
use my_cli::logger::{TablingOptionsBuilderError, TableColor, TablingOptionsBuilder};
use my_cli::models::ProjectWithLanguageName;
use my_cli::paths::FsPath;
use my_cli::server::{command_args, handle_command, read_port, spawn_args, LogBuffer, TCPPort};

fn s(v: &str) -> String {
    v.to_string()
}

#[test]
fn commands_turn_back_into_arguments() {
    let show = Commands::Show { searchterm: s("rust"), lang_query: true, gui: true };
    assert_eq!(show.to_args(), vec!["show", "-lang_query", "--gui", "rust"]);
    let plain = Commands::Show { searchterm: s("x"), lang_query: false, gui: false };
    assert_eq!(plain.to_args(), vec!["show", "x"]);
    assert_eq!(Commands::Retrieve { host: s("h") }.to_args(), vec!["retrieve", "--host", "h"]);
    assert_eq!(Commands::Store { host: s("h") }.to_args(), vec!["store", "--host", "h"]);
    assert_eq!(Commands::Move { name: s("p") }.to_args(), vec!["move", "p"]);
    assert_eq!(Commands::Attach.to_args(), vec!["attach"]);
    let todo = Commands::Todo { action: TodoActions::Add { todo_title: s("t"), path: Some(s("/p")) } };
    assert_eq!(todo.to_args(), vec!["todo", "add", "t", "/p"]);
    let show_todos = Commands::Todo { action: TodoActions::Show { path: None } };
    assert_eq!(show_todos.to_args(), vec!["todo", "show"]);
    let project = Commands::Add {
        add_type: TypeOfAdds::Project {
            project_path: s("/p"),
            project_name: s("n"),
            language: s("rust"),
        },
    };
    assert_eq!(project.to_args(), vec!["add", "project", "/p", "n", "-l", "rust"]);
    let lang = Commands::Add { add_type: TypeOfAdds::Lang { language_name: s("go") } };
    assert_eq!(lang.to_args(), vec!["add", "lang", "go"]);
    let add_todo = Commands::Add { add_type: TypeOfAdds::Todo { todo_title: s("t"), path: None } };
    assert_eq!(Cli { command: add_todo }.to_args(), vec!["add", "todo", "t"]);
}

#[test]
fn daemon_plans_each_command() {
    let cli = Cli { command: Commands::Show { searchterm: s("rust"), lang_query: true, gui: true } };
    match cli.plan() {
        CliAction::Query { searchterm, languages, spawn } => {
            assert_eq!(searchterm, "rust");
            assert!(languages);
            assert_eq!(spawn, Some(vec![s("show"), s("-lang_query"), s("--gui"), s("rust")]));
        }
        other => panic!("unexpected plan {:?}", other),
    }
    let cli = Cli { command: Commands::Show { searchterm: s("x"), lang_query: false, gui: false } };
    assert!(matches!(cli.plan(), CliAction::Query { spawn: None, languages: false, .. }));
    let cli = Cli { command: Commands::Todo { action: TodoActions::Show { path: Some(s("/p")) } } };
    match cli.plan() {
        CliAction::Spawn { args } => assert_eq!(args, vec!["todo", "show", "/p"]),
        other => panic!("unexpected plan {:?}", other),
    }
    let cli = Cli { command: Commands::Move { name: s("proj") } };
    assert!(matches!(cli.plan(), CliAction::Move { name } if name == "proj"));
    let cli = Cli { command: Commands::Attach };
    assert!(matches!(cli.plan(), CliAction::Attach));
    let cli = Cli { command: Commands::Store { host: s("h") } };
    assert!(matches!(cli.plan(), CliAction::Store { host } if host == "h"));
    let cli = Cli { command: Commands::Retrieve { host: s("h") } };
    assert!(matches!(cli.plan(), CliAction::Retrieve { host } if host == "h"));
    let cli = Cli { command: Commands::Add { add_type: TypeOfAdds::Lang { language_name: s("go") } } };
    assert!(matches!(cli.plan(), CliAction::AddLanguage { language_name } if language_name == "go"));
    let cli = Cli {
        command: Commands::Add {
            add_type: TypeOfAdds::Project {
                project_path: s("/p"),
                project_name: s("n"),
                language: s("rust"),
            },
        },
    };
    assert!(matches!(
        cli.plan(),
        CliAction::AddProject { project_path, project_name, language }
            if project_path == "/p" && project_name == "n" && language == "rust"
    ));
}

#[test]
fn synchronous_cli_plans_windows_only() {
    let c = SynchronousCli {
        command: Commands::Add { add_type: TypeOfAdds::Todo { todo_title: s("t"), path: None } },
    };
    assert!(matches!(
        c.plan(),
        SyncAction::OpenTodo { path: None, todo_title: Some(t) } if t == "t"
    ));
    let c = SynchronousCli { command: Commands::Todo { action: TodoActions::Show { path: Some(s("/p")) } } };
    assert!(matches!(
        c.plan(),
        SyncAction::OpenTodo { path: Some(p), todo_title: None } if p == "/p"
    ));
    let c = SynchronousCli {
        command: Commands::Show { searchterm: s("proj"), lang_query: false, gui: true },
    };
    assert!(matches!(c.plan(), SyncAction::ShowProject { searchterm } if searchterm == "proj"));
    let c = SynchronousCli { command: Commands::Attach };
    assert!(matches!(c.plan(), SyncAction::Unsupported));
    assert_eq!(default_sync_msg(), "The synchronous CLI does not support this action.");
}

#[test]
fn query_headers_and_timings() {
    assert_eq!(query_header(true, 3), "Language query result : 3 language(s)");
    assert_eq!(query_header(false, 0), "Project query result : 0 project(s)");
    assert_eq!(query_time_message(12), "Total query time : 12 ms.");
}

#[test]
fn default_table_settings_build_with_colours() {
    let builder = default_table_settings();
    let options = builder.build().expect("every field is set");
    assert_eq!(options.header.as_deref(), Some("Query result :"));
    assert_eq!(options.colors(), vec![TableColor::Default, TableColor::Blue, TableColor::Magenta]);
}

#[test]
fn builder_reports_the_first_missing_field() {
    let mut b = TablingOptionsBuilder::default();
    assert_eq!(b.build().err(), Some(TablingOptionsBuilderError::UninitializedField("color")));
    b.color(Some(s("green")));
    assert_eq!(b.build().err(), Some(TablingOptionsBuilderError::UninitializedField("first_row_color")));
    b.first_row_color(None);
    assert_eq!(b.build().err(), Some(TablingOptionsBuilderError::UninitializedField("first_col_color")));
    b.first_col_color(Some(s("purple")));
    assert_eq!(b.build().err(), Some(TablingOptionsBuilderError::UninitializedField("header")));
    b.header(None);
    let o = b.build().expect("every field is set");
    assert_eq!(o.colors(), vec![TableColor::Green, TableColor::Default, TableColor::Default]);
    assert_eq!(o.get_color(&Some(s("magenta"))), TableColor::Magenta);
    assert_eq!(o.get_color(&Some(s("blue"))), TableColor::Blue);
    assert_eq!(o.get_color(&None), TableColor::Default);
}

fn project(id: i32, name: &str, path: &str) -> ProjectWithLanguageName {
    ProjectWithLanguageName {
        id,
        name: s(name),
        path: s(path),
        language_name: s("rust"),
    }
}

fn abs(parts: &[&str]) -> FsPath {
    FsPath { root: Some(s("/")), parts: parts.iter().map(|p| s(p)).collect() }
}

#[test]
fn find_project_warns_about_missing_paths_before_the_match() {
    let projects = vec![project(1, "gone", "/gone"), project(2, "other", "/o"), project(3, "me", "/me"), project(4, "gone2", "/g2")];
    let canonical = vec![None, Some(abs(&["o"])), Some(abs(&["me"])), None];
    let (found, warnings) = find_project(&abs(&["me"]), &projects, &canonical);
    assert_eq!(found, Some(2));
    assert_eq!(warnings.len(), 1);
    assert!(warnings[0].confirmation);
    assert_eq!(
        warnings[0].message,
        "The path /gone cannot be found. Consider removing or disabling the project (gone) ..."
    );
    let (found, warnings) = find_project(&abs(&["nowhere"]), &projects, &canonical);
    assert_eq!(found, None);
    assert_eq!(warnings.len(), 2);
    assert!(warnings[1].message.contains("(gone2)"));
}

#[test]
fn port_file_contents_are_trimmed() {
    assert!(matches!(read_port(Some(s(" 5339\n"))), TCPPort::Present(p) if p == "5339"));
    assert!(matches!(read_port(Some(s("8080"))), TCPPort::Present(p) if p == "8080"));
    assert!(matches!(read_port(None), TCPPort::Missing(p) if p == "5339"));
    for port in [0u16, 1, 5339, 65535] {
        assert!(matches!(read_port(Some(port.to_string())), TCPPort::Present(p) if p == port.to_string()));
    }
}

#[test]
fn received_lines_become_arguments() {
    assert_eq!(command_args("move proj  \n"), Some(vec![s("rush"), s("move"), s("proj")]));
    assert_eq!(
        command_args("todo add 'two words'"),
        Some(vec![s("rush"), s("todo"), s("add"), s("two words")])
    );
    assert_eq!(command_args(""), None);
    assert_eq!(command_args("   "), None);
    assert_eq!(command_args("say 'unclosed"), None);
}

#[test]
fn spawned_commands_start_with_cli() {
    assert_eq!(spawn_args(&vec![s("todo"), s("show")]), vec!["cli", "todo", "show"]);
    assert_eq!(spawn_args(&vec![]), vec!["cli"]);
    assert_eq!(handle_command("ping"), "line received : ping");
}

#[test]
fn log_buffer_hands_lines_out_in_order() {
    let mut b = LogBuffer::new();
    assert!(b.pop_all().is_empty());
    b.push(s("one"));
    b.push(s("two"));
    b.push(s("three"));
    assert_eq!(b.pop_all(), vec!["one", "two", "three"]);
    assert!(b.pop_all().is_empty());
    b.push(s("four"));
    assert_eq!(b.pop_all(), vec!["four"]);
}

#[test]
fn timing_lines_and_spawn_notices() {
    let cli = Cli { command: Commands::Move { name: s("p") } };
    assert_eq!(cli.plan().time_report(), TimeReport::Log);
    assert_eq!(cli.spawn_notice(), None);
    let cli = Cli { command: Commands::Todo { action: TodoActions::Show { path: None } } };
    assert_eq!(cli.plan().time_report(), TimeReport::Skipped);
    assert_eq!(cli.spawn_notice(), Some(s("properly entered the spawning phase...")));
    let cli = Cli { command: Commands::Todo { action: TodoActions::Add { todo_title: s("t"), path: None } } };
    assert_eq!(cli.plan().time_report(), TimeReport::Skipped);
    assert_eq!(cli.spawn_notice(), None);
    let cli = Cli { command: Commands::Show { searchterm: s("x"), lang_query: false, gui: true } };
    assert_eq!(cli.plan().time_report(), TimeReport::Client);
    assert_eq!(Cli { command: Commands::Attach }.plan().time_report(), TimeReport::Client);
}
