use my_cli::config::{db_path, port_file_path, shims_exist, shims_ps_path, shims_sh_path, temp_dir, MyConfig};
use my_cli::database::{
    fetch_master_user, fetch_single_project, get_language_by_name, host_pattern, name_pattern,
    needs_language_seed,
};
use my_cli::exceptions::Warning;
use my_cli::fonts::{parse_unicode, IconsCodePoints, UnicodeError, FONTS};
use my_cli::models::{Language, MasterUser, Project, ProjectWithLanguageName};
use my_cli::paths::{paths_equal, FsPath};
use my_cli::shims::{completion_instructions, completions_dir, powershell_shim, shell_shim};
use my_cli::ui::{log_line, DatabaseError, Log, LogEntry, Success, SuccessType};

fn s(v: &str) -> String {
    v.to_string()
}

fn abs(parts: &[&str]) -> FsPath {
    FsPath { root: Some(s("/")), parts: parts.iter().map(|p| s(p)).collect() }
}

fn rel(parts: &[&str]) -> FsPath {
    FsPath { root: None, parts: parts.iter().map(|p| s(p)).collect() }
}

#[test]
fn tool_files_live_under_the_system_directories() {
    let tmp = abs(&["tmp"]);
    assert_eq!(temp_dir(&tmp).parts, vec!["tmp", "dekharen-cli-daemon"]);
    let port = port_file_path(&tmp);
    assert_eq!(port.root.as_deref(), Some("/"));
    assert_eq!(port.parts, vec!["tmp", "dekharen-cli-daemon", "port"]);
    assert_eq!(db_path(&abs(&["data"])).parts, vec!["data", "database.sqlite"]);
    assert_eq!(shims_ps_path(&abs(&["cfg"])).parts, vec!["cfg", "shims.psm1"]);
    assert_eq!(shims_sh_path(&abs(&["cfg"])).parts, vec!["cfg", "shims.sh"]);
    assert_eq!(completions_dir(&abs(&["cfg"])).parts, vec!["cfg", "dekharen-cli-daemon", "completions"]);
    assert_eq!(MyConfig::default().version, 0);
}

#[test]
fn shims_exist_only_when_both_files_do() {
    assert!(shims_exist(true, true));
    assert!(!shims_exist(true, false));
    assert!(!shims_exist(false, true));
    assert!(!shims_exist(false, false));
}

#[test]
fn paths_join_and_compare() {
    let base = abs(&["a"]);
    let joined = base.join(&rel(&["b", "c"]));
    assert_eq!(joined.parts, vec!["a", "b", "c"]);
    assert_eq!(joined.root.as_deref(), Some("/"));
    let replaced = base.join(&abs(&["z"]));
    assert_eq!(replaced.parts, vec!["z"]);
    assert!(rel(&["x"]).is_relative());
    assert!(!abs(&["x"]).is_relative());
    assert!(paths_equal(&abs(&["a", "b"]), &base.child("b")));
    assert!(!paths_equal(&abs(&["a"]), &rel(&["a"])));
    assert!(!paths_equal(&abs(&["a"]), &abs(&["a", "b"])));
    let copy = joined.duplicate();
    assert!(paths_equal(&copy, &joined));
}

#[test]
fn powershell_shim_names_the_port_file_and_executable() {
    let text = powershell_shim("/tmp/dekharen-cli-daemon/port", "/usr/bin/rush");
    assert!(text.starts_with("# PowerShell shim for dekharen-cli-daemon\nfunction rush {"));
    assert!(text.contains("    $portPath = \"/tmp/dekharen-cli-daemon/port\"\n"));
    assert!(text.contains(
        "    Start-Process -FilePath \"/usr/bin/rush\" -ArgumentList \"serve $port\" -NoNewWindow\n"
    ));
    assert!(text.ends_with("Export-ModuleMember -Function rush, dash, start-cli-daemon\n"));
    assert_eq!(text.matches("/usr/bin/rush").count(), 1);
}

#[test]
fn shell_shim_names_the_port_file_and_executable() {
    let text = shell_shim("/tmp/p", "/opt/rush");
    assert!(text.starts_with("#!/bin/sh\n# Shell shim for dekharen-cli-daemon\nPORT_FILE=\"/tmp/p\"\n"));
    assert!(text.contains("    printf \"%s\\n\" \"$*\" >&3\n"));
    assert!(text.ends_with("    \"/opt/rush\" serve \"$PORT_ARG\" &\n}\n"));
    assert!(text.contains("PORT_ARG=5339"));
}

#[test]
fn completion_instructions_name_each_shell() {
    let lines = completion_instructions("/c/rush.bash", "/c", "/c/_rush.ps1");
    assert_eq!(lines.len(), 4);
    assert_eq!(lines[0], "\n🔧 To enable tab-completion, add this to your configuration :\n");
    assert_eq!(lines[1], "  Bash:\n    source /c/rush.bash");
    assert_eq!(lines[2], "\n  Zsh:\n    fpath=(/c $fpath)\n    autoload -Uz compinit && compinit");
    assert_eq!(lines[3], "\n  PowerShell:\n    Import-Module /c/_rush.ps1");
}

#[test]
fn unicode_code_points_are_parsed() {
    assert_eq!(parse_unicode("e88e"), Ok('\u{e88e}'));
    assert_eq!(parse_unicode("E88E"), Ok(IconsCodePoints::INFO));
    assert_eq!(parse_unicode("41"), Ok('A'));
    assert_eq!(parse_unicode("+41"), Ok('A'));
    assert!(matches!(parse_unicode("zz"), Err(UnicodeError::Int(_))));
    assert!(matches!(parse_unicode(""), Err(UnicodeError::Int(_))));
    assert!(matches!(parse_unicode("100000000"), Err(UnicodeError::Int(_))));
    assert_eq!(parse_unicode("d800"), Err(UnicodeError::Unicode(0xd800)));
    assert_eq!(parse_unicode("110000"), Err(UnicodeError::Unicode(0x110000)));
    assert_eq!(FONTS::ICONS, "ICONS");
    assert_eq!(FONTS::ICONS_MATERIAL_ROUNDED, "ICON_FONT_ROUNDED");
}

#[test]
fn warnings_proceed_on_confirmation() {
    let w = Warning::new("careful", true);
    assert_eq!(w.message, "careful");
    assert!(w.proceeds("y"));
    assert!(w.proceeds("Y"));
    assert!(!w.proceeds("n"));
    assert!(!w.proceeds("yes"));
    assert!(!w.proceeds(""));
    let info = Warning::new("fyi", false);
    assert!(info.proceeds("n"));
}

#[test]
fn language_seed_is_needed_until_none_exists() {
    assert!(needs_language_seed(&vec![]));
    assert!(needs_language_seed(&vec![Language { id: 2, name: s("rust") }]));
    assert!(!needs_language_seed(&vec![
        Language { id: 2, name: s("rust") },
        Language { id: 1, name: s("none") },
    ]));
}

#[test]
fn single_rows_are_picked_from_query_results() {
    assert!(fetch_master_user(vec![]).is_none());
    let u = fetch_master_user(vec![MasterUser { id: 1, hash: s("phc") }]).expect("one user");
    assert_eq!(u.hash, "phc");
    let none = get_language_by_name(vec![]);
    assert_eq!((none.id, none.name.as_str()), (1, "none"));
    let last = get_language_by_name(vec![
        Language { id: 2, name: s("a") },
        Language { id: 3, name: s("b") },
    ]);
    assert_eq!(last.id, 3);
    let p = fetch_single_project(vec![
        ProjectWithLanguageName { id: 1, name: s("x"), path: s("/x"), language_name: s("go") },
        ProjectWithLanguageName { id: 2, name: s("y"), path: s("/y"), language_name: s("go") },
    ]);
    assert_eq!(p.id, 2);
}

#[test]
fn search_patterns() {
    assert_eq!(name_pattern("all"), None);
    assert_eq!(name_pattern("a"), None);
    assert_eq!(name_pattern("ru"), Some(s("%ru%")));
    assert_eq!(name_pattern(""), Some(s("%%")));
    assert_eq!(host_pattern("git"), "git%");
}

#[test]
fn joined_project_rows_take_the_language_name() {
    let p = ProjectWithLanguageName::new((
        Project { id: 4, name: s("n"), path: s("/n"), language_id: 7 },
        s("zig"),
    ));
    assert_eq!((p.id, p.name.as_str(), p.path.as_str(), p.language_name.as_str()), (4, "n", "/n", "zig"));
}

#[test]
fn outcomes_and_their_notes() {
    assert_eq!(DatabaseError::new("boom").message(), "boom");
    assert_eq!(DatabaseError::new("boom").clone().message(), "boom");
    let ok = Success::new(s("done"), SuccessType::File);
    assert_eq!(ok.message(), "done");
    assert!(ok.timestamp() <= std::time::SystemTime::now());
    assert_eq!(ok.clone().timestamp(), ok.timestamp());
    assert_eq!(ok.success_message(), "(file operation)");
    assert_eq!(Success::new(s("d"), SuccessType::Database).success_message(), "(database operation)");
}

#[test]
fn log_keeps_entries_and_scroll_requests() {
    let mut log: Log<u32> = Log::new(vec![1]);
    assert!(!log.take_scroll());
    log.push(2);
    log.should_scroll();
    assert_eq!(log.entries_ref(), &vec![1, 2]);
    assert!(log.take_scroll());
    assert!(!log.take_scroll());
}

#[test]
fn log_lines_show_age_or_error() {
    let ok: LogEntry = Ok(Success::new(s("Saved."), SuccessType::Database));
    assert_eq!(log_line(&ok, 0), "[0 seconds ago] - Saved.");
    assert_eq!(log_line(&ok, 125), "[125 seconds ago] - Saved.");
    let err: LogEntry = Err(DatabaseError::new("disk full"));
    assert_eq!(log_line(&err, 9), "ERR - disk full");
}

#[test]
fn hex_code_points_of_characters_read_back() {
    for c in ['\0', 'A', 'z', '\u{7f}', '\u{e88e}', '\u{d7ff}', '\u{e000}', '\u{10ffff}', 'é'] {
        assert_eq!(parse_unicode(&format!("{:x}", c as u32)), Ok(c));
        assert_eq!(parse_unicode(&format!("{:X}", c as u32)), Ok(c));
    }
    for v in (0u32..0x11_0000).step_by(0x1fff) {
        if let Some(c) = char::from_u32(v) {
            assert_eq!(parse_unicode(&format!("{:x}", v)), Ok(c));
        }
    }
}
