//! The command line: its commands, the arguments that reproduce them, and
//! what each command asks the tool to do.

use vstd::prelude::*;

use crate::exceptions::Warning;
use crate::logger::TablingOptionsBuilder;
use crate::models::ProjectWithLanguageName;
use crate::paths::{FsPath, PathModel};
use crate::text::{push_str, decimal, push_decimal_u64, str_eq};

verus! {

/// How the program was started: as the daemon, or for one command.
#[derive(Debug)]
pub enum EntryPoint {
    Serve { port: u16 },
    Cli(SynchronousCli),
}

/// A command run outside the daemon.
#[derive(Debug)]
pub struct SynchronousCli {
    pub command: Commands,
}

/// A command sent to the daemon.
#[derive(Debug)]
pub struct Cli {
    pub command: Commands,
}

/// What to do with todos.
#[derive(Debug)]
pub enum TodoActions {
    Show { path: Option<String> },
    Add { todo_title: String, path: Option<String> },
}

/// What to add.
#[derive(Debug)]
pub enum TypeOfAdds {
    Lang { language_name: String },
    Project { project_path: String, project_name: String, language: String },
    Todo { todo_title: String, path: Option<String> },
}

/// The commands of the tool.
#[derive(Debug)]
pub enum Commands {
    Retrieve { host: String },
    Attach,
    Store { host: String },
    Move { name: String },
    Todo { action: TodoActions },
    Add { add_type: TypeOfAdds },
    Show { searchterm: String, lang_query: bool, gui: bool },
}

/// Values that can be turned back into the command line arguments that
/// produce them.
pub trait ToArgs {
    fn to_args(&self) -> Vec<String>;
}

/// A path argument, where there is one.
pub open spec fn opt_arg(p: Option<String>) -> Seq<Seq<char>> {
    match p {
        Some(s) => seq![s@],
        None => seq![],
    }
}

/// Arguments of a todo action.
pub open spec fn todo_actions_args(a: TodoActions) -> Seq<Seq<char>> {
    match a {
        TodoActions::Show { path } => seq!["show"@] + opt_arg(path),
        TodoActions::Add { todo_title, path } => seq!["add"@, todo_title@] + opt_arg(path),
    }
}

/// Arguments of an addition.
pub open spec fn type_of_adds_args(a: TypeOfAdds) -> Seq<Seq<char>> {
    match a {
        TypeOfAdds::Lang { language_name } => seq!["lang"@, language_name@],
        TypeOfAdds::Project { project_path, project_name, language } => seq![
            "project"@,
            project_path@,
            project_name@,
            "-l"@,
            language@,
        ],
        TypeOfAdds::Todo { todo_title, path } => seq!["todo"@, todo_title@] + opt_arg(path),
    }
}

/// Arguments of a command.
pub open spec fn commands_args(c: Commands) -> Seq<Seq<char>> {
    match c {
        Commands::Retrieve { host } => seq!["retrieve"@, "--host"@, host@],
        Commands::Store { host } => seq!["store"@, "--host"@, host@],
        Commands::Move { name } => seq!["move"@, name@],
        Commands::Todo { action } => seq!["todo"@] + todo_actions_args(action),
        Commands::Add { add_type } => seq!["add"@] + type_of_adds_args(add_type),
        Commands::Attach => seq!["attach"@],
        Commands::Show { searchterm, lang_query, gui } => seq!["show"@] + (if lang_query {
            seq!["-lang_query"@]
        } else {
            seq![]
        }) + (if gui {
            seq!["--gui"@]
        } else {
            seq![]
        }) + seq![searchterm@],
    }
}

fn push_arg(v: &mut Vec<String>, s: &str)
    ensures
        final(v).deep_view() == old(v).deep_view().push(s@),
{
    let ghost prev = *v;
    v.push(s.to_string());
    proof {
        assert forall|j: int| 0 <= j < v@.len() implies #[trigger] v.deep_view()[j]
            == prev.deep_view().push(s@)[j] by {
            if j < prev@.len() {
                assert(v@[j] == prev@[j]);
            }
        }
        assert(v.deep_view() =~= prev.deep_view().push(s@));
    }
}

fn push_opt_arg(v: &mut Vec<String>, p: &Option<String>)
    ensures
        final(v).deep_view() == old(v).deep_view() + opt_arg(*p),
{
    match p {
        Some(s) => {
            push_arg(v, s.as_str());
            assert(v.deep_view() =~= old(v).deep_view() + opt_arg(*p));
        },
        None => {
            assert(v.deep_view() =~= old(v).deep_view() + opt_arg(*p));
        },
    }
}

fn append_args(v: &mut Vec<String>, w: &Vec<String>)
    ensures
        final(v).deep_view() == old(v).deep_view() + w.deep_view(),
{
    let mut i: usize = 0;
    while i < w.len()
        invariant
            i <= w.len(),
            v.deep_view() == old(v).deep_view() + w.deep_view().subrange(0, i as int),
        decreases w.len() - i,
    {
        push_arg(v, w[i].as_str());
        i = i + 1;
        assert(v.deep_view() =~= old(v).deep_view() + w.deep_view().subrange(0, i as int));
    }
    assert(w.deep_view().subrange(0, i as int) =~= w.deep_view());
}

impl ToArgs for TodoActions {
    fn to_args(&self) -> (r: Vec<String>)
        ensures
            r.deep_view() == todo_actions_args(*self),
    {
        let mut v: Vec<String> = Vec::new();
        match self {
            TodoActions::Show { path } => {
                push_arg(&mut v, "show");
                push_opt_arg(&mut v, path);
            },
            TodoActions::Add { todo_title, path } => {
                push_arg(&mut v, "add");
                push_arg(&mut v, todo_title.as_str());
                push_opt_arg(&mut v, path);
            },
        }
        assert(v.deep_view() =~= todo_actions_args(*self));
        v
    }
}

impl ToArgs for TypeOfAdds {
    fn to_args(&self) -> (r: Vec<String>)
        ensures
            r.deep_view() == type_of_adds_args(*self),
    {
        let mut v: Vec<String> = Vec::new();
        match self {
            TypeOfAdds::Lang { language_name } => {
                push_arg(&mut v, "lang");
                push_arg(&mut v, language_name.as_str());
            },
            TypeOfAdds::Project { project_path, project_name, language } => {
                push_arg(&mut v, "project");
                push_arg(&mut v, project_path.as_str());
                push_arg(&mut v, project_name.as_str());
                push_arg(&mut v, "-l");
                push_arg(&mut v, language.as_str());
            },
            TypeOfAdds::Todo { todo_title, path } => {
                push_arg(&mut v, "todo");
                push_arg(&mut v, todo_title.as_str());
                push_opt_arg(&mut v, path);
            },
        }
        assert(v.deep_view() =~= type_of_adds_args(*self));
        v
    }
}

impl ToArgs for Commands {
    fn to_args(&self) -> (r: Vec<String>)
        ensures
            r.deep_view() == commands_args(*self),
    {
        let mut v: Vec<String> = Vec::new();
        match self {
            Commands::Retrieve { host } => {
                push_arg(&mut v, "retrieve");
                push_arg(&mut v, "--host");
                push_arg(&mut v, host.as_str());
            },
            Commands::Store { host } => {
                push_arg(&mut v, "store");
                push_arg(&mut v, "--host");
                push_arg(&mut v, host.as_str());
            },
            Commands::Move { name } => {
                push_arg(&mut v, "move");
                push_arg(&mut v, name.as_str());
            },
            Commands::Todo { action } => {
                push_arg(&mut v, "todo");
                let w = action.to_args();
                append_args(&mut v, &w);
            },
            Commands::Add { add_type } => {
                push_arg(&mut v, "add");
                let w = add_type.to_args();
                append_args(&mut v, &w);
            },
            Commands::Attach => {
                push_arg(&mut v, "attach");
            },
            Commands::Show { searchterm, lang_query, gui } => {
                push_arg(&mut v, "show");
                if *lang_query {
                    push_arg(&mut v, "-lang_query");
                }
                if *gui {
                    push_arg(&mut v, "--gui");
                }
                push_arg(&mut v, searchterm.as_str());
            },
        }
        assert(v.deep_view() =~= commands_args(*self));
        v
    }
}

impl ToArgs for Cli {
    fn to_args(&self) -> (r: Vec<String>)
        ensures
            r.deep_view() == commands_args(self.command),
    {
        self.command.to_args()
    }
}

/// Two todo actions with the same values.
pub open spec fn same_todo_action(a: TodoActions, b: TodoActions) -> bool {
    match (a, b) {
        (TodoActions::Show { path: p }, TodoActions::Show { path: q }) => opt_text(p) == opt_text(q),
        (
            TodoActions::Add { todo_title: t, path: p },
            TodoActions::Add { todo_title: u, path: q },
        ) => t@ == u@ && opt_text(p) == opt_text(q),
        _ => false,
    }
}

/// Two additions with the same values.
pub open spec fn same_addition(a: TypeOfAdds, b: TypeOfAdds) -> bool {
    match (a, b) {
        (TypeOfAdds::Lang { language_name: x }, TypeOfAdds::Lang { language_name: y }) => x@ == y@,
        (
            TypeOfAdds::Project { project_path: p, project_name: n, language: l },
            TypeOfAdds::Project { project_path: q, project_name: m, language: k },
        ) => p@ == q@ && n@ == m@ && l@ == k@,
        (
            TypeOfAdds::Todo { todo_title: t, path: p },
            TypeOfAdds::Todo { todo_title: u, path: q },
        ) => t@ == u@ && opt_text(p) == opt_text(q),
        _ => false,
    }
}

/// Two commands with the same values, every field and optional path included.
pub open spec fn same_command(a: Commands, b: Commands) -> bool {
    match (a, b) {
        (Commands::Retrieve { host: x }, Commands::Retrieve { host: y }) => x@ == y@,
        (Commands::Store { host: x }, Commands::Store { host: y }) => x@ == y@,
        (Commands::Move { name: x }, Commands::Move { name: y }) => x@ == y@,
        (Commands::Attach, Commands::Attach) => true,
        (Commands::Todo { action: x }, Commands::Todo { action: y }) => same_todo_action(x, y),
        (Commands::Add { add_type: x }, Commands::Add { add_type: y }) => same_addition(x, y),
        (
            Commands::Show { searchterm: s, lang_query: l, gui: g },
            Commands::Show { searchterm: t, lang_query: m, gui: h },
        ) => s@ == t@ && l == m && g == h,
        _ => false,
    }
}

/// The arguments of a command determine it: two commands with the same
/// arguments have the same values, every field and optional path included.
/// So nothing of a command is lost on its way to the process that runs it.
pub proof fn lemma_commands_args_determine_command(a: Commands, b: Commands)
    requires
        commands_args(a) == commands_args(b),
    ensures
        same_command(a, b),
{
    reveal_strlit("retrieve");
    reveal_strlit("--host");
    reveal_strlit("store");
    reveal_strlit("move");
    reveal_strlit("todo");
    reveal_strlit("add");
    reveal_strlit("attach");
    reveal_strlit("show");
    reveal_strlit("-lang_query");
    reveal_strlit("--gui");
    reveal_strlit("lang");
    reveal_strlit("project");
    reveal_strlit("-l");
    let x = commands_args(a);
    let y = commands_args(b);
    assert("retrieve"@.len() == 8 && "store"@.len() == 5 && "move"@.len() == 4 && "todo"@.len()
        == 4 && "add"@.len() == 3 && "attach"@.len() == 6 && "show"@.len() == 4
        && "-lang_query"@.len() == 11 && "--gui"@.len() == 5 && "lang"@.len() == 4
        && "project"@.len() == 7);
    assert("move"@[0] == 'm' && "todo"@[0] == 't' && "show"@[0] == 's' && "lang"@[0] == 'l');
    assert(x.len() == y.len());
    assert(x[0] == y[0]);
    if x.len() > 1 {
        assert(x[1] == y[1]);
    }
    if x.len() > 2 {
        assert(x[2] == y[2]);
    }
    if x.len() > 3 {
        assert(x[3] == y[3]);
    }
    if x.len() > 4 {
        assert(x[4] == y[4]);
    }
    if x.len() > 5 {
        assert(x[5] == y[5]);
    }
}

/// What the daemon does for a command.
#[derive(Debug)]
pub enum CliAction {
    /// Relay the log to the client.
    Attach,
    /// Decrypt and show the secret stored for `host`.
    Retrieve { host: String },
    /// Ask for a secret and store it for `host`.
    Store { host: String },
    /// Register a language and print it.
    AddLanguage { language_name: String },
    /// Register a project and print it.
    AddProject { project_path: String, project_name: String, language: String },
    /// Run the command, with these arguments, in a process of its own.
    Spawn { args: Vec<String> },
    /// Print the path of the project called `name`.
    Move { name: String },
    /// Print the languages or projects matching `searchterm`; where `spawn`
    /// holds arguments, first open the command's window in a process of its
    /// own.
    Query { searchterm: String, languages: bool, spawn: Option<Vec<String>> },
}

/// `a` is what the daemon does for command `c`.
pub open spec fn plans(c: Commands, a: CliAction) -> bool {
    match c {
        Commands::Attach => a is Attach,
        Commands::Retrieve { host } => a matches CliAction::Retrieve { host: h } && h@ == host@,
        Commands::Store { host } => a matches CliAction::Store { host: h } && h@ == host@,
        Commands::Add { add_type } => match add_type {
            TypeOfAdds::Lang { language_name } => a matches CliAction::AddLanguage {
                language_name: n,
            } && n@ == language_name@,
            TypeOfAdds::Project { project_path, project_name, language } => a matches CliAction::AddProject {
                project_path: p,
                project_name: n,
                language: l,
            } && p@ == project_path@ && n@ == project_name@ && l@ == language@,
            TypeOfAdds::Todo { .. } => a matches CliAction::Spawn { args } && args.deep_view()
                == commands_args(c),
        },
        Commands::Move { name } => a matches CliAction::Move { name: n } && n@ == name@,
        Commands::Todo { .. } => a matches CliAction::Spawn { args } && args.deep_view()
            == commands_args(c),
        Commands::Show { searchterm, lang_query, gui } => a matches CliAction::Query {
            searchterm: s,
            languages: l,
            spawn,
        } && s@ == searchterm@ && l == lang_query && (if gui {
            spawn matches Some(args) && args.deep_view() == commands_args(c)
        } else {
            spawn is None
        }),
    }
}

/// Where the line reporting how long a command took goes: to the client, to
/// the log only, or nowhere.
#[derive(Clone, Copy, Debug, PartialEq, Eq, Structural)]
pub enum TimeReport {
    Client,
    Log,
    Skipped,
}

/// Where the timing line of an action goes: a move answers with a bare path,
/// so its timing goes to the log; a command handed to a process of its own
/// reports no timing; every other action tells the client.
pub open spec fn time_report_of(a: CliAction) -> TimeReport {
    match a {
        CliAction::Move { .. } => TimeReport::Log,
        CliAction::Spawn { .. } => TimeReport::Skipped,
        _ => TimeReport::Client,
    }
}

impl CliAction {
    /// Where the timing line of this action goes.
    pub fn time_report(&self) -> (r: TimeReport)
        ensures
            r == time_report_of(*self),
    {
        match self {
            CliAction::Move { .. } => TimeReport::Log,
            CliAction::Spawn { .. } => TimeReport::Skipped,
            _ => TimeReport::Client,
        }
    }
}

/// The notice sent to the client before the todos are shown in a process of
/// their own.
pub open spec fn spawn_notice_text(c: Commands) -> Option<Seq<char>> {
    match c {
        Commands::Todo { action: TodoActions::Show { .. } } => Some(
            "properly entered the spawning phase..."@,
        ),
        _ => None,
    }
}

impl Cli {
    /// The notice sent to the client before a command is handed to a process
    /// of its own, where there is one.
    pub fn spawn_notice(&self) -> (r: Option<String>)
        ensures
            match r {
                Some(s) => spawn_notice_text(self.command) == Some(s@),
                None => spawn_notice_text(self.command) is None,
            },
    {
        match &self.command {
            Commands::Todo { action: TodoActions::Show { .. } } => Some(
                "properly entered the spawning phase...".to_string(),
            ),
            _ => None,
        }
    }

    /// What the daemon does for this command.
    pub fn plan(&self) -> (r: CliAction)
        ensures
            plans(self.command, r),
    {
        match &self.command {
            Commands::Attach => CliAction::Attach,
            Commands::Retrieve { host } => CliAction::Retrieve { host: host.clone() },
            Commands::Store { host } => CliAction::Store { host: host.clone() },
            Commands::Add { add_type } => match add_type {
                TypeOfAdds::Lang { language_name } => CliAction::AddLanguage {
                    language_name: language_name.clone(),
                },
                TypeOfAdds::Project { project_path, project_name, language } => CliAction::AddProject {
                    project_path: project_path.clone(),
                    project_name: project_name.clone(),
                    language: language.clone(),
                },
                TypeOfAdds::Todo { .. } => CliAction::Spawn { args: self.command.to_args() },
            },
            Commands::Move { name } => CliAction::Move { name: name.clone() },
            Commands::Todo { .. } => CliAction::Spawn { args: self.command.to_args() },
            Commands::Show { searchterm, lang_query, gui } => {
                let spawn = if *gui {
                    Some(self.command.to_args())
                } else {
                    None
                };
                CliAction::Query { searchterm: searchterm.clone(), languages: *lang_query, spawn }
            },
        }
    }
}

/// What a command run outside the daemon does.
#[derive(Debug)]
pub enum SyncAction {
    /// Show the todos of the project at `path` (the current directory where
    /// there is none), with a new todo titled `todo_title` if given.
    OpenTodo { path: Option<String>, todo_title: Option<String> },
    /// Show the project called `searchterm`.
    ShowProject { searchterm: String },
    /// The command is only served by the daemon.
    Unsupported,
}

/// Text of an optional string.
pub open spec fn opt_text(o: Option<String>) -> Option<Seq<char>> {
    match o {
        Some(s) => Some(s@),
        None => None,
    }
}

/// `a` is what command `c` does outside the daemon.
pub open spec fn sync_plans(c: Commands, a: SyncAction) -> bool {
    match c {
        Commands::Add { add_type: TypeOfAdds::Todo { todo_title, path } } => a matches SyncAction::OpenTodo {
            path: p,
            todo_title: t,
        } && opt_text(p) == opt_text(path) && opt_text(t) == Some(todo_title@),
        Commands::Todo { action: TodoActions::Show { path } } => a matches SyncAction::OpenTodo {
            path: p,
            todo_title: t,
        } && opt_text(p) == opt_text(path) && t is None,
        Commands::Todo { action: TodoActions::Add { todo_title, path } } => a matches SyncAction::OpenTodo {
            path: p,
            todo_title: t,
        } && opt_text(p) == opt_text(path) && opt_text(t) == Some(todo_title@),
        Commands::Show { searchterm, .. } => a matches SyncAction::ShowProject { searchterm: s }
            && s@ == searchterm@,
        _ => a is Unsupported,
    }
}

/// The title of the todo a command asks to add, where it asks for one.
pub open spec fn requested_todo_title(c: Commands) -> Option<Seq<char>> {
    match c {
        Commands::Add { add_type: TypeOfAdds::Todo { todo_title, .. } } => Some(todo_title@),
        Commands::Todo { action: TodoActions::Add { todo_title, .. } } => Some(todo_title@),
        _ => None,
    }
}

/// The path of the project whose todos a command is about, where it is one of
/// the todo commands.
pub open spec fn requested_todo_path(c: Commands) -> Option<Option<Seq<char>>> {
    match c {
        Commands::Add { add_type: TypeOfAdds::Todo { path, .. } } => Some(opt_text(path)),
        Commands::Todo { action: TodoActions::Add { path, .. } } => Some(opt_text(path)),
        Commands::Todo { action: TodoActions::Show { path } } => Some(opt_text(path)),
        _ => None,
    }
}

/// Outside the daemon, every todo command opens the todos of the project at
/// the command's path, and a command that carries a todo title adds a todo
/// with exactly that title; a command that carries none adds none.
pub proof fn lemma_sync_plan_keeps_title(c: Commands, a: SyncAction)
    requires
        sync_plans(c, a),
        requested_todo_path(c) is Some,
    ensures
        a is OpenTodo,
        opt_text(a->OpenTodo_path) == requested_todo_path(c).unwrap(),
        opt_text(a->OpenTodo_todo_title) == requested_todo_title(c),
{
}

fn clone_opt(o: &Option<String>) -> (r: Option<String>)
    ensures
        opt_text(r) == opt_text(*o),
{
    match o {
        Some(s) => Some(s.clone()),
        None => None,
    }
}

impl SynchronousCli {
    /// What the command does outside the daemon.
    pub fn plan(&self) -> (r: SyncAction)
        ensures
            sync_plans(self.command, r),
    {
        match &self.command {
            Commands::Add { add_type: TypeOfAdds::Todo { todo_title, path } } => SyncAction::OpenTodo {
                path: clone_opt(path),
                todo_title: Some(todo_title.clone()),
            },
            Commands::Todo { action } => match action {
                TodoActions::Show { path } => SyncAction::OpenTodo {
                    path: clone_opt(path),
                    todo_title: None,
                },
                TodoActions::Add { todo_title, path } => SyncAction::OpenTodo {
                    path: clone_opt(path),
                    todo_title: Some(todo_title.clone()),
                },
            },
            Commands::Show { searchterm, .. } => SyncAction::ShowProject {
                searchterm: searchterm.clone(),
            },
            _ => SyncAction::Unsupported,
        }
    }
}

/// What a command the synchronous command line does not serve prints.
pub fn default_sync_msg() -> (r: String)
    ensures
        r@ == "The synchronous CLI does not support this action."@,
{
    "The synchronous CLI does not support this action.".to_string()
}

/// Header of a query's result table.
pub open spec fn query_header_text(languages: bool, n: nat) -> Seq<char> {
    if languages {
        "Language query result : "@ + decimal(n as int) + " language(s)"@
    } else {
        "Project query result : "@ + decimal(n as int) + " project(s)"@
    }
}

/// Header of a query's result table: what was queried and how many rows.
pub fn query_header(languages: bool, n: usize) -> (r: String)
    ensures
        r@ == query_header_text(languages, n as nat),
{
    let mut s = String::new();
    if languages {
        push_str(&mut s, "Language query result : ");
        push_decimal_u64(&mut s, n as u64);
        push_str(&mut s, " language(s)");
    } else {
        push_str(&mut s, "Project query result : ");
        push_decimal_u64(&mut s, n as u64);
        push_str(&mut s, " project(s)");
    }
    s
}

/// The line that reports how long a command took.
pub fn query_time_message(millis: u64) -> (r: String)
    ensures
        r@ == "Total query time : "@ + decimal(millis as int) + " ms."@,
{
    let mut s = String::new();
    push_str(&mut s, "Total query time : ");
    push_decimal_u64(&mut s, millis);
    push_str(&mut s, " ms.");
    s
}

/// Table settings of the daemon's answers: default body, blue first row,
/// magenta first column, under a "Query result :" header.
pub fn default_table_settings() -> (r: TablingOptionsBuilder)
    ensures
        r.color matches Some(Some(c)) && c@ == "default"@,
        r.first_row_color matches Some(Some(c)) && c@ == "blue"@,
        r.first_col_color matches Some(Some(c)) && c@ == "magenta"@,
        r.header matches Some(Some(h)) && h@ == "Query result :"@,
{
    TablingOptionsBuilder {
        color: Some(Some("default".to_string())),
        first_row_color: Some(Some("blue".to_string())),
        first_col_color: Some(Some("magenta".to_string())),
        header: Some(Some("Query result :".to_string())),
    }
}

/// Warning about a registered project whose path no longer exists.
pub open spec fn missing_project_text(path: Seq<char>, name: Seq<char>) -> Seq<char> {
    "The path "@ + path + " cannot be found. Consider removing or disabling the project ("@ + name
        + ") ..."@
}

/// Project `i` resolved to the target path.
pub open spec fn first_match(target: PathModel, canonical: Seq<Option<FsPath>>, i: int) -> bool {
    canonical[i] matches Some(p) && p@ == target
}

/// Warnings about the projects among the first `upto` whose path could not
/// be resolved, in order.
pub open spec fn missing_texts(
    projects: Seq<ProjectWithLanguageName>,
    canonical: Seq<Option<FsPath>>,
    upto: int,
) -> Seq<Seq<char>>
    decreases upto,
{
    if upto <= 0 {
        seq![]
    } else if canonical[upto - 1] is None {
        missing_texts(projects, canonical, upto - 1).push(
            missing_project_text(projects[upto - 1].path@, projects[upto - 1].name@),
        )
    } else {
        missing_texts(projects, canonical, upto - 1)
    }
}

/// Finds the project a directory belongs to. `canonical[i]` is the resolved
/// path of project `i`, or `None` where it cannot be resolved; every such
/// project met before the match gets a warning that asks for confirmation.
pub fn find_project(
    target: &FsPath,
    projects: &Vec<ProjectWithLanguageName>,
    canonical: &Vec<Option<FsPath>>,
) -> (r: (Option<usize>, Vec<Warning>))
    requires
        canonical@.len() == projects@.len(),
    ensures
        match r.0 {
            Some(i) => i < projects@.len() && first_match(target@, canonical@, i as int) && forall|
                j: int,
            |
                0 <= j < i ==> !first_match(target@, canonical@, j),
            None => forall|j: int| 0 <= j < projects@.len() ==> !first_match(target@, canonical@, j),
        },
        r.1@.len() == missing_texts(
            projects@,
            canonical@,
            match r.0 {
                Some(i) => i as int,
                None => projects@.len() as int,
            },
        ).len(),
        forall|k: int|
            0 <= k < r.1@.len() ==> (#[trigger] r.1@[k]).confirmation && r.1@[k].message@
                == missing_texts(
                projects@,
                canonical@,
                match r.0 {
                    Some(i) => i as int,
                    None => projects@.len() as int,
                },
            )[k],
{
    let mut warnings: Vec<Warning> = Vec::new();
    let mut i: usize = 0;
    while i < projects.len()
        invariant
            i <= projects@.len(),
            canonical@.len() == projects@.len(),
            forall|j: int| 0 <= j < i ==> !first_match(target@, canonical@, j),
            warnings@.len() == missing_texts(projects@, canonical@, i as int).len(),
            forall|k: int|
                0 <= k < warnings@.len() ==> (#[trigger] warnings@[k]).confirmation
                    && warnings@[k].message@ == missing_texts(projects@, canonical@, i as int)[k],
        decreases projects.len() - i,
    {
        match &canonical[i] {
            Some(p) => {
                if paths_equal_ref(target, p) {
                    return (Some(i), warnings);
                }
            },
            None => {
                let project = &projects[i];
                let mut msg = String::new();
                push_str(&mut msg, "The path ");
                push_str(&mut msg, project.path.as_str());
                push_str(&mut msg, " cannot be found. Consider removing or disabling the project (");
                push_str(&mut msg, project.name.as_str());
                push_str(&mut msg, ") ...");
                assert(msg@ =~= missing_project_text(project.path@, project.name@));
                warnings.push(Warning::new(msg.as_str(), true));
            },
        }
        i = i + 1;
    }
    (None, warnings)
}

fn paths_equal_ref(a: &FsPath, b: &FsPath) -> (r: bool)
    ensures
        r == (a@ == b@),
{
    crate::paths::paths_equal(a, b)
}

} // verus!
