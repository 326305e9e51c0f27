//! Records stored in the project database.

use vstd::prelude::*;

verus! {

/// A registered project.
#[derive(Clone, Debug)]
pub struct Project {
    pub id: i32,
    pub name: String,
    pub path: String,
    pub language_id: i32,
}

/// A project to register.
#[derive(Clone, Debug)]
pub struct NewProject {
    pub name: String,
    pub path: String,
    pub language_id: i32,
}

/// A programming language projects are registered under.
#[derive(Clone, Debug)]
pub struct Language {
    pub id: i32,
    pub name: String,
}

/// A language to register.
#[derive(Clone, Debug)]
pub struct NewLanguage {
    pub name: String,
}

/// A project together with the name of its language.
#[derive(Clone, Debug)]
pub struct ProjectWithLanguageName {
    pub id: i32,
    pub name: String,
    pub path: String,
    pub language_name: String,
}

impl ProjectWithLanguageName {
    /// Joins a project with the name of its language.
    pub fn new(joined: (Project, String)) -> (r: ProjectWithLanguageName)
        ensures
            r.id == joined.0.id,
            r.name == joined.0.name,
            r.path == joined.0.path,
            r.language_name == joined.1,
    {
        let (project, language_name) = joined;
        ProjectWithLanguageName {
            id: project.id,
            name: project.name,
            path: project.path,
            language_name,
        }
    }
}

/// The holder of the master password: its PHC hash string.
#[derive(Clone, Debug)]
pub struct MasterUser {
    pub id: i32,
    pub hash: String,
}

/// A master password hash to store.
#[derive(Clone, Debug)]
pub struct NewMasterUser {
    pub hash: String,
}

/// Link between a project and a stored secret.
#[derive(Clone, Debug)]
pub struct ProjectsCryptoData {
    pub id: i32,
    pub crypto_data_id: i32,
    pub project_id: i32,
}

/// A stored secret: base64 ciphertext, the host it is for, and its nonce as
/// comma separated decimal bytes.
#[derive(Clone, Debug)]
pub struct CryptoData {
    pub id: i32,
    pub encrypted: String,
    pub host: String,
    pub nonce: String,
}

/// A secret to store.
#[derive(Clone, Debug)]
pub struct NewCryptoData {
    pub encrypted: String,
    pub host: String,
    pub nonce: String,
}

/// A todo as it is saved: `new` tells whether it still has to be inserted.
#[derive(Clone, Debug)]
pub struct FormattedTodo {
    pub id: i32,
    pub title: String,
    pub subtitle: String,
    pub content: String,
    pub project_id: i32,
    pub new: bool,
}

/// Text that stands for an absent subtitle or content.
pub open spec fn or_none_text(o: Option<String>) -> Seq<char> {
    match o {
        Some(s) => s@,
        None => seq!['N', 'o', 'n', 'e'],
    }
}

fn none_text() -> (s: String)
    ensures
        s@ == seq!['N', 'o', 'n', 'e'],
{
    let s = String::from_str("None");
    proof {
        reveal_strlit("None");
    }
    s
}

impl FormattedTodo {
    /// A stored todo in saved form; an absent subtitle or content reads "None".
    pub fn from_todo(value: Todo) -> (r: FormattedTodo)
        ensures
            r.id == value.id,
            r.title == value.title,
            r.subtitle@ == or_none_text(value.subtitle),
            r.content@ == or_none_text(value.content),
            r.project_id == value.project_id,
            !r.new,
    {
        let subtitle = match value.subtitle {
            Some(s) => s,
            None => none_text(),
        };
        let content = match value.content {
            Some(s) => s,
            None => none_text(),
        };
        FormattedTodo {
            id: value.id,
            title: value.title,
            subtitle,
            content,
            project_id: value.project_id,
            new: false,
        }
    }
}

/// A project as it is saved: `new` tells whether it still has to be inserted.
#[derive(Clone, Debug)]
pub struct FormattedProject {
    pub id: i32,
    pub language_id: i32,
    pub name: String,
    pub path: String,
    pub new: bool,
}

/// A stored todo.
#[derive(Clone, Debug)]
pub struct Todo {
    pub id: i32,
    pub title: String,
    pub subtitle: Option<String>,
    pub content: Option<String>,
    pub project_id: i32,
}

/// A todo to insert.
#[derive(Clone, Debug)]
pub struct NewTodo {
    pub title: String,
    pub subtitle: Option<String>,
    pub content: Option<String>,
    pub project_id: i32,
}

/// New text for a stored todo.
#[derive(Clone, Debug)]
pub struct UpdateTodo {
    pub id: i32,
    pub title: String,
    pub subtitle: Option<String>,
    pub content: Option<String>,
    pub project_id: i32,
}

/// A tag.
#[derive(Clone, Debug)]
pub struct Tag {
    pub id: i32,
    pub name: String,
}

/// A tag to insert.
#[derive(Clone, Debug)]
pub struct NewTag {
    pub name: String,
}

/// Link between a todo and a tag.
#[derive(Clone, Debug)]
pub struct TodoTag {
    pub id: i32,
    pub tag_id: i32,
    pub todo_id: i32,
}

/// A link between a todo and a tag to insert.
#[derive(Clone, Debug)]
pub struct NewTodoTag {
    pub tag_id: i32,
    pub todo_id: i32,
}

/// A stored SSH target.
#[derive(Clone, Debug)]
pub struct Ssh {
    pub id: i32,
    pub name: String,
    pub pw_name: String,
    pub host: String,
    pub user: String,
}

/// An SSH target to store.
#[derive(Clone, Debug)]
pub struct NewStoredSsh {
    pub name: String,
    pub pw_name: String,
    pub host: String,
    pub user: String,
}

/// Link between an SSH target and a project.
#[derive(Clone, Debug)]
pub struct SSHProjects {
    pub id: i32,
    pub ssh_id: i32,
    pub project_id: i32,
}

/// A link between an SSH target and a project to insert.
#[derive(Clone, Debug)]
pub struct NewProjectSsh {
    pub ssh_id: i32,
    pub project_id: i32,
}

} // verus!
