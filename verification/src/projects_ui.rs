//! The editable form of a project.

use vstd::prelude::*;
use vstd::utf8::*;

use crate::editor::{extract_name_gid, todo_gid, todo_name, Modified, TodoId};
use crate::models::{FormattedProject, Language, Project};
use crate::text::{push_str, decimal, push_decimal_i64};
use crate::ui::{LogEntry, Success, SuccessType};

verus! {

broadcast use {encode_utf8_decode_utf8, is_char_boundary_start_end_of_seq};

/// A project being edited, with backups of its name and path.
#[derive(Debug)]
pub struct ProjectEditor {
    pub id: TodoId,
    pub gid: String,
    pub project_name: String,
    /// Backup of the project name.
    pub back_up: String,
    pub name: String,
    pub path: String,
    /// Backup of the path.
    pub path_backup: String,
    pub language: Language,
    pub modified: bool,
}

fn copy_language(l: &Language) -> (r: Language)
    ensures
        r.id == l.id,
        r.name@ == l.name@,
{
    Language { id: l.id, name: l.name.clone() }
}

impl Modified for ProjectEditor {
    open spec fn changed(&self) -> bool {
        self.project_name@ != self.back_up@ || self.path@ != self.path_backup@
    }

    fn is_modified(&self) -> (r: bool) {
        self.project_name != self.back_up || self.path != self.path_backup
    }

    fn reset(&mut self)
        ensures
            final(self).path@ == old(self).path_backup@,
            final(self).project_name@ == old(self).back_up@,
            final(self).path_backup == old(self).path_backup,
            final(self).back_up == old(self).back_up,
            final(self).id == old(self).id,
            final(self).name == old(self).name,
            final(self).gid == old(self).gid,
            final(self).language == old(self).language,
            final(self).modified == old(self).modified,
    {
        self.path = self.path_backup.clone();
        self.project_name = self.back_up.clone();
    }

    fn replace(&mut self)
        ensures
            final(self).path_backup@ == old(self).path@,
            final(self).back_up@ == old(self).project_name@,
            final(self).path == old(self).path,
            final(self).project_name == old(self).project_name,
            final(self).id == old(self).id,
            final(self).name == old(self).name,
            final(self).gid == old(self).gid,
            final(self).language == old(self).language,
            final(self).modified == old(self).modified,
    {
        self.path_backup = self.path.clone();
        self.back_up = self.project_name.clone();
    }
}

impl Default for ProjectEditor {
    fn default() -> (r: Self)
        ensures
            r.id == TodoId::Stored(0),
            r.gid@ == todo_gid(TodoId::Stored(0)),
            r.name@ == todo_name(TodoId::Stored(0), "Default project name"@),
            r.project_name@ == "Default project name"@,
            r.path@ == "/some/path"@,
            r.language.id == 0,
            r.language.name@ == "None"@,
            !r.changed(),
            r.modified,
    {
        let project_name = "Default project name";
        let path = "/some/path";
        let id = TodoId::Stored(0);
        let language = Language { id: 0, name: "None".to_string() };
        let (name, gid) = extract_name_gid(&id, project_name);
        Self {
            id,
            gid,
            language,
            project_name: project_name.to_string(),
            back_up: project_name.to_string(),
            name,
            path_backup: path.to_string(),
            path: path.to_string(),
            modified: true,
        }
    }
}

/// Message after saving a new project.
pub open spec fn created_text(name: Seq<char>) -> Seq<char> {
    "Successfully created project "@ + name + "."@
}

/// Message after saving a stored project.
pub open spec fn updated_text(name: Seq<char>, id: i32) -> Seq<char> {
    "Updated todo ("@ + name + ", id "@ + decimal(id as int) + ") successfully."@
}

/// A name cut to its first 28 bytes, with an ellipsis where it was longer.
pub open spec fn truncated_name(name: Seq<char>) -> Seq<char> {
    if encode_utf8(name).len() > 28 {
        decode_utf8(encode_utf8(name).subrange(0, 28)) + "..."@
    } else {
        name
    }
}

impl ProjectEditor {
    /// Renames the window after the project name.
    pub fn update_name(&mut self)
        ensures
            final(self).name@ == todo_name(old(self).id, old(self).project_name@),
            final(self).id == old(self).id,
            final(self).project_name == old(self).project_name,
            final(self).gid == old(self).gid,
            final(self).path == old(self).path,
            final(self).back_up == old(self).back_up,
            final(self).path_backup == old(self).path_backup,
            final(self).language == old(self).language,
            final(self).modified == old(self).modified,
    {
        let (name, _) = extract_name_gid(&self.id, self.project_name.as_str());
        self.name = name;
    }

    /// The default project, stored under `id`.
    pub fn id_default(id: i32) -> (r: Self)
        ensures
            r.id == TodoId::Stored(id),
            r.gid@ == todo_gid(TodoId::Stored(id)),
            r.name@ == todo_name(TodoId::Stored(id), "Default project name"@),
            r.project_name@ == "Default project name"@,
            r.path@ == "/some/path"@,
            r.language.id == 0,
            r.language.name@ == "None"@,
            !r.changed(),
    {
        let mut td = ProjectEditor::default();
        td.id = TodoId::Stored(id);
        let (name, gid) = extract_name_gid(&td.id, td.project_name.as_str());
        td.gid = gid;
        td.name = name;
        td
    }

    /// A project editor whose backups hold its starting values.
    pub fn new(path: &str, project_name: &str, language: &Language, id: TodoId) -> (r: Self)
        ensures
            r.id == id,
            r.gid@ == todo_gid(id),
            r.name@ == todo_name(id, project_name@),
            r.project_name@ == project_name@,
            r.back_up@ == project_name@,
            r.path@ == path@,
            r.path_backup@ == path@,
            r.language.id == language.id,
            r.language.name@ == language.name@,
            !r.modified,
            !r.changed(),
    {
        let (name, gid) = extract_name_gid(&id, project_name);
        Self {
            id,
            gid,
            language: copy_language(language),
            project_name: project_name.to_string(),
            back_up: project_name.to_string(),
            name,
            path: path.to_string(),
            path_backup: path.to_string(),
            modified: false,
        }
    }

    /// An editor for a stored project of the given language.
    pub fn from_project(value: &Project, language: &Language) -> (r: Self)
        ensures
            r.id == TodoId::Stored(value.id),
            r.project_name@ == value.name@,
            r.path@ == value.path@,
            r.language.id == language.id,
            !r.changed(),
    {
        Self::new(value.path.as_str(), value.name.as_str(), language, TodoId::Stored(value.id))
    }

    /// An editor for a project in saved form, of the given language.
    pub fn from_formatted(value: &FormattedProject, language: &Language) -> (r: Self)
        ensures
            r.id == (if value.new {
                TodoId::New(value.id)
            } else {
                TodoId::Stored(value.id)
            }),
            r.project_name@ == value.name@,
            r.path@ == value.path@,
            r.language.id == language.id,
            !r.changed(),
    {
        let id = if value.new {
            TodoId::New(value.id)
        } else {
            TodoId::Stored(value.id)
        };
        Self::new(value.path.as_str(), value.name.as_str(), language, id)
    }

    /// The project in saved form.
    pub fn to_saved_format(&self) -> (r: FormattedProject)
        ensures
            r.id == (match self.id {
                TodoId::New(n) => n,
                TodoId::Stored(n) => n,
            }),
            r.new == (self.id is New),
            r.language_id == self.language.id,
            r.name@ == self.project_name@,
            r.path@ == self.path@,
    {
        let (new, id) = match self.id {
            TodoId::New(id) => (true, id),
            TodoId::Stored(id) => (false, id),
        };
        FormattedProject {
            id,
            language_id: self.language.id,
            name: self.project_name.clone(),
            path: self.path.clone(),
            new,
        }
    }

    /// The log entry of saving the project: a new one is created, a stored
    /// one reported as updated.
    pub fn save_message(&self) -> (r: LogEntry)
        ensures
            r matches Ok(s) && s.kind() == SuccessType::Database && s.text() == (if self.id is New {
                created_text(self.project_name@)
            } else {
                updated_text(
                    self.project_name@,
                    match self.id {
                        TodoId::New(n) => n,
                        TodoId::Stored(n) => n,
                    },
                )
            }),
    {
        let project = self.to_saved_format();
        let mut m = String::new();
        if project.new {
            push_str(&mut m, "Successfully created project ");
            push_str(&mut m, project.name.as_str());
            push_str(&mut m, ".");
            assert(m@ =~= created_text(self.project_name@));
        } else {
            push_str(&mut m, "Updated todo (");
            push_str(&mut m, project.name.as_str());
            push_str(&mut m, ", id ");
            push_decimal_i64(&mut m, project.id as i64);
            push_str(&mut m, ") successfully.");
        }
        Ok(Success::new(m, SuccessType::Database))
    }

    /// The window title, cut to 28 bytes with an ellipsis.
    pub fn name_truncated(&self) -> (r: String)
        requires
            encode_utf8(self.name@).len() > 28 ==> is_char_boundary(encode_utf8(self.name@), 28),
        ensures
            r@ == truncated_name(self.name@),
    {
        let s = self.name.as_str();
        if s.as_bytes().len() > 28 {
            let (head, _) = s.split_at(28);
            let mut name = head.to_string();
            push_str(&mut name, "...");
            assert(encode_utf8(head@) == encode_utf8(self.name@).subrange(0, 28));
            name
        } else {
            self.name.clone()
        }
    }
}

} // verus!
