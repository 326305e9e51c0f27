//! The editable form of a todo.

use vstd::prelude::*;

use crate::models::{FormattedTodo, Todo};
use crate::text::{push_str, decimal, push_decimal_i64};

verus! {

/// Identity of a todo: `New` for one not yet saved (numbered in its list),
/// `Stored` for one saved under a database id.
#[derive(Clone, Copy, Debug, PartialEq, Eq, Structural)]
pub enum TodoId {
    New(i32),
    Stored(i32),
}

/// Editors that keep a backup of the values they edit.
pub trait Modified {
    /// Whether some edited value differs from its backup.
    spec fn changed(&self) -> bool;

    ///Returns whether the struct's fields are different from the backed up fields.
    fn is_modified(&self) -> (r: bool)
        ensures
            r == self.changed(),
    ;

    ///Resets the fields to their backed up values.
    fn reset(&mut self)
        ensures
            !final(self).changed(),
    ;

    ///Replaces the backed up value with the current values. Should be used when saving the value.
    fn replace(&mut self)
        ensures
            !final(self).changed(),
    ;
}

/// Window title of a todo: its identity and its title.
pub open spec fn todo_name(id: TodoId, title: Seq<char>) -> Seq<char> {
    match id {
        TodoId::New(n) => "New ["@ + decimal(n as int) + "] - "@ + title,
        TodoId::Stored(n) => "["@ + decimal(n as int) + "] - "@ + title,
    }
}

/// Unique key of a todo's window, made from its identity alone.
pub open spec fn todo_gid(id: TodoId) -> Seq<char> {
    match id {
        TodoId::New(n) => "NEW-["@ + decimal(n as int) + "]"@,
        TodoId::Stored(n) => "["@ + decimal(n as int) + "]"@,
    }
}

/// Formats a unique string (based on Id that shouldn't change... except when saving, but we can
/// not change the gid... maybe) and a title for the window
pub fn extract_name_gid(id: &TodoId, title: &str) -> (r: (String, String))
    ensures
        r.0@ == todo_name(*id, title@),
        r.1@ == todo_gid(*id),
{
    let mut name = String::new();
    let mut gid = String::new();
    match id {
        TodoId::New(n) => {
            push_str(&mut name, "New [");
            push_decimal_i64(&mut name, *n as i64);
            push_str(&mut name, "] - ");
            push_str(&mut name, title);
            push_str(&mut gid, "NEW-[");
            push_decimal_i64(&mut gid, *n as i64);
            push_str(&mut gid, "]");
            assert(name@ =~= todo_name(*id, title@));
            assert(gid@ =~= todo_gid(*id));
        },
        TodoId::Stored(n) => {
            push_str(&mut name, "[");
            push_decimal_i64(&mut name, *n as i64);
            push_str(&mut name, "] - ");
            push_str(&mut name, title);
            push_str(&mut gid, "[");
            push_decimal_i64(&mut gid, *n as i64);
            push_str(&mut gid, "]");
            assert(name@ =~= todo_name(*id, title@));
            assert(gid@ =~= todo_gid(*id));
        },
    }
    (name, gid)
}

proof fn lemma_strip_affixes(p: Seq<char>, a: Seq<char>, b: Seq<char>, q: Seq<char>)
    requires
        p + a + q == p + b + q,
    ensures
        a == b,
{
    let x = p + a + q;
    assert(a =~= x.subrange(p.len() as int, x.len() - q.len()));
    assert(b =~= (p + b + q).subrange(p.len() as int, x.len() - q.len()));
}

/// Different todo identities give different window keys.
pub proof fn lemma_gid_unique(a: TodoId, b: TodoId)
    requires
        a != b,
    ensures
        todo_gid(a) != todo_gid(b),
{
    reveal_strlit("NEW-[");
    reveal_strlit("[");
    reveal_strlit("]");
    if todo_gid(a) == todo_gid(b) {
        match (a, b) {
            (TodoId::New(x), TodoId::New(y)) => {
                lemma_strip_affixes("NEW-["@, decimal(x as int), decimal(y as int), "]"@);
                crate::text::lemma_decimal_injective(x as int, y as int);
            },
            (TodoId::Stored(x), TodoId::Stored(y)) => {
                lemma_strip_affixes("["@, decimal(x as int), decimal(y as int), "]"@);
                crate::text::lemma_decimal_injective(x as int, y as int);
            },
            (TodoId::New(x), TodoId::Stored(y)) => {
                assert(todo_gid(a)[0] == 'N');
                assert(todo_gid(b)[0] == '[');
            },
            (TodoId::Stored(x), TodoId::New(y)) => {
                assert(todo_gid(a)[0] == '[');
                assert(todo_gid(b)[0] == 'N');
            },
        }
    }
}

/// The text a todo's code starts with by default.
pub open spec fn default_code() -> Seq<char> {
    "// A very simple \n\n example
*fn main()* {\n\
\tprintln!(\"***Hello world!***\");\r\n\
}\n\
"@
}

/// A todo being edited, with backups of its code, title and subtitle.
#[derive(Debug)]
pub struct TodoEditor {
    pub id: TodoId,
    pub project_id: i32,
    pub gid: String,
    pub language: String,
    pub code: String,
    /// Backup of the code.
    pub back_up: String,
    pub name: String,
    pub title: String,
    /// Backup of the title.
    pub title_backup: String,
    pub subtitle: String,
    /// Backup of the subtitle.
    pub subtitle_backup: String,
    pub modified: bool,
}

impl TodoEditor {
    /// Backup of the code.
    pub open spec fn saved_code(&self) -> Seq<char> {
        self.back_up@
    }

    /// Backup of the title.
    pub open spec fn saved_title(&self) -> Seq<char> {
        self.title_backup@
    }

    /// Backup of the subtitle.
    pub open spec fn saved_subtitle(&self) -> Seq<char> {
        self.subtitle_backup@
    }

    /// A todo editor whose backups hold its starting values.
    pub fn new(
        language: &str,
        title: &str,
        subtitle: &str,
        code: &str,
        id: TodoId,
        project_id: i32,
    ) -> (r: Self)
        ensures
            fresh_editor(r, language@, title@, subtitle@, code@, id, project_id),
            !r.changed(),
    {
        let (name, gid) = extract_name_gid(&id, title);
        TodoEditor {
            project_id,
            id,
            gid,
            language: language.to_string(),
            code: code.to_string(),
            back_up: code.to_string(),
            name,
            title: title.to_string(),
            title_backup: title.to_string(),
            subtitle: subtitle.to_string(),
            subtitle_backup: subtitle.to_string(),
            modified: false,
        }
    }

    /// The default todo, stored under `id`.
    pub fn id_default(id: i32) -> (r: Self)
        ensures
            r.id == TodoId::Stored(id),
            r.project_id == 0,
            r.gid@ == todo_gid(TodoId::Stored(id)),
            r.name@ == todo_name(TodoId::Stored(id), "Default title"@),
            r.language@ == "md"@,
            r.code@ == default_code(),
            r.title@ == "Default title"@,
            r.subtitle@ == "Default Subtitle"@,
            !r.changed(),
            r.modified,
    {
        let mut td = TodoEditor::default();
        td.id = TodoId::Stored(id);
        let (name, gid) = extract_name_gid(&td.id, td.title.as_str());
        td.gid = gid;
        td.name = name;
        td
    }

    /// The todo's heading: its title, then its subtitle one level lower.
    pub fn title_str(&self) -> (r: String)
        ensures
            r@ == title_text(self.title@, self.subtitle@),
    {
        let mut s = String::new();
        push_str(&mut s, "# ");
        push_str(&mut s, self.title.as_str());
        push_str(&mut s, "\n\n ## ");
        push_str(&mut s, self.subtitle.as_str());
        s
    }

    /// The todo as markdown: its heading, a blank line, then its code.
    pub fn to_display(&self) -> (r: String)
        ensures
            r@ == display_text(self.title@, self.subtitle@, self.code@),
    {
        let mut s = self.title_str();
        push_str(&mut s, "\n\n");
        push_str(&mut s, self.code.as_str());
        s
    }

    /// The window title.
    pub fn name(&self) -> (r: &str)
        ensures
            r@ == self.name@,
    {
        self.name.as_str()
    }

    /// The todo in saved form.
    pub fn to_saved_format(&self) -> (r: FormattedTodo)
        ensures
            r == saved_todo(*self),
    {
        let (id, is_new) = match self.id {
            TodoId::Stored(id) => (id, false),
            TodoId::New(id) => (id, true),
        };
        FormattedTodo {
            id,
            title: self.title.clone(),
            subtitle: self.subtitle.clone(),
            content: self.code.clone(),
            project_id: self.project_id,
            new: is_new,
        }
    }

    /// An editor for a todo in saved form, in markdown.
    pub fn from_saved(value: FormattedTodo) -> (r: Self)
        ensures
            edits_saved(r, value),
            fresh_editor(
                r,
                "md"@,
                value.title@,
                value.subtitle@,
                value.content@,
                if value.new {
                    TodoId::New(value.id)
                } else {
                    TodoId::Stored(value.id)
                },
                value.project_id,
            ),
    {
        let id = if value.new {
            TodoId::New(value.id)
        } else {
            TodoId::Stored(value.id)
        };
        TodoEditor::new(
            "md",
            value.title.as_str(),
            value.subtitle.as_str(),
            value.content.as_str(),
            id,
            value.project_id,
        )
    }

    /// An editor for a stored todo.
    pub fn from_todo(value: Todo) -> (r: Self)
        ensures
            fresh_editor(
                r,
                "md"@,
                value.title@,
                crate::models::or_none_text(value.subtitle),
                crate::models::or_none_text(value.content),
                TodoId::Stored(value.id),
                value.project_id,
            ),
            !r.changed(),
    {
        TodoEditor::from_saved(FormattedTodo::from_todo(value))
    }
}

/// `e` is the editor that `TodoEditor::new` makes of these values: its
/// window title and key follow from its identity, its backups hold the
/// starting values, and it is not marked modified.
pub open spec fn fresh_editor(
    e: TodoEditor,
    language: Seq<char>,
    title: Seq<char>,
    subtitle: Seq<char>,
    code: Seq<char>,
    id: TodoId,
    project_id: i32,
) -> bool {
    &&& e.id == id
    &&& e.project_id == project_id
    &&& e.gid@ == todo_gid(id)
    &&& e.name@ == todo_name(id, title)
    &&& e.language@ == language
    &&& e.code@ == code
    &&& e.back_up@ == code
    &&& e.title@ == title
    &&& e.title_backup@ == title
    &&& e.subtitle@ == subtitle
    &&& e.subtitle_backup@ == subtitle
    &&& !e.modified
}

/// A todo's heading.
pub open spec fn title_text(title: Seq<char>, subtitle: Seq<char>) -> Seq<char> {
    "# "@ + title + "\n\n ## "@ + subtitle
}

/// A todo as markdown.
pub open spec fn display_text(title: Seq<char>, subtitle: Seq<char>, code: Seq<char>) -> Seq<char> {
    title_text(title, subtitle) + "\n\n"@ + code
}

/// A todo's heading starts with `# ` and its title, whatever the subtitle,
/// and ends with its subtitle; its markdown starts with that heading and ends
/// with its code.
pub proof fn lemma_heading_shows_title(title: Seq<char>, subtitle: Seq<char>, code: Seq<char>)
    ensures
        title_text(title, subtitle).len() >= title.len() + 2,
        title_text(title, subtitle).subrange(0, 2) == "# "@,
        title_text(title, subtitle).subrange(2, title.len() + 2int) == title,
        title_text(title, subtitle).subrange(
            title_text(title, subtitle).len() - subtitle.len(),
            title_text(title, subtitle).len() as int,
        ) == subtitle,
        display_text(title, subtitle, code).subrange(0, title_text(title, subtitle).len() as int)
            == title_text(title, subtitle),
        display_text(title, subtitle, code).subrange(
            display_text(title, subtitle, code).len() - code.len(),
            display_text(title, subtitle, code).len() as int,
        ) == code,
{
    reveal_strlit("# ");
    reveal_strlit("\n\n ## ");
    reveal_strlit("\n\n");
    let h = title_text(title, subtitle);
    let d = display_text(title, subtitle, code);
    assert("# "@.len() == 2);
    assert(h.subrange(0, 2) =~= "# "@);
    assert(h.subrange(2, title.len() + 2int) =~= title);
    assert(h.subrange(h.len() - subtitle.len(), h.len() as int) =~= subtitle);
    assert(d.subrange(0, h.len() as int) =~= h);
    assert(d.subrange(d.len() - code.len(), d.len() as int) =~= code);
}

/// A todo in saved form: `new` for one not yet stored.
pub open spec fn saved_todo(e: TodoEditor) -> FormattedTodo {
    FormattedTodo {
        id: match e.id {
            TodoId::New(n) => n,
            TodoId::Stored(n) => n,
        },
        title: e.title,
        subtitle: e.subtitle,
        content: e.code,
        project_id: e.project_id,
        new: e.id is New,
    }
}

/// `e` edits the todo saved as `f`, and nothing was changed yet.
pub open spec fn edits_saved(e: TodoEditor, f: FormattedTodo) -> bool {
    &&& e.id == (if f.new {
        TodoId::New(f.id)
    } else {
        TodoId::Stored(f.id)
    })
    &&& e.project_id == f.project_id
    &&& e.title@ == f.title@
    &&& e.subtitle@ == f.subtitle@
    &&& e.code@ == f.content@
    &&& !e.changed()
}

/// Two saved todos that hold the same values.
pub open spec fn same_saved(a: FormattedTodo, b: FormattedTodo) -> bool {
    &&& a.id == b.id
    &&& a.new == b.new
    &&& a.project_id == b.project_id
    &&& a.title@ == b.title@
    &&& a.subtitle@ == b.subtitle@
    &&& a.content@ == b.content@
}

/// Saving an editor opened on a saved todo gives that saved todo back.
pub proof fn lemma_saved_round_trip(f: FormattedTodo, e: TodoEditor)
    requires
        edits_saved(e, f),
    ensures
        same_saved(saved_todo(e), f),
{
}

/// An editor opened on the saved form of another edits the same todo: the
/// same identity, project, title, subtitle and code.
pub proof fn lemma_reopen_keeps_todo(e: TodoEditor, reopened: TodoEditor)
    requires
        edits_saved(reopened, saved_todo(e)),
    ensures
        reopened.id == e.id,
        reopened.project_id == e.project_id,
        reopened.title@ == e.title@,
        reopened.subtitle@ == e.subtitle@,
        reopened.code@ == e.code@,
{
}

impl Modified for TodoEditor {
    open spec fn changed(&self) -> bool {
        self.code@ != self.saved_code() || self.title@ != self.saved_title() || self.subtitle@
            != self.saved_subtitle()
    }

    fn is_modified(&self) -> (r: bool) {
        if self.code != self.back_up || self.title != self.title_backup || self.subtitle
            != self.subtitle_backup {
            return true;
        } else {
            return false;
        }
    }

    fn reset(&mut self)
        ensures
            final(self).code@ == old(self).saved_code(),
            final(self).title@ == old(self).saved_title(),
            final(self).subtitle@ == old(self).saved_subtitle(),
            final(self).saved_code() == old(self).saved_code(),
            final(self).saved_title() == old(self).saved_title(),
            final(self).saved_subtitle() == old(self).saved_subtitle(),
            final(self).id == old(self).id,
            final(self).project_id == old(self).project_id,
            final(self).gid == old(self).gid,
            final(self).name == old(self).name,
            final(self).language == old(self).language,
            final(self).modified == old(self).modified,
    {
        self.subtitle = self.subtitle_backup.clone();
        self.title = self.title_backup.clone();
        self.code = self.back_up.clone();
    }

    fn replace(&mut self)
        ensures
            final(self).saved_code() == old(self).code@,
            final(self).saved_title() == old(self).title@,
            final(self).saved_subtitle() == old(self).subtitle@,
            final(self).code == old(self).code,
            final(self).title == old(self).title,
            final(self).subtitle == old(self).subtitle,
            final(self).id == old(self).id,
            final(self).project_id == old(self).project_id,
            final(self).gid == old(self).gid,
            final(self).name == old(self).name,
            final(self).language == old(self).language,
            final(self).modified == old(self).modified,
    {
        self.subtitle_backup = self.subtitle.clone();
        self.title_backup = self.title.clone();
        self.back_up = self.code.clone();
    }
}

impl Default for TodoEditor {
    fn default() -> (r: Self)
        ensures
            r.id == TodoId::Stored(0),
            r.project_id == 0,
            r.gid@ == todo_gid(TodoId::Stored(0)),
            r.name@ == todo_name(TodoId::Stored(0), "Default title"@),
            r.language@ == "md"@,
            r.code@ == default_code(),
            r.title@ == "Default title"@,
            r.subtitle@ == "Default Subtitle"@,
            !r.changed(),
            r.modified,
    {
        let code = "// A very simple \n\n example
*fn main()* {\n\
\tprintln!(\"***Hello world!***\");\r\n\
}\n\
";
        let title = "Default title";
        let id = TodoId::Stored(0);
        let (name, gid) = extract_name_gid(&id, &title);
        TodoEditor {
            id,
            gid,
            project_id: 0,
            language: "md".to_string(),
            code: code.to_string(),
            back_up: code.to_string(),
            name,
            title: title.to_string(),
            title_backup: title.to_string(),
            subtitle: "Default Subtitle".to_string(),
            subtitle_backup: "Default Subtitle".to_string(),
            modified: true,
        }
    }
}

impl Clone for TodoEditor {
    fn clone(&self) -> (r: Self)
        ensures
            r == *self,
    {
        TodoEditor {
            id: self.id,
            project_id: self.project_id,
            gid: self.gid.clone(),
            language: self.language.clone(),
            code: self.code.clone(),
            back_up: self.back_up.clone(),
            name: self.name.clone(),
            title: self.title.clone(),
            title_backup: self.title_backup.clone(),
            subtitle: self.subtitle.clone(),
            subtitle_backup: self.subtitle_backup.clone(),
            modified: self.modified,
        }
    }
}

} // verus!
