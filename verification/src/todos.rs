//! The todo list of a project: its editors, their files, and how they are
//! saved and refreshed.

use vstd::prelude::*;

use crate::editor::{display_text, fresh_editor, saved_todo, todo_name, TodoEditor, TodoId};
use crate::models::{FormattedTodo, NewTodo, Project, ProjectWithLanguageName, Todo, UpdateTodo};
use crate::paths::{clone_strings, opt_text, FsPath, PathModel, join_spec};
use crate::text::{push_str, decimal, push_char, push_decimal_i64, push_decimal_u64};
use crate::ui::{DatabaseError, Log, LogEntry, Success, SuccessType};

verus! {

/// Whether the list shows one todo rendered or all todos for editing.
#[derive(Clone, Copy, Debug, PartialEq, Eq, Structural)]
pub enum TodoListState {
    VIEW,
    EDIT,
}

/// A file to write: its name and its content.
#[derive(Debug)]
pub struct FileTodo {
    pub filename: String,
    pub file_content: String,
}

impl Clone for FileTodo {
    fn clone(&self) -> (r: Self)
        ensures
            r == *self,
    {
        FileTodo { filename: self.filename.clone(), file_content: self.file_content.clone() }
    }
}

/// The content of the single file that holds every todo: each todo as
/// markdown, followed by a line break.
pub open spec fn list_file_text(todos: Seq<TodoEditor>) -> Seq<char>
    decreases todos.len(),
{
    if todos.len() == 0 {
        seq![]
    } else {
        list_file_text(todos.drop_last()) + display_text(
            todos.last().title@,
            todos.last().subtitle@,
            todos.last().code@,
        ) + seq!['\n']
    }
}

/// How many todos of `todos` carry the title `title`.
pub open spec fn title_count(todos: Seq<TodoEditor>, title: Seq<char>) -> nat
    decreases todos.len(),
{
    if todos.len() == 0 {
        0
    } else {
        title_count(todos.drop_last(), title) + if todos.last().title@ == title {
            1nat
        } else {
            0nat
        }
    }
}

/// The file name of a todo that is the `count`-th earlier one with its title:
/// the title for the first, then the title with a counter.
pub open spec fn numbered_filename(title: Seq<char>, count: nat) -> Seq<char> {
    if count == 0 {
        title + ".md"@
    } else {
        title + "-("@ + decimal(count as int) + ").md"@
    }
}

/// The file of the `i`-th todo when each todo gets a file of its own.
pub open spec fn multiple_file_spec(todos: Seq<TodoEditor>, i: int) -> (Seq<char>, Seq<char>) {
    (
        numbered_filename(todos[i].title@, title_count(todos.subrange(0, i), todos[i].title@)),
        display_text(todos[i].title@, todos[i].subtitle@, todos[i].code@),
    )
}

impl FileTodo {
    /// A file for one todo, named after its title.
    pub fn from_todo(value: &TodoEditor) -> (r: FileTodo)
        ensures
            r.filename@ == "todo-"@ + value.title@ + ".md"@,
            r.file_content@ == display_text(value.title@, value.subtitle@, value.code@),
    {
        let mut filename = String::new();
        push_str(&mut filename, "todo-");
        push_str(&mut filename, value.title.as_str());
        push_str(&mut filename, ".md");
        FileTodo { filename, file_content: value.to_display() }
    }

    /// The single file that holds every todo of a list.
    pub fn from_list(value: &TodoList) -> (r: FileTodo)
        ensures
            r.filename@ == "todos.md"@,
            r.file_content@ == list_file_text(value.todos@),
    {
        let mut file_str = String::new();
        let mut i: usize = 0;
        while i < value.todos.len()
            invariant
                i <= value.todos.len(),
                file_str@ == list_file_text(value.todos@.subrange(0, i as int)),
            decreases value.todos.len() - i,
        {
            assert(value.todos@.subrange(0, i + 1).drop_last() =~= value.todos@.subrange(
                0,
                i as int,
            ));
            let shown = value.todos[i].to_display();
            push_str(&mut file_str, shown.as_str());
            push_char(&mut file_str, '\n');
            i = i + 1;
        }
        assert(value.todos@.subrange(0, i as int) =~= value.todos@);
        FileTodo { filename: "todos.md".to_string(), file_content: file_str }
    }
}

fn count_title(todos: &Vec<TodoEditor>, end: usize, title: &String) -> (r: usize)
    requires
        end <= todos.len(),
    ensures
        r == title_count(todos@.subrange(0, end as int), title@),
{
    let mut count: usize = 0;
    let mut j: usize = 0;
    while j < end
        invariant
            j <= end <= todos.len(),
            count == title_count(todos@.subrange(0, j as int), title@),
            count <= j,
        decreases end - j,
    {
        assert(todos@.subrange(0, j + 1).drop_last() =~= todos@.subrange(0, j as int));
        if todos[j].title == *title {
            count = count + 1;
        }
        j = j + 1;
    }
    count
}

/// One file per todo, in order. A todo's file is named after its title; a
/// title that came before gets a counter, so that todos of one title do not
/// share a file.
pub fn to_multiple_files(target: Vec<TodoEditor>) -> (r: Vec<FileTodo>)
    ensures
        r.len() == target.len(),
        forall|i: int|
            0 <= i < target.len() ==> (#[trigger] r[i].filename@, r[i].file_content@)
                == multiple_file_spec(target@, i),
{
    let mut files: Vec<FileTodo> = Vec::new();
    let mut i: usize = 0;
    while i < target.len()
        invariant
            i <= target.len(),
            files.len() == i,
            forall|k: int|
                0 <= k < i ==> (#[trigger] files[k].filename@, files[k].file_content@)
                    == multiple_file_spec(target@, k),
        decreases target.len() - i,
    {
        let todo = &target[i];
        let count = count_title(&target, i, &todo.title);
        let mut filename = String::new();
        push_str(&mut filename, todo.title.as_str());
        if count == 0 {
            push_str(&mut filename, ".md");
        } else {
            push_str(&mut filename, "-(");
            push_decimal_u64(&mut filename, count as u64);
            push_str(&mut filename, ").md");
        }
        assert(filename@ =~= numbered_filename(todo.title@, count as nat));
        files.push(FileTodo { filename, file_content: todo.to_display() });
        i = i + 1;
    }
    files
}

proof fn lemma_title_count_grows(todos: Seq<TodoEditor>, i: int, j: int)
    requires
        0 <= i < j <= todos.len(),
    ensures
        title_count(todos.subrange(0, j), todos[i].title@) >= title_count(
            todos.subrange(0, i),
            todos[i].title@,
        ) + 1,
    decreases j - i,
{
    let t = todos[i].title@;
    assert(todos.subrange(0, i + 1).drop_last() =~= todos.subrange(0, i));
    if j > i + 1 {
        lemma_title_count_grows(todos, i, j - 1);
        assert(todos.subrange(0, j).drop_last() =~= todos.subrange(0, j - 1));
    }
}

proof fn lemma_numbered_filename_injective(title: Seq<char>, a: nat, b: nat)
    requires
        numbered_filename(title, a) == numbered_filename(title, b),
    ensures
        a == b,
{
    reveal_strlit(".md");
    reveal_strlit("-(");
    reveal_strlit(").md");
    let fa = numbered_filename(title, a);
    let fb = numbered_filename(title, b);
    if a == 0 && b != 0 {
        assert(fa[title.len() as int] == '.');
        assert(fb[title.len() as int] == '-');
    } else if a != 0 && b == 0 {
        assert(fa[title.len() as int] == '-');
        assert(fb[title.len() as int] == '.');
    } else if a != 0 && b != 0 {
        let p = title + "-("@;
        let q = ").md"@;
        assert(fa =~= p + decimal(a as int) + q);
        assert(fb =~= p + decimal(b as int) + q);
        assert(decimal(a as int) =~= fa.subrange(p.len() as int, fa.len() - q.len()));
        assert(decimal(b as int) =~= fb.subrange(p.len() as int, fb.len() - q.len()));
        crate::text::lemma_decimal_injective(a as int, b as int);
    }
}

/// Two todos of one title never share a file when each todo gets its own.
pub proof fn lemma_multiple_files_distinct(todos: Seq<TodoEditor>, i: int, j: int)
    requires
        0 <= i < j < todos.len(),
        todos[i].title@ == todos[j].title@,
    ensures
        multiple_file_spec(todos, i).0 != multiple_file_spec(todos, j).0,
{
    let t = todos[i].title@;
    lemma_title_count_grows(todos, i, j);
    if multiple_file_spec(todos, i).0 == multiple_file_spec(todos, j).0 {
        lemma_numbered_filename_injective(
            t,
            title_count(todos.subrange(0, i), t),
            title_count(todos.subrange(0, j), t),
        );
    }
}

/// Each exported file holds the markdown of its own todo, whatever the titles
/// of the todos before it: the same content as exporting that todo alone, and
/// the same as the single-todo file. Only a repeated title's file name changes.
pub proof fn lemma_multiple_files_content(todos: Seq<TodoEditor>, i: int)
    requires
        0 <= i < todos.len(),
    ensures
        multiple_file_spec(todos, i).1 == display_text(
            todos[i].title@,
            todos[i].subtitle@,
            todos[i].code@,
        ),
        multiple_file_spec(todos, i).1 == multiple_file_spec(seq![todos[i]], 0).1,
        title_count(todos.subrange(0, i), todos[i].title@) == 0 ==> multiple_file_spec(todos, i).0
            == todos[i].title@ + ".md"@,
{
    assert(seq![todos[i]].subrange(0, 0) =~= Seq::<TodoEditor>::empty());
}

/// State of the "one file per todo" dialog: which todos are picked, where
/// the files go, and the files once they are prepared.
#[derive(Debug)]
pub struct MultipleFiles {
    pub selected: bool,
    pub files: Option<Vec<FileTodo>>,
    pub selection: Vec<bool>,
    pub target_path: Option<FsPath>,
    pub path: String,
}

impl Default for MultipleFiles {
    fn default() -> (r: Self)
        ensures
            !r.selected,
            r.files is None,
            r.selection@.len() == 0,
            r.target_path is None,
            r.path@.len() == 0,
    {
        MultipleFiles {
            selected: false,
            files: None,
            selection: Vec::new(),
            target_path: None,
            path: String::new(),
        }
    }
}

/// The todos of a project as the todo window edits them.
pub struct TodoList {
    pub todos: Vec<TodoEditor>,
    pub new_todos: i32,
    pub parent: ProjectWithLanguageName,
    pub state: TodoListState,
    pub target: Option<TodoEditor>,
    pub log: Log<LogEntry>,
    pub refresh: bool,
    pub remove: Vec<usize>,
    pub multiple_files: MultipleFiles,
} 

/// The todos of `todos` that are not stored yet, in order.
pub open spec fn unsaved_todos(todos: Seq<TodoEditor>) -> Seq<TodoEditor>
    decreases todos.len(),
{
    if todos.len() == 0 {
        seq![]
    } else if todos.last().id is New {
        unsaved_todos(todos.drop_last()).push(todos.last())
    } else {
        unsaved_todos(todos.drop_last())
    }
}

/// `e` is the editor that reloading builds from the stored todo `t`: in
/// markdown, named and keyed after its identity, its backups holding its
/// values, and unchanged.
pub open spec fn edits_stored(e: TodoEditor, t: Todo) -> bool {
    &&& fresh_editor(
        e,
        "md"@,
        t.title@,
        crate::models::or_none_text(t.subtitle),
        crate::models::or_none_text(t.content),
        TodoId::Stored(t.id),
        t.project_id,
    )
    &&& !crate::editor::Modified::changed(&e)
}

/// `todos` with the entries at `indices` removed one after the other, as
/// `Vec::remove` removes them.
pub open spec fn remove_each<T>(todos: Seq<T>, indices: Seq<usize>) -> Seq<T>
    decreases indices.len(),
{
    if indices.len() == 0 {
        todos
    } else {
        remove_each(todos, indices.drop_last()).remove(indices.last() as int)
    }
}

/// Every removal of `remove_each` finds its index in range.
pub open spec fn removals_in_range<T>(todos: Seq<T>, indices: Seq<usize>) -> bool
    decreases indices.len(),
{
    if indices.len() == 0 {
        true
    } else {
        removals_in_range(todos, indices.drop_last()) && indices.last() < remove_each(
            todos,
            indices.drop_last(),
        ).len()
    }
}

fn text_of(s: &str) -> (r: String)
    ensures
        r@ == s@,
{
    s.to_string()
}

/// Log entry of a successful database operation.
fn database_success(message: String) -> (r: LogEntry)
    ensures
        r matches Ok(s) && s.text() == message@ && s.kind() == SuccessType::Database,
{
    Ok(Success::new(message, SuccessType::Database))
}

/// Message after saving: how many todos were added and how many edited.
pub open spec fn save_text(added: nat, edited: nat) -> Seq<char> {
    "Added "@ + decimal(added as int) + " todos and edited "@ + decimal(edited as int)
        + " todos successfully."@
}

/// Message after discarding an unsaved todo.
pub open spec fn discard_text(id: i32, title: Seq<char>) -> Seq<char> {
    "Discarded new Todo ("@ + decimal(id as int) + ", titled "@ + title + " ) successfully."@
}

/// Message after deleting a stored todo.
pub open spec fn delete_text(id: i32, title: Seq<char>) -> Seq<char> {
    "Deleted Todo ("@ + decimal(id as int) + ", titled "@ + title + " ) successfully."@
}

impl Default for TodoList {
    fn default() -> (r: Self)
        ensures
            r.todos@.len() == 0,
            r.new_todos == 0,
            r.parent.id == 0,
            r.parent.name@ == "Project Name"@,
            r.parent.path@ == "/some/path/."@,
            r.parent.language_name@ == "Some Language"@,
            r.state == TodoListState::EDIT,
            r.target is None,
            !r.refresh,
            r.remove@.len() == 0,
            r.log.entries().len() == 1,
            r.log.entries()[0] matches Ok(s) && s.text() == "Connected to database."@ && s.kind()
                == SuccessType::Database,
            !r.log.scrolls(),
            !r.multiple_files.selected,
            r.multiple_files.files is None,
            r.multiple_files.selection@.len() == 0,
            r.multiple_files.target_path is None,
            r.multiple_files.path@.len() == 0,
    {
        let parent = ProjectWithLanguageName::new(
            (
                Project {
                    id: 0,
                    language_id: 0,
                    name: text_of("Project Name"),
                    path: text_of("/some/path/."),
                },
                text_of("Some Language"),
            ),
        );
        let mut entries: Vec<LogEntry> = Vec::new();
        entries.push(database_success(text_of("Connected to database.")));
        Self {
            multiple_files: MultipleFiles::default(),
            refresh: false,
            parent,
            todos: Vec::new(),
            new_todos: 0,
            state: TodoListState::EDIT,
            target: None,
            remove: Vec::new(),
            log: Log::new(entries),
        }
    }
}

impl TodoList {
    /// Records an outcome in the log, scrolls to it and asks for a refresh.
    pub fn push_log(&mut self, result: LogEntry)
        ensures
            final(self).log.entries() == old(self).log.entries().push(result),
            final(self).log.scrolls(),
            final(self).refresh,
            final(self).todos == old(self).todos,
            final(self).new_todos == old(self).new_todos,
            final(self).parent == old(self).parent,
            final(self).state == old(self).state,
            final(self).target == old(self).target,
            final(self).remove == old(self).remove,
            final(self).multiple_files == old(self).multiple_files,
    {
        self.log.push(result);
        self.log.should_scroll();
        self.refresh = true;
    }

    /// Appends a todo.
    pub fn add(&mut self, todo: TodoEditor)
        ensures
            final(self).todos@ == old(self).todos@.push(todo),
            final(self).new_todos == old(self).new_todos,
            final(self).parent == old(self).parent,
            final(self).state == old(self).state,
            final(self).target == old(self).target,
            final(self).log == old(self).log,
            final(self).refresh == old(self).refresh,
            final(self).remove == old(self).remove,
            final(self).multiple_files == old(self).multiple_files,
    {
        self.todos.push(todo);
    }

    /// Sets the project the todos belong to.
    pub fn with_parent(&mut self, parent: &ProjectWithLanguageName) -> (r: &mut Self)
        ensures
            r.parent.id == parent.id,
            r.parent.name@ == parent.name@,
            r.parent.path@ == parent.path@,
            r.parent.language_name@ == parent.language_name@,
            r.todos == old(self).todos,
            r.new_todos == old(self).new_todos,
            r.state == old(self).state,
            r.target == old(self).target,
            r.log == old(self).log,
            r.refresh == old(self).refresh,
            r.remove == old(self).remove,
            r.multiple_files == old(self).multiple_files,
            *final(self) == *final(r),
    {
        self.parent = ProjectWithLanguageName {
            id: parent.id,
            name: parent.name.clone(),
            path: parent.path.clone(),
            language_name: parent.language_name.clone(),
        };
        self
    }

    /// Replaces the stored todos by those the database holds now, in its
    /// order, and keeps the unsaved ones after them.
    pub fn retrieve(&mut self, stored: Vec<Todo>)
        ensures
            final(self).todos@.len() == stored@.len() + unsaved_todos(old(self).todos@).len(),
            forall|i: int|
                0 <= i < stored@.len() ==> edits_stored(#[trigger] final(self).todos@[i], stored@[i]),
            forall|i: int|
                0 <= i < unsaved_todos(old(self).todos@).len() ==> #[trigger] final(self).todos@[stored@.len()
                    + i] == unsaved_todos(old(self).todos@)[i],
            final(self).new_todos == old(self).new_todos,
            final(self).parent == old(self).parent,
            final(self).state == old(self).state,
            final(self).target == old(self).target,
            final(self).log == old(self).log,
            final(self).refresh == old(self).refresh,
            final(self).remove == old(self).remove,
            final(self).multiple_files == old(self).multiple_files,
    {
        let mut added: Vec<TodoEditor> = Vec::new();
        let mut i: usize = 0;
        while i < self.todos.len()
            invariant
                i <= self.todos.len(),
                added@ == unsaved_todos(self.todos@.subrange(0, i as int)),
            decreases self.todos.len() - i,
        {
            assert(self.todos@.subrange(0, i + 1).drop_last() =~= self.todos@.subrange(0, i as int));
            match self.todos[i].id {
                TodoId::New(_) => added.push(self.todos[i].clone()),
                TodoId::Stored(_) => {},
            }
            i = i + 1;
        }
        assert(self.todos@.subrange(0, i as int) =~= self.todos@);
        let mut tds: Vec<TodoEditor> = Vec::new();
        let mut stored = stored;
        let ghost received = stored@;
        let mut k: usize = 0;
        let n = stored.len();
        while k < n
            invariant
                k <= n,
                n == received.len(),
                stored@.len() == n - k,
                forall|j: int| 0 <= j < n - k ==> #[trigger] stored@[j] == received[j + k],
                tds@.len() == k,
                forall|j: int| 0 <= j < k ==> edits_stored(#[trigger] tds@[j], received[j]),
            decreases n - k,
        {
            let todo = stored.remove(0);
            tds.push(TodoEditor::from_todo(todo));
            k = k + 1;
        }
        let m = tds.len();
        let mut j: usize = 0;
        while j < added.len()
            invariant
                j <= added.len(),
                m == received.len(),
                tds@.len() == m + j,
                forall|x: int| 0 <= x < m ==> edits_stored(#[trigger] tds@[x], received[x]),
                forall|x: int| 0 <= x < j ==> #[trigger] tds@[m + x] == added@[x],
            decreases added.len() - j,
        {
            tds.push(added[j].clone());
            j = j + 1;
        }
        self.todos = tds;
    }

    /// Each todo in saved form, in order.
    pub fn to_saved_format(&self) -> (r: Vec<FormattedTodo>)
        ensures
            r@.len() == self.todos@.len(),
            forall|i: int| 0 <= i < r@.len() ==> #[trigger] r@[i] == saved_todo(self.todos@[i]),
    {
        let mut todos: Vec<FormattedTodo> = Vec::new();
        let mut i: usize = 0;
        while i < self.todos.len()
            invariant
                i <= self.todos.len(),
                todos@.len() == i,
                forall|k: int| 0 <= k < i ==> #[trigger] todos@[k] == saved_todo(self.todos@[k]),
            decreases self.todos.len() - i,
        {
            todos.push(self.todos[i].to_saved_format());
            i = i + 1;
        }
        todos
    }

    /// Adds an empty unsaved todo, numbered after the previous ones.
    pub fn add_new_todo(&mut self)
        requires
            old(self).new_todos < i32::MAX,
        ensures
            final(self).new_todos == old(self).new_todos + 1,
            final(self).todos@.len() == old(self).todos@.len() + 1,
            final(self).todos@.subrange(0, old(self).todos@.len() as int) == old(self).todos@,
            fresh_editor(
                final(self).todos@.last(),
                "md"@,
                seq![],
                seq![],
                seq![],
                TodoId::New(final(self).new_todos),
                old(self).parent.id,
            ),
            final(self).parent == old(self).parent,
            final(self).state == old(self).state,
            final(self).target == old(self).target,
            final(self).log == old(self).log,
            final(self).refresh == old(self).refresh,
            final(self).remove == old(self).remove,
            final(self).multiple_files == old(self).multiple_files,
    {
        self.new_todos = self.new_todos + 1;
        proof {
            reveal_strlit("");
            assert(""@ =~= Seq::<char>::empty());
        }
        let todo = TodoEditor::new("md", "", "", "", TodoId::New(self.new_todos), self.parent.id);
        self.todos.push(todo);
        assert(self.todos@.subrange(0, self.todos@.len() - 1) =~= old(self).todos@);
    }

    /// Takes out the todos marked for removal, one after the other, and clears
    /// the marks.
    pub fn apply_removals(&mut self)
        requires
            removals_in_range(old(self).todos@, old(self).remove@),
        ensures
            final(self).todos@ == remove_each(old(self).todos@, old(self).remove@),
            final(self).remove@.len() == 0,
            final(self).new_todos == old(self).new_todos,
            final(self).parent == old(self).parent,
            final(self).state == old(self).state,
            final(self).target == old(self).target,
            final(self).log == old(self).log,
            final(self).refresh == old(self).refresh,
            final(self).multiple_files == old(self).multiple_files,
    {
        let mut i: usize = 0;
        while i < self.remove.len()
            invariant
                i <= self.remove.len(),
                self.remove@ == old(self).remove@,
                removals_in_range(old(self).todos@, old(self).remove@),
                self.todos@ == remove_each(old(self).todos@, self.remove@.subrange(0, i as int)),
                self.new_todos == old(self).new_todos,
                self.parent == old(self).parent,
                self.state == old(self).state,
                self.target == old(self).target,
                self.log == old(self).log,
                self.refresh == old(self).refresh,
                self.multiple_files == old(self).multiple_files,
            decreases self.remove.len() - i,
        {
            proof {
                lemma_removals_prefix(old(self).todos@, self.remove@, i as int + 1);
                assert(self.remove@.subrange(0, i + 1).drop_last() =~= self.remove@.subrange(
                    0,
                    i as int,
                ));
            }
            let idx = self.remove[i];
            self.todos.remove(idx);
            i = i + 1;
        }
        assert(self.remove@.subrange(0, i as int) =~= self.remove@);
        self.remove = Vec::new();
    }

    /// Whether a refresh was asked for; the request is consumed.
    pub fn take_refresh(&mut self) -> (r: bool)
        ensures
            r == old(self).refresh,
            !final(self).refresh,
            final(self).todos == old(self).todos,
            final(self).new_todos == old(self).new_todos,
            final(self).parent == old(self).parent,
            final(self).state == old(self).state,
            final(self).target == old(self).target,
            final(self).log == old(self).log,
            final(self).remove == old(self).remove,
            final(self).multiple_files == old(self).multiple_files,
    {
        let r = self.refresh;
        self.refresh = false;
        r
    }

    /// Marks the unsaved todo at `index` for removal and gives the log entry.
    pub fn discard(&mut self, index: usize, id: i32, title: &str) -> (r: LogEntry)
        ensures
            final(self).remove@ == old(self).remove@.push(index),
            r matches Ok(s) && s.text() == discard_text(id, title@) && s.kind() == SuccessType::Database,
            final(self).todos == old(self).todos,
            final(self).new_todos == old(self).new_todos,
            final(self).parent == old(self).parent,
            final(self).state == old(self).state,
            final(self).target == old(self).target,
            final(self).log == old(self).log,
            final(self).refresh == old(self).refresh,
            final(self).multiple_files == old(self).multiple_files,
    {
        self.remove.push(index);
        let mut m = String::new();
        push_str(&mut m, "Discarded new Todo (");
        push_decimal_i64(&mut m, id as i64);
        push_str(&mut m, ", titled ");
        push_str(&mut m, title);
        push_str(&mut m, " ) successfully.");
        assert(m@ =~= discard_text(id, title@));
        database_success(m)
    }

    /// Shows the todo at `index` rendered.
    pub fn open_preview(&mut self, index: usize)
        requires
            index < old(self).todos@.len(),
        ensures
            final(self).target == Some(old(self).todos@[index as int]),
            final(self).state == TodoListState::VIEW,
            final(self).todos == old(self).todos,
            final(self).new_todos == old(self).new_todos,
            final(self).parent == old(self).parent,
            final(self).log == old(self).log,
            final(self).refresh == old(self).refresh,
            final(self).remove == old(self).remove,
            final(self).multiple_files == old(self).multiple_files,
    {
        self.target = Some(self.todos[index].clone());
        self.state = TodoListState::VIEW;
    }

    /// The todo to render: the previewed one, or one that tells that it could
    /// not be opened.
    pub fn display_target(&self) -> (r: TodoEditor)
        ensures
            self.target matches Some(t) ==> r == t,
            self.target is None ==> r.title@ == "An Error Occured"@ && r.subtitle@
                == "Try reloading the app..."@ && r.code@ == "**Could not open the todo...**"@
                && r.id == TodoId::New(404) && r.project_id == self.parent.id,
    {
        match &self.target {
            Some(t) => t.clone(),
            None => TodoEditor::new(
                "md",
                "An Error Occured",
                "Try reloading the app...",
                "**Could not open the todo...**",
                TodoId::New(404),
                self.parent.id,
            ),
        }
    }

    /// Fits the selection of the file dialog to the todos: where their
    /// numbers differ, nothing is selected and prepared files are dropped.
    pub fn sync_selection(&mut self)
        ensures
            final(self).multiple_files.selection@.len() == old(self).todos@.len(),
            old(self).multiple_files.selection@.len() == old(self).todos@.len()
                ==> final(self).multiple_files == old(self).multiple_files,
            final(self).multiple_files.selected == old(self).multiple_files.selected,
            final(self).multiple_files.target_path == old(self).multiple_files.target_path,
            final(self).multiple_files.path == old(self).multiple_files.path,
            old(self).multiple_files.selection@.len() != old(self).todos@.len()
                ==> final(self).multiple_files.files is None,
            old(self).multiple_files.selection@.len() != old(self).todos@.len() ==> forall|i: int|
                0 <= i < final(self).multiple_files.selection@.len()
                    ==> !#[trigger] final(self).multiple_files.selection@[i],
            final(self).todos == old(self).todos,
            final(self).new_todos == old(self).new_todos,
            final(self).parent == old(self).parent,
            final(self).state == old(self).state,
            final(self).target == old(self).target,
            final(self).log == old(self).log,
            final(self).refresh == old(self).refresh,
            final(self).remove == old(self).remove,
    {
        if self.multiple_files.selection.len() != self.todos.len() {
            let mut selection: Vec<bool> = Vec::new();
            let mut i: usize = 0;
            while i < self.todos.len()
                invariant
                    i <= self.todos.len(),
                    selection@.len() == i,
                    forall|k: int| 0 <= k < i ==> !#[trigger] selection@[k],
                decreases self.todos.len() - i,
            {
                selection.push(false);
                i = i + 1;
            }
            self.multiple_files.selection = selection;
            self.multiple_files.files = None;
        }
    }

    /// Whether some todo is selected for its own file.
    pub fn any_selected(&self) -> (r: bool)
        ensures
            r == exists|i: int|
                0 <= i < self.multiple_files.selection@.len()
                    && #[trigger] self.multiple_files.selection@[i],
    {
        let mut i: usize = 0;
        while i < self.multiple_files.selection.len()
            invariant
                i <= self.multiple_files.selection.len(),
                forall|k: int| 0 <= k < i ==> !#[trigger] self.multiple_files.selection@[k],
            decreases self.multiple_files.selection.len() - i,
        {
            if self.multiple_files.selection[i] {
                return true;
            }
            i = i + 1;
        }
        false
    }

    /// The selected todos, in order.
    pub fn selected_todos(&self) -> (r: Vec<TodoEditor>)
        requires
            forall|i: int|
                0 <= i < self.multiple_files.selection@.len()
                    && #[trigger] self.multiple_files.selection@[i] ==> i < self.todos@.len(),
        ensures
            r@ == selected_spec(self.todos@, self.multiple_files.selection@),
    {
        let mut todos: Vec<TodoEditor> = Vec::new();
        let mut i: usize = 0;
        while i < self.multiple_files.selection.len()
            invariant
                i <= self.multiple_files.selection.len(),
                forall|k: int|
                    0 <= k < self.multiple_files.selection@.len()
                        && #[trigger] self.multiple_files.selection@[k] ==> k < self.todos@.len(),
                todos@ == selected_spec(self.todos@, self.multiple_files.selection@.subrange(0, i as int)),
            decreases self.multiple_files.selection.len() - i,
        {
            assert(self.multiple_files.selection@.subrange(0, i + 1).drop_last()
                =~= self.multiple_files.selection@.subrange(0, i as int));
            if self.multiple_files.selection[i] {
                todos.push(self.todos[i].clone());
            }
            i = i + 1;
        }
        assert(self.multiple_files.selection@.subrange(0, i as int) =~= self.multiple_files.selection@);
        todos
    }

    /// Plans a save: the unsaved todos to insert and the stored ones to
    /// update, each in list order.
    pub fn save_plan(&self) -> (r: (Vec<NewTodo>, Vec<UpdateTodo>))
        ensures
            r.0@.len() + r.1@.len() == self.todos@.len(),
            r.0@.len() == unsaved_todos(self.todos@).len(),
            forall|i: int|
                0 <= i < r.0@.len() ==> inserts(#[trigger] r.0@[i], unsaved_todos(self.todos@)[i]),
            forall|i: int|
                0 <= i < r.1@.len() ==> updates(#[trigger] r.1@[i], stored_todos(self.todos@)[i]),
            r.1@.len() == stored_todos(self.todos@).len(),
    {
        let mut insert: Vec<NewTodo> = Vec::new();
        let mut edit: Vec<UpdateTodo> = Vec::new();
        let mut i: usize = 0;
        while i < self.todos.len()
            invariant
                i <= self.todos.len(),
                insert@.len() == unsaved_todos(self.todos@.subrange(0, i as int)).len(),
                edit@.len() == stored_todos(self.todos@.subrange(0, i as int)).len(),
                forall|k: int|
                    0 <= k < insert@.len() ==> inserts(
                        #[trigger] insert@[k],
                        unsaved_todos(self.todos@.subrange(0, i as int))[k],
                    ),
                forall|k: int|
                    0 <= k < edit@.len() ==> updates(
                        #[trigger] edit@[k],
                        stored_todos(self.todos@.subrange(0, i as int))[k],
                    ),
            decreases self.todos.len() - i,
        {
            let ghost before = self.todos@.subrange(0, i as int);
            let ghost after = self.todos@.subrange(0, i + 1);
            assert(after.drop_last() =~= before);
            proof {
                lemma_partition_len(after);
            }
            let todo = self.todos[i].to_saved_format();
            if todo.new {
                insert.push(
                    NewTodo {
                        title: todo.title.clone(),
                        subtitle: Some(todo.subtitle.clone()),
                        content: Some(todo.content.clone()),
                        project_id: todo.project_id,
                    },
                );
            } else {
                edit.push(
                    UpdateTodo {
                        title: todo.title.clone(),
                        subtitle: Some(todo.subtitle.clone()),
                        content: Some(todo.content.clone()),
                        project_id: todo.project_id,
                        id: todo.id,
                    },
                );
            }
            i = i + 1;
        }
        assert(self.todos@.subrange(0, i as int) =~= self.todos@);
        proof {
            lemma_partition_len(self.todos@);
        }
        (insert, edit)
    }

    /// The log entry after a save.
    pub fn save_message(added: usize, edited: usize) -> (r: LogEntry)
        ensures
            r matches Ok(s) && s.text() == save_text(added as nat, edited as nat) && s.kind()
                == SuccessType::Database,
    {
        let mut m = String::new();
        push_str(&mut m, "Added ");
        push_decimal_u64(&mut m, added as u64);
        push_str(&mut m, " todos and edited ");
        push_decimal_u64(&mut m, edited as u64);
        push_str(&mut m, " todos successfully.");
        assert(m@ =~= save_text(added as nat, edited as nat));
        database_success(m)
    }
}

/// The log entry after deleting the stored todo `id`.
pub fn delete_message(id: i32, title: &str) -> (r: LogEntry)
    ensures
        r matches Ok(s) && s.text() == delete_text(id, title@) && s.kind() == SuccessType::Database,
{
    let mut m = String::new();
    push_str(&mut m, "Deleted Todo (");
    push_decimal_i64(&mut m, id as i64);
    push_str(&mut m, ", titled ");
    push_str(&mut m, title);
    push_str(&mut m, " ) successfully.");
    assert(m@ =~= delete_text(id, title@));
    database_success(m)
}

/// The todos of `todos` that are stored, in order.
pub open spec fn stored_todos(todos: Seq<TodoEditor>) -> Seq<TodoEditor>
    decreases todos.len(),
{
    if todos.len() == 0 {
        seq![]
    } else if todos.last().id is Stored {
        stored_todos(todos.drop_last()).push(todos.last())
    } else {
        stored_todos(todos.drop_last())
    }
}

/// The todos whose selection flag is set.
pub open spec fn selected_spec(todos: Seq<TodoEditor>, selection: Seq<bool>) -> Seq<TodoEditor>
    decreases selection.len(),
{
    if selection.len() == 0 {
        seq![]
    } else if selection.last() {
        selected_spec(todos, selection.drop_last()).push(todos[selection.len() - 1])
    } else {
        selected_spec(todos, selection.drop_last())
    }
}

/// `n` inserts the unsaved todo `e`.
pub open spec fn inserts(n: NewTodo, e: TodoEditor) -> bool {
    &&& n.title@ == e.title@
    &&& n.subtitle matches Some(s) && s@ == e.subtitle@
    &&& n.content matches Some(c) && c@ == e.code@
    &&& n.project_id == e.project_id
}

/// `u` writes the stored todo `e` back.
pub open spec fn updates(u: UpdateTodo, e: TodoEditor) -> bool {
    &&& u.title@ == e.title@
    &&& u.subtitle matches Some(s) && s@ == e.subtitle@
    &&& u.content matches Some(c) && c@ == e.code@
    &&& u.project_id == e.project_id
    &&& e.id == TodoId::Stored(u.id)
}

proof fn lemma_partition_len(todos: Seq<TodoEditor>)
    ensures
        unsaved_todos(todos).len() + stored_todos(todos).len() == todos.len(),
    decreases todos.len(),
{
    if todos.len() > 0 {
        lemma_partition_len(todos.drop_last());
    }
}

proof fn lemma_removals_prefix<T>(todos: Seq<T>, indices: Seq<usize>, k: int)
    requires
        removals_in_range(todos, indices),
        0 <= k <= indices.len(),
    ensures
        removals_in_range(todos, indices.subrange(0, k)),
    decreases indices.len(),
{
    if k == indices.len() {
        assert(indices.subrange(0, k) =~= indices);
    } else {
        lemma_removals_prefix(todos, indices.drop_last(), k);
        assert(indices.drop_last().subrange(0, k) =~= indices.subrange(0, k));
    }
}

// ---------------------------------------------------------------------------
// Where the per-todo files go
// ---------------------------------------------------------------------------

/// Components left over while unwinding a path, put back in path order: the
/// last one taken off comes first.
pub open spec fn leftover_parts(leftovers: Seq<Option<String>>) -> Seq<Seq<char>>
    decreases leftovers.len(),
{
    if leftovers.len() == 0 {
        seq![]
    } else {
        match leftovers[0] {
            Some(c) => leftover_parts(leftovers.drop_first()).push(c@),
            None => leftover_parts(leftovers.drop_first()),
        }
    }
}

/// A canonical directory extended by the components that did not exist yet.
pub open spec fn establish_spec(leftovers: Seq<Option<String>>, canonical: PathModel) -> PathModel {
    PathModel { root: canonical.root, parts: canonical.parts + leftover_parts(leftovers) }
}

/// The path to create: the canonical existing directory, then the missing
/// components in path order.
pub fn establish_path(leftovers: &Vec<Option<String>>, canonicalized_path: &FsPath) -> (r: FsPath)
    ensures
        r@ == establish_spec(leftovers@, canonicalized_path@),
{
    let mut parts = clone_strings(&canonicalized_path.parts);
    let mut i: usize = leftovers.len();
    assert(leftovers@.subrange(i as int, leftovers@.len() as int) =~= Seq::<Option<String>>::empty());
    assert(parts.deep_view() =~= canonicalized_path.parts.deep_view() + leftover_parts(
        leftovers@.subrange(i as int, leftovers@.len() as int),
    ));
    while i > 0
        invariant
            i <= leftovers@.len(),
            parts.deep_view() == canonicalized_path.parts.deep_view() + leftover_parts(
                leftovers@.subrange(i as int, leftovers@.len() as int),
            ),
        decreases i,
    {
        let ghost tail = leftovers@.subrange(i as int, leftovers@.len() as int);
        let ghost longer = leftovers@.subrange(i - 1, leftovers@.len() as int);
        assert(longer.drop_first() =~= tail);
        assert(longer[0] == leftovers@[i - 1]);
        match &leftovers[i - 1] {
            Some(component) => {
                let ghost prev = parts;
                let copy = component.clone();
                parts.push(copy);
                proof {
                    lemma_deep_view_push(prev, parts, *component);
                }
                assert(parts.deep_view() =~= canonicalized_path.parts.deep_view() + leftover_parts(
                    longer,
                ));
            },
            None => {},
        }
        i = i - 1;
    }
    assert(leftovers@.subrange(0, leftovers@.len() as int) =~= leftovers@);
    FsPath {
        root: match &canonicalized_path.root {
            Some(r) => Some(r.clone()),
            None => None,
        },
        parts,
    }
}

/// `o` holds a component with the text `t`.
pub open spec fn holds_component(o: Option<String>, t: Seq<char>) -> bool {
    o matches Some(c) && c@ == t
}

/// The search for the deepest existing directory of a target path: the
/// full target and the components taken off it so far, last first.
pub struct PathSearch {
    pub full: FsPath,
    pub leftovers: Vec<Option<String>>,
}

/// Text of the error when no part of a path exists.
pub open spec fn unwound_text() -> Seq<char> {
    "The path was fully unwinded and couldn't find a correct base directory(e.g, a drive)."@
}

impl PathSearch {
    /// The search is in progress: the components taken off are the last ones
    /// of the target, last first.
    pub open spec fn searching(&self) -> bool {
        &&& self.leftovers@.len() <= self.full.parts@.len()
        &&& forall|i: int|
            0 <= i < self.leftovers@.len() ==> holds_component(
                #[trigger] self.leftovers@[i],
                self.full@.parts[self.full.parts@.len() - 1 - i],
            )
    }

    /// The ancestor of the target to try next.
    pub open spec fn candidate_spec(&self) -> PathModel {
        PathModel {
            root: opt_text(self.full.root),
            parts: self.full@.parts.subrange(0, self.full.parts@.len() - self.leftovers@.len()),
        }
    }

    /// Starts the search for `path`; a relative `path` is taken relative to
    /// `base_path`.
    pub fn start(path: &FsPath, base_path: &FsPath) -> (r: PathSearch)
        ensures
            r.full@ == (if path@.root is None {
                join_spec(base_path@, path@)
            } else {
                path@
            }),
            r.leftovers@.len() == 0,
            r.searching(),
    {
        let full = if path.is_relative() {
            base_path.join(path)
        } else {
            path.duplicate()
        };
        PathSearch { full, leftovers: Vec::new() }
    }

    /// The ancestor of the target to try next.
    pub fn candidate(&self) -> (r: FsPath)
        requires
            self.searching(),
        ensures
            r@ == self.candidate_spec(),
    {
        let keep = self.full.parts.len() - self.leftovers.len();
        let mut parts: Vec<String> = Vec::new();
        let mut i: usize = 0;
        while i < keep
            invariant
                i <= keep <= self.full.parts@.len(),
                parts@.len() == i,
                forall|j: int| 0 <= j < i ==> #[trigger] parts@[j]@ == self.full.parts@[j]@,
            decreases keep - i,
        {
            parts.push(self.full.parts[i].clone());
            i = i + 1;
        }
        assert(parts.deep_view() =~= self.full@.parts.subrange(0, keep as int));
        FsPath {
            root: match &self.full.root {
                Some(r) => Some(r.clone()),
                None => None,
            },
            parts,
        }
    }

    /// Takes the outcome of canonicalizing the candidate. Where it exists,
    /// the search ends with the path to create; where it does not, the next
    /// component comes off, and once none is left the search fails.
    pub fn advance(&mut self, canonical: Option<FsPath>) -> (r: Option<Result<FsPath, DatabaseError>>)
        requires
            old(self).searching(),
        ensures
            canonical is Some ==> *final(self) == *old(self),
            canonical matches Some(c) ==> (r matches Some(Ok(p)) && p@ == PathModel {
                root: c@.root,
                parts: c@.parts + old(self).full@.parts.subrange(
                    old(self).full.parts@.len() - old(self).leftovers@.len(),
                    old(self).full.parts@.len() as int,
                ),
            }),
            canonical is None && old(self).leftovers@.len() < old(self).full.parts@.len() ==> r is None
                && final(self).searching() && final(self).full@ == old(self).full@
                && final(self).leftovers@.len() == old(self).leftovers@.len() + 1,
            canonical is None && old(self).leftovers@.len() == old(self).full.parts@.len() ==> (
            r matches Some(Err(e)) && e@ == unwound_text()) && *final(self) == *old(self),
    {
        match canonical {
            Some(c) => {
                proof {
                    lemma_leftovers_are_suffix(self.leftovers@, self.full@.parts);
                }
                Some(Ok(establish_path(&self.leftovers, &c)))
            },
            None => {
                let n = self.full.parts.len();
                let k = self.leftovers.len();
                if k < n {
                    let component = self.full.parts[n - 1 - k].clone();
                    self.leftovers.push(Some(component));
                    None
                } else {
                    Some(
                        Err(
                            DatabaseError::new(
                                "The path was fully unwinded and couldn't find a correct base directory(e.g, a drive).",
                            ),
                        ),
                    )
                }
            },
        }
    }
}

proof fn lemma_leftovers_are_suffix(leftovers: Seq<Option<String>>, parts: Seq<Seq<char>>)
    requires
        leftovers.len() <= parts.len(),
        forall|i: int|
            0 <= i < leftovers.len() ==> holds_component(
                #[trigger] leftovers[i],
                parts[parts.len() - 1 - i],
            ),
    ensures
        leftover_parts(leftovers) =~= parts.subrange(
            parts.len() - leftovers.len(),
            parts.len() as int,
        ),
    decreases leftovers.len(),
{
    if leftovers.len() > 0 {
        let rest = leftovers.drop_first();
        assert forall|i: int| 0 <= i < rest.len() implies holds_component(
            #[trigger] rest[i],
            parts.drop_last()[parts.drop_last().len() - 1 - i],
        ) by {
            assert(rest[i] == leftovers[i + 1]);
        }
        lemma_leftovers_are_suffix(rest, parts.drop_last());
        assert(holds_component(leftovers[0], parts[parts.len() - 1]));
    }
}

proof fn lemma_deep_view_push(a: Vec<String>, b: Vec<String>, s: String)
    requires
        b@ == a@.push(s),
    ensures
        b.deep_view() == a.deep_view().push(s@),
{
    assert forall|j: int| 0 <= j < b@.len() implies #[trigger] b.deep_view()[j] == a.deep_view().push(
        s@,
    )[j] by {
        if j < a@.len() {
            assert(b@[j] == a@[j]);
        }
    }
    assert(b.deep_view() =~= a.deep_view().push(s@));
}

/// Log entry after writing the single file of every todo.
pub fn all_todos_file_message() -> (r: LogEntry)
    ensures
        r matches Ok(s) && s.text() == "Generated file for all todos for this project."@ && s.kind()
            == SuccessType::Database,
{
    database_success(text_of("Generated file for all todos for this project."))
}

/// Log entry after deleting every todo of the project.
pub fn delete_all_message() -> (r: LogEntry)
    ensures
        r matches Ok(s) && s.text() == "Deleted all todos for this project."@ && s.kind()
            == SuccessType::Database,
{
    database_success(text_of("Deleted all todos for this project."))
}

/// What came of writing one file of the "one file per todo" export.
#[derive(Debug)]
pub enum FileWriteOutcome {
    /// An older file of that name could not be removed; the error's text.
    RemoveFailed(String),
    /// The file could not be created; the error's text.
    CreateFailed(String),
    /// The content could not be written; the error's text.
    WriteFailed(String),
    /// The file was written.
    Written,
}

/// Log entry after the export directory was created.
pub fn directory_created_message(path: &str) -> (r: LogEntry)
    ensures
        r matches Ok(s) && s.text() == "The directory "@ + path@ + " was successfully created."@
            && s.kind() == SuccessType::File,
{
    let mut m = String::new();
    push_str(&mut m, "The directory ");
    push_str(&mut m, path);
    push_str(&mut m, " was successfully created.");
    Ok(Success::new(m, SuccessType::File))
}

/// The log entry of one exported file.
pub open spec fn file_write_entry_ok(filename: Seq<char>, outcome: FileWriteOutcome, r: LogEntry) -> bool {
    match outcome {
        FileWriteOutcome::RemoveFailed(e) => r matches Err(d) && d@ == e@,
        FileWriteOutcome::CreateFailed(e) => r matches Err(d) && d@
            == "An error occured creating the file : "@ + e@,
        FileWriteOutcome::WriteFailed(e) => r matches Err(d) && d@ == e@,
        FileWriteOutcome::Written => r matches Ok(s) && s.text() == "Generated file "@ + filename
            + " for for this project."@ && s.kind() == SuccessType::File,
    }
}

/// Log entry of one exported file, given what came of writing it.
pub fn file_write_message(filename: &str, outcome: &FileWriteOutcome) -> (r: LogEntry)
    ensures
        file_write_entry_ok(filename@, *outcome, r),
{
    match outcome {
        FileWriteOutcome::RemoveFailed(e) => Err(DatabaseError::new(e.as_str())),
        FileWriteOutcome::CreateFailed(e) => {
            let mut m = String::new();
            push_str(&mut m, "An error occured creating the file : ");
            push_str(&mut m, e.as_str());
            Err(DatabaseError::new(m.as_str()))
        },
        FileWriteOutcome::WriteFailed(e) => Err(DatabaseError::new(e.as_str())),
        FileWriteOutcome::Written => {
            let mut m = String::new();
            push_str(&mut m, "Generated file ");
            push_str(&mut m, filename);
            push_str(&mut m, " for for this project.");
            Ok(Success::new(m, SuccessType::File))
        },
    }
}

/// The log of an export into the directory at `path`: where the directory
/// could not be created (`dir_error` holds the error's text), that error
/// alone, and no file is written; otherwise the directory's entry, then one
/// entry per file, in order, a failed file not stopping the ones after it.
pub open spec fn export_log_ok(
    path: Seq<char>,
    dir_error: Option<Seq<char>>,
    files: Seq<FileTodo>,
    outcomes: Seq<FileWriteOutcome>,
    r: Seq<LogEntry>,
) -> bool {
    match dir_error {
        Some(e) => r.len() == 1 && (r[0] matches Err(d) && d@ == e),
        None => {
            &&& r.len() == files.len() + 1
            &&& (r[0] matches Ok(s) && s.text() == "The directory "@ + path
                + " was successfully created."@ && s.kind() == SuccessType::File)
            &&& forall|i: int|
                0 <= i < files.len() ==> file_write_entry_ok(
                    files[i].filename@,
                    outcomes[i],
                    #[trigger] r[i + 1],
                )
        },
    }
}

/// The log of exporting `files` into the directory at `path`, given whether
/// the directory could be created and, where it was, what came of writing
/// each file.
pub fn export_log(
    path: &str,
    dir_error: Option<String>,
    files: &Vec<FileTodo>,
    outcomes: &Vec<FileWriteOutcome>,
) -> (r: Vec<LogEntry>)
    requires
        dir_error is None ==> outcomes@.len() == files@.len(),
    ensures
        export_log_ok(path@, opt_text(dir_error), files@, outcomes@, r@),
{
    let mut logs: Vec<LogEntry> = Vec::new();
    match dir_error {
        Some(e) => {
            logs.push(Err(DatabaseError::new(e.as_str())));
            logs
        },
        None => {
            logs.push(directory_created_message(path));
            let mut i: usize = 0;
            while i < files.len()
                invariant
                    i <= files@.len(),
                    outcomes@.len() == files@.len(),
                    logs@.len() == i + 1,
                    (logs@[0] matches Ok(s) && s.text() == "The directory "@ + path@
                        + " was successfully created."@ && s.kind() == SuccessType::File),
                    forall|k: int|
                        0 <= k < i ==> file_write_entry_ok(
                            files@[k].filename@,
                            outcomes@[k],
                            #[trigger] logs@[k + 1],
                        ),
                decreases files@.len() - i,
            {
                let entry = file_write_message(files[i].filename.as_str(), &outcomes[i]);
                logs.push(entry);
                i = i + 1;
            }
            logs
        },
    }
}

} // verus!
