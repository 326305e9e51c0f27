//! Outcomes of database and file operations, and the log that shows them.

use vstd::prelude::*;

use crate::text::{decimal, push_decimal_u64, push_str};

verus! {

/// A failed database or file operation, with its message.
#[derive(Debug)]
pub struct DatabaseError {
    message: String,
}

impl View for DatabaseError {
    type V = Seq<char>;

    /// The error's message.
    closed spec fn view(&self) -> Seq<char> {
        self.message@
    }
}

impl DatabaseError {
    /// An error with the given message.
    pub fn new(msg: &str) -> (r: Self)
        ensures
            r@ == msg@,
    {
        DatabaseError { message: msg.to_string() }
    }

    /// The error's message.
    pub fn message(&self) -> (r: &str)
        ensures
            r@ == self@,
    {
        self.message.as_str()
    }
}

impl Clone for DatabaseError {
    fn clone(&self) -> (r: Self)
        ensures
            r@ == self@,
    {
        DatabaseError { message: self.message.clone() }
    }
}

/// What kind of operation succeeded.
#[derive(Clone, Copy, Debug, PartialEq, Eq, Structural)]
pub enum SuccessType {
    Database,
    File,
}

#[verifier::external_type_specification]
#[verifier::external_body]
pub struct ExSystemTime(std::time::SystemTime);

/// The current time.
///
/// Trusted: calls `SystemTime::now`; nothing is claimed of the value.
#[verifier::external_body]
fn now() -> (r: std::time::SystemTime) {
    std::time::SystemTime::now()
}

/// A successful operation: its kind, its message and when it happened.
#[derive(Debug)]
pub struct Success {
    timestamp: std::time::SystemTime,
    success_type: SuccessType,
    message: String,
}

impl Success {
    /// The message of the operation.
    pub closed spec fn text(&self) -> Seq<char> {
        self.message@
    }

    /// The kind of the operation.
    pub closed spec fn kind(&self) -> SuccessType {
        self.success_type
    }

    /// When the operation happened.
    pub closed spec fn time(&self) -> std::time::SystemTime {
        self.timestamp
    }

    /// A success stamped with the current time.
    pub fn new(message: String, success_type: SuccessType) -> (r: Self)
        ensures
            r.text() == message@,
            r.kind() == success_type,
    {
        Success { timestamp: now(), message, success_type }
    }

    /// The note that tells what kind of operation succeeded.
    pub fn success_message(self) -> (r: String)
        ensures
            r@ == success_note(self.kind()),
    {
        match self.success_type {
            SuccessType::File => {
                let s = String::from_str("(file operation)");
                proof {
                    reveal_strlit("(file operation)");
                }
                s
            },
            SuccessType::Database => {
                let s = String::from_str("(database operation)");
                proof {
                    reveal_strlit("(database operation)");
                }
                s
            },
        }
    }

    /// The message of the operation.
    pub fn message(&self) -> (r: &str)
        ensures
            r@ == self.text(),
    {
        self.message.as_str()
    }

    /// When the operation happened.
    pub fn timestamp(&self) -> (r: std::time::SystemTime)
        ensures
            r == self.time(),
    {
        self.timestamp
    }
}

/// The note for each kind of successful operation.
pub open spec fn success_note(kind: SuccessType) -> Seq<char> {
    match kind {
        SuccessType::File => "(file operation)"@,
        SuccessType::Database => "(database operation)"@,
    }
}

impl Clone for Success {
    fn clone(&self) -> (r: Self)
        ensures
            r.text() == self.text(),
            r.kind() == self.kind(),
            r.time() == self.time(),
    {
        Success {
            timestamp: self.timestamp,
            success_type: self.success_type,
            message: self.message.clone(),
        }
    }
}

/// Outcome of an operation, as the log shows it.
pub type LogEntry = Result<Success, DatabaseError>;

/// How the log shows an entry: a success with how long ago it happened, an
/// error flagged as such.
pub open spec fn log_line_text(entry: LogEntry, elapsed_secs: nat) -> Seq<char> {
    match entry {
        Ok(s) => "["@ + decimal(elapsed_secs as int) + " seconds ago] - "@ + s.text(),
        Err(e) => "ERR - "@ + e@,
    }
}

/// The line the log shows for an entry, `elapsed_secs` seconds after a
/// success happened.
pub fn log_line(entry: &LogEntry, elapsed_secs: u64) -> (r: String)
    ensures
        r@ == log_line_text(*entry, elapsed_secs as nat),
{
    let mut line = String::new();
    match entry {
        Ok(s) => {
            push_str(&mut line, "[");
            push_decimal_u64(&mut line, elapsed_secs);
            push_str(&mut line, " seconds ago] - ");
            push_str(&mut line, s.message());
        },
        Err(e) => {
            push_str(&mut line, "ERR - ");
            push_str(&mut line, e.message());
        },
    }
    line
}

/// The log of outcomes a window shows, and whether it should scroll to the
/// latest one.
pub struct Log<T> {
    value: Vec<T>,
    should_scroll: bool,
}

impl<T> Log<T> {
    /// The entries, oldest first.
    pub closed spec fn entries(&self) -> Seq<T> {
        self.value@
    }

    /// Whether the view should scroll to the latest entry.
    pub closed spec fn scrolls(&self) -> bool {
        self.should_scroll
    }

    /// A log holding `logs`, not scrolling.
    pub fn new(logs: Vec<T>) -> (r: Self)
        ensures
            r.entries() == logs@,
            !r.scrolls(),
    {
        Log { value: logs, should_scroll: false }
    }

    /// Appends an entry.
    pub fn push(&mut self, element: T)
        ensures
            final(self).entries() == old(self).entries().push(element),
            final(self).scrolls() == old(self).scrolls(),
    {
        self.value.push(element);
    }

    /// Asks the view to scroll to the latest entry.
    pub fn should_scroll(&mut self)
        ensures
            final(self).entries() == old(self).entries(),
            final(self).scrolls(),
    {
        self.should_scroll = true;
    }

    /// Whether the view should scroll now; the request is consumed.
    pub fn take_scroll(&mut self) -> (r: bool)
        ensures
            r == old(self).scrolls(),
            !final(self).scrolls(),
            final(self).entries() == old(self).entries(),
    {
        let r = self.should_scroll;
        self.should_scroll = false;
        r
    }

    /// The entries, oldest first.
    pub fn entries_ref(&self) -> (r: &Vec<T>)
        ensures
            r@ == self.entries(),
    {
        &self.value
    }
}

} // verus!
