//! The daemon: its port, the command lines it receives, and the log lines it
//! relays to clients.

use std::collections::VecDeque;
use vstd::prelude::*;

use crate::text::{
    all_digits, decimal, is_digit, decimal_nat, is_whitespace, lemma_decimal_nat_digits, trim, trim_end,
    trim_end_spec, trim_spec,
};

verus! {

/// Port the daemon listens on when none was recorded.
pub open spec fn default_port() -> Seq<char> {
    "5339"@
}

/// The daemon's TCP port: as recorded in the port file, or the default when
/// the file is missing.
#[derive(Debug)]
pub enum TCPPort {
    Present(String),
    Missing(String),
}

/// The port given the port file's content, if it could be read: the trimmed
/// content, or the default port.
pub fn read_port(contents: Option<String>) -> (r: TCPPort)
    ensures
        match contents {
            Some(c) => r matches TCPPort::Present(p) && p@ == trim_spec(c@),
            None => r matches TCPPort::Missing(p) && p@ == default_port(),
        },
{
    match contents {
        Some(c) => TCPPort::Present(trim(c.as_str())),
        None => TCPPort::Missing("5339".to_string()),
    }
}

/// A port written to the port file in decimal is read back unchanged: the
/// trimming that `read_port` applies leaves a decimal number as it is.
pub proof fn lemma_port_file_round_trip(port: u16)
    ensures
        trim_spec(decimal(port as int)) == decimal(port as int),
{
    let s = decimal_nat(port as nat);
    lemma_decimal_nat_digits(port as nat);
    assert(all_digits(s));
    assert(is_digit(s[s.len() - 1]));
    assert(!is_whitespace(s.last()));
    assert(trim_end_spec(s) == s);
    assert(is_digit(s[0]));
    assert(!is_whitespace(s[0]));
}

/// The words of a shell command line; `None` where its quoting is broken.
pub uninterp spec fn shell_split_spec(line: Seq<char>) -> Option<Seq<Seq<char>>>;

/// Splits a command line into words as a POSIX shell does.
///
/// Trusted: calls `shell_words::split`; claims only that the words are
/// determined by the line.
#[verifier::external_body]
fn shell_split(line: &str) -> (r: Option<Vec<String>>)
    ensures
        match r {
            Some(words) => shell_split_spec(line@) == Some(words.deep_view()),
            None => shell_split_spec(line@) is None,
        },
{
    shell_words::split(line).ok()
}

/// The arguments to run a received command line with: the program name
/// `rush`, then the words of the line without trailing whitespace; `None`
/// where the line holds no word or its quoting is broken.
pub open spec fn command_args_spec(line: Seq<char>) -> Option<Seq<Seq<char>>> {
    match shell_split_spec(trim_end_spec(line)) {
        Some(words) => if words.len() == 0 {
            None
        } else {
            Some(seq!["rush"@] + words)
        },
        None => None,
    }
}

/// A received line is refused only when it holds no word or its quoting is
/// broken. Whenever it splits into words, even a single one, the daemon runs
/// `rush` followed by exactly those words, in order.
pub proof fn lemma_command_args_keeps_words(line: Seq<char>, words: Seq<Seq<char>>)
    requires
        shell_split_spec(trim_end_spec(line)) == Some(words),
        words.len() >= 1,
    ensures
        command_args_spec(line) is Some,
        command_args_spec(line).unwrap().len() == words.len() + 1,
        command_args_spec(line).unwrap()[0] == "rush"@,
        forall|i: int|
            0 <= i < words.len() ==> #[trigger] command_args_spec(line).unwrap()[i + 1] == words[i],
{
}

/// A line is refused exactly when it holds no word or its quoting is broken.
pub proof fn lemma_command_args_refusals(line: Seq<char>)
    ensures
        command_args_spec(line) is None <==> (shell_split_spec(trim_end_spec(line)) is None
            || shell_split_spec(trim_end_spec(line)).unwrap().len() == 0),
{
}

/// The arguments to run a received command line with, or `None` for an
/// invalid command.
pub fn command_args(line: &str) -> (r: Option<Vec<String>>)
    ensures
        match r {
            Some(args) => command_args_spec(line@) == Some(args.deep_view()),
            None => command_args_spec(line@) is None,
        },
{
    let trimmed = trim_end(line);
    let mut args = match shell_split(trimmed.as_str()) {
        Some(words) => words,
        None => Vec::new(),
    };
    if args.len() == 0 {
        return None;
    }
    let ghost words = args.deep_view();
    args.insert(0, "rush".to_string());
    assert(args.deep_view() =~= seq!["rush"@] + words);
    Some(args)
}

/// Arguments of the child process that runs a command outside the daemon:
/// `cli`, then the command's arguments.
pub fn spawn_args(args: &Vec<String>) -> (r: Vec<String>)
    ensures
        r.deep_view() == seq!["cli"@] + args.deep_view(),
{
    let mut r: Vec<String> = Vec::new();
    r.push("cli".to_string());
    let mut i: usize = 0;
    while i < args.len()
        invariant
            i <= args.len(),
            r@.len() == i + 1,
            r@[0]@ == "cli"@,
            forall|j: int| 0 <= j < i ==> #[trigger] r@[j + 1]@ == args@[j]@,
        decreases args.len() - i,
    {
        r.push(args[i].clone());
        i = i + 1;
    }
    assert forall|j: int| 0 <= j < r@.len() implies #[trigger] r.deep_view()[j] == (seq!["cli"@]
        + args.deep_view())[j] by {
        if j > 0 {
            assert(r@[(j - 1) + 1]@ == args@[j - 1]@);
        }
    }
    assert(r.deep_view() =~= seq!["cli"@] + args.deep_view());
    r
}

/// The answer to a line received on the log channel.
pub fn handle_command(line: &str) -> (r: String)
    ensures
        r@ == "line received : "@ + line@,
{
    let mut r = "line received : ".to_string();
    r.append(line);
    r
}

/// Log lines waiting to be sent to clients, oldest first.
pub struct LogBuffer {
    lines: VecDeque<String>,
}

impl View for LogBuffer {
    type V = Seq<Seq<char>>;

    closed spec fn view(&self) -> Seq<Seq<char>> {
        self.lines.deep_view()
    }
}

impl LogBuffer {
    /// An empty buffer.
    pub fn new() -> (r: Self)
        ensures
            r@.len() == 0,
    {
        LogBuffer { lines: VecDeque::new() }
    }

    /// Appends a line.
    pub fn push(&mut self, line: String)
        ensures
            final(self)@ == old(self)@.push(line@),
    {
        self.lines.push_back(line);
        assert(self.lines.deep_view() =~= old(self).lines.deep_view().push(line@));
    }

    /// Takes every waiting line, oldest first, and leaves the buffer empty.
    pub fn pop_all(&mut self) -> (r: Vec<String>)
        ensures
            r.deep_view() == old(self)@,
            final(self)@.len() == 0,
    {
        let ghost all = self.lines@;
        let mut out: Vec<String> = Vec::new();
        while self.lines.len() > 0
            invariant
                out@ + self.lines@ == all,
            decreases self.lines@.len(),
        {
            let ghost before = self.lines@;
            match self.lines.pop_front() {
                Some(line) => {
                    out.push(line);
                    assert(out@ + self.lines@ =~= all);
                },
                None => {},
            }
        }
        assert(out@ =~= all);
        assert(out.deep_view() =~= old(self).lines.deep_view());
        out
    }
}

} // verus!
