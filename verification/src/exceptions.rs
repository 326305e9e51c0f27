//! Warnings collected while a command runs, shown when it ends.

use vstd::prelude::*;

verus! {

/// A warning, and whether its follow-up needs the user's confirmation.
#[derive(Debug)]
pub struct Warning {
    pub message: String,
    pub confirmation: bool,
}

/// What follows a warning once it goes ahead.
pub trait Action<T> {
    /// Performs the follow-up.
    fn action(&self);
}

/// Presentation of a warning to the user, who may confirm its follow-up.
pub trait HandleException {
    /// Shows the warning, asks for confirmation where it needs one, and runs
    /// the follow-up where it goes ahead.
    fn warn(&self);
}

/// Answers that confirm: `y` in either case (the only text whose lower
/// case is `y`).
pub open spec fn confirms(answer: Seq<char>) -> bool {
    answer == seq!['y'] || answer == seq!['Y']
}

impl Warning {
    /// A warning with its message.
    pub fn new(message: &str, needs_confirmation: bool) -> (r: Self)
        ensures
            r.message@ == message@,
            r.confirmation == needs_confirmation,
    {
        Self { message: message.to_string(), confirmation: needs_confirmation }
    }

    /// Whether the follow-up of the warning goes ahead, given the user's
    /// trimmed answer: always where no confirmation is needed, otherwise on a
    /// `y` in either case.
    pub fn proceeds(&self, answer: &str) -> (r: bool)
        ensures
            r == (!self.confirmation || confirms(answer@)),
    {
        if !self.confirmation {
            return true;
        }
        if answer.unicode_len() != 1 {
            return false;
        }
        let c = answer.get_char(0);
        let r = c == 'y' || c == 'Y';
        assert(r ==> (answer@ =~= seq![c]));
        r
    }
}

} // verus!
