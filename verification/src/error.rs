//! A list of errors reported together.
use vstd::prelude::*;
use crate::text::{join, join_lines, push_line, views};

verus! {

/// An error that can say in words what went wrong.
pub trait Message {
    /// The text of the error.
    spec fn message_spec(&self) -> Seq<char>;

    /// Writes the text of the error.
    fn message(&self) -> (s: String)
        ensures
            s@ == self.message_spec(),
    ;
}

/// Several errors found in one pass, in the order in which they were found.
#[derive(Debug)]
pub struct ErrorList<T> {
    pub errs: Vec<T>,
}

/// The texts of a sequence of errors, one for each, in order.
pub open spec fn messages<T: Message>(errs: Seq<T>) -> Seq<Seq<char>> {
    errs.map_values(|e: T| e.message_spec())
}

impl<T: Message> Message for ErrorList<T> {
    /// The texts of the errors, one per line.
    open spec fn message_spec(&self) -> Seq<char> {
        join(messages(self.errs@), "\n"@)
    }

    fn message(&self) -> (s: String) {
        let mut lines: Vec<String> = Vec::new();
        let n = self.errs.len();
        let mut i: usize = 0;
        while i < n
            invariant
                n == self.errs@.len(),
                i <= n,
                views(lines@) == messages(self.errs@.take(i as int)),
            decreases n - i,
        {
            let line = self.errs[i].message();
            push_line(&mut lines, line);
            assert(messages(self.errs@.take(i + 1)) =~= messages(
                self.errs@.take(i as int),
            ).push(self.errs@[i as int].message_spec()));
            i = i + 1;
        }
        assert(self.errs@.take(n as int) =~= self.errs@);
        join_lines(&lines, "\n")
    }
}

} // verus!
