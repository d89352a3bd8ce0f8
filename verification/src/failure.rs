//! Errors with the circumstances under which they came.
use vstd::prelude::*;

verus! {

/// Why something failed: the outermost circumstance first, the cause last.
#[derive(Debug)]
pub struct Failure {
    message: String,
    causes: Vec<String>,
}

/// The messages joined by colons.
pub open spec fn joined_messages(messages: Seq<Seq<char>>) -> Seq<char>
    decreases messages.len(),
{
    if messages.len() == 0 {
        seq![]
    } else if messages.len() == 1 {
        messages[0]
    } else {
        joined_messages(messages.drop_last()) + ": "@ + messages.last()
    }
}

impl View for Failure {
    type V = Seq<Seq<char>>;

    closed spec fn view(&self) -> Seq<Seq<char>> {
        seq![self.message@] + self.causes@.map_values(|c: String| c@)
    }
}

impl Failure {
    /// A failure without further circumstances.
    pub fn new(message: String) -> (f: Self)
        ensures
            f@ == seq![message@],
    {
        let f = Failure { message, causes: Vec::new() };
        assert(f@ =~= seq![message@]);
        f
    }

    /// The same failure, seen from further out.
    pub fn context(self, message: &str) -> (f: Self)
        ensures
            f@ == seq![message@] + self@,
    {
        let mut causes = self.causes;
        let ghost before = causes@;
        let ghost inner = self.message;
        causes.insert(0, self.message);
        assert(causes@ =~= seq![inner] + before);
        let f = Failure { message: message.to_owned(), causes };
        assert(f@ =~= seq![message@] + (seq![inner@] + before.map_values(|c: String| c@)));
        f
    }

    /// The outermost circumstance alone.
    pub fn message(&self) -> (s: String)
        ensures
            self@.len() > 0,
            s@ == self@[0],
    {
        self.message.clone()
    }

    /// All circumstances, joined by colons.
    pub fn full(&self) -> (s: String)
        ensures
            s@ == joined_messages(self@),
    {
        let mut s = self.message.clone();
        let ghost all = self@;
        let mut i: usize = 0;
        assert(all.take(1) =~= seq![self.message@]);
        while i < self.causes.len()
            invariant
                i <= self.causes@.len(),
                all == self@,
                s@ == joined_messages(all.take(i as int + 1)),
            decreases self.causes@.len() - i,
        {
            s.append(": ");
            s.append(self.causes[i].as_str());
            proof {
                assert(all.take(i as int + 2).drop_last() =~= all.take(i as int + 1));
                assert(all.take(i as int + 2).last() == self.causes@[i as int]@);
            }
            i = i + 1;
        }
        assert(all.take(i as int + 1) =~= all);
        s
    }
}

} // verus!
