//! The lines that the engine has to say. They are kept here in order until
//! the caller takes them to print them.

use vstd::prelude::*;
use vstd::string::StringExecFns;

verus! {

/// The lines said and not yet taken.
pub struct Logger {
    pub lines: Vec<String>,
}

impl View for Logger {
    type V = Seq<Seq<char>>;

    open spec fn view(&self) -> Seq<Seq<char>> {
        Seq::new(self.lines.len() as nat, |i: int| self.lines[i]@)
    }
}

impl Logger {
    /// A logger that has said nothing.
    pub fn new() -> (r: Logger)
        ensures
            r@ == Seq::<Seq<char>>::empty(),
    {
        let r = Logger { lines: Vec::new() };
        proof {
            assert(r@ =~= Seq::<Seq<char>>::empty());
        }
        r
    }

    /// Says a line.
    pub fn log(&mut self, message: &str)
        ensures
            final(self)@ == old(self)@.push(message@),
    {
        self.lines.push(String::from_str(message));
        proof {
            assert(self@ =~= old(self)@.push(message@));
        }
    }

    /// Says a line that the caller has built.
    pub fn log_line(&mut self, message: String)
        ensures
            final(self)@ == old(self)@.push(message@),
    {
        self.lines.push(message);
        proof {
            assert(self@ =~= old(self)@.push(message@));
        }
    }

    /// Hands over the lines said so far, the first said first, and keeps
    /// none.
    pub fn take(&mut self) -> (r: Vec<String>)
        ensures
            final(self)@ == Seq::<Seq<char>>::empty(),
            r.len() == old(self)@.len(),
            forall|i: int| 0 <= i < r.len() ==> (#[trigger] r[i])@ == old(self)@[i],
    {
        let mut out: Vec<String> = Vec::new();
        std::mem::swap(&mut out, &mut self.lines);
        proof {
            assert(self@ =~= Seq::<Seq<char>>::empty());
        }
        out
    }
}

} // verus!
