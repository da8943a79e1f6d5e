//! A line-by-line XML document builder.
//!
//! Both generators emit a fixed sequence of lines and join them with `"\n"`,
//! with no trailing newline. The builder keeps the text written so far
//! together with the (ghost) sequence of lines it came from.

use vstd::prelude::*;
use vstd::string::StringExecFns;
use crate::escape::escape_xml;
use crate::escape::spec_escape;

verus! {

pub open spec fn nl() -> Seq<char> {
    "\n"@
}

/// The text of the lines, joined with a newline between each pair.
pub open spec fn spec_join(ls: Seq<Seq<char>>) -> Seq<char>
    decreases ls.len(),
{
    if ls.len() == 0 {
        Seq::empty()
    } else if ls.len() == 1 {
        ls[0]
    } else {
        spec_join(ls.drop_last()) + nl() + ls.last()
    }
}

/// A growing newline-joined document.
pub struct LineWriter {
    pub text: String,
    pub lines: Ghost<Seq<Seq<char>>>,
}

impl LineWriter {
    /// The text so far is exactly the join of the lines so far.
    pub open spec fn wf(self) -> bool {
        &&& self.lines@.len() >= 1
        &&& self.text@ == spec_join(self.lines@)
    }

    /// Starts a document with its first line.
    pub fn new(first: &str) -> (w: LineWriter)
        ensures
            w.wf(),
            w.lines@ == seq![first@],
    {
        let ghost ls = seq![first@];
        LineWriter { text: first.to_owned(), lines: Ghost(ls) }
    }

    /// Appends one line as it stands.
    pub fn push_line(&mut self, line: &str)
        requires
            old(self).wf(),
        ensures
            final(self).wf(),
            final(self).lines@ == old(self).lines@.push(line@),
    {
        self.text.append("\n");
        self.text.append(line);
        proof {
            let ls2 = self.lines@.push(line@);
            assert(ls2.drop_last() =~= self.lines@);
            self.lines@ = ls2;
        }
    }

    /// Appends one line made of a fixed opening, escaped text, and a fixed
    /// closing.
    pub fn push_escaped_line(&mut self, pre: &str, raw: &str, post: &str)
        requires
            old(self).wf(),
        ensures
            final(self).wf(),
            final(self).lines@ == old(self).lines@.push(pre@ + spec_escape(raw@) + post@),
    {
        let mut line = pre.to_owned();
        let esc = escape_xml(raw);
        line.append(esc.as_str());
        line.append(post);
        self.push_line(line.as_str());
    }

    /// Hands the finished document out.
    pub fn finish(self) -> (r: String)
        requires
            self.wf(),
        ensures
            r@ == spec_join(self.lines@),
    {
        self.text
    }
}

} // verus!
