use vstd::prelude::*;
use vstd::string::StringExecFns;

use crate::strings::pushChar;

verus! {

/// Line-by-line accumulator for the text body of a unified diff: content
/// lines keep their origin marker (`+`, `-` or space) as prefix, file
/// headers and hunk headers go in as they are.
pub struct DiffFormatter {
    text: String,
}

/// What one formatted line adds to the text: content lines carry their
/// origin character, header lines only themselves.
pub open spec fn spec_formatted_line(origin: char, content: Seq<char>) -> Seq<char> {
    if origin == '+' || origin == '-' || origin == ' ' {
        seq![origin] + content
    } else {
        content
    }
}

impl DiffFormatter {
    /// The text accumulated so far.
    pub closed spec fn spec_text(self) -> Seq<char> {
        self.text@
    }

    /// An empty formatter.
    pub fn new() -> (r: DiffFormatter)
        ensures
            r.spec_text() == Seq::<char>::empty(),
    {
        DiffFormatter { text: String::new() }
    }

    /// Takes one diff line, already split into its origin marker and its
    /// content, and appends its formatted form.  Always reports success so
    /// the printing machinery around it carries on.
    pub fn format(&mut self, origin: char, lineContent: &str) -> (r: bool)
        ensures
            final(self).spec_text() == old(self).spec_text() + spec_formatted_line(
                origin,
                lineContent@,
            ),
            r == true,
    {
        if origin == '+' || origin == '-' || origin == ' ' {
            self.addContent(origin, lineContent);
        } else if origin == 'F' {
            self.addFileHeader(lineContent);
        } else {
            self.addHunkInfo(lineContent);
        }
        true
    }

    /// The accumulated text; the formatter is spent.
    pub fn takeText(self) -> (r: String)
        ensures
            r@ == self.spec_text(),
    {
        self.text
    }

    /// Appends a content line under its origin prefix.
    pub fn addContent(&mut self, prefix: char, line: &str)
        ensures
            final(self).spec_text() == old(self).spec_text() + seq![prefix] + line@,
    {
        pushChar(&mut self.text, prefix);
        self.text.append(line);
    }

    /// Appends a file header line as it is.
    pub fn addFileHeader(&mut self, line: &str)
        ensures
            final(self).spec_text() == old(self).spec_text() + line@,
    {
        self.text.append(line);
    }

    /// Appends a hunk header line as it is.
    pub fn addHunkInfo(&mut self, line: &str)
        ensures
            final(self).spec_text() == old(self).spec_text() + line@,
    {
        self.text.append(line);
    }
}

} // verus!
