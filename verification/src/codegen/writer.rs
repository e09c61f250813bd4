//! `CodeWriter`: indentation-aware output for code generation.
use vstd::prelude::*;

verus! {

/// The mathematical value of a `CodeWriter`.
pub struct CodeWriterView {
    /// The text written so far.
    pub content: Seq<char>,
    /// The current indentation level.
    pub level: nat,
    /// The text of one indentation step.
    pub unit: Seq<char>,
}

/// `unit` written `n` times.
pub open spec fn repeated(unit: Seq<char>, n: nat) -> Seq<char>
    decreases n,
{
    if n == 0 {
        Seq::empty()
    } else {
        repeated(unit, (n - 1) as nat) + unit
    }
}

/// Helper for producing indented source code: it keeps the text written so
/// far and the current indentation depth.
#[derive(Debug)]
pub struct CodeWriter {
    content: String,
    indent_level: usize,
    indent_string: &'static str,
}

impl View for CodeWriter {
    type V = CodeWriterView;

    closed spec fn view(&self) -> CodeWriterView {
        CodeWriterView {
            content: self.content@,
            level: self.indent_level as nat,
            unit: self.indent_string@,
        }
    }
}

impl CodeWriter {
    /// Create a writer with no text, at level 0, indenting by `indent_string`.
    pub fn new(indent_string: &'static str) -> (w: Self)
        ensures
            w@ == (CodeWriterView { content: Seq::empty(), level: 0, unit: indent_string@ }),
    {
        CodeWriter { content: String::new(), indent_level: 0, indent_string }
    }

    /// Increase the indentation level by one.
    pub fn indent(&mut self)
        requires
            old(self)@.level < usize::MAX,
        ensures
            final(self)@ == (CodeWriterView { level: old(self)@.level + 1, ..old(self)@ }),
    {
        self.indent_level += 1;
    }

    /// Decrease the indentation level by one; level 0 stays 0.
    pub fn dedent(&mut self)
        ensures
            final(self)@ == (CodeWriterView {
                level: if old(self)@.level > 0 {
                    (old(self)@.level - 1) as nat
                } else {
                    0
                },
                ..old(self)@
            }),
    {
        if self.indent_level > 0 {
            self.indent_level -= 1;
        }
    }

    /// The indentation text of the current level.
    fn current_indent(&self) -> (s: String)
        ensures
            s@ == repeated(self@.unit, self@.level),
    {
        let mut s = String::new();
        let mut i: usize = 0;
        while i < self.indent_level
            invariant
                i <= self.indent_level,
                s@ == repeated(self.indent_string@, i as nat),
            decreases self.indent_level - i,
        {
            s.append(self.indent_string);
            i += 1;
        }
        s
    }

    /// Write a line at the current indentation, followed by a newline.
    pub fn writeln(&mut self, line: &str)
        ensures
            final(self)@ == (CodeWriterView {
                content: old(self)@.content + repeated(old(self)@.unit, old(self)@.level) + line@
                    + "\n"@,
                ..old(self)@
            }),
    {
        let ind = self.current_indent();
        self.content.append(ind.as_str());
        self.content.append(line);
        self.content.append("\n");
    }

    /// Write an empty line (without indentation).
    pub fn blank_line(&mut self)
        ensures
            final(self)@ == (CodeWriterView { content: old(self)@.content + "\n"@, ..old(self)@ }),
    {
        self.content.append("\n");
    }

    /// The text written so far, consuming the writer.
    pub fn into_string(self) -> (s: String)
        ensures
            s@ == self@.content,
    {
        self.content
    }
}

impl Default for CodeWriter {
    /// A writer with no text, at level 0, with an empty indentation step.
    fn default() -> (w: Self)
        ensures
            w@ == (CodeWriterView { content: Seq::empty(), level: 0, unit: Seq::empty() }),
    {
        let unit = "";
        proof {
            reveal_strlit("");
        }
        assert(unit@ =~= Seq::<char>::empty());
        CodeWriter::new(unit)
    }
}

} // verus!
