//! CSV assembly: cells are separated by a configurable character and a cell
//! holding the separator, a double quote or a newline is wrapped in quotes
//! with its inner quotes doubled.

use vstd::prelude::*;
use vstd::string::StrSliceExecFns;
use crate::strings::{push_char, push_str, seq_contains_char, str_contains_char};

verus! {

/// Whether a cell's content must be wrapped in quotes: it holds the
/// separator, a double quote, or a newline.
pub open spec fn spec_needs_quotes(s: Seq<char>, sep: char) -> bool {
    seq_contains_char(s, sep) || seq_contains_char(s, '"') || seq_contains_char(s, '\n')
}

/// A cell's content with every double quote doubled.
pub open spec fn spec_escape_quotes(s: Seq<char>) -> Seq<char>
    decreases s.len(),
{
    if s.len() == 0 {
        Seq::empty()
    } else if s.last() == '"' {
        spec_escape_quotes(s.drop_last()) + seq!['"', '"']
    } else {
        spec_escape_quotes(s.drop_last()) + seq![s.last()]
    }
}

/// How one cell's content appears in the output, before its separator:
/// quoted with doubled inner quotes when quoting is needed, as it is
/// otherwise.
pub open spec fn spec_cell_repr(s: Seq<char>, sep: char) -> Seq<char> {
    if spec_needs_quotes(s, sep) {
        seq!['"'] + spec_escape_quotes(s) + seq!['"']
    } else {
        s
    }
}

/// Utility to build CSV output.
#[derive(Debug)]
pub struct Csv {
    pub separator: char,
    pub out: String,
}

impl Csv {
    pub fn new(separator: char) -> (r: Self)
        ensures
            r.separator == separator,
            r.out@ == Seq::<char>::empty(),
    {
        Self { separator, out: String::new() }
    }

    /// The output assembled so far.
    pub fn output(self) -> (r: String)
        ensures
            r@ == self.out@,
    {
        self.out
    }

    /// Appends one cell and its trailing separator, quoting the content if
    /// it holds the separator, a double quote or a newline.
    pub fn cell(&mut self, content: &str)
        ensures
            final(self).separator == old(self).separator,
            final(self).out@ == old(self).out@ + spec_cell_repr(content@, old(self).separator)
                + seq![old(self).separator],
    {
        let needs_quotes = str_contains_char(content, self.separator) || str_contains_char(
            content,
            '"',
        ) || str_contains_char(content, '\n');
        if needs_quotes {
            push_char(&mut self.out, '"');
            let n = content.unicode_len();
            let mut i: usize = 0;
            while i < n
                invariant
                    n == content@.len(),
                    i <= n,
                    self.separator == old(self).separator,
                    self.out@ == old(self).out@ + seq!['"'] + spec_escape_quotes(
                        content@.subrange(0, i as int),
                    ),
                decreases n - i,
            {
                let c = content.get_char(i);
                proof {
                    assert(content@.subrange(0, i + 1 as int).drop_last() =~= content@.subrange(
                        0,
                        i as int,
                    ));
                    assert(content@.subrange(0, i + 1 as int).last() == content@[i as int]);
                }
                if c == '"' {
                    push_char(&mut self.out, '"');
                    push_char(&mut self.out, '"');
                    proof {
                        assert(self.out@ =~= old(self).out@ + seq!['"'] + spec_escape_quotes(
                            content@.subrange(0, i + 1 as int),
                        ));
                    }
                } else {
                    push_char(&mut self.out, c);
                    proof {
                        assert(self.out@ =~= old(self).out@ + seq!['"'] + spec_escape_quotes(
                            content@.subrange(0, i + 1 as int),
                        ));
                    }
                }
                i = i + 1;
            }
            proof {
                assert(content@.subrange(0, n as int) =~= content@);
            }
            push_char(&mut self.out, '"');
            push_char(&mut self.out, self.separator);
            proof {
                assert(self.out@ =~= old(self).out@ + spec_cell_repr(
                    content@,
                    old(self).separator,
                ) + seq![old(self).separator]);
            }
        } else {
            push_str(&mut self.out, content);
            push_char(&mut self.out, self.separator);
            proof {
                assert(self.out@ =~= old(self).out@ + spec_cell_repr(
                    content@,
                    old(self).separator,
                ) + seq![old(self).separator]);
            }
        }
    }

    /// Appends an optional cell: a missing value leaves the cell empty,
    /// writing only the separator.
    pub fn cell_opt(&mut self, content: Option<&str>)
        ensures
            final(self).separator == old(self).separator,
            final(self).out@ == match content {
                Some(c) => old(self).out@ + spec_cell_repr(c@, old(self).separator) + seq![
                    old(self).separator,
                ],
                None => old(self).out@ + seq![old(self).separator],
            },
    {
        match content {
            Some(c) => self.cell(c),
            None => {
                push_char(&mut self.out, self.separator);
            },
        }
    }

    /// Ends the current line.
    pub fn end_line(&mut self)
        ensures
            final(self).separator == old(self).separator,
            final(self).out@ == old(self).out@.push('\n'),
    {
        push_char(&mut self.out, '\n');
    }
}

} // verus!
