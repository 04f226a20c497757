//! The formatter: an accumulating output buffer and an indent level,
//! threaded through one recursive printer descent at a time.

use vstd::prelude::*;

verus! {

/// The formatter's mathematical model: the buffered text and the indent
/// level.
pub struct FmtState {
    /// The accumulated output text.
    pub out: Seq<char>,
    /// The current indent level.
    pub indent: nat,
}

/// `n` levels of indentation: four spaces per level.
pub open spec fn indent_spaces(n: nat) -> Seq<char> {
    Seq::new(4 * n, |i: int| ' ')
}

/// An accumulating text buffer with an indent counter. `line` emits one
/// line at the current indent; `print` hands out the whole buffer.
pub struct Formatter {
    out: String,
    indent: usize,
}

impl View for Formatter {
    type V = FmtState;

    closed spec fn view(&self) -> FmtState {
        FmtState { out: self.out@, indent: self.indent as nat }
    }
}

impl Formatter {
    /// A fresh formatter: empty buffer, indent level zero.
    pub fn new() -> (f: Formatter)
        ensures
            f@.out == Seq::<char>::empty(),
            f@.indent == 0,
    {
        Formatter { out: String::new(), indent: 0 }
    }

    /// Raises the indent level by one; the level saturates at the machine
    /// limit, as `dedent` does at zero.
    pub fn indent(&mut self)
        ensures
            final(self)@.out == old(self)@.out,
            final(self)@.indent == if old(self)@.indent < usize::MAX as nat {
                old(self)@.indent + 1
            } else {
                old(self)@.indent
            },
    {
        self.indent = self.indent.saturating_add(1);
    }

    /// Lowers the indent level by one, stopping at zero.
    pub fn dedent(&mut self)
        ensures
            final(self)@.out == old(self)@.out,
            final(self)@.indent == if old(self)@.indent > 0 {
                (old(self)@.indent - 1) as nat
            } else {
                0nat
            },
    {
        self.indent = self.indent.saturating_sub(1);
    }

    /// Appends one line to the buffer: the current indentation, then `s`,
    /// then a newline.
    pub fn line(&mut self, s: &str)
        ensures
            final(self)@.out == old(self)@.out + indent_spaces(old(self)@.indent) + s@
                + seq!['\n'],
            final(self)@.indent == old(self)@.indent,
    {
        let ghost orig: Seq<char> = self.out@;
        let levels = self.indent;
        let mut i: usize = 0;
        proof {
            assert(self.out@ =~= orig + indent_spaces(0));
        }
        while i < levels
            invariant
                self.indent == levels,
                i <= levels,
                self.out@ == orig + indent_spaces(i as nat),
            decreases levels - i,
        {
            self.out.append("    ");
            proof {
                reveal_strlit("    ");
                assert(self.out@ =~= orig + indent_spaces((i + 1) as nat));
            }
            i += 1;
        }
        self.out.append(s);
        self.out.append("\n");
        proof {
            reveal_strlit("\n");
            assert("\n"@ =~= seq!['\n']);
        }
    }

    /// A copy of everything buffered so far.
    pub fn print(&mut self) -> (r: String)
        ensures
            r@ == old(self)@.out,
            *final(self) == *old(self),
    {
        self.out.clone()
    }
}

} // verus!
