use vstd::prelude::*;

use crate::text::{decimal, push_decimal};

verus! {

/// One recorded call site on an error's propagation trail.
#[derive(Clone, Copy, Debug, PartialEq, Eq)]
pub struct Location {
    /// File that holds the call site.
    pub file: &'static str,
    /// Line of the call site.
    pub line: u32,
    /// Name of the enclosing function.
    pub func: &'static str,
}

/// The display form of a frame: `<file>:<line> <func>()`.
pub open spec fn location_text(l: Location) -> Seq<char> {
    l.file@ + seq![':'] + decimal(l.line as nat) + seq![' '] + l.func@ + seq!['(', ')']
}

impl Location {
    /// Appends the display form of this frame to `out`.
    pub fn write_to(&self, out: &mut String)
        ensures
            final(out)@ == old(out)@ + location_text(*self),
    {
        proof {
            reveal_strlit(":");
            reveal_strlit(" ");
            reveal_strlit("()");
        }
        out.append(self.file);
        out.append(":");
        push_decimal(out, self.line);
        out.append(" ");
        out.append(self.func);
        out.append("()");
        assert(out@ =~= old(out)@ + location_text(*self));
    }

    /// The display form of this frame: `<file>:<line> <func>()`.
    pub fn to_text(&self) -> (r: String)
        ensures
            r@ == location_text(*self),
    {
        let mut out = String::new();
        self.write_to(&mut out);
        assert(out@ =~= location_text(*self));
        out
    }
}

} // verus!
