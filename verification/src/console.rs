//! Colored diagnostic text: wrappers that render a message between an ANSI
//! color escape and the reset escape. The serial transport that carries the
//! rendered text to the host is an external collaborator.

use vstd::prelude::*;
use vstd::string::StringExecFns;

verus! {

/// A message rendered in green.
pub struct Green(pub &'static str);

impl Green {
    /// The message between the ANSI green escape and the reset escape.
    pub fn render(&self) -> (r: String)
        ensures
            r@ == "\x1b[32m"@ + self.0@ + "\x1b[0m"@,
    {
        let mut s = String::from_str("\x1b[32m");
        s.append(self.0);
        s.append("\x1b[0m");
        proof {
            assert(s@ =~= "\x1b[32m"@ + self.0@ + "\x1b[0m"@);
        }
        s
    }
}

/// A message rendered in red.
pub struct Red(pub &'static str);

impl Red {
    /// The message between the ANSI red escape and the reset escape.
    pub fn render(&self) -> (r: String)
        ensures
            r@ == "\x1b[31m"@ + self.0@ + "\x1b[0m"@,
    {
        let mut s = String::from_str("\x1b[31m");
        s.append(self.0);
        s.append("\x1b[0m");
        proof {
            assert(s@ =~= "\x1b[31m"@ + self.0@ + "\x1b[0m"@);
        }
        s
    }
}

} // verus!
