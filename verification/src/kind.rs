//! The three kinds an argument can have.

use vstd::prelude::*;

verus! {

/// How an argument is invoked on the command line: an option that takes a
/// value, a positional argument, or a bare flag.
#[derive(Debug, Clone, Copy, PartialEq, Eq, Structural)]
pub enum ArgKind {
    Opt,
    Pos,
    Flag,
}

} // verus!
