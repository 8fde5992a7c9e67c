//! What can go wrong while tool input is aggregated.

use vstd::prelude::*;

verus! {

#[derive(Clone, Copy, Debug, PartialEq, Eq, Structural)]
pub enum TabletError {
    /// A notification named a tool that is not registered: it was never
    /// announced, or it was removed already.
    UnknownTool,
    /// A frame ended while the tool's surface belongs to no live window.
    UnresolvedSurface,
}

impl TabletError {
    /// A short description for logs.
    pub fn message(&self) -> (text: &'static str)
        ensures
            text@ == (match *self {
                TabletError::UnknownTool => "unknown tablet tool"@,
                TabletError::UnresolvedSurface => "surface of tablet tool has no window"@,
            }),
    {
        match self {
            TabletError::UnknownTool => "unknown tablet tool",
            TabletError::UnresolvedSurface => "surface of tablet tool has no window",
        }
    }
}

} // verus!
