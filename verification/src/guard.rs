//! The guard of a temporary file.
use vstd::prelude::*;

verus! {

/// Remembers a temporary file that is to be removed unless the guard is disarmed.
///
/// Without it, each failed crash handling would leave its temporary file behind until the
/// disk is full.
#[derive(Debug)]
pub struct TempGuard {
    path: String,
    armed: bool,
}

/// A guard as its users see it: the file it watches, and whether it is armed.
pub struct GuardState {
    pub path: Seq<char>,
    pub armed: bool,
}

impl View for TempGuard {
    type V = GuardState;

    closed spec fn view(&self) -> GuardState {
        GuardState { path: self.path@, armed: self.armed }
    }
}

impl GuardState {
    /// The file that is to be removed, if any.
    pub open spec fn doomed(self) -> Option<Seq<char>> {
        if self.armed {
            Some(self.path)
        } else {
            None
        }
    }
}

impl TempGuard {
    /// An armed guard of the file `path`.
    pub fn new(path: String) -> (r: Self)
        ensures
            r@ == (GuardState { path: path@, armed: true }),
    {
        TempGuard { path, armed: true }
    }

    /// Keeps the file.
    pub fn disarm(&mut self)
        ensures
            final(self)@ == (GuardState { path: old(self)@.path, armed: false }),
    {
        self.armed = false;
    }

    /// The file that is to be removed when the guard goes, if any.
    pub fn doomed(&self) -> (r: Option<&str>)
        ensures
            match r {
                Some(p) => self@.doomed() == Some(p@),
                None => self@.doomed() is None,
            },
    {
        if self.armed {
            Some(self.path.as_str())
        } else {
            None
        }
    }
}

/// A guard dooms its own file for as long as it is armed, and no file after that.
pub proof fn law_guard(path: Seq<char>)
    ensures
        (GuardState { path, armed: true }).doomed() == Some(path),
        (GuardState { path, armed: false }).doomed() is None,
{
}

} // verus!
