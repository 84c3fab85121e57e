//! A cooperative, poll-based stop flag.

use std::sync::atomic::AtomicBool;
use std::sync::atomic::Ordering;
use std::sync::Arc;
use vstd::prelude::*;

verus! {

/// A handle on a boolean that threads share: a holder may raise it, every
/// holder may read it, and nothing lowers it again.
///
/// The flag lives in an atomic cell, so a read made on one thread while
/// another raises it is never torn. What other holders did is learnt only by
/// reading. A handle also remembers that it raised the flag itself, and of
/// that the contracts speak: a flag that a handle raised reads as raised
/// through that handle ever after.
pub struct CancelToken {
    state: Arc<AtomicBool>,
    raised: bool,
}

/// `Arc::clone`: another pointer to the same cell.
#[verifier::external_body]
fn share_cell(cell: &Arc<AtomicBool>) -> (other: Arc<AtomicBool>)
    ensures
        other == *cell,
{
    Arc::clone(cell)
}

impl Clone for CancelToken {
    /// Another handle on the same flag. It knows what this one knows.
    fn clone(&self) -> (other: Self)
        ensures
            other == *self,
    {
        CancelToken { state: share_cell(&self.state), raised: self.raised }
    }
}

impl CancelToken {
    /// Whether the flag was raised through this handle.
    pub closed spec fn raised_here(&self) -> bool {
        self.raised
    }

    /// A fresh flag, down, not shared with anyone yet.
    pub fn new() -> (token: Self)
        ensures
            !token.raised_here(),
    {
        CancelToken { state: Arc::new(AtomicBool::new(false)), raised: false }
    }

    /// Raises the flag for every holder. Never blocks. Raising a raised flag
    /// changes nothing.
    pub fn set(&mut self)
        ensures
            final(self).raised_here(),
    {
        self.state.store(true, Ordering::SeqCst);
        self.raised = true;
    }

    /// Whether the flag was raised through this handle. It may be raised
    /// all the same: another holder may have done it.
    pub fn is_set_here(&self) -> (raised: bool)
        ensures
            raised == self.raised_here(),
    {
        self.raised
    }

    /// What a read through this handle gives when the shared cell shows
    /// `seen`: raised where the cell shows it, and raised in any case once
    /// this handle raised the flag.
    pub fn reading(&self, seen: bool) -> (raised: bool)
        ensures
            raised == (seen || self.raised_here()),
    {
        seen || self.raised
    }

    /// Whether the flag is raised, as far as this thread can see. Never
    /// blocks. What the shared cell shows is other threads' doing as much as
    /// this one's; the read is `reading` of it.
    pub fn is_set(&self) -> (raised: bool)
        ensures
            self.raised_here() ==> raised,
    {
        let seen = self.state.load(Ordering::SeqCst);
        self.reading(seen)
    }
}

} // verus!
