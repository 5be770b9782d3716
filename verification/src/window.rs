//! Window creation decisions: which shell variant a new window uses, and
//! the placeholder pixel buffer a legacy-shell window needs at birth.

use vstd::prelude::*;

use crate::context::Shell;
use crate::dispatch::EventsLoop;

verus! {

/// What creating a window obliges the embedder to do, beyond building the
/// decorated surface itself.
#[derive(Clone, Copy, Debug, PartialEq, Eq, Structural)]
pub struct WindowPlan {
    /// Whether the extended shell variant is used.
    pub xdg: bool,
    /// Whether a placeholder buffer must be attached and committed right
    /// away: under the legacy shell the window must prove it exists before
    /// it can receive events, while under the extended shell drawing
    /// before the server's go-ahead is an error.
    pub needs_blank: bool,
}

impl EventsLoop {
    /// Decides how a new window is created under the negotiated shell.  A
    /// window can only be created once a shell is bound; construction
    /// guarantees that.
    pub fn create_window(&self) -> (plan: WindowPlan)
        requires
            self.ctxt.shell is Some,
        ensures
            plan.xdg == (self.ctxt.shell == Some(Shell::Xdg)),
            plan.needs_blank == (self.ctxt.shell == Some(Shell::Wl)),
    {
        match self.ctxt.shell {
            Some(Shell::Xdg) => WindowPlan { xdg: true, needs_blank: false },
            Some(Shell::Wl) => WindowPlan { xdg: false, needs_blank: true },
            None => unreached(),
        }
    }
}

/// The contents of the placeholder buffer: one white, fully opaque
/// four-byte pixel per cell of the given dimensions.  The size is bounded
/// by the pool size the protocol can carry (a signed 32-bit byte count).
pub fn blank_buffer(width: u32, height: u32) -> (buf: Vec<u8>)
    requires
        (width as int) * (height as int) * 4 <= i32::MAX as int,
    ensures
        buf@.len() == (width as int) * (height as int) * 4,
        forall|k: int| 0 <= k < buf@.len() ==> buf@[k] == 0xffu8,
{
    let total: usize = (width as usize) * (height as usize) * 4;
    let mut buf: Vec<u8> = Vec::new();
    let mut i: usize = 0;
    while i < total
        invariant
            i <= total,
            buf@.len() == i,
            forall|k: int| 0 <= k < i ==> buf@[k] == 0xffu8,
        decreases total - i,
    {
        buf.push(0xff);
        i += 1;
    }
    buf
}

} // verus!
