//! Seat capability negotiation: creates and tears down the pointer and
//! keyboard sub-handlers as the seat's capability announcements toggle.
//!
//! The transitions are idempotent: a sub-handler exists if and only if the
//! most recent announcement carried its capability bit, and re-announcing an
//! already-present capability neither recreates nor resets the handler.

use vstd::prelude::*;

use crate::pointer::{initial_pointer, PointerIData};

verus! {

/// The capability bits of one announcement.  The touch bit is carried but
/// deliberately unhandled: it never creates a sub-handler, by design.
#[derive(Clone, Copy, Debug, PartialEq, Eq, Structural)]
pub struct SeatCapabilities {
    pub pointer: bool,
    pub keyboard: bool,
    pub touch: bool,
}

/// What the dispatcher must do against the server after an announcement:
/// request or release the seat's pointer and keyboard objects.
#[derive(Clone, Copy, Debug, PartialEq, Eq, Structural)]
pub struct CapabilityActions {
    pub create_pointer: bool,
    pub release_pointer: bool,
    pub create_keyboard: bool,
    pub release_keyboard: bool,
}

/// Per-seat handler state: the pointer translator, if the pointer
/// capability is present, and whether a keyboard sub-handler is registered.
/// (Keyboard translation itself lives outside this dispatcher; only its
/// presence is negotiated here.)
#[derive(Clone, Copy, Debug, PartialEq, Eq)]
pub struct SeatIData {
    pub pointer: Option<PointerIData>,
    pub keyboard: bool,
}

/// The transition one capabilities announcement makes: the new handler
/// state, and the create/release requests owed to the server.
pub open spec fn capabilities_step(s: SeatIData, caps: SeatCapabilities) -> (SeatIData,
    CapabilityActions) {
    let pointer = if caps.pointer {
        if s.pointer is Some {
            s.pointer
        } else {
            Some(initial_pointer())
        }
    } else {
        None
    };
    (
        (SeatIData { pointer, keyboard: caps.keyboard }),
        (CapabilityActions {
            create_pointer: caps.pointer && s.pointer is None,
            release_pointer: !caps.pointer && s.pointer is Some,
            create_keyboard: caps.keyboard && !s.keyboard,
            release_keyboard: !caps.keyboard && s.keyboard,
        }),
    )
}

impl SeatIData {
    /// A seat with no sub-handlers yet.
    pub fn new() -> (s: SeatIData)
        ensures
            s == (SeatIData { pointer: None, keyboard: false }),
    {
        SeatIData { pointer: None, keyboard: false }
    }

    /// Applies one capabilities announcement, per [`capabilities_step`]:
    /// a pointer translator is created only when the pointer bit appears,
    /// kept as it is (accumulated scroll state included) while the bit
    /// stays, and dropped when the bit goes; likewise for the keyboard.
    pub fn capabilities(&mut self, caps: SeatCapabilities) -> (actions: CapabilityActions)
        ensures
            (*final(self), actions) == capabilities_step(*old(self), caps),
    {
        let mut actions = CapabilityActions {
            create_pointer: false,
            release_pointer: false,
            create_keyboard: false,
            release_keyboard: false,
        };
        if caps.pointer {
            if self.pointer.is_none() {
                self.pointer = Some(PointerIData::new());
                actions.create_pointer = true;
            }
        } else {
            if self.pointer.is_some() {
                self.pointer = None;
                actions.release_pointer = true;
            }
        }
        if caps.keyboard {
            if !self.keyboard {
                self.keyboard = true;
                actions.create_keyboard = true;
            }
        } else {
            if self.keyboard {
                self.keyboard = false;
                actions.release_keyboard = true;
            }
        }
        actions
    }
}

/// Law: capability announcements are idempotent.  Announcing the same
/// capability set twice in a row creates the sub-handlers at most once: the
/// second announcement changes nothing and requests nothing of the server.
pub proof fn lemma_capabilities_idempotent(s: SeatIData, caps: SeatCapabilities)
    ensures
        ({
            let (s1, _) = capabilities_step(s, caps);
            let (s2, a2) = capabilities_step(s1, caps);
            &&& s2 == s1
            &&& a2 == (CapabilityActions {
                create_pointer: false,
                release_pointer: false,
                create_keyboard: false,
                release_keyboard: false,
            })
        }),
{
}

} // verus!
