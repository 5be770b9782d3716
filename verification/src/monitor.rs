//! Monitor records: what the dispatcher knows of one advertised display
//! output, and the observer handle the application holds on it.

use vstd::prelude::*;

verus! {

/// One advertised display output.  Created with defaults when the output is
/// announced, then mutated incrementally as geometry, mode and scale
/// callbacks arrive, in no guaranteed order.
#[derive(Debug)]
pub struct OutputInfo {
    /// The server-assigned numeric id; removal messages match on it.
    pub id: u32,
    /// The integral scale factor the protocol advertises (1 until told
    /// otherwise).
    pub scale: i32,
    /// Pixel size of the current mode, `(width, height)`.
    pub pix_size: (u32, u32),
    /// Pixel position in the global compositor space, `(x, y)`.
    pub pix_pos: (i32, i32),
    /// Human-readable name, `"<make> - <model>"` once geometry arrived.
    pub name: String,
}

impl Clone for OutputInfo {
    /// An exact copy, name included.
    fn clone(&self) -> (r: Self)
        ensures
            r == *self,
    {
        OutputInfo {
            id: self.id,
            scale: self.scale,
            pix_size: self.pix_size,
            pix_pos: self.pix_pos,
            name: self.name.clone(),
        }
    }
}

impl OutputInfo {
    /// A just-announced output: default size and position, scale 1, empty
    /// name.
    pub fn new(id: u32) -> (o: OutputInfo)
        ensures
            o.id == id,
            o.scale == 1,
            o.pix_size == (0u32, 0u32),
            o.pix_pos == (0i32, 0i32),
            o.name@ == Seq::<char>::empty(),
    {
        OutputInfo { id, scale: 1, pix_size: (0, 0), pix_pos: (0, 0), name: String::new() }
    }
}

/// An observer handle on one monitor: a snapshot of the output's properties
/// at the moment the handle was obtained.  It stays readable after the
/// output is removed from the registry — removal never invalidates an
/// outstanding handle — but it does not track later property updates.
#[derive(Debug)]
pub struct MonitorId {
    pub info: OutputInfo,
}

impl Clone for MonitorId {
    /// An exact copy of the snapshot.
    fn clone(&self) -> (r: Self)
        ensures
            r == *self,
    {
        MonitorId { info: self.info.clone() }
    }
}

impl MonitorId {
    /// The human-readable name, as last known.
    pub fn get_name(&self) -> (r: Option<String>)
        ensures
            r matches Some(n) && n@ == self.info.name@,
    {
        Some(self.info.name.clone())
    }

    /// The server-assigned numeric id.
    pub fn get_native_identifier(&self) -> (r: u32)
        ensures
            r == self.info.id,
    {
        self.info.id
    }

    /// Pixel dimensions, as last known.
    pub fn get_dimensions(&self) -> (r: (u32, u32))
        ensures
            r == self.info.pix_size,
    {
        self.info.pix_size
    }

    /// Pixel position, as last known.
    pub fn get_position(&self) -> (r: (i32, i32))
        ensures
            r == self.info.pix_pos,
    {
        self.info.pix_pos
    }

    /// The integral scale factor, as last known.  The protocol advertises
    /// whole-number scales; scaling to fractional units is the embedder's
    /// affair.
    pub fn get_hidpi_factor(&self) -> (r: i32)
        ensures
            r == self.info.scale,
    {
        self.info.scale
    }
}

} // verus!
