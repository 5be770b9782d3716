//! Per-loop protocol state: the advertised globals the dispatcher cares
//! about, the negotiated shell, the bound seat, and the monitor registry.

use vstd::prelude::*;

use crate::monitor::{MonitorId, OutputInfo};

verus! {

/// One global object advertised by the server: its numeric name, its
/// interface, and the highest interface version the server offers.
#[derive(Debug)]
pub struct Global {
    pub name: u32,
    pub interface: String,
    pub version: u32,
}

/// Which window-management protocol variant was negotiated: the extended
/// one, preferred, or the legacy one, the mandatory fallback.
#[derive(Clone, Copy, Debug, PartialEq, Eq, Structural)]
pub enum Shell {
    Xdg,
    Wl,
}

/// The server advertised neither shell variant: a protocol-compliance
/// violation, fatal at startup.
#[derive(Clone, Copy, Debug, PartialEq, Eq, Structural)]
pub struct NoShellError;

/// What a new-global announcement obliges the dispatcher to do against the
/// server.
#[derive(Clone, Copy, Debug, PartialEq, Eq, Structural)]
pub enum GlobalAction {
    /// Bind the output at the given version and register its property
    /// callbacks.
    BindOutput { version: u32 },
    /// Bind the extended shell and register its ping handler.
    BindXdgShell,
    /// Nothing to do for this dispatcher.
    Ignore,
}

/// The outcome of shell negotiation, when it succeeds.
#[derive(Clone, Copy, Debug, PartialEq, Eq, Structural)]
pub enum ShellAction {
    /// A shell was already bound; negotiation is idempotent.
    AlreadyBound,
    /// The legacy shell must be bound, under this global name.
    BindWlShell { name: u32 },
}

/// The highest output interface version this dispatcher binds.
pub const MAX_OUTPUT_BIND_VERSION: u32 = 3;

/// The seat interface version this dispatcher binds.
pub const SEAT_BIND_VERSION: u32 = 5;

/// Whether `g` advertises a display output.
pub open spec fn is_output_global(g: Global) -> bool {
    g.interface@ == "wl_output"@
}

/// Whether `g` advertises the extended shell.
pub open spec fn is_xdg_shell_global(g: Global) -> bool {
    g.interface@ == "zxdg_shell_v6"@
}

/// Whether `g` advertises the legacy shell.
pub open spec fn is_wl_shell_global(g: Global) -> bool {
    g.interface@ == "wl_shell"@
}

/// Whether `g` advertises a seat.
pub open spec fn is_seat_global(g: Global) -> bool {
    g.interface@ == "wl_seat"@
}

/// The index of the first global with the given interface, or -1.
pub open spec fn first_global(gs: Seq<Global>, interface: Seq<char>) -> int
    decreases gs.len(),
{
    if gs.len() == 0 {
        -1
    } else if gs[0].interface@ == interface {
        0
    } else {
        let r = first_global(gs.drop_first(), interface);
        if r == -1 {
            -1
        } else {
            r + 1
        }
    }
}

/// A scan that saw no match up to `i` and a match at `i` has found the
/// first one.
pub proof fn lemma_first_global_found(gs: Seq<Global>, interface: Seq<char>, i: int)
    requires
        0 <= i < gs.len(),
        forall|j: int| 0 <= j < i ==> (#[trigger] gs[j]).interface@ != interface,
        gs[i].interface@ == interface,
    ensures
        first_global(gs, interface) == i,
    decreases i,
{
    if i > 0 {
        let tail = gs.drop_first();
        assert forall|j: int| 0 <= j < i - 1 implies (#[trigger] tail[j]).interface@
            != interface by {
            assert(tail[j] == gs[j + 1]);
        }
        assert(tail[i - 1] == gs[i]);
        lemma_first_global_found(tail, interface, i - 1);
    }
}

/// A scan that saw no match at all proves there is none.
pub proof fn lemma_first_global_none(gs: Seq<Global>, interface: Seq<char>)
    requires
        forall|j: int| 0 <= j < gs.len() ==> (#[trigger] gs[j]).interface@ != interface,
    ensures
        first_global(gs, interface) == -1,
    decreases gs.len(),
{
    if gs.len() > 0 {
        let tail = gs.drop_first();
        assert forall|j: int| 0 <= j < tail.len() implies (#[trigger] tail[j]).interface@
            != interface by {
            assert(tail[j] == gs[j + 1]);
        }
        lemma_first_global_none(tail, interface);
    }
}

/// Whether some registered output carries the id.
pub open spec fn has_output(ms: Seq<OutputInfo>, id: u32) -> bool {
    exists|i: int| 0 <= i < ms.len() && (#[trigger] ms[i]).id == id
}

/// Output ids are registry keys: no two entries share one.
pub open spec fn output_ids_unique(ms: Seq<OutputInfo>) -> bool {
    forall|i: int, j: int|
        0 <= i < j < ms.len() ==> (#[trigger] ms[i]).id != (#[trigger] ms[j]).id
}

/// The registry without the entries carrying `id`, order kept.
pub open spec fn without_output(ms: Seq<OutputInfo>, id: u32) -> Seq<OutputInfo>
    decreases ms.len(),
{
    if ms.len() == 0 {
        Seq::<OutputInfo>::empty()
    } else {
        let r = without_output(ms.drop_last(), id);
        if ms.last().id == id {
            r
        } else {
            r.push(ms.last())
        }
    }
}

/// Law: a removal for id X leaves no entry with native identifier X in the
/// registry; every surviving id was there before, and the keys stay unique.
/// An observer handle obtained earlier is an independent snapshot, so it
/// keeps reporting its last-known values.
pub proof fn lemma_removed_monitor_gone(ms: Seq<OutputInfo>, id: u32)
    ensures
        forall|j: int|
            0 <= j < without_output(ms, id).len() ==> (#[trigger] without_output(ms, id)[j]).id
                != id,
        forall|x: u32| has_output(without_output(ms, id), x) ==> has_output(ms, x),
        output_ids_unique(ms) ==> output_ids_unique(without_output(ms, id)),
    decreases ms.len(),
{
    if ms.len() > 0 {
        let head = ms.drop_last();
        lemma_removed_monitor_gone(head, id);
        let r = without_output(head, id);
        assert forall|x: u32| has_output(r, x) implies has_output(ms, x) by {
            let i = choose|i: int| 0 <= i < r.len() && (#[trigger] r[i]).id == x;
            assert(has_output(head, x));
            let k = choose|k: int| 0 <= k < head.len() && (#[trigger] head[k]).id == x;
            assert(ms[k] == head[k]);
        }
        if ms.last().id != id && output_ids_unique(ms) {
            assert(output_ids_unique(head)) by {
                assert forall|i: int, j: int| 0 <= i < j < head.len() implies (
                #[trigger] head[i]).id != (#[trigger] head[j]).id by {
                    assert(head[i] == ms[i] && head[j] == ms[j]);
                }
            }
            let out = r.push(ms.last());
            assert forall|i: int, j: int| 0 <= i < j < out.len() implies (#[trigger] out[i]).id
                != (#[trigger] out[j]).id by {
                if j == out.len() - 1 {
                    // The pushed entry's id cannot already stand in `r`:
                    // every id in `r` stands in `head`, and `ms`'s keys are
                    // unique.
                    if out[i].id == ms.last().id {
                        assert(out[i] == r[i]);
                        assert(has_output(r, ms.last().id));
                        assert(has_output(head, ms.last().id));
                        let k = choose|k: int|
                            0 <= k < head.len() && (#[trigger] head[k]).id == ms.last().id;
                        assert(head[k] == ms[k]);
                        assert(ms[k].id == ms[ms.len() - 1].id);
                    }
                }
            }
        }
    }
}

/// Per-loop protocol state: the bound seat (by global name), the negotiated
/// shell, and the monitor registry, keyed by server-assigned id.
///
/// Invariants: the shell and the seat, once bound, are never rebound, and
/// the registry's ids stay unique.
#[derive(Debug)]
pub struct StateContext {
    pub seat: Option<u32>,
    pub shell: Option<Shell>,
    pub monitors: Vec<OutputInfo>,
}

impl StateContext {
    /// Registry keys are unique.
    pub open spec fn wf(&self) -> bool {
        output_ids_unique(self.monitors@)
    }

    /// A fresh context: nothing bound, no monitors.
    pub fn new() -> (c: StateContext)
        ensures
            c.seat is None,
            c.shell is None,
            c.monitors@ == Seq::<OutputInfo>::empty(),
            c.wf(),
    {
        StateContext { seat: None, shell: None, monitors: Vec::new() }
    }

    /// Routes one new-global announcement.  A new output is registered with
    /// default properties and must be bound (at the advertised version,
    /// capped); the extended shell is bound opportunistically, only while no
    /// shell is bound yet; everything else is ignored here.
    pub fn new_global(&mut self, global: &Global) -> (action: GlobalAction)
        requires
            old(self).wf(),
            is_output_global(*global) ==> !has_output(old(self).monitors@, global.name),
        ensures
            final(self).wf(),
            final(self).seat == old(self).seat,
            ({
                let o = *old(self);
                let n = *final(self);
                if is_output_global(*global) {
                    &&& n.monitors@.len() == o.monitors@.len() + 1
                    &&& n.monitors@.drop_last() == o.monitors@
                    &&& n.monitors@.last().id == global.name
                    &&& n.monitors@.last().scale == 1
                    &&& n.monitors@.last().pix_size == (0u32, 0u32)
                    &&& n.monitors@.last().pix_pos == (0i32, 0i32)
                    &&& n.monitors@.last().name@ == Seq::<char>::empty()
                    &&& n.shell == o.shell
                    &&& action == (GlobalAction::BindOutput {
                        version: (if global.version < MAX_OUTPUT_BIND_VERSION {
                            global.version
                        } else {
                            MAX_OUTPUT_BIND_VERSION
                        }),
                    })
                } else if is_xdg_shell_global(*global) && o.shell is None {
                    &&& n.monitors@ == o.monitors@
                    &&& n.shell == Some(Shell::Xdg)
                    &&& action == GlobalAction::BindXdgShell
                } else {
                    &&& n.monitors@ == o.monitors@
                    &&& n.shell == o.shell
                    &&& action == GlobalAction::Ignore
                }
            }),
    {
        let output_interface: String = "wl_output".to_owned();
        let xdg_interface: String = "zxdg_shell_v6".to_owned();
        if global.interface == output_interface {
            let version = if global.version < MAX_OUTPUT_BIND_VERSION {
                global.version
            } else {
                MAX_OUTPUT_BIND_VERSION
            };
            self.monitors.push(OutputInfo::new(global.name));
            proof {
                let ms = self.monitors@;
                assert(ms.drop_last() =~= old(self).monitors@);
                assert forall|i: int, j: int| 0 <= i < j < ms.len() implies (#[trigger] ms[i]).id
                    != (#[trigger] ms[j]).id by {
                    if j == ms.len() - 1 {
                        assert(has_output(old(self).monitors@, ms[i].id) ==> ms[i].id
                            != global.name);
                    }
                }
            }
            GlobalAction::BindOutput { version }
        } else if global.interface == xdg_interface && self.shell.is_none() {
            self.shell = Some(Shell::Xdg);
            GlobalAction::BindXdgShell
        } else {
            GlobalAction::Ignore
        }
    }

    /// Routes one global-removal message: if the id was a monitor, the
    /// entry leaves the registry; matching is by id, never by object
    /// identity, since the object may already be unusable at removal time.
    pub fn del_global(&mut self, id: u32)
        requires
            old(self).wf(),
        ensures
            final(self).wf(),
            final(self).seat == old(self).seat,
            final(self).shell == old(self).shell,
            final(self).monitors@ == without_output(old(self).monitors@, id),
            !has_output(final(self).monitors@, id),
    {
        let ghost orig = self.monitors@;
        let n = self.monitors.len();
        let mut kept: Vec<OutputInfo> = Vec::new();
        let mut i: usize = 0;
        while i < n
            invariant
                i <= n,
                n == self.monitors@.len(),
                self.monitors@ == orig,
                kept@ == without_output(orig.take(i as int), id),
            decreases n - i,
        {
            proof {
                assert(orig.take(i + 1 as int).drop_last() =~= orig.take(i as int));
                assert(orig.take(i + 1 as int).last() == orig[i as int]);
            }
            let m = &self.monitors[i];
            if m.id != id {
                kept.push(m.clone());
            }
            i += 1;
        }
        proof {
            assert(orig.take(n as int) =~= orig);
        }
        self.monitors = kept;
        proof {
            lemma_removed_monitor_gone(orig, id);
            if has_output(self.monitors@, id) {
                let k = choose|k: int|
                    0 <= k < self.monitors@.len() && (#[trigger] self.monitors@[k]).id == id;
                assert(self.monitors@[k].id != id);
            }
        }
    }

    /// A geometry callback for the output with the given id: position and
    /// human-readable name (`"<make> - <model>"`) are updated in place;
    /// an id no callback target carries is a silent no-op.
    pub fn update_geometry(&mut self, id: u32, x: i32, y: i32, make: &str, model: &str)
        requires
            old(self).wf(),
        ensures
            final(self).wf(),
            final(self).seat == old(self).seat,
            final(self).shell == old(self).shell,
            final(self).monitors@.len() == old(self).monitors@.len(),
            forall|j: int|
                0 <= j < old(self).monitors@.len() && (#[trigger] old(self).monitors@[j]).id != id
                    ==> final(self).monitors@[j] == old(self).monitors@[j],
            forall|j: int|
                0 <= j < old(self).monitors@.len() && (#[trigger] old(self).monitors@[j]).id == id
                    ==> {
                    let o = old(self).monitors@[j];
                    let m = final(self).monitors@[j];
                    &&& m.id == o.id
                    &&& m.scale == o.scale
                    &&& m.pix_size == o.pix_size
                    &&& m.pix_pos == (x, y)
                    &&& m.name@ == make@ + " - "@ + model@
                },
    {
        let n = self.monitors.len();
        let mut i: usize = 0;
        while i < n
            invariant
                i <= n,
                n == self.monitors@.len(),
                self.monitors@ == old(self).monitors@,
                self.seat == old(self).seat,
                self.shell == old(self).shell,
                output_ids_unique(old(self).monitors@),
                forall|j: int| 0 <= j < i ==> (#[trigger] self.monitors@[j]).id != id,
            decreases n - i,
        {
            if self.monitors[i].id == id {
                let mut name: String = make.to_owned();
                name.append(" - ");
                name.append(model);
                let updated = OutputInfo {
                    id: self.monitors[i].id,
                    scale: self.monitors[i].scale,
                    pix_size: self.monitors[i].pix_size,
                    pix_pos: (x, y),
                    name,
                };
                self.monitors.set(i, updated);
                proof {
                    assert forall|a: int, b: int|
                        0 <= a < b < self.monitors@.len() implies (#[trigger] self.monitors@[a]).id
                        != (#[trigger] self.monitors@[b]).id by {
                        assert(old(self).monitors@[a].id != old(self).monitors@[b].id);
                    }
                }
                return ;
            }
            i += 1;
        }
    }

    /// A mode callback: the pixel size is taken only from the mode flagged
    /// current, converted to unsigned dimensions as the wire carries them.
    pub fn update_mode(&mut self, id: u32, w: i32, h: i32, current: bool)
        requires
            old(self).wf(),
        ensures
            final(self).wf(),
            final(self).seat == old(self).seat,
            final(self).shell == old(self).shell,
            final(self).monitors@.len() == old(self).monitors@.len(),
            !current ==> final(self).monitors@ == old(self).monitors@,
            forall|j: int|
                0 <= j < old(self).monitors@.len() && (#[trigger] old(self).monitors@[j]).id != id
                    ==> final(self).monitors@[j] == old(self).monitors@[j],
            current ==> forall|j: int|
                0 <= j < old(self).monitors@.len() && (#[trigger] old(self).monitors@[j]).id == id
                    ==> {
                    let o = old(self).monitors@[j];
                    let m = final(self).monitors@[j];
                    &&& m.id == o.id
                    &&& m.scale == o.scale
                    &&& m.pix_size == (w as u32, h as u32)
                    &&& m.pix_pos == o.pix_pos
                    &&& m.name == o.name
                },
    {
        if !current {
            return ;
        }
        let n = self.monitors.len();
        let mut i: usize = 0;
        while i < n
            invariant
                current,
                i <= n,
                n == self.monitors@.len(),
                self.monitors@ == old(self).monitors@,
                self.seat == old(self).seat,
                self.shell == old(self).shell,
                output_ids_unique(old(self).monitors@),
                forall|j: int| 0 <= j < i ==> (#[trigger] self.monitors@[j]).id != id,
            decreases n - i,
        {
            if self.monitors[i].id == id {
                let updated = OutputInfo {
                    id: self.monitors[i].id,
                    scale: self.monitors[i].scale,
                    pix_size: (w as u32, h as u32),
                    pix_pos: self.monitors[i].pix_pos,
                    name: self.monitors[i].name.clone(),
                };
                self.monitors.set(i, updated);
                proof {
                    assert forall|a: int, b: int|
                        0 <= a < b < self.monitors@.len() implies (#[trigger] self.monitors@[a]).id
                        != (#[trigger] self.monitors@[b]).id by {
                        assert(old(self).monitors@[a].id != old(self).monitors@[b].id);
                    }
                }
                return ;
            }
            i += 1;
        }
    }

    /// A scale callback: the integral scale factor is updated in place.
    pub fn update_scale(&mut self, id: u32, scale: i32)
        requires
            old(self).wf(),
        ensures
            final(self).wf(),
            final(self).seat == old(self).seat,
            final(self).shell == old(self).shell,
            final(self).monitors@.len() == old(self).monitors@.len(),
            forall|j: int|
                0 <= j < old(self).monitors@.len() && (#[trigger] old(self).monitors@[j]).id != id
                    ==> final(self).monitors@[j] == old(self).monitors@[j],
            forall|j: int|
                0 <= j < old(self).monitors@.len() && (#[trigger] old(self).monitors@[j]).id == id
                    ==> {
                    let o = old(self).monitors@[j];
                    let m = final(self).monitors@[j];
                    &&& m.id == o.id
                    &&& m.scale == scale
                    &&& m.pix_size == o.pix_size
                    &&& m.pix_pos == o.pix_pos
                    &&& m.name == o.name
                },
    {
        let n = self.monitors.len();
        let mut i: usize = 0;
        while i < n
            invariant
                i <= n,
                n == self.monitors@.len(),
                self.monitors@ == old(self).monitors@,
                self.seat == old(self).seat,
                self.shell == old(self).shell,
                output_ids_unique(old(self).monitors@),
                forall|j: int| 0 <= j < i ==> (#[trigger] self.monitors@[j]).id != id,
            decreases n - i,
        {
            if self.monitors[i].id == id {
                let updated = OutputInfo {
                    id: self.monitors[i].id,
                    scale,
                    pix_size: self.monitors[i].pix_size,
                    pix_pos: self.monitors[i].pix_pos,
                    name: self.monitors[i].name.clone(),
                };
                self.monitors.set(i, updated);
                proof {
                    assert forall|a: int, b: int|
                        0 <= a < b < self.monitors@.len() implies (#[trigger] self.monitors@[a]).id
                        != (#[trigger] self.monitors@[b]).id by {
                        assert(old(self).monitors@[a].id != old(self).monitors@[b].id);
                    }
                }
                return ;
            }
            i += 1;
        }
    }

    /// An observer handle for the output with the given id, which must be
    /// registered: receiving an event for an output the registry never saw
    /// would violate the protocol.
    pub fn monitor_id_for(&self, id: u32) -> (r: MonitorId)
        requires
            self.wf(),
            has_output(self.monitors@, id),
        ensures
            r.info.id == id,
            forall|j: int|
                0 <= j < self.monitors@.len() && (#[trigger] self.monitors@[j]).id == id
                    ==> r.info == self.monitors@[j],
    {
        let n = self.monitors.len();
        let mut i: usize = 0;
        while i < n
            invariant
                i <= n,
                n == self.monitors@.len(),
                self.wf(),
                has_output(self.monitors@, id),
                forall|j: int| 0 <= j < i ==> (#[trigger] self.monitors@[j]).id != id,
            decreases n - i,
        {
            if self.monitors[i].id == id {
                return MonitorId { info: self.monitors[i].clone() };
            }
            i += 1;
        }
        proof {
            let k = choose|k: int|
                0 <= k < self.monitors@.len() && (#[trigger] self.monitors@[k]).id == id;
            assert(self.monitors@[k].id != id);
        }
        unreached()
    }

    /// Shell negotiation: if a shell is already bound (the extended one was
    /// taken opportunistically during enumeration, or negotiation already
    /// ran) nothing happens; otherwise the first advertised legacy shell is
    /// bound as the fallback; with neither variant advertised the server is
    /// non-compliant and the error is fatal.
    pub fn ensure_shell(&mut self, globals: &Vec<Global>) -> (r: Result<
        ShellAction,
        NoShellError,
    >)
        ensures
            final(self).seat == old(self).seat,
            final(self).monitors@ == old(self).monitors@,
            old(self).shell is Some ==> *final(self) == *old(self) && r == Ok::<
                ShellAction,
                NoShellError,
            >(ShellAction::AlreadyBound),
            old(self).shell is None ==> {
                let first = first_global(globals@, "wl_shell"@);
                if first >= 0 {
                    &&& final(self).shell == Some(Shell::Wl)
                    &&& r == Ok::<ShellAction, NoShellError>(
                        (ShellAction::BindWlShell { name: globals@[first].name }),
                    )
                } else {
                    &&& *final(self) == *old(self)
                    &&& r == Err::<ShellAction, NoShellError>(NoShellError)
                }
            },
    {
        if self.shell.is_some() {
            return Ok(ShellAction::AlreadyBound);
        }
        let wl_shell_interface: String = "wl_shell".to_owned();
        let n = globals.len();
        let mut i: usize = 0;
        while i < n
            invariant
                i <= n,
                n == globals@.len(),
                *self == *old(self),
                old(self).shell is None,
                wl_shell_interface@ == "wl_shell"@,
                forall|j: int| 0 <= j < i ==> (#[trigger] globals@[j]).interface@ != "wl_shell"@,
            decreases n - i,
        {
            if globals[i].interface == wl_shell_interface {
                proof {
                    lemma_first_global_found(globals@, "wl_shell"@, i as int);
                }
                self.shell = Some(Shell::Wl);
                return Ok(ShellAction::BindWlShell { name: globals[i].name });
            }
            i += 1;
        }
        proof {
            lemma_first_global_none(globals@, "wl_shell"@);
        }
        Err(NoShellError)
    }

    /// Seat initialization: idempotent — once a seat is bound it is never
    /// rebound; otherwise the first advertised seat is bound (its global
    /// name is returned for the caller to bind at [`SEAT_BIND_VERSION`]),
    /// and with none advertised nothing changes.
    pub fn init_seat(&mut self, globals: &Vec<Global>) -> (r: Option<u32>)
        ensures
            final(self).shell == old(self).shell,
            final(self).monitors@ == old(self).monitors@,
            old(self).seat is Some ==> *final(self) == *old(self) && r is None,
            old(self).seat is None ==> {
                let first = first_global(globals@, "wl_seat"@);
                if first >= 0 {
                    &&& final(self).seat == Some(globals@[first].name)
                    &&& r == Some(globals@[first].name)
                } else {
                    &&& *final(self) == *old(self)
                    &&& r is None
                }
            },
    {
        if self.seat.is_some() {
            return None;
        }
        let seat_interface: String = "wl_seat".to_owned();
        let n = globals.len();
        let mut i: usize = 0;
        while i < n
            invariant
                i <= n,
                n == globals@.len(),
                *self == *old(self),
                old(self).seat is None,
                seat_interface@ == "wl_seat"@,
                forall|j: int| 0 <= j < i ==> (#[trigger] globals@[j]).interface@ != "wl_seat"@,
            decreases n - i,
        {
            if globals[i].interface == seat_interface {
                proof {
                    lemma_first_global_found(globals@, "wl_seat"@, i as int);
                }
                self.seat = Some(globals[i].name);
                return Some(globals[i].name);
            }
            i += 1;
        }
        proof {
            lemma_first_global_none(globals@, "wl_seat"@);
        }
        None
    }
}

} // verus!
