//! The top-level orchestrator: the event loop's own state, the cross-thread
//! wakeup handle, and the fixed set of post-dispatch triggers that runs
//! after every dispatch pass.
//!
//! The loop's outside work — flushing the connection, blocking until
//! messages arrive, resizing decorated surfaces — stays with the embedder;
//! every decision about what is emitted, and in which order, is taken here.

use vstd::prelude::*;

use crate::context::{first_global, Global, NoShellError, Shell, ShellAction, StateContext};
use crate::events::{ControlFlow, Event, WindowEvent, WindowId};
use crate::monitor::MonitorId;
use crate::sink::EventsLoopSink;

verus! {

/// The owning loop is gone: a wakeup request found no loop to wake.
#[derive(Clone, Copy, Debug, PartialEq, Eq, Structural)]
pub struct EventsLoopClosed;

/// One window's pending state changes, as collected from the window store
/// once per dispatch pass.
#[derive(Clone, Copy, Debug, PartialEq, Eq)]
pub struct WindowPending {
    pub wid: WindowId,
    /// A newly negotiated size, in unsigned pixel dimensions, if any.
    pub newsize: Option<(u32, u32)>,
    /// Whether the window asked to be redrawn.
    pub refresh: bool,
    /// Whether the window was closed.
    pub closed: bool,
    /// Whether a live decorated surface exists; a resize can only be
    /// carried out, and reported, when it does.
    pub has_surface: bool,
}

/// The events one pending record fires, in the fixed order: resize, then
/// refresh, then closed.
pub open spec fn pending_events(p: WindowPending) -> Seq<Event> {
    (match p.newsize {
        Some(s) => {
            if p.has_surface {
                seq![
                    Event::WindowEvent { window_id: p.wid, event: WindowEvent::Resized(s.0, s.1) },
                ]
            } else {
                Seq::<Event>::empty()
            }
        },
        None => Seq::<Event>::empty(),
    }) + (if p.refresh {
        seq![Event::WindowEvent { window_id: p.wid, event: WindowEvent::Refresh }]
    } else {
        Seq::<Event>::empty()
    }) + (if p.closed {
        seq![Event::WindowEvent { window_id: p.wid, event: WindowEvent::Closed }]
    } else {
        Seq::<Event>::empty()
    })
}

/// The events a whole pass over the pending records fires, window by
/// window, in store order.
pub open spec fn window_trigger_events(ps: Seq<WindowPending>) -> Seq<Event>
    decreases ps.len(),
{
    if ps.len() == 0 {
        Seq::<Event>::empty()
    } else {
        window_trigger_events(ps.drop_last()) + pending_events(ps.last())
    }
}

/// The synchronous surface resizes owed before the corresponding `Resized`
/// events are delivered: one per window with both a new size and a live
/// surface, in store order.
pub open spec fn resize_actions(ps: Seq<WindowPending>) -> Seq<(WindowId, u32, u32)>
    decreases ps.len(),
{
    if ps.len() == 0 {
        Seq::<(WindowId, u32, u32)>::empty()
    } else {
        let r = resize_actions(ps.drop_last());
        let p = ps.last();
        match p.newsize {
            Some(s) => {
                if p.has_surface {
                    r.push((p.wid, s.0, s.1))
                } else {
                    r
                }
            },
            None => r,
        }
    }
}

/// Everything one trigger pass appends to the sink: the wakeup
/// acknowledgement first, then the window events.
pub open spec fn trigger_events(wakeup: bool, ps: Seq<WindowPending>) -> Seq<Event> {
    (if wakeup {
        seq![Event::Awakened]
    } else {
        Seq::<Event>::empty()
    }) + window_trigger_events(ps)
}

/// The event loop's own state: the shared event sink, the protocol state
/// context, and the two flags other threads may raise — a pending wakeup
/// and a request to prune dead windows.
pub struct EventsLoop {
    pub sink: EventsLoopSink,
    pub ctxt: StateContext,
    pub pending_wakeup: bool,
    pub cleanup_needed: bool,
}

/// A handle that can be sent across threads to wake the loop.  It observes
/// the loop without keeping it alive: `loop_alive` stands for whether the
/// non-owning references it carries still resolved when the request was
/// made; a real handle re-evaluates that at every call.
#[derive(Clone, Copy, Debug, PartialEq, Eq, Structural)]
pub struct EventsLoopProxy {
    pub loop_alive: bool,
}

impl EventsLoopProxy {
    /// Requests a wakeup: on a live loop the pending-wakeup flag is raised
    /// — even if the flush that unblocks the dispatch thread then fails —
    /// and the request succeeds exactly when the flush does.  On a dead
    /// loop it fails with `EventsLoopClosed` and changes nothing.
    ///
    /// `flush_ok` is the outcome of forcing the synchronization request out
    /// to the server, the one piece of outside work a wakeup needs.
    pub fn wakeup(&self, flush_ok: bool, pending_wakeup: &mut bool) -> (r: Result<
        (),
        EventsLoopClosed,
    >)
        ensures
            !self.loop_alive ==> r == Err::<(), EventsLoopClosed>(EventsLoopClosed)
                && *final(pending_wakeup) == *old(pending_wakeup),
            self.loop_alive ==> *final(pending_wakeup) == true && r == (if flush_ok {
                Ok::<(), EventsLoopClosed>(())
            } else {
                Err::<(), EventsLoopClosed>(EventsLoopClosed)
            }),
    {
        if !self.loop_alive {
            return Err(EventsLoopClosed);
        }
        *pending_wakeup = true;
        if flush_ok {
            Ok(())
        } else {
            Err(EventsLoopClosed)
        }
    }
}

/// How `run_forever` folds one callback verdict into the batch's: `Break`
/// is sticky, but never truncates the batch being drained — the loop stops
/// only after the whole drain pass in which it was observed.
pub fn fold_control(acc: ControlFlow, verdict: ControlFlow) -> (r: ControlFlow)
    ensures
        r == ControlFlow::Break <==> (acc == ControlFlow::Break || verdict == ControlFlow::Break),
{
    match verdict {
        ControlFlow::Break => ControlFlow::Break,
        ControlFlow::Continue => acc,
    }
}

impl EventsLoop {
    /// Builds the loop core once the initial global-object advertisement
    /// burst is fully received (the embedder's two synchronous round-trips
    /// guarantee that): negotiates the shell exactly once — fatal if the
    /// server advertises neither variant — then binds the seat if one was
    /// advertised.  Returns, beside the loop, what the caller still owes
    /// the server: the shell bind, and the seat bind at
    /// [`crate::context::SEAT_BIND_VERSION`], if any.
    pub fn new(ctxt: StateContext, globals: &Vec<Global>) -> (r: Result<
        (EventsLoop, ShellAction, Option<u32>),
        NoShellError,
    >)
        requires
            ctxt.wf(),
        ensures
            r is Err <==> (ctxt.shell is None && first_global(globals@, "wl_shell"@) < 0),
            r matches Ok(t) ==> {
                let lp = t.0;
                let first_shell = first_global(globals@, "wl_shell"@);
                let first_seat = first_global(globals@, "wl_seat"@);
                &&& lp.sink@ == Seq::<Event>::empty()
                &&& lp.pending_wakeup == false
                &&& lp.cleanup_needed == false
                &&& lp.ctxt.wf()
                &&& lp.ctxt.monitors@ == ctxt.monitors@
                &&& (ctxt.shell is Some ==> lp.ctxt.shell == ctxt.shell && t.1
                    == ShellAction::AlreadyBound)
                &&& (ctxt.shell is None ==> lp.ctxt.shell == Some(Shell::Wl) && t.1
                    == (ShellAction::BindWlShell { name: globals@[first_shell].name }))
                &&& (ctxt.seat is Some ==> lp.ctxt.seat == ctxt.seat && t.2 is None)
                &&& (ctxt.seat is None && first_seat >= 0 ==> lp.ctxt.seat == Some(
                    globals@[first_seat].name,
                ) && t.2 == Some(globals@[first_seat].name))
                &&& (ctxt.seat is None && first_seat < 0 ==> lp.ctxt.seat is None && t.2 is None)
            },
    {
        let mut ctxt = ctxt;
        let shell_action = match ctxt.ensure_shell(globals) {
            Ok(a) => a,
            Err(e) => {
                return Err(e);
            },
        };
        let seat_action = ctxt.init_seat(globals);
        Ok(
            (
                EventsLoop { sink: EventsLoopSink::new(), ctxt, pending_wakeup: false, cleanup_needed: false },
                shell_action,
                seat_action,
            ),
        )
    }

    /// Binds the seat, if one is advertised and none is bound yet; safe to
    /// call again at any time — a bound seat is never rebound.  Returns the
    /// global name the caller must bind, at
    /// [`crate::context::SEAT_BIND_VERSION`], if a bind is owed.
    pub fn init_seat(&mut self, globals: &Vec<Global>) -> (r: Option<u32>)
        ensures
            final(self).sink@ == old(self).sink@,
            final(self).pending_wakeup == old(self).pending_wakeup,
            final(self).cleanup_needed == old(self).cleanup_needed,
            final(self).ctxt.shell == old(self).ctxt.shell,
            final(self).ctxt.monitors@ == old(self).ctxt.monitors@,
            old(self).ctxt.seat is Some ==> final(self).ctxt == old(self).ctxt && r is None,
            old(self).ctxt.seat is None ==> {
                let first = first_global(globals@, "wl_seat"@);
                if first >= 0 {
                    &&& final(self).ctxt.seat == Some(globals@[first].name)
                    &&& r == Some(globals@[first].name)
                } else {
                    &&& final(self).ctxt == old(self).ctxt
                    &&& r is None
                }
            },
    {
        self.ctxt.init_seat(globals)
    }

    /// A cross-thread wakeup handle; the loop is alive when it is created.
    pub fn create_proxy(&self) -> (p: EventsLoopProxy)
        ensures
            p.loop_alive == true,
    {
        EventsLoopProxy { loop_alive: true }
    }

    /// Raises the prune-dead-windows flag; any thread releasing a window
    /// handle does this.
    pub fn request_cleanup(&mut self)
        ensures
            *final(self) == (EventsLoop { cleanup_needed: true, ..*old(self) }),
    {
        self.cleanup_needed = true;
    }

    /// Takes the prune flag: tells the caller whether the window store must
    /// be pruned before this pass's pending records are collected, and
    /// clears the flag.
    pub fn take_cleanup(&mut self) -> (b: bool)
        ensures
            b == old(self).cleanup_needed,
            *final(self) == (EventsLoop { cleanup_needed: false, ..*old(self) }),
    {
        let b = self.cleanup_needed;
        self.cleanup_needed = false;
        b
    }

    /// The fixed post-dispatch triggers, run after every dispatch pass:
    /// a pending wakeup becomes exactly one `Awakened` event and the flag
    /// falls; then every window's pending changes fire in store order —
    /// resize (only with both a new size and a live surface), refresh,
    /// closed.  Returns the synchronous surface resizes the caller must
    /// perform before delivering the batch.
    pub fn post_dispatch_triggers(&mut self, windows: &Vec<WindowPending>) -> (resizes: Vec<
        (WindowId, u32, u32),
    >)
        ensures
            final(self).sink@ == old(self).sink@ + trigger_events(
                old(self).pending_wakeup,
                windows@,
            ),
            final(self).pending_wakeup == false,
            final(self).cleanup_needed == old(self).cleanup_needed,
            final(self).ctxt == old(self).ctxt,
            resizes@ == resize_actions(windows@),
    {
        let ghost base = self.sink@;
        let ghost wake = old(self).pending_wakeup;
        if self.pending_wakeup {
            self.sink.send_raw_event(Event::Awakened);
            self.pending_wakeup = false;
        }
        proof {
            assert(self.sink@ =~= base + (if wake {
                seq![Event::Awakened]
            } else {
                Seq::<Event>::empty()
            }));
        }
        let ghost mid = self.sink@;
        let mut resizes: Vec<(WindowId, u32, u32)> = Vec::new();
        let n = windows.len();
        let mut i: usize = 0;
        while i < n
            invariant
                i <= n,
                n == windows@.len(),
                self.pending_wakeup == false,
                self.cleanup_needed == old(self).cleanup_needed,
                self.ctxt == old(self).ctxt,
                self.sink@ == mid + window_trigger_events(windows@.take(i as int)),
                resizes@ == resize_actions(windows@.take(i as int)),
            decreases n - i,
        {
            proof {
                assert(windows@.take(i + 1 as int).drop_last() =~= windows@.take(i as int));
                assert(windows@.take(i + 1 as int).last() == windows@[i as int]);
            }
            let p = windows[i];
            if let Some((w, h)) = p.newsize {
                if p.has_surface {
                    resizes.push((p.wid, w, h));
                    self.sink.send_event(WindowEvent::Resized(w, h), p.wid);
                }
            }
            if p.refresh {
                self.sink.send_event(WindowEvent::Refresh, p.wid);
            }
            if p.closed {
                self.sink.send_event(WindowEvent::Closed, p.wid);
            }
            proof {
                assert(self.sink@ =~= mid + window_trigger_events(
                    windows@.take(i + 1 as int),
                ));
            }
            i += 1;
        }
        proof {
            assert(windows@.take(n as int) =~= windows@);
            assert(self.sink@ =~= base + trigger_events(wake, windows@));
        }
        resizes
    }

    /// Drains the sink: the events to hand to the caller's callback, in
    /// insertion order; the sink is empty afterwards.
    pub fn drain_events(&mut self) -> (drained: Vec<Event>)
        ensures
            drained@ == old(self).sink@,
            final(self).sink@ == Seq::<Event>::empty(),
            final(self).ctxt == old(self).ctxt,
            final(self).pending_wakeup == old(self).pending_wakeup,
            final(self).cleanup_needed == old(self).cleanup_needed,
    {
        self.sink.empty_with()
    }

    /// The first registered monitor.  Asking with an empty registry would
    /// break a startup invariant, so the registry must be non-empty.
    pub fn get_primary_monitor(&self) -> (m: MonitorId)
        requires
            self.ctxt.monitors@.len() > 0,
        ensures
            m.info == self.ctxt.monitors@[0],
    {
        MonitorId { info: self.ctxt.monitors[0].clone() }
    }

    /// Observer handles for all currently registered monitors, in registry
    /// order.
    pub fn get_available_monitors(&self) -> (v: Vec<MonitorId>)
        ensures
            v@.len() == self.ctxt.monitors@.len(),
            forall|i: int|
                0 <= i < v@.len() ==> (#[trigger] v@[i]).info == self.ctxt.monitors@[i],
    {
        let n = self.ctxt.monitors.len();
        let mut v: Vec<MonitorId> = Vec::new();
        let mut i: usize = 0;
        while i < n
            invariant
                i <= n,
                n == self.ctxt.monitors@.len(),
                v@.len() == i,
                forall|j: int| 0 <= j < i ==> (#[trigger] v@[j]).info == self.ctxt.monitors@[j],
            decreases n - i,
        {
            v.push(MonitorId { info: self.ctxt.monitors[i].clone() });
            i += 1;
        }
        v
    }
}

/// Window events never masquerade as the wakeup acknowledgement.
pub proof fn lemma_window_events_not_awakened(ps: Seq<WindowPending>)
    ensures
        forall|i: int|
            0 <= i < window_trigger_events(ps).len() ==> #[trigger] window_trigger_events(ps)[i]
                != Event::Awakened,
    decreases ps.len(),
{
    if ps.len() > 0 {
        lemma_window_events_not_awakened(ps.drop_last());
    }
}

/// Law: a trigger pass with the wakeup flag raised emits exactly one
/// `Awakened`, at the head of the pass's events, and a pass without the
/// flag emits none.  Together with the trigger contract (the flag falls in
/// the same pass) and the wakeup contract (a request on a live loop raises
/// the flag; one on a dead loop fails with the closed error and changes
/// nothing), one wakeup round-trip delivers exactly one `Awakened`.
pub proof fn lemma_wakeup_round_trip(ps: Seq<WindowPending>)
    ensures
        trigger_events(true, ps).len() > 0,
        trigger_events(true, ps)[0] == Event::Awakened,
        forall|i: int|
            1 <= i < trigger_events(true, ps).len() ==> #[trigger] trigger_events(true, ps)[i]
                != Event::Awakened,
        forall|i: int|
            0 <= i < trigger_events(false, ps).len() ==> #[trigger] trigger_events(false, ps)[i]
                != Event::Awakened,
{
    lemma_window_events_not_awakened(ps);
    let we = window_trigger_events(ps);
    assert forall|i: int| 1 <= i < trigger_events(true, ps).len() implies #[trigger] trigger_events(
        true,
        ps,
    )[i] != Event::Awakened by {
        assert(trigger_events(true, ps)[i] == we[i - 1]);
    }
    assert forall|i: int|
        0 <= i < trigger_events(false, ps).len() implies #[trigger] trigger_events(false, ps)[i]
        != Event::Awakened by {
        assert(trigger_events(false, ps)[i] == we[i]);
    }
}

/// Law: when a window has a pending new size (with a live surface) and a
/// pending refresh in the same pass, its events fire as `Resized` then
/// `Refresh`, never the reverse.
pub proof fn lemma_resize_before_refresh(p: WindowPending)
    requires
        p.newsize is Some,
        p.has_surface,
        p.refresh,
    ensures
        ({
            let s = p.newsize->0;
            &&& pending_events(p).len() >= 2
            &&& pending_events(p)[0] == Event::WindowEvent {
                window_id: p.wid,
                event: WindowEvent::Resized(s.0, s.1),
            }
            &&& pending_events(p)[1] == Event::WindowEvent {
                window_id: p.wid,
                event: WindowEvent::Refresh,
            }
        }),
{
}

} // verus!
