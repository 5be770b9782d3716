//! Per-pointer-device state machine: turns raw enter/leave/motion/button/axis
//! protocol callbacks into application events, accumulating scroll deltas
//! across frame boundaries.
//!
//! The whole behaviour is pinned by the spec-level transition function
//! [`pointer_step`]: every executable callback handler ensures that the state
//! it leaves behind and the events it appends to the sink are exactly those
//! of the transition.  Laws about whole callback sequences are proved over
//! [`pointer_run`], the fold of `pointer_step`.

use vstd::prelude::*;

use crate::events::{
    ElementState, Event, MouseButton, MouseScrollDelta, ScrollAxis, TouchPhase, WindowEvent,
    WindowId,
};
use crate::sink::EventsLoopSink;

verus! {

/// The lowest pointer-protocol version with frame (batching) semantics.
/// Below it, every axis callback emits a wheel event immediately.
pub const AXIS_FRAME_VERSION: u32 = 5;

/// Mutable state of one pointer device.
#[derive(Clone, Copy, Debug, PartialEq, Eq)]
pub struct PointerIData {
    /// The window currently holding pointer focus, if any.
    pub mouse_focus: Option<WindowId>,
    /// Accumulated continuous scroll deltas (fixed-point pixel units),
    /// `(horizontal, vertical)`, pending until the next frame boundary.
    pub axis_buffer: Option<(i64, i64)>,
    /// Accumulated discrete (line-based) scroll deltas, pending until the
    /// next frame boundary.
    pub axis_discrete_buffer: Option<(i64, i64)>,
    /// Where the current scroll gesture stands; tagged onto the wheel event
    /// a frame boundary emits.
    pub axis_state: TouchPhase,
}

/// One raw protocol callback, as the dispatcher hands it to the state
/// machine: protocol object references are already resolved to plain values
/// (a surface to the window id it maps to, the pointer object to its
/// protocol version).
#[derive(Clone, Copy, Debug, PartialEq, Eq, Structural)]
pub enum PointerCallback {
    Enter { wid: Option<WindowId>, x: i64, y: i64 },
    Leave { wid: Option<WindowId> },
    Motion { x: i64, y: i64 },
    Button { code: u32, state: ElementState },
    Axis { axis: ScrollAxis, value: i32, version: u32 },
    Frame,
    AxisStop,
    AxisDiscrete { axis: ScrollAxis, value: i32 },
}

/// The button codes the dispatcher understands; any other code is dropped
/// silently, a deliberate compatibility choice.
pub open spec fn button_of_code(code: u32) -> Option<MouseButton> {
    if code == 0x110 {
        Some(MouseButton::Left)
    } else if code == 0x111 {
        Some(MouseButton::Right)
    } else if code == 0x112 {
        Some(MouseButton::Middle)
    } else {
        None
    }
}

/// How one axis delta moves the `(horizontal, vertical)` accumulators.  The
/// protocol's sign convention for the vertical axis is the inverse of the
/// emitted events', so a vertical delta is negated.
pub open spec fn axis_delta(axis: ScrollAxis, value: int) -> (int, int) {
    match axis {
        ScrollAxis::VerticalScroll => (0, -value),
        ScrollAxis::HorizontalScroll => (value, 0),
    }
}

/// An accumulation buffer read as a mathematical pair; an untouched buffer
/// counts as zero.
pub open spec fn buf_pair(b: Option<(i64, i64)>) -> (int, int) {
    match b {
        Some(p) => (p.0 as int, p.1 as int),
        None => (0, 0),
    }
}

/// How an axis delta rolls the scroll phase: a delta during `Started` or
/// `Moved` keeps the gesture moving; one after `Ended` or `Cancelled`
/// restarts it.
pub open spec fn roll_phase(p: TouchPhase) -> TouchPhase {
    match p {
        TouchPhase::Started => TouchPhase::Moved,
        TouchPhase::Moved => TouchPhase::Moved,
        TouchPhase::Ended => TouchPhase::Started,
        TouchPhase::Cancelled => TouchPhase::Started,
    }
}

/// A wheel event for window `wid`.
pub open spec fn wheel_event(wid: WindowId, delta: MouseScrollDelta, phase: TouchPhase) -> Event {
    Event::WindowEvent { window_id: wid, event: (WindowEvent::MouseWheel { delta, phase }) }
}

/// A motion event for window `wid`.
pub open spec fn moved_event(wid: WindowId, x: i64, y: i64) -> Event {
    Event::WindowEvent { window_id: wid, event: (WindowEvent::MouseMoved { x, y }) }
}

/// The events a frame boundary flushes: nothing without focus; otherwise one
/// wheel event, the discrete buffer taking priority over the continuous one,
/// tagged with the current phase; nothing when both buffers are untouched.
pub open spec fn frame_events(p: PointerIData) -> Seq<Event> {
    match p.mouse_focus {
        None => Seq::<Event>::empty(),
        Some(wid) => match p.axis_discrete_buffer {
            Some(d) => seq![wheel_event(wid, MouseScrollDelta::LineDelta(d.0, d.1), p.axis_state)],
            None => match p.axis_buffer {
                Some(c) => seq![
                    wheel_event(wid, MouseScrollDelta::PixelDelta(c.0, c.1), p.axis_state),
                ],
                None => Seq::<Event>::empty(),
            },
        },
    }
}

/// Whether applying `c` to `p` keeps both accumulators within `i64`.  Only
/// the two accumulating callbacks can run against this machine limit.
pub open spec fn step_fits(p: PointerIData, c: PointerCallback) -> bool {
    match c {
        PointerCallback::Axis { axis, value, version } => {
            version >= AXIS_FRAME_VERSION ==> {
                let (x, y) = buf_pair(p.axis_buffer);
                let (dx, dy) = axis_delta(axis, value as int);
                i64::MIN <= x + dx <= i64::MAX && i64::MIN <= y + dy <= i64::MAX
            }
        },
        PointerCallback::AxisDiscrete { axis, value } => {
            let (x, y) = buf_pair(p.axis_discrete_buffer);
            let (dx, dy) = axis_delta(axis, value as int);
            i64::MIN <= x + dx <= i64::MAX && i64::MIN <= y + dy <= i64::MAX
        },
        _ => true,
    }
}

/// The transition function: the state after one callback, and the events the
/// callback emits, in order.
pub open spec fn pointer_step(p: PointerIData, c: PointerCallback) -> (PointerIData, Seq<
    Event,
>) {
    match c {
        PointerCallback::Enter { wid, x, y } => match wid {
            Some(w) => (
                (PointerIData { mouse_focus: Some(w), ..p }),
                seq![
                    Event::WindowEvent { window_id: w, event: WindowEvent::MouseEntered },
                    moved_event(w, x, y),
                ],
            ),
            None => (p, Seq::<Event>::empty()),
        },
        PointerCallback::Leave { wid } => (
            (PointerIData { mouse_focus: None, ..p }),
            match wid {
                Some(w) => seq![
                    Event::WindowEvent { window_id: w, event: WindowEvent::MouseLeft },
                ],
                None => Seq::<Event>::empty(),
            },
        ),
        PointerCallback::Motion { x, y } => (
            p,
            match p.mouse_focus {
                Some(w) => seq![moved_event(w, x, y)],
                None => Seq::<Event>::empty(),
            },
        ),
        PointerCallback::Button { code, state } => (
            p,
            match (p.mouse_focus, button_of_code(code)) {
                (Some(w), Some(b)) => seq![
                    Event::WindowEvent {
                        window_id: w,
                        event: (WindowEvent::MouseInput { state, button: b }),
                    },
                ],
                _ => Seq::<Event>::empty(),
            },
        ),
        PointerCallback::Axis { axis, value, version } => {
            if version < AXIS_FRAME_VERSION {
                // Pre-batching: emit immediately, and only while focused.
                match p.mouse_focus {
                    Some(w) => {
                        let (dx, dy) = axis_delta(axis, value as int);
                        (
                            p,
                            seq![
                                wheel_event(
                                    w,
                                    MouseScrollDelta::PixelDelta(dx as i64, dy as i64),
                                    TouchPhase::Moved,
                                ),
                            ],
                        )
                    },
                    None => (p, Seq::<Event>::empty()),
                }
            } else {
                // Batching: accumulate and roll the phase unconditionally;
                // only emission, at the frame boundary, is focus-gated.
                let (x, y) = buf_pair(p.axis_buffer);
                let (dx, dy) = axis_delta(axis, value as int);
                (
                    (PointerIData {
                        axis_buffer: Some((((x + dx) as i64), ((y + dy) as i64))),
                        axis_state: roll_phase(p.axis_state),
                        ..p
                    }),
                    Seq::<Event>::empty(),
                )
            }
        },
        PointerCallback::Frame => (
            (PointerIData { axis_buffer: None, axis_discrete_buffer: None, ..p }),
            frame_events(p),
        ),
        PointerCallback::AxisStop => (
            (PointerIData { axis_state: TouchPhase::Ended, ..p }),
            Seq::<Event>::empty(),
        ),
        PointerCallback::AxisDiscrete { axis, value } => {
            let (x, y) = buf_pair(p.axis_discrete_buffer);
            let (dx, dy) = axis_delta(axis, value as int);
            (
                (PointerIData {
                    axis_discrete_buffer: Some((((x + dx) as i64), ((y + dy) as i64))),
                    axis_state: roll_phase(p.axis_state),
                    ..p
                }),
                Seq::<Event>::empty(),
            )
        },
    }
}

/// The fold of [`pointer_step`] over a callback sequence: final state and
/// all emitted events, concatenated in callback order.
pub open spec fn pointer_run(p: PointerIData, cs: Seq<PointerCallback>) -> (PointerIData, Seq<
    Event,
>)
    decreases cs.len(),
{
    if cs.len() == 0 {
        (p, Seq::<Event>::empty())
    } else {
        let (q, es) = pointer_run(p, cs.drop_last());
        let (r, e2) = pointer_step(q, cs.last());
        (r, es + e2)
    }
}

/// Whether every step of the run keeps the accumulators within `i64`.
pub open spec fn run_fits(p: PointerIData, cs: Seq<PointerCallback>) -> bool
    decreases cs.len(),
{
    if cs.len() == 0 {
        true
    } else {
        run_fits(p, cs.drop_last()) && step_fits(pointer_run(p, cs.drop_last()).0, cs.last())
    }
}

/// The state of a freshly created pointer translator: no focus, both
/// accumulators untouched, gesture cancelled.
pub open spec fn initial_pointer() -> PointerIData {
    PointerIData {
        mouse_focus: None,
        axis_buffer: None,
        axis_discrete_buffer: None,
        axis_state: TouchPhase::Cancelled,
    }
}

impl PointerIData {
    /// A fresh pointer: no focus, both accumulators untouched, gesture
    /// cancelled.
    pub fn new() -> (p: PointerIData)
        ensures
            p == initial_pointer(),
    {
        PointerIData {
            mouse_focus: None,
            axis_buffer: None,
            axis_discrete_buffer: None,
            axis_state: TouchPhase::Cancelled,
        }
    }

    /// The pointer entered a surface; `wid` is the window that surface
    /// resolves to, if any.  On a resolvable window: take focus, emit
    /// `MouseEntered` then `MouseMoved` at the entry position, in that order.
    pub fn enter(&mut self, sink: &mut EventsLoopSink, wid: Option<WindowId>, x: i64, y: i64)
        ensures
            ({
                let (q, es) = pointer_step(*old(self), (PointerCallback::Enter { wid, x, y }));
                *final(self) == q && final(sink)@ == old(sink)@ + es
            }),
    {
        if let Some(w) = wid {
            self.mouse_focus = Some(w);
            sink.send_event(WindowEvent::MouseEntered, w);
            sink.send_event(WindowEvent::MouseMoved { x, y }, w);
        }
    }

    /// The pointer left a surface: focus is cleared, and `MouseLeft` is
    /// emitted if the surface still resolves to a window.
    pub fn leave(&mut self, sink: &mut EventsLoopSink, wid: Option<WindowId>)
        ensures
            ({
                let (q, es) = pointer_step(*old(self), (PointerCallback::Leave { wid }));
                *final(self) == q && final(sink)@ == old(sink)@ + es
            }),
    {
        self.mouse_focus = None;
        if let Some(w) = wid {
            sink.send_event(WindowEvent::MouseLeft, w);
        }
    }

    /// The pointer moved; emits `MouseMoved` only while a window is focused.
    pub fn motion(&mut self, sink: &mut EventsLoopSink, x: i64, y: i64)
        ensures
            ({
                let (q, es) = pointer_step(*old(self), (PointerCallback::Motion { x, y }));
                *final(self) == q && final(sink)@ == old(sink)@ + es
            }),
    {
        if let Some(w) = self.mouse_focus {
            sink.send_event(WindowEvent::MouseMoved { x, y }, w);
        }
    }

    /// A button changed state; emits `MouseInput` only while focused and
    /// only for the known button codes, dropping others silently.
    pub fn button(&mut self, sink: &mut EventsLoopSink, code: u32, state: ElementState)
        ensures
            ({
                let (q, es) = pointer_step(*old(self), (PointerCallback::Button { code, state }));
                *final(self) == q && final(sink)@ == old(sink)@ + es
            }),
    {
        if let Some(w) = self.mouse_focus {
            let button = if code == 0x110 {
                Some(MouseButton::Left)
            } else if code == 0x111 {
                Some(MouseButton::Right)
            } else if code == 0x112 {
                Some(MouseButton::Middle)
            } else {
                None
            };
            if let Some(button) = button {
                sink.send_event(WindowEvent::MouseInput { state, button }, w);
            }
        }
    }

    /// A continuous axis delta, in fixed-point units.  Below the
    /// frame-capable protocol version it emits a wheel event immediately,
    /// and only while focused.  From that version on it accumulates into
    /// the continuous buffer and rolls the phase whether or not a window
    /// is focused — only the emission at the frame boundary needs focus.
    pub fn axis(&mut self, sink: &mut EventsLoopSink, axis: ScrollAxis, value: i32, version: u32)
        requires
            step_fits(*old(self), (PointerCallback::Axis { axis, value, version })),
        ensures
            ({
                let (q, es) = pointer_step(
                    *old(self),
                    (PointerCallback::Axis { axis, value, version }),
                );
                *final(self) == q && final(sink)@ == old(sink)@ + es
            }),
    {
        if version < AXIS_FRAME_VERSION {
            if let Some(w) = self.mouse_focus {
                let (x, y): (i64, i64) = match axis {
                    ScrollAxis::VerticalScroll => (0, -(value as i64)),
                    ScrollAxis::HorizontalScroll => (value as i64, 0),
                };
                sink.send_event(
                    WindowEvent::MouseWheel {
                        delta: MouseScrollDelta::PixelDelta(x, y),
                        phase: TouchPhase::Moved,
                    },
                    w,
                );
            }
        } else {
            let (x, y) = match self.axis_buffer {
                Some(b) => b,
                None => (0, 0),
            };
            let next = match axis {
                ScrollAxis::VerticalScroll => (x, y - value as i64),
                ScrollAxis::HorizontalScroll => (x + value as i64, y),
            };
            self.axis_buffer = Some(next);
            self.axis_state = match self.axis_state {
                TouchPhase::Started | TouchPhase::Moved => TouchPhase::Moved,
                _ => TouchPhase::Started,
            };
        }
    }

    /// A frame boundary: flush the accumulated deltas as a single wheel
    /// event (discrete buffer first), then clear both buffers regardless of
    /// whether anything was emitted.
    pub fn frame(&mut self, sink: &mut EventsLoopSink)
        ensures
            ({
                let (q, es) = pointer_step(*old(self), PointerCallback::Frame);
                *final(self) == q && final(sink)@ == old(sink)@ + es
            }),
    {
        let axis_buffer = self.axis_buffer.take();
        let axis_discrete_buffer = self.axis_discrete_buffer.take();
        if let Some(w) = self.mouse_focus {
            if let Some((x, y)) = axis_discrete_buffer {
                sink.send_event(
                    WindowEvent::MouseWheel {
                        delta: MouseScrollDelta::LineDelta(x, y),
                        phase: self.axis_state,
                    },
                    w,
                );
            } else if let Some((x, y)) = axis_buffer {
                sink.send_event(
                    WindowEvent::MouseWheel {
                        delta: MouseScrollDelta::PixelDelta(x, y),
                        phase: self.axis_state,
                    },
                    w,
                );
            }
        }
    }

    /// An axis-stop callback: the gesture is over; the next frame's event
    /// carries phase `Ended`.
    pub fn axis_stop(&mut self)
        ensures
            ({
                let (q, es) = pointer_step(*old(self), PointerCallback::AxisStop);
                *final(self) == q && es == Seq::<Event>::empty()
            }),
    {
        self.axis_state = TouchPhase::Ended;
    }

    /// A discrete axis delta, in whole lines: accumulates into the discrete
    /// buffer and rolls the phase; emits nothing by itself.
    pub fn axis_discrete(&mut self, axis: ScrollAxis, value: i32)
        requires
            step_fits(*old(self), (PointerCallback::AxisDiscrete { axis, value })),
        ensures
            ({
                let (q, es) = pointer_step(
                    *old(self),
                    (PointerCallback::AxisDiscrete { axis, value }),
                );
                *final(self) == q && es == Seq::<Event>::empty()
            }),
    {
        let (x, y) = match self.axis_discrete_buffer {
            Some(b) => b,
            None => (0, 0),
        };
        let next = match axis {
            ScrollAxis::VerticalScroll => (x, y - value as i64),
            ScrollAxis::HorizontalScroll => (x + value as i64, y),
        };
        self.axis_discrete_buffer = Some(next);
        self.axis_state = match self.axis_state {
            TouchPhase::Started | TouchPhase::Moved => TouchPhase::Moved,
            _ => TouchPhase::Started,
        };
    }
}

/// Whether `c` is a continuous axis delta under frame (batching) semantics.
pub open spec fn is_continuous_axis(c: PointerCallback) -> bool {
    c matches PointerCallback::Axis { version, .. } && version >= AXIS_FRAME_VERSION
}

/// Whether `c` is a discrete axis delta.
pub open spec fn is_discrete_axis(c: PointerCallback) -> bool {
    c matches PointerCallback::AxisDiscrete { .. }
}

/// Whether every callback of `cs` is an axis delta under batching semantics.
pub open spec fn all_batched_axis(cs: Seq<PointerCallback>) -> bool {
    forall|i: int|
        0 <= i < cs.len() ==> is_continuous_axis(#[trigger] cs[i]) || is_discrete_axis(cs[i])
}

/// Whether any callback of `cs` is a continuous axis delta.
pub open spec fn any_continuous(cs: Seq<PointerCallback>) -> bool {
    exists|i: int| 0 <= i < cs.len() && is_continuous_axis(#[trigger] cs[i])
}

/// Whether any callback of `cs` is a discrete axis delta.
pub open spec fn any_discrete(cs: Seq<PointerCallback>) -> bool {
    exists|i: int| 0 <= i < cs.len() && is_discrete_axis(#[trigger] cs[i])
}

/// The signed, axis-inverted sum of the continuous deltas of `cs`.
pub open spec fn cont_sum(cs: Seq<PointerCallback>) -> (int, int)
    decreases cs.len(),
{
    if cs.len() == 0 {
        (0, 0)
    } else {
        let s = cont_sum(cs.drop_last());
        match cs.last() {
            PointerCallback::Axis { axis, value, version } => {
                if version >= AXIS_FRAME_VERSION {
                    let d = axis_delta(axis, value as int);
                    (s.0 + d.0, s.1 + d.1)
                } else {
                    s
                }
            },
            _ => s,
        }
    }
}

/// The signed, axis-inverted sum of the discrete deltas of `cs`.
pub open spec fn disc_sum(cs: Seq<PointerCallback>) -> (int, int)
    decreases cs.len(),
{
    if cs.len() == 0 {
        (0, 0)
    } else {
        let s = disc_sum(cs.drop_last());
        match cs.last() {
            PointerCallback::AxisDiscrete { axis, value } => {
                let d = axis_delta(axis, value as int);
                (s.0 + d.0, s.1 + d.1)
            },
            _ => s,
        }
    }
}

/// A run of batched axis callbacks emits nothing, keeps the focus, and
/// leaves exactly the running sums in the two accumulators: the continuous
/// buffer holds the continuous sum (touched if and only if a continuous
/// delta occurred), and likewise the discrete buffer — focused or not.
pub proof fn lemma_axis_accumulation(p: PointerIData, cs: Seq<PointerCallback>)
    requires
        p.axis_buffer is None,
        p.axis_discrete_buffer is None,
        all_batched_axis(cs),
        run_fits(p, cs),
    ensures
        ({
            let (q, es) = pointer_run(p, cs);
            &&& es == Seq::<Event>::empty()
            &&& q.mouse_focus == p.mouse_focus
            &&& buf_pair(q.axis_buffer) == cont_sum(cs)
            &&& (q.axis_buffer is Some <==> any_continuous(cs))
            &&& buf_pair(q.axis_discrete_buffer) == disc_sum(cs)
            &&& (q.axis_discrete_buffer is Some <==> any_discrete(cs))
        }),
    decreases cs.len(),
{
    if cs.len() > 0 {
        let head = cs.drop_last();
        assert forall|i: int| 0 <= i < head.len() implies is_continuous_axis(#[trigger] head[i])
            || is_discrete_axis(head[i]) by {
            assert(head[i] == cs[i]);
        }
        lemma_axis_accumulation(p, head);
        let (q, es) = pointer_run(p, head);
        let (r, e2) = pointer_step(q, cs.last());
        assert(is_continuous_axis(cs.last()) || is_discrete_axis(cs.last()));
        assert(e2 == Seq::<Event>::empty());
        assert(es + e2 =~= Seq::<Event>::empty());
        // The last callback extends exactly one of the two sums, and the
        // other keeps both its value and its touched-or-not status.
        if is_continuous_axis(cs.last()) {
            assert(any_continuous(cs)) by {
                assert(is_continuous_axis(cs[cs.len() - 1]));
            }
            assert(any_discrete(cs) <==> any_discrete(head)) by {
                if any_discrete(cs) {
                    let i = choose|i: int| 0 <= i < cs.len() && is_discrete_axis(#[trigger] cs[i]);
                    assert(i < head.len() && head[i] == cs[i]);
                }
                if any_discrete(head) {
                    let i = choose|i: int|
                        0 <= i < head.len() && is_discrete_axis(#[trigger] head[i]);
                    assert(cs[i] == head[i]);
                }
            }
        } else {
            assert(any_discrete(cs)) by {
                assert(is_discrete_axis(cs[cs.len() - 1]));
            }
            assert(any_continuous(cs) <==> any_continuous(head)) by {
                if any_continuous(cs) {
                    let i = choose|i: int|
                        0 <= i < cs.len() && is_continuous_axis(#[trigger] cs[i]);
                    assert(i < head.len() && head[i] == cs[i]);
                }
                if any_continuous(head) {
                    let i = choose|i: int|
                        0 <= i < head.len() && is_continuous_axis(#[trigger] head[i]);
                    assert(cs[i] == head[i]);
                }
            }
        }
    }
}

/// Law: for any sequence of axis callbacks followed by one frame callback,
/// the emitted wheel event's delta equals the signed, axis-inverted sum of
/// the continuous deltas — or of the discrete deltas, which take priority if
/// any discrete callback occurred — and both buffers are empty immediately
/// after the frame, whether or not anything was emitted.
pub proof fn lemma_frame_flushes_axis_sums(
    p: PointerIData,
    cs: Seq<PointerCallback>,
    wid: WindowId,
)
    requires
        p.mouse_focus == Some(wid),
        p.axis_buffer is None,
        p.axis_discrete_buffer is None,
        all_batched_axis(cs),
        run_fits(p, cs),
    ensures
        ({
            let (q, es) = pointer_run(p, cs.push(PointerCallback::Frame));
            let phase = pointer_run(p, cs).0.axis_state;
            &&& q.axis_buffer is None
            &&& q.axis_discrete_buffer is None
            &&& (any_discrete(cs) ==> es == seq![
                wheel_event(
                    wid,
                    MouseScrollDelta::LineDelta(disc_sum(cs).0 as i64, disc_sum(cs).1 as i64),
                    phase,
                ),
            ])
            &&& (!any_discrete(cs) && any_continuous(cs) ==> es == seq![
                wheel_event(
                    wid,
                    MouseScrollDelta::PixelDelta(cont_sum(cs).0 as i64, cont_sum(cs).1 as i64),
                    phase,
                ),
            ])
            &&& (!any_discrete(cs) && !any_continuous(cs) ==> es == Seq::<Event>::empty())
        }),
{
    lemma_axis_accumulation(p, cs);
    let full = cs.push(PointerCallback::Frame);
    assert(full.drop_last() =~= cs);
    let (q1, es1) = pointer_run(p, cs);
    let (q, e2) = pointer_step(q1, PointerCallback::Frame);
    assert(pointer_run(p, full).1 =~= es1 + e2);
    assert(es1 + e2 =~= e2);
}

/// Law: discrete deltas take priority over continuous deltas when both are
/// pending at a frame boundary — only the discrete-derived event is emitted.
pub proof fn lemma_discrete_priority(p: PointerIData, wid: WindowId)
    requires
        p.mouse_focus == Some(wid),
        p.axis_discrete_buffer is Some,
    ensures
        ({
            let (q, es) = pointer_step(p, PointerCallback::Frame);
            let d = p.axis_discrete_buffer->0;
            &&& es == seq![
                wheel_event(wid, MouseScrollDelta::LineDelta(d.0, d.1), p.axis_state),
            ]
            &&& q.axis_buffer is None
            &&& q.axis_discrete_buffer is None
        }),
{
}

/// Law: an axis-stop callback forces the phase to `Ended`, so the next frame
/// without an intervening axis delta emits with phase `Ended`; and any
/// batched axis delta arriving after the stop — focused or not — restarts
/// the phase at `Started`.
pub proof fn lemma_axis_stop_sequencing(p: PointerIData, c: PointerCallback)
    requires
        is_continuous_axis(c) || is_discrete_axis(c),
        step_fits((PointerIData { axis_state: TouchPhase::Ended, ..p }), c),
    ensures
        pointer_step(p, PointerCallback::AxisStop).0 == (PointerIData {
            axis_state: TouchPhase::Ended,
            ..p
        }),
        ({
            let stopped = pointer_step(p, PointerCallback::AxisStop).0;
            let es = pointer_step(stopped, PointerCallback::Frame).1;
            forall|i: int|
                0 <= i < es.len() ==> #[trigger] es[i]->WindowEvent_event->MouseWheel_phase
                    == TouchPhase::Ended
        }),
        ({
            let stopped = pointer_step(p, PointerCallback::AxisStop).0;
            pointer_step(stopped, c).0.axis_state == TouchPhase::Started
        }),
{
}

/// The motion callbacks visiting the positions `ps`, in order.
pub open spec fn motion_calls(ps: Seq<(i64, i64)>) -> Seq<PointerCallback> {
    ps.map(|i: int, q: (i64, i64)| (PointerCallback::Motion { x: q.0, y: q.1 }))
}

/// The motion events for window `wid` at the positions `ps`, in order.
pub open spec fn motion_events(wid: WindowId, ps: Seq<(i64, i64)>) -> Seq<Event> {
    ps.map(|i: int, q: (i64, i64)| moved_event(wid, q.0, q.1))
}

/// While `wid` is focused, a run of motion callbacks changes no state and
/// emits exactly one `MouseMoved` per position, in order.
pub proof fn lemma_motion_run(p: PointerIData, wid: WindowId, ps: Seq<(i64, i64)>)
    requires
        p.mouse_focus == Some(wid),
    ensures
        pointer_run(p, motion_calls(ps)).0 == p,
        pointer_run(p, motion_calls(ps)).1 == motion_events(wid, ps),
    decreases ps.len(),
{
    let cs = motion_calls(ps);
    if ps.len() == 0 {
        assert(pointer_run(p, cs).1 =~= motion_events(wid, ps));
    } else {
        lemma_motion_run(p, wid, ps.drop_last());
        assert(cs.drop_last() =~= motion_calls(ps.drop_last()));
        assert(pointer_run(p, cs).1 =~= motion_events(wid, ps)) by {
            assert(pointer_run(p, cs.drop_last()).1 == motion_events(wid, ps.drop_last()));
        }
    }
}

/// Law: enter, then any number of motions, then leave on the same window
/// emits, in order, `MouseEntered`, `MouseMoved` at the entry position, one
/// `MouseMoved` per motion, and `MouseLeft` — and leaves the pointer without
/// focus.
pub proof fn lemma_enter_motion_leave(
    p: PointerIData,
    wid: WindowId,
    ex: i64,
    ey: i64,
    ps: Seq<(i64, i64)>,
)
    ensures
        ({
            let cs = seq![(PointerCallback::Enter { wid: Some(wid), x: ex, y: ey })] + motion_calls(
                ps,
            ) + seq![(PointerCallback::Leave { wid: Some(wid) })];
            let (q, es) = pointer_run(p, cs);
            &&& es == seq![
                Event::WindowEvent { window_id: wid, event: WindowEvent::MouseEntered },
                moved_event(wid, ex, ey),
            ] + motion_events(wid, ps) + seq![
                Event::WindowEvent { window_id: wid, event: WindowEvent::MouseLeft },
            ]
            &&& q.mouse_focus is None
        }),
{
    let enter = (PointerCallback::Enter { wid: Some(wid), x: ex, y: ey });
    let leave = (PointerCallback::Leave { wid: Some(wid) });
    let ms = motion_calls(ps);
    let one = seq![enter];
    let lone = seq![leave];
    let cs = one + ms + lone;
    let entered = pointer_step(p, enter).0;
    assert(entered.mouse_focus == Some(wid));

    // Run the singleton [enter].
    assert(one.drop_last() =~= Seq::<PointerCallback>::empty());
    assert(pointer_run(p, one.drop_last()) == (p, Seq::<Event>::empty()));
    assert(one.last() == enter);
    assert(pointer_run(p, one).0 == entered);
    assert(pointer_run(p, one).1 =~= pointer_step(p, enter).1);

    // Extend by the motions.
    lemma_run_append(p, one, ms);
    lemma_motion_run(entered, wid, ps);
    let prefix = one + ms;
    assert(pointer_run(p, prefix).0 == entered);

    // Extend by the final [leave].
    lemma_run_append(p, prefix, lone);
    assert(lone.drop_last() =~= Seq::<PointerCallback>::empty());
    assert(pointer_run(entered, lone.drop_last()) == (entered, Seq::<Event>::empty()));
    assert(lone.last() == leave);
    assert(cs =~= prefix + lone);
    let (q, es) = pointer_run(p, cs);
    assert(es =~= seq![
        Event::WindowEvent { window_id: wid, event: WindowEvent::MouseEntered },
        moved_event(wid, ex, ey),
    ] + motion_events(wid, ps) + seq![
        Event::WindowEvent { window_id: wid, event: WindowEvent::MouseLeft },
    ]);
}

/// Splitting a run: running `cs1 + cs2` is running `cs1`, then `cs2` from
/// the state `cs1` reached, with the emitted events concatenated.
pub proof fn lemma_run_append(p: PointerIData, cs1: Seq<PointerCallback>, cs2: Seq<
    PointerCallback,
>)
    ensures
        pointer_run(p, cs1 + cs2).0 == pointer_run(pointer_run(p, cs1).0, cs2).0,
        pointer_run(p, cs1 + cs2).1 == pointer_run(p, cs1).1 + pointer_run(
            pointer_run(p, cs1).0,
            cs2,
        ).1,
    decreases cs2.len(),
{
    if cs2.len() == 0 {
        assert(cs1 + cs2 =~= cs1);
        assert(pointer_run(p, cs1).1 + pointer_run(pointer_run(p, cs1).0, cs2).1 =~= pointer_run(
            p,
            cs1,
        ).1);
    } else {
        lemma_run_append(p, cs1, cs2.drop_last());
        assert((cs1 + cs2).drop_last() =~= cs1 + cs2.drop_last());
        assert((cs1 + cs2).last() == cs2.last());
        assert(pointer_run(p, cs1 + cs2).1 =~= pointer_run(p, cs1).1 + pointer_run(
            pointer_run(p, cs1).0,
            cs2,
        ).1);
    }
}

/// Law: without focus, every callback except enter and leave emits nothing
/// and leaves the pointer unfocused — motion, button and axis callbacks
/// after a leave are silent until the next enter.
pub proof fn lemma_unfocused_emits_nothing(p: PointerIData, c: PointerCallback)
    requires
        p.mouse_focus is None,
        !(c matches PointerCallback::Enter { .. }),
        !(c matches PointerCallback::Leave { .. }),
        step_fits(p, c),
    ensures
        pointer_step(p, c).1 == Seq::<Event>::empty(),
        pointer_step(p, c).0.mouse_focus is None,
{
}

} // verus!
