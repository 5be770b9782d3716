use wayland_event_loop::events::{
    ElementState, Event, MouseButton, MouseScrollDelta, ScrollAxis, TouchPhase, WindowEvent,
    WindowId,
};
use wayland_event_loop::pointer::PointerIData;
use wayland_event_loop::sink::EventsLoopSink;

fn window_event(wid: u64, event: WindowEvent) -> Event {
    Event::WindowEvent { window_id: WindowId(wid), event }
}

#[test]
fn scroll_accumulation_flushes_inverted_sums() {
    let mut sink = EventsLoopSink::new();
    let mut p = PointerIData::new();
    p.enter(&mut sink, Some(WindowId(1)), 0, 0);
    sink.empty_with();

    // Continuous deltas only: vertical sign is inverted, horizontal kept.
    p.axis(&mut sink, ScrollAxis::VerticalScroll, 3, 5);
    p.axis(&mut sink, ScrollAxis::VerticalScroll, 4, 5);
    p.axis(&mut sink, ScrollAxis::HorizontalScroll, 2, 5);
    assert!(sink.empty_with().is_empty());
    p.frame(&mut sink);
    let drained = sink.empty_with();
    assert_eq!(
        drained,
        vec![window_event(
            1,
            WindowEvent::MouseWheel {
                delta: MouseScrollDelta::PixelDelta(2, -7),
                phase: TouchPhase::Moved,
            }
        )]
    );
    assert_eq!(p.axis_buffer, None);
    assert_eq!(p.axis_discrete_buffer, None);
}

#[test]
fn discrete_deltas_take_priority_over_continuous() {
    let mut sink = EventsLoopSink::new();
    let mut p = PointerIData::new();
    p.enter(&mut sink, Some(WindowId(2)), 0, 0);
    sink.empty_with();

    p.axis(&mut sink, ScrollAxis::VerticalScroll, 30, 5);
    p.axis_discrete(ScrollAxis::VerticalScroll, 2);
    p.frame(&mut sink);
    let drained = sink.empty_with();
    // Only the discrete-derived event is emitted, and both buffers cleared.
    assert_eq!(
        drained,
        vec![window_event(
            2,
            WindowEvent::MouseWheel {
                delta: MouseScrollDelta::LineDelta(0, -2),
                phase: TouchPhase::Moved,
            }
        )]
    );
    assert_eq!(p.axis_buffer, None);
    assert_eq!(p.axis_discrete_buffer, None);
}

#[test]
fn discrete_deltas_accumulate_across_callbacks() {
    let mut sink = EventsLoopSink::new();
    let mut p = PointerIData::new();
    p.enter(&mut sink, Some(WindowId(8)), 0, 0);
    sink.empty_with();

    p.axis_discrete(ScrollAxis::VerticalScroll, 1);
    p.axis_discrete(ScrollAxis::VerticalScroll, 2);
    p.axis_discrete(ScrollAxis::HorizontalScroll, -4);
    p.frame(&mut sink);
    let drained = sink.empty_with();
    assert_eq!(
        drained,
        vec![window_event(
            8,
            WindowEvent::MouseWheel {
                delta: MouseScrollDelta::LineDelta(-4, -3),
                phase: TouchPhase::Moved,
            }
        )]
    );
}

#[test]
fn axis_stop_forces_phase_ended_then_restart() {
    let mut sink = EventsLoopSink::new();
    let mut p = PointerIData::new();
    p.enter(&mut sink, Some(WindowId(3)), 0, 0);
    sink.empty_with();

    // A gesture, then an explicit stop: the next frame carries Ended.
    p.axis(&mut sink, ScrollAxis::VerticalScroll, 1, 5);
    p.axis_stop();
    p.frame(&mut sink);
    let drained = sink.empty_with();
    assert_eq!(
        drained,
        vec![window_event(
            3,
            WindowEvent::MouseWheel {
                delta: MouseScrollDelta::PixelDelta(0, -1),
                phase: TouchPhase::Ended,
            }
        )]
    );

    // Any axis delta after the stop restarts the phase at Started.
    p.axis(&mut sink, ScrollAxis::HorizontalScroll, 1, 5);
    assert_eq!(p.axis_state, TouchPhase::Started);
    p.frame(&mut sink);
    let drained = sink.empty_with();
    assert_eq!(
        drained,
        vec![window_event(
            3,
            WindowEvent::MouseWheel {
                delta: MouseScrollDelta::PixelDelta(1, 0),
                phase: TouchPhase::Started,
            }
        )]
    );
}

#[test]
fn enter_motion_leave_emits_in_order_then_silence() {
    let mut sink = EventsLoopSink::new();
    let mut p = PointerIData::new();
    p.enter(&mut sink, Some(WindowId(4)), 11, 12);
    p.motion(&mut sink, 13, 14);
    p.leave(&mut sink, Some(WindowId(4)));
    let drained = sink.empty_with();
    assert_eq!(
        drained,
        vec![
            window_event(4, WindowEvent::MouseEntered),
            window_event(4, WindowEvent::MouseMoved { x: 11, y: 12 }),
            window_event(4, WindowEvent::MouseMoved { x: 13, y: 14 }),
            window_event(4, WindowEvent::MouseLeft),
        ]
    );

    // After the leave, motion, button, axis and frame emit nothing.
    p.motion(&mut sink, 15, 16);
    p.button(&mut sink, 0x110, ElementState::Pressed);
    p.axis(&mut sink, ScrollAxis::VerticalScroll, 5, 5);
    p.frame(&mut sink);
    assert!(sink.empty_with().is_empty());
}

#[test]
fn unfocused_batched_deltas_still_accumulate_and_roll_the_phase() {
    let mut sink = EventsLoopSink::new();
    let mut p = PointerIData::new();
    p.enter(&mut sink, Some(WindowId(10)), 0, 0);
    p.axis(&mut sink, ScrollAxis::VerticalScroll, 1, 5);
    assert_eq!(p.axis_state, TouchPhase::Started);
    p.leave(&mut sink, Some(WindowId(10)));
    sink.empty_with();

    // A delta while unfocused is not emitted, but it still counts and
    // moves the gesture on.
    p.axis(&mut sink, ScrollAxis::VerticalScroll, 1, 5);
    assert!(sink.empty_with().is_empty());
    assert_eq!(p.axis_buffer, Some((0, -2)));
    assert_eq!(p.axis_state, TouchPhase::Moved);

    // Once focus returns, the frame flushes the full sum with the rolled
    // phase.
    p.enter(&mut sink, Some(WindowId(10)), 0, 0);
    sink.empty_with();
    p.frame(&mut sink);
    assert_eq!(
        sink.empty_with(),
        vec![window_event(
            10,
            WindowEvent::MouseWheel {
                delta: MouseScrollDelta::PixelDelta(0, -2),
                phase: TouchPhase::Moved,
            }
        )]
    );
}

#[test]
fn unresolvable_enter_is_a_no_op() {
    let mut sink = EventsLoopSink::new();
    let mut p = PointerIData::new();
    p.enter(&mut sink, None, 1, 2);
    assert_eq!(p.mouse_focus, None);
    assert!(sink.empty_with().is_empty());
}

#[test]
fn old_protocol_versions_emit_immediately() {
    let mut sink = EventsLoopSink::new();
    let mut p = PointerIData::new();
    p.enter(&mut sink, Some(WindowId(5)), 0, 0);
    sink.empty_with();

    p.axis(&mut sink, ScrollAxis::VerticalScroll, 6, 4);
    let drained = sink.empty_with();
    assert_eq!(
        drained,
        vec![window_event(
            5,
            WindowEvent::MouseWheel {
                delta: MouseScrollDelta::PixelDelta(0, -6),
                phase: TouchPhase::Moved,
            }
        )]
    );
    // Nothing was buffered: a later frame emits nothing.
    assert_eq!(p.axis_buffer, None);
    p.frame(&mut sink);
    assert!(sink.empty_with().is_empty());
}

#[test]
fn known_buttons_map_and_unknown_codes_drop() {
    let mut sink = EventsLoopSink::new();
    let mut p = PointerIData::new();
    p.enter(&mut sink, Some(WindowId(6)), 0, 0);
    sink.empty_with();

    p.button(&mut sink, 0x110, ElementState::Pressed);
    p.button(&mut sink, 0x111, ElementState::Released);
    p.button(&mut sink, 0x112, ElementState::Pressed);
    p.button(&mut sink, 0x113, ElementState::Pressed);
    let drained = sink.empty_with();
    assert_eq!(
        drained,
        vec![
            window_event(
                6,
                WindowEvent::MouseInput {
                    state: ElementState::Pressed,
                    button: MouseButton::Left,
                }
            ),
            window_event(
                6,
                WindowEvent::MouseInput {
                    state: ElementState::Released,
                    button: MouseButton::Right,
                }
            ),
            window_event(
                6,
                WindowEvent::MouseInput {
                    state: ElementState::Pressed,
                    button: MouseButton::Middle,
                }
            ),
        ]
    );
}

#[test]
fn frame_with_empty_buffers_emits_nothing() {
    let mut sink = EventsLoopSink::new();
    let mut p = PointerIData::new();
    p.enter(&mut sink, Some(WindowId(7)), 0, 0);
    sink.empty_with();
    p.frame(&mut sink);
    assert!(sink.empty_with().is_empty());
    assert_eq!(p.axis_buffer, None);
    assert_eq!(p.axis_discrete_buffer, None);
}

#[test]
fn discrete_deltas_accumulate_without_focus_but_frame_stays_silent() {
    let mut sink = EventsLoopSink::new();
    let mut p = PointerIData::new();
    p.axis_discrete(ScrollAxis::HorizontalScroll, 3);
    assert_eq!(p.axis_discrete_buffer, Some((3, 0)));
    p.frame(&mut sink);
    assert!(sink.empty_with().is_empty());
    assert_eq!(p.axis_discrete_buffer, None);
}
