use wayland_event_loop::context::{Global, NoShellError, Shell, ShellAction, StateContext};
use wayland_event_loop::dispatch::{
    fold_control, EventsLoop, EventsLoopClosed, EventsLoopProxy, WindowPending,
};
use wayland_event_loop::events::{ControlFlow, Event, WindowEvent, WindowId};
use wayland_event_loop::sink::EventsLoopSink;

fn global(name: u32, interface: &str, version: u32) -> Global {
    Global { name, interface: interface.to_owned(), version }
}

fn fresh_loop() -> EventsLoop {
    EventsLoop {
        sink: EventsLoopSink::new(),
        ctxt: StateContext::new(),
        pending_wakeup: false,
        cleanup_needed: false,
    }
}

fn pending(
    wid: u64,
    newsize: Option<(u32, u32)>,
    refresh: bool,
    closed: bool,
    has_surface: bool,
) -> WindowPending {
    WindowPending { wid: WindowId(wid), newsize, refresh, closed, has_surface }
}

fn window_event(wid: u64, event: WindowEvent) -> Event {
    Event::WindowEvent { window_id: WindowId(wid), event }
}

#[test]
fn construction_negotiates_shell_and_seat_from_the_globals() {
    let mut ctxt = StateContext::new();
    let globals = vec![
        global(1, "wl_output", 3),
        global(2, "wl_seat", 5),
        global(3, "wl_shell", 1),
    ];
    for g in &globals {
        ctxt.new_global(g);
    }
    let (lp, shell_action, seat_action) = EventsLoop::new(ctxt, &globals).unwrap();
    assert_eq!(shell_action, ShellAction::BindWlShell { name: 3 });
    assert_eq!(seat_action, Some(2));
    assert_eq!(lp.ctxt.shell, Some(Shell::Wl));
    assert_eq!(lp.ctxt.seat, Some(2));
    assert_eq!(lp.ctxt.monitors.len(), 1);
    assert!(!lp.pending_wakeup && !lp.cleanup_needed);
}

#[test]
fn construction_keeps_an_opportunistically_bound_shell() {
    let mut ctxt = StateContext::new();
    let globals = vec![global(1, "zxdg_shell_v6", 1)];
    for g in &globals {
        ctxt.new_global(g);
    }
    let (lp, shell_action, seat_action) = EventsLoop::new(ctxt, &globals).unwrap();
    assert_eq!(shell_action, ShellAction::AlreadyBound);
    assert_eq!(lp.ctxt.shell, Some(Shell::Xdg));
    assert_eq!(seat_action, None);
}

#[test]
fn construction_fails_fatally_without_any_shell() {
    let ctxt = StateContext::new();
    let globals = vec![global(7, "wl_compositor", 4)];
    assert!(matches!(EventsLoop::new(ctxt, &globals), Err(NoShellError)));
}

#[test]
fn init_seat_is_idempotent_on_the_loop() {
    let mut lp = fresh_loop();
    let globals = vec![global(2, "wl_seat", 5)];
    assert_eq!(lp.init_seat(&globals), Some(2));
    assert_eq!(lp.init_seat(&globals), None);
    assert_eq!(lp.ctxt.seat, Some(2));
}

#[test]
fn wakeup_round_trip_delivers_exactly_one_awakened() {
    let mut lp = fresh_loop();
    let proxy = lp.create_proxy();
    assert_eq!(proxy.wakeup(true, &mut lp.pending_wakeup), Ok(()));
    assert!(lp.pending_wakeup);

    let no_windows: Vec<WindowPending> = Vec::new();
    lp.post_dispatch_triggers(&no_windows);
    assert!(!lp.pending_wakeup);
    assert_eq!(lp.drain_events(), vec![Event::Awakened]);

    // The flag fell with the pass: the next pass emits nothing.
    lp.post_dispatch_triggers(&no_windows);
    assert!(lp.drain_events().is_empty());
}

#[test]
fn wakeup_on_a_dead_loop_fails_closed_and_changes_nothing() {
    let proxy = EventsLoopProxy { loop_alive: false };
    let mut flag = false;
    assert_eq!(proxy.wakeup(true, &mut flag), Err(EventsLoopClosed));
    assert!(!flag);
}

#[test]
fn wakeup_sets_the_flag_even_when_the_flush_fails() {
    let proxy = EventsLoopProxy { loop_alive: true };
    let mut flag = false;
    assert_eq!(proxy.wakeup(false, &mut flag), Err(EventsLoopClosed));
    assert!(flag);
}

#[test]
fn resize_fires_before_refresh_and_closed() {
    let mut lp = fresh_loop();
    let windows = vec![pending(1, Some((640, 480)), true, true, true)];
    let resizes = lp.post_dispatch_triggers(&windows);
    assert_eq!(resizes, vec![(WindowId(1), 640, 480)]);
    assert_eq!(
        lp.drain_events(),
        vec![
            window_event(1, WindowEvent::Resized(640, 480)),
            window_event(1, WindowEvent::Refresh),
            window_event(1, WindowEvent::Closed),
        ]
    );
}

#[test]
fn a_new_size_without_a_live_surface_is_not_resized() {
    let mut lp = fresh_loop();
    let windows = vec![pending(1, Some((640, 480)), true, false, false)];
    let resizes = lp.post_dispatch_triggers(&windows);
    assert!(resizes.is_empty());
    assert_eq!(lp.drain_events(), vec![window_event(1, WindowEvent::Refresh)]);
}

#[test]
fn triggers_run_wakeup_first_then_windows_in_store_order() {
    let mut lp = fresh_loop();
    lp.pending_wakeup = true;
    let windows = vec![
        pending(1, None, true, false, true),
        pending(2, Some((10, 20)), false, false, true),
    ];
    let resizes = lp.post_dispatch_triggers(&windows);
    assert_eq!(resizes, vec![(WindowId(2), 10, 20)]);
    assert_eq!(
        lp.drain_events(),
        vec![
            Event::Awakened,
            window_event(1, WindowEvent::Refresh),
            window_event(2, WindowEvent::Resized(10, 20)),
        ]
    );
}

#[test]
fn cleanup_flag_is_taken_exactly_once() {
    let mut lp = fresh_loop();
    assert!(!lp.take_cleanup());
    lp.request_cleanup();
    assert!(lp.take_cleanup());
    assert!(!lp.take_cleanup());
}

#[test]
fn drain_preserves_insertion_order_and_empties_the_sink() {
    let mut lp = fresh_loop();
    lp.sink.send_event(WindowEvent::Refresh, WindowId(1));
    lp.sink.send_raw_event(Event::Awakened);
    lp.sink.send_event(WindowEvent::Closed, WindowId(2));
    assert_eq!(
        lp.drain_events(),
        vec![
            window_event(1, WindowEvent::Refresh),
            Event::Awakened,
            window_event(2, WindowEvent::Closed),
        ]
    );
    assert!(lp.drain_events().is_empty());
}

#[test]
fn break_is_sticky_but_never_truncates_a_batch() {
    let verdicts = [ControlFlow::Continue, ControlFlow::Break, ControlFlow::Continue];
    let mut acc = ControlFlow::Continue;
    let mut seen = 0;
    for v in verdicts {
        acc = fold_control(acc, v);
        seen += 1;
    }
    // Every verdict of the batch was folded in, and Break stuck.
    assert_eq!(seen, 3);
    assert_eq!(acc, ControlFlow::Break);
    assert_eq!(
        fold_control(ControlFlow::Continue, ControlFlow::Continue),
        ControlFlow::Continue
    );
}

#[test]
fn monitor_enumeration_reflects_the_registry() {
    let mut lp = fresh_loop();
    lp.ctxt.new_global(&global(4, "wl_output", 3));
    lp.ctxt.new_global(&global(9, "wl_output", 3));
    assert_eq!(lp.get_primary_monitor().get_native_identifier(), 4);
    let all = lp.get_available_monitors();
    let ids: Vec<u32> = all.iter().map(|m| m.get_native_identifier()).collect();
    assert_eq!(ids, vec![4, 9]);

    // After a removal the id is gone from enumeration.
    lp.ctxt.del_global(4);
    let ids: Vec<u32> = lp
        .get_available_monitors()
        .iter()
        .map(|m| m.get_native_identifier())
        .collect();
    assert_eq!(ids, vec![9]);
}
