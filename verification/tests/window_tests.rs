use wayland_event_loop::context::{Global, StateContext};
use wayland_event_loop::dispatch::EventsLoop;
use wayland_event_loop::sink::EventsLoopSink;
use wayland_event_loop::window::blank_buffer;

fn global(name: u32, interface: &str, version: u32) -> Global {
    Global { name, interface: interface.to_owned(), version }
}

fn loop_with(ctxt: StateContext) -> EventsLoop {
    EventsLoop { sink: EventsLoopSink::new(), ctxt, pending_wakeup: false, cleanup_needed: false }
}

#[test]
fn extended_shell_windows_need_no_placeholder_buffer() {
    let mut ctxt = StateContext::new();
    ctxt.new_global(&global(1, "zxdg_shell_v6", 1));
    let plan = loop_with(ctxt).create_window();
    assert!(plan.xdg);
    assert!(!plan.needs_blank);
}

#[test]
fn legacy_shell_windows_kickstart_with_a_placeholder_buffer() {
    let mut ctxt = StateContext::new();
    let globals = vec![global(2, "wl_shell", 1)];
    ctxt.ensure_shell(&globals).unwrap();
    let plan = loop_with(ctxt).create_window();
    assert!(!plan.xdg);
    assert!(plan.needs_blank);
}

#[test]
fn the_placeholder_buffer_is_white_and_four_bytes_per_pixel() {
    let buf = blank_buffer(3, 2);
    assert_eq!(buf.len(), 3 * 2 * 4);
    assert!(buf.iter().all(|&b| b == 0xff));
    assert!(blank_buffer(0, 5).is_empty());
}
