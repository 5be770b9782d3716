use wayland_event_loop::context::{
    Global, GlobalAction, NoShellError, Shell, ShellAction, StateContext,
};

fn global(name: u32, interface: &str, version: u32) -> Global {
    Global { name, interface: interface.to_owned(), version }
}

#[test]
fn new_output_is_registered_with_defaults_and_capped_bind_version() {
    let mut ctxt = StateContext::new();
    let action = ctxt.new_global(&global(4, "wl_output", 7));
    assert_eq!(action, GlobalAction::BindOutput { version: 3 });
    let action = ctxt.new_global(&global(5, "wl_output", 2));
    assert_eq!(action, GlobalAction::BindOutput { version: 2 });
    assert_eq!(ctxt.monitors.len(), 2);
    let m = &ctxt.monitors[0];
    assert_eq!(m.id, 4);
    assert_eq!(m.scale, 1);
    assert_eq!(m.pix_size, (0, 0));
    assert_eq!(m.pix_pos, (0, 0));
    assert_eq!(m.name, "");
}

#[test]
fn extended_shell_is_bound_once_and_never_rebound() {
    let mut ctxt = StateContext::new();
    let action = ctxt.new_global(&global(1, "zxdg_shell_v6", 1));
    assert_eq!(action, GlobalAction::BindXdgShell);
    assert_eq!(ctxt.shell, Some(Shell::Xdg));
    let action = ctxt.new_global(&global(2, "zxdg_shell_v6", 1));
    assert_eq!(action, GlobalAction::Ignore);
    assert_eq!(ctxt.shell, Some(Shell::Xdg));
}

#[test]
fn unrelated_globals_are_ignored() {
    let mut ctxt = StateContext::new();
    let action = ctxt.new_global(&global(3, "wl_compositor", 4));
    assert_eq!(action, GlobalAction::Ignore);
    assert!(ctxt.monitors.is_empty());
    assert_eq!(ctxt.shell, None);
}

#[test]
fn removal_matches_by_id_and_keeps_old_handles_readable() {
    let mut ctxt = StateContext::new();
    ctxt.new_global(&global(4, "wl_output", 3));
    ctxt.new_global(&global(9, "wl_output", 3));
    ctxt.update_scale(9, 2);
    let handle = ctxt.monitor_id_for(9);
    assert_eq!(handle.get_native_identifier(), 9);

    ctxt.del_global(9);
    assert_eq!(ctxt.monitors.len(), 1);
    assert_eq!(ctxt.monitors[0].id, 4);
    // The outstanding handle still reports its last-known values.
    assert_eq!(handle.get_native_identifier(), 9);
    assert_eq!(handle.get_hidpi_factor(), 2);
}

#[test]
fn removal_of_a_non_monitor_id_changes_nothing() {
    let mut ctxt = StateContext::new();
    ctxt.new_global(&global(4, "wl_output", 3));
    ctxt.del_global(77);
    assert_eq!(ctxt.monitors.len(), 1);
}

#[test]
fn geometry_updates_position_and_name_in_place() {
    let mut ctxt = StateContext::new();
    ctxt.new_global(&global(4, "wl_output", 3));
    ctxt.new_global(&global(5, "wl_output", 3));
    ctxt.update_geometry(5, -10, 20, "ACME", "Screen 3000");
    assert_eq!(ctxt.monitors[1].pix_pos, (-10, 20));
    assert_eq!(ctxt.monitors[1].name, "ACME - Screen 3000");
    // The other entry is untouched.
    assert_eq!(ctxt.monitors[0].pix_pos, (0, 0));
    assert_eq!(ctxt.monitors[0].name, "");
}

#[test]
fn mode_updates_only_the_current_mode() {
    let mut ctxt = StateContext::new();
    ctxt.new_global(&global(4, "wl_output", 3));
    ctxt.update_mode(4, 1920, 1080, false);
    assert_eq!(ctxt.monitors[0].pix_size, (0, 0));
    ctxt.update_mode(4, 1920, 1080, true);
    assert_eq!(ctxt.monitors[0].pix_size, (1920, 1080));
}

#[test]
fn updates_for_unknown_ids_are_silent_no_ops() {
    let mut ctxt = StateContext::new();
    ctxt.new_global(&global(4, "wl_output", 3));
    ctxt.update_geometry(99, 1, 1, "a", "b");
    ctxt.update_mode(99, 1, 1, true);
    ctxt.update_scale(99, 3);
    assert_eq!(ctxt.monitors[0].pix_pos, (0, 0));
    assert_eq!(ctxt.monitors[0].pix_size, (0, 0));
    assert_eq!(ctxt.monitors[0].scale, 1);
}

#[test]
fn ensure_shell_is_idempotent_once_bound() {
    let mut ctxt = StateContext::new();
    ctxt.new_global(&global(1, "zxdg_shell_v6", 1));
    let globals = vec![global(2, "wl_shell", 1)];
    assert_eq!(ctxt.ensure_shell(&globals), Ok(ShellAction::AlreadyBound));
    assert_eq!(ctxt.shell, Some(Shell::Xdg));
}

#[test]
fn ensure_shell_falls_back_to_the_first_legacy_shell() {
    let mut ctxt = StateContext::new();
    let globals = vec![
        global(7, "wl_compositor", 4),
        global(8, "wl_shell", 1),
        global(9, "wl_shell", 1),
    ];
    assert_eq!(
        ctxt.ensure_shell(&globals),
        Ok(ShellAction::BindWlShell { name: 8 })
    );
    assert_eq!(ctxt.shell, Some(Shell::Wl));
}

#[test]
fn ensure_shell_without_any_shell_is_fatal() {
    let mut ctxt = StateContext::new();
    let globals = vec![global(7, "wl_compositor", 4)];
    assert_eq!(ctxt.ensure_shell(&globals), Err(NoShellError));
    assert_eq!(ctxt.shell, None);
}

#[test]
fn init_seat_binds_the_first_seat_once() {
    let mut ctxt = StateContext::new();
    let globals = vec![global(2, "wl_seat", 5), global(3, "wl_seat", 5)];
    assert_eq!(ctxt.init_seat(&globals), Some(2));
    assert_eq!(ctxt.seat, Some(2));
    // Idempotent re-entry: the seat is never rebound.
    assert_eq!(ctxt.init_seat(&globals), None);
    assert_eq!(ctxt.seat, Some(2));
}

#[test]
fn init_seat_without_a_seat_does_nothing() {
    let mut ctxt = StateContext::new();
    let globals = vec![global(7, "wl_compositor", 4)];
    assert_eq!(ctxt.init_seat(&globals), None);
    assert_eq!(ctxt.seat, None);
}

#[test]
fn monitor_id_for_returns_the_matching_snapshot() {
    let mut ctxt = StateContext::new();
    ctxt.new_global(&global(4, "wl_output", 3));
    ctxt.new_global(&global(5, "wl_output", 3));
    ctxt.update_scale(5, 2);
    let handle = ctxt.monitor_id_for(5);
    assert_eq!(handle.get_native_identifier(), 5);
    assert_eq!(handle.get_hidpi_factor(), 2);
    assert_eq!(handle.get_dimensions(), (0, 0));
    assert_eq!(handle.get_position(), (0, 0));
    assert_eq!(handle.get_name(), Some(String::new()));
}
