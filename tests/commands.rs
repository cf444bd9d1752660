use personal_time_service::{
    after_build, after_show, check, error_message, greet, reply, settle_startup, startup_action,
    NotificationStep, StartupAction, WindowCommand, WindowFlags,
};

const OUT_OF_RANGE: &str = "opacity must lie between 0.0 and 1.0";

fn opacity(x: f64) -> WindowCommand {
    WindowCommand::SetOpacity { bits: x.to_bits() }
}

#[test]
fn greet_formats_name() {
    assert_eq!(greet("Tauri"), "Hello, Tauri! You've been greeted from Rust!");
}

#[test]
fn greet_keeps_empty_and_blank_names() {
    assert_eq!(greet(""), "Hello, ! You've been greeted from Rust!");
    assert_eq!(greet("  "), "Hello,   ! You've been greeted from Rust!");
    assert_eq!(greet("{name}"), "Hello, {name}! You've been greeted from Rust!");
}

#[test]
fn click_through_round_trip_leaves_it_off() {
    let mut flags = WindowFlags::initial();
    let on = WindowCommand::SetClickThrough { enabled: true };
    let off = WindowCommand::SetClickThrough { enabled: false };
    assert_eq!(check(&on), Ok(()));
    assert_eq!(flags.complete(on, Ok(())), Ok(()));
    assert!(flags.click_through);
    assert_eq!(check(&off), Ok(()));
    assert_eq!(flags.complete(off, Ok(())), Ok(()));
    assert_eq!(flags, WindowFlags::initial());
}

#[test]
fn opacity_one_twice_is_idempotent() {
    let mut flags = WindowFlags::initial();
    flags.complete(opacity(0.25), Ok(())).unwrap();
    assert_eq!(check(&opacity(1.0)), Ok(()));
    assert_eq!(flags.complete(opacity(1.0), Ok(())), Ok(()));
    let once = flags;
    assert_eq!(check(&opacity(1.0)), Ok(()));
    assert_eq!(flags.complete(opacity(1.0), Ok(())), Ok(()));
    assert_eq!(flags, once);
    assert_eq!(flags.opacity_bits, 1.0f64.to_bits());
}

#[test]
fn opacity_bounds_are_accepted() {
    for x in [0.0, -0.0, 0.5, 1.0, f64::MIN_POSITIVE] {
        assert_eq!(check(&opacity(x)), Ok(()), "{x}");
    }
}

#[test]
fn opacity_out_of_range_is_refused_every_time() {
    for x in [1.5, 1.0000000000000002, -0.1, -1.0, f64::INFINITY, f64::NEG_INFINITY, f64::NAN, 2.0] {
        assert_eq!(check(&opacity(x)), Err(OUT_OF_RANGE.to_string()), "{x}");
        assert_eq!(check(&opacity(x)), Err(OUT_OF_RANGE.to_string()), "{x}");
    }
}

#[test]
fn always_on_top_toggles() {
    let mut flags = WindowFlags::initial();
    flags.complete(WindowCommand::SetAlwaysOnTop { enabled: true }, Ok(())).unwrap();
    assert!(flags.always_on_top);
    assert!(!flags.click_through);
    flags.complete(WindowCommand::SetAlwaysOnTop { enabled: false }, Ok(())).unwrap();
    assert!(!flags.always_on_top);
}

#[test]
fn failed_native_call_keeps_flags() {
    let mut flags = WindowFlags::initial();
    let r = flags.complete(WindowCommand::SetClickThrough { enabled: true }, Err("window closed".to_string()));
    assert_eq!(r, Err("window closed".to_string()));
    assert_eq!(flags, WindowFlags::initial());
}

#[test]
fn empty_native_message_is_replaced() {
    assert_eq!(error_message(String::new()), "native API failure");
    assert_eq!(error_message("denied".to_string()), "denied");
    assert_eq!(reply(Err(String::new())), Err("native API failure".to_string()));
    assert_eq!(reply(Ok(())), Ok(()));
}

#[test]
fn notification_shown_when_accepted() {
    assert!(matches!(after_build(Ok(())), NotificationStep::Show));
    assert_eq!(after_show(Ok(())), Ok(()));
}

#[test]
fn notification_build_failure_is_reported() {
    match after_build(Err("permission denied".to_string())) {
        NotificationStep::Finished(Err(e)) => assert_eq!(e, "permission denied"),
        other => panic!("unexpected step {other:?}"),
    }
    match after_build(Err(String::new())) {
        NotificationStep::Finished(Err(e)) => assert!(!e.is_empty()),
        other => panic!("unexpected step {other:?}"),
    }
}

#[test]
fn notification_show_failure_is_reported() {
    assert_eq!(after_show(Err("no daemon".to_string())), Err("no daemon".to_string()));
    assert_eq!(after_show(Err(String::new())), Err("native API failure".to_string()));
}

#[test]
fn startup_without_main_window_aborts() {
    assert_eq!(startup_action(false), StartupAction::Abort);
}

#[test]
fn startup_with_main_window_enables_click_through() {
    let cmd = WindowCommand::SetClickThrough { enabled: true };
    assert_eq!(startup_action(true), StartupAction::Apply(cmd));
    let mut flags = WindowFlags::initial();
    settle_startup(&mut flags, cmd, Ok(()));
    assert!(flags.click_through);
}

#[test]
fn startup_failure_is_not_fatal() {
    let mut flags = WindowFlags::initial();
    settle_startup(&mut flags, WindowCommand::SetClickThrough { enabled: true }, Err("unsupported".to_string()));
    assert_eq!(flags, WindowFlags::initial());
}
