use error_context::context::ContextType;
use error_context::context::ErrorContext;
use error_context::instructions::AppInstruction;
use error_context::report::{compose_report, panic_report, route_panic, PanicRoute};
use error_context::tags::{PluginContext, PtyContext, ScreenContext};

fn screen_then_pty() -> ErrorContext {
    let mut ctx = ErrorContext::new();
    ctx.add_call(ContextType::Screen(ScreenContext::Render));
    ctx.add_call(ContextType::Pty(PtyContext::SpawnTerminal));
    ctx
}

fn position(report: &str, part: &str) -> usize {
    report.find(part).expect(part)
}

#[test]
fn main_thread_panic_report_and_exit() {
    let ctx = screen_then_pty();
    let report = compose_report(&ctx, "main", Some("boom"), Some(("x.src", 42)), "TRACE");
    let parts = ["screen_thread", "pty_thread", "thread 'main'", "boom", "x.src:42", "TRACE"];
    for pair in parts.windows(2) {
        assert!(position(&report, pair[0]) < position(&report, pair[1]));
    }
    assert!(report.starts_with(&ctx.to_string()));
    match route_panic("main", report.clone()) {
        PanicRoute::Terminate { report: printed, exit_code } => {
            assert_eq!(printed, report);
            assert_ne!(exit_code, 0);
            assert_eq!(exit_code, 1);
        }
        PanicRoute::Notify(_) => panic!("a panic of the main thread must end the process"),
    }
}

#[test]
fn worker_panic_without_payload_is_sent_to_supervisor() {
    let mut ctx = ErrorContext::new();
    ctx.add_call(ContextType::Plugin(PluginContext::Load));
    let report = compose_report(&ctx, "plugin_thread", None, None, "");
    assert!(report.contains("thread 'plugin_thread' panicked"));
    assert!(report.contains("1. \u{1b}[1;35mplugin_thread: \u{1b}[0;32mLoad"));
    match route_panic("plugin_thread", report.clone()) {
        PanicRoute::Notify(AppInstruction::Error(sent)) => assert_eq!(sent, report),
        other => panic!("unexpected route {:?}", other),
    }
}

#[test]
fn report_with_message_and_location() {
    let ctx = ErrorContext::new();
    let report = compose_report(&ctx, "pty", Some("oops"), Some(("a.rs", 7)), "BT");
    assert_eq!(
        report,
        "Originating Thread(s):\n\n\u{1b}[0;0mError: \u{1b}[0;31mthread 'pty' panicked at 'oops': a.rs:7\n\u{1b}[0;0mBT"
    );
}

#[test]
fn report_with_location_only() {
    let ctx = ErrorContext::new();
    let report = compose_report(&ctx, "pty", None, Some(("a.rs", 1234)), "BT");
    assert_eq!(
        report,
        "Originating Thread(s):\n\n\u{1b}[0;0mError: \u{1b}[0;31mthread 'pty' panicked: a.rs:1234\n\u{1b}[0;0mBT"
    );
}

#[test]
fn report_with_message_only() {
    let ctx = ErrorContext::new();
    let report = compose_report(&ctx, "pty", Some("oops"), None, "BT");
    assert_eq!(
        report,
        "Originating Thread(s):\n\n\u{1b}[0;0mError: \u{1b}[0;31mthread 'pty' panicked at 'oops'\n\u{1b}[0;0mBT"
    );
}

#[test]
fn report_without_message_or_location() {
    let ctx = ErrorContext::new();
    let report = compose_report(&ctx, "unnamed", None, None, "BT");
    assert_eq!(
        report,
        "Originating Thread(s):\n\n\u{1b}[0;0mError: \u{1b}[0;31mthread 'unnamed' panicked\n\u{1b}[0;0mBT"
    );
}

#[test]
fn reports_of_two_threads_keep_their_own_trails() {
    let mut a = ErrorContext::new();
    a.add_call(ContextType::Screen(ScreenContext::ScrollUp));
    let mut b = ErrorContext::new();
    b.add_call(ContextType::Plugin(PluginContext::Unload));
    let ra = compose_report(&a, "screen", None, None, "");
    let rb = compose_report(&b, "wasm", None, None, "");
    assert!(ra.contains("ScrollUp") && !ra.contains("Unload"));
    assert!(rb.contains("Unload") && !rb.contains("ScrollUp"));
}

#[test]
fn captured_report_holds_trail_and_header() {
    let ctx = screen_then_pty();
    let report = panic_report(&ctx, "screen", Some("bad"), Some(("s.rs", 3)));
    let header = "\u{1b}[0;0mError: \u{1b}[0;31mthread 'screen' panicked at 'bad': s.rs:3\n\u{1b}[0;0m";
    let prefix = format!("{}\n{}", ctx.to_string(), header);
    assert!(report.starts_with(&prefix));
}

#[test]
fn only_the_thread_named_main_terminates() {
    assert!(matches!(route_panic("main_thread", String::new()), PanicRoute::Notify(_)));
    assert!(matches!(route_panic("", String::new()), PanicRoute::Notify(_)));
    assert!(matches!(route_panic("main", String::new()), PanicRoute::Terminate { .. }));
}
