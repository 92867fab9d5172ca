use error_context::actions::InputMode;
use error_context::context::{ContextType, ErrorContext, MAX_THREAD_CALL_STACK};
use error_context::instructions::{
    AppInstruction, AppState, PaneId, PluginInstruction, PtyInstruction, ScreenInstruction,
};
use error_context::tags::{AppContext, PluginContext, PtyContext, ScreenContext};
use error_context::text::push_decimal;

const HEADER: &str = "Originating Thread(s):\n";

fn line(n: usize, body: &str) -> String {
    format!("\u{1b}[0;0m{}. {}\n", n, body)
}

#[test]
fn new_context_reports_header_only() {
    let ctx = ErrorContext::new();
    assert_eq!(ctx.to_string(), HEADER);
    assert!(ctx.calls().is_empty());
    assert_eq!(ErrorContext::default().to_string(), HEADER);
}

#[test]
fn recorded_calls_are_listed_in_order() {
    let mut ctx = ErrorContext::new();
    ctx.add_call(ContextType::Screen(ScreenContext::Render));
    ctx.add_call(ContextType::Pty(PtyContext::SpawnTerminal));
    ctx.add_call(ContextType::IPCServer);
    let expected = format!(
        "{}{}{}{}",
        HEADER,
        line(1, "\u{1b}[1;35mscreen_thread: \u{1b}[0;32mRender"),
        line(2, "\u{1b}[1;35mpty_thread: \u{1b}[0;32mSpawnTerminal"),
        line(3, "\u{1b}[1;35mipc_server: \u{1b}[0;32mAcceptInput"),
    );
    assert_eq!(ctx.to_string(), expected);
    assert_eq!(
        ctx.calls(),
        vec![
            ContextType::Screen(ScreenContext::Render),
            ContextType::Pty(PtyContext::SpawnTerminal),
            ContextType::IPCServer,
        ]
    );
}

#[test]
fn six_calls_fill_the_trail() {
    let calls = [
        ContextType::Screen(ScreenContext::NewPane),
        ContextType::Pty(PtyContext::ClosePane),
        ContextType::Plugin(PluginContext::Draw),
        ContextType::App(AppContext::SetState),
        ContextType::StdinHandler,
        ContextType::AsyncTask,
    ];
    let mut ctx = ErrorContext::new();
    for c in calls.iter() {
        ctx.add_call(*c);
    }
    assert_eq!(ctx.calls(), calls.to_vec());
    let report = ctx.to_string();
    assert!(report.ends_with(&line(
        6,
        "\u{1b}[1;35mstream_terminal_bytes: \u{1b}[0;32mAsyncTask"
    )));
    assert_eq!(report.matches("\u{1b}[0;0m").count(), MAX_THREAD_CALL_STACK);
}

#[test]
fn calls_past_capacity_are_dropped() {
    let mut ctx = ErrorContext::new();
    for _ in 0..MAX_THREAD_CALL_STACK {
        ctx.add_call(ContextType::Screen(ScreenContext::Render));
    }
    let full = ctx.calls();
    let report = ctx.to_string();
    ctx.add_call(ContextType::Pty(PtyContext::Quit));
    ctx.add_call(ContextType::IPCServer);
    assert_eq!(ctx.calls(), full);
    assert_eq!(ctx.to_string(), report);
    assert!(!report.contains("pty_thread"));
    assert!(!report.contains("7. "));
}

#[test]
fn first_calls_are_kept_not_the_latest() {
    let mut ctx = ErrorContext::new();
    ctx.add_call(ContextType::Plugin(PluginContext::Load));
    for _ in 0..10 {
        ctx.add_call(ContextType::App(AppContext::Exit));
    }
    let calls = ctx.calls();
    assert_eq!(calls.len(), MAX_THREAD_CALL_STACK);
    assert_eq!(calls[0], ContextType::Plugin(PluginContext::Load));
    assert_eq!(calls[5], ContextType::App(AppContext::Exit));
}

#[test]
fn recording_an_empty_call_changes_nothing() {
    let mut ctx = ErrorContext::new();
    ctx.add_call(ContextType::Empty);
    assert!(ctx.calls().is_empty());
    ctx.add_call(ContextType::AsyncTask);
    ctx.add_call(ContextType::Empty);
    assert_eq!(ctx.calls(), vec![ContextType::AsyncTask]);
}

#[test]
fn contexts_are_independent_values() {
    let mut a = ErrorContext::new();
    a.add_call(ContextType::Screen(ScreenContext::Quit));
    let mut b = a;
    b.add_call(ContextType::Plugin(PluginContext::Unload));
    a.add_call(ContextType::Pty(PtyContext::NewTab));
    assert!(!a.to_string().contains("plugin_thread"));
    assert!(!b.to_string().contains("pty_thread"));
}

#[test]
fn call_site_labels() {
    assert_eq!(
        ContextType::Plugin(PluginContext::GlobalInput).to_string(),
        "\u{1b}[1;35mplugin_thread: \u{1b}[0;32mGlobalInput"
    );
    assert_eq!(
        ContextType::App(AppContext::Error).to_string(),
        "\u{1b}[1;35mmain_thread: \u{1b}[0;32mError"
    );
    assert_eq!(
        ContextType::StdinHandler.to_string(),
        "\u{1b}[1;35mstdin_handler_thread: \u{1b}[0;32mAcceptInput"
    );
    assert_eq!(ContextType::Empty.to_string(), "");
    assert_eq!(
        ScreenContext::ToggleActiveTerminalFullscreen.label(),
        "ToggleActiveTerminalFullscreen"
    );
    assert_eq!(PtyContext::SpawnTerminalVertically.label(), "SpawnTerminalVertically");
}

#[test]
fn screen_instructions_map_to_their_call_sites() {
    let pane = PaneId::Terminal(3);
    let cases = vec![
        (ScreenInstruction::Pty(3, vec![65]), ScreenContext::HandlePtyEvent),
        (ScreenInstruction::Render, ScreenContext::Render),
        (ScreenInstruction::NewPane(pane), ScreenContext::NewPane),
        (ScreenInstruction::WriteCharacter(vec![1, 2]), ScreenContext::WriteCharacter),
        (ScreenInstruction::SetSelectable(PaneId::Plugin(1), true), ScreenContext::SetSelectable),
        (ScreenInstruction::SetMaxHeight(pane, 10), ScreenContext::SetMaxHeight),
        (ScreenInstruction::ApplyLayout(vec![4, 5]), ScreenContext::ApplyLayout),
        (ScreenInstruction::NewTab(7), ScreenContext::NewTab),
        (ScreenInstruction::CloseTab, ScreenContext::CloseTab),
        (ScreenInstruction::MoveFocusRight, ScreenContext::MoveFocusRight),
    ];
    for (instruction, expected) in cases.iter() {
        assert_eq!(ScreenContext::from(instruction), *expected);
    }
}

#[test]
fn other_instructions_map_to_their_call_sites() {
    assert_eq!(
        PtyContext::from(&PtyInstruction::SpawnTerminal(Some("vim".to_string()))),
        PtyContext::SpawnTerminal
    );
    assert_eq!(
        PtyContext::from(&PtyInstruction::SpawnTerminalHorizontally(None)),
        PtyContext::SpawnTerminalHorizontally
    );
    assert_eq!(
        PtyContext::from(&PtyInstruction::CloseTab(vec![PaneId::Terminal(1)])),
        PtyContext::CloseTab
    );
    assert_eq!(PtyContext::from(&PtyInstruction::NewTab), PtyContext::NewTab);
    assert_eq!(
        PluginContext::from(&PluginInstruction::Draw(1, 10, 20)),
        PluginContext::Draw
    );
    assert_eq!(
        PluginContext::from(&PluginInstruction::Input(2, vec![9])),
        PluginContext::Input
    );
    assert_eq!(PluginContext::from(&PluginInstruction::Quit), PluginContext::Quit);
    assert_eq!(
        AppContext::from(&AppInstruction::SetState(AppState { input_mode: InputMode::Tab })),
        AppContext::SetState
    );
    assert_eq!(
        AppContext::from(&AppInstruction::Error("x".to_string())),
        AppContext::Error
    );
    assert_eq!(AppContext::from(&AppInstruction::GetState), AppContext::GetState);
}

#[test]
fn decimal_text() {
    let mut s = String::from("n=");
    push_decimal(&mut s, 0);
    assert_eq!(s, "n=0");
    let mut s = String::new();
    push_decimal(&mut s, 42);
    assert_eq!(s, "42");
    let mut s = String::new();
    push_decimal(&mut s, u32::MAX);
    assert_eq!(s, "4294967295");
}
