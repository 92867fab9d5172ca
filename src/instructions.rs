//! The instructions that the subsystems receive, and the call site recorded
//! for each of them.
use vstd::prelude::*;

use crate::actions::InputMode;
use crate::tags::{AppContext, PluginContext, PtyContext, ScreenContext};

verus! {

/// The identity of a pane: a terminal, by its descriptor, or a plugin, by its id.
#[derive(Debug, Clone, Copy, PartialEq, Eq, Structural)]
pub enum PaneId {
    Terminal(i32),
    Plugin(u32),
}

/// The state that the application supervisor shares with the other threads.
#[derive(Debug, Clone, Copy, PartialEq, Eq, Structural)]
pub struct AppState {
    pub input_mode: InputMode,
}

/// An instruction sent to the screen renderer.
#[derive(Debug, Clone)]
pub enum ScreenInstruction {
    /// A terminal event: the descriptor of the terminal and the bytes it produced.
    Pty(i32, Vec<u8>),
    Render,
    NewPane(PaneId),
    HorizontalSplit(PaneId),
    VerticalSplit(PaneId),
    WriteCharacter(Vec<u8>),
    ResizeLeft,
    ResizeRight,
    ResizeDown,
    ResizeUp,
    MoveFocus,
    MoveFocusLeft,
    MoveFocusDown,
    MoveFocusUp,
    MoveFocusRight,
    Quit,
    ScrollUp,
    ScrollDown,
    ClearScroll,
    CloseFocusedPane,
    ToggleActiveTerminalFullscreen,
    SetSelectable(PaneId, bool),
    SetInvisibleBorders(PaneId, bool),
    SetMaxHeight(PaneId, usize),
    ClosePane(PaneId),
    /// Lay out the tab anew, with the descriptors of the terminals that fill it.
    ApplyLayout(Vec<i32>),
    NewTab(i32),
    SwitchTabNext,
    SwitchTabPrev,
    CloseTab,
}

/// The call site recorded for an instruction of the screen renderer: one for each
/// variant, whatever the payload.
pub open spec fn screen_context_of(i: &ScreenInstruction) -> ScreenContext {
    match *i {
        ScreenInstruction::Pty(..) => ScreenContext::HandlePtyEvent,
        ScreenInstruction::Render => ScreenContext::Render,
        ScreenInstruction::NewPane(..) => ScreenContext::NewPane,
        ScreenInstruction::HorizontalSplit(..) => ScreenContext::HorizontalSplit,
        ScreenInstruction::VerticalSplit(..) => ScreenContext::VerticalSplit,
        ScreenInstruction::WriteCharacter(..) => ScreenContext::WriteCharacter,
        ScreenInstruction::ResizeLeft => ScreenContext::ResizeLeft,
        ScreenInstruction::ResizeRight => ScreenContext::ResizeRight,
        ScreenInstruction::ResizeDown => ScreenContext::ResizeDown,
        ScreenInstruction::ResizeUp => ScreenContext::ResizeUp,
        ScreenInstruction::MoveFocus => ScreenContext::MoveFocus,
        ScreenInstruction::MoveFocusLeft => ScreenContext::MoveFocusLeft,
        ScreenInstruction::MoveFocusDown => ScreenContext::MoveFocusDown,
        ScreenInstruction::MoveFocusUp => ScreenContext::MoveFocusUp,
        ScreenInstruction::MoveFocusRight => ScreenContext::MoveFocusRight,
        ScreenInstruction::Quit => ScreenContext::Quit,
        ScreenInstruction::ScrollUp => ScreenContext::ScrollUp,
        ScreenInstruction::ScrollDown => ScreenContext::ScrollDown,
        ScreenInstruction::ClearScroll => ScreenContext::ClearScroll,
        ScreenInstruction::CloseFocusedPane => ScreenContext::CloseFocusedPane,
        ScreenInstruction::ToggleActiveTerminalFullscreen => ScreenContext::ToggleActiveTerminalFullscreen,
        ScreenInstruction::SetSelectable(..) => ScreenContext::SetSelectable,
        ScreenInstruction::SetInvisibleBorders(..) => ScreenContext::SetInvisibleBorders,
        ScreenInstruction::SetMaxHeight(..) => ScreenContext::SetMaxHeight,
        ScreenInstruction::ClosePane(..) => ScreenContext::ClosePane,
        ScreenInstruction::ApplyLayout(..) => ScreenContext::ApplyLayout,
        ScreenInstruction::NewTab(..) => ScreenContext::NewTab,
        ScreenInstruction::SwitchTabNext => ScreenContext::SwitchTabNext,
        ScreenInstruction::SwitchTabPrev => ScreenContext::SwitchTabPrev,
        ScreenInstruction::CloseTab => ScreenContext::CloseTab,
    }
}

impl<'a> From<&'a ScreenInstruction> for ScreenContext {
    fn from(instruction: &'a ScreenInstruction) -> (r: ScreenContext)
        ensures
            r == screen_context_of(instruction),
    {
        match *instruction {
            ScreenInstruction::Pty(..) => ScreenContext::HandlePtyEvent,
            ScreenInstruction::Render => ScreenContext::Render,
            ScreenInstruction::NewPane(..) => ScreenContext::NewPane,
            ScreenInstruction::HorizontalSplit(..) => ScreenContext::HorizontalSplit,
            ScreenInstruction::VerticalSplit(..) => ScreenContext::VerticalSplit,
            ScreenInstruction::WriteCharacter(..) => ScreenContext::WriteCharacter,
            ScreenInstruction::ResizeLeft => ScreenContext::ResizeLeft,
            ScreenInstruction::ResizeRight => ScreenContext::ResizeRight,
            ScreenInstruction::ResizeDown => ScreenContext::ResizeDown,
            ScreenInstruction::ResizeUp => ScreenContext::ResizeUp,
            ScreenInstruction::MoveFocus => ScreenContext::MoveFocus,
            ScreenInstruction::MoveFocusLeft => ScreenContext::MoveFocusLeft,
            ScreenInstruction::MoveFocusDown => ScreenContext::MoveFocusDown,
            ScreenInstruction::MoveFocusUp => ScreenContext::MoveFocusUp,
            ScreenInstruction::MoveFocusRight => ScreenContext::MoveFocusRight,
            ScreenInstruction::Quit => ScreenContext::Quit,
            ScreenInstruction::ScrollUp => ScreenContext::ScrollUp,
            ScreenInstruction::ScrollDown => ScreenContext::ScrollDown,
            ScreenInstruction::ClearScroll => ScreenContext::ClearScroll,
            ScreenInstruction::CloseFocusedPane => ScreenContext::CloseFocusedPane,
            ScreenInstruction::ToggleActiveTerminalFullscreen => ScreenContext::ToggleActiveTerminalFullscreen,
            ScreenInstruction::SetSelectable(..) => ScreenContext::SetSelectable,
            ScreenInstruction::SetInvisibleBorders(..) => ScreenContext::SetInvisibleBorders,
            ScreenInstruction::SetMaxHeight(..) => ScreenContext::SetMaxHeight,
            ScreenInstruction::ClosePane(..) => ScreenContext::ClosePane,
            ScreenInstruction::ApplyLayout(..) => ScreenContext::ApplyLayout,
            ScreenInstruction::NewTab(..) => ScreenContext::NewTab,
            ScreenInstruction::SwitchTabNext => ScreenContext::SwitchTabNext,
            ScreenInstruction::SwitchTabPrev => ScreenContext::SwitchTabPrev,
            ScreenInstruction::CloseTab => ScreenContext::CloseTab,
        }
    }
}

impl<'a> vstd::std_specs::convert::FromSpecImpl<&'a ScreenInstruction> for ScreenContext {
    open spec fn obeys_from_spec() -> bool {
        true
    }

    open spec fn from_spec(instruction: &'a ScreenInstruction) -> ScreenContext {
        screen_context_of(instruction)
    }
}

/// An instruction sent to the pseudo-terminal manager.
#[derive(Debug, Clone)]
pub enum PtyInstruction {
    /// Start a terminal, running the given command or the default shell.
    SpawnTerminal(Option<String>),
    SpawnTerminalVertically(Option<String>),
    SpawnTerminalHorizontally(Option<String>),
    ClosePane(PaneId),
    CloseTab(Vec<PaneId>),
    NewTab,
    Quit,
}

/// The call site recorded for an instruction of the pseudo-terminal manager: one for each
/// variant, whatever the payload.
pub open spec fn pty_context_of(i: &PtyInstruction) -> PtyContext {
    match *i {
        PtyInstruction::SpawnTerminal(..) => PtyContext::SpawnTerminal,
        PtyInstruction::SpawnTerminalVertically(..) => PtyContext::SpawnTerminalVertically,
        PtyInstruction::SpawnTerminalHorizontally(..) => PtyContext::SpawnTerminalHorizontally,
        PtyInstruction::ClosePane(..) => PtyContext::ClosePane,
        PtyInstruction::CloseTab(..) => PtyContext::CloseTab,
        PtyInstruction::NewTab => PtyContext::NewTab,
        PtyInstruction::Quit => PtyContext::Quit,
    }
}

impl<'a> From<&'a PtyInstruction> for PtyContext {
    fn from(instruction: &'a PtyInstruction) -> (r: PtyContext)
        ensures
            r == pty_context_of(instruction),
    {
        match *instruction {
            PtyInstruction::SpawnTerminal(..) => PtyContext::SpawnTerminal,
            PtyInstruction::SpawnTerminalVertically(..) => PtyContext::SpawnTerminalVertically,
            PtyInstruction::SpawnTerminalHorizontally(..) => PtyContext::SpawnTerminalHorizontally,
            PtyInstruction::ClosePane(..) => PtyContext::ClosePane,
            PtyInstruction::CloseTab(..) => PtyContext::CloseTab,
            PtyInstruction::NewTab => PtyContext::NewTab,
            PtyInstruction::Quit => PtyContext::Quit,
        }
    }
}

impl<'a> vstd::std_specs::convert::FromSpecImpl<&'a PtyInstruction> for PtyContext {
    open spec fn obeys_from_spec() -> bool {
        true
    }

    open spec fn from_spec(instruction: &'a PtyInstruction) -> PtyContext {
        pty_context_of(instruction)
    }
}

/// An instruction sent to the plugin runtime.
#[derive(Debug, Clone)]
pub enum PluginInstruction {
    /// Load the plugin found at the given path.
    Load(String),
    /// Draw a plugin: its id, and the rows and columns it may fill.
    Draw(u32, usize, usize),
    /// Input for one plugin: its id and the bytes.
    Input(u32, Vec<u8>),
    GlobalInput(Vec<u8>),
    Unload(u32),
    Quit,
}

/// The call site recorded for an instruction of the plugin runtime: one for each
/// variant, whatever the payload.
pub open spec fn plugin_context_of(i: &PluginInstruction) -> PluginContext {
    match *i {
        PluginInstruction::Load(..) => PluginContext::Load,
        PluginInstruction::Draw(..) => PluginContext::Draw,
        PluginInstruction::Input(..) => PluginContext::Input,
        PluginInstruction::GlobalInput(..) => PluginContext::GlobalInput,
        PluginInstruction::Unload(..) => PluginContext::Unload,
        PluginInstruction::Quit => PluginContext::Quit,
    }
}

impl<'a> From<&'a PluginInstruction> for PluginContext {
    fn from(instruction: &'a PluginInstruction) -> (r: PluginContext)
        ensures
            r == plugin_context_of(instruction),
    {
        match *instruction {
            PluginInstruction::Load(..) => PluginContext::Load,
            PluginInstruction::Draw(..) => PluginContext::Draw,
            PluginInstruction::Input(..) => PluginContext::Input,
            PluginInstruction::GlobalInput(..) => PluginContext::GlobalInput,
            PluginInstruction::Unload(..) => PluginContext::Unload,
            PluginInstruction::Quit => PluginContext::Quit,
        }
    }
}

impl<'a> vstd::std_specs::convert::FromSpecImpl<&'a PluginInstruction> for PluginContext {
    open spec fn obeys_from_spec() -> bool {
        true
    }

    open spec fn from_spec(instruction: &'a PluginInstruction) -> PluginContext {
        plugin_context_of(instruction)
    }
}

/// An instruction sent to the application supervisor.
#[derive(Debug, Clone)]
pub enum AppInstruction {
    GetState,
    SetState(AppState),
    Exit,
    /// A report of a thread that panicked.
    Error(String),
}

/// The call site recorded for an instruction of the application supervisor: one for each
/// variant, whatever the payload.
pub open spec fn app_context_of(i: &AppInstruction) -> AppContext {
    match *i {
        AppInstruction::GetState => AppContext::GetState,
        AppInstruction::SetState(..) => AppContext::SetState,
        AppInstruction::Exit => AppContext::Exit,
        AppInstruction::Error(..) => AppContext::Error,
    }
}

impl<'a> From<&'a AppInstruction> for AppContext {
    fn from(instruction: &'a AppInstruction) -> (r: AppContext)
        ensures
            r == app_context_of(instruction),
    {
        match *instruction {
            AppInstruction::GetState => AppContext::GetState,
            AppInstruction::SetState(..) => AppContext::SetState,
            AppInstruction::Exit => AppContext::Exit,
            AppInstruction::Error(..) => AppContext::Error,
        }
    }
}

impl<'a> vstd::std_specs::convert::FromSpecImpl<&'a AppInstruction> for AppContext {
    open spec fn obeys_from_spec() -> bool {
        true
    }

    open spec fn from_spec(instruction: &'a AppInstruction) -> AppContext {
        app_context_of(instruction)
    }
}

/// Every call site of the screen renderer is recorded for one of its instructions.
pub proof fn lemma_screen_context_covered(c: ScreenContext)
    ensures
        exists|i: ScreenInstruction| #[trigger] screen_context_of(&i) == c,
{
    match c {
        ScreenContext::HandlePtyEvent => {
            let i = ScreenInstruction::Pty(arbitrary(), arbitrary());
            assert(screen_context_of(&i) == c);
        },
        ScreenContext::Render => {
            let i = ScreenInstruction::Render;
            assert(screen_context_of(&i) == c);
        },
        ScreenContext::NewPane => {
            let i = ScreenInstruction::NewPane(arbitrary());
            assert(screen_context_of(&i) == c);
        },
        ScreenContext::HorizontalSplit => {
            let i = ScreenInstruction::HorizontalSplit(arbitrary());
            assert(screen_context_of(&i) == c);
        },
        ScreenContext::VerticalSplit => {
            let i = ScreenInstruction::VerticalSplit(arbitrary());
            assert(screen_context_of(&i) == c);
        },
        ScreenContext::WriteCharacter => {
            let i = ScreenInstruction::WriteCharacter(arbitrary());
            assert(screen_context_of(&i) == c);
        },
        ScreenContext::ResizeLeft => {
            let i = ScreenInstruction::ResizeLeft;
            assert(screen_context_of(&i) == c);
        },
        ScreenContext::ResizeRight => {
            let i = ScreenInstruction::ResizeRight;
            assert(screen_context_of(&i) == c);
        },
        ScreenContext::ResizeDown => {
            let i = ScreenInstruction::ResizeDown;
            assert(screen_context_of(&i) == c);
        },
        ScreenContext::ResizeUp => {
            let i = ScreenInstruction::ResizeUp;
            assert(screen_context_of(&i) == c);
        },
        ScreenContext::MoveFocus => {
            let i = ScreenInstruction::MoveFocus;
            assert(screen_context_of(&i) == c);
        },
        ScreenContext::MoveFocusLeft => {
            let i = ScreenInstruction::MoveFocusLeft;
            assert(screen_context_of(&i) == c);
        },
        ScreenContext::MoveFocusDown => {
            let i = ScreenInstruction::MoveFocusDown;
            assert(screen_context_of(&i) == c);
        },
        ScreenContext::MoveFocusUp => {
            let i = ScreenInstruction::MoveFocusUp;
            assert(screen_context_of(&i) == c);
        },
        ScreenContext::MoveFocusRight => {
            let i = ScreenInstruction::MoveFocusRight;
            assert(screen_context_of(&i) == c);
        },
        ScreenContext::Quit => {
            let i = ScreenInstruction::Quit;
            assert(screen_context_of(&i) == c);
        },
        ScreenContext::ScrollUp => {
            let i = ScreenInstruction::ScrollUp;
            assert(screen_context_of(&i) == c);
        },
        ScreenContext::ScrollDown => {
            let i = ScreenInstruction::ScrollDown;
            assert(screen_context_of(&i) == c);
        },
        ScreenContext::ClearScroll => {
            let i = ScreenInstruction::ClearScroll;
            assert(screen_context_of(&i) == c);
        },
        ScreenContext::CloseFocusedPane => {
            let i = ScreenInstruction::CloseFocusedPane;
            assert(screen_context_of(&i) == c);
        },
        ScreenContext::ToggleActiveTerminalFullscreen => {
            let i = ScreenInstruction::ToggleActiveTerminalFullscreen;
            assert(screen_context_of(&i) == c);
        },
        ScreenContext::SetSelectable => {
            let i = ScreenInstruction::SetSelectable(arbitrary(), arbitrary());
            assert(screen_context_of(&i) == c);
        },
        ScreenContext::SetInvisibleBorders => {
            let i = ScreenInstruction::SetInvisibleBorders(arbitrary(), arbitrary());
            assert(screen_context_of(&i) == c);
        },
        ScreenContext::SetMaxHeight => {
            let i = ScreenInstruction::SetMaxHeight(arbitrary(), arbitrary());
            assert(screen_context_of(&i) == c);
        },
        ScreenContext::ClosePane => {
            let i = ScreenInstruction::ClosePane(arbitrary());
            assert(screen_context_of(&i) == c);
        },
        ScreenContext::ApplyLayout => {
            let i = ScreenInstruction::ApplyLayout(arbitrary());
            assert(screen_context_of(&i) == c);
        },
        ScreenContext::NewTab => {
            let i = ScreenInstruction::NewTab(arbitrary());
            assert(screen_context_of(&i) == c);
        },
        ScreenContext::SwitchTabNext => {
            let i = ScreenInstruction::SwitchTabNext;
            assert(screen_context_of(&i) == c);
        },
        ScreenContext::SwitchTabPrev => {
            let i = ScreenInstruction::SwitchTabPrev;
            assert(screen_context_of(&i) == c);
        },
        ScreenContext::CloseTab => {
            let i = ScreenInstruction::CloseTab;
            assert(screen_context_of(&i) == c);
        },
    }
}

/// Every call site of the pseudo-terminal manager is recorded for one of its instructions.
pub proof fn lemma_pty_context_covered(c: PtyContext)
    ensures
        exists|i: PtyInstruction| #[trigger] pty_context_of(&i) == c,
{
    match c {
        PtyContext::SpawnTerminal => {
            let i = PtyInstruction::SpawnTerminal(arbitrary());
            assert(pty_context_of(&i) == c);
        },
        PtyContext::SpawnTerminalVertically => {
            let i = PtyInstruction::SpawnTerminalVertically(arbitrary());
            assert(pty_context_of(&i) == c);
        },
        PtyContext::SpawnTerminalHorizontally => {
            let i = PtyInstruction::SpawnTerminalHorizontally(arbitrary());
            assert(pty_context_of(&i) == c);
        },
        PtyContext::ClosePane => {
            let i = PtyInstruction::ClosePane(arbitrary());
            assert(pty_context_of(&i) == c);
        },
        PtyContext::CloseTab => {
            let i = PtyInstruction::CloseTab(arbitrary());
            assert(pty_context_of(&i) == c);
        },
        PtyContext::NewTab => {
            let i = PtyInstruction::NewTab;
            assert(pty_context_of(&i) == c);
        },
        PtyContext::Quit => {
            let i = PtyInstruction::Quit;
            assert(pty_context_of(&i) == c);
        },
    }
}

/// Every call site of the plugin runtime is recorded for one of its instructions.
pub proof fn lemma_plugin_context_covered(c: PluginContext)
    ensures
        exists|i: PluginInstruction| #[trigger] plugin_context_of(&i) == c,
{
    match c {
        PluginContext::Load => {
            let i = PluginInstruction::Load(arbitrary());
            assert(plugin_context_of(&i) == c);
        },
        PluginContext::Draw => {
            let i = PluginInstruction::Draw(arbitrary(), arbitrary(), arbitrary());
            assert(plugin_context_of(&i) == c);
        },
        PluginContext::Input => {
            let i = PluginInstruction::Input(arbitrary(), arbitrary());
            assert(plugin_context_of(&i) == c);
        },
        PluginContext::GlobalInput => {
            let i = PluginInstruction::GlobalInput(arbitrary());
            assert(plugin_context_of(&i) == c);
        },
        PluginContext::Unload => {
            let i = PluginInstruction::Unload(arbitrary());
            assert(plugin_context_of(&i) == c);
        },
        PluginContext::Quit => {
            let i = PluginInstruction::Quit;
            assert(plugin_context_of(&i) == c);
        },
    }
}

/// Every call site of the application supervisor is recorded for one of its instructions.
pub proof fn lemma_app_context_covered(c: AppContext)
    ensures
        exists|i: AppInstruction| #[trigger] app_context_of(&i) == c,
{
    match c {
        AppContext::GetState => {
            let i = AppInstruction::GetState;
            assert(app_context_of(&i) == c);
        },
        AppContext::SetState => {
            let i = AppInstruction::SetState(arbitrary());
            assert(app_context_of(&i) == c);
        },
        AppContext::Exit => {
            let i = AppInstruction::Exit;
            assert(app_context_of(&i) == c);
        },
        AppContext::Error => {
            let i = AppInstruction::Error(arbitrary());
            assert(app_context_of(&i) == c);
        },
    }
}
} // verus!
