//! The call sites of each subsystem: one tag for each instruction it handles.
use vstd::prelude::*;

verus! {

/// A call site of the screen renderer: which of its instructions a thread was handling.
#[derive(Debug, Clone, Copy, PartialEq, Eq, Structural)]
pub enum ScreenContext {
    HandlePtyEvent,
    Render,
    NewPane,
    HorizontalSplit,
    VerticalSplit,
    WriteCharacter,
    ResizeLeft,
    ResizeRight,
    ResizeDown,
    ResizeUp,
    MoveFocus,
    MoveFocusLeft,
    MoveFocusDown,
    MoveFocusUp,
    MoveFocusRight,
    Quit,
    ScrollUp,
    ScrollDown,
    ClearScroll,
    CloseFocusedPane,
    ToggleActiveTerminalFullscreen,
    SetSelectable,
    SetInvisibleBorders,
    SetMaxHeight,
    ClosePane,
    ApplyLayout,
    NewTab,
    SwitchTabNext,
    SwitchTabPrev,
    CloseTab,
}

impl ScreenContext {
    /// The name under which the call site is reported.
    pub open spec fn label_spec(self) -> Seq<char> {
        match self {
            ScreenContext::HandlePtyEvent => "HandlePtyEvent"@,
            ScreenContext::Render => "Render"@,
            ScreenContext::NewPane => "NewPane"@,
            ScreenContext::HorizontalSplit => "HorizontalSplit"@,
            ScreenContext::VerticalSplit => "VerticalSplit"@,
            ScreenContext::WriteCharacter => "WriteCharacter"@,
            ScreenContext::ResizeLeft => "ResizeLeft"@,
            ScreenContext::ResizeRight => "ResizeRight"@,
            ScreenContext::ResizeDown => "ResizeDown"@,
            ScreenContext::ResizeUp => "ResizeUp"@,
            ScreenContext::MoveFocus => "MoveFocus"@,
            ScreenContext::MoveFocusLeft => "MoveFocusLeft"@,
            ScreenContext::MoveFocusDown => "MoveFocusDown"@,
            ScreenContext::MoveFocusUp => "MoveFocusUp"@,
            ScreenContext::MoveFocusRight => "MoveFocusRight"@,
            ScreenContext::Quit => "Quit"@,
            ScreenContext::ScrollUp => "ScrollUp"@,
            ScreenContext::ScrollDown => "ScrollDown"@,
            ScreenContext::ClearScroll => "ClearScroll"@,
            ScreenContext::CloseFocusedPane => "CloseFocusedPane"@,
            ScreenContext::ToggleActiveTerminalFullscreen => "ToggleActiveTerminalFullscreen"@,
            ScreenContext::SetSelectable => "SetSelectable"@,
            ScreenContext::SetInvisibleBorders => "SetInvisibleBorders"@,
            ScreenContext::SetMaxHeight => "SetMaxHeight"@,
            ScreenContext::ClosePane => "ClosePane"@,
            ScreenContext::ApplyLayout => "ApplyLayout"@,
            ScreenContext::NewTab => "NewTab"@,
            ScreenContext::SwitchTabNext => "SwitchTabNext"@,
            ScreenContext::SwitchTabPrev => "SwitchTabPrev"@,
            ScreenContext::CloseTab => "CloseTab"@,
        }
    }

    /// The name under which the call site is reported.
    pub fn label(&self) -> (r: &'static str)
        ensures
            r@ == self.label_spec(),
    {
        match self {
            ScreenContext::HandlePtyEvent => "HandlePtyEvent",
            ScreenContext::Render => "Render",
            ScreenContext::NewPane => "NewPane",
            ScreenContext::HorizontalSplit => "HorizontalSplit",
            ScreenContext::VerticalSplit => "VerticalSplit",
            ScreenContext::WriteCharacter => "WriteCharacter",
            ScreenContext::ResizeLeft => "ResizeLeft",
            ScreenContext::ResizeRight => "ResizeRight",
            ScreenContext::ResizeDown => "ResizeDown",
            ScreenContext::ResizeUp => "ResizeUp",
            ScreenContext::MoveFocus => "MoveFocus",
            ScreenContext::MoveFocusLeft => "MoveFocusLeft",
            ScreenContext::MoveFocusDown => "MoveFocusDown",
            ScreenContext::MoveFocusUp => "MoveFocusUp",
            ScreenContext::MoveFocusRight => "MoveFocusRight",
            ScreenContext::Quit => "Quit",
            ScreenContext::ScrollUp => "ScrollUp",
            ScreenContext::ScrollDown => "ScrollDown",
            ScreenContext::ClearScroll => "ClearScroll",
            ScreenContext::CloseFocusedPane => "CloseFocusedPane",
            ScreenContext::ToggleActiveTerminalFullscreen => "ToggleActiveTerminalFullscreen",
            ScreenContext::SetSelectable => "SetSelectable",
            ScreenContext::SetInvisibleBorders => "SetInvisibleBorders",
            ScreenContext::SetMaxHeight => "SetMaxHeight",
            ScreenContext::ClosePane => "ClosePane",
            ScreenContext::ApplyLayout => "ApplyLayout",
            ScreenContext::NewTab => "NewTab",
            ScreenContext::SwitchTabNext => "SwitchTabNext",
            ScreenContext::SwitchTabPrev => "SwitchTabPrev",
            ScreenContext::CloseTab => "CloseTab",
        }
    }
}

/// A call site of the pseudo-terminal manager: which of its instructions a thread was handling.
#[derive(Debug, Clone, Copy, PartialEq, Eq, Structural)]
pub enum PtyContext {
    SpawnTerminal,
    SpawnTerminalVertically,
    SpawnTerminalHorizontally,
    NewTab,
    ClosePane,
    CloseTab,
    Quit,
}

impl PtyContext {
    /// The name under which the call site is reported.
    pub open spec fn label_spec(self) -> Seq<char> {
        match self {
            PtyContext::SpawnTerminal => "SpawnTerminal"@,
            PtyContext::SpawnTerminalVertically => "SpawnTerminalVertically"@,
            PtyContext::SpawnTerminalHorizontally => "SpawnTerminalHorizontally"@,
            PtyContext::NewTab => "NewTab"@,
            PtyContext::ClosePane => "ClosePane"@,
            PtyContext::CloseTab => "CloseTab"@,
            PtyContext::Quit => "Quit"@,
        }
    }

    /// The name under which the call site is reported.
    pub fn label(&self) -> (r: &'static str)
        ensures
            r@ == self.label_spec(),
    {
        match self {
            PtyContext::SpawnTerminal => "SpawnTerminal",
            PtyContext::SpawnTerminalVertically => "SpawnTerminalVertically",
            PtyContext::SpawnTerminalHorizontally => "SpawnTerminalHorizontally",
            PtyContext::NewTab => "NewTab",
            PtyContext::ClosePane => "ClosePane",
            PtyContext::CloseTab => "CloseTab",
            PtyContext::Quit => "Quit",
        }
    }
}

/// A call site of the plugin runtime: which of its instructions a thread was handling.
#[derive(Debug, Clone, Copy, PartialEq, Eq, Structural)]
pub enum PluginContext {
    Load,
    Draw,
    Input,
    GlobalInput,
    Unload,
    Quit,
}

impl PluginContext {
    /// The name under which the call site is reported.
    pub open spec fn label_spec(self) -> Seq<char> {
        match self {
            PluginContext::Load => "Load"@,
            PluginContext::Draw => "Draw"@,
            PluginContext::Input => "Input"@,
            PluginContext::GlobalInput => "GlobalInput"@,
            PluginContext::Unload => "Unload"@,
            PluginContext::Quit => "Quit"@,
        }
    }

    /// The name under which the call site is reported.
    pub fn label(&self) -> (r: &'static str)
        ensures
            r@ == self.label_spec(),
    {
        match self {
            PluginContext::Load => "Load",
            PluginContext::Draw => "Draw",
            PluginContext::Input => "Input",
            PluginContext::GlobalInput => "GlobalInput",
            PluginContext::Unload => "Unload",
            PluginContext::Quit => "Quit",
        }
    }
}

/// A call site of the application supervisor: which of its instructions a thread was handling.
#[derive(Debug, Clone, Copy, PartialEq, Eq, Structural)]
pub enum AppContext {
    GetState,
    SetState,
    Exit,
    Error,
}

impl AppContext {
    /// The name under which the call site is reported.
    pub open spec fn label_spec(self) -> Seq<char> {
        match self {
            AppContext::GetState => "GetState"@,
            AppContext::SetState => "SetState"@,
            AppContext::Exit => "Exit"@,
            AppContext::Error => "Error"@,
        }
    }

    /// The name under which the call site is reported.
    pub fn label(&self) -> (r: &'static str)
        ensures
            r@ == self.label_spec(),
    {
        match self {
            AppContext::GetState => "GetState",
            AppContext::SetState => "SetState",
            AppContext::Exit => "Exit",
            AppContext::Error => "Error",
        }
    }
}

} // verus!
