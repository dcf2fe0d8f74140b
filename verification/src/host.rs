//! The host as the controller sees it: what it reports, as plain values, and
//! what it can be told to do.

use vstd::prelude::*;

verus! {

/// Identity of a host surface: a terminal pane or a plugin pane, each kind
/// numbered in a space of its own.
#[derive(Clone, Copy, Debug, PartialEq, Eq, Structural)]
pub enum PaneId {
    Terminal(u32),
    Plugin(u32),
}

/// The input modes of the host. A key binding belongs to one of them.
#[derive(Clone, Copy, Debug, PartialEq, Eq, Structural)]
pub enum InputMode {
    Normal,
    Locked,
    Resize,
    Pane,
    Tab,
    Scroll,
    EnterSearch,
    Search,
    RenameTab,
    RenamePane,
    Session,
    Move,
    Prompt,
    Tmux,
}

impl InputMode {
    /// The name of the mode in a configuration: its own name in lower case.
    pub open spec fn spec_name(self) -> Seq<char> {
        match self {
            InputMode::Normal => "normal"@,
            InputMode::Locked => "locked"@,
            InputMode::Resize => "resize"@,
            InputMode::Pane => "pane"@,
            InputMode::Tab => "tab"@,
            InputMode::Scroll => "scroll"@,
            InputMode::EnterSearch => "entersearch"@,
            InputMode::Search => "search"@,
            InputMode::RenameTab => "renametab"@,
            InputMode::RenamePane => "renamepane"@,
            InputMode::Session => "session"@,
            InputMode::Move => "move"@,
            InputMode::Prompt => "prompt"@,
            InputMode::Tmux => "tmux"@,
        }
    }

    /// The name of the mode in a configuration.
    pub fn name(self) -> (name: &'static str)
        ensures
            name@ == self.spec_name(),
    {
        match self {
            InputMode::Normal => "normal",
            InputMode::Locked => "locked",
            InputMode::Resize => "resize",
            InputMode::Pane => "pane",
            InputMode::Tab => "tab",
            InputMode::Scroll => "scroll",
            InputMode::EnterSearch => "entersearch",
            InputMode::Search => "search",
            InputMode::RenameTab => "renametab",
            InputMode::RenamePane => "renamepane",
            InputMode::Session => "session",
            InputMode::Move => "move",
            InputMode::Prompt => "prompt",
            InputMode::Tmux => "tmux",
        }
    }
}

/// One tab of the host's inventory.
#[derive(Clone, Copy, Debug, PartialEq, Eq, Structural)]
pub struct TabInfo {
    /// Where the tab stands among the tabs, counted from 0.
    pub position: usize,
    /// Whether the tab is the one in focus.
    pub active: bool,
}

/// One pane of the host's inventory.
#[derive(Clone, Debug, PartialEq, Eq)]
pub struct PaneInfo {
    /// The position of the tab that holds the pane.
    pub tab_index: usize,
    /// The number of the pane among the panes of its kind.
    pub id: u32,
    /// Whether the pane hosts a plugin; otherwise it is a terminal.
    pub is_plugin: bool,
    /// The address from which the pane's plugin was loaded, if it declares one.
    pub plugin_url: Option<String>,
}

/// A pane as contracts speak of it.
pub struct PaneInfoView {
    pub tab_index: usize,
    pub id: u32,
    pub is_plugin: bool,
    pub plugin_url: Option<Seq<char>>,
}

/// What an optional string holds.
pub open spec fn text_of(text: Option<String>) -> Option<Seq<char>> {
    match text {
        Some(t) => Some(t@),
        None => None,
    }
}

impl View for PaneInfo {
    type V = PaneInfoView;

    open spec fn view(&self) -> PaneInfoView {
        PaneInfoView {
            tab_index: self.tab_index,
            id: self.id,
            is_plugin: self.is_plugin,
            plugin_url: text_of(self.plugin_url),
        }
    }
}

/// The panes of all tabs, in the order in which the host listed them.
#[derive(Clone, Debug, PartialEq, Eq)]
pub struct PaneManifest {
    pub panes: Vec<PaneInfo>,
}

impl View for PaneManifest {
    type V = Seq<PaneInfoView>;

    open spec fn view(&self) -> Seq<PaneInfoView> {
        Seq::new(self.panes@.len(), |i: int| self.panes@[i]@)
    }
}

impl PaneManifest {
    /// An inventory without panes.
    pub fn new() -> (manifest: PaneManifest)
        ensures
            manifest@ == Seq::<PaneInfoView>::empty(),
    {
        let manifest = PaneManifest { panes: Vec::new() };
        assert(manifest@ =~= Seq::<PaneInfoView>::empty());
        manifest
    }
}

/// Whether `text` reads `wanted`.
pub fn reads(text: &String, wanted: &str) -> (same: bool)
    ensures
        same == (text@ == wanted@),
{
    *text == String::from_str(wanted)
}

/// A key as the user pressed it.
#[derive(Clone, Copy, Debug, PartialEq, Eq, Structural)]
pub struct KeyPress {
    /// The character of the key, where it is a character key.
    pub character: Option<char>,
    /// Whether Ctrl was held.
    pub ctrl: bool,
    /// Whether Alt was held.
    pub alt: bool,
    /// Whether Shift was held.
    pub shift: bool,
    /// Whether Super was held.
    pub super_key: bool,
}

impl KeyPress {
    /// Whether the key asks for another directory: `f` with Ctrl held,
    /// whatever else is held with it.
    pub open spec fn spec_asks_for_directory(self) -> bool {
        self.character == Some('f') && self.ctrl
    }

    /// Whether the key asks for another directory.
    #[verifier::when_used_as_spec(spec_asks_for_directory)]
    pub fn asks_for_directory(self) -> (asks: bool)
        ensures
            asks == self.spec_asks_for_directory(),
    {
        match self.character {
            Some(c) => c == 'f' && self.ctrl,
            None => false,
        }
    }
}

/// What the host reports.
#[derive(Clone, Debug, PartialEq, Eq)]
pub enum Event {
    /// The user answered the request for permissions.
    PermissionRequestResult,
    /// The panes changed; this is the new inventory.
    PaneUpdate(PaneManifest),
    /// The tabs changed; this is the new inventory.
    TabUpdate(Vec<TabInfo>),
    /// A key was pressed in the controller's pane.
    Key(KeyPress),
    /// The input mode changed; this is the mode that bindings go by, where
    /// the host names one.
    ModeUpdate(Option<InputMode>),
    /// A command pane opened.
    CommandPaneOpened(u32),
    /// The command of a command pane exited, with a code where it gave one.
    CommandPaneExited(u32, Option<i32>),
    /// A pane was closed.
    PaneClosed(PaneId),
    /// Anything else.
    Other,
}

/// An event as contracts speak of it.
pub enum EventView {
    PermissionRequestResult,
    PaneUpdate(Seq<PaneInfoView>),
    TabUpdate(Seq<TabInfo>),
    Key(KeyPress),
    ModeUpdate(Option<InputMode>),
    CommandPaneOpened(u32),
    CommandPaneExited(u32, Option<i32>),
    PaneClosed(PaneId),
    Other,
}

impl View for Event {
    type V = EventView;

    open spec fn view(&self) -> EventView {
        match *self {
            Event::PermissionRequestResult => EventView::PermissionRequestResult,
            Event::PaneUpdate(manifest) => EventView::PaneUpdate(manifest@),
            Event::TabUpdate(tabs) => EventView::TabUpdate(tabs@),
            Event::Key(key) => EventView::Key(key),
            Event::ModeUpdate(mode) => EventView::ModeUpdate(mode),
            Event::CommandPaneOpened(pane) => EventView::CommandPaneOpened(pane),
            Event::CommandPaneExited(pane, code) => EventView::CommandPaneExited(pane, code),
            Event::PaneClosed(pane) => EventView::PaneClosed(pane),
            Event::Other => EventView::Other,
        }
    }
}

/// A message that reached the controller through a pipe.
#[derive(Clone, Debug, PartialEq, Eq)]
pub struct PipeMessage {
    /// The name of the message.
    pub name: String,
    /// Whether the message was addressed to the controller alone.
    pub is_private: bool,
    /// What the message carries, if anything.
    pub payload: Option<String>,
    /// The argument `request_id` of the message, where it has one.
    pub request_id: Option<String>,
}

/// A message as contracts speak of it.
pub struct PipeMessageView {
    pub name: Seq<char>,
    pub is_private: bool,
    pub payload: Option<Seq<char>>,
    pub request_id: Option<Seq<char>>,
}

impl View for PipeMessage {
    type V = PipeMessageView;

    open spec fn view(&self) -> PipeMessageView {
        PipeMessageView {
            name: self.name@,
            is_private: self.is_private,
            payload: text_of(self.payload),
            request_id: text_of(self.request_id),
        }
    }
}

} // verus!
