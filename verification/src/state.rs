//! The controller: one build, one workspace, and the requests that wait for
//! a directory. It takes what the host reports, hands it to the part it
//! concerns, and returns what is to be asked of the host.

use vstd::prelude::*;
use crate::host::{
    reads, text_of, Event, EventView, PaneId, PaneInfoView, PipeMessage, PipeMessageView,
};
use crate::instruction::{
    append_instructions, instructions_of, no_instructions, push_instruction, Diagnostic,
    Instruction, InstructionView,
};
use crate::panel::{lines_of, panel, panel_lines, PanelLine};
use crate::path_resolver::{artifact_locator, plugin_name, plugin_url, target_name};
use crate::request_correlator::{after_answer, is_expected, is_request_token, RequestCorrelator};
use crate::run_and_reload::{LifecycleView, RunAndReload};
use crate::shortcut::{parsed_key_text, Shortcut};
use crate::update_workspace::{UpdateWorkspace, WorkspaceView};

verus! {

/// The controller as contracts speak of it.
pub struct StateView {
    /// The build.
    pub lifecycle: LifecycleView,
    /// The shortcut and the panes.
    pub workspace: WorkspaceView,
    /// The tokens of the requests for a directory that wait for an answer.
    pub pending: Seq<Seq<char>>,
}

/// What the controller asks of the host, and whether its panel is to be
/// drawn anew.
#[derive(Debug, PartialEq, Eq)]
pub struct Reaction {
    pub instructions: Vec<Instruction>,
    pub should_render: bool,
}

/// The request for a directory that carries `token`.
pub open spec fn directory_request(token: Seq<char>) -> InstructionView {
    InstructionView::MessagePlugin {
        name: "filepicker"@,
        plugin_url: "filepicker"@,
        plugin_config: seq![("request_id"@, token)],
        message_args: seq![("request_id"@, token)],
        pane_title: "Select a a folder in which to develop your Zellij plugin..."@,
    }
}

/// The instruction that gives the controller's own pane `id` its title.
pub open spec fn own_title(id: u32) -> InstructionView {
    InstructionView::RenamePane { pane: PaneId::Plugin(id), name: "Develop Zellij Plugin"@ }
}

impl StateView {
    /// The controller before it has heard from the host.
    pub open spec fn initial() -> StateView {
        StateView {
            lifecycle: LifecycleView::initial(),
            workspace: WorkspaceView::initial("Ctrl Shift r"@),
            pending: Seq::empty(),
        }
    }

    /// The address of the plugin that the chosen directory builds.
    pub open spec fn plugin_url(self) -> Option<Seq<char>> {
        match self.lifecycle.cwd {
            Some(cwd) => artifact_locator(cwd),
            None => None,
        }
    }

    /// The name of the plugin that the chosen directory builds.
    pub open spec fn plugin_name(self) -> Option<Seq<char>> {
        match self.lifecycle.cwd {
            Some(cwd) => target_name(cwd),
            None => None,
        }
    }

    /// The controller after it was told who it is and where it starts.
    /// `shortcut` is what was read out of the configured shortcut, where one
    /// was configured and understood. Without a directory to start in, the
    /// directory stays to be chosen.
    pub open spec fn after_load(
        self,
        shortcut: Option<Seq<char>>,
        plugin_id: u32,
        cwd: Option<Seq<char>>,
    ) -> StateView {
        StateView {
            lifecycle: match cwd {
                Some(cwd) => LifecycleView { cwd: Some(cwd), ..self.lifecycle },
                None => self.lifecycle,
            },
            workspace: self.workspace.with_shortcut(shortcut).with_own_plugin_id(plugin_id),
            ..self
        }
    }

    /// The workspace after new panes were reported: the shortcut is bound
    /// where due, then the plugin's pane looked for, then given its title.
    pub open spec fn workspace_after_panes(self, panes: Seq<PaneInfoView>) -> WorkspaceView {
        self.workspace.with_pane_manifest(panes).after_bind().with_plugin_pane(
            self.plugin_url(),
        ).after_rename(self.plugin_name())
    }

    /// What new panes ask of the host.
    pub open spec fn panes_instructions(self, panes: Seq<PaneInfoView>) -> Seq<InstructionView> {
        self.workspace.with_pane_manifest(panes).bind_instructions()
            + self.workspace.with_pane_manifest(panes).after_bind().with_plugin_pane(
            self.plugin_url(),
        ).rename_instructions(self.plugin_name())
    }

    /// The controller after the event. `token` is the token made for the
    /// request, where the event has one sent.
    pub open spec fn after_update(self, event: EventView, token: Seq<char>) -> StateView {
        match event {
            EventView::PaneUpdate(panes) => StateView {
                workspace: self.workspace_after_panes(panes),
                ..self
            },
            EventView::TabUpdate(tabs) => StateView {
                workspace: self.workspace.with_tab_infos(tabs).after_bind(),
                ..self
            },
            EventView::Key(key) => if key.asks_for_directory() {
                StateView { pending: self.pending.push(token), ..self }
            } else {
                self
            },
            EventView::ModeUpdate(Some(mode)) => StateView {
                workspace: self.workspace.with_base_mode(mode).after_bind(),
                ..self
            },
            EventView::CommandPaneOpened(pane) => StateView {
                lifecycle: LifecycleView { compilation_pane_id: Some(pane), ..self.lifecycle },
                ..self
            },
            EventView::PaneClosed(pane) => StateView {
                lifecycle: self.lifecycle.after_close(pane),
                ..self
            },
            _ => self,
        }
    }

    /// What the event asks of the host.
    pub open spec fn update_instructions(self, event: EventView, token: Seq<char>) -> Seq<
        InstructionView,
    > {
        match event {
            EventView::PermissionRequestResult => match self.workspace.own_plugin_id {
                Some(id) => seq![own_title(id)],
                None => Seq::empty(),
            },
            EventView::PaneUpdate(panes) => self.panes_instructions(panes),
            EventView::TabUpdate(tabs) => self.workspace.with_tab_infos(tabs).bind_instructions(),
            EventView::Key(key) => if key.asks_for_directory() {
                seq![directory_request(token)]
            } else {
                Seq::empty()
            },
            EventView::ModeUpdate(Some(mode)) => self.workspace.with_base_mode(
                mode,
            ).bind_instructions(),
            EventView::CommandPaneExited(pane, code) => self.lifecycle.exit_instructions(
                code,
                pane,
            ),
            EventView::PaneClosed(pane) => self.workspace.close_instructions(pane),
            _ => Seq::empty(),
        }
    }

    /// Whether the answer `message` is one to a request that waits.
    pub open spec fn accepts(self, message: PipeMessageView) -> bool {
        &&& message.payload is Some
        &&& message.request_id is Some
        &&& is_expected(self.pending, message.request_id->0)
    }

    /// The controller after the directory picker answered: the directory of
    /// an expected answer is the one to build in from now on.
    pub open spec fn after_filepicker_result(self, message: PipeMessageView) -> StateView {
        if self.accepts(message) {
            StateView {
                lifecycle: LifecycleView { cwd: message.payload, ..self.lifecycle },
                pending: after_answer(self.pending, message.request_id->0),
                ..self
            }
        } else {
            self
        }
    }

    /// What an answer of the directory picker asks of the host: a line on the
    /// console where it answers no request that waits.
    pub open spec fn filepicker_instructions(self, message: PipeMessageView) -> Seq<
        InstructionView,
    > {
        if message.payload is Some && message.request_id is Some && !self.accepts(message) {
            seq![InstructionView::Report { diagnostic: Diagnostic::UnmatchedResponse }]
        } else {
            Seq::empty()
        }
    }

    /// Whether `message` asks for a build.
    pub open spec fn is_recompile(message: PipeMessageView) -> bool {
        message.is_private && message.name == "recompile"@
    }

    /// Whether `message` is an answer of the directory picker.
    pub open spec fn is_filepicker_result(message: PipeMessageView) -> bool {
        message.name == "filepicker_result"@
    }

    /// The controller after a message.
    pub open spec fn after_pipe(self, message: PipeMessageView) -> StateView {
        if Self::is_filepicker_result(message) {
            self.after_filepicker_result(message)
        } else {
            self
        }
    }

    /// What a message asks of the host.
    pub open spec fn pipe_instructions(self, message: PipeMessageView) -> Seq<InstructionView> {
        if Self::is_recompile(message) {
            self.lifecycle.run_instructions()
        } else if Self::is_filepicker_result(message) {
            self.filepicker_instructions(message)
        } else {
            Seq::empty()
        }
    }

    /// Whether the panel is to be drawn anew after a message.
    pub open spec fn pipe_renders(self, message: PipeMessageView) -> bool {
        Self::is_filepicker_result(message) && self.accepts(message)
    }
}

/// Whether the panel is to be drawn anew after the event.
pub open spec fn update_renders(event: EventView) -> bool {
    event is CommandPaneOpened
}

/// The request for a directory that carries `token`.
pub fn filepicker_request(token: String) -> (request: Instruction)
    ensures
        request@ == directory_request(token@),
{
    let mut plugin_config: Vec<(String, String)> = Vec::new();
    plugin_config.push((String::from_str("request_id"), token.clone()));
    let mut message_args: Vec<(String, String)> = Vec::new();
    message_args.push((String::from_str("request_id"), token));
    let request = Instruction::MessagePlugin {
        name: String::from_str("filepicker"),
        plugin_url: String::from_str("filepicker"),
        plugin_config,
        message_args,
        pane_title: String::from_str("Select a a folder in which to develop your Zellij plugin..."),
    };
    assert(crate::instruction::pairs_of(plugin_config@) =~= seq![("request_id"@, token@)]);
    assert(crate::instruction::pairs_of(message_args@) =~= seq![("request_id"@, token@)]);
    request
}

/// The controller.
#[derive(Debug)]
pub struct State {
    run_and_reload: RunAndReload,
    update_workspace: UpdateWorkspace,
    filepicker_request_ids: RequestCorrelator,
}

impl View for State {
    type V = StateView;

    closed spec fn view(&self) -> StateView {
        StateView {
            lifecycle: self.run_and_reload@,
            workspace: self.update_workspace@,
            pending: self.filepicker_request_ids@,
        }
    }
}

impl Default for State {
    fn default() -> (state: State)
        ensures
            state@ == StateView::initial(),
    {
        State {
            run_and_reload: RunAndReload::default(),
            update_workspace: UpdateWorkspace::new(Shortcut::ctrl_shift_r()),
            filepicker_request_ids: RequestCorrelator::new(),
        }
    }
}

impl State {
    /// Tells the controller its own pane, the directory it starts in, where
    /// the host's directory can be held as text, and the shortcut that the
    /// configuration asks for, where it asks for one. A shortcut that the
    /// host does not understand leaves the usual one.
    pub fn load(
        &mut self,
        reload_shortcut: Option<String>,
        plugin_id: u32,
        initial_cwd: Option<String>,
    )
        ensures
            final(self)@ == old(self)@.after_load(
                match reload_shortcut {
                    Some(spec) => parsed_key_text(spec@),
                    None => None,
                },
                plugin_id,
                text_of(initial_cwd),
            ),
    {
        if let Some(reload_shortcut) = reload_shortcut {
            self.update_workspace.update_reload_shortcut(reload_shortcut.as_str());
        }
        self.update_workspace.update_own_plugin_id(plugin_id);
        if let Some(initial_cwd) = initial_cwd {
            self.run_and_reload.update_cwd(initial_cwd);
        }
    }

    /// Takes a message: a private `recompile` starts a build, a
    /// `filepicker_result` is an answer of the directory picker.
    pub fn pipe(&mut self, pipe_message: PipeMessage) -> (reaction: Reaction)
        ensures
            final(self)@ == old(self)@.after_pipe(pipe_message@),
            instructions_of(reaction.instructions@) == old(self)@.pipe_instructions(
                pipe_message@,
            ),
            reaction.should_render == old(self)@.pipe_renders(pipe_message@),
    {
        proof {
            reveal_strlit("recompile");
            reveal_strlit("filepicker_result");
            assert("recompile"@.len() != "filepicker_result"@.len());
        }
        if pipe_message.is_private && reads(&pipe_message.name, "recompile") {
            Reaction { instructions: self.run_and_reload.run_compilation(), should_render: false }
        } else if reads(&pipe_message.name, "filepicker_result") {
            self.handle_filepicker_result(pipe_message)
        } else {
            Reaction { instructions: no_instructions(), should_render: false }
        }
    }

    /// Takes an event of the host.
    pub fn update(&mut self, event: Event) -> (reaction: Reaction)
        ensures
            final(self)@ == old(self)@.after_update(event@, final(self)@.pending.last()),
            instructions_of(reaction.instructions@) == old(self)@.update_instructions(
                event@,
                final(self)@.pending.last(),
            ),
            reaction.should_render == update_renders(event@),
            event@ matches EventView::Key(key) && key.asks_for_directory() ==> is_request_token(
                final(self)@.pending.last(),
            ),
    {
        let mut should_render = false;
        let mut instructions = no_instructions();
        match event {
            Event::PermissionRequestResult => {
                if let Some(plugin_id) = self.update_workspace.get_own_plugin_id() {
                    push_instruction(
                        &mut instructions,
                        Instruction::RenamePane {
                            pane: PaneId::Plugin(plugin_id),
                            name: String::from_str("Develop Zellij Plugin"),
                        },
                    );
                }
            },
            Event::PaneUpdate(pane_manifest) => {
                self.update_workspace.update_pane_manifest(pane_manifest);
                let bound = self.update_workspace.bind_key_if_not_bound_and_tab_is_focused();
                append_instructions(&mut instructions, bound);
                let url = self.plugin_url();
                self.update_workspace.update_plugin_pane_id(url);
                let name = self.plugin_name();
                let renamed = self.update_workspace.rename_plugin_pane_if_needed(name);
                append_instructions(&mut instructions, renamed);
            },
            Event::TabUpdate(tab_infos) => {
                self.update_workspace.update_tab_infos(tab_infos);
                instructions = self.update_workspace.bind_key_if_not_bound_and_tab_is_focused();
            },
            Event::Key(key) => {
                if key.asks_for_directory() {
                    instructions = self.send_filepicker_request();
                }
            },
            Event::ModeUpdate(mode) => {
                if let Some(base_mode) = mode {
                    self.update_workspace.update_base_mode(base_mode);
                    instructions = self.update_workspace.bind_key_if_not_bound_and_tab_is_focused();
                }
            },
            Event::CommandPaneOpened(terminal_pane_id) => {
                self.run_and_reload.update_compilation_pane_id(terminal_pane_id);
                should_render = true;
            },
            Event::CommandPaneExited(terminal_pane_id, exit_code) => {
                instructions = self.run_and_reload.command_pane_exited(exit_code, terminal_pane_id);
            },
            Event::PaneClosed(pane_id) => {
                self.run_and_reload.pane_closed(pane_id);
                instructions = self.update_workspace.pane_closed(pane_id);
            },
            Event::Other => {},
        }
        Reaction { instructions, should_render }
    }

    /// The lines of the panel for a pane of `rows` by `cols`.
    pub fn render(&self, rows: usize, cols: usize) -> (lines: Vec<PanelLine>)
        ensures
            lines_of(lines@) == panel(
                self@.workspace.reload_shortcut,
                self@.lifecycle.cwd,
                rows,
                cols,
            ),
    {
        let shortcut = self.update_workspace.get_reload_shortcut();
        match self.run_and_reload.get_cwd() {
            Some(cwd) => panel_lines(shortcut.as_str(), Some(cwd.as_str()), rows, cols),
            None => panel_lines(shortcut.as_str(), None, rows, cols),
        }
    }

    /// The address of the plugin that the chosen directory builds.
    pub fn plugin_url(&self) -> (url: Option<String>)
        ensures
            text_of(url) == self@.plugin_url(),
    {
        match self.run_and_reload.get_cwd() {
            Some(cwd) => plugin_url(cwd.as_str()),
            None => None,
        }
    }

    /// The name of the plugin that the chosen directory builds.
    pub fn plugin_name(&self) -> (name: Option<String>)
        ensures
            text_of(name) == self@.plugin_name(),
    {
        match self.run_and_reload.get_cwd() {
            Some(cwd) => plugin_name(cwd.as_str()),
            None => None,
        }
    }

    /// Asks the directory picker for a directory. The request carries a new
    /// token, which is kept until the answer comes.
    pub fn send_filepicker_request(&mut self) -> (instructions: Vec<Instruction>)
        ensures
            is_request_token(final(self)@.pending.last()),
            final(self)@ == (StateView {
                pending: old(self)@.pending.push(final(self)@.pending.last()),
                ..old(self)@
            }),
            instructions_of(instructions@) == seq![directory_request(final(self)@.pending.last())],
    {
        let request_id = self.filepicker_request_ids.issue();
        let mut instructions = no_instructions();
        push_instruction(&mut instructions, filepicker_request(request_id));
        instructions
    }

    /// Takes an answer of the directory picker: the directory of an answer
    /// to a request that waits is chosen, and that request settled.
    pub fn handle_filepicker_result(&mut self, pipe_message: PipeMessage) -> (reaction: Reaction)
        ensures
            final(self)@ == old(self)@.after_filepicker_result(pipe_message@),
            instructions_of(reaction.instructions@) == old(self)@.filepicker_instructions(
                pipe_message@,
            ),
            reaction.should_render == old(self)@.accepts(pipe_message@),
    {
        let mut should_render = false;
        let mut instructions = no_instructions();
        match (pipe_message.payload, pipe_message.request_id) {
            (Some(payload), Some(request_id)) => {
                match self.filepicker_request_ids.resolve(&request_id, payload) {
                    Some(chosen_plugin_location) => {
                        self.run_and_reload.update_cwd(chosen_plugin_location);
                        should_render = true;
                    },
                    None => {
                        push_instruction(
                            &mut instructions,
                            Instruction::Report { diagnostic: Diagnostic::UnmatchedResponse },
                        );
                    },
                }
            },
            _ => {},
        }
        Reaction { instructions, should_render }
    }
}

} // verus!
