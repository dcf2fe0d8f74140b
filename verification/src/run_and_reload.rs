//! Runs the build in a command pane of its own and, when the build has
//! succeeded, has the host load what it produced.

use vstd::prelude::*;
use crate::host::{text_of, PaneId};
use crate::instruction::{
    instructions_of, no_instructions, push_instruction, texts_of, Diagnostic, Instruction,
    InstructionView,
};
use crate::path_resolver::{artifact_locator, plugin_url};

verus! {

/// The build as contracts speak of it.
pub struct LifecycleView {
    /// The directory to build in, once chosen.
    pub cwd: Option<Seq<char>>,
    /// The command pane that runs the build or ran it last, while it is open.
    pub compilation_pane_id: Option<u32>,
}

/// The build command: `cargo build`.
pub open spec fn build_command(cwd: Seq<char>) -> InstructionView {
    InstructionView::OpenCommandPaneFloating {
        program: "cargo"@,
        args: seq!["build"@],
        cwd,
    }
}

impl LifecycleView {
    /// No directory chosen, no build run.
    pub open spec fn initial() -> LifecycleView {
        LifecycleView { cwd: None, compilation_pane_id: None }
    }

    /// What starting a build asks of the host. An open build pane is brought
    /// back and runs its command again; without one a new pane is opened in
    /// the chosen directory; without a directory nothing can be built. In
    /// each case but the last the controller steps out of view.
    pub open spec fn run_instructions(self) -> Seq<InstructionView> {
        match self.compilation_pane_id {
            Some(id) => seq![
                InstructionView::ShowPane { pane: PaneId::Terminal(id), float_if_hidden: true },
                InstructionView::RerunCommandPane { terminal_pane_id: id },
                InstructionView::HideSelf,
            ],
            None => match self.cwd {
                Some(cwd) => seq![build_command(cwd), InstructionView::HideSelf],
                None => seq![InstructionView::Report { diagnostic: Diagnostic::NoBuildTarget }],
            },
        }
    }

    /// What loading the built plugin asks of the host. A directory without a
    /// name builds no plugin, and nothing is asked.
    pub open spec fn reload_instructions(self) -> Seq<InstructionView> {
        match self.cwd {
            Some(cwd) => match artifact_locator(cwd) {
                Some(url) => seq![InstructionView::StartOrReloadPlugin { url }],
                None => Seq::empty(),
            },
            None => seq![InstructionView::Report { diagnostic: Diagnostic::NoBuildTarget }],
        }
    }

    /// Whether the exit of the command pane `pane` with `exit_code` is the
    /// success of the build.
    pub open spec fn build_succeeded(self, exit_code: Option<i32>, pane: u32) -> bool {
        self.compilation_pane_id == Some(pane) && exit_code == Some(0i32)
    }

    /// What the exit of a command pane asks of the host: after a successful
    /// build, to load the plugin and to put the build pane out of view.
    pub open spec fn exit_instructions(self, exit_code: Option<i32>, pane: u32) -> Seq<
        InstructionView,
    > {
        if self.build_succeeded(exit_code, pane) {
            self.reload_instructions().push(
                InstructionView::HidePane { pane: PaneId::Terminal(pane) },
            )
        } else {
            Seq::empty()
        }
    }

    /// The build after `pane` was closed: the build pane is forgotten where
    /// it was the one.
    pub open spec fn after_close(self, pane: PaneId) -> LifecycleView {
        match pane {
            PaneId::Terminal(id) if self.compilation_pane_id == Some(id) => LifecycleView {
                compilation_pane_id: None,
                ..self
            },
            _ => self,
        }
    }
}

/// The build directory and the pane the build runs in.
#[derive(Debug)]
pub struct RunAndReload {
    cwd: Option<String>,
    compilation_pane_id: Option<u32>,
}

impl View for RunAndReload {
    type V = LifecycleView;

    closed spec fn view(&self) -> LifecycleView {
        LifecycleView { cwd: text_of(self.cwd), compilation_pane_id: self.compilation_pane_id }
    }
}

impl Default for RunAndReload {
    fn default() -> (lifecycle: RunAndReload)
        ensures
            lifecycle@ == LifecycleView::initial(),
    {
        RunAndReload { cwd: None, compilation_pane_id: None }
    }
}

impl RunAndReload {
    /// Chooses the directory to build in.
    pub fn update_cwd(&mut self, cwd: String)
        ensures
            final(self)@ == (LifecycleView { cwd: Some(cwd@), ..old(self)@ }),
    {
        self.cwd = Some(cwd);
    }

    /// The directory to build in, once chosen.
    pub fn get_cwd(&self) -> (cwd: Option<String>)
        ensures
            text_of(cwd) == self@.cwd,
    {
        match &self.cwd {
            Some(cwd) => Some(cwd.clone()),
            None => None,
        }
    }

    /// Records the command pane that the host opened for the build. A pane
    /// recorded before is forgotten.
    pub fn update_compilation_pane_id(&mut self, compilation_pane_id: u32)
        ensures
            final(self)@ == (LifecycleView {
                compilation_pane_id: Some(compilation_pane_id),
                ..old(self)@
            }),
    {
        self.compilation_pane_id = Some(compilation_pane_id);
    }

    /// A command pane exited. Where it is the build pane and the build
    /// succeeded, the plugin is loaded and the build pane put out of view;
    /// a failed build stays in view, and other panes are none of our concern.
    pub fn command_pane_exited(&mut self, exit_code: Option<i32>, terminal_pane_id: u32) -> (instructions:
        Vec<Instruction>)
        ensures
            final(self)@ == old(self)@,
            instructions_of(instructions@) == old(self)@.exit_instructions(
                exit_code,
                terminal_pane_id,
            ),
    {
        let is_build_pane = match self.compilation_pane_id {
            Some(id) => id == terminal_pane_id,
            None => false,
        };
        let succeeded = match exit_code {
            Some(code) => code == 0,
            None => false,
        };
        if is_build_pane && succeeded {
            let mut instructions = self.start_or_reload_plugin();
            push_instruction(
                &mut instructions,
                Instruction::HidePane { pane: PaneId::Terminal(terminal_pane_id) },
            );
            instructions
        } else {
            no_instructions()
        }
    }

    /// A pane was closed. Where it is the build pane, the next build opens
    /// a new one.
    pub fn pane_closed(&mut self, pane_id: PaneId)
        ensures
            final(self)@ == old(self)@.after_close(pane_id),
    {
        if let PaneId::Terminal(terminal_pane_id) = pane_id {
            let is_build_pane = match self.compilation_pane_id {
                Some(id) => id == terminal_pane_id,
                None => false,
            };
            if is_build_pane {
                self.compilation_pane_id = None;
            }
        }
    }

    /// Starts a build, or starts the running one over.
    pub fn run_compilation(&self) -> (instructions: Vec<Instruction>)
        ensures
            instructions_of(instructions@) == self@.run_instructions(),
    {
        let mut instructions = no_instructions();
        if let Some(compilation_pane_id) = self.compilation_pane_id {
            push_instruction(
                &mut instructions,
                Instruction::ShowPane {
                    pane: PaneId::Terminal(compilation_pane_id),
                    float_if_hidden: true,
                },
            );
            push_instruction(
                &mut instructions,
                Instruction::RerunCommandPane { terminal_pane_id: compilation_pane_id },
            );
            push_instruction(&mut instructions, Instruction::HideSelf);
        } else {
            match &self.cwd {
                Some(cwd) => {
                    let mut args: Vec<String> = Vec::new();
                    args.push(String::from_str("build"));
                    let command = Instruction::OpenCommandPaneFloating {
                        program: String::from_str("cargo"),
                        args,
                        cwd: cwd.clone(),
                    };
                    assert(command@ == build_command(cwd@)) by {
                        assert(texts_of(args@) =~= seq!["build"@]);
                    }
                    push_instruction(&mut instructions, command);
                    push_instruction(&mut instructions, Instruction::HideSelf);
                },
                None => {
                    push_instruction(
                        &mut instructions,
                        Instruction::Report { diagnostic: Diagnostic::NoBuildTarget },
                    );
                },
            }
        }
        instructions
    }

    /// Has the host load the plugin that the build produced, or load it anew.
    pub fn start_or_reload_plugin(&self) -> (instructions: Vec<Instruction>)
        ensures
            instructions_of(instructions@) == self@.reload_instructions(),
    {
        let mut instructions = no_instructions();
        match &self.cwd {
            Some(cwd) => {
                if let Some(url) = plugin_url(cwd.as_str()) {
                    push_instruction(&mut instructions, Instruction::StartOrReloadPlugin { url });
                }
            },
            None => {
                push_instruction(
                    &mut instructions,
                    Instruction::Report { diagnostic: Diagnostic::NoBuildTarget },
                );
            },
        }
        instructions
    }
}

} // verus!
