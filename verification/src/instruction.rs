//! What the controller asks of the host. Each handler returns the
//! instructions it decided on, in the order in which they are to be carried
//! out; carrying them out is left to the caller.

use vstd::prelude::*;
use crate::host::PaneId;

verus! {

/// Something gone wrong that is worth a line on the console and nothing more.
#[derive(Clone, Copy, Debug, PartialEq, Eq, Structural)]
pub enum Diagnostic {
    /// A build was asked for before any directory was chosen.
    NoBuildTarget,
    /// A directory came in for a request that is not outstanding.
    UnmatchedResponse,
}

impl Diagnostic {
    /// The line to print.
    pub open spec fn spec_message(self) -> Seq<char> {
        match self {
            Diagnostic::NoBuildTarget => "no cwd found!"@,
            Diagnostic::UnmatchedResponse => "request id not found"@,
        }
    }

    /// The line to print.
    pub fn message(self) -> (message: &'static str)
        ensures
            message@ == self.spec_message(),
    {
        match self {
            Diagnostic::NoBuildTarget => "no cwd found!",
            Diagnostic::UnmatchedResponse => "request id not found",
        }
    }
}

/// One instruction to the host.
#[derive(Clone, Debug, PartialEq, Eq)]
pub enum Instruction {
    /// Bring a pane back into view.
    ShowPane { pane: PaneId, float_if_hidden: bool },
    /// Take a pane out of view; it keeps running.
    HidePane { pane: PaneId },
    /// Take the controller's own pane out of view.
    HideSelf,
    /// Close the controller's own pane.
    CloseSelf,
    /// Run the command of a command pane once more, in that pane.
    RerunCommandPane { terminal_pane_id: u32 },
    /// Open a floating command pane that runs `program` with `args` in `cwd`.
    OpenCommandPaneFloating { program: String, args: Vec<String>, cwd: String },
    /// Load the plugin at `url`, or load it anew where it is running.
    StartOrReloadPlugin { url: String },
    /// Merge `config` into the running configuration.
    Reconfigure { config: String, write_to_disk: bool },
    /// Give a pane a new title.
    RenamePane { pane: PaneId, name: String },
    /// Send the message `name` to the plugin at `plugin_url`, which is
    /// launched with `plugin_config` under the title `pane_title` where it is not
    /// running.
    MessagePlugin {
        name: String,
        plugin_url: String,
        plugin_config: Vec<(String, String)>,
        message_args: Vec<(String, String)>,
        pane_title: String,
    },
    /// Print a diagnostic.
    Report { diagnostic: Diagnostic },
}

/// An instruction as contracts speak of it.
pub enum InstructionView {
    ShowPane { pane: PaneId, float_if_hidden: bool },
    HidePane { pane: PaneId },
    HideSelf,
    CloseSelf,
    RerunCommandPane { terminal_pane_id: u32 },
    OpenCommandPaneFloating { program: Seq<char>, args: Seq<Seq<char>>, cwd: Seq<char> },
    StartOrReloadPlugin { url: Seq<char> },
    Reconfigure { config: Seq<char>, write_to_disk: bool },
    RenamePane { pane: PaneId, name: Seq<char> },
    MessagePlugin {
        name: Seq<char>,
        plugin_url: Seq<char>,
        plugin_config: Seq<(Seq<char>, Seq<char>)>,
        message_args: Seq<(Seq<char>, Seq<char>)>,
        pane_title: Seq<char>,
    },
    Report { diagnostic: Diagnostic },
}

/// What a list of strings holds.
pub open spec fn texts_of(texts: Seq<String>) -> Seq<Seq<char>> {
    Seq::new(texts.len(), |i: int| texts[i]@)
}

/// What a list of keys with their values holds.
pub open spec fn pairs_of(pairs: Seq<(String, String)>) -> Seq<(Seq<char>, Seq<char>)> {
    Seq::new(pairs.len(), |i: int| (pairs[i].0@, pairs[i].1@))
}

impl View for Instruction {
    type V = InstructionView;

    open spec fn view(&self) -> InstructionView {
        match *self {
            Instruction::ShowPane { pane, float_if_hidden } => InstructionView::ShowPane {
                pane,
                float_if_hidden,
            },
            Instruction::HidePane { pane } => InstructionView::HidePane { pane },
            Instruction::HideSelf => InstructionView::HideSelf,
            Instruction::CloseSelf => InstructionView::CloseSelf,
            Instruction::RerunCommandPane { terminal_pane_id } => InstructionView::RerunCommandPane {
                terminal_pane_id,
            },
            Instruction::OpenCommandPaneFloating {
                program,
                args,
                cwd,
            } => InstructionView::OpenCommandPaneFloating {
                program: program@,
                args: texts_of(args@),
                cwd: cwd@,
            },
            Instruction::StartOrReloadPlugin { url } => InstructionView::StartOrReloadPlugin {
                url: url@,
            },
            Instruction::Reconfigure { config, write_to_disk } => InstructionView::Reconfigure {
                config: config@,
                write_to_disk,
            },
            Instruction::RenamePane { pane, name } => InstructionView::RenamePane {
                pane,
                name: name@,
            },
            Instruction::MessagePlugin {
                name,
                plugin_url,
                plugin_config,
                message_args,
                pane_title,
            } => InstructionView::MessagePlugin {
                name: name@,
                plugin_url: plugin_url@,
                plugin_config: pairs_of(plugin_config@),
                message_args: pairs_of(message_args@),
                pane_title: pane_title@,
            },
            Instruction::Report { diagnostic } => InstructionView::Report { diagnostic },
        }
    }
}

/// What a list of instructions holds, in order.
pub open spec fn instructions_of(list: Seq<Instruction>) -> Seq<InstructionView> {
    Seq::new(list.len(), |i: int| list[i]@)
}

/// Appending to a list of instructions appends to what it holds.
pub proof fn lemma_instructions_push(list: Seq<Instruction>, last: Instruction)
    ensures
        instructions_of(list.push(last)) == instructions_of(list).push(last@),
{
    assert(instructions_of(list.push(last)) =~= instructions_of(list).push(last@));
}

/// The empty list holds nothing.
pub proof fn lemma_instructions_empty()
    ensures
        instructions_of(Seq::<Instruction>::empty()) == Seq::<InstructionView>::empty(),
{
    assert(instructions_of(Seq::<Instruction>::empty()) =~= Seq::<InstructionView>::empty());
}

/// Appends `last` to `list`.
pub fn push_instruction(list: &mut Vec<Instruction>, last: Instruction)
    ensures
        instructions_of(final(list)@) == instructions_of(old(list)@).push(last@),
{
    proof {
        lemma_instructions_push(list@, last);
    }
    list.push(last);
}

/// A list without instructions.
pub fn no_instructions() -> (list: Vec<Instruction>)
    ensures
        instructions_of(list@) == Seq::<InstructionView>::empty(),
{
    proof {
        lemma_instructions_empty();
    }
    Vec::new()
}

/// Appends the instructions of `more` to `list`, in their order.
pub fn append_instructions(list: &mut Vec<Instruction>, more: Vec<Instruction>)
    ensures
        instructions_of(final(list)@) == instructions_of(old(list)@) + instructions_of(more@),
{
    let ghost before = list@;
    let ghost added = more@;
    let mut more = more;
    list.append(&mut more);
    assert(instructions_of(list@) =~= instructions_of(before) + instructions_of(added));
}

} // verus!
