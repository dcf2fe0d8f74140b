//! What holds of the controller and of the build over several steps.

use vstd::prelude::*;
use crate::host::{EventView, PaneId, PaneInfoView, PipeMessageView};
use crate::instruction::InstructionView;
use crate::request_correlator::{lemma_answer_counts_once, occurrences};
use crate::run_and_reload::{build_command, LifecycleView};
use crate::state::StateView;

verus! {

/// Of two answers of the directory picker with the same token, the first is
/// taken and the second is not, where the token was issued once: the second
/// changes nothing and is not drawn.
pub proof fn lemma_second_answer_is_dropped(
    s: StateView,
    first: PipeMessageView,
    second: PipeMessageView,
)
    requires
        s.accepts(first),
        second.request_id == first.request_id,
        occurrences(s.pending, first.request_id->0) <= 1,
    ensures
        s.after_filepicker_result(first).lifecycle.cwd == first.payload,
        !s.after_filepicker_result(first).accepts(second),
        s.after_filepicker_result(first).after_filepicker_result(second)
            == s.after_filepicker_result(first),
{
    lemma_answer_counts_once(s.pending, first.request_id->0);
}

/// The closing of a pane has the controller close itself exactly where the
/// pane is the one that hosts the plugin: one instruction then, none
/// otherwise.
pub proof fn lemma_self_close(s: StateView, pane: PaneId, token: Seq<char>)
    ensures
        s.update_instructions(EventView::PaneClosed(pane), token) == if s.workspace.plugin_pane_id
            == Some(pane) {
            seq![InstructionView::CloseSelf]
        } else {
            Seq::<InstructionView>::empty()
        },
{
}

/// No event and no message makes the controller let go of the pane that
/// hosts the plugin, or take another.
pub proof fn lemma_plugin_pane_is_kept(
    s: StateView,
    event: EventView,
    token: Seq<char>,
    message: PipeMessageView,
)
    requires
        s.workspace.plugin_pane_id is Some,
    ensures
        s.after_update(event, token).workspace.plugin_pane_id == s.workspace.plugin_pane_id,
        s.after_pipe(message).workspace.plugin_pane_id == s.workspace.plugin_pane_id,
{
}

/// While no directory is chosen, or the chosen one has no name, a report of
/// panes has no pane taken for the plugin's, whatever the panes declare.
pub proof fn lemma_no_locator_no_pane(s: StateView, panes: Seq<PaneInfoView>, token: Seq<char>)
    requires
        s.plugin_url() is None,
    ensures
        s.after_update(EventView::PaneUpdate(panes), token).workspace.plugin_pane_id
            == s.workspace.plugin_pane_id,
{
}

/// While the build pane is open, another build runs in it; once it is
/// closed, the next build opens a new pane in the chosen directory.
pub proof fn lemma_build_pane(l: LifecycleView, pane: u32)
    requires
        l.compilation_pane_id == Some(pane),
    ensures
        l.run_instructions() == seq![
            InstructionView::ShowPane { pane: PaneId::Terminal(pane), float_if_hidden: true },
            InstructionView::RerunCommandPane { terminal_pane_id: pane },
            InstructionView::HideSelf,
        ],
        l.after_close(PaneId::Plugin(pane)) == l,
        l.after_close(PaneId::Terminal(pane)).compilation_pane_id is None,
        l.cwd is Some ==> l.after_close(PaneId::Terminal(pane)).run_instructions() == seq![
            build_command(l.cwd->0),
            InstructionView::HideSelf,
        ],
{
}

/// A build that failed, or the exit of a pane that is not the build pane,
/// asks nothing of the host.
pub proof fn lemma_failed_build_is_left_alone(l: LifecycleView, exit_code: Option<i32>, pane: u32)
    requires
        exit_code != Some(0i32) || l.compilation_pane_id != Some(pane),
    ensures
        l.exit_instructions(exit_code, pane) == Seq::<InstructionView>::empty(),
{
}

} // verus!
