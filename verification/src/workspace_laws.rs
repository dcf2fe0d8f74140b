//! What holds of the workspace over several steps.

use vstd::prelude::*;
use crate::host::{InputMode, PaneId, PaneInfoView, TabInfo};
use crate::instruction::InstructionView;
use crate::search::{first_index, lemma_first_index};
use crate::update_workspace::{bind_config, is_at_position, is_loaded_from, WorkspaceView};

verus! {

/// The instruction that registers the shortcut of `w`.
pub open spec fn registration(w: WorkspaceView) -> InstructionView {
    InstructionView::Reconfigure {
        config: bind_config(w.base_mode->0, w.own_plugin_id->0, w.reload_shortcut),
        write_to_disk: false,
    }
}

/// Whether the first tab of `tabs` at the position `index` is in focus, or
/// out of focus, as `active` says.
pub open spec fn tab_is(tabs: Seq<TabInfo>, index: Option<usize>, active: bool) -> bool {
    match first_index(tabs, is_at_position(index)) {
        Some(i) => tabs[i].active == active,
        None => false,
    }
}

/// Looking the two inventories up a second time changes nothing.
pub proof fn lemma_derived_is_stable(w: WorkspaceView)
    ensures
        w.derived().derived() == w.derived(),
        w.after_bind().derived() == w.after_bind(),
{
}

/// Binding twice in a row, with nothing reported in between, registers the
/// shortcut at most once: the second attempt asks nothing of the host and
/// changes nothing. The first attempt registers it exactly where the mode
/// and the controller's pane are known, its tab is in focus and the latch is
/// open.
pub proof fn lemma_bind_twice_registers_once(w: WorkspaceView)
    ensures
        w.after_bind().bind_instructions() == Seq::<InstructionView>::empty(),
        w.after_bind().after_bind() == w.after_bind(),
        w.bind_instructions() == if w.derived().must_bind() {
            seq![registration(w.derived())]
        } else {
            Seq::<InstructionView>::empty()
        },
        (w.bind_instructions() + w.after_bind().bind_instructions()).len() <= 1,
{
    lemma_derived_is_stable(w);
    assert(!w.after_bind().must_bind());
}

/// While the latch is closed and the controller's tab is not seen out of
/// focus, no attempt to bind registers anything, whatever else the host
/// reported in between.
pub proof fn lemma_closed_latch_stays_closed(w: WorkspaceView)
    requires
        w.bound_key,
        !tab_is(w.tab_infos, w.with_own_tab_index().own_tab_index, false),
    ensures
        w.bind_instructions() == Seq::<InstructionView>::empty(),
        w.after_bind().bound_key,
{
}

/// The latch is closed only while the controller's tab is in focus, and the
/// title is given only to a pane that was found: this holds at the start and
/// after every step.
pub proof fn lemma_workspace_stays_consistent(
    w: WorkspaceView,
    shortcut: Seq<char>,
    id: u32,
    mode: InputMode,
    panes: Seq<PaneInfoView>,
    tabs: Seq<TabInfo>,
    url: Option<Seq<char>>,
    name: Option<Seq<char>>,
    parsed: Option<Seq<char>>,
)
    requires
        w.is_consistent(),
    ensures
        WorkspaceView::initial(shortcut).is_consistent(),
        w.with_own_plugin_id(id).is_consistent(),
        w.with_base_mode(mode).is_consistent(),
        w.with_pane_manifest(panes).is_consistent(),
        w.with_tab_infos(tabs).is_consistent(),
        w.after_bind().is_consistent(),
        w.with_plugin_pane(url).is_consistent(),
        w.after_rename(name).is_consistent(),
        w.with_shortcut(parsed).is_consistent(),
{
}

/// The controller's tab goes from in focus to out of focus and back, the
/// mode and the controller's pane staying known. Then the shortcut is
/// registered once when the tab is first seen in focus (unless the latch was
/// closed already), never while it is out of focus, and once more when it is
/// back in focus: with the latch open at the start, exactly twice.
pub proof fn lemma_latch_resets_with_focus(
    w: WorkspaceView,
    focused: Seq<TabInfo>,
    away: Seq<TabInfo>,
    back: Seq<TabInfo>,
)
    requires
        w.base_mode is Some,
        w.own_plugin_id is Some,
        tab_is(focused, w.with_own_tab_index().own_tab_index, true),
        tab_is(away, w.with_own_tab_index().own_tab_index, false),
        tab_is(back, w.with_own_tab_index().own_tab_index, true),
    ensures
        ({
            let first = w.with_tab_infos(focused);
            let second = first.after_bind().with_tab_infos(away);
            let third = second.after_bind().with_tab_infos(back);
            &&& first.bind_instructions() == if w.bound_key {
                Seq::<InstructionView>::empty()
            } else {
                seq![registration(w)]
            }
            &&& first.after_bind().bound_key
            &&& second.bind_instructions() == Seq::<InstructionView>::empty()
            &&& !second.after_bind().bound_key
            &&& third.bind_instructions() == seq![registration(w)]
            &&& third.after_bind().bound_key
        }),
{
    let first = w.with_tab_infos(focused);
    let second = first.after_bind().with_tab_infos(away);
    let third = second.after_bind().with_tab_infos(back);
    let index = w.with_own_tab_index().own_tab_index;
    assert(first.with_own_tab_index().own_tab_index == index);
    assert(second.with_own_tab_index().own_tab_index == index);
    assert(third.with_own_tab_index().own_tab_index == index);
}

/// Once a pane is taken for the plugin's, it stays: neither a new inventory
/// in which another pane declares the same address, nor a look for any
/// address, changes it.
pub proof fn lemma_plugin_pane_is_sticky(
    w: WorkspaceView,
    url: Option<Seq<char>>,
    panes: Seq<PaneInfoView>,
    later_url: Option<Seq<char>>,
)
    requires
        w.with_plugin_pane(url).plugin_pane_id is Some,
    ensures
        w.with_plugin_pane(url).with_pane_manifest(panes).with_plugin_pane(later_url).plugin_pane_id
            == w.with_plugin_pane(url).plugin_pane_id,
{
}

/// No step of the workspace lets go of the plugin's pane, or takes another.
pub proof fn lemma_plugin_pane_survives(
    w: WorkspaceView,
    panes: Seq<PaneInfoView>,
    tabs: Seq<TabInfo>,
    url: Option<Seq<char>>,
    name: Option<Seq<char>>,
    shortcut: Option<Seq<char>>,
)
    requires
        w.plugin_pane_id is Some,
    ensures
        w.with_pane_manifest(panes).plugin_pane_id == w.plugin_pane_id,
        w.with_tab_infos(tabs).plugin_pane_id == w.plugin_pane_id,
        w.after_bind().plugin_pane_id == w.plugin_pane_id,
        w.with_plugin_pane(url).plugin_pane_id == w.plugin_pane_id,
        w.after_rename(name).plugin_pane_id == w.plugin_pane_id,
        w.with_shortcut(shortcut).plugin_pane_id == w.plugin_pane_id,
{
}

/// The pane taken for the plugin's is the first of the inventory that
/// declares the address looked for; where none declares it, none is taken.
pub proof fn lemma_plugin_pane_is_first_match(w: WorkspaceView, address: Seq<char>)
    requires
        w.plugin_pane_id is None,
    ensures
        match w.with_plugin_pane(Some(address)).plugin_pane_id {
            Some(pane) => exists|i: int|
                0 <= i < w.pane_manifest.len() && pane == PaneId::Plugin(
                    (#[trigger] w.pane_manifest[i]).id,
                ) && w.pane_manifest[i].plugin_url == Some(address) && forall|j: int|
                    0 <= j < i ==> (#[trigger] w.pane_manifest[j]).plugin_url != Some(address),
            None => forall|j: int|
                0 <= j < w.pane_manifest.len() ==> (#[trigger] w.pane_manifest[j]).plugin_url
                    != Some(address),
        },
{
    lemma_first_index(w.pane_manifest, is_loaded_from(address));
}

/// A look without an address takes no pane; and a pane that declares no
/// address is never taken, whatever address is looked for.
pub proof fn lemma_no_address_no_pane(w: WorkspaceView, url: Option<Seq<char>>)
    ensures
        w.with_plugin_pane(None) == w,
        w.plugin_pane_id is None && w.with_plugin_pane(url).plugin_pane_id is Some ==> url is Some
            && exists|i: int|
            0 <= i < w.pane_manifest.len() && (#[trigger] w.pane_manifest[i]).plugin_url == url,
{
    if let Some(address) = url {
        lemma_first_index(w.pane_manifest, is_loaded_from(address));
    }
}

/// The closing of a pane has the controller close itself exactly where the
/// pane is the plugin's: one instruction then, none otherwise.
pub proof fn lemma_close_follows_plugin_pane(w: WorkspaceView, pane: PaneId)
    ensures
        w.plugin_pane_id == Some(pane) ==> w.close_instructions(pane) == seq![
            InstructionView::CloseSelf,
        ],
        w.plugin_pane_id != Some(pane) ==> w.close_instructions(pane) == Seq::<
            InstructionView,
        >::empty(),
{
}

/// The plugin's pane is given its title at most once.
pub proof fn lemma_rename_happens_once(
    w: WorkspaceView,
    name: Option<Seq<char>>,
    later_name: Option<Seq<char>>,
)
    requires
        w.must_rename(name),
    ensures
        w.after_rename(name).rename_instructions(later_name) == Seq::<InstructionView>::empty(),
        w.after_rename(name).after_rename(later_name) == w.after_rename(name),
{
}

} // verus!
