//! Keeps the rebuild shortcut bound while the controller's tab is in focus,
//! and follows the pane that hosts the plugin under development.

use vstd::prelude::*;
use crate::host::{text_of, InputMode, PaneId, PaneInfoView, PaneManifest, TabInfo};
use crate::instruction::{
    instructions_of, no_instructions, push_instruction, Instruction, InstructionView,
};
use crate::search::{first_index, lemma_first_index_found, lemma_first_index_none};
use crate::shortcut::{label_display, parsed_key_text, Shortcut};
use crate::text::{decimal_string, decimal_text};

verus! {

/// The workspace as contracts speak of it.
pub struct WorkspaceView {
    /// The input mode that key bindings are registered for, once known.
    pub base_mode: Option<InputMode>,
    /// The controller's own plugin pane, once known.
    pub own_plugin_id: Option<u32>,
    /// The tab that holds the controller's pane, once found.
    pub own_tab_index: Option<usize>,
    /// Whether that tab was in focus when last looked at.
    pub own_tab_is_active: bool,
    /// The latch: whether the shortcut is registered for this period of focus.
    pub bound_key: bool,
    /// The display text of the shortcut.
    pub reload_shortcut: Seq<char>,
    /// The tabs, as last reported.
    pub tab_infos: Seq<TabInfo>,
    /// The panes, as last reported.
    pub pane_manifest: Seq<PaneInfoView>,
    /// The pane that hosts the plugin under development, once found.
    pub plugin_pane_id: Option<PaneId>,
    /// Whether that pane has been given its title.
    pub renamed_plugin_pane: bool,
}

/// Whether a pane is the plugin pane numbered `id`.
pub open spec fn is_plugin_pane(id: u32) -> spec_fn(PaneInfoView) -> bool {
    |pane: PaneInfoView| pane.id == id && pane.is_plugin
}

/// Whether a pane declares that its plugin was loaded from `address`. A pane
/// that declares no address was loaded from none.
pub open spec fn is_loaded_from(address: Seq<char>) -> spec_fn(PaneInfoView) -> bool {
    |pane: PaneInfoView| pane.plugin_url == Some(address)
}

/// Whether a tab stands at the position `index`.
pub open spec fn is_at_position(index: Option<usize>) -> spec_fn(TabInfo) -> bool {
    |tab: TabInfo| Some(tab.position) == index
}

/// The tab of the first plugin pane numbered `id` among `panes`.
pub open spec fn tab_index_of_pane(id: u32, panes: Seq<PaneInfoView>) -> Option<usize> {
    match first_index(panes, is_plugin_pane(id)) {
        Some(i) => Some(panes[i].tab_index),
        None => None,
    }
}

/// The configuration that binds `shortcut`, in `mode`, to sending the plugin
/// `id` the message `recompile`.
pub open spec fn bind_config(mode: InputMode, id: u32, shortcut: Seq<char>) -> Seq<char> {
    "\n        keybinds {\n            \""@ + mode.spec_name()
        + "\" {\n                bind \""@ + shortcut
        + "\" {\n                    MessagePluginId "@ + decimal_text(id as nat)
        + " {\n                        name \"recompile\"\n                    }\n                }\n            }\n        }\n        "@
}

/// The title of the pane that hosts the plugin `name`, which tells how to
/// rebuild it: by the shortcut, its modifiers joined by `-`.
pub open spec fn pane_label(name: Seq<char>, shortcut: Seq<char>) -> Seq<char> {
    name + " (<"@ + label_display(shortcut) + "> to rebuild)"@
}

impl WorkspaceView {
    /// A workspace that has heard nothing from the host yet.
    pub open spec fn initial(reload_shortcut: Seq<char>) -> WorkspaceView {
        WorkspaceView {
            base_mode: None,
            own_plugin_id: None,
            own_tab_index: None,
            own_tab_is_active: false,
            bound_key: false,
            reload_shortcut,
            tab_infos: Seq::empty(),
            pane_manifest: Seq::empty(),
            plugin_pane_id: None,
            renamed_plugin_pane: false,
        }
    }

    /// Whether the two flags agree with what they stand for: the latch is
    /// closed only while the controller's tab is in focus, and a title has
    /// been given only to a pane that was found.
    pub open spec fn is_consistent(self) -> bool {
        &&& self.bound_key ==> self.own_tab_is_active
        &&& self.renamed_plugin_pane ==> self.plugin_pane_id is Some
    }

    /// The workspace once the controller's own pane is known.
    pub open spec fn with_own_plugin_id(self, id: u32) -> WorkspaceView {
        WorkspaceView { own_plugin_id: Some(id), ..self }
    }

    /// The workspace after the host reported its input mode.
    pub open spec fn with_base_mode(self, mode: InputMode) -> WorkspaceView {
        WorkspaceView { base_mode: Some(mode), ..self }
    }

    /// The workspace after the host reported its panes.
    pub open spec fn with_pane_manifest(self, panes: Seq<PaneInfoView>) -> WorkspaceView {
        WorkspaceView { pane_manifest: panes, ..self }
    }

    /// The workspace after the host reported its tabs.
    pub open spec fn with_tab_infos(self, tabs: Seq<TabInfo>) -> WorkspaceView {
        WorkspaceView { tab_infos: tabs, ..self }
    }

    /// Looks the controller's own pane up among the panes. Where it is not
    /// found, the tab found earlier stands.
    pub open spec fn with_own_tab_index(self) -> WorkspaceView {
        match self.own_plugin_id {
            Some(id) => match tab_index_of_pane(id, self.pane_manifest) {
                Some(tab) => WorkspaceView { own_tab_index: Some(tab), ..self },
                None => self,
            },
            None => self,
        }
    }

    /// Looks the controller's tab up among the tabs. Found out of focus, it
    /// resets the latch; not found, nothing changes.
    pub open spec fn with_own_tab_activity(self) -> WorkspaceView {
        match first_index(self.tab_infos, is_at_position(self.own_tab_index)) {
            Some(i) => WorkspaceView {
                own_tab_is_active: self.tab_infos[i].active,
                bound_key: self.bound_key && self.tab_infos[i].active,
                ..self
            },
            None => self,
        }
    }

    /// The workspace with both lookups made.
    pub open spec fn derived(self) -> WorkspaceView {
        self.with_own_tab_index().with_own_tab_activity()
    }

    /// Whether the shortcut is to be registered now.
    pub open spec fn must_bind(self) -> bool {
        &&& self.base_mode is Some
        &&& self.own_plugin_id is Some
        &&& self.own_tab_is_active
        &&& !self.bound_key
    }

    /// The workspace after an attempt to bind the shortcut.
    pub open spec fn after_bind(self) -> WorkspaceView {
        let derived = self.derived();
        if derived.must_bind() {
            WorkspaceView { bound_key: true, ..derived }
        } else {
            derived
        }
    }

    /// What an attempt to bind the shortcut asks of the host.
    pub open spec fn bind_instructions(self) -> Seq<InstructionView> {
        let derived = self.derived();
        if derived.must_bind() {
            seq![
                InstructionView::Reconfigure {
                    config: bind_config(
                        derived.base_mode->0,
                        derived.own_plugin_id->0,
                        derived.reload_shortcut,
                    ),
                    write_to_disk: false,
                },
            ]
        } else {
            Seq::empty()
        }
    }

    /// The workspace after a look for the pane loaded from `url`: the first
    /// pane that declares this address is taken, unless one was taken before.
    /// Without an address there is nothing to look for, and no pane is taken.
    pub open spec fn with_plugin_pane(self, url: Option<Seq<char>>) -> WorkspaceView {
        match url {
            Some(address) if self.plugin_pane_id is None => match first_index(
                self.pane_manifest,
                is_loaded_from(address),
            ) {
                Some(i) => WorkspaceView {
                    plugin_pane_id: Some(PaneId::Plugin(self.pane_manifest[i].id)),
                    ..self
                },
                None => self,
            },
            _ => self,
        }
    }

    /// Whether the plugin's pane is to be given its title now.
    pub open spec fn must_rename(self, name: Option<Seq<char>>) -> bool {
        &&& !self.renamed_plugin_pane
        &&& self.plugin_pane_id is Some
        &&& name is Some
    }

    /// The workspace after an attempt to give the plugin's pane its title.
    pub open spec fn after_rename(self, name: Option<Seq<char>>) -> WorkspaceView {
        if self.must_rename(name) {
            WorkspaceView { renamed_plugin_pane: true, ..self }
        } else {
            self
        }
    }

    /// What an attempt to give the plugin's pane its title asks of the host.
    pub open spec fn rename_instructions(self, name: Option<Seq<char>>) -> Seq<InstructionView> {
        if self.must_rename(name) {
            seq![
                InstructionView::RenamePane {
                    pane: self.plugin_pane_id->0,
                    name: pane_label(name->0, self.reload_shortcut),
                },
            ]
        } else {
            Seq::empty()
        }
    }

    /// What the closing of `pane` asks of the host: where it hosted the
    /// plugin under development, that the controller close too.
    pub open spec fn close_instructions(self, pane: PaneId) -> Seq<InstructionView> {
        if self.plugin_pane_id == Some(pane) {
            seq![InstructionView::CloseSelf]
        } else {
            Seq::empty()
        }
    }

    /// The workspace after a new shortcut was read: it replaces the old one
    /// where it was understood.
    pub open spec fn with_shortcut(self, parsed: Option<Seq<char>>) -> WorkspaceView {
        match parsed {
            Some(text) => WorkspaceView { reload_shortcut: text, ..self },
            None => self,
        }
    }
}

/// The shortcut latch and the two panes the controller cares about: its own
/// and the one that hosts the plugin under development.
#[derive(Debug)]
pub struct UpdateWorkspace {
    base_mode: Option<InputMode>,
    own_plugin_id: Option<u32>,
    own_tab_index: Option<usize>,
    own_tab_is_active: bool,
    bound_key: bool,
    reload_shortcut: Shortcut,
    tab_infos: Vec<TabInfo>,
    pane_manifest: PaneManifest,
    plugin_pane_id: Option<PaneId>,
    renamed_plugin_pane: bool,
}

impl View for UpdateWorkspace {
    type V = WorkspaceView;

    closed spec fn view(&self) -> WorkspaceView {
        WorkspaceView {
            base_mode: self.base_mode,
            own_plugin_id: self.own_plugin_id,
            own_tab_index: self.own_tab_index,
            own_tab_is_active: self.own_tab_is_active,
            bound_key: self.bound_key,
            reload_shortcut: self.reload_shortcut@,
            tab_infos: self.tab_infos@,
            pane_manifest: self.pane_manifest@,
            plugin_pane_id: self.plugin_pane_id,
            renamed_plugin_pane: self.renamed_plugin_pane,
        }
    }
}

impl UpdateWorkspace {
    /// A workspace that has heard nothing from the host yet.
    pub fn new(reload_shortcut: Shortcut) -> (workspace: UpdateWorkspace)
        ensures
            workspace@ == WorkspaceView::initial(reload_shortcut@),
    {
        UpdateWorkspace {
            reload_shortcut,
            base_mode: None,
            own_plugin_id: None,
            own_tab_index: None,
            own_tab_is_active: false,
            bound_key: false,
            tab_infos: Vec::new(),
            pane_manifest: PaneManifest::new(),
            plugin_pane_id: None,
            renamed_plugin_pane: false,
        }
    }

    /// Records which plugin pane is the controller's own.
    pub fn update_own_plugin_id(&mut self, plugin_id: u32)
        ensures
            final(self)@ == old(self)@.with_own_plugin_id(plugin_id),
    {
        self.own_plugin_id = Some(plugin_id);
    }

    /// The controller's own plugin pane, once known.
    pub fn get_own_plugin_id(&mut self) -> (plugin_id: Option<u32>)
        ensures
            plugin_id == old(self)@.own_plugin_id,
            final(self)@ == old(self)@,
    {
        self.own_plugin_id
    }

    /// Replaces the inventory of panes.
    pub fn update_pane_manifest(&mut self, pane_manifest: PaneManifest)
        ensures
            final(self)@ == old(self)@.with_pane_manifest(pane_manifest@),
    {
        self.pane_manifest = pane_manifest;
    }

    /// Replaces the inventory of tabs.
    pub fn update_tab_infos(&mut self, tab_infos: Vec<TabInfo>)
        ensures
            final(self)@ == old(self)@.with_tab_infos(tab_infos@),
    {
        self.tab_infos = tab_infos;
    }

    /// Records the input mode that key bindings are registered for.
    pub fn update_base_mode(&mut self, base_mode: InputMode)
        ensures
            final(self)@ == old(self)@.with_base_mode(base_mode),
    {
        self.base_mode = Some(base_mode);
    }

    /// A pane was closed: where it hosted the plugin under development, the
    /// controller is to close too.
    pub fn pane_closed(&self, pane_id: PaneId) -> (instructions: Vec<Instruction>)
        ensures
            instructions_of(instructions@) == self@.close_instructions(pane_id),
    {
        let mut instructions = no_instructions();
        let is_target = match self.plugin_pane_id {
            Some(id) => id == pane_id,
            None => false,
        };
        if is_target {
            push_instruction(&mut instructions, Instruction::CloseSelf);
        }
        instructions
    }

    /// The shortcut that asks for a rebuild.
    pub fn get_reload_shortcut(&self) -> (shortcut: &Shortcut)
        ensures
            shortcut@ == self@.reload_shortcut,
    {
        &self.reload_shortcut
    }

    /// Registers the shortcut where the controller's tab is in focus and the
    /// shortcut is not registered for this period of focus yet.
    pub fn bind_key_if_not_bound_and_tab_is_focused(&mut self) -> (instructions: Vec<Instruction>)
        ensures
            final(self)@ == old(self)@.after_bind(),
            instructions_of(instructions@) == old(self)@.bind_instructions(),
    {
        self.derive_tab_activity();
        let mut instructions = no_instructions();
        if self.own_tab_is_active && !self.bound_key {
            match (self.base_mode, self.own_plugin_id) {
                (Some(base_mode), Some(own_plugin_id)) => {
                    let binding = bind_key(base_mode, own_plugin_id, &self.reload_shortcut);
                    push_instruction(&mut instructions, binding);
                    self.bound_key = true;
                },
                _ => {},
            }
        }
        instructions
    }

    /// Looks up, in the inventories as last reported, which tab holds the
    /// controller's pane and whether that tab is in focus. A tab found out of
    /// focus opens the latch, so that the shortcut is bound again when the
    /// tab is back in focus.
    pub fn derive_tab_activity(&mut self)
        ensures
            final(self)@ == old(self)@.derived(),
    {
        self.update_own_tab_index();
        self.update_own_tab_is_active();
    }

    fn update_own_tab_is_active(&mut self)
        ensures
            final(self)@ == old(self)@.with_own_tab_activity(),
    {
        let ghost wanted = is_at_position(self.own_tab_index);
        if let Some(own_tab_index) = self.own_tab_index {
            let mut i: usize = 0;
            while i < self.tab_infos.len()
                invariant
                    i <= self.tab_infos.len(),
                    self.own_tab_index == Some(own_tab_index),
                    wanted == is_at_position(self.own_tab_index),
                    *self == *old(self),
                    forall|j: int| 0 <= j < i ==> !wanted(#[trigger] self.tab_infos@[j]),
                decreases self.tab_infos.len() - i,
            {
                let own_tab = self.tab_infos[i];
                if own_tab.position == own_tab_index {
                    proof {
                        lemma_first_index_found(self.tab_infos@, wanted, i as int);
                    }
                    self.own_tab_is_active = own_tab.active;
                    if !own_tab.active {
                        self.bound_key = false;
                    }
                    return ;
                }
                i = i + 1;
            }
        }
        proof {
            lemma_first_index_none(self.tab_infos@, wanted);
        }
    }

    fn update_own_tab_index(&mut self)
        ensures
            final(self)@ == old(self)@.with_own_tab_index(),
    {
        if let Some(own_pane_id) = self.own_plugin_id {
            if let Some(own_tab_index) = get_tab_index_of_pane(own_pane_id, &self.pane_manifest) {
                self.own_tab_index = Some(own_tab_index);
            }
        }
    }

    /// Looks for the pane that hosts the plugin loaded from `plugin_url` and
    /// keeps the first one found. Once a pane is kept, it stays. Without an
    /// address no pane is looked for: a pane that declares none is not the
    /// plugin's.
    pub fn update_plugin_pane_id(&mut self, plugin_url: Option<String>)
        ensures
            final(self)@ == old(self)@.with_plugin_pane(text_of(plugin_url)),
    {
        let address = match plugin_url {
            Some(address) => address,
            None => {
                return ;
            },
        };
        let ghost wanted = is_loaded_from(address@);
        if self.plugin_pane_id.is_none() {
            let mut i: usize = 0;
            while i < self.pane_manifest.panes.len()
                invariant
                    i <= self.pane_manifest.panes.len(),
                    wanted == is_loaded_from(address@),
                    text_of(plugin_url) == Some(address@),
                    *self == *old(self),
                    self.plugin_pane_id is None,
                    forall|j: int| 0 <= j < i ==> !wanted(#[trigger] self.pane_manifest@[j]),
                decreases self.pane_manifest.panes.len() - i,
            {
                assert(self.pane_manifest@[i as int] == self.pane_manifest.panes@[i as int]@);
                let declared = match &self.pane_manifest.panes[i].plugin_url {
                    Some(url) => *url == address,
                    None => false,
                };
                if declared {
                    proof {
                        lemma_first_index_found(self.pane_manifest@, wanted, i as int);
                    }
                    self.plugin_pane_id = Some(PaneId::Plugin(self.pane_manifest.panes[i].id));
                    return ;
                }
                i = i + 1;
            }
            proof {
                lemma_first_index_none(self.pane_manifest@, wanted);
            }
        }
    }

    /// Gives the pane that hosts the plugin its title, once.
    pub fn rename_plugin_pane_if_needed(&mut self, plugin_name: Option<String>) -> (instructions:
        Vec<Instruction>)
        ensures
            final(self)@ == old(self)@.after_rename(text_of(plugin_name)),
            instructions_of(instructions@) == old(self)@.rename_instructions(
                text_of(plugin_name),
            ),
    {
        let mut instructions = no_instructions();
        if !self.renamed_plugin_pane {
            if let Some(plugin_pane_id) = self.plugin_pane_id {
                if let Some(plugin_name) = plugin_name {
                    let mut name = plugin_name;
                    let shortcut = self.reload_shortcut.label();
                    name.append(" (<");
                    name.append(shortcut.as_str());
                    name.append("> to rebuild)");
                    push_instruction(
                        &mut instructions,
                        Instruction::RenamePane { pane: plugin_pane_id, name },
                    );
                    self.renamed_plugin_pane = true;
                }
            }
        }
        instructions
    }

    /// Reads a new shortcut out of `reload_shortcut`. Where the host does not
    /// take the text for a key combination, the shortcut stays as it was.
    pub fn update_reload_shortcut(&mut self, reload_shortcut: &str)
        ensures
            final(self)@ == old(self)@.with_shortcut(parsed_key_text(reload_shortcut@)),
    {
        self.apply_parsed_shortcut(Shortcut::parse(reload_shortcut));
    }

    /// Takes over a shortcut that was read, where one was.
    pub fn apply_parsed_shortcut(&mut self, parsed: Option<Shortcut>)
        ensures
            final(self)@ == old(self)@.with_shortcut(
                match parsed {
                    Some(s) => Some(s@),
                    None => None,
                },
            ),
    {
        if let Some(shortcut) = parsed {
            self.reload_shortcut = shortcut;
        }
    }
}

/// The tab that holds the plugin pane numbered `own_pane_id`: that of the
/// first such pane in the inventory.
pub fn get_tab_index_of_pane(own_pane_id: u32, pane_manifest: &PaneManifest) -> (tab: Option<usize>)
    ensures
        tab == tab_index_of_pane(own_pane_id, pane_manifest@),
{
    let ghost wanted = is_plugin_pane(own_pane_id);
    let mut i: usize = 0;
    while i < pane_manifest.panes.len()
        invariant
            i <= pane_manifest.panes.len(),
            wanted == is_plugin_pane(own_pane_id),
            forall|j: int| 0 <= j < i ==> !wanted(#[trigger] pane_manifest@[j]),
        decreases pane_manifest.panes.len() - i,
    {
        let pane_info = &pane_manifest.panes[i];
        if pane_info.id == own_pane_id && pane_info.is_plugin {
            proof {
                lemma_first_index_found(pane_manifest@, wanted, i as int);
            }
            return Some(pane_info.tab_index);
        }
        i = i + 1;
    }
    proof {
        lemma_first_index_none(pane_manifest@, wanted);
    }
    None
}

/// The instruction that binds `reload_shortcut`, in `base_mode`, to sending
/// the plugin `own_plugin_id` the message `recompile`. The binding lasts for
/// the session and is not written to disk.
pub fn bind_key(base_mode: InputMode, own_plugin_id: u32, reload_shortcut: &Shortcut) -> (binding:
    Instruction)
    ensures
        binding@ == (InstructionView::Reconfigure {
            config: bind_config(base_mode, own_plugin_id, reload_shortcut@),
            write_to_disk: false,
        }),
{
    let mut config = String::from_str("\n        keybinds {\n            \"");
    config.append(base_mode.name());
    config.append("\" {\n                bind \"");
    config.append(reload_shortcut.as_str());
    config.append("\" {\n                    MessagePluginId ");
    let id = decimal_string(own_plugin_id);
    config.append(id.as_str());
    config.append(
        " {\n                        name \"recompile\"\n                    }\n                }\n            }\n        }\n        ",
    );
    Instruction::Reconfigure { config, write_to_disk: false }
}

} // verus!
