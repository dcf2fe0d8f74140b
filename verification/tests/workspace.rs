use plugin_reloader::host::{InputMode, PaneId, PaneInfo, PaneManifest, TabInfo};
use plugin_reloader::instruction::Instruction;
use plugin_reloader::shortcut::Shortcut;
use plugin_reloader::update_workspace::{bind_key, get_tab_index_of_pane, UpdateWorkspace};

fn pane(tab_index: usize, id: u32, is_plugin: bool, url: Option<&str>) -> PaneInfo {
    PaneInfo { tab_index, id, is_plugin, plugin_url: url.map(|u| u.to_owned()) }
}

fn tabs(active: usize, count: usize) -> Vec<TabInfo> {
    (0..count).map(|position| TabInfo { position, active: position == active }).collect()
}

const URL: &str = "file:/home/u/myplug/target/wasm32-wasi/debug/myplug.wasm";

/// A workspace whose own pane is plugin 3 on tab 1, in normal mode.
fn workspace() -> UpdateWorkspace {
    let mut workspace = UpdateWorkspace::new(Shortcut::ctrl_shift_r());
    workspace.update_own_plugin_id(3);
    workspace.update_base_mode(InputMode::Normal);
    workspace.update_pane_manifest(PaneManifest {
        panes: vec![
            pane(0, 0, false, None),
            pane(0, 3, false, None),
            pane(1, 3, true, Some("file:/dev.wasm")),
            pane(1, 1, false, None),
        ],
    });
    workspace
}

fn registration() -> Vec<Instruction> {
    vec![bind_key(InputMode::Normal, 3, &Shortcut::ctrl_shift_r())]
}

#[test]
fn new_workspace_knows_nothing() {
    let mut workspace = UpdateWorkspace::new(Shortcut::ctrl_shift_r());
    assert_eq!(workspace.get_own_plugin_id(), None);
    assert_eq!(workspace.get_reload_shortcut().as_str(), "Ctrl Shift r");
    assert_eq!(workspace.bind_key_if_not_bound_and_tab_is_focused(), vec![]);
    assert_eq!(workspace.pane_closed(PaneId::Plugin(0)), vec![]);
}

#[test]
fn own_plugin_id_is_kept() {
    let mut workspace = UpdateWorkspace::new(Shortcut::ctrl_shift_r());
    workspace.update_own_plugin_id(42);
    assert_eq!(workspace.get_own_plugin_id(), Some(42));
}

#[test]
fn tab_of_a_pane_is_that_of_the_first_plugin_pane_with_its_id() {
    let manifest = PaneManifest {
        panes: vec![
            pane(0, 7, false, None),
            pane(2, 7, true, None),
            pane(5, 7, true, None),
            pane(4, 8, true, None),
        ],
    };
    assert_eq!(get_tab_index_of_pane(7, &manifest), Some(2));
    assert_eq!(get_tab_index_of_pane(8, &manifest), Some(4));
    assert_eq!(get_tab_index_of_pane(9, &manifest), None);
    assert_eq!(get_tab_index_of_pane(7, &PaneManifest::new()), None);
}

#[test]
fn shortcut_is_bound_when_own_tab_is_in_focus() {
    let mut workspace = workspace();
    workspace.update_tab_infos(tabs(1, 3));
    assert_eq!(workspace.bind_key_if_not_bound_and_tab_is_focused(), registration());
}

#[test]
fn shortcut_is_not_bound_while_another_tab_is_in_focus() {
    let mut workspace = workspace();
    workspace.update_tab_infos(tabs(0, 3));
    assert_eq!(workspace.bind_key_if_not_bound_and_tab_is_focused(), vec![]);
    workspace.update_tab_infos(tabs(2, 3));
    assert_eq!(workspace.bind_key_if_not_bound_and_tab_is_focused(), vec![]);
}

#[test]
fn shortcut_is_not_bound_before_mode_and_identity_are_known() {
    let mut workspace = UpdateWorkspace::new(Shortcut::ctrl_shift_r());
    workspace.update_pane_manifest(PaneManifest { panes: vec![pane(0, 3, true, None)] });
    workspace.update_tab_infos(tabs(0, 1));
    assert_eq!(workspace.bind_key_if_not_bound_and_tab_is_focused(), vec![]);
    workspace.update_own_plugin_id(3);
    assert_eq!(workspace.bind_key_if_not_bound_and_tab_is_focused(), vec![]);
    workspace.update_base_mode(InputMode::Locked);
    assert_eq!(
        workspace.bind_key_if_not_bound_and_tab_is_focused(),
        vec![bind_key(InputMode::Locked, 3, &Shortcut::ctrl_shift_r())]
    );
}

#[test]
fn binding_twice_in_a_row_registers_once() {
    let mut workspace = workspace();
    workspace.update_tab_infos(tabs(1, 3));
    assert_eq!(workspace.bind_key_if_not_bound_and_tab_is_focused(), registration());
    assert_eq!(workspace.bind_key_if_not_bound_and_tab_is_focused(), vec![]);
    assert_eq!(workspace.bind_key_if_not_bound_and_tab_is_focused(), vec![]);
    workspace.update_tab_infos(tabs(1, 4));
    assert_eq!(workspace.bind_key_if_not_bound_and_tab_is_focused(), vec![]);
}

#[test]
fn latch_resets_when_the_tab_loses_focus() {
    let mut workspace = workspace();
    workspace.update_tab_infos(tabs(1, 3));
    assert_eq!(workspace.bind_key_if_not_bound_and_tab_is_focused(), registration());
    workspace.update_tab_infos(tabs(0, 3));
    assert_eq!(workspace.bind_key_if_not_bound_and_tab_is_focused(), vec![]);
    assert_eq!(workspace.bind_key_if_not_bound_and_tab_is_focused(), vec![]);
    workspace.update_tab_infos(tabs(1, 3));
    assert_eq!(workspace.bind_key_if_not_bound_and_tab_is_focused(), registration());
    assert_eq!(workspace.bind_key_if_not_bound_and_tab_is_focused(), vec![]);
}

#[test]
fn own_tab_is_remembered_when_the_pane_leaves_the_inventory() {
    let mut workspace = workspace();
    workspace.update_tab_infos(tabs(0, 3));
    assert_eq!(workspace.bind_key_if_not_bound_and_tab_is_focused(), vec![]);
    workspace.update_pane_manifest(PaneManifest::new());
    workspace.update_tab_infos(tabs(1, 3));
    assert_eq!(workspace.bind_key_if_not_bound_and_tab_is_focused(), registration());
}

#[test]
fn focus_is_kept_as_last_seen_when_the_tab_is_not_listed() {
    let mut workspace = workspace();
    workspace.update_tab_infos(tabs(1, 3));
    assert_eq!(workspace.bind_key_if_not_bound_and_tab_is_focused(), registration());
    workspace.update_tab_infos(vec![TabInfo { position: 0, active: true }]);
    assert_eq!(workspace.bind_key_if_not_bound_and_tab_is_focused(), vec![]);
    workspace.update_tab_infos(tabs(1, 3));
    assert_eq!(workspace.bind_key_if_not_bound_and_tab_is_focused(), vec![]);
}

#[test]
fn first_tab_at_the_position_decides() {
    let mut workspace = workspace();
    workspace.update_tab_infos(vec![
        TabInfo { position: 1, active: false },
        TabInfo { position: 1, active: true },
    ]);
    assert_eq!(workspace.bind_key_if_not_bound_and_tab_is_focused(), vec![]);
}

#[test]
fn plugin_pane_is_the_first_that_declares_the_address() {
    let mut workspace = workspace();
    workspace.update_pane_manifest(PaneManifest {
        panes: vec![
            pane(0, 1, true, Some("file:/other.wasm")),
            pane(0, 9, true, Some(URL)),
            pane(1, 4, true, Some(URL)),
        ],
    });
    workspace.update_plugin_pane_id(Some(URL.to_owned()));
    assert_eq!(workspace.pane_closed(PaneId::Plugin(4)), vec![]);
    assert_eq!(workspace.pane_closed(PaneId::Plugin(1)), vec![]);
    assert_eq!(workspace.pane_closed(PaneId::Terminal(9)), vec![]);
    assert_eq!(workspace.pane_closed(PaneId::Plugin(9)), vec![Instruction::CloseSelf]);
}

#[test]
fn plugin_pane_stays_once_found() {
    let mut workspace = workspace();
    workspace.update_pane_manifest(PaneManifest { panes: vec![pane(0, 9, true, Some(URL))] });
    workspace.update_plugin_pane_id(Some(URL.to_owned()));
    workspace.update_pane_manifest(PaneManifest {
        panes: vec![pane(0, 4, true, Some(URL)), pane(0, 9, true, Some(URL))],
    });
    workspace.update_plugin_pane_id(Some(URL.to_owned()));
    assert_eq!(workspace.pane_closed(PaneId::Plugin(4)), vec![]);
    assert_eq!(workspace.pane_closed(PaneId::Plugin(9)), vec![Instruction::CloseSelf]);
    workspace.update_pane_manifest(PaneManifest { panes: vec![pane(0, 4, true, Some(URL))] });
    workspace.update_plugin_pane_id(Some(URL.to_owned()));
    workspace.update_plugin_pane_id(Some("file:/other.wasm".to_owned()));
    workspace.update_plugin_pane_id(None);
    assert_eq!(workspace.pane_closed(PaneId::Plugin(4)), vec![]);
    assert_eq!(workspace.pane_closed(PaneId::Plugin(9)), vec![Instruction::CloseSelf]);
}

#[test]
fn plugin_pane_is_looked_for_again_until_found() {
    let mut workspace = workspace();
    workspace.update_plugin_pane_id(Some(URL.to_owned()));
    assert_eq!(workspace.pane_closed(PaneId::Plugin(3)), vec![]);
    workspace.update_pane_manifest(PaneManifest { panes: vec![pane(2, 6, true, Some(URL))] });
    workspace.update_plugin_pane_id(Some(URL.to_owned()));
    assert_eq!(workspace.pane_closed(PaneId::Plugin(6)), vec![Instruction::CloseSelf]);
}

#[test]
fn without_an_address_no_pane_is_taken() {
    let mut workspace = workspace();
    workspace.update_plugin_pane_id(None);
    assert_eq!(workspace.pane_closed(PaneId::Plugin(0)), vec![]);
    assert_eq!(workspace.pane_closed(PaneId::Plugin(1)), vec![]);
    assert_eq!(workspace.pane_closed(PaneId::Plugin(3)), vec![]);
    assert_eq!(workspace.rename_plugin_pane_if_needed(Some("dev".to_owned())), vec![]);
    workspace.update_plugin_pane_id(Some("file:/dev.wasm".to_owned()));
    assert_eq!(workspace.pane_closed(PaneId::Plugin(3)), vec![Instruction::CloseSelf]);
}

#[test]
fn pane_without_an_address_is_never_taken() {
    let mut workspace = workspace();
    workspace.update_pane_manifest(PaneManifest {
        panes: vec![pane(0, 0, false, None), pane(0, 1, true, None)],
    });
    workspace.update_plugin_pane_id(None);
    workspace.update_plugin_pane_id(Some(String::new()));
    workspace.update_plugin_pane_id(Some(URL.to_owned()));
    assert_eq!(workspace.pane_closed(PaneId::Plugin(0)), vec![]);
    assert_eq!(workspace.pane_closed(PaneId::Plugin(1)), vec![]);
}

#[test]
fn closing_the_plugin_pane_closes_the_controller() {
    let mut workspace = workspace();
    assert_eq!(workspace.pane_closed(PaneId::Plugin(3)), vec![]);
    workspace.update_plugin_pane_id(Some("file:/dev.wasm".to_owned()));
    assert_eq!(workspace.pane_closed(PaneId::Plugin(3)), vec![Instruction::CloseSelf]);
    assert_eq!(workspace.pane_closed(PaneId::Terminal(3)), vec![]);
    assert_eq!(workspace.pane_closed(PaneId::Plugin(2)), vec![]);
}

#[test]
fn plugin_pane_is_renamed_once() {
    let mut workspace = workspace();
    assert_eq!(workspace.rename_plugin_pane_if_needed(Some("dev".to_owned())), vec![]);
    workspace.update_plugin_pane_id(Some("file:/dev.wasm".to_owned()));
    assert_eq!(workspace.rename_plugin_pane_if_needed(None), vec![]);
    assert_eq!(
        workspace.rename_plugin_pane_if_needed(Some("dev".to_owned())),
        vec![Instruction::RenamePane {
            pane: PaneId::Plugin(3),
            name: "dev (<Ctrl-Shift r> to rebuild)".to_owned(),
        }]
    );
    assert_eq!(workspace.rename_plugin_pane_if_needed(Some("dev".to_owned())), vec![]);
    assert_eq!(workspace.rename_plugin_pane_if_needed(Some("other".to_owned())), vec![]);
}

#[test]
fn title_names_the_configured_shortcut() {
    let mut workspace = workspace();
    workspace.update_reload_shortcut("alt b");
    workspace.update_plugin_pane_id(Some("file:/dev.wasm".to_owned()));
    assert_eq!(
        workspace.rename_plugin_pane_if_needed(Some("dev".to_owned())),
        vec![Instruction::RenamePane {
            pane: PaneId::Plugin(3),
            name: "dev (<Alt b> to rebuild)".to_owned(),
        }]
    );
}

#[test]
fn shortcut_is_replaced_by_one_that_is_understood() {
    let mut workspace = workspace();
    workspace.update_reload_shortcut("ctrl b");
    assert_eq!(workspace.get_reload_shortcut().as_str(), "Ctrl b");
    workspace.update_tab_infos(tabs(1, 2));
    assert_eq!(
        workspace.bind_key_if_not_bound_and_tab_is_focused(),
        vec![bind_key(InputMode::Normal, 3, &Shortcut::parse("Ctrl b").expect("a key"))]
    );
}

#[test]
fn shortcut_stays_where_the_new_one_is_not_understood() {
    let mut workspace = workspace();
    workspace.update_reload_shortcut("not a key");
    assert_eq!(workspace.get_reload_shortcut().as_str(), "Ctrl Shift r");
    workspace.update_reload_shortcut("");
    assert_eq!(workspace.get_reload_shortcut().as_str(), "Ctrl Shift r");
    workspace.apply_parsed_shortcut(None);
    assert_eq!(workspace.get_reload_shortcut().as_str(), "Ctrl Shift r");
    workspace.apply_parsed_shortcut(Shortcut::parse("F2"));
    assert_eq!(workspace.get_reload_shortcut().as_str(), "F2");
}

#[test]
fn looking_up_the_tab_opens_the_latch_when_out_of_focus() {
    let mut workspace = workspace();
    workspace.update_tab_infos(tabs(1, 3));
    assert_eq!(workspace.bind_key_if_not_bound_and_tab_is_focused(), registration());
    workspace.update_tab_infos(tabs(2, 3));
    workspace.derive_tab_activity();
    workspace.update_tab_infos(tabs(1, 3));
    assert_eq!(workspace.bind_key_if_not_bound_and_tab_is_focused(), registration());
}

#[test]
fn title_for_the_usual_shortcut() {
    let mut workspace = UpdateWorkspace::new(Shortcut::ctrl_shift_r());
    workspace.update_pane_manifest(PaneManifest { panes: vec![pane(0, 4, true, Some(URL))] });
    workspace.update_plugin_pane_id(Some(URL.to_owned()));
    assert_eq!(
        workspace.rename_plugin_pane_if_needed(Some("myplug".to_owned())),
        vec![Instruction::RenamePane {
            pane: PaneId::Plugin(4),
            name: "myplug (<Ctrl-Shift r> to rebuild)".to_owned(),
        }]
    );
    assert_eq!(workspace.rename_plugin_pane_if_needed(Some("myplug".to_owned())), vec![]);
}

#[test]
fn title_joins_all_modifiers() {
    let mut workspace = workspace();
    workspace.update_reload_shortcut("super shift alt ctrl F5");
    workspace.update_plugin_pane_id(Some("file:/dev.wasm".to_owned()));
    assert_eq!(
        workspace.rename_plugin_pane_if_needed(Some("dev".to_owned())),
        vec![Instruction::RenamePane {
            pane: PaneId::Plugin(3),
            name: "dev (<Ctrl-Alt-Shift-Super F5> to rebuild)".to_owned(),
        }]
    );
}

#[test]
fn title_for_a_key_without_modifiers() {
    let mut workspace = workspace();
    workspace.update_reload_shortcut("F2");
    workspace.update_plugin_pane_id(Some("file:/dev.wasm".to_owned()));
    assert_eq!(
        workspace.rename_plugin_pane_if_needed(Some("dev".to_owned())),
        vec![Instruction::RenamePane {
            pane: PaneId::Plugin(3),
            name: "dev (<F2> to rebuild)".to_owned(),
        }]
    );
}
