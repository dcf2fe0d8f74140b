use plugin_reloader::panel::{panel_lines, ColorRange, PanelLine};

fn line(text: &str, x: usize, y: usize, colors: Vec<ColorRange>) -> PanelLine {
    PanelLine { text: text.to_owned(), x, y, colors }
}

fn range(color: usize, start: usize, end: usize) -> ColorRange {
    ColorRange { color, start, end: Some(end) }
}

#[test]
fn panel_is_centred_by_its_longest_line() {
    // The first line of the explanation is 58 wide: (80 - 58) / 2 = 11, (24 - 10) / 2 = 7.
    let lines = panel_lines("Ctrl Shift r", Some("/home/u/myplug"), 24, 80);
    assert_eq!(
        lines,
        vec![
            line("Develop Zellij Plugin", 11, 7, vec![ColorRange { color: 2, start: 0, end: None }]),
            line("This plugin will help you develop a Zellij plugin in Rust.", 11, 8, vec![]),
            line("Press <Ctrl Shift r> to:", 11, 10, vec![range(3, 6, 19)]),
            line("1. Run cargo build", 13, 11, vec![range(0, 7, 17)]),
            line("2. Load or Reload the plugin", 13, 12, vec![]),
            line("Closing the plugin window will close this plugin.", 11, 14, vec![]),
            line(
                "Current Folder: /home/u/myplug <Ctrl f> to change",
                11,
                16,
                vec![range(0, 16, 30), range(3, 31, 39)],
            ),
        ]
    );
}

#[test]
fn long_directory_decides_the_width() {
    let cwd = "/a/very/long/way/down/to/the/place/of/the/plugin";
    assert_eq!(cwd.len(), 48);
    // The last line is 16 + 48 + 19 = 83 wide: (100 - 83) / 2 = 8.
    let lines = panel_lines("F5", Some(cwd), 11, 100);
    assert_eq!(lines[0].x, 8);
    assert_eq!(lines[3].x, 10);
    assert_eq!(lines[0].y, 0);
    assert_eq!(lines[6].y, 9);
    assert_eq!(lines[6].colors, vec![range(0, 16, 64), range(3, 65, 73)]);
    assert_eq!(lines[2].colors, vec![range(3, 6, 9)]);
}

#[test]
fn panel_without_directory_says_so() {
    let lines = panel_lines("Ctrl Shift r", None, 24, 80);
    assert_eq!(lines[6].text, "Current Folder: <NOT SET> <Ctrl f> to change");
    assert_eq!(lines[6].colors, vec![range(0, 16, 25), range(3, 26, 34)]);
}

#[test]
fn small_pane_starts_at_the_corner() {
    for (rows, cols) in [(0, 0), (10, 58), (3, 20), (11, 59)] {
        let lines = panel_lines("Ctrl Shift r", None, rows, cols);
        assert_eq!(lines.len(), 7);
        assert_eq!((lines[0].x, lines[0].y), (0, 0));
        assert_eq!((lines[4].x, lines[4].y), (2, 5));
        assert_eq!((lines[6].x, lines[6].y), (0, 9));
    }
    let lines = panel_lines("Ctrl Shift r", None, 12, 60);
    assert_eq!((lines[0].x, lines[0].y), (1, 1));
}

#[test]
fn characters_are_counted_not_bytes() {
    let lines = panel_lines("←", Some("/ü"), 24, 80);
    assert_eq!(lines[2].text, "Press <←> to:");
    assert_eq!(lines[2].colors, vec![range(3, 6, 8)]);
    assert_eq!(lines[6].colors, vec![range(0, 16, 18), range(3, 19, 27)]);
}

#[test]
fn huge_pane_does_not_overflow() {
    let lines = panel_lines("Ctrl Shift r", None, usize::MAX, usize::MAX);
    assert_eq!(lines[0].x, (usize::MAX - 58) / 2);
    assert_eq!(lines[6].y, (usize::MAX - 10) / 2 + 9);
    assert_eq!(lines[3].x, (usize::MAX - 58) / 2 + 2);
}
