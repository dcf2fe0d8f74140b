//! The controller's panel: what it says, and where on the pane each line
//! goes. Drawing it is left to the caller.

use vstd::prelude::*;

verus! {

/// A stretch of a line that is shown in a colour of the host's palette.
#[derive(Clone, Copy, Debug, PartialEq, Eq, Structural)]
pub struct ColorRange {
    /// The place of the colour in the palette.
    pub color: usize,
    /// The first character of the stretch, counted from 0.
    pub start: usize,
    /// The last character of the stretch; without one it runs to the end of
    /// the line.
    pub end: Option<usize>,
}

/// One line of the panel.
#[derive(Clone, Debug, PartialEq, Eq)]
pub struct PanelLine {
    pub text: String,
    /// The column of the first character.
    pub x: usize,
    /// The row of the line.
    pub y: usize,
    pub colors: Vec<ColorRange>,
}

/// A line as contracts speak of it.
pub struct PanelLineView {
    pub text: Seq<char>,
    pub x: int,
    pub y: int,
    pub colors: Seq<ColorRange>,
}

impl View for PanelLine {
    type V = PanelLineView;

    open spec fn view(&self) -> PanelLineView {
        PanelLineView {
            text: self.text@,
            x: self.x as int,
            y: self.y as int,
            colors: self.colors@,
        }
    }
}

/// What a list of lines holds, from the top down.
pub open spec fn lines_of(lines: Seq<PanelLine>) -> Seq<PanelLineView> {
    Seq::new(lines.len(), |i: int| lines[i]@)
}

/// The stretch from `start` to `end`, both included, in the colour `color`.
pub open spec fn span(color: usize, start: nat, end: nat) -> ColorRange {
    ColorRange { color, start: start as usize, end: Some(end as usize) }
}

/// Where something `used` wide begins when centred in `space`: at half of
/// what is left over, rounded down; at 0 where nothing is left over.
pub open spec fn centered(space: int, used: int) -> int {
    if space > used {
        (space - used) / 2
    } else {
        0
    }
}

/// The directory as the panel names it.
pub open spec fn shown_folder(cwd: Option<Seq<char>>) -> Seq<char> {
    match cwd {
        Some(cwd) => cwd,
        None => "<NOT SET>"@,
    }
}

/// The line that names the directory.
pub open spec fn folder_line(folder: Seq<char>) -> Seq<char> {
    "Current Folder: "@ + folder + " <Ctrl f> to change"@
}

/// The line that names the shortcut.
pub open spec fn shortcut_line(shortcut: Seq<char>) -> Seq<char> {
    "Press <"@ + shortcut + "> to:"@
}

/// The first line of the explanation.
pub open spec fn intro_line() -> Seq<char> {
    "This plugin will help you develop a Zellij plugin in Rust."@
}

/// The width that the panel is centred by: that of the longer of the line
/// that names the directory and the first line of the explanation.
pub open spec fn panel_width(folder: Seq<char>) -> int {
    if folder_line(folder).len() >= intro_line().len() {
        folder_line(folder).len() as int
    } else {
        intro_line().len() as int
    }
}

/// The panel on a pane of `rows` by `cols`: seven lines over ten rows,
/// centred, the two steps indented by two columns.
pub open spec fn panel(shortcut: Seq<char>, cwd: Option<Seq<char>>, rows: usize, cols: usize)
    -> Seq<PanelLineView> {
    let folder = shown_folder(cwd);
    let x = centered(cols as int, panel_width(folder));
    let y = centered(rows as int, 10);
    seq![
        PanelLineView {
            text: "Develop Zellij Plugin"@,
            x,
            y,
            colors: seq![ColorRange { color: 2, start: 0, end: None }],
        },
        PanelLineView { text: intro_line(), x, y: y + 1, colors: Seq::empty() },
        PanelLineView {
            text: shortcut_line(shortcut),
            x,
            y: y + 3,
            colors: seq![span(3, 6, 7 + shortcut.len())],
        },
        PanelLineView {
            text: "1. Run cargo build"@,
            x: x + 2,
            y: y + 4,
            colors: seq![span(0, 7, 17)],
        },
        PanelLineView {
            text: "2. Load or Reload the plugin"@,
            x: x + 2,
            y: y + 5,
            colors: Seq::empty(),
        },
        PanelLineView {
            text: "Closing the plugin window will close this plugin."@,
            x,
            y: y + 7,
            colors: Seq::empty(),
        },
        PanelLineView {
            text: folder_line(folder),
            x,
            y: y + 9,
            colors: seq![
                span(0, 16, 16 + folder.len()),
                span(3, 16 + folder.len() + 1, 16 + folder.len() + 9),
            ],
        },
    ]
}

/// Where something `used` wide begins when centred in `space`.
fn center(space: usize, used: usize) -> (start: usize)
    ensures
        start == centered(space as int, used as int),
        start <= space / 2,
{
    if space > used {
        (space - used) / 2
    } else {
        0
    }
}

/// A line without colours.
fn plain_line(text: &str, x: usize, y: usize) -> (line: PanelLine)
    ensures
        line@ == (PanelLineView {
            text: text@,
            x: x as int,
            y: y as int,
            colors: Seq::<ColorRange>::empty(),
        }),
{
    PanelLine { text: String::from_str(text), x, y, colors: Vec::new() }
}

/// The lines of the panel for a pane of `rows` by `cols`, with the shortcut
/// and the directory that they name.
pub fn panel_lines(shortcut: &str, cwd: Option<&str>, rows: usize, cols: usize) -> (lines: Vec<
    PanelLine,
>)
    ensures
        lines_of(lines@) == panel(
            shortcut@,
            match cwd {
                Some(cwd) => Some(cwd@),
                None => None,
            },
            rows,
            cols,
        ),
{
    let ghost cwd_view: Option<Seq<char>> = match cwd {
        Some(cwd) => Some(cwd@),
        None => None,
    };
    let ghost folder = shown_folder(cwd_view);
    let folder_str: &str = match cwd {
        Some(cwd) => cwd,
        None => "<NOT SET>",
    };
    let mut folder_text = String::from_str("Current Folder: ");
    folder_text.append(folder_str);
    folder_text.append(" <Ctrl f> to change");
    let mut shortcut_text = String::from_str("Press <");
    shortcut_text.append(shortcut);
    shortcut_text.append("> to:");
    let intro = "This plugin will help you develop a Zellij plugin in Rust.";
    proof {
        reveal_strlit("Current Folder: ");
        reveal_strlit(" <Ctrl f> to change");
        reveal_strlit("Press <");
        reveal_strlit("> to:");
    }
    let folder_width = folder_text.as_str().unicode_len();
    let shortcut_width = shortcut_text.as_str().unicode_len();
    let intro_width = intro.unicode_len();
    assert(folder_width == 16 + folder.len() + 19);
    assert(shortcut_width == 7 + shortcut@.len() + 5);
    let folder_len = folder_width - 35;
    let shortcut_len = shortcut_width - 12;
    let width = if folder_width >= intro_width {
        folder_width
    } else {
        intro_width
    };
    let x = center(cols, width);
    let y = center(rows, 10);

    let mut lines: Vec<PanelLine> = Vec::new();
    let mut title = plain_line("Develop Zellij Plugin", x, y);
    title.colors.push(ColorRange { color: 2, start: 0, end: None });
    lines.push(title);
    lines.push(plain_line(intro, x, y + 1));
    let mut press = PanelLine { text: shortcut_text, x, y: y + 3, colors: Vec::new() };
    press.colors.push(ColorRange { color: 3, start: 6, end: Some(7 + shortcut_len) });
    lines.push(press);
    let mut first_step = plain_line("1. Run cargo build", x + 2, y + 4);
    first_step.colors.push(ColorRange { color: 0, start: 7, end: Some(17) });
    lines.push(first_step);
    lines.push(plain_line("2. Load or Reload the plugin", x + 2, y + 5));
    lines.push(plain_line("Closing the plugin window will close this plugin.", x, y + 7));
    let mut current = PanelLine { text: folder_text, x, y: y + 9, colors: Vec::new() };
    current.colors.push(ColorRange { color: 0, start: 16, end: Some(16 + folder_len) });
    current.colors.push(
        ColorRange { color: 3, start: 16 + folder_len + 1, end: Some(16 + folder_len + 9) },
    );
    lines.push(current);
    proof {
        let wanted = panel(shortcut@, cwd_view, rows, cols);
        assert(lines_of(lines@).len() == 7);
        assert(lines_of(lines@)[0] == wanted[0]) by {
            assert(lines@[0].colors@ =~= wanted[0].colors);
        }
        assert(lines_of(lines@)[1] == wanted[1]);
        assert(lines_of(lines@)[2] == wanted[2]) by {
            assert(lines@[2].colors@ =~= wanted[2].colors);
        }
        assert(lines_of(lines@)[3] == wanted[3]) by {
            assert(lines@[3].colors@ =~= wanted[3].colors);
        }
        assert(lines_of(lines@)[4] == wanted[4]);
        assert(lines_of(lines@)[5] == wanted[5]);
        assert(lines_of(lines@)[6] == wanted[6]) by {
            assert(lines@[6].colors@ =~= wanted[6].colors);
        }
        assert(lines_of(lines@) =~= wanted);
    }
    lines
}

} // verus!
