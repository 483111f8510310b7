//! The renderer: what a frame shows for a state and a terminal size, as a list
//! of styled lines. Drawing them is left to the caller.

use vstd::prelude::*;
use crate::store::{App, AppView, Mode, Task, TaskView};
use crate::text::{decimal, decimal_of, pad_to, padded};

verus! {

/// How a line of the frame is drawn.
#[derive(Clone, Copy, Debug, PartialEq, Eq, Structural)]
pub enum Style {
    /// The title bar: light text on a blue band.
    Banner,
    /// The instruction line of a text mode.
    Prompt,
    /// The echo of the input buffer.
    Echo,
    /// The placeholder of an empty list.
    Hint,
    /// The selected task, highlighted.
    Selected,
    /// A completed task, dimmed.
    Done,
    /// An open task.
    Pending,
    /// The status bar on the last row.
    Footer,
}

/// One line of a frame: `text` in `style` from the left edge of `row`, then
/// `note` (a task's description, possibly empty) dimmed on the same row.
pub struct Line {
    pub row: u16,
    pub style: Style,
    pub text: String,
    pub note: String,
}

/// What a line holds, as mathematical values.
pub struct LineView {
    pub row: nat,
    pub style: Style,
    pub text: Seq<char>,
    pub note: Seq<char>,
}

impl View for Line {
    type V = LineView;

    open spec fn view(&self) -> LineView {
        LineView { row: self.row as nat, style: self.style, text: self.text@, note: self.note@ }
    }
}

/// The views of a list of lines.
pub open spec fn lines_view(v: Seq<Line>) -> Seq<LineView> {
    v.map_values(|l: Line| l@)
}

/// The fixed text of the title bar.
pub open spec fn header_text() -> Seq<char> {
    " RTasks - Terminal Task Manager"@
}

/// The hint shown in place of an empty list.
pub open spec fn placeholder_text() -> Seq<char> {
    "No tasks yet. Press 'A' to add your first task!"@
}

/// The status bar in command mode: the key legend.
pub open spec fn legend_text() -> Seq<char> {
    " Controls: Up/Down: Navigate | Space: Toggle | A: Add | E: Edit | D: Edit Desc | Del: Delete | Q: Quit"@
}

/// The status bar in the text modes.
pub open spec fn confirm_text() -> Seq<char> {
    " Press Enter to confirm | Esc to cancel"@
}

/// The instruction line of each text mode.
pub open spec fn prompt_text(m: Mode) -> Seq<char> {
    match m {
        Mode::AddTitle => "Adding new task. Type title and press Enter (Esc to cancel):"@,
        Mode::EditTitle => "Editing task title. Type new title and press Enter (Esc to cancel):"@,
        Mode::EditDescription => "Editing description. Type new description and press Enter (Esc to cancel):"@,
        Mode::Normal => Seq::empty(),
    }
}

/// `[X] <id> <title>` for a completed task, `[ ] <id> <title>` for an open one.
pub open spec fn task_text(t: TaskView) -> Seq<char> {
    (if t.completed {
        "[X]"@
    } else {
        "[ ]"@
    }) + " "@ + decimal_of(t.id) + " "@ + t.title
}

/// ` - <description>`, or nothing for an empty description.
pub open spec fn task_note(t: TaskView) -> Seq<char> {
    if t.description.len() > 0 {
        " - "@ + t.description
    } else {
        Seq::empty()
    }
}

/// The selected task is highlighted in command mode; otherwise completed
/// tasks are dimmed.
pub open spec fn task_style(s: AppView, i: int) -> Style {
    if i == s.selected && s.mode == Mode::Normal {
        Style::Selected
    } else if s.tasks[i].completed {
        Style::Done
    } else {
        Style::Pending
    }
}

/// The first row of the task list.
pub open spec fn list_start(s: AppView) -> nat {
    if s.mode == Mode::Normal {
        2
    } else {
        5
    }
}

/// The row below the last one the task list may use.
pub open spec fn list_end(rows: nat) -> nat {
    if rows >= 2 {
        (rows - 2) as nat
    } else {
        0
    }
}

/// How many tasks fit: those that would start above `list_end`.
pub open spec fn shown(len: nat, start: nat, end: nat) -> nat {
    if end <= start {
        0
    } else if len < end - start {
        len
    } else {
        (end - start) as nat
    }
}

/// The line of the `i`-th task.
pub open spec fn task_line(s: AppView, i: int) -> LineView {
    LineView {
        row: list_start(s) + i as nat,
        style: task_style(s, i),
        text: task_text(s.tasks[i]),
        note: task_note(s.tasks[i]),
    }
}

/// The lines of the text-mode area: the instruction and the buffer's echo.
pub open spec fn input_lines(s: AppView) -> Seq<LineView> {
    if s.mode == Mode::Normal {
        Seq::empty()
    } else {
        seq![
            LineView { row: 2, style: Style::Prompt, text: prompt_text(s.mode), note: Seq::empty() },
            LineView { row: 3, style: Style::Echo, text: "> "@ + s.buffer, note: Seq::empty() },
        ]
    }
}

/// The task list, or the placeholder for an empty list.
pub open spec fn list_lines(s: AppView, rows: nat) -> Seq<LineView> {
    if s.tasks.len() == 0 {
        seq![
            LineView {
                row: list_start(s),
                style: Style::Hint,
                text: placeholder_text(),
                note: Seq::empty(),
            },
        ]
    } else {
        Seq::new(shown(s.tasks.len(), list_start(s), list_end(rows)), |i: int| task_line(s, i))
    }
}

/// The status bar on the last row, if there is a row.
pub open spec fn footer_lines(s: AppView, cols: nat, rows: nat) -> Seq<LineView> {
    if rows == 0 {
        Seq::empty()
    } else {
        let text = if s.mode == Mode::Normal {
            legend_text()
        } else {
            confirm_text()
        };
        seq![
            LineView {
                row: (rows - 1) as nat,
                style: Style::Footer,
                text: padded(text, cols),
                note: Seq::empty(),
            },
        ]
    }
}

/// The frame for state `s` on a terminal of `cols` by `rows`, top to bottom.
pub open spec fn frame(s: AppView, cols: nat, rows: nat) -> Seq<LineView> {
    seq![
        LineView {
            row: 0,
            style: Style::Banner,
            text: padded(header_text(), cols),
            note: Seq::empty(),
        },
    ] + input_lines(s) + list_lines(s, rows) + footer_lines(s, cols, rows)
}

fn plain_line(row: u16, style: Style, text: String) -> (r: Line)
    ensures
        r@ == (LineView { row: row as nat, style, text: text@, note: Seq::empty() }),
{
    let note = String::new();
    proof {
        assert(note@ =~= Seq::<char>::empty());
    }
    Line { row, style, text, note }
}

fn render_task(app: &App, i: usize, row: u16) -> (r: Line)
    requires
        i < app.tasks@.len(),
        row == list_start(app@) + i,
    ensures
        r@ == task_line(app@, i as int),
{
    let t = &app.tasks[i];
    let ghost tv = app@.tasks[i as int];
    let mut text = String::from_str(if t.completed {
        "[X]"
    } else {
        "[ ]"
    });
    text.append(" ");
    text.append(decimal(t.id).as_str());
    text.append(" ");
    text.append(t.title.as_str());
    let note = if t.description.as_str().unicode_len() > 0 {
        String::from_str(" - ").concat(t.description.as_str())
    } else {
        String::new()
    };
    let style = if i == app.selected_index && app.mode == Mode::Normal {
        Style::Selected
    } else if t.completed {
        Style::Done
    } else {
        Style::Pending
    };
    proof {
        assert(text@ =~= task_text(tv));
        assert(note@ =~= task_note(tv));
    }
    Line { row, style, text, note }
}

/// One entry of the plain task listing: a status mark, the id in brackets, the
/// title, and ` - <description>` when there is a description.
pub open spec fn entry_text(t: TaskView) -> Seq<char> {
    (if t.completed {
        "\u{2705}"@
    } else {
        "\u{2b1c}"@
    }) + " ["@ + decimal_of(t.id) + "] "@ + t.title + task_note(t)
}

/// The line that the plain listing prints for `t`.
pub fn list_entry(t: &Task) -> (r: String)
    ensures
        r@ == entry_text(t@),
{
    let mut text = String::from_str(if t.completed {
        "\u{2705}"
    } else {
        "\u{2b1c}"
    });
    text.append(" [");
    text.append(decimal(t.id).as_str());
    text.append("] ");
    text.append(t.title.as_str());
    if t.description.as_str().unicode_len() > 0 {
        text.append(" - ");
        text.append(t.description.as_str());
    }
    proof {
        assert(text@ =~= entry_text(t@));
    }
    text
}

/// The lines that a frame for `app` shows on a terminal of `cols` columns and
/// `rows` rows.
pub fn render(app: &App, cols: u16, rows: u16) -> (r: Vec<Line>)
    ensures
        lines_view(r@) == frame(app@, cols as nat, rows as nat),
{
    let ghost s = app@;
    let mut out: Vec<Line> = Vec::new();
    out.push(plain_line(0, Style::Banner, pad_to(" RTasks - Terminal Task Manager", cols as usize)));
    let mut start: u16 = 2;
    if app.mode != Mode::Normal {
        let prompt = match app.mode {
            Mode::AddTitle => "Adding new task. Type title and press Enter (Esc to cancel):",
            Mode::EditTitle => "Editing task title. Type new title and press Enter (Esc to cancel):",
            Mode::EditDescription => "Editing description. Type new description and press Enter (Esc to cancel):",
            Mode::Normal => "",
        };
        out.push(plain_line(2, Style::Prompt, String::from_str(prompt)));
        let echo = String::from_str("> ").concat(app.input_buffer.as_str());
        out.push(plain_line(3, Style::Echo, echo));
        start = 5;
    }
    let ghost head = lines_view(out@);
    proof {
        assert(head =~= seq![frame(s, cols as nat, rows as nat)[0]] + input_lines(s));
    }
    let end: u16 = if rows >= 2 {
        rows - 2
    } else {
        0
    };
    if app.tasks.is_empty() {
        out.push(
            plain_line(start, Style::Hint, String::from_str("No tasks yet. Press 'A' to add your first task!")),
        );
        proof {
            assert(lines_view(out@) =~= head + list_lines(s, rows as nat));
        }
    } else {
        let n = app.tasks.len();
        let mut i: usize = 0;
        while i < n && (start as usize) + i < end as usize
            invariant
                n == s.tasks.len(),
                s == app@,
                start == list_start(s),
                end == list_end(rows as nat),
                i <= shown(n as nat, start as nat, end as nat),
                lines_view(out@) == head + Seq::new(i as nat, |j: int| task_line(s, j)),
            decreases n - i,
        {
            let line = render_task(app, i, start + i as u16);
            let ghost before = lines_view(out@);
            out.push(line);
            proof {
                assert(lines_view(out@) =~= before.push(line@));
                assert(lines_view(out@) =~= head + Seq::new((i + 1) as nat, |j: int| task_line(s, j)));
            }
            i = i + 1;
        }
        proof {
            assert(i == shown(n as nat, start as nat, end as nat));
            assert(lines_view(out@) =~= head + list_lines(s, rows as nat));
        }
    }
    let ghost body = lines_view(out@);
    if rows > 0 {
        let status = if app.mode == Mode::Normal {
            " Controls: Up/Down: Navigate | Space: Toggle | A: Add | E: Edit | D: Edit Desc | Del: Delete | Q: Quit"
        } else {
            " Press Enter to confirm | Esc to cancel"
        };
        out.push(plain_line(rows - 1, Style::Footer, pad_to(status, cols as usize)));
    }
    proof {
        assert(lines_view(out@) =~= body + footer_lines(s, cols as nat, rows as nat));
        assert(lines_view(out@) =~= frame(s, cols as nat, rows as nat));
    }
    out
}

} // verus!
