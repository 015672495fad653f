//! The renderer's logic: the answer table, the text every frame shows, and
//! the rectangle arithmetic of the layout. All of it is a pure projection
//! from the application record and the terminal size; emitting the frame is
//! the caller's business.

use vstd::prelude::*;

use crate::machine::{App, State, ANSWER_COUNT};

verus! {

/// The text of answer `i`, as the device face fixes it.
pub open spec fn answer_view(i: int) -> Seq<char> {
    if i == 0 {
        "DEFINITELY"@
    } else if i == 1 {
        "FORGET IT"@
    } else if i == 2 {
        "ASK AGAIN"@
    } else if i == 3 {
        "NEVER"@
    } else if i == 4 {
        "POSSIBLY"@
    } else {
        "WHY NOT"@
    }
}

/// The answer printed in cell `i`.
pub fn answer_text(i: usize) -> (r: &'static str)
    requires
        i < ANSWER_COUNT,
    ensures
        r@ == answer_view(i as int),
{
    if i == 0 {
        "DEFINITELY"
    } else if i == 1 {
        "FORGET IT"
    } else if i == 2 {
        "ASK AGAIN"
    } else if i == 3 {
        "NEVER"
    } else if i == 4 {
        "POSSIBLY"
    } else {
        "WHY NOT"
    }
}

/// The cell rendered highlighted, if any: the moving light while animating,
/// the settled answer while showing, none while idle.
pub open spec fn spec_active_index(s: State) -> Option<usize> {
    match s {
        State::Idle => None,
        State::Animating { current_index, .. } => Some(current_index),
        State::Showing { index, .. } => Some(index),
    }
}

/// Which cell to draw in the highlight style.
pub fn active_index(app: &App) -> (r: Option<usize>)
    ensures
        r == spec_active_index(app.state),
{
    match app.state {
        State::Idle => None,
        State::Animating { current_index, .. } => Some(current_index),
        State::Showing { index, .. } => Some(index),
    }
}

/// The headline of the header panel.
pub fn header_title() -> (r: &'static str)
    ensures
        r@ == "EXECUTIVE DECISION MAKER"@,
{
    "EXECUTIVE DECISION MAKER"
}

/// The fixed invitation line of the header panel.
pub fn header_invite_line() -> (r: &'static str)
    ensures
        r@ == "Think of your question, then press Enter or Space to consult the oracle."@,
{
    "Think of your question, then press Enter or Space to consult the oracle."
}

/// The context line the header shows for the given record.
pub open spec fn header_context_view(app: App) -> Seq<char> {
    match app.state {
        State::Animating { .. } => "Lights are shuffling... hold tight!"@,
        State::Showing { .. } => "Final answer locked in. Ask again any time."@,
        State::Idle => if app.last_answer is None {
            "Need instructions? Press Ctrl+H for help."@
        } else {
            "Ready for another? Press Enter or Space to ask again."@
        },
    }
}

/// The last line of the header panel, chosen by state.
pub fn header_context_line(app: &App) -> (r: &'static str)
    ensures
        r@ == header_context_view(*app),
{
    match app.state {
        State::Animating { .. } => "Lights are shuffling... hold tight!",
        State::Showing { .. } => "Final answer locked in. Ask again any time.",
        State::Idle => if app.last_answer.is_none() {
            "Need instructions? Press Ctrl+H for help."
        } else {
            "Ready for another? Press Enter or Space to ask again."
        },
    }
}

/// The status line of the footer for the given record: while a settled
/// answer is on show (or remembered in idle) it names that answer.
pub open spec fn footer_status_view(app: App) -> Seq<char> {
    match app.state {
        State::Animating { .. } => "Consulting the oracle..."@,
        State::Showing { index, .. } => "Answer: "@ + answer_view(index as int),
        State::Idle => match app.last_answer {
            Some(i) => "Final Answer: "@ + answer_view(i as int),
            None => "Ready when you are."@,
        },
    }
}

/// The first line of the footer panel, chosen by state.
pub fn footer_status_line(app: &App) -> (r: String)
    requires
        app.wf(),
    ensures
        r@ == footer_status_view(*app),
{
    match app.state {
        State::Animating { .. } => String::from_str("Consulting the oracle..."),
        State::Showing { index, .. } => String::from_str("Answer: ").concat(answer_text(index)),
        State::Idle => match app.last_answer {
            Some(i) => String::from_str("Final Answer: ").concat(answer_text(i)),
            None => String::from_str("Ready when you are."),
        },
    }
}

/// The hint line of the footer for the given record.
pub open spec fn footer_hint_view(app: App) -> Seq<char> {
    match app.state {
        State::Animating { .. } => "Lights flash in random order before the final answer appears."@,
        State::Showing { .. } => "Highlight stays on briefly so you can see the result."@,
        State::Idle => if app.last_answer is None {
            "Press Enter/Space to ask · Ctrl+H for help · q/Esc to quit"@
        } else {
            "Press Enter/Space to ask again · Ctrl+H for help · q/Esc to quit"@
        },
    }
}

/// The last line of the footer panel, chosen by state.
pub fn footer_hint_line(app: &App) -> (r: &'static str)
    ensures
        r@ == footer_hint_view(*app),
{
    match app.state {
        State::Animating { .. } => "Lights flash in random order before the final answer appears.",
        State::Showing { .. } => "Highlight stays on briefly so you can see the result.",
        State::Idle => if app.last_answer.is_none() {
            "Press Enter/Space to ask · Ctrl+H for help · q/Esc to quit"
        } else {
            "Press Enter/Space to ask again · Ctrl+H for help · q/Esc to quit"
        },
    }
}

/// Number of lines in the help overlay's text.
pub const HELP_LINE_COUNT: usize = 11;

/// Line `i` of the help overlay's text.
pub open spec fn help_line_view(i: int) -> Seq<char> {
    if i == 0 {
        "EXECUTIVE DECISION MAKER"@
    } else if i == 1 {
        ""@
    } else if i == 2 {
        "How to play:"@
    } else if i == 3 {
        "  - Press Enter or Space to light up a random answer."@
    } else if i == 4 {
        "  - The highlighted answer stays on for about 1.5 s."@
    } else if i == 5 {
        ""@
    } else if i == 6 {
        "Controls:"@
    } else if i == 7 {
        "  Enter / Space    Ask (or close this help)"@
    } else if i == 8 {
        "  Ctrl+H           Toggle help"@
    } else if i == 9 {
        "  q / Esc          Quit (Esc closes help first)"@
    } else {
        "  Ctrl+C           Quit immediately"@
    }
}

/// Line `i` of the fixed help text shown by the overlay.
pub fn help_line(i: usize) -> (r: &'static str)
    requires
        i < HELP_LINE_COUNT,
    ensures
        r@ == help_line_view(i as int),
{
    if i == 0 {
        "EXECUTIVE DECISION MAKER"
    } else if i == 1 {
        ""
    } else if i == 2 {
        "How to play:"
    } else if i == 3 {
        "  - Press Enter or Space to light up a random answer."
    } else if i == 4 {
        "  - The highlighted answer stays on for about 1.5 s."
    } else if i == 5 {
        ""
    } else if i == 6 {
        "Controls:"
    } else if i == 7 {
        "  Enter / Space    Ask (or close this help)"
    } else if i == 8 {
        "  Ctrl+H           Toggle help"
    } else if i == 9 {
        "  q / Esc          Quit (Esc closes help first)"
    } else {
        "  Ctrl+C           Quit immediately"
    }
}

/// A rectangle of terminal cells, in the terminal's coordinates.
#[derive(Clone, Copy, PartialEq, Eq, Structural, Debug)]
pub struct Rect {
    pub x: u16,
    pub y: u16,
    pub width: u16,
    pub height: u16,
}

impl Rect {
    /// The rectangle stays addressable: its far corner fits in a cell count.
    pub open spec fn bounded(self) -> bool {
        self.x + self.width <= u16::MAX && self.y + self.height <= u16::MAX
    }
}

/// `inner` lies entirely inside `outer`.
pub open spec fn rect_within(inner: Rect, outer: Rect) -> bool {
    &&& outer.x <= inner.x
    &&& inner.x + inner.width <= outer.x + outer.width
    &&& outer.y <= inner.y
    &&& inner.y + inner.height <= outer.y + outer.height
}

/// Height of the header panel.
pub const HEADER_HEIGHT: u16 = 5;

/// Least height the button grid asks for.
pub const GRID_MIN_HEIGHT: u16 = 7;

/// Height of the status footer.
pub const FOOTER_HEIGHT: u16 = 3;

/// Cells of margin kept free around the whole frame.
pub const FRAME_MARGIN: u16 = 2;

/// `area` shrunk by `m` cells on every side; an area too small for the
/// margin collapses to an empty rectangle at its corner.
pub open spec fn spec_inner_margin(area: Rect, m: u16) -> Rect {
    if area.width >= 2 * m && area.height >= 2 * m {
        Rect {
            x: (area.x + m) as u16,
            y: (area.y + m) as u16,
            width: (area.width - 2 * m) as u16,
            height: (area.height - 2 * m) as u16,
        }
    } else {
        Rect { x: area.x, y: area.y, width: 0, height: 0 }
    }
}

/// Shrink `area` by `m` cells on every side.
pub fn inner_margin(area: Rect, m: u16) -> (r: Rect)
    requires
        area.bounded(),
        m <= 16384,
    ensures
        r == spec_inner_margin(area, m),
        r.bounded(),
        rect_within(r, area),
{
    if area.width >= 2 * m && area.height >= 2 * m {
        Rect { x: area.x + m, y: area.y + m, width: area.width - 2 * m, height: area.height - 2 * m }
    } else {
        Rect { x: area.x, y: area.y, width: 0, height: 0 }
    }
}

/// The three bands of the frame inside the outer margin: the header takes
/// its fixed height, the footer its own from what is left, and the button
/// grid everything between.
pub open spec fn spec_outer_chunks(area: Rect) -> (Rect, Rect, Rect) {
    let inner = spec_inner_margin(area, FRAME_MARGIN);
    let header_h = if inner.height >= HEADER_HEIGHT {
        HEADER_HEIGHT
    } else {
        inner.height
    };
    let rest = (inner.height - header_h) as u16;
    let footer_h = if rest >= FOOTER_HEIGHT {
        FOOTER_HEIGHT
    } else {
        rest
    };
    let grid_h = (rest - footer_h) as u16;
    (
        Rect { x: inner.x, y: inner.y, width: inner.width, height: header_h },
        Rect { x: inner.x, y: (inner.y + header_h) as u16, width: inner.width, height: grid_h },
        Rect {
            x: inner.x,
            y: (inner.y + header_h + grid_h) as u16,
            width: inner.width,
            height: footer_h,
        },
    )
}

/// Split the frame into header, button grid and footer.
pub fn outer_chunks(area: Rect) -> (r: (Rect, Rect, Rect))
    requires
        area.bounded(),
    ensures
        r == spec_outer_chunks(area),
        rect_within(r.0, area) && rect_within(r.1, area) && rect_within(r.2, area),
        r.0.bounded() && r.1.bounded() && r.2.bounded(),
        r.0.height + r.1.height + r.2.height == spec_inner_margin(area, FRAME_MARGIN).height,
        r.0.y + r.0.height == r.1.y && r.1.y + r.1.height == r.2.y,
{
    let inner = inner_margin(area, FRAME_MARGIN);
    let header_h = if inner.height >= HEADER_HEIGHT {
        HEADER_HEIGHT
    } else {
        inner.height
    };
    let rest = inner.height - header_h;
    let footer_h = if rest >= FOOTER_HEIGHT {
        FOOTER_HEIGHT
    } else {
        rest
    };
    let grid_h = rest - footer_h;
    (
        Rect { x: inner.x, y: inner.y, width: inner.width, height: header_h },
        Rect { x: inner.x, y: inner.y + header_h, width: inner.width, height: grid_h },
        Rect { x: inner.x, y: inner.y + header_h + grid_h, width: inner.width, height: footer_h },
    )
}

/// Width of the left and middle button columns: a floored 33% of the grid.
pub open spec fn spec_column_width(w: u16) -> int {
    (w * 33) / 100
}

/// The cell rectangle of button `i` in the grid: two rows of three cells,
/// rows three cells tall (clamped to the grid), columns at 33%, 33% and the
/// remainder of the grid's width.
pub open spec fn spec_button_rect(grid: Rect, i: int) -> Rect {
    let row0_h = if grid.height >= 3 {
        3
    } else {
        grid.height as int
    };
    let row1_h = if grid.height - row0_h >= 3 {
        3
    } else {
        grid.height - row0_h
    };
    let y = if i < 3 {
        grid.y as int
    } else {
        grid.y + row0_h
    };
    let h = if i < 3 {
        row0_h
    } else {
        row1_h
    };
    let w0 = spec_column_width(grid.width);
    let col = i % 3;
    let x = if col == 0 {
        grid.x as int
    } else if col == 1 {
        grid.x + w0
    } else {
        grid.x + 2 * w0
    };
    let w = if col < 2 {
        w0
    } else {
        grid.width - 2 * w0
    };
    Rect { x: x as u16, y: y as u16, width: w as u16, height: h as u16 }
}

/// Two floored 33% column widths fit into the whole width together.
proof fn lemma_columns_fit(w: int)
    requires
        0 <= w,
    ensures
        0 <= (w * 33) / 100,
        2 * ((w * 33) / 100) <= w,
{
    vstd::arithmetic::div_mod::lemma_div_pos_is_pos(w * 33, 100);
    vstd::arithmetic::div_mod::lemma_remainder_lower(w * 33, 100);
    assert(w * 33 >= (w * 33) / 100 * 100);
    assert(100 * (2 * ((w * 33) / 100)) <= 66 * w);
    assert(100 * (2 * ((w * 33) / 100)) <= 100 * w);
}

/// The rectangle of answer cell `i`.
pub fn button_rect(grid: Rect, i: usize) -> (r: Rect)
    requires
        grid.bounded(),
        i < ANSWER_COUNT,
    ensures
        r == spec_button_rect(grid, i as int),
        rect_within(r, grid),
        r.bounded(),
{
    proof {
        lemma_columns_fit(grid.width as int);
    }
    let row0_h: u16 = if grid.height >= 3 {
        3
    } else {
        grid.height
    };
    let row1_h: u16 = if grid.height - row0_h >= 3 {
        3
    } else {
        grid.height - row0_h
    };
    let w0: u16 = ((grid.width as u32 * 33) / 100) as u16;
    let (y, h): (u16, u16) = if i < 3 {
        (grid.y, row0_h)
    } else {
        (grid.y + row0_h, row1_h)
    };
    let col: usize = i % 3;
    let x: u16 = if col == 0 {
        grid.x
    } else if col == 1 {
        grid.x + w0
    } else {
        grid.x + 2 * w0
    };
    let w: u16 = if col < 2 {
        w0
    } else {
        grid.width - 2 * w0
    };
    Rect { x, y, width: w, height: h }
}

/// A rectangle centered in `area`, spanning the given percentages of its
/// width and height, each side flooring as the percentage arithmetic does.
pub open spec fn spec_centered_rect(percent_x: u16, percent_y: u16, area: Rect) -> Rect {
    let margin_x = (area.width * ((100 - percent_x) / 2)) / 100;
    let margin_y = (area.height * ((100 - percent_y) / 2)) / 100;
    let w = (area.width * percent_x) / 100;
    let h = (area.height * percent_y) / 100;
    Rect {
        x: (area.x + margin_x) as u16,
        y: (area.y + margin_y) as u16,
        width: w as u16,
        height: h as u16,
    }
}

/// The rectangle the help overlay is drawn into.
pub fn centered_rect(percent_x: u16, percent_y: u16, area: Rect) -> (r: Rect)
    requires
        area.bounded(),
        percent_x <= 100,
        percent_y <= 100,
    ensures
        r == spec_centered_rect(percent_x, percent_y, area),
        rect_within(r, area),
        r.bounded(),
{
    proof {
        lemma_percent_parts_fit(area.width as int, percent_x as int);
        lemma_percent_parts_fit(area.height as int, percent_y as int);
    }
    let margin_x: u16 = ((area.width as u32 * (((100 - percent_x) / 2) as u32)) / 100) as u16;
    let margin_y: u16 = ((area.height as u32 * (((100 - percent_y) / 2) as u32)) / 100) as u16;
    let w: u16 = ((area.width as u32 * percent_x as u32) / 100) as u16;
    let h: u16 = ((area.height as u32 * percent_y as u32) / 100) as u16;
    Rect { x: area.x + margin_x, y: area.y + margin_y, width: w, height: h }
}

/// A floored margin share and a floored percentage share of `len` fit into
/// `len` together: the overlay never leaves its area.
proof fn lemma_percent_parts_fit(len: int, percent: int)
    requires
        0 <= len,
        0 <= percent <= 100,
    ensures
        (len * ((100 - percent) / 2)) / 100 + (len * percent) / 100 <= len,
        (len * ((100 - percent) / 2)) / 100 >= 0,
        (len * percent) / 100 >= 0,
{
    let m = (100 - percent) / 2;
    assert(0 <= m && m + percent <= 100);
    assert(len * m >= 0) by (nonlinear_arith)
        requires
            0 <= len,
            0 <= m,
    ;
    assert(len * percent >= 0) by (nonlinear_arith)
        requires
            0 <= len,
            0 <= percent,
    ;
    assert(len * m + len * percent <= len * 100) by (nonlinear_arith)
        requires
            0 <= len,
            0 <= m,
            0 <= percent,
            m + percent <= 100,
    ;
    vstd::arithmetic::div_mod::lemma_div_pos_is_pos(len * m, 100);
    vstd::arithmetic::div_mod::lemma_div_pos_is_pos(len * percent, 100);
    vstd::arithmetic::div_mod::lemma_remainder_lower(len * m, 100);
    vstd::arithmetic::div_mod::lemma_remainder_lower(len * percent, 100);
    assert(len * m >= (len * m) / 100 * 100);
    assert(len * percent >= (len * percent) / 100 * 100);
    assert(100 * ((len * m) / 100 + (len * percent) / 100) <= 100 * len);
}

} // verus!
