//! Properties of the grid and the session that hold across operations.

use vstd::prelude::*;

use crate::action::{run, step, GridAction};
use crate::event::{or_else, select_some};
use crate::session::{first_above, PtyUpdate, SessionModel, SessionPtyUpdate, Winsize};
use crate::grid::{
    blank_row, clamp, marks_changes, next_tab_stop, screen_clears_row, tabbed, Cell, GridModel,
};

verus! {

/// Moving the text of a range keeps the shape of a grid.
proof fn lemma_scroll_wf(m: GridModel, start: int, end: int, n: int)
    requires
        m.wf(),
        0 <= start <= end <= m.height,
    ensures
        m.scroll_up_region(start, end, n).wf(),
        m.scroll_down_region(start, end, n).wf(),
        marks_changes(m, m.scroll_up_region(start, end, n)),
        marks_changes(m, m.scroll_down_region(start, end, n)),
{
    let u = m.scroll_up_region(start, end, n);
    let d = m.scroll_down_region(start, end, n);
    assert forall|r: int| 0 <= r < m.height implies #[trigger] u.cells[r].len() == m.width by {
        if n >= 1 && start <= r < end && r + n >= end {
            assert(u.cells[r] == blank_row(m.width));
        }
    }
    assert forall|r: int| 0 <= r < m.height implies #[trigger] d.cells[r].len() == m.width by {
        if n >= 1 && start <= r < end && r < start + n {
            assert(d.cells[r] == blank_row(m.width));
        }
    }
}

/// A change made of two changes that each mark what they change marks
/// what it changes.
proof fn lemma_marks_trans(a: GridModel, b: GridModel, c: GridModel)
    requires
        marks_changes(a, b),
        marks_changes(b, c),
        a.height == b.height,
    ensures
        marks_changes(a, c),
{
    assert forall|r: int|
        0 <= r < a.height && 0 <= r < c.height && #[trigger] c.cells[r] != a.cells[r] implies c.dirty.contains(
        r,
    ) by {
        if b.cells[r] != a.cells[r] {
            assert(b.dirty.contains(r));
        }
    }
}

/// Replacing one line of the right length keeps the shape and marks it.
proof fn lemma_with_line(m: GridModel, r: int, line: Seq<Cell>)
    requires
        m.wf(),
        0 <= r < m.height,
        line.len() == m.width,
    ensures
        m.with_line(r, line).wf(),
        marks_changes(m, m.with_line(r, line)),
{
    let g = m.with_line(r, line);
    assert forall|i: int| 0 <= i < m.height implies #[trigger] g.cells[i].len() == m.width by {
        if i != r {
            assert(g.cells[i] == m.cells[i]);
        }
    }
}

/// Tab moves stay on the line.
proof fn lemma_tabbed_bounds(col: int, n: int, hi: int)
    requires
        0 <= col <= hi,
    ensures
        0 <= tabbed(col, n, hi) <= hi,
    decreases n,
{
    if n > 0 {
        lemma_tabbed_bounds(clamp(next_tab_stop(col), hi), n - 1, hi);
    }
}

/// Every request keeps a grid well formed: the cursor's column stays on
/// the grid, its row at most one past the last row (a wrap waiting for
/// the next glyph), and the grid keeps `height` rows of `width` cells.
pub proof fn lemma_step_wf(m: GridModel, a: GridAction)
    requires
        m.wf(),
    ensures
        step(m, a).wf(),
        step(m, a).width == m.width,
        step(m, a).height == m.height,
        marks_changes(m, step(m, a)),
{
    lemma_scroll_wf(m, m.top, m.bottom, 1);
    match a {
        GridAction::Input(c) => {
            let s = if m.cursor.col == 0 && m.cursor.row == m.bottom {
                m.scroll_up_region(m.top, m.bottom, 1).with_row(m.bottom - 1)
            } else if m.cursor.row == m.height {
                m.with_row(m.height - 1)
            } else {
                m
            };
            let cell = crate::grid::Cell { c, fg: s.template.fg, bg: s.template.bg };
            lemma_with_line(
                s,
                s.cursor.row as int,
                s.cells[s.cursor.row as int].update(s.cursor.col as int, cell),
            );
            let t = s.with_cell(s.cursor.row as int, s.cursor.col as int, cell);
            lemma_marks_trans(m, s, t);
            assert(t.wf());
            assert(t.cursor.col < t.width);
            if t.cursor.col + 1 == t.width {
                assert(step(m, a) == t.with_cursor(0, t.cursor.row + 1));
            } else {
                assert(step(m, a) == t.with_col(t.cursor.col + 1));
                assert(t.cursor.col + 1 < t.width);
            }
        },
        GridAction::PutTab(n) => lemma_tabbed_bounds(m.cursor.col as int, n as int, m.width - 1),
        GridAction::MoveForwardTabs(n) => lemma_tabbed_bounds(
            m.cursor.col as int,
            n as int,
            m.width - 1,
        ),
        GridAction::ScrollUp(n) => lemma_scroll_wf(m, m.top, m.bottom, n as int),
        GridAction::ScrollDown(n) => lemma_scroll_wf(m, m.top, m.bottom, n as int),
        GridAction::InsertBlankLines(n) => {
            if m.top <= m.cursor.row < m.bottom {
                lemma_scroll_wf(m, m.cursor.row as int, m.bottom, n as int);
            }
        },
        GridAction::DeleteLines(n) => {
            if m.top <= m.cursor.row < m.bottom {
                lemma_scroll_wf(m, m.cursor.row as int, m.bottom, n as int);
            }
        },
        GridAction::InsertBlank(n) => {
            if m.cursor.row < m.height && n >= 1 {
                lemma_with_line(m, m.cursor.row as int, step(m, a).cells[m.cursor.row as int]);
            }
        },
        GridAction::EraseChars(n) => {
            if m.cursor.row < m.height && n > 0 {
                lemma_with_line(m, m.cursor.row as int, step(m, a).cells[m.cursor.row as int]);
            }
        },
        GridAction::DeleteChars(n) => {
            if m.cursor.row < m.height {
                lemma_with_line(m, m.cursor.row as int, step(m, a).cells[m.cursor.row as int]);
            }
        },
        GridAction::ClearLine(mode) => {
            if m.cursor.row < m.height {
                lemma_with_line(m, m.cursor.row as int, step(m, a).cells[m.cursor.row as int]);
            }
        },
        GridAction::ClearScreen(mode) => {
            let g = step(m, a);
            assert forall|r: int|
                0 <= r < m.height && #[trigger] g.cells[r] != m.cells[r] implies g.dirty.contains(
                r,
            ) by {
                if !screen_clears_row(mode, m.cursor, r) {
                    assert(g.cells[r] =~= m.cells[r]);
                }
            }
        },
        _ => {},
    }
}

/// Every run of requests keeps a grid well formed and leaves every row
/// whose text it changed marked for redraw.
pub proof fn lemma_run_wf(m: GridModel, actions: Seq<GridAction>)
    requires
        m.wf(),
    ensures
        run(m, actions).wf(),
        run(m, actions).width == m.width,
        run(m, actions).height == m.height,
        marks_changes(m, run(m, actions)),
    decreases actions.len(),
{
    if actions.len() > 0 {
        let pre = run(m, actions.drop_last());
        lemma_run_wf(m, actions.drop_last());
        lemma_step_wf(pre, actions.last());
        lemma_marks_trans(m, pre, run(m, actions));
    }
}

/// Only saving the cursor changes the saved position.
pub proof fn lemma_step_keeps_saved(m: GridModel, a: GridAction)
    requires
        !(a is SaveCursorPosition),
    ensures
        step(m, a).saved_cursor == m.saved_cursor,
{
}

/// Restoring after a save gives back the saved position, whatever
/// requests came between, as long as none saved again.
pub proof fn lemma_save_restore(m: GridModel, between: Seq<GridAction>)
    requires
        forall|i: int| 0 <= i < between.len() ==> !(#[trigger] between[i] is SaveCursorPosition),
    ensures
        step(run(m.save_cursor(), between), GridAction::RestoreCursorPosition).cursor == m.cursor,
    decreases between.len(),
{
    lemma_saved_through(m.save_cursor(), between);
}

proof fn lemma_saved_through(m: GridModel, actions: Seq<GridAction>)
    requires
        forall|i: int| 0 <= i < actions.len() ==> !(#[trigger] actions[i] is SaveCursorPosition),
    ensures
        run(m, actions).saved_cursor == m.saved_cursor,
    decreases actions.len(),
{
    if actions.len() > 0 {
        let pre = actions.drop_last();
        assert forall|i: int| 0 <= i < pre.len() implies !(#[trigger] pre[i] is SaveCursorPosition) by {
            assert(pre[i] == actions[i]);
        }
        lemma_saved_through(m, pre);
        assert(actions.last() == actions[actions.len() - 1]);
        lemma_step_keeps_saved(run(m, pre), actions.last());
    }
}

/// Scrolling a region up by `n` and back down by `n` restores the rows of
/// the region that were not scrolled off, blanks the first `n` rows of the
/// region, and leaves the rows outside the region alone.
pub proof fn lemma_scroll_up_down(m: GridModel, n: int)
    requires
        m.wf(),
        0 < n < m.bottom - m.top,
    ensures
        ({
            let g = m.scroll_up_region(m.top, m.bottom, n).scroll_down_region(m.top, m.bottom, n);
            &&& g.cells.len() == m.cells.len()
            &&& forall|r: int| m.top + n <= r < m.bottom ==> #[trigger] g.cells[r] == m.cells[r]
            &&& forall|r: int|
                0 <= r < m.height && !(m.top <= r < m.bottom) ==> #[trigger] g.cells[r]
                    == m.cells[r]
            &&& forall|r: int| m.top <= r < m.top + n ==> #[trigger] g.cells[r] == blank_row(
                m.width,
            )
        }),
{
    let u = m.scroll_up_region(m.top, m.bottom, n);
    assert forall|r: int| m.top + n <= r < m.bottom implies #[trigger] u.scroll_down_region(
        m.top,
        m.bottom,
        n,
    ).cells[r] == m.cells[r] by {
        assert(u.cells[r - n] == m.cells[r]);
    }
}

/// Growing a grid keeps every cell where it was.
pub proof fn lemma_resize_grow(m: GridModel, w: int, h: int)
    requires
        m.wf(),
        m.width <= w <= u16::MAX,
        m.height <= h <= u16::MAX,
    ensures
        forall|r: int, c: int|
            0 <= r < m.height && 0 <= c < m.width ==> #[trigger] m.resize(w, h).cells[r][c]
                == m.cells[r][c],
{
}

/// Window ids are never reused: opening a window moves the counter on by
/// one, and nothing else moves it.
pub proof fn lemma_next_id_grows(
    m: SessionModel,
    id: u64,
    data: Seq<u8>,
    update: SessionPtyUpdate,
    actions: Seq<GridAction>,
    size: Winsize,
)
    ensures
        m.opened().next_id == m.next_id + 1,
        m.select(id).next_id == m.next_id,
        m.receive_stdin(data).next_id == m.next_id,
        m.pty_update(update, actions).next_id == m.next_id,
        m.resized(size).next_id == m.next_id,
{
}

/// The selected window lies between the first and the last.
pub proof fn lemma_selected_between(m: SessionModel)
    requires
        m.wf(),
        m.selected is Some,
    ensures
        m.first() is Some && m.last() is Some,
        m.first()->0 <= m.selected->0 <= m.last()->0,
{
    let s = m.selected->0;
    let j = choose|j: int| 0 <= j < m.ids.len() && m.ids[j] == s;
    if j > 0 {
        assert(m.ids[0] < m.ids[j]);
    }
    if j < m.ids.len() - 1 {
        assert(m.ids[j] < m.ids[m.ids.len() - 1]);
    }
}

/// After window `id` is selected, keystrokes reach window `id` and no
/// other window.
pub proof fn lemma_stdin_goes_to_selected(m: SessionModel, id: u64, data: Seq<u8>)
    requires
        m.wf(),
        m.ids.contains(id),
    ensures
        ({
            let t = m.select(id).receive_stdin(data);
            &&& t.ids == m.ids
            &&& t.wins[m.pos(id)].to_pty == m.wins[m.pos(id)].to_pty + data
            &&& forall|j: int|
                0 <= j < m.wins.len() && j != m.pos(id) ==> #[trigger] t.wins[j].to_pty
                    == m.wins[j].to_pty
        }),
{
}

proof fn lemma_first_above_in(ids: Seq<u64>, x: u64)
    ensures
        first_above(ids, x) matches Some(y) ==> ids.contains(y),
    decreases ids.len(),
{
    if ids.len() > 0 && ids[0] <= x {
        lemma_first_above_in(ids.drop_first(), x);
        if let Some(y) = first_above(ids.drop_first(), x) {
            let k = choose|k: int| 0 <= k < ids.drop_first().len() && ids.drop_first()[k] == y;
            assert(ids[k + 1] == y);
        }
    }
}

/// When the selected window exits, exactly one of the remaining windows
/// becomes selected; when none remains, none is selected.
pub proof fn lemma_exit_of_selected(m: SessionModel, id: u64)
    requires
        m.wf(),
        m.selected == Some(id),
    ensures
        ({
            let t = m.exited(id);
            &&& t.ids.len() == m.ids.len() - 1
            &&& t.ids.len() > 0 ==> (t.selected is Some && t.ids.contains(t.selected->0))
            &&& t.ids.len() == 0 ==> t.selected is None
        }),
{
    let r = SessionModel { selected: None, ..m.removed(id) };
    let j = choose|j: int| 0 <= j < m.ids.len() && m.ids[j] == id;
    assert(0 <= m.pos(id) < m.ids.len());
    lemma_first_above_in(r.ids, id);
    if r.ids.len() > 0 {
        assert(r.ids.contains(r.ids.last())) by {
            assert(r.ids[r.ids.len() - 1] == r.ids.last());
        }
    }
}

/// A session with windows has one selected.
pub open spec fn focused(m: SessionModel) -> bool {
    m.ids.len() > 0 ==> m.selected is Some
}

/// Every step the event loop takes keeps a session with windows focused
/// on one of them: opening and selecting a window, cycling with `n` and
/// `p`, keystrokes, output or exit of a child, and a change of size.
pub proof fn lemma_loop_keeps_focus(
    m: SessionModel,
    data: Seq<u8>,
    update: SessionPtyUpdate,
    actions: Seq<GridAction>,
    size: Winsize,
)
    requires
        m.wf(),
        focused(m),
        m.next_id < u64::MAX,
    ensures
        focused(m.opened().select(m.next_id as u64)),
        focused(select_some(m, or_else(m.next(), m.first()))),
        focused(select_some(m, or_else(m.prev(), m.last()))),
        focused(m.receive_stdin(data)),
        focused(m.pty_update(update, actions)),
        focused(m.resized(size)),
{
    let o = m.opened();
    assert(o.ids[o.ids.len() - 1] == m.next_id as u64);
    let id = update.window_idx;
    if m.ids.contains(id) && update.data == PtyUpdate::Exited {
        if m.selected == Some(id) {
            lemma_exit_of_selected(m, id);
        }
    }
}

} // verus!
