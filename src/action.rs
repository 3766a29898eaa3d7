//! The grid's handler surface as values: what a terminal-stream parser
//! asks of a grid, one event at a time.

use vstd::prelude::*;

use crate::grid::{clamp, status_reply, Attr, ClearMode, Grid, GridModel, LineClearMode};

verus! {

/// One request of the terminal stream to the grid.
#[derive(Debug, Clone, Copy, PartialEq, Eq, Structural)]
pub enum GridAction {
    Input(char),
    /// Row, then column, zero-based.
    Goto(usize, usize),
    GotoLine(usize),
    GotoCol(usize),
    InsertBlank(usize),
    MoveUp(usize),
    MoveDown(usize),
    MoveForward(usize),
    MoveBackward(usize),
    MoveDownAndCr(usize),
    MoveUpAndCr(usize),
    PutTab(i64),
    MoveForwardTabs(i64),
    Backspace,
    CarriageReturn,
    Linefeed,
    Newline,
    ScrollUp(usize),
    ScrollDown(usize),
    InsertBlankLines(usize),
    DeleteLines(usize),
    EraseChars(usize),
    DeleteChars(usize),
    SaveCursorPosition,
    RestoreCursorPosition,
    ClearLine(LineClearMode),
    ClearScreen(ClearMode),
    ReverseIndex,
    TerminalAttribute(Attr),
    /// One-based, inclusive.
    SetScrollingRegion(usize, Option<usize>),
    DeviceStatus(usize),
}

/// The grid after one request.
pub open spec fn step(m: GridModel, a: GridAction) -> GridModel {
    match a {
        GridAction::Input(c) => m.input(c),
        GridAction::Goto(r, c) => m.goto(r as int, c as int),
        GridAction::GotoLine(r) => m.goto(r as int, m.cursor.col as int),
        GridAction::GotoCol(c) => m.with_col(clamp(c as int, m.width - 1)),
        GridAction::InsertBlank(n) => m.insert_blank(n as int),
        GridAction::MoveUp(n) => m.move_rows(-(n as int)),
        GridAction::MoveDown(n) => m.move_rows(n as int),
        GridAction::MoveForward(n) => m.move_cols(n as int),
        GridAction::MoveBackward(n) => m.move_cols(-(n as int)),
        GridAction::MoveDownAndCr(n) => m.move_rows(n as int).with_col(0),
        GridAction::MoveUpAndCr(n) => m.move_rows(-(n as int)).with_col(0),
        GridAction::PutTab(n) => m.tab(n as int),
        GridAction::MoveForwardTabs(n) => m.tab(n as int),
        GridAction::Backspace => m.move_cols(-1),
        GridAction::CarriageReturn => m.with_col(0),
        GridAction::Linefeed => m.linefeed(),
        GridAction::Newline => m.linefeed(),
        GridAction::ScrollUp(n) => m.scroll_up_region(m.top, m.bottom, n as int),
        GridAction::ScrollDown(n) => m.scroll_down_region(m.top, m.bottom, n as int),
        GridAction::InsertBlankLines(n) => m.insert_blank_lines(n as int),
        GridAction::DeleteLines(n) => m.delete_lines(n as int),
        GridAction::EraseChars(n) => m.erase_chars(n as int),
        GridAction::DeleteChars(n) => m.delete_chars(n as int),
        GridAction::SaveCursorPosition => m.save_cursor(),
        GridAction::RestoreCursorPosition => m.restore_cursor(),
        GridAction::ClearLine(mode) => m.clear_line(mode),
        GridAction::ClearScreen(mode) => m.clear_screen(mode),
        GridAction::ReverseIndex => m.reverse_index(),
        GridAction::TerminalAttribute(attr) => m.terminal_attribute(attr),
        GridAction::SetScrollingRegion(t, b) => m.set_scrolling_region(t as int, b),
        GridAction::DeviceStatus(_) => m,
    }
}

/// What the grid answers to one request.
pub open spec fn reply(m: GridModel, a: GridAction) -> Seq<u8> {
    match a {
        GridAction::DeviceStatus(p) => status_reply(m.cursor, p as int),
        _ => Seq::empty(),
    }
}

/// The grid after a run of requests.
pub open spec fn run(m: GridModel, actions: Seq<GridAction>) -> GridModel
    decreases actions.len(),
{
    if actions.len() == 0 {
        m
    } else {
        step(run(m, actions.drop_last()), actions.last())
    }
}

/// Everything the grid answers to a run of requests, in order.
pub open spec fn replies(m: GridModel, actions: Seq<GridAction>) -> Seq<u8>
    decreases actions.len(),
{
    if actions.len() == 0 {
        Seq::empty()
    } else {
        replies(m, actions.drop_last()) + reply(run(m, actions.drop_last()), actions.last())
    }
}

impl Grid {
    /// Carry out one request; answers go to `reply`.
    pub fn apply(&mut self, a: GridAction, reply_to: &mut Vec<u8>)
        requires
            old(self).wf(),
        ensures
            final(self).wf(),
            final(self)@ == step(old(self)@, a),
            final(reply_to)@ == old(reply_to)@ + reply(old(self)@, a),
    {
        match a {
            GridAction::Input(c) => self.input(c),
            GridAction::Goto(r, c) => self.goto(r, c),
            GridAction::GotoLine(r) => self.goto_line(r),
            GridAction::GotoCol(c) => self.goto_col(c),
            GridAction::InsertBlank(n) => self.insert_blank(n),
            GridAction::MoveUp(n) => self.move_up(n),
            GridAction::MoveDown(n) => self.move_down(n),
            GridAction::MoveForward(n) => self.move_forward(n),
            GridAction::MoveBackward(n) => self.move_backward(n),
            GridAction::MoveDownAndCr(n) => self.move_down_and_cr(n),
            GridAction::MoveUpAndCr(n) => self.move_up_and_cr(n),
            GridAction::PutTab(n) => self.put_tab(n),
            GridAction::MoveForwardTabs(n) => self.move_forward_tabs(n),
            GridAction::Backspace => self.backspace(),
            GridAction::CarriageReturn => self.carriage_return(),
            GridAction::Linefeed => self.linefeed(),
            GridAction::Newline => self.newline(),
            GridAction::ScrollUp(n) => self.scroll_up(n),
            GridAction::ScrollDown(n) => self.scroll_down(n),
            GridAction::InsertBlankLines(n) => self.insert_blank_lines(n),
            GridAction::DeleteLines(n) => self.delete_lines(n),
            GridAction::EraseChars(n) => self.erase_chars(n),
            GridAction::DeleteChars(n) => self.delete_chars(n),
            GridAction::SaveCursorPosition => self.save_cursor_position(),
            GridAction::RestoreCursorPosition => self.restore_cursor_position(),
            GridAction::ClearLine(mode) => self.clear_line(mode),
            GridAction::ClearScreen(mode) => self.clear_screen(mode),
            GridAction::ReverseIndex => self.reverse_index(),
            GridAction::TerminalAttribute(attr) => self.terminal_attribute(attr),
            GridAction::SetScrollingRegion(t, b) => self.set_scrolling_region(t, b),
            GridAction::DeviceStatus(p) => self.device_status(reply_to, p),
        }
        proof {
            if !(a is DeviceStatus) {
                assert(reply_to@ =~= old(reply_to)@ + reply(old(self)@, a));
            }
        }
    }

    /// Carry out a run of requests in order.
    pub fn apply_all(&mut self, actions: &Vec<GridAction>, reply_to: &mut Vec<u8>)
        requires
            old(self).wf(),
        ensures
            final(self).wf(),
            final(self)@ == run(old(self)@, actions@),
            final(reply_to)@ == old(reply_to)@ + replies(old(self)@, actions@),
    {
        let ghost g0 = self@;
        let ghost r0 = reply_to@;
        let mut i: usize = 0;
        while i < actions.len()
            invariant
                self.wf(),
                i <= actions@.len(),
                self@ == run(g0, actions@.subrange(0, i as int)),
                reply_to@ == r0 + replies(g0, actions@.subrange(0, i as int)),
            decreases actions@.len() - i,
        {
            let a = actions[i];
            self.apply(a, reply_to);
            proof {
                let pre = actions@.subrange(0, i as int);
                let next = actions@.subrange(0, i + 1);
                assert(next.drop_last() =~= pre);
                assert(next.last() == a);
                assert(reply_to@ =~= r0 + replies(g0, next));
            }
            i = i + 1;
        }
        assert(actions@.subrange(0, actions@.len() as int) =~= actions@);
    }
}

} // verus!
