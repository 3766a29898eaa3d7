//! Structures and functions to manage windows.

use vstd::prelude::*;

use crate::action::{replies, run, GridAction};
use crate::grid::{frame, Grid, GridModel};

verus! {

/// A terminal size, in cells and in pixels.
#[derive(Debug, Clone, Copy, PartialEq, Eq, Structural)]
pub struct Winsize {
    pub ws_row: u16,
    pub ws_col: u16,
    pub ws_xpixel: u16,
    pub ws_ypixel: u16,
}

impl Winsize {
    /// A size that a grid can take: at least one cell each way.
    pub open spec fn usable(self) -> bool {
        self.ws_col >= 1 && self.ws_row >= 1
    }
}

/// An update from a PTY.
#[derive(Debug, Clone, Copy, PartialEq, Eq, Structural)]
pub enum PtyUpdate {
    /// The PTY has closed the file.
    Exited,
    /// PTY sends byte.
    Byte(u8),
}

/// An update from the PTY of one window.
#[derive(Debug, Clone, Copy, PartialEq, Eq, Structural)]
pub struct SessionPtyUpdate {
    pub window_idx: u64,
    pub data: PtyUpdate,
}

/// Why a session could not do what was asked.
#[derive(Debug, Clone, Copy, PartialEq, Eq, Structural)]
pub enum SessionError {
    /// There is no window to show or to type into.
    NoSelectedWindow,
    /// The update names a window that is gone.
    WindowLost,
}

/// What a window holds, as mathematical values.
pub struct WindowModel {
    pub grid: GridModel,
    /// The size the window was last given.
    pub size: Winsize,
    /// Bytes waiting to be written to the child: keystrokes and the
    /// grid's answers, in order.
    pub to_pty: Seq<u8>,
    /// A size the child's terminal must still be told of.
    pub pty_resize: Option<Winsize>,
}

impl WindowModel {
    pub open spec fn fresh(size: Winsize) -> WindowModel {
        WindowModel {
            grid: GridModel::blank(size.ws_col as int, size.ws_row as int),
            size,
            to_pty: Seq::empty(),
            pty_resize: None,
        }
    }

    pub open spec fn wf(self) -> bool {
        &&& self.grid.wf()
        &&& self.size.usable()
        &&& self.grid.width == self.size.ws_col
        &&& self.grid.height == self.size.ws_row
    }

    /// A new size is passed to the grid and to the child; the same size
    /// again changes nothing.
    pub open spec fn resized(self, size: Winsize) -> WindowModel {
        if size == self.size {
            self
        } else {
            WindowModel {
                grid: self.grid.resize(size.ws_col as int, size.ws_row as int),
                size,
                pty_resize: Some(size),
                ..self
            }
        }
    }

    pub open spec fn marked(self) -> WindowModel {
        WindowModel { grid: self.grid.mark_all_dirty(), ..self }
    }

    pub open spec fn typed(self, data: Seq<u8>) -> WindowModel {
        WindowModel { to_pty: self.to_pty + data, ..self }
    }

    /// The window after its child's output asked `actions` of the grid.
    pub open spec fn fed(self, actions: Seq<GridAction>) -> WindowModel {
        WindowModel {
            grid: run(self.grid, actions),
            to_pty: self.to_pty + replies(self.grid, actions),
            ..self
        }
    }

    pub open spec fn drawn(self) -> WindowModel {
        WindowModel { grid: GridModel { dirty: Set::empty(), ..self.grid }, ..self }
    }
}

/// Window: the grid of one child, and what must still reach the child.
pub struct Window {
    id: u64,
    grid: Grid,
    size: Winsize,
    to_pty: Vec<u8>,
    pty_resize: Option<Winsize>,
}

impl View for Window {
    type V = WindowModel;

    closed spec fn view(&self) -> WindowModel {
        WindowModel {
            grid: self.grid@,
            size: self.size,
            to_pty: self.to_pty@,
            pty_resize: self.pty_resize,
        }
    }
}

impl Window {
    pub closed spec fn inv(&self) -> bool {
        self.grid.wf()
    }

    pub open spec fn wf(&self) -> bool {
        self@.wf() && self.inv()
    }

    pub closed spec fn spec_id(&self) -> u64 {
        self.id
    }

    fn open(id: u64, size: Winsize) -> (w: Window)
        requires
            size.usable(),
        ensures
            w.wf(),
            w.spec_id() == id,
            w@ == WindowModel::fresh(size),
    {
        Window {
            id,
            grid: Grid::new(size.ws_col, size.ws_row),
            size,
            to_pty: Vec::new(),
            pty_resize: None,
        }
    }

    pub fn id(&self) -> (r: u64)
        ensures
            r == self.spec_id(),
    {
        self.id
    }

    pub fn grid(&self) -> (r: &Grid)
        requires
            self.wf(),
        ensures
            r.wf(),
            r@ == self@.grid,
    {
        &self.grid
    }

    /// Queue `data` for the child.
    pub fn receive_stdin(&mut self, data: &[u8])
        requires
            old(self).wf(),
        ensures
            final(self).wf(),
            final(self).spec_id() == old(self).spec_id(),
            final(self)@ == old(self)@.typed(data@),
    {
        let mut i: usize = 0;
        while i < data.len()
            invariant
                self.wf(),
                self.spec_id() == old(self).spec_id(),
                i <= data@.len(),
                self@ == old(self)@.typed(data@.subrange(0, i as int)),
            decreases data@.len() - i,
        {
            self.to_pty.push(data[i]);
            i = i + 1;
            assert(self.to_pty@ =~= old(self)@.to_pty + data@.subrange(0, i as int));
        }
        assert(data@.subrange(0, data@.len() as int) =~= data@);
    }

    /// Feed what the child's output asked of the grid; the grid's answers
    /// are queued for the child.
    pub fn pty_update(&mut self, actions: &Vec<GridAction>)
        requires
            old(self).wf(),
        ensures
            final(self).wf(),
            final(self).spec_id() == old(self).spec_id(),
            final(self)@ == old(self)@.fed(actions@),
    {
        self.grid.apply_all(actions, &mut self.to_pty);
        proof {
            crate::laws::lemma_run_wf(old(self)@.grid, actions@);
        }
    }

    pub fn resize(&mut self, size: Winsize)
        requires
            old(self).wf(),
            size.usable(),
        ensures
            final(self).wf(),
            final(self).spec_id() == old(self).spec_id(),
            final(self)@ == old(self)@.resized(size),
    {
        if size != self.size {
            self.size = size;
            self.grid.resize(size.ws_col, size.ws_row);
            self.pty_resize = Some(size);
        }
    }

    pub fn mark_dirty(&mut self)
        requires
            old(self).wf(),
        ensures
            final(self).wf(),
            final(self).spec_id() == old(self).spec_id(),
            final(self)@ == old(self)@.marked(),
    {
        self.grid.mark_all_dirty();
    }

    pub fn redraw(&mut self, output: &mut Vec<char>)
        requires
            old(self).wf(),
        ensures
            final(self).wf(),
            final(self).spec_id() == old(self).spec_id(),
            final(self)@ == old(self)@.drawn(),
            final(output)@ == old(output)@ + frame(old(self)@.grid),
    {
        self.grid.draw(output);
    }

    /// Hand over the bytes waiting for the child.
    pub fn take_pty_output(&mut self) -> (r: Vec<u8>)
        requires
            old(self).wf(),
        ensures
            final(self).wf(),
            final(self).spec_id() == old(self).spec_id(),
            r@ == old(self)@.to_pty,
            final(self)@ == (WindowModel { to_pty: Seq::empty(), ..old(self)@ }),
    {
        let mut out: Vec<u8> = Vec::new();
        std::mem::swap(&mut out, &mut self.to_pty);
        out
    }

    /// Hand over the size the child's terminal must still be told of.
    pub fn take_pty_resize(&mut self) -> (r: Option<Winsize>)
        requires
            old(self).wf(),
        ensures
            final(self).wf(),
            final(self).spec_id() == old(self).spec_id(),
            r == old(self)@.pty_resize,
            final(self)@ == (WindowModel { pty_resize: None, ..old(self)@ }),
    {
        let r = self.pty_resize;
        self.pty_resize = None;
        r
    }
}

/// The first id of `ids` above `x`; in an ascending list, the smallest.
pub open spec fn first_above(ids: Seq<u64>, x: u64) -> Option<u64>
    decreases ids.len(),
{
    if ids.len() == 0 {
        None
    } else if ids[0] > x {
        Some(ids[0])
    } else {
        first_above(ids.drop_first(), x)
    }
}

/// The last id of `ids` below `x`; in an ascending list, the greatest.
pub open spec fn last_below(ids: Seq<u64>, x: u64) -> Option<u64>
    decreases ids.len(),
{
    if ids.len() == 0 {
        None
    } else if ids.last() < x {
        Some(ids.last())
    } else {
        last_below(ids.drop_last(), x)
    }
}

/// What a session holds, as mathematical values.
pub struct SessionModel {
    /// The id the next window gets.
    pub next_id: int,
    /// The windows' ids, in ascending order.
    pub ids: Seq<u64>,
    /// The windows, in the order of `ids`.
    pub wins: Seq<WindowModel>,
    pub selected: Option<u64>,
    /// The size of the user's terminal.
    pub size: Winsize,
}

impl SessionModel {
    pub open spec fn wf(self) -> bool {
        &&& self.ids.len() == self.wins.len()
        &&& forall|i: int, j: int| 0 <= i < j < self.ids.len() ==> self.ids[i] < self.ids[j]
        &&& forall|i: int| 0 <= i < self.ids.len() ==> #[trigger] self.ids[i] < self.next_id
        &&& 0 <= self.next_id <= u64::MAX
        &&& forall|i: int| 0 <= i < self.wins.len() ==> #[trigger] self.wins[i].wf()
        &&& self.size.usable()
        &&& self.selected matches Some(s) ==> self.ids.contains(s)
    }

    /// Where window `id` stands.
    pub open spec fn pos(self, id: u64) -> int {
        choose|i: int| 0 <= i < self.ids.len() && self.ids[i] == id
    }

    pub open spec fn first(self) -> Option<u64> {
        if self.ids.len() == 0 {
            None
        } else {
            Some(self.ids[0])
        }
    }

    pub open spec fn last(self) -> Option<u64> {
        if self.ids.len() == 0 {
            None
        } else {
            Some(self.ids.last())
        }
    }

    /// The window after the selected one.
    pub open spec fn next(self) -> Option<u64> {
        match self.selected {
            Some(s) => first_above(self.ids, s),
            None => None,
        }
    }

    /// The window before the selected one.
    pub open spec fn prev(self) -> Option<u64> {
        match self.selected {
            Some(s) => last_below(self.ids, s),
            None => None,
        }
    }

    pub open spec fn with_window(self, id: u64, w: WindowModel) -> SessionModel {
        SessionModel { wins: self.wins.update(self.pos(id), w), ..self }
    }

    /// A new window at the session's size, with the next id.
    pub open spec fn opened(self) -> SessionModel {
        SessionModel {
            next_id: self.next_id + 1,
            ids: self.ids.push(self.next_id as u64),
            wins: self.wins.push(WindowModel::fresh(self.size)),
            ..self
        }
    }

    /// Selecting a window gives it the session's size and marks it for a
    /// full redraw; an unknown id changes nothing.
    pub open spec fn select(self, id: u64) -> SessionModel {
        if self.ids.contains(id) {
            SessionModel {
                selected: Some(id),
                ..self.with_window(id, self.wins[self.pos(id)].resized(self.size).marked())
            }
        } else {
            self
        }
    }

    /// Keystrokes go to the selected window alone.
    pub open spec fn receive_stdin(self, data: Seq<u8>) -> SessionModel {
        match self.selected {
            Some(s) => self.with_window(s, self.wins[self.pos(s)].typed(data)),
            None => self,
        }
    }

    pub open spec fn removed(self, id: u64) -> SessionModel {
        SessionModel {
            ids: self.ids.remove(self.pos(id)),
            wins: self.wins.remove(self.pos(id)),
            ..self
        }
    }

    /// Window `id` has exited. When it was selected, the next window
    /// after it is selected, or else the last one, or none is left.
    pub open spec fn exited(self, id: u64) -> SessionModel {
        let r = SessionModel {
            selected: if self.selected == Some(id) {
                None
            } else {
                self.selected
            },
            ..self.removed(id)
        };
        if self.selected == Some(id) {
            let succ = match first_above(r.ids, id) {
                Some(x) => Some(x),
                None => r.last(),
            };
            match succ {
                Some(x) => r.select(x),
                None => r,
            }
        } else {
            r
        }
    }

    /// An update from the PTY of one window: the grid carries out what the
    /// parser made of a byte, or the window goes when its child exited.
    /// Updates for an unknown window change nothing.
    pub open spec fn pty_update(
        self,
        update: SessionPtyUpdate,
        actions: Seq<GridAction>,
    ) -> SessionModel {
        let id = update.window_idx;
        if !self.ids.contains(id) {
            self
        } else {
            match update.data {
                PtyUpdate::Byte(_) => self.with_window(id, self.wins[self.pos(id)].fed(actions)),
                PtyUpdate::Exited => self.exited(id),
            }
        }
    }

    /// The user's terminal has a new size; the selected window takes it
    /// at once, the others when they are selected.
    pub open spec fn resized(self, size: Winsize) -> SessionModel {
        let s = SessionModel { size, ..self };
        match self.selected {
            Some(id) => s.with_window(id, self.wins[self.pos(id)].resized(size)),
            None => s,
        }
    }
}

/// In a session, ids are distinct: an id stands at one place only.
proof fn lemma_pos(m: SessionModel, i: int)
    requires
        m.wf(),
        0 <= i < m.ids.len(),
    ensures
        m.pos(m.ids[i]) == i,
{
    let j = m.pos(m.ids[i]);
    assert(0 <= j < m.ids.len() && m.ids[j] == m.ids[i]);
    if j < i {
        assert(m.ids[j] < m.ids[i]);
    } else if i < j {
        assert(m.ids[i] < m.ids[j]);
    }
}

/// The ordered collection of windows, one of which is selected.
pub struct Session {
    next_id: u64,
    windows: Vec<Window>,
    selected: Option<u64>,
    size: Winsize,
}

impl View for Session {
    type V = SessionModel;

    closed spec fn view(&self) -> SessionModel {
        SessionModel {
            next_id: self.next_id as int,
            ids: self.windows@.map_values(|w: Window| w.spec_id()),
            wins: self.windows@.map_values(|w: Window| w@),
            selected: self.selected,
            size: self.size,
        }
    }
}

impl Session {
    pub closed spec fn inv(&self) -> bool {
        forall|i: int| 0 <= i < self.windows@.len() ==> #[trigger] self.windows@[i].wf()
    }

    pub open spec fn wf(&self) -> bool {
        self@.wf() && self.inv()
    }

    /// A session without windows, for a terminal of `size`.
    pub fn new(size: Winsize) -> (s: Session)
        requires
            size.usable(),
        ensures
            s.wf(),
            s@.next_id == 0,
            s@.ids == Seq::<u64>::empty(),
            s@.selected == None::<u64>,
            s@.size == size,
    {
        let s = Session { next_id: 0, windows: Vec::new(), selected: None, size };
        assert(s@.ids =~= Seq::<u64>::empty());
        s
    }

    pub fn size(&self) -> (r: Winsize)
        ensures
            r == self@.size,
    {
        self.size
    }

    /// The id the next window will get.
    pub fn next_id(&self) -> (r: u64)
        ensures
            r == self@.next_id,
    {
        self.next_id
    }

    /// Where window `id` stands, if it exists.
    fn find(&self, id: u64) -> (r: Option<usize>)
        requires
            self.wf(),
        ensures
            match r {
                Some(i) => i < self@.ids.len() && self@.ids[i as int] == id && self@.pos(id) == i,
                None => !self@.ids.contains(id),
            },
    {
        let mut i: usize = 0;
        while i < self.windows.len()
            invariant
                self.wf(),
                i <= self@.ids.len(),
                forall|j: int| 0 <= j < i ==> self@.ids[j] != id,
            decreases self@.ids.len() - i,
        {
            if self.windows[i].id() == id {
                proof {
                    lemma_pos(self@, i as int);
                }
                return Some(i);
            }
            i = i + 1;
        }
        None
    }

    /// Add a window at the session's size; the selection stays.
    pub fn new_window(&mut self) -> (id: u64)
        requires
            old(self).wf(),
            old(self)@.next_id < u64::MAX,
        ensures
            final(self).wf(),
            id == old(self)@.next_id,
            final(self)@ == old(self)@.opened(),
    {
        let id = self.next_id;
        let w = Window::open(id, self.size);
        self.windows.push(w);
        self.next_id = self.next_id + 1;
        assert(self@.ids =~= old(self)@.ids.push(id));
        assert(self@.wins =~= old(self)@.wins.push(WindowModel::fresh(self.size)));
        proof {
            if let Some(s) = self.selected {
                let j = choose|j: int| 0 <= j < old(self)@.ids.len() && old(self)@.ids[j] == s;
                assert(self@.ids[j] == s);
            }
        }
        id
    }

    /// Replaces the window at `i` by one that `f` made of it.
    proof fn lemma_update(
        old_s: SessionModel,
        new_s: SessionModel,
        i: int,
        w: WindowModel,
    )
        requires
            old_s.wf(),
            0 <= i < old_s.ids.len(),
            w.wf(),
            new_s == old_s.with_window(old_s.ids[i], w),
        ensures
            new_s.wf(),
    {
        lemma_pos(old_s, i);
        assert forall|j: int| 0 <= j < new_s.wins.len() implies #[trigger] new_s.wins[j].wf() by {
            if j != i {
                assert(new_s.wins[j] == old_s.wins[j]);
            }
        }
    }

    /// Select window `id`: it takes the session's size and is marked for
    /// a full redraw.
    pub fn select_window(&mut self, id: u64) -> (r: Option<u64>)
        requires
            old(self).wf(),
        ensures
            final(self).wf(),
            final(self)@ == old(self)@.select(id),
            r == if old(self)@.ids.contains(id) {
                Some(id)
            } else {
                None::<u64>
            },
    {
        match self.find(id) {
            None => None,
            Some(i) => {
                let ghost s0 = self@;
                let size = self.size;
                self.windows[i].resize(size);
                self.windows[i].mark_dirty();
                self.selected = Some(id);
                proof {
                    let w = s0.wins[i as int].resized(size).marked();
                    assert(self@.wins =~= s0.wins.update(i as int, w));
                    assert(self@.ids =~= s0.ids);
                    assert(s0.ids.contains(id)) by {
                        assert(s0.ids[i as int] == id);
                    }
                    Session::lemma_update(
                        s0,
                        SessionModel { selected: s0.selected, ..self@ },
                        i as int,
                        w,
                    );
                    assert(self@.ids.contains(id)) by {
                        assert(self@.ids[i as int] == id);
                    }
                }
                Some(id)
            },
        }
    }

    pub fn selected_window_idx(&self) -> (r: Option<u64>)
        ensures
            r == self@.selected,
    {
        self.selected
    }

    pub fn first_window_idx(&self) -> (r: Option<u64>)
        requires
            self.wf(),
        ensures
            r == self@.first(),
    {
        if self.windows.len() == 0 {
            None
        } else {
            Some(self.windows[0].id())
        }
    }

    pub fn last_window_idx(&self) -> (r: Option<u64>)
        requires
            self.wf(),
        ensures
            r == self@.last(),
    {
        if self.windows.len() == 0 {
            None
        } else {
            Some(self.windows[self.windows.len() - 1].id())
        }
    }

    /// The first window whose id is above `x`.
    fn first_window_above(&self, x: u64) -> (r: Option<u64>)
        requires
            self.wf(),
        ensures
            r == first_above(self@.ids, x),
    {
        let ghost ids = self@.ids;
        assert(ids.subrange(0, ids.len() as int) =~= ids);
        let mut i: usize = 0;
        while i < self.windows.len()
            invariant
                self.wf(),
                ids == self@.ids,
                i <= ids.len(),
                first_above(ids, x) == first_above(ids.subrange(i as int, ids.len() as int), x),
            decreases ids.len() - i,
        {
            let id = self.windows[i].id();
            if id > x {
                return Some(id);
            }
            assert(ids.subrange(i as int, ids.len() as int).drop_first() =~= ids.subrange(
                i + 1,
                ids.len() as int,
            ));
            i = i + 1;
        }
        None
    }

    /// The last window whose id is below `x`.
    fn last_window_below(&self, x: u64) -> (r: Option<u64>)
        requires
            self.wf(),
        ensures
            r == last_below(self@.ids, x),
    {
        let ghost ids = self@.ids;
        assert(ids.subrange(0, ids.len() as int) =~= ids);
        let mut i: usize = self.windows.len();
        while i > 0
            invariant
                self.wf(),
                ids == self@.ids,
                i <= ids.len(),
                last_below(ids, x) == last_below(ids.subrange(0, i as int), x),
            decreases i,
        {
            let id = self.windows[i - 1].id();
            if id < x {
                return Some(id);
            }
            assert(ids.subrange(0, i as int).drop_last() =~= ids.subrange(0, i - 1));
            i = i - 1;
        }
        None
    }

    /// The smallest id above the selected one.
    pub fn next_window_idx(&self) -> (r: Option<u64>)
        requires
            self.wf(),
        ensures
            r == self@.next(),
    {
        match self.selected {
            Some(s) => self.first_window_above(s),
            None => None,
        }
    }

    /// The greatest id below the selected one.
    pub fn prev_window_idx(&self) -> (r: Option<u64>)
        requires
            self.wf(),
        ensures
            r == self@.prev(),
    {
        match self.selected {
            Some(s) => self.last_window_below(s),
            None => None,
        }
    }

    /// Forward keystrokes to the selected window.
    pub fn receive_stdin(&mut self, data: &[u8]) -> (r: Result<(), SessionError>)
        requires
            old(self).wf(),
        ensures
            final(self).wf(),
            final(self)@ == old(self)@.receive_stdin(data@),
            r == if old(self)@.selected is Some {
                Ok::<(), SessionError>(())
            } else {
                Err(SessionError::NoSelectedWindow)
            },
    {
        let sel = match self.selected {
            Some(s) => s,
            None => {
                return Err(SessionError::NoSelectedWindow);
            },
        };
        match self.find(sel) {
            Some(i) => {
                let ghost s0 = self@;
                self.windows[i].receive_stdin(data);
                proof {
                    let w = s0.wins[i as int].typed(data@);
                    assert(self@.wins =~= s0.wins.update(i as int, w));
                    assert(self@.ids =~= s0.ids);
                    Session::lemma_update(s0, self@, i as int, w);
                }
                Ok(())
            },
            None => Err(SessionError::NoSelectedWindow),
        }
    }

    /// Draw the selected window.
    pub fn redraw(&mut self, output: &mut Vec<char>) -> (r: Result<(), SessionError>)
        requires
            old(self).wf(),
        ensures
            final(self).wf(),
            match old(self)@.selected {
                Some(s) => {
                    &&& r == Ok::<(), SessionError>(())
                    &&& final(self)@ == old(self)@.with_window(
                        s,
                        old(self)@.wins[old(self)@.pos(s)].drawn(),
                    )
                    &&& final(output)@ == old(output)@ + frame(
                        old(self)@.wins[old(self)@.pos(s)].grid,
                    )
                },
                None => {
                    &&& r == Err::<(), SessionError>(SessionError::NoSelectedWindow)
                    &&& final(self)@ == old(self)@
                    &&& final(output)@ == old(output)@
                },
            },
    {
        let sel = match self.selected {
            Some(s) => s,
            None => {
                return Err(SessionError::NoSelectedWindow);
            },
        };
        match self.find(sel) {
            Some(i) => {
                let ghost s0 = self@;
                self.windows[i].redraw(output);
                proof {
                    let w = s0.wins[i as int].drawn();
                    assert(self@.wins =~= s0.wins.update(i as int, w));
                    assert(self@.ids =~= s0.ids);
                    Session::lemma_update(s0, self@, i as int, w);
                }
                Ok(())
            },
            None => Err(SessionError::NoSelectedWindow),
        }
    }

    /// The terminal has a new size.
    pub fn resize(&mut self, size: Winsize) -> (r: Result<(), SessionError>)
        requires
            old(self).wf(),
            size.usable(),
        ensures
            final(self).wf(),
            final(self)@ == old(self)@.resized(size),
            r == if old(self)@.selected is Some {
                Ok::<(), SessionError>(())
            } else {
                Err(SessionError::NoSelectedWindow)
            },
    {
        self.size = size;
        let sel = match self.selected {
            Some(s) => s,
            None => {
                return Err(SessionError::NoSelectedWindow);
            },
        };
        match self.find(sel) {
            Some(i) => {
                let ghost s0 = self@;
                self.windows[i].resize(size);
                proof {
                    let w = s0.wins[i as int].resized(size);
                    assert(self@.wins =~= s0.wins.update(i as int, w));
                    assert(self@.ids =~= s0.ids);
                    Session::lemma_update(s0, self@, i as int, w);
                }
                Ok(())
            },
            None => Err(SessionError::NoSelectedWindow),
        }
    }
}

/// Removing a window keeps a session well formed; a selection of the
/// removed window is dropped.
proof fn lemma_removed(m: SessionModel, i: int)
    requires
        m.wf(),
        0 <= i < m.ids.len(),
    ensures
        (SessionModel {
            selected: if m.selected == Some(m.ids[i]) {
                None
            } else {
                m.selected
            },
            ..m.removed(m.ids[i])
        }).wf(),
{
    lemma_pos(m, i);
    let id = m.ids[i];
    let r = SessionModel {
        selected: if m.selected == Some(id) {
            None
        } else {
            m.selected
        },
        ..m.removed(id)
    };
    assert forall|k: int, l: int| 0 <= k < l < r.ids.len() implies r.ids[k] < r.ids[l] by {
        let k2 = if k < i {
            k
        } else {
            k + 1
        };
        let l2 = if l < i {
            l
        } else {
            l + 1
        };
        assert(r.ids[k] == m.ids[k2]);
        assert(r.ids[l] == m.ids[l2]);
    }
    assert forall|k: int| 0 <= k < r.ids.len() implies #[trigger] r.ids[k] < r.next_id by {
        if k >= i {
            assert(r.ids[k] == m.ids[k + 1]);
        }
    }
    assert forall|k: int| 0 <= k < r.wins.len() implies #[trigger] r.wins[k].wf() by {
        if k >= i {
            assert(r.wins[k] == m.wins[k + 1]);
        }
    }
    if let Some(s) = r.selected {
        let j = choose|j: int| 0 <= j < m.ids.len() && m.ids[j] == s;
        assert(j != i);
        if j < i {
            assert(r.ids[j] == s);
        } else {
            assert(r.ids[j - 1] == s);
        }
    }
}

impl Session {
    /// Route an update from the PTY of window `update.window_idx`. For a
    /// byte, `actions` are what the window's terminal-stream parser made of
    /// it; they are carried out on the window's grid. When the child has
    /// exited, its window goes.
    pub fn pty_update(&mut self, update: SessionPtyUpdate, actions: &Vec<GridAction>) -> (r:
        Result<(), SessionError>)
        requires
            old(self).wf(),
        ensures
            final(self).wf(),
            final(self)@ == old(self)@.pty_update(update, actions@),
            r == if old(self)@.ids.contains(update.window_idx) {
                Ok::<(), SessionError>(())
            } else {
                Err(SessionError::WindowLost)
            },
    {
        let id = update.window_idx;
        let i = match self.find(id) {
            Some(i) => i,
            None => {
                return Err(SessionError::WindowLost);
            },
        };
        let ghost s0 = self@;
        match update.data {
            PtyUpdate::Byte(_) => {
                self.windows[i].pty_update(actions);
                proof {
                    let w = s0.wins[i as int].fed(actions@);
                    assert(self@.wins =~= s0.wins.update(i as int, w));
                    assert(self@.ids =~= s0.ids);
                    Session::lemma_update(s0, self@, i as int, w);
                }
            },
            PtyUpdate::Exited => {
                let _gone = self.windows.remove(i);
                let was_selected = self.selected == Some(id);
                if was_selected {
                    self.selected = None;
                }
                proof {
                    assert(self@.ids =~= s0.ids.remove(i as int));
                    assert(self@.wins =~= s0.wins.remove(i as int));
                    lemma_removed(s0, i as int);
                }
                if was_selected {
                    let succ = match self.first_window_above(id) {
                        Some(x) => Some(x),
                        None => self.last_window_idx(),
                    };
                    if let Some(x) = succ {
                        self.select_window(x);
                    }
                }
            },
        }
        Ok(())
    }

    /// The ids of the windows, in ascending order.
    pub fn window_ids(&self) -> (r: Vec<u64>)
        requires
            self.wf(),
        ensures
            r@ == self@.ids,
    {
        let mut r: Vec<u64> = Vec::new();
        let mut i: usize = 0;
        while i < self.windows.len()
            invariant
                self.wf(),
                i <= self@.ids.len(),
                r@ == self@.ids.subrange(0, i as int),
            decreases self@.ids.len() - i,
        {
            r.push(self.windows[i].id());
            i = i + 1;
            assert(r@ =~= self@.ids.subrange(0, i as int));
        }
        assert(self@.ids.subrange(0, self@.ids.len() as int) =~= self@.ids);
        r
    }

    /// Window `id`, if it exists.
    pub fn window(&self, id: u64) -> (r: Option<&Window>)
        requires
            self.wf(),
        ensures
            match r {
                Some(w) => self@.ids.contains(id) && w.wf() && w@ == self@.wins[self@.pos(id)],
                None => !self@.ids.contains(id),
            },
    {
        match self.find(id) {
            Some(i) => {
                assert(self@.ids.contains(id)) by {
                    assert(self@.ids[i as int] == id);
                }
                Some(&self.windows[i])
            },
            None => None,
        }
    }

    /// Hand over the bytes waiting for the child of window `id`.
    pub fn take_pty_output(&mut self, id: u64) -> (r: Vec<u8>)
        requires
            old(self).wf(),
        ensures
            final(self).wf(),
            old(self)@.ids.contains(id) ==> r@ == old(self)@.wins[old(self)@.pos(id)].to_pty
                && final(self)@ == old(self)@.with_window(
                id,
                WindowModel { to_pty: Seq::empty(), ..old(self)@.wins[old(self)@.pos(id)] },
            ),
            !old(self)@.ids.contains(id) ==> r@ == Seq::<u8>::empty() && final(self)@ == old(
                self,
            )@,
    {
        match self.find(id) {
            Some(i) => {
                let ghost s0 = self@;
                let out = self.windows[i].take_pty_output();
                proof {
                    let w = WindowModel { to_pty: Seq::empty(), ..s0.wins[i as int] };
                    assert(self@.wins =~= s0.wins.update(i as int, w));
                    assert(self@.ids =~= s0.ids);
                    Session::lemma_update(s0, self@, i as int, w);
                }
                out
            },
            None => Vec::new(),
        }
    }

    /// Hand over the size that the child of window `id` must be told of.
    pub fn take_pty_resize(&mut self, id: u64) -> (r: Option<Winsize>)
        requires
            old(self).wf(),
        ensures
            final(self).wf(),
            old(self)@.ids.contains(id) ==> r == old(self)@.wins[old(self)@.pos(id)].pty_resize
                && final(self)@ == old(self)@.with_window(
                id,
                WindowModel { pty_resize: None, ..old(self)@.wins[old(self)@.pos(id)] },
            ),
            !old(self)@.ids.contains(id) ==> r == None::<Winsize> && final(self)@ == old(self)@,
    {
        match self.find(id) {
            Some(i) => {
                let ghost s0 = self@;
                let out = self.windows[i].take_pty_resize();
                proof {
                    let w = WindowModel { pty_resize: None, ..s0.wins[i as int] };
                    assert(self@.wins =~= s0.wins.update(i as int, w));
                    assert(self@.ids =~= s0.ids);
                    Session::lemma_update(s0, self@, i as int, w);
                }
                out
            },
            None => None,
        }
    }
}

} // verus!
