//! The decisions of the event loop: what a keystroke, an update from a
//! PTY, a change of the terminal's size and a tick of the redraw timer do.
//! The loop that waits for these events, spawns children and writes to
//! the terminal lives with the program.

use vstd::prelude::*;

use crate::action::GridAction;
use crate::escape::{clear_all_seq, goto_seq, push_clear_all, push_goto};
use crate::grid::frame;
use crate::session::{Session, SessionError, SessionModel, SessionPtyUpdate, Winsize};

verus! {

/// A keystroke, as far as the loop tells keys apart.
#[derive(Debug, Clone, Copy, PartialEq, Eq, Structural)]
pub enum Key {
    /// Ctrl-B, which starts a command to the multiplexer.
    Prefix,
    Char(char),
    Other,
}

/// What the program must do after a keystroke.
#[derive(Debug, Clone, Copy, PartialEq, Eq, Structural)]
pub enum KeyOutcome {
    Done,
    /// Spawn a child at the session's size, then hand it to `window_spawned`.
    SpawnWindow,
}

/// What a tick of the redraw timer did.
#[derive(Debug, Clone, Copy, PartialEq, Eq, Structural)]
pub enum Tick {
    /// Nothing changed since the last frame.
    Idle,
    /// A frame was drawn.
    Drawn,
    /// No window is left; the farewell was drawn and the loop ends.
    Exit,
}

/// `a`, or else `b`.
pub open spec fn or_else(a: Option<u64>, b: Option<u64>) -> Option<u64> {
    match a {
        Some(x) => Some(x),
        None => b,
    }
}

/// Selects `id` when there is one.
pub open spec fn select_some(m: SessionModel, id: Option<u64>) -> SessionModel {
    match id {
        Some(x) => m.select(x),
        None => m,
    }
}

/// The result of forwarding keystrokes.
pub open spec fn stdin_result(m: SessionModel) -> Result<KeyOutcome, SessionError> {
    if m.selected is Some {
        Ok(KeyOutcome::Done)
    } else {
        Err(SessionError::NoSelectedWindow)
    }
}

/// The text shown when the last window has closed.
pub open spec fn farewell() -> Seq<char> {
    seq![
        's', 'm', ':', ' ', 'l', 'a', 's', 't', ' ', 'w', 'i', 'n', 'd', 'o', 'w', ' ', 'c', 'l',
        'o', 's', 'e', 'd', '.', ' ', 'E', 'x', 'i', 't', 'i', 'n', 'g', '.', '\r', '\n',
    ]
}

/// The loop's own state: whether the prefix key was just pressed, and
/// whether the screen needs drawing.
#[derive(Debug, Clone, Copy, PartialEq, Eq, Structural)]
pub struct LoopState {
    pub manage_mode: bool,
    pub dirty: bool,
}

impl LoopState {
    /// At the start nothing has been drawn yet.
    pub fn new() -> (r: LoopState)
        ensures
            r == (LoopState { manage_mode: false, dirty: true }),
    {
        LoopState { manage_mode: false, dirty: true }
    }

    /// A keystroke `key`, whose raw bytes are `raw`. Outside management
    /// mode keys go to the selected window, but for the prefix, which
    /// enters it. In management mode one key is a command: the prefix
    /// again sends itself, `c` opens a window, `n` and `p` select the next
    /// and the previous window (wrapping round); anything else is ignored.
    pub fn on_key(&mut self, session: &mut Session, key: Key, raw: &[u8]) -> (r: Result<
        KeyOutcome,
        SessionError,
    >)
        requires
            old(session).wf(),
        ensures
            final(session).wf(),
            !old(self).manage_mode && key == Key::Prefix ==> {
                &&& *final(self) == (LoopState { manage_mode: true, ..*old(self) })
                &&& final(session)@ == old(session)@
                &&& r == Ok::<KeyOutcome, SessionError>(KeyOutcome::Done)
            },
            !old(self).manage_mode && key != Key::Prefix ==> {
                &&& *final(self) == *old(self)
                &&& final(session)@ == old(session)@.receive_stdin(raw@)
                &&& r == stdin_result(old(session)@)
            },
            old(self).manage_mode ==> *final(self) == (LoopState { manage_mode: false, dirty: true }),
            old(self).manage_mode ==> match key {
                Key::Prefix => final(session)@ == old(session)@.receive_stdin(raw@) && r
                    == stdin_result(old(session)@),
                Key::Char('c') => final(session)@ == old(session)@ && r == Ok::<
                    KeyOutcome,
                    SessionError,
                >(KeyOutcome::SpawnWindow),
                Key::Char('n') => final(session)@ == select_some(
                    old(session)@,
                    or_else(old(session)@.next(), old(session)@.first()),
                ) && r == Ok::<KeyOutcome, SessionError>(KeyOutcome::Done),
                Key::Char('p') => final(session)@ == select_some(
                    old(session)@,
                    or_else(old(session)@.prev(), old(session)@.last()),
                ) && r == Ok::<KeyOutcome, SessionError>(KeyOutcome::Done),
                _ => final(session)@ == old(session)@ && r == Ok::<KeyOutcome, SessionError>(
                    KeyOutcome::Done,
                ),
            },
    {
        if !self.manage_mode {
            if key == Key::Prefix {
                self.manage_mode = true;
                return Ok(KeyOutcome::Done);
            }
            return match session.receive_stdin(raw) {
                Ok(()) => Ok(KeyOutcome::Done),
                Err(e) => Err(e),
            };
        }
        self.manage_mode = false;
        self.dirty = true;
        match key {
            Key::Prefix => match session.receive_stdin(raw) {
                Ok(()) => Ok(KeyOutcome::Done),
                Err(e) => Err(e),
            },
            Key::Char('c') => Ok(KeyOutcome::SpawnWindow),
            Key::Char('n') => {
                let target = match session.next_window_idx() {
                    Some(x) => Some(x),
                    None => session.first_window_idx(),
                };
                if let Some(x) = target {
                    session.select_window(x);
                }
                Ok(KeyOutcome::Done)
            },
            Key::Char('p') => {
                let target = match session.prev_window_idx() {
                    Some(x) => Some(x),
                    None => session.last_window_idx(),
                };
                if let Some(x) = target {
                    session.select_window(x);
                }
                Ok(KeyOutcome::Done)
            },
            _ => Ok(KeyOutcome::Done),
        }
    }

    /// The child asked for by `KeyOutcome::SpawnWindow` has started: it
    /// gets a window, which is selected.
    pub fn window_spawned(&mut self, session: &mut Session) -> (id: u64)
        requires
            old(session).wf(),
            old(session)@.next_id < u64::MAX,
        ensures
            final(session).wf(),
            id == old(session)@.next_id,
            final(session)@ == old(session)@.opened().select(id),
            *final(self) == (LoopState { dirty: true, ..*old(self) }),
    {
        let id = session.new_window();
        session.select_window(id);
        self.dirty = true;
        id
    }

    /// An update from the PTY of a window.
    pub fn on_pty_update(
        &mut self,
        session: &mut Session,
        update: SessionPtyUpdate,
        actions: &Vec<GridAction>,
    ) -> (r: Result<(), SessionError>)
        requires
            old(session).wf(),
        ensures
            final(session).wf(),
            final(session)@ == old(session)@.pty_update(update, actions@),
            r == if old(session)@.ids.contains(update.window_idx) {
                Ok::<(), SessionError>(())
            } else {
                Err(SessionError::WindowLost)
            },
            *final(self) == (LoopState { dirty: true, ..*old(self) }),
    {
        self.dirty = true;
        session.pty_update(update, actions)
    }

    /// The user's terminal now has `size`.
    pub fn on_resize(&mut self, session: &mut Session, size: Winsize) -> (r: Result<
        (),
        SessionError,
    >)
        requires
            old(session).wf(),
            size.usable(),
        ensures
            final(session).wf(),
            final(session)@ == old(session)@.resized(size),
            r == if old(session)@.selected is Some {
                Ok::<(), SessionError>(())
            } else {
                Err(SessionError::NoSelectedWindow)
            },
            *final(self) == (LoopState { dirty: true, ..*old(self) }),
    {
        self.dirty = true;
        session.resize(size)
    }

    /// A tick of the redraw timer: when something changed, draw the
    /// selected window into `output`; when no window is left, draw the
    /// farewell instead and end.
    pub fn on_tick(&mut self, session: &mut Session, output: &mut Vec<char>) -> (r: Tick)
        requires
            old(session).wf(),
        ensures
            final(session).wf(),
            !old(self).dirty ==> {
                &&& r == Tick::Idle
                &&& *final(self) == *old(self)
                &&& final(session)@ == old(session)@
                &&& final(output)@ == old(output)@
            },
            old(self).dirty ==> match old(session)@.selected {
                Some(s) => {
                    &&& r == Tick::Drawn
                    &&& *final(self) == (LoopState { dirty: false, ..*old(self) })
                    &&& final(session)@ == old(session)@.with_window(
                        s,
                        old(session)@.wins[old(session)@.pos(s)].drawn(),
                    )
                    &&& final(output)@ == old(output)@ + frame(
                        old(session)@.wins[old(session)@.pos(s)].grid,
                    )
                },
                None => {
                    &&& r == Tick::Exit
                    &&& *final(self) == *old(self)
                    &&& final(session)@ == old(session)@
                    &&& final(output)@ == old(output)@ + goto_seq(1, 1) + clear_all_seq()
                        + farewell()
                },
            },
    {
        if !self.dirty {
            return Tick::Idle;
        }
        match session.redraw(output) {
            Ok(()) => {
                self.dirty = false;
                Tick::Drawn
            },
            Err(_) => {
                push_goto(output, 1, 1);
                push_clear_all(output);
                let mut text = vec![
                    's', 'm', ':', ' ', 'l', 'a', 's', 't', ' ', 'w', 'i', 'n', 'd', 'o', 'w', ' ',
                    'c', 'l', 'o', 's', 'e', 'd', '.', ' ', 'E', 'x', 'i', 't', 'i', 'n', 'g', '.',
                    '\r', '\n',
                ];
                assert(text@ =~= farewell());
                output.append(&mut text);
                assert(output@ =~= old(output)@ + goto_seq(1, 1) + clear_all_seq() + farewell());
                Tick::Exit
            },
        }
    }
}

} // verus!
