use session_manager::action::GridAction;
use session_manager::event::{Key, KeyOutcome, LoopState, Tick};
use session_manager::session::{PtyUpdate, Session, SessionError, SessionPtyUpdate, Winsize};

const WINSZ: Winsize = Winsize { ws_row: 24, ws_col: 80, ws_xpixel: 0, ws_ypixel: 0 };

fn started() -> (LoopState, Session, u64) {
    let mut state = LoopState::new();
    let mut session = Session::new(WINSZ);
    let id = state.window_spawned(&mut session);
    (state, session, id)
}

#[test]
fn no_immediate_redraw() {
    let (mut state, mut session, _) = started();
    let mut out = Vec::new();
    assert_eq!(state.on_tick(&mut session, &mut out), Tick::Drawn);
    out.clear();
    assert_eq!(state.on_tick(&mut session, &mut out), Tick::Idle);
    assert!(out.is_empty());

    let mut redraw_times = 0;
    for _ in 0..3 {
        state.on_resize(&mut session, WINSZ).unwrap();
    }
    for _ in 0..3 {
        out.clear();
        if state.on_tick(&mut session, &mut out) == Tick::Drawn {
            redraw_times += 1;
            assert!(!out.is_empty());
        }
    }
    assert_eq!(redraw_times, 1);
}

#[test]
fn prefix_then_commands() {
    let (mut state, mut session, first) = started();
    assert_eq!(state.on_key(&mut session, Key::Prefix, b"\x02"), Ok(KeyOutcome::Done));
    assert!(state.manage_mode);
    assert_eq!(session.take_pty_output(first), Vec::<u8>::new());
    assert_eq!(state.on_key(&mut session, Key::Char('c'), b"c"), Ok(KeyOutcome::SpawnWindow));
    assert!(!state.manage_mode);
    let second = state.window_spawned(&mut session);
    assert_eq!(session.selected_window_idx(), Some(second));

    state.on_key(&mut session, Key::Prefix, b"\x02").unwrap();
    state.on_key(&mut session, Key::Char('n'), b"n").unwrap();
    assert_eq!(session.selected_window_idx(), Some(first), "next wraps to first");
    state.on_key(&mut session, Key::Prefix, b"\x02").unwrap();
    state.on_key(&mut session, Key::Char('p'), b"p").unwrap();
    assert_eq!(session.selected_window_idx(), Some(second), "prev wraps to last");
    state.on_key(&mut session, Key::Prefix, b"\x02").unwrap();
    state.on_key(&mut session, Key::Char('p'), b"p").unwrap();
    assert_eq!(session.selected_window_idx(), Some(first));
}

#[test]
fn keys_pass_through_and_literal_prefix() {
    let (mut state, mut session, first) = started();
    state.on_key(&mut session, Key::Char('l'), b"l").unwrap();
    state.on_key(&mut session, Key::Other, b"\x1b[A").unwrap();
    state.on_key(&mut session, Key::Prefix, b"\x02").unwrap();
    state.on_key(&mut session, Key::Prefix, b"\x02").unwrap();
    state.on_key(&mut session, Key::Prefix, b"\x02").unwrap();
    state.on_key(&mut session, Key::Char('x'), b"x").unwrap();
    assert_eq!(session.take_pty_output(first), b"l\x1b[A\x02".to_vec());
    assert!(!state.manage_mode);
}

#[test]
fn stdin_error_without_window() {
    let mut state = LoopState::new();
    let mut session = Session::new(WINSZ);
    assert_eq!(
        state.on_key(&mut session, Key::Char('a'), b"a"),
        Err(SessionError::NoSelectedWindow)
    );
}

#[test]
fn last_window_closed_farewell() {
    let (mut state, mut session, first) = started();
    let update = SessionPtyUpdate { window_idx: first, data: PtyUpdate::Exited };
    state.on_pty_update(&mut session, update, &Vec::<GridAction>::new()).unwrap();
    let mut out = Vec::new();
    assert_eq!(state.on_tick(&mut session, &mut out), Tick::Exit);
    let text: String = out.into_iter().collect();
    assert_eq!(text, "\x1b[1;1H\x1b[2Jsm: last window closed. Exiting.\r\n");
}
