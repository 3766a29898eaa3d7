use session_manager::action::GridAction;
use session_manager::get_shell;
use session_manager::session::{PtyUpdate, Session, SessionError, SessionPtyUpdate, Winsize};

const WINSZ: Winsize = Winsize { ws_row: 24, ws_col: 80, ws_xpixel: 0, ws_ypixel: 0 };

fn exited(window_idx: u64) -> SessionPtyUpdate {
    SessionPtyUpdate { window_idx, data: PtyUpdate::Exited }
}

fn count(session: &Session) -> usize {
    session.window_ids().len()
}

#[test]
fn session_report_unselected() {
    let mut session = Session::new(WINSZ);
    let mut out = Vec::new();
    match session.redraw(&mut out).unwrap_err() {
        SessionError::NoSelectedWindow => (),
        _ => assert!(false, "wrong error when redrawing nonexistent window"),
    };
}

#[test]
fn session_window_relative() {
    let mut session = Session::new(WINSZ);
    let none: Vec<GridAction> = Vec::new();
    assert_eq!(count(&session), 0);

    let first = session.new_window();
    assert_eq!(count(&session), 1);
    session.select_window(first);
    let first = session.first_window_idx().unwrap();
    assert_eq!(session.select_window(2475), None, "should not select invalid idx");
    assert_eq!(Some(first), session.selected_window_idx());
    assert_eq!(Some(first), session.first_window_idx());
    assert_eq!(Some(first), session.last_window_idx());
    assert_eq!(session.next_window_idx(), None);
    assert_eq!(session.prev_window_idx(), None);

    let second = session.new_window();
    assert_eq!(count(&session), 2);
    assert_ne!(first, second);
    assert_eq!(
        Some(first),
        session.selected_window_idx(),
        "selection changed when adding new window"
    );
    session.select_window(second);
    assert_eq!(Some(first), session.first_window_idx(), "ordering broken");
    assert_eq!(Some(second), session.last_window_idx(), "ordering broken");
    assert_eq!(Some(first), session.prev_window_idx(), "can't find first window");
    assert_eq!(session.next_window_idx(), None);

    session.select_window(first);
    let third = session.new_window();
    assert_eq!(count(&session), 3);
    assert_eq!(Some(second), session.next_window_idx());
    assert_eq!(Some(third), session.last_window_idx());
    session.select_window(second);
    assert_eq!(Some(first), session.prev_window_idx());
    assert_eq!(Some(third), session.next_window_idx());
    assert_eq!(Some(first), session.first_window_idx());
    session.select_window(third);
    assert_eq!(Some(second), session.prev_window_idx());
    assert_eq!(None, session.next_window_idx());

    session.select_window(second);
    session.pty_update(exited(second), &none).unwrap();
    assert_eq!(
        Some(third),
        session.selected_window_idx(),
        "next younger window not selected"
    );
    assert_eq!(Some(first), session.prev_window_idx(), "can't find first window");
    session.pty_update(exited(first), &none).unwrap();
    assert_eq!(Some(third), session.selected_window_idx());
    assert_eq!(
        Some(third),
        session.first_window_idx(),
        "only remaining window is not first"
    );
    assert_eq!(Some(third), session.last_window_idx());
    assert_eq!(None, session.prev_window_idx());
    session.pty_update(exited(third), &none).unwrap();
    assert_eq!(count(&session), 0);
    assert_eq!(None, session.next_window_idx());
    assert_eq!(None, session.last_window_idx());
    assert_eq!(
        None,
        session.selected_window_idx(),
        "closed window not deselected"
    );
}

#[test]
fn session_forward_stdin() {
    let mut session = Session::new(WINSZ);
    let first = session.new_window();
    let second = session.new_window();

    session.select_window(second);
    assert_eq!(session.selected_window_idx(), Some(second));
    session.receive_stdin(b"Hello").unwrap();

    assert!(session.take_pty_output(first).is_empty(), "other window received byte");
    assert_eq!(session.take_pty_output(second), b"Hello".to_vec());
    assert!(session.take_pty_output(second).is_empty(), "recv too many bytes");

    session.select_window(first);
    session.receive_stdin(b"World").unwrap();

    assert_eq!(session.take_pty_output(first), b"World".to_vec());
    assert!(session.take_pty_output(first).is_empty(), "recv too many bytes");
    assert!(session.take_pty_output(second).is_empty(), "other window received byte");
}

#[test]
fn session_forward_pty_update() {
    let mut session = Session::new(WINSZ);
    let first = session.new_window();
    let second = session.new_window();
    session.select_window(second);
    assert_eq!(session.selected_window_idx(), Some(second));
    let actions = vec![GridAction::Input('x')];
    session
        .pty_update(SessionPtyUpdate { window_idx: first, data: PtyUpdate::Byte(b'x') }, &actions)
        .unwrap();

    let grid = session.window(second).unwrap().grid();
    assert_eq!(grid.cell(0, 0).c, ' ', "other window received byte");
    let grid = session.window(first).unwrap().grid();
    assert_eq!(grid.cell(0, 0).c, 'x', "failed to recv byte");
    assert_eq!(grid.cell(1, 0).c, ' ', "recv multiple bytes");
}

#[test]
fn session_device_reply_goes_to_child() {
    let mut session = Session::new(WINSZ);
    let first = session.new_window();
    let actions = vec![GridAction::Goto(2, 3), GridAction::DeviceStatus(6)];
    session
        .pty_update(SessionPtyUpdate { window_idx: first, data: PtyUpdate::Byte(b'n') }, &actions)
        .unwrap();
    assert_eq!(session.take_pty_output(first), b"\x1b[3;4R".to_vec());
}

#[test]
fn session_update_for_lost_window() {
    let mut session = Session::new(WINSZ);
    let first = session.new_window();
    session.pty_update(exited(first), &Vec::new()).unwrap();
    assert_eq!(
        session.pty_update(exited(first), &Vec::new()),
        Err(SessionError::WindowLost)
    );
    let byte = SessionPtyUpdate { window_idx: 7, data: PtyUpdate::Byte(b'a') };
    assert_eq!(session.pty_update(byte, &Vec::new()), Err(SessionError::WindowLost));
}

#[test]
fn session_stdin_without_selection() {
    let mut session = Session::new(WINSZ);
    session.new_window();
    assert_eq!(session.receive_stdin(b"x"), Err(SessionError::NoSelectedWindow));
}

#[test]
fn session_resize_selected_only() {
    let mut session = Session::new(WINSZ);
    let first = session.new_window();
    let second = session.new_window();
    let third = session.new_window();
    session.select_window(second);
    assert_eq!(session.take_pty_resize(second), None, "same size resized again");

    let bigger = Winsize { ws_row: 30, ws_col: 100, ws_xpixel: 0, ws_ypixel: 0 };
    session.resize(bigger).unwrap();
    assert_eq!(session.size(), bigger);
    assert_eq!(session.take_pty_resize(first), None, "resized background window");
    assert_eq!(session.take_pty_resize(second), Some(bigger), "did not resize selected window");
    assert_eq!(session.take_pty_resize(second), None, "resized multiple times");
    assert_eq!(session.take_pty_resize(third), None, "resized background window");
    assert_eq!(session.window(second).unwrap().grid().width(), 100);
    assert_eq!(session.window(first).unwrap().grid().width(), 80);

    session.select_window(third);
    assert_eq!(session.take_pty_resize(third), Some(bigger), "did not resize on selection");
    assert_eq!(session.take_pty_resize(first), None, "resized background window");

    session.pty_update(exited(third), &Vec::new()).unwrap();
    assert_eq!(session.selected_window_idx(), Some(second));
    assert_eq!(session.take_pty_resize(first), None, "resized background window");
}

#[test]
fn session_resize_without_selection() {
    let mut session = Session::new(WINSZ);
    let small = Winsize { ws_row: 10, ws_col: 20, ws_xpixel: 0, ws_ypixel: 0 };
    assert_eq!(session.resize(small), Err(SessionError::NoSelectedWindow));
    assert_eq!(session.size(), small);
    let id = session.new_window();
    assert_eq!(session.window(id).unwrap().grid().height(), 10);
}

#[test]
fn session_select_marks_dirty() {
    let mut session = Session::new(WINSZ);
    let first = session.new_window();
    let second = session.new_window();
    session.select_window(first);
    let mut out = Vec::new();
    session.redraw(&mut out).unwrap();
    assert!(!out.is_empty());
    assert!(!session.window(first).unwrap().grid().is_dirty(0));

    session.select_window(second);
    session.redraw(&mut out).unwrap();
    assert!(!session.window(second).unwrap().grid().is_dirty(0));
    assert!(!session.window(first).unwrap().grid().is_dirty(0), "unselected window marked");

    session.select_window(first);
    assert!(session.window(first).unwrap().grid().is_dirty(0), "selected window not marked");
    assert!(!session.window(second).unwrap().grid().is_dirty(0), "unselected window marked");
}

#[test]
fn session_ids_grow_and_selection_in_range() {
    let mut session = Session::new(WINSZ);
    let a = session.new_window();
    let b = session.new_window();
    session.pty_update(exited(b), &Vec::new()).unwrap();
    let c = session.new_window();
    assert!(a < b && b < c, "ids reused");
    session.select_window(c);
    let sel = session.selected_window_idx().unwrap();
    assert!(session.first_window_idx().unwrap() <= sel);
    assert!(sel <= session.last_window_idx().unwrap());
    assert_eq!(session.window_ids(), vec![a, c]);
}

#[test]
fn shell_from_environment_or_default() {
    assert_eq!(get_shell(None), "/bin/sh");
    assert_eq!(get_shell(Some("/bin/zsh".to_string())), "/bin/zsh");
}
