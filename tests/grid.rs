use session_manager::color::{Color, NamedColor, Rgb};
use session_manager::grid::{Attr, Cell, ClearMode, CursorPos, Grid, LineClearMode};

fn input_str(grid: &mut Grid, s: &str) {
    for c in s.chars() {
        grid.input(c);
    }
}

fn check_char(grid: &Grid, col: u16, row: u16, c: char) {
    assert_eq!(grid.cell(col, row).c, c);
}

fn check_cell(grid: &Grid, col: u16, row: u16, cell: Cell) {
    assert_eq!(grid.cell(col, row), cell);
}

fn check_cur(grid: &Grid, col: u16, row: u16) {
    assert_eq!(grid.cursor(), CursorPos::at(col, row));
}

fn drawn(grid: &mut Grid) -> String {
    let mut out = Vec::new();
    grid.draw(&mut out);
    out.into_iter().collect()
}

#[test]
fn goto() {
    let mut grid = Grid::new(4, 4);
    grid.goto(1, 1);
    check_cur(&grid, 1, 1);
    grid.move_up_and_cr(1);
    check_cur(&grid, 0, 0);
    grid.move_down(6);
    check_cur(&grid, 0, 3);
}

#[test]
fn overshoot() {
    let mut grid = Grid::new(4, 3);
    grid.goto(0, 0);
    grid.goto_line(3);
    check_cur(&grid, 0, 2);
    grid.goto_col(4);
    check_cur(&grid, 3, 2);
    grid.move_backward(40);
    check_cur(&grid, 0, 2);
    grid.move_backward(1);
    check_cur(&grid, 0, 2);
    grid.move_up(3);
    check_cur(&grid, 0, 0);
    grid.move_forward(10);
    check_cur(&grid, 3, 0);
    grid.move_down_and_cr(10);
    check_cur(&grid, 0, 2);
    input_str(&mut grid, "Hello World!");
    check_cur(&grid, 0, 3); // one past end (!)
}

#[test]
fn clear_line() {
    let mut grid = Grid::new(4, 3);
    input_str(&mut grid, "Hello World!");
    grid.goto(1, 2);
    grid.clear_line(LineClearMode::Right);
    check_char(&grid, 1, 0, 'e');
    check_char(&grid, 1, 1, ' ');
    check_char(&grid, 2, 2, 'd');
    assert_eq!(grid.cell(2, 1), Cell::default());
    grid.goto(0, 3);
    grid.clear_line(LineClearMode::Left);
    assert_eq!(grid.cell(2, 0), Cell::default());
    assert_eq!(grid.cell(0, 0), Cell::default());
    check_char(&grid, 3, 0, 'l');
    check_char(&grid, 0, 1, 'o');
    grid.goto(2, 1);
    grid.clear_line(LineClearMode::All);
    check_char(&grid, 3, 0, 'l');
    check_char(&grid, 0, 1, 'o');
    assert_eq!(grid.cell(0, 2), Cell::default());
    assert_eq!(grid.cell(1, 2), Cell::default());
    assert_eq!(grid.cell(3, 2), Cell::default());
}

#[test]
fn clear_screen() {
    let mut grid = Grid::new(4, 3);
    input_str(&mut grid, "Hello World!");
    grid.goto(1, 3);
    grid.clear_screen(ClearMode::Below);
    check_char(&grid, 1, 0, 'e');
    check_char(&grid, 0, 1, 'o');
    assert_eq!(grid.cell(3, 1), Cell::default());
    assert_eq!(grid.cell(1, 2), Cell::default());
    check_char(&grid, 2, 1, 'W');
    grid.goto(0, 3);
    grid.clear_screen(ClearMode::Above);
    assert_eq!(grid.cell(2, 0), Cell::default());
    assert_eq!(grid.cell(0, 0), Cell::default());
    check_char(&grid, 3, 0, 'l');
    check_char(&grid, 0, 1, 'o');
    grid.goto(2, 1);
    grid.clear_screen(ClearMode::All);
    assert_eq!(grid.cell(2, 0), Cell::default());
    assert_eq!(grid.cell(0, 0), Cell::default());
    assert_eq!(grid.cell(0, 1), Cell::default());
    assert_eq!(grid.cell(3, 0), Cell::default());
}

#[test]
fn insert_delete() {
    let mut grid = Grid::new(4, 3);
    input_str(&mut grid, "Hello World!");
    grid.goto(1, 1);
    grid.erase_chars(1);
    assert_eq!(grid.cell(1, 1), Cell::default());
    check_char(&grid, 2, 1, 'W');
    grid.delete_chars(2);
    check_char(&grid, 0, 1, 'o');
    check_char(&grid, 1, 1, 'o');
    assert_eq!(grid.cell(3, 1), Cell::default());
    check_char(&grid, 0, 2, 'r');
    grid.insert_blank(1);
    check_char(&grid, 2, 1, 'o');
    grid.insert_blank(5);
    check_char(&grid, 1, 0, 'e');
    check_char(&grid, 0, 1, 'o');
    assert_eq!(grid.cell(3, 1), Cell::default());
    assert_eq!(grid.cell(2, 1), Cell::default());
    assert_eq!(grid.cell(1, 1), Cell::default());
    check_char(&grid, 0, 2, 'r');

    grid.set_scrolling_region(1, Some(2));
    grid.delete_lines(1);
    check_char(&grid, 0, 0, 'o');
    assert_eq!(grid.cell(2, 0), Cell::default());
    assert_eq!(grid.cell(0, 1), Cell::default());
    check_char(&grid, 1, 2, 'l');
    grid.insert_blank_lines(1);
    assert_eq!(grid.cell(0, 0), Cell::default());
    check_char(&grid, 0, 1, 'o');
    check_char(&grid, 2, 2, 'd');
}

#[test]
fn linefeed_reverse_idx() {
    let mut grid = Grid::new(8, 3);
    grid.goto(1, 0); // row, col
    input_str(&mut grid, "Hello");
    grid.goto(2, 1);
    input_str(&mut grid, "World");
    grid.linefeed();
    check_cur(&grid, 6, 2);
    check_char(&grid, 1, 1, 'W');
    grid.reverse_index();
    check_cur(&grid, 6, 1);
    check_char(&grid, 2, 1, 'o');
    grid.reverse_index();
    grid.reverse_index();
    check_cur(&grid, 6, 0);
    check_char(&grid, 1, 1, 'e');
    check_char(&grid, 3, 2, 'r');
    grid.linefeed();
    grid.linefeed();
    check_cur(&grid, 6, 2);
    grid.linefeed();
    grid.linefeed();
    check_char(&grid, 4, 0, 'l');
    check_cur(&grid, 6, 2);
}

#[test]
fn cursor_save() {
    let mut grid = Grid::new(4, 4);
    let start = grid.cursor();
    grid.save_cursor_position();
    grid.linefeed();
    grid.input('c');
    grid.restore_cursor_position();
    assert_eq!(grid.cursor(), start);
}

#[test]
fn report() {
    let mut grid = Grid::new(4, 4);
    let mut buf: Vec<u8> = Vec::new();

    grid.device_status(&mut buf, 12); // invalid
    assert_eq!(buf.len(), 0);

    grid.device_status(&mut buf, 5);
    assert_eq!(std::str::from_utf8(&buf).unwrap(), "\x1b[0n"); // Terminal OK

    buf.clear();
    grid.goto(2, 3);
    grid.device_status(&mut buf, 6);
    assert_eq!(std::str::from_utf8(&buf).unwrap(), "\x1b[3;4R"); // 1-indexed cursor pos
}

#[test]
fn input_scroll() {
    let mut grid = Grid::new(4, 2);
    input_str(&mut grid, "Hello ");
    check_char(&grid, 0, 0, 'H');
    check_char(&grid, 0, 1, 'o');
    assert_eq!(grid.cell(2, 1), Cell::default());
    input_str(&mut grid, "World!");
    check_char(&grid, 0, 1, 'r');
    check_char(&grid, 3, 1, '!');
    check_char(&grid, 0, 0, 'o');
    check_char(&grid, 2, 0, 'W');
}

#[test]
fn resize_scroll_up() {
    let mut grid = Grid::new(4, 4);
    input_str(&mut grid, "Hello World");
    check_char(&grid, 0, 0, 'H');
    check_char(&grid, 2, 1, 'W');
    check_char(&grid, 0, 2, 'r');
    check_cur(&grid, 3, 2);
    grid.resize(4, 3);
    check_char(&grid, 0, 0, 'H');
    check_char(&grid, 2, 1, 'W');
    check_char(&grid, 0, 2, 'r');
    check_cur(&grid, 3, 2);
    grid.resize(4, 2);
    check_char(&grid, 0, 0, 'o');
    check_char(&grid, 1, 0, ' ');
    check_char(&grid, 1, 1, 'l');
    check_cur(&grid, 3, 1);
    assert_eq!(grid.height(), 2);
}

#[test]
fn resize_scroll_up_newline() {
    // Slightly trickier: cursor is at the start of a new line.
    let mut grid = Grid::new(4, 4);
    input_str(&mut grid, "Hello World!");
    check_char(&grid, 0, 0, 'H');
    check_char(&grid, 2, 1, 'W');
    check_char(&grid, 0, 2, 'r');
    check_cur(&grid, 0, 3);
    grid.resize(4, 3);
    check_char(&grid, 0, 0, 'H');
    check_char(&grid, 2, 1, 'W');
    check_char(&grid, 0, 2, 'r');
    check_cur(&grid, 0, 3);
    grid.resize(4, 2);
    check_char(&grid, 0, 0, 'o');
    check_char(&grid, 1, 0, ' ');
    check_char(&grid, 1, 1, 'l');
    check_cur(&grid, 0, 2);
    assert_eq!(grid.height(), 2);
}

#[test]
fn sgr_color() {
    let mut grid = Grid::new(4, 3);
    let blue = Color::Named(NamedColor::Blue);
    let rgb = Color::Spec(Rgb { r: 12, g: 240, b: 0 });
    input_str(&mut grid, "Hel");
    check_cell(&grid, 2, 0, Cell { c: 'l', ..Cell::default() });
    grid.terminal_attribute(Attr::Reset);
    input_str(&mut grid, "lo ");
    check_cell(&grid, 0, 1, Cell { c: 'o', ..Cell::default() });
    grid.terminal_attribute(Attr::Foreground(blue));
    input_str(&mut grid, "W");
    check_cell(&grid, 2, 1, Cell { c: 'W', fg: blue, ..Cell::default() });
    input_str(&mut grid, "o");
    check_cell(&grid, 3, 1, Cell { c: 'o', fg: blue, ..Cell::default() });
    grid.terminal_attribute(Attr::Background(rgb));
    input_str(&mut grid, "rl");
    check_cell(&grid, 0, 2, Cell { c: 'r', fg: blue, bg: rgb });
    grid.terminal_attribute(Attr::Reset);
    input_str(&mut grid, "d! ");
    check_cell(&grid, 0, 0, Cell { c: 'o', ..Cell::default() });
    check_cell(&grid, 2, 0, Cell { c: 'W', fg: blue, ..Cell::default() });
    check_cell(&grid, 1, 1, Cell { c: 'l', fg: blue, bg: rgb });
    check_cell(&grid, 0, 2, Cell { c: ' ', ..Cell::default() });
}

#[test]
fn status_report_multi_digit() {
    let mut grid = Grid::new(80, 24);
    let mut buf: Vec<u8> = Vec::new();
    grid.goto(12, 40);
    grid.device_status(&mut buf, 6);
    assert_eq!(std::str::from_utf8(&buf).unwrap(), "\x1b[13;41R");
}

#[test]
fn cursor_stays_in_bounds_after_many_calls() {
    let mut grid = Grid::new(5, 3);
    input_str(&mut grid, "the quick brown fox jumps over the lazy dog");
    grid.move_forward(100);
    grid.put_tab(9);
    grid.linefeed();
    grid.linefeed();
    grid.reverse_index();
    grid.move_down(1000);
    let cur = grid.cursor();
    assert!(cur.col < grid.width());
    assert!(cur.row <= grid.height());
    for row in 0..grid.height() {
        for col in 0..grid.width() {
            let _ = grid.cell(col, row);
        }
    }
}

#[test]
fn tabs_stop_every_eight_columns() {
    let mut grid = Grid::new(20, 2);
    grid.put_tab(1);
    check_cur(&grid, 8, 0);
    grid.move_forward_tabs(1);
    check_cur(&grid, 16, 0);
    grid.put_tab(5);
    check_cur(&grid, 19, 0);
    grid.goto(0, 3);
    grid.put_tab(-2);
    check_cur(&grid, 3, 0);
}

#[test]
fn scroll_up_then_down_restores_unscrolled_rows() {
    let mut grid = Grid::new(2, 4);
    input_str(&mut grid, "aabbccdd");
    grid.scroll_up(1);
    grid.scroll_down(1);
    assert_eq!(grid.cell(0, 0), Cell::default());
    check_char(&grid, 0, 1, 'b');
    check_char(&grid, 0, 2, 'c');
    check_char(&grid, 0, 3, 'd');
}

#[test]
fn scroll_in_region_leaves_outside_rows() {
    let mut grid = Grid::new(2, 4);
    input_str(&mut grid, "aabbccdd");
    grid.set_scrolling_region(2, Some(3));
    check_cur(&grid, 0, 0);
    grid.scroll_up(1);
    check_char(&grid, 0, 0, 'a');
    check_char(&grid, 0, 1, 'c');
    assert_eq!(grid.cell(0, 2), Cell::default());
    check_char(&grid, 0, 3, 'd');
}

#[test]
fn invalid_scrolling_region_is_ignored() {
    let mut grid = Grid::new(4, 4);
    grid.goto(2, 2);
    grid.set_scrolling_region(3, Some(2));
    check_cur(&grid, 2, 2);
}

#[test]
fn draw_writes_dirty_rows_then_cursor() {
    let mut grid = Grid::new(2, 1);
    let out = drawn(&mut grid);
    assert_eq!(out, "\x1b[1;1H\x1b[38;5;15m \x1b[38;5;15m \x1b[1;1H");
    assert!(!grid.is_dirty(0));
    assert_eq!(drawn(&mut grid), "\x1b[1;1H");
}

#[test]
fn mutation_marks_row_and_draw_clears() {
    let mut grid = Grid::new(3, 3);
    drawn(&mut grid);
    grid.goto(1, 0);
    grid.input('x');
    assert!(!grid.is_dirty(0));
    assert!(grid.is_dirty(1));
    assert!(!grid.is_dirty(2));
    let out = drawn(&mut grid);
    assert_eq!(
        out,
        "\x1b[2;1H\x1b[38;5;15mx\x1b[38;5;15m \x1b[38;5;15m \x1b[2;2H"
    );
    assert!(!grid.is_dirty(1));
}

#[test]
fn draw_uses_true_colour_and_palette() {
    let mut grid = Grid::new(2, 1);
    grid.terminal_attribute(Attr::Foreground(Color::Spec(Rgb { r: 12, g: 240, b: 0 })));
    grid.input('a');
    grid.terminal_attribute(Attr::Foreground(Color::Indexed(200)));
    grid.input('b');
    let out = drawn(&mut grid);
    assert_eq!(
        out,
        "\x1b[1;1H\x1b[38;2;12;240;0ma\x1b[38;5;200mb\x1b[2;1H"
    );
}

#[test]
fn resize_grow_keeps_cells() {
    let mut grid = Grid::new(3, 2);
    input_str(&mut grid, "abcde");
    grid.resize(5, 4);
    check_char(&grid, 0, 0, 'a');
    check_char(&grid, 2, 0, 'c');
    check_char(&grid, 0, 1, 'd');
    check_char(&grid, 1, 1, 'e');
    assert_eq!(grid.cell(4, 3), Cell::default());
    assert_eq!(grid.width(), 5);
    assert_eq!(grid.height(), 4);
    for row in 0..4 {
        assert!(grid.is_dirty(row));
    }
}

#[test]
fn resize_narrower_clamps_cursor_column() {
    let mut grid = Grid::new(10, 2);
    grid.goto(1, 8);
    grid.resize(4, 2);
    check_cur(&grid, 3, 1);
}
