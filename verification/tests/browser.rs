use dbtui::app::{App, CurrentScreen, Key};
use dbtui::args::{Args, Command};
use dbtui::decode::{category_of, cell_text, render_cell, Backend, Category};
use dbtui::table_list::TableList;
use dbtui::table_page::{clamp_page, recompute_end, TablePage};
use dbtui::table_view::TableView;

fn names(v: &[&str]) -> Vec<String> {
    v.iter().map(|s| s.to_string()).collect()
}

fn rows(r: &[&[&str]]) -> Vec<Vec<String>> {
    r.iter().map(|row| names(row)).collect()
}

#[test]
fn page_end_examples() {
    assert_eq!(recompute_end(101, 25), 5);
    assert_eq!(recompute_end(0, 25), 1);
    assert_eq!(recompute_end(25, 25), 1);
    assert_eq!(recompute_end(26, 25), 2);
    assert_eq!(recompute_end(7, 5), 2);
    assert_eq!(recompute_end(1, 1), 1);
}

#[test]
fn page_end_saturates() {
    assert_eq!(recompute_end(u64::MAX, 1), u16::MAX);
    assert_eq!(recompute_end(65535, 1), 65535);
    assert_eq!(recompute_end(65536, 1), u16::MAX);
}

#[test]
fn clamp_page_examples() {
    assert_eq!(clamp_page(7, 5), 5);
    assert_eq!(clamp_page(0, 5), 1);
    assert_eq!(clamp_page(3, 5), 3);
    assert_eq!(clamp_page(5, 5), 5);
    assert_eq!(clamp_page(1, 1), 1);
    assert_eq!(clamp_page(0, 0), 1);
}

#[test]
fn selection_clamped_after_shrink() {
    let mut list = TableList {
        items: names(&["a", "b", "c", "d", "e"]),
        selected: Some(4),
    };
    list.items = names(&["a", "b", "c"]);
    let sel = list.clamp_selection();
    assert_eq!(sel, Some(2));
    assert_eq!(list.selected, Some(2));
}

#[test]
fn selection_absent_after_empty_reload() {
    let mut list = TableList {
        items: Vec::new(),
        selected: Some(1),
    };
    let sel = list.clamp_selection();
    assert_eq!(sel, None);
    assert_eq!(list.selected, None);
}

#[test]
fn selection_kept_when_still_valid() {
    let mut list = TableList {
        items: names(&["a", "b", "c"]),
        selected: Some(1),
    };
    let sel = list.clamp_selection();
    assert_eq!(sel, Some(1));
}

#[test]
fn list_cursor_wraps() {
    let mut list = TableList {
        items: names(&["a", "b"]),
        selected: None,
    };
    list.next();
    assert_eq!(list.selected, Some(0));
    list.next();
    assert_eq!(list.selected, Some(1));
    list.next();
    assert_eq!(list.selected, Some(0));
    list.prev();
    assert_eq!(list.selected, Some(1));
    list.prev();
    assert_eq!(list.selected, Some(0));
}

#[test]
fn view_cursor_moves_only_over_rows() {
    let mut view = TableView {
        items: Some((names(&["c1"]), rows(&[&["x"], &["y"]]))),
        selected: None,
    };
    view.next();
    assert_eq!(view.selected, Some(0));
    view.next();
    assert_eq!(view.selected, Some(1));
    view.prev();
    assert_eq!(view.selected, Some(0));
    view.prev();
    assert_eq!(view.selected, Some(0));

    let mut empty = TableView {
        items: None,
        selected: Some(3),
    };
    empty.next();
    assert_eq!(empty.selected, Some(0));
}

#[test]
fn page_cursor_steps_within_range() {
    let mut page = TablePage { page: 0, end: 0, size: 25 }.with_size(5);
    assert_eq!(page.size, 5);
    page.update_count(7);
    assert_eq!(page.end, 2);
    assert_eq!(page.page, 1);
    page.next();
    assert_eq!(page.page, 2);
    page.next();
    assert_eq!(page.page, 2);
    page.prev();
    assert_eq!(page.page, 1);
    page.prev();
    assert_eq!(page.page, 1);
    page.reset();
    assert_eq!(page.page, 0);
    assert_eq!(page.end, 0);
    assert_eq!(page.size, 5);
}

#[test]
fn right_cycle_closes_in_three() {
    let mut a = App::new(25);
    a.handle_key(Key::Enter);
    assert_eq!(a.screen, CurrentScreen::Selecting);
    a.handle_key(Key::Right);
    assert_eq!(a.screen, CurrentScreen::Viewing);
    a.handle_key(Key::Right);
    assert_eq!(a.screen, CurrentScreen::Paging);
    a.handle_key(Key::Right);
    assert_eq!(a.screen, CurrentScreen::Selecting);
}

#[test]
fn left_cycle_closes_in_three() {
    let mut a = App::new(25);
    a.handle_key(Key::Enter);
    a.handle_key(Key::Left);
    assert_eq!(a.screen, CurrentScreen::Paging);
    a.handle_key(Key::Left);
    assert_eq!(a.screen, CurrentScreen::Viewing);
    a.handle_key(Key::Left);
    assert_eq!(a.screen, CurrentScreen::Selecting);
}

#[test]
fn escape_returns_to_main_and_enter_leaves_it() {
    let mut a = App::new(25);
    assert_eq!(a.screen, CurrentScreen::Main);
    a.handle_key(Key::Right);
    assert_eq!(a.screen, CurrentScreen::Main);
    a.handle_key(Key::Enter);
    assert_eq!(a.screen, CurrentScreen::Selecting);
    a.handle_key(Key::Enter);
    assert_eq!(a.screen, CurrentScreen::Selecting);
    a.handle_key(Key::Esc);
    assert_eq!(a.screen, CurrentScreen::Main);
}

#[test]
fn quit_keys_request_exit() {
    let mut a = App::new(25);
    assert!(!a.should_exit());
    a.handle_key(Key::Char('x'));
    assert!(!a.should_exit());
    a.handle_key(Key::Char('q'));
    assert!(a.should_exit());
    let mut b = App::new(25);
    b.handle_key(Key::Char('Q'));
    assert!(b.should_exit());
}

#[test]
fn keys_mark_redraw_and_refresh_flags() {
    let mut a = App::new(25);
    assert!(a.take_update_request());
    assert!(a.take_redraw_request());
    assert!(!a.take_update_request());
    assert!(!a.take_redraw_request());

    // moving the table-list cursor marks the data dirty
    a.handle_key(Key::Enter);
    let _ = a.on_tables_loaded(names(&["t"]));
    let _ = a.take_redraw_request();
    a.handle_key(Key::Down);
    assert!(a.take_update_request());
    assert!(a.take_redraw_request());

    // moving the row cursor in Viewing redraws but does not refresh
    a.handle_key(Key::Right);
    let _ = a.take_redraw_request();
    a.handle_key(Key::Down);
    assert!(!a.take_update_request());
    assert!(a.take_redraw_request());
}

#[test]
fn coarse_tick_and_resize_set_flags() {
    let mut a = App::new(25);
    let _ = a.take_update_request();
    let _ = a.take_redraw_request();
    a.on_resize();
    assert!(!a.take_update_request());
    assert!(a.take_redraw_request());
    a.on_coarse_tick();
    assert!(a.take_update_request());
    assert!(a.take_redraw_request());
}

#[test]
fn embedded_category_table() {
    assert_eq!(category_of(Backend::Embedded, "INTEGER"), Category::Integer);
    assert_eq!(category_of(Backend::Embedded, "REAL"), Category::Float);
    assert_eq!(category_of(Backend::Embedded, "TEXT"), Category::Text);
    assert_eq!(category_of(Backend::Embedded, "BLOB"), Category::Unsupported);
    assert_eq!(category_of(Backend::Embedded, "DATETIME"), Category::Unsupported);
    assert_eq!(category_of(Backend::Embedded, "integer"), Category::Unsupported);
}

#[test]
fn client_server_category_table() {
    for n in ["INT", "TINYINT", "SMALLINT", "MEDIUMINT", "BIGINT"] {
        assert_eq!(category_of(Backend::ClientServer, n), Category::Integer);
    }
    for n in ["FLOAT", "DOUBLE", "DECIMAL"] {
        assert_eq!(category_of(Backend::ClientServer, n), Category::Float);
    }
    for n in ["VARCHAR", "CHAR", "TEXT", "LONGTEXT"] {
        assert_eq!(category_of(Backend::ClientServer, n), Category::Text);
    }
    for n in ["DATETIME", "TIMESTAMP"] {
        assert_eq!(category_of(Backend::ClientServer, n), Category::DateTime);
    }
    assert_eq!(category_of(Backend::ClientServer, "JSON"), Category::Unsupported);
    assert_eq!(category_of(Backend::ClientServer, "REAL"), Category::Unsupported);
}

#[test]
fn null_cells_render_as_null() {
    let t = cell_text(Backend::Embedded, true, "INTEGER", None);
    assert_eq!(t, "NULL");
    let u = cell_text(Backend::ClientServer, true, "VARCHAR", Some("abc".to_string()));
    assert_eq!(u, "NULL");
}

#[test]
fn unknown_type_renders_as_unsupported() {
    let t = cell_text(Backend::Embedded, false, "BLOB", None);
    assert_eq!(t, "<unsupported>");
    let u = cell_text(Backend::ClientServer, false, "JSON", Some("{}".to_string()));
    assert_eq!(u, "<unsupported>");
}

#[test]
fn failed_decode_renders_as_err() {
    let t = cell_text(Backend::Embedded, false, "INTEGER", None);
    assert_eq!(t, "<err>");
    let u = cell_text(Backend::ClientServer, false, "DATETIME", None);
    assert_eq!(u, "<err>");
}

#[test]
fn decoded_cells_render_their_text() {
    let t = cell_text(Backend::Embedded, false, "INTEGER", Some("42".to_string()));
    assert_eq!(t, "42");
    let u = render_cell(false, Category::Text, Some("hi".to_string()));
    assert_eq!(u, "hi");
}

#[test]
fn refresh_is_idempotent_against_unchanged_backend() {
    let mut a = App::new(5);
    a.handle_key(Key::Enter);
    let _ = a.on_tables_loaded(names(&["t", "u"]));
    a.handle_key(Key::Down);

    let cols = names(&["c1", "c2"]);
    let page = rows(&[&["1", "x"], &["2", "y"]]);

    let sel1 = a.on_tables_loaded(names(&["t", "u"]));
    assert_eq!(sel1, Some(0));
    a.on_count_loaded(2);
    a.on_page_loaded(cols.clone(), page.clone());
    let view1 = a.table_view.items.clone();
    let (p1, e1) = (a.table_page.page, a.table_page.end);

    let sel2 = a.on_tables_loaded(names(&["t", "u"]));
    assert_eq!(sel2, sel1);
    a.on_count_loaded(2);
    a.on_page_loaded(cols.clone(), page.clone());
    assert_eq!(a.table_view.items, view1);
    assert_eq!((a.table_page.page, a.table_page.end), (p1, e1));
    assert_eq!(a.table_list.items, names(&["t", "u"]));
}

#[test]
fn paging_scenario_on_embedded_table() {
    // table `t`, 3 columns, 7 rows, page size 5
    let mut a = App::new(5);
    a.handle_key(Key::Enter);
    let _ = a.on_tables_loaded(names(&["t"]));
    a.handle_key(Key::Down);
    assert!(a.take_update_request());

    let sel = a.on_tables_loaded(names(&["t"]));
    assert_eq!(sel, Some(0));
    a.on_count_loaded(7);
    assert_eq!(a.table_page.end, 2);
    assert_eq!(a.table_page.page, 1);
    assert_eq!(a.table_page.offset(), 0);
    let cols = names(&["a", "b", "c"]);
    let first_page = rows(&[
        &["1", "1", "1"],
        &["2", "2", "2"],
        &["3", "3", "3"],
        &["4", "4", "4"],
        &["5", "5", "5"],
    ]);
    a.on_page_loaded(cols.clone(), first_page.clone());
    assert_eq!(a.table_view.items, Some((cols.clone(), first_page)));

    // Down in Paging moves to page 2; the refetch shows rows 6 and 7
    a.handle_key(Key::Right);
    a.handle_key(Key::Right);
    assert_eq!(a.screen, CurrentScreen::Paging);
    a.handle_key(Key::Down);
    assert!(a.take_update_request());
    let sel = a.on_tables_loaded(names(&["t"]));
    assert_eq!(sel, Some(0));
    a.on_count_loaded(7);
    assert_eq!(a.table_page.page, 2);
    assert_eq!(a.table_page.offset(), 5);
    let second_page = rows(&[&["6", "6", "6"], &["7", "7", "7"]]);
    a.on_page_loaded(cols.clone(), second_page.clone());
    assert_eq!(a.table_view.items, Some((cols, second_page)));
}

#[test]
fn dropped_table_resets_widgets() {
    let mut a = App::new(25);
    a.handle_key(Key::Enter);
    let _ = a.on_tables_loaded(names(&["t"]));
    a.handle_key(Key::Down);
    let sel = a.on_tables_loaded(names(&["t"]));
    assert_eq!(sel, Some(0));
    a.on_count_loaded(3);
    a.on_page_loaded(names(&["c"]), rows(&[&["1"], &["2"], &["3"]]));

    // the table is dropped externally; the next periodic refresh sees none
    let sel = a.on_tables_loaded(Vec::new());
    assert_eq!(sel, None);
    assert!(a.table_list.items.is_empty());
    assert_eq!(a.table_list.selected, None);
    assert_eq!(a.table_view.items, None);
    assert_eq!(a.table_page.page, 0);
    assert_eq!(a.table_page.end, 0);
    assert_eq!(a.table_page.size, 25);
}

#[test]
fn command_selects_backend_variant() {
    let sqlite = Command::Sqlite { filename: "db.sqlite".to_string() };
    assert_eq!(sqlite.backend(), Backend::Embedded);
    let mysql = Command::Mysql {
        username: "root".to_string(),
        password: String::new(),
        host: "localhost".to_string(),
        port: 3306,
        database: "d".to_string(),
    };
    assert_eq!(mysql.backend(), Backend::ClientServer);
    let mariadb = Command::Mariadb {
        username: "root".to_string(),
        password: String::new(),
        host: "localhost".to_string(),
        port: 3306,
        database: "d".to_string(),
    };
    assert_eq!(mariadb.backend(), Backend::ClientServer);
    let args = Args {
        subcommand: sqlite,
        max_connections: 5,
        min_connections: 1,
        page_size: 25,
    };
    assert_eq!(args.page_size, 25);
}
