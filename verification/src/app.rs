use crate::table_list::{spec_clamp_selection, spec_list_next, spec_list_prev, TableList};
use crate::table_page::{spec_page_next, spec_page_prev, spec_update_count, TablePage};
use crate::table_view::{spec_view_next, spec_view_prev, TableView};
use vstd::prelude::*;

verus! {

/// Which of the four screens has the focus. `Main` is the initial screen and
/// the only one reachable directly at start or through an explicit "back".
#[derive(Clone, Copy, PartialEq, Eq, Structural, Debug)]
pub enum CurrentScreen {
    Main,
    Selecting,
    Viewing,
    Paging,
}

/// A decoded key-press, as the input collaborator hands it over. Only
/// key-press events reach this type: releases and repeats are filtered out
/// before they get here, so no transition can double-trigger.
#[derive(Clone, Copy, PartialEq, Eq, Structural, Debug)]
pub enum Key {
    Char(char),
    Enter,
    Esc,
    Left,
    Right,
    Up,
    Down,
    Other,
}

/// The whole browsing state: the three widgets' state, the focus screen, the
/// two dirty flags the scheduler coalesces work with, and the exit request.
pub struct App {
    pub table_list: TableList,
    pub table_view: TableView,
    pub table_page: TablePage,
    pub request_redraw: bool,
    pub request_update_data: bool,
    pub screen: CurrentScreen,
    pub exit: bool,
}

/// One step of the lateral cycle Selecting -> Viewing -> Paging -> Selecting;
/// `Main` is not part of the cycle and stays put.
pub open spec fn spec_screen_right(s: CurrentScreen) -> CurrentScreen {
    match s {
        CurrentScreen::Selecting => CurrentScreen::Viewing,
        CurrentScreen::Viewing => CurrentScreen::Paging,
        CurrentScreen::Paging => CurrentScreen::Selecting,
        CurrentScreen::Main => CurrentScreen::Main,
    }
}

/// One step of the lateral cycle in the reverse direction.
pub open spec fn spec_screen_left(s: CurrentScreen) -> CurrentScreen {
    match s {
        CurrentScreen::Selecting => CurrentScreen::Paging,
        CurrentScreen::Paging => CurrentScreen::Viewing,
        CurrentScreen::Viewing => CurrentScreen::Selecting,
        CurrentScreen::Main => CurrentScreen::Main,
    }
}

/// The effect of `Up`: context-sensitive, never changes screen. In Selecting
/// it moves the table-list cursor (only on a non-empty list) and marks the
/// data dirty; in Viewing it moves the row cursor without any refresh; in
/// Paging it moves the page cursor (only once a page range is known) and
/// marks the data dirty.
pub open spec fn spec_step_up(s: App) -> App {
    match s.screen {
        CurrentScreen::Selecting => if s.table_list.items.len() > 0 {
            App { table_list: spec_list_prev(s.table_list), request_update_data: true, ..s }
        } else {
            s
        },
        CurrentScreen::Viewing => App { table_view: spec_view_prev(s.table_view), ..s },
        CurrentScreen::Paging => if s.table_page.page != 0 && s.table_page.end != 0 {
            App { table_page: spec_page_prev(s.table_page), request_update_data: true, ..s }
        } else {
            s
        },
        CurrentScreen::Main => s,
    }
}

/// The effect of `Down`: the mirror image of `spec_step_up`.
pub open spec fn spec_step_down(s: App) -> App {
    match s.screen {
        CurrentScreen::Selecting => if s.table_list.items.len() > 0 {
            App { table_list: spec_list_next(s.table_list), request_update_data: true, ..s }
        } else {
            s
        },
        CurrentScreen::Viewing => App { table_view: spec_view_next(s.table_view), ..s },
        CurrentScreen::Paging => if s.table_page.page != 0 && s.table_page.end != 0 {
            App { table_page: spec_page_next(s.table_page), request_update_data: true, ..s }
        } else {
            s
        },
        CurrentScreen::Main => s,
    }
}

/// The navigation step proper, before the unconditional redraw mark:
/// `q`/`Q` request exit, `Enter` leaves `Main` for Selecting, `Esc` returns
/// to `Main` from any other screen, `Right`/`Left` walk the lateral cycle,
/// and `Up`/`Down` act on the focused widget.
pub open spec fn spec_key_step(s: App, key: Key) -> App {
    match key {
        Key::Char(c) => if c == 'q' || c == 'Q' {
            App { exit: true, ..s }
        } else {
            s
        },
        Key::Enter => if s.screen == CurrentScreen::Main {
            App { screen: CurrentScreen::Selecting, ..s }
        } else {
            s
        },
        Key::Esc => if s.screen != CurrentScreen::Main {
            App { screen: CurrentScreen::Main, ..s }
        } else {
            s
        },
        Key::Right => App { screen: spec_screen_right(s.screen), ..s },
        Key::Left => App { screen: spec_screen_left(s.screen), ..s },
        Key::Up => spec_step_up(s),
        Key::Down => spec_step_down(s),
        Key::Other => s,
    }
}

/// The full effect of one key-press: the navigation step, and the redraw
/// flag set no matter the key.
pub open spec fn spec_handle_key(s: App, key: Key) -> App {
    App { request_redraw: true, ..spec_key_step(s, key) }
}

/// The state after the reloaded table list was applied: the list is replaced
/// wholesale, the selection clamped against its new length, and, when no
/// selection remains, the page cursor and row view fall back to their reset
/// forms.
pub open spec fn spec_tables_loaded(s: App, items: Vec<String>) -> App {
    let sel = spec_clamp_selection(s.table_list.selected, items@.len());
    let s1 = App { table_list: TableList { items, selected: sel }, ..s };
    if sel is None {
        App {
            table_page: TablePage { page: 0, end: 0, size: s.table_page.size },
            table_view: TableView { items: None, selected: None },
            ..s1
        }
    } else {
        s1
    }
}

/// The state after the selected table's row count was applied.
pub open spec fn spec_count_loaded(s: App, rows_count: u64) -> App {
    App { table_page: spec_update_count(s.table_page, rows_count as int), ..s }
}

/// The state after the fetched page was applied: the row view is replaced
/// wholesale, never partially mutated; the row cursor is kept.
pub open spec fn spec_page_loaded(s: App, columns: Vec<String>, rows: Vec<Vec<String>>) -> App {
    App {
        table_view: TableView { items: Some((columns, rows)), selected: s.table_view.selected },
        ..s
    }
}

/// One whole data refresh against a backend that answers `tables` to the
/// catalog listing and, for the table that stays selected, `rows_count` to
/// the count query and `columns`/`rows` to the page fetch.
pub open spec fn spec_refresh(
    s: App,
    tables: Vec<String>,
    rows_count: u64,
    columns: Vec<String>,
    rows: Vec<Vec<String>>,
) -> App {
    let s1 = spec_tables_loaded(s, tables);
    if s1.table_list.selected is None {
        s1
    } else {
        spec_page_loaded(spec_count_loaded(s1, rows_count), columns, rows)
    }
}

impl App {
    /// Validity of the whole state: the list selection points inside the
    /// list, and the page cursor is inside its range (or fully reset).
    pub open spec fn inv(self) -> bool {
        self.table_list.wf() && self.table_page.wf()
    }

    /// The initial state: Main screen, nothing selected, no data yet, one
    /// full refresh and redraw already requested.
    pub fn new(page_size: u8) -> (r: Self)
        ensures
            r.table_list.items@.len() == 0,
            r.table_list.selected is None,
            r.table_view.items is None,
            r.table_view.selected is None,
            r.table_page == (TablePage { page: 0, end: 0, size: page_size }),
            r.request_redraw,
            r.request_update_data,
            r.screen == CurrentScreen::Main,
            !r.exit,
            r.inv(),
    {
        Self {
            table_list: TableList::default(),
            table_view: TableView::default(),
            table_page: TablePage::default().with_size(page_size),
            request_redraw: true,
            request_update_data: true,
            screen: CurrentScreen::Main,
            exit: false,
        }
    }

    /// Fall back to the no-table-selected forms: page cursor reset to
    /// `{0, 0, size}` and row view cleared.
    fn restore_widgets(&mut self)
        ensures
            *final(self) == (App {
                table_page: TablePage { page: 0, end: 0, size: old(self).table_page.size },
                table_view: TableView { items: None, selected: None },
                ..*old(self)
            }),
    {
        self.table_page.reset();
        self.table_view = TableView { items: None, selected: None };
    }

    /// Dispatch one key-press to the navigation state machine.
    pub fn handle_key(&mut self, key: Key)
        requires
            old(self).inv(),
        ensures
            *final(self) == spec_handle_key(*old(self), key),
            final(self).inv(),
    {
        match key {
            Key::Char(c) => {
                if c == 'q' || c == 'Q' {
                    self.exit = true;
                }
            },
            Key::Enter => {
                if self.screen == CurrentScreen::Main {
                    self.screen = CurrentScreen::Selecting;
                }
            },
            Key::Esc => {
                if self.screen != CurrentScreen::Main {
                    self.screen = CurrentScreen::Main;
                }
            },
            Key::Right => {
                match self.screen {
                    CurrentScreen::Selecting => self.screen = CurrentScreen::Viewing,
                    CurrentScreen::Viewing => self.screen = CurrentScreen::Paging,
                    CurrentScreen::Paging => self.screen = CurrentScreen::Selecting,
                    CurrentScreen::Main => {},
                }
            },
            Key::Left => {
                match self.screen {
                    CurrentScreen::Selecting => self.screen = CurrentScreen::Paging,
                    CurrentScreen::Paging => self.screen = CurrentScreen::Viewing,
                    CurrentScreen::Viewing => self.screen = CurrentScreen::Selecting,
                    CurrentScreen::Main => {},
                }
            },
            Key::Up => {
                match self.screen {
                    CurrentScreen::Selecting => {
                        if self.table_list.items.len() > 0 {
                            self.table_list.prev();
                            self.request_update_data = true;
                        }
                    },
                    CurrentScreen::Viewing => self.table_view.prev(),
                    CurrentScreen::Paging => {
                        if self.table_page.page != 0 && self.table_page.end != 0 {
                            self.table_page.prev();
                            self.request_update_data = true;
                        }
                    },
                    CurrentScreen::Main => {},
                }
            },
            Key::Down => {
                match self.screen {
                    CurrentScreen::Selecting => {
                        if self.table_list.items.len() > 0 {
                            self.table_list.next();
                            self.request_update_data = true;
                        }
                    },
                    CurrentScreen::Viewing => self.table_view.next(),
                    CurrentScreen::Paging => {
                        if self.table_page.page != 0 && self.table_page.end != 0 {
                            self.table_page.next();
                            self.request_update_data = true;
                        }
                    },
                    CurrentScreen::Main => {},
                }
            },
            Key::Other => {},
        }
        self.request_redraw = true;
    }

    /// Apply the reloaded table list; the first step of every refresh.
    /// Returns the index of the table that stays selected, if any; when none
    /// does, the dependent widgets have been reset and the refresh is done.
    pub fn on_tables_loaded(&mut self, items: Vec<String>) -> (r: Option<usize>)
        requires
            old(self).inv(),
        ensures
            *final(self) == spec_tables_loaded(*old(self), items),
            r == final(self).table_list.selected,
            r matches Some(i) ==> i < items@.len(),
            final(self).inv(),
    {
        self.table_list.items = items;
        let sel = self.table_list.clamp_selection();
        if sel.is_none() {
            self.restore_widgets();
        }
        sel
    }

    /// Apply the row count of the selected table; recomputes the page range
    /// and pulls the cursor back into it.
    pub fn on_count_loaded(&mut self, rows_count: u64)
        requires
            old(self).inv(),
        ensures
            *final(self) == spec_count_loaded(*old(self), rows_count),
            final(self).inv(),
    {
        self.table_page.update_count(rows_count);
    }

    /// Apply the fetched page of the selected table; the last step of a
    /// refresh.
    pub fn on_page_loaded(&mut self, columns: Vec<String>, rows: Vec<Vec<String>>)
        requires
            old(self).inv(),
        ensures
            *final(self) == spec_page_loaded(*old(self), columns, rows),
            final(self).inv(),
    {
        self.table_view.items = Some((columns, rows));
    }

    /// A resize only asks for a redraw; the data cannot have changed.
    pub fn on_resize(&mut self)
        ensures
            *final(self) == (App { request_redraw: true, ..*old(self) }),
    {
        self.request_redraw = true;
    }

    /// The coarse periodic timer asks for a full resync: both flags are set,
    /// so externally made changes become visible without any input.
    pub fn on_coarse_tick(&mut self)
        ensures
            *final(self) == (App { request_redraw: true, request_update_data: true, ..*old(
                self,
            ) }),
    {
        self.request_update_data = true;
        self.request_redraw = true;
    }

    /// On the fine debounce tick: whether one data refresh is owed now. The
    /// flag is consumed, so a burst of key-presses coalesces into one
    /// refresh.
    pub fn take_update_request(&mut self) -> (r: bool)
        ensures
            r == old(self).request_update_data,
            *final(self) == (App { request_update_data: false, ..*old(self) }),
    {
        let r = self.request_update_data;
        self.request_update_data = false;
        r
    }

    /// On the fine debounce tick: whether one render is owed now. The flag
    /// is consumed, so a burst of changes coalesces into one render.
    pub fn take_redraw_request(&mut self) -> (r: bool)
        ensures
            r == old(self).request_redraw,
            *final(self) == (App { request_redraw: false, ..*old(self) }),
    {
        let r = self.request_redraw;
        self.request_redraw = false;
        r
    }

    /// Checked once per scheduler tick; set only by `q`/`Q`.
    pub fn should_exit(&self) -> (r: bool)
        ensures
            r == self.exit,
    {
        self.exit
    }
}

/// Law: the lateral cycle closes. From any screen, three `Right` steps (and
/// likewise three `Left` steps) lead back to where they started: around the
/// three sub-screens, or standing still on `Main`.
pub proof fn lemma_lateral_cycle_closure(s: CurrentScreen)
    ensures
        spec_screen_right(spec_screen_right(spec_screen_right(s))) == s,
        spec_screen_left(spec_screen_left(spec_screen_left(s))) == s,
{
}

/// Law: refreshing is idempotent. Against an unchanged backend — the same
/// table list, and the same row count, columns and page rows for the table
/// that stays selected — a second refresh leaves the state exactly as the
/// first did; in particular the row view and the page cursor are identical.
/// The second conclusion says why the same answers are the right ones to
/// feed in again: the first refresh leaves a selection that a reload of the
/// same list keeps.
pub proof fn lemma_refresh_idempotent(
    s: App,
    tables: Vec<String>,
    rows_count: u64,
    columns: Vec<String>,
    rows: Vec<Vec<String>>,
)
    requires
        s.inv(),
    ensures
        spec_refresh(
            spec_refresh(s, tables, rows_count, columns, rows),
            tables,
            rows_count,
            columns,
            rows,
        ) == spec_refresh(s, tables, rows_count, columns, rows),
        spec_tables_loaded(
            spec_refresh(s, tables, rows_count, columns, rows),
            tables,
        ).table_list.selected == spec_refresh(s, tables, rows_count, columns, rows).table_list.selected,
{
}

} // verus!
