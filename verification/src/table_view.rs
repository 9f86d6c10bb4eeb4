use vstd::prelude::*;

verus! {

/// The decoded snapshot of one page of the selected table: column headers
/// plus display-formatted cell strings, row by row, and the highlight cursor.
/// `items == None` means no table is currently selected.
pub struct TableView {
    pub items: Option<(Vec<String>, Vec<Vec<String>>)>,
    pub selected: Option<usize>,
}

/// Where the row cursor lands on a downward step: one row further while rows
/// are shown (stopping only at the machine limit), and the first row when no
/// rows are shown or nothing was selected yet.
pub open spec fn spec_view_next(v: TableView) -> TableView {
    TableView {
        items: v.items,
        selected: match (v.items, v.selected) {
            (Some(p), Some(n)) => if p.1.len() > 0 {
                if n < usize::MAX {
                    Some((n + 1) as usize)
                } else {
                    Some(n)
                }
            } else {
                Some(0usize)
            },
            _ => Some(0usize),
        },
    }
}

/// Where the row cursor lands on an upward step: one row back while rows are
/// shown, and the first row at the top, when no rows are shown, or when
/// nothing was selected yet.
pub open spec fn spec_view_prev(v: TableView) -> TableView {
    TableView {
        items: v.items,
        selected: match (v.items, v.selected) {
            (Some(p), Some(n)) => if p.1.len() > 0 && n > 0 {
                Some((n - 1) as usize)
            } else {
                Some(0usize)
            },
            _ => Some(0usize),
        },
    }
}

impl TableView {
    /// Move the row cursor one row down.
    pub fn next(&mut self)
        ensures
            *final(self) == spec_view_next(*old(self)),
    {
        let has_rows = match &self.items {
            Some(p) => p.1.len() > 0,
            None => false,
        };
        match self.selected {
            Some(n) => {
                if has_rows {
                    if n < usize::MAX {
                        self.selected = Some(n + 1);
                    }
                } else {
                    self.selected = Some(0);
                }
            },
            None => {
                self.selected = Some(0);
            },
        }
    }

    /// Move the row cursor one row up.
    pub fn prev(&mut self)
        ensures
            *final(self) == spec_view_prev(*old(self)),
    {
        let has_rows = match &self.items {
            Some(p) => p.1.len() > 0,
            None => false,
        };
        match self.selected {
            Some(n) => {
                if has_rows && n > 0 {
                    self.selected = Some(n - 1);
                } else {
                    self.selected = Some(0);
                }
            },
            None => {
                self.selected = Some(0);
            },
        }
    }
}

impl Default for TableView {
    fn default() -> (r: Self)
        ensures
            r.items is None,
            r.selected is None,
    {
        Self { items: None, selected: None }
    }
}

} // verus!
