use vstd::prelude::*;

verus! {

/// The catalog listing: all table names reported by the backend, in order,
/// plus the cursor of the selection list.
pub struct TableList {
    pub items: Vec<String>,
    pub selected: Option<usize>,
}

/// Clamp a prior selection against a freshly reloaded list of length `len`:
/// an empty list forces the selection absent, an index past the end is pulled
/// back to the last entry, and a still-valid index is kept.
pub open spec fn spec_clamp_selection(sel: Option<usize>, len: nat) -> Option<usize> {
    if len == 0 {
        None
    } else {
        match sel {
            None => None,
            Some(i) => if i < len {
                Some(i)
            } else {
                Some((len - 1) as usize)
            },
        }
    }
}

/// Where the list cursor lands on a downward step: one past the current
/// entry, wrapping to the top after the last entry or when nothing was
/// selected yet.
pub open spec fn spec_list_next(l: TableList) -> TableList {
    TableList {
        items: l.items,
        selected: match l.selected {
            Some(n) => if n + 1 < l.items.len() {
                Some((n + 1) as usize)
            } else {
                Some(0usize)
            },
            None => Some(0usize),
        },
    }
}

/// Where the list cursor lands on an upward step: one before the current
/// entry, wrapping to the bottom at the top or when nothing was selected yet.
pub open spec fn spec_list_prev(l: TableList) -> TableList {
    if l.items.len() == 0 {
        l
    } else {
        TableList {
            items: l.items,
            selected: match l.selected {
                Some(n) => if n > 0 {
                    Some((n - 1) as usize)
                } else {
                    Some((l.items.len() - 1) as usize)
                },
                None => Some((l.items.len() - 1) as usize),
            },
        }
    }
}

impl TableList {
    /// The selection, when present, always points inside the list.
    pub open spec fn wf(self) -> bool {
        match self.selected {
            Some(i) => i < self.items.len(),
            None => true,
        }
    }

    /// Move the selection one entry down, wrapping to the first entry.
    pub fn next(&mut self)
        requires
            old(self).items.len() > 0,
            old(self).wf(),
        ensures
            *final(self) == spec_list_next(*old(self)),
            final(self).wf(),
    {
        match self.selected {
            Some(n) => {
                if n + 1 < self.items.len() {
                    self.selected = Some(n + 1);
                } else {
                    self.selected = Some(0);
                }
            },
            None => {
                self.selected = Some(0);
            },
        }
    }

    /// Move the selection one entry up, wrapping to the last entry.
    pub fn prev(&mut self)
        requires
            old(self).items.len() > 0,
            old(self).wf(),
        ensures
            *final(self) == spec_list_prev(*old(self)),
            final(self).wf(),
    {
        match self.selected {
            Some(n) => {
                if n > 0 {
                    self.selected = Some(n - 1);
                } else {
                    self.selected = Some(self.items.len() - 1);
                }
            },
            None => {
                self.selected = Some(self.items.len() - 1);
            },
        }
    }

    /// Pull the selection back into range after the list was reloaded.
    /// Returns the clamped selection.
    pub fn clamp_selection(&mut self) -> (r: Option<usize>)
        ensures
            final(self).items == old(self).items,
            final(self).selected == spec_clamp_selection(
                old(self).selected,
                old(self).items@.len(),
            ),
            r == final(self).selected,
            final(self).wf(),
    {
        let len = self.items.len();
        if len == 0 {
            self.selected = None;
        } else {
            match self.selected {
                Some(i) => {
                    if i >= len {
                        self.selected = Some(len - 1);
                    }
                },
                None => {},
            }
        }
        self.selected
    }
}

impl Default for TableList {
    fn default() -> (r: Self)
        ensures
            r.items@.len() == 0,
            r.selected is None,
            r.wf(),
    {
        Self { items: Vec::new(), selected: None }
    }
}

} // verus!
