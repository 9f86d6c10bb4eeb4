use vstd::prelude::*;

verus! {

/// Pagination cursor for the currently selected table.
///
/// `page` is 1-based; `page == end == 0` is the reset state, meaning no table
/// is selected (or no data has been loaded yet). `end` is the last valid page
/// and `size` the fixed number of rows per page.
pub struct TablePage {
    pub page: u16,
    pub end: u16,
    pub size: u8,
}

/// Ceiling of `rows / size` for a positive divisor.
pub open spec fn ceil_div(rows: int, size: int) -> int
    recommends
        size >= 1,
{
    (rows + size - 1) / size
}

/// The last valid page for `rows` rows at `size` rows per page:
/// `max(1, ceil(rows / size))`. A selected table always has at least
/// "page 1 of 1", even when it holds no rows.
pub open spec fn spec_page_end(rows: int, size: int) -> int
    recommends
        size >= 1,
{
    if ceil_div(rows, size) < 1 {
        1
    } else {
        ceil_div(rows, size)
    }
}

/// Pull `page` back into `[1, end]`: a cursor beyond the new last page moves
/// to the last page; a cursor of 0 (reset state) moves to page 1; any other
/// cursor stays where it is.
pub open spec fn spec_clamp_page(page: int, end: int) -> int {
    if page > end {
        end
    } else if page < 1 {
        1
    } else {
        page
    }
}

/// `spec_page_end` saturated to the width of the cursor fields. A page size
/// of zero yields no finite page count; it saturates outright.
pub open spec fn spec_end_u16(rows: int, size: int) -> u16 {
    if size < 1 {
        u16::MAX
    } else if spec_page_end(rows, size) > u16::MAX {
        u16::MAX
    } else {
        spec_page_end(rows, size) as u16
    }
}

/// The page cursor after a freshly queried row count was applied: the last
/// page is recomputed and the current page pulled back into `[1, end]`.
pub open spec fn spec_update_count(p: TablePage, rows: int) -> TablePage {
    let e = spec_end_u16(rows, p.size as int);
    TablePage { page: spec_clamp_page(p.page as int, e as int) as u16, end: e, size: p.size }
}

/// The page cursor after a forward step: one page further, never past the
/// last page.
pub open spec fn spec_page_next(p: TablePage) -> TablePage {
    if p.page < p.end {
        TablePage { page: (p.page + 1) as u16, ..p }
    } else {
        p
    }
}

/// The page cursor after a backward step: one page back, never before page 1.
pub open spec fn spec_page_prev(p: TablePage) -> TablePage {
    if p.page > 1 {
        TablePage { page: (p.page - 1) as u16, ..p }
    } else {
        p
    }
}

/// Recompute the last valid page from a row count, saturating at `u16::MAX`
/// (also for a degenerate page size of zero, which admits no finite count).
pub fn recompute_end(rows_count: u64, size: u8) -> (r: u16)
    ensures
        r == spec_end_u16(rows_count as int, size as int),
        size >= 1 && spec_page_end(rows_count as int, size as int) <= u16::MAX ==> r
            == spec_page_end(rows_count as int, size as int),
        r >= 1,
{
    if size == 0 {
        return u16::MAX;
    }
    let s: u64 = size as u64;
    let d: u64 = rows_count / s;
    let m: u64 = rows_count % s;
    proof {
        let ri: int = rows_count as int;
        let si: int = s as int;
        let di: int = d as int;
        let mi: int = m as int;
        vstd::arithmetic::div_mod::lemma_fundamental_div_mod(ri, si);
        assert(ri == si * di + mi);
        assert(si * di == di * si) by (nonlinear_arith);
        assert(di * si >= di) by (nonlinear_arith)
            requires
                si >= 1,
                di >= 0,
        ;
        if m != 0 {
            assert((di + 1) * si + (mi - 1) == di * si + si + mi - 1) by (nonlinear_arith);
            assert(ri + si - 1 == (di + 1) * si + (mi - 1));
            vstd::arithmetic::div_mod::lemma_fundamental_div_mod_converse(
                ri + si - 1,
                si,
                di + 1,
                mi - 1,
            );
        } else {
            assert(ri + si - 1 == di * si + (si - 1));
            vstd::arithmetic::div_mod::lemma_fundamental_div_mod_converse(
                ri + si - 1,
                si,
                di,
                si - 1,
            );
        }
    }
    let q: u64 = d + if m != 0 {
        1u64
    } else {
        0u64
    };
    let e: u64 = if q < 1 {
        1u64
    } else {
        q
    };
    if e > 65535 {
        65535u16
    } else {
        e as u16
    }
}

/// Clamp a page cursor to a newly computed last page.
pub fn clamp_page(page: u16, end: u16) -> (r: u16)
    ensures
        r == spec_clamp_page(page as int, end as int),
        end >= 1 ==> 1 <= r <= end,
        page > end ==> r == end,
        page == 0 && end >= 1 ==> r == 1,
{
    if page > end {
        end
    } else if page < 1 {
        1
    } else {
        page
    }
}

impl TablePage {
    /// `1 <= page <= end` whenever a page range is known; the reset state
    /// is exactly `page == end == 0`.
    pub open spec fn wf(self) -> bool {
        if self.end == 0 {
            self.page == 0
        } else {
            1 <= self.page <= self.end
        }
    }

    pub fn with_size(self, size: u8) -> (r: Self)
        ensures
            r.page == self.page,
            r.end == self.end,
            r.size == size,
    {
        Self { size, ..self }
    }

    pub fn reset(&mut self)
        ensures
            final(self).page == 0,
            final(self).end == 0,
            final(self).size == old(self).size,
    {
        self.page = 0;
        self.end = 0;
    }

    /// Step forward one page, never past the last page.
    pub fn next(&mut self)
        ensures
            *final(self) == spec_page_next(*old(self)),
    {
        if self.page < self.end {
            self.page = self.page + 1;
        }
    }

    /// Step back one page, never before page 1.
    pub fn prev(&mut self)
        ensures
            *final(self) == spec_page_prev(*old(self)),
    {
        if self.page > 1 {
            self.page = self.page - 1;
        }
    }

    /// Apply a freshly queried row count: recompute the last page and pull
    /// the cursor back into range.
    pub fn update_count(&mut self, rows_count: u64)
        ensures
            *final(self) == spec_update_count(*old(self), rows_count as int),
            final(self).wf(),
    {
        self.end = recompute_end(rows_count, self.size);
        self.page = clamp_page(self.page, self.end);
    }

    /// The query offset of the current page: the rows that precede it.
    pub fn offset(&self) -> (r: u32)
        requires
            self.page >= 1,
        ensures
            r == (self.page - 1) * self.size,
    {
        proof {
            assert((self.page as int - 1) * (self.size as int) <= 65534 * 255) by (nonlinear_arith)
                requires
                    1 <= self.page as int <= 65535,
                    0 <= self.size as int <= 255,
            ;
        }
        (self.page as u32 - 1) * (self.size as u32)
    }
}

impl Default for TablePage {
    fn default() -> (r: Self)
        ensures
            r.page == 0,
            r.end == 0,
            r.size == 0,
    {
        Self { page: 0, end: 0, size: 0 }
    }
}

} // verus!
