//! The arithmetic of a paged list: how many pages there are, which items the
//! current page holds, and which page numbers to show around it.

use vstd::prelude::*;

verus! {

pub const DEFAULT_PAGE_SIZE: u64 = 15;

pub const ONE_SIDE_PAGE_SIZE: u64 = 3;

#[derive(Clone, PartialEq, Debug)]
pub struct Pagination {
    /// The number of items in all.
    pub item_count: u64,
    /// The number of items on a full page.
    pub page_size: u64,
    /// The number of pages.
    pub page_count: u64,
    /// The current page, counted from one.
    pub page_no: u64,
    /// The number of items on the current page.
    pub item_size: u64,
    /// Whether the page asked for does not exist.
    pub out_of_bounds: bool,
    pub has_pre_page: bool,
    pub has_next_page: bool,
    /// The number of page numbers to show on each side of the current one.
    pub one_side_page_count: u64,
    /// The number of the first item of the current page, counted from one.
    pub start_item: u64,
    /// The number of the last item of the current page, counted from one.
    pub end_item: u64,
    /// The first page number to show.
    pub start_page: u64,
    /// The last page number to show.
    pub end_page: u64,
}

#[derive(Debug)]
pub struct PaginationList<T> {
    pub pagination: Pagination,
    pub list: Vec<T>,
}

/// The number of pages that hold `item_count` items, `page_size` to a page.
pub open spec fn page_count_of(item_count: u64, page_size: u64) -> int {
    if item_count % page_size == 0 {
        item_count as int / page_size as int
    } else {
        item_count as int / page_size as int + 1
    }
}

/// The page that is shown where `page_no` is asked for: the nearest one
/// that exists, and the first where there is none.
pub open spec fn page_no_of(page_no: u64, page_count: u64) -> u64 {
    if page_count < page_no {
        if page_count < 1 {
            1
        } else {
            page_count
        }
    } else if page_no < 1 {
        1
    } else {
        page_no
    }
}

/// Whether the page asked for does not exist.
pub open spec fn page_missing(page_no: u64, page_count: u64) -> bool {
    page_count < page_no || page_no < 1
}

/// The first and the last page number to show: all pages where they are
/// no more than `2 * side + 1`, else that many around the current page,
/// moved to stay within the pages.
pub open spec fn page_window(page_no: u64, page_count: u64, side: u64) -> (int, int) {
    if page_count <= 2 * side + 1 {
        (1, page_count as int)
    } else if page_no <= side + 1 {
        (1, 2 * side + 1)
    } else if page_no >= page_count - side {
        (page_count - 2 * side, page_count as int)
    } else {
        (page_no - side, page_no + side)
    }
}

/// What is derived from the counts and the current page.
pub open spec fn others_right(p: Pagination) -> bool {
    if p.page_count == 0 {
        &&& !p.has_pre_page
        &&& !p.has_next_page
        &&& p.item_size == 0
        &&& p.start_item == 0
        &&& p.end_item == 0
        &&& p.start_page == 0
        &&& p.end_page == 0
    } else {
        &&& p.has_pre_page == (p.page_no > 1)
        &&& p.has_next_page == (p.page_count > p.page_no)
        &&& p.item_size == if p.page_no == p.page_count {
            p.item_count - p.page_size * (p.page_count - 1)
        } else {
            p.page_size as int
        }
        &&& p.start_item == p.page_size * (p.page_no - 1) + 1
        &&& p.end_item == p.page_size * (p.page_no - 1) + p.item_size
        &&& p.start_page == page_window(p.page_no, p.page_count, p.one_side_page_count).0
        &&& p.end_page == page_window(p.page_no, p.page_count, p.one_side_page_count).1
    }
}

/// Everything in a pagination follows from the number of items, the page
/// asked for, the page size and the number of pages shown on one side.
pub open spec fn paginated(
    p: Pagination,
    item_count: u64,
    page_no: u64,
    page_size: u64,
    side: u64,
) -> bool {
    &&& p.item_count == item_count
    &&& p.page_size == page_size
    &&& p.one_side_page_count == side
    &&& p.page_count == page_count_of(item_count, page_size)
    &&& p.page_no == page_no_of(page_no, p.page_count)
    &&& p.out_of_bounds == page_missing(page_no, p.page_count)
    &&& others_right(p)
}

/// The bound of `page_size * (page_count - 1) < item_count` in machine
/// terms: the full pages before the last one hold fewer items than there
/// are.
proof fn lemma_full_pages(item_count: u64, page_size: u64, page_no: int)
    requires
        page_size > 0,
        1 <= page_no <= page_count_of(item_count, page_size),
    ensures
        page_size * (page_no - 1) < item_count,
        page_no < page_count_of(item_count, page_size) ==> page_size * page_no <= item_count,
        page_count_of(item_count, page_size) <= item_count,
{
    let q = item_count as int / page_size as int;
    let m = item_count as int % page_size as int;
    assert(item_count == page_size * q + m && 0 <= m < page_size) by (nonlinear_arith)
        requires
            q == item_count as int / page_size as int,
            m == item_count as int % page_size as int,
            page_size > 0,
    ;
    assert(page_size * (page_no - 1) <= page_size * (page_count_of(item_count, page_size) - 1))
        by (nonlinear_arith)
        requires
            page_size > 0,
            page_no <= page_count_of(item_count, page_size),
    ;
    if page_no < page_count_of(item_count, page_size) {
        assert(page_size * page_no <= page_size * q) by (nonlinear_arith)
            requires
                page_size > 0,
                page_no <= q,
        ;
    }
    assert(q <= page_size * q) by (nonlinear_arith)
        requires
            page_size >= 1,
            q >= 0,
    ;
    if m == 0 {
        assert(page_size * (q - 1) == page_size * q - page_size) by (nonlinear_arith);
    }
}

impl Pagination {
    /// The pagination of `item_count` items with the page `page_no` asked
    /// for. Without a page size, fifteen items go on a page; without a
    /// number of pages to show on one side, three are shown.
    pub fn new(
        item_count: u64,
        page_no: u64,
        page_size: Option<u64>,
        one_side_page_count: Option<u64>,
    ) -> (r: Pagination)
        requires
            page_size != Some(0u64),
            one_side_page_count is Some ==> 2 * one_side_page_count->Some_0 + 1 <= u64::MAX,
        ensures
            paginated(
                r,
                item_count,
                page_no,
                match page_size {
                    Some(v) => v,
                    None => DEFAULT_PAGE_SIZE,
                },
                match one_side_page_count {
                    Some(v) => v,
                    None => ONE_SIDE_PAGE_SIZE,
                },
            ),
    {
        let mut inst = Pagination {
            item_count: item_count,
            page_size: DEFAULT_PAGE_SIZE,
            page_count: 0,
            page_no: page_no,
            item_size: 0,
            out_of_bounds: false,
            has_pre_page: false,
            has_next_page: false,
            one_side_page_count: ONE_SIDE_PAGE_SIZE,
            start_item: 0,
            end_item: 0,
            start_page: 0,
            end_page: 0,
        };
        match page_size {
            Some(v) => {
                inst.page_size = v;
            },
            _ => (),
        }
        match one_side_page_count {
            Some(v) => {
                inst.one_side_page_count = v;
            },
            _ => (),
        }
        inst.calculate_page_count();
        inst.modify_page_no();
        inst.calculate_other();
        inst
    }

    fn calculate_other(&mut self)
        requires
            old(self).page_size > 0,
            old(self).page_count == page_count_of(old(self).item_count, old(self).page_size),
            old(self).page_count > 0 ==> 1 <= old(self).page_no <= old(self).page_count,
            2 * old(self).one_side_page_count + 1 <= u64::MAX,
        ensures
            final(self).item_count == old(self).item_count,
            final(self).page_size == old(self).page_size,
            final(self).page_count == old(self).page_count,
            final(self).page_no == old(self).page_no,
            final(self).out_of_bounds == old(self).out_of_bounds,
            final(self).one_side_page_count == old(self).one_side_page_count,
            others_right(*final(self)),
    {
        if 0 == self.page_count {
            self.has_pre_page = false;
            self.has_next_page = false;
            self.item_size = 0;
            self.start_item = 0;
            self.end_item = 0;
            self.start_page = 0;
            self.end_page = 0;
        } else {
            proof {
                lemma_full_pages(self.item_count, self.page_size, self.page_no as int);
                lemma_full_pages(self.item_count, self.page_size, self.page_count as int);
            }
            if 1 >= self.page_no {
                self.has_pre_page = false;
            } else {
                self.has_pre_page = true;
            }
            if self.page_count <= self.page_no {
                self.has_next_page = false;
            } else {
                self.has_next_page = true;
            }
            if self.page_no == self.page_count {
                self.item_size = self.item_count - self.page_size * (self.page_count - 1);
            } else {
                self.item_size = self.page_size;
            }
            assert(self.page_size * (self.page_no - 1) + self.page_size == self.page_size
                * self.page_no) by (nonlinear_arith);
            self.start_item = self.page_size * (self.page_no - 1) + 1;
            self.end_item = self.page_size * (self.page_no - 1) + self.item_size;

            let start_page: u64;
            let end_page: u64;
            if self.page_count <= 2 * self.one_side_page_count + 1 {
                start_page = 1;
                end_page = self.page_count;
            } else {
                if self.page_no <= self.one_side_page_count + 1 {
                    start_page = 1;
                    end_page = 2 * self.one_side_page_count + 1;
                } else if self.page_no >= self.page_count - self.one_side_page_count {
                    start_page = self.page_count - 2 * self.one_side_page_count;
                    end_page = self.page_count;
                } else {
                    start_page = self.page_no - self.one_side_page_count;
                    end_page = self.page_no + self.one_side_page_count;
                }
            }
            self.start_page = start_page;
            self.end_page = end_page;
        }
    }

    fn calculate_page_count(&mut self)
        requires
            old(self).page_size > 0,
        ensures
            final(self).page_count == page_count_of(old(self).item_count, old(self).page_size),
            *final(self) == (Pagination { page_count: final(self).page_count, ..*old(self) }),
    {
        proof {
            if self.item_count % self.page_size != 0 {
                assert(self.item_count as int / self.page_size as int + 1 <= u64::MAX)
                    by (nonlinear_arith)
                    requires
                        self.item_count % self.page_size != 0,
                        self.page_size > 0,
                        self.item_count <= u64::MAX,
                ;
            }
        }
        if 0 == self.item_count % self.page_size {
            self.page_count = self.item_count / self.page_size;
        } else {
            self.page_count = self.item_count / self.page_size + 1;
        }
    }

    fn modify_page_no(&mut self)
        ensures
            final(self).page_no == page_no_of(old(self).page_no, old(self).page_count),
            final(self).out_of_bounds == page_missing(old(self).page_no, old(self).page_count),
            *final(self) == (Pagination {
                page_no: final(self).page_no,
                out_of_bounds: final(self).out_of_bounds,
                ..*old(self)
            }),
    {
        self.out_of_bounds = false;
        if self.page_count < self.page_no {
            self.page_no = self.page_count;
            self.out_of_bounds = true;
        }
        if 1 > self.page_no {
            self.page_no = 1;
            self.out_of_bounds = true;
        }
    }
}

} // verus!
