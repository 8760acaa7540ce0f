//! The pagination envelope: a page request, and a result set wrapped with
//! its position among all pages.

use vstd::prelude::*;

verus! {

/// The page that is served when a request names none.
pub fn default_page() -> (page: i64)
    ensures
        page == 1,
{
    1
}

/// The page size that is used when a request names none.
pub fn default_size() -> (size: i64)
    ensures
        size == 50,
{
    50
}

/// Number of pages of `size` items that `total` items fill: the ceiling
/// of `total / size`.
pub open spec fn page_count(total: int, size: int) -> int
    recommends
        total >= 0,
        size >= 1,
{
    if total % size == 0 {
        total / size
    } else {
        total / size + 1
    }
}

/// Number of items that precede page `page` when every page holds `size`.
pub open spec fn page_offset(page: int, size: int) -> int {
    (page - 1) * size
}

/// A request for one page of a result set.
#[derive(Clone, Copy, Debug, PartialEq, Eq, Structural)]
pub struct Pagination {
    /// Number of the page, counted from 1.
    pub page: i64,
    /// Number of items on a full page.
    pub size: i64,
}

impl Pagination {
    /// A request is well formed when it names a first or later page of at
    /// least one item.
    pub open spec fn wf(&self) -> bool {
        self.page >= 1 && self.size >= 1
    }

    /// The request made of the defaults: the first page, fifty items.
    pub fn new() -> (pagination: Pagination)
        ensures
            pagination.page == 1,
            pagination.size == 50,
            pagination.wf(),
    {
        Pagination { page: default_page(), size: default_size() }
    }

    /// Whether the request is well formed.
    pub fn is_valid(&self) -> (valid: bool)
        ensures
            valid == self.wf(),
    {
        self.page >= 1 && self.size >= 1
    }

    /// Number of items to skip before the requested page, for a store
    /// that counts rows in 64 bits. `None` when the request is not well
    /// formed or the offset does not fit.
    pub fn offset(&self) -> (offset: Option<i64>)
        ensures
            offset is Some <==> self.wf() && page_offset(self.page as int, self.size as int)
                <= i64::MAX,
            offset matches Some(n) ==> n == page_offset(self.page as int, self.size as int),
    {
        if !self.is_valid() {
            return None;
        }
        let before: i64 = self.page - 1;
        assert(before * self.size >= 0) by (nonlinear_arith)
            requires
                before >= 0,
                self.size >= 1,
        ;
        before.checked_mul(self.size)
    }

    /// Whether the offset and the limit of the request can be handed to a
    /// service that counts in `usize`: the request is well formed, and
    /// its offset fits in `i64`, in which it is computed, and in `usize`,
    /// as does its size.
    pub open spec fn fits(&self) -> bool {
        &&& self.wf()
        &&& page_offset(self.page as int, self.size as int) <= i64::MAX
        &&& page_offset(self.page as int, self.size as int) <= usize::MAX
        &&& self.size <= usize::MAX
    }

    /// The offset and the limit to hand to the search service, which
    /// counts in `usize`. `None` when the request is not well formed or
    /// either number does not fit.
    pub fn window(&self) -> (window: Option<(usize, usize)>)
        ensures
            window is Some <==> self.fits(),
            window matches Some((offset, limit)) ==> offset == page_offset(
                self.page as int,
                self.size as int,
            ) && limit == self.size,
    {
        match self.offset() {
            None => None,
            Some(offset) => {
                if offset as u64 > usize::MAX as u64 || self.size as u64 > usize::MAX as u64 {
                    None
                } else {
                    Some((offset as usize, self.size as usize))
                }
            },
        }
    }
}

/// One page of a result set.
#[derive(Debug)]
pub struct Page<T> {
    /// The items of this page, in the order in which they are served.
    pub items: Vec<T>,
    /// Number of items in the whole result set.
    pub total: i64,
    /// Number of this page, counted from 1.
    pub page: i64,
    /// Number of items on a full page.
    pub size: i64,
    /// Number of pages in the whole result set.
    pub pages: i64,
}

impl<T> Page<T> {
    /// The envelope counts its pages as the ceiling of `total / size`.
    pub open spec fn wf(&self) -> bool {
        &&& self.total >= 0
        &&& self.page >= 1
        &&& self.size >= 1
        &&& self.pages == page_count(self.total as int, self.size as int)
    }

    /// The page holds no more items than a full page has.
    pub open spec fn within_size(&self) -> bool {
        self.items.len() <= self.size
    }

    /// Wraps `items` as page `pagination.page` of a result set of `total`
    /// items. The items are kept as they are, so the page holds no more
    /// than a full page has where `items` does not.
    pub fn new(items: Vec<T>, total: i64, pagination: &Pagination) -> (page: Self)
        requires
            pagination.wf(),
            total >= 0,
        ensures
            page.items == items,
            items.len() <= pagination.size ==> page.within_size(),
            page.total == total,
            page.page == pagination.page,
            page.size == pagination.size,
            page.pages == page_count(total as int, pagination.size as int),
            page.wf(),
    {
        let pages = count_pages(total, pagination.size);
        Self { items, total, page: pagination.page, size: pagination.size, pages }
    }
}

/// One page of the items that belong to a parent entity, with the parent.
#[derive(Debug)]
pub struct PageWithParent<T, P> {
    /// The items of this page, in the order in which they are served.
    pub items: Vec<T>,
    /// Number of items in the whole result set.
    pub total: i64,
    /// Number of this page, counted from 1.
    pub page: i64,
    /// Number of items on a full page.
    pub size: i64,
    /// Number of pages in the whole result set.
    pub pages: i64,
    /// The entity whose items are paged.
    pub parent_item: P,
}

impl<T, P> PageWithParent<T, P> {
    /// The envelope counts its pages as the ceiling of `total / size`.
    pub open spec fn wf(&self) -> bool {
        &&& self.total >= 0
        &&& self.page >= 1
        &&& self.size >= 1
        &&& self.pages == page_count(self.total as int, self.size as int)
    }

    /// The page holds no more items than a full page has.
    pub open spec fn within_size(&self) -> bool {
        self.items.len() <= self.size
    }

    /// Wraps `items` as page `pagination.page` of the `total` items of
    /// `parent_item`. The items and the parent are kept as they are, so
    /// the page holds no more than a full page has where `items` does
    /// not.
    pub fn new(parent_item: P, items: Vec<T>, total: i64, pagination: &Pagination) -> (page: Self)
        requires
            pagination.wf(),
            total >= 0,
        ensures
            page.parent_item == parent_item,
            page.items == items,
            items.len() <= pagination.size ==> page.within_size(),
            page.total == total,
            page.page == pagination.page,
            page.size == pagination.size,
            page.pages == page_count(total as int, pagination.size as int),
            page.wf(),
    {
        let pages = count_pages(total, pagination.size);
        Self { items, total, page: pagination.page, size: pagination.size, pages, parent_item }
    }
}

/// Number of pages of `size` items that hold `total` items.
pub fn count_pages(total: i64, size: i64) -> (pages: i64)
    requires
        total >= 0,
        size >= 1,
    ensures
        pages == page_count(total as int, size as int),
        0 <= pages <= total,
{
    proof {
        lemma_page_count_is_ceiling(total as int, size as int);
        lemma_page_count_bounded(total as int, size as int);
    }
    let full: i64 = total / size;
    if total % size == 0 {
        full
    } else {
        full + 1
    }
}

/// The page count is the ceiling of `total / size`: the pages hold all
/// the items, one page fewer would not, and an empty result set has no
/// page.
pub proof fn lemma_page_count_is_ceiling(total: int, size: int)
    requires
        total >= 0,
        size >= 1,
    ensures
        page_count(total, size) * size >= total,
        (page_count(total, size) - 1) * size < total || total == 0,
        page_count(total, size) >= 0,
        total == 0 ==> page_count(total, size) == 0,
        total > 0 ==> page_count(total, size) >= 1,
{
    let q = total / size;
    let r = total % size;
    assert(total == q * size + r && 0 <= r < size) by (nonlinear_arith)
        requires
            q == total / size,
            r == total % size,
            size >= 1,
    ;
    assert(q >= 0) by (nonlinear_arith)
        requires
            total == q * size + r,
            0 <= r < size,
            total >= 0,
            size >= 1,
    ;
    if r == 0 {
        assert((q - 1) * size < q * size) by (nonlinear_arith)
            requires
                size >= 1,
        ;
        if total > 0 {
            assert(q >= 1) by (nonlinear_arith)
                requires
                    total == q * size,
                    total > 0,
                    q >= 0,
            ;
        } else {
            assert(q == 0) by (nonlinear_arith)
                requires
                    0 == q * size,
                    size >= 1,
            ;
        }
    } else {
        assert((q + 1) * size == q * size + size) by (nonlinear_arith);
        assert((q + 1 - 1) * size == q * size);
    }
}

/// There are never more pages than items.
pub proof fn lemma_page_count_bounded(total: int, size: int)
    requires
        total >= 0,
        size >= 1,
    ensures
        page_count(total, size) <= total,
{
    let q = total / size;
    let r = total % size;
    assert(total == q * size + r && 0 <= r < size) by (nonlinear_arith)
        requires
            q == total / size,
            r == total % size,
            size >= 1,
    ;
    assert(q >= 0 && q * size >= q) by (nonlinear_arith)
        requires
            total == q * size + r,
            0 <= r < size,
            total >= 0,
            size >= 1,
    ;
}

/// The page count is the least number of pages that hold all the items.
pub proof fn lemma_page_count_is_least(total: int, size: int, n: int)
    requires
        total >= 0,
        size >= 1,
        n * size >= total,
    ensures
        page_count(total, size) <= n,
{
    lemma_page_count_is_ceiling(total, size);
    let p = page_count(total, size);
    if total > 0 && n < p {
        assert(n * size <= (p - 1) * size) by (nonlinear_arith)
            requires
                n <= p - 1,
                size >= 1,
        ;
    }
    if total == 0 && n < 0 {
        assert(n * size < 0) by (nonlinear_arith)
            requires
                n < 0,
                size >= 1,
        ;
    }
}

} // verus!
