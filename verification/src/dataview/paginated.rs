//! The sparse, paged backing store: a contiguous window of fixed-size pages
//! is retained around the visible range, pages are requested eagerly when the
//! range grows and evicted lazily once they no longer intersect it, and the
//! total size arrives separately and clamps every logical index.

use vstd::prelude::*;

use crate::dataview::{DataView, DataViewOptions, Keyed};

verus! {

/// One page request: the items covering logical positions
/// `[index * size, index * size + size)`.
#[derive(Debug, Clone, Copy, PartialEq, Eq, Structural)]
pub struct Page {
    pub index: usize,
    pub size: usize,
}

impl Page {
    pub fn new(index: usize, size: usize) -> (r: Page)
        ensures
            r.index == index,
            r.size == size,
    {
        Page { index, size }
    }
}

/// What the paginated store asks of its provider: the total item count, or
/// the contents of one page.
#[derive(Debug, Clone, Copy, PartialEq, Eq, Structural)]
pub enum PaginatedDataRequest {
    Size,
    Page(Page),
}

/// The answers, mirroring the requests.
#[derive(Debug, Clone, PartialEq, Eq)]
pub enum PaginatedDataMessage<T> {
    Size(usize),
    Page { index: usize, values: Vec<Keyed<T>> },
}

/// A retained page: requested but not yet arrived, or loaded.
#[derive(Debug, Clone, PartialEq, Eq)]
pub enum PageSlot<T> {
    Pending,
    Loaded(Vec<Keyed<T>>),
}

/// The sparse page cache. `pages` holds the slots of the contiguous retained
/// page range starting at page index `first_page`.
#[derive(Debug, Clone)]
pub struct PaginatedData<T> {
    pub page_size: usize,
    pub total: Option<usize>,
    pub first_page: usize,
    pub pages: Vec<PageSlot<T>>,
}

/// The mathematical state of the page cache: a pending slot is `None`, a
/// loaded one holds its item sequence.
#[verifier::ext_equal]
pub ghost struct PagesView<T> {
    pub page_size: usize,
    pub total: Option<usize>,
    pub first_page: int,
    pub pages: Seq<Option<Seq<Keyed<T>>>>,
}

/// How many pages cover `total` items at `page_size` items per page.
pub open spec fn spec_num_pages(total: usize, page_size: usize) -> int {
    if total == 0 {
        0
    } else {
        (total - 1) / (page_size as int) + 1
    }
}

pub open spec fn spec_slot_view<T>(slot: PageSlot<T>) -> Option<Seq<Keyed<T>>> {
    match slot {
        PageSlot::Pending => None,
        PageSlot::Loaded(values) => Some(values@),
    }
}

/// The mathematical contents of a sequence of page slots.
pub open spec fn slots_view<T>(slots: Seq<PageSlot<T>>) -> Seq<Option<Seq<Keyed<T>>>> {
    slots.map_values(|slot: PageSlot<T>| spec_slot_view(slot))
}

impl<T> PagesView<T> {
    /// The state is internally consistent: the page size is at least one,
    /// nothing is retained before the total is known, and the retained range
    /// lies within the pages that the total calls for.
    pub open spec fn wf(&self) -> bool {
        &&& 1 <= self.page_size
        &&& 0 <= self.first_page
        &&& match self.total {
            None => self.pages.len() == 0 && self.first_page == 0,
            Some(total) => self.first_page + self.pages.len() <= spec_num_pages(
                total,
                self.page_size,
            ),
        }
    }

    /// Page `p` is inside the retained range: loaded or requested.
    pub open spec fn covered(&self, p: int) -> bool {
        self.first_page <= p < self.first_page + self.pages.len()
    }

    /// The slot of page `p`; meaningful when `covered(p)`.
    pub open spec fn slot(&self, p: int) -> Option<Seq<Keyed<T>>> {
        self.pages[p - self.first_page]
    }

    /// The item at logical position `i`, when its page has arrived and the
    /// position is within the known total.
    pub open spec fn item_at(&self, i: int) -> Option<Keyed<T>> {
        match self.total {
            Some(total) => if 0 <= i < total {
                let p = i / (self.page_size as int);
                if self.covered(p) {
                    match self.slot(p) {
                        Some(values) => if i % (self.page_size as int) < values.len() {
                            Some(values[i % (self.page_size as int)])
                        } else {
                            None
                        },
                        None => None,
                    }
                } else {
                    None
                }
            } else {
                None
            },
            None => None,
        }
    }

    /// The state after the total is recorded; retained pages survive when
    /// they still fit under the new total, else the cache starts over.
    pub open spec fn handle_size(&self, total: usize) -> PagesView<T> {
        if self.first_page + self.pages.len() <= spec_num_pages(total, self.page_size) {
            PagesView { total: Some(total), ..*self }
        } else {
            PagesView { total: Some(total), first_page: 0, pages: Seq::empty(), ..*self }
        }
    }

    /// The state after a page response: an overwrite when the page is still
    /// retained, a no-op when it arrived for an evicted page.
    pub open spec fn handle_page(&self, index: int, values: Seq<Keyed<T>>) -> PagesView<T> {
        if self.covered(index) {
            PagesView { pages: self.pages.update(index - self.first_page, Some(values)), ..*self }
        } else {
            *self
        }
    }

    /// The page range that the required logical range `[start, end)` calls
    /// for, clamped to the known total: `(first_page, page_count)`.
    pub open spec fn required_pages(&self, start: usize, end: usize) -> (int, int) {
        match self.total {
            None => (0, 0),
            Some(total) => {
                let re = if end < total {
                    end as int
                } else {
                    total as int
                };
                if start >= re {
                    (0, 0)
                } else {
                    let fp = (start as int) / (self.page_size as int);
                    let lp = (re - 1) / (self.page_size as int);
                    (fp, lp - fp + 1)
                }
            },
        }
    }

    /// The state after the cache is retargeted to the required range: slots
    /// already retained are kept, the rest start out pending.
    pub open spec fn retained(&self, start: usize, end: usize) -> PagesView<T> {
        match self.total {
            None => *self,
            Some(total) => {
                let (fp, cnt) = self.required_pages(start, end);
                if cnt == 0 {
                    PagesView { first_page: 0, pages: Seq::empty(), ..*self }
                } else {
                    PagesView {
                        first_page: fp,
                        pages: Seq::new(
                            cnt as nat,
                            |j: int|
                                if self.covered(fp + j) {
                                    self.pages[fp + j - self.first_page]
                                } else {
                                    None
                                },
                        ),
                        ..*self
                    }
                }
            },
        }
    }

    /// The indices of the first `k` pages of the required range that are
    /// neither loaded nor already requested, in increasing order.
    pub open spec fn missing_indices_from(&self, fp: int, k: nat) -> Seq<usize>
        decreases k,
    {
        if k == 0 {
            Seq::empty()
        } else {
            let prev = self.missing_indices_from(fp, (k - 1) as nat);
            if self.covered(fp + k - 1) {
                prev
            } else {
                prev.push((fp + k - 1) as usize)
            }
        }
    }

    /// The page indices that the required logical range `[start, end)` needs
    /// and that are neither loaded nor already requested.
    pub open spec fn pages_needed(&self, start: usize, end: usize) -> Seq<usize> {
        match self.total {
            None => Seq::empty(),
            Some(total) => {
                let (fp, cnt) = self.required_pages(start, end);
                self.missing_indices_from(fp, cnt as nat)
            },
        }
    }

    /// The requests for the first `k` pages of the required range that are
    /// neither loaded nor already requested, in increasing page order.
    pub open spec fn missing_from(&self, fp: int, k: nat) -> Seq<PaginatedDataRequest>
        decreases k,
    {
        if k == 0 {
            Seq::empty()
        } else {
            let prev = self.missing_from(fp, (k - 1) as nat);
            if self.covered(fp + k - 1) {
                prev
            } else {
                prev.push(
                    PaginatedDataRequest::Page(
                        Page { index: (fp + k - 1) as usize, size: self.page_size },
                    ),
                )
            }
        }
    }

    /// All requests that retargeting to `[start, end)` emits.
    pub open spec fn missing(&self, start: usize, end: usize) -> Seq<PaginatedDataRequest> {
        match self.total {
            None => Seq::empty(),
            Some(total) => {
                let (fp, cnt) = self.required_pages(start, end);
                self.missing_from(fp, cnt as nat)
            },
        }
    }
}

impl<T> View for PaginatedData<T> {
    type V = PagesView<T>;

    open spec fn view(&self) -> PagesView<T> {
        PagesView {
            page_size: self.page_size,
            total: self.total,
            first_page: self.first_page as int,
            pages: slots_view(self.pages@),
        }
    }
}

impl<T> DataView for PaginatedData<T> {
    type Item = Keyed<T>;

    type Request = PaginatedDataRequest;

    type Message = PaginatedDataMessage<T>;

    open spec fn v_wf(v: PagesView<T>) -> bool {
        v.wf()
    }

    open spec fn v_size(v: PagesView<T>) -> Option<usize> {
        v.total
    }

    open spec fn v_item_at(v: PagesView<T>, i: int) -> Option<Keyed<T>> {
        v.item_at(i)
    }

    open spec fn v_handle(v: PagesView<T>, msg: PaginatedDataMessage<T>) -> (PagesView<T>, bool) {
        match msg {
            PaginatedDataMessage::Size(total) => (v.handle_size(total), true),
            PaginatedDataMessage::Page { index, values } => (
                v.handle_page(index as int, values@),
                v.covered(index as int),
            ),
        }
    }

    open spec fn v_update(v: PagesView<T>, start: usize, end: usize) -> (
        PagesView<T>,
        Seq<PaginatedDataRequest>,
    ) {
        (v.retained(start, end), v.missing(start, end))
    }

    open spec fn v_init(options: DataViewOptions) -> PagesView<T> {
        PagesView {
            page_size: options.page_size,
            total: None,
            first_page: 0,
            pages: Seq::empty(),
        }
    }

    open spec fn spec_initial_request() -> PaginatedDataRequest {
        PaginatedDataRequest::Size
    }

    fn init(options: &DataViewOptions) -> (r: Self) {
        let r = PaginatedData {
            page_size: options.page_size,
            total: None,
            first_page: 0,
            pages: Vec::new(),
        };
        proof {
            assert(r@.pages =~= Seq::<Option<Seq<Keyed<T>>>>::empty());
            assert(r@ =~= Self::v_init(*options));
        }
        r
    }

    fn initial_request() -> (r: PaginatedDataRequest) {
        PaginatedDataRequest::Size
    }

    fn size(&self) -> (r: Option<usize>) {
        self.total
    }

    fn has_data(&self) -> (r: bool) {
        self.total.is_some()
    }

    fn item_at(&self, index: usize) -> (r: Option<&Keyed<T>>) {
        match self.total {
            None => None,
            Some(total) => {
                if index >= total {
                    return None;
                }
                let p = index / self.page_size;
                if p >= self.first_page && p - self.first_page < self.pages.len() {
                    match &self.pages[p - self.first_page] {
                        PageSlot::Loaded(values) => {
                            let offset = index % self.page_size;
                            if offset < values.len() {
                                Some(&values[offset])
                            } else {
                                None
                            }
                        },
                        PageSlot::Pending => None,
                    }
                } else {
                    None
                }
            },
        }
    }

    fn handle(&mut self, msg: PaginatedDataMessage<T>) -> (r: bool) {
        match msg {
            PaginatedDataMessage::Size(total) => {
                let num_pages: usize = if total == 0 {
                    0
                } else {
                    proof {
                        lemma_div_bounds((total - 1) as int, self.page_size as int);
                    }
                    (total - 1) / self.page_size + 1
                };
                if !(self.first_page <= num_pages && self.pages.len() <= num_pages
                    - self.first_page) {
                    self.first_page = 0;
                    self.pages = Vec::new();
                    proof {
                        assert(self@.pages =~= Seq::<Option<Seq<Keyed<T>>>>::empty());
                    }
                }
                self.total = Some(total);
                proof {
                    assert(final(self)@ =~= Self::v_handle(old(self)@, msg).0);
                }
                true
            },
            PaginatedDataMessage::Page { index, values } => {
                if index >= self.first_page && index - self.first_page < self.pages.len() {
                    self.pages.set(index - self.first_page, PageSlot::Loaded(values));
                    proof {
                        assert(final(self)@.pages =~= Self::v_handle(old(self)@, msg).0.pages);
                        assert(final(self)@ =~= Self::v_handle(old(self)@, msg).0);
                    }
                    true
                } else {
                    false
                }
            },
        }
    }

    fn update(&mut self, start: usize, end: usize) -> (r: Vec<PaginatedDataRequest>) {
        let ghost ov = self@;
        let total = match self.total {
            None => {
                return Vec::new();
            },
            Some(total) => total,
        };
        let re: usize = if end < total {
            end
        } else {
            total
        };
        if start >= re {
            self.first_page = 0;
            self.pages = Vec::new();
            proof {
                assert(self@.pages =~= Seq::<Option<Seq<Keyed<T>>>>::empty());
                assert(self@ =~= ov.retained(start, end));
            }
            return Vec::new();
        }
        let fp: usize = start / self.page_size;
        let lp: usize = (re - 1) / self.page_size;
        proof {
            lemma_page_index_bounds(start, re, total, self.page_size);
        }
        let ghost ps = self.page_size;
        let ghost of = ov.first_page;
        let ghost olen = ov.pages.len() as int;
        let mut old_pages: Vec<PageSlot<T>> = Vec::new();
        core::mem::swap(&mut old_pages, &mut self.pages);
        proof {
            assert(slots_view(old_pages@) =~= ov.pages.subrange(0, olen));
        }
        let mut cur: usize = self.first_page;
        while cur < fp && old_pages.len() > 0
            invariant
                of <= cur,
                cur <= spec_max(of, fp as int),
                olen - old_pages@.len() == cur - of,
                old_pages@.len() <= olen,
                olen == ov.pages.len(),
                of == ov.first_page,
                slots_view(old_pages@) == ov.pages.subrange(cur - of, olen),
            decreases fp - cur,
        {
            let ghost prev = old_pages@;
            old_pages.remove(0);
            cur += 1;
            proof {
                lemma_slots_view_remove_first(prev, old_pages@, ov.pages, cur - of, olen);
            }
        }
        proof {
            assert(cur as int == spec_max(of, spec_min(fp as int, of + olen)));
        }
        let mut new_pages: Vec<PageSlot<T>> = Vec::new();
        let mut reqs: Vec<PaginatedDataRequest> = Vec::new();
        let mut p: usize = fp;
        while p <= lp
            invariant
                1 <= ps,
                self.page_size == ps,
                ps == ov.page_size,
                ov.total == Some(total),
                ov.wf(),
                of == ov.first_page,
                olen == ov.pages.len(),
                of + olen <= spec_num_pages(total, ps),
                spec_num_pages(total, ps) <= total,
                fp == (start as int) / (ps as int),
                lp == (re - 1) / (ps as int),
                fp <= lp < total,
                lp + 1 <= spec_num_pages(total, ps),
                fp <= p <= lp + 1,
                cur as int == spec_max(of, spec_min(p as int, of + olen)),
                olen - old_pages@.len() == cur - of,
                old_pages@.len() <= olen,
                slots_view(old_pages@) == ov.pages.subrange(cur - of, olen),
                new_pages@.len() == p - fp,
                forall|j: int|
                    0 <= j < p - fp ==> spec_slot_view(#[trigger] new_pages@[j]) == (
                    if ov.covered(fp + j) {
                        ov.pages[fp + j - of]
                    } else {
                        None
                    }),
                reqs@ == ov.missing_from(fp as int, (p - fp) as nat),
            decreases lp + 1 - p,
        {
            let ghost reqs_before = reqs@;
            if cur == p && old_pages.len() > 0 {
                proof {
                    assert(cur - of < olen);
                    assert(ov.covered(p as int));
                    assert(slots_view(old_pages@)[0] == ov.pages[p - of]);
                }
                let ghost prev = old_pages@;
                let slot = old_pages.remove(0);
                cur += 1;
                proof {
                    assert(spec_slot_view(slot) == slots_view(prev)[0]);
                    lemma_slots_view_remove_first(prev, old_pages@, ov.pages, cur - of, olen);
                    assert(reqs@ == ov.missing_from(fp as int, (p + 1 - fp) as nat));
                }
                new_pages.push(slot);
            } else {
                proof {
                    assert(!ov.covered(p as int)) by {
                        if ov.covered(p as int) {
                            assert(of <= p < of + olen);
                            assert(cur as int == spec_max(of, spec_min(p as int, of + olen)));
                        }
                    }
                }
                new_pages.push(PageSlot::Pending);
                reqs.push(PaginatedDataRequest::Page(Page { index: p, size: self.page_size }));
                proof {
                    assert(reqs@ =~= reqs_before.push(
                        PaginatedDataRequest::Page(Page { index: p as usize, size: ps }),
                    ));
                    assert(reqs@ == ov.missing_from(fp as int, (p + 1 - fp) as nat));
                }
            }
            p += 1;
        }
        self.pages = new_pages;
        self.first_page = fp;
        proof {
            assert(self@.pages =~= ov.retained(start, end).pages);
            assert(self@ =~= ov.retained(start, end));
            assert(reqs@ == ov.missing(start, end));
        }
        reqs
    }
}

spec fn spec_min(a: int, b: int) -> int {
    if a < b {
        a
    } else {
        b
    }
}

spec fn spec_max(a: int, b: int) -> int {
    if a > b {
        a
    } else {
        b
    }
}

/// Division never increases a non-negative value and is monotone, so the
/// page range derived from a clamped logical range stays within the pages
/// that the total calls for.
proof fn lemma_div_bounds(a: int, d: int)
    requires
        0 <= a,
        1 <= d,
    ensures
        0 <= a / d <= a,
{
    vstd::arithmetic::div_mod::lemma_div_is_ordered_by_denominator(a, 1, d);
    vstd::arithmetic::div_mod::lemma_div_pos_is_pos(a, d);
    vstd::arithmetic::div_mod::lemma_div_basics(a);
}

/// For `0 <= start < re <= total` and one-based page size `d`, the derived
/// page range `[start / d, (re - 1) / d]` is non-empty and lies within the
/// `spec_num_pages(total, d)` pages that cover the total.
proof fn lemma_page_index_bounds(start: usize, re: usize, total: usize, d: usize)
    requires
        start < re <= total,
        1 <= d,
    ensures
        0 <= (start as int) / (d as int) <= (re - 1) / (d as int),
        (re - 1) / (d as int) < total,
        (re - 1) / (d as int) + 1 <= spec_num_pages(total, d),
        spec_num_pages(total, d) <= total,
{
    lemma_div_bounds(start as int, d as int);
    lemma_div_bounds(re - 1, d as int);
    lemma_div_bounds(total - 1, d as int);
    vstd::arithmetic::div_mod::lemma_div_is_ordered(start as int, re - 1, d as int);
    vstd::arithmetic::div_mod::lemma_div_is_ordered(re - 1, total - 1, d as int);
}

/// Removing the first slot advances by one the window that the slots mirror
/// inside the full page sequence.
proof fn lemma_slots_view_remove_first<T>(
    prev: Seq<PageSlot<T>>,
    next: Seq<PageSlot<T>>,
    whole: Seq<Option<Seq<Keyed<T>>>>,
    k: int,
    olen: int,
)
    requires
        prev.len() >= 1,
        next == prev.remove(0),
        1 <= k,
        olen == whole.len(),
        k - 1 + prev.len() == olen,
        slots_view(prev) == whole.subrange(k - 1, olen),
    ensures
        slots_view(next) == whole.subrange(k, olen),
{
    assert forall|i: int| 0 <= i < next.len() implies slots_view(next)[i] == whole.subrange(
        k,
        olen,
    )[i] by {
        assert(next[i] == prev[i + 1]);
        assert(slots_view(prev)[i + 1] == spec_slot_view(prev[i + 1]));
        assert(whole.subrange(k - 1, olen)[i + 1] == whole[k + i]);
        assert(whole.subrange(k, olen)[i] == whole[k + i]);
        assert(slots_view(next)[i] == spec_slot_view(next[i]));
    }
    assert(slots_view(next) =~= whole.subrange(k, olen));
}

/// Law: delivering the same page response twice leaves the cache in exactly
/// the state one delivery leaves it in. Since every observation of the
/// controller — `item_at`, and with it the visible window — is a function of
/// that state, a re-delivered page changes nothing visible.
pub proof fn lemma_page_delivery_idempotent<T>(v: PagesView<T>, index: int, values: Seq<Keyed<T>>)
    ensures
        v.handle_page(index, values).handle_page(index, values) == v.handle_page(index, values),
{
    let once = v.handle_page(index, values);
    if v.covered(index) {
        assert(once.covered(index));
        assert(once.handle_page(index, values).pages =~= once.pages);
        assert(once.handle_page(index, values) =~= once);
    }
}

proof fn lemma_missing_covered<T>(v: PagesView<T>, fp: int, k: nat)
    requires
        forall|p: int| fp <= p < fp + k ==> v.covered(p),
    ensures
        v.missing_from(fp, k) == Seq::<PaginatedDataRequest>::empty(),
    decreases k,
{
    if k > 0 {
        lemma_missing_covered(v, fp, (k - 1) as nat);
    }
}

proof fn lemma_missing_from_match<T>(v: PagesView<T>, fp: int, k: nat)
    ensures
        v.missing_from(fp, k).len() == v.missing_indices_from(fp, k).len(),
        forall|j: int|
            0 <= j < v.missing_from(fp, k).len() ==> #[trigger] v.missing_from(fp, k)[j]
                == PaginatedDataRequest::Page(
                Page { index: v.missing_indices_from(fp, k)[j], size: v.page_size },
            ),
    decreases k,
{
    if k > 0 {
        lemma_missing_from_match(v, fp, (k - 1) as nat);
    }
}

/// The pages that the read-only query names are exactly the pages that a
/// retarget to the same range requests, in the same order.
pub proof fn lemma_pages_needed_match_requests<T>(v: PagesView<T>, start: usize, end: usize)
    ensures
        v.missing(start, end).len() == v.pages_needed(start, end).len(),
        forall|k: int|
            0 <= k < v.missing(start, end).len() ==> #[trigger] v.missing(start, end)[k]
                == PaginatedDataRequest::Page(
                Page { index: v.pages_needed(start, end)[k], size: v.page_size },
            ),
{
    match v.total {
        None => {},
        Some(total) => {
            let (fp, cnt) = v.required_pages(start, end);
            lemma_missing_from_match(v, fp, cnt as nat);
        },
    }
}

/// Law: once the cache has been retargeted to a required range, retargeting
/// it to the same range again requests nothing — no page that is already
/// loaded or already outstanding is ever requested a second time — and the
/// cache itself stays as it is.
pub proof fn lemma_retain_no_redundant_requests<T>(v: PagesView<T>, start: usize, end: usize)
    ensures
        v.retained(start, end).missing(start, end) == Seq::<PaginatedDataRequest>::empty(),
        v.retained(start, end).retained(start, end) == v.retained(start, end),
{
    let v2 = v.retained(start, end);
    match v.total {
        None => {
            assert(v2.retained(start, end) == v2);
        },
        Some(total) => {
            let (fp, cnt) = v.required_pages(start, end);
            assert(v2.required_pages(start, end) == (fp, cnt));
            if cnt == 0 {
                lemma_missing_covered(v2, 0, 0);
                assert(v2.retained(start, end).pages =~= v2.pages);
                assert(v2.retained(start, end) =~= v2);
            } else {
                assert(forall|p: int| fp <= p < fp + cnt ==> v2.covered(p));
                lemma_missing_covered(v2, fp, cnt as nat);
                assert(v2.retained(start, end).pages =~= v2.pages);
                assert(v2.retained(start, end) =~= v2);
            }
        },
    }
}

impl<T> PaginatedData<T> {
    /// The currently retained page range, as `(first_page_index, page_count)`.
    pub fn pages_range(&self) -> (r: (usize, usize))
        ensures
            r.0 == self.first_page,
            r.1 == self.pages@.len(),
    {
        (self.first_page, self.pages.len())
    }

    /// The indices of the pages the logical range `[start, end)` needs that
    /// are neither loaded nor already requested; the cache is left untouched.
    pub fn pages_needed_for(&self, start: usize, end: usize) -> (r: Vec<usize>)
        requires
            Self::v_wf(self@),
        ensures
            r@ == self@.pages_needed(start, end),
    {
        let total = match self.total {
            None => {
                return Vec::new();
            },
            Some(total) => total,
        };
        let re: usize = if end < total {
            end
        } else {
            total
        };
        if start >= re {
            return Vec::new();
        }
        let fp: usize = start / self.page_size;
        let lp: usize = (re - 1) / self.page_size;
        proof {
            lemma_page_index_bounds(start, re, total, self.page_size);
        }
        let mut needed: Vec<usize> = Vec::new();
        let mut p: usize = fp;
        while p <= lp
            invariant
                fp == (start as int) / (self.page_size as int),
                lp == (re - 1) / (self.page_size as int),
                fp <= p <= lp + 1,
                lp < total,
                needed@ == self@.missing_indices_from(fp as int, (p - fp) as nat),
            decreases lp + 1 - p,
        {
            if !(p >= self.first_page && p - self.first_page < self.pages.len()) {
                needed.push(p);
                proof {
                    assert(!self@.covered(p as int));
                    assert(needed@ =~= self@.missing_indices_from(fp as int, (p + 1 - fp) as nat));
                }
            } else {
                proof {
                    assert(self@.covered(p as int));
                }
            }
            p += 1;
        }
        needed
    }
}

} // verus!
