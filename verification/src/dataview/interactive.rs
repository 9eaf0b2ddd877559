//! The interactive controller: owns a backing store, the cursor and the
//! visible window, translates cursor commands into store updates and
//! versioned requests, and routes versioned responses back into the store.

use vstd::prelude::*;

use crate::dataview::linear::{
    spec_list_add, spec_list_remove, spec_list_replace, ListData, ListDataRequest,
};
use crate::dataview::paginated::{
    lemma_page_delivery_idempotent, lemma_retain_no_redundant_requests, PagesView, PaginatedData,
    PaginatedDataMessage, PaginatedDataRequest,
};
use crate::dataview::{
    request_data, CursorCommand, DataProvider, DataView, DataViewOptions, Keyed, Versioned,
};

verus! {

/// The cursor after the store is consulted: clamped into the data, falling
/// on the first item when nothing was selected yet, and absent exactly when
/// the list is empty.
pub open spec fn spec_valid_cursor(cursor: Option<usize>, total: usize) -> Option<usize> {
    if total == 0 {
        None
    } else {
        match cursor {
            None => Some(0usize),
            Some(c) => if c < total {
                Some(c)
            } else {
                Some((total - 1) as usize)
            },
        }
    }
}

/// The scroll margin the window can actually honor: capped at just under
/// half the window, so that the top and bottom margin rules never overlap
/// and revalidating a window start the rules themselves produced moves
/// nothing.
pub open spec fn spec_effective_margin(margin: usize, wsize: usize) -> usize {
    if wsize == 0 {
        0usize
    } else {
        let cap = (((wsize - 1) as int) / 2) as usize;
        if margin < cap {
            margin
        } else {
            cap
        }
    }
}

/// Where the window starts once it is scrolled so that the cursor keeps the
/// effective margin of slack from either window edge, clamped so the window
/// never extends past the `total` data positions. A zero-row window shows
/// nothing and is only clamped.
pub open spec fn spec_scrolled_start(
    start: usize,
    wsize: usize,
    margin: usize,
    c: usize,
    total: usize,
) -> usize {
    let m = spec_effective_margin(margin, wsize);
    let hi = c.saturating_add(m).saturating_add(1);
    let shifted = if wsize == 0 {
        start
    } else if c < start.saturating_add(m) {
        c.saturating_sub(m)
    } else if hi > start.saturating_add(wsize) {
        (hi - wsize) as usize
    } else {
        start
    };
    let limit = if total > wsize {
        (total - wsize) as usize
    } else {
        0usize
    };
    if shifted > limit {
        limit
    } else {
        shifted
    }
}

/// The margin `spec_effective_margin` allows this window.
fn effective_margin(margin: usize, wsize: usize) -> (r: usize)
    ensures
        r == spec_effective_margin(margin, wsize),
{
    if wsize == 0 {
        0
    } else {
        let cap = (wsize - 1) / 2;
        if margin < cap {
            margin
        } else {
            cap
        }
    }
}

/// The cursor position a signed move lands on, saturating at the ends; the
/// store then clamps it into the data.
pub open spec fn spec_move_target(c: usize, delta: isize) -> usize {
    if c + delta < 0 {
        0usize
    } else if c + delta > usize::MAX {
        usize::MAX
    } else {
        (c + delta) as usize
    }
}

/// A scrolled window contains the cursor whenever the window has rows at
/// all, and keeps the effective margin of slack between the cursor and
/// either window edge except where the data boundary itself is closer.
pub proof fn lemma_scrolled_start_contains_cursor(
    start: usize,
    wsize: usize,
    margin: usize,
    c: usize,
    total: usize,
)
    requires
        c < total,
        1 <= wsize,
    ensures
        ({
            let m = spec_effective_margin(margin, wsize);
            let s = spec_scrolled_start(start, wsize, margin, c, total);
            let limit = if total > wsize {
                (total - wsize) as usize
            } else {
                0usize
            };
            &&& s <= c < s + wsize
            &&& s == 0 || s + m <= c
            &&& s == limit || c + m < s + wsize
        }),
{
}

/// Law: window revalidation is a fixed point. Scrolling a window start that
/// the rules themselves produced, for the same cursor and total, moves
/// nothing — so revalidating a state again (as a repeated response does)
/// changes no window.
pub proof fn lemma_scrolled_start_fixed_point(
    start: usize,
    wsize: usize,
    margin: usize,
    c: usize,
    total: usize,
)
    requires
        c < total,
    ensures
        ({
            let s = spec_scrolled_start(start, wsize, margin, c, total);
            spec_scrolled_start(s, wsize, margin, c, total) == s
        }),
{
}

/// The virtualized list a user steers: a backing store `D`, the provider `P`
/// that requests are handed to, the selection cursor, and the visible window
/// `[window_start, window_start + window_size)`.
pub struct InteractiveList<D: DataView, P: DataProvider<Request = <D as DataView>::Request>> {
    pub data: D,
    pub provider: Versioned<Option<P>>,
    pub options: DataViewOptions,
    pub window_start: usize,
    pub window_size: usize,
    pub cursor: Option<usize>,
}

impl<D: DataView, P: DataProvider<Request = <D as DataView>::Request>> InteractiveList<D, P> {
    /// The controller invariant, held by every reachable state: the store is
    /// consistent; before the size is known the cursor is absent and the
    /// window sits at the origin; once it is known, the cursor exists exactly
    /// when the list is non-empty, lies inside the data, and — whenever the
    /// window, whose length is always the configured `window_size`, has rows
    /// at all — inside the window.
    pub open spec fn wf(&self) -> bool {
        &&& self.options.wf()
        &&& D::v_wf(self.data@)
        &&& match D::v_size(self.data@) {
            None => self.cursor is None && self.window_start == 0,
            Some(total) => {
                &&& (self.cursor is Some <==> total > 0)
                &&& match self.cursor {
                    Some(c) => {
                        &&& c < total
                        &&& 1 <= self.window_size ==> self.window_start <= c < self.window_start
                            + self.window_size
                    },
                    None => self.window_start == 0,
                }
            },
        }
    }

    /// The store, cursor and window after both are revalidated against the
    /// store's size and the store retains the range the window plus load
    /// margins requires.
    pub open spec fn spec_refreshed(
        data: <D as View>::V,
        cursor: Option<usize>,
        start: usize,
        wsize: usize,
        options: DataViewOptions,
    ) -> (<D as View>::V, Option<usize>, usize) {
        match D::v_size(data) {
            None => (data, cursor, start),
            Some(total) => {
                let c2 = spec_valid_cursor(cursor, total);
                let s2 = match c2 {
                    Some(c) => spec_scrolled_start(start, wsize, options.scroll_margins, c, total),
                    None => 0usize,
                };
                let rs = s2.saturating_sub(options.load_margins);
                let re = s2.saturating_add(wsize).saturating_add(options.load_margins);
                (D::v_update(data, rs, re).0, c2, s2)
            },
        }
    }

    /// The store, cursor and window after a response that is current under
    /// the version is routed into the store and the state is revalidated.
    pub open spec fn spec_after_data(
        data: <D as View>::V,
        cursor: Option<usize>,
        start: usize,
        wsize: usize,
        options: DataViewOptions,
        msg: <D as DataView>::Message,
    ) -> (<D as View>::V, Option<usize>, usize) {
        let (d1, changed) = D::v_handle(data, msg);
        Self::spec_refreshed(d1, cursor, start, wsize, options)
    }

    /// The state is a fixed point of revalidation: recomputing the cursor,
    /// the window and the retained range moves nothing. Every operation of
    /// the controller ends in a revalidation, so every state it hands back
    /// is settled.
    pub open spec fn settled(&self) -> bool {
        Self::spec_refreshed(
            self.data@,
            self.cursor,
            self.window_start,
            self.window_size,
            self.options,
        ) == (self.data@, self.cursor, self.window_start)
    }

    pub fn new_with_options(window_size: usize, options: DataViewOptions) -> (r: Self)
        requires
            options.wf(),
        ensures
            r.wf(),
            r.data@ == D::v_init(options),
            r.provider == (Versioned::<Option<P>> { version: 0, data: None }),
            r.options == options,
            r.window_start == 0,
            r.window_size == window_size,
            r.cursor is None,
    {
        InteractiveList {
            data: D::init(&options),
            provider: Versioned { version: 0, data: None },
            options,
            window_start: 0,
            window_size,
            cursor: None,
        }
    }

    pub fn new(window_size: usize) -> (r: Self)
        ensures
            r.wf(),
            r.data@ == D::v_init(r.options),
            r.provider == (Versioned::<Option<P>> { version: 0, data: None }),
            r.options == (DataViewOptions { page_size: 128, load_margins: 32, scroll_margins: 3 }),
            r.window_start == 0,
            r.window_size == window_size,
            r.cursor is None,
    {
        Self::new_with_options(window_size, DataViewOptions::default())
    }

    /// Revalidates the cursor and the window against the store, retains the
    /// required range, and emits the resulting requests.
    fn refresh(&mut self)
        requires
            old(self).options.wf(),
            D::v_wf(old(self).data@),
            D::v_size(old(self).data@) is None ==> old(self).cursor is None && old(
                self,
            ).window_start == 0,
        ensures
            final(self).wf(),
            final(self).provider == old(self).provider,
            final(self).options == old(self).options,
            final(self).window_size == old(self).window_size,
            ({
                let (d2, c2, s2) = Self::spec_refreshed(
                    old(self).data@,
                    old(self).cursor,
                    old(self).window_start,
                    old(self).window_size,
                    old(self).options,
                );
                &&& final(self).data@ == d2
                &&& final(self).cursor == c2
                &&& final(self).window_start == s2
            }),
    {
        let total = match self.data.size() {
            None => {
                return ;
            },
            Some(total) => total,
        };
        if total == 0 {
            self.cursor = None;
            self.window_start = 0;
        } else {
            let c = match self.cursor {
                None => 0,
                Some(c) => if c < total {
                    c
                } else {
                    total - 1
                },
            };
            self.cursor = Some(c);
            let wsize = self.window_size;
            let margin = effective_margin(self.options.scroll_margins, wsize);
            let hi = c.saturating_add(margin).saturating_add(1);
            let mut s = self.window_start;
            if wsize > 0 {
                if c < s.saturating_add(margin) {
                    s = c.saturating_sub(margin);
                } else if hi > s.saturating_add(wsize) {
                    s = hi - wsize;
                }
            }
            let limit = if total > wsize {
                total - wsize
            } else {
                0
            };
            if s > limit {
                s = limit;
            }
            self.window_start = s;
            proof {
                if wsize >= 1 {
                    lemma_scrolled_start_contains_cursor(
                        old(self).window_start,
                        wsize,
                        self.options.scroll_margins,
                        c,
                        total,
                    );
                }
            }
        }
        let rs = self.window_start.saturating_sub(self.options.load_margins);
        let re = self.window_start.saturating_add(self.window_size).saturating_add(
            self.options.load_margins,
        );
        let mut reqs = self.data.update(rs, re);
        while reqs.len() > 0
            decreases reqs@.len(),
        {
            let req = reqs.remove(0);
            request_data(&self.provider, req);
        }
    }

    /// Attaches a data source: the store starts over, the version advances
    /// so that every response to an earlier request will be ignored, and the
    /// store's priming request is emitted under the new version.
    pub fn set_provider(&mut self, provider: P)
        requires
            old(self).wf(),
        ensures
            final(self).wf(),
            final(self).provider.version == if old(self).provider.version < u64::MAX {
                old(self).provider.version + 1
            } else {
                u64::MAX as int
            },
            final(self).provider.data == Some(provider),
            final(self).data@ == D::v_init(old(self).options),
            final(self).cursor is None,
            final(self).window_start == 0,
            final(self).window_size == old(self).window_size,
            final(self).options == old(self).options,
    {
        self.provider.bump();
        self.provider.data = Some(provider);
        self.data = D::init(&self.options);
        self.cursor = None;
        self.window_start = 0;
        request_data(&self.provider, D::initial_request());
    }

    /// Routes a versioned response into the store. A response whose version
    /// is not the current one is dropped whole, with no visible change; a
    /// current one is handled by the store, after which the cursor and the
    /// window are revalidated and follow-up requests are emitted.
    pub fn handle_data(&mut self, msg: Versioned<<D as DataView>::Message>) -> (r: bool)
        requires
            old(self).wf(),
        ensures
            final(self).wf(),
            msg.version != old(self).provider.version ==> r == false && *final(self) == *old(self),
            msg.version == old(self).provider.version ==> ({
                let (d2, c2, s2) = Self::spec_after_data(
                    old(self).data@,
                    old(self).cursor,
                    old(self).window_start,
                    old(self).window_size,
                    old(self).options,
                    msg.data,
                );
                &&& r == D::v_handle(old(self).data@, msg.data).1
                &&& final(self).data@ == d2
                &&& final(self).cursor == c2
                &&& final(self).window_start == s2
                &&& final(self).provider == old(self).provider
                &&& final(self).window_size == old(self).window_size
                &&& final(self).options == old(self).options
            }),
    {
        if !self.provider.is_current(msg.version) {
            return false;
        }
        let changed = self.data.handle(msg.data);
        self.refresh();
        changed
    }

    /// Places the cursor on `target` (clamped into the data) and scrolls the
    /// window after it; nothing happens while no item is selected, that is
    /// before data arrived or on an empty list.
    pub fn move_cursor_to(&mut self, target: usize)
        requires
            old(self).wf(),
        ensures
            final(self).wf(),
            old(self).cursor is None ==> *final(self) == *old(self),
            old(self).cursor is Some ==> ({
                let (d2, c2, s2) = Self::spec_refreshed(
                    old(self).data@,
                    Some(target),
                    old(self).window_start,
                    old(self).window_size,
                    old(self).options,
                );
                &&& final(self).data@ == d2
                &&& final(self).cursor == c2
                &&& final(self).window_start == s2
                &&& final(self).provider == old(self).provider
                &&& final(self).window_size == old(self).window_size
                &&& final(self).options == old(self).options
            }),
    {
        if self.cursor.is_some() {
            self.cursor = Some(target);
            self.refresh();
        }
    }

    /// Moves the cursor by `delta` logical positions, clamped to the data.
    pub fn move_cursor(&mut self, delta: isize)
        requires
            old(self).wf(),
        ensures
            final(self).wf(),
            old(self).cursor is None ==> *final(self) == *old(self),
            old(self).cursor matches Some(c) ==> ({
                let (d2, c2, s2) = Self::spec_refreshed(
                    old(self).data@,
                    Some(spec_move_target(c, delta)),
                    old(self).window_start,
                    old(self).window_size,
                    old(self).options,
                );
                &&& final(self).data@ == d2
                &&& final(self).cursor == c2
                &&& final(self).window_start == s2
                &&& final(self).provider == old(self).provider
                &&& final(self).window_size == old(self).window_size
                &&& final(self).options == old(self).options
            }),
    {
        match self.cursor {
            None => (),
            Some(c) => {
                let target = match c.checked_add_signed(delta) {
                    Some(v) => v,
                    None => if delta < 0 {
                        0
                    } else {
                        usize::MAX
                    },
                };
                self.move_cursor_to(target);
            },
        }
    }

    /// The position a cursor command heads for from cursor `c`: one step,
    /// one window length, or either end of the data.
    pub open spec fn spec_command_target(
        command: CursorCommand,
        c: usize,
        wsize: usize,
        size: Option<usize>,
    ) -> usize {
        match command {
            CursorCommand::Next => spec_move_target(c, 1 as isize),
            CursorCommand::Previous => spec_move_target(c, -1 as isize),
            CursorCommand::PageUp => c.saturating_sub(wsize),
            CursorCommand::PageDown => c.saturating_add(wsize),
            CursorCommand::First => 0usize,
            CursorCommand::Last => match size {
                Some(total) => if total > 0 {
                    (total - 1) as usize
                } else {
                    c
                },
                None => c,
            },
        }
    }

    /// Maps the cursor vocabulary onto cursor moves: one position, one
    /// window length, or a jump to either end of the data.
    pub fn handle_command(&mut self, command: CursorCommand)
        requires
            old(self).wf(),
        ensures
            final(self).wf(),
            old(self).cursor is None ==> *final(self) == *old(self),
            old(self).cursor matches Some(c) ==> ({
                let target = Self::spec_command_target(
                    command,
                    c,
                    old(self).window_size,
                    D::v_size(old(self).data@),
                );
                let (d2, c2, s2) = Self::spec_refreshed(
                    old(self).data@,
                    Some(target),
                    old(self).window_start,
                    old(self).window_size,
                    old(self).options,
                );
                &&& final(self).data@ == d2
                &&& final(self).cursor == c2
                &&& final(self).window_start == s2
                &&& final(self).provider == old(self).provider
                &&& final(self).window_size == old(self).window_size
                &&& final(self).options == old(self).options
            }),
    {
        match command {
            CursorCommand::Next => self.move_cursor(1),
            CursorCommand::Previous => self.move_cursor(-1),
            CursorCommand::PageUp => {
                let w = self.window_size;
                match self.cursor {
                    None => (),
                    Some(c) => self.move_cursor_to(c.saturating_sub(w)),
                }
            },
            CursorCommand::PageDown => {
                let w = self.window_size;
                match self.cursor {
                    None => (),
                    Some(c) => self.move_cursor_to(c.saturating_add(w)),
                }
            },
            CursorCommand::First => self.move_cursor_to(0),
            CursorCommand::Last => {
                match self.data.size() {
                    None => (),
                    Some(total) => {
                        if total > 0 {
                            self.move_cursor_to(total - 1);
                        }
                    },
                }
            },
        }
    }

    /// How many rows the window shows of a list of `total` items: the full
    /// window, or what remains of the data below its start.
    pub open spec fn spec_visible_rows(start: usize, wsize: usize, total: usize) -> int {
        if start >= total {
            0
        } else if total - start < wsize {
            total - start
        } else {
            wsize as int
        }
    }

    /// The visible window: one row per visible position, each the item at
    /// that position (absent while not yet loaded) and whether the cursor is
    /// on it; absent entirely while no provider is attached or the size is
    /// not yet known.
    pub fn iter(&self) -> (r: Option<Vec<(Option<&<D as DataView>::Item>, bool)>>)
        requires
            self.wf(),
        ensures
            match r {
                None => self.provider.data is None || D::v_size(self.data@) is None,
                Some(rows) => {
                    &&& self.provider.data is Some
                    &&& match D::v_size(self.data@) {
                        Some(total) => {
                            &&& rows@.len() == Self::spec_visible_rows(
                                self.window_start,
                                self.window_size,
                                total,
                            )
                            &&& forall|k: int|
                                0 <= k < rows@.len() ==> {
                                    &&& (match #[trigger] rows@[k].0 {
                                        Some(item) => D::v_item_at(
                                            self.data@,
                                            self.window_start + k,
                                        ) == Some(*item),
                                        None => D::v_item_at(self.data@, self.window_start + k)
                                            is None,
                                    })
                                    &&& (rows@[k].1 <==> self.cursor == Some(
                                        (self.window_start + k) as usize,
                                    ))
                                }
                        },
                        None => false,
                    }
                },
            },
    {
        if self.provider.as_inner().is_none() {
            return None;
        }
        let total = match self.data.size() {
            None => {
                return None;
            },
            Some(total) => total,
        };
        let count = if self.window_start >= total {
            0
        } else {
            let remaining = total - self.window_start;
            if remaining < self.window_size {
                remaining
            } else {
                self.window_size
            }
        };
        let mut rows: Vec<(Option<&<D as DataView>::Item>, bool)> = Vec::new();
        let mut k: usize = 0;
        while k < count
            invariant
                self.wf(),
                D::v_size(self.data@) == Some(total),
                k <= count,
                count as int == Self::spec_visible_rows(
                    self.window_start,
                    self.window_size,
                    total,
                ),
                count == 0 || self.window_start + count <= total,
                rows@.len() == k,
                forall|j: int|
                    0 <= j < k ==> {
                        &&& (match #[trigger] rows@[j].0 {
                            Some(item) => D::v_item_at(self.data@, self.window_start + j) == Some(
                                *item,
                            ),
                            None => D::v_item_at(self.data@, self.window_start + j) is None,
                        })
                        &&& (rows@[j].1 <==> self.cursor == Some((self.window_start + j) as usize))
                    },
            decreases count - k,
        {
            let position = self.window_start + k;
            let item = self.data.item_at(position);
            let selected = match self.cursor {
                Some(c) => c == position,
                None => false,
            };
            rows.push((item, selected));
            k += 1;
        }
        Some(rows)
    }

    /// The item under the cursor, when it is loaded.
    pub fn selection(&self) -> (r: Option<&<D as DataView>::Item>)
        requires
            self.wf(),
        ensures
            match self.cursor {
                Some(c) => match r {
                    Some(item) => D::v_item_at(self.data@, c as int) == Some(*item),
                    None => D::v_item_at(self.data@, c as int) is None,
                },
                None => r is None,
            },
    {
        match self.cursor {
            Some(c) => self.data.item_at(c),
            None => None,
        }
    }

    /// Resizes the visible window and revalidates the cursor against it.
    pub fn set_window_size(&mut self, window_size: usize)
        requires
            old(self).wf(),
        ensures
            final(self).wf(),
            final(self).window_size == window_size,
            final(self).provider == old(self).provider,
            final(self).options == old(self).options,
            ({
                let (d2, c2, s2) = Self::spec_refreshed(
                    old(self).data@,
                    old(self).cursor,
                    old(self).window_start,
                    window_size,
                    old(self).options,
                );
                &&& final(self).data@ == d2
                &&& final(self).cursor == c2
                &&& final(self).window_start == s2
            }),
    {
        self.window_size = window_size;
        self.refresh();
    }
}

impl<T, P: DataProvider<Request = PaginatedDataRequest>> InteractiveList<
    PaginatedData<T>,
    P,
> {
    /// Law: revalidation of the paginated controller is idempotent — the
    /// state any revalidation produces is itself settled. Every controller
    /// operation ends in a revalidation, so every state it hands back is a
    /// fixed point of revalidation.
    pub proof fn lemma_refreshed_is_settled(
        data: PagesView<T>,
        cursor: Option<usize>,
        start: usize,
        wsize: usize,
        options: DataViewOptions,
    )
        ensures
            ({
                let (d1, c1, s1) = Self::spec_refreshed(data, cursor, start, wsize, options);
                Self::spec_refreshed(d1, c1, s1, wsize, options) == (d1, c1, s1)
            }),
    {
        match data.total {
            None => {},
            Some(total) => {
                let c1 = spec_valid_cursor(cursor, total);
                let s1 = match c1 {
                    Some(c) => spec_scrolled_start(start, wsize, options.scroll_margins, c, total),
                    None => 0usize,
                };
                let rs = s1.saturating_sub(options.load_margins);
                let re = s1.saturating_add(wsize).saturating_add(options.load_margins);
                let d1 = data.retained(rs, re);
                assert(d1.total == data.total);
                match c1 {
                    Some(c) => {
                        lemma_scrolled_start_fixed_point(
                            start,
                            wsize,
                            options.scroll_margins,
                            c,
                            total,
                        );
                    },
                    None => {},
                }
                lemma_retain_no_redundant_requests(data, rs, re);
            },
        }
    }

    /// Law (idempotent page delivery): delivering the same page response
    /// twice leaves the controller — store, cursor and window, and with them
    /// everything `iter()` shows — exactly as one delivery leaves it. It
    /// holds of every settled state, that is of every state a controller
    /// operation hands back.
    pub proof fn lemma_page_redelivery_idempotent(self, index: usize, values: Vec<Keyed<T>>)
        requires
            self.settled(),
        ensures
            ({
                let msg = PaginatedDataMessage::Page { index, values };
                let once = Self::spec_after_data(
                    self.data@,
                    self.cursor,
                    self.window_start,
                    self.window_size,
                    self.options,
                    msg,
                );
                let twice = Self::spec_after_data(
                    once.0,
                    once.1,
                    once.2,
                    self.window_size,
                    self.options,
                    msg,
                );
                twice == once
            }),
    {
        let msg = PaginatedDataMessage::Page { index, values };
        let d0 = self.data@;
        let d1 = d0.handle_page(index as int, values@);
        lemma_page_delivery_idempotent(d0, index as int, values@);
        match d0.total {
            None => {
                // before the size is known the revalidation is the identity,
                // and a second write of the same values changes nothing
            },
            Some(total) => {
                let c1 = spec_valid_cursor(self.cursor, total);
                let s1 = match c1 {
                    Some(c) => spec_scrolled_start(
                        self.window_start,
                        self.window_size,
                        self.options.scroll_margins,
                        c,
                        total,
                    ),
                    None => 0usize,
                };
                assert(c1 == self.cursor);
                assert(s1 == self.window_start);
                let rs = s1.saturating_sub(self.options.load_margins);
                let re = s1.saturating_add(self.window_size).saturating_add(
                    self.options.load_margins,
                );
                assert(d0.retained(rs, re) == d0);
                if d0.covered(index as int) {
                    let (fp, cnt) = d0.required_pages(rs, re);
                    if cnt == 0 {
                        assert(d0.retained(rs, re).pages.len() == 0);
                        assert(d0.pages.len() == 0);
                    } else {
                        assert(d0.first_page == fp);
                        assert(d0.pages == d0.retained(rs, re).pages);
                        assert(d0.pages.len() == cnt as nat);
                        assert(d1.required_pages(rs, re) == (fp, cnt));
                        assert(d1.retained(rs, re).pages =~= d1.pages);
                        assert(d1.retained(rs, re) =~= d1);
                    }
                } else {
                    assert(d1 == d0);
                }
            },
        }
    }
}

/// The cursor after the item at `removed` is removed: a removal before the
/// cursor shifts it left so the same item stays selected, one at the cursor
/// leaves it on the next remaining item; the store then clamps it.
pub open spec fn spec_cursor_after_remove(cursor: Option<usize>, removed: Option<int>) -> Option<
    usize,
> {
    match (removed, cursor) {
        (Some(index), Some(c)) => if index < c {
            Some((c - 1) as usize)
        } else {
            Some(c)
        },
        _ => cursor,
    }
}

impl<T, P: DataProvider<Request = ListDataRequest>> InteractiveList<ListData<T>, P> {
    /// Adds an item to the fully loaded list; a list that was empty gets the
    /// new item selected.
    pub fn add_item(&mut self, item: Keyed<T>)
        requires
            old(self).wf(),
        ensures
            final(self).wf(),
            ({
                let (d2, c2, s2) = Self::spec_refreshed(
                    spec_list_add(old(self).data@, item),
                    old(self).cursor,
                    old(self).window_start,
                    old(self).window_size,
                    old(self).options,
                );
                &&& final(self).data@ == d2
                &&& final(self).cursor == c2
                &&& final(self).window_start == s2
                &&& final(self).provider == old(self).provider
                &&& final(self).window_size == old(self).window_size
                &&& final(self).options == old(self).options
            }),
    {
        self.data.add(item);
        self.refresh();
    }

    /// Replaces the item with a matching id in place; the cursor stays.
    pub fn replace_item(&mut self, item: Keyed<T>)
        requires
            old(self).wf(),
        ensures
            final(self).wf(),
            ({
                let (d2, c2, s2) = Self::spec_refreshed(
                    spec_list_replace(old(self).data@, item),
                    old(self).cursor,
                    old(self).window_start,
                    old(self).window_size,
                    old(self).options,
                );
                &&& final(self).data@ == d2
                &&& final(self).cursor == c2
                &&& final(self).window_start == s2
                &&& final(self).provider == old(self).provider
                &&& final(self).window_size == old(self).window_size
                &&& final(self).options == old(self).options
            }),
    {
        self.data.replace(item);
        self.refresh();
    }

    /// Removes the item with the given id. A removal at or before the
    /// selection keeps the same subsequent item selected; removing the last
    /// item leaves nothing selected.
    pub fn remove_item(&mut self, id: u64)
        requires
            old(self).wf(),
        ensures
            final(self).wf(),
            ({
                let (v2, removed) = spec_list_remove(old(self).data@, id);
                let c1 = spec_cursor_after_remove(old(self).cursor, removed);
                let (d2, c2, s2) = Self::spec_refreshed(
                    v2,
                    c1,
                    old(self).window_start,
                    old(self).window_size,
                    old(self).options,
                );
                &&& final(self).data@ == d2
                &&& final(self).cursor == c2
                &&& final(self).window_start == s2
                &&& final(self).provider == old(self).provider
                &&& final(self).window_size == old(self).window_size
                &&& final(self).options == old(self).options
            }),
    {
        proof {
            match old(self).data@ {
                Some(items) => crate::dataview::lemma_index_with_id_properties(items, id),
                None => (),
            }
            match old(self).data.data {
                Some(v) => vstd::std_specs::vec::axiom_spec_len(&v),
                None => (),
            }
        }
        let removed = self.data.remove(id);
        match removed {
            Some(index) => {
                match self.cursor {
                    Some(c) => {
                        if index < c {
                            self.cursor = Some(c - 1);
                        }
                    },
                    None => (),
                }
            },
            None => (),
        }
        self.refresh();
    }
}

} // verus!
