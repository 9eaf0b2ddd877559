//! A virtualized list engine: a cursor and a fixed-size visible window over a
//! backing store that is either fully loaded at once or cached page by page.
//!
//! The engine is split into the backing stores ([`linear`] and [`paginated`]),
//! the versioning token that discards stale responses ([`version`]), and the
//! controller that owns a store, the cursor and the window ([`interactive`]).

pub mod interactive;
pub mod linear;
pub mod paginated;
pub mod version;

use vstd::prelude::*;

pub use version::Versioned;

verus! {

/// An item of a list together with the stable identifier that edit
/// operations (add, remove, replace) address it by.
#[derive(Debug, Clone, PartialEq, Eq)]
pub struct Keyed<T> {
    pub id: u64,
    pub value: T,
}

impl<T> Keyed<T> {
    pub fn new(id: u64, value: T) -> (r: Keyed<T>)
        ensures
            r.id == id,
            r.value == value,
    {
        Keyed { id, value }
    }
}

/// Configuration of the list engine, fixed at construction: the pagination
/// granularity, the rows of prefetch beyond the visible window, and the rows
/// of cursor slack before the window shifts.
#[derive(Debug, Clone)]
pub struct DataViewOptions {
    pub page_size: usize,
    pub load_margins: usize,
    pub scroll_margins: usize,
}

impl DataViewOptions {
    /// The option values that every arithmetic path of the engine tolerates.
    pub open spec fn wf(&self) -> bool {
        &&& 1 <= self.page_size
        &&& self.load_margins < usize::MAX / 4
        &&& self.scroll_margins < usize::MAX / 4
    }
}

impl Default for DataViewOptions {
    fn default() -> (r: Self)
        ensures
            r.page_size == 128,
            r.load_margins == 32,
            r.scroll_margins == 3,
            r.wf(),
    {
        DataViewOptions { page_size: 128, load_margins: 32, scroll_margins: 3 }
    }
}

/// The index of the first item whose id is `id`, if any.
pub open spec fn spec_index_with_id<T>(items: Seq<Keyed<T>>, id: u64) -> Option<int>
    decreases items.len(),
{
    if items.len() == 0 {
        None
    } else if items[0].id == id {
        Some(0)
    } else {
        match spec_index_with_id(items.drop_first(), id) {
            Some(i) => Some(i + 1),
            None => None,
        }
    }
}

/// What `spec_index_with_id` returns is the first position holding `id`.
pub proof fn lemma_index_with_id_properties<T>(items: Seq<Keyed<T>>, id: u64)
    ensures
        match spec_index_with_id(items, id) {
            Some(i) => {
                &&& 0 <= i < items.len()
                &&& items[i].id == id
                &&& forall|j: int| 0 <= j < i ==> items[j].id != id
            },
            None => forall|j: int| 0 <= j < items.len() ==> items[j].id != id,
        },
    decreases items.len(),
{
    if items.len() > 0 && items[0].id != id {
        let rest = items.drop_first();
        lemma_index_with_id_properties(rest, id);
        assert forall|j: int| 1 <= j < items.len() implies items[j] == rest[j - 1] by {
            assert(rest[j - 1] == items[j]);
        }
        match spec_index_with_id(rest, id) {
            Some(i) => {
                assert(items[i + 1] == rest[i]);
            },
            None => {},
        }
    }
}

/// The first index among `items` whose item carries the identifier `id`.
pub fn index_with_id<T>(items: &Vec<Keyed<T>>, id: u64) -> (r: Option<usize>)
    ensures
        match r {
            Some(i) => spec_index_with_id(items@, id) == Some(i as int),
            None => spec_index_with_id(items@, id) is None,
        },
{
    let mut k: usize = 0;
    while k < items.len()
        invariant
            k <= items@.len(),
            forall|j: int| 0 <= j < k ==> items@[j].id != id,
        decreases items@.len() - k,
    {
        if items[k].id == id {
            proof {
                lemma_index_with_id_properties(items@, id);
            }
            return Some(k);
        }
        k += 1;
    }
    proof {
        lemma_index_with_id_properties(items@, id);
    }
    None
}

/// A backing store the interactive controller can drive: either the fully
/// materialized list or the sparse page cache. Each exec operation is pinned
/// to a spec-level model of the store, so that the controller's own contracts
/// compose exactly with whichever store it owns.
pub trait DataView: Sized + View {
    type Item;
    type Request;
    type Message;

    /// The internal consistency of a store state.
    spec fn v_wf(v: Self::V) -> bool;

    /// The total number of items, once known.
    spec fn v_size(v: Self::V) -> Option<usize>;

    /// The item at a logical position, when it is loaded.
    spec fn v_item_at(v: Self::V, i: int) -> Option<Self::Item>;

    /// The state after a response is routed in, and whether the visible
    /// contents may have changed.
    spec fn v_handle(v: Self::V, msg: Self::Message) -> (Self::V, bool);

    /// The state after the store is told the new required logical range
    /// `[start, end)`, and the requests it wants emitted for it.
    spec fn v_update(v: Self::V, start: usize, end: usize) -> (Self::V, Seq<Self::Request>);

    /// The empty state a freshly attached store starts in.
    spec fn v_init(options: DataViewOptions) -> Self::V;

    /// The request that primes a freshly attached store.
    spec fn spec_initial_request() -> Self::Request;

    fn init(options: &DataViewOptions) -> (r: Self)
        requires
            options.wf(),
        ensures
            r@ == Self::v_init(*options),
            Self::v_wf(r@),
            Self::v_size(r@) is None,
    ;

    fn initial_request() -> (r: Self::Request)
        ensures
            r == Self::spec_initial_request(),
    ;

    fn size(&self) -> (r: Option<usize>)
        ensures
            r == Self::v_size(self@),
    ;

    /// Whether the store has learnt the extent of its data: the point at
    /// which the controller starts rendering rows.
    fn has_data(&self) -> (r: bool)
        ensures
            r == (Self::v_size(self@) is Some),
    ;

    fn item_at(&self, index: usize) -> (r: Option<&Self::Item>)
        requires
            Self::v_wf(self@),
        ensures
            match r {
                Some(item) => Self::v_item_at(self@, index as int) == Some(*item),
                None => Self::v_item_at(self@, index as int) is None,
            },
    ;

    fn handle(&mut self, msg: Self::Message) -> (r: bool)
        requires
            Self::v_wf(old(self)@),
        ensures
            Self::v_wf(final(self)@),
            final(self)@ == Self::v_handle(old(self)@, msg).0,
            r == Self::v_handle(old(self)@, msg).1,
            Self::v_size(old(self)@) is Some ==> Self::v_size(final(self)@) is Some,
    ;

    fn update(&mut self, start: usize, end: usize) -> (r: Vec<Self::Request>)
        requires
            Self::v_wf(old(self)@),
        ensures
            Self::v_wf(final(self)@),
            Self::v_size(final(self)@) == Self::v_size(old(self)@),
            final(self)@ == Self::v_update(old(self)@, start, end).0,
            r@ == Self::v_update(old(self)@, start, end).1,
    ;
}

/// The capability through which the engine emits versioned requests; the
/// surrounding application implements it on whatever transport it uses.
pub trait DataProvider {
    type Request;

    fn request(&self, request: Versioned<Self::Request>);
}

/// Hands `message`, tagged with the current version, to the provider, when
/// one is attached.
pub fn request_data<P: DataProvider>(provider: &Versioned<Option<P>>, message: P::Request) {
    match &provider.data {
        Some(p) => p.request(Versioned { version: provider.version, data: message }),
        None => (),
    }
}

/// The cursor vocabulary of the surrounding application, mapped one to one
/// onto controller cursor moves.
#[derive(Debug, Clone, Copy, PartialEq, Eq, Structural)]
pub enum CursorCommand {
    Next,
    Previous,
    PageUp,
    PageDown,
    First,
    Last,
}

} // verus!
