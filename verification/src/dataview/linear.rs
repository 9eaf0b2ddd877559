//! The fully materialized backing store: the whole ordered item sequence is
//! fetched once, after which reads are direct and edits are in place.

use vstd::prelude::*;

use crate::dataview::{
    spec_index_with_id, index_with_id, DataView, DataViewOptions, Keyed,
};
use vstd::pervasive::VecAdditionalExecFns;

verus! {

/// The single request this store ever emits: fetch the complete list.
#[derive(Debug, Clone, Copy, PartialEq, Eq, Structural)]
pub struct ListDataRequest;

/// A list that is absent until the initial full-load response replaces it.
#[derive(Debug, Clone)]
pub struct ListData<T> {
    pub data: Option<Vec<Keyed<T>>>,
}

impl<T> View for ListData<T> {
    type V = Option<Seq<Keyed<T>>>;

    open spec fn view(&self) -> Option<Seq<Keyed<T>>> {
        match self.data {
            Some(items) => Some(items@),
            None => None,
        }
    }
}

impl<T> DataView for ListData<T> {
    type Item = Keyed<T>;

    type Request = ListDataRequest;

    type Message = Vec<Keyed<T>>;

    open spec fn v_wf(v: Option<Seq<Keyed<T>>>) -> bool {
        true
    }

    open spec fn v_size(v: Option<Seq<Keyed<T>>>) -> Option<usize> {
        match v {
            Some(items) => Some(items.len() as usize),
            None => None,
        }
    }

    open spec fn v_item_at(v: Option<Seq<Keyed<T>>>, i: int) -> Option<Keyed<T>> {
        match v {
            Some(items) => if 0 <= i < items.len() {
                Some(items[i])
            } else {
                None
            },
            None => None,
        }
    }

    open spec fn v_handle(v: Option<Seq<Keyed<T>>>, msg: Vec<Keyed<T>>) -> (
        Option<Seq<Keyed<T>>>,
        bool,
    ) {
        (Some(msg@), true)
    }

    open spec fn v_update(v: Option<Seq<Keyed<T>>>, start: usize, end: usize) -> (
        Option<Seq<Keyed<T>>>,
        Seq<ListDataRequest>,
    ) {
        (v, Seq::empty())
    }

    open spec fn v_init(options: DataViewOptions) -> Option<Seq<Keyed<T>>> {
        None
    }

    open spec fn spec_initial_request() -> ListDataRequest {
        ListDataRequest
    }

    fn init(options: &DataViewOptions) -> (r: Self) {
        ListData { data: None }
    }

    fn initial_request() -> (r: ListDataRequest) {
        ListDataRequest
    }

    fn size(&self) -> (r: Option<usize>) {
        match &self.data {
            Some(items) => Some(items.len()),
            None => None,
        }
    }

    fn has_data(&self) -> (r: bool) {
        self.data.is_some()
    }

    fn item_at(&self, index: usize) -> (r: Option<&Keyed<T>>) {
        match &self.data {
            Some(items) => if index < items.len() {
                Some(&items[index])
            } else {
                None
            },
            None => None,
        }
    }

    fn handle(&mut self, msg: Vec<Keyed<T>>) -> (r: bool) {
        self.data = Some(msg);
        true
    }

    fn update(&mut self, start: usize, end: usize) -> (r: Vec<ListDataRequest>) {
        Vec::new()
    }
}

/// The list and the former position of the removed item, after the item
/// with the given id is removed; an unknown id, and a list that has not
/// loaded yet, stay as they are.
pub open spec fn spec_list_remove<T>(v: Option<Seq<Keyed<T>>>, id: u64) -> (
    Option<Seq<Keyed<T>>>,
    Option<int>,
) {
    match v {
        Some(items) => match spec_index_with_id(items, id) {
            Some(i) => (Some(items.remove(i)), Some(i)),
            None => (v, None),
        },
        None => (v, None),
    }
}

/// The list after an item is added: appended, unless its id is already
/// present, in which case the holder of the id is replaced in place.
pub open spec fn spec_list_add<T>(v: Option<Seq<Keyed<T>>>, item: Keyed<T>) -> Option<
    Seq<Keyed<T>>,
> {
    match v {
        Some(items) => match spec_index_with_id(items, item.id) {
            Some(i) => Some(items.update(i, item)),
            None => Some(items.push(item)),
        },
        None => None,
    }
}

/// The list after the item with a matching id is replaced in place; an
/// unknown id leaves the list as it is.
pub open spec fn spec_list_replace<T>(v: Option<Seq<Keyed<T>>>, item: Keyed<T>) -> Option<
    Seq<Keyed<T>>,
> {
    match v {
        Some(items) => match spec_index_with_id(items, item.id) {
            Some(i) => Some(items.update(i, item)),
            None => v,
        },
        None => None,
    }
}

impl<T> ListData<T> {
    /// Removes the item with the given id, if present, and returns the
    /// position it held; unknown ids, and a store that has not loaded yet,
    /// are left untouched.
    pub fn remove(&mut self, id: u64) -> (r: Option<usize>)
        ensures
            final(self)@ == spec_list_remove(old(self)@, id).0,
            match spec_list_remove(old(self)@, id).1 {
                Some(i) => r == Some(i as usize),
                None => r is None,
            },
    {
        match &mut self.data {
            Some(items) => match index_with_id(items, id) {
                Some(index) => {
                    proof {
                        crate::dataview::lemma_index_with_id_properties(items@, id);
                    }
                    items.remove(index);
                    Some(index)
                },
                None => None,
            },
            None => None,
        }
    }

    /// Adds an item: appended at the end, unless an item with the same id is
    /// already present, in which case it is replaced in place.
    pub fn add(&mut self, item: Keyed<T>)
        ensures
            final(self)@ == spec_list_add(old(self)@, item),
    {
        match &mut self.data {
            Some(items) => match index_with_id(items, item.id) {
                Some(index) => {
                    proof {
                        crate::dataview::lemma_index_with_id_properties(items@, item.id);
                    }
                    items.set(index, item);
                },
                None => items.push(item),
            },
            None => (),
        }
    }

    /// Replaces the item whose id matches, preserving its position; unknown
    /// ids are ignored.
    pub fn replace(&mut self, item: Keyed<T>)
        ensures
            final(self)@ == spec_list_replace(old(self)@, item),
    {
        match &mut self.data {
            Some(items) => match index_with_id(items, item.id) {
                Some(index) => {
                    proof {
                        crate::dataview::lemma_index_with_id_properties(items@, item.id);
                    }
                    items.set(index, item);
                },
                None => (),
            },
            None => (),
        }
    }
}

} // verus!
