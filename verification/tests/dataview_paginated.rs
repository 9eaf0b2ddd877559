use hedgehog::dataview::interactive::InteractiveList;
use hedgehog::dataview::paginated::{
    Page, PaginatedData, PaginatedDataMessage, PaginatedDataRequest,
};
use hedgehog::dataview::version::Versioned;
use hedgehog::dataview::{DataProvider, DataViewOptions, Keyed};
use std::cell::RefCell;
use std::collections::VecDeque;
use std::rc::Rc;

fn test_options() -> DataViewOptions {
    DataViewOptions { page_size: 4, load_margins: 1, scroll_margins: 1 }
}

struct MockDataProvider<T> {
    requests: Rc<RefCell<VecDeque<Versioned<T>>>>,
}

impl<T> MockDataProvider<T> {
    fn new() -> (Self, Rc<RefCell<VecDeque<Versioned<T>>>>) {
        let requests = Rc::new(RefCell::new(VecDeque::new()));
        let provider = MockDataProvider { requests: requests.clone() };
        (provider, requests)
    }
}

impl<T> DataProvider for MockDataProvider<T> {
    type Request = T;

    fn request(&self, request: Versioned<T>) {
        self.requests.borrow_mut().push_back(request);
    }
}

fn assert_list<P>(
    list: &InteractiveList<PaginatedData<u8>, P>,
    expected: &[(Option<Keyed<u8>>, bool)],
) where
    P: DataProvider<Request = PaginatedDataRequest>,
{
    let rows = list.iter().unwrap();
    let got: Vec<(Option<Keyed<u8>>, bool)> =
        rows.iter().map(|(item, selected)| (item.cloned(), *selected)).collect();
    assert_eq!(got.as_slice(), expected);
}

fn item(value: u8) -> (Option<Keyed<u8>>, bool) {
    (Some(Keyed::new(value as u64, value)), false)
}

fn sel(value: u8) -> (Option<Keyed<u8>>, bool) {
    (Some(Keyed::new(value as u64, value)), true)
}

fn no_item() -> (Option<Keyed<u8>>, bool) {
    (None, false)
}

fn no_item_selected() -> (Option<Keyed<u8>>, bool) {
    (None, true)
}

fn items(values: &[u8]) -> Vec<Keyed<u8>> {
    values.iter().map(|&value| Keyed::new(value as u64, value)).collect()
}

#[test]
fn initializing_paginated_list() {
    let mut scroll_list: InteractiveList<PaginatedData<u8>, MockDataProvider<_>> =
        InteractiveList::new_with_options(6, test_options());
    assert!(scroll_list.iter().is_none());

    let (provider, requests) = MockDataProvider::new();
    scroll_list.set_provider(provider);
    assert!(scroll_list.iter().is_none());

    let request = requests.borrow_mut().pop_front().unwrap();
    assert_eq!(request.as_inner(), &PaginatedDataRequest::Size);
    scroll_list.handle_data(request.with_data(PaginatedDataMessage::Size(20)));

    assert_list(
        &scroll_list,
        &[no_item_selected(), no_item(), no_item(), no_item(), no_item(), no_item()],
    );

    assert_eq!(
        requests.borrow_mut().pop_front().unwrap().into_inner(),
        PaginatedDataRequest::Page(Page::new(0, 4))
    );
    assert_eq!(
        requests.borrow_mut().pop_front().unwrap().into_inner(),
        PaginatedDataRequest::Page(Page::new(1, 4))
    );

    scroll_list.handle_data(
        request.with_data(PaginatedDataMessage::Page { index: 1, values: items(&[4, 5, 6, 7]) }),
    );
    assert_list(
        &scroll_list,
        &[no_item_selected(), no_item(), no_item(), no_item(), item(4), item(5)],
    );

    scroll_list.handle_data(
        request.with_data(PaginatedDataMessage::Page { index: 0, values: items(&[0, 1, 2, 3]) }),
    );
    assert_list(&scroll_list, &[sel(0), item(1), item(2), item(3), item(4), item(5)]);

    scroll_list.move_cursor(6);
    assert_list(&scroll_list, &[item(2), item(3), item(4), item(5), sel(6), item(7)]);
    assert_eq!(
        requests.borrow_mut().pop_front().unwrap().into_inner(),
        PaginatedDataRequest::Page(Page::new(2, 4))
    );

    scroll_list.move_cursor(1);
    assert!(requests.borrow().is_empty());
    assert_list(&scroll_list, &[item(3), item(4), item(5), item(6), sel(7), no_item()]);
}

#[test]
fn creating_and_dropping_pages() {
    let mut options = test_options();
    options.page_size = 3;
    let mut scroll_list: InteractiveList<PaginatedData<u8>, MockDataProvider<_>> =
        InteractiveList::new_with_options(4, options);

    let (provider, requests) = MockDataProvider::new();
    scroll_list.set_provider(provider);
    assert!(scroll_list.iter().is_none());

    let request = requests.borrow_mut().pop_front().unwrap();
    assert_eq!(request.as_inner(), &PaginatedDataRequest::Size);
    scroll_list.handle_data(request.with_data(PaginatedDataMessage::Size(100)));

    let scrolling_data = vec![
        (0, 2, [sel(0), item(0), item(0), item(1)]),
        (0, 2, [item(0), sel(0), item(0), item(1)]),
        (0, 2, [item(0), item(0), sel(0), item(1)]),
        (0, 2, [item(0), item(0), sel(1), item(1)]),
        (0, 3, [item(0), item(1), sel(1), item(1)]),
        (0, 3, [item(1), item(1), sel(1), item(2)]),
        (1, 2, [item(1), item(1), sel(2), item(2)]),
        (1, 3, [item(1), item(2), sel(2), item(2)]),
        (1, 3, [item(2), item(2), sel(2), item(3)]),
        (2, 2, [item(2), item(2), sel(3), item(3)]),
    ];
    for (page_index, offset, expected) in scrolling_data {
        loop {
            let popped = requests.borrow_mut().pop_front();
            let request = match popped {
                Some(request) => request,
                None => break,
            };
            match request.as_inner() {
                PaginatedDataRequest::Size => panic!(),
                PaginatedDataRequest::Page(page) => {
                    let values = vec![Keyed::new(page.index as u64, page.index as u8); page.size];
                    scroll_list.handle_data(
                        request.with_data(PaginatedDataMessage::Page { index: page.index, values }),
                    );
                }
            }
        }
        assert_list(&scroll_list, &expected);
        let (actual_index, actual_offset) = scroll_list.data.pages_range();
        assert_eq!(page_index, actual_index);
        assert_eq!(offset, actual_offset);

        scroll_list.move_cursor(1);
    }

    let scrolling_backwards_data = vec![
        (2, 3, [item(2), item(3), sel(3), item(3)]),
        (2, 3, [item(2), sel(3), item(3), item(3)]),
        (2, 2, [item(2), sel(2), item(3), item(3)]),
        (1, 3, [item(2), sel(2), item(2), item(3)]),
        (1, 3, [item(1), sel(2), item(2), item(2)]),
        (1, 2, [item(1), sel(1), item(2), item(2)]),
        (0, 3, [item(1), sel(1), item(1), item(2)]),
        (0, 3, [item(0), sel(1), item(1), item(1)]),
        (0, 2, [item(0), sel(0), item(1), item(1)]),
        (0, 2, [item(0), sel(0), item(0), item(1)]),
        (0, 2, [sel(0), item(0), item(0), item(1)]),
    ];
    for (page_index, offset, expected) in scrolling_backwards_data {
        loop {
            let popped = requests.borrow_mut().pop_front();
            let request = match popped {
                Some(request) => request,
                None => break,
            };
            match request.as_inner() {
                PaginatedDataRequest::Size => panic!(),
                PaginatedDataRequest::Page(page) => {
                    let values = vec![Keyed::new(page.index as u64, page.index as u8); page.size];
                    scroll_list.handle_data(
                        request.with_data(PaginatedDataMessage::Page { index: page.index, values }),
                    );
                }
            }
        }
        assert_list(&scroll_list, &expected);
        let (actual_index, actual_offset) = scroll_list.data.pages_range();
        assert_eq!(page_index, actual_index);
        assert_eq!(offset, actual_offset);

        scroll_list.move_cursor(-1);
    }
}

#[test]
fn page_delivery_is_idempotent() {
    let mut scroll_list: InteractiveList<PaginatedData<u8>, MockDataProvider<_>> =
        InteractiveList::new_with_options(6, test_options());

    let (provider, requests) = MockDataProvider::new();
    scroll_list.set_provider(provider);
    let request = requests.borrow_mut().pop_front().unwrap();
    scroll_list.handle_data(request.with_data(PaginatedDataMessage::Size(20)));

    scroll_list.handle_data(
        request.with_data(PaginatedDataMessage::Page { index: 0, values: items(&[0, 1, 2, 3]) }),
    );
    let once: Vec<(Option<Keyed<u8>>, bool)> = scroll_list
        .iter()
        .unwrap()
        .iter()
        .map(|(item, selected)| (item.cloned(), *selected))
        .collect();

    scroll_list.handle_data(
        request.with_data(PaginatedDataMessage::Page { index: 0, values: items(&[0, 1, 2, 3]) }),
    );
    let twice: Vec<(Option<Keyed<u8>>, bool)> = scroll_list
        .iter()
        .unwrap()
        .iter()
        .map(|(item, selected)| (item.cloned(), *selected))
        .collect();

    assert_eq!(once, twice);
    assert_eq!(scroll_list.data.pages_range(), (0, 2));
}

#[test]
fn page_redelivery_with_tight_window_is_idempotent() {
    // margins larger than the window can honor: the effective margin is
    // capped, so a repeated page response moves neither window nor cursor
    // and requests nothing
    let mut scroll_list: InteractiveList<PaginatedData<u8>, MockDataProvider<_>> =
        InteractiveList::new_with_options(
            4,
            DataViewOptions { page_size: 8, load_margins: 3, scroll_margins: 3 },
        );

    let (provider, requests) = MockDataProvider::new();
    scroll_list.set_provider(provider);
    let request = requests.borrow_mut().pop_front().unwrap();
    scroll_list.handle_data(request.with_data(PaginatedDataMessage::Size(100)));
    scroll_list.move_cursor(10);
    requests.borrow_mut().clear();

    let page: Vec<Keyed<u8>> = (8..16).map(|i| Keyed::new(i as u64, i as u8)).collect();
    scroll_list.handle_data(
        request.with_data(PaginatedDataMessage::Page { index: 1, values: page.clone() }),
    );
    let start_once = scroll_list.window_start;
    let range_once = scroll_list.data.pages_range();
    let once: Vec<(Option<Keyed<u8>>, bool)> = scroll_list
        .iter()
        .unwrap()
        .iter()
        .map(|(item, selected)| (item.cloned(), *selected))
        .collect();

    scroll_list.handle_data(
        request.with_data(PaginatedDataMessage::Page { index: 1, values: page }),
    );
    let twice: Vec<(Option<Keyed<u8>>, bool)> = scroll_list
        .iter()
        .unwrap()
        .iter()
        .map(|(item, selected)| (item.cloned(), *selected))
        .collect();

    assert_eq!(once, twice);
    assert_eq!(scroll_list.window_start, start_once);
    assert_eq!(scroll_list.data.pages_range(), range_once);
    assert!(requests.borrow().is_empty());
}

#[test]
fn no_redundant_page_requests() {
    let mut scroll_list: InteractiveList<PaginatedData<u8>, MockDataProvider<_>> =
        InteractiveList::new_with_options(6, test_options());

    let (provider, requests) = MockDataProvider::new();
    scroll_list.set_provider(provider);
    let request = requests.borrow_mut().pop_front().unwrap();
    scroll_list.handle_data(request.with_data(PaginatedDataMessage::Size(20)));

    assert_eq!(requests.borrow().len(), 2);
    requests.borrow_mut().clear();

    // the required range does not change, so nothing may be requested again,
    // whether the pages are still outstanding or already loaded
    scroll_list.move_cursor(0);
    assert!(requests.borrow().is_empty());

    scroll_list.handle_data(
        request.with_data(PaginatedDataMessage::Page { index: 0, values: items(&[0, 1, 2, 3]) }),
    );
    scroll_list.move_cursor(0);
    assert!(requests.borrow().is_empty());

    assert_eq!(scroll_list.data.pages_needed_for(0, 8), Vec::<usize>::new());
    assert_eq!(scroll_list.data.pages_needed_for(0, 12), vec![2]);
}

#[test]
fn smaller_size_resets_the_cache() {
    let mut scroll_list: InteractiveList<PaginatedData<u8>, MockDataProvider<_>> =
        InteractiveList::new_with_options(4, test_options());

    let (provider, requests) = MockDataProvider::new();
    scroll_list.set_provider(provider);
    let request = requests.borrow_mut().pop_front().unwrap();
    scroll_list.handle_data(request.with_data(PaginatedDataMessage::Size(100)));
    scroll_list.handle_command(hedgehog::dataview::CursorCommand::Last);
    assert_eq!(scroll_list.data.pages_range(), (23, 2));
    requests.borrow_mut().clear();

    // the authoritative size shrinks below the retained pages: the cache
    // starts over, the cursor is clamped, and the needed pages are requested
    scroll_list.handle_data(request.with_data(PaginatedDataMessage::Size(5)));
    assert_eq!(scroll_list.data.pages_range(), (0, 2));
    assert_eq!(
        requests.borrow_mut().pop_front().unwrap().into_inner(),
        PaginatedDataRequest::Page(Page::new(0, 4))
    );
    assert_eq!(
        requests.borrow_mut().pop_front().unwrap().into_inner(),
        PaginatedDataRequest::Page(Page::new(1, 4))
    );
    assert_list(&scroll_list, &[no_item(), no_item(), no_item(), no_item_selected()]);
}

#[test]
fn late_page_for_evicted_range_is_discarded() {
    let mut scroll_list: InteractiveList<PaginatedData<u8>, MockDataProvider<_>> =
        InteractiveList::new_with_options(4, test_options());

    let (provider, requests) = MockDataProvider::new();
    scroll_list.set_provider(provider);
    let request = requests.borrow_mut().pop_front().unwrap();
    scroll_list.handle_data(request.with_data(PaginatedDataMessage::Size(100)));
    requests.borrow_mut().clear();

    // jump to the end of the list; the pages near the start are evicted
    scroll_list.handle_command(hedgehog::dataview::CursorCommand::Last);
    let range_before = scroll_list.data.pages_range();
    assert!(range_before.0 > 0);

    let changed = scroll_list.handle_data(
        request.with_data(PaginatedDataMessage::Page { index: 0, values: items(&[0, 1, 2, 3]) }),
    );
    assert!(!changed);
    assert_eq!(scroll_list.data.pages_range(), range_before);
}
