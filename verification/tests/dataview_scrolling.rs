use hedgehog::dataview::interactive::InteractiveList;
use hedgehog::dataview::linear::ListData;
use hedgehog::dataview::version::Versioned;
use hedgehog::dataview::{DataProvider, DataViewOptions, Keyed};
use std::cell::RefCell;
use std::collections::VecDeque;
use std::rc::Rc;

fn test_options() -> DataViewOptions {
    DataViewOptions { page_size: 4, load_margins: 1, scroll_margins: 1 }
}

struct MockDataProvider<T> {
    requests: Rc<RefCell<VecDeque<Versioned<T>>>>,
}

impl<T> MockDataProvider<T> {
    fn new() -> (Self, Rc<RefCell<VecDeque<Versioned<T>>>>) {
        let requests = Rc::new(RefCell::new(VecDeque::new()));
        let provider = MockDataProvider { requests: requests.clone() };
        (provider, requests)
    }
}

impl<T> DataProvider for MockDataProvider<T> {
    type Request = T;

    fn request(&self, request: Versioned<T>) {
        self.requests.borrow_mut().push_back(request);
    }
}

fn assert_list<T: PartialEq + std::fmt::Debug + Clone, P>(
    list: &InteractiveList<ListData<T>, P>,
    expected: &[(Option<Keyed<T>>, bool)],
) where
    P: DataProvider<Request = hedgehog::dataview::linear::ListDataRequest>,
{
    let rows = list.iter().unwrap();
    let got: Vec<(Option<Keyed<T>>, bool)> =
        rows.iter().map(|(item, selected)| (item.cloned(), *selected)).collect();
    assert_eq!(got.as_slice(), expected);
}

fn item(value: u8) -> (Option<Keyed<u8>>, bool) {
    (Some(Keyed::new(value as u64, value)), false)
}

fn sel(value: u8) -> (Option<Keyed<u8>>, bool) {
    (Some(Keyed::new(value as u64, value)), true)
}

fn items(values: &[u8]) -> Vec<Keyed<u8>> {
    values.iter().map(|&value| Keyed::new(value as u64, value)).collect()
}

#[test]
fn scrolling_list_data() {
    let mut scroll_list: InteractiveList<ListData<u8>, MockDataProvider<_>> =
        InteractiveList::new_with_options(4, test_options());
    assert!(scroll_list.iter().is_none());

    let (provider, requests) = MockDataProvider::new();
    scroll_list.set_provider(provider);
    assert!(scroll_list.iter().is_none());
    let request = requests.borrow_mut().pop_front().unwrap();
    assert!(requests.borrow().is_empty());
    requests.borrow_mut().clear();

    scroll_list.handle_data(request.with_data(items(&[1, 2, 3, 4, 5, 6])));
    let expected_forward = vec![
        [sel(1), item(2), item(3), item(4)],
        [item(1), sel(2), item(3), item(4)],
        [item(1), item(2), sel(3), item(4)],
        [item(2), item(3), sel(4), item(5)],
        [item(3), item(4), sel(5), item(6)],
        [item(3), item(4), item(5), sel(6)],
        [item(3), item(4), item(5), sel(6)],
    ];
    for expected in expected_forward {
        assert_list(&scroll_list, &expected);
        scroll_list.move_cursor(1);
    }
    assert_eq!(scroll_list.selection(), Some(&Keyed::new(6, 6)));

    let expected_backward = vec![
        [item(3), item(4), item(5), sel(6)],
        [item(3), item(4), sel(5), item(6)],
        [item(3), sel(4), item(5), item(6)],
        [item(2), sel(3), item(4), item(5)],
        [item(1), sel(2), item(3), item(4)],
        [sel(1), item(2), item(3), item(4)],
        [sel(1), item(2), item(3), item(4)],
    ];
    for expected in expected_backward {
        assert_list(&scroll_list, &expected);
        scroll_list.move_cursor(-1);
    }
    assert_eq!(scroll_list.selection(), Some(&Keyed::new(1, 1)));
}

#[test]
fn scrolling_fits_on_screen() {
    let mut scroll_list: InteractiveList<ListData<u8>, MockDataProvider<_>> =
        InteractiveList::new_with_options(4, test_options());
    assert!(scroll_list.iter().is_none());

    let (provider, requests) = MockDataProvider::new();
    scroll_list.set_provider(provider);
    assert!(scroll_list.iter().is_none());
    let request = requests.borrow_mut().pop_front().unwrap();
    assert!(requests.borrow().is_empty());
    requests.borrow_mut().clear();

    scroll_list.handle_data(request.with_data(items(&[1, 2, 3])));
    let expected_both_ways = vec![
        [sel(1), item(2), item(3)],
        [sel(1), item(2), item(3)],
        [item(1), sel(2), item(3)],
        [item(1), item(2), sel(3)],
        [item(1), item(2), sel(3)],
    ];
    for expected in expected_both_ways.iter().skip(1) {
        assert_list(&scroll_list, expected);
        scroll_list.move_cursor(1);
    }
    for expected in expected_both_ways.iter().rev().skip(1) {
        assert_list(&scroll_list, expected);
        scroll_list.move_cursor(-1);
    }
}

#[test]
fn stale_response_is_dropped() {
    let mut scroll_list: InteractiveList<ListData<u8>, MockDataProvider<_>> =
        InteractiveList::new_with_options(4, test_options());

    let (provider, requests) = MockDataProvider::new();
    scroll_list.set_provider(provider);
    let old_request = requests.borrow_mut().pop_front().unwrap();

    let (provider, requests) = MockDataProvider::new();
    scroll_list.set_provider(provider);
    let new_request = requests.borrow_mut().pop_front().unwrap();

    let changed = scroll_list.handle_data(old_request.with_data(items(&[9, 9, 9])));
    assert!(!changed);
    assert!(scroll_list.iter().is_none());

    let changed = scroll_list.handle_data(new_request.with_data(items(&[1, 2])));
    assert!(changed);
    assert_list(&scroll_list, &[sel(1), item(2)]);
}

#[test]
fn window_resize_keeps_selection() {
    let mut scroll_list: InteractiveList<ListData<u8>, MockDataProvider<_>> =
        InteractiveList::new_with_options(4, test_options());

    let (provider, requests) = MockDataProvider::new();
    scroll_list.set_provider(provider);
    let request = requests.borrow_mut().pop_front().unwrap();
    scroll_list.handle_data(request.with_data(items(&[1, 2, 3, 4, 5, 6])));

    scroll_list.move_cursor(4);
    assert_list(&scroll_list, &[item(3), item(4), sel(5), item(6)]);

    // a two-row window cannot honor a margin row; the cursor stays visible
    scroll_list.set_window_size(2);
    assert_list(&scroll_list, &[item(4), sel(5)]);
    assert_eq!(scroll_list.selection(), Some(&Keyed::new(5, 5)));
}

#[test]
fn redelivery_never_moves_a_small_window() {
    // a window smaller than the configured margins ask for: the margins are
    // capped, so revalidation on every data arrival is a fixed point
    let mut scroll_list: InteractiveList<ListData<u8>, MockDataProvider<_>> =
        InteractiveList::new_with_options(
            4,
            DataViewOptions { page_size: 8, load_margins: 3, scroll_margins: 3 },
        );

    let (provider, requests) = MockDataProvider::new();
    scroll_list.set_provider(provider);
    let request = requests.borrow_mut().pop_front().unwrap();
    scroll_list.handle_data(request.with_data(items(&[0, 1, 2, 3, 4, 5, 6, 7, 8, 9, 10, 11])));
    scroll_list.move_cursor(10);

    let once: Vec<(Option<Keyed<u8>>, bool)> = scroll_list
        .iter()
        .unwrap()
        .iter()
        .map(|(item, selected)| (item.cloned(), *selected))
        .collect();
    scroll_list.handle_data(request.with_data(items(&[0, 1, 2, 3, 4, 5, 6, 7, 8, 9, 10, 11])));
    let twice: Vec<(Option<Keyed<u8>>, bool)> = scroll_list
        .iter()
        .unwrap()
        .iter()
        .map(|(item, selected)| (item.cloned(), *selected))
        .collect();
    assert_eq!(once, twice);
}
