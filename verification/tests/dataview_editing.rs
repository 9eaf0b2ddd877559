use hedgehog::dataview::interactive::InteractiveList;
use hedgehog::dataview::linear::{ListData, ListDataRequest};
use hedgehog::dataview::version::Versioned;
use hedgehog::dataview::{DataProvider, DataViewOptions, Keyed};
use std::cell::RefCell;
use std::collections::VecDeque;
use std::rc::Rc;

fn test_options() -> DataViewOptions {
    DataViewOptions { page_size: 4, load_margins: 1, scroll_margins: 1 }
}

struct MockDataProvider<T> {
    requests: Rc<RefCell<VecDeque<Versioned<T>>>>,
}

impl<T> MockDataProvider<T> {
    fn new() -> (Self, Rc<RefCell<VecDeque<Versioned<T>>>>) {
        let requests = Rc::new(RefCell::new(VecDeque::new()));
        let provider = MockDataProvider { requests: requests.clone() };
        (provider, requests)
    }
}

impl<T> DataProvider for MockDataProvider<T> {
    type Request = T;

    fn request(&self, request: Versioned<T>) {
        self.requests.borrow_mut().push_back(request);
    }
}

fn assert_list<P>(
    list: &InteractiveList<ListData<&'static str>, P>,
    expected: &[(Option<Keyed<&'static str>>, bool)],
) where
    P: DataProvider<Request = ListDataRequest>,
{
    let rows = list.iter().unwrap();
    let got: Vec<(Option<Keyed<&'static str>>, bool)> =
        rows.iter().map(|(item, selected)| (item.cloned(), *selected)).collect();
    assert_eq!(got.as_slice(), expected);
}

fn item(id: u64, value: &'static str) -> (Option<Keyed<&'static str>>, bool) {
    (Some(Keyed::new(id, value)), false)
}

fn sel(id: u64, value: &'static str) -> (Option<Keyed<&'static str>>, bool) {
    (Some(Keyed::new(id, value)), true)
}

#[test]
fn editing_data() {
    let mut scroll_list: InteractiveList<ListData<&'static str>, MockDataProvider<_>> =
        InteractiveList::new_with_options(10, test_options());

    let (provider, requests) = MockDataProvider::new();
    scroll_list.set_provider(provider);
    let request = requests.borrow_mut().pop_front().unwrap();
    scroll_list.handle_data(request.with_data(vec![
        Keyed::new(5, "five"),
        Keyed::new(3, "three"),
        Keyed::new(7, "seven"),
        Keyed::new(1, "one"),
    ]));

    scroll_list.add_item(Keyed::new(8, "eight"));
    assert_list(
        &scroll_list,
        &[
            sel(5, "five"),
            item(3, "three"),
            item(7, "seven"),
            item(1, "one"),
            item(8, "eight"),
        ],
    );

    scroll_list.replace_item(Keyed::new(3, "three v2"));
    assert_list(
        &scroll_list,
        &[
            sel(5, "five"),
            item(3, "three v2"),
            item(7, "seven"),
            item(1, "one"),
            item(8, "eight"),
        ],
    );

    scroll_list.remove_item(7);
    assert_list(
        &scroll_list,
        &[sel(5, "five"), item(3, "three v2"), item(1, "one"), item(8, "eight")],
    );
}

#[test]
fn deleting_items() {
    let mut scroll_list: InteractiveList<ListData<&'static str>, MockDataProvider<_>> =
        InteractiveList::new_with_options(10, test_options());

    let (provider, requests) = MockDataProvider::new();
    scroll_list.set_provider(provider);
    let request = requests.borrow_mut().pop_front().unwrap();
    scroll_list.handle_data(request.with_data(vec![
        Keyed::new(1, "a"),
        Keyed::new(2, "b"),
        Keyed::new(3, "c"),
        Keyed::new(4, "d"),
        Keyed::new(5, "e"),
        Keyed::new(6, "f"),
        Keyed::new(7, "g"),
    ]));
    scroll_list.move_cursor(3);

    assert_list(
        &scroll_list,
        &[
            item(1, "a"),
            item(2, "b"),
            item(3, "c"),
            sel(4, "d"),
            item(5, "e"),
            item(6, "f"),
            item(7, "g"),
        ],
    );

    scroll_list.remove_item(6);
    assert_list(
        &scroll_list,
        &[item(1, "a"), item(2, "b"), item(3, "c"), sel(4, "d"), item(5, "e"), item(7, "g")],
    );

    scroll_list.remove_item(3);
    assert_list(
        &scroll_list,
        &[item(1, "a"), item(2, "b"), sel(4, "d"), item(5, "e"), item(7, "g")],
    );

    scroll_list.remove_item(4);
    assert_list(&scroll_list, &[item(1, "a"), item(2, "b"), sel(5, "e"), item(7, "g")]);

    scroll_list.remove_item(7);
    assert_list(&scroll_list, &[item(1, "a"), item(2, "b"), sel(5, "e")]);

    scroll_list.remove_item(5);
    assert_list(&scroll_list, &[item(1, "a"), sel(2, "b")]);

    scroll_list.remove_item(2);
    assert_list(&scroll_list, &[sel(1, "a")]);

    scroll_list.remove_item(1);
    assert_list(&scroll_list, &[]);
    assert_eq!(scroll_list.selection(), None);

    scroll_list.add_item(Keyed::new(8, "h"));
    assert_list(&scroll_list, &[sel(8, "h")]);
}

#[test]
fn adding_an_existing_id_replaces() {
    let mut scroll_list: InteractiveList<ListData<&'static str>, MockDataProvider<_>> =
        InteractiveList::new_with_options(10, test_options());

    let (provider, requests) = MockDataProvider::new();
    scroll_list.set_provider(provider);
    let request = requests.borrow_mut().pop_front().unwrap();
    scroll_list.handle_data(request.with_data(vec![Keyed::new(1, "a"), Keyed::new(2, "b")]));

    scroll_list.add_item(Keyed::new(2, "b v2"));
    assert_list(&scroll_list, &[sel(1, "a"), item(2, "b v2")]);

    scroll_list.replace_item(Keyed::new(9, "missing"));
    assert_list(&scroll_list, &[sel(1, "a"), item(2, "b v2")]);

    scroll_list.remove_item(9);
    assert_list(&scroll_list, &[sel(1, "a"), item(2, "b v2")]);
}
