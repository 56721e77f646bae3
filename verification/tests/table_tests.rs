use finance_manager::table::{identity_order, pop_front_slice, Action, InnerMessage, State};

fn table(n: usize, page_size: usize) -> State<usize, ()> {
    State::new((0..n).collect(), ()).page_size(page_size)
}

#[test]
fn pages_of_a_table() {
    let t = table(23, 10);
    assert_eq!(t.max_page(), 2);
    assert_eq!(t.current_page(), 0);
    assert_eq!(t.page_range(), (0, 10));
    assert!(!t.has_previous_page());
    assert!(t.has_next_page());
    let mut last = table(23, 10);
    last.perform::<()>(InnerMessage::ChangePageBy(2));
    assert_eq!(last.page_range(), (20, 23));
    assert!(!last.has_next_page());
    let mut full = table(20, 10);
    assert_eq!(full.max_page(), 2);
    full.perform::<()>(InnerMessage::ChangePageBy(2));
    assert_eq!(full.page_range(), (20, 20));
    assert_eq!(table(0, 50).max_page(), 0);
}

#[test]
fn moving_between_pages() {
    let mut t = table(23, 10);
    assert!(matches!(t.perform::<()>(InnerMessage::ChangePageBy(1)), Action::ScrollToTop));
    assert_eq!(t.current_page(), 1);
    assert!(matches!(t.perform::<()>(InnerMessage::ChangePageBy(5)), Action::Nothing));
    assert_eq!(t.current_page(), 1);
    assert!(matches!(t.perform::<()>(InnerMessage::ChangePageBy(-7)), Action::ScrollToTop));
    assert_eq!(t.current_page(), 0);
    assert!(matches!(t.perform::<()>(InnerMessage::ScrollToTop), Action::ScrollToTop));
    match t.perform(InnerMessage::OuterMessage(Box::new(42))) {
        Action::OuterMessage(m) => assert_eq!(m, 42),
        _ => panic!("a cell's message is passed on"),
    }
}

#[test]
fn sorting_by_a_column() {
    let mut t = State::new(vec!["b", "c", "a"], ()).sort_by().sortable_columns(vec![0]);
    assert!(t.is_sortable(0));
    assert!(!t.is_sortable(1));
    match t.perform::<()>(InnerMessage::SortByColumn(0)) {
        Action::Sort { column, reverse } => {
            assert_eq!((column, reverse), (0, false));
            t.sort(column, reverse, vec![2, 0, 1]);
        }
        _ => panic!("a table with a comparator asks for an order"),
    }
    assert_eq!(t.items(), &vec!["a", "b", "c"]);
    assert_eq!(t.sort_state(), (Some(0), false));
    match t.perform::<()>(InnerMessage::SortByColumn(0)) {
        Action::Sort { column, reverse } => assert_eq!((column, reverse), (0, true)),
        _ => panic!("sorting again reverses"),
    }
    let mut plain = State::new(vec![3, 1], ());
    assert!(matches!(plain.perform::<()>(InnerMessage::SortByColumn(0)), Action::ScrollToTop));
    plain.sort(0, false, vec![1, 0]);
    assert_eq!(plain.items(), &vec![3, 1]);
}

#[test]
fn replacing_and_editing_items() {
    let mut t = table(35, 10);
    t.perform::<()>(InnerMessage::ChangePageBy(3));
    assert_eq!(t.current_page(), 3);
    t.edit_items((0..12).collect());
    assert_eq!(t.current_page(), 1);
    t.set_items((0..40).collect());
    assert_eq!(t.current_page(), 0);
    let taken = t.take_items();
    assert_eq!(taken.len(), 40);
    assert!(t.items().is_empty());
    t.set_context(());
}

#[test]
fn front_slices() {
    let mut v = vec![1, 2, 3, 4, 5];
    assert_eq!(pop_front_slice(&mut v, 2), vec![1, 2]);
    assert_eq!(v, vec![3, 4, 5]);
    assert_eq!(pop_front_slice(&mut v, 3), vec![3, 4, 5]);
    assert!(v.is_empty());
    assert!(pop_front_slice(&mut v, 0).is_empty());
    assert_eq!(identity_order(4), vec![0, 1, 2, 3]);
}
