use finance_manager::overview::{
    Action, BillAction, BillLink, BillMessage, BillOverview, Message, Overview,
};
use finance_manager::table::InnerMessage;

#[derive(Debug, PartialEq)]
enum Link {
    Open(u64),
    Create,
}

#[test]
fn an_overview_fills_and_refreshes_its_table() {
    let mut overview: Overview<u64> = Overview::new(vec![], vec![0, 1]);
    assert!(matches!(overview.update::<Link>(Message::Initialize((0..120).collect())), Action::Nothing));
    assert_eq!(overview.table().max_page(), 2);
    overview.update::<Link>(Message::Table(InnerMessage::ChangePageBy(2)));
    assert_eq!(overview.table().current_page(), 2);
    overview.update::<Link>(Message::Reload((0..70).collect()));
    assert_eq!(overview.table().current_page(), 1);
    overview.update::<Link>(Message::Initialize((0..70).collect()));
    assert_eq!(overview.table().current_page(), 0);
}

#[test]
fn an_overview_passes_links_on() {
    let mut overview: Overview<u64> = Overview::new(vec![3, 1, 2], vec![0]);
    match overview.update(Message::Navigate(Link::Open(3))) {
        Action::Navigate(link) => assert_eq!(link, Link::Open(3)),
        _ => panic!("a link is followed"),
    }
    match overview.update(Message::Table(InnerMessage::OuterMessage(Box::new(Message::Navigate(Link::Create))))) {
        Action::Navigate(link) => assert_eq!(link, Link::Create),
        _ => panic!("a link in a cell is followed"),
    }
    match overview.update::<Link>(Message::Table(InnerMessage::SortByColumn(0))) {
        Action::SortTable { column, reverse } => overview.sort_table(column, reverse, vec![1, 2, 0]),
        _ => panic!("the table asks for an order"),
    }
    assert_eq!(overview.table().items(), &vec![1, 2, 3]);
}

#[test]
fn the_bill_overview_switches_between_open_and_closed_bills() {
    let mut bills: BillOverview<&str> = BillOverview::new(vec![], false);
    assert!(!bills.closed());
    assert_eq!(bills.update(BillMessage::ViewClosed), BillAction::Fetch { closed: true });
    bills.update(BillMessage::Initialize(vec!["old"], true));
    assert!(bills.closed());
    assert_eq!(bills.table().items(), &vec!["old"]);
    assert_eq!(bills.update(BillMessage::BackToUnclosed), BillAction::Fetch { closed: false });
    bills.update(BillMessage::Reload(vec!["a", "b"], false));
    assert!(!bills.closed());
    assert_eq!(bills.update(BillMessage::Link(BillLink::ViewBill(4))), BillAction::ViewBill(4));
    assert_eq!(bills.update(BillMessage::Link(BillLink::NewBill)), BillAction::NewBill);
    assert_eq!(
        bills.update(BillMessage::Table(InnerMessage::OuterMessage(Box::new(Message::Navigate(BillLink::ViewBill(2)))))),
        BillAction::ViewBill(2)
    );
}
