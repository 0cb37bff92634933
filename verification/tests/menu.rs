use bill_manager::bill::Bills;
use bill_manager::menu::{add_bill, view_bills, MainMenu};

#[test]
fn one_selects_add_bill() {
    assert_eq!(MainMenu::from_str("1"), Some(MainMenu::AddBill));
}

#[test]
fn two_selects_view_bill() {
    assert_eq!(MainMenu::from_str("2"), Some(MainMenu::ViewBill));
}

#[test]
fn empty_entry_selects_nothing() {
    assert_eq!(MainMenu::from_str(""), None);
}

#[test]
fn other_entries_select_nothing() {
    for entry in ["0", "3", "11", "12", "21", "1 ", " 1", "2\n", "one", "add", "١", "q"] {
        assert_eq!(MainMenu::from_str(entry), None, "entry {:?}", entry);
    }
}

#[test]
fn banner_has_a_blank_line_a_title_and_two_choices() {
    assert_eq!(MainMenu::show(), vec!["", " == Bill Manager ==", "1. Add Bill", "2. View Bill"]);
}

#[test]
fn add_bill_stores_the_entry_and_the_amount() {
    let mut bills = Bills::new();
    assert!(add_bill(&mut bills, "  Rent \n", Some(1200.50f64.to_bits())));
    assert_eq!(bills.len(), 1);
    let shown = view_bills(&bills);
    assert_eq!(shown.len(), 1);
    assert_eq!(shown[0].name(), "Rent");
    assert_eq!(f64::from_bits(shown[0].amount()), 1200.50);
}

#[test]
fn add_bill_without_a_name_stores_nothing() {
    let mut bills = Bills::new();
    assert!(!add_bill(&mut bills, "", Some(1)));
    assert!(!add_bill(&mut bills, "\n", Some(1)));
    assert!(!add_bill(&mut bills, " \t ", Some(1)));
    assert!(!add_bill(&mut bills, "", None));
    assert_eq!(bills.len(), 0);
}

#[test]
fn add_bill_without_an_amount_stores_nothing() {
    let mut bills = Bills::new();
    assert!(add_bill(&mut bills, "Water", Some(7)));
    assert!(!add_bill(&mut bills, "Rent", None));
    assert_eq!(bills.len(), 1);
    assert_eq!(view_bills(&bills)[0].name(), "Water");
}

#[test]
fn view_of_an_empty_store_shows_nothing() {
    let bills = Bills::new();
    assert!(view_bills(&bills).is_empty());
}

#[test]
fn view_shows_bills_in_the_order_added() {
    let mut bills = Bills::new();
    assert!(add_bill(&mut bills, "Gas", Some(30.0f64.to_bits())));
    assert!(add_bill(&mut bills, "Rent", Some(1200.50f64.to_bits())));
    assert!(add_bill(&mut bills, "Gas", Some((-4.5f64).to_bits())));
    let shown = view_bills(&bills);
    let names: Vec<&str> = shown.iter().map(|bill| bill.name()).collect();
    let amounts: Vec<f64> = shown.iter().map(|bill| f64::from_bits(bill.amount())).collect();
    assert_eq!(names, vec!["Gas", "Rent", "Gas"]);
    assert_eq!(amounts, vec![30.0, 1200.50, -4.5]);
}
