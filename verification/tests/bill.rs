use bill_manager::bill::{Bill, Bills};

#[test]
fn bill_keeps_its_name_and_amount() {
    let bill = Bill::new(String::from("Rent"), 1200.50f64.to_bits());
    assert_eq!(bill.name(), "Rent");
    assert_eq!(bill.amount(), 1200.50f64.to_bits());
    assert_eq!(bill.amount(), 0x4092_C200_0000_0000);
}

#[test]
fn bill_clone_is_the_same_bill() {
    let bill = Bill::new(String::from("Phone"), 42);
    let copy = bill.clone();
    assert_eq!(copy.name(), bill.name());
    assert_eq!(copy.amount(), bill.amount());
}

#[test]
fn new_store_is_empty() {
    let bills = Bills::new();
    assert_eq!(bills.len(), 0);
    assert!(bills.get_all().is_empty());
}

#[test]
fn store_appends_and_keeps_duplicates() {
    let mut bills = Bills::new();
    bills.add(Bill::new(String::from("a"), 1));
    bills.add(Bill::new(String::from("b"), 2));
    bills.add(Bill::new(String::from("a"), 1));
    assert_eq!(bills.len(), 3);
    let all = bills.get_all();
    assert_eq!(all.len(), 3);
    assert_eq!((all[0].name(), all[0].amount()), ("a", 1));
    assert_eq!((all[1].name(), all[1].amount()), ("b", 2));
    assert_eq!((all[2].name(), all[2].amount()), ("a", 1));
}
