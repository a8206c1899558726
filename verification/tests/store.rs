use bill_manager::store::{Bill, Bills};

fn bill(name: &str, amount: i32) -> Bill {
    Bill { name: name.to_string(), amount }
}

/// The bills of the store as pairs, sorted by name.
fn listed(bills: &Bills) -> Vec<(String, i32)> {
    let mut pairs: Vec<(String, i32)> =
        bills.get_bills().iter().map(|b| (b.name.clone(), b.amount)).collect();
    pairs.sort();
    pairs
}

fn pair(name: &str, amount: i32) -> (String, i32) {
    (name.to_string(), amount)
}

#[test]
fn new_store_is_empty() {
    let bills = Bills::new();
    assert!(bills.get_bills().is_empty());
}

#[test]
fn add_to_empty_store_lists_that_bill() {
    let mut bills = Bills::new();
    bills.add_bill(bill("Rent", 1200));
    let list = bills.get_bills();
    assert_eq!(list.len(), 1);
    assert_eq!(list[0].name, "Rent");
    assert_eq!(list[0].amount, 1200);
}

#[test]
fn added_bill_is_listed_as_given() {
    let mut bills = Bills::new();
    bills.add_bill(bill("Water", 30));
    bills.add_bill(bill("Rent", 1200));
    bills.add_bill(bill("Phone", -5));
    let list = bills.get_bills();
    let found: Vec<&&Bill> = list.iter().filter(|b| b.name == "Rent").collect();
    assert_eq!(found.len(), 1);
    assert_eq!(**found[0], bill("Rent", 1200));
}

#[test]
fn add_under_a_held_name_replaces() {
    let mut bills = Bills::new();
    bills.add_bill(bill("Rent", 1200));
    bills.add_bill(bill("Water", 30));
    bills.add_bill(bill("Rent", 1250));
    assert_eq!(listed(&bills), vec![pair("Rent", 1250), pair("Water", 30)]);
}

#[test]
fn adds_keep_one_record_per_name_with_latest_amount() {
    let adds = [
        ("a", 1),
        ("b", 2),
        ("a", 3),
        ("c", 4),
        ("b", 5),
        ("a", 6),
        ("d", i32::MAX),
        ("e", i32::MIN),
        ("d", 0),
    ];
    let mut bills = Bills::new();
    for (name, amount) in adds {
        bills.add_bill(bill(name, amount));
    }
    assert_eq!(
        listed(&bills),
        vec![pair("a", 6), pair("b", 5), pair("c", 4), pair("d", 0), pair("e", i32::MIN)]
    );
}

#[test]
fn names_differ_by_case_and_space() {
    let mut bills = Bills::new();
    bills.add_bill(bill("rent", 1));
    bills.add_bill(bill("Rent", 2));
    bills.add_bill(bill("Rent ", 3));
    bills.add_bill(bill("", 4));
    assert_eq!(
        listed(&bills),
        vec![pair("", 4), pair("Rent", 2), pair("Rent ", 3), pair("rent", 1)]
    );
}

#[test]
fn update_of_held_name_sets_amount() {
    let mut bills = Bills::new();
    bills.add_bill(bill("Rent", 1200));
    assert!(bills.update("Rent", 1300));
    assert_eq!(listed(&bills), vec![pair("Rent", 1300)]);
}

#[test]
fn update_changes_only_that_bill() {
    let mut bills = Bills::new();
    bills.add_bill(bill("A", 1));
    bills.add_bill(bill("B", 2));
    bills.add_bill(bill("C", 3));
    assert!(bills.update("B", 20));
    assert_eq!(listed(&bills), vec![pair("A", 1), pair("B", 20), pair("C", 3)]);
}

#[test]
fn update_of_absent_name_changes_nothing() {
    let mut bills = Bills::new();
    bills.add_bill(bill("Rent", 1200));
    assert!(!bills.update("Electric", 5));
    assert_eq!(listed(&bills), vec![pair("Rent", 1200)]);
    let mut empty = Bills::new();
    assert!(!empty.update("Rent", 5));
    assert!(empty.get_bills().is_empty());
}

#[test]
fn remove_of_absent_name_changes_nothing() {
    let mut bills = Bills::new();
    bills.add_bill(bill("Rent", 1200));
    assert!(!bills.remove_bill("Electric"));
    assert_eq!(listed(&bills), vec![pair("Rent", 1200)]);
}

#[test]
fn remove_of_held_name_leaves_the_others() {
    let mut bills = Bills::new();
    bills.add_bill(bill("A", 1));
    bills.add_bill(bill("B", 2));
    assert!(bills.remove_bill("A"));
    let list = bills.get_bills();
    assert_eq!(list.len(), 1);
    assert_eq!(*list[0], bill("B", 2));
}

#[test]
fn remove_says_whether_the_name_was_held() {
    let mut bills = Bills::new();
    assert!(!bills.remove_bill("A"));
    bills.add_bill(bill("A", 1));
    assert!(bills.remove_bill("A"));
    assert!(!bills.remove_bill("A"));
    assert!(bills.get_bills().iter().all(|b| b.name != "A"));
    bills.add_bill(bill("A", 7));
    assert_eq!(listed(&bills), vec![pair("A", 7)]);
}

#[test]
fn remove_from_the_middle_keeps_the_rest() {
    let mut bills = Bills::new();
    for (name, amount) in [("a", 1), ("b", 2), ("c", 3), ("d", 4)] {
        bills.add_bill(bill(name, amount));
    }
    assert!(bills.remove_bill("b"));
    assert!(bills.remove_bill("d"));
    assert_eq!(listed(&bills), vec![pair("a", 1), pair("c", 3)]);
}

#[test]
fn clone_of_bill_equals_it() {
    let rent = bill("Rent", 1200);
    assert_eq!(rent.clone(), rent);
}

#[test]
fn clone_of_store_holds_the_same_and_is_apart() {
    let mut bills = Bills::new();
    bills.add_bill(bill("A", 1));
    bills.add_bill(bill("B", 2));
    let mut copy = bills.clone();
    assert_eq!(listed(&copy), listed(&bills));
    assert!(copy.remove_bill("A"));
    assert_eq!(listed(&bills), vec![pair("A", 1), pair("B", 2)]);
    assert_eq!(listed(&copy), vec![pair("B", 2)]);
}
