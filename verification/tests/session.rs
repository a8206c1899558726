use bill_manager::menu::{Notice, Stage};
use bill_manager::session::{run_program, Session};
use bill_manager::store::Bills;

use Notice::{
    Added, AskAmount, AskName, AskNameToRemove, AskNameToUpdate, ListBills, Menu, NotANumber,
    NotFound, Removed, UpdateFailed, Updated,
};

fn lines(typed: &[&str]) -> Vec<String> {
    typed.iter().map(|line| line.to_string()).collect()
}

fn bills_of(bills: &Bills) -> Vec<(String, i32)> {
    let mut pairs: Vec<(String, i32)> =
        bills.get_bills().iter().map(|b| (b.name.clone(), b.amount)).collect();
    pairs.sort();
    pairs
}

fn pair(name: &str, amount: i32) -> (String, i32) {
    (name.to_string(), amount)
}

fn text(s: &str) -> Option<String> {
    Some(s.to_string())
}

/// A session in which the given bills were added through the menu.
fn session_with(bills: &[(&str, i32)]) -> Session {
    let (mut session, _) = Session::start();
    for (name, amount) in bills {
        session.step(text("1"));
        session.step(text(name));
        session.step(text(&amount.to_string()));
    }
    assert_eq!(session.stage, Stage::AwaitingSelection);
    session
}

#[test]
fn session_begins_at_the_menu_with_no_bills() {
    let (session, notices) = Session::start();
    assert_eq!(session.stage, Stage::AwaitingSelection);
    assert!(session.bills.get_bills().is_empty());
    assert!(!session.is_over());
    assert_eq!(notices, vec![Menu]);
}

#[test]
fn empty_line_at_the_menu_ends_the_session() {
    let (session, notices) = run_program(&lines(&["\n"]));
    assert_eq!(session.stage, Stage::Terminated);
    assert!(session.is_over());
    assert!(session.bills.get_bills().is_empty());
    assert_eq!(notices, vec![Menu]);
}

#[test]
fn empty_line_at_the_menu_ends_a_session_with_bills() {
    let mut session = session_with(&[("Rent", 1200)]);
    let notices = session.step(None);
    assert!(notices.is_empty());
    assert!(session.is_over());
    assert_eq!(bills_of(&session.bills), vec![pair("Rent", 1200)]);
}

#[test]
fn unknown_choice_ends_the_session() {
    for choice in ["5", "0", "add", "12", "view bills"] {
        let (session, notices) = run_program(&lines(&[choice, "1", "Rent", "1200"]));
        assert_eq!(session.stage, Stage::Terminated, "{:?}", choice);
        assert!(session.bills.get_bills().is_empty());
        assert_eq!(notices, vec![Menu]);
    }
}

#[test]
fn ended_session_takes_no_more_input() {
    let (mut session, _) = Session::start();
    session.step(None);
    assert!(session.is_over());
    for input in [text("1"), text("Rent"), text("1200"), None] {
        assert!(session.step(input).is_empty());
        assert!(session.is_over());
        assert!(session.bills.get_bills().is_empty());
    }
}

#[test]
fn no_lines_leave_the_menu_waiting() {
    let (session, notices) = run_program(&Vec::new());
    assert_eq!(session.stage, Stage::AwaitingSelection);
    assert_eq!(notices, vec![Menu]);
}

#[test]
fn add_rent_to_an_empty_store() {
    let (session, notices) = run_program(&lines(&["1\n", "Rent\n", "1200\n"]));
    assert_eq!(session.stage, Stage::AwaitingSelection);
    let list = session.bills.get_bills();
    assert_eq!(list.len(), 1);
    assert_eq!(list[0].name, "Rent");
    assert_eq!(list[0].amount, 1200);
    assert_eq!(notices, vec![Menu, AskName, AskAmount, Added, Menu]);
}

#[test]
fn update_rent() {
    let mut session = session_with(&[("Rent", 1200)]);
    assert_eq!(session.step(text("4")), vec![ListBills, AskNameToUpdate]);
    assert_eq!(session.stage, Stage::UpdateName);
    assert_eq!(session.step(text("Rent")), vec![AskAmount]);
    assert_eq!(session.stage, Stage::UpdateAmount { name: "Rent".to_string() });
    assert_eq!(session.step(text("1300")), vec![Updated, Menu]);
    assert_eq!(session.stage, Stage::AwaitingSelection);
    assert_eq!(bills_of(&session.bills), vec![pair("Rent", 1300)]);
}

#[test]
fn update_of_an_absent_bill_is_reported() {
    let mut session = session_with(&[("Rent", 1200)]);
    session.step(text("4"));
    session.step(text("Electric"));
    assert_eq!(session.step(text("10")), vec![UpdateFailed, Menu]);
    assert_eq!(bills_of(&session.bills), vec![pair("Rent", 1200)]);
}

#[test]
fn remove_of_an_absent_bill_is_reported() {
    let mut session = session_with(&[("Rent", 1200)]);
    assert_eq!(session.step(text("3")), vec![ListBills, AskNameToRemove]);
    assert_eq!(session.stage, Stage::RemoveName);
    let notices = session.step(text("Electric"));
    assert_eq!(notices, vec![NotFound, Menu]);
    assert_ne!(notices[0].text(), Removed.text());
    assert_eq!(session.stage, Stage::AwaitingSelection);
    assert_eq!(bills_of(&session.bills), vec![pair("Rent", 1200)]);
}

#[test]
fn remove_one_of_two() {
    let mut session = session_with(&[("A", 1), ("B", 2)]);
    session.step(text("3"));
    assert_eq!(session.step(text("A")), vec![Removed, Menu]);
    let list = session.bills.get_bills();
    assert_eq!(list.len(), 1);
    assert_eq!(list[0].name, "B");
    assert_eq!(list[0].amount, 2);
}

#[test]
fn view_shows_the_bills_and_returns_to_the_menu() {
    let mut session = session_with(&[("Rent", 1200)]);
    assert_eq!(session.step(text("2")), vec![ListBills, Menu]);
    assert_eq!(session.stage, Stage::AwaitingSelection);
    assert_eq!(bills_of(&session.bills), vec![pair("Rent", 1200)]);
}

#[test]
fn cancel_at_every_question_changes_nothing() {
    let before = vec![pair("Rent", 1200), pair("Water", 30)];
    let ways: [&[&str]; 5] =
        [&["1"], &["1", "Gas"], &["3"], &["4"], &["4", "Rent"]];
    for way in ways {
        let mut session = session_with(&[("Rent", 1200), ("Water", 30)]);
        for input in way {
            session.step(text(input));
            assert_ne!(session.stage, Stage::AwaitingSelection);
        }
        assert_eq!(session.step(None), vec![Menu], "{:?}", way);
        assert_eq!(session.stage, Stage::AwaitingSelection);
        assert_eq!(bills_of(&session.bills), before);
    }
}

#[test]
fn amount_is_asked_for_until_it_is_a_number() {
    let (session, notices) =
        run_program(&lines(&["1", "Rent", "a lot", "12.50", "1,200", "1200", ""]));
    assert_eq!(session.stage, Stage::Terminated);
    assert_eq!(bills_of(&session.bills), vec![pair("Rent", 1200)]);
    assert_eq!(
        notices,
        vec![Menu, AskName, AskAmount, NotANumber, NotANumber, NotANumber, Added, Menu]
    );
}

#[test]
fn a_whole_session() {
    let typed = lines(&[
        " 1 ", "Rent", "1200", // add Rent
        "1", "Water", "x", "30", // add Water at the second try
        "2", // view
        "4", "Rent", "1300", // update Rent
        "4", "Gas", "5", // update of a bill that is not there
        "3", "Water", // remove Water
        "3", "Water", // and once more
        "1", "  ", // begin to add, then cancel
        "1", "Phone", "", // the same at the amount
        "1", "Rent", "-1", // add under a held name
        "", // leave
        "1", "Late", "1", // not read any more
    ]);
    let (session, notices) = run_program(&typed);
    assert_eq!(session.stage, Stage::Terminated);
    assert_eq!(bills_of(&session.bills), vec![pair("Rent", -1)]);
    assert_eq!(
        notices,
        vec![
            Menu, AskName, AskAmount, Added, Menu, AskName, AskAmount, NotANumber, Added, Menu,
            ListBills, Menu, ListBills, AskNameToUpdate, AskAmount, Updated, Menu, ListBills,
            AskNameToUpdate, AskAmount, UpdateFailed, Menu, ListBills, AskNameToRemove, Removed,
            Menu, ListBills, AskNameToRemove, NotFound, Menu, AskName, Menu, AskName, AskAmount,
            Menu, AskName, AskAmount, Added, Menu,
        ]
    );
}

#[test]
fn lines_that_run_out_leave_the_question_standing() {
    let (session, notices) = run_program(&lines(&["1", "Rent"]));
    assert_eq!(session.stage, Stage::AddAmount { name: "Rent".to_string() });
    assert!(session.bills.get_bills().is_empty());
    assert_eq!(notices, vec![Menu, AskName, AskAmount]);
}

#[test]
fn run_is_the_steps_one_by_one() {
    let typed = lines(&["1", "Rent", "oops", "1200", "3", "Rent", "2", "9", "1"]);
    let (end, notices) = run_program(&typed);
    let (mut session, mut said) = Session::start();
    for line in &typed {
        if session.is_over() {
            break;
        }
        said.extend(session.step(bill_manager::input::get_user_input(line)));
    }
    assert_eq!(end.stage, session.stage);
    assert_eq!(bills_of(&end.bills), bills_of(&session.bills));
    assert_eq!(notices, said);
}
