//! The menu: its four choices, what the manager tells the user, and what each choice
//! does with the answers that the user gives.
//!
//! Nothing here reads or prints. A handler takes the answer to the question that was
//! last put to the user, does its work on the store, and says where the conversation
//! stands next and what the user is to be told.

use crate::input::{entry_of, get_bill_amount, AmountEntry};
use crate::store::{lists, Bill, Bills, Ledger};
use vstd::prelude::*;

verus! {

/// A choice of the main menu.
#[derive(Debug, Clone, Copy, PartialEq, Eq, Structural)]
pub enum MainMenuItem {
    /// Add a bill, or put a new amount under a name that is held.
    AddBill,
    /// Show the bills.
    ViewBill,
    /// Remove a bill.
    RemoveBill,
    /// Give a bill a new amount.
    UpdateBill,
}

/// The choice that `text` makes at the main menu: `1` to `4`, and no other text.
pub open spec fn selection(text: Seq<char>) -> Option<MainMenuItem> {
    if text == seq!['1'] {
        Some(MainMenuItem::AddBill)
    } else if text == seq!['2'] {
        Some(MainMenuItem::ViewBill)
    } else if text == seq!['3'] {
        Some(MainMenuItem::RemoveBill)
    } else if text == seq!['4'] {
        Some(MainMenuItem::UpdateBill)
    } else {
        None
    }
}

/// The main menu: a heading, the four choices with the texts that pick them, and the
/// question for a choice.
pub const MENU: &'static str = "\n === Billing Information === \n\
    1. Add Billing Information\n\
    2. View Billing Information\n\
    3. Remove Bill\n\
    4. Update Bill\n\
    \n\
    Enter your choice:";

/// A list of one notice.
fn say(notice: Notice) -> (notices: Vec<Notice>)
    ensures
        notices@ == seq![notice],
{
    let mut notices: Vec<Notice> = Vec::new();
    notices.push(notice);
    assert(notices@ =~= seq![notice]);
    notices
}

impl MainMenuItem {
    /// Reads a choice of the main menu: `Some` for the texts `1` to `4`, `None` for
    /// every other text.
    pub fn from_str(input: &str) -> (item: Option<MainMenuItem>)
        ensures
            item == selection(input@),
    {
        if input.unicode_len() != 1 {
            return None;
        }
        let c = input.get_char(0);
        assert(input@ =~= seq![c]);
        if c == '1' {
            Some(MainMenuItem::AddBill)
        } else if c == '2' {
            Some(MainMenuItem::ViewBill)
        } else if c == '3' {
            Some(MainMenuItem::RemoveBill)
        } else if c == '4' {
            Some(MainMenuItem::UpdateBill)
        } else {
            None
        }
    }

    /// Begins this choice: returns the stage at which it then stands and what the user
    /// is told. Adding asks for a name; viewing shows the bills and is done; removing
    /// and updating show the bills and ask for a name.
    pub fn open(self) -> (next: (Stage, Vec<Notice>))
        ensures
            next.0@ == opening_of(self).0,
            next.1@ == opening_of(self).1,
    {
        match self {
            MainMenuItem::AddBill => (Stage::AddName, say(Notice::AskName)),
            MainMenuItem::ViewBill => (Stage::AwaitingSelection, say(Notice::ListBills)),
            MainMenuItem::RemoveBill => {
                let mut notices = say(Notice::ListBills);
                notices.push(Notice::AskNameToRemove);
                assert(notices@ =~= seq![Notice::ListBills, Notice::AskNameToRemove]);
                (Stage::RemoveName, notices)
            },
            MainMenuItem::UpdateBill => {
                let mut notices = say(Notice::ListBills);
                notices.push(Notice::AskNameToUpdate);
                assert(notices@ =~= seq![Notice::ListBills, Notice::AskNameToUpdate]);
                (Stage::UpdateName, notices)
            },
        }
    }

    /// The main menu as it is shown to the user.
    pub fn show() -> (text: &'static str)
        ensures
            text@ == MENU@,
    {
        MENU
    }
}

/// Something that the manager tells the user.
#[derive(Debug, Clone, Copy, PartialEq, Eq, Structural)]
pub enum Notice {
    /// The main menu, and the question for a choice.
    Menu,
    /// Every bill of the store, each on a line of its own that begins with this
    /// notice's text. An empty store shows nothing.
    ListBills,
    /// The question for the name of a bill to add.
    AskName,
    /// The question for the name of the bill to remove.
    AskNameToRemove,
    /// The question for the name of the bill to update.
    AskNameToUpdate,
    /// The question for an amount.
    AskAmount,
    /// The answer was no amount; the question for an amount stands.
    NotANumber,
    /// The bill was added.
    Added,
    /// The bill was removed.
    Removed,
    /// No bill has the name that was given, so none was removed.
    NotFound,
    /// The bill has its new amount.
    Updated,
    /// No bill has the name that was given, so none was updated.
    UpdateFailed,
}

/// The words in which a notice is given.
pub open spec fn message(notice: Notice) -> Seq<char> {
    match notice {
        Notice::Menu => MENU@,
        Notice::ListBills => "Bill: "@,
        Notice::AskName => "Enter bill name"@,
        Notice::AskNameToRemove => "Enter bill name to remove"@,
        Notice::AskNameToUpdate => "Enter bill name to update"@,
        Notice::AskAmount => "Enter bill amount"@,
        Notice::NotANumber => "Please enter a number."@,
        Notice::Added => "Added bill"@,
        Notice::Removed => "Bill removed successfully"@,
        Notice::NotFound => "No bill with that name was found"@,
        Notice::Updated => "Updated bill"@,
        Notice::UpdateFailed => "Failed to update bill"@,
    }
}

impl Notice {
    /// The words in which this notice is given.
    pub fn text(self) -> (text: &'static str)
        ensures
            text@ == message(self),
    {
        match self {
            Notice::Menu => MainMenuItem::show(),
            Notice::ListBills => "Bill: ",
            Notice::AskName => "Enter bill name",
            Notice::AskNameToRemove => "Enter bill name to remove",
            Notice::AskNameToUpdate => "Enter bill name to update",
            Notice::AskAmount => "Enter bill amount",
            Notice::NotANumber => "Please enter a number.",
            Notice::Added => "Added bill",
            Notice::Removed => "Bill removed successfully",
            Notice::NotFound => "No bill with that name was found",
            Notice::Updated => "Updated bill",
            Notice::UpdateFailed => "Failed to update bill",
        }
    }
}

/// Where a conversation stands: what the next input will be taken for.
#[derive(Debug, PartialEq, Eq)]
pub enum Stage {
    /// The menu was shown; the next input is a choice.
    AwaitingSelection,
    /// Adding a bill; the next input is its name.
    AddName,
    /// Adding a bill named `name`; the next input is its amount.
    AddAmount { name: String },
    /// Removing a bill; the next input is its name.
    RemoveName,
    /// Updating a bill; the next input is its name.
    UpdateName,
    /// Updating the bill named `name`; the next input is its new amount.
    UpdateAmount { name: String },
    /// The conversation is over; no input is taken any more.
    Terminated,
}

impl Clone for Stage {
    fn clone(&self) -> (copy: Self)
        ensures
            copy == *self,
    {
        match self {
            Stage::AwaitingSelection => Stage::AwaitingSelection,
            Stage::AddName => Stage::AddName,
            Stage::AddAmount { name } => Stage::AddAmount { name: name.clone() },
            Stage::RemoveName => Stage::RemoveName,
            Stage::UpdateName => Stage::UpdateName,
            Stage::UpdateAmount { name } => Stage::UpdateAmount { name: name.clone() },
            Stage::Terminated => Stage::Terminated,
        }
    }
}

/// A stage, with text for the name that it holds.
pub enum StageView {
    AwaitingSelection,
    AddName,
    AddAmount { name: Seq<char> },
    RemoveName,
    UpdateName,
    UpdateAmount { name: Seq<char> },
    Terminated,
}

impl View for Stage {
    type V = StageView;

    open spec fn view(&self) -> StageView {
        match self {
            Stage::AwaitingSelection => StageView::AwaitingSelection,
            Stage::AddName => StageView::AddName,
            Stage::AddAmount { name } => StageView::AddAmount { name: name@ },
            Stage::RemoveName => StageView::RemoveName,
            Stage::UpdateName => StageView::UpdateName,
            Stage::UpdateAmount { name } => StageView::UpdateAmount { name: name@ },
            Stage::Terminated => StageView::Terminated,
        }
    }
}

/// How a choice of the menu begins: the stage at which it then stands, and what the
/// user is told.
pub open spec fn opening_of(item: MainMenuItem) -> (StageView, Seq<Notice>) {
    match item {
        MainMenuItem::AddBill => (StageView::AddName, seq![Notice::AskName]),
        MainMenuItem::ViewBill => (StageView::AwaitingSelection, seq![Notice::ListBills]),
        MainMenuItem::RemoveBill => (
            StageView::RemoveName,
            seq![Notice::ListBills, Notice::AskNameToRemove],
        ),
        MainMenuItem::UpdateBill => (
            StageView::UpdateName,
            seq![Notice::ListBills, Notice::AskNameToUpdate],
        ),
    }
}

/// What one input leads to: the stage that follows, the bills then in the store, and
/// what the user is told.
pub struct Turn {
    pub stage: StageView,
    pub bills: Ledger,
    pub notices: Seq<Notice>,
}

/// The turn that abandons what was begun: back to the menu, the store as it was,
/// nothing said.
pub open spec fn cancelled(bills: Ledger) -> Turn {
    Turn { stage: StageView::AwaitingSelection, bills, notices: seq![] }
}

/// What adding a bill does with an input. While no name is held, the input is the
/// name of the bill; once a name is held, the input is its amount. No input cancels,
/// and so does an empty text for the amount. Any other input that is no amount leaves
/// the question for the amount standing. With the amount the bill goes into the
/// store, in the place of any bill of that name.
pub open spec fn add_turn(
    bills: Ledger,
    name: Option<Seq<char>>,
    input: Option<Seq<char>>,
) -> Turn {
    match name {
        None => match input {
            None => cancelled(bills),
            Some(text) => Turn {
                stage: StageView::AddAmount { name: text },
                bills,
                notices: seq![Notice::AskAmount],
            },
        },
        Some(name) => match entry_of(input) {
            AmountEntry::Cancelled => cancelled(bills),
            AmountEntry::NotANumber => Turn {
                stage: StageView::AddAmount { name },
                bills,
                notices: seq![Notice::NotANumber],
            },
            AmountEntry::Amount(amount) => Turn {
                stage: StageView::AwaitingSelection,
                bills: bills.insert(name, amount as int),
                notices: seq![Notice::Added],
            },
        },
    }
}

/// What removing a bill does with an input, which is the name of the bill. No input
/// cancels. A name that the store holds is taken out of it; for any other name the
/// store stays as it was and the user is told that no such bill was found.
pub open spec fn remove_turn(bills: Ledger, input: Option<Seq<char>>) -> Turn {
    match input {
        None => cancelled(bills),
        Some(name) => Turn {
            stage: StageView::AwaitingSelection,
            bills: bills.remove(name),
            notices: if bills.contains_key(name) {
                seq![Notice::Removed]
            } else {
                seq![Notice::NotFound]
            },
        },
    }
}

/// What updating a bill does with an input. While no name is held, the input is the
/// name of the bill; once a name is held, the input is its new amount. No input
/// cancels, and so does an empty text for the amount. Any other input that is no
/// amount leaves the question for the amount standing. With the amount, a bill of
/// that name gets it; where the store holds no such bill it stays as it was and the
/// user is told that the update failed.
pub open spec fn update_turn(
    bills: Ledger,
    name: Option<Seq<char>>,
    input: Option<Seq<char>>,
) -> Turn {
    match name {
        None => match input {
            None => cancelled(bills),
            Some(text) => Turn {
                stage: StageView::UpdateAmount { name: text },
                bills,
                notices: seq![Notice::AskAmount],
            },
        },
        Some(name) => match entry_of(input) {
            AmountEntry::Cancelled => cancelled(bills),
            AmountEntry::NotANumber => Turn {
                stage: StageView::UpdateAmount { name },
                bills,
                notices: seq![Notice::NotANumber],
            },
            AmountEntry::Amount(amount) => if bills.contains_key(name) {
                Turn {
                    stage: StageView::AwaitingSelection,
                    bills: bills.insert(name, amount as int),
                    notices: seq![Notice::Updated],
                }
            } else {
                Turn {
                    stage: StageView::AwaitingSelection,
                    bills,
                    notices: seq![Notice::UpdateFailed],
                }
            },
        },
    }
}

/// Adding a bill: takes the answer to the question that was last asked. `name` is the
/// name of the bill where it was given already, and `input` is then the answer to the
/// question for the amount; else `input` is the answer to the question for the name.
/// The store changes only when the amount is given: on a cancellation, on a name and
/// on an answer that is no amount it stays as it was.
pub fn add_bill(
    bills: &mut Bills,
    name: Option<String>,
    input: Option<String>,
) -> (next: (Stage, Vec<Notice>))
    ensures
        next.0@ == add_turn(old(bills)@, name.deep_view(), input.deep_view()).stage,
        final(bills)@ == add_turn(old(bills)@, name.deep_view(), input.deep_view()).bills,
        next.1@ == add_turn(old(bills)@, name.deep_view(), input.deep_view()).notices,
        input is None ==> *final(bills) == *old(bills),
        name is None || !(entry_of(input.deep_view()) is Amount) ==> *final(bills) == *old(bills),
{
    match name {
        None => match input {
            None => (Stage::AwaitingSelection, Vec::new()),
            Some(text) => (Stage::AddAmount { name: text }, say(Notice::AskAmount)),
        },
        Some(name) => match get_bill_amount(&input) {
            AmountEntry::Cancelled => (Stage::AwaitingSelection, Vec::new()),
            AmountEntry::NotANumber => (Stage::AddAmount { name }, say(Notice::NotANumber)),
            AmountEntry::Amount(amount) => {
                bills.add_bill(Bill { name, amount });
                (Stage::AwaitingSelection, say(Notice::Added))
            },
        },
    }
}

/// Viewing the bills: every bill of the store, once each. The store stays as it is.
pub fn view_bill(bills: &Bills) -> (list: Vec<&Bill>)
    ensures
        lists(list.deep_view(), bills@),
{
    bills.get_bills()
}

/// Removing a bill: takes the answer to the question for its name. A cancellation, and
/// a name that the store does not hold, leave the store as it was.
pub fn remove_bill(bills: &mut Bills, input: Option<String>) -> (next: (Stage, Vec<Notice>))
    ensures
        next.0@ == remove_turn(old(bills)@, input.deep_view()).stage,
        final(bills)@ == remove_turn(old(bills)@, input.deep_view()).bills,
        next.1@ == remove_turn(old(bills)@, input.deep_view()).notices,
        input is None ==> *final(bills) == *old(bills),
        input is Some && !old(bills)@.contains_key(input->0@) ==> *final(bills) == *old(bills),
{
    match input {
        None => (Stage::AwaitingSelection, Vec::new()),
        Some(name) => {
            if bills.remove_bill(name.as_str()) {
                (Stage::AwaitingSelection, say(Notice::Removed))
            } else {
                (Stage::AwaitingSelection, say(Notice::NotFound))
            }
        },
    }
}

/// Updating a bill: takes the answer to the question that was last asked. `name` is
/// the name of the bill where it was given already, and `input` is then the answer to
/// the question for the new amount; else `input` is the answer to the question for the
/// name. A cancellation, an answer that is no amount, and a name that the store does
/// not hold leave the store as it was.
pub fn update_bill(
    bills: &mut Bills,
    name: Option<String>,
    input: Option<String>,
) -> (next: (Stage, Vec<Notice>))
    ensures
        next.0@ == update_turn(old(bills)@, name.deep_view(), input.deep_view()).stage,
        final(bills)@ == update_turn(old(bills)@, name.deep_view(), input.deep_view()).bills,
        next.1@ == update_turn(old(bills)@, name.deep_view(), input.deep_view()).notices,
        input is None ==> *final(bills) == *old(bills),
        name is None || !(entry_of(input.deep_view()) is Amount) ==> *final(bills) == *old(bills),
        name is Some && !old(bills)@.contains_key(name->0@) ==> *final(bills) == *old(bills),
{
    match name {
        None => match input {
            None => (Stage::AwaitingSelection, Vec::new()),
            Some(text) => (Stage::UpdateAmount { name: text }, say(Notice::AskAmount)),
        },
        Some(name) => match get_bill_amount(&input) {
            AmountEntry::Cancelled => (Stage::AwaitingSelection, Vec::new()),
            AmountEntry::NotANumber => (Stage::UpdateAmount { name }, say(Notice::NotANumber)),
            AmountEntry::Amount(amount) => {
                if bills.update(name.as_str(), amount) {
                    (Stage::AwaitingSelection, say(Notice::Updated))
                } else {
                    (Stage::AwaitingSelection, say(Notice::UpdateFailed))
                }
            },
        },
    }
}

} // verus!
