//! The menu controller: a session takes the user's inputs one by one, hands each to
//! the choice that is under way, and says what the user is to be told.
//!
//! A session begins at the menu with an empty store. At the menu an input picks one
//! of the four choices. No input there ends the session, and so does an input that
//! is none of the four: the menu does not ask again. Within a choice, no input
//! abandons the choice and leads back to the menu with the store as it was.

use crate::input::{get_user_input, input_of};
use crate::menu::{
    add_bill, add_turn, opening_of, remove_bill, remove_turn, selection, update_bill,
    update_turn, MainMenuItem, Notice, Stage, StageView, Turn,
};
use crate::store::{Bills, Ledger};
use vstd::prelude::*;

verus! {

/// The turn that ends the session: the store as it was, nothing said.
pub open spec fn ended(bills: Ledger) -> Turn {
    Turn { stage: StageView::Terminated, bills, notices: seq![] }
}

/// What the menu does with an input: one of the four choices begins, and anything
/// else, no input included, ends the session.
pub open spec fn select_turn(bills: Ledger, input: Option<Seq<char>>) -> Turn {
    match input {
        None => ended(bills),
        Some(text) => match selection(text) {
            Some(item) => Turn { stage: opening_of(item).0, bills, notices: opening_of(item).1 },
            None => ended(bills),
        },
    }
}

/// What an input leads to at a stage, before the menu is shown again.
pub open spec fn handle(stage: StageView, bills: Ledger, input: Option<Seq<char>>) -> Turn {
    match stage {
        StageView::AwaitingSelection => select_turn(bills, input),
        StageView::AddName => add_turn(bills, None, input),
        StageView::AddAmount { name } => add_turn(bills, Some(name), input),
        StageView::RemoveName => remove_turn(bills, input),
        StageView::UpdateName => update_turn(bills, None, input),
        StageView::UpdateAmount { name } => update_turn(bills, Some(name), input),
        StageView::Terminated => ended(bills),
    }
}

/// What an input leads to at a stage. Whenever the session is back at the menu, the
/// menu is the last thing shown.
pub open spec fn turn(stage: StageView, bills: Ledger, input: Option<Seq<char>>) -> Turn {
    let handled = handle(stage, bills, input);
    if handled.stage is AwaitingSelection {
        Turn {
            stage: handled.stage,
            bills: handled.bills,
            notices: handled.notices.push(Notice::Menu),
        }
    } else {
        handled
    }
}

/// What a run of lines leads to from a stage: each line is read as an input and
/// taken in turn, until the lines are used up or the session has ended. Lines after
/// the end of the session are not looked at.
pub open spec fn run(stage: StageView, bills: Ledger, lines: Seq<Seq<char>>) -> Turn
    decreases lines.len(),
{
    if lines.len() == 0 || stage is Terminated {
        Turn { stage, bills, notices: seq![] }
    } else {
        let first = turn(stage, bills, input_of(lines.first()));
        let rest = run(first.stage, first.bills, lines.drop_first());
        Turn { stage: rest.stage, bills: rest.bills, notices: first.notices + rest.notices }
    }
}

/// How a session begins: at the menu, which is shown, with an empty store.
pub open spec fn opening() -> Turn {
    Turn {
        stage: StageView::AwaitingSelection,
        bills: Ledger::empty(),
        notices: seq![Notice::Menu],
    }
}

/// A whole session over `lines`: the session begins, then the lines are taken.
pub open spec fn program(lines: Seq<Seq<char>>) -> Turn {
    let rest = run(opening().stage, opening().bills, lines);
    Turn { stage: rest.stage, bills: rest.bills, notices: opening().notices + rest.notices }
}

/// A conversation with the user: the store of bills, and the stage at which the
/// conversation stands.
#[derive(Debug)]
pub struct Session {
    pub bills: Bills,
    pub stage: Stage,
}

impl Session {
    /// Begins a session: an empty store, and the menu waiting for a choice. Returns the
    /// session and what the user is told at its beginning.
    pub fn start() -> (begun: (Session, Vec<Notice>))
        ensures
            begun.0.stage@ == opening().stage,
            begun.0.bills@ == opening().bills,
            begun.1@ == opening().notices,
    {
        let mut notices: Vec<Notice> = Vec::new();
        notices.push(Notice::Menu);
        assert(notices@ =~= seq![Notice::Menu]);
        (Session { bills: Bills::new(), stage: Stage::AwaitingSelection }, notices)
    }

    /// Whether the session has ended.
    pub fn is_over(&self) -> (over: bool)
        ensures
            over == (self.stage@ is Terminated),
    {
        match &self.stage {
            Stage::Terminated => true,
            _ => false,
        }
    }

    /// Takes the next input, `None` where the user gave none, and returns what the
    /// user is to be told, in order. No input never changes the store.
    pub fn step(&mut self, input: Option<String>) -> (notices: Vec<Notice>)
        ensures
            final(self).stage@ == turn(old(self).stage@, old(self).bills@, input.deep_view()).stage,
            final(self).bills@ == turn(old(self).stage@, old(self).bills@, input.deep_view()).bills,
            notices@ == turn(old(self).stage@, old(self).bills@, input.deep_view()).notices,
            input is None ==> final(self).bills == old(self).bills,
    {
        let mut stage = Stage::Terminated;
        std::mem::swap(&mut stage, &mut self.stage);
        let (next, mut notices) = match stage {
            Stage::AwaitingSelection => match input {
                None => (Stage::Terminated, Vec::new()),
                Some(text) => match MainMenuItem::from_str(text.as_str()) {
                    Some(item) => item.open(),
                    None => (Stage::Terminated, Vec::new()),
                },
            },
            Stage::AddName => add_bill(&mut self.bills, None, input),
            Stage::AddAmount { name } => add_bill(&mut self.bills, Some(name), input),
            Stage::RemoveName => remove_bill(&mut self.bills, input),
            Stage::UpdateName => update_bill(&mut self.bills, None, input),
            Stage::UpdateAmount { name } => update_bill(&mut self.bills, Some(name), input),
            Stage::Terminated => (Stage::Terminated, Vec::new()),
        };
        self.stage = next;
        if let Stage::AwaitingSelection = &self.stage {
            notices.push(Notice::Menu);
        }
        notices
    }
}

/// Runs a whole session over `lines`, the lines that the user types, from an empty
/// store: shows the menu, then takes line after line until the session ends or the
/// lines are used up. Returns the session as it then stands, and everything that
/// the user was told, in order.
pub fn run_program(lines: &Vec<String>) -> (end: (Session, Vec<Notice>))
    ensures
        end.0.stage@ == program(lines.deep_view()).stage,
        end.0.bills@ == program(lines.deep_view()).bills,
        end.1@ == program(lines.deep_view()).notices,
{
    let ghost all = lines.deep_view();
    let (mut session, mut said) = Session::start();
    let mut i: usize = 0;
    assert(all.skip(0) =~= all);
    while i < lines.len() && !session.is_over()
        invariant
            i <= lines.len(),
            all == lines.deep_view(),
            run(session.stage@, session.bills@, all.skip(i as int)).stage == program(all).stage,
            run(session.stage@, session.bills@, all.skip(i as int)).bills == program(all).bills,
            said@ + run(session.stage@, session.bills@, all.skip(i as int)).notices == program(
                all,
            ).notices,
        decreases lines.len() - i,
    {
        let ghost before = run(session.stage@, session.bills@, all.skip(i as int));
        let ghost heard = said@;
        let input = get_user_input(lines[i].as_str());
        let mut notices = session.step(input);
        let ghost told = notices@;
        said.append(&mut notices);
        i += 1;
        proof {
            let left = all.skip(i - 1);
            assert(left.first() == lines[i - 1]@);
            assert(left.drop_first() =~= all.skip(i as int));
            let after = run(session.stage@, session.bills@, all.skip(i as int));
            assert(before.notices == told + after.notices);
            assert((heard + told) + after.notices =~= heard + (told + after.notices));
        }
    }
    assert(said@ + Seq::<Notice>::empty() =~= said@);
    (session, said)
}

} // verus!
