//! What holds of the store and of a session whatever they are given.

use crate::input::{input_of, trim_end, trim_start, trimmed, white_space};
use crate::menu::StageView;
use crate::session::turn;
use crate::store::{
    amounts, lemma_amounts_at, lemma_appended, lists, names_bill, Ledger, Record,
};
use vstd::prelude::*;

verus! {

/// `records` holds `record`, and holds nothing else under its name.
pub open spec fn listed_once(records: Seq<Record>, record: Record) -> bool {
    exists|k: int|
        {
            &&& 0 <= k < records.len()
            &&& #[trigger] records[k] == record
            &&& forall|l: int|
                0 <= l < records.len() && (#[trigger] records[l]).name == record.name ==> l == k
        }
}

/// A list of the store holds each bill of the store once, with its amount, and holds
/// nothing else.
pub proof fn law_list_is_the_store(records: Seq<Record>, bills: Ledger)
    requires
        lists(records, bills),
    ensures
        forall|name: Seq<char>|
            #[trigger] bills.contains_key(name)
                ==> listed_once(records, Record { name, amount: bills[name] }),
        forall|k: int|
            0 <= k < records.len() ==> bills.contains_key((#[trigger] records[k]).name)
                && bills[records[k].name] == records[k].amount,
{
    assert forall|name: Seq<char>| #[trigger] bills.contains_key(name) implies
        listed_once(records, Record { name, amount: bills[name] }) by {
        assert(names_bill(records, name));
        let k = choose|k: int| 0 <= k < records.len() && (#[trigger] records[k]).name == name;
        lemma_amounts_at(records, k);
        assert(records[k] == Record { name, amount: bills[name] });
        assert forall|l: int|
            0 <= l < records.len() && (#[trigger] records[l]).name == name implies l == k by {
            if l < k {
                assert(records[l].name != records[k].name);
            } else if k < l {
                assert(records[k].name != records[l].name);
            }
        }
    }
    assert forall|k: int| 0 <= k < records.len() implies
        bills.contains_key((#[trigger] records[k]).name)
            && bills[records[k].name] == records[k].amount by {
        lemma_amounts_at(records, k);
    }
}

/// A list of the store is as long as the store has names: it holds one record for
/// each.
pub proof fn law_list_counts_the_names(records: Seq<Record>, bills: Ledger)
    requires
        lists(records, bills),
    ensures
        bills.dom().finite(),
        bills.dom().len() == records.len(),
    decreases records.len(),
{
    if records.len() == 0 {
        assert(bills.dom() =~= Set::<Seq<char>>::empty());
    } else {
        let front = records.drop_last();
        let last = records.last();
        assert forall|i: int, j: int| 0 <= i < j < front.len() implies
            (#[trigger] front[i]).name != (#[trigger] front[j]).name by {
            assert(front[i] == records[i] && front[j] == records[j]);
        }
        assert forall|i: int| 0 <= i < front.len() implies
            (#[trigger] front[i]).name != last.name by {
            assert(front[i] == records[i]);
            assert(records[i].name != records[records.len() - 1].name);
        }
        law_list_counts_the_names(front, amounts(front));
        lemma_appended(front, last);
        assert(front.push(last) =~= records);
        assert(!amounts(front).contains_key(last.name));
        assert(bills.dom() =~= amounts(front).dom().insert(last.name));
    }
}

/// A bill that was just put into the store is in the list of the store, as it was
/// given, and nothing else is listed under its name.
pub proof fn law_added_is_listed(bills: Ledger, bill: Record, records: Seq<Record>)
    requires
        lists(records, bills.insert(bill.name, bill.amount)),
    ensures
        listed_once(records, bill),
{
    let after = bills.insert(bill.name, bill.amount);
    law_list_is_the_store(records, after);
    assert(after.contains_key(bill.name));
}

/// A name that was just taken out of the store is not in the list of the store.
pub proof fn law_removed_is_not_listed(
    bills: Ledger,
    name: Seq<char>,
    records: Seq<Record>,
)
    requires
        lists(records, bills.remove(name)),
    ensures
        !names_bill(records, name),
{
    assert(!bills.remove(name).contains_key(name));
}

/// The store after a run of adds, each putting one bill into it.
pub open spec fn after_adds(bills: Ledger, adds: Seq<Record>) -> Ledger
    decreases adds.len(),
{
    if adds.len() == 0 {
        bills
    } else {
        after_adds(bills, adds.drop_last()).insert(adds.last().name, adds.last().amount)
    }
}

/// The add at `i` is the last one of `adds` under its name.
pub open spec fn is_latest(adds: Seq<Record>, i: int) -> bool {
    &&& 0 <= i < adds.len()
    &&& forall|j: int| i < j < adds.len() ==> (#[trigger] adds[j]).name != adds[i].name
}

/// After a run of adds the store holds, under each name that was used, the amount of
/// the last add under that name.
pub proof fn law_adds_keep_latest(bills: Ledger, adds: Seq<Record>, i: int)
    requires
        is_latest(adds, i),
    ensures
        after_adds(bills, adds).contains_key(adds[i].name),
        after_adds(bills, adds)[adds[i].name] == adds[i].amount,
    decreases adds.len(),
{
    if i < adds.len() - 1 {
        let front = adds.drop_last();
        assert(front[i] == adds[i]);
        assert forall|j: int| i < j < front.len() implies
            (#[trigger] front[j]).name != front[i].name by {
            assert(front[j] == adds[j]);
        }
        law_adds_keep_latest(bills, front, i);
        assert(adds[adds.len() - 1].name != adds[i].name);
    }
}

/// A run of adds leaves every name that it does not use as it was in the store: held
/// with its amount, or not held.
pub proof fn law_adds_touch_no_other(bills: Ledger, adds: Seq<Record>, name: Seq<char>)
    requires
        !names_bill(adds, name),
    ensures
        after_adds(bills, adds).contains_key(name) == bills.contains_key(name),
        bills.contains_key(name) ==> after_adds(bills, adds)[name] == bills[name],
    decreases adds.len(),
{
    if adds.len() > 0 {
        let front = adds.drop_last();
        assert forall|j: int| 0 <= j < front.len() implies
            (#[trigger] front[j]).name != name by {
            assert(front[j] == adds[j]);
        }
        law_adds_touch_no_other(bills, front, name);
        assert(adds[adds.len() - 1].name != name);
    }
}

/// After any run of adds, the list of the store holds one record for each name that
/// was used, and that record is the last add under the name.
pub proof fn law_list_after_adds(
    bills: Ledger,
    adds: Seq<Record>,
    records: Seq<Record>,
    i: int,
)
    requires
        lists(records, after_adds(bills, adds)),
        is_latest(adds, i),
    ensures
        listed_once(records, adds[i]),
{
    law_adds_keep_latest(bills, adds, i);
    law_list_is_the_store(records, after_adds(bills, adds));
}

/// After a run of adds from an empty store, the list of the store holds nothing but
/// the bills that were added: each record is the last add under its name.
pub proof fn law_list_holds_only_adds(adds: Seq<Record>, records: Seq<Record>, k: int)
    requires
        lists(records, after_adds(Ledger::empty(), adds)),
        0 <= k < records.len(),
    ensures
        exists|i: int| is_latest(adds, i) && #[trigger] adds[i] == records[k],
{
    let name = records[k].name;
    let after = after_adds(Ledger::empty(), adds);
    lemma_amounts_at(records, k);
    if !names_bill(adds, name) {
        law_adds_touch_no_other(Ledger::empty(), adds, name);
    }
    let i = last_under(adds, name);
    law_adds_keep_latest(Ledger::empty(), adds, i);
    assert(adds[i] == records[k]);
}

/// The place of the last add under `name`, where `adds` has one.
proof fn last_under(adds: Seq<Record>, name: Seq<char>) -> (i: int)
    requires
        names_bill(adds, name),
    ensures
        is_latest(adds, i),
        adds[i].name == name,
    decreases adds.len(),
{
    if adds[adds.len() - 1].name == name {
        adds.len() - 1
    } else {
        let front = adds.drop_last();
        let k = choose|k: int| 0 <= k < adds.len() && (#[trigger] adds[k]).name == name;
        assert(front[k].name == name);
        let i = last_under(front, name);
        assert(front[i] == adds[i]);
        assert forall|j: int| i < j < adds.len() implies
            (#[trigger] adds[j]).name != adds[i].name by {
            if j < front.len() {
                assert(front[j] == adds[j]);
            }
        }
        i
    }
}

/// What is left when the start is trimmed begins with no white space.
proof fn lemma_trim_start_bares(text: Seq<char>)
    ensures
        trim_start(text).len() > 0 ==> !white_space(trim_start(text).first()),
    decreases text.len(),
{
    if text.len() > 0 && white_space(text.first()) {
        lemma_trim_start_bares(text.drop_first());
    }
}

/// What is left when the end is trimmed ends with no white space, and begins as the
/// text began.
proof fn lemma_trim_end_bares(text: Seq<char>)
    ensures
        trim_end(text).len() > 0 ==> !white_space(trim_end(text).last()),
        trim_end(text).len() > 0 ==> trim_end(text).first() == text.first(),
    decreases text.len(),
{
    if text.len() > 0 && white_space(text.last()) {
        lemma_trim_end_bares(text.drop_last());
    }
}

/// The input that a line stands for is never empty, and has no white space at
/// either end.
pub proof fn law_input_has_bare_ends(line: Seq<char>)
    ensures
        input_of(line) matches Some(text) ==> text.len() > 0,
        input_of(line) matches Some(text) ==> !white_space(text.first()),
        input_of(line) matches Some(text) ==> !white_space(text.last()),
{
    lemma_trim_start_bares(line);
    lemma_trim_end_bares(trim_start(line));
}

/// Text without white space at its ends is the input that it stands for: reading an
/// input again gives the same input.
pub proof fn law_input_reads_as_itself(line: Seq<char>)
    ensures
        input_of(line) matches Some(text) ==> input_of(text) == Some(text),
{
    law_input_has_bare_ends(line);
    assert(trimmed(line).len() > 0 ==> trimmed(trimmed(line)) == trimmed(line));
}

/// At every stage, no input leaves the store as it was. Within a choice it leads
/// back to the menu, and at the menu it ends the session.
pub proof fn law_cancel_changes_nothing(stage: StageView, bills: Ledger)
    ensures
        turn(stage, bills, None).bills == bills,
        stage is AwaitingSelection || stage is Terminated
            ==> turn(stage, bills, None).stage is Terminated,
        !(stage is AwaitingSelection || stage is Terminated)
            ==> turn(stage, bills, None).stage is AwaitingSelection,
{
}

} // verus!
