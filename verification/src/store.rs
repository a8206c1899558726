//! The record store: bills, and the collection that holds one bill per name.

use vstd::prelude::*;

verus! {

/// A bill: a name and the amount owed under it.
#[derive(Debug, PartialEq, Eq)]
pub struct Bill {
    pub name: String,
    pub amount: i32,
}

impl Clone for Bill {
    fn clone(&self) -> (copy: Self)
        ensures
            copy == *self,
    {
        Bill { name: self.name.clone(), amount: self.amount }
    }
}

/// What a bill stands for: its name as text and its amount as a number.
pub struct Record {
    pub name: Seq<char>,
    pub amount: int,
}

impl View for Bill {
    type V = Record;

    open spec fn view(&self) -> Record {
        Record { name: self.name@, amount: self.amount as int }
    }
}

impl DeepView for Bill {
    type V = Record;

    open spec fn deep_view(&self) -> Record {
        self@
    }
}

/// The bills as a mapping: from each name to the amount owed under it.
pub type Ledger = Map<Seq<char>, int>;

/// Some record of `records` carries `name`.
pub open spec fn names_bill(records: Seq<Record>, name: Seq<char>) -> bool {
    exists|i: int| 0 <= i < records.len() && (#[trigger] records[i]).name == name
}

/// No two records of `records` carry the same name.
pub open spec fn distinct_names(records: Seq<Record>) -> bool {
    forall|i: int, j: int|
        0 <= i < j < records.len() ==> (#[trigger] records[i]).name != (#[trigger] records[j]).name
}

/// An index at which `records` carries `name`, where there is one.
pub open spec fn place_of(records: Seq<Record>, name: Seq<char>) -> int {
    choose|i: int| 0 <= i < records.len() && (#[trigger] records[i]).name == name
}

/// The records read as a mapping: each name that occurs, to the amount recorded
/// under it.
pub open spec fn amounts(records: Seq<Record>) -> Ledger {
    Map::new(
        |name: Seq<char>| names_bill(records, name),
        |name: Seq<char>| records[place_of(records, name)].amount,
    )
}

/// `records` enumerates `bills`: one record for each name of the mapping, with its
/// amount, and no name twice. The order of the records is left open.
pub open spec fn lists(records: Seq<Record>, bills: Ledger) -> bool {
    distinct_names(records) && amounts(records) == bills
}

/// Where names are distinct, each record is found again under its name.
pub proof fn lemma_amounts_at(records: Seq<Record>, i: int)
    requires
        distinct_names(records),
        0 <= i < records.len(),
    ensures
        amounts(records).contains_key(records[i].name),
        amounts(records)[records[i].name] == records[i].amount,
        place_of(records, records[i].name) == i,
{
    let name = records[i].name;
    assert(names_bill(records, name));
    let k = place_of(records, name);
    assert(0 <= k < records.len() && records[k].name == name);
    if k < i {
        assert(records[k].name != records[i].name);
    } else if i < k {
        assert(records[i].name != records[k].name);
    }
}

/// The store of bills. It holds at most one bill under each name, so that it stands
/// for a mapping from names to amounts: its view.
#[derive(Debug)]
pub struct Bills {
    inner: Vec<Bill>,
}

impl View for Bills {
    type V = Ledger;

    /// The store as a mapping from each name to the amount owed under it.
    closed spec fn view(&self) -> Ledger {
        amounts(self.inner.deep_view())
    }
}

impl Clone for Bills {
    fn clone(&self) -> (copy: Self)
        ensures
            copy@ == self@,
    {
        proof {
            use_type_invariant(self);
        }
        let inner = self.inner.clone();
        assert(inner@ =~= self.inner@);
        Bills { inner }
    }
}

impl Bills {
    #[verifier::type_invariant]
    spec fn one_bill_per_name(&self) -> bool {
        distinct_names(self.inner.deep_view())
    }

    /// An empty store.
    pub fn new() -> (bills: Self)
        ensures
            bills@ == Ledger::empty(),
    {
        let bills = Bills { inner: Vec::new() };
        assert(bills@ =~= Ledger::empty());
        bills
    }

    /// Where the bill named `name` stands among `records`, if one does.
    fn find(records: &Vec<Bill>, name: &String) -> (at: Option<usize>)
        ensures
            at matches Some(i) ==> i < records.len() && records[i as int].name@ == name@,
            at is None ==> forall|i: int| 0 <= i < records.len() ==> records[i].name@ != name@,
    {
        let mut i: usize = 0;
        while i < records.len()
            invariant
                i <= records.len(),
                forall|k: int| 0 <= k < i ==> records[k].name@ != name@,
            decreases records.len() - i,
        {
            if records[i].name == *name {
                return Some(i);
            }
            i += 1;
        }
        None
    }

    /// Puts `bill` into the store under its name. A bill that stood under that name
    /// before is replaced; every other bill stays as it was.
    pub fn add_bill(&mut self, bill: Bill)
        ensures
            final(self)@ == old(self)@.insert(bill.name@, bill.amount as int),
    {
        proof {
            use_type_invariant(&*self);
        }
        let mut inner: Vec<Bill> = Vec::new();
        std::mem::swap(&mut inner, &mut self.inner);
        let ghost before = inner.deep_view();
        let ghost record = bill@;
        match Self::find(&inner, &bill.name) {
            Some(i) => {
                inner.set(i, bill);
                proof {
                    lemma_replaced(before, i as int, record);
                    assert(inner.deep_view() =~= before.update(i as int, record));
                }
            },
            None => {
                inner.push(bill);
                proof {
                    lemma_appended(before, record);
                    assert(inner.deep_view() =~= before.push(record));
                }
            },
        }
        self.inner = inner;
    }

    /// Every bill of the store, once each.
    pub fn get_bills(&self) -> (list: Vec<&Bill>)
        ensures
            lists(list.deep_view(), self@),
    {
        proof {
            use_type_invariant(self);
        }
        let mut list: Vec<&Bill> = Vec::new();
        let mut i: usize = 0;
        while i < self.inner.len()
            invariant
                i <= self.inner.len(),
                list.len() == i,
                forall|k: int| 0 <= k < i ==> *list[k] == self.inner[k],
            decreases self.inner.len() - i,
        {
            list.push(&self.inner[i]);
            i += 1;
        }
        assert(list.deep_view() =~= self.inner.deep_view());
        list
    }

    /// Takes the bill named `name` out of the store, and says whether there was one.
    pub fn remove_bill(&mut self, name: &str) -> (removed: bool)
        ensures
            removed == old(self)@.contains_key(name@),
            final(self)@ == old(self)@.remove(name@),
            !removed ==> *final(self) == *old(self),
    {
        proof {
            use_type_invariant(&*self);
        }
        let key = name.to_owned();
        let ghost before = self.inner.deep_view();
        match Self::find(&self.inner, &key) {
            Some(i) => {
                let mut inner: Vec<Bill> = Vec::new();
                std::mem::swap(&mut inner, &mut self.inner);
                let _ = inner.remove(i);
                proof {
                    lemma_removed(before, i as int);
                    assert(inner.deep_view() =~= before.remove(i as int));
                }
                self.inner = inner;
                true
            },
            None => {
                proof {
                    lemma_absent(before, name@);
                }
                false
            },
        }
    }

    /// Sets the amount of the bill named `name` to `amount`, and says whether there is
    /// such a bill. Where there is one, the store holds the same names as before and
    /// every other bill keeps its amount. Where there is none, the store stays as it
    /// was.
    pub fn update(&mut self, name: &str, amount: i32) -> (updated: bool)
        ensures
            updated == old(self)@.contains_key(name@),
            updated ==> final(self)@ == old(self)@.insert(name@, amount as int),
            updated ==> final(self)@.dom() == old(self)@.dom(),
            forall|other: Seq<char>|
                other != name@ && old(self)@.contains_key(other)
                    ==> #[trigger] final(self)@[other] == old(self)@[other],
            !updated ==> *final(self) == *old(self),
    {
        proof {
            use_type_invariant(&*self);
        }
        let key = name.to_owned();
        let ghost before = self.inner.deep_view();
        match Self::find(&self.inner, &key) {
            Some(i) => {
                let mut inner: Vec<Bill> = Vec::new();
                std::mem::swap(&mut inner, &mut self.inner);
                inner.set(i, Bill { name: key, amount });
                proof {
                    let record = Record { name: name@, amount: amount as int };
                    lemma_amounts_at(before, i as int);
                    lemma_replaced(before, i as int, record);
                    assert(inner.deep_view() =~= before.update(i as int, record));
                    assert(amounts(before).insert(name@, amount as int).dom()
                        =~= amounts(before).dom());
                }
                self.inner = inner;
                true
            },
            None => {
                proof {
                    lemma_absent(before, name@);
                }
                false
            },
        }
    }
}

/// A name that no record carries is no key of the mapping.
pub proof fn lemma_absent(records: Seq<Record>, name: Seq<char>)
    requires
        forall|i: int| 0 <= i < records.len() ==> (#[trigger] records[i]).name != name,
    ensures
        !amounts(records).contains_key(name),
        amounts(records).remove(name) == amounts(records),
{
    assert(amounts(records).remove(name) =~= amounts(records));
}

/// A record under a new name, put at the end, is one insertion into the mapping.
pub proof fn lemma_appended(records: Seq<Record>, record: Record)
    requires
        distinct_names(records),
        forall|i: int| 0 <= i < records.len() ==> (#[trigger] records[i]).name != record.name,
    ensures
        distinct_names(records.push(record)),
        amounts(records.push(record)) == amounts(records).insert(record.name, record.amount),
{
    let after = records.push(record);
    assert(distinct_names(after));
    assert forall|name: Seq<char>|
        names_bill(after, name) <==> (names_bill(records, name) || name == record.name) by {
        if names_bill(after, name) {
            let k = place_of(after, name);
            if k < records.len() {
                assert(records[k].name == name);
            }
        }
        if names_bill(records, name) {
            let k = place_of(records, name);
            assert(after[k].name == name);
        }
        if name == record.name {
            assert(after[records.len() as int].name == name);
        }
    }
    assert forall|name: Seq<char>| names_bill(after, name) implies
        amounts(after)[name] == amounts(records).insert(record.name, record.amount)[name] by {
        let k = place_of(after, name);
        lemma_amounts_at(after, k);
        if k < records.len() {
            lemma_amounts_at(records, k);
        }
    }
    assert(amounts(after) =~= amounts(records).insert(record.name, record.amount));
}

/// A record put in the place of one with the same name is one insertion into the
/// mapping.
pub proof fn lemma_replaced(records: Seq<Record>, i: int, record: Record)
    requires
        distinct_names(records),
        0 <= i < records.len(),
        records[i].name == record.name,
    ensures
        distinct_names(records.update(i, record)),
        amounts(records.update(i, record)) == amounts(records).insert(record.name, record.amount),
{
    let after = records.update(i, record);
    assert forall|a: int, b: int| 0 <= a < b < after.len() implies
        (#[trigger] after[a]).name != (#[trigger] after[b]).name by {
        assert(records[a].name != records[b].name);
    }
    assert forall|name: Seq<char>| names_bill(after, name) <==> names_bill(records, name) by {
        if names_bill(after, name) {
            let k = place_of(after, name);
            assert(records[k].name == name);
        }
        if names_bill(records, name) {
            let k = place_of(records, name);
            assert(after[k].name == name);
        }
    }
    assert(names_bill(records, record.name)) by {
        assert(records[i].name == record.name);
    }
    assert forall|name: Seq<char>| names_bill(after, name) implies
        amounts(after)[name] == amounts(records).insert(record.name, record.amount)[name] by {
        let k = place_of(after, name);
        lemma_amounts_at(after, k);
        lemma_amounts_at(records, k);
    }
    assert(amounts(after) =~= amounts(records).insert(record.name, record.amount));
}

/// Taking a record out takes its name out of the mapping.
pub proof fn lemma_removed(records: Seq<Record>, i: int)
    requires
        distinct_names(records),
        0 <= i < records.len(),
    ensures
        distinct_names(records.remove(i)),
        amounts(records).contains_key(records[i].name),
        amounts(records.remove(i)) == amounts(records).remove(records[i].name),
{
    let after = records.remove(i);
    let gone = records[i].name;
    assert forall|a: int, b: int| 0 <= a < b < after.len() implies
        (#[trigger] after[a]).name != (#[trigger] after[b]).name by {
        let a0 = if a < i { a } else { a + 1 };
        let b0 = if b < i { b } else { b + 1 };
        assert(after[a] == records[a0] && after[b] == records[b0]);
        assert(records[a0].name != records[b0].name);
    }
    lemma_amounts_at(records, i);
    assert forall|name: Seq<char>|
        names_bill(after, name) <==> (names_bill(records, name) && name != gone) by {
        if names_bill(after, name) {
            let k = place_of(after, name);
            let k0 = if k < i { k } else { k + 1 };
            assert(records[k0].name == name);
            if k0 < i {
                assert(records[k0].name != records[i].name);
            } else {
                assert(records[i].name != records[k0].name);
            }
        }
        if names_bill(records, name) && name != gone {
            let k = place_of(records, name);
            let k1 = if k < i { k } else { k - 1 };
            assert(after[k1].name == name);
        }
    }
    assert forall|name: Seq<char>| names_bill(after, name) implies
        amounts(after)[name] == amounts(records)[name] by {
        let k = place_of(after, name);
        let k0 = if k < i { k } else { k + 1 };
        lemma_amounts_at(after, k);
        lemma_amounts_at(records, k0);
    }
    assert(amounts(after) =~= amounts(records).remove(gone));
}

} // verus!
