//! Changes, and the transactions that bring them to the database.

use vstd::prelude::*;
use crate::database::{Value, ValueView};

verus! {

/// What a change does to a fact.
#[derive(Debug, Clone, Copy, PartialEq, Eq, Structural)]
pub enum ChangeType {
    Add,
    Remove,
}

/// One fact added or removed: an entity, an attribute and a value.
pub struct Change {
    pub kind: ChangeType,
    pub entity: String,
    pub attribute: String,
    pub value: Value,
}

/// A change, with its strings as sequences of characters.
pub struct ChangeView {
    pub kind: ChangeType,
    pub entity: Seq<char>,
    pub attribute: Seq<char>,
    pub value: ValueView,
}

impl View for Change {
    type V = ChangeView;

    open spec fn view(&self) -> ChangeView {
        ChangeView {
            kind: self.kind,
            entity: self.entity@,
            attribute: self.attribute@,
            value: self.value@,
        }
    }
}

impl Clone for Change {
    fn clone(&self) -> (copy: Change)
        ensures
            copy@ == self@,
    {
        Change {
            kind: self.kind,
            entity: self.entity.clone(),
            attribute: self.attribute.clone(),
            value: self.value.clone(),
        }
    }
}

impl Change {
    /// The change that adds nothing to nothing.
    pub fn new() -> (change: Change)
        ensures
            change@ == (ChangeView {
                kind: ChangeType::Add,
                entity: Seq::<char>::empty(),
                attribute: Seq::<char>::empty(),
                value: ValueView::Null,
            }),
    {
        Change {
            kind: ChangeType::Add,
            entity: String::new(),
            attribute: String::new(),
            value: Value::Null,
        }
    }

    /// The change that adds `value` as the `attribute` of `entity`.
    pub fn from_eav(entity: &str, attribute: &str, value: Value) -> (change: Change)
        ensures
            change@ == (ChangeView {
                kind: ChangeType::Add,
                entity: entity@,
                attribute: attribute@,
                value: value@,
            }),
    {
        let e = entity.to_owned();
        let a = attribute.to_owned();
        Change { kind: ChangeType::Add, entity: e, attribute: a, value }
    }

    /// The change that adds `value`, of no entity and no attribute.
    pub fn new_add(value: Value) -> (change: Change)
        ensures
            change@ == (ChangeView {
                kind: ChangeType::Add,
                entity: Seq::<char>::empty(),
                attribute: Seq::<char>::empty(),
                value: value@,
            }),
    {
        let mut change = Change::new();
        change.value = value;
        change
    }

    /// The change that removes `value`, of no entity and no attribute.
    pub fn new_remove(value: Value) -> (change: Change)
        ensures
            change@ == (ChangeView {
                kind: ChangeType::Remove,
                entity: Seq::<char>::empty(),
                attribute: Seq::<char>::empty(),
                value: value@,
            }),
    {
        let mut change = Change::new();
        change.kind = ChangeType::Remove;
        change.value = value;
        change
    }
}

/// The views of the changes `changes`, in order.
pub open spec fn views(changes: Seq<Change>) -> Seq<ChangeView> {
    Seq::new(changes.len(), |i: int| changes[i]@)
}

/// Changes that reach the database together. `complete` is the time at
/// which the database took them in, or 0 while it has not.
pub struct Transaction {
    pub timestamp: u64,
    pub complete: u64,
    pub epoch: u64,
    pub round: u64,
    pub adds: Vec<Change>,
    pub removes: Vec<Change>,
}

/// A transaction, with its changes as views.
pub struct TransactionView {
    pub timestamp: u64,
    pub complete: u64,
    pub epoch: u64,
    pub round: u64,
    pub adds: Seq<ChangeView>,
    pub removes: Seq<ChangeView>,
}

impl View for Transaction {
    type V = TransactionView;

    open spec fn view(&self) -> TransactionView {
        TransactionView {
            timestamp: self.timestamp,
            complete: self.complete,
            epoch: self.epoch,
            round: self.round,
            adds: views(self.adds@),
            removes: views(self.removes@),
        }
    }
}

impl Transaction {
    /// An empty transaction that was made at the time `timestamp`.
    pub fn new(timestamp: u64) -> (transaction: Transaction)
        ensures
            transaction@ == (TransactionView {
                timestamp,
                complete: 0,
                epoch: 0,
                round: 0,
                adds: Seq::<ChangeView>::empty(),
                removes: Seq::<ChangeView>::empty(),
            }),
    {
        let transaction = Transaction {
            timestamp,
            complete: 0,
            epoch: 0,
            round: 0,
            adds: Vec::new(),
            removes: Vec::new(),
        };
        assert(transaction@.adds =~= Seq::<ChangeView>::empty());
        assert(transaction@.removes =~= Seq::<ChangeView>::empty());
        transaction
    }

    /// Marks the transaction as taken in at the time `now`, unless it was
    /// taken in before, and returns the time at which it was.
    pub fn process(&mut self, now: u64) -> (complete: u64)
        ensures
            complete == if old(self).complete == 0 {
                now
            } else {
                old(self).complete
            },
            final(self)@ == (TransactionView { complete, ..old(self)@ }),
    {
        if self.complete == 0 {
            self.complete = now;
        }
        self.complete
    }

    /// The transaction was taken in.
    pub fn is_complete(&self) -> (complete: bool)
        ensures
            complete == (self.complete != 0),
    {
        self.complete != 0
    }
}

} // verus!
