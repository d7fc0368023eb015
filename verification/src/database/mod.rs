//! A store of changes to entities and their attributes.

use vstd::prelude::*;
use crate::database::index::Index;
use crate::database::transaction::{
    views, Change, ChangeType, ChangeView, Transaction, TransactionView,
};

pub mod index;
pub mod transaction;

verus! {

/// What facts are about.
#[derive(Debug)]
pub struct Entity {
    pub id: u64,
    pub attributes: Vec<Attribute>,
}

impl Entity {
    /// An entity without attributes.
    pub fn new() -> (entity: Entity)
        ensures
            entity.id == 0,
            entity.attributes@.len() == 0,
    {
        Entity { id: 0, attributes: Vec::new() }
    }
}

/// What a fact says of an entity.
#[derive(Debug)]
pub struct Attribute {
    pub name: String,
    pub display: String,
    pub value: Vec<(u64, u64)>,
}

impl Attribute {
    /// An attribute without a name and without values.
    pub fn new() -> (attribute: Attribute)
        ensures
            attribute.name@ == Seq::<char>::empty(),
            attribute.display@ == Seq::<char>::empty(),
            attribute.value@.len() == 0,
    {
        Attribute { name: String::new(), display: String::new(), value: Vec::new() }
    }
}

/// The value of a fact.
pub enum Value {
    Null,
    Number(u64),
    Bool(bool),
    String(String),
}

/// A value, with a string as a sequence of characters.
pub enum ValueView {
    Null,
    Number(u64),
    Bool(bool),
    String(Seq<char>),
}

impl View for Value {
    type V = ValueView;

    open spec fn view(&self) -> ValueView {
        match self {
            Value::Null => ValueView::Null,
            Value::Number(n) => ValueView::Number(*n),
            Value::Bool(b) => ValueView::Bool(*b),
            Value::String(s) => ValueView::String(s@),
        }
    }
}

impl Clone for Value {
    fn clone(&self) -> (copy: Value)
        ensures
            copy@ == self@,
    {
        match self {
            Value::Null => Value::Null,
            Value::Number(n) => Value::Number(*n),
            Value::Bool(b) => Value::Bool(*b),
            Value::String(s) => Value::String(s.clone()),
        }
    }
}

impl Value {
    /// The value that is the string `string`.
    pub fn from_string(string: String) -> (value: Value)
        ensures
            value@ == ValueView::String(string@),
    {
        Value::String(string)
    }

    /// The value that is the string `string`.
    pub fn from_str(string: &str) -> (value: Value)
        ensures
            value@ == ValueView::String(string@),
    {
        Value::String(string.to_owned())
    }

    /// The value that is the number `number`.
    pub fn from_int(number: u64) -> (value: Value)
        ensures
            value@ == ValueView::Number(number),
    {
        Value::Number(number)
    }
}

/// `entity` is as `Entity::new` makes it.
pub open spec fn empty_entity(entity: Entity) -> bool {
    entity.id == 0 && entity.attributes@.len() == 0
}

/// `attribute` is as `Attribute::new` makes it.
pub open spec fn empty_attribute(attribute: Attribute) -> bool {
    &&& attribute.name@ == Seq::<char>::empty()
    &&& attribute.display@ == Seq::<char>::empty()
    &&& attribute.value@.len() == 0
}

/// Keeps every change that the database has taken in, in order.
pub struct Interner {
    pub store: Vec<Change>,
}

impl View for Interner {
    type V = Seq<ChangeView>;

    open spec fn view(&self) -> Seq<ChangeView> {
        views(self.store@)
    }
}

impl Interner {
    /// An interner that keeps nothing.
    pub fn new() -> (interner: Interner)
        ensures
            interner@ == Seq::<ChangeView>::empty(),
            interner.store@.len() == 0,
    {
        let interner = Interner { store: Vec::new() };
        assert(interner@ =~= Seq::<ChangeView>::empty());
        interner
    }

    /// Keeps a copy of `change`, behind the changes kept so far.
    pub fn intern_change(&mut self, change: &Change)
        ensures
            final(self)@ == old(self)@.push(change@),
            final(self).store@.len() == old(self).store@.len() + 1,
    {
        self.store.push(change.clone());
        assert(self@ =~= old(self)@.push(change@));
    }
}

/// The names of the entities and of the attributes that the indices hold.
pub struct Names {
    pub entities: Set<Seq<char>>,
    pub attributes: Set<Seq<char>>,
}

impl Names {
    /// The names after `change`: an added fact enters its entity and its
    /// attribute, a removed one takes out its entity.
    pub open spec fn apply(self, change: ChangeView) -> Names {
        match change.kind {
            ChangeType::Add => Names {
                entities: self.entities.insert(change.entity),
                attributes: self.attributes.insert(change.attribute),
            },
            ChangeType::Remove => Names {
                entities: self.entities.remove(change.entity),
                attributes: self.attributes,
            },
        }
    }

    /// The names after the changes `changes[from]` to `changes[to - 1]`,
    /// in order.
    pub open spec fn apply_range(self, changes: Seq<ChangeView>, from: int, to: int) -> Names
        decreases to - from,
    {
        if to <= from {
            self
        } else {
            self.apply_range(changes, from, to - 1).apply(changes[to - 1])
        }
    }
}

/// The database as contracts see it.
pub struct DatabaseView {
    pub epoch: u64,
    pub round: u64,
    pub transactions: Seq<TransactionView>,
    pub names: Names,
    pub store: Seq<ChangeView>,
}

impl DatabaseView {
    /// The database after it has taken in `transaction` at the time
    /// `now`.
    ///
    /// A transaction that was taken in before is only kept. Of any other
    /// the changes are kept, the additions before the removals, and
    /// entered into the indices; the transaction is marked with the time,
    /// the epoch and the round, and the round goes up by one. The epoch
    /// goes up by one in either case.
    pub open spec fn register(self, transaction: TransactionView, now: u64) -> DatabaseView {
        if transaction.complete != 0 {
            DatabaseView {
                epoch: (self.epoch + 1) as u64,
                transactions: self.transactions.push(transaction),
                ..self
            }
        } else {
            let store = self.store + transaction.adds + transaction.removes;
            DatabaseView {
                epoch: (self.epoch + 1) as u64,
                round: (self.round + 1) as u64,
                transactions: self.transactions.push(
                    TransactionView {
                        complete: now,
                        epoch: self.epoch,
                        round: self.round,
                        ..transaction
                    },
                ),
                names: self.names.apply_range(store, self.store.len() as int, store.len() as int),
                store,
            }
        }
    }
}

/// A database of facts: the transactions that it has taken in, their
/// changes, and indices of the entities and attributes that the facts name.
pub struct Database {
    epoch: u64,
    round: u64,
    transactions: Vec<Transaction>,
    entity_index: Index<Entity>,
    attribute_index: Index<Attribute>,
    store: Interner,
    scanned: usize,
    txn_pointer: usize,
}

impl View for Database {
    type V = DatabaseView;

    closed spec fn view(&self) -> DatabaseView {
        DatabaseView {
            epoch: self.epoch,
            round: self.round,
            transactions: Seq::new(self.transactions@.len(), |i: int| self.transactions@[i]@),
            names: Names {
                entities: self.entity_index.names(),
                attributes: self.attribute_index.names(),
            },
            store: self.store@,
        }
    }
}

impl Database {
    /// Every transaction has been looked at, and every change has been
    /// entered into the indices.
    pub closed spec fn wf(&self) -> bool {
        &&& self.txn_pointer == self.transactions@.len()
        &&& self.scanned == self.store.store@.len()
        &&& self.indices_hold_empty_values()
    }

    /// The indices hold an empty entity for each entity and an empty
    /// attribute for each attribute.
    pub closed spec fn indices_hold_empty_values(&self) -> bool {
        &&& forall|name: Seq<char>| #[trigger]
            self.entity_index.contains(name) ==> empty_entity(self.entity_index.entries()[name])
        &&& forall|name: Seq<char>| #[trigger]
            self.attribute_index.contains(name) ==> empty_attribute(
                self.attribute_index.entries()[name],
            )
    }

    /// An empty database.
    pub fn new() -> (database: Database)
        ensures
            database.wf(),
            database@ == (DatabaseView {
                epoch: 0,
                round: 0,
                transactions: Seq::<TransactionView>::empty(),
                names: Names {
                    entities: Set::<Seq<char>>::empty(),
                    attributes: Set::<Seq<char>>::empty(),
                },
                store: Seq::<ChangeView>::empty(),
            }),
    {
        let database = Database {
            epoch: 0,
            round: 0,
            transactions: Vec::new(),
            entity_index: Index::new(),
            attribute_index: Index::new(),
            store: Interner::new(),
            scanned: 0,
            txn_pointer: 0,
        };
        assert(database@.transactions =~= Seq::<TransactionView>::empty());
        database
    }

    /// The number of transactions that the database has seen.
    pub fn epoch(&self) -> (epoch: u64)
        ensures
            epoch == self@.epoch,
    {
        self.epoch
    }

    /// The number of transactions that the database has taken in.
    pub fn round(&self) -> (round: u64)
        ensures
            round == self@.round,
    {
        self.round
    }

    /// The transactions, in the order in which they came.
    pub fn transactions(&self) -> (transactions: &Vec<Transaction>)
        ensures
            transactions@.len() == self@.transactions.len(),
            forall|i: int|
                0 <= i < transactions@.len() ==> (#[trigger] transactions@[i])@
                    == self@.transactions[i],
    {
        &self.transactions
    }

    /// The changes that were taken in, in order.
    pub fn changes(&self) -> (changes: &Vec<Change>)
        ensures
            views(changes@) == self@.store,
    {
        &self.store.store
    }

    /// The entity that the index holds for `name`, which is empty.
    pub fn entity(&self, name: &String) -> (entity: Option<&Entity>)
        requires
            self.wf(),
        ensures
            entity is Some <==> self@.names.entities.contains(name@),
            entity matches Some(e) ==> empty_entity(*e),
    {
        self.entity_index.get(name)
    }

    /// The attribute that the index holds for `name`, which is empty.
    pub fn attribute(&self, name: &String) -> (attribute: Option<&Attribute>)
        requires
            self.wf(),
        ensures
            attribute is Some <==> self@.names.attributes.contains(name@),
            attribute matches Some(a) ==> empty_attribute(*a),
    {
        self.attribute_index.get(name)
    }

    /// The index of entities names `name`.
    pub fn has_entity(&self, name: &String) -> (found: bool)
        ensures
            found == self@.names.entities.contains(name@),
    {
        self.entity_index.contains_key(name)
    }

    /// The index of attributes names `name`.
    pub fn has_attribute(&self, name: &String) -> (found: bool)
        ensures
            found == self@.names.attributes.contains(name@),
    {
        self.attribute_index.contains_key(name)
    }

    /// Does nothing: an empty database needs no preparation.
    pub fn init(&self) {
    }

    /// Takes in `transaction` at the time `now`. The counts of epochs and
    /// of rounds must have room for one more.
    pub fn register_transaction(&mut self, transaction: Transaction, now: u64)
        requires
            old(self).wf(),
            old(self)@.epoch < u64::MAX,
            old(self)@.round < u64::MAX,
        ensures
            final(self).wf(),
            final(self)@ == old(self)@.register(transaction@, now),
    {
        self.transactions.push(transaction);
        self.process_transactions(now);
        self.update_indices();
        self.txn_pointer = self.transactions.len();
        self.epoch = self.epoch + 1;
        proof {
            let done = self@;
            let spec = old(self)@.register(transaction@, now);
            assert(done.transactions =~= spec.transactions);
            assert(done.store =~= spec.store);
        }
    }

    /// Takes in the last transaction, unless it was taken in before: its
    /// changes are kept, and it is marked.
    fn process_transactions(&mut self, now: u64)
        requires
            old(self).transactions@.len() == old(self).txn_pointer + 1,
            old(self).round < u64::MAX,
        ensures
            final(self).epoch == old(self).epoch,
            final(self).entity_index == old(self).entity_index,
            final(self).attribute_index == old(self).attribute_index,
            final(self).scanned == old(self).scanned,
            final(self).store.store@.len() >= old(self).store.store@.len(),
            final(self).txn_pointer == old(self).txn_pointer,
            final(self).transactions@.len() == old(self).transactions@.len(),
            forall|i: int|
                0 <= i < old(self).txn_pointer ==> final(self).transactions@[i] == old(
                    self,
                ).transactions@[i],
            ({
                let last = old(self).transactions@[old(self).txn_pointer as int]@;
                let marked = final(self).transactions@[old(self).txn_pointer as int]@;
                if last.complete != 0 {
                    &&& marked == last
                    &&& final(self).round == old(self).round
                    &&& final(self).store@ == old(self).store@
                } else {
                    &&& marked == (TransactionView {
                        complete: now,
                        epoch: old(self).epoch,
                        round: old(self).round,
                        ..last
                    })
                    &&& final(self).round == old(self).round + 1
                    &&& final(self).store@ == old(self).store@ + last.adds + last.removes
                }
            }),
    {
        let position = self.txn_pointer;
        let mut txn = self.transactions.pop().unwrap();
        if !txn.is_complete() {
            // Handle the adds
            let mut i: usize = 0;
            while i < txn.adds.len()
                invariant
                    i <= txn.adds@.len(),
                    self.epoch == old(self).epoch,
                    self.round == old(self).round,
                    self.entity_index == old(self).entity_index,
                    self.attribute_index == old(self).attribute_index,
                    self.scanned == old(self).scanned,
                    self.store.store@.len() >= old(self).store.store@.len(),
                    self.txn_pointer == old(self).txn_pointer,
                    self.transactions@ == old(self).transactions@.drop_last(),
                    self.store@ == old(self).store@ + views(txn.adds@).subrange(0, i as int),
                decreases txn.adds@.len() - i,
            {
                self.store.intern_change(&txn.adds[i]);
                i += 1;
                assert(self.store@ =~= old(self).store@ + views(txn.adds@).subrange(0, i as int));
            }
            assert(views(txn.adds@).subrange(0, i as int) =~= views(txn.adds@));
            // Handle the removes
            let mut j: usize = 0;
            while j < txn.removes.len()
                invariant
                    j <= txn.removes@.len(),
                    self.epoch == old(self).epoch,
                    self.round == old(self).round,
                    self.entity_index == old(self).entity_index,
                    self.attribute_index == old(self).attribute_index,
                    self.scanned == old(self).scanned,
                    self.store.store@.len() >= old(self).store.store@.len(),
                    self.txn_pointer == old(self).txn_pointer,
                    self.transactions@ == old(self).transactions@.drop_last(),
                    self.store@ == old(self).store@ + views(txn.adds@) + views(
                        txn.removes@,
                    ).subrange(0, j as int),
                decreases txn.removes@.len() - j,
            {
                self.store.intern_change(&txn.removes[j]);
                j += 1;
                assert(self.store@ =~= old(self).store@ + views(txn.adds@) + views(
                    txn.removes@,
                ).subrange(0, j as int));
            }
            assert(views(txn.removes@).subrange(0, j as int) =~= views(txn.removes@));
            txn.process(now);
            txn.epoch = self.epoch;
            txn.round = self.round;
            self.round = self.round + 1;
        }
        self.transactions.push(txn);
        assert(self.transactions@.len() == old(self).transactions@.len());
    }

    /// Enters the changes that were kept since the indices were brought up
    /// to date.
    fn update_indices(&mut self)
        requires
            old(self).scanned <= old(self).store.store@.len(),
            old(self).indices_hold_empty_values(),
        ensures
            final(self).indices_hold_empty_values(),
            final(self).epoch == old(self).epoch,
            final(self).round == old(self).round,
            final(self).transactions == old(self).transactions,
            final(self).store == old(self).store,
            final(self).txn_pointer == old(self).txn_pointer,
            final(self).scanned == old(self).store.store@.len(),
            final(self)@.names == old(self)@.names.apply_range(
                old(self).store@,
                old(self).scanned as int,
                old(self).store@.len() as int,
            ),
    {
        let mut i: usize = self.scanned;
        while i < self.store.store.len()
            invariant
                old(self).scanned <= i <= self.store.store@.len(),
                self.indices_hold_empty_values(),
                self.epoch == old(self).epoch,
                self.round == old(self).round,
                self.transactions == old(self).transactions,
                self.store == old(self).store,
                self.txn_pointer == old(self).txn_pointer,
                self@.names == old(self)@.names.apply_range(
                    old(self).store@,
                    old(self).scanned as int,
                    i as int,
                ),
            decreases self.store.store@.len() - i,
        {
            let change = &self.store.store[i];
            match change.kind {
                ChangeType::Add => {
                    let entity = change.entity.clone();
                    let attribute = change.attribute.clone();
                    self.entity_index.insert(entity, Entity::new());
                    self.attribute_index.insert(attribute, Attribute::new());
                },
                ChangeType::Remove => {
                    let entity = change.entity.clone();
                    self.entity_index.remove(&entity);
                },
            }
            i += 1;
        }
        self.scanned = self.store.store.len();
    }
}

} // verus!
