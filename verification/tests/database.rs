use hivemind::database::transaction::{Change, ChangeType, Transaction};
use hivemind::database::index::Index;
use hivemind::database::{Attribute, Database, Entity, Interner, Value};

fn string(value: &Value) -> Option<&str> {
    match value {
        Value::String(s) => Some(s.as_str()),
        _ => None,
    }
}

#[test]
fn values() {
    assert_eq!(string(&Value::from_str("abc")), Some("abc"));
    assert_eq!(string(&Value::from_string(String::from("xyz"))), Some("xyz"));
    assert!(matches!(Value::from_int(42), Value::Number(42)));
    assert!(matches!(Value::from_int(42).clone(), Value::Number(42)));
    assert_eq!(string(&Value::from_str("abc").clone()), Some("abc"));
}

#[test]
fn empty_entity_and_attribute() {
    let entity = Entity::new();
    assert_eq!(entity.id, 0);
    assert!(entity.attributes.is_empty());
    let attribute = Attribute::new();
    assert_eq!(attribute.name, "");
    assert_eq!(attribute.display, "");
    assert!(attribute.value.is_empty());
}

#[test]
fn changes() {
    let change = Change::new();
    assert_eq!(change.kind, ChangeType::Add);
    assert_eq!(change.entity, "");
    assert_eq!(change.attribute, "");
    assert!(matches!(change.value, Value::Null));
    let change = Change::from_eav("cat", "legs", Value::from_int(4));
    assert_eq!(change.kind, ChangeType::Add);
    assert_eq!(change.entity, "cat");
    assert_eq!(change.attribute, "legs");
    assert!(matches!(change.value, Value::Number(4)));
    let change = Change::new_add(Value::Bool(true));
    assert_eq!(change.kind, ChangeType::Add);
    assert!(matches!(change.value, Value::Bool(true)));
    let change = Change::new_remove(Value::from_str("gone"));
    assert_eq!(change.kind, ChangeType::Remove);
    assert_eq!(string(&change.value), Some("gone"));
    let copy = change.clone();
    assert_eq!(copy.kind, ChangeType::Remove);
    assert_eq!(string(&copy.value), Some("gone"));
}

#[test]
fn transactions() {
    let mut transaction = Transaction::new(17);
    assert_eq!(transaction.timestamp, 17);
    assert!(!transaction.is_complete());
    assert_eq!(transaction.process(30), 30);
    assert!(transaction.is_complete());
    assert_eq!(transaction.process(40), 30);
    assert_eq!(transaction.complete, 30);
}

#[test]
fn interner_keeps_copies() {
    let mut interner = Interner::new();
    interner.intern_change(&Change::from_eav("a", "b", Value::Null));
    interner.intern_change(&Change::from_eav("c", "d", Value::Null));
    assert_eq!(interner.store.len(), 2);
    assert_eq!(interner.store[0].entity, "a");
    assert_eq!(interner.store[1].attribute, "d");
}

fn remove(entity: &str, attribute: &str) -> Change {
    let mut change = Change::from_eav(entity, attribute, Value::Null);
    change.kind = ChangeType::Remove;
    change
}

#[test]
fn empty_database() {
    let database = Database::new();
    database.init();
    assert_eq!(database.epoch(), 0);
    assert_eq!(database.round(), 0);
    assert!(database.transactions().is_empty());
    assert!(database.changes().is_empty());
    assert!(!database.has_entity(&String::from("cat")));
}

#[test]
fn database_takes_in_a_transaction() {
    let mut database = Database::new();
    let mut transaction = Transaction::new(5);
    transaction.adds.push(Change::from_eav("cat", "legs", Value::from_int(4)));
    transaction.adds.push(Change::from_eav("dog", "name", Value::from_str("Rex")));
    transaction.removes.push(remove("dog", "name"));
    database.register_transaction(transaction, 9);
    assert_eq!(database.epoch(), 1);
    assert_eq!(database.round(), 1);
    assert_eq!(database.transactions().len(), 1);
    let kept = &database.transactions()[0];
    assert_eq!((kept.timestamp, kept.complete, kept.epoch, kept.round), (5, 9, 0, 0));
    let changes = database.changes();
    assert_eq!(changes.len(), 3);
    assert_eq!(changes[0].entity, "cat");
    assert_eq!(changes[1].entity, "dog");
    assert_eq!(changes[2].kind, ChangeType::Remove);
    assert!(database.has_entity(&String::from("cat")));
    assert!(!database.has_entity(&String::from("dog")));
    assert!(database.has_attribute(&String::from("legs")));
    assert!(database.has_attribute(&String::from("name")));
    assert!(!database.has_attribute(&String::from("cat")));
}

#[test]
fn database_counts_epochs_and_rounds() {
    let mut database = Database::new();
    database.register_transaction(Transaction::new(1), 10);
    let mut done = Transaction::new(2);
    done.process(3);
    done.adds.push(Change::from_eav("ignored", "x", Value::Null));
    database.register_transaction(done, 11);
    let mut third = Transaction::new(4);
    third.adds.push(Change::from_eav("bird", "wings", Value::from_int(2)));
    database.register_transaction(third, 12);
    assert_eq!(database.epoch(), 3);
    assert_eq!(database.round(), 2);
    let kept: Vec<(u64, u64, u64)> =
        database.transactions().iter().map(|t| (t.complete, t.epoch, t.round)).collect();
    assert_eq!(kept, vec![(10, 0, 0), (3, 0, 0), (12, 2, 1)]);
    assert_eq!(database.changes().len(), 1);
    assert!(!database.has_entity(&String::from("ignored")));
    assert!(database.has_entity(&String::from("bird")));
}

#[test]
fn later_changes_overrule_earlier_ones() {
    let mut database = Database::new();
    let mut first = Transaction::new(1);
    first.adds.push(Change::from_eav("cat", "legs", Value::from_int(4)));
    database.register_transaction(first, 2);
    let mut second = Transaction::new(3);
    second.removes.push(remove("cat", "legs"));
    database.register_transaction(second, 4);
    assert!(!database.has_entity(&String::from("cat")));
    assert!(database.has_attribute(&String::from("legs")));
    let mut third = Transaction::new(5);
    third.adds.push(Change::from_eav("cat", "legs", Value::from_int(3)));
    third.adds.push(Change::from_eav("cat", "legs", Value::from_int(3)));
    database.register_transaction(third, 6);
    assert!(database.has_entity(&String::from("cat")));
    assert_eq!(database.changes().len(), 4);
}

#[test]
fn index_of_names() {
    let mut index: Index<u32> = Index::new();
    assert_eq!(index.len(), 0);
    assert_eq!(index.get(&String::from("a")), None);
    index.insert(String::from("a"), 1);
    index.insert(String::from("b"), 2);
    index.insert(String::from("a"), 3);
    assert_eq!(index.len(), 2);
    assert_eq!(index.get(&String::from("a")), Some(&3));
    assert_eq!(index.get(&String::from("b")), Some(&2));
    assert!(index.contains_key(&String::from("b")));
    index.remove(&String::from("a"));
    index.remove(&String::from("missing"));
    assert_eq!(index.len(), 1);
    assert_eq!(index.get(&String::from("a")), None);
    assert_eq!(index.get(&String::from("b")), Some(&2));
}

#[test]
fn indices_hold_empty_entities_and_attributes() {
    let mut database = Database::new();
    let mut transaction = Transaction::new(1);
    transaction.adds.push(Change::from_eav("cat", "legs", Value::from_int(4)));
    database.register_transaction(transaction, 2);
    let entity = database.entity(&String::from("cat")).unwrap();
    assert_eq!(entity.id, 0);
    assert!(entity.attributes.is_empty());
    let attribute = database.attribute(&String::from("legs")).unwrap();
    assert_eq!(attribute.name, "");
    assert!(attribute.value.is_empty());
    assert!(database.entity(&String::from("legs")).is_none());
    assert!(database.attribute(&String::from("cat")).is_none());
}
