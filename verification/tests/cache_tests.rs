//! The transaction data cache: borrowing, moving and publishing resources,
//! and flushing the overlay into an ordered write-set.

use move_vm::canonical::StructDef;
use move_vm::canonical::Type;
use move_vm::data_cache::InMemoryStorage;
use move_vm::data_cache::TransactionDataCache;
use move_vm::data_cache::WriteOp;
use move_vm::gas_schedule::GasAlgebra;
use move_vm::status::StatusCode;
use move_vm::types::AccessPath;
use move_vm::types::AccountAddress;
use move_vm::values::Struct;
use move_vm::values::Value;

fn ap(addr_byte: u8, path_byte: u8) -> AccessPath {
    AccessPath::new(AccountAddress::from_fill_byte(addr_byte), vec![1, path_byte])
}

fn def() -> StructDef {
    StructDef::new(vec![Type::U64])
}

fn resource(x: u64) -> Struct {
    Struct::new(vec![Value::u64(x)])
}

#[test]
fn remote_resources_are_borrowed_through_the_overlay() {
    let mut storage = InMemoryStorage::new();
    let blob = Value::struct_(resource(77)).simple_serialize().unwrap();
    storage.publish(ap(1, 1), blob);

    let mut cache = TransactionDataCache::new(&storage);
    let (global_ref, size) = cache.borrow_global(&ap(1, 1), &def()).unwrap();
    assert_eq!(size.get(), 3);
    let read = cache.read_resource_at(&global_ref.ap, &global_ref.path).unwrap();
    assert_eq!(read.equals(&Value::struct_(resource(77))).unwrap(), true);
}

#[test]
fn borrowing_a_missing_resource_fails() {
    let storage = InMemoryStorage::new();
    let mut cache = TransactionDataCache::new(&storage);
    let err = cache.borrow_global(&ap(1, 1), &def()).unwrap_err();
    assert_eq!(err.major_status, StatusCode::MissingData);
}

#[test]
fn resource_exists_does_not_materialize_on_negative() {
    let storage = InMemoryStorage::new();
    let mut cache = TransactionDataCache::new(&storage);
    let (exists, size) = cache.resource_exists(&ap(1, 1), &def()).unwrap();
    assert!(!exists);
    assert_eq!(size.get(), 0);
    let ws = cache.make_write_set(vec![]).unwrap();
    assert_eq!(ws.write_set.len(), 0);
}

#[test]
fn moving_from_an_empty_slot_fails() {
    let storage = InMemoryStorage::new();
    let mut cache = TransactionDataCache::new(&storage);
    let err = cache.move_resource_from(&ap(1, 1), &def()).unwrap_err();
    assert_eq!(err.major_status, StatusCode::MissingData);
}

#[test]
fn publishing_to_an_occupied_slot_fails() {
    let mut storage = InMemoryStorage::new();
    let blob = Value::struct_(resource(1)).simple_serialize().unwrap();
    storage.publish(ap(1, 1), blob);
    let mut cache = TransactionDataCache::new(&storage);
    let err = cache.move_resource_to(&ap(1, 1), &def(), resource(2)).unwrap_err();
    assert_eq!(err.major_status, StatusCode::ResourceAlreadyExists);

    assert!(cache.move_resource_to(&ap(2, 1), &def(), resource(3)).is_ok());
    let err = cache.move_resource_to(&ap(2, 1), &def(), resource(4)).unwrap_err();
    assert_eq!(err.major_status, StatusCode::ResourceAlreadyExists);
}

#[test]
fn moving_out_a_borrowed_resource_fails() {
    let mut storage = InMemoryStorage::new();
    let blob = Value::struct_(resource(1)).simple_serialize().unwrap();
    storage.publish(ap(1, 1), blob);
    let mut cache = TransactionDataCache::new(&storage);
    let (global_ref, _) = cache.borrow_global(&ap(1, 1), &def()).unwrap();
    let err = cache.move_resource_from(&ap(1, 1), &def()).unwrap_err();
    assert_eq!(err.major_status, StatusCode::DanglingReference);
    cache.release_borrow(&global_ref.ap).unwrap();
    assert!(cache.move_resource_from(&ap(1, 1), &def()).is_ok());
}

#[test]
fn write_set_requires_all_borrows_released() {
    let mut storage = InMemoryStorage::new();
    let blob = Value::struct_(resource(1)).simple_serialize().unwrap();
    storage.publish(ap(1, 1), blob);
    let mut cache = TransactionDataCache::new(&storage);
    let (global_ref, _) = cache.borrow_global(&ap(1, 1), &def()).unwrap();
    let err = cache.make_write_set(vec![]).unwrap_err();
    assert_eq!(err.major_status, StatusCode::DanglingReference);
    cache.release_borrow(&global_ref.ap).unwrap();
    assert!(cache.make_write_set(vec![]).is_ok());
}

#[test]
fn write_set_is_ordered_and_deterministic() {
    // Two runs of the same publishes, in different program orders,
    // produce byte-identical, address-ordered write-sets.
    let storage = InMemoryStorage::new();

    let mut first = TransactionDataCache::new(&storage);
    first.move_resource_to(&ap(3, 1), &def(), resource(30)).unwrap();
    first.move_resource_to(&ap(1, 1), &def(), resource(10)).unwrap();
    first.move_resource_to(&ap(2, 1), &def(), resource(20)).unwrap();
    let ws1 = first.make_write_set(vec![]).unwrap();

    let mut second = TransactionDataCache::new(&storage);
    second.move_resource_to(&ap(3, 1), &def(), resource(30)).unwrap();
    second.move_resource_to(&ap(1, 1), &def(), resource(10)).unwrap();
    second.move_resource_to(&ap(2, 1), &def(), resource(20)).unwrap();
    let ws2 = second.make_write_set(vec![]).unwrap();

    assert_eq!(ws1, ws2);
    assert_eq!(ws1.write_set.len(), 3);
    assert!(ws1.write_set[0].0.equals(&ap(1, 1)));
    assert!(ws1.write_set[1].0.equals(&ap(2, 1)));
    assert!(ws1.write_set[2].0.equals(&ap(3, 1)));
    match &ws1.write_set[0].1 {
        WriteOp::Value(bytes) => {
            assert_eq!(*bytes, Value::struct_(resource(10)).simple_serialize().unwrap());
        }
        WriteOp::Deletion => panic!("expected a value write"),
    }
}

#[test]
fn deletions_reach_the_write_set() {
    let mut storage = InMemoryStorage::new();
    let blob = Value::struct_(resource(5)).simple_serialize().unwrap();
    storage.publish(ap(1, 1), blob);
    let mut cache = TransactionDataCache::new(&storage);
    cache.move_resource_from(&ap(1, 1), &def()).unwrap();
    let ws = cache.make_write_set(vec![]).unwrap();
    assert_eq!(ws.write_set.len(), 1);
    match &ws.write_set[0].1 {
        WriteOp::Deletion => {}
        WriteOp::Value(_) => panic!("expected a deletion"),
    }
}

#[test]
fn clean_reads_stay_out_of_the_write_set() {
    let mut storage = InMemoryStorage::new();
    let blob = Value::struct_(resource(5)).simple_serialize().unwrap();
    storage.publish(ap(1, 1), blob);
    let mut cache = TransactionDataCache::new(&storage);
    let (exists, _) = cache.resource_exists(&ap(1, 1), &def()).unwrap();
    assert!(exists);
    let ws = cache.make_write_set(vec![]).unwrap();
    assert_eq!(ws.write_set.len(), 0);
}
