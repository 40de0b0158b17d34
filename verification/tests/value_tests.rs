//! The value model: equality, sizes, locals, and the canonical encoding.

use move_vm::canonical::StructDef;
use move_vm::gas_schedule::GasAlgebra;
use move_vm::canonical::Type;
use move_vm::status::StatusCode;
use move_vm::types::AccountAddress;
use move_vm::values::Locals;
use move_vm::values::Struct;
use move_vm::values::VMString;
use move_vm::values::Value;

fn sample_struct() -> Value {
    Value::struct_(Struct::new(vec![
        Value::u64(7),
        Value::bool(true),
        Value::byte_array(vec![1, 2, 3]),
        Value::address(AccountAddress::from_fill_byte(9)),
        Value::string(VMString::new(vec![104, 105])),
    ]))
}

fn sample_def() -> StructDef {
    StructDef::new(vec![Type::U64, Type::Bool, Type::ByteArray, Type::Address, Type::Str])
}

#[test]
fn equals_is_structural() {
    assert_eq!(sample_struct().equals(&sample_struct()).unwrap(), true);
    let other = Value::struct_(Struct::new(vec![
        Value::u64(8),
        Value::bool(true),
        Value::byte_array(vec![1, 2, 3]),
        Value::address(AccountAddress::from_fill_byte(9)),
        Value::string(VMString::new(vec![104, 105])),
    ]));
    assert_eq!(sample_struct().equals(&other).unwrap(), false);
}

#[test]
fn equals_fails_on_incomparable_tags() {
    let err = Value::u64(1).equals(&Value::bool(true)).unwrap_err();
    assert_eq!(err.major_status, StatusCode::InternalTypeError);
}

#[test]
fn size_counts_contents() {
    // A struct costs its base size of two, plus one per integer or
    // boolean, the address length, and the byte lengths of strings and
    // byte arrays.
    let size = sample_struct().size().unwrap();
    assert_eq!(size.get(), 2 + 1 + 1 + 3 + 32 + 2);
}

#[test]
fn serialization_round_trips() {
    let value = sample_struct();
    let blob = value.simple_serialize().unwrap();
    let back = Value::simple_deserialize(&blob, &sample_def()).unwrap();
    assert_eq!(back.equals(&value).unwrap(), true);
}

#[test]
fn deserialize_rejects_trailing_bytes() {
    let value = sample_struct();
    let mut blob = value.simple_serialize().unwrap();
    blob.push(0);
    assert!(Value::simple_deserialize(&blob, &sample_def()).is_none());
}

#[test]
fn deserialize_rejects_truncated_input() {
    let value = sample_struct();
    let mut blob = value.simple_serialize().unwrap();
    blob.pop();
    assert!(Value::simple_deserialize(&blob, &sample_def()).is_none());
}

#[test]
fn locals_enforce_the_invalid_discipline() {
    let mut locals = Locals::new(2);
    let err = locals.copy_loc(0).unwrap_err();
    assert_eq!(err.major_status, StatusCode::VerificationError);

    locals.store_loc(0, Value::u64(3)).unwrap();
    assert_eq!(locals.copy_loc(0).unwrap().equals(&Value::u64(3)).unwrap(), true);

    let moved = locals.move_loc(0).unwrap();
    assert_eq!(moved.equals(&Value::u64(3)).unwrap(), true);
    let err = locals.copy_loc(0).unwrap_err();
    assert_eq!(err.major_status, StatusCode::VerificationError);

    let err = locals.store_loc(5, Value::u64(1)).unwrap_err();
    assert_eq!(err.major_status, StatusCode::VerifierInvariantViolation);
}

#[test]
fn nested_field_reads_and_writes() {
    let mut value = Value::struct_(Struct::new(vec![
        Value::struct_(Struct::new(vec![Value::u64(10), Value::u64(20)])),
        Value::bool(false),
    ]));
    let path = vec![0u16, 1u16];
    let read = move_vm::values::value_read_at(&value, &path, 0).unwrap();
    assert_eq!(read.equals(&Value::u64(20)).unwrap(), true);

    assert!(move_vm::values::value_write_at(&mut value, &path, 0, Value::u64(99)));
    let read = move_vm::values::value_read_at(&value, &path, 0).unwrap();
    assert_eq!(read.equals(&Value::u64(99)).unwrap(), true);

    let bad_path = vec![7u16];
    assert!(move_vm::values::value_read_at(&value, &bad_path, 0).is_none());
}
