//! The account configuration, tracing hooks and status partitioning.

use move_vm::account_config::account_type_struct_tag;
use move_vm::bytecode::Bytecode;
use move_vm::gas_schedule::instruction_key;
use move_vm::status::StatusCode;
use move_vm::status::StatusType;
use move_vm::status::VMStatus;
use move_vm::tracing::EmptyTracer;
use move_vm::tracing::ExecutionTracer;
use move_vm::txn_executor::TransactionArgument;
use move_vm::txn_executor::TransactionStatus;
use move_vm::txn_executor::convert_txn_args;
use move_vm::types::AccountAddress;
use move_vm::types::TypeTag;
use move_vm::values::Value;

#[test]
fn account_type_tags_pick_their_inner_type() {
    let empty = account_type_struct_tag(true);
    assert_eq!(empty.type_params.len(), 1);
    match &empty.type_params[0] {
        TypeTag::Struct(inner) => {
            assert!(inner.module.equals(&move_vm::types::Identifier::new("Empty".to_string())));
        }
        other => panic!("expected a struct actual, got {:?}", other),
    }
    let vasp = account_type_struct_tag(false);
    match &vasp.type_params[0] {
        TypeTag::Struct(inner) => {
            assert!(inner.name.equals(&move_vm::types::Identifier::new("RootVASP".to_string())));
        }
        other => panic!("expected a struct actual, got {:?}", other),
    }
    assert!(!account_type_struct_tag(true).equals(&account_type_struct_tag(false)));
    assert!(account_type_struct_tag(true).equals(&account_type_struct_tag(true)));
}

#[test]
fn tracers_report_the_executed_step() {
    let path = String::from("Script.main");
    EmptyTracer.trace(&path, 3, &Bytecode::Add);
    let (function, pc, opcode) = ExecutionTracer.trace(&path, 3, &Bytecode::Add);
    assert_eq!(function, "Script.main");
    assert_eq!(pc, 3);
    assert_eq!(opcode, instruction_key(&Bytecode::Add));
}

#[test]
fn invariant_violations_discard_and_failures_keep() {
    let aborted = VMStatus::new(StatusCode::Aborted).with_sub_status(9);
    match TransactionStatus::from_vm_status(aborted.clone()) {
        TransactionStatus::Keep(status) => assert_eq!(status, aborted),
        other => panic!("expected a kept failure, got {:?}", other),
    }
    let broken = VMStatus::new(StatusCode::Unreachable);
    match TransactionStatus::from_vm_status(broken.clone()) {
        TransactionStatus::Discard(status) => assert_eq!(status, broken),
        other => panic!("expected a discard, got {:?}", other),
    }
    assert_eq!(broken.status_type(), StatusType::InvariantViolation);
    assert_eq!(aborted.status_type(), StatusType::Execution);
}

#[test]
fn transaction_arguments_convert_to_values() {
    let args = vec![
        TransactionArgument::U64(4),
        TransactionArgument::Bool(true),
        TransactionArgument::U8(7),
        TransactionArgument::Address(AccountAddress::from_fill_byte(2)),
        TransactionArgument::U8Vector(vec![9, 9]),
    ];
    let values = convert_txn_args(args);
    assert_eq!(values.len(), 5);
    assert!(values[0].equals(&Value::u64(4)).unwrap());
    assert!(values[1].equals(&Value::bool(true)).unwrap());
    assert!(values[2].equals(&Value::u64(7)).unwrap());
    assert!(values[3]
        .equals(&Value::address(AccountAddress::from_fill_byte(2)))
        .unwrap());
    assert!(values[4].equals(&Value::byte_array(vec![9, 9])).unwrap());
}

#[test]
fn access_paths_order_by_address_then_path() {
    let a = move_vm::types::AccessPath::new(AccountAddress::from_fill_byte(1), vec![5]);
    let b = move_vm::types::AccessPath::new(AccountAddress::from_fill_byte(2), vec![0]);
    assert!(a.le(&b));
    assert!(!b.le(&a));
    let c = move_vm::types::AccessPath::new(AccountAddress::from_fill_byte(1), vec![6]);
    assert!(a.le(&c));
    assert!(a.le(&a));
}
