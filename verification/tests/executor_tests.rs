//! The transaction executor envelope: prologue, script body, epilogue,
//! failure cleanup, account creation and event emission, end to end over
//! hand-assembled modules.

use move_vm::bytecode::Bytecode;
use move_vm::bytecode::SignatureToken;
use move_vm::data_cache::InMemoryStorage;
use move_vm::data_cache::WriteOp;
use move_vm::events::EVENT_KEY_LENGTH;
use move_vm::gas_schedule::AbstractMemorySize;
use move_vm::gas_schedule::CostTable;
use move_vm::gas_schedule::GasAlgebra;
use move_vm::gas_schedule::GasCost;
use move_vm::gas_schedule::GasPrice;
use move_vm::gas_schedule::GasUnits;
use move_vm::gas_schedule::representative_opcode;
use move_vm::interpreter::TransactionMetadata;
use move_vm::module::FunctionDefinition;
use move_vm::module::FunctionHandle;
use move_vm::module::FunctionRef;
use move_vm::module::LoadedModule;
use move_vm::module::ModuleHandle;
use move_vm::module::StructDefinition;
use move_vm::module::StructHandle;
use move_vm::module::VMModuleCache;
use move_vm::status::StatusCode;
use move_vm::txn_executor::TransactionExecutor;
use move_vm::txn_executor::TransactionStatus;
use move_vm::types::AccessPath;
use move_vm::types::AccountAddress;
use move_vm::types::Identifier;
use move_vm::types::ModuleId;
use move_vm::types::RESOURCE_TAG;
use move_vm::types::StructTag;
use move_vm::values::Struct;
use move_vm::values::Value;

fn zero_cost_table() -> CostTable {
    let mut entries = Vec::new();
    let mut key: u8 = 1;
    while key <= 54 {
        entries.push((representative_opcode(key), GasCost::new(0, 0)));
        key += 1;
    }
    CostTable::new(entries)
}

fn core_address() -> AccountAddress {
    AccountAddress::from_fill_byte(0)
}

/// An account module: a struct `T` holding the sequence number, an empty
/// prologue, an epilogue that bumps the sequence number through a global
/// reference, and a `make` function producing a fresh `T`.
fn account_module() -> LoadedModule {
    LoadedModule {
        id: ModuleId::new(core_address(), Identifier::new("LibraAccount".to_string())),
        identifiers: vec![
            Identifier::new("T".to_string()),
            Identifier::new("prologue".to_string()),
            Identifier::new("epilogue".to_string()),
            Identifier::new("make".to_string()),
            Identifier::new("LibraAccount".to_string()),
        ],
        address_pool: vec![core_address()],
        byte_array_pool: vec![],
        user_strings: vec![],
        module_handles: vec![ModuleHandle { address: 0, name: 4 }],
        struct_handles: vec![StructHandle { module: 0, name: 0 }],
        function_handles: vec![
            FunctionHandle { module: 0, name: 1 },
            FunctionHandle { module: 0, name: 2 },
            FunctionHandle { module: 0, name: 3 },
        ],
        struct_defs: vec![StructDefinition { struct_handle: 0, field_types: vec![SignatureToken::U64] }],
        function_defs: vec![
            FunctionDefinition {
                handle: 0,
                is_native: false,
                arg_count: 0,
                local_count: 0,
                code: vec![Bytecode::Ret],
            },
            FunctionDefinition {
                handle: 1,
                is_native: false,
                arg_count: 0,
                local_count: 1,
                code: vec![
                    Bytecode::GetTxnSenderAddress,
                    Bytecode::MutBorrowGlobal(0, 0),
                    Bytecode::StLoc(0),
                    Bytecode::CopyLoc(0),
                    Bytecode::MutBorrowField(0),
                    Bytecode::ReadRef,
                    Bytecode::LdConst(1),
                    Bytecode::Add,
                    Bytecode::CopyLoc(0),
                    Bytecode::MutBorrowField(0),
                    Bytecode::WriteRef,
                    Bytecode::Ret,
                ],
            },
            FunctionDefinition {
                handle: 2,
                is_native: false,
                arg_count: 1,
                local_count: 1,
                code: vec![Bytecode::LdConst(0), Bytecode::Pack(0, 0), Bytecode::Ret],
            },
        ],
        locals_signatures: vec![vec![]],
        field_offsets: vec![0],
    }
}

/// The access path of the account struct `T` under an address.
fn account_resource_path(addr: AccountAddress) -> AccessPath {
    let tag = StructTag {
        address: core_address(),
        module: Identifier::new("LibraAccount".to_string()),
        name: Identifier::new("T".to_string()),
        type_params: vec![],
    };
    let mut path = vec![RESOURCE_TAG];
    path.extend(tag.to_canonical_bytes());
    AccessPath::new(addr, path)
}

fn account_blob(sequence_number: u64) -> Vec<u8> {
    Value::struct_(Struct::new(vec![Value::u64(sequence_number)]))
        .simple_serialize()
        .unwrap()
}

fn metadata(sender: AccountAddress, max_gas: u64) -> TransactionMetadata {
    TransactionMetadata {
        sender,
        sequence_number: 5,
        public_key: vec![],
        max_gas_amount: GasUnits::new(max_gas),
        gas_unit_price: GasPrice::new(0),
        transaction_size: AbstractMemorySize::new(0),
    }
}

fn script_module(code: Vec<Bytecode>, local_count: usize) -> LoadedModule {
    LoadedModule {
        id: ModuleId::new(core_address(), Identifier::new("Script".to_string())),
        identifiers: vec![Identifier::new("main".to_string())],
        address_pool: vec![AccountAddress::from_fill_byte(9)],
        byte_array_pool: vec![],
        user_strings: vec![],
        module_handles: vec![ModuleHandle { address: 0, name: 0 }],
        struct_handles: vec![],
        function_handles: vec![FunctionHandle { module: 0, name: 0 }],
        struct_defs: vec![],
        function_defs: vec![FunctionDefinition {
            handle: 0,
            is_native: false,
            arg_count: 0,
            local_count,
            code,
        }],
        locals_signatures: vec![vec![]],
        field_offsets: vec![],
    }
}

fn failing_assert_script() -> LoadedModule {
    script_module(
        vec![
            Bytecode::LdConst(2),
            Bytecode::LdConst(3),
            Bytecode::Add,
            Bytecode::StLoc(0),
            Bytecode::CopyLoc(0),
            Bytecode::LdConst(6),
            Bytecode::Eq,
            Bytecode::BrTrue(10),
            Bytecode::LdConst(42),
            Bytecode::Abort,
            Bytecode::Ret,
        ],
        1,
    )
}

#[test]
fn failed_body_keeps_the_status_and_charges_through_the_epilogue() {
    // A failing assert: local writes are discarded, the epilogue still
    // runs, and the write-set holds only the sender's sequence-number
    // update.
    let sender = AccountAddress::from_fill_byte(7);
    let module_cache = {
        let mut c = VMModuleCache::new();
        c.cache_module(account_module());
        c
    };
    let mut storage = InMemoryStorage::new();
    storage.publish(account_resource_path(sender.clone()), account_blob(5));

    let mut executor = TransactionExecutor::new(
        &module_cache,
        &storage,
        metadata(sender.clone(), 10_000),
        zero_cost_table(),
    );
    executor.run_prologue().unwrap();

    let script = failing_assert_script();
    let entry = FunctionRef::new(&script, 0);
    let err = executor.interpeter_entrypoint(entry, vec![]).unwrap_err();
    assert_eq!(err.major_status, StatusCode::Aborted);
    assert_eq!(err.sub_status, Some(42));

    let output = executor.failed_transaction_cleanup(Err(err.clone()));
    match output.status() {
        TransactionStatus::Keep(status) => {
            assert_eq!(status.major_status, StatusCode::Aborted);
            assert_eq!(status.sub_status, Some(42));
        }
        other => panic!("expected a kept failure, got {:?}", other),
    }
    // Intrinsic gas was the only charge under a zero cost table.
    assert_eq!(output.gas_used(), 600);
    // The only write is the epilogue's sequence-number bump.
    let ws = output.write_set();
    assert_eq!(ws.write_set.len(), 1);
    assert!(ws.write_set[0].0.equals(&account_resource_path(sender)));
    match &ws.write_set[0].1 {
        WriteOp::Value(bytes) => assert_eq!(*bytes, account_blob(6)),
        WriteOp::Deletion => panic!("expected a value write"),
    }
    assert_eq!(output.events().len(), 0);
}

#[test]
fn successful_body_runs_the_epilogue_and_flushes_writes() {
    let sender = AccountAddress::from_fill_byte(7);
    let module_cache = {
        let mut c = VMModuleCache::new();
        c.cache_module(account_module());
        c
    };
    let mut storage = InMemoryStorage::new();
    storage.publish(account_resource_path(sender.clone()), account_blob(5));

    let mut executor = TransactionExecutor::new(
        &module_cache,
        &storage,
        metadata(sender.clone(), 10_000),
        zero_cost_table(),
    );
    executor.run_prologue().unwrap();
    let script = script_module(vec![Bytecode::Ret], 0);
    let entry = FunctionRef::new(&script, 0);
    executor.interpeter_entrypoint(entry, vec![]).unwrap();
    let output = executor.transaction_cleanup(vec![]);
    match output.status() {
        TransactionStatus::Keep(status) => {
            assert_eq!(status.major_status, StatusCode::Executed);
        }
        other => panic!("expected a kept success, got {:?}", other),
    }
    let ws = output.write_set();
    assert_eq!(ws.write_set.len(), 1);
    match &ws.write_set[0].1 {
        WriteOp::Value(bytes) => assert_eq!(*bytes, account_blob(6)),
        WriteOp::Deletion => panic!("expected a value write"),
    }
}

#[test]
fn create_account_saves_the_new_resource() {
    // The account-creation instruction runs the account module's `make`
    // with metering off and saves the produced resource at the named
    // address.
    let sender = AccountAddress::from_fill_byte(7);
    let module_cache = {
        let mut c = VMModuleCache::new();
        c.cache_module(account_module());
        c
    };
    let mut storage = InMemoryStorage::new();
    storage.publish(account_resource_path(sender.clone()), account_blob(5));

    let mut executor = TransactionExecutor::new(
        &module_cache,
        &storage,
        metadata(sender.clone(), 10_000),
        zero_cost_table(),
    );
    let script = script_module(
        vec![Bytecode::LdAddr(0), Bytecode::CreateAccount, Bytecode::Ret],
        0,
    );
    let entry = FunctionRef::new(&script, 0);
    executor.interpeter_entrypoint(entry, vec![]).unwrap();
    let output = executor.transaction_cleanup(vec![]);
    match output.status() {
        TransactionStatus::Keep(status) => {
            assert_eq!(status.major_status, StatusCode::Executed);
        }
        other => panic!("expected a kept success, got {:?}", other),
    }
    // Two writes, ordered by address: the sender's bumped sequence number
    // and the freshly created account.
    let ws = output.write_set();
    assert_eq!(ws.write_set.len(), 2);
    assert!(ws.write_set[0].0.equals(&account_resource_path(sender)));
    let created = AccountAddress::from_fill_byte(9);
    assert!(ws.write_set[1].0.equals(&account_resource_path(created)));
    match &ws.write_set[1].1 {
        WriteOp::Value(bytes) => assert_eq!(*bytes, account_blob(0)),
        WriteOp::Deletion => panic!("expected a value write"),
    }
}

#[test]
fn emitted_events_reach_the_output_in_order() {
    let sender = AccountAddress::from_fill_byte(7);
    let event_module = LoadedModule {
        id: ModuleId::new(core_address(), Identifier::new("Event".to_string())),
        identifiers: vec![
            Identifier::new("write_to_event_store".to_string()),
            Identifier::new("Event".to_string()),
        ],
        address_pool: vec![core_address()],
        byte_array_pool: vec![],
        user_strings: vec![],
        module_handles: vec![ModuleHandle { address: 0, name: 1 }],
        struct_handles: vec![],
        function_handles: vec![FunctionHandle { module: 0, name: 0 }],
        struct_defs: vec![],
        function_defs: vec![FunctionDefinition {
            handle: 0,
            is_native: true,
            arg_count: 3,
            local_count: 0,
            code: vec![],
        }],
        locals_signatures: vec![vec![]],
        field_offsets: vec![],
    };
    let mut module_cache = VMModuleCache::new();
    module_cache.cache_module(account_module());
    module_cache.cache_module(event_module);

    let mut storage = InMemoryStorage::new();
    storage.publish(account_resource_path(sender.clone()), account_blob(5));

    // The script pushes key, count and payload, then calls the event
    // store native with one type actual.
    let script = LoadedModule {
        id: ModuleId::new(core_address(), Identifier::new("Script".to_string())),
        identifiers: vec![
            Identifier::new("main".to_string()),
            Identifier::new("Event".to_string()),
            Identifier::new("write_to_event_store".to_string()),
        ],
        address_pool: vec![core_address()],
        byte_array_pool: vec![vec![8; EVENT_KEY_LENGTH]],
        user_strings: vec![],
        module_handles: vec![
            ModuleHandle { address: 0, name: 0 },
            ModuleHandle { address: 0, name: 1 },
        ],
        struct_handles: vec![],
        function_handles: vec![
            FunctionHandle { module: 0, name: 0 },
            FunctionHandle { module: 1, name: 2 },
        ],
        struct_defs: vec![],
        function_defs: vec![FunctionDefinition {
            handle: 0,
            is_native: false,
            arg_count: 0,
            local_count: 0,
            code: vec![
                Bytecode::LdByteArray(0),
                Bytecode::LdConst(1),
                Bytecode::LdConst(99),
                Bytecode::Call(1, 1),
                Bytecode::Ret,
            ],
        }],
        locals_signatures: vec![vec![], vec![SignatureToken::U64]],
        field_offsets: vec![],
    };

    let mut executor = TransactionExecutor::new(
        &module_cache,
        &storage,
        metadata(sender, 10_000),
        zero_cost_table(),
    );
    let entry = FunctionRef::new(&script, 0);
    executor.interpeter_entrypoint(entry, vec![]).unwrap();
    let output = executor.transaction_cleanup(vec![]);
    match output.status() {
        TransactionStatus::Keep(status) => {
            assert_eq!(status.major_status, StatusCode::Executed);
        }
        other => panic!("expected a kept success, got {:?}", other),
    }
    assert_eq!(output.events().len(), 1);
    let event = &output.events()[0];
    assert_eq!(event.key, vec![8; EVENT_KEY_LENGTH]);
    assert_eq!(event.sequence_number, 1);
    assert_eq!(event.event_data, Value::u64(99).simple_serialize().unwrap());
}

#[test]
fn prologue_failure_discards_the_transaction() {
    // Without the account module cached, the prologue cannot link; the
    // driver turns that into a discarded output with nothing charged.
    let sender = AccountAddress::from_fill_byte(7);
    let module_cache = VMModuleCache::new();
    let storage = InMemoryStorage::new();
    let mut executor = TransactionExecutor::new(
        &module_cache,
        &storage,
        metadata(sender, 10_000),
        zero_cost_table(),
    );
    let err = executor.run_prologue().unwrap_err();
    assert_eq!(err.major_status, StatusCode::LinkerError);
    let output = move_vm::txn_executor::error_output(err);
    match output.status() {
        TransactionStatus::Discard(status) => {
            assert_eq!(status.major_status, StatusCode::LinkerError);
        }
        other => panic!("expected a discard, got {:?}", other),
    }
    assert_eq!(output.gas_used(), 0);
    assert_eq!(output.write_set().write_set.len(), 0);
}

#[test]
fn executor_reuses_remaining_gas_across_phases() {
    let sender = AccountAddress::from_fill_byte(7);
    let module_cache = {
        let mut c = VMModuleCache::new();
        c.cache_module(account_module());
        c
    };
    let mut storage = InMemoryStorage::new();
    storage.publish(account_resource_path(sender.clone()), account_blob(5));
    let mut executor = TransactionExecutor::new(
        &module_cache,
        &storage,
        metadata(sender, 700),
        zero_cost_table(),
    );
    executor.run_prologue().unwrap();
    let script = script_module(vec![Bytecode::Ret], 0);
    let entry = FunctionRef::new(&script, 0);
    // Intrinsic gas of 600 fits the 700 allowance.
    executor.interpeter_entrypoint(entry, vec![]).unwrap();
    let output = executor.transaction_cleanup(vec![]);
    assert_eq!(output.gas_used(), 600);
}
