//! End-to-end runs of the interpreter on hand-assembled script modules.

use move_vm::bytecode::Bytecode;
use move_vm::data_cache::InMemoryStorage;
use move_vm::data_cache::TransactionDataCache;
use move_vm::gas_meter::GasMeter;
use move_vm::gas_schedule::AbstractMemorySize;
use move_vm::gas_schedule::CostTable;
use move_vm::gas_schedule::GasAlgebra;
use move_vm::gas_schedule::GasCost;
use move_vm::gas_schedule::GasPrice;
use move_vm::gas_schedule::GasUnits;
use move_vm::gas_schedule::representative_opcode;
use move_vm::interpreter::Interpreter;
use move_vm::interpreter::TransactionMetadata;
use move_vm::module::FunctionDefinition;
use move_vm::module::FunctionHandle;
use move_vm::module::LoadedModule;
use move_vm::module::ModuleHandle;
use move_vm::module::VMModuleCache;
use move_vm::status::StatusCode;
use move_vm::interpreter::arith_op;
use move_vm::txn_executor::execute_function;
use move_vm::types::AccountAddress;
use move_vm::types::Identifier;
use move_vm::types::ModuleId;

fn zero_cost_table() -> CostTable {
    let mut entries = Vec::new();
    let mut key: u8 = 1;
    while key <= 54 {
        entries.push((representative_opcode(key), GasCost::new(0, 0)));
        key += 1;
    }
    CostTable::new(entries)
}

fn unit_cost_table() -> CostTable {
    let mut entries = Vec::new();
    let mut key: u8 = 1;
    while key <= 54 {
        entries.push((representative_opcode(key), GasCost::new(1, 0)));
        key += 1;
    }
    CostTable::new(entries)
}

/// A script module whose sole function is `main`, with the given code.
fn script_module(code: Vec<Bytecode>, local_count: usize) -> LoadedModule {
    LoadedModule {
        id: ModuleId::new(
            AccountAddress::from_fill_byte(0),
            Identifier::new("Script".to_string()),
        ),
        identifiers: vec![Identifier::new("main".to_string())],
        address_pool: vec![AccountAddress::from_fill_byte(0)],
        byte_array_pool: vec![],
        user_strings: vec![],
        module_handles: vec![ModuleHandle { address: 0, name: 0 }],
        struct_handles: vec![],
        function_handles: vec![FunctionHandle { module: 0, name: 0 }],
        struct_defs: vec![],
        function_defs: vec![FunctionDefinition {
            handle: 0,
            is_native: false,
            arg_count: 0,
            local_count,
            code,
        }],
        locals_signatures: vec![vec![]],
        field_offsets: vec![],
    }
}

/// `main() { return; }`
fn trivial_return() -> LoadedModule {
    script_module(vec![Bytecode::Ret], 0)
}

/// A program that loads `2 + 3` into a local, asserts it equals the
/// expected value with abort code 42, computes one less into a second
/// local, and asserts that equals one less than the expected value.
fn arithmetic_program(expected: u64) -> LoadedModule {
    let code = vec![
        Bytecode::LdConst(2),
        Bytecode::LdConst(3),
        Bytecode::Add,
        Bytecode::StLoc(0),
        Bytecode::CopyLoc(0),
        Bytecode::LdConst(expected),
        Bytecode::Eq,
        Bytecode::BrTrue(10),
        Bytecode::LdConst(42),
        Bytecode::Abort,
        Bytecode::CopyLoc(0),
        Bytecode::LdConst(1),
        Bytecode::Sub,
        Bytecode::StLoc(1),
        Bytecode::CopyLoc(1),
        Bytecode::LdConst(expected - 1),
        Bytecode::Eq,
        Bytecode::BrTrue(20),
        Bytecode::LdConst(42),
        Bytecode::Abort,
        Bytecode::Ret,
    ];
    script_module(code, 2)
}

#[test]
fn simple_main() {
    let storage = InMemoryStorage::new();
    assert!(execute_function(trivial_return(), vec![], vec![], &storage, zero_cost_table()).is_ok());
    assert!(execute_function(trivial_return(), vec![], vec![], &storage, zero_cost_table()).is_ok());
}

#[test]
fn simple_arithmetic() {
    let storage = InMemoryStorage::new();
    assert!(
        execute_function(arithmetic_program(5), vec![], vec![], &storage, zero_cost_table())
            .is_ok()
    );
}

#[test]
fn failing_assert_aborts_with_its_code() {
    let storage = InMemoryStorage::new();
    let err = execute_function(arithmetic_program(6), vec![], vec![], &storage, zero_cost_table())
        .unwrap_err();
    assert_eq!(err.major_status, StatusCode::Aborted);
    assert_eq!(err.sub_status, Some(42));
}

fn run_with_gas(
    module: LoadedModule,
    table: CostTable,
    max_gas: u64,
) -> (Result<(), move_vm::status::VMStatus>, u64) {
    let entry_module = module;
    let storage = InMemoryStorage::new();
    let txn_metadata = TransactionMetadata {
        sender: AccountAddress::from_fill_byte(0),
        sequence_number: 0,
        public_key: vec![],
        max_gas_amount: GasUnits::new(max_gas),
        gas_unit_price: GasPrice::new(0),
        transaction_size: AbstractMemorySize::new(0),
    };
    let gas_meter = GasMeter::new(table, GasUnits::new(max_gas));
    let module_cache = VMModuleCache::new();
    let mut interpreter = Interpreter::new(&module_cache, txn_metadata, gas_meter);
    let mut data_cache = TransactionDataCache::new(&storage);
    let mut events = vec![];
    let func = move_vm::module::FunctionRef::new(&entry_module, 0);
    let result = interpreter.interpeter_entrypoint(func, vec![], &mut data_cache, &mut events);
    let remaining = interpreter.remaining_gas().get();
    (result, max_gas - remaining)
}

#[test]
fn out_of_gas_consumes_the_whole_allowance() {
    // An endless loop priced one unit per instruction against a small
    // allowance: execution fails out of gas and the whole allowance
    // counts as used.
    let looping = script_module(vec![Bytecode::Branch(0)], 0);
    let (result, gas_used) = run_with_gas(looping, unit_cost_table(), 1000);
    let err = result.unwrap_err();
    assert_eq!(err.major_status, StatusCode::OutOfGas);
    assert_eq!(gas_used, 1000);
}

#[test]
fn gas_left_never_grows_across_a_run() {
    let (result, gas_used) = run_with_gas(arithmetic_program(5), unit_cost_table(), 1000);
    assert!(result.is_ok());
    assert!(gas_used <= 1000);
    assert!(gas_used >= 19);
}

#[test]
fn arithmetic_overflow_fails_the_script() {
    let code = vec![
        Bytecode::LdConst(u64::MAX),
        Bytecode::LdConst(1),
        Bytecode::Add,
        Bytecode::Ret,
    ];
    let storage = InMemoryStorage::new();
    let err = execute_function(script_module(code, 0), vec![], vec![], &storage, zero_cost_table())
        .unwrap_err();
    assert_eq!(err.major_status, StatusCode::ArithmeticError);
}

#[test]
fn division_by_zero_fails_the_script() {
    let code = vec![
        Bytecode::LdConst(7),
        Bytecode::LdConst(0),
        Bytecode::Div,
        Bytecode::Ret,
    ];
    let storage = InMemoryStorage::new();
    let err = execute_function(script_module(code, 0), vec![], vec![], &storage, zero_cost_table())
        .unwrap_err();
    assert_eq!(err.major_status, StatusCode::ArithmeticError);
}

#[test]
fn remainder_by_zero_fails_the_script() {
    let code = vec![
        Bytecode::LdConst(7),
        Bytecode::LdConst(0),
        Bytecode::Mod,
        Bytecode::Ret,
    ];
    let storage = InMemoryStorage::new();
    let err = execute_function(script_module(code, 0), vec![], vec![], &storage, zero_cost_table())
        .unwrap_err();
    assert_eq!(err.major_status, StatusCode::ArithmeticError);
}

#[test]
fn checked_ops_decide_exactly() {
    assert_eq!(arith_op(&Bytecode::Add, 2, 3).unwrap(), 5);
    assert_eq!(
        arith_op(&Bytecode::Add, u64::MAX, 1).unwrap_err().major_status,
        StatusCode::ArithmeticError
    );
    assert_eq!(arith_op(&Bytecode::Sub, 3, 2).unwrap(), 1);
    assert_eq!(
        arith_op(&Bytecode::Sub, 2, 3).unwrap_err().major_status,
        StatusCode::ArithmeticError
    );
    assert_eq!(arith_op(&Bytecode::Mul, 6, 7).unwrap(), 42);
    assert_eq!(
        arith_op(&Bytecode::Div, 1, 0).unwrap_err().major_status,
        StatusCode::ArithmeticError
    );
    assert_eq!(
        arith_op(&Bytecode::Mod, 1, 0).unwrap_err().major_status,
        StatusCode::ArithmeticError
    );
    assert_eq!(arith_op(&Bytecode::Div, 7, 2).unwrap(), 3);
    assert_eq!(arith_op(&Bytecode::Mod, 7, 2).unwrap(), 1);
}

#[test]
fn operand_stack_overflow_is_detected() {
    // Push past the operand-stack cap: the program fails with the
    // operand-stack overflow status.
    let mut code = vec![];
    let mut i = 0;
    while i < 1025 {
        code.push(Bytecode::LdConst(1));
        i += 1;
    }
    code.push(Bytecode::Ret);
    let storage = InMemoryStorage::new();
    let err = execute_function(script_module(code, 0), vec![], vec![], &storage, zero_cost_table())
        .unwrap_err();
    assert_eq!(err.major_status, StatusCode::ExecutionStackOverflow);
}

#[test]
fn arithmetic_on_empty_stack_fails_immediately() {
    // A script whose first instruction is `Add` with nothing on the stack
    // stops at once with an empty-value-stack error.
    let script = script_module(vec![Bytecode::Add, Bytecode::Ret], 0);
    let storage = InMemoryStorage::new();
    let err = execute_function(script, vec![], vec![], &storage, zero_cost_table()).unwrap_err();
    assert_eq!(err.major_status, StatusCode::EmptyValueStack);
    assert_eq!(err.sub_status, None);
}

#[test]
fn abort_on_empty_stack_fails_immediately() {
    let script = script_module(vec![Bytecode::Abort], 0);
    let storage = InMemoryStorage::new();
    let err = execute_function(script, vec![], vec![], &storage, zero_cost_table()).unwrap_err();
    assert_eq!(err.major_status, StatusCode::EmptyValueStack);
}

#[test]
fn overflowing_add_pops_both_operands() {
    // `u64::MAX + 1` overflows; the failure surfaces as an arithmetic
    // error with no sub-status.
    let script = script_module(
        vec![
            Bytecode::LdConst(u64::MAX),
            Bytecode::LdConst(1),
            Bytecode::Add,
            Bytecode::Ret,
        ],
        0,
    );
    let storage = InMemoryStorage::new();
    let err = execute_function(script, vec![], vec![], &storage, zero_cost_table()).unwrap_err();
    assert_eq!(err.major_status, StatusCode::ArithmeticError);
    assert_eq!(err.sub_status, None);
}
