//! The gas algebra: intrinsic pricing, the cost table, and the meter.

use move_vm::bytecode::Bytecode;
use move_vm::bytecode::SignatureToken;
use move_vm::data_cache::InMemoryStorage;
use move_vm::module::FunctionHandle;
use move_vm::module::LoadedModule;
use move_vm::module::ModuleHandle;
use move_vm::module::StructDefinition;
use move_vm::module::StructHandle;
use move_vm::module::VMModuleCache;
use move_vm::types::AccountAddress;
use move_vm::types::Identifier;
use move_vm::types::ModuleId;
use move_vm::gas_meter::GasMeter;
use move_vm::gas_schedule::AbstractMemorySize;
use move_vm::gas_schedule::CostTable;
use move_vm::gas_schedule::GasAlgebra;
use move_vm::gas_schedule::GasCost;
use move_vm::gas_schedule::GasUnits;
use move_vm::gas_schedule::calculate_intrinsic_gas;
use move_vm::gas_schedule::instruction_key;
use move_vm::gas_schedule::representative_opcode;
use move_vm::gas_schedule::unitary_cast;
use move_vm::gas_schedule::words_in;
use move_vm::status::StatusCode;

fn uniform_table(instr_gas: u64, mem_gas: u64) -> CostTable {
    let mut entries = Vec::new();
    let mut key: u8 = 1;
    while key <= 54 {
        entries.push((representative_opcode(key), GasCost::new(instr_gas, mem_gas)));
        key += 1;
    }
    CostTable::new(entries)
}

#[test]
fn intrinsic_gas_at_cutoff() {
    assert_eq!(calculate_intrinsic_gas(AbstractMemorySize::new(600)).get(), 600);
}

#[test]
fn intrinsic_gas_one_word_past_cutoff() {
    assert_eq!(calculate_intrinsic_gas(AbstractMemorySize::new(608)).get(), 608);
}

#[test]
fn intrinsic_gas_rounds_up_partial_words() {
    assert_eq!(calculate_intrinsic_gas(AbstractMemorySize::new(601)).get(), 608);
}

#[test]
fn intrinsic_gas_below_cutoff_is_flat() {
    assert_eq!(calculate_intrinsic_gas(AbstractMemorySize::new(0)).get(), 600);
    assert_eq!(calculate_intrinsic_gas(AbstractMemorySize::new(1)).get(), 600);
    assert_eq!(calculate_intrinsic_gas(AbstractMemorySize::new(599)).get(), 600);
}

#[test]
fn words_in_rounds_up() {
    assert_eq!(words_in(AbstractMemorySize::new(0)).get(), 0);
    assert_eq!(words_in(AbstractMemorySize::new(1)).get(), 1);
    assert_eq!(words_in(AbstractMemorySize::new(8)).get(), 1);
    assert_eq!(words_in(AbstractMemorySize::new(9)).get(), 2);
}

#[test]
fn instruction_keys_cover_every_opcode_once() {
    // Every defined opcode has exactly one cost-table entry, and
    // `instruction_key(op) - 1` is its index.
    let mut seen = [false; 55];
    let mut key: u8 = 1;
    while key <= 54 {
        let op = representative_opcode(key);
        let k = instruction_key(&op) as usize;
        assert!(1 <= k && k <= 54);
        assert!(!seen[k]);
        seen[k] = true;
        key += 1;
    }
    let table = uniform_table(3, 5);
    assert_eq!(table.instruction_table.len(), 54);
    let mut key: u8 = 1;
    while key <= 54 {
        let op = representative_opcode(key);
        let cost = table.get_gas(&op, AbstractMemorySize::new(1));
        assert_eq!(cost.instruction_gas.get(), 3);
        assert_eq!(cost.memory_gas.get(), 5);
        key += 1;
    }
}

#[test]
fn get_gas_scales_by_memory_size() {
    let table = uniform_table(2, 7);
    let cost = table.get_gas(&Bytecode::Add, AbstractMemorySize::new(10));
    assert_eq!(cost.instruction_gas.get(), 20);
    assert_eq!(cost.memory_gas.get(), 70);
}

#[test]
fn gas_cost_new_sets_both_components() {
    let c = GasCost::new(11, 13);
    assert_eq!(c.instruction_gas.get(), 11);
    assert_eq!(c.memory_gas.get(), 13);
}

#[test]
fn unitary_cast_keeps_the_carrier() {
    let size = AbstractMemorySize::new(42);
    let units: GasUnits = unitary_cast(size);
    assert_eq!(units.get(), 42);
}

#[test]
fn meter_charges_and_never_grows() {
    let table = uniform_table(1, 0);
    let mut meter = GasMeter::new(table, GasUnits::new(10));
    assert_eq!(meter.remaining_gas().get(), 10);
    assert!(meter.calculate_and_consume(&Bytecode::Add, AbstractMemorySize::new(1)).is_ok());
    assert_eq!(meter.remaining_gas().get(), 9);
    assert!(meter.consume_gas(GasUnits::new(9)).is_ok());
    assert_eq!(meter.remaining_gas().get(), 0);
}

#[test]
fn meter_empties_on_exhaustion() {
    let table = uniform_table(1, 0);
    let mut meter = GasMeter::new(table, GasUnits::new(5));
    let err = meter.consume_gas(GasUnits::new(6)).unwrap_err();
    assert_eq!(err.major_status, StatusCode::OutOfGas);
    assert_eq!(meter.remaining_gas().get(), 0);
}

#[test]
fn disabled_meter_charges_nothing() {
    let table = uniform_table(1, 1);
    let mut meter = GasMeter::new(table, GasUnits::new(5));
    meter.disable_metering();
    assert!(meter.calculate_and_consume(&Bytecode::Add, AbstractMemorySize::new(1)).is_ok());
    assert_eq!(meter.remaining_gas().get(), 5);
    meter.enable_metering();
    assert!(meter.calculate_and_consume(&Bytecode::Add, AbstractMemorySize::new(1)).is_ok());
    assert_eq!(meter.remaining_gas().get(), 3);
}

#[test]
fn stored_cost_tables_load_from_the_chain() {
    // Encode a table by hand: the instruction count, each cost as two
    // little-endian words, then an empty native list.
    let mut blob = Vec::new();
    blob.extend((54u32).to_le_bytes());
    let mut key: u16 = 1;
    while key <= 54 {
        blob.extend((key as u64).to_le_bytes());
        blob.extend((2 * key as u64).to_le_bytes());
        key += 1;
    }
    blob.extend((0u32).to_le_bytes());

    let table = move_vm::gas_meter::cost_table_from_bytes(&blob).unwrap();
    assert_eq!(table.instruction_table.len(), 54);
    assert_eq!(table.instruction_table[9].instruction_gas.get(), 10);
    assert_eq!(table.instruction_table[9].memory_gas.get(), 20);
    assert_eq!(table.native_table.len(), 0);

    // Truncated or padded bytes are rejected.
    let mut short = blob.clone();
    short.pop();
    assert!(move_vm::gas_meter::cost_table_from_bytes(&short).is_none());
    let mut long = blob.clone();
    long.push(0);
    assert!(move_vm::gas_meter::cost_table_from_bytes(&long).is_none());
}

#[test]
fn gas_schedule_loads_through_module_and_store() {
    let gas_module = LoadedModule {
        id: ModuleId::new(
            AccountAddress::from_fill_byte(0),
            Identifier::new("GasSchedule".to_string()),
        ),
        identifiers: vec![
            Identifier::new("T".to_string()),
            Identifier::new("GasSchedule".to_string()),
        ],
        address_pool: vec![AccountAddress::from_fill_byte(0)],
        byte_array_pool: vec![],
        user_strings: vec![],
        module_handles: vec![ModuleHandle { address: 0, name: 1 }],
        struct_handles: vec![StructHandle { module: 0, name: 0 }],
        function_handles: vec![FunctionHandle { module: 0, name: 0 }],
        struct_defs: vec![StructDefinition {
            struct_handle: 0,
            field_types: vec![SignatureToken::ByteArray],
        }],
        function_defs: vec![],
        locals_signatures: vec![vec![]],
        field_offsets: vec![0],
    };
    let tag = move_vm::types::StructTag {
        address: AccountAddress::from_fill_byte(0),
        module: Identifier::new("GasSchedule".to_string()),
        name: Identifier::new("T".to_string()),
        type_params: vec![],
    };
    let mut path = vec![move_vm::types::RESOURCE_TAG];
    path.extend(tag.to_canonical_bytes());
    let ap = move_vm::types::AccessPath::new(
        move_vm::account_config::association_address(),
        path,
    );

    let mut blob = Vec::new();
    blob.extend((54u32).to_le_bytes());
    let mut key: u16 = 1;
    while key <= 54 {
        blob.extend(1u64.to_le_bytes());
        blob.extend(0u64.to_le_bytes());
        key += 1;
    }
    blob.extend((0u32).to_le_bytes());

    let mut cache = VMModuleCache::new();
    cache.cache_module(gas_module);
    let mut storage = InMemoryStorage::new();
    storage.publish(ap, blob);
    let table = move_vm::gas_meter::load_gas_schedule(&cache, &storage).unwrap();
    assert_eq!(table.instruction_table.len(), 54);

    let empty_cache = VMModuleCache::new();
    let err = move_vm::gas_meter::load_gas_schedule(&empty_cache, &storage).unwrap_err();
    assert_eq!(err.major_status, move_vm::status::StatusCode::GasScheduleError);
    assert_eq!(err.sub_status, Some(move_vm::status::GSE_UNABLE_TO_LOAD_MODULE));
}
