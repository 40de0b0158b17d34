//! Gas metering for the interpreter: a counter of gas left, charged per
//! instruction from the cost table, with a switch that turns metering off
//! for the system calls the executor makes on its own account.

use vstd::prelude::*;

use crate::bytecode::Bytecode;
use crate::gas_schedule::AbstractMemorySize;
use crate::gas_schedule::CostTable;
use crate::gas_schedule::GasCost;
use crate::gas_schedule::GLOBAL_MEMORY_PER_BYTE_COST;
use crate::gas_schedule::GLOBAL_MEMORY_PER_BYTE_WRITE_COST;
use crate::gas_schedule::GasUnits;
use crate::gas_schedule::MAX_TRANSACTION_SIZE_IN_BYTES;
use crate::gas_schedule::spec_instruction_key;
use crate::gas_schedule::spec_intrinsic_gas;
use crate::status::StatusCode;
use crate::status::VMResult;
use crate::status::VMStatus;
use crate::values::ReferenceValue;

verus! {

/// What one instruction costs: its table entry, both components scaled by
/// the memory size it operates on, summed. More than the carrier holds
/// means the charge fails as an arithmetic error.
pub open spec fn spec_instruction_cost(table: CostTable, instr: Bytecode, size: u64) -> int {
    let entry = table.spec_entry(instr);
    entry.instruction_gas.0 * size + entry.memory_gas.0 * size
}

/// The gas meter of one interpreter run: the cost table priced against,
/// the gas still available, and whether metering is on.
pub struct GasMeter {
    cost_table: CostTable,
    current_gas_left: GasUnits,
    meter_on: bool,
}

impl GasMeter {
    /// The table has one entry per opcode.
    pub closed spec fn well_formed(&self) -> bool {
        self.cost_table.well_formed()
    }

    /// The gas still available.
    pub closed spec fn gas_left(&self) -> u64 {
        self.current_gas_left.0
    }

    /// Whether metering is on.
    pub closed spec fn metering(&self) -> bool {
        self.meter_on
    }

    /// The table the meter prices against.
    pub closed spec fn table(&self) -> CostTable {
        self.cost_table
    }

    /// A meter over the given table, with the given gas, metering on.
    pub fn new(cost_table: CostTable, gas_left: GasUnits) -> (r: GasMeter)
        requires
            cost_table.well_formed(),
        ensures
            r.well_formed(),
            r.gas_left() == gas_left.0,
            r.metering(),
            r.table() == cost_table,
    {
        GasMeter { cost_table, current_gas_left: gas_left, meter_on: true }
    }

    /// The gas still available.
    pub fn remaining_gas(&self) -> (r: GasUnits)
        ensures
            r.0 == self.gas_left(),
    {
        self.current_gas_left
    }

    /// Stop metering gas.
    pub fn disable_metering(&mut self) -> (r: ())
        ensures
            !final(self).metering(),
            final(self).gas_left() == old(self).gas_left(),
            final(self).well_formed() == old(self).well_formed(),
            final(self).table() == old(self).table(),
    {
        self.meter_on = false;
    }

    /// Start metering gas again.
    pub fn enable_metering(&mut self) -> (r: ())
        ensures
            final(self).metering(),
            final(self).gas_left() == old(self).gas_left(),
            final(self).well_formed() == old(self).well_formed(),
            final(self).table() == old(self).table(),
    {
        self.meter_on = true;
    }

    /// Charge an amount of gas. With metering off nothing is charged; with
    /// too little gas left the meter is emptied and the charge fails.
    /// Whatever happens, the gas left never grows.
    pub fn consume_gas(&mut self, gas_amount: GasUnits) -> (r: VMResult<()>)
        ensures
            !old(self).metering() ==> r is Ok && final(self).gas_left() == old(self).gas_left(),
            old(self).metering() && gas_amount.0 <= old(self).gas_left() ==> r is Ok && final(self).gas_left() == old(self).gas_left() - gas_amount.0,
            old(self).metering() && gas_amount.0 > old(self).gas_left() ==> r is Err
                && r->Err_0.major_status == StatusCode::OutOfGas && r->Err_0.sub_status is None
                && final(self).gas_left() == 0,
            final(self).gas_left() <= old(self).gas_left(),
            final(self).metering() == old(self).metering(),
            final(self).well_formed() == old(self).well_formed(),
            final(self).table() == old(self).table(),
    {
        if !self.meter_on {
            return Ok(());
        }
        if gas_amount.0 <= self.current_gas_left.0 {
            self.current_gas_left = GasUnits(self.current_gas_left.0 - gas_amount.0);
            Ok(())
        } else {
            self.current_gas_left = GasUnits(0);
            Err(VMStatus::new(StatusCode::OutOfGas))
        }
    }

    /// Price one instruction against the cost table, scaled by the memory
    /// size it operates on, and charge it. Gas exhaustion is detected
    /// before the instruction runs; the gas left never grows.
    pub fn calculate_and_consume(
        &mut self,
        instr: &Bytecode,
        memory_size: AbstractMemorySize,
    ) -> (r: VMResult<()>)
        requires
            old(self).well_formed(),
        ensures
            ({
                let cost = spec_instruction_cost(old(self).table(), *instr, memory_size.0);
                &&& !old(self).metering() ==> r is Ok && final(self).gas_left() == old(self).gas_left()
                &&& old(self).metering() && cost > u64::MAX ==> r is Err
                    && r->Err_0.major_status == StatusCode::ArithmeticError
                    && r->Err_0.sub_status is None && final(self).gas_left() == old(self).gas_left()
                &&& old(self).metering() && cost <= u64::MAX && cost <= old(self).gas_left()
                    ==> r is Ok && final(self).gas_left() == old(self).gas_left() - cost
                &&& old(self).metering() && cost <= u64::MAX && cost > old(self).gas_left()
                    ==> r is Err && r->Err_0.major_status == StatusCode::OutOfGas
                    && r->Err_0.sub_status is None && final(self).gas_left() == 0
            }),
            final(self).gas_left() <= old(self).gas_left(),
            final(self).metering() == old(self).metering(),
            final(self).well_formed() == old(self).well_formed(),
            final(self).table() == old(self).table(),
    {
        if !self.meter_on {
            return Ok(());
        }
        let entry = self.cost_table.entry_cost(instr);
        let instr_part = entry.instruction_gas.0.checked_mul(memory_size.0);
        let mem_part = entry.memory_gas.0.checked_mul(memory_size.0);
        let (a, b) = match (instr_part, mem_part) {
            (Some(a), Some(b)) => (a, b),
            _ => {
                return Err(VMStatus::new(StatusCode::ArithmeticError));
            },
        };
        if a > u64::MAX - b {
            return Err(VMStatus::new(StatusCode::ArithmeticError));
        }
        self.consume_gas(GasUnits(a + b))
    }

    /// Charge the intrinsic gas of the transaction, by its size in bytes.
    pub fn charge_transaction_gas(&mut self, txn_size: AbstractMemorySize) -> (r: VMResult<()>)
        requires
            txn_size.0 <= MAX_TRANSACTION_SIZE_IN_BYTES,
        ensures
            ({
                let cost = spec_intrinsic_gas(txn_size.0);
                &&& !old(self).metering() ==> r is Ok && final(self).gas_left() == old(self).gas_left()
                &&& old(self).metering() && cost <= old(self).gas_left() ==> r is Ok && final(self).gas_left() == old(self).gas_left() - cost
                &&& old(self).metering() && cost > old(self).gas_left() ==> r is Err
                    && r->Err_0.major_status == StatusCode::OutOfGas && final(self).gas_left()
                    == 0
            }),
            final(self).gas_left() <= old(self).gas_left(),
            final(self).metering() == old(self).metering(),
            final(self).well_formed() == old(self).well_formed(),
            final(self).table() == old(self).table(),
    {
        let intrinsic = crate::gas_schedule::calculate_intrinsic_gas(txn_size);
        self.consume_gas(intrinsic)
    }
}

/// The gas owed for a write through a reference: nothing for a local
/// reference; for a global reference, the expansion beyond the old size at
/// the per-byte memory cost, plus the whole write at the per-byte write
/// cost.
pub open spec fn spec_global_write_cost(old_size: u64, size_to_write: u64) -> int {
    let expansion: int = if size_to_write > old_size {
        size_to_write - old_size
    } else {
        1
    };
    expansion * GLOBAL_MEMORY_PER_BYTE_COST + size_to_write * GLOBAL_MEMORY_PER_BYTE_WRITE_COST
}

/// Charge the global-memory cost of a write about to go through a
/// reference. `old_size` is the abstract size of the value the reference
/// points at before the write.
pub fn charge_possible_global_write(
    gas_meter: &mut GasMeter,
    ref_val: &ReferenceValue,
    old_size: AbstractMemorySize,
    size_to_write: AbstractMemorySize,
) -> (r: VMResult<()>)
    ensures
        ref_val is Local ==> r is Ok && final(gas_meter).gas_left() == old(gas_meter).gas_left(),
        ref_val is Global ==> ({
            let cost = spec_global_write_cost(old_size.0, size_to_write.0);
            &&& !old(gas_meter).metering() ==> r is Ok && final(gas_meter).gas_left() == old(gas_meter).gas_left()
            &&& old(gas_meter).metering() && cost > u64::MAX ==> r is Err
                && r->Err_0.major_status == StatusCode::ArithmeticError && final(gas_meter).gas_left() == old(gas_meter).gas_left()
            &&& old(gas_meter).metering() && cost <= u64::MAX && cost <= old(gas_meter).gas_left() ==> r is Ok && final(gas_meter).gas_left() == old(gas_meter).gas_left()
                - cost
            &&& old(gas_meter).metering() && cost <= u64::MAX && cost > old(gas_meter).gas_left() ==> r is Err && r->Err_0.major_status == StatusCode::OutOfGas && final(gas_meter).gas_left() == 0
        }),
        final(gas_meter).gas_left() <= old(gas_meter).gas_left(),
        final(gas_meter).metering() == old(gas_meter).metering(),
        final(gas_meter).well_formed() == old(gas_meter).well_formed(),
        final(gas_meter).table() == old(gas_meter).table(),
{
    match ref_val {
        ReferenceValue::Local(_) => Ok(()),
        ReferenceValue::Global(_) => {
            if !gas_meter.metering_on() {
                return Ok(());
            }
            let expansion: u64 = if size_to_write.0 > old_size.0 {
                size_to_write.0 - old_size.0
            } else {
                1
            };
            let expansion_cost = match expansion.checked_mul(GLOBAL_MEMORY_PER_BYTE_COST) {
                Some(c) => c,
                None => {
                    return Err(VMStatus::new(StatusCode::ArithmeticError));
                },
            };
            let write_cost = match size_to_write.0.checked_mul(GLOBAL_MEMORY_PER_BYTE_WRITE_COST) {
                Some(c) => c,
                None => {
                    return Err(VMStatus::new(StatusCode::ArithmeticError));
                },
            };
            if expansion_cost > u64::MAX - write_cost {
                return Err(VMStatus::new(StatusCode::ArithmeticError));
            }
            gas_meter.consume_gas(GasUnits(expansion_cost + write_cost))
        },
    }
}

impl GasMeter {
    /// Whether metering is on.
    pub fn metering_on(&self) -> (r: bool)
        ensures
            r == self.metering(),
    {
        self.meter_on
    }
}

} // verus!

verus! {

/// Decode `count` gas costs from `bytes` starting at `pos`: two 64-bit
/// components each, little-endian.
pub open spec fn spec_decode_costs(bytes: Seq<u8>, count: int, pos: int) -> Option<
    (Seq<GasCost>, int),
>
    decreases count,
{
    if count <= 0 {
        Some((Seq::empty(), pos))
    } else if pos + 16 <= bytes.len() {
        let instr_gas = vstd::bytes::spec_u64_from_le_bytes(bytes.subrange(pos, pos + 8));
        let mem_gas = vstd::bytes::spec_u64_from_le_bytes(bytes.subrange(pos + 8, pos + 16));
        match spec_decode_costs(bytes, count - 1, pos + 16) {
            Option::Some((rest, end)) => Some(
                (
                    seq![
                        GasCost {
                            instruction_gas: crate::gas_schedule::GasUnits(instr_gas),
                            memory_gas: crate::gas_schedule::GasUnits(mem_gas),
                        },
                    ] + rest,
                    end,
                ),
            ),
            Option::None => None,
        }
    } else {
        None
    }
}

/// Decode a serialized cost table: the instruction list then the native
/// list, each length-prefixed, consuming every byte; the instruction list
/// must cover the whole instruction set.
pub open spec fn spec_decode_cost_table(bytes: Seq<u8>) -> Option<(Seq<GasCost>, Seq<GasCost>)> {
    if bytes.len() >= 4 {
        let icount = vstd::bytes::spec_u32_from_le_bytes(bytes.subrange(0, 4)) as int;
        if icount == crate::bytecode::NUMBER_OF_BYTECODE_INSTRUCTIONS {
            match spec_decode_costs(bytes, icount, 4) {
                Option::Some((instrs, mid)) => if mid + 4 <= bytes.len() {
                    let ncount = vstd::bytes::spec_u32_from_le_bytes(
                        bytes.subrange(mid, mid + 4),
                    ) as int;
                    match spec_decode_costs(bytes, ncount, mid + 4) {
                        Option::Some((natives, end)) => if end == bytes.len() {
                            Some((instrs, natives))
                        } else {
                            None
                        },
                        Option::None => None,
                    }
                } else {
                    None
                },
                Option::None => None,
            }
        } else {
            None
        }
    } else {
        None
    }
}

/// A decoded cost list has exactly the asked-for length.
proof fn lemma_decode_costs_len(bytes: Seq<u8>, count: int, pos: int)
    ensures
        spec_decode_costs(bytes, count, pos) matches Some(x) ==> x.0.len() == (if count >= 0 {
            count
        } else {
            0
        }),
    decreases count,
{
    if count > 0 && pos + 16 <= bytes.len() {
        lemma_decode_costs_len(bytes, count - 1, pos + 16);
    }
}

/// Decode `count` gas costs from `pos` on.
fn decode_costs(bytes: &Vec<u8>, count: u32, pos: usize) -> (r: Option<(Vec<GasCost>, usize)>)
    requires
        pos <= bytes@.len(),
    ensures
        match spec_decode_costs(bytes@, count as int, pos as int) {
            Option::Some(x) => r is Some && ((r->0).0)@ == x.0 && ((r->0).1) == x.1 && pos
                <= x.1 <= bytes@.len(),
            Option::None => r is None,
        },
    decreases count,
{
    if count == 0 {
        let empty: Vec<GasCost> = Vec::new();
        proof {
            assert(empty@ =~= Seq::<GasCost>::empty());
        }
        return Some((empty, pos));
    }
    if bytes.len() - pos < 16 {
        return None;
    }
    let instr_gas = vstd::bytes::u64_from_le_bytes(
        vstd::slice::slice_subrange(bytes.as_slice(), pos, pos + 8),
    );
    let mem_gas = vstd::bytes::u64_from_le_bytes(
        vstd::slice::slice_subrange(bytes.as_slice(), pos + 8, pos + 16),
    );
    let (rest, end) = match decode_costs(bytes, count - 1, pos + 16) {
        Some(x) => x,
        None => {
            return None;
        },
    };
    let mut out: Vec<GasCost> = Vec::new();
    out.push(GasCost::new(instr_gas, mem_gas));
    let mut rest_mut = rest;
    let ghost vrest = rest_mut@;
    out.append(&mut rest_mut);
    proof {
        assert(out@ =~= (spec_decode_costs(bytes@, count as int, pos as int)->0).0);
    }
    Some((out, end))
}

/// Decode a cost table from its stored bytes, or nothing when they are
/// malformed.
pub fn cost_table_from_bytes(bytes: &Vec<u8>) -> (r: Option<CostTable>)
    ensures
        match spec_decode_cost_table(bytes@) {
            Option::Some(t) => r matches Some(table) && table.instruction_table@ == t.0
                && table.native_table@ == t.1 && table.well_formed(),
            Option::None => r is None,
        },
{
    if bytes.len() < 4 {
        return None;
    }
    let icount = vstd::bytes::u32_from_le_bytes(
        vstd::slice::slice_subrange(bytes.as_slice(), 0, 4),
    );
    if icount as u64 != crate::bytecode::NUMBER_OF_BYTECODE_INSTRUCTIONS {
        return None;
    }
    let (instruction_table, mid) = match decode_costs(bytes, icount, 4) {
        Some(x) => x,
        None => {
            return None;
        },
    };
    if bytes.len() - mid < 4 {
        return None;
    }
    let ncount = vstd::bytes::u32_from_le_bytes(
        vstd::slice::slice_subrange(bytes.as_slice(), mid, mid + 4),
    );
    let (native_table, end) = match decode_costs(bytes, ncount, mid + 4) {
        Some(x) => x,
        None => {
            return None;
        },
    };
    if end != bytes.len() {
        return None;
    }
    proof {
        lemma_decode_costs_len(bytes@, icount as int, 4);
    }
    Some(CostTable { instruction_table, native_table })
}

/// The identity of the module that stores the gas schedule.
pub open spec fn spec_gas_schedule_id() -> crate::types::ModuleIdV {
    crate::types::ModuleIdV {
        address: Seq::new(crate::types::ADDRESS_LENGTH as nat, |i: int| 0u8),
        name: "GasSchedule"@,
    }
}

/// Whether the gas-schedule error carries the given step's sub-status.
pub open spec fn spec_schedule_error(r: VMResult<CostTable>, sub: u64) -> bool {
    &&& r is Err
    &&& r->Err_0.major_status == StatusCode::GasScheduleError
    &&& r->Err_0.sub_status == Some(sub)
}

/// Load the cost table the chain stores: the gas-schedule module's table
/// resource under the association address, decoded from its stored bytes.
/// Each way it can fail carries its own sub-status.
pub fn load_gas_schedule<P: crate::module::ModuleCache, R: crate::data_cache::RemoteCache>(
    module_cache: &P,
    data_view: &R,
) -> (r: VMResult<CostTable>)
    ensures
        ({
            let mo = module_cache.spec_get(spec_gas_schedule_id());
            &&& mo is None ==> spec_schedule_error(r, crate::status::GSE_UNABLE_TO_LOAD_MODULE)
            &&& mo matches Some(m) ==> ({
                let so = crate::module::spec_find_struct(m, "T"@, 0);
                &&& (so is None || (so matches Some(i) && i > u16::MAX)) ==> spec_schedule_error(
                    r,
                    crate::status::GSE_UNABLE_TO_LOAD_MODULE,
                )
                &&& so matches Some(i) ==> (i <= u16::MAX ==> ({
                    let apo = crate::interpreter::spec_resource_access_path(
                        m,
                        i,
                        Seq::new(crate::types::ADDRESS_LENGTH as nat, |k: int| 0xa5u8),
                    );
                    &&& apo is None ==> spec_schedule_error(
                        r,
                        crate::status::GSE_UNABLE_TO_LOAD_RESOURCE,
                    )
                    &&& apo matches Some(ap) ==> ({
                        let bo = data_view.spec_get(ap);
                        &&& bo is None ==> spec_schedule_error(
                            r,
                            crate::status::GSE_UNABLE_TO_LOAD_RESOURCE,
                        )
                        &&& bo matches Some(bs) ==> match spec_decode_cost_table(bs) {
                            Option::Some(t) => r matches Ok(table) && table.instruction_table@
                                == t.0 && table.native_table@ == t.1 && table.well_formed(),
                            Option::None => spec_schedule_error(
                                r,
                                crate::status::GSE_UNABLE_TO_DESERIALIZE,
                            ),
                        }
                    })
                }))
            })
        }),
{
    proof {
        reveal_strlit("GasSchedule");
        reveal_strlit("T");
    }
    let gas_schedule_id = crate::types::ModuleId::new(
        crate::account_config::core_code_address(),
        crate::types::Identifier::new("GasSchedule".to_owned()),
    );
    let gas_module = match module_cache.get_loaded_module(&gas_schedule_id) {
        Some(m) => m,
        None => {
            return Err(
                VMStatus::new(StatusCode::GasScheduleError).with_sub_status(
                    crate::status::GSE_UNABLE_TO_LOAD_MODULE,
                ),
            );
        },
    };
    let table_name = crate::types::Identifier::new("T".to_owned());
    let struct_idx = match gas_module.find_struct_def(&table_name) {
        Some(i) => i,
        None => {
            return Err(
                VMStatus::new(StatusCode::GasScheduleError).with_sub_status(
                    crate::status::GSE_UNABLE_TO_LOAD_MODULE,
                ),
            );
        },
    };
    if struct_idx > u16::MAX as usize {
        return Err(
            VMStatus::new(StatusCode::GasScheduleError).with_sub_status(
                crate::status::GSE_UNABLE_TO_LOAD_MODULE,
            ),
        );
    }
    let access_path = match crate::interpreter::make_access_path(
        gas_module,
        struct_idx as u16,
        crate::account_config::association_address(),
    ) {
        Ok(ap) => ap,
        Err(_) => {
            return Err(
                VMStatus::new(StatusCode::GasScheduleError).with_sub_status(
                    crate::status::GSE_UNABLE_TO_LOAD_RESOURCE,
                ),
            );
        },
    };
    let data_blob = match data_view.get(&access_path) {
        Some(blob) => blob,
        None => {
            return Err(
                VMStatus::new(StatusCode::GasScheduleError).with_sub_status(
                    crate::status::GSE_UNABLE_TO_LOAD_RESOURCE,
                ),
            );
        },
    };
    match cost_table_from_bytes(&data_blob) {
        Some(table) => Ok(table),
        None => Err(
            VMStatus::new(StatusCode::GasScheduleError).with_sub_status(
                crate::status::GSE_UNABLE_TO_DESERIALIZE,
            ),
        ),
    }
}

} // verus!
