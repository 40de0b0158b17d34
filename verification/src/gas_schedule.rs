//! The gas accounting algebra: scalar unit newtypes over a common carrier,
//! the per-instruction cost table keyed by a canonical opcode byte, and the
//! intrinsic-gas pricing of a transaction by its size.

use vstd::prelude::*;

use crate::bytecode::Bytecode;
use crate::bytecode::NUMBER_OF_BYTECODE_INSTRUCTIONS;

verus! {

/// The cost per byte of global storage expansion.
pub const GLOBAL_MEMORY_PER_BYTE_COST: u64 = 8;

/// The cost per byte written to global storage.
pub const GLOBAL_MEMORY_PER_BYTE_WRITE_COST: u64 = 8;

/// The maximum size representable by `AbstractMemorySize`.
pub const MAX_ABSTRACT_MEMORY_SIZE: u64 = 0xffff_ffff_ffff_ffff;

/// The units of gas charged per byte of every transaction.
pub const INTRINSIC_GAS_PER_BYTE: u64 = 8;

/// The minimum gas price a transaction can be submitted with.
pub const MIN_PRICE_PER_GAS_UNIT: u64 = 0;

/// The maximum gas price a transaction can be submitted with.
pub const MAX_PRICE_PER_GAS_UNIT: u64 = 10_000;

/// The maximum number of gas units a transaction can run with.
pub const MAXIMUM_NUMBER_OF_GAS_UNITS: u64 = 1_000_000;

/// The flat fee charged for the first `LARGE_TRANSACTION_CUTOFF` bytes.
pub const MIN_TRANSACTION_GAS_UNITS: u64 = 600;

/// The word size that gas is charged by.
pub const WORD_SIZE: u64 = 8;

/// The size in words of a non-string, non-address constant on the stack.
pub const CONST_SIZE: u64 = 1;

/// The size in words of a reference on the stack.
pub const REFERENCE_SIZE: u64 = 8;

/// The base size of a struct in words.
pub const STRUCT_SIZE: u64 = 2;

/// The abstract size of a freshly created account.
pub const DEFAULT_ACCOUNT_SIZE: u64 = 32;

/// Any transaction over this size is charged `INTRINSIC_GAS_PER_BYTE` per
/// excess word.
pub const LARGE_TRANSACTION_CUTOFF: u64 = 600;

/// The largest transaction, in bytes, that the executor accepts.
pub const MAX_TRANSACTION_SIZE_IN_BYTES: u64 = 4096;

/// The operations permitted on the carrier of a gas-related unit. Arithmetic
/// is defined only between operands of the same algebra; overflow and division
/// by zero are ruled out by precondition, and `unitary_cast` is the only legal
/// conversion between algebras.
pub trait GasAlgebra: Sized {
    /// The underlying carrier value.
    spec fn carrier(&self) -> u64;

    /// Project a carrier value into the algebra.
    fn new(carrier: u64) -> (r: Self)
        ensures
            r.carrier() == carrier,
    ;

    /// Read the carrier back out.
    fn get(&self) -> (r: u64)
        ensures
            r == self.carrier(),
    ;

    /// Add two quantities of the same algebra.
    fn add(self, right: Self) -> (r: Self)
        requires
            self.carrier() + right.carrier() <= u64::MAX,
        ensures
            r.carrier() == self.carrier() + right.carrier(),
    ;

    /// Subtract one quantity from another of the same algebra.
    fn sub(self, right: Self) -> (r: Self)
        requires
            right.carrier() <= self.carrier(),
        ensures
            r.carrier() == self.carrier() - right.carrier(),
    ;

    /// Multiply two quantities of the same algebra.
    fn mul(self, right: Self) -> (r: Self)
        requires
            self.carrier() * right.carrier() <= u64::MAX,
        ensures
            r.carrier() == self.carrier() * right.carrier(),
    ;

    /// Divide one quantity by another of the same algebra.
    fn div(self, right: Self) -> (r: Self)
        requires
            right.carrier() != 0,
        ensures
            r.carrier() == self.carrier() / right.carrier(),
    ;
}

/// Cast a quantity of one gas algebra into another sharing the carrier:
/// the one legal cross-algebra conversion.
pub fn unitary_cast<S: GasAlgebra, T: GasAlgebra>(x: S) -> (r: T)
    ensures
        r.carrier() == x.carrier(),
{
    T::new(x.get())
}

/// The abstract memory size that a value or an instruction takes up.
#[derive(Debug, Clone, Copy, PartialEq, Eq, Hash, Structural)]
pub struct AbstractMemorySize(pub u64);

impl GasAlgebra for AbstractMemorySize {
    open spec fn carrier(&self) -> u64 {
        self.0
    }

    fn new(carrier: u64) -> (r: Self) {
        AbstractMemorySize(carrier)
    }

    fn get(&self) -> (r: u64) {
        self.0
    }

    fn add(self, right: Self) -> (r: Self) {
        AbstractMemorySize(self.0 + right.0)
    }

    fn sub(self, right: Self) -> (r: Self) {
        AbstractMemorySize(self.0 - right.0)
    }

    fn mul(self, right: Self) -> (r: Self) {
        AbstractMemorySize(self.0 * right.0)
    }

    fn div(self, right: Self) -> (r: Self) {
        AbstractMemorySize(self.0 / right.0)
    }
}

/// A quantity of gas units.
#[derive(Debug, Clone, Copy, PartialEq, Eq, Hash, Structural)]
pub struct GasUnits(pub u64);

impl GasAlgebra for GasUnits {
    open spec fn carrier(&self) -> u64 {
        self.0
    }

    fn new(carrier: u64) -> (r: Self) {
        GasUnits(carrier)
    }

    fn get(&self) -> (r: u64) {
        self.0
    }

    fn add(self, right: Self) -> (r: Self) {
        GasUnits(self.0 + right.0)
    }

    fn sub(self, right: Self) -> (r: Self) {
        GasUnits(self.0 - right.0)
    }

    fn mul(self, right: Self) -> (r: Self) {
        GasUnits(self.0 * right.0)
    }

    fn div(self, right: Self) -> (r: Self) {
        GasUnits(self.0 / right.0)
    }
}

/// The price paid per unit of gas consumed.
#[derive(Debug, Clone, Copy, PartialEq, Eq, Hash, Structural)]
pub struct GasPrice(pub u64);

impl GasAlgebra for GasPrice {
    open spec fn carrier(&self) -> u64 {
        self.0
    }

    fn new(carrier: u64) -> (r: Self) {
        GasPrice(carrier)
    }

    fn get(&self) -> (r: u64) {
        self.0
    }

    fn add(self, right: Self) -> (r: Self) {
        GasPrice(self.0 + right.0)
    }

    fn sub(self, right: Self) -> (r: Self) {
        GasPrice(self.0 - right.0)
    }

    fn mul(self, right: Self) -> (r: Self) {
        GasPrice(self.0 * right.0)
    }

    fn div(self, right: Self) -> (r: Self) {
        GasPrice(self.0 / right.0)
    }
}

/// The cost of one instruction: computational cost plus memory overhead.
#[derive(Debug, Clone, Copy, PartialEq, Eq, Structural)]
pub struct GasCost {
    pub instruction_gas: GasUnits,
    pub memory_gas: GasUnits,
}

impl GasCost {
    /// A cost with the given computational and memory components.
    pub fn new(instr_gas: u64, mem_gas: u64) -> (r: Self)
        ensures
            r.instruction_gas.0 == instr_gas,
            r.memory_gas.0 == mem_gas,
    {
        GasCost { instruction_gas: GasUnits(instr_gas), memory_gas: GasUnits(mem_gas) }
    }
}

/// The canonical opcode byte of an instruction: its position in the fixed
/// serialization order of the instruction set, disregarding operands.
/// Keys are 1-indexed.
pub open spec fn spec_instruction_key(instruction: Bytecode) -> u8 {
    match instruction {
        Bytecode::Pop => 1,
        Bytecode::Ret => 2,
        Bytecode::BrTrue(..) => 3,
        Bytecode::BrFalse(..) => 4,
        Bytecode::Branch(..) => 5,
        Bytecode::LdConst(..) => 6,
        Bytecode::LdAddr(..) => 7,
        Bytecode::LdStr(..) => 8,
        Bytecode::LdByteArray(..) => 9,
        Bytecode::LdTrue => 10,
        Bytecode::LdFalse => 11,
        Bytecode::CopyLoc(..) => 12,
        Bytecode::MoveLoc(..) => 13,
        Bytecode::StLoc(..) => 14,
        Bytecode::Call(..) => 15,
        Bytecode::Pack(..) => 16,
        Bytecode::Unpack(..) => 17,
        Bytecode::ReadRef => 18,
        Bytecode::WriteRef => 19,
        Bytecode::FreezeRef => 20,
        Bytecode::MutBorrowLoc(..) => 21,
        Bytecode::ImmBorrowLoc(..) => 22,
        Bytecode::MutBorrowField(..) => 23,
        Bytecode::ImmBorrowField(..) => 24,
        Bytecode::MutBorrowGlobal(..) => 25,
        Bytecode::ImmBorrowGlobal(..) => 26,
        Bytecode::Add => 27,
        Bytecode::Sub => 28,
        Bytecode::Mul => 29,
        Bytecode::Mod => 30,
        Bytecode::Div => 31,
        Bytecode::BitOr => 32,
        Bytecode::BitAnd => 33,
        Bytecode::Xor => 34,
        Bytecode::Or => 35,
        Bytecode::And => 36,
        Bytecode::Not => 37,
        Bytecode::Eq => 38,
        Bytecode::Neq => 39,
        Bytecode::Lt => 40,
        Bytecode::Gt => 41,
        Bytecode::Le => 42,
        Bytecode::Ge => 43,
        Bytecode::Abort => 44,
        Bytecode::GetTxnGasUnitPrice => 45,
        Bytecode::GetTxnMaxGasUnits => 46,
        Bytecode::GetGasRemaining => 47,
        Bytecode::GetTxnSenderAddress => 48,
        Bytecode::GetTxnSequenceNumber => 49,
        Bytecode::GetTxnPublicKey => 50,
        Bytecode::Exists(..) => 51,
        Bytecode::MoveFrom(..) => 52,
        Bytecode::MoveToSender(..) => 53,
        Bytecode::CreateAccount => 54,
    }
}

/// The canonical opcode byte of an instruction (see `spec_instruction_key`).
pub fn instruction_key(instruction: &Bytecode) -> (r: u8)
    ensures
        r == spec_instruction_key(*instruction),
        1 <= r <= NUMBER_OF_BYTECODE_INSTRUCTIONS,
{
    match instruction {
        Bytecode::Pop => 1,
        Bytecode::Ret => 2,
        Bytecode::BrTrue(..) => 3,
        Bytecode::BrFalse(..) => 4,
        Bytecode::Branch(..) => 5,
        Bytecode::LdConst(..) => 6,
        Bytecode::LdAddr(..) => 7,
        Bytecode::LdStr(..) => 8,
        Bytecode::LdByteArray(..) => 9,
        Bytecode::LdTrue => 10,
        Bytecode::LdFalse => 11,
        Bytecode::CopyLoc(..) => 12,
        Bytecode::MoveLoc(..) => 13,
        Bytecode::StLoc(..) => 14,
        Bytecode::Call(..) => 15,
        Bytecode::Pack(..) => 16,
        Bytecode::Unpack(..) => 17,
        Bytecode::ReadRef => 18,
        Bytecode::WriteRef => 19,
        Bytecode::FreezeRef => 20,
        Bytecode::MutBorrowLoc(..) => 21,
        Bytecode::ImmBorrowLoc(..) => 22,
        Bytecode::MutBorrowField(..) => 23,
        Bytecode::ImmBorrowField(..) => 24,
        Bytecode::MutBorrowGlobal(..) => 25,
        Bytecode::ImmBorrowGlobal(..) => 26,
        Bytecode::Add => 27,
        Bytecode::Sub => 28,
        Bytecode::Mul => 29,
        Bytecode::Mod => 30,
        Bytecode::Div => 31,
        Bytecode::BitOr => 32,
        Bytecode::BitAnd => 33,
        Bytecode::Xor => 34,
        Bytecode::Or => 35,
        Bytecode::And => 36,
        Bytecode::Not => 37,
        Bytecode::Eq => 38,
        Bytecode::Neq => 39,
        Bytecode::Lt => 40,
        Bytecode::Gt => 41,
        Bytecode::Le => 42,
        Bytecode::Ge => 43,
        Bytecode::Abort => 44,
        Bytecode::GetTxnGasUnitPrice => 45,
        Bytecode::GetTxnMaxGasUnits => 46,
        Bytecode::GetGasRemaining => 47,
        Bytecode::GetTxnSenderAddress => 48,
        Bytecode::GetTxnSequenceNumber => 49,
        Bytecode::GetTxnPublicKey => 50,
        Bytecode::Exists(..) => 51,
        Bytecode::MoveFrom(..) => 52,
        Bytecode::MoveToSender(..) => 53,
        Bytecode::CreateAccount => 54,
    }
}

/// An instruction with the given canonical opcode byte, with zeroed operands.
/// Useful for building a cost table entry for every defined opcode.
pub fn representative_opcode(key: u8) -> (r: Bytecode)
    requires
        1 <= key <= NUMBER_OF_BYTECODE_INSTRUCTIONS,
    ensures
        spec_instruction_key(r) == key,
{
    match key {
        1 => Bytecode::Pop,
        2 => Bytecode::Ret,
        3 => Bytecode::BrTrue(0),
        4 => Bytecode::BrFalse(0),
        5 => Bytecode::Branch(0),
        6 => Bytecode::LdConst(0),
        7 => Bytecode::LdAddr(0),
        8 => Bytecode::LdStr(0),
        9 => Bytecode::LdByteArray(0),
        10 => Bytecode::LdTrue,
        11 => Bytecode::LdFalse,
        12 => Bytecode::CopyLoc(0),
        13 => Bytecode::MoveLoc(0),
        14 => Bytecode::StLoc(0),
        15 => Bytecode::Call(0, 0),
        16 => Bytecode::Pack(0, 0),
        17 => Bytecode::Unpack(0, 0),
        18 => Bytecode::ReadRef,
        19 => Bytecode::WriteRef,
        20 => Bytecode::FreezeRef,
        21 => Bytecode::MutBorrowLoc(0),
        22 => Bytecode::ImmBorrowLoc(0),
        23 => Bytecode::MutBorrowField(0),
        24 => Bytecode::ImmBorrowField(0),
        25 => Bytecode::MutBorrowGlobal(0, 0),
        26 => Bytecode::ImmBorrowGlobal(0, 0),
        27 => Bytecode::Add,
        28 => Bytecode::Sub,
        29 => Bytecode::Mul,
        30 => Bytecode::Mod,
        31 => Bytecode::Div,
        32 => Bytecode::BitOr,
        33 => Bytecode::BitAnd,
        34 => Bytecode::Xor,
        35 => Bytecode::Or,
        36 => Bytecode::And,
        37 => Bytecode::Not,
        38 => Bytecode::Eq,
        39 => Bytecode::Neq,
        40 => Bytecode::Lt,
        41 => Bytecode::Gt,
        42 => Bytecode::Le,
        43 => Bytecode::Ge,
        44 => Bytecode::Abort,
        45 => Bytecode::GetTxnGasUnitPrice,
        46 => Bytecode::GetTxnMaxGasUnits,
        47 => Bytecode::GetGasRemaining,
        48 => Bytecode::GetTxnSenderAddress,
        49 => Bytecode::GetTxnSequenceNumber,
        50 => Bytecode::GetTxnPublicKey,
        51 => Bytecode::Exists(0, 0),
        52 => Bytecode::MoveFrom(0, 0),
        53 => Bytecode::MoveToSender(0, 0),
        _ => Bytecode::CreateAccount,
    }
}

/// There is an entry with opcode byte `key` among `instrs`.
pub open spec fn covers(instrs: Seq<(Bytecode, GasCost)>, key: u8) -> bool {
    exists|i: int|
        0 <= i < instrs.len() && spec_instruction_key(#[trigger] instrs[i].0) == key
}

/// Some entry of `instrs` has opcode byte `key` and cost `cost`.
pub open spec fn entry_for(instrs: Seq<(Bytecode, GasCost)>, key: u8, cost: GasCost) -> bool {
    exists|i: int|
        0 <= i < instrs.len() && spec_instruction_key(#[trigger] instrs[i].0) == key
            && instrs[i].1 == cost
}

/// The table's entry at `key - 1` prices some input entry with that key.
pub open spec fn table_matches(
    instrs: Seq<(Bytecode, GasCost)>,
    table: Seq<GasCost>,
    key: u8,
) -> bool {
    entry_for(instrs, key, table[key - 1])
}

/// The per-instruction cost table, keyed by the canonical opcode byte: the
/// entry of an instruction sits at index `instruction_key(instr) - 1`.
/// A separate list carries the costs of native functions.
#[derive(Debug, PartialEq, Eq)]
pub struct CostTable {
    pub instruction_table: Vec<GasCost>,
    pub native_table: Vec<GasCost>,
}

/// Copy a list of gas costs.
fn clone_costs(v: &Vec<GasCost>) -> (r: Vec<GasCost>)
    ensures
        r@ == v@,
{
    let mut out: Vec<GasCost> = Vec::new();
    let mut i: usize = 0;
    while i < v.len()
        invariant
            i <= v@.len(),
            out@ =~= v@.take(i as int),
        decreases v@.len() - i,
    {
        out.push(v[i]);
        i += 1;
    }
    proof {
        assert(out@ =~= v@);
    }
    out
}

impl Clone for CostTable {
    /// A copy pricing every instruction the same.
    fn clone(&self) -> (r: CostTable)
        ensures
            r.instruction_table@ == self.instruction_table@,
            r.native_table@ == self.native_table@,
            r.well_formed() == self.well_formed(),
            forall|instr: Bytecode| #[trigger] r.spec_entry(instr) == self.spec_entry(instr),
    {
        CostTable {
            instruction_table: clone_costs(&self.instruction_table),
            native_table: clone_costs(&self.native_table),
        }
    }
}

impl CostTable {
    /// One cost entry per defined opcode, in key order.
    pub open spec fn well_formed(&self) -> bool {
        self.instruction_table@.len() == NUMBER_OF_BYTECODE_INSTRUCTIONS
    }

    /// The cost entry of an instruction.
    pub open spec fn spec_entry(&self, instruction: Bytecode) -> GasCost {
        self.instruction_table@[spec_instruction_key(instruction) - 1]
    }

    /// Build the table from one entry per defined opcode, arranged so that
    /// each entry sits at its opcode byte minus one.
    pub fn new(instrs: Vec<(Bytecode, GasCost)>) -> (r: CostTable)
        requires
            instrs@.len() == NUMBER_OF_BYTECODE_INSTRUCTIONS,
            forall|k: u8| 1 <= k <= NUMBER_OF_BYTECODE_INSTRUCTIONS ==> covers(instrs@, k),
        ensures
            r.well_formed(),
            r.native_table@.len() == 0,
            forall|k: u8|
                1 <= k <= NUMBER_OF_BYTECODE_INSTRUCTIONS ==> #[trigger] table_matches(
                    instrs@,
                    r.instruction_table@,
                    k,
                ),
    {
        let mut instruction_table: Vec<GasCost> = Vec::new();
        let mut k: u8 = 1;
        while k <= 54
            invariant
                1 <= k <= 55,
                instruction_table@.len() == k - 1,
                instrs@.len() == 54,
                forall|k2: u8| 1 <= k2 <= 54 ==> covers(instrs@, k2),
                forall|j: u8| 1 <= j < k ==> #[trigger] table_matches(
                    instrs@,
                    instruction_table@,
                    j,
                ),
            decreases 55 - k,
        {
            let mut i: usize = 0;
            while i < instrs.len() && instruction_key(&instrs[i].0) != k
                invariant
                    0 <= i <= instrs@.len(),
                    instrs@.len() == 54,
                    1 <= k <= 54,
                    forall|j: int|
                        0 <= j < i ==> spec_instruction_key(#[trigger] instrs@[j].0) != k,
                decreases instrs@.len() - i,
            {
                i += 1;
            }
            assert(i < instrs@.len()) by {
                assert(covers(instrs@, k));
            }
            let ghost table_before = instruction_table@;
            instruction_table.push(instrs[i].1);
            proof {
                assert(entry_for(instrs@, k, instrs@[i as int].1));
                assert forall|j: u8| 1 <= j < k + 1 implies #[trigger] table_matches(
                    instrs@,
                    instruction_table@,
                    j,
                ) by {
                    if j < k {
                        assert(table_matches(instrs@, table_before, j));
                        assert(instruction_table@[j - 1] == table_before[j - 1]);
                    } else {
                        assert(instruction_table@[j - 1] == instrs@[i as int].1);
                    }
                }
            }
            k += 1;
        }
        let ghost final_table = instruction_table@;
        let r = CostTable { instruction_table, native_table: Vec::new() };
        proof {
            assert forall|k2: u8|
                1 <= k2 <= NUMBER_OF_BYTECODE_INSTRUCTIONS implies #[trigger] table_matches(
                instrs@,
                r.instruction_table@,
                k2,
            ) by {
                assert(table_matches(instrs@, final_table, k2));
                assert(r.instruction_table@ == final_table);
            }
        }
        r
    }

    /// The cost entry of an instruction, unscaled.
    pub fn entry_cost(&self, instr: &Bytecode) -> (r: GasCost)
        requires
            self.well_formed(),
        ensures
            r == self.spec_entry(*instr),
    {
        let key = instruction_key(instr);
        self.instruction_table[(key - 1) as usize]
    }

    /// The cost of an instruction, scaled by the memory size it operates on.
    /// Instruction keys are 1-indexed, so an instruction's entry sits at its
    /// key minus one.
    pub fn get_gas(&self, instr: &Bytecode, size_provider: AbstractMemorySize) -> (r: GasCost)
        requires
            self.well_formed(),
            self.spec_entry(*instr).instruction_gas.0 * size_provider.0 <= u64::MAX,
            self.spec_entry(*instr).memory_gas.0 * size_provider.0 <= u64::MAX,
        ensures
            r.instruction_gas.0 == self.spec_entry(*instr).instruction_gas.0 * size_provider.0,
            r.memory_gas.0 == self.spec_entry(*instr).memory_gas.0 * size_provider.0,
    {
        let good_cost = self.entry_cost(instr);
        GasCost {
            instruction_gas: good_cost.instruction_gas.mul(unitary_cast::<AbstractMemorySize, GasUnits>(size_provider)),
            memory_gas: good_cost.memory_gas.mul(unitary_cast::<AbstractMemorySize, GasUnits>(size_provider)),
        }
    }
}

/// Every defined opcode has exactly one entry in a well-formed cost table,
/// and `instruction_key(op) - 1` is its index: the key function maps each
/// opcode to one in-bounds index, so distinct table slots never serve one
/// opcode, and no opcode is without a slot.
pub proof fn lemma_cost_table_complete(t: CostTable, op: Bytecode)
    requires
        t.well_formed(),
    ensures
        0 <= spec_instruction_key(op) - 1 < t.instruction_table@.len(),
        t.spec_entry(op) == t.instruction_table@[spec_instruction_key(op) - 1],
{
}

/// The number of words `size` bytes occupy, rounded up.
pub fn words_in(size: AbstractMemorySize) -> (r: AbstractMemorySize)
    requires
        size.0 <= MAX_ABSTRACT_MEMORY_SIZE - (WORD_SIZE + 1),
    ensures
        r.0 == (size.0 + (WORD_SIZE - 1)) as int / WORD_SIZE as int,
{
    AbstractMemorySize((size.0 + (WORD_SIZE - 1)) / WORD_SIZE)
}

/// The intrinsic gas owed for a transaction of the given size: the flat
/// minimum fee, plus a per-word charge on every byte past the cutoff.
pub open spec fn spec_intrinsic_gas(transaction_size: u64) -> u64
    recommends
        transaction_size <= MAX_TRANSACTION_SIZE_IN_BYTES,
{
    if transaction_size > LARGE_TRANSACTION_CUTOFF {
        (MIN_TRANSACTION_GAS_UNITS + INTRINSIC_GAS_PER_BYTE * (((transaction_size
            - LARGE_TRANSACTION_CUTOFF) + (WORD_SIZE - 1)) / WORD_SIZE as int)) as u64
    } else {
        MIN_TRANSACTION_GAS_UNITS
    }
}

/// The intrinsic gas charged for a transaction, by its size in bytes.
pub fn calculate_intrinsic_gas(transaction_size: AbstractMemorySize) -> (r: GasUnits)
    requires
        transaction_size.0 <= MAX_TRANSACTION_SIZE_IN_BYTES,
    ensures
        r.0 == spec_intrinsic_gas(transaction_size.0),
{
    let min_transaction_fee = GasUnits(MIN_TRANSACTION_GAS_UNITS);

    if transaction_size.0 > LARGE_TRANSACTION_CUTOFF {
        let excess = words_in(transaction_size.sub(AbstractMemorySize(LARGE_TRANSACTION_CUTOFF)));
        min_transaction_fee.add(GasUnits(INTRINSIC_GAS_PER_BYTE).mul(unitary_cast::<AbstractMemorySize, GasUnits>(excess)))
    } else {
        min_transaction_fee
    }
}

} // verus!
