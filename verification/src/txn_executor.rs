//! The transaction executor: the prologue, script body and epilogue of one
//! transaction, gas-left bookkeeping across the three, failure cleanup that
//! discards writes but still charges fees, and assembly of the final
//! output.

use vstd::prelude::*;

use crate::account_config::account_module_id;
use crate::account_config::epilogue_name;
use crate::account_config::prologue_name;
use crate::data_cache::RemoteCache;
use crate::data_cache::TransactionDataCache;
use crate::data_cache::WriteSet;
use crate::events::ContractEvent;
use crate::gas_meter::GasMeter;
use crate::gas_schedule::CostTable;
use crate::gas_schedule::GasUnits;
use crate::gas_schedule::MAX_TRANSACTION_SIZE_IN_BYTES;
use crate::interpreter::Interpreter;
use crate::interpreter::TransactionMetadata;
use crate::module::FunctionRef;
use crate::module::LoadedModule;
use crate::module::ModuleCache;
use crate::module::VMModuleCache;
use crate::status::StatusCode;
use crate::status::StatusType;
use crate::status::VMResult;
use crate::status::VMStatus;
use crate::types::AccountAddress;
use crate::types::Identifier;
use crate::types::ModuleId;
use crate::values::VMString;
use crate::values::Value;

verus! {

/// The final status of one transaction: kept on chain with a status,
/// discarded, or retried later.
#[derive(Debug, PartialEq, Eq)]
pub enum TransactionStatus {
    Discard(VMStatus),
    Keep(VMStatus),
    Retry,
}

impl TransactionStatus {
    /// The kept-or-discarded decision for an execution status: invariant
    /// violations and validation failures discard the transaction, every
    /// other status keeps it, fees charged.
    pub fn from_vm_status(status: VMStatus) -> (r: TransactionStatus)
        ensures
            crate::status::spec_status_type(status.major_status) == StatusType::InvariantViolation
                ==> r == TransactionStatus::Discard(status),
            crate::status::spec_status_type(status.major_status) == StatusType::Validation ==> r
                == TransactionStatus::Discard(status),
            crate::status::spec_status_type(status.major_status) != StatusType::InvariantViolation
                && crate::status::spec_status_type(status.major_status) != StatusType::Validation
                ==> r == TransactionStatus::Keep(status),
    {
        let t = status.status_type();
        match t {
            StatusType::InvariantViolation => TransactionStatus::Discard(status),
            StatusType::Validation => TransactionStatus::Discard(status),
            _ => TransactionStatus::Keep(status),
        }
    }
}

/// What one transaction produced: its ordered write-set, the events it
/// emitted, the gas it consumed, and its final status.
#[derive(Debug, PartialEq, Eq)]
pub struct TransactionOutput {
    pub write_set: WriteSet,
    pub events: Vec<ContractEvent>,
    pub gas_used: u64,
    pub status: TransactionStatus,
}

impl TransactionOutput {
    /// An output from its parts.
    pub fn new(
        write_set: WriteSet,
        events: Vec<ContractEvent>,
        gas_used: u64,
        status: TransactionStatus,
    ) -> (r: TransactionOutput)
        ensures
            r.write_set == write_set,
            r.events == events,
            r.gas_used == gas_used,
            r.status == status,
    {
        TransactionOutput { write_set, events, gas_used, status }
    }

    /// The transaction's write-set.
    pub fn write_set(&self) -> (r: &WriteSet)
        ensures
            r == self.write_set,
    {
        &self.write_set
    }

    /// The events the transaction emitted, in emission order.
    pub fn events(&self) -> (r: &Vec<ContractEvent>)
        ensures
            r == self.events,
    {
        &self.events
    }

    /// How much gas the transaction consumed.
    pub fn gas_used(&self) -> (r: u64)
        ensures
            r == self.gas_used,
    {
        self.gas_used
    }

    /// The transaction's final status.
    pub fn status(&self) -> (r: &TransactionStatus)
        ensures
            r == self.status,
    {
        &self.status
    }
}

/// An argument of a signed transaction, as plain data.
#[derive(Debug, PartialEq, Eq)]
pub enum TransactionArgument {
    U8(u8),
    U64(u64),
    U128(u128),
    Address(AccountAddress),
    U8Vector(Vec<u8>),
    Bool(bool),
    Str(VMString),
}

/// The runtime value a transaction argument converts to: bytes widen into
/// the integer carrier, and a 128-bit argument arrives as the little-endian
/// bytes of its value, the value model having no wider integer.
pub open spec fn spec_convert_arg(arg: TransactionArgument) -> crate::values::ValueV {
    match arg {
        TransactionArgument::U8(x) => crate::values::ValueV::U64(x as u64),
        TransactionArgument::U64(x) => crate::values::ValueV::U64(x),
        TransactionArgument::U128(x) => crate::values::ValueV::ByteArray(
            vstd::bytes::spec_u128_to_le_bytes(x),
        ),
        TransactionArgument::Address(a) => crate::values::ValueV::Address(a@),
        TransactionArgument::U8Vector(bytes) => crate::values::ValueV::ByteArray(bytes@),
        TransactionArgument::Bool(b) => crate::values::ValueV::Bool(b),
        TransactionArgument::Str(vm_str) => crate::values::ValueV::Str(vm_str@),
    }
}

/// Convert the transaction arguments into runtime values, in order.
pub fn convert_txn_args(args: Vec<TransactionArgument>) -> (r: Vec<Value>)
    ensures
        r@.len() == args@.len(),
        forall|i: int| 0 <= i < args@.len() ==> #[trigger] r@[i]@ == spec_convert_arg(args@[i]),
{
    let mut rev: Vec<Value> = Vec::new();
    let mut args = args;
    let ghost args0 = args@;
    let ghost n = args@.len();
    while args.len() > 0
        invariant
            rev@.len() + args@.len() == n,
            forall|j: int| 0 <= j < args@.len() ==> #[trigger] args@[j] == args0[j],
            forall|j: int| 0 <= j < rev@.len() ==> #[trigger] rev@[j]@ == spec_convert_arg(
                args0[n - 1 - j],
            ),
        decreases args@.len(),
    {
        let ghost args_pre = args@;
        let arg = match args.pop() {
            Some(a) => a,
            None => {
                proof {
                    assert(false);
                }
                return rev;
            },
        };
        let value = match arg {
            TransactionArgument::U8(x) => Value::u64(x as u64),
            TransactionArgument::U64(x) => Value::u64(x),
            TransactionArgument::U128(x) => Value::byte_array(vstd::bytes::u128_to_le_bytes(x)),
            TransactionArgument::Address(a) => Value::address(a),
            TransactionArgument::U8Vector(bytes) => Value::byte_array(bytes),
            TransactionArgument::Bool(b) => Value::bool(b),
            TransactionArgument::Str(vm_str) => Value::string(vm_str),
        };
        rev.push(value);
        proof {
            let plen = args_pre.len() as int;
            assert(args_pre[plen - 1] == args0[plen - 1]);
            assert(args0[n - 1 - (rev@.len() - 1)] == args_pre.last());
            assert forall|j: int| 0 <= j < args@.len() implies #[trigger] args@[j]
                == args0[j] by {
                assert(args@[j] == args_pre[j]);
            }
        }
    }
    let mut out: Vec<Value> = Vec::new();
    while rev.len() > 0
        invariant
            out@.len() + rev@.len() == n,
            forall|j: int| 0 <= j < rev@.len() ==> #[trigger] rev@[j]@ == spec_convert_arg(
                args0[n - 1 - j],
            ),
            forall|j: int| 0 <= j < out@.len() ==> #[trigger] out@[j]@ == spec_convert_arg(
                args0[j],
            ),
        decreases rev@.len(),
    {
        match rev.pop() {
            Some(v) => {
                out.push(v);
            },
            None => {
                proof {
                    assert(false);
                }
                return out;
            },
        }
    }
    out
}

/// The output of a transaction that is discarded before any work counts:
/// no writes, no events, no gas.
pub fn error_output(err: VMStatus) -> (r: TransactionOutput)
    ensures
        r.write_set@.len() == 0,
        r.events@.len() == 0,
        r.gas_used == 0,
        r.status == TransactionStatus::Discard(err),
{
    TransactionOutput::new(
        WriteSet { write_set: Vec::new() },
        Vec::new(),
        0,
        TransactionStatus::Discard(err),
    )
}

/// Copy a list of events.
fn clone_events(events: &Vec<ContractEvent>) -> (r: Vec<ContractEvent>)
    ensures
        r@.len() == events@.len(),
        forall|i: int| 0 <= i < events@.len() ==> #[trigger] r@[i]@ == events@[i]@,
{
    let mut out: Vec<ContractEvent> = Vec::new();
    let mut i: usize = 0;
    while i < events.len()
        invariant
            i <= events@.len(),
            out@.len() == i,
            forall|j: int| 0 <= j < i ==> #[trigger] out@[j]@ == events@[j]@,
        decreases events@.len() - i,
    {
        let e = &events[i];
        out.push(
            ContractEvent {
                key: crate::types::clone_bytes(&e.key),
                sequence_number: e.sequence_number,
                type_tag: e.type_tag.clone_tag(),
                event_data: crate::types::clone_bytes(&e.event_data),
            },
        );
        i += 1;
    }
    out
}

impl TransactionMetadata {
    /// A copy of the metadata.
    pub fn clone_meta(&self) -> (r: TransactionMetadata)
        ensures
            r.sender@ == self.sender@,
            r.sequence_number == self.sequence_number,
            r.public_key@ == self.public_key@,
            r.max_gas_amount == self.max_gas_amount,
            r.gas_unit_price == self.gas_unit_price,
            r.transaction_size == self.transaction_size,
    {
        TransactionMetadata {
            sender: self.sender.clone(),
            sequence_number: self.sequence_number,
            public_key: crate::types::clone_bytes(&self.public_key),
            max_gas_amount: self.max_gas_amount,
            gas_unit_price: self.gas_unit_price,
            transaction_size: self.transaction_size,
        }
    }
}

/// The executor of one transaction: the module cache it resolves code
/// through, the data cache local to the transaction, the transaction's
/// metadata, the events emitted so far, the gas left, and the cost table
/// the run is priced against.
pub struct TransactionExecutor<'txn, P: ModuleCache, R: RemoteCache> {
    module_cache: &'txn P,
    data_cache: TransactionDataCache<'txn, R>,
    txn_data: TransactionMetadata,
    event_data: Vec<ContractEvent>,
    gas_left: GasUnits,
    cost_table: CostTable,
}

impl<'txn, P: ModuleCache, R: RemoteCache> TransactionExecutor<'txn, P, R> {
    /// The cost table is complete and the gas left within the allowance.
    pub closed spec fn wf(&self) -> bool {
        &&& self.cost_table.well_formed()
        &&& self.gas_left.0 <= self.txn_data.max_gas_amount.0
    }

    /// The gas still available to the transaction.
    pub closed spec fn spec_gas_left(&self) -> u64 {
        self.gas_left.0
    }

    /// The transaction's gas allowance.
    pub closed spec fn spec_max_gas(&self) -> u64 {
        self.txn_data.max_gas_amount.0
    }

    /// The events emitted so far.
    pub closed spec fn spec_events(&self) -> Seq<ContractEvent> {
        self.event_data@
    }

    /// The slots of the transaction's data cache.
    pub closed spec fn spec_slots(&self) -> Seq<crate::data_cache::CacheSlotV> {
        self.data_cache.slots()
    }

    /// The cost table the executor prices runs against.
    pub closed spec fn spec_table(&self) -> crate::gas_schedule::CostTable {
        self.cost_table
    }

    /// What the executor's module cache holds under a module identity.
    pub closed spec fn spec_module(&self, id: crate::types::ModuleIdV) -> Option<
        crate::module::LoadedModule,
    > {
        self.module_cache.spec_get(id)
    }

    /// The first definition with the given name in the account module, if
    /// the cache holds that module and it has one: what the prologue and
    /// epilogue of every transaction run with metering off.
    pub open spec fn spec_account_entry(&self, name: Seq<char>) -> Option<
        crate::module::FunctionDefinition,
    > {
        match self.spec_module(crate::account_config::spec_account_module_id()) {
            Option::Some(m) => match crate::module::spec_find_function(m, name, 0) {
                Option::Some(i) => Option::Some(m.function_defs@[i]),
                Option::None => Option::None,
            },
            Option::None => Option::None,
        }
    }

    /// An executor over a module cache and a remote view, with the gas
    /// allowance of its transaction and the cost table to price against.
    pub fn new(
        module_cache: &'txn P,
        data_cache: &'txn R,
        txn_data: TransactionMetadata,
        cost_table: CostTable,
    ) -> (r: TransactionExecutor<'txn, P, R>)
        requires
            cost_table.well_formed(),
        ensures
            r.wf(),
            r.spec_gas_left() == txn_data.max_gas_amount.0,
            r.spec_events().len() == 0,
    {
        let gas_left = txn_data.max_gas_amount();
        TransactionExecutor {
            module_cache,
            data_cache: TransactionDataCache::new(data_cache),
            txn_data,
            event_data: Vec::new(),
            gas_left,
            cost_table,
        }
    }

    /// The module cache this executor resolves code through.
    pub fn module_cache(&self) -> (r: &'txn P) {
        self.module_cache
    }

    /// Create an account at an address, metering the run against the gas
    /// left.
    pub fn create_account(&mut self, addr: AccountAddress) -> (r: VMResult<()>)
        requires
            old(self).wf(),
        ensures
            final(self).wf(),
            final(self).spec_gas_left() <= old(self).spec_gas_left(),
            final(self).spec_max_gas() == old(self).spec_max_gas(),
            old(self).spec_module(crate::account_config::spec_account_module_id()) is None ==> r
                is Err && r->Err_0.major_status == StatusCode::LinkerError,
    {
        let gas_meter = GasMeter::new(self.cost_table.clone(), self.gas_left);
        let mut interpreter = Interpreter::new(
            self.module_cache,
            self.txn_data.clone_meta(),
            gas_meter,
        );
        let result = interpreter.create_account_entry(
            addr,
            &mut self.data_cache,
            &mut self.event_data,
        );
        self.gas_left = interpreter.remaining_gas();
        result
    }

    /// Run the prologue of the transaction: the account module's entry
    /// that checks the sequence number, the balance and the authenticator,
    /// with gas metering off.
    pub fn run_prologue(&mut self) -> (r: VMResult<()>)
        requires
            old(self).wf(),
        ensures
            final(self).wf(),
            forall|id: crate::types::ModuleIdV| #[trigger] final(self).spec_module(id) == old(self).spec_module(id),
            final(self).spec_gas_left() == old(self).spec_gas_left(),
            final(self).spec_max_gas() == old(self).spec_max_gas(),
            old(self).spec_account_entry("prologue"@) is None ==> r is Err
                && r->Err_0.major_status == StatusCode::LinkerError,
            old(self).spec_account_entry("prologue"@) matches Some(def) ==> ({
                let code = def.code@;
                &&& code.len() > 0 ==> (crate::interpreter::spec_instr_immediate_error(
                    code[0],
                    Seq::empty(),
                ) matches Some(es) ==> (r is Err && r->Err_0.major_status == es.0
                    && r->Err_0.sub_status == es.1))
                &&& (code.len() == 1 && code[0] is Ret) ==> (r is Ok && final(self).spec_slots()
                    == old(self).spec_slots() && final(self).spec_events() == old(self).spec_events())
            }),
    {
        let gas_meter = GasMeter::new(self.cost_table.clone(), self.gas_left);
        let mut interpreter = Interpreter::new(
            self.module_cache,
            self.txn_data.clone_meta(),
            gas_meter,
        );
        interpreter.disable_metering();
        let module = account_module_id();
        let name = prologue_name();
        let result = interpreter.execute_function(
            &module,
            &name,
            Vec::new(),
            &mut self.data_cache,
            &mut self.event_data,
        );
        interpreter.enable_metering();
        self.gas_left = interpreter.remaining_gas();
        result
    }

    /// Run the epilogue of the transaction: the account module's entry
    /// that debits the fee and advances the sequence number, with gas
    /// metering off.
    pub fn run_epilogue(&mut self) -> (r: VMResult<()>)
        requires
            old(self).wf(),
        ensures
            final(self).wf(),
            forall|id: crate::types::ModuleIdV| #[trigger] final(self).spec_module(id) == old(self).spec_module(id),
            final(self).spec_gas_left() == old(self).spec_gas_left(),
            final(self).spec_max_gas() == old(self).spec_max_gas(),
            old(self).spec_account_entry("epilogue"@) is None ==> r is Err
                && r->Err_0.major_status == StatusCode::LinkerError,
            old(self).spec_account_entry("epilogue"@) matches Some(def) ==> ({
                let code = def.code@;
                &&& code.len() > 0 ==> (crate::interpreter::spec_instr_immediate_error(
                    code[0],
                    Seq::empty(),
                ) matches Some(es) ==> (r is Err && r->Err_0.major_status == es.0
                    && r->Err_0.sub_status == es.1))
                &&& (code.len() == 1 && code[0] is Ret) ==> (r is Ok && final(self).spec_slots()
                    == old(self).spec_slots() && final(self).spec_events() == old(self).spec_events())
            }),
    {
        let gas_meter = GasMeter::new(self.cost_table.clone(), self.gas_left);
        let mut interpreter = Interpreter::new(
            self.module_cache,
            self.txn_data.clone_meta(),
            gas_meter,
        );
        interpreter.disable_metering();
        let module = account_module_id();
        let name = epilogue_name();
        let result = interpreter.execute_function(
            &module,
            &name,
            Vec::new(),
            &mut self.data_cache,
            &mut self.event_data,
        );
        interpreter.enable_metering();
        self.gas_left = interpreter.remaining_gas();
        result
    }

    /// Drop every write and event of the transaction so far.
    pub fn clear(&mut self) -> (r: ())
        requires
            old(self).wf(),
        ensures
            final(self).wf(),
            forall|id: crate::types::ModuleIdV| #[trigger] final(self).spec_module(id) == old(self).spec_module(id),
            final(self).spec_gas_left() == old(self).spec_gas_left(),
            final(self).spec_max_gas() == old(self).spec_max_gas(),
            final(self).spec_events().len() == 0,
            final(self).spec_slots().len() == 0,
    {
        self.data_cache.clear();
        self.event_data = Vec::new();
    }

    /// The output of a failed transaction: local writes are discarded, the
    /// epilogue still runs so the fee is charged, and the failing status is
    /// kept. An epilogue that fails here indicates an invariant bug, and
    /// the transaction is discarded.
    pub fn failed_transaction_cleanup(&mut self, result: VMResult<()>) -> (r: TransactionOutput)
        requires
            old(self).wf(),
        ensures
            final(self).wf(),
            final(self).spec_max_gas() == old(self).spec_max_gas(),
            forall|id: crate::types::ModuleIdV| #[trigger] final(self).spec_module(id) == old(self).spec_module(id),
            !(r.status is Retry),
            result matches Err(e) ==> (r.status == TransactionStatus::Keep(e) || r.status
                is Discard),
            result is Ok ==> (r.status == TransactionStatus::Keep(
                VMStatus { major_status: StatusCode::Executed, sub_status: None },
            ) || r.status is Discard),
            r.status is Keep ==> r.gas_used == old(self).spec_max_gas() - final(self).spec_gas_left(),
            (r.status is Discard && (result is Ok || (result matches Err(e)
                && crate::status::spec_status_type(e.major_status)
                != StatusType::InvariantViolation && crate::status::spec_status_type(e.major_status) != StatusType::Validation))) ==> (r.write_set@.len() == 0 && r.events@.len() == 0
                && r.gas_used == 0),
            old(self).spec_account_entry("epilogue"@) matches Some(def) ==> ((def.code@.len()
                == 1 && def.code@[0] is Ret) ==> (r.write_set@.len() == 0 && r.events@.len() == 0
                && r.gas_used == old(self).spec_max_gas() - final(self).spec_gas_left() && (
            match result {
                Result::Ok(()) => r.status == TransactionStatus::Keep(
                    VMStatus { major_status: StatusCode::Executed, sub_status: None },
                ),
                Result::Err(e) => ((crate::status::spec_status_type(e.major_status)
                    == StatusType::InvariantViolation || crate::status::spec_status_type(e.major_status) == StatusType::Validation) ==> r.status == TransactionStatus::Discard(e)) && ((
                crate::status::spec_status_type(e.major_status) != StatusType::InvariantViolation
                    && crate::status::spec_status_type(e.major_status) != StatusType::Validation)
                    ==> r.status == TransactionStatus::Keep(e)),
            }))),
    {
        self.clear();
        let epilogue = self.run_epilogue();
        match epilogue {
            Ok(()) => match self.make_write_set_internal(Vec::new(), result) {
                Ok(out) => out,
                Err(e) => error_output(e),
            },
            Err(e) => error_output(e),
        }
    }

    /// The output of a successful script body: run the epilogue, then
    /// flush the write-set; failures fall back to the failed-transaction
    /// path so fees are still charged.
    pub fn transaction_cleanup(&mut self, to_be_published_modules: Vec<(ModuleId, Vec<u8>)>) -> (r:
        TransactionOutput)
        requires
            old(self).wf(),
        ensures
            final(self).wf(),
            final(self).spec_max_gas() == old(self).spec_max_gas(),
            !(r.status is Retry),
            r.status is Keep || r.status is Discard,
            r.status is Keep ==> r.gas_used == old(self).spec_max_gas() - final(self).spec_gas_left(),
            old(self).spec_account_entry("epilogue"@) matches Some(def) ==> ((def.code@.len()
                == 1 && def.code@[0] is Ret
                && !crate::data_cache::spec_any_borrow(old(self).spec_slots())) ==> (
            match crate::data_cache::spec_make_write_set(
                old(self).spec_slots(),
                crate::data_cache::views_of_modules(to_be_published_modules@),
            ) {
                Option::Some(ws) => r.write_set@ == ws && r.events@.len() == old(self).spec_events().len() && r.gas_used == old(self).spec_max_gas() - final(self).spec_gas_left() && r.status == TransactionStatus::Keep(
                    VMStatus { major_status: StatusCode::Executed, sub_status: None },
                ),
                Option::None => true,
            })),
    {
        let epilogue = self.run_epilogue();
        match epilogue {
            Ok(()) => {
                let ws = self.make_write_set_internal(to_be_published_modules, Ok(()));
                match ws {
                    Ok(out) => out,
                    Err(e) => self.failed_transaction_cleanup(Err(e)),
                }
            },
            Err(e) => {
                if e.status_type() == StatusType::InvariantViolation {
                    error_output(e)
                } else {
                    self.failed_transaction_cleanup(Err(e))
                }
            },
        }
    }

    /// Run the script body of the transaction through the interpreter's
    /// entrypoint, charging intrinsic gas first.
    pub fn interpeter_entrypoint(
        &mut self,
        func: FunctionRef<'txn>,
        args: Vec<TransactionArgument>,
    ) -> (r: VMResult<()>)
        requires
            old(self).wf(),
            func.valid(),
            old(self).spec_txn_size() <= MAX_TRANSACTION_SIZE_IN_BYTES,
        ensures
            final(self).wf(),
            final(self).spec_gas_left() <= old(self).spec_gas_left(),
            final(self).spec_max_gas() == old(self).spec_max_gas(),
            ({
                let intrinsic = crate::gas_schedule::spec_intrinsic_gas(old(self).spec_txn_size());
                &&& intrinsic > old(self).spec_gas_left() ==> r is Err && r->Err_0.major_status
                    == StatusCode::OutOfGas && final(self).spec_gas_left() == 0
                &&& intrinsic <= old(self).spec_gas_left() ==> final(self).spec_gas_left() <= old(
                    self).spec_gas_left() - intrinsic
            }),
            ({
                let def = func.def();
                let code = def.code@;
                let intrinsic = crate::gas_schedule::spec_intrinsic_gas(old(self).spec_txn_size());
                intrinsic <= old(self).spec_gas_left() ==> ({
                    let avail = old(self).spec_gas_left() - intrinsic;
                    &&& (args@.len() <= def.local_count && code.len() > 0
                        && crate::gas_meter::spec_instruction_cost(
                        old(self).spec_table(),
                        code[0],
                        1,
                    ) <= avail) ==> (crate::interpreter::spec_instr_immediate_error(
                        code[0],
                        Seq::empty(),
                    ) matches Some(es) ==> (r is Err && r->Err_0.major_status == es.0
                        && r->Err_0.sub_status == es.1))
                    &&& (args@.len() == 0 && code.len() == 1 && code[0] is Ret
                        && crate::gas_meter::spec_instruction_cost(
                        old(self).spec_table(),
                        code[0],
                        1,
                    ) <= avail) ==> (r is Ok && final(self).spec_slots() == old(self).spec_slots()
                        && final(self).spec_events() == old(self).spec_events())
                })
            }),
    {
        let gas_meter = GasMeter::new(self.cost_table.clone(), self.gas_left);
        let mut interpreter = Interpreter::new(
            self.module_cache,
            self.txn_data.clone_meta(),
            gas_meter,
        );
        let result = interpreter.interpeter_entrypoint(
            func,
            convert_txn_args(args),
            &mut self.data_cache,
            &mut self.event_data,
        );
        self.gas_left = interpreter.remaining_gas();
        match result {
            Ok(()) => Ok(()),
            Err(e) => Err(e),
        }
    }

    /// The transaction's size in bytes.
    pub closed spec fn spec_txn_size(&self) -> u64 {
        self.txn_data.transaction_size.0
    }

    /// Execute a function of a module by name, metering against the gas
    /// left.
    pub fn execute_function(
        &mut self,
        module: &ModuleId,
        function_name: &Identifier,
        args: Vec<Value>,
    ) -> (r: VMResult<()>)
        requires
            old(self).wf(),
        ensures
            final(self).wf(),
            final(self).spec_gas_left() <= old(self).spec_gas_left(),
            final(self).spec_max_gas() == old(self).spec_max_gas(),
    {
        let gas_meter = GasMeter::new(self.cost_table.clone(), self.gas_left);
        let mut interpreter = Interpreter::new(
            self.module_cache,
            self.txn_data.clone_meta(),
            gas_meter,
        );
        let result = interpreter.execute_function(
            module,
            function_name,
            args,
            &mut self.data_cache,
            &mut self.event_data,
        );
        self.gas_left = interpreter.remaining_gas();
        result
    }

    /// Execute a function with the sender swapped to `address` for the
    /// duration of the call: only for producing the genesis state.
    #[allow(non_snake_case)]
    pub fn execute_function_with_sender_FOR_GENESIS_ONLY(
        &mut self,
        address: AccountAddress,
        module: &ModuleId,
        function_name: &Identifier,
        args: Vec<Value>,
    ) -> (r: VMResult<()>)
        requires
            old(self).wf(),
        ensures
            final(self).wf(),
            final(self).spec_gas_left() <= old(self).spec_gas_left(),
            final(self).spec_max_gas() == old(self).spec_max_gas(),
    {
        let gas_meter = GasMeter::new(self.cost_table.clone(), self.gas_left);
        let mut interpreter = Interpreter::new(
            self.module_cache,
            self.txn_data.clone_meta(),
            gas_meter,
        );
        let old_sender = interpreter.swap_sender(address);
        let result = interpreter.execute_function(
            module,
            function_name,
            args,
            &mut self.data_cache,
            &mut self.event_data,
        );
        let _ = interpreter.swap_sender(old_sender);
        self.gas_left = interpreter.remaining_gas();
        result
    }

    /// Flush the transaction into its output: the ordered write-set, the
    /// events in emission order, the gas used as the allowance minus the
    /// gas left, and the status the run decided.
    pub fn make_write_set(
        &mut self,
        to_be_published_modules: Vec<(ModuleId, Vec<u8>)>,
        result: VMResult<()>,
    ) -> (r: VMResult<TransactionOutput>)
        requires
            old(self).wf(),
        ensures
            final(self).wf(),
            final(self).spec_gas_left() == old(self).spec_gas_left(),
            final(self).spec_max_gas() == old(self).spec_max_gas(),
            final(self).spec_events() == old(self).spec_events(),
            forall|id: crate::types::ModuleIdV| #[trigger] final(self).spec_module(id) == old(self).spec_module(id),
            crate::data_cache::spec_any_borrow(old(self).spec_slots()) ==> r is Err
                && r->Err_0.major_status == StatusCode::DanglingReference,
            !crate::data_cache::spec_any_borrow(old(self).spec_slots()) ==> (
            match crate::data_cache::spec_make_write_set(
                old(self).spec_slots(),
                crate::data_cache::views_of_modules(to_be_published_modules@),
            ) {
                Option::Some(ws) => r matches Ok(out) && out.write_set@ == ws
                    && out.events@.len() == old(self).spec_events().len() && (forall|i: int|
                    0 <= i < out.events@.len() ==> #[trigger] out.events@[i]@ == old(
                    self).spec_events()[i]@),
                Option::None => r is Err && r->Err_0.major_status == StatusCode::DataFormatError,
            }),
            r matches Ok(out) ==> out.gas_used == old(self).spec_max_gas() - old(
                self,
            ).spec_gas_left(),
            r matches Ok(out) ==> (match result {
                Result::Ok(()) => out.status == TransactionStatus::Keep(
                    VMStatus { major_status: StatusCode::Executed, sub_status: None },
                ),
                Result::Err(e) => ((crate::status::spec_status_type(e.major_status)
                    == StatusType::InvariantViolation || crate::status::spec_status_type(e.major_status) == StatusType::Validation) ==> out.status == TransactionStatus::Discard(e)) && ((
                crate::status::spec_status_type(e.major_status) != StatusType::InvariantViolation
                    && crate::status::spec_status_type(e.major_status) != StatusType::Validation)
                    ==> out.status == TransactionStatus::Keep(e)),
            }),
    {
        self.make_write_set_internal(to_be_published_modules, result)
    }

    /// The shared write-set assembly of the cleanup paths.
    fn make_write_set_internal(
        &mut self,
        to_be_published_modules: Vec<(ModuleId, Vec<u8>)>,
        result: VMResult<()>,
    ) -> (r: VMResult<TransactionOutput>)
        requires
            old(self).wf(),
        ensures
            final(self).wf(),
            final(self).spec_gas_left() == old(self).spec_gas_left(),
            final(self).spec_max_gas() == old(self).spec_max_gas(),
            final(self).spec_events() == old(self).spec_events(),
            forall|id: crate::types::ModuleIdV| #[trigger] final(self).spec_module(id) == old(self).spec_module(id),
            crate::data_cache::spec_any_borrow(old(self).spec_slots()) ==> r is Err
                && r->Err_0.major_status == StatusCode::DanglingReference,
            !crate::data_cache::spec_any_borrow(old(self).spec_slots()) ==> (
            match crate::data_cache::spec_make_write_set(
                old(self).spec_slots(),
                crate::data_cache::views_of_modules(to_be_published_modules@),
            ) {
                Option::Some(ws) => r matches Ok(out) && out.write_set@ == ws
                    && out.events@.len() == old(self).spec_events().len() && (forall|i: int|
                    0 <= i < out.events@.len() ==> #[trigger] out.events@[i]@ == old(
                    self).spec_events()[i]@),
                Option::None => r is Err && r->Err_0.major_status == StatusCode::DataFormatError,
            }),
            r matches Ok(out) ==> out.gas_used == old(self).spec_max_gas() - old(
                self,
            ).spec_gas_left(),
            r matches Ok(out) ==> (match result {
                Result::Ok(()) => out.status == TransactionStatus::Keep(
                    VMStatus { major_status: StatusCode::Executed, sub_status: None },
                ),
                Result::Err(e) => ((crate::status::spec_status_type(e.major_status)
                    == StatusType::InvariantViolation || crate::status::spec_status_type(e.major_status) == StatusType::Validation) ==> out.status == TransactionStatus::Discard(e)) && ((
                crate::status::spec_status_type(e.major_status) != StatusType::InvariantViolation
                    && crate::status::spec_status_type(e.major_status) != StatusType::Validation)
                    ==> out.status == TransactionStatus::Keep(e)),
            }),
    {
        let gas_used: u64 = self.txn_data.max_gas_amount().0 - self.gas_left.0;
        let write_set = match self.data_cache.make_write_set(to_be_published_modules) {
            Ok(ws) => ws,
            Err(e) => {
                return Err(e);
            },
        };
        let events = clone_events(&self.event_data);
        let status = match result {
            Ok(()) => TransactionStatus::Keep(VMStatus::new(StatusCode::Executed)),
            Err(e) => TransactionStatus::from_vm_status(e),
        };
        Ok(TransactionOutput::new(write_set, events, gas_used, status))
    }
}

/// Run the entry function of a script module against a remote view: set up
/// an in-memory module cache over the given modules, and drive the
/// interpreter's entrypoint on the script with default metadata.
pub fn execute_function<R: RemoteCache>(
    caller_script: LoadedModule,
    modules: Vec<LoadedModule>,
    args: Vec<TransactionArgument>,
    data_cache: &R,
    cost_table: CostTable,
) -> (r: VMResult<()>)
    requires
        cost_table.well_formed(),
    ensures
        caller_script.function_defs@.len() == 0 ==> r is Err && r->Err_0.major_status
            == StatusCode::LinkerError,
        caller_script.function_defs@.len() > 0 ==> ({
            let def = caller_script.function_defs@[0];
            let code = def.code@;
            let intrinsic = crate::gas_schedule::spec_intrinsic_gas(0);
            intrinsic <= crate::gas_schedule::MAXIMUM_NUMBER_OF_GAS_UNITS ==> ({
                let avail = crate::gas_schedule::MAXIMUM_NUMBER_OF_GAS_UNITS - intrinsic;
                &&& (args@.len() <= def.local_count && code.len() > 0
                    && crate::gas_meter::spec_instruction_cost(cost_table, code[0], 1) <= avail)
                    ==> (crate::interpreter::spec_instr_immediate_error(code[0], Seq::empty())
                    matches Some(es) ==> (r is Err && r->Err_0.major_status == es.0
                    && r->Err_0.sub_status == es.1))
                &&& (args@.len() == 0 && code.len() == 1 && code[0] is Ret
                    && crate::gas_meter::spec_instruction_cost(cost_table, code[0], 1) <= avail)
                    ==> r is Ok
            })
        }),
{
    let mut module_cache = VMModuleCache::new();
    let mut modules = modules;
    while modules.len() > 0
        decreases modules@.len(),
    {
        let m = match modules.pop() {
            Some(m) => m,
            None => {
                return Err(VMStatus::new(StatusCode::Unreachable));
            },
        };
        let _ = module_cache.cache_module(m);
    }
    let loaded_main = caller_script;
    if loaded_main.function_defs.len() == 0 {
        return Err(VMStatus::new(StatusCode::LinkerError));
    }
    let entry_func = FunctionRef::new(&loaded_main, 0);
    let txn_metadata = TransactionMetadata::default();
    let gas_meter = GasMeter::new(cost_table, txn_metadata.max_gas_amount());
    let mut interpreter = Interpreter::new(&module_cache, txn_metadata, gas_meter);
    let mut transaction_cache = TransactionDataCache::new(data_cache);
    let mut events: Vec<ContractEvent> = Vec::new();
    interpreter.interpeter_entrypoint(
        entry_func,
        convert_txn_args(args),
        &mut transaction_cache,
        &mut events,
    )
}

} // verus!
