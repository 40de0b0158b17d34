//! The interpreter core: the operand stack and call stack, activation
//! frames with their program counter, the instruction dispatch loop, and
//! the derivation of runtime type tags for generic instantiations.

use vstd::prelude::*;

use crate::bytecode::Bytecode;
use crate::bytecode::FunctionHandleIndex;
use crate::bytecode::LocalsSignatureIndex;
use crate::bytecode::SignatureToken;
use crate::bytecode::StructDefinitionIndex;
use crate::canonical::StructDef;
use crate::data_cache::RemoteCache;
use crate::data_cache::TransactionDataCache;
use crate::events::ContractEvent;
use crate::events::EVENT_KEY_LENGTH;
use crate::gas_meter::GasMeter;
use crate::gas_meter::charge_possible_global_write;
use crate::gas_schedule::AbstractMemorySize;
use crate::gas_schedule::GasPrice;
use crate::gas_schedule::GasUnits;
use crate::gas_schedule::MAX_TRANSACTION_SIZE_IN_BYTES;
use crate::module::FunctionRef;
use crate::module::LoadedModule;
use crate::module::ModuleCache;
use crate::status::StatusCode;
use crate::status::StatusType;
use crate::status::VMResult;
use crate::status::VMStatus;
use crate::types::AccessPath;
use crate::types::AccountAddress;
use crate::types::Identifier;
use crate::types::ModuleId;
use crate::types::RESOURCE_TAG;
use crate::types::StructTag;
use crate::types::StructTagV;
use crate::types::TypeTag;
use crate::types::TypeTagV;
use crate::types::views_of_tags;
use crate::values::GlobalRef;
use crate::values::Locals;
use crate::values::LocalRef;
use crate::values::ReferenceValue;
use crate::values::ReferenceValueV;
use crate::values::Struct;
use crate::values::VMString;
use crate::values::Value;
use crate::values::ValueV;
use crate::values::views_of_values;

verus! {

/// The hard cap on operand-stack depth.
pub const OPERAND_STACK_SIZE_LIMIT: usize = 1024;

/// The hard cap on call-stack depth.
pub const CALL_STACK_SIZE_LIMIT: usize = 1024;

/// The transaction fields the interpreter resolves metadata instructions
/// against.
pub struct TransactionMetadata {
    pub sender: AccountAddress,
    pub sequence_number: u64,
    pub public_key: Vec<u8>,
    pub max_gas_amount: GasUnits,
    pub gas_unit_price: GasPrice,
    pub transaction_size: AbstractMemorySize,
}

impl TransactionMetadata {
    /// The transaction's maximum gas amount.
    pub fn max_gas_amount(&self) -> (r: GasUnits)
        ensures
            r == self.max_gas_amount,
    {
        self.max_gas_amount
    }

    /// The transaction's gas price.
    pub fn gas_unit_price(&self) -> (r: GasPrice)
        ensures
            r == self.gas_unit_price,
    {
        self.gas_unit_price
    }

    /// The transaction's sequence number.
    pub fn sequence_number(&self) -> (r: u64)
        ensures
            r == self.sequence_number,
    {
        self.sequence_number
    }

    /// The transaction's sender.
    pub fn sender(&self) -> (r: AccountAddress)
        ensures
            r@ == self.sender@,
    {
        self.sender.clone()
    }
}

impl Default for TransactionMetadata {
    /// Metadata for a system transaction: the zero sender, no key, the
    /// maximum gas allowance at price zero, and size zero.
    fn default() -> (r: TransactionMetadata)
        ensures
            r.sender@ == Seq::new(crate::types::ADDRESS_LENGTH as nat, |i: int| 0u8),
            r.sequence_number == 0,
            r.public_key@ == Seq::<u8>::empty(),
            r.max_gas_amount.0 == crate::gas_schedule::MAXIMUM_NUMBER_OF_GAS_UNITS,
            r.gas_unit_price.0 == 0,
            r.transaction_size.0 == 0,
    {
        TransactionMetadata {
            sender: AccountAddress::from_fill_byte(0),
            sequence_number: 0,
            public_key: Vec::new(),
            max_gas_amount: GasUnits(crate::gas_schedule::MAXIMUM_NUMBER_OF_GAS_UNITS),
            gas_unit_price: GasPrice(0),
            transaction_size: AbstractMemorySize(0),
        }
    }
}

/// The operand stack: a bounded stack of runtime values.
pub struct Stack {
    values: Vec<Value>,
}

impl View for Stack {
    type V = Seq<ValueV>;

    closed spec fn view(&self) -> Seq<ValueV> {
        Seq::new(self.values@.len(), |i: int| self.values@[i]@)
    }
}

impl Stack {
    /// The stack never grows past its cap.
    pub open spec fn well_formed(&self) -> bool {
        self@.len() <= OPERAND_STACK_SIZE_LIMIT
    }

    /// An empty operand stack.
    pub fn new() -> (r: Stack)
        ensures
            r@ == Seq::<ValueV>::empty(),
            r.well_formed(),
    {
        let r = Stack { values: Vec::new() };
        proof {
            assert(r@ =~= Seq::<ValueV>::empty());
        }
        r
    }

    /// How many values the stack holds.
    pub fn len(&self) -> (r: usize)
        ensures
            r == self@.len(),
    {
        self.values.len()
    }

    /// Push a value, failing with a stack overflow at the cap.
    pub fn push(&mut self, value: Value) -> (r: VMResult<()>)
        ensures
            old(self)@.len() < OPERAND_STACK_SIZE_LIMIT ==> r is Ok && final(self)@ == old(self)@.push(value@),
            old(self)@.len() >= OPERAND_STACK_SIZE_LIMIT ==> r is Err && r->Err_0.major_status
                == StatusCode::ExecutionStackOverflow && r->Err_0.sub_status is None && final(self)@ == old(self)@,
            old(self).well_formed() ==> final(self).well_formed(),
    {
        if self.values.len() < OPERAND_STACK_SIZE_LIMIT {
            self.values.push(value);
            proof {
                assert(final(self)@ =~= old(self)@.push(value@));
            }
            Ok(())
        } else {
            Err(VMStatus::new(StatusCode::ExecutionStackOverflow))
        }
    }

    /// Pop the top value, failing on an empty stack.
    pub fn pop(&mut self) -> (r: VMResult<Value>)
        ensures
            old(self)@.len() > 0 ==> r is Ok && r->Ok_0@ == old(self)@.last() && final(self)@
                == old(self)@.drop_last(),
            old(self)@.len() == 0 ==> r is Err && r->Err_0.major_status
                == StatusCode::EmptyValueStack && r->Err_0.sub_status is None && final(self)@
                == old(self)@,
            old(self).well_formed() ==> final(self).well_formed(),
    {
        match self.values.pop() {
            Some(v) => {
                proof {
                    assert(final(self)@ =~= old(self)@.drop_last());
                }
                Ok(v)
            },
            None => Err(VMStatus::new(StatusCode::EmptyValueStack)),
        }
    }

    /// Pop the top `n` values, in stack order, failing when fewer are there.
    pub fn popn(&mut self, n: u16) -> (r: VMResult<Vec<Value>>)
        ensures
            old(self)@.len() >= n ==> r is Ok && views_of_values(r->Ok_0@) == old(self)@.skip(
                old(self)@.len() - n as int,
            ) && final(self)@ == old(self)@.take(old(self)@.len() - n as int),
            old(self)@.len() < n ==> r is Err && r->Err_0.major_status
                == StatusCode::EmptyValueStack && final(self)@ == old(self)@,
            old(self).well_formed() ==> final(self).well_formed(),
    {
        if self.values.len() < n as usize {
            return Err(VMStatus::new(StatusCode::EmptyValueStack));
        }
        let at = self.values.len() - n as usize;
        let args = self.values.split_off(at);
        proof {
            crate::values::lemma_views_of_values(args@);
            assert(views_of_values(args@) =~= old(self)@.skip(old(self)@.len() - n as int));
            assert(final(self)@ =~= old(self)@.take(old(self)@.len() - n as int));
        }
        Ok(args)
    }
}

/// An activation frame: the program counter, the locals, the function
/// being executed, and the type actuals bound at call time.
pub struct Frame<'txn> {
    pub pc: u16,
    pub locals: Locals,
    pub function: FunctionRef<'txn>,
    pub type_actual_tags: Vec<TypeTag>,
}

impl<'txn> Frame<'txn> {
    /// The frame points at an actual function definition.
    pub open spec fn valid(&self) -> bool {
        self.function.valid()
    }

    /// A frame over a function, its type actuals, and pre-loaded locals.
    pub fn new(function: FunctionRef<'txn>, type_actual_tags: Vec<TypeTag>, locals: Locals) -> (r:
        Frame<'txn>)
        requires
            function.valid(),
        ensures
            r.pc == 0,
            r.locals == locals,
            r.function == function,
            r.type_actual_tags == type_actual_tags,
            r.valid(),
    {
        Frame { pc: 0, locals, function, type_actual_tags }
    }

    /// The code stream of the frame's function.
    pub fn code_definition(&self) -> (r: &'txn Vec<Bytecode>)
        requires
            self.valid(),
        ensures
            r@ == self.function.def().code@,
    {
        self.function.code_definition()
    }

    /// The module the frame's function lives in.
    pub fn module(&self) -> (r: &'txn LoadedModule)
        ensures
            r == self.function.module,
    {
        self.function.module()
    }
}

/// The call stack: a bounded stack of suspended frames.
pub struct CallStack<'txn> {
    frames: Vec<Frame<'txn>>,
}

impl<'txn> CallStack<'txn> {
    /// The suspended frames, oldest first.
    pub closed spec fn frames_seq(&self) -> Seq<Frame<'txn>> {
        self.frames@
    }

    /// How deep the stack is.
    pub open spec fn depth(&self) -> int {
        self.frames_seq().len() as int
    }

    /// Every suspended frame points at an actual definition.
    pub closed spec fn frames_valid(&self) -> bool {
        forall|i: int| 0 <= i < self.frames@.len() ==> (#[trigger] self.frames@[i]).valid()
    }

    /// The stack never grows past its cap.
    pub open spec fn well_formed(&self) -> bool {
        self.depth() <= CALL_STACK_SIZE_LIMIT && self.frames_valid()
    }

    /// An empty call stack.
    pub fn new() -> (r: CallStack<'txn>)
        ensures
            r.depth() == 0,
            r.well_formed(),
    {
        CallStack { frames: Vec::new() }
    }

    /// How many frames are suspended.
    pub fn len(&self) -> (r: usize)
        ensures
            r == self.depth(),
    {
        self.frames.len()
    }

    /// Suspend a frame: appended below the cap, handed back unchanged at
    /// it, the suspended frames untouched either way.
    pub fn push(&mut self, frame: Frame<'txn>) -> (r: Result<(), Frame<'txn>>)
        requires
            frame.valid(),
        ensures
            old(self).depth() < CALL_STACK_SIZE_LIMIT ==> r is Ok && final(self).frames_seq()
                == old(self).frames_seq().push(frame),
            old(self).depth() >= CALL_STACK_SIZE_LIMIT ==> (r matches Err(f) && f == frame
                && final(self).frames_seq() == old(self).frames_seq()),
            old(self).well_formed() ==> final(self).well_formed(),
    {
        if self.frames.len() < CALL_STACK_SIZE_LIMIT {
            self.frames.push(frame);
            Ok(())
        } else {
            Err(frame)
        }
    }

    /// Resume the most recently suspended frame.
    pub fn pop(&mut self) -> (r: Option<Frame<'txn>>)
        ensures
            old(self).depth() > 0 ==> r is Some && r->0 == old(self).frames_seq().last() && final(self).frames_seq() == old(self).frames_seq().drop_last(),
            old(self).depth() == 0 ==> r is None && final(self).depth() == 0,
            old(self).well_formed() ==> final(self).well_formed(),
            old(self).well_formed() && old(self).depth() > 0 ==> r->0.valid(),
    {
        self.frames.pop()
    }
}

/// Why `execute_code_unit` handed control back: a return, a call, or the
/// account-creation instruction.
pub enum ExitCode {
    Return,
    Call(FunctionHandleIndex, LocalsSignatureIndex),
    CreateAccount,
}

/// What one instruction came to: fall through to the next, or hand
/// control back to the frame loop.
pub enum InstrResult {
    Next,
    Exit(ExitCode),
}

/// What deriving a type tag from a signature token comes to: ground tokens
/// map directly; a type parameter picks the actual bound at call time;
/// struct tokens walk their handle and actuals; references and strings
/// have no tag.
pub open spec fn spec_derive_type_tag(
    m: LoadedModule,
    tags: Seq<TypeTagV>,
    tok: SignatureToken,
) -> Result<TypeTagV, StatusCode>
    decreases tok, 1int,
{
    match tok {
        SignatureToken::Bool => Ok(TypeTagV::Bool),
        SignatureToken::U64 => Ok(TypeTagV::U64),
        SignatureToken::ByteArray => Ok(TypeTagV::ByteArray),
        SignatureToken::Address => Ok(TypeTagV::Address),
        SignatureToken::Str => Err(StatusCode::UnknownInvariantViolationError),
        SignatureToken::Reference(_) => Err(StatusCode::VerifierInvariantViolation),
        SignatureToken::MutableReference(_) => Err(StatusCode::VerifierInvariantViolation),
        SignatureToken::TypeParameter(idx) => if idx < tags.len() {
            Ok(tags[idx as int])
        } else {
            Err(StatusCode::VerifierInvariantViolation)
        },
        SignatureToken::Struct(sh_idx, actuals) => {
            match spec_derive_type_tags(m, tags, actuals@, 0) {
                Result::Ok(actual_tags) => {
                    match crate::module::spec_struct_handle_target(m, sh_idx as int) {
                        Option::Some(target) => Ok(
                            TypeTagV::Struct(
                                StructTagV {
                                    address: target.0.address,
                                    module: target.0.name,
                                    name: target.1,
                                    type_params: actual_tags,
                                },
                            ),
                        ),
                        Option::None => Err(StatusCode::VerifierInvariantViolation),
                    }
                },
                Result::Err(code) => Err(code),
            }
        },
    }
}

/// Derive tags for a list of type-actual tokens, from `from` on.
pub open spec fn spec_derive_type_tags(
    m: LoadedModule,
    tags: Seq<TypeTagV>,
    toks: Seq<SignatureToken>,
    from: int,
) -> Result<Seq<TypeTagV>, StatusCode>
    decreases toks, toks.len() - from, 0int,
{
    if from < 0 || from >= toks.len() {
        Ok(Seq::empty())
    } else {
        match spec_derive_type_tag(m, tags, toks[from]) {
            Result::Ok(head) => match spec_derive_type_tags(m, tags, toks, from + 1) {
                Result::Ok(rest) => Ok(seq![head] + rest),
                Result::Err(code) => Err(code),
            },
            Result::Err(code) => Err(code),
        }
    }
}

/// Derive the runtime type tag a signature token names, substituting the
/// current frame's type actuals for type parameters.
pub fn derive_type_tag(
    module: &LoadedModule,
    type_actual_tags: &Vec<TypeTag>,
    ty: &SignatureToken,
) -> (r: VMResult<TypeTag>)
    ensures
        match spec_derive_type_tag(*module, views_of_tags(type_actual_tags@), *ty) {
            Result::Ok(tag) => r is Ok && r->Ok_0@ == tag,
            Result::Err(code) => r is Err && r->Err_0.major_status == code,
        },
    decreases *ty, 1int,
{
    proof {
        crate::types::lemma_views_of_tags(type_actual_tags@);
    }
    match ty {
        SignatureToken::Bool => Ok(TypeTag::Bool),
        SignatureToken::U64 => Ok(TypeTag::U64),
        SignatureToken::ByteArray => Ok(TypeTag::ByteArray),
        SignatureToken::Address => Ok(TypeTag::Address),
        SignatureToken::Str => Err(VMStatus::new(StatusCode::UnknownInvariantViolationError)),
        SignatureToken::Reference(_) => Err(VMStatus::new(StatusCode::VerifierInvariantViolation)),
        SignatureToken::MutableReference(_) => Err(
            VMStatus::new(StatusCode::VerifierInvariantViolation),
        ),
        SignatureToken::TypeParameter(idx) => {
            if (*idx as usize) < type_actual_tags.len() {
                Ok(type_actual_tags[*idx as usize].clone_tag())
            } else {
                Err(VMStatus::new(StatusCode::VerifierInvariantViolation))
            }
        },
        SignatureToken::Struct(sh_idx, actuals) => {
            proof {
                assert(decreases_to!(*ty => ty->Struct_1));
            }
            let actual_tags = match derive_type_tags(module, type_actual_tags, actuals, 0) {
                Ok(tags) => tags,
                Err(e) => {
                    return Err(e);
                },
            };
            if (*sh_idx as usize) >= module.struct_handles.len() {
                return Err(VMStatus::new(StatusCode::VerifierInvariantViolation));
            }
            let sh = module.struct_handles[*sh_idx as usize];
            if (sh.module as usize) >= module.module_handles.len() || (sh.name as usize)
                >= module.identifiers.len() {
                return Err(VMStatus::new(StatusCode::VerifierInvariantViolation));
            }
            let mh = module.module_handles[sh.module as usize];
            if (mh.address as usize) >= module.address_pool.len() || (mh.name as usize)
                >= module.identifiers.len() {
                return Err(VMStatus::new(StatusCode::VerifierInvariantViolation));
            }
            let tag = StructTag {
                address: module.address_pool[mh.address as usize].clone(),
                module: module.identifiers[mh.name as usize].clone(),
                name: module.identifiers[sh.name as usize].clone(),
                type_params: actual_tags,
            };
            proof {
                crate::types::lemma_views_of_tags(tag.type_params@);
                assert(tag@ =~= spec_derive_type_tag(
                    *module,
                    views_of_tags(type_actual_tags@),
                    *ty,
                )->Ok_0->Struct_0);
            }
            Ok(TypeTag::Struct(tag))
        },
    }
}

/// Derive the tags of a list of type-actual tokens, from `from` on.
fn derive_type_tags(
    module: &LoadedModule,
    type_actual_tags: &Vec<TypeTag>,
    toks: &Vec<SignatureToken>,
    from: usize,
) -> (r: VMResult<Vec<TypeTag>>)
    requires
        from <= toks@.len(),
    ensures
        match spec_derive_type_tags(
            *module,
            views_of_tags(type_actual_tags@),
            toks@,
            from as int,
        ) {
            Result::Ok(tags) => r is Ok && views_of_tags(r->Ok_0@) == tags,
            Result::Err(code) => r is Err && r->Err_0.major_status == code,
        },
    decreases *toks, toks@.len() - from, 1int,
{
    if from == toks.len() {
        let empty: Vec<TypeTag> = Vec::new();
        proof {
            crate::types::lemma_views_of_tags(empty@);
            assert(views_of_tags(empty@) =~= Seq::<TypeTagV>::empty());
        }
        return Ok(empty);
    }
    proof {
        assert(decreases_to!(*toks => toks[from as int]));
    }
    let head = match derive_type_tag(module, type_actual_tags, &toks[from]) {
        Ok(t) => t,
        Err(e) => {
            return Err(e);
        },
    };
    let rest = match derive_type_tags(module, type_actual_tags, toks, from + 1) {
        Ok(ts) => ts,
        Err(e) => {
            return Err(e);
        },
    };
    let ghost vhead = head@;
    let ghost vrest_seq = rest@;
    proof {
        crate::types::lemma_views_of_tags(rest@);
    }
    let mut out: Vec<TypeTag> = Vec::new();
    out.push(head);
    let mut rest_mut = rest;
    out.append(&mut rest_mut);
    proof {
        crate::types::lemma_views_of_tags(out@);
        crate::types::lemma_views_of_tags(vrest_seq);
        let x = spec_derive_type_tags(
            *module,
            views_of_tags(type_actual_tags@),
            toks@,
            from as int,
        )->Ok_0;
        assert(out@ =~= seq![out@[0]] + vrest_seq);
        assert forall|i: int| 0 <= i < out@.len() implies views_of_tags(out@)[i] == x[i] by {
            if i == 0 {
                assert(out@[0]@ == vhead);
            } else {
                assert(out@[i] == vrest_seq[i - 1]);
                assert(views_of_tags(vrest_seq)[i - 1] == vrest_seq[i - 1]@);
            }
        }
        assert(views_of_tags(out@) =~= x);
    }
    Ok(out)
}

} // verus!

verus! {

/// The result of one checked binary arithmetic instruction on unsigned
/// 64-bit operands: overflow, underflow, and division or remainder by zero
/// all fail with an arithmetic error.
pub open spec fn spec_arith_op(instr: Bytecode, lhs: u64, rhs: u64) -> Result<u64, StatusCode> {
    match instr {
        Bytecode::Add => if lhs + rhs <= u64::MAX {
            Ok((lhs + rhs) as u64)
        } else {
            Err(StatusCode::ArithmeticError)
        },
        Bytecode::Sub => if rhs <= lhs {
            Ok((lhs - rhs) as u64)
        } else {
            Err(StatusCode::ArithmeticError)
        },
        Bytecode::Mul => if lhs * rhs <= u64::MAX {
            Ok((lhs * rhs) as u64)
        } else {
            Err(StatusCode::ArithmeticError)
        },
        Bytecode::Mod => if rhs != 0 {
            Ok((lhs % rhs) as u64)
        } else {
            Err(StatusCode::ArithmeticError)
        },
        Bytecode::Div => if rhs != 0 {
            Ok((lhs / rhs) as u64)
        } else {
            Err(StatusCode::ArithmeticError)
        },
        Bytecode::BitOr => Ok(lhs | rhs),
        Bytecode::BitAnd => Ok(lhs & rhs),
        Bytecode::Xor => Ok(lhs ^ rhs),
        _ => Err(StatusCode::UnknownInvariantViolationError),
    }
}

/// One checked binary arithmetic or bitwise instruction on unsigned 64-bit
/// operands.
pub fn arith_op(instr: &Bytecode, lhs: u64, rhs: u64) -> (r: VMResult<u64>)
    ensures
        match spec_arith_op(*instr, lhs, rhs) {
            Result::Ok(x) => r is Ok && r->Ok_0 == x,
            Result::Err(code) => r is Err && r->Err_0.major_status == code
                && r->Err_0.sub_status is None,
        },
{
    match instr {
        Bytecode::Add => match lhs.checked_add(rhs) {
            Some(x) => Ok(x),
            None => Err(VMStatus::new(StatusCode::ArithmeticError)),
        },
        Bytecode::Sub => match lhs.checked_sub(rhs) {
            Some(x) => Ok(x),
            None => Err(VMStatus::new(StatusCode::ArithmeticError)),
        },
        Bytecode::Mul => match lhs.checked_mul(rhs) {
            Some(x) => Ok(x),
            None => Err(VMStatus::new(StatusCode::ArithmeticError)),
        },
        Bytecode::Mod => match lhs.checked_rem(rhs) {
            Some(x) => Ok(x),
            None => Err(VMStatus::new(StatusCode::ArithmeticError)),
        },
        Bytecode::Div => match lhs.checked_div(rhs) {
            Some(x) => Ok(x),
            None => Err(VMStatus::new(StatusCode::ArithmeticError)),
        },
        Bytecode::BitOr => Ok(lhs | rhs),
        Bytecode::BitAnd => Ok(lhs & rhs),
        Bytecode::Xor => Ok(lhs ^ rhs),
        _ => Err(VMStatus::new(StatusCode::UnknownInvariantViolationError)),
    }
}

/// The result of one boolean or comparison instruction.
pub open spec fn spec_bool_op(instr: Bytecode, lhs: ValueV, rhs: ValueV) -> Result<
    bool,
    StatusCode,
> {
    match instr {
        Bytecode::Or => match (lhs, rhs) {
            (ValueV::Bool(l), ValueV::Bool(r)) => Ok(l || r),
            _ => Err(StatusCode::InternalTypeError),
        },
        Bytecode::And => match (lhs, rhs) {
            (ValueV::Bool(l), ValueV::Bool(r)) => Ok(l && r),
            _ => Err(StatusCode::InternalTypeError),
        },
        Bytecode::Lt => match (lhs, rhs) {
            (ValueV::U64(l), ValueV::U64(r)) => Ok(l < r),
            _ => Err(StatusCode::InternalTypeError),
        },
        Bytecode::Gt => match (lhs, rhs) {
            (ValueV::U64(l), ValueV::U64(r)) => Ok(l > r),
            _ => Err(StatusCode::InternalTypeError),
        },
        Bytecode::Le => match (lhs, rhs) {
            (ValueV::U64(l), ValueV::U64(r)) => Ok(l <= r),
            _ => Err(StatusCode::InternalTypeError),
        },
        Bytecode::Ge => match (lhs, rhs) {
            (ValueV::U64(l), ValueV::U64(r)) => Ok(l >= r),
            _ => Err(StatusCode::InternalTypeError),
        },
        _ => Err(StatusCode::UnknownInvariantViolationError),
    }
}

/// One boolean or comparison instruction on two popped operands.
pub fn bool_op(instr: &Bytecode, lhs: &Value, rhs: &Value) -> (r: VMResult<bool>)
    ensures
        match spec_bool_op(*instr, lhs@, rhs@) {
            Result::Ok(x) => r is Ok && r->Ok_0 == x,
            Result::Err(code) => r is Err && r->Err_0.major_status == code
                && r->Err_0.sub_status is None,
        },
{
    match instr {
        Bytecode::Or | Bytecode::And => {
            let l = match lhs {
                Value::Bool(l) => *l,
                _ => {
                    return Err(VMStatus::new(StatusCode::InternalTypeError));
                },
            };
            let r = match rhs {
                Value::Bool(r) => *r,
                _ => {
                    return Err(VMStatus::new(StatusCode::InternalTypeError));
                },
            };
            match instr {
                Bytecode::Or => Ok(l || r),
                _ => Ok(l && r),
            }
        },
        Bytecode::Lt | Bytecode::Gt | Bytecode::Le | Bytecode::Ge => {
            let l = match lhs {
                Value::U64(l) => *l,
                _ => {
                    return Err(VMStatus::new(StatusCode::InternalTypeError));
                },
            };
            let r = match rhs {
                Value::U64(r) => *r,
                _ => {
                    return Err(VMStatus::new(StatusCode::InternalTypeError));
                },
            };
            match instr {
                Bytecode::Lt => Ok(l < r),
                Bytecode::Gt => Ok(l > r),
                Bytecode::Le => Ok(l <= r),
                _ => Ok(l >= r),
            }
        },
        _ => Err(VMStatus::new(StatusCode::UnknownInvariantViolationError)),
    }
}

/// The arithmetic and bitwise instructions on the integer carrier.
pub open spec fn spec_is_arith(instr: Bytecode) -> bool {
    ||| instr is Add
    ||| instr is Sub
    ||| instr is Mul
    ||| instr is Mod
    ||| instr is Div
    ||| instr is BitOr
    ||| instr is BitAnd
    ||| instr is Xor
}

/// The boolean and comparison instructions.
pub open spec fn spec_is_bool_op(instr: Bytecode) -> bool {
    ||| instr is Or
    ||| instr is And
    ||| instr is Lt
    ||| instr is Gt
    ||| instr is Le
    ||| instr is Ge
}

/// The failure an instruction produces from the operand stack alone: a
/// checked arithmetic failure, or an abort carrying the popped code as its
/// sub-status.
pub open spec fn spec_instr_immediate_error(instr: Bytecode, s: Seq<ValueV>) -> Option<
    (StatusCode, Option<u64>),
> {
    if spec_is_arith(instr) && s.len() >= 2 && s.last() is U64 && s[s.len() - 2] is U64 {
        match spec_arith_op(instr, s[s.len() - 2]->U64_0, s.last()->U64_0) {
            Result::Ok(_) => None,
            Result::Err(code) => Some((code, None)),
        }
    } else if spec_is_arith(instr) && (s.len() == 0 || (s.len() == 1 && s.last() is U64)) {
        Some((StatusCode::EmptyValueStack, None))
    } else if instr is Abort && s.len() >= 1 && s.last() is U64 {
        Some((StatusCode::Aborted, Some(s.last()->U64_0)))
    } else if instr is Abort && s.len() == 0 {
        Some((StatusCode::EmptyValueStack, None))
    } else {
        None
    }
}

/// The value-level instructions: those whose whole effect is on the
/// operand stack.
pub open spec fn spec_is_value_instr(instr: Bytecode) -> bool {
    ||| spec_is_arith(instr)
    ||| spec_is_bool_op(instr)
    ||| instr is Abort
    ||| instr matches Bytecode::LdConst(_)
    ||| instr is LdTrue
    ||| instr is LdFalse
    ||| instr is Not
    ||| instr is Pop
    ||| instr is FreezeRef
    ||| instr is Eq
    ||| instr is Neq
}

/// What a value-level instruction does: the operand stack `s` becomes `t`
/// and the result is `r`. Arithmetic and comparisons pop their two
/// operands and push the checked result; aborts fail with the popped code
/// as sub-status; loads push below the cap; pops drop the top.
pub open spec fn value_instr_spec(
    instr: Bytecode,
    s: Seq<ValueV>,
    t: Seq<ValueV>,
    r: VMResult<InstrResult>,
) -> bool {
    &&& spec_is_arith(instr) ==> {
        &&& s.len() == 0 ==> r is Err && r->Err_0.major_status
            == StatusCode::EmptyValueStack && r->Err_0.sub_status is None && t == s
        &&& (s.len() == 1 && s.last() is U64) ==> r is Err && r->Err_0.major_status
            == StatusCode::EmptyValueStack && r->Err_0.sub_status is None && t == s.drop_last()
        &&& (s.len() >= 2 && s.last() is U64 && s[s.len() - 2] is U64) ==> (
        match spec_arith_op(instr, s[s.len() - 2]->U64_0, s.last()->U64_0) {
            Result::Ok(x) => (r matches Ok(InstrResult::Next) && t == s.drop_last()
                .drop_last().push(ValueV::U64(x))),
            Result::Err(code) => r is Err && r->Err_0.major_status == code && t
                == s.drop_last().drop_last(),
        })
    }
    &&& spec_is_bool_op(instr) ==> (s.len() >= 2 ==> (match spec_bool_op(
        instr,
        s[s.len() - 2],
        s.last(),
    ) {
        Result::Ok(b) => (r matches Ok(InstrResult::Next) && t == s.drop_last()
            .drop_last().push(ValueV::Bool(b))),
        Result::Err(code) => r is Err && r->Err_0.major_status == code && r->Err_0.sub_status
            is None && t == s.drop_last().drop_last(),
    }))
    &&& instr is Abort ==> {
        &&& s.len() == 0 ==> r is Err && r->Err_0.major_status
            == StatusCode::EmptyValueStack && r->Err_0.sub_status is None && t == s
        &&& (s.len() >= 1 && s.last() is U64) ==> r is Err && r->Err_0.major_status
            == StatusCode::Aborted && r->Err_0.sub_status == Some(s.last()->U64_0) && t
            == s.drop_last()
    }
    &&& instr matches Bytecode::LdConst(x) ==> (s.len()
        < OPERAND_STACK_SIZE_LIMIT ==> (r matches Ok(InstrResult::Next) && t == s.push(
        ValueV::U64(x),
    )))
    &&& instr is LdTrue ==> (s.len() < OPERAND_STACK_SIZE_LIMIT ==> (r matches Ok(
        InstrResult::Next,
    ) && t == s.push(ValueV::Bool(true))))
    &&& instr is LdFalse ==> (s.len() < OPERAND_STACK_SIZE_LIMIT ==> (r
        matches Ok(InstrResult::Next) && t == s.push(ValueV::Bool(false))))
    &&& instr is Not ==> ((s.len() >= 1 && s.last() is Bool) ==> (r matches Ok(
        InstrResult::Next,
    ) && t == s.drop_last().push(ValueV::Bool(!s.last()->Bool_0))))
    &&& instr is Pop ==> ((s.len() >= 1 && !(s.last() is Reference)) ==> (r
        matches Ok(InstrResult::Next) && t == s.drop_last()))
    &&& instr is FreezeRef ==> (r matches Ok(InstrResult::Next) && t == s)
    &&& (instr is Eq || instr is Neq) ==> ((s.len() >= 2 && !(s.last()
        is Reference) && !(s[s.len() - 2] is Reference)) ==> (match crate::values::spec_equals(
        s.last(),
        s[s.len() - 2],
    ) {
        Option::Some(e) => (r matches Ok(InstrResult::Next) && t == s.drop_last()
            .drop_last().push(
            ValueV::Bool(
                if instr is Eq {
                    e
                } else {
                    !e
                },
            ),
        )),
        Option::None => r is Err && r->Err_0.major_status
            == StatusCode::InternalTypeError && r->Err_0.sub_status is None && t == s.drop_last()
            .drop_last(),
    }))
    &&& spec_instr_immediate_error(instr, s) matches Some(es) ==> (r is Err
        && r->Err_0.major_status == es.0 && r->Err_0.sub_status == es.1)
}

/// The functional face of one value-level instruction where its behaviour
/// is pinned: the new stack on success, the failure it raises, or nothing
/// where the stack does not meet the instruction's specified region (an
/// overfull stack, a reference operand).
pub open spec fn spec_value_step(instr: Bytecode, s: Seq<ValueV>) -> Option<
    Result<Seq<ValueV>, ((StatusCode, Option<u64>), Seq<ValueV>)>,
> {
    if spec_is_arith(instr) {
        if s.len() == 0 {
            Some(Err(((StatusCode::EmptyValueStack, None), s)))
        } else if s.len() == 1 && s.last() is U64 {
            Some(Err(((StatusCode::EmptyValueStack, None), s.drop_last())))
        } else if s.len() >= 2 && s.last() is U64 && s[s.len() - 2] is U64 {
            match spec_arith_op(instr, s[s.len() - 2]->U64_0, s.last()->U64_0) {
                Result::Ok(x) => Some(Ok(s.drop_last().drop_last().push(ValueV::U64(x)))),
                Result::Err(code) => Some(Err(((code, None), s.drop_last().drop_last()))),
            }
        } else {
            None
        }
    } else if spec_is_bool_op(instr) {
        if s.len() >= 2 {
            match spec_bool_op(instr, s[s.len() - 2], s.last()) {
                Result::Ok(b) => Some(Ok(s.drop_last().drop_last().push(ValueV::Bool(b)))),
                Result::Err(code) => Some(Err(((code, None), s.drop_last().drop_last()))),
            }
        } else {
            None
        }
    } else if instr is Abort {
        if s.len() == 0 {
            Some(Err(((StatusCode::EmptyValueStack, None), s)))
        } else if s.last() is U64 {
            Some(Err(((StatusCode::Aborted, Some(s.last()->U64_0)), s.drop_last())))
        } else {
            None
        }
    } else if instr is LdConst {
        if s.len() < OPERAND_STACK_SIZE_LIMIT {
            Some(Ok(s.push(ValueV::U64(instr->LdConst_0))))
        } else {
            None
        }
    } else if instr is LdTrue {
        if s.len() < OPERAND_STACK_SIZE_LIMIT {
            Some(Ok(s.push(ValueV::Bool(true))))
        } else {
            None
        }
    } else if instr is LdFalse {
        if s.len() < OPERAND_STACK_SIZE_LIMIT {
            Some(Ok(s.push(ValueV::Bool(false))))
        } else {
            None
        }
    } else if instr is Not {
        if s.len() >= 1 && s.last() is Bool {
            Some(Ok(s.drop_last().push(ValueV::Bool(!s.last()->Bool_0))))
        } else {
            None
        }
    } else if instr is Pop {
        if s.len() >= 1 && !(s.last() is Reference) {
            Some(Ok(s.drop_last()))
        } else {
            None
        }
    } else if instr is FreezeRef {
        Some(Ok(s))
    } else if instr is Eq || instr is Neq {
        if s.len() >= 2 && !(s.last() is Reference) && !(s[s.len() - 2] is Reference) {
            match crate::values::spec_equals(s.last(), s[s.len() - 2]) {
                Option::Some(e) => Some(
                    Ok(
                        s.drop_last().drop_last().push(
                            ValueV::Bool(
                                if instr is Eq {
                                    e
                                } else {
                                    !e
                                },
                            ),
                        ),
                    ),
                ),
                Option::None => Some(
                    Err(((StatusCode::InternalTypeError, None), s.drop_last().drop_last())),
                ),
            }
        } else {
            None
        }
    } else {
        None
    }
}

/// What driving straight-line value code to its return settles: the
/// result, the operand stack, the gas and the steps left, or nothing once
/// a state outside the pinned fragment is reached. Fuel is the step
/// counter itself: every run is bounded by it.
pub open spec fn spec_run_values(
    table: crate::gas_schedule::CostTable,
    metering: bool,
    code: Seq<Bytecode>,
    pc: int,
    s: Seq<ValueV>,
    gas: u64,
    steps: u64,
) -> Option<(Result<(), (StatusCode, Option<u64>)>, Seq<ValueV>, u64, u64)>
    decreases steps,
{
    if steps == 0 {
        Some((Err((StatusCode::OutOfGas, None)), s, gas, 0))
    } else if !(0 <= pc < code.len()) || pc >= u16::MAX {
        Some((Err((StatusCode::PcOverflow, None)), s, gas, (steps - 1) as u64))
    } else {
        let instr = code[pc];
        let cost = crate::gas_meter::spec_instruction_cost(table, instr, 1);
        if metering && cost > u64::MAX {
            Some((Err((StatusCode::ArithmeticError, None)), s, gas, (steps - 1) as u64))
        } else if metering && cost > gas {
            Some((Err((StatusCode::OutOfGas, None)), s, 0, (steps - 1) as u64))
        } else {
            let gas1 = if metering {
                (gas - cost) as u64
            } else {
                gas
            };
            if instr is Ret {
                Some((Ok(()), s, gas1, (steps - 1) as u64))
            } else if spec_is_value_instr(instr) {
                match spec_value_step(instr, s) {
                    Option::Some(Result::Ok(t)) => spec_run_values(
                        table,
                        metering,
                        code,
                        pc + 1,
                        t,
                        gas1,
                        (steps - 1) as u64,
                    ),
                    Option::Some(Result::Err(es)) => Some(
                        (Err(es.0), es.1, gas1, (steps - 1) as u64),
                    ),
                    Option::None => None,
                }
            } else {
                None
            }
        }
    }
}

/// A value-level instruction's relational contract agrees with its
/// functional face wherever the latter is defined.
pub proof fn lemma_value_step_agrees(
    instr: Bytecode,
    s: Seq<ValueV>,
    t: Seq<ValueV>,
    r: VMResult<InstrResult>,
)
    requires
        spec_is_value_instr(instr),
        value_instr_spec(instr, s, t, r),
        spec_value_step(instr, s) is Some,
    ensures
        match spec_value_step(instr, s)->0 {
            Result::Ok(t2) => r matches Ok(InstrResult::Next) && t == t2,
            Result::Err((es, t2)) => r is Err && r->Err_0.major_status == es.0
                && r->Err_0.sub_status == es.1 && t == t2,
        },
{
    if spec_is_arith(instr) {
    } else if spec_is_bool_op(instr) {
    } else if instr is Abort {
    } else if instr is Eq || instr is Neq {
    } else {
    }
}

/// Whether a function is the event-store native: the function named
/// `write_to_event_store` of the `Event` module at the core code address.
/// Every other native belongs to collaborators outside the core.
pub open spec fn spec_is_event_native(function: FunctionRef) -> bool {
    let m = *function.module;
    let def = function.def();
    &&& def.handle < m.function_handles@.len()
    &&& m.function_handles@[def.handle as int].name < m.identifiers@.len()
    &&& m.id@.address == Seq::new(crate::types::ADDRESS_LENGTH as nat, |i: int| 0u8)
    &&& m.id@.name == "Event"@
    &&& m.identifiers@[m.function_handles@[def.handle as int].name as int]@
        == "write_to_event_store"@
}

/// Give back the borrow a global reference holds when the value carrying
/// it is consumed.
fn release_value_refs<R: RemoteCache>(
    value: &Value,
    data_view: &mut TransactionDataCache<R>,
) -> (r: VMResult<()>)
    ensures
        !(value@ is Reference) ==> r is Ok && final(data_view).slots() == old(data_view).slots(),
        forall|a: crate::types::AccessPathV| #[trigger]
            final(data_view).spec_remote(a) == old(data_view).spec_remote(a),
{
    match value {
        Value::Reference(ReferenceValue::Global(g)) => data_view.release_borrow(&g.ap),
        _ => Ok(()),
    }
}

/// Take one more borrow for a duplicated global reference.
fn retain_value_refs<R: RemoteCache>(
    value: &Value,
    data_view: &mut TransactionDataCache<R>,
) -> (r: VMResult<()>)
    ensures
        !(value@ is Reference) ==> r is Ok && final(data_view).slots() == old(data_view).slots(),
        forall|a: crate::types::AccessPathV| #[trigger]
            final(data_view).spec_remote(a) == old(data_view).spec_remote(a),
{
    match value {
        Value::Reference(ReferenceValue::Global(g)) => data_view.retain_borrow(&g.ap),
        _ => Ok(()),
    }
}

/// An interpreter instance: a stand-alone execution context for one
/// function invocation, with its operand stack, call stack and gas meter.
/// The data cache and the event list are owned by the executor and lent to
/// each operation for the duration of the call.
pub struct Interpreter<'txn, P: ModuleCache> {
    operand_stack: Stack,
    call_stack: CallStack<'txn>,
    gas_meter: GasMeter,
    txn_data: TransactionMetadata,
    module_cache: &'txn P,
    steps_left: u64,
}

impl<'txn, P: ModuleCache> Interpreter<'txn, P> {
    /// The stacks are within their caps and the gas meter priced against a
    /// complete table.
    pub open spec fn wf(&self) -> bool {
        &&& self.operand_stack().well_formed()
        &&& self.call_stack_wf()
        &&& self.gas_meter().well_formed()
    }

    /// The operand stack.
    pub closed spec fn operand_stack(&self) -> Stack {
        self.operand_stack
    }

    /// The call stack is within its cap and all frames valid.
    pub closed spec fn call_stack_wf(&self) -> bool {
        self.call_stack.well_formed()
    }

    /// The call-stack depth.
    pub closed spec fn call_depth(&self) -> int {
        self.call_stack.depth()
    }

    /// The gas meter.
    pub closed spec fn gas_meter(&self) -> GasMeter {
        self.gas_meter
    }

    /// The gas still available.
    pub open spec fn gas_left(&self) -> u64 {
        self.gas_meter().gas_left()
    }

    /// How many execution steps are still allowed: every run is bounded.
    pub closed spec fn steps(&self) -> u64 {
        self.steps_left
    }

    /// A new interpreter in the context of a transaction, over a module
    /// cache and a gas meter.
    pub fn new(module_cache: &'txn P, txn_data: TransactionMetadata, gas_meter: GasMeter) -> (r:
        Interpreter<'txn, P>)
        requires
            gas_meter.well_formed(),
        ensures
            r.wf(),
            r.call_depth() == 0,
            r.gas_meter() == gas_meter,
            r.operand_stack()@ == Seq::<ValueV>::empty(),
            r.steps() == u64::MAX,
            r.spec_txn_size() == txn_data.transaction_size.0,
            r.spec_sender() == txn_data.sender@,
            forall|id: crate::types::ModuleIdV| #[trigger] r.spec_cached_module(id)
                == module_cache.spec_get(id),
    {
        Interpreter {
            operand_stack: Stack::new(),
            call_stack: CallStack::new(),
            gas_meter,
            txn_data,
            module_cache,
            steps_left: u64::MAX,
        }
    }

    /// The module cache this interpreter resolves code through.
    pub fn module_cache(&self) -> (r: &'txn P) {
        self.module_cache
    }

    /// Stop metering gas.
    pub fn disable_metering(&mut self) -> (r: ())
        ensures
            final(self).wf() == old(self).wf(),
            !final(self).gas_meter().metering(),
            final(self).gas_left() == old(self).gas_left(),
            final(self).call_depth() == old(self).call_depth(),
            final(self).steps() == old(self).steps(),
            final(self).gas_meter().table() == old(self).gas_meter().table(),
            final(self).operand_stack() == old(self).operand_stack(),
            final(self).spec_txn_size() == old(self).spec_txn_size(),
            final(self).spec_sender() == old(self).spec_sender(),
            forall|id: crate::types::ModuleIdV| #[trigger] final(self).spec_cached_module(id)
                == old(self).spec_cached_module(id),
    {
        self.gas_meter.disable_metering();
    }

    /// Start metering gas again.
    pub fn enable_metering(&mut self) -> (r: ())
        ensures
            final(self).wf() == old(self).wf(),
            final(self).gas_meter().metering(),
            final(self).gas_left() == old(self).gas_left(),
            final(self).call_depth() == old(self).call_depth(),
            final(self).steps() == old(self).steps(),
            final(self).gas_meter().table() == old(self).gas_meter().table(),
    {
        self.gas_meter.enable_metering();
    }

    /// The gas still available to this execution.
    pub fn remaining_gas(&self) -> (r: GasUnits)
        ensures
            r.0 == self.gas_left(),
    {
        self.gas_meter.remaining_gas()
    }

    /// Replace the transaction sender, handing back the one before: used
    /// only while producing the genesis state.
    pub fn swap_sender(&mut self, address: AccountAddress) -> (r: AccountAddress)
        ensures
            r@ == old(self).spec_sender(),
            final(self).spec_sender() == address@,
            final(self).wf() == old(self).wf(),
            final(self).gas_left() == old(self).gas_left(),
            final(self).call_depth() == old(self).call_depth(),
    {
        let old_sender = self.txn_data.sender.clone();
        self.txn_data.sender = address;
        old_sender
    }

    /// The transaction sender.
    pub closed spec fn spec_sender(&self) -> Seq<u8> {
        self.txn_data.sender@
    }

    /// What the module cache holds under a module identity.
    pub closed spec fn spec_cached_module(&self, id: crate::types::ModuleIdV) -> Option<
        LoadedModule,
    > {
        self.module_cache.spec_get(id)
    }

    /// What the module cache resolves a function handle of a module to.
    pub closed spec fn spec_resolved_function(&self, module: LoadedModule, idx: int) -> Option<
        (LoadedModule, int),
    > {
        self.module_cache.spec_function_ref(module, idx)
    }

    /// What the module cache resolves a struct definition of a module to.
    pub closed spec fn spec_resolved_struct(&self, module: LoadedModule, idx: int) -> Option<
        Seq<crate::canonical::TypeV>,
    > {
        self.module_cache.spec_struct_def(module, idx)
    }
}

} // verus!

verus! {

impl<'txn> Frame<'txn> {
    /// Read the value a local reference reaches in this frame.
    pub fn read_local_at(&self, idx: u8, path: &Vec<u16>) -> (r: VMResult<Value>) {
        let v = match self.locals.copy_loc(idx as usize) {
            Ok(v) => v,
            Err(e) => {
                return Err(e);
            },
        };
        match crate::values::value_read_at(&v, path, 0) {
            Some(x) => Ok(x),
            None => Err(VMStatus::new(StatusCode::VerifierInvariantViolation)),
        }
    }

    /// Write through a local reference into this frame.
    pub fn write_local_at(&mut self, idx: u8, path: &Vec<u16>, nv: Value) -> (r: VMResult<()>)
        ensures
            final(self).function == old(self).function,
            final(self).pc == old(self).pc,
    {
        let mut v = match self.locals.copy_loc(idx as usize) {
            Ok(v) => v,
            Err(e) => {
                return Err(e);
            },
        };
        if crate::values::value_write_at(&mut v, path, 0, nv) {
            self.locals.store_loc(idx as usize, v)
        } else {
            Err(VMStatus::new(StatusCode::VerifierInvariantViolation))
        }
    }
}

impl<'txn> CallStack<'txn> {
    /// Read the value a local reference reaches in a suspended frame.
    pub fn read_local_at(&self, depth: usize, idx: u8, path: &Vec<u16>) -> (r: VMResult<Value>) {
        if depth >= self.frames.len() {
            return Err(VMStatus::new(StatusCode::VerifierInvariantViolation));
        }
        self.frames[depth].read_local_at(idx, path)
    }

    /// Write through a local reference into a suspended frame.
    pub fn write_local_at(&mut self, depth: usize, idx: u8, path: &Vec<u16>, nv: Value) -> (r:
        VMResult<()>)
        ensures
            final(self).depth() == old(self).depth(),
            old(self).well_formed() ==> final(self).well_formed(),
    {
        if depth >= self.frames.len() {
            return Err(VMStatus::new(StatusCode::VerifierInvariantViolation));
        }
        let source = &self.frames[depth];
        let mut replacement = Frame {
            pc: source.pc,
            locals: source.locals.clone_locals(),
            function: source.function,
            type_actual_tags: crate::types::clone_tag_vec(&source.type_actual_tags),
        };
        let write = replacement.write_local_at(idx, path, nv);
        match write {
            Ok(()) => {
                self.frames.set(depth, replacement);
                Ok(())
            },
            Err(e) => Err(e),
        }
    }
}

/// The access path a struct definition of a module is stored under at an
/// address: the resource tag byte, then the canonical bytes of the
/// struct's tag. Nothing when an index is out of its pool.
pub open spec fn spec_resource_access_path(
    module: LoadedModule,
    idx: int,
    address: Seq<u8>,
) -> Option<crate::types::AccessPathV> {
    if 0 <= idx < module.struct_defs@.len() {
        let sh_idx = module.struct_defs@[idx].struct_handle;
        if sh_idx < module.struct_handles@.len() {
            let name_idx = module.struct_handles@[sh_idx as int].name;
            if name_idx < module.identifiers@.len() {
                Some(
                    crate::types::AccessPathV {
                        address,
                        path: seq![RESOURCE_TAG] + crate::types::spec_struct_tag_bytes(
                            StructTagV {
                                address: module.id@.address,
                                module: module.id@.name,
                                name: module.identifiers@[name_idx as int]@,
                                type_params: Seq::empty(),
                            },
                        ),
                    },
                )
            } else {
                None
            }
        } else {
            None
        }
    } else {
        None
    }
}

/// Derive the access path a struct definition of a module is stored under
/// at an address: the resource tag byte, then the canonical bytes of the
/// struct's tag.
pub fn make_access_path(module: &LoadedModule, idx: StructDefinitionIndex, address: AccountAddress)
    -> (r: VMResult<AccessPath>)
        ensures
            match spec_resource_access_path(*module, idx as int, address@) {
                Option::Some(apv) => r matches Ok(ap) && ap@ == apv,
                Option::None => r is Err && r->Err_0.major_status
                    == StatusCode::VerifierInvariantViolation,
            },
    {
        if (idx as usize) >= module.struct_defs.len() {
            return Err(VMStatus::new(StatusCode::VerifierInvariantViolation));
        }
        let sh_idx = module.struct_defs[idx as usize].struct_handle;
        if (sh_idx as usize) >= module.struct_handles.len() {
            return Err(VMStatus::new(StatusCode::VerifierInvariantViolation));
        }
        let name_idx = module.struct_handles[sh_idx as usize].name;
        if (name_idx as usize) >= module.identifiers.len() {
            return Err(VMStatus::new(StatusCode::VerifierInvariantViolation));
        }
        let tag = StructTag {
            address: module.id.address.clone(),
            module: module.id.name.clone(),
            name: module.identifiers[name_idx as usize].clone(),
            type_params: Vec::new(),
        };
        let ghost expected = spec_resource_access_path(*module, idx as int, address@)->0;
        let mut path: Vec<u8> = Vec::new();
        path.push(RESOURCE_TAG);
        let mut tag_bytes = tag.to_canonical_bytes();
        path.append(&mut tag_bytes);
        proof {
            crate::types::lemma_views_of_tags(tag.type_params@);
            assert(crate::types::views_of_tags(tag.type_params@) =~= Seq::<
                crate::types::TypeTagV,
            >::empty());
            assert(tag@ =~= StructTagV {
                address: module.id@.address,
                module: module.id@.name,
                name: module.identifiers@[module.struct_handles@[module.struct_defs@[
                    idx as int].struct_handle as int].name as int]@,
                type_params: Seq::empty(),
            });
            assert(path@ =~= expected.path);
        }
        let r = AccessPath::new(address, path);
        proof {
            assert(r@ =~= expected);
        }
    Ok(r)
}

impl<'txn, P: ModuleCache> Interpreter<'txn, P> {
    /// The failure the instruction at the frame's program counter produces
    /// from the operand stack alone, provided fetching and charging it
    /// succeeds: what the dispatch loop surfaces without running anything
    /// further.
    pub open spec fn spec_next_instr_error(&self, frame: Frame<'txn>) -> Option<
        (StatusCode, Option<u64>),
    > {
        let code = frame.function.def().code@;
        let pc = frame.pc as int;
        if self.steps() > 0 && 0 <= pc < code.len() && frame.pc < u16::MAX && (
        !self.gas_meter().metering() || crate::gas_meter::spec_instruction_cost(
            self.gas_meter().table(),
            code[pc],
            1,
        ) <= self.gas_left()) {
            spec_instr_immediate_error(code[pc], self.operand_stack()@)
        } else {
            None
        }
    }

    /// Whether fetching the instruction at the frame's program counter
    /// succeeds but paying for it cannot: what stops the dispatch loop
    /// before the instruction touches anything.
    pub open spec fn spec_next_charge_fails(&self, frame: Frame<'txn>) -> bool {
        let code = frame.function.def().code@;
        let pc = frame.pc as int;
        &&& self.steps() > 0
        &&& 0 <= pc < code.len()
        &&& frame.pc < u16::MAX
        &&& self.gas_meter().metering()
        &&& crate::gas_meter::spec_instruction_cost(self.gas_meter().table(), code[pc], 1)
            > self.gas_left()
    }

    /// Whether the instruction at the frame's program counter is a return
    /// that fetches and charges successfully: the dispatch loop then hands
    /// back a return exit without touching anything else.
    pub open spec fn spec_next_instr_ret(&self, frame: Frame<'txn>) -> bool {
        let code = frame.function.def().code@;
        let pc = frame.pc as int;
        &&& self.steps() > 0
        &&& 0 <= pc < code.len()
        &&& frame.pc < u16::MAX
        &&& (!self.gas_meter().metering() || crate::gas_meter::spec_instruction_cost(
            self.gas_meter().table(),
            code[pc],
            1,
        ) <= self.gas_left())
        &&& code[pc] is Ret
    }

    /// Execute the current frame's code until a control transfer hands the
    /// loop back: each instruction is charged before it runs, and the gas
    /// left never grows.
    fn execute_code_unit<R: RemoteCache>(
        &mut self,
        frame: &mut Frame<'txn>,
        data_view: &mut TransactionDataCache<R>,
        event_data: &mut Vec<ContractEvent>,
    ) -> (r: VMResult<ExitCode>)
        requires
            old(self).wf(),
            old(frame).valid(),
        ensures
            final(self).wf(),
            final(self).gas_left() <= old(self).gas_left(),
            final(self).steps() <= old(self).steps(),
            r is Ok ==> final(self).steps() < old(self).steps(),
            final(self).call_depth() == old(self).call_depth(),
            final(frame).function == old(frame).function,
            final(frame).valid(),
            final(self).gas_meter().table() == old(self).gas_meter().table(),
            final(self).gas_meter().metering() == old(self).gas_meter().metering(),
            !old(self).gas_meter().metering() ==> final(self).gas_left() == old(self).gas_left(),
            old(self).spec_next_instr_error(*old(frame)) matches Some(es) ==> (r is Err
                && r->Err_0.major_status == es.0 && r->Err_0.sub_status == es.1),
            old(self).spec_next_instr_ret(*old(frame)) ==> ({
                let cost = crate::gas_meter::spec_instruction_cost(
                    old(self).gas_meter().table(),
                    old(frame).function.def().code@[old(frame).pc as int],
                    1,
                );
                &&& r matches Ok(e) && e is Return
                &&& final(self).operand_stack()@ == old(self).operand_stack()@
                &&& final(frame).locals@ == old(frame).locals@
                &&& final(data_view).slots() == old(data_view).slots()
                &&& final(event_data)@ == old(event_data)@
                &&& final(self).steps() == old(self).steps() - 1
                &&& old(self).gas_meter().metering() ==> final(self).gas_left() == old(
                    self,
                ).gas_left() - cost
            }),
            old(self).spec_next_charge_fails(*old(frame)) ==> ({
                let cost = crate::gas_meter::spec_instruction_cost(
                    old(self).gas_meter().table(),
                    old(frame).function.def().code@[old(frame).pc as int],
                    1,
                );
                &&& r is Err
                &&& cost <= u64::MAX ==> r->Err_0.major_status == StatusCode::OutOfGas && final(self).gas_left() == 0
                &&& cost > u64::MAX ==> r->Err_0.major_status == StatusCode::ArithmeticError
                    && final(self).gas_left() == old(self).gas_left()
                &&& final(self).operand_stack() == old(self).operand_stack()
                &&& final(frame).locals@ == old(frame).locals@
                &&& final(frame).pc == old(frame).pc
                &&& final(data_view).slots() == old(data_view).slots()
            }),
            spec_run_values(
                old(self).gas_meter().table(),
                old(self).gas_meter().metering(),
                old(frame).function.def().code@,
                old(frame).pc as int,
                old(self).operand_stack()@,
                old(self).gas_left(),
                old(self).steps(),
            ) matches Some(o) ==> ({
                &&& o.0 is Ok ==> (r matches Ok(e) && e is Return)
                &&& o.0 matches Err(es) ==> (r is Err && r->Err_0.major_status == es.0
                    && r->Err_0.sub_status == es.1)
                &&& final(self).operand_stack()@ == o.1
                &&& final(self).gas_left() == o.2
                &&& final(self).steps() == o.3
                &&& final(frame).locals@ == old(frame).locals@
            }),
            forall|a: crate::types::AccessPathV| #[trigger]
                final(data_view).spec_remote(a) == old(data_view).spec_remote(a),
        decreases self.steps_left, 0nat,
    {
        let code = frame.code_definition();
        let mut executed_any = false;
        loop
            invariant
                self.wf(),
                frame.valid(),
                frame.function == old(frame).function,
                self.gas_left() <= old(self).gas_left(),
                self.steps_left <= old(self).steps(),
                executed_any ==> self.steps_left < old(self).steps(),
                self.call_depth() == old(self).call_depth(),
                self.gas_meter().table() == old(self).gas_meter().table(),
                self.gas_meter().metering() == old(self).gas_meter().metering(),
                !old(self).gas_meter().metering() ==> self.gas_left() == old(self).gas_left(),
                !executed_any ==> frame.pc == old(frame).pc && self.steps_left == old(self).steps()
                    && self.operand_stack() == old(self).operand_stack() && self.gas_meter()
                    == old(self).gas_meter() && frame.locals@ == old(frame).locals@
                    && data_view.slots() == old(data_view).slots() && event_data@ == old(event_data)@,
                executed_any ==> old(self).spec_next_instr_error(*old(frame)) is None,
                executed_any ==> !old(self).spec_next_charge_fails(*old(frame)),
                executed_any ==> !old(self).spec_next_instr_ret(*old(frame)),
                spec_run_values(
                    old(self).gas_meter().table(),
                    old(self).gas_meter().metering(),
                    old(frame).function.def().code@,
                    old(frame).pc as int,
                    old(self).operand_stack()@,
                    old(self).gas_left(),
                    old(self).steps(),
                ) matches Some(o) ==> (spec_run_values(
                    old(self).gas_meter().table(),
                    old(self).gas_meter().metering(),
                    code@,
                    frame.pc as int,
                    self.operand_stack()@,
                    self.gas_left(),
                    self.steps_left,
                ) == Some(o) && frame.locals@ == old(frame).locals@),
                code@ == frame.function.def().code@,
                forall|a: crate::types::AccessPathV| #[trigger]
                    data_view.spec_remote(a) == old(data_view).spec_remote(a),
            decreases self.steps_left,
        {
            let ghost s_e = self.operand_stack()@;
            if self.steps_left == 0 {
                return Err(VMStatus::new(StatusCode::OutOfGas));
            }
            self.steps_left = self.steps_left - 1;
            executed_any = true;
            if (frame.pc as usize) >= code.len() || frame.pc == u16::MAX {
                return Err(VMStatus::new(StatusCode::PcOverflow));
            }
            let instruction = code[frame.pc as usize];
            match self.gas_meter.calculate_and_consume(&instruction, AbstractMemorySize(1)) {
                Ok(()) => {},
                Err(e) => {
                    return Err(e);
                },
            }
            frame.pc = frame.pc + 1;

            let step_res = self.execute_instruction(frame, instruction, data_view, event_data);
            proof {
                if spec_is_value_instr(instruction) && spec_value_step(instruction, s_e)
                    is Some {
                    lemma_value_step_agrees(instruction, s_e, self.operand_stack()@, step_res);
                }
            }
            match step_res {
                Ok(InstrResult::Exit(exit_code)) => {
                    return Ok(exit_code);
                },
                Ok(InstrResult::Next) => {},
                Err(e) => {
                    return Err(e);
                },
            }
        }
    }
}

} // verus!

verus! {

impl<'txn, P: ModuleCache> Interpreter<'txn, P> {

    /// Execute one value-level instruction: its whole effect is on the
    /// operand stack, except that consuming a global reference gives its
    /// borrow back.
    #[verifier::rlimit(100)]
    #[verifier::spinoff_prover]
    fn execute_value_instruction<R: RemoteCache>(
        &mut self,
        instruction: Bytecode,
        data_view: &mut TransactionDataCache<R>,
    ) -> (r: VMResult<InstrResult>)
        requires
            old(self).wf(),
            spec_is_value_instr(instruction),
        ensures
            final(self).wf(),
            final(self).gas_meter() == old(self).gas_meter(),
            final(self).steps() == old(self).steps(),
            final(self).call_depth() == old(self).call_depth(),
            forall|a: crate::types::AccessPathV| #[trigger]
                final(data_view).spec_remote(a) == old(data_view).spec_remote(a),
            value_instr_spec(
                instruction,
                old(self).operand_stack()@,
                final(self).operand_stack()@,
                r,
            ),
    {
        match instruction {
                Bytecode::Pop => {
                    let v = match self.operand_stack.pop() {
                        Ok(v) => v,
                        Err(e) => {
                            return Err(e);
                        },
                    };
                    match release_value_refs(&v, data_view) {
                        Ok(()) => {},
                        Err(e) => {
                            return Err(e);
                        },
                    }
                },
                Bytecode::LdConst(int_const) => {
                    match self.operand_stack.push(Value::u64(int_const)) {
                        Ok(()) => {},
                        Err(e) => {
                            return Err(e);
                        },
                    }
                },
                Bytecode::LdTrue => {
                    match self.operand_stack.push(Value::bool(true)) {
                        Ok(()) => {},
                        Err(e) => {
                            return Err(e);
                        },
                    }
                },
                Bytecode::LdFalse => {
                    match self.operand_stack.push(Value::bool(false)) {
                        Ok(()) => {},
                        Err(e) => {
                            return Err(e);
                        },
                    }
                },
                Bytecode::Add
                | Bytecode::Sub
                | Bytecode::Mul
                | Bytecode::Mod
                | Bytecode::Div
                | Bytecode::BitOr
                | Bytecode::BitAnd
                | Bytecode::Xor => {
                    let rhs = match self.operand_stack.pop() {
                        Ok(v) => match v.into_u64() {
                            Ok(x) => x,
                            Err(e) => {
                                return Err(e);
                            },
                        },
                        Err(e) => {
                            return Err(e);
                        },
                    };
                    let lhs = match self.operand_stack.pop() {
                        Ok(v) => match v.into_u64() {
                            Ok(x) => x,
                            Err(e) => {
                                proof {
                                    let s0 = old(self).operand_stack()@;
                                    assert(s0.drop_last().last() == s0[s0.len() - 2]);
                                }
                                return Err(e);
                            },
                        },
                        Err(e) => {
                            return Err(e);
                        },
                    };
                    let x = match arith_op(&instruction, lhs, rhs) {
                        Ok(x) => x,
                        Err(e) => {
                            return Err(e);
                        },
                    };
                    match self.operand_stack.push(Value::u64(x)) {
                        Ok(()) => {},
                        Err(e) => {
                            return Err(e);
                        },
                    }
                },
                Bytecode::Or
                | Bytecode::And
                | Bytecode::Lt
                | Bytecode::Gt
                | Bytecode::Le
                | Bytecode::Ge => {
                    let rhs = match self.operand_stack.pop() {
                        Ok(v) => v,
                        Err(e) => {
                            return Err(e);
                        },
                    };
                    let lhs = match self.operand_stack.pop() {
                        Ok(v) => v,
                        Err(e) => {
                            return Err(e);
                        },
                    };
                    let b = match bool_op(&instruction, &lhs, &rhs) {
                        Ok(b) => b,
                        Err(e) => {
                            return Err(e);
                        },
                    };
                    match self.operand_stack.push(Value::bool(b)) {
                        Ok(()) => {},
                        Err(e) => {
                            return Err(e);
                        },
                    }
                },
                Bytecode::Not => {
                    let b = match self.operand_stack.pop() {
                        Ok(v) => match v.into_bool() {
                            Ok(b) => b,
                            Err(e) => {
                                return Err(e);
                            },
                        },
                        Err(e) => {
                            return Err(e);
                        },
                    };
                    match self.operand_stack.push(Value::bool(!b)) {
                        Ok(()) => {},
                        Err(e) => {
                            return Err(e);
                        },
                    }
                },
                Bytecode::Abort => {
                    let error_code = match self.operand_stack.pop() {
                        Ok(v) => match v.into_u64() {
                            Ok(x) => x,
                            Err(e) => {
                                return Err(e);
                            },
                        },
                        Err(e) => {
                            return Err(e);
                        },
                    };
                    return Err(VMStatus::new(StatusCode::Aborted).with_sub_status(error_code));
                },
                Bytecode::Eq | Bytecode::Neq => {
                    let lhs = match self.operand_stack.pop() {
                        Ok(v) => v,
                        Err(e) => {
                            return Err(e);
                        },
                    };
                    let rhs = match self.operand_stack.pop() {
                        Ok(v) => v,
                        Err(e) => {
                            return Err(e);
                        },
                    };
                    let eq = match lhs.equals(&rhs) {
                        Ok(b) => b,
                        Err(e) => {
                            return Err(e);
                        },
                    };
                    match release_value_refs(&lhs, data_view) {
                        Ok(()) => {},
                        Err(e) => {
                            return Err(e);
                        },
                    }
                    match release_value_refs(&rhs, data_view) {
                        Ok(()) => {},
                        Err(e) => {
                            return Err(e);
                        },
                    }
                    let b = match instruction {
                        Bytecode::Eq => eq,
                        _ => !eq,
                    };
                    match self.operand_stack.push(Value::bool(b)) {
                        Ok(()) => {},
                        Err(e) => {
                            return Err(e);
                        },
                    }
                },
                Bytecode::FreezeRef => {
                    // No mutability distinction at runtime: freezing is a
                    // no-op.
                },
            _ => {
                return Err(VMStatus::new(StatusCode::UnknownInvariantViolationError));
            },
        }
        Ok(InstrResult::Next)
    }

    /// Execute the semantics of one instruction, after its cost has been
    /// charged and the program counter advanced.
    #[verifier::rlimit(100)]
    #[verifier::spinoff_prover]
    fn execute_instruction<R: RemoteCache>(
        &mut self,
        frame: &mut Frame<'txn>,
        instruction: Bytecode,
        data_view: &mut TransactionDataCache<R>,
        event_data: &mut Vec<ContractEvent>,
    ) -> (r: VMResult<InstrResult>)
        requires
            old(self).wf(),
            old(frame).valid(),
        ensures
            final(self).wf(),
            final(self).gas_left() <= old(self).gas_left(),
            !old(self).gas_meter().metering() ==> final(self).gas_left() == old(self).gas_left(),
            final(self).steps() == old(self).steps(),
            final(self).call_depth() == old(self).call_depth(),
            final(frame).function == old(frame).function,
            final(frame).valid(),
            final(self).gas_meter().table() == old(self).gas_meter().table(),
            final(self).gas_meter().metering() == old(self).gas_meter().metering(),
            forall|a: crate::types::AccessPathV| #[trigger]
                final(data_view).spec_remote(a) == old(data_view).spec_remote(a),
            spec_is_value_instr(instruction) ==> value_instr_spec(
                instruction,
                old(self).operand_stack()@,
                final(self).operand_stack()@,
                r,
            ),
            spec_is_value_instr(instruction) ==> final(self).gas_left() == old(self).gas_left(),
            spec_is_value_instr(instruction) ==> (final(frame).pc == old(frame).pc && final(frame).locals@ == old(frame).locals@),
            instruction is Ret ==> (r matches Ok(InstrResult::Exit(e)) && e is Return && final(self).operand_stack()@ == old(self).operand_stack()@ && final(frame).locals@ == old(frame).locals@ && final(data_view).slots() == old(data_view).slots() && final(self).gas_left() == old(self).gas_left() && final(event_data)@ == old(event_data)@),
            instruction matches Bytecode::Call(fh, ta) ==> (r matches Ok(InstrResult::Exit(e))
                && e == ExitCode::Call(fh, ta) && final(self).operand_stack()@ == old(self).operand_stack()@),
            instruction is CreateAccount ==> (r matches Ok(InstrResult::Exit(e)) && e
                is CreateAccount && final(self).operand_stack()@ == old(self).operand_stack()@),    {
        match instruction {
                Bytecode::Pop
                | Bytecode::LdConst(_)
                | Bytecode::LdTrue
                | Bytecode::LdFalse
                | Bytecode::Add
                | Bytecode::Sub
                | Bytecode::Mul
                | Bytecode::Mod
                | Bytecode::Div
                | Bytecode::BitOr
                | Bytecode::BitAnd
                | Bytecode::Xor
                | Bytecode::Or
                | Bytecode::And
                | Bytecode::Lt
                | Bytecode::Gt
                | Bytecode::Le
                | Bytecode::Ge
                | Bytecode::Not
                | Bytecode::Abort
                | Bytecode::Eq
                | Bytecode::Neq
                | Bytecode::FreezeRef => {
                    return self.execute_value_instruction(instruction, data_view);
                },
                Bytecode::Ret => {
                    return Ok(InstrResult::Exit(ExitCode::Return));
                },
                Bytecode::BrTrue(offset) => {
                    let b = match self.operand_stack.pop() {
                        Ok(v) => match v.into_bool() {
                            Ok(b) => b,
                            Err(e) => {
                                return Err(e);
                            },
                        },
                        Err(e) => {
                            return Err(e);
                        },
                    };
                    if b {
                        frame.pc = offset;
                    }
                },
                Bytecode::BrFalse(offset) => {
                    let b = match self.operand_stack.pop() {
                        Ok(v) => match v.into_bool() {
                            Ok(b) => b,
                            Err(e) => {
                                return Err(e);
                            },
                        },
                        Err(e) => {
                            return Err(e);
                        },
                    };
                    if !b {
                        frame.pc = offset;
                    }
                },
                Bytecode::Branch(offset) => {
                    frame.pc = offset;
                },
                Bytecode::LdAddr(idx) => {
                    let m = frame.module();
                    if (idx as usize) >= m.address_pool.len() {
                        return Err(VMStatus::new(StatusCode::VerifierInvariantViolation));
                    }
                    let a = m.address_pool[idx as usize].clone();
                    match self.operand_stack.push(Value::address(a)) {
                        Ok(()) => {},
                        Err(e) => {
                            return Err(e);
                        },
                    }
                },
                Bytecode::LdStr(idx) => {
                    let m = frame.module();
                    if (idx as usize) >= m.user_strings.len() {
                        return Err(VMStatus::new(StatusCode::VerifierInvariantViolation));
                    }
                    let s = m.user_strings[idx as usize].clone();
                    match self.operand_stack.push(Value::string(s)) {
                        Ok(()) => {},
                        Err(e) => {
                            return Err(e);
                        },
                    }
                },
                Bytecode::LdByteArray(idx) => {
                    let m = frame.module();
                    if (idx as usize) >= m.byte_array_pool.len() {
                        return Err(VMStatus::new(StatusCode::VerifierInvariantViolation));
                    }
                    let bytes = crate::types::clone_bytes(&m.byte_array_pool[idx as usize]);
                    match self.operand_stack.push(Value::byte_array(bytes)) {
                        Ok(()) => {},
                        Err(e) => {
                            return Err(e);
                        },
                    }
                },
                Bytecode::CopyLoc(idx) => {
                    let v = match frame.locals.copy_loc(idx as usize) {
                        Ok(v) => v,
                        Err(e) => {
                            return Err(e);
                        },
                    };
                    match retain_value_refs(&v, data_view) {
                        Ok(()) => {},
                        Err(e) => {
                            return Err(e);
                        },
                    }
                    match self.operand_stack.push(v) {
                        Ok(()) => {},
                        Err(e) => {
                            return Err(e);
                        },
                    }
                },
                Bytecode::MoveLoc(idx) => {
                    let v = match frame.locals.move_loc(idx as usize) {
                        Ok(v) => v,
                        Err(e) => {
                            return Err(e);
                        },
                    };
                    match self.operand_stack.push(v) {
                        Ok(()) => {},
                        Err(e) => {
                            return Err(e);
                        },
                    }
                },
                Bytecode::StLoc(idx) => {
                    let v = match self.operand_stack.pop() {
                        Ok(v) => v,
                        Err(e) => {
                            return Err(e);
                        },
                    };
                    if frame.locals.is_valid(idx as usize) {
                        let old_v = match frame.locals.copy_loc(idx as usize) {
                            Ok(v) => v,
                            Err(e) => {
                                return Err(e);
                            },
                        };
                        match release_value_refs(&old_v, data_view) {
                            Ok(()) => {},
                            Err(e) => {
                                return Err(e);
                            },
                        }
                    }
                    match frame.locals.store_loc(idx as usize, v) {
                        Ok(()) => {},
                        Err(e) => {
                            return Err(e);
                        },
                    }
                },
                Bytecode::Call(idx, type_actuals_idx) => {
                    return Ok(InstrResult::Exit(ExitCode::Call(idx, type_actuals_idx)));
                },
                Bytecode::MutBorrowLoc(idx) | Bytecode::ImmBorrowLoc(idx) => {
                    if !frame.locals.is_valid(idx as usize) {
                        return Err(VMStatus::new(StatusCode::VerificationError));
                    }
                    let reference = ReferenceValue::Local(
                        LocalRef {
                            frame_depth: self.call_stack.len(),
                            local_index: idx,
                            path: Vec::new(),
                        },
                    );
                    match self.operand_stack.push(Value::Reference(reference)) {
                        Ok(()) => {},
                        Err(e) => {
                            return Err(e);
                        },
                    }
                },
                Bytecode::ImmBorrowField(fd_idx) | Bytecode::MutBorrowField(fd_idx) => {
                    let m = frame.module();
                    if (fd_idx as usize) >= m.field_offsets.len() {
                        return Err(VMStatus::new(StatusCode::VerifierInvariantViolation));
                    }
                    let field_offset = m.field_offsets[fd_idx as usize];
                    let reference = match self.operand_stack.pop() {
                        Ok(v) => match v.into_reference() {
                            Ok(rv) => rv,
                            Err(e) => {
                                return Err(e);
                            },
                        },
                        Err(e) => {
                            return Err(e);
                        },
                    };
                    let extended = match reference {
                        ReferenceValue::Local(l) => {
                            let mut path = l.path;
                            path.push(field_offset);
                            ReferenceValue::Local(
                                LocalRef {
                                    frame_depth: l.frame_depth,
                                    local_index: l.local_index,
                                    path,
                                },
                            )
                        },
                        ReferenceValue::Global(g) => {
                            let mut path = g.path;
                            path.push(field_offset);
                            ReferenceValue::Global(GlobalRef { ap: g.ap, path })
                        },
                    };
                    match self.operand_stack.push(Value::Reference(extended)) {
                        Ok(()) => {},
                        Err(e) => {
                            return Err(e);
                        },
                    }
                },
                Bytecode::Pack(sd_idx, _) => {
                    let m = frame.module();
                    if (sd_idx as usize) >= m.struct_defs.len() {
                        return Err(VMStatus::new(StatusCode::VerifierInvariantViolation));
                    }
                    let field_count = m.struct_defs[sd_idx as usize].field_types.len();
                    if field_count > u16::MAX as usize {
                        return Err(VMStatus::new(StatusCode::VerifierInvariantViolation));
                    }
                    let args = match self.operand_stack.popn(field_count as u16) {
                        Ok(args) => args,
                        Err(e) => {
                            return Err(e);
                        },
                    };
                    match self.operand_stack.push(Value::struct_(Struct::new(args))) {
                        Ok(()) => {},
                        Err(e) => {
                            return Err(e);
                        },
                    }
                },
                Bytecode::Unpack(sd_idx, _) => {
                    let s = match self.operand_stack.pop() {
                        Ok(v) => match v.into_struct() {
                            Ok(s) => s,
                            Err(e) => {
                                return Err(e);
                            },
                        },
                        Err(e) => {
                            return Err(e);
                        },
                    };
                    let count = s.field_count();
                    let mut idx: usize = 0;
                    while idx < count
                        invariant
                            self.wf(),
                            count == s@.len(),
                            frame.valid(),
                            frame.function == old(frame).function,
                            instruction is Unpack,
                            self.gas_meter() == old(self).gas_meter(),
                            self.steps_left == old(self).steps(),
                            self.call_depth() == old(self).call_depth(),
                            forall|a: crate::types::AccessPathV| #[trigger]
                                data_view.spec_remote(a) == old(data_view).spec_remote(a),
                        decreases count - idx,
                    {
                        let field = match s.get_field_value(idx) {
                            Ok(v) => v,
                            Err(e) => {
                                return Err(e);
                            },
                        };
                        match self.operand_stack.push(field) {
                            Ok(()) => {},
                            Err(e) => {
                                return Err(e);
                            },
                        }
                        idx += 1;
                    }
                },
                Bytecode::ReadRef => {
                    let reference = match self.operand_stack.pop() {
                        Ok(v) => match v.into_reference() {
                            Ok(rv) => rv,
                            Err(e) => {
                                return Err(e);
                            },
                        },
                        Err(e) => {
                            return Err(e);
                        },
                    };
                    let value = match &reference {
                        ReferenceValue::Local(l) => {
                            let read = if l.frame_depth == self.call_stack.len() {
                                frame.read_local_at(l.local_index, &l.path)
                            } else {
                                self.call_stack.read_local_at(l.frame_depth, l.local_index, &l.path)
                            };
                            match read {
                                Ok(v) => v,
                                Err(e) => {
                                    return Err(e);
                                },
                            }
                        },
                        ReferenceValue::Global(g) => {
                            let read = data_view.read_resource_at(&g.ap, &g.path);
                            let v = match read {
                                Ok(v) => v,
                                Err(e) => {
                                    return Err(e);
                                },
                            };
                            match data_view.release_borrow(&g.ap) {
                                Ok(()) => {},
                                Err(e) => {
                                    return Err(e);
                                },
                            }
                            v
                        },
                    };
                    match self.operand_stack.push(value) {
                        Ok(()) => {},
                        Err(e) => {
                            return Err(e);
                        },
                    }
                },
                Bytecode::WriteRef => {
                    let reference = match self.operand_stack.pop() {
                        Ok(v) => match v.into_reference() {
                            Ok(rv) => rv,
                            Err(e) => {
                                return Err(e);
                            },
                        },
                        Err(e) => {
                            return Err(e);
                        },
                    };
                    let value = match self.operand_stack.pop() {
                        Ok(v) => v,
                        Err(e) => {
                            return Err(e);
                        },
                    };
                    match &reference {
                        ReferenceValue::Local(l) => {
                            let write = if l.frame_depth == self.call_stack.len() {
                                frame.write_local_at(l.local_index, &l.path, value)
                            } else {
                                self.call_stack.write_local_at(
                                    l.frame_depth,
                                    l.local_index,
                                    &l.path,
                                    value,
                                )
                            };
                            match write {
                                Ok(()) => {},
                                Err(e) => {
                                    return Err(e);
                                },
                            }
                        },
                        ReferenceValue::Global(g) => {
                            let old_size = {
                                let old_value = match data_view.read_resource_at(&g.ap, &g.path) {
                                    Ok(v) => v,
                                    Err(e) => {
                                        return Err(e);
                                    },
                                };
                                match old_value.size() {
                                    Ok(s) => s,
                                    Err(e) => {
                                        return Err(e);
                                    },
                                }
                            };
                            let new_size = match value.size() {
                                Ok(s) => s,
                                Err(e) => {
                                    return Err(e);
                                },
                            };
                            match charge_possible_global_write(
                                &mut self.gas_meter,
                                &reference,
                                old_size,
                                new_size,
                            ) {
                                Ok(()) => {},
                                Err(e) => {
                                    return Err(e);
                                },
                            }
                            match data_view.write_resource_at(&g.ap, &g.path, value) {
                                Ok(()) => {},
                                Err(e) => {
                                    return Err(e);
                                },
                            }
                            match data_view.release_borrow(&g.ap) {
                                Ok(()) => {},
                                Err(e) => {
                                    return Err(e);
                                },
                            }
                        },
                    }
                },
                Bytecode::GetTxnGasUnitPrice => {
                    let price = self.txn_data.gas_unit_price().0;
                    match self.operand_stack.push(Value::u64(price)) {
                        Ok(()) => {},
                        Err(e) => {
                            return Err(e);
                        },
                    }
                },
                Bytecode::GetTxnMaxGasUnits => {
                    let max = self.txn_data.max_gas_amount().0;
                    match self.operand_stack.push(Value::u64(max)) {
                        Ok(()) => {},
                        Err(e) => {
                            return Err(e);
                        },
                    }
                },
                Bytecode::GetTxnSequenceNumber => {
                    let n = self.txn_data.sequence_number();
                    match self.operand_stack.push(Value::u64(n)) {
                        Ok(()) => {},
                        Err(e) => {
                            return Err(e);
                        },
                    }
                },
                Bytecode::GetTxnSenderAddress => {
                    let sender = self.txn_data.sender();
                    match self.operand_stack.push(Value::address(sender)) {
                        Ok(()) => {},
                        Err(e) => {
                            return Err(e);
                        },
                    }
                },
                Bytecode::GetTxnPublicKey => {
                    let key = crate::types::clone_bytes(&self.txn_data.public_key);
                    match self.operand_stack.push(Value::byte_array(key)) {
                        Ok(()) => {},
                        Err(e) => {
                            return Err(e);
                        },
                    }
                },
                Bytecode::GetGasRemaining => {
                    let remaining = self.gas_meter.remaining_gas().0;
                    match self.operand_stack.push(Value::u64(remaining)) {
                        Ok(()) => {},
                        Err(e) => {
                            return Err(e);
                        },
                    }
                },
                Bytecode::MutBorrowGlobal(idx, _) | Bytecode::ImmBorrowGlobal(idx, _) => {
                    let addr = match self.operand_stack.pop() {
                        Ok(v) => match v.into_address() {
                            Ok(a) => a,
                            Err(e) => {
                                return Err(e);
                            },
                        },
                        Err(e) => {
                            return Err(e);
                        },
                    };
                    let size = match self.op_borrow_global(frame.module(), idx, addr, data_view) {
                        Ok(s) => s,
                        Err(e) => {
                            return Err(e);
                        },
                    };
                    match self.gas_meter.calculate_and_consume(&instruction, size) {
                        Ok(()) => {},
                        Err(e) => {
                            return Err(e);
                        },
                    }
                },
                Bytecode::Exists(idx, _) => {
                    let addr = match self.operand_stack.pop() {
                        Ok(v) => match v.into_address() {
                            Ok(a) => a,
                            Err(e) => {
                                return Err(e);
                            },
                        },
                        Err(e) => {
                            return Err(e);
                        },
                    };
                    let size = match self.op_exists(frame.module(), idx, addr, data_view) {
                        Ok(s) => s,
                        Err(e) => {
                            return Err(e);
                        },
                    };
                    match self.gas_meter.calculate_and_consume(&instruction, size) {
                        Ok(()) => {},
                        Err(e) => {
                            return Err(e);
                        },
                    }
                },
                Bytecode::MoveFrom(idx, _) => {
                    let addr = match self.operand_stack.pop() {
                        Ok(v) => match v.into_address() {
                            Ok(a) => a,
                            Err(e) => {
                                return Err(e);
                            },
                        },
                        Err(e) => {
                            return Err(e);
                        },
                    };
                    let size = match self.op_move_from(frame.module(), idx, addr, data_view) {
                        Ok(s) => s,
                        Err(e) => {
                            return Err(e);
                        },
                    };
                    match self.gas_meter.calculate_and_consume(&instruction, size) {
                        Ok(()) => {},
                        Err(e) => {
                            return Err(e);
                        },
                    }
                },
                Bytecode::MoveToSender(idx, _) => {
                    let addr = self.txn_data.sender();
                    let size = match self.op_move_to_sender(frame.module(), idx, addr, data_view) {
                        Ok(s) => s,
                        Err(e) => {
                            return Err(e);
                        },
                    };
                    match self.gas_meter.calculate_and_consume(&instruction, size) {
                        Ok(()) => {},
                        Err(e) => {
                            return Err(e);
                        },
                    }
                },
                Bytecode::CreateAccount => {
                    return Ok(InstrResult::Exit(ExitCode::CreateAccount));
                },
            }
        Ok(InstrResult::Next)
    }

    /// Resolve the struct definition a global-storage instruction names.
    fn resolve_global_struct(&self, module: &LoadedModule, idx: StructDefinitionIndex) -> (r:
        VMResult<StructDef>)
        ensures
            match self.spec_resolved_struct(*module, idx as int) {
                Some(d) => r matches Ok(rd) && rd@ == d,
                None => r is Err && r->Err_0.major_status == StatusCode::LinkerError
                    && r->Err_0.sub_status is None,
            },
    {
        match self.module_cache.resolve_struct_def(module, idx) {
            Some(def) => Ok(def),
            None => Err(VMStatus::new(StatusCode::LinkerError)),
        }
    }

    /// The borrow-global instruction: push a reference to the resource at
    /// the popped address and report its size for gas charging.
    fn op_borrow_global<R: RemoteCache>(
        &mut self,
        module: &LoadedModule,
        idx: StructDefinitionIndex,
        addr: AccountAddress,
        data_view: &mut TransactionDataCache<R>,
    ) -> (r: VMResult<AbstractMemorySize>)
        requires
            old(self).wf(),
        ensures
            final(self).wf(),
            final(self).gas_left() == old(self).gas_left(),
            final(self).steps() == old(self).steps(),
            final(self).call_depth() == old(self).call_depth(),
            final(self).gas_meter() == old(self).gas_meter(),
            old(self).spec_resolved_struct(*module, idx as int) is None ==> r is Err
                && r->Err_0.major_status == StatusCode::LinkerError,
            ({
                let resolved = old(self).spec_resolved_struct(*module, idx as int);
                let apo = spec_resource_access_path(*module, idx as int, addr@);
                let s = old(self).operand_stack()@;
                resolved matches Some(d) ==> (apo matches Some(apv) ==> {
                    let outcome = crate::data_cache::spec_load(
                        old(data_view).slots(),
                        apv,
                        old(data_view).spec_remote(apv),
                        d,
                    );
                    let s1 = crate::data_cache::spec_after_load(
                        old(data_view).slots(),
                        apv,
                        old(data_view).spec_remote(apv),
                        d,
                    );
                    let i = crate::data_cache::spec_load_index(
                        old(data_view).slots(),
                        apv,
                        old(data_view).spec_remote(apv),
                        d,
                    );
                    &&& outcome is Missing ==> r is Err && r->Err_0.major_status
                        == StatusCode::MissingData
                    &&& (outcome is Found || outcome is Loaded) ==> ({
                        let slot = s1[i];
                        let v = match slot.state {
                            crate::data_cache::SlotStateV::Clean(v) => v,
                            crate::data_cache::SlotStateV::Dirty(v) => v,
                            crate::data_cache::SlotStateV::Deleted => ValueV::Bool(false),
                        };
                        (!(slot.state is Deleted) && crate::values::spec_size(v) <= u64::MAX
                            && slot.borrows < u64::MAX && s.len() < OPERAND_STACK_SIZE_LIMIT)
                            ==> (r matches Ok(size) && size.0 == crate::values::spec_size(v)
                            && final(self).operand_stack()@ == s.push(
                            ValueV::Reference(
                                ReferenceValueV::Global { ap: apv, path: Seq::empty() },
                            ),
                        ))
                    })
                })
            }),
            forall|a: crate::types::AccessPathV| #[trigger]
                final(data_view).spec_remote(a) == old(data_view).spec_remote(a),
    {
        let def = match self.resolve_global_struct(module, idx) {
            Ok(def) => def,
            Err(e) => {
                return Err(e);
            },
        };
        let ap = match make_access_path(module, idx, addr) {
            Ok(ap) => ap,
            Err(e) => {
                return Err(e);
            },
        };
        let (global_ref, size) = match data_view.borrow_global(&ap, &def) {
            Ok(x) => x,
            Err(e) => {
                return Err(e);
            },
        };
        match self.operand_stack.push(Value::global_ref(global_ref)) {
            Ok(()) => Ok(size),
            Err(e) => Err(e),
        }
    }

    /// The exists instruction: push whether a resource lives at the popped
    /// address and report its size for gas charging.
    fn op_exists<R: RemoteCache>(
        &mut self,
        module: &LoadedModule,
        idx: StructDefinitionIndex,
        addr: AccountAddress,
        data_view: &mut TransactionDataCache<R>,
    ) -> (r: VMResult<AbstractMemorySize>)
        requires
            old(self).wf(),
        ensures
            final(self).wf(),
            final(self).gas_left() == old(self).gas_left(),
            final(self).steps() == old(self).steps(),
            final(self).call_depth() == old(self).call_depth(),
            final(self).gas_meter() == old(self).gas_meter(),
            old(self).spec_resolved_struct(*module, idx as int) is None ==> r is Err
                && r->Err_0.major_status == StatusCode::LinkerError,
            ({
                let resolved = old(self).spec_resolved_struct(*module, idx as int);
                let apo = spec_resource_access_path(*module, idx as int, addr@);
                let s = old(self).operand_stack()@;
                resolved matches Some(d) ==> (apo matches Some(apv) ==> {
                    let outcome = crate::data_cache::spec_load(
                        old(data_view).slots(),
                        apv,
                        old(data_view).spec_remote(apv),
                        d,
                    );
                    let s1 = crate::data_cache::spec_after_load(
                        old(data_view).slots(),
                        apv,
                        old(data_view).spec_remote(apv),
                        d,
                    );
                    let i = crate::data_cache::spec_load_index(
                        old(data_view).slots(),
                        apv,
                        old(data_view).spec_remote(apv),
                        d,
                    );
                    &&& (outcome is Missing && s.len() < OPERAND_STACK_SIZE_LIMIT) ==> (r
                        matches Ok(size) && size.0 == 0 && final(self).operand_stack()@ == s.push(
                        ValueV::Bool(false),
                    ))
                    &&& (outcome is Found || outcome is Loaded) ==> ({
                        let slot = s1[i];
                        let v = match slot.state {
                            crate::data_cache::SlotStateV::Clean(v) => v,
                            crate::data_cache::SlotStateV::Dirty(v) => v,
                            crate::data_cache::SlotStateV::Deleted => ValueV::Bool(false),
                        };
                        (!(slot.state is Deleted) && crate::values::spec_size(v) <= u64::MAX
                            && s.len() < OPERAND_STACK_SIZE_LIMIT) ==> (r matches Ok(size)
                            && size.0 == crate::values::spec_size(v) && final(
                            self).operand_stack()@ == s.push(ValueV::Bool(true)))
                    })
                })
            }),
            forall|a: crate::types::AccessPathV| #[trigger]
                final(data_view).spec_remote(a) == old(data_view).spec_remote(a),
    {
        let def = match self.resolve_global_struct(module, idx) {
            Ok(def) => def,
            Err(e) => {
                return Err(e);
            },
        };
        let ap = match make_access_path(module, idx, addr) {
            Ok(ap) => ap,
            Err(e) => {
                return Err(e);
            },
        };
        let (exists, mem_size) = match data_view.resource_exists(&ap, &def) {
            Ok(x) => x,
            Err(e) => {
                return Err(e);
            },
        };
        match self.operand_stack.push(Value::bool(exists)) {
            Ok(()) => Ok(mem_size),
            Err(e) => Err(e),
        }
    }

    /// The move-from instruction: move the resource at the popped address
    /// out of global storage onto the stack.
    fn op_move_from<R: RemoteCache>(
        &mut self,
        module: &LoadedModule,
        idx: StructDefinitionIndex,
        addr: AccountAddress,
        data_view: &mut TransactionDataCache<R>,
    ) -> (r: VMResult<AbstractMemorySize>)
        requires
            old(self).wf(),
        ensures
            final(self).wf(),
            final(self).gas_left() == old(self).gas_left(),
            final(self).steps() == old(self).steps(),
            final(self).call_depth() == old(self).call_depth(),
            final(self).gas_meter() == old(self).gas_meter(),
            old(self).spec_resolved_struct(*module, idx as int) is None ==> r is Err
                && r->Err_0.major_status == StatusCode::LinkerError,
            ({
                let resolved = old(self).spec_resolved_struct(*module, idx as int);
                let apo = spec_resource_access_path(*module, idx as int, addr@);
                let s = old(self).operand_stack()@;
                resolved matches Some(d) ==> (apo matches Some(apv) ==> {
                    let outcome = crate::data_cache::spec_load(
                        old(data_view).slots(),
                        apv,
                        old(data_view).spec_remote(apv),
                        d,
                    );
                    let s1 = crate::data_cache::spec_after_load(
                        old(data_view).slots(),
                        apv,
                        old(data_view).spec_remote(apv),
                        d,
                    );
                    let i = crate::data_cache::spec_load_index(
                        old(data_view).slots(),
                        apv,
                        old(data_view).spec_remote(apv),
                        d,
                    );
                    &&& outcome is Missing ==> r is Err && r->Err_0.major_status
                        == StatusCode::MissingData
                    &&& (outcome is Found || outcome is Loaded) ==> ({
                        let slot = s1[i];
                        let v = match slot.state {
                            crate::data_cache::SlotStateV::Clean(v) => v,
                            crate::data_cache::SlotStateV::Dirty(v) => v,
                            crate::data_cache::SlotStateV::Deleted => ValueV::Bool(false),
                        };
                        &&& slot.state is Deleted ==> r is Err && r->Err_0.major_status
                            == StatusCode::MissingData
                        &&& (!(slot.state is Deleted) && slot.borrows > 0) ==> r is Err
                            && r->Err_0.major_status == StatusCode::DanglingReference
                        &&& (!(slot.state is Deleted) && slot.borrows == 0
                            && crate::values::spec_size(v) <= u64::MAX && s.len()
                            < OPERAND_STACK_SIZE_LIMIT) ==> (r matches Ok(size) && size.0
                            == crate::values::spec_size(v) && final(self).operand_stack()@
                            == s.push(v))
                    })
                })
            }),
            forall|a: crate::types::AccessPathV| #[trigger]
                final(data_view).spec_remote(a) == old(data_view).spec_remote(a),
    {
        let def = match self.resolve_global_struct(module, idx) {
            Ok(def) => def,
            Err(e) => {
                return Err(e);
            },
        };
        let ap = match make_access_path(module, idx, addr) {
            Ok(ap) => ap,
            Err(e) => {
                return Err(e);
            },
        };
        let resource = match data_view.move_resource_from(&ap, &def) {
            Ok(v) => v,
            Err(e) => {
                return Err(e);
            },
        };
        let size = match resource.size() {
            Ok(s) => s,
            Err(e) => {
                return Err(e);
            },
        };
        match self.operand_stack.push(resource) {
            Ok(()) => Ok(size),
            Err(e) => Err(e),
        }
    }

    /// The move-to-sender instruction: publish the popped resource under
    /// the transaction sender.
    fn op_move_to_sender<R: RemoteCache>(
        &mut self,
        module: &LoadedModule,
        idx: StructDefinitionIndex,
        addr: AccountAddress,
        data_view: &mut TransactionDataCache<R>,
    ) -> (r: VMResult<AbstractMemorySize>)
        requires
            old(self).wf(),
        ensures
            final(self).wf(),
            final(self).gas_left() == old(self).gas_left(),
            final(self).steps() == old(self).steps(),
            final(self).call_depth() == old(self).call_depth(),
            final(self).gas_meter() == old(self).gas_meter(),
            old(self).spec_resolved_struct(*module, idx as int) is None ==> r is Err
                && r->Err_0.major_status == StatusCode::LinkerError,
            ({
                let resolved = old(self).spec_resolved_struct(*module, idx as int);
                let apo = spec_resource_access_path(*module, idx as int, addr@);
                let s = old(self).operand_stack()@;
                resolved matches Some(d) ==> (apo matches Some(apv) ==> {
                    let outcome = crate::data_cache::spec_load(
                        old(data_view).slots(),
                        apv,
                        old(data_view).spec_remote(apv),
                        d,
                    );
                    let s1 = crate::data_cache::spec_after_load(
                        old(data_view).slots(),
                        apv,
                        old(data_view).spec_remote(apv),
                        d,
                    );
                    let i = crate::data_cache::spec_load_index(
                        old(data_view).slots(),
                        apv,
                        old(data_view).spec_remote(apv),
                        d,
                    );
                    (s.len() >= 1 && crate::values::spec_size(s.last()) <= u64::MAX) ==> (
                    s.last() matches ValueV::Struct(fields) ==> {
                        &&& (outcome is Found || outcome is Loaded) ==> r is Err
                            && r->Err_0.major_status == StatusCode::ResourceAlreadyExists
                        &&& outcome is Malformed ==> r is Err && r->Err_0.major_status
                            == StatusCode::DataFormatError
                        &&& outcome is Missing ==> (r matches Ok(size) && size.0
                            == crate::values::spec_size(s.last()) && final(
                            self).operand_stack()@ == s.drop_last() && final(data_view).slots()
                            == old(data_view).slots().push(
                            crate::data_cache::CacheSlotV {
                                ap: apv,
                                state: crate::data_cache::SlotStateV::Dirty(
                                    ValueV::Struct(fields),
                                ),
                                borrows: 0,
                            },
                        ))
                    })
                })
            }),
            forall|a: crate::types::AccessPathV| #[trigger]
                final(data_view).spec_remote(a) == old(data_view).spec_remote(a),
    {
        let def = match self.resolve_global_struct(module, idx) {
            Ok(def) => def,
            Err(e) => {
                return Err(e);
            },
        };
        let ap = match make_access_path(module, idx, addr) {
            Ok(ap) => ap,
            Err(e) => {
                return Err(e);
            },
        };
        let value = match self.operand_stack.pop() {
            Ok(v) => v,
            Err(e) => {
                return Err(e);
            },
        };
        let size = match value.size() {
            Ok(s) => s,
            Err(e) => {
                return Err(e);
            },
        };
        let resource = match value.into_struct() {
            Ok(s) => s,
            Err(e) => {
                return Err(e);
            },
        };
        match data_view.move_resource_to(&ap, &def, resource) {
            Ok(()) => Ok(size),
            Err(e) => Err(e),
        }
    }
}

} // verus!

verus! {

impl<'txn, P: ModuleCache> Interpreter<'txn, P> {
    /// Release the global references still held by the locals of a frame
    /// that is going away.
    fn release_frame_refs<R: RemoteCache>(
        frame: &Frame<'txn>,
        data_view: &mut TransactionDataCache<R>,
    ) -> (r: VMResult<()>)
        ensures
            forall|a: crate::types::AccessPathV| #[trigger]
                final(data_view).spec_remote(a) == old(data_view).spec_remote(a),
            (forall|k: int|
                0 <= k < frame.locals@.len() ==> ((#[trigger] frame.locals@[k]) matches Some(v)
                    ==> !(v is Reference))) ==> r is Ok && final(data_view).slots() == old(data_view).slots(),
    {
        let mut i: usize = 0;
        let len = frame.locals.len();
        while i < len
            invariant
                forall|a: crate::types::AccessPathV| #[trigger]
                    data_view.spec_remote(a) == old(data_view).spec_remote(a),
                (forall|k: int|
                    0 <= k < frame.locals@.len() ==> ((#[trigger] frame.locals@[k]) matches Some(v) ==> !(v is Reference))) ==> data_view.slots() == old(data_view).slots(),
            decreases len - i,
        {
            if frame.locals.is_valid(i) {
                let v = match frame.locals.copy_loc(i) {
                    Ok(v) => v,
                    Err(e) => {
                        return Err(e);
                    },
                };
                match release_value_refs(&v, data_view) {
                    Ok(()) => {},
                    Err(e) => {
                        return Err(e);
                    },
                }
            }
            i += 1;
        }
        Ok(())
    }

    /// Build the frame for a call, or run the callee inline when it is
    /// native. Arguments are popped into the callee's locals in reverse,
    /// so slot zero holds the first argument.
    fn make_call_frame<R: RemoteCache>(
        &mut self,
        module: &LoadedModule,
        idx: FunctionHandleIndex,
        type_actual_tags: Vec<TypeTag>,
        data_view: &mut TransactionDataCache<R>,
        event_data: &mut Vec<ContractEvent>,
    ) -> (r: VMResult<Option<Frame<'txn>>>)
        requires
            old(self).wf(),
        ensures
            final(self).wf(),
            final(self).gas_left() <= old(self).gas_left(),
            !old(self).gas_meter().metering() ==> final(self).gas_left() == old(self).gas_left(),
            final(self).steps() == old(self).steps(),
            final(self).call_depth() == old(self).call_depth(),
            final(self).gas_meter().table() == old(self).gas_meter().table(),
            final(self).gas_meter().metering() == old(self).gas_meter().metering(),
            r matches Ok(Some(f)) ==> f.valid(),
            old(self).spec_resolved_function(*module, idx as int) is None ==> r is Err
                && r->Err_0.major_status == StatusCode::LinkerError,
            old(self).spec_resolved_function(*module, idx as int) matches Some(t) ==> ({
                let def = t.0.function_defs@[t.1];
                let s = old(self).operand_stack()@;
                &&& def.is_native ==> (r is Err || (r matches Ok(o) && o is None))
                &&& (!def.is_native && s.len() >= def.arg_count && def.arg_count
                    <= def.local_count) ==> (r matches Ok(Some(f)) && *f.function.module == t.0
                    && f.function.idx == t.1 && f.pc == 0 && final(self).operand_stack()@
                    == s.take(s.len() - def.arg_count as int) && f.locals@.len()
                    == def.local_count && (forall|k: int|
                    0 <= k < def.arg_count ==> f.locals@[k] == Some(
                        s[s.len() - def.arg_count + k],
                    )) && (forall|k: int|
                    def.arg_count <= k < def.local_count ==> f.locals@[k] is None))
                &&& (!def.is_native && def.arg_count <= def.local_count && s.len()
                    < def.arg_count) ==> (r is Err && r->Err_0.major_status
                    == StatusCode::EmptyValueStack)
                &&& (!def.is_native && def.arg_count > def.local_count) ==> (r is Err && (s.len()
                    == 0 ==> r->Err_0.major_status == StatusCode::EmptyValueStack) && (s.len() > 0
                    ==> r->Err_0.major_status == StatusCode::VerifierInvariantViolation))
            }),
            forall|a: crate::types::AccessPathV| #[trigger]
                final(data_view).spec_remote(a) == old(data_view).spec_remote(a),
    {
        let func = match self.module_cache.resolve_function_ref(module, idx) {
            Some(f) => f,
            None => {
                return Err(VMStatus::new(StatusCode::LinkerError));
            },
        };
        if func.is_native() {
            match self.call_native(func, type_actual_tags, event_data) {
                Ok(()) => Ok(None),
                Err(e) => Err(e),
            }
        } else {
            let mut locals = Locals::new(func.local_count());
            let arg_count = func.arg_count();
            let local_count = func.local_count();
            let ghost s = old(self).operand_stack()@;
            let mut i: usize = 0;
            while i < arg_count
                invariant
                    self.wf(),
                    i <= arg_count,
                    self.gas_left() == old(self).gas_left(),
                    self.steps_left == old(self).steps(),
                    self.call_depth() == old(self).call_depth(),
                    self.gas_meter() == old(self).gas_meter(),
                    s == old(self).operand_stack()@,
                    old(self).spec_resolved_function(*module, idx as int) == Some(
                        (*func.module, func.idx as int),
                    ),
                    func.valid(),
                    !func.def().is_native,
                    arg_count == func.def().arg_count,
                    local_count == func.def().local_count,
                    locals@.len() == local_count,
                    s.len() >= i,
                    self.operand_stack()@ == s.take(s.len() - i),
                    arg_count <= local_count ==> (forall|k: int|
                        arg_count - i <= k < arg_count ==> locals@[k] == Some(
                            s[s.len() - arg_count + k],
                        )),
                    forall|k: int|
                        ((0 <= k < arg_count - i && k < local_count) || arg_count <= k
                            < local_count) ==> #[trigger] locals@[k] is None,
                    arg_count > local_count ==> i == 0,
                decreases arg_count - i,
            {
                let value = match self.operand_stack.pop() {
                    Ok(v) => v,
                    Err(e) => {
                        return Err(e);
                    },
                };
                let ghost v_view = value@;
                match locals.store_loc(arg_count - i - 1, value) {
                    Ok(()) => {},
                    Err(e) => {
                        return Err(e);
                    },
                }
                proof {
                    assert(v_view == s[s.len() - i - 1]);
                    assert(self.operand_stack()@ =~= s.take(s.len() - i - 1));
                }
                i += 1;
            }
            Ok(Some(Frame::new(func, type_actual_tags, locals)))
        }
    }

    /// Call a native function. This interpreter's native surface is
    /// narrowed to the one native the account module's entries need: the
    /// event module's `write_to_event_store`, which appends to the event
    /// list. A general native-function table would dispatch on the
    /// function's module and name here; every other native is treated as
    /// absent and fails to link, so callers see `LinkerError` rather than
    /// a partial effect.
    fn call_native(
        &mut self,
        function: FunctionRef<'txn>,
        type_actual_tags: Vec<TypeTag>,
        event_data: &mut Vec<ContractEvent>,
    ) -> (r: VMResult<()>)
        requires
            old(self).wf(),
            function.valid(),
        ensures
            final(self).wf(),
            final(self).gas_left() <= old(self).gas_left(),
            !old(self).gas_meter().metering() ==> final(self).gas_left() == old(self).gas_left(),
            final(self).steps() == old(self).steps(),
            final(self).call_depth() == old(self).call_depth(),
            final(self).gas_meter().table() == old(self).gas_meter().table(),
            final(self).gas_meter().metering() == old(self).gas_meter().metering(),
            !spec_is_event_native(function) ==> r is Err && r->Err_0.major_status
                == StatusCode::LinkerError,
            spec_is_event_native(function) ==> (r is Ok ==> final(event_data)@.len() == old(event_data)@.len() + 1),
    {
        let module = function.module();
        let def = &module.function_defs[function.idx];
        if (def.handle as usize) >= module.function_handles.len() {
            return Err(VMStatus::new(StatusCode::LinkerError));
        }
        let name_idx = module.function_handles[def.handle as usize].name;
        if (name_idx as usize) >= module.identifiers.len() {
            return Err(VMStatus::new(StatusCode::LinkerError));
        }
        let event_module = crate::account_config::event_module_id();
        let emit_name = crate::account_config::emit_event_name();
        let is_event_store = module.id.equals(&event_module) && module.identifiers[name_idx
            as usize].equals(&emit_name);
        if is_event_store {
            self.call_emit_event(type_actual_tags, event_data)
        } else {
            Err(VMStatus::new(StatusCode::LinkerError))
        }
    }

    /// The event-store native: pop the payload, its per-key counter and
    /// the event key, and append the event. The payload is serialized in
    /// the canonical encoding; a key of the wrong shape is rejected.
    fn call_emit_event(
        &mut self,
        type_actual_tags: Vec<TypeTag>,
        event_data: &mut Vec<ContractEvent>,
    ) -> (r: VMResult<()>)
        requires
            old(self).wf(),
        ensures
            final(self).wf(),
            final(self).gas_left() == old(self).gas_left(),
            final(self).steps() == old(self).steps(),
            final(self).call_depth() == old(self).call_depth(),
            final(self).gas_meter() == old(self).gas_meter(),
            r is Ok ==> final(event_data)@.len() == old(event_data)@.len() + 1,
            r is Err ==> final(event_data)@ == old(event_data)@,
            type_actual_tags@.len() != 1 ==> r is Err && r->Err_0.major_status
                == StatusCode::VerifierInvariantViolation && final(self).operand_stack()@ == old(
                self).operand_stack()@,
            ({
                let s = old(self).operand_stack()@;
                (type_actual_tags@.len() == 1 && s.len() >= 3) ==> ({
                    let msg = s.last();
                    let count = s[s.len() - 2];
                    let key = s[s.len() - 3];
                    let payload = crate::canonical::spec_serialize(msg);
                    &&& payload is None ==> r is Err && r->Err_0.major_status
                        == StatusCode::DataFormatError
                    &&& (payload is Some && !(count is U64)) ==> r is Err
                        && r->Err_0.major_status == StatusCode::InternalTypeError
                    &&& (payload is Some && count is U64 && !(key is ByteArray)) ==> r is Err
                        && r->Err_0.major_status == StatusCode::InternalTypeError
                    &&& (payload is Some && count is U64) ==> (key matches ValueV::ByteArray(kb)
                        ==> {
                        &&& kb.len() != EVENT_KEY_LENGTH ==> r is Err && r->Err_0.major_status
                            == StatusCode::EventKeyMismatch
                        &&& kb.len() == EVENT_KEY_LENGTH ==> r is Ok && final(
                            self).operand_stack()@ == s.take(s.len() - 3) && final(event_data)@.last()@ == (crate::events::ContractEventV {
                            key: kb,
                            sequence_number: count->U64_0,
                            type_tag: type_actual_tags@[0]@,
                            event_data: payload->0,
                        })
                    })
                })
            }),
    {
        let mut tags = type_actual_tags;
        if tags.len() != 1 {
            return Err(VMStatus::new(StatusCode::VerifierInvariantViolation));
        }
        let type_tag = match tags.pop() {
            Some(t) => t,
            None => {
                return Err(VMStatus::new(StatusCode::VerifierInvariantViolation));
            },
        };
        let msg_value = match self.operand_stack.pop() {
            Ok(v) => v,
            Err(e) => {
                return Err(e);
            },
        };
        let msg = match msg_value.simple_serialize() {
            Some(bytes) => bytes,
            None => {
                return Err(VMStatus::new(StatusCode::DataFormatError));
            },
        };
        let count = match self.operand_stack.pop() {
            Ok(v) => match v.into_u64() {
                Ok(x) => x,
                Err(e) => {
                    return Err(e);
                },
            },
            Err(e) => {
                return Err(e);
            },
        };
        let key = match self.operand_stack.pop() {
            Ok(v) => match v.into_byte_array() {
                Ok(bytes) => bytes,
                Err(e) => {
                    return Err(e);
                },
            },
            Err(e) => {
                return Err(e);
            },
        };
        if key.len() != EVENT_KEY_LENGTH {
            return Err(VMStatus::new(StatusCode::EventKeyMismatch));
        }
        event_data.push(crate::events::ContractEvent::new(key, count, type_tag, msg));
        Ok(())
    }

    /// The failure the first instruction of an invoked function produces
    /// from the operand stack alone, provided loading the arguments,
    /// fetching and charging succeed: what driving the function surfaces
    /// before anything else runs.
    pub open spec fn spec_entry_def_error(
        &self,
        def: crate::module::FunctionDefinition,
        nargs: int,
    ) -> Option<(StatusCode, Option<u64>)> {
        let code = def.code@;
        if nargs <= def.local_count && self.steps() > 0 && code.len() > 0 && (
        !self.gas_meter().metering() || crate::gas_meter::spec_instruction_cost(
            self.gas_meter().table(),
            code[0],
            1,
        ) <= self.gas_left()) {
            spec_instr_immediate_error(code[0], self.operand_stack()@)
        } else {
            None
        }
    }

    /// The same failure, named through the function reference driven.
    pub open spec fn spec_entry_error(&self, function: FunctionRef<'txn>, nargs: int) -> Option<
        (StatusCode, Option<u64>),
    > {
        self.spec_entry_def_error(function.def(), nargs)
    }

    /// Whether an invoked function returns at once: no arguments, a body
    /// of one return instruction, and the charge for it payable.
    pub open spec fn spec_entry_def_trivial_return(
        &self,
        def: crate::module::FunctionDefinition,
        nargs: int,
    ) -> bool {
        let code = def.code@;
        &&& nargs == 0
        &&& self.steps() > 0
        &&& code.len() == 1
        &&& code[0] is Ret
        &&& (!self.gas_meter().metering() || crate::gas_meter::spec_instruction_cost(
            self.gas_meter().table(),
            code[0],
            1,
        ) <= self.gas_left())
    }

    /// The same immediate return, named through the function reference
    /// driven.
    pub open spec fn spec_entry_trivial_return(
        &self,
        function: FunctionRef<'txn>,
        nargs: int,
    ) -> bool {
        self.spec_entry_def_trivial_return(function.def(), nargs)
    }

    /// The main loop of one invocation: drive the current frame through
    /// `execute_code_unit`, suspending it on calls and resuming callers on
    /// returns, until the activation that entered at `create_account_marker`
    /// frames deep returns.
    fn execute_main<R: RemoteCache>(
        &mut self,
        function: FunctionRef<'txn>,
        args: Vec<Value>,
        create_account_marker: usize,
        data_view: &mut TransactionDataCache<R>,
        event_data: &mut Vec<ContractEvent>,
    ) -> (r: VMResult<()>)
        requires
            old(self).wf(),
            function.valid(),
            create_account_marker == old(self).call_depth(),
        ensures
            final(self).wf(),
            final(self).gas_left() <= old(self).gas_left(),
            final(self).steps() <= old(self).steps(),
            final(self).gas_meter().table() == old(self).gas_meter().table(),
            final(self).gas_meter().metering() == old(self).gas_meter().metering(),
            !old(self).gas_meter().metering() ==> final(self).gas_left() == old(self).gas_left(),
            r is Ok ==> final(self).call_depth() == old(self).call_depth(),
            old(self).spec_entry_error(function, args@.len() as int) matches Some(es) ==> (r
                is Err && r->Err_0.major_status == es.0 && r->Err_0.sub_status == es.1),
            old(self).spec_entry_trivial_return(function, args@.len() as int) ==> (r is Ok
                && final(self).operand_stack()@ == old(self).operand_stack()@ && final(data_view).slots() == old(data_view).slots() && final(event_data)@ == old(event_data)@),
            (args@.len() <= function.def().local_count && (forall|k: int|
                0 <= k < args@.len() ==> !((#[trigger] args@[k])@ is Reference))) ==> (
            spec_run_values(
                old(self).gas_meter().table(),
                old(self).gas_meter().metering(),
                function.def().code@,
                0,
                old(self).operand_stack()@,
                old(self).gas_left(),
                old(self).steps(),
            ) matches Some(o) ==> ({
                &&& o.0 matches Err(es) ==> (r is Err && r->Err_0.major_status == es.0
                    && r->Err_0.sub_status == es.1)
                &&& o.0 is Ok ==> r is Ok
                &&& final(self).operand_stack()@ == o.1
                &&& final(self).gas_left() == o.2
                &&& final(self).steps() == o.3
            })),
            forall|a: crate::types::AccessPathV| #[trigger]
                final(data_view).spec_remote(a) == old(data_view).spec_remote(a),
        decreases self.steps_left, 0nat,
    {
        let ghost nargs = args@.len() as int;
        let mut locals = Locals::new(function.local_count());
        let mut rem_args = args;
        let arg_len = rem_args.len();
        let mut i: usize = 0;
        while i < arg_len
            invariant
                self.wf(),
                i <= arg_len,
                nargs == arg_len,
                nargs == args@.len(),
                rem_args@.len() == arg_len - i,
                self == old(self),
                locals@.len() == function.def().local_count,
                i > 0 ==> arg_len <= function.def().local_count,
                arg_len == 0 ==> (forall|k: int|
                    0 <= k < locals@.len() ==> #[trigger] locals@[k] is None),
                forall|j: int| 0 <= j < rem_args@.len() ==> #[trigger] rem_args@[j] == args@[j],
                forall|k: int|
                    0 <= k < locals@.len() ==> ((#[trigger] locals@[k]) matches Some(v) ==> (
                    exists|j: int| 0 <= j < args@.len() && v == (#[trigger] args@[j])@)),
            decreases arg_len - i,
        {
            let value = match rem_args.pop() {
                Some(v) => v,
                None => {
                    return Err(VMStatus::new(StatusCode::VerifierInvariantViolation));
                },
            };
            match locals.store_loc(rem_args.len(), value) {
                Ok(()) => {},
                Err(e) => {
                    return Err(e);
                },
            }
            i += 1;
        }
        proof {
            if forall|k: int| 0 <= k < args@.len() ==> !((#[trigger] args@[k])@ is Reference) {
                assert(forall|k: int|
                    0 <= k < locals@.len() ==> ((#[trigger] locals@[k]) matches Some(v) ==> !(
                    v is Reference)));
            }
        }
        let mut current_frame = Frame::new(function, Vec::new(), locals);
        let mut first = true;
        loop
            invariant
                self.wf(),
                current_frame.valid(),
                self.call_depth() >= create_account_marker,
                create_account_marker == old(self).call_depth(),
                self.gas_left() <= old(self).gas_left(),
                self.steps_left <= old(self).steps(),
                self.gas_meter().table() == old(self).gas_meter().table(),
                self.gas_meter().metering() == old(self).gas_meter().metering(),
                !old(self).gas_meter().metering() ==> self.gas_left() == old(self).gas_left(),
                first ==> self == old(self) && current_frame.function == function
                    && current_frame.pc == 0 && data_view.slots() == old(data_view).slots()
                    && event_data@ == old(event_data)@,
                first && nargs == 0 ==> (forall|k: int|
                    0 <= k < current_frame.locals@.len() ==> #[trigger] current_frame.locals@[k]
                        is None),
                nargs == args@.len(),
                first ==> nargs <= function.def().local_count,
                (first && (forall|k: int|
                    0 <= k < args@.len() ==> !((#[trigger] args@[k])@ is Reference))) ==> (
                forall|k: int|
                    0 <= k < current_frame.locals@.len() ==> ((#[trigger] current_frame.locals@[
                    k]) matches Some(v) ==> !(v is Reference))),
                !first ==> ((nargs <= function.def().local_count && (forall|k: int|
                    0 <= k < args@.len() ==> !((#[trigger] args@[k])@ is Reference)))
                    ==> spec_run_values(
                    old(self).gas_meter().table(),
                    old(self).gas_meter().metering(),
                    function.def().code@,
                    0,
                    old(self).operand_stack()@,
                    old(self).gas_left(),
                    old(self).steps(),
                ) is None),
                !first ==> old(self).spec_entry_error(function, nargs) is None,
                !first ==> !old(self).spec_entry_trivial_return(function, nargs),
                forall|a: crate::types::AccessPathV| #[trigger]
                    data_view.spec_remote(a) == old(data_view).spec_remote(a),
            decreases self.steps_left,
        {
            let ghost was_first = first;
            let ghost self_at_entry = *self;
            let ghost frame_at_entry = current_frame;
            first = false;
            let exit_code = match self.execute_code_unit(&mut current_frame, data_view, event_data)
                {
                Ok(code) => code,
                Err(e) => {
                    proof {
                        if was_first {
                            assert(self_at_entry.spec_next_instr_error(frame_at_entry)
                                == old(self).spec_entry_error(function, nargs));
                        }
                    }
                    return Err(e);
                },
            };
            proof {
                if was_first && old(self).spec_entry_trivial_return(function, nargs) {
                    assert(self_at_entry.spec_next_instr_ret(frame_at_entry));
                    assert(exit_code is Return);
                    assert(current_frame.locals@ == frame_at_entry.locals@);
                }
            }
            match exit_code {
                ExitCode::Return => {
                    if create_account_marker == self.call_stack.len() {
                        match Self::release_frame_refs(&current_frame, data_view) {
                            Ok(()) => {},
                            Err(e) => {
                                return Err(e);
                            },
                        }
                        return Ok(());
                    }
                    match Self::release_frame_refs(&current_frame, data_view) {
                        Ok(()) => {},
                        Err(e) => {
                            return Err(e);
                        },
                    }
                    match self.call_stack.pop() {
                        Some(frame) => {
                            current_frame = frame;
                        },
                        None => {
                            return Err(VMStatus::new(StatusCode::Unreachable));
                        },
                    }
                },
                ExitCode::Call(idx, type_actuals_idx) => {
                    let module = current_frame.module();
                    if (type_actuals_idx as usize) >= module.locals_signatures.len() {
                        return Err(VMStatus::new(StatusCode::VerifierInvariantViolation));
                    }
                    let type_actual_tags = match derive_type_tags(
                        module,
                        &current_frame.type_actual_tags,
                        &module.locals_signatures[type_actuals_idx as usize],
                        0,
                    ) {
                        Ok(tags) => tags,
                        Err(e) => {
                            return Err(e);
                        },
                    };
                    let opt_frame = match self.make_call_frame(
                        module,
                        idx,
                        type_actual_tags,
                        data_view,
                        event_data,
                    ) {
                        Ok(f) => f,
                        Err(e) => {
                            return Err(e);
                        },
                    };
                    match opt_frame {
                        Some(frame) => {
                            match self.call_stack.push(current_frame) {
                                Ok(()) => {},
                                Err(_) => {
                                    return Err(VMStatus::new(StatusCode::CallStackOverflow));
                                },
                            }
                            current_frame = frame;
                        },
                        None => {},
                    }
                },
                ExitCode::CreateAccount => {
                    match self.call_stack.push(current_frame) {
                        Ok(()) => {},
                        Err(_) => {
                            return Err(VMStatus::new(StatusCode::CallStackOverflow));
                        },
                    }
                    match self.create_account_opcode(data_view, event_data) {
                        Ok(()) => {},
                        Err(e) => {
                            return Err(e);
                        },
                    }
                    match self.call_stack.pop() {
                        Some(frame) => {
                            current_frame = frame;
                        },
                        None => {
                            return Err(VMStatus::new(StatusCode::Unreachable));
                        },
                    }
                },
            }
        }
    }

    /// The account-creation instruction: run the account module's `make`
    /// function with metering off, then save the produced account resource
    /// under the address popped from the stack.
    fn create_account_opcode<R: RemoteCache>(
        &mut self,
        data_view: &mut TransactionDataCache<R>,
        event_data: &mut Vec<ContractEvent>,
    ) -> (r: VMResult<()>)
        requires
            old(self).wf(),
        ensures
            final(self).wf(),
            final(self).gas_left() <= old(self).gas_left(),
            final(self).steps() <= old(self).steps(),
            final(self).gas_meter().table() == old(self).gas_meter().table(),
            final(self).gas_meter().metering() == old(self).gas_meter().metering(),
            !old(self).gas_meter().metering() ==> final(self).gas_left() == old(self).gas_left(),
            r is Ok ==> final(self).call_depth() == old(self).call_depth(),
            forall|a: crate::types::AccessPathV| #[trigger]
                final(data_view).spec_remote(a) == old(data_view).spec_remote(a),
        decreases self.steps_left, 1nat,
    {
        let account_module_id = crate::account_config::account_module_id();
        let account_module = match self.module_cache.get_loaded_module(&account_module_id) {
            Some(m) => m,
            None => {
                return Err(VMStatus::new(StatusCode::LinkerError));
            },
        };
        let make_name = crate::account_config::create_account_name();
        let make_idx = match account_module.find_function_def(&make_name) {
            Some(i) => i,
            None => {
                return Err(VMStatus::new(StatusCode::LinkerError));
            },
        };
        let make_fn = FunctionRef::new(account_module, make_idx);
        let addr = match self.operand_stack.pop() {
            Ok(v) => match v.into_address() {
                Ok(a) => a,
                Err(e) => {
                    return Err(e);
                },
            },
            Err(e) => {
                return Err(e);
            },
        };
        let was_metering = self.gas_meter.metering_on();
        self.gas_meter.disable_metering();
        let mut args: Vec<Value> = Vec::new();
        args.push(Value::byte_array(addr.to_vec()));
        let marker = self.call_stack.len();
        let run = self.execute_main(make_fn, args, marker, data_view, event_data);
        if was_metering {
            self.gas_meter.enable_metering();
        }
        match run {
            Ok(()) => {},
            Err(e) => {
                return Err(e);
            },
        }
        self.save_account(account_module, addr, data_view)
    }

    /// Save the account resource on top of the stack under an address.
    fn save_account<R: RemoteCache>(
        &mut self,
        account_module: &'txn LoadedModule,
        addr: AccountAddress,
        data_view: &mut TransactionDataCache<R>,
    ) -> (r: VMResult<()>)
        requires
            old(self).wf(),
        ensures
            final(self).wf(),
            final(self).gas_left() == old(self).gas_left(),
            final(self).steps() == old(self).steps(),
            final(self).call_depth() == old(self).call_depth(),
            final(self).gas_meter() == old(self).gas_meter(),
            forall|a: crate::types::AccessPathV| #[trigger]
                final(data_view).spec_remote(a) == old(data_view).spec_remote(a),
    {
        let struct_name = crate::account_config::account_struct_name();
        let struct_idx = match account_module.find_struct_def(&struct_name) {
            Some(i) => i,
            None => {
                return Err(VMStatus::new(StatusCode::LinkerError));
            },
        };
        if struct_idx > u16::MAX as usize {
            return Err(VMStatus::new(StatusCode::LinkerError));
        }
        let def = match self.resolve_global_struct(account_module, struct_idx as u16) {
            Ok(def) => def,
            Err(e) => {
                return Err(e);
            },
        };
        let resource = match self.operand_stack.pop() {
            Ok(v) => match v.into_struct() {
                Ok(s) => s,
                Err(e) => {
                    return Err(e);
                },
            },
            Err(e) => {
                return Err(e);
            },
        };
        let account_path = match make_access_path(account_module, struct_idx as u16, addr) {
            Ok(ap) => ap,
            Err(e) => {
                return Err(e);
            },
        };
        data_view.move_resource_to(&account_path, &def, resource)
    }

    /// Run a function to completion, clearing both stacks on failure.
    fn execute<R: RemoteCache>(
        &mut self,
        function: FunctionRef<'txn>,
        args: Vec<Value>,
        data_view: &mut TransactionDataCache<R>,
        event_data: &mut Vec<ContractEvent>,
    ) -> (r: VMResult<()>)
        requires
            old(self).wf(),
            function.valid(),
            old(self).call_depth() == 0,
        ensures
            final(self).wf(),
            final(self).gas_left() <= old(self).gas_left(),
            final(self).gas_meter().table() == old(self).gas_meter().table(),
            final(self).gas_meter().metering() == old(self).gas_meter().metering(),
            !old(self).gas_meter().metering() ==> final(self).gas_left() == old(self).gas_left(),
            r is Ok ==> final(self).call_depth() == 0,
            r is Err ==> final(self).operand_stack()@.len() == 0 && final(self).call_depth() == 0,
            old(self).spec_entry_error(function, args@.len() as int) matches Some(es) ==> (r
                is Err && r->Err_0.major_status == es.0 && r->Err_0.sub_status == es.1),
            old(self).spec_entry_trivial_return(function, args@.len() as int) ==> (r is Ok
                && final(self).operand_stack()@ == old(self).operand_stack()@ && final(data_view).slots() == old(data_view).slots() && final(event_data)@ == old(event_data)@),
            (args@.len() <= function.def().local_count && (forall|k: int|
                0 <= k < args@.len() ==> !((#[trigger] args@[k])@ is Reference))) ==> (
            spec_run_values(
                old(self).gas_meter().table(),
                old(self).gas_meter().metering(),
                function.def().code@,
                0,
                old(self).operand_stack()@,
                old(self).gas_left(),
                old(self).steps(),
            ) matches Some(o) ==> ({
                &&& o.0 matches Err(es) ==> (r is Err && r->Err_0.major_status == es.0
                    && r->Err_0.sub_status == es.1)
                &&& o.0 is Ok ==> (r is Ok && final(self).operand_stack()@ == o.1)
                &&& final(self).gas_left() == o.2
                &&& final(self).steps() == o.3
            })),
            forall|a: crate::types::AccessPathV| #[trigger]
                final(data_view).spec_remote(a) == old(data_view).spec_remote(a),
    {
        match self.execute_main(function, args, 0, data_view, event_data) {
            Ok(()) => Ok(()),
            Err(e) => {
                self.operand_stack = Stack::new();
                self.call_stack = CallStack::new();
                Err(e)
            },
        }
    }

    /// The entrypoint of one script invocation: charge the transaction's
    /// intrinsic gas, then run its entry function. All external calls come
    /// through here.
    pub fn interpeter_entrypoint<R: RemoteCache>(
        &mut self,
        func: FunctionRef<'txn>,
        args: Vec<Value>,
        data_view: &mut TransactionDataCache<R>,
        event_data: &mut Vec<ContractEvent>,
    ) -> (r: VMResult<()>)
        requires
            old(self).wf(),
            func.valid(),
            old(self).call_depth() == 0,
            old(self).operand_stack()@.len() == 0,
            old(self).spec_txn_size() <= MAX_TRANSACTION_SIZE_IN_BYTES,
        ensures
            final(self).wf(),
            final(self).gas_left() <= old(self).gas_left(),
            final(self).gas_meter().table() == old(self).gas_meter().table(),
            ({
                let intrinsic = crate::gas_schedule::spec_intrinsic_gas(old(self).spec_txn_size());
                &&& (old(self).gas_meter().metering() && intrinsic > old(self).gas_left()) ==> r
                    is Err && r->Err_0.major_status == StatusCode::OutOfGas && final(
                    self).gas_left() == 0 && final(self).steps() == old(self).steps()
                &&& (old(self).gas_meter().metering() && intrinsic <= old(self).gas_left()) ==>
                    final(self).gas_left() <= old(self).gas_left() - intrinsic
                &&& !old(self).gas_meter().metering() ==> final(self).gas_left() == old(
                    self).gas_left()
            }),
            r is Err ==> final(self).operand_stack()@.len() == 0 && final(self).call_depth() == 0,
            ({
                let code = func.def().code@;
                let intrinsic = crate::gas_schedule::spec_intrinsic_gas(old(self).spec_txn_size());
                let metering = old(self).gas_meter().metering();
                let charge_ok = !metering || intrinsic <= old(self).gas_left();
                let avail = if metering {
                    old(self).gas_left() - intrinsic
                } else {
                    old(self).gas_left() as int
                };
                &&& (charge_ok && args@.len() <= func.def().local_count && old(self).steps() > 0
                    && code.len() > 0 && (!metering || crate::gas_meter::spec_instruction_cost(
                    old(self).gas_meter().table(),
                    code[0],
                    1,
                ) <= avail)) ==> (spec_instr_immediate_error(code[0], Seq::empty()) matches Some(
                    es,
                ) ==> (r is Err && r->Err_0.major_status == es.0 && r->Err_0.sub_status == es.1))
                &&& (charge_ok && args@.len() == 0 && old(self).steps() > 0 && code.len() == 1
                    && code[0] is Ret && (!metering || crate::gas_meter::spec_instruction_cost(
                    old(self).gas_meter().table(),
                    code[0],
                    1,
                ) <= avail)) ==> (r is Ok && final(data_view).slots() == old(data_view).slots()
                    && final(event_data)@ == old(event_data)@)
            }),
            ({
                let intrinsic = crate::gas_schedule::spec_intrinsic_gas(old(self).spec_txn_size());
                let metering = old(self).gas_meter().metering();
                let charge_ok = !metering || intrinsic <= old(self).gas_left();
                let avail: u64 = if metering && intrinsic <= old(self).gas_left() {
                    (old(self).gas_left() - intrinsic) as u64
                } else {
                    old(self).gas_left()
                };
                (charge_ok && args@.len() <= func.def().local_count && (forall|k: int|
                    0 <= k < args@.len() ==> !((#[trigger] args@[k])@ is Reference))) ==> (
                spec_run_values(
                    old(self).gas_meter().table(),
                    metering,
                    func.def().code@,
                    0,
                    old(self).operand_stack()@,
                    avail,
                    old(self).steps(),
                ) matches Some(o) ==> ({
                    &&& o.0 matches Err(es) ==> (r is Err && r->Err_0.major_status == es.0
                        && r->Err_0.sub_status == es.1)
                    &&& o.0 is Ok ==> (r is Ok && final(self).operand_stack()@ == o.1)
                    &&& final(self).gas_left() == o.2
                    &&& final(self).steps() == o.3
                }))
            }),
            forall|a: crate::types::AccessPathV| #[trigger]
                final(data_view).spec_remote(a) == old(data_view).spec_remote(a),
    {
        let txn_size = self.txn_data.transaction_size;
        match self.gas_meter.charge_transaction_gas(txn_size) {
            Ok(()) => {},
            Err(e) => {
                return Err(e);
            },
        }
        self.execute(func, args, data_view, event_data)
    }

    /// The transaction's size in bytes.
    pub closed spec fn spec_txn_size(&self) -> u64 {
        self.txn_data.transaction_size.0
    }

    /// Execute a function of a module by name.
    pub fn execute_function<R: RemoteCache>(
        &mut self,
        module: &ModuleId,
        function_name: &Identifier,
        args: Vec<Value>,
        data_view: &mut TransactionDataCache<R>,
        event_data: &mut Vec<ContractEvent>,
    ) -> (r: VMResult<()>)
        requires
            old(self).wf(),
            old(self).call_depth() == 0,
        ensures
            final(self).wf(),
            final(self).gas_left() <= old(self).gas_left(),
            final(self).gas_meter().table() == old(self).gas_meter().table(),
            final(self).gas_meter().metering() == old(self).gas_meter().metering(),
            !old(self).gas_meter().metering() ==> final(self).gas_left() == old(self).gas_left(),
            old(self).spec_cached_module(module@) is None ==> r is Err
                && r->Err_0.major_status == StatusCode::LinkerError,
            old(self).spec_cached_module(module@) matches Some(m) ==> (
            match crate::module::spec_find_function(m, function_name@, 0) {
                Option::None => r is Err && r->Err_0.major_status == StatusCode::LinkerError,
                Option::Some(i) => {
                    &&& (old(self).spec_entry_def_error(m.function_defs@[i], args@.len() as int)
                        matches Some(es) ==> (r is Err && r->Err_0.major_status == es.0
                        && r->Err_0.sub_status == es.1))
                    &&& (old(self).spec_entry_def_trivial_return(
                        m.function_defs@[i],
                        args@.len() as int,
                    ) ==> (r is Ok && final(data_view).slots() == old(data_view).slots()
                        && final(event_data)@ == old(event_data)@))
                },
            }),
            forall|a: crate::types::AccessPathV| #[trigger]
                final(data_view).spec_remote(a) == old(data_view).spec_remote(a),
    {
        let loaded_module = match self.module_cache.get_loaded_module(module) {
            Some(m) => m,
            None => {
                return Err(VMStatus::new(StatusCode::LinkerError));
            },
        };
        let func_idx = match loaded_module.find_function_def(function_name) {
            Some(i) => i,
            None => {
                return Err(VMStatus::new(StatusCode::LinkerError));
            },
        };
        let func = FunctionRef::new(loaded_module, func_idx);
        self.execute(func, args, data_view, event_data)
    }

    /// Create an account by calling the account module's `make` function
    /// with metering off, then saving the produced resource.
    pub fn create_account_entry<R: RemoteCache>(
        &mut self,
        addr: AccountAddress,
        data_view: &mut TransactionDataCache<R>,
        event_data: &mut Vec<ContractEvent>,
    ) -> (r: VMResult<()>)
        requires
            old(self).wf(),
            old(self).call_depth() == 0,
        ensures
            final(self).wf(),
            final(self).gas_left() <= old(self).gas_left(),
            final(self).gas_meter().table() == old(self).gas_meter().table(),
            old(self).spec_cached_module(crate::account_config::spec_account_module_id())
                is None ==> r is Err && r->Err_0.major_status == StatusCode::LinkerError,
            forall|a: crate::types::AccessPathV| #[trigger]
                final(data_view).spec_remote(a) == old(data_view).spec_remote(a),
    {
        let account_module_id = crate::account_config::account_module_id();
        let account_module = match self.module_cache.get_loaded_module(&account_module_id) {
            Some(m) => m,
            None => {
                return Err(VMStatus::new(StatusCode::LinkerError));
            },
        };
        self.gas_meter.disable_metering();
        let make_name = crate::account_config::create_account_name();
        let mut args: Vec<Value> = Vec::new();
        args.push(Value::byte_array(addr.to_vec()));
        let run = self.execute_function(
            &account_module_id,
            &make_name,
            args,
            data_view,
            event_data,
        );
        self.gas_meter.enable_metering();
        match run {
            Ok(()) => {},
            Err(e) => {
                return Err(e);
            },
        }
        self.save_account(account_module, addr, data_view)
    }

    /// Whether a failure asks for a core dump: an invariant violation is
    /// an impossible state, and the logging collaborator outside the core
    /// records the interpreter's internals for it. Every status is
    /// surfaced unchanged either way.
    pub fn wants_core_dump(err: &VMStatus) -> (r: bool)
        ensures
            r == (crate::status::spec_status_type(err.major_status)
                == StatusType::InvariantViolation),
    {
        err.is(StatusType::InvariantViolation)
    }
}

/// A read-only window over the interpreter for size-dependent gas logic.
pub struct InterpreterForGasCost<'a> {
    operand_stack: &'a Stack,
}

impl<'a> InterpreterForGasCost<'a> {
    /// The operand stack the window looks at.
    pub closed spec fn stack(&self) -> Stack {
        *self.operand_stack
    }

    /// A window over an operand stack.
    pub fn new(operand_stack: &'a Stack) -> (r: InterpreterForGasCost<'a>)
        ensures
            r.stack() == *operand_stack,
    {
        InterpreterForGasCost { operand_stack }
    }

    /// A copy of the value on top of the stack.
    pub fn peek(&self) -> (r: VMResult<Value>)
        ensures
            self.stack()@.len() > 0 ==> r is Ok && r->Ok_0@ == self.stack()@.last(),
            self.stack()@.len() == 0 ==> r is Err && r->Err_0.major_status
                == StatusCode::EmptyValueStack,
    {
        self.operand_stack.peek_at(0)
    }

    /// A copy of the value `index` positions below the top of the stack.
    pub fn peek_at(&self, index: usize) -> (r: VMResult<Value>)
        ensures
            index < self.stack()@.len() ==> r is Ok && r->Ok_0@ == self.stack()@[self.stack()@.len()
                - 1 - index],
            index >= self.stack()@.len() ==> r is Err && r->Err_0.major_status
                == StatusCode::EmptyValueStack,
    {
        self.operand_stack.peek_at(index)
    }
}

impl Stack {
    /// A copy of the value `index` positions below the top.
    pub fn peek_at(&self, index: usize) -> (r: VMResult<Value>)
        ensures
            index < self@.len() ==> r is Ok && r->Ok_0@ == self@[self@.len() - 1 - index],
            index >= self@.len() ==> r is Err && r->Err_0.major_status
                == StatusCode::EmptyValueStack,
    {
        if index < self.values.len() {
            let at = self.values.len() - 1 - index;
            Ok(self.values[at].clone_value())
        } else {
            Err(VMStatus::new(StatusCode::EmptyValueStack))
        }
    }
}

} // verus!

verus! {

/// Stack depth stays bounded: a well-formed operand stack never exceeds
/// its cap, every interpreter operation preserves well-formedness, and
/// `Stack::push` is the only way depth grows — it fails with the
/// operand-stack overflow status, changing nothing, at the cap.
pub proof fn lemma_operand_stack_bounded(s: Stack)
    requires
        s.well_formed(),
    ensures
        s@.len() <= OPERAND_STACK_SIZE_LIMIT,
{
}

/// Call-stack depth stays bounded likewise: a well-formed call stack never
/// exceeds its cap, and `CallStack::push` refuses a frame at the cap, the
/// interpreter turning the refusal into the call-stack overflow status.
pub proof fn lemma_call_stack_bounded(s: CallStack)
    requires
        s.well_formed(),
    ensures
        s.depth() <= CALL_STACK_SIZE_LIMIT,
{
}

} // verus!
