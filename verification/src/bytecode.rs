//! The bytecode instruction set of the virtual machine, together with the
//! signature tokens that describe value types inside a module.

use vstd::prelude::*;

verus! {

/// Index of a local slot within a frame.
pub type LocalIndex = u8;

/// Index into a module's function handle pool.
pub type FunctionHandleIndex = u16;

/// Index into a module's struct definition pool.
pub type StructDefinitionIndex = u16;

/// Index into a module's locals signature pool (used for type actuals).
pub type LocalsSignatureIndex = u16;

/// Index into a module's struct handle pool.
pub type StructHandleIndex = u16;

/// Index into a module's field definition pool.
pub type FieldDefinitionIndex = u16;

/// A bytecode instruction.
///
/// Branch targets are program-counter values; index operands point into the
/// pools of the module that holds the code.
#[derive(Debug, Clone, Copy, PartialEq, Eq, Structural)]
pub enum Bytecode {
    Pop,
    Ret,
    BrTrue(u16),
    BrFalse(u16),
    Branch(u16),
    LdConst(u64),
    LdAddr(u16),
    LdStr(u16),
    LdByteArray(u16),
    LdTrue,
    LdFalse,
    CopyLoc(LocalIndex),
    MoveLoc(LocalIndex),
    StLoc(LocalIndex),
    Call(FunctionHandleIndex, LocalsSignatureIndex),
    Pack(StructDefinitionIndex, LocalsSignatureIndex),
    Unpack(StructDefinitionIndex, LocalsSignatureIndex),
    ReadRef,
    WriteRef,
    FreezeRef,
    MutBorrowLoc(LocalIndex),
    ImmBorrowLoc(LocalIndex),
    MutBorrowField(FieldDefinitionIndex),
    ImmBorrowField(FieldDefinitionIndex),
    MutBorrowGlobal(StructDefinitionIndex, LocalsSignatureIndex),
    ImmBorrowGlobal(StructDefinitionIndex, LocalsSignatureIndex),
    Add,
    Sub,
    Mul,
    Mod,
    Div,
    BitOr,
    BitAnd,
    Xor,
    Or,
    And,
    Not,
    Eq,
    Neq,
    Lt,
    Gt,
    Le,
    Ge,
    Abort,
    GetTxnGasUnitPrice,
    GetTxnMaxGasUnits,
    GetGasRemaining,
    GetTxnSenderAddress,
    GetTxnSequenceNumber,
    GetTxnPublicKey,
    Exists(StructDefinitionIndex, LocalsSignatureIndex),
    MoveFrom(StructDefinitionIndex, LocalsSignatureIndex),
    MoveToSender(StructDefinitionIndex, LocalsSignatureIndex),
    CreateAccount,
}

/// How many distinct instructions the set defines.
pub const NUMBER_OF_BYTECODE_INSTRUCTIONS: u64 = 54;

/// A type appearing in a module's signatures: either a ground type, a struct
/// (with its type actuals), a reference, or a type parameter of the enclosing
/// generic context.
#[derive(Debug, PartialEq, Eq)]
pub enum SignatureToken {
    Bool,
    U64,
    Str,
    ByteArray,
    Address,
    Struct(StructHandleIndex, Vec<SignatureToken>),
    Reference(Box<SignatureToken>),
    MutableReference(Box<SignatureToken>),
    TypeParameter(u16),
}

} // verus!
