//! The HashLink instruction set.
//!
//! Every instruction works on the registers of the function that holds it. Jump offsets are
//! relative to the instruction that follows the jump.

use crate::types::{
    RefBytes, RefEnumConstruct, RefField, RefFloat, RefFun, RefGlobal, RefInt, RefString, RefType,
    Reg, ValBool,
};
use vstd::prelude::*;

verus! {

/// Offset of a jump, counted from the instruction after the jump.
pub type JumpOffset = i32;

/// One bytecode instruction.
#[derive(Debug, Clone)]
#[allow(inconsistent_fields)]
pub enum Opcode {
    /// Copy `src` into `dst`
    Mov { dst: Reg, src: Reg },
    /// Load an i32 constant
    Int { dst: Reg, ptr: RefInt },
    /// Load an f64 constant
    Float { dst: Reg, ptr: RefFloat },
    /// Load an inline bool
    Bool { dst: Reg, value: ValBool },
    /// Load a byte string constant
    Bytes { dst: Reg, ptr: RefBytes },
    /// Load a string constant
    String { dst: Reg, ptr: RefString },
    /// Load null
    Null { dst: Reg },
    Add { dst: Reg, a: Reg, b: Reg },
    Sub { dst: Reg, a: Reg, b: Reg },
    Mul { dst: Reg, a: Reg, b: Reg },
    SDiv { dst: Reg, a: Reg, b: Reg },
    UDiv { dst: Reg, a: Reg, b: Reg },
    SMod { dst: Reg, a: Reg, b: Reg },
    UMod { dst: Reg, a: Reg, b: Reg },
    Shl { dst: Reg, a: Reg, b: Reg },
    SShr { dst: Reg, a: Reg, b: Reg },
    UShr { dst: Reg, a: Reg, b: Reg },
    And { dst: Reg, a: Reg, b: Reg },
    Or { dst: Reg, a: Reg, b: Reg },
    Xor { dst: Reg, a: Reg, b: Reg },
    Neg { dst: Reg, src: Reg },
    Not { dst: Reg, src: Reg },
    Incr { dst: Reg },
    Decr { dst: Reg },
    /// Call a function with no argument
    Call0 { dst: Reg, fun: RefFun },
    Call1 { dst: Reg, fun: RefFun, arg0: Reg },
    Call2 { dst: Reg, fun: RefFun, arg0: Reg, arg1: Reg },
    Call3 { dst: Reg, fun: RefFun, arg0: Reg, arg1: Reg, arg2: Reg },
    Call4 { dst: Reg, fun: RefFun, arg0: Reg, arg1: Reg, arg2: Reg, arg3: Reg },
    /// Call a function with any number of arguments
    CallN { dst: Reg, fun: RefFun, args: Vec<Reg> },
    /// Call a method of the object in `args[0]`
    CallMethod { dst: Reg, field: RefField, args: Vec<Reg> },
    /// Call a method of the object in register 0
    CallThis { dst: Reg, field: RefField, args: Vec<Reg> },
    /// Call the closure held by `fun`
    CallClosure { dst: Reg, fun: Reg, args: Vec<Reg> },
    /// Make a closure of a function that captures nothing
    StaticClosure { dst: Reg, fun: RefFun },
    /// Make a closure of a function and the object it is bound to
    InstanceClosure { dst: Reg, fun: RefFun, obj: Reg },
    VirtualClosure { dst: Reg, obj: Reg, field: Reg },
    GetGlobal { dst: Reg, global: RefGlobal },
    SetGlobal { global: RefGlobal, src: Reg },
    Field { dst: Reg, obj: Reg, field: RefField },
    SetField { obj: Reg, field: RefField, src: Reg },
    GetThis { dst: Reg, field: RefField },
    SetThis { field: RefField, src: Reg },
    DynGet { dst: Reg, obj: Reg, field: RefString },
    DynSet { obj: Reg, field: RefString, src: Reg },
    /// Jump if `cond` is true
    JTrue { cond: Reg, offset: JumpOffset },
    /// Jump if `cond` is false
    JFalse { cond: Reg, offset: JumpOffset },
    JNull { reg: Reg, offset: JumpOffset },
    JNotNull { reg: Reg, offset: JumpOffset },
    JSLt { a: Reg, b: Reg, offset: JumpOffset },
    JSGte { a: Reg, b: Reg, offset: JumpOffset },
    JSGt { a: Reg, b: Reg, offset: JumpOffset },
    JSLte { a: Reg, b: Reg, offset: JumpOffset },
    JULt { a: Reg, b: Reg, offset: JumpOffset },
    JUGte { a: Reg, b: Reg, offset: JumpOffset },
    JNotLt { a: Reg, b: Reg, offset: JumpOffset },
    JNotGte { a: Reg, b: Reg, offset: JumpOffset },
    JEq { a: Reg, b: Reg, offset: JumpOffset },
    JNotEq { a: Reg, b: Reg, offset: JumpOffset },
    /// Jump in any case
    JAlways { offset: JumpOffset },
    ToDyn { dst: Reg, src: Reg },
    ToSFloat { dst: Reg, src: Reg },
    ToUFloat { dst: Reg, src: Reg },
    ToInt { dst: Reg, src: Reg },
    SafeCast { dst: Reg, src: Reg },
    UnsafeCast { dst: Reg, src: Reg },
    ToVirtual { dst: Reg, src: Reg },
    /// Target of a backward jump: the head of a loop
    Label,
    Ret { ret: Reg },
    Throw { exc: Reg },
    Rethrow { exc: Reg },
    /// Jump table on the integer in `reg`; falls through when no entry matches
    Switch { reg: Reg, offsets: Vec<JumpOffset>, end: JumpOffset },
    NullCheck { reg: Reg },
    /// Start of a guarded region; the handler is at `offset`
    Trap { exc: Reg, offset: JumpOffset },
    /// End of a guarded region
    EndTrap { exc: bool },
    GetI8 { dst: Reg, bytes: Reg, index: Reg },
    GetI16 { dst: Reg, bytes: Reg, index: Reg },
    GetMem { dst: Reg, bytes: Reg, index: Reg },
    GetArray { dst: Reg, array: Reg, index: Reg },
    SetI8 { bytes: Reg, index: Reg, src: Reg },
    SetI16 { bytes: Reg, index: Reg, src: Reg },
    SetMem { bytes: Reg, index: Reg, src: Reg },
    SetArray { array: Reg, index: Reg, src: Reg },
    /// Allocate a value of the type of `dst`
    New { dst: Reg },
    ArraySize { dst: Reg, array: Reg },
    Type { dst: Reg, ty: RefType },
    GetType { dst: Reg, src: Reg },
    GetTID { dst: Reg, src: Reg },
    Ref { dst: Reg, src: Reg },
    Unref { dst: Reg, src: Reg },
    Setref { dst: Reg, value: Reg },
    /// Allocate an enum variant and set its fields
    MakeEnum { dst: Reg, construct: RefEnumConstruct, args: Vec<Reg> },
    /// Allocate an enum variant with default fields
    EnumAlloc { dst: Reg, construct: RefEnumConstruct },
    EnumIndex { dst: Reg, value: Reg },
    EnumField { dst: Reg, value: Reg, construct: RefEnumConstruct, field: RefField },
    SetEnumField { value: Reg, field: RefField, src: Reg },
    Assert,
    RefData { dst: Reg, src: Reg },
    RefOffset { dst: Reg, reg: Reg, offset: Reg },
    Nop,
}

} // verus!
