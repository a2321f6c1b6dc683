//! What decompiling a function means: a state that each instruction takes to the next.
//!
//! [`step`] says what one instruction does to the state, [`run`] applies it to the
//! instructions in their order, and [`lift`] gives the statements of a function: those left
//! in the scope stack after the last instruction, rewritten by the post-processing.

use crate::ast::{
    array_v, binary_v, call_v, field_v, null_v, string_v, unary_v, unknown_v, BinaryKind, ConstantV,
    ExprV, StmtV, UnaryKind,
};
use crate::fmt::spec_decimal;
use crate::opcodes::Opcode;
use crate::post::post_stmts;
use crate::state::{fields_are_distinct, Diagnostic, ExprCtxV, StateV};
use crate::types::{Bytecode, Function, RefField, RefFun, RefGlobal, Reg, Type};
use crate::validity::{jump_target, reg_type, STRING_TYPE};
use vstd::prelude::*;

verus! {

/// Why a function cannot be decompiled.
#[derive(Debug, Clone, Copy, PartialEq, Eq, Structural)]
pub enum DecompileError {
    /// A jump leads backward while no loop is open.
    BackwardJumpOutsideLoop,
    /// The last backward jump of a loop comes while a scope inside the loop is still open.
    LoopNotInnermost,
    /// A jump inside a switch is at none of the places where a case of the switch starts.
    NoSwitchCase,
    /// Closures nest deeper than the bound on the depth.
    ClosuresTooDeep,
}

/// The condition under which a conditional jump is not taken, with the offset of the jump.
/// The instructions after the jump run under that condition.
pub open spec fn jump_cond(s: StateV, op: Opcode) -> Option<(ExprV, i32)> {
    match op {
        Opcode::JTrue { cond, offset } => Some((unary_v(UnaryKind::Not, s.expr(cond)), offset)),
        Opcode::JFalse { cond, offset } => Some((s.expr(cond), offset)),
        Opcode::JNull { reg, offset } => Some(
            (binary_v(BinaryKind::NotEq, s.expr(reg), null_v()), offset),
        ),
        Opcode::JNotNull { reg, offset } => Some(
            (binary_v(BinaryKind::Eq, s.expr(reg), null_v()), offset),
        ),
        Opcode::JSGte { a, b, offset } => Some(
            (binary_v(BinaryKind::Gt, s.expr(b), s.expr(a)), offset),
        ),
        Opcode::JUGte { a, b, offset } => Some(
            (binary_v(BinaryKind::Gt, s.expr(b), s.expr(a)), offset),
        ),
        Opcode::JSGt { a, b, offset } => Some(
            (binary_v(BinaryKind::Gte, s.expr(b), s.expr(a)), offset),
        ),
        Opcode::JSLte { a, b, offset } => Some(
            (binary_v(BinaryKind::Lt, s.expr(b), s.expr(a)), offset),
        ),
        Opcode::JSLt { a, b, offset } => Some(
            (binary_v(BinaryKind::Lte, s.expr(b), s.expr(a)), offset),
        ),
        Opcode::JULt { a, b, offset } => Some(
            (binary_v(BinaryKind::Lte, s.expr(b), s.expr(a)), offset),
        ),
        Opcode::JEq { a, b, offset } => Some(
            (binary_v(BinaryKind::NotEq, s.expr(a), s.expr(b)), offset),
        ),
        Opcode::JNotEq { a, b, offset } => Some(
            (binary_v(BinaryKind::Eq, s.expr(a), s.expr(b)), offset),
        ),
        _ => None,
    }
}

/// The instruction is an unconditional jump backward: the bottom of a loop.
pub open spec fn is_back_jump(op: Opcode) -> bool {
    match op {
        Opcode::JAlways { offset } => offset < 0,
        _ => false,
    }
}

/// A conditional jump forward at `i`, not taken under `cond`. Where it jumps over the
/// bottom of a loop whose condition is not known yet, `cond` is the condition of that loop,
/// which is noted. Anywhere else it opens an `if` that ends where the jump leads.
pub open spec fn push_jmp(f: &Function, s: StateV, i: int, offset: i32, cond: ExprV) -> StateV {
    if offset > 0 {
        let opens_if = StateV {
            scopes: s.scopes.push_if(jump_target(i, offset) as usize, cond),
            ..s
        };
        if is_back_jump(f.ops@[i + offset]) {
            match s.scopes.last_loop_cond() {
                Some(ExprV::Unknown(_)) => StateV {
                    scopes: s.scopes.set_last_loop_cond(cond),
                    ..s
                }.note(Diagnostic::LoopCondition { fun: f.findex, pos: i as usize }),
                _ => opens_if,
            }
        } else {
            opens_if
        }
    } else {
        s
    }
}

/// The instruction at `j` is an unconditional jump to `target`.
pub open spec fn jumps_to(f: &Function, j: int, target: int) -> bool {
    match f.ops@[j] {
        Opcode::JAlways { offset } => jump_target(j, offset) == target,
        _ => false,
    }
}

/// An unconditional jump to `target` comes after the instruction at `i`.
pub open spec fn has_later_jump_to(f: &Function, i: int, target: int) -> bool {
    exists|j: int| i < j < f.ops@.len() && #[trigger] jumps_to(f, j, target)
}

/// The first index from `from` on at which `x` stands in `v`.
pub open spec fn first_index(v: Seq<usize>, x: usize, from: int) -> Option<int>
    decreases v.len() - from,
{
    if from < 0 || from >= v.len() {
        None
    } else if v[from] == x {
        Some(from)
    } else {
        first_index(v, x, from + 1)
    }
}

/// An unconditional jump at `i`.
///
/// Backward, it is a `continue` where another jump to the same loop follows, and the end of
/// the innermost loop where none does. Forward, it starts the next case inside a switch,
/// is a `break` inside a loop where it leads just behind the bottom of a loop, starts the
/// `else` of an `if`, and is passed over with a note anywhere else.
pub open spec fn jump_always(f: &Function, s: StateV, i: int, offset: i32) -> Result<
    StateV,
    DecompileError,
> {
    if offset < 0 {
        match s.scopes.last_loop_start() {
            None => Err(DecompileError::BackwardJumpOutsideLoop),
            Some(start) => if has_later_jump_to(f, i, start as int) {
                Ok(s.push_stmt(StmtV::Continue))
            } else if s.scopes.last().kind is Loop {
                Ok(
                    StateV { scopes: s.scopes.pop_last(), ..s }.push_stmt(
                        s.scopes.last().fold(),
                    ),
                )
            } else {
                Err(DecompileError::LoopNotInnermost)
            },
        }
    } else {
        match s.scopes.last_is_switch_ctx() {
            Some(targets) => match first_index(targets, i as usize, 0) {
                Some(case) => Ok(
                    StateV { scopes: s.scopes.push_switch_case(case as usize), ..s },
                ),
                None => Err(DecompileError::NoSwitchCase),
            },
            None => if s.scopes.last_loop_start() is Some {
                if is_back_jump(f.ops@[i + offset]) {
                    Ok(s.push_stmt(StmtV::Break))
                } else {
                    Ok(s)
                }
            } else if s.scopes.last_is_if() {
                Ok(StateV { scopes: s.scopes.push_else(jump_target(i, offset) as usize), ..s })
            } else {
                Ok(s.note(Diagnostic::JumpWithoutScope { fun: f.findex, pos: i as usize }))
            },
        }
    }
}

/// The places where the cases of a switch at `i` start.
pub open spec fn switch_targets(i: int, offsets: Seq<i32>) -> Seq<usize> {
    Seq::new(offsets.len(), |k: int| (i + offsets[k]) as usize)
}

/// A return at a place where a scope is open is a statement, with the value where the
/// register is not void. At the top of the function only a return of a value is one.
pub open spec fn push_ret(f: &Function, s: StateV, ret: Reg) -> StateV {
    if f.regs@[ret.0 as int].0 == 0 {
        if s.scopes.has_scopes() {
            s.push_stmt(StmtV::Return(None))
        } else {
            s
        }
    } else {
        s.push_stmt(StmtV::Return(Some(s.expr(ret))))
    }
}

/// The register and the value that an instruction computes, for the instructions that do
/// nothing but compute a value from registers and constants.
pub open spec fn value_of(code: &Bytecode, f: &Function, s: StateV, op: Opcode) -> Option<
    (Reg, ExprV),
> {
    match op {
        Opcode::Int { dst, ptr } => Some(
            (dst, ExprV::Constant(ConstantV::Int(code.ints@[ptr.0 as int]))),
        ),
        Opcode::Float { dst, ptr } => Some(
            (dst, ExprV::Constant(ConstantV::Float(code.floats@[ptr.0 as int]))),
        ),
        Opcode::Bool { dst, value } => Some((dst, ExprV::Constant(ConstantV::Bool(value.0)))),
        Opcode::String { dst, ptr } => Some((dst, string_v(code.strings@[ptr.0 as int]@))),
        Opcode::Null { dst } => Some((dst, null_v())),
        Opcode::Add { dst, a, b } => Some((dst, binary_v(BinaryKind::Add, s.expr(a), s.expr(b)))),
        Opcode::Sub { dst, a, b } => Some((dst, binary_v(BinaryKind::Sub, s.expr(a), s.expr(b)))),
        Opcode::Mul { dst, a, b } => Some((dst, binary_v(BinaryKind::Mul, s.expr(a), s.expr(b)))),
        Opcode::SDiv { dst, a, b } => Some(
            (dst, binary_v(BinaryKind::Div, s.expr(a), s.expr(b))),
        ),
        Opcode::UDiv { dst, a, b } => Some(
            (dst, binary_v(BinaryKind::Div, s.expr(a), s.expr(b))),
        ),
        Opcode::SMod { dst, a, b } => Some(
            (dst, binary_v(BinaryKind::Mod, s.expr(a), s.expr(b))),
        ),
        Opcode::UMod { dst, a, b } => Some(
            (dst, binary_v(BinaryKind::Mod, s.expr(a), s.expr(b))),
        ),
        Opcode::Shl { dst, a, b } => Some((dst, binary_v(BinaryKind::Shl, s.expr(a), s.expr(b)))),
        Opcode::SShr { dst, a, b } => Some(
            (dst, binary_v(BinaryKind::Shr, s.expr(a), s.expr(b))),
        ),
        Opcode::UShr { dst, a, b } => Some(
            (dst, binary_v(BinaryKind::Shr, s.expr(a), s.expr(b))),
        ),
        Opcode::And { dst, a, b } => Some((dst, binary_v(BinaryKind::And, s.expr(a), s.expr(b)))),
        Opcode::Or { dst, a, b } => Some((dst, binary_v(BinaryKind::Or, s.expr(a), s.expr(b)))),
        Opcode::Xor { dst, a, b } => Some((dst, binary_v(BinaryKind::Xor, s.expr(a), s.expr(b)))),
        Opcode::Neg { dst, src } => Some((dst, unary_v(UnaryKind::Neg, s.expr(src)))),
        Opcode::Not { dst, src } => Some((dst, unary_v(UnaryKind::Not, s.expr(src)))),
        Opcode::ToDyn { dst, src } => Some((dst, s.expr(src))),
        Opcode::ToSFloat { dst, src } => Some((dst, s.expr(src))),
        Opcode::ToUFloat { dst, src } => Some((dst, s.expr(src))),
        Opcode::ToInt { dst, src } => Some((dst, s.expr(src))),
        Opcode::SafeCast { dst, src } => Some((dst, s.expr(src))),
        Opcode::UnsafeCast { dst, src } => Some((dst, s.expr(src))),
        Opcode::ToVirtual { dst, src } => Some((dst, s.expr(src))),
        Opcode::Ref { dst, src } => Some((dst, s.expr(src))),
        Opcode::Unref { dst, src } => Some((dst, s.expr(src))),
        Opcode::RefData { dst, src } => Some((dst, s.expr(src))),
        Opcode::Field { dst, obj, field } => Some(
            (dst, field_v(s.expr(obj), field.spec_display_obj(reg_type(code, f, obj), code))),
        ),
        Opcode::GetThis { dst, field } => Some(
            (dst, field_v(ExprV::This, field.spec_display_obj(reg_type(code, f, Reg(0)), code))),
        ),
        Opcode::DynGet { dst, obj, field } => Some(
            (dst, array_v(s.expr(obj), string_v(code.strings@[field.0 as int]@))),
        ),
        Opcode::EnumAlloc { dst, construct } => Some(
            (dst, ExprV::EnumConstr(f.regs@[dst.0 as int], construct, Seq::empty())),
        ),
        Opcode::MakeEnum { dst, construct, args } => Some(
            (dst, ExprV::EnumConstr(f.regs@[dst.0 as int], construct, s.args_expr(args@))),
        ),
        Opcode::EnumIndex { dst, value } => Some(
            (dst, field_v(s.expr(value), "constructorIndex"@)),
        ),
        Opcode::EnumField { dst, value, field, .. } => Some(
            (dst, field_v(s.expr(value), spec_decimal(field.0 as nat))),
        ),
        Opcode::ArraySize { dst, array } => Some((dst, field_v(s.expr(array), "length"@))),
        Opcode::GetArray { dst, array, index } => Some(
            (dst, array_v(s.expr(array), s.expr(index))),
        ),
        Opcode::GetMem { dst, bytes, index } => Some(
            (dst, array_v(s.expr(bytes), s.expr(index))),
        ),
        _ => None,
    }
}

/// An assignment to something that is already declared.
pub open spec fn assign_v(variable: ExprV, value: ExprV) -> StmtV {
    StmtV::Assign { declaration: false, variable, assign: value }
}

/// The statements that an instruction stands for, for the instructions that do nothing but
/// make statements from registers and constants.
pub open spec fn stmts_of(code: &Bytecode, f: &Function, s: StateV, op: Opcode) -> Option<
    Seq<StmtV>,
> {
    match op {
        Opcode::Incr { dst } => Some(
            seq![StmtV::ExprStatement(unary_v(UnaryKind::Incr, s.expr(dst)))],
        ),
        Opcode::Decr { dst } => Some(
            seq![StmtV::ExprStatement(unary_v(UnaryKind::Decr, s.expr(dst)))],
        ),
        Opcode::Throw { exc } => Some(seq![StmtV::Throw(s.expr(exc))]),
        Opcode::Rethrow { exc } => Some(seq![StmtV::Throw(s.expr(exc))]),
        Opcode::SetThis { field, src } => Some(
            seq![
                assign_v(
                    field_v(ExprV::This, field.spec_display_obj(reg_type(code, f, Reg(0)), code)),
                    s.expr(src),
                ),
            ],
        ),
        Opcode::DynSet { obj, field, src } => Some(
            seq![
                assign_v(
                    array_v(s.expr(obj), string_v(code.strings@[field.0 as int]@)),
                    s.expr(src),
                ),
            ],
        ),
        Opcode::Setref { dst, value } => Some(seq![assign_v(s.expr(dst), s.expr(value))]),
        Opcode::SetEnumField { value, field, src } => {
            let set = assign_v(
                field_v(s.expr(value), spec_decimal(field.0 as nat)),
                s.expr(src),
            );
            if s.expr(value) is Variable {
                Some(seq![set])
            } else {
                Some(seq![StmtV::Comment("closure capture"@), set])
            }
        },
        Opcode::SetArray { array, index, src } => Some(
            seq![assign_v(array_v(s.expr(array), s.expr(index)), s.expr(src))],
        ),
        Opcode::SetMem { bytes, index, src } => Some(
            seq![assign_v(array_v(s.expr(bytes), s.expr(index)), s.expr(src))],
        ),
        _ => None,
    }
}

/// The state after some statements.
pub open spec fn push_stmts(s: StateV, stmts: Seq<StmtV>) -> StateV
    decreases stmts.len(),
{
    if stmts.len() == 0 {
        s
    } else {
        push_stmts(s, stmts.drop_last()).push_stmt(stmts.last())
    }
}

/// A call whose result is void is a statement; any other gives `dst` its value.
pub open spec fn finish_call(
    code: &Bytecode,
    f: &Function,
    s: StateV,
    i: int,
    dst: Reg,
    call: ExprV,
    void: bool,
) -> StateV {
    if void {
        s.push_stmt(StmtV::ExprStatement(call))
    } else {
        s.push_expr(code, f, i, dst, call)
    }
}

/// The call of a function on the arguments in `args`: a call of a method on the first
/// argument where the function is a method, a call of the function itself where it is none.
pub open spec fn call_of(code: &Bytecode, s: StateV, fun: RefFun, args: Seq<Reg>) -> ExprV {
    match fun.spec_fn(code) {
        Some(g) => if g.spec_is_method() && args.len() > 0 {
            call_v(
                field_v(s.expr(args[0]), g.spec_name_default(code)),
                s.args_expr(args.skip(1)),
            )
        } else {
            call_v(ExprV::FunRef(fun), s.args_expr(args))
        },
        None => call_v(ExprV::FunRef(fun), s.args_expr(args)),
    }
}

/// A call of a function at `i`. Where an object was allocated into the first argument and
/// waits for its constructor, this is the call of the constructor, and the allocation gets
/// the other arguments. Any other call is noted in a comment and made.
pub open spec fn push_call(
    code: &Bytecode,
    f: &Function,
    s: StateV,
    i: int,
    dst: Reg,
    fun: RefFun,
    args: Seq<Reg>,
) -> StateV {
    let plain = finish_call(
        code,
        f,
        s.push_stmt(StmtV::Comment(fun.spec_display_id(code))),
        i,
        dst,
        call_of(code, s, fun, args),
        fun.spec_ty(code).unwrap().ret.0 == 0,
    );
    if s.ctx.len() > 0 && args.len() > 0 {
        match s.ctx.last() {
            ExprCtxV::Constructor { reg, pos } => if reg == args[0] {
                StateV { ctx: s.ctx.drop_last(), ..s }.push_expr(
                    code,
                    f,
                    pos as int,
                    reg,
                    ExprV::Constructor(f.regs@[reg.0 as int], s.args_expr(args.skip(1))),
                )
            } else {
                plain
            },
            _ => plain,
        }
    } else {
        plain
    }
}

/// The name of the method `field` of the type of `obj`, an object type.
pub open spec fn method_name(code: &Bytecode, f: &Function, obj: Reg, field: RefField) -> Seq<
    char,
> {
    let ty = reg_type(code, f, obj).spec_type_obj().unwrap();
    code.strings@[ty.protos@[field.0 as int].name.0 as int]@
}

/// The function bound to the method `field` of the type of `obj` returns nothing.
pub open spec fn method_is_void(code: &Bytecode, f: &Function, obj: Reg, field: RefField) -> bool {
    match reg_type(code, f, obj).spec_type_obj() {
        Some(ty) => match ty.protos@[field.0 as int].findex.spec_fn(code) {
            Some(g) => g.spec_ty(code).unwrap().ret.0 == 0,
            None => false,
        },
        None => false,
    }
}

/// The register holds a function that returns nothing.
pub open spec fn closure_is_void(code: &Bytecode, f: &Function, fun: Reg) -> bool {
    match reg_type(code, f, fun).spec_type_fun() {
        Some(ty) => ty.ret.0 == 0,
        None => false,
    }
}

/// The calls that are made through a register: of a method of the first argument, of a
/// method of `this`, and of a closure.
pub open spec fn push_indirect_call(
    code: &Bytecode,
    f: &Function,
    s: StateV,
    i: int,
    op: Opcode,
) -> Option<StateV> {
    match op {
        Opcode::CallMethod { dst, field, args } => Some(
            finish_call(
                code,
                f,
                s,
                i,
                dst,
                call_v(
                    field_v(
                        s.expr(args@[0]),
                        field.spec_display_obj(reg_type(code, f, args@[0]), code),
                    ),
                    s.args_expr(args@.skip(1)),
                ),
                method_is_void(code, f, args@[0], field),
            ),
        ),
        Opcode::CallThis { dst, field, args } => Some(
            finish_call(
                code,
                f,
                s,
                i,
                dst,
                call_v(
                    field_v(
                        ExprV::This,
                        method_name(code, f, Reg(0), field),
                    ),
                    s.args_expr(args@),
                ),
                method_is_void(code, f, Reg(0), field),
            ),
        ),
        Opcode::CallClosure { dst, fun, args } => Some(
            finish_call(
                code,
                f,
                s,
                i,
                dst,
                call_v(s.expr(fun), s.args_expr(args@)),
                closure_is_void(code, f, fun),
            ),
        ),
        _ => None,
    }
}

/// The text of the comment that stands before a closure.
pub open spec fn closure_comment(code: &Bytecode, fun: RefFun) -> Seq<char> {
    "closure: "@ + fun.spec_display_id(code)
}

/// The string that initialises a global.
pub open spec fn global_string(code: &Bytecode, global: RefGlobal) -> Seq<char> {
    let constant = code.constants.unwrap()@[code.globals_initializers@[global.0] as int];
    code.strings@[constant.fields@[0] as int]@
}

/// A global read into `dst`: the string where `dst` is a string, the class by its name
/// where `dst` is an object, a placeholder where `dst` is an enum, and nothing otherwise.
pub open spec fn push_global(
    code: &Bytecode,
    f: &Function,
    s: StateV,
    i: int,
    dst: Reg,
    global: RefGlobal,
) -> StateV {
    if f.regs@[dst.0 as int].0 == STRING_TYPE {
        s.push_expr(code, f, i, dst, string_v(global_string(code, global)))
    } else {
        match *reg_type(code, f, dst) {
            Type::Obj(ty) => s.push_expr(
                code,
                f,
                i,
                dst,
                ExprV::Variable(dst, Some(code.strings@[ty.name.0 as int]@)),
            ),
            Type::Struct(ty) => s.push_expr(
                code,
                f,
                i,
                dst,
                ExprV::Variable(dst, Some(code.strings@[ty.name.0 as int]@)),
            ),
            Type::Enum { .. } => s.push_expr(
                code,
                f,
                i,
                dst,
                unknown_v("unknown enum variant"@),
            ),
            _ => s,
        }
    }
}

/// An allocation into `dst` at `i`. An object waits for the call of its constructor, an
/// anonymous structure for its fields unless it has none, and anything else is a
/// constructor call without arguments.
pub open spec fn push_new(code: &Bytecode, f: &Function, s: StateV, i: int, dst: Reg) -> StateV {
    match *reg_type(code, f, dst) {
        Type::Obj(_) => StateV {
            ctx: s.ctx.push(ExprCtxV::Constructor { reg: dst, pos: i as usize }),
            ..s
        },
        Type::Struct(_) => StateV {
            ctx: s.ctx.push(ExprCtxV::Constructor { reg: dst, pos: i as usize }),
            ..s
        },
        Type::Virtual { fields } => if fields@.len() == 0 {
            s.push_expr(code, f, i, dst, ExprV::Anonymous(f.regs@[dst.0 as int], Seq::empty()))
        } else {
            StateV {
                ctx: s.ctx.push(
                    ExprCtxV::Anonymous {
                        pos: i as usize,
                        fields: Seq::empty(),
                        remaining: fields@.len() as usize,
                    },
                ),
                ..s
            }
        },
        _ => s.push_expr(
            code,
            f,
            i,
            dst,
            ExprV::Constructor(f.regs@[dst.0 as int], Seq::empty()),
        ),
    }
}

/// The first index from `from` on at which a value is given to `field`.
pub open spec fn field_index(fields: Seq<(RefField, ExprV)>, field: RefField, from: int) -> Option<
    int,
>
    decreases fields.len() - from,
{
    if from < 0 || from >= fields.len() {
        None
    } else if fields[from].0 == field {
        Some(from)
    } else {
        field_index(fields, field, from + 1)
    }
}

/// The fields with `field` set to `e`: in the place of the value that it had, or behind the
/// others where it had none.
pub open spec fn set_field(fields: Seq<(RefField, ExprV)>, field: RefField, e: ExprV) -> Seq<
    (RefField, ExprV),
> {
    match field_index(fields, field, 0) {
        Some(k) => fields.update(k, (field, e)),
        None => fields.push((field, e)),
    }
}

/// Where `field` has no value, none of the fields is `field`; where it has one, the index
/// is that of a value of `field`.
pub proof fn lemma_field_index(fields: Seq<(RefField, ExprV)>, field: RefField, from: int)
    requires
        0 <= from,
    ensures
        match field_index(fields, field, from) {
            Some(k) => from <= k < fields.len() && fields[k].0 == field,
            None => forall|k: int| from <= k < fields.len() ==> (#[trigger] fields[k]).0 != field,
        },
    decreases fields.len() - from,
{
    if from < fields.len() && fields[from].0 != field {
        lemma_field_index(fields, field, from + 1);
    }
}

/// A field that is set stays the only one of its name: fields that are each given one
/// value are so still when one of them is set.
pub proof fn lemma_set_field_distinct(fields: Seq<(RefField, ExprV)>, field: RefField, e: ExprV)
    requires
        fields_are_distinct(fields),
    ensures
        fields_are_distinct(set_field(fields, field, e)),
{
    lemma_field_index(fields, field, 0);
}

/// A field of `obj` is set. Where an anonymous structure waits for its fields, this is one
/// of them, and the last of them completes the structure, which `obj` then holds. Any other
/// field set is an assignment.
pub open spec fn push_set_field(
    code: &Bytecode,
    f: &Function,
    s: StateV,
    obj: Reg,
    field: RefField,
    src: Reg,
) -> StateV {
    let plain = s.push_stmt(
        assign_v(
            field_v(s.expr(obj), field.spec_display_obj(reg_type(code, f, obj), code)),
            s.expr(src),
        ),
    );
    if s.ctx.len() > 0 {
        match s.ctx.last() {
            ExprCtxV::Anonymous { pos, fields, remaining } => {
                let fields = set_field(fields, field, s.expr(src));
                if remaining == 1 {
                    StateV { ctx: s.ctx.drop_last(), ..s }.push_expr(
                        code,
                        f,
                        pos as int,
                        obj,
                        ExprV::Anonymous(f.regs@[obj.0 as int], fields),
                    )
                } else {
                    StateV {
                        ctx: s.ctx.drop_last().push(
                            ExprCtxV::Anonymous {
                                pos,
                                fields,
                                remaining: (remaining - 1) as usize,
                            },
                        ),
                        ..s
                    }
                }
            },
            _ => plain,
        }
    } else {
        plain
    }
}

/// What the instruction at `i` does to the state, but for the closures and for the move of
/// the cursor.
#[verifier::opaque]
pub open spec fn step_op(code: &Bytecode, f: &Function, s: StateV, i: int) -> Result<
    StateV,
    DecompileError,
> {
    let op = f.ops@[i];
    match op {
        Opcode::JAlways { offset } => jump_always(f, s, i, offset),
        Opcode::Switch { reg, offsets, end } => Ok(
            StateV {
                scopes: s.scopes.push_switch(
                    jump_target(i, end) as usize,
                    s.expr(reg),
                    switch_targets(i, offsets@),
                ),
                ..s
            },
        ),
        Opcode::Label => Ok(StateV { scopes: s.scopes.push_loop(i as usize), ..s }),
        Opcode::Ret { ret } => Ok(push_ret(f, s, ret)),
        Opcode::Trap { offset, .. } => Ok(
            StateV { scopes: s.scopes.push_try(jump_target(i, offset) as usize), ..s },
        ),
        Opcode::Mov { dst, src } => Ok(
            s.push_expr(code, f, i, dst, s.expr(src)).set_reg(
                src,
                ExprV::Variable(dst, f.spec_var_name(code, i)),
            ),
        ),
        Opcode::Call0 { dst, fun } => Ok(push_call(code, f, s, i, dst, fun, seq![])),
        Opcode::Call1 { dst, fun, arg0 } => Ok(push_call(code, f, s, i, dst, fun, seq![arg0])),
        Opcode::Call2 { dst, fun, arg0, arg1 } => Ok(
            push_call(code, f, s, i, dst, fun, seq![arg0, arg1]),
        ),
        Opcode::Call3 { dst, fun, arg0, arg1, arg2 } => Ok(
            push_call(code, f, s, i, dst, fun, seq![arg0, arg1, arg2]),
        ),
        Opcode::Call4 { dst, fun, arg0, arg1, arg2, arg3 } => Ok(
            push_call(code, f, s, i, dst, fun, seq![arg0, arg1, arg2, arg3]),
        ),
        Opcode::CallN { dst, fun, args } => Ok(push_call(code, f, s, i, dst, fun, args@)),
        Opcode::GetGlobal { dst, global } => Ok(push_global(code, f, s, i, dst, global)),
        Opcode::SetField { obj, field, src } => Ok(push_set_field(code, f, s, obj, field, src)),
        Opcode::New { dst } => Ok(push_new(code, f, s, i, dst)),
        _ => match jump_cond(s, op) {
            Some((cond, offset)) => Ok(push_jmp(f, s, i, offset, cond)),
            None => match push_indirect_call(code, f, s, i, op) {
                Some(next) => Ok(next),
                None => match value_of(code, f, s, op) {
                    Some((dst, e)) => Ok(s.push_expr(code, f, i, dst, e)),
                    None => match stmts_of(code, f, s, op) {
                        Some(stmts) => Ok(push_stmts(s, stmts)),
                        None => Ok(s),
                    },
                },
            },
        },
    }
}

/// The function whose body a closure made at this instruction holds: that of a static
/// closure, and that of an instance closure that captures an enum.
pub open spec fn closure_body_of(code: &Bytecode, f: &Function, op: Opcode) -> Option<RefFun> {
    match op {
        Opcode::StaticClosure { fun, .. } => Some(fun),
        Opcode::InstanceClosure { fun, obj, .. } => match *reg_type(code, f, obj) {
            Type::Enum { .. } => Some(fun),
            _ => None,
        },
        _ => None,
    }
}

/// A closure made at `i` whose body is `body`.
pub open spec fn push_closure(
    code: &Bytecode,
    f: &Function,
    s: StateV,
    i: int,
    dst: Reg,
    fun: RefFun,
    body: Seq<StmtV>,
) -> StateV {
    s.push_stmt(StmtV::Comment(closure_comment(code, fun))).push_expr(
        code,
        f,
        i,
        dst,
        ExprV::Closure(fun, body),
    )
}

/// A method bound to the object in `obj` at `i`.
pub open spec fn push_bound_method(
    code: &Bytecode,
    f: &Function,
    s: StateV,
    i: int,
    dst: Reg,
    obj: Reg,
    fun: RefFun,
) -> StateV {
    s.push_stmt(StmtV::Comment(closure_comment(code, fun))).push_expr(
        code,
        f,
        i,
        dst,
        field_v(s.expr(obj), fun.spec_fn(code).unwrap().spec_name_default(code)),
    )
}

/// What the instruction at `i` does to the state. Closures may nest `depth` deep. What is
/// noted while the body of a closure is decompiled is noted for the function as well.
pub open spec fn step(code: &Bytecode, f: &Function, s: StateV, i: int, depth: nat) -> Result<
    StateV,
    DecompileError,
>
    decreases depth, 0nat,
{
    let op = f.ops@[i];
    let next = match op {
        Opcode::StaticClosure { dst, fun } => if depth == 0 {
            Err(DecompileError::ClosuresTooDeep)
        } else {
            match lift(code, fun.spec_fn(code).unwrap(), (depth - 1) as nat) {
                Ok(body) => Ok(
                    push_closure(code, f, s, i, dst, fun, body).note_all(
                        lift_notes(code, fun.spec_fn(code).unwrap(), (depth - 1) as nat),
                    ),
                ),
                Err(e) => Err(e),
            }
        },
        Opcode::InstanceClosure { dst, fun, obj } => if closure_body_of(code, f, op) is Some {
            if depth == 0 {
                Err(DecompileError::ClosuresTooDeep)
            } else {
                match lift(code, fun.spec_fn(code).unwrap(), (depth - 1) as nat) {
                    Ok(body) => Ok(
                        push_closure(code, f, s, i, dst, fun, body).note_all(
                            lift_notes(code, fun.spec_fn(code).unwrap(), (depth - 1) as nat),
                        ),
                    ),
                    Err(e) => Err(e),
                }
            }
        } else {
            Ok(push_bound_method(code, f, s, i, dst, obj, fun))
        },
        _ => step_op(code, f, s, i),
    };
    match next {
        Ok(next) => Ok(StateV { scopes: next.scopes.advance(), ..next }),
        Err(e) => Err(e),
    }
}

/// The state after the instructions from `i` on.
pub open spec fn run(code: &Bytecode, f: &Function, s: StateV, i: int, depth: nat) -> Result<
    StateV,
    DecompileError,
>
    decreases depth, 1 + f.ops@.len() - i,
{
    if i < 0 || i >= f.ops@.len() {
        Ok(s)
    } else {
        match step(code, f, s, i, depth) {
            Ok(next) => run(code, f, next, i + 1, depth),
            Err(e) => Err(e),
        }
    }
}

/// The statements of a function whose closures nest at most `depth` deep.
pub open spec fn lift(code: &Bytecode, f: &Function, depth: nat) -> Result<
    Seq<StmtV>,
    DecompileError,
>
    decreases depth, 2 + f.ops@.len(),
{
    match run(code, f, StateV::initial(code, f), 0, depth) {
        Ok(s) => Ok(post_stmts(code, s.scopes.statements())),
        Err(e) => Err(e),
    }
}

/// What is passed over or settled while a function is decompiled, in the order in which
/// it comes up, with what comes up in the bodies of its closures. Empty where the function
/// cannot be decompiled.
pub open spec fn lift_notes(code: &Bytecode, f: &Function, depth: nat) -> Seq<Diagnostic>
    decreases depth, 2 + f.ops@.len(),
{
    match run(code, f, StateV::initial(code, f), 0, depth) {
        Ok(s) => s.notes,
        Err(e) => Seq::empty(),
    }
}

} // verus!
