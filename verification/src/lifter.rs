//! The decompiler: one pass over the instructions of a function, which keeps the state of
//! the registers and of the open scopes and leaves the statements of the function.

use crate::ast::{
    array, assign, binary, binary_v, call, call_fun, comment, cst_bool, cst_float, cst_int,
    cst_null, cst_refstring, cst_string, cst_this, field, field_named, fields_view, group_ast_views,
    stmt, stmts_view, unary, unknown, BinaryKind, ConstructorCall, Expr, Method, MethodV, Statement,
    StmtV, UnaryKind,
};
use crate::fmt::decimal;
use crate::model::{
    call_of, closure_body_of, closure_comment, field_index, finish_call, first_index,
    has_later_jump_to, is_back_jump, jump_always, jump_cond, jumps_to, lemma_set_field_distinct,
    lift, lift_notes, method_is_void, push_call, push_closure, push_global, push_indirect_call,
    push_jmp, push_new, push_ret, push_set_field, push_stmts, run, set_field, step, step_op,
    stmts_of, switch_targets, value_of, DecompileError,
};
use crate::opcodes::Opcode;
use crate::post::visit;
use crate::state::{DecompilerState, Diagnostic, ExprCtx, ExprCtxV, StateV};
use crate::types::{Bytecode, Function, RefField, RefFun, RefGlobal, Reg, Type};
use crate::validity::{
    callee_ok, closure_ok, field_ok, forward_ok, jump_target, method_ok, op_wf, reg_ok, typed_reg,
    STRING_TYPE,
};
use vstd::prelude::*;

verus! {

broadcast use {group_ast_views, vstd::std_specs::hash::group_hash_axioms};

/// The index of the instruction that a jump forward at `i` leads to.
pub fn jump_end(i: usize, offset: i32, len: usize) -> (r: usize)
    requires
        0 <= offset,
        jump_target(i as int, offset) <= len,
    ensures
        r == jump_target(i as int, offset),
{
    i + (offset as usize) + 1
}

/// True where a jump at `j` leads to the instruction at `target`.
pub fn jump_reaches(j: usize, offset: i32, target: usize) -> (r: bool)
    ensures
        r == (jump_target(j as int, offset) == target),
{
    if offset >= 0 {
        target > j && target - j - 1 == offset as usize
    } else {
        let back = (-(offset as i64) - 1) as usize;
        j >= target && j - target == back
    }
}

/// True where the instruction is an unconditional jump backward.
pub fn op_is_back_jump(op: &Opcode) -> (r: bool)
    ensures
        r == is_back_jump(*op),
{
    match op {
        Opcode::JAlways { offset } => *offset < 0,
        _ => false,
    }
}

/// The first index at which `x` stands in `v`.
pub fn position(v: &Vec<usize>, x: usize) -> (r: Option<usize>)
    ensures
        match r {
            Some(k) => first_index(v@, x, 0) == Some(k as int) && k < v@.len(),
            None => first_index(v@, x, 0) is None,
        },
{
    let mut k: usize = 0;
    while k < v.len()
        invariant
            k <= v@.len(),
            first_index(v@, x, 0) == first_index(v@, x, k as int),
        decreases v.len() - k,
    {
        if v[k] == x {
            return Some(k);
        }
        k += 1;
    }
    None
}

/// True where an unconditional jump to `target` comes after the instruction at `i`.
pub fn later_jump_to(f: &Function, i: usize, target: usize) -> (r: bool)
    requires
        i < f.ops@.len(),
    ensures
        r == has_later_jump_to(f, i as int, target as int),
{
    let n = f.ops.len();
    let mut j: usize = i + 1;
    while j < n
        invariant
            i < j <= f.ops@.len(),
            forall|k: int| i < k < j ==> !#[trigger] jumps_to(f, k, target as int),
            n == f.ops@.len(),
        decreases n - j,
    {
        match &f.ops[j] {
            Opcode::JAlways { offset } => {
                if jump_reaches(j, *offset, target) {
                    assert(jumps_to(f, j as int, target as int));
                    return true;
                }
            },
            _ => {},
        }
        j += 1;
    }
    false
}

impl DecompilerState {
    /// Process a jmp instruction, might be the exit condition of a loop or an if
    pub fn push_jmp(&mut self, f: &Function, i: usize, offset: i32, cond: Expr)
        requires
            old(self)@.wf(f),
            i < f.ops@.len(),
            forward_ok(f, i as int, offset),
        ensures
            final(self)@ == push_jmp(f, old(self)@, i as int, offset, cond@),
            final(self)@.wf(f),
            final(self).scopes.cursor == old(self).scopes.cursor,
    {
        if offset > 0 {
            let end = jump_end(i, offset, f.ops.len());
            if op_is_back_jump(&f.ops[end - 1]) {
                let unset = match self.scopes.last_loop_cond() {
                    Some(Expr::Unknown(_)) => true,
                    _ => false,
                };
                if unset {
                    self.scopes.set_last_loop_cond(cond);
                    self.notes.push(Diagnostic::LoopCondition { fun: f.findex, pos: i });
                } else {
                    self.scopes.push_if(end, cond);
                }
            } else {
                self.scopes.push_if(end, cond);
            }
        }
    }

    /// An unconditional jump at `i`.
    pub fn jump_always(&mut self, f: &Function, i: usize, offset: i32) -> (r: Result<
        (),
        DecompileError,
    >)
        requires
            old(self)@.wf(f),
            i < f.ops@.len(),
            forward_ok(f, i as int, offset),
        ensures
            match jump_always(f, old(self)@, i as int, offset) {
                Ok(next) => {
                    &&& r is Ok
                    &&& final(self)@ == next
                    &&& final(self)@.wf(f)
                    &&& final(self).scopes.cursor == old(self).scopes.cursor
                },
                Err(e) => r == Err::<(), DecompileError>(e),
            },
    {
        if offset < 0 {
            let start = match self.scopes.last_loop_start() {
                Some(start) => start,
                None => {
                    return Err(DecompileError::BackwardJumpOutsideLoop);
                },
            };
            if later_jump_to(f, i, start) {
                self.scopes.push_stmt(Statement::Continue);
                Ok(())
            } else {
                match self.scopes.end_last_loop() {
                    Some(stmt) => {
                        self.scopes.push_stmt(stmt);
                        Ok(())
                    },
                    None => Err(DecompileError::LoopNotInnermost),
                }
            }
        } else {
            let case = match self.scopes.last_is_switch_ctx() {
                Some(targets) => Some(position(targets, i)),
                None => None,
            };
            match case {
                Some(Some(case)) => {
                    self.scopes.push_switch_case(case);
                    Ok(())
                },
                Some(None) => Err(DecompileError::NoSwitchCase),
                None => {
                    if self.scopes.last_loop_start().is_some() {
                        let end = jump_end(i, offset, f.ops.len());
                        if op_is_back_jump(&f.ops[end - 1]) {
                            self.scopes.push_stmt(Statement::Break);
                        }
                    } else if self.scopes.last_is_if() {
                        let end = jump_end(i, offset, f.ops.len());
                        self.scopes.push_else(end);
                    } else {
                        self.notes.push(Diagnostic::JumpWithoutScope { fun: f.findex, pos: i });
                    }
                    Ok(())
                },
            }
        }
    }
}

impl DecompilerState {
    /// The condition under which a conditional jump is not taken, with the offset of the
    /// jump. `None` for any other instruction.
    pub fn jump_cond(&self, op: &Opcode) -> (r: Option<(Expr, i32)>)
        ensures
            match r {
                Some((cond, offset)) => jump_cond(self@, *op) == Some((cond@, offset)),
                None => jump_cond(self@, *op) is None,
            },
    {
        match op {
            Opcode::JTrue { cond, offset } => Some(
                (unary(UnaryKind::Not, self.expr(*cond)), *offset),
            ),
            Opcode::JFalse { cond, offset } => Some((self.expr(*cond), *offset)),
            Opcode::JNull { reg, offset } => Some(
                (binary(BinaryKind::NotEq, self.expr(*reg), cst_null()), *offset),
            ),
            Opcode::JNotNull { reg, offset } => Some(
                (binary(BinaryKind::Eq, self.expr(*reg), cst_null()), *offset),
            ),
            Opcode::JSGte { a, b, offset } => Some(
                (binary(BinaryKind::Gt, self.expr(*b), self.expr(*a)), *offset),
            ),
            Opcode::JUGte { a, b, offset } => Some(
                (binary(BinaryKind::Gt, self.expr(*b), self.expr(*a)), *offset),
            ),
            Opcode::JSGt { a, b, offset } => Some(
                (binary(BinaryKind::Gte, self.expr(*b), self.expr(*a)), *offset),
            ),
            Opcode::JSLte { a, b, offset } => Some(
                (binary(BinaryKind::Lt, self.expr(*b), self.expr(*a)), *offset),
            ),
            Opcode::JSLt { a, b, offset } => Some(
                (binary(BinaryKind::Lte, self.expr(*b), self.expr(*a)), *offset),
            ),
            Opcode::JULt { a, b, offset } => Some(
                (binary(BinaryKind::Lte, self.expr(*b), self.expr(*a)), *offset),
            ),
            Opcode::JEq { a, b, offset } => Some(
                (binary(BinaryKind::NotEq, self.expr(*a), self.expr(*b)), *offset),
            ),
            Opcode::JNotEq { a, b, offset } => Some(
                (binary(BinaryKind::Eq, self.expr(*a), self.expr(*b)), *offset),
            ),
            _ => None,
        }
    }

    /// The expression of an instruction with two operands.
    fn binary_of(&self, kind: BinaryKind, a: Reg, b: Reg) -> (r: Expr)
        ensures
            r@ == binary_v(kind, self@.expr(a), self@.expr(b)),
    {
        binary(kind, self.expr(a), self.expr(b))
    }

    /// The register and the value that the instruction at `i` computes, for the
    /// instructions that do nothing but compute a value from registers and constants.
    /// `None` for any other instruction.
    pub fn value_of(&self, code: &Bytecode, f: &Function, i: usize) -> (r: Option<(Reg, Expr)>)
        requires
            i < f.ops@.len(),
            op_wf(code, f, i as int),
        ensures
            match r {
                Some((dst, e)) => value_of(code, f, self@, f.ops@[i as int]) == Some((dst, e@)),
                None => value_of(code, f, self@, f.ops@[i as int]) is None,
            },
    {
        match &f.ops[i] {
            Opcode::Int { dst, ptr } => Some((*dst, cst_int(ptr.resolve(code.ints.as_slice())))),
            Opcode::Float { dst, ptr } => Some(
                (*dst, cst_float(ptr.resolve(code.floats.as_slice()))),
            ),
            Opcode::Bool { dst, value } => Some((*dst, cst_bool(value.0))),
            Opcode::String { dst, ptr } => Some((*dst, cst_refstring(*ptr, code))),
            Opcode::Null { dst } => Some((*dst, cst_null())),
            Opcode::Add { dst, a, b } => Some((*dst, self.binary_of(BinaryKind::Add, *a, *b))),
            Opcode::Sub { dst, a, b } => Some((*dst, self.binary_of(BinaryKind::Sub, *a, *b))),
            Opcode::Mul { dst, a, b } => Some((*dst, self.binary_of(BinaryKind::Mul, *a, *b))),
            Opcode::SDiv { dst, a, b } => Some((*dst, self.binary_of(BinaryKind::Div, *a, *b))),
            Opcode::UDiv { dst, a, b } => Some((*dst, self.binary_of(BinaryKind::Div, *a, *b))),
            Opcode::SMod { dst, a, b } => Some((*dst, self.binary_of(BinaryKind::Mod, *a, *b))),
            Opcode::UMod { dst, a, b } => Some((*dst, self.binary_of(BinaryKind::Mod, *a, *b))),
            Opcode::Shl { dst, a, b } => Some((*dst, self.binary_of(BinaryKind::Shl, *a, *b))),
            Opcode::SShr { dst, a, b } => Some((*dst, self.binary_of(BinaryKind::Shr, *a, *b))),
            Opcode::UShr { dst, a, b } => Some((*dst, self.binary_of(BinaryKind::Shr, *a, *b))),
            Opcode::And { dst, a, b } => Some((*dst, self.binary_of(BinaryKind::And, *a, *b))),
            Opcode::Or { dst, a, b } => Some((*dst, self.binary_of(BinaryKind::Or, *a, *b))),
            Opcode::Xor { dst, a, b } => Some((*dst, self.binary_of(BinaryKind::Xor, *a, *b))),
            Opcode::Neg { dst, src } => Some((*dst, unary(UnaryKind::Neg, self.expr(*src)))),
            Opcode::Not { dst, src } => Some((*dst, unary(UnaryKind::Not, self.expr(*src)))),
            Opcode::ToDyn { dst, src } => Some((*dst, self.expr(*src))),
            Opcode::ToSFloat { dst, src } => Some((*dst, self.expr(*src))),
            Opcode::ToUFloat { dst, src } => Some((*dst, self.expr(*src))),
            Opcode::ToInt { dst, src } => Some((*dst, self.expr(*src))),
            Opcode::SafeCast { dst, src } => Some((*dst, self.expr(*src))),
            Opcode::UnsafeCast { dst, src } => Some((*dst, self.expr(*src))),
            Opcode::ToVirtual { dst, src } => Some((*dst, self.expr(*src))),
            Opcode::Ref { dst, src } => Some((*dst, self.expr(*src))),
            Opcode::Unref { dst, src } => Some((*dst, self.expr(*src))),
            Opcode::RefData { dst, src } => Some((*dst, self.expr(*src))),
            Opcode::Field { dst, obj, field: index } => Some(
                (*dst, field(self.expr(*obj), f.regtype(*obj), *index, code)),
            ),
            Opcode::GetThis { dst, field: index } => Some(
                (*dst, field(cst_this(), f.regtype(Reg(0)), *index, code)),
            ),
            Opcode::DynGet { dst, obj, field: name } => Some(
                (*dst, array(self.expr(*obj), cst_refstring(*name, code))),
            ),
            Opcode::EnumAlloc { dst, construct } => Some(
                (*dst, Expr::EnumConstr(f.regtype(*dst), *construct, Vec::new())),
            ),
            Opcode::MakeEnum { dst, construct, args } => Some(
                (
                    *dst,
                    Expr::EnumConstr(f.regtype(*dst), *construct, self.args_expr(args.as_slice())),
                ),
            ),
            Opcode::EnumIndex { dst, value } => Some(
                (*dst, field_named(self.expr(*value), "constructorIndex".to_owned())),
            ),
            Opcode::EnumField { dst, value, field: index, .. } => Some(
                (*dst, field_named(self.expr(*value), decimal(index.0))),
            ),
            Opcode::ArraySize { dst, array: a } => Some(
                (*dst, field_named(self.expr(*a), "length".to_owned())),
            ),
            Opcode::GetArray { dst, array: a, index } => Some(
                (*dst, array(self.expr(*a), self.expr(*index))),
            ),
            Opcode::GetMem { dst, bytes, index } => Some(
                (*dst, array(self.expr(*bytes), self.expr(*index))),
            ),
            _ => None,
        }
    }

    /// Appends the statements that the instruction at `i` stands for, for the instructions
    /// that do nothing but make statements from registers and constants. Returns false,
    /// and leaves the state as it is, for any other instruction.
    pub fn push_stmts_of(&mut self, code: &Bytecode, f: &Function, i: usize) -> (r: bool)
        requires
            old(self)@.wf(f),
            i < f.ops@.len(),
            op_wf(code, f, i as int),
        ensures
            final(self)@.wf(f),
            final(self).scopes.cursor == old(self).scopes.cursor,
            match stmts_of(code, f, old(self)@, f.ops@[i as int]) {
                Some(stmts) => r && final(self)@ == push_stmts(old(self)@, stmts),
                None => !r && final(self)@ == old(self)@,
            },
    {
        let ghost before = self@;
        let made = match &f.ops[i] {
            Opcode::Incr { dst } => Some(stmt(unary(UnaryKind::Incr, self.expr(*dst)))),
            Opcode::Decr { dst } => Some(stmt(unary(UnaryKind::Decr, self.expr(*dst)))),
            Opcode::Throw { exc } => Some(Statement::Throw(self.expr(*exc))),
            Opcode::Rethrow { exc } => Some(Statement::Throw(self.expr(*exc))),
            Opcode::SetThis { field: index, src } => Some(
                assign(field(cst_this(), f.regtype(Reg(0)), *index, code), self.expr(*src)),
            ),
            Opcode::DynSet { obj, field: name, src } => Some(
                assign(array(self.expr(*obj), cst_refstring(*name, code)), self.expr(*src)),
            ),
            Opcode::Setref { dst, value } => Some(assign(self.expr(*dst), self.expr(*value))),
            Opcode::SetEnumField { value, field: index, src } => {
                let target = self.expr(*value);
                let captured = match &target {
                    Expr::Variable(_, _) => false,
                    _ => true,
                };
                if captured {
                    self.scopes.push_stmt(comment("closure capture".to_owned()));
                }
                Some(assign(field_named(target, decimal(index.0)), self.expr(*src)))
            },
            Opcode::SetArray { array: a, index, src } => Some(
                assign(array(self.expr(*a), self.expr(*index)), self.expr(*src)),
            ),
            Opcode::SetMem { bytes, index, src } => Some(
                assign(array(self.expr(*bytes), self.expr(*index)), self.expr(*src)),
            ),
            _ => None,
        };
        match made {
            Some(s) => {
                proof {
                    let stmts = stmts_of(code, f, before, f.ops@[i as int]).unwrap();
                    lemma_push_stmts(before, stmts);
                }
                self.scopes.push_stmt(s);
                true
            },
            None => false,
        }
    }
}

/// One statement or two, pushed in their order.
pub proof fn lemma_push_stmts(s: StateV, stmts: Seq<StmtV>)
    ensures
        stmts.len() == 1 ==> push_stmts(s, stmts) == s.push_stmt(stmts[0]),
        stmts.len() == 2 ==> push_stmts(s, stmts) == s.push_stmt(stmts[0]).push_stmt(stmts[1]),
{
    if stmts.len() == 1 {
        assert(push_stmts(s, stmts.drop_last()) == s);
    }
    if stmts.len() == 2 {
        assert(push_stmts(s, stmts.drop_last().drop_last()) == s);
        assert(push_stmts(s, stmts.drop_last()) == s.push_stmt(stmts[0]));
    }
}

impl DecompilerState {
    /// A call whose result is void is a statement; any other gives `dst` its value.
    pub fn finish_call(
        &mut self,
        code: &Bytecode,
        f: &Function,
        i: usize,
        dst: Reg,
        call: Expr,
        void: bool,
    )
        requires
            old(self)@.wf(f),
            f.assigns_valid(code),
        ensures
            final(self)@ == finish_call(code, f, old(self)@, i as int, dst, call@, void),
            final(self)@.wf(f),
            final(self).scopes.cursor == old(self).scopes.cursor,
    {
        if void {
            self.push_stmt(stmt(call));
        } else {
            self.push_expr(code, f, i, dst, call);
        }
    }

    /// The call of a function on the arguments in `args`.
    pub fn call_of(&self, code: &Bytecode, fun: RefFun, args: &[Reg]) -> (r: Expr)
        requires
            callee_ok(code, fun),
        ensures
            r@ == call_of(code, self@, fun, args@),
    {
        match fun.resolve_as_fn(code) {
            Some(g) => {
                if g.is_method() && args.len() > 0 {
                    call(
                        field_named(self.expr(args[0]), g.name_default(code).to_owned()),
                        self.args_expr_from(args, 1),
                    )
                } else {
                    call_fun(fun, self.args_expr(args))
                }
            },
            None => call_fun(fun, self.args_expr(args)),
        }
    }

    /// Push a call to a function, which might be a constructor call.
    pub fn push_call(
        &mut self,
        code: &Bytecode,
        f: &Function,
        i: usize,
        dst: Reg,
        fun: RefFun,
        args: &[Reg],
    )
        requires
            old(self)@.wf(f),
            f.assigns_valid(code),
            callee_ok(code, fun),
        ensures
            final(self)@ == push_call(code, f, old(self)@, i as int, dst, fun, args@),
            final(self)@.wf(f),
            final(self).scopes.cursor == old(self).scopes.cursor,
    {
        let n = self.expr_ctx.len();
        let pending = if n > 0 && args.len() > 0 {
            match &self.expr_ctx[n - 1] {
                ExprCtx::Constructor { reg, pos } => {
                    if *reg == args[0] {
                        Some((*reg, *pos))
                    } else {
                        None
                    }
                },
                _ => None,
            }
        } else {
            None
        };
        match pending {
            Some((reg, pos)) => {
                // what holds of every pending expression holds of the last
                assert(old(self)@.ctx[n - 1] == old(self).expr_ctx@[n - 1]@);
                let made = Expr::Constructor(
                    ConstructorCall::new(f.regtype(reg), self.args_expr_from(args, 1)),
                );
                self.expr_ctx.pop();
                assert(self@.ctx =~= old(self)@.ctx.drop_last());
                self.push_expr(code, f, pos, reg, made);
            },
            None => {
                let made = self.call_of(code, fun, args);
                let void = fun.ty(code).ret.is_void();
                self.push_stmt(comment(fun.display_id(code)));
                self.finish_call(code, f, i, dst, made, void);
            },
        }
    }

    /// The calls that are made through a register: of a method of the first argument, of a
    /// method of `this`, and of a closure. Returns false, and leaves the state as it is,
    /// for any other instruction.
    pub fn push_indirect_call(&mut self, code: &Bytecode, f: &Function, i: usize) -> (r: bool)
        requires
            old(self)@.wf(f),
            f.assigns_valid(code),
            i < f.ops@.len(),
            op_wf(code, f, i as int),
        ensures
            final(self)@.wf(f),
            final(self).scopes.cursor == old(self).scopes.cursor,
            match push_indirect_call(code, f, old(self)@, i as int, f.ops@[i as int]) {
                Some(next) => r && final(self)@ == next,
                None => !r && final(self)@ == old(self)@,
            },
    {
        match &f.ops[i] {
            Opcode::CallMethod { dst, field: index, args } => {
                let made = call(
                    field(self.expr(args[0]), f.regtype(args[0]), *index, code),
                    self.args_expr_from(args.as_slice(), 1),
                );
                let void = method_returns_void(code, f, args[0], *index);
                self.finish_call(code, f, i, *dst, made, void);
                true
            },
            Opcode::CallThis { dst, field: index, args } => {
                let method = f.regtype(Reg(0)).method(index.0, code).unwrap();
                let made = call(
                    field_named(cst_this(), method.name.display(code)),
                    self.args_expr(args.as_slice()),
                );
                let void = method_returns_void(code, f, Reg(0), *index);
                self.finish_call(code, f, i, *dst, made, void);
                true
            },
            Opcode::CallClosure { dst, fun, args } => {
                let made = call(self.expr(*fun), self.args_expr(args.as_slice()));
                let void = match f.regtype(*fun).resolve_as_fun(code.types.as_slice()) {
                    Some(ty) => ty.ret.is_void(),
                    None => false,
                };
                self.finish_call(code, f, i, *dst, made, void);
                true
            },
            _ => false,
        }
    }

    /// A global read into `dst` at `i`.
    pub fn push_global(
        &mut self,
        code: &Bytecode,
        f: &Function,
        i: usize,
        dst: Reg,
        global: RefGlobal,
    )
        requires
            old(self)@.wf(f),
            f.assigns_valid(code),
            i < f.ops@.len(),
            f.ops@[i as int] == (Opcode::GetGlobal { dst, global }),
            op_wf(code, f, i as int),
        ensures
            final(self)@ == push_global(code, f, old(self)@, i as int, dst, global),
            final(self)@.wf(f),
            final(self).scopes.cursor == old(self).scopes.cursor,
    {
        if f.regtype(dst).0 == STRING_TYPE {
            let init = *code.globals_initializers.get(&global.0).unwrap();
            match &code.constants {
                Some(constants) => {
                    let text = code.strings[constants[init].fields[0]].clone();
                    self.push_expr(code, f, i, dst, cst_string(text));
                },
                None => {},
            }
        } else {
            match f.regtype(dst).resolve(code.types.as_slice()) {
                Type::Obj(ty) => {
                    let class = Expr::Variable(dst, Some(ty.name.display(code)));
                    self.push_expr(code, f, i, dst, class);
                },
                Type::Struct(ty) => {
                    let class = Expr::Variable(dst, Some(ty.name.display(code)));
                    self.push_expr(code, f, i, dst, class);
                },
                Type::Enum { .. } => {
                    self.push_expr(code, f, i, dst, unknown("unknown enum variant"));
                },
                _ => {},
            }
        }
    }

    /// An allocation into `dst` at `i`.
    pub fn push_new(&mut self, code: &Bytecode, f: &Function, i: usize, dst: Reg)
        requires
            old(self)@.wf(f),
            f.assigns_valid(code),
            typed_reg(code, f, dst),
        ensures
            final(self)@ == push_new(code, f, old(self)@, i as int, dst),
            final(self)@.wf(f),
            final(self).scopes.cursor == old(self).scopes.cursor,
    {
        match f.regtype(dst).resolve(code.types.as_slice()) {
            Type::Obj(_) => {
                self.expr_ctx.push(ExprCtx::Constructor { reg: dst, pos: i });
                assert(self@.ctx =~= old(self)@.ctx.push(
                    ExprCtxV::Constructor { reg: dst, pos: i },
                ));
            },
            Type::Struct(_) => {
                self.expr_ctx.push(ExprCtx::Constructor { reg: dst, pos: i });
                assert(self@.ctx =~= old(self)@.ctx.push(
                    ExprCtxV::Constructor { reg: dst, pos: i },
                ));
            },
            Type::Virtual { fields } => {
                if fields.len() == 0 {
                    self.push_expr(code, f, i, dst, Expr::Anonymous(f.regtype(dst), Vec::new()));
                } else {
                    self.expr_ctx.push(
                        ExprCtx::Anonymous { pos: i, fields: Vec::new(), remaining: fields.len() },
                    );
                    assert(self@.ctx =~= old(self)@.ctx.push(
                        ExprCtxV::Anonymous {
                            pos: i,
                            fields: Seq::empty(),
                            remaining: fields@.len() as usize,
                        },
                    ));
                }
            },
            _ => {
                self.push_expr(
                    code,
                    f,
                    i,
                    dst,
                    Expr::Constructor(ConstructorCall::new(f.regtype(dst), Vec::new())),
                );
            },
        }
    }

    /// A field of `obj` is set.
    pub fn push_set_field(
        &mut self,
        code: &Bytecode,
        f: &Function,
        obj: Reg,
        index: RefField,
        src: Reg,
    )
        requires
            old(self)@.wf(f),
            f.assigns_valid(code),
            field_ok(code, f, obj, index),
        ensures
            final(self)@ == push_set_field(code, f, old(self)@, obj, index, src),
            final(self)@.wf(f),
            final(self).scopes.cursor == old(self).scopes.cursor,
    {
        let n = self.expr_ctx.len();
        let gathering = if n > 0 {
            match &self.expr_ctx[n - 1] {
                ExprCtx::Anonymous { .. } => true,
                _ => false,
            }
        } else {
            false
        };
        if gathering {
            // what holds of every pending expression holds of the last
            assert(old(self)@.ctx[n - 1] == old(self).expr_ctx@[n - 1]@);
            let value = self.expr(src);
            let top = self.expr_ctx.pop().unwrap();
            assert(self@.ctx =~= old(self)@.ctx.drop_last());
            match top {
                ExprCtx::Anonymous { pos, fields, remaining } => {
                    proof {
                        lemma_set_field_distinct(fields_view(fields@), index, value@);
                    }
                    let fields = set_field_value(fields, index, value);
                    if remaining == 1 {
                        self.push_expr(code, f, pos, obj, Expr::Anonymous(f.regtype(obj), fields));
                    } else {
                        self.expr_ctx.push(
                            ExprCtx::Anonymous { pos, fields, remaining: remaining - 1 },
                        );
                        assert(self@.ctx =~= old(self)@.ctx.drop_last().push(
                            ExprCtxV::Anonymous {
                                pos,
                                fields: fields_view(fields@),
                                remaining: (remaining - 1) as usize,
                            },
                        ));
                    }
                },
                _ => {},
            }
        } else {
            let target = field(self.expr(obj), f.regtype(obj), index, code);
            self.push_stmt(assign(target, self.expr(src)));
        }
    }

    /// A return of the register `ret`.
    pub fn push_ret(&mut self, f: &Function, ret: Reg)
        requires
            old(self)@.wf(f),
            reg_ok(f, ret),
        ensures
            final(self)@ == push_ret(f, old(self)@, ret),
            final(self)@.wf(f),
            final(self).scopes.cursor == old(self).scopes.cursor,
    {
        if f.regtype(ret).is_void() {
            if self.scopes.has_scopes() {
                self.push_stmt(Statement::Return(None));
            }
        } else {
            self.push_stmt(Statement::Return(Some(self.expr(ret))));
        }
    }
}

/// True where the function bound to the method `index` of the type of `obj` returns
/// nothing.
pub fn method_returns_void(code: &Bytecode, f: &Function, obj: Reg, index: RefField) -> (r: bool)
    requires
        typed_reg(code, f, obj),
        method_ok(code, f, obj, index),
    ensures
        r == method_is_void(code, f, obj, index),
{
    match f.regtype(obj).method(index.0, code) {
        Some(method) => match method.findex.resolve_as_fn(code) {
            Some(g) => g.ty(code).ret.is_void(),
            None => false,
        },
        None => false,
    }
}

/// Sets `index` to `value` among the fields: in the place of the value that it had, or
/// behind the others where it had none.
pub fn set_field_value(fields: Vec<(RefField, Expr)>, index: RefField, value: Expr) -> (r: Vec<
    (RefField, Expr),
>)
    ensures
        fields_view(r@) == set_field(fields_view(fields@), index, value@),
{
    let mut out = fields;
    let ghost before = fields_view(out@);
    let mut k: usize = 0;
    while k < out.len()
        invariant
            k <= out@.len(),
            fields_view(out@) == before,
            fields_view(fields@) == before,
            field_index(before, index, 0) == field_index(before, index, k as int),
        decreases out.len() - k,
    {
        if out[k].0 == index {
            out[k].1 = value;
            return out;
        }
        k += 1;
    }
    out.push((index, value));
    out
}

/// The places where the cases of a switch at `i` start.
pub fn switch_case_targets(i: usize, offsets: &Vec<i32>, len: usize) -> (r: Vec<usize>)
    requires
        forall|k: int|
            0 <= k < offsets@.len() ==> 0 <= #[trigger] offsets@[k] && i + offsets@[k] < len,
    ensures
        r@ == switch_targets(i as int, offsets@),
{
    let mut out: Vec<usize> = Vec::new();
    let mut k: usize = 0;
    while k < offsets.len()
        invariant
            k <= offsets@.len(),
            out@.len() == k,
            forall|j: int| 0 <= j < k ==> out@[j] == (i + offsets@[j]) as usize,
            forall|k: int|
                0 <= k < offsets@.len() ==> 0 <= #[trigger] offsets@[k] && i + offsets@[k] < len,
        decreases offsets.len() - k,
    {
        out.push(i + (offsets[k] as usize));
        k += 1;
    }
    out
}

/// The comment that stands before a closure.
pub fn closure_note(code: &Bytecode, fun: RefFun) -> (r: Statement)
    requires
        closure_ok(code, fun),
    ensures
        r@ == StmtV::Comment(closure_comment(code, fun)),
{
    let mut text = String::from_str("closure: ");
    text.append(fun.display_id(code).as_str());
    comment(text)
}

impl DecompilerState {
    /// What the instruction at `i` does, but for the closures and for the move of the
    /// cursor.
    pub fn step_op(&mut self, code: &Bytecode, f: &Function, i: usize) -> (r: Result<
        (),
        DecompileError,
    >)
        requires
            old(self)@.wf(f),
            f.wf(code),
            i < f.ops@.len(),
        ensures
            match step_op(code, f, old(self)@, i as int) {
                Ok(next) => {
                    &&& r is Ok
                    &&& final(self)@ == next
                    &&& final(self)@.wf(f)
                    &&& final(self).scopes.cursor == old(self).scopes.cursor
                },
                Err(e) => r == Err::<(), DecompileError>(e),
            },
    {
        proof {
            assert(op_wf(code, f, i as int));
            reveal(step_op);
        }
        let len = f.ops.len();
        match &f.ops[i] {
            Opcode::JAlways { offset } => {
                return self.jump_always(f, i, *offset);
            },
            Opcode::Switch { reg, offsets, end } => {
                let targets = switch_case_targets(i, offsets, len);
                self.scopes.push_switch(jump_end(i, *end, len), self.expr(*reg), targets);
            },
            Opcode::Label => {
                self.scopes.push_loop(i);
            },
            Opcode::Ret { ret } => {
                self.push_ret(f, *ret);
            },
            Opcode::Trap { offset, .. } => {
                self.scopes.push_try(jump_end(i, *offset, len));
            },
            Opcode::Mov { dst, src } => {
                let value = self.expr(*src);
                self.push_expr(code, f, i, *dst, value);
                let alias = Expr::Variable(*dst, f.var_name(code, i));
                let ghost before = self@;
                self.reg_state.insert(src.0, alias);
                assert(self@.regs =~= before.regs.insert(src.0, alias@));
            },
            Opcode::Call0 { dst, fun } => {
                let args: Vec<Reg> = Vec::new();
                self.push_call(code, f, i, *dst, *fun, args.as_slice());
            },
            Opcode::Call1 { dst, fun, arg0 } => {
                let args: Vec<Reg> = vec![*arg0];
                assert(args@ =~= seq![*arg0]);
                self.push_call(code, f, i, *dst, *fun, args.as_slice());
            },
            Opcode::Call2 { dst, fun, arg0, arg1 } => {
                let args: Vec<Reg> = vec![*arg0, *arg1];
                self.push_call(code, f, i, *dst, *fun, args.as_slice());
            },
            Opcode::Call3 { dst, fun, arg0, arg1, arg2 } => {
                let args: Vec<Reg> = vec![*arg0, *arg1, *arg2];
                self.push_call(code, f, i, *dst, *fun, args.as_slice());
            },
            Opcode::Call4 { dst, fun, arg0, arg1, arg2, arg3 } => {
                let args: Vec<Reg> = vec![*arg0, *arg1, *arg2, *arg3];
                self.push_call(code, f, i, *dst, *fun, args.as_slice());
            },
            Opcode::CallN { dst, fun, args } => {
                self.push_call(code, f, i, *dst, *fun, args.as_slice());
            },
            Opcode::GetGlobal { dst, global } => {
                self.push_global(code, f, i, *dst, *global);
            },
            Opcode::SetField { obj, field: index, src } => {
                self.push_set_field(code, f, *obj, *index, *src);
            },
            Opcode::New { dst } => {
                self.push_new(code, f, i, *dst);
            },
            op => {
                match self.jump_cond(op) {
                    Some((cond, offset)) => {
                        self.push_jmp(f, i, offset, cond);
                    },
                    None => {
                        if !self.push_indirect_call(code, f, i) {
                            match self.value_of(code, f, i) {
                                Some((dst, e)) => {
                                    self.push_expr(code, f, i, dst, e);
                                },
                                None => {
                                    self.push_stmts_of(code, f, i);
                                },
                            }
                        }
                    },
                }
            },
        }
        Ok(())
    }

    /// A closure made at `i` whose body is `body`.
    pub fn push_closure(
        &mut self,
        code: &Bytecode,
        f: &Function,
        i: usize,
        dst: Reg,
        fun: RefFun,
        body: Vec<Statement>,
    )
        requires
            old(self)@.wf(f),
            f.assigns_valid(code),
            closure_ok(code, fun),
        ensures
            final(self)@ == push_closure(
                code,
                f,
                old(self)@,
                i as int,
                dst,
                fun,
                stmts_view(body@),
            ),
            final(self)@.wf(f),
            final(self).scopes.cursor == old(self).scopes.cursor,
    {
        self.push_stmt(closure_note(code, fun));
        self.push_expr(code, f, i, dst, Expr::Closure(fun, body));
    }

    /// What the instruction at `i` does. Closures may nest `depth` deep.
    pub fn step(&mut self, code: &Bytecode, f: &Function, i: usize, depth: usize) -> (r: Result<
        (),
        DecompileError,
    >)
        requires
            old(self)@.wf(f),
            old(self).scopes.cursor == i,
            f.wf_within(code, depth as nat),
            i < f.ops@.len(),
        ensures
            match step(code, f, old(self)@, i as int, depth as nat) {
                Ok(next) => {
                    &&& r is Ok
                    &&& final(self)@ == next
                    &&& final(self)@.wf(f)
                    &&& final(self).scopes.cursor == i + 1
                },
                Err(e) => r == Err::<(), DecompileError>(e),
            },
        decreases depth, 0nat,
    {
        proof {
            assert(op_wf(code, f, i as int));
            // the cursor stays below the greatest index
            assert(f.ops@.len() == f.ops.len());
            // the function that a closure holds can be decompiled one level deeper
            assert(closure_body_of(code, f, f.ops@[i as int]) matches Some(fun) ==> depth > 0
                ==> fun.spec_fn(code).unwrap().wf_within(code, (depth - 1) as nat));
        }
        match &f.ops[i] {
            Opcode::StaticClosure { dst, fun } => {
                if depth == 0 {
                    return Err(DecompileError::ClosuresTooDeep);
                }
                let g = fun.resolve_as_fn(code).unwrap();
                match decompile_noting_within(code, g, depth - 1) {
                    Ok((body, mut notes)) => {
                        self.push_closure(code, f, i, *dst, *fun, body);
                        self.notes.append(&mut notes);
                    },
                    Err(e) => {
                        return Err(e);
                    },
                }
            },
            Opcode::InstanceClosure { dst, fun, obj } => {
                let captures = match f.regtype(*obj).resolve(code.types.as_slice()) {
                    Type::Enum { .. } => true,
                    _ => false,
                };
                let g = fun.resolve_as_fn(code).unwrap();
                if captures {
                    if depth == 0 {
                        return Err(DecompileError::ClosuresTooDeep);
                    }
                    match decompile_noting_within(code, g, depth - 1) {
                        Ok((body, mut notes)) => {
                            self.push_closure(code, f, i, *dst, *fun, body);
                            self.notes.append(&mut notes);
                        },
                        Err(e) => {
                            return Err(e);
                        },
                    }
                } else {
                    let bound = field_named(self.expr(*obj), g.name_default(code).to_owned());
                    self.push_stmt(closure_note(code, *fun));
                    self.push_expr(code, f, i, *dst, bound);
                }
            },
            _ => {
                match self.step_op(code, f, i) {
                    Ok(()) => {},
                    Err(e) => {
                        return Err(e);
                    },
                }
            },
        }
        self.scopes.advance();
        Ok(())
    }
}

/// Decompiles a function whose closures nest at most `depth` deep, and hands out with its
/// statements what was passed over or settled on the way.
pub fn decompile_noting_within(code: &Bytecode, f: &Function, depth: usize) -> (r: Result<
    (Vec<Statement>, Vec<Diagnostic>),
    DecompileError,
>)
    requires
        f.wf_within(code, depth as nat),
    ensures
        match lift(code, f, depth as nat) {
            Ok(stmts) => r matches Ok(v) && stmts_view(v.0@) == stmts && v.1@ == lift_notes(
                code,
                f,
                depth as nat,
            ),
            Err(e) => r matches Err(e2) && e2 == e,
        },
    decreases depth, 1nat,
{
    let mut state = DecompilerState::new(code, f);
    let n = f.ops.len();
    let mut i: usize = 0;
    while i < n
        invariant
            i <= n,
            n == f.ops@.len(),
            f.wf_within(code, depth as nat),
            state@.wf(f),
            state.scopes.cursor == i,
            run(code, f, state@, i as int, depth as nat) == run(
                code,
                f,
                StateV::initial(code, f),
                0,
                depth as nat,
            ),
        decreases n - i,
    {
        match state.step(code, f, i, depth) {
            Ok(()) => {},
            Err(e) => {
                return Err(e);
            },
        }
        i += 1;
    }
    let DecompilerState { scopes, reg_state: _, expr_ctx: _, seen: _, notes } = state;
    let statements = scopes.statements();
    Ok((visit(code, &statements), notes))
}

/// Decompiles a function whose closures nest at most `depth` deep.
pub fn decompile_code_within(code: &Bytecode, f: &Function, depth: usize) -> (r: Result<
    Vec<Statement>,
    DecompileError,
>)
    requires
        f.wf_within(code, depth as nat),
    ensures
        match lift(code, f, depth as nat) {
            Ok(stmts) => r matches Ok(v) && stmts_view(v@) == stmts,
            Err(e) => r matches Err(e2) && e2 == e,
        },
{
    match decompile_noting_within(code, f, depth) {
        Ok((statements, _)) => Ok(statements),
        Err(e) => Err(e),
    }
}

/// Decompile a function code to a list of [Statement]s.
/// This works by analyzing each opcodes in order while trying to reconstruct scopes, contexts
/// and intents. Closures may nest as deep as the bytecode has functions.
///
/// What is passed over or settled on the way is appended to `sink`, in the order in which
/// it comes up. Nothing is appended where the function cannot be decompiled.
pub fn decompile_code_noting(code: &Bytecode, f: &Function, sink: &mut Vec<Diagnostic>) -> (r:
    Result<Vec<Statement>, DecompileError>)
    requires
        f.wf_within(code, code.functions@.len()),
    ensures
        match lift(code, f, code.functions@.len()) {
            Ok(stmts) => {
                &&& r matches Ok(v) && stmts_view(v@) == stmts
                &&& final(sink)@ == old(sink)@ + lift_notes(code, f, code.functions@.len())
            },
            Err(e) => r matches Err(e2) && e2 == e && final(sink)@ == old(sink)@,
        },
{
    match decompile_noting_within(code, f, code.functions.len()) {
        Ok((statements, mut notes)) => {
            sink.append(&mut notes);
            Ok(statements)
        },
        Err(e) => Err(e),
    }
}

/// Decompile a function code to a list of [Statement]s.
/// This works by analyzing each opcodes in order while trying to reconstruct scopes, contexts
/// and intents. Closures may nest as deep as the bytecode has functions.
pub fn decompile_code(code: &Bytecode, f: &Function) -> (r: Result<
    Vec<Statement>,
    DecompileError,
>)
    requires
        f.wf_within(code, code.functions@.len()),
    ensures
        match lift(code, f, code.functions@.len()) {
            Ok(stmts) => r matches Ok(v) && stmts_view(v@) == stmts,
            Err(e) => r matches Err(e2) && e2 == e,
        },
{
    decompile_code_within(code, f, code.functions.len())
}

/// Decompile a function out of context. What is passed over or settled on the way is
/// appended to `sink`.
pub fn decompile_function_noting(code: &Bytecode, f: &Function, sink: &mut Vec<Diagnostic>) -> (r:
    Result<Method, DecompileError>)
    requires
        f.wf_within(code, code.functions@.len()),
    ensures
        match lift(code, f, code.functions@.len()) {
            Ok(stmts) => {
                &&& r matches Ok(m) && m@ == (MethodV {
                    fun: f.findex,
                    static_: true,
                    dynamic: false,
                    statements: stmts,
                })
                &&& final(sink)@ == old(sink)@ + lift_notes(code, f, code.functions@.len())
            },
            Err(e) => r matches Err(e2) && e2 == e && final(sink)@ == old(sink)@,
        },
{
    match decompile_code_noting(code, f, sink) {
        Ok(statements) => Ok(Method { fun: f.findex, static_: true, dynamic: false, statements }),
        Err(e) => Err(e),
    }
}

/// Decompile a function out of context
pub fn decompile_function(code: &Bytecode, f: &Function) -> (r: Result<Method, DecompileError>)
    requires
        f.wf_within(code, code.functions@.len()),
    ensures
        match lift(code, f, code.functions@.len()) {
            Ok(stmts) => r matches Ok(m) && m@ == (MethodV {
                fun: f.findex,
                static_: true,
                dynamic: false,
                statements: stmts,
            }),
            Err(e) => r matches Err(e2) && e2 == e,
        },
{
    let mut sink: Vec<Diagnostic> = Vec::new();
    decompile_function_noting(code, f, &mut sink)
}

} // verus!
