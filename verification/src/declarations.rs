//! A variable is declared once: among the statements of a function, at most one assignment
//! declares a given name.

use crate::ast::{call_v, field_v, string_v, unknown_v, ExprV, StmtV};
use crate::invariants::lemma_step_extends;
use crate::model::{
    assign_v, call_of, closure_body_of, closure_comment, closure_is_void, finish_call, first_index,
    global_string, jump_always, jump_cond, lift, method_is_void, method_name, push_bound_method,
    push_call, push_closure, push_global, push_indirect_call, push_jmp, push_new, push_set_field,
    push_stmts, run, set_field, step, step_op, stmts_of, switch_targets, value_of,
};
use crate::opcodes::Opcode;
use crate::post::{fold_stmt, post_cases, post_expr, post_stmt, post_stmt_parts, post_stmts};
use crate::scopes::{last_loop, lemma_last_loop, no_condition, ScopeKindV, ScopesV, ScopeV};
use crate::state::{ExprCtxV, StateV};
use crate::types::{Bytecode, Function, RefField, RefFun, RefGlobal, Reg, Type};
use crate::validity::{jump_target, reg_type};
use vstd::prelude::*;

verus! {

/// The expression is the variable of this name.
pub open spec fn names(e: ExprV, n: Seq<char>) -> bool {
    match e {
        ExprV::Variable(_, Some(m)) => m == n,
        _ => false,
    }
}

/// The number of assignments in a statement, and in the statements inside it, that declare
/// the variable `n`. The bodies of closures are functions of their own and do not count.
pub open spec fn declares(s: StmtV, n: Seq<char>) -> nat
    decreases s, 0nat,
{
    match s {
        StmtV::Assign { declaration, variable, assign } => if declaration && names(variable, n) {
            1
        } else {
            0
        },
        StmtV::IfElse { cond, if_, else_ } => declares_upto(if_, if_.len(), n) + match else_ {
            Some(stmts) => declares_upto(stmts, stmts.len(), n),
            None => 0,
        },
        StmtV::Switch { arg, cases } => cases_upto(cases, cases.len(), n),
        StmtV::While { cond, stmts } => declares_upto(stmts, stmts.len(), n),
        StmtV::Try { stmts, catch } => declares_upto(stmts, stmts.len(), n) + match catch {
            Some(stmts) => declares_upto(stmts, stmts.len(), n),
            None => 0,
        },
        _ => 0,
    }
}

/// The number of declarations of `n` in the first `k` statements.
pub open spec fn declares_upto(v: Seq<StmtV>, k: nat, n: Seq<char>) -> nat
    decreases v, k,
{
    if k == 0 || k > v.len() {
        0
    } else {
        declares_upto(v, (k - 1) as nat, n) + declares(v[k - 1], n)
    }
}

/// The number of declarations of `n` in the first `k` cases.
pub open spec fn cases_upto(v: Seq<(Option<usize>, Seq<StmtV>)>, k: nat, n: Seq<char>) -> nat
    decreases v, k,
{
    if k == 0 || k > v.len() {
        0
    } else {
        cases_upto(v, (k - 1) as nat, n) + declares_upto(v[k - 1].1, v[k - 1].1.len(), n)
    }
}

/// The number of declarations of `n` in some statements.
pub open spec fn declares_all(v: Seq<StmtV>, n: Seq<char>) -> nat {
    declares_upto(v, v.len(), n)
}

/// The number of declarations of `n` in the cases of a switch.
pub open spec fn declares_cases(v: Seq<(Option<usize>, Seq<StmtV>)>, n: Seq<char>) -> nat {
    cases_upto(v, v.len(), n)
}

/// The number of declarations of `n` in what an open scope holds.
pub open spec fn scope_declares(scope: ScopeV, n: Seq<char>) -> nat {
    declares_all(scope.stmts, n) + match scope.kind {
        ScopeKindV::Else { cond, if_ } => declares_all(if_, n),
        ScopeKindV::Switch { arg, targets, cases, current } => declares_cases(cases, n),
        _ => 0,
    }
}

/// The number of declarations of `n` in what the first `k` open scopes hold.
pub open spec fn stack_upto(scopes: Seq<ScopeV>, k: nat, n: Seq<char>) -> nat
    decreases k,
{
    if k == 0 || k > scopes.len() {
        0
    } else {
        stack_upto(scopes, (k - 1) as nat, n) + scope_declares(scopes[k - 1], n)
    }
}

/// The number of declarations of `n` in what the open scopes hold.
pub open spec fn stack_declares(scopes: ScopesV, n: Seq<char>) -> nat {
    stack_upto(scopes.scopes, scopes.scopes.len(), n)
}

/// The variable `n` is declared at most once so far, and counts as declared where it is.
pub open spec fn declared_once(s: StateV, n: Seq<char>) -> bool {
    &&& stack_declares(s.scopes, n) <= 1
    &&& stack_declares(s.scopes, n) >= 1 ==> s.seen.contains(n)
}

proof fn lemma_upto_prefix(v: Seq<StmtV>, w: Seq<StmtV>, k: nat, n: Seq<char>)
    requires
        k <= v.len(),
        k <= w.len(),
        forall|j: int| 0 <= j < k ==> v[j] == w[j],
    ensures
        declares_upto(v, k, n) == declares_upto(w, k, n),
    decreases k,
{
    if k > 0 {
        lemma_upto_prefix(v, w, (k - 1) as nat, n);
    }
}

proof fn lemma_cases_prefix(
    v: Seq<(Option<usize>, Seq<StmtV>)>,
    w: Seq<(Option<usize>, Seq<StmtV>)>,
    k: nat,
    n: Seq<char>,
)
    requires
        k <= v.len(),
        k <= w.len(),
        forall|j: int| 0 <= j < k ==> v[j] == w[j],
    ensures
        cases_upto(v, k, n) == cases_upto(w, k, n),
    decreases k,
{
    if k > 0 {
        lemma_cases_prefix(v, w, (k - 1) as nat, n);
    }
}

proof fn lemma_stack_prefix(v: Seq<ScopeV>, w: Seq<ScopeV>, k: nat, n: Seq<char>)
    requires
        k <= v.len(),
        k <= w.len(),
        forall|j: int| 0 <= j < k ==> scope_declares(v[j], n) == scope_declares(w[j], n),
    ensures
        stack_upto(v, k, n) == stack_upto(w, k, n),
    decreases k,
{
    if k > 0 {
        lemma_stack_prefix(v, w, (k - 1) as nat, n);
    }
}

/// One more statement adds its declarations.
pub proof fn lemma_declares_push(v: Seq<StmtV>, x: StmtV, n: Seq<char>)
    ensures
        declares_all(v.push(x), n) == declares_all(v, n) + declares(x, n),
        declares_all(Seq::<StmtV>::empty(), n) == 0,
{
    lemma_upto_prefix(v.push(x), v, v.len(), n);
}

proof fn lemma_cases_push(
    v: Seq<(Option<usize>, Seq<StmtV>)>,
    x: (Option<usize>, Seq<StmtV>),
    n: Seq<char>,
)
    ensures
        declares_cases(v.push(x), n) == declares_cases(v, n) + declares_all(x.1, n),
        declares_cases(Seq::<(Option<usize>, Seq<StmtV>)>::empty(), n) == 0,
{
    lemma_cases_prefix(v.push(x), v, v.len(), n);
}

/// A scope that is folded keeps its declarations.
proof fn lemma_fold_declares(scope: ScopeV, n: Seq<char>)
    ensures
        declares(scope.fold(), n) == scope_declares(scope, n),
{
    match scope.kind {
        ScopeKindV::Switch { arg, targets, cases, current } => {
            lemma_cases_push(cases, (current, scope.stmts), n);
        },
        _ => {},
    }
}

/// Another scope in the place of one adds the difference of their declarations.
proof fn lemma_stack_update(scopes: ScopesV, k: int, x: ScopeV, n: Seq<char>)
    requires
        0 <= k < scopes.scopes.len(),
    ensures
        stack_declares(ScopesV { scopes: scopes.scopes.update(k, x), ..scopes }, n)
            + scope_declares(scopes.scopes[k], n) == stack_declares(scopes, n) + scope_declares(
            x,
            n,
        ),
    decreases scopes.scopes.len() - k,
{
    let before = scopes.scopes;
    let after = before.update(k, x);
    if k == before.len() - 1 {
        lemma_stack_prefix(after, before, k as nat, n);
    } else {
        lemma_stack_update_inner(before, after, k, x, before.len(), n);
    }
}

proof fn lemma_stack_update_inner(
    before: Seq<ScopeV>,
    after: Seq<ScopeV>,
    k: int,
    x: ScopeV,
    upto: nat,
    n: Seq<char>,
)
    requires
        0 <= k < before.len(),
        after == before.update(k, x),
        k < upto <= before.len(),
    ensures
        stack_upto(after, upto, n) + scope_declares(before[k], n) == stack_upto(before, upto, n)
            + scope_declares(x, n),
    decreases upto,
{
    if upto == k + 1 {
        lemma_stack_prefix(after, before, k as nat, n);
    } else {
        lemma_stack_update_inner(before, after, k, x, (upto - 1) as nat, n);
    }
}

/// One more scope adds its declarations.
proof fn lemma_stack_push(scopes: ScopesV, x: ScopeV, n: Seq<char>)
    ensures
        stack_declares(ScopesV { scopes: scopes.scopes.push(x), ..scopes }, n) == stack_declares(
            scopes,
            n,
        ) + scope_declares(x, n),
{
    lemma_stack_prefix(scopes.scopes.push(x), scopes.scopes, scopes.scopes.len(), n);
}

/// One scope less takes its declarations away.
proof fn lemma_stack_pop(scopes: ScopesV, n: Seq<char>)
    requires
        scopes.scopes.len() > 0,
    ensures
        stack_declares(scopes.pop_last(), n) + scope_declares(scopes.last(), n) == stack_declares(
            scopes,
            n,
        ),
{
    lemma_stack_prefix(
        scopes.scopes.drop_last(),
        scopes.scopes,
        (scopes.scopes.len() - 1) as nat,
        n,
    );
}

/// A statement more in the innermost scope adds its declarations.
pub proof fn lemma_push_stmt_declares(scopes: ScopesV, x: StmtV, n: Seq<char>)
    requires
        scopes.scopes.len() > 0,
    ensures
        stack_declares(scopes.push_stmt(x), n) == stack_declares(scopes, n) + declares(x, n),
{
    lemma_declares_push(scopes.last().stmts, x, n);
    lemma_stack_update(scopes, scopes.scopes.len() - 1, scopes.last().with_stmt(x), n);
}

/// A scope that is opened holds no declaration.
proof fn lemma_push_scope_declares(
    scopes: ScopesV,
    kind: ScopeKindV,
    end: Option<usize>,
    n: Seq<char>,
)
    requires
        !(kind is Else),
        kind matches ScopeKindV::Switch { cases, .. } ==> cases.len() == 0,
    ensures
        stack_declares(scopes.push_scope(kind, end), n) == stack_declares(scopes, n),
{
    lemma_stack_push(scopes, ScopeV { kind, end, stmts: Seq::empty() }, n);
}

/// Folding the innermost scope keeps the declarations.
proof fn lemma_fold_last_declares(scopes: ScopesV, n: Seq<char>)
    requires
        scopes.scopes.len() > 1,
    ensures
        stack_declares(scopes.fold_last(), n) == stack_declares(scopes, n),
{
    lemma_stack_pop(scopes, n);
    lemma_fold_declares(scopes.last(), n);
    lemma_push_stmt_declares(scopes.pop_last(), scopes.last().fold(), n);
}

proof fn lemma_fold_due_declares(scopes: ScopesV, n: Seq<char>)
    ensures
        stack_declares(scopes.fold_due(), n) == stack_declares(scopes, n),
    decreases scopes.scopes.len(),
{
    if scopes.scopes.len() > 1 && scopes.last().end == Some(scopes.cursor) {
        lemma_fold_last_declares(scopes, n);
        lemma_fold_due_declares(scopes.fold_last(), n);
    }
}

proof fn lemma_advance_declares(scopes: ScopesV, n: Seq<char>)
    ensures
        stack_declares(scopes.advance(), n) == stack_declares(scopes, n),
{
    let moved = ScopesV { cursor: (scopes.cursor + 1) as usize, ..scopes };
    lemma_stack_prefix(moved.scopes, scopes.scopes, scopes.scopes.len(), n);
    lemma_fold_due_declares(moved, n);
}

/// Folding every scope leaves the declarations in the statements of the function.
proof fn lemma_fold_all_declares(scopes: ScopesV, n: Seq<char>)
    requires
        scopes.wf(),
    ensures
        declares_all(scopes.statements(), n) == stack_declares(scopes, n),
    decreases scopes.scopes.len(),
{
    if scopes.scopes.len() > 1 {
        lemma_fold_last_declares(scopes, n);
        lemma_fold_all_declares(scopes.fold_last(), n);
    } else {
        assert(stack_upto(scopes.scopes, 0, n) == 0);
    }
}

proof fn lemma_push_else_declares(scopes: ScopesV, end: usize, n: Seq<char>)
    requires
        scopes.scopes.len() > 0,
        scopes.last_is_if(),
    ensures
        stack_declares(scopes.push_else(end), n) == stack_declares(scopes, n),
{
    let x = scopes.push_else(end).last();
    lemma_stack_update(scopes, scopes.scopes.len() - 1, x, n);
}

proof fn lemma_push_switch_case_declares(scopes: ScopesV, case: usize, n: Seq<char>)
    requires
        scopes.scopes.len() > 0,
        scopes.last().kind is Switch,
    ensures
        stack_declares(scopes.push_switch_case(case), n) == stack_declares(scopes, n),
{
    let x = scopes.push_switch_case(case).last();
    lemma_cases_push(
        scopes.last().kind->Switch_cases,
        (scopes.last().kind->Switch_current, scopes.last().stmts),
        n,
    );
    lemma_stack_update(scopes, scopes.scopes.len() - 1, x, n);
}

proof fn lemma_set_loop_cond_declares(scopes: ScopesV, cond: ExprV, n: Seq<char>)
    ensures
        stack_declares(scopes.set_last_loop_cond(cond), n) == stack_declares(scopes, n),
{
    lemma_last_loop(scopes.scopes);
    match last_loop(scopes.scopes) {
        Some(k) => {
            let x = scopes.set_last_loop_cond(cond).scopes[k];
            lemma_stack_update(scopes, k, x, n);
        },
        None => {},
    }
}

/// A statement that declares nothing keeps what holds of the declarations.
proof fn lemma_plain_stmt(s: StateV, x: StmtV, n: Seq<char>)
    requires
        declared_once(s, n),
        s.scopes.scopes.len() > 0,
        declares(x, n) == 0,
    ensures
        declared_once(s.push_stmt(x), n),
{
    lemma_push_stmt_declares(s.scopes, x, n);
}

/// An assignment through the inline rules declares a variable only where it is new.
proof fn lemma_push_expr_declares(
    code: &Bytecode,
    f: &Function,
    s: StateV,
    pos: int,
    dst: Reg,
    e: ExprV,
    n: Seq<char>,
)
    requires
        declared_once(s, n),
        s.scopes.scopes.len() > 0,
    ensures
        declared_once(s.push_expr(code, f, pos, dst, e), n),
{
    match f.spec_var_name(code, pos) {
        Some(name) => {
            let x = StmtV::Assign {
                declaration: !s.seen.contains(name),
                variable: ExprV::Variable(dst, Some(name)),
                assign: e,
            };
            lemma_push_stmt_declares(s.scopes, x, n);
        },
        None => {},
    }
}

proof fn lemma_push_stmts_declares(s: StateV, stmts: Seq<StmtV>, n: Seq<char>)
    requires
        declared_once(s, n),
        s.scopes.scopes.len() > 0,
        forall|k: int| 0 <= k < stmts.len() ==> declares(#[trigger] stmts[k], n) == 0,
    ensures
        declared_once(push_stmts(s, stmts), n),
        push_stmts(s, stmts).scopes.scopes.len() > 0,
    decreases stmts.len(),
{
    if stmts.len() > 0 {
        lemma_push_stmts_declares(s, stmts.drop_last(), n);
        lemma_plain_stmt(push_stmts(s, stmts.drop_last()), stmts.last(), n);
    }
}

proof fn lemma_finish_call_declares(
    code: &Bytecode,
    f: &Function,
    s: StateV,
    i: int,
    dst: Reg,
    call: ExprV,
    void: bool,
    n: Seq<char>,
)
    requires
        declared_once(s, n),
        s.scopes.scopes.len() > 0,
    ensures
        declared_once(finish_call(code, f, s, i, dst, call, void), n),
{
    if void {
        lemma_plain_stmt(s, StmtV::ExprStatement(call), n);
    } else {
        lemma_push_expr_declares(code, f, s, i, dst, call, n);
    }
}

proof fn lemma_push_call_declares(
    code: &Bytecode,
    f: &Function,
    s: StateV,
    i: int,
    dst: Reg,
    fun: RefFun,
    args: Seq<Reg>,
    n: Seq<char>,
)
    requires
        declared_once(s, n),
        s.scopes.scopes.len() > 0,
    ensures
        declared_once(push_call(code, f, s, i, dst, fun, args), n),
{
    let noted = s.push_stmt(StmtV::Comment(fun.spec_display_id(code)));
    lemma_plain_stmt(s, StmtV::Comment(fun.spec_display_id(code)), n);
    lemma_finish_call_declares(
        code,
        f,
        noted,
        i,
        dst,
        call_of(code, s, fun, args),
        fun.spec_ty(code).unwrap().ret.0 == 0,
        n,
    );
    if s.ctx.len() > 0 && args.len() > 0 {
        match s.ctx.last() {
            ExprCtxV::Constructor { reg, pos } => {
                let popped = StateV { ctx: s.ctx.drop_last(), ..s };
                lemma_push_expr_declares(
                    code,
                    f,
                    popped,
                    pos as int,
                    reg,
                    ExprV::Constructor(f.regs@[reg.0 as int], s.args_expr(args.skip(1))),
                    n,
                );
            },
            _ => {},
        }
    }
}

proof fn lemma_jump_always_declares(f: &Function, s: StateV, i: int, offset: i32, n: Seq<char>)
    requires
        declared_once(s, n),
        s.scopes.wf(),
    ensures
        jump_always(f, s, i, offset) matches Ok(t) ==> declared_once(t, n),
{
    lemma_last_loop(s.scopes.scopes);
    if offset < 0 {
        lemma_plain_stmt(s, StmtV::Continue, n);
        if s.scopes.last().kind is Loop {
            lemma_fold_last_declares(s.scopes, n);
        }
    } else {
        lemma_plain_stmt(s, StmtV::Break, n);
        match s.scopes.last_is_switch_ctx() {
            Some(targets) => {
                match first_index(targets, i as usize, 0) {
                    Some(case) => {
                        lemma_push_switch_case_declares(s.scopes, case as usize, n);
                    },
                    None => {},
                }
            },
            None => {
                if s.scopes.last_is_if() {
                    lemma_push_else_declares(
                        s.scopes,
                        jump_target(i, offset) as usize,
                        n,
                    );
                }
            },
        }
    }
}

proof fn lemma_step_op_declares(code: &Bytecode, f: &Function, s: StateV, i: int, n: Seq<char>)
    requires
        declared_once(s, n),
        s.scopes.wf(),
    ensures
        step_op(code, f, s, i) matches Ok(t) ==> declared_once(t, n),
{
    reveal(step_op);
    let op = f.ops@[i];
    match op {
        Opcode::JAlways { offset } => {
            lemma_jump_always_declares(f, s, i, offset, n);
        },
        Opcode::Switch { reg, offsets, end } => {
            lemma_push_scope_declares(
                s.scopes,
                ScopeKindV::Switch {
                    arg: s.expr(reg),
                    targets: switch_targets(i, offsets@),
                    cases: Seq::empty(),
                    current: None,
                },
                Some(jump_target(i, end) as usize),
                n,
            );
        },
        Opcode::Label => {
            lemma_push_scope_declares(
                s.scopes,
                ScopeKindV::Loop {
                    start: i as usize,
                    cond: ExprV::Unknown(no_condition()),
                },
                None,
                n,
            );
        },
        Opcode::Ret { ret } => {
            lemma_plain_stmt(s, StmtV::Return(None), n);
            lemma_plain_stmt(s, StmtV::Return(Some(s.expr(ret))), n);
        },
        Opcode::Trap { offset, .. } => {
            lemma_push_scope_declares(
                s.scopes,
                ScopeKindV::Try,
                Some(jump_target(i, offset) as usize),
                n,
            );
        },
        Opcode::Mov { dst, src } => {
            lemma_push_expr_declares(code, f, s, i, dst, s.expr(src), n);
        },
        Opcode::Call0 { dst, fun } => {
            lemma_push_call_declares(code, f, s, i, dst, fun, seq![], n);
        },
        Opcode::Call1 { dst, fun, arg0 } => {
            lemma_push_call_declares(code, f, s, i, dst, fun, seq![arg0], n);
        },
        Opcode::Call2 { dst, fun, arg0, arg1 } => {
            lemma_push_call_declares(code, f, s, i, dst, fun, seq![arg0, arg1], n);
        },
        Opcode::Call3 { dst, fun, arg0, arg1, arg2 } => {
            lemma_push_call_declares(code, f, s, i, dst, fun, seq![arg0, arg1, arg2], n);
        },
        Opcode::Call4 { dst, fun, arg0, arg1, arg2, arg3 } => {
            lemma_push_call_declares(code, f, s, i, dst, fun, seq![arg0, arg1, arg2, arg3], n);
        },
        Opcode::CallN { dst, fun, args } => {
            lemma_push_call_declares(code, f, s, i, dst, fun, args@, n);
        },
        Opcode::GetGlobal { dst, global } => {
            lemma_push_global_declares(code, f, s, i, dst, global, n);
        },
        Opcode::SetField { obj, field, src } => {
            lemma_push_set_field_declares(code, f, s, obj, field, src, n);
        },
        Opcode::New { dst } => {
            lemma_push_new_declares(code, f, s, i, dst, n);
        },
        _ => {
            match jump_cond(s, op) {
                Some((cond, offset)) => {
                    lemma_push_jmp_declares(f, s, i, offset, cond, n);
                },
                None => {
                    match push_indirect_call(code, f, s, i, op) {
                        Some(next) => {
                            lemma_indirect_call_declares(code, f, s, i, op, n);
                        },
                        None => {
                            match value_of(code, f, s, op) {
                                Some((dst, e)) => {
                                    lemma_push_expr_declares(code, f, s, i, dst, e, n);
                                },
                                None => {
                                    match stmts_of(code, f, s, op) {
                                        Some(stmts) => {
                                            lemma_push_stmts_declares(s, stmts, n);
                                        },
                                        None => {},
                                    }
                                },
                            }
                        },
                    }
                },
            }
        },
    }
}

proof fn lemma_push_jmp_declares(
    f: &Function,
    s: StateV,
    i: int,
    offset: i32,
    cond: ExprV,
    n: Seq<char>,
)
    requires
        declared_once(s, n),
    ensures
        declared_once(push_jmp(f, s, i, offset, cond), n),
{
    lemma_set_loop_cond_declares(s.scopes, cond, n);
    lemma_push_scope_declares(
        s.scopes,
        ScopeKindV::If { cond },
        Some(jump_target(i, offset) as usize),
        n,
    );
}

proof fn lemma_indirect_call_declares(
    code: &Bytecode,
    f: &Function,
    s: StateV,
    i: int,
    op: Opcode,
    n: Seq<char>,
)
    requires
        declared_once(s, n),
        s.scopes.scopes.len() > 0,
    ensures
        push_indirect_call(code, f, s, i, op) matches Some(t) ==> declared_once(t, n),
{
    match op {
        Opcode::CallMethod { dst, field, args } => {
            lemma_finish_call_declares(
                code,
                f,
                s,
                i,
                dst,
                call_v(
                    field_v(
                        s.expr(args@[0]),
                        field.spec_display_obj(reg_type(code, f, args@[0]), code),
                    ),
                    s.args_expr(args@.skip(1)),
                ),
                method_is_void(code, f, args@[0], field),
                n,
            );
        },
        Opcode::CallThis { dst, field, args } => {
            lemma_finish_call_declares(
                code,
                f,
                s,
                i,
                dst,
                call_v(
                    field_v(
                        ExprV::This,
                        method_name(code, f, Reg(0), field),
                    ),
                    s.args_expr(args@),
                ),
                method_is_void(code, f, Reg(0), field),
                n,
            );
        },
        Opcode::CallClosure { dst, fun, args } => {
            lemma_finish_call_declares(
                code,
                f,
                s,
                i,
                dst,
                call_v(s.expr(fun), s.args_expr(args@)),
                closure_is_void(code, f, fun),
                n,
            );
        },
        _ => {},
    }
}

proof fn lemma_push_global_declares(
    code: &Bytecode,
    f: &Function,
    s: StateV,
    i: int,
    dst: Reg,
    global: RefGlobal,
    n: Seq<char>,
)
    requires
        declared_once(s, n),
        s.scopes.scopes.len() > 0,
    ensures
        declared_once(push_global(code, f, s, i, dst, global), n),
{
    lemma_push_expr_declares(
        code,
        f,
        s,
        i,
        dst,
        string_v(global_string(code, global)),
        n,
    );
    match *reg_type(code, f, dst) {
        Type::Obj(ty) => {
            lemma_push_expr_declares(
                code,
                f,
                s,
                i,
                dst,
                ExprV::Variable(dst, Some(code.strings@[ty.name.0 as int]@)),
                n,
            );
        },
        Type::Struct(ty) => {
            lemma_push_expr_declares(
                code,
                f,
                s,
                i,
                dst,
                ExprV::Variable(dst, Some(code.strings@[ty.name.0 as int]@)),
                n,
            );
        },
        Type::Enum { .. } => {
            lemma_push_expr_declares(
                code,
                f,
                s,
                i,
                dst,
                unknown_v("unknown enum variant"@),
                n,
            );
        },
        _ => {},
    }
}

proof fn lemma_push_new_declares(
    code: &Bytecode,
    f: &Function,
    s: StateV,
    i: int,
    dst: Reg,
    n: Seq<char>,
)
    requires
        declared_once(s, n),
        s.scopes.scopes.len() > 0,
    ensures
        declared_once(push_new(code, f, s, i, dst), n),
{
    lemma_push_expr_declares(
        code,
        f,
        s,
        i,
        dst,
        ExprV::Anonymous(f.regs@[dst.0 as int], Seq::empty()),
        n,
    );
    lemma_push_expr_declares(
        code,
        f,
        s,
        i,
        dst,
        ExprV::Constructor(f.regs@[dst.0 as int], Seq::empty()),
        n,
    );
}

proof fn lemma_push_set_field_declares(
    code: &Bytecode,
    f: &Function,
    s: StateV,
    obj: Reg,
    field: RefField,
    src: Reg,
    n: Seq<char>,
)
    requires
        declared_once(s, n),
        s.scopes.scopes.len() > 0,
    ensures
        declared_once(push_set_field(code, f, s, obj, field, src), n),
{
    lemma_plain_stmt(
        s,
        assign_v(
            field_v(
                s.expr(obj),
                field.spec_display_obj(reg_type(code, f, obj), code),
            ),
            s.expr(src),
        ),
        n,
    );
    if s.ctx.len() > 0 {
        match s.ctx.last() {
            ExprCtxV::Anonymous { pos, fields, remaining } => {
                let popped = StateV { ctx: s.ctx.drop_last(), ..s };
                lemma_push_expr_declares(
                    code,
                    f,
                    popped,
                    pos as int,
                    obj,
                    ExprV::Anonymous(
                        f.regs@[obj.0 as int],
                        set_field(fields, field, s.expr(src)),
                    ),
                    n,
                );
            },
            _ => {},
        }
    }
}

/// An instruction keeps what holds of the declarations.
proof fn lemma_step_declares(
    code: &Bytecode,
    f: &Function,
    s: StateV,
    i: int,
    depth: nat,
    n: Seq<char>,
)
    requires
        declared_once(s, n),
        s.scopes.wf(),
    ensures
        step(code, f, s, i, depth) matches Ok(t) ==> declared_once(t, n),
{
    let op = f.ops@[i];
    lemma_step_op_declares(code, f, s, i, n);
    match op {
        Opcode::StaticClosure { dst, fun } => {
            if depth > 0 {
                match lift(code, fun.spec_fn(code).unwrap(), (depth - 1) as nat) {
                    Ok(body) => {
                        lemma_closure_declares(code, f, s, i, dst, fun, body, n);
                    },
                    Err(_) => {},
                }
            }
        },
        Opcode::InstanceClosure { dst, fun, obj } => {
            if closure_body_of(code, f, op) is Some {
                if depth > 0 {
                    match lift(code, fun.spec_fn(code).unwrap(), (depth - 1) as nat) {
                        Ok(body) => {
                            lemma_closure_declares(code, f, s, i, dst, fun, body, n);
                        },
                        Err(_) => {},
                    }
                }
            } else {
                let noted = s.push_stmt(
                    StmtV::Comment(closure_comment(code, fun)),
                );
                lemma_plain_stmt(s, StmtV::Comment(closure_comment(code, fun)), n);
                lemma_push_expr_declares(
                    code,
                    f,
                    noted,
                    i,
                    dst,
                    field_v(
                        s.expr(obj),
                        fun.spec_fn(code).unwrap().spec_name_default(code),
                    ),
                    n,
                );
            }
        },
        _ => {},
    }
    match step(code, f, s, i, depth) {
        Ok(t) => {
            let before = match op {
                Opcode::StaticClosure { dst, fun } => push_closure(
                    code,
                    f,
                    s,
                    i,
                    dst,
                    fun,
                    lift(code, fun.spec_fn(code).unwrap(), (depth - 1) as nat).unwrap(),
                ),
                Opcode::InstanceClosure { dst, fun, obj } => if closure_body_of(code, f, op)
                    is Some {
                    push_closure(
                        code,
                        f,
                        s,
                        i,
                        dst,
                        fun,
                        lift(code, fun.spec_fn(code).unwrap(), (depth - 1) as nat).unwrap(),
                    )
                } else {
                    push_bound_method(code, f, s, i, dst, obj, fun)
                },
                _ => step_op(code, f, s, i).unwrap(),
            };
            lemma_advance_declares(before.scopes, n);
        },
        Err(_) => {},
    }
}

proof fn lemma_closure_declares(
    code: &Bytecode,
    f: &Function,
    s: StateV,
    i: int,
    dst: Reg,
    fun: RefFun,
    body: Seq<StmtV>,
    n: Seq<char>,
)
    requires
        declared_once(s, n),
        s.scopes.scopes.len() > 0,
    ensures
        declared_once(push_closure(code, f, s, i, dst, fun, body), n),
{
    let noted = s.push_stmt(StmtV::Comment(closure_comment(code, fun)));
    lemma_plain_stmt(s, StmtV::Comment(closure_comment(code, fun)), n);
    lemma_push_expr_declares(code, f, noted, i, dst, ExprV::Closure(fun, body), n);
}

proof fn lemma_run_declares(
    code: &Bytecode,
    f: &Function,
    s: StateV,
    i: int,
    depth: nat,
    n: Seq<char>,
)
    requires
        declared_once(s, n),
        s.scopes.wf(),
        0 <= i,
        s.scopes.cursor == i,
    ensures
        run(code, f, s, i, depth) matches Ok(t) ==> declared_once(t, n) && t.scopes.wf(),
    decreases f.ops@.len() - i,
{
    if i < f.ops@.len() {
        assert(f.ops@.len() == f.ops.len());
        lemma_step_declares(code, f, s, i, depth, n);
        lemma_step_extends(code, f, s, i, depth);
        match step(code, f, s, i, depth) {
            Ok(next) => {
                lemma_run_declares(code, f, next, i + 1, depth, n);
            },
            Err(_) => {},
        }
    }
}

/// The post-processing leaves an expression a variable of a name exactly where it was one.
proof fn lemma_post_keeps_names(code: &Bytecode, e: ExprV, n: Seq<char>)
    ensures
        names(post_expr(code, e), n) == names(e, n),
{
}

/// The post-processing adds no declaration to a statement.
proof fn lemma_post_stmt_declares(code: &Bytecode, s: StmtV, n: Seq<char>)
    ensures
        declares(post_stmt(code, s), n) <= declares(s, n),
    decreases s,
{
    let parts = post_stmt_parts(code, s);
    match s {
        StmtV::Assign { declaration, variable, assign } => {
            lemma_post_keeps_names(code, variable, n);
        },
        StmtV::IfElse { cond, if_, else_ } => {
            lemma_post_stmts_declares(code, if_, if_.len(), n);
            match else_ {
                Some(stmts) => {
                    lemma_post_stmts_declares(code, stmts, stmts.len(), n);
                },
                None => {},
            }
        },
        StmtV::Switch { arg, cases } => {
            lemma_post_cases_declares(code, cases, cases.len(), n);
        },
        StmtV::While { cond, stmts } => {
            lemma_post_stmts_declares(code, stmts, stmts.len(), n);
        },
        StmtV::Try { stmts, catch } => {
            lemma_post_stmts_declares(code, stmts, stmts.len(), n);
            match catch {
                Some(stmts) => {
                    lemma_post_stmts_declares(code, stmts, stmts.len(), n);
                },
                None => {},
            }
        },
        _ => {},
    }
    // the parts keep the declarations, and the fold of the statement adds none
    assert(declares(parts, n) <= declares(s, n));
    lemma_fold_stmt_declares(parts, n);
}

/// The fold of an `if` and `else` into one assignment adds no declaration.
proof fn lemma_fold_stmt_declares(s: StmtV, n: Seq<char>)
    ensures
        declares(fold_stmt(s), n) <= declares(s, n),
{
    if fold_stmt(s) != s {
        match s {
            StmtV::IfElse { cond, if_, else_: Some(else_) } => {
                assert(declares_upto(if_, 0, n) == 0);
                assert(declares_upto(else_, 0, n) == 0);
                assert(declares_all(if_, n) == declares(if_[0], n));
                assert(declares_all(else_, n) == declares(else_[0], n));
            },
            _ => {},
        }
    }
}

proof fn lemma_post_stmts_declares(code: &Bytecode, v: Seq<StmtV>, k: nat, n: Seq<char>)
    requires
        k <= v.len(),
    ensures
        declares_upto(post_stmts(code, v), k, n) <= declares_upto(v, k, n),
    decreases v, k,
{
    if k > 0 {
        lemma_post_stmts_declares(code, v, (k - 1) as nat, n);
        lemma_post_stmt_declares(code, v[k - 1], n);
    }
}

proof fn lemma_post_cases_declares(
    code: &Bytecode,
    v: Seq<(Option<usize>, Seq<StmtV>)>,
    k: nat,
    n: Seq<char>,
)
    requires
        k <= v.len(),
    ensures
        cases_upto(post_cases(code, v), k, n) <= cases_upto(v, k, n),
    decreases v, k,
{
    if k > 0 {
        lemma_post_cases_declares(code, v, (k - 1) as nat, n);
        lemma_post_stmts_declares(code, v[k - 1].1, v[k - 1].1.len(), n);
    }
}

/// Every variable is declared once: among the statements of a function, and inside them, at
/// most one assignment declares the variable `n`, whatever `n` is. Every other assignment
/// to it is no declaration.
pub proof fn lemma_declared_once(code: &Bytecode, f: &Function, depth: nat, n: Seq<char>)
    ensures
        lift(code, f, depth) matches Ok(stmts) ==> declares_all(stmts, n) <= 1,
{
    let s = StateV::initial(code, f);
    assert(stack_upto(s.scopes.scopes, 0, n) == 0);
    lemma_run_declares(code, f, s, 0, depth, n);
    match run(code, f, s, 0, depth) {
        Ok(t) => {
            lemma_fold_all_declares(t.scopes, n);
            lemma_post_stmts_declares(code, t.scopes.statements(), t.scopes.statements().len(), n);
        },
        Err(_) => {},
    }
}

} // verus!
