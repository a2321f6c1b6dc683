//! What holds of every state that decompiling a function goes through.

use crate::ast::{ExprV, StmtV};
use crate::model::{
    closure_body_of, jump_always, jump_cond, lift, lift_notes, push_bound_method, push_call,
    push_closure, push_indirect_call, push_jmp, push_ret, push_set_field, push_stmts, run, step,
    step_op, stmts_of, value_of, DecompileError,
};
use crate::opcodes::Opcode;
use crate::post::post_stmts;
use crate::scopes::{lemma_fold_due_wf, lemma_last_loop, lemma_scope_balance, ScopesV};
use crate::state::{Diagnostic, StateV};
use crate::types::{Bytecode, Function, RefField, RefFun, Reg};
use crate::validity::{reg_type, STRING_TYPE};
use vstd::prelude::*;

verus! {

/// The state `t` comes after the state `s`: every register that stood for something still
/// does, every name that was declared still is, and the scope stack is well formed.
pub open spec fn extends(s: StateV, t: StateV) -> bool {
    &&& forall|r: u32| s.regs.contains_key(r) ==> t.regs.contains_key(r)
    &&& s.seen.subset_of(t.seen)
    &&& t.scopes.wf()
    &&& t.scopes.cursor == s.scopes.cursor
}

proof fn lemma_push_expr_extends(
    code: &Bytecode,
    f: &Function,
    s: StateV,
    pos: int,
    dst: Reg,
    e: ExprV,
)
    requires
        s.scopes.wf(),
    ensures
        extends(s, s.push_expr(code, f, pos, dst, e)),
        s.push_expr(code, f, pos, dst, e).regs.contains_key(dst.0),
        s.push_expr(code, f, pos, dst, e).ctx == s.ctx,
{
}

proof fn lemma_push_stmts_extends(s: StateV, stmts: Seq<StmtV>)
    requires
        s.scopes.wf(),
    ensures
        extends(s, push_stmts(s, stmts)),
        push_stmts(s, stmts).regs == s.regs,
        push_stmts(s, stmts).seen == s.seen,
    decreases stmts.len(),
{
    if stmts.len() > 0 {
        lemma_push_stmts_extends(s, stmts.drop_last());
    }
}

proof fn lemma_push_jmp_extends(f: &Function, s: StateV, i: int, offset: i32, cond: ExprV)
    requires
        s.scopes.wf(),
    ensures
        extends(s, push_jmp(f, s, i, offset, cond)),
{
    lemma_last_loop(s.scopes.scopes);
}

proof fn lemma_jump_always_extends(f: &Function, s: StateV, i: int, offset: i32)
    requires
        s.scopes.wf(),
    ensures
        jump_always(f, s, i, offset) matches Ok(t) ==> extends(s, t),
{
    lemma_last_loop(s.scopes.scopes);
}

proof fn lemma_push_call_extends(
    code: &Bytecode,
    f: &Function,
    s: StateV,
    i: int,
    dst: Reg,
    fun: RefFun,
    args: Seq<Reg>,
)
    requires
        s.scopes.wf(),
    ensures
        extends(s, push_call(code, f, s, i, dst, fun, args)),
{
}

proof fn lemma_push_set_field_extends(
    code: &Bytecode,
    f: &Function,
    s: StateV,
    obj: Reg,
    field: RefField,
    src: Reg,
)
    requires
        s.scopes.wf(),
    ensures
        extends(s, push_set_field(code, f, s, obj, field, src)),
{
}

/// What an instruction does, but for the closures and the move of the cursor, leaves a
/// state that comes after the state it found.
proof fn lemma_step_op_extends(code: &Bytecode, f: &Function, s: StateV, i: int)
    requires
        s.scopes.wf(),
    ensures
        step_op(code, f, s, i) matches Ok(t) ==> extends(s, t),
{
    reveal(step_op);
    let op = f.ops@[i];
    match op {
        Opcode::JAlways { offset } => {
            lemma_jump_always_extends(f, s, i, offset);
        },
        Opcode::Call0 { dst, fun } => {
            lemma_push_call_extends(code, f, s, i, dst, fun, seq![]);
        },
        Opcode::Call1 { dst, fun, arg0 } => {
            lemma_push_call_extends(code, f, s, i, dst, fun, seq![arg0]);
        },
        Opcode::Call2 { dst, fun, arg0, arg1 } => {
            lemma_push_call_extends(code, f, s, i, dst, fun, seq![arg0, arg1]);
        },
        Opcode::Call3 { dst, fun, arg0, arg1, arg2 } => {
            lemma_push_call_extends(code, f, s, i, dst, fun, seq![arg0, arg1, arg2]);
        },
        Opcode::Call4 { dst, fun, arg0, arg1, arg2, arg3 } => {
            lemma_push_call_extends(code, f, s, i, dst, fun, seq![arg0, arg1, arg2, arg3]);
        },
        Opcode::CallN { dst, fun, args } => {
            lemma_push_call_extends(code, f, s, i, dst, fun, args@);
        },
        Opcode::SetField { obj, field, src } => {
            lemma_push_set_field_extends(code, f, s, obj, field, src);
        },
        Opcode::Switch { .. } => {},
        Opcode::Label => {},
        Opcode::Ret { .. } => {},
        Opcode::Trap { .. } => {},
        Opcode::Mov { dst, src } => {
            lemma_push_expr_extends(code, f, s, i, dst, s.expr(src));
        },
        Opcode::GetGlobal { .. } => {},
        Opcode::New { .. } => {},
        _ => {
            match jump_cond(s, op) {
                Some((cond, offset)) => {
                    lemma_push_jmp_extends(f, s, i, offset, cond);
                },
                None => {
                    match push_indirect_call(code, f, s, i, op) {
                        Some(next) => {},
                        None => {
                            match value_of(code, f, s, op) {
                                Some((dst, e)) => {
                                    lemma_push_expr_extends(code, f, s, i, dst, e);
                                },
                                None => {
                                    match stmts_of(code, f, s, op) {
                                        Some(stmts) => {
                                            lemma_push_stmts_extends(s, stmts);
                                        },
                                        None => {},
                                    }
                                },
                            }
                        },
                    }
                },
            }
        },
    }
}

/// The state that an instruction leaves comes after the state it found, one instruction
/// further.
pub proof fn lemma_step_extends(code: &Bytecode, f: &Function, s: StateV, i: int, depth: nat)
    requires
        s.scopes.wf(),
        s.scopes.cursor < usize::MAX,
    ensures
        step(code, f, s, i, depth) matches Ok(t) ==> {
            &&& forall|r: u32| s.regs.contains_key(r) ==> t.regs.contains_key(r)
            &&& s.seen.subset_of(t.seen)
            &&& t.scopes.wf()
            &&& t.scopes.cursor == s.scopes.cursor + 1
        },
{
    let op = f.ops@[i];
    let next = match op {
        Opcode::StaticClosure { dst, fun } => if depth == 0 {
            Err(DecompileError::ClosuresTooDeep)
        } else {
            match lift(code, fun.spec_fn(code).unwrap(), (depth - 1) as nat) {
                Ok(body) => Ok(push_closure(code, f, s, i, dst, fun, body)),
                Err(e) => Err(e),
            }
        },
        Opcode::InstanceClosure { dst, fun, obj } => if closure_body_of(code, f, op) is Some {
            if depth == 0 {
                Err(DecompileError::ClosuresTooDeep)
            } else {
                match lift(code, fun.spec_fn(code).unwrap(), (depth - 1) as nat) {
                    Ok(body) => Ok(push_closure(code, f, s, i, dst, fun, body)),
                    Err(e) => Err(e),
                }
            }
        } else {
            Ok(push_bound_method(code, f, s, i, dst, obj, fun))
        },
        _ => step_op(code, f, s, i),
    };
    lemma_step_op_extends(code, f, s, i);
    match next {
        Ok(t) => {
            let moved = ScopesV { cursor: (t.scopes.cursor + 1) as usize, ..t.scopes };
            lemma_fold_due_wf(moved);
        },
        Err(_) => {},
    }
}

/// The state before the first instruction has a well-formed scope stack.
pub proof fn lemma_initial_wf(code: &Bytecode, f: &Function)
    ensures
        StateV::initial(code, f).scopes.wf(),
        StateV::initial(code, f).scopes.cursor == 0,
{
}

/// Through the instructions from `i` on, every register that stood for something still
/// does, every name that was declared still is, and the scope stack stays well formed.
pub proof fn lemma_run_extends(code: &Bytecode, f: &Function, s: StateV, i: int, depth: nat)
    requires
        s.scopes.wf(),
        0 <= i,
        s.scopes.cursor == i,
    ensures
        run(code, f, s, i, depth) matches Ok(t) ==> {
            &&& forall|r: u32| s.regs.contains_key(r) ==> t.regs.contains_key(r)
            &&& s.seen.subset_of(t.seen)
            &&& t.scopes.wf()
        },
    decreases f.ops@.len() - i,
{
    if i < f.ops@.len() {
        assert(f.ops@.len() == f.ops.len());
        lemma_step_extends(code, f, s, i, depth);
        match step(code, f, s, i, depth) {
            Ok(next) => {
                lemma_run_extends(code, f, next, i + 1, depth);
            },
            Err(_) => {},
        }
    }
}

/// No register stands for a placeholder.
pub open spec fn all_known(s: StateV) -> bool {
    forall|r: u32| s.regs.contains_key(r) ==> !(#[trigger] s.regs[r] is Unknown)
}

/// The instruction gives a register a placeholder: it copies a register that holds
/// nothing, or reads a global into a register whose type is an enum.
pub open spec fn gives_unknown(code: &Bytecode, f: &Function, s: StateV, op: Opcode) -> bool {
    match op {
        Opcode::Mov { src, .. } => !s.regs.contains_key(src.0),
        Opcode::ToDyn { src, .. } => !s.regs.contains_key(src.0),
        Opcode::ToSFloat { src, .. } => !s.regs.contains_key(src.0),
        Opcode::ToUFloat { src, .. } => !s.regs.contains_key(src.0),
        Opcode::ToInt { src, .. } => !s.regs.contains_key(src.0),
        Opcode::SafeCast { src, .. } => !s.regs.contains_key(src.0),
        Opcode::UnsafeCast { src, .. } => !s.regs.contains_key(src.0),
        Opcode::ToVirtual { src, .. } => !s.regs.contains_key(src.0),
        Opcode::Ref { src, .. } => !s.regs.contains_key(src.0),
        Opcode::Unref { src, .. } => !s.regs.contains_key(src.0),
        Opcode::RefData { src, .. } => !s.regs.contains_key(src.0),
        Opcode::GetGlobal { dst, .. } => f.regs@[dst.0 as int].0 != STRING_TYPE && (*reg_type(
            code,
            f,
            dst,
        ) is Enum),
        _ => false,
    }
}

proof fn lemma_push_expr_known(
    code: &Bytecode,
    f: &Function,
    s: StateV,
    pos: int,
    dst: Reg,
    e: ExprV,
)
    requires
        all_known(s),
        !(e is Unknown),
    ensures
        all_known(s.push_expr(code, f, pos, dst, e)),
{
}

proof fn lemma_push_stmts_known(s: StateV, stmts: Seq<StmtV>)
    ensures
        push_stmts(s, stmts).regs == s.regs,
    decreases stmts.len(),
{
    if stmts.len() > 0 {
        lemma_push_stmts_known(s, stmts.drop_last());
    }
}

proof fn lemma_step_op_known(code: &Bytecode, f: &Function, s: StateV, i: int)
    requires
        all_known(s),
        !gives_unknown(code, f, s, f.ops@[i]),
    ensures
        step_op(code, f, s, i) matches Ok(t) ==> all_known(t),
{
    reveal(step_op);
    let op = f.ops@[i];
    match op {
        Opcode::Mov { dst, src } => {
            lemma_push_expr_known(code, f, s, i, dst, s.expr(src));
        },
        Opcode::JAlways { .. } => {},
        Opcode::Switch { .. } => {},
        Opcode::Label => {},
        Opcode::Ret { .. } => {},
        Opcode::Trap { .. } => {},
        Opcode::Call0 { .. } => {},
        Opcode::Call1 { .. } => {},
        Opcode::Call2 { .. } => {},
        Opcode::Call3 { .. } => {},
        Opcode::Call4 { .. } => {},
        Opcode::CallN { .. } => {},
        Opcode::GetGlobal { .. } => {},
        Opcode::SetField { .. } => {},
        Opcode::New { .. } => {},
        _ => {
            match jump_cond(s, op) {
                Some((cond, offset)) => {},
                None => {
                    match push_indirect_call(code, f, s, i, op) {
                        Some(next) => {},
                        None => {
                            match value_of(code, f, s, op) {
                                Some((dst, e)) => {
                                    lemma_push_expr_known(code, f, s, i, dst, e);
                                },
                                None => {
                                    match stmts_of(code, f, s, op) {
                                        Some(stmts) => {
                                            lemma_push_stmts_known(s, stmts);
                                        },
                                        None => {},
                                    }
                                },
                            }
                        },
                    }
                },
            }
        },
    }
}

/// Where no register stands for a placeholder, none does after an instruction, unless the
/// instruction copies a register that holds nothing or reads a global into a register
/// whose type is an enum. With that, a register that was written is read as what was
/// written into it, never as a placeholder.
pub proof fn lemma_step_known(code: &Bytecode, f: &Function, s: StateV, i: int, depth: nat)
    requires
        all_known(s),
        !gives_unknown(code, f, s, f.ops@[i]),
    ensures
        step(code, f, s, i, depth) matches Ok(t) ==> all_known(t),
{
    lemma_step_op_known(code, f, s, i);
}

/// From the instruction at `i` on, no instruction gives a register a placeholder in the
/// state that it finds.
pub open spec fn never_gives_unknown(
    code: &Bytecode,
    f: &Function,
    s: StateV,
    i: int,
    depth: nat,
) -> bool
    decreases f.ops@.len() - i,
{
    if i < 0 || i >= f.ops@.len() {
        true
    } else {
        !gives_unknown(code, f, s, f.ops@[i]) && match step(code, f, s, i, depth) {
            Ok(next) => never_gives_unknown(code, f, next, i + 1, depth),
            Err(_) => true,
        }
    }
}

/// Through the instructions from `i` on, no register comes to stand for a placeholder,
/// unless an instruction copies a register that holds nothing or reads a global into a
/// register whose type is an enum.
pub proof fn lemma_run_known(code: &Bytecode, f: &Function, s: StateV, i: int, depth: nat)
    requires
        all_known(s),
        never_gives_unknown(code, f, s, i, depth),
    ensures
        run(code, f, s, i, depth) matches Ok(t) ==> all_known(t),
    decreases f.ops@.len() - i,
{
    if 0 <= i < f.ops@.len() {
        lemma_step_known(code, f, s, i, depth);
        match step(code, f, s, i, depth) {
            Ok(next) => {
                lemma_run_known(code, f, next, i + 1, depth);
            },
            Err(_) => {},
        }
    }
}

/// The state before the first instruction has no register that stands for a placeholder.
pub proof fn lemma_initial_known(code: &Bytecode, f: &Function)
    ensures
        all_known(StateV::initial(code, f)),
{
}

/// A register that was written is read as what was written into it, never as a
/// placeholder: after the instructions of a function no register stands for a placeholder,
/// unless an instruction copies a register that holds nothing or reads a global into a
/// register whose type is an enum.
pub proof fn lemma_function_known(code: &Bytecode, f: &Function, depth: nat)
    requires
        never_gives_unknown(code, f, StateV::initial(code, f), 0, depth),
    ensures
        run(code, f, StateV::initial(code, f), 0, depth) matches Ok(t) ==> all_known(t),
{
    lemma_initial_known(code, f);
    lemma_run_known(code, f, StateV::initial(code, f), 0, depth);
}

/// Every closure that the function makes holds a function whose closures nest less deep
/// than `depth` in their turn.
pub open spec fn nests_within(code: &Bytecode, f: &Function, depth: nat) -> bool
    decreases depth,
{
    forall|i: int|
        0 <= i < f.ops@.len() ==> match #[trigger] closure_body_of(code, f, f.ops@[i]) {
            Some(fun) => depth > 0 && nests_within(
                code,
                fun.spec_fn(code).unwrap(),
                (depth - 1) as nat,
            ),
            None => true,
        }
}

proof fn lemma_run_within(code: &Bytecode, f: &Function, s: StateV, i: int, depth: nat)
    requires
        nests_within(code, f, depth),
        0 <= i,
    ensures
        run(code, f, s, i, depth) != Err::<StateV, DecompileError>(
            DecompileError::ClosuresTooDeep,
        ),
    decreases depth, f.ops@.len() - i,
{
    if i < f.ops@.len() {
        let op = f.ops@[i];
        assert(closure_body_of(code, f, op) is Some ==> depth > 0 && nests_within(
            code,
            closure_body_of(code, f, op).unwrap().spec_fn(code).unwrap(),
            (depth - 1) as nat,
        ));
        match closure_body_of(code, f, op) {
            Some(fun) => {
                lemma_lift_within(code, fun.spec_fn(code).unwrap(), (depth - 1) as nat);
            },
            None => {
                reveal(step_op);
            },
        }
        match step(code, f, s, i, depth) {
            Ok(next) => {
                lemma_run_within(code, f, next, i + 1, depth);
            },
            Err(_) => {},
        }
    }
}

/// The depth of the closures bounds the depth of the decompiler: a function whose
/// closures nest at most `depth` deep is decompiled within that depth.
pub proof fn lemma_lift_within(code: &Bytecode, f: &Function, depth: nat)
    requires
        nests_within(code, f, depth),
    ensures
        lift(code, f, depth) != Err::<Seq<StmtV>, DecompileError>(
            DecompileError::ClosuresTooDeep,
        ),
    decreases depth, f.ops@.len() + 1,
{
    lemma_run_within(code, f, StateV::initial(code, f), 0, depth);
}

/// The closure made at `i` holds a function whose closures nest too deep for `depth`.
pub open spec fn nests_too_deep_at(code: &Bytecode, f: &Function, depth: nat, i: int) -> bool {
    match closure_body_of(code, f, f.ops@[i]) {
        Some(fun) => depth == 0 || !nests_within(
            code,
            fun.spec_fn(code).unwrap(),
            (depth - 1) as nat,
        ),
        None => false,
    }
}

proof fn lemma_run_beyond(code: &Bytecode, f: &Function, s: StateV, j: int, depth: nat, i: int)
    requires
        0 <= j <= i < f.ops@.len(),
        nests_too_deep_at(code, f, depth, i),
    ensures
        run(code, f, s, j, depth) is Err,
    decreases depth, i - j,
{
    if j == i {
        let fun = closure_body_of(code, f, f.ops@[i]).unwrap();
        if depth > 0 {
            lemma_lift_beyond(code, fun.spec_fn(code).unwrap(), (depth - 1) as nat);
        }
    } else {
        match step(code, f, s, j, depth) {
            Ok(next) => {
                lemma_run_beyond(code, f, next, j + 1, depth, i);
            },
            Err(_) => {},
        }
    }
}

/// The depth of the decompiler is no less than that of the closures: a function whose
/// closures nest deeper than `depth` is not decompiled within that depth.
pub proof fn lemma_lift_beyond(code: &Bytecode, f: &Function, depth: nat)
    requires
        !nests_within(code, f, depth),
    ensures
        lift(code, f, depth) is Err,
    decreases depth, f.ops@.len() + 1,
{
    let i = choose|i: int|
        0 <= i < f.ops@.len() && !match #[trigger] closure_body_of(code, f, f.ops@[i]) {
            Some(fun) => depth > 0 && nests_within(
                code,
                fun.spec_fn(code).unwrap(),
                (depth - 1) as nat,
            ),
            None => true,
        };
    lemma_run_beyond(code, f, StateV::initial(code, f), 0, depth, i);
}

proof fn lemma_run_deeper(code: &Bytecode, f: &Function, s: StateV, i: int, depth: nat)
    requires
        0 <= i,
        run(code, f, s, i, depth) != Err::<StateV, DecompileError>(
            DecompileError::ClosuresTooDeep,
        ),
    ensures
        run(code, f, s, i, depth + 1) == run(code, f, s, i, depth),
    decreases depth, f.ops@.len() - i,
{
    if i < f.ops@.len() {
        let op = f.ops@[i];
        match closure_body_of(code, f, op) {
            Some(fun) => {
                if depth > 0 {
                    let g = fun.spec_fn(code).unwrap();
                    if lift(code, g, (depth - 1) as nat) != Err::<Seq<StmtV>, DecompileError>(
                        DecompileError::ClosuresTooDeep,
                    ) {
                        lemma_lift_deeper(code, g, (depth - 1) as nat);
                    }
                }
            },
            None => {},
        }
        assert(step(code, f, s, i, depth + 1) == step(code, f, s, i, depth));
        match step(code, f, s, i, depth) {
            Ok(next) => {
                lemma_run_deeper(code, f, next, i + 1, depth);
            },
            Err(_) => {},
        }
    }
}

/// A deeper bound changes nothing: what a function is decompiled to within a depth, it is
/// decompiled to within any greater depth.
pub proof fn lemma_lift_deeper(code: &Bytecode, f: &Function, depth: nat)
    requires
        lift(code, f, depth) != Err::<Seq<StmtV>, DecompileError>(
            DecompileError::ClosuresTooDeep,
        ),
    ensures
        lift(code, f, depth + 1) == lift(code, f, depth),
        lift_notes(code, f, depth + 1) == lift_notes(code, f, depth),
    decreases depth, f.ops@.len() + 1,
{
    lemma_run_deeper(code, f, StateV::initial(code, f), 0, depth);
}

/// Scope-stack balance at the end of a function: through all the instructions the stack
/// stays well formed, so that as many scopes were folded as opened but for those that are
/// still open, and once the scopes that are still open are folded into the body of the
/// function, as many were folded as opened.
pub proof fn lemma_balanced_at_end(code: &Bytecode, f: &Function, depth: nat)
    ensures
        run(code, f, StateV::initial(code, f), 0, depth) matches Ok(t) ==> {
            &&& t.scopes.opened == t.scopes.closed + (t.scopes.scopes.len() - 1)
            &&& t.scopes.fold_all().opened == t.scopes.opened
            &&& t.scopes.fold_all().closed == t.scopes.opened
        },
{
    lemma_initial_wf(code, f);
    lemma_run_extends(code, f, StateV::initial(code, f), 0, depth);
    match run(code, f, StateV::initial(code, f), 0, depth) {
        Ok(t) => {
            lemma_scope_balance(t.scopes);
        },
        Err(_) => {},
    }
}

/// A function that does nothing but return nothing has no statement.
pub proof fn lemma_return_void_alone(code: &Bytecode, f: &Function, depth: nat, ret: Reg)
    requires
        f.ops@ == seq![Opcode::Ret { ret }],
        f.regs@[ret.0 as int].0 == 0,
    ensures
        lift(code, f, depth) == Ok::<Seq<StmtV>, DecompileError>(Seq::empty()),
        lift_notes(code, f, depth) == Seq::<Diagnostic>::empty(),
{
    reveal(step_op);
    let s = StateV::initial(code, f);
    // the return leaves the state as it is, and the cursor moves behind it
    assert(push_ret(f, s, ret) == s);
    let moved = ScopesV { cursor: 1, ..s.scopes };
    let t = StateV { scopes: moved, ..s };
    assert(step(code, f, s, 0, depth) == Ok::<StateV, DecompileError>(t));
    assert(run(code, f, s, 0, depth) == Ok::<StateV, DecompileError>(t));
    // no scope is open, and the body of the function holds nothing
    assert(t.scopes.statements() =~= Seq::empty());
    assert(post_stmts(code, Seq::<StmtV>::empty()) =~= Seq::empty());
}

/// A depth that suffices once suffices ever after: what a function is decompiled to within
/// a depth, it is decompiled to within any depth that is no less.
pub proof fn lemma_lift_at_any_depth(code: &Bytecode, f: &Function, depth: nat, deeper: nat)
    requires
        depth <= deeper,
        lift(code, f, depth) != Err::<Seq<StmtV>, DecompileError>(
            DecompileError::ClosuresTooDeep,
        ),
    ensures
        lift(code, f, deeper) == lift(code, f, depth),
        lift_notes(code, f, deeper) == lift_notes(code, f, depth),
    decreases deeper - depth,
{
    if depth < deeper {
        lemma_lift_deeper(code, f, depth);
        lemma_lift_at_any_depth(code, f, depth + 1, deeper);
    }
}

/// The depth of the decompiler is the depth of the closures: a function is decompiled to
/// the same within the depth to which its closures nest as within any greater depth. A
/// function that makes no closure is so within the depth 0.
pub proof fn lemma_nesting_depth_suffices(code: &Bytecode, f: &Function, depth: nat, deeper: nat)
    requires
        nests_within(code, f, depth),
        depth <= deeper,
    ensures
        lift(code, f, deeper) == lift(code, f, depth),
{
    lemma_lift_within(code, f, depth);
    lemma_lift_at_any_depth(code, f, depth, deeper);
}

/// The register that an instruction which makes a closure writes to.
pub open spec fn closure_register(op: Opcode) -> Reg {
    match op {
        Opcode::StaticClosure { dst, .. } => dst,
        Opcode::InstanceClosure { dst, .. } => dst,
        _ => Reg(0),
    }
}

/// A closure holds what its function is decompiled to on its own. Where the instruction at
/// `i` makes a closure of the function `fun` and the function around it is decompiled
/// within a depth that is no more than `full` and one, the closure is made of the
/// statements that `fun` is decompiled to within `full`: the register of the instruction
/// stands for that closure where the instruction assigns no variable, and for the variable
/// where it assigns one. With `full` the number of functions of the bytecode, those are the
/// statements that decompiling `fun` by itself gives.
pub proof fn lemma_closure_holds_body(
    code: &Bytecode,
    f: &Function,
    s: StateV,
    i: int,
    depth: nat,
    full: nat,
    fun: RefFun,
)
    requires
        0 <= i < f.ops@.len(),
        closure_body_of(code, f, f.ops@[i]) == Some(fun),
        depth <= full + 1,
        step(code, f, s, i, depth) is Ok,
    ensures
        depth > 0,
        lift(code, fun.spec_fn(code).unwrap(), full) is Ok,
        lift(code, fun.spec_fn(code).unwrap(), full) == lift(
            code,
            fun.spec_fn(code).unwrap(),
            (depth - 1) as nat,
        ),
        step(code, f, s, i, depth).unwrap().expr(closure_register(f.ops@[i]))
            == match f.spec_var_name(code, i) {
            None => ExprV::Closure(fun, lift(code, fun.spec_fn(code).unwrap(), full).unwrap()),
            Some(name) => ExprV::Variable(closure_register(f.ops@[i]), Some(name)),
        },
{
    let g = fun.spec_fn(code).unwrap();
    lemma_lift_at_any_depth(code, g, (depth - 1) as nat, full);
}

} // verus!
