//! The working memory of the decompiler for one function.
//!
//! It holds the open scopes, the expression that each register stands for, the expressions
//! that are being put together from several instructions, and the names of the variables
//! that are already declared.

use crate::ast::{
    assign, exprs_view, fields_view, group_ast_views, unknown, unknown_v, Expr, ExprV, Statement,
    StmtV,
};
use crate::scopes::{Scopes, ScopesV};
use crate::types::{Bytecode, Function, RefField, RefFun, Reg};
use std::collections::HashMap;
use vstd::prelude::*;

verus! {

broadcast use {group_ast_views, vstd::std_specs::hash::group_hash_axioms};

/// A set of names.
pub struct NameSet {
    /// The names, each once
    pub names: Vec<String>,
}

impl View for NameSet {
    type V = Set<Seq<char>>;

    open spec fn view(&self) -> Set<Seq<char>> {
        Set::new(|n: Seq<char>| exists|k: int| 0 <= k < self.names@.len() && self.names@[k]@ == n)
    }
}

impl NameSet {
    pub fn new() -> (r: NameSet)
        ensures
            r@ == Set::<Seq<char>>::empty(),
    {
        let r = NameSet { names: Vec::new() };
        r
    }

    pub fn contains(&self, name: &String) -> (r: bool)
        ensures
            r == self@.contains(name@),
    {
        let mut k: usize = 0;
        while k < self.names.len()
            invariant
                k <= self.names@.len(),
                forall|j: int| 0 <= j < k ==> self.names@[j]@ != name@,
            decreases self.names.len() - k,
        {
            if self.names[k] == *name {
                return true;
            }
            k += 1;
        }
        false
    }

    /// Adds a name. Returns true where the name was not in the set.
    pub fn insert(&mut self, name: String) -> (r: bool)
        ensures
            r == !old(self)@.contains(name@),
            final(self)@ == old(self)@.insert(name@),
    {
        if self.contains(&name) {
            false
        } else {
            self.names.push(name);
            assert forall|n: Seq<char>| self@.contains(n) == old(self)@.insert(name@).contains(
                n,
            ) by {
                if old(self)@.contains(n) {
                    let k = choose|k: int|
                        0 <= k < old(self).names@.len() && old(self).names@[k]@ == n;
                    assert(self.names@[k]@ == n);
                }
                if n == name@ {
                    assert(self.names@[old(self).names@.len() as int]@ == n);
                }
            }
            true
        }
    }
}

/// An expression that is being put together from several instructions.
#[derive(Debug)]
pub enum ExprCtx {
    /// A `New` of an object waits for the call of its constructor. `pos` is the index of the
    /// `New`.
    Constructor { reg: Reg, pos: usize },
    /// A `New` of an anonymous structure waits for its fields to be set. `pos` is the index
    /// of the `New`, `remaining` the number of fields still to come.
    Anonymous { pos: usize, fields: Vec<(RefField, Expr)>, remaining: usize },
}

/// The view of an [`ExprCtx`].
pub enum ExprCtxV {
    Constructor { reg: Reg, pos: usize },
    Anonymous { pos: usize, fields: Seq<(RefField, ExprV)>, remaining: usize },
}

impl View for ExprCtx {
    type V = ExprCtxV;

    open spec fn view(&self) -> ExprCtxV {
        match self {
            ExprCtx::Constructor { reg, pos } => ExprCtxV::Constructor { reg: *reg, pos: *pos },
            ExprCtx::Anonymous { pos, fields, remaining } => ExprCtxV::Anonymous {
                pos: *pos,
                fields: fields_view(fields@),
                remaining: *remaining,
            },
        }
    }
}

/// What the decompiler passed over or settled while it went on, for whoever wants to know.
#[derive(Debug, Clone, Copy, PartialEq, Eq, Structural)]
pub enum Diagnostic {
    /// The jump forward at `pos` in the function `fun` matches no open scope, and is passed
    /// over.
    JumpWithoutScope { fun: RefFun, pos: usize },
    /// The conditional jump at `pos` in the function `fun` gave the innermost loop its
    /// condition, in the place of the placeholder that the loop had.
    LoopCondition { fun: RefFun, pos: usize },
}

/// The working memory of the decompiler for one function.
pub struct DecompilerState {
    /// Scope stack, holds the statements
    pub scopes: Scopes,
    /// Expression values for each registers
    pub reg_state: HashMap<u32, Expr>,
    /// For statements made of multiple instructions like constructor calls and anonymous
    /// structures
    pub expr_ctx: Vec<ExprCtx>,
    /// Variable names we already declared
    pub seen: NameSet,
    /// What was passed over or settled so far
    pub notes: Vec<Diagnostic>,
}

/// No field is given a value twice.
pub open spec fn fields_are_distinct(fields: Seq<(RefField, ExprV)>) -> bool {
    forall|j: int, k: int|
        0 <= j < k < fields.len() ==> (#[trigger] fields[j]).0 != (#[trigger] fields[k]).0
}

/// The view of a [`DecompilerState`].
pub struct StateV {
    pub scopes: ScopesV,
    /// The expression that each register stands for, by the number of the register
    pub regs: Map<u32, ExprV>,
    pub ctx: Seq<ExprCtxV>,
    pub seen: Set<Seq<char>>,
    pub notes: Seq<Diagnostic>,
}

impl View for DecompilerState {
    type V = StateV;

    open spec fn view(&self) -> StateV {
        StateV {
            scopes: self.scopes@,
            regs: self.reg_state@.map_values(|e: Expr| e@),
            ctx: self.expr_ctx@.map_values(|c: ExprCtx| c@),
            seen: self.seen@,
            notes: self.notes@,
        }
    }
}

/// The text of the placeholder for a register that holds nothing.
pub open spec fn missing_expr() -> Seq<char> {
    "missing expr"@
}

/// The registers that hold the arguments start at 1 where register 0 holds `this`: in a
/// method, and in a function named `__constructor__`.
pub open spec fn has_this(code: &Bytecode, f: &Function) -> bool {
    f.spec_is_method() || f.spec_name(code) == Some("__constructor__"@)
}

/// The number of the first register that holds an argument.
pub open spec fn first_arg(code: &Bytecode, f: &Function) -> int {
    if has_this(code, f) {
        1
    } else {
        0
    }
}

/// The name of the argument that the register `r` holds.
pub open spec fn reg_arg_name(code: &Bytecode, f: &Function, r: int) -> Option<Seq<char>> {
    f.spec_arg_name(code, r - first_arg(code, f))
}

impl StateV {
    /// The scope stack is well formed, an anonymous structure that is being put together
    /// waits for one field at least and holds no field twice, and a constructor call waits
    /// for a register of the function.
    pub open spec fn wf(self, f: &Function) -> bool {
        &&& self.scopes.wf()
        &&& forall|k: int|
            0 <= k < self.ctx.len() ==> match #[trigger] self.ctx[k] {
                ExprCtxV::Constructor { reg, pos } => reg.0 < f.regs@.len(),
                ExprCtxV::Anonymous { pos, fields, remaining } => remaining >= 1
                    && fields_are_distinct(fields),
            }
    }

    /// The state before the first instruction: register 0 holds `this` where the function
    /// has one, and each argument after it is a variable under the name that the assigns
    /// give it, which counts as declared.
    pub open spec fn initial(code: &Bytecode, f: &Function) -> StateV {
        let start = first_arg(code, f);
        let nargs = f.spec_ty(code).unwrap().args@.len();
        StateV {
            scopes: ScopesV::initial(),
            regs: Map::new(
                |r: u32| (start == 1 && r == 0) || start <= r < nargs,
                |r: u32|
                    if start == 1 && r == 0 {
                        ExprV::This
                    } else {
                        ExprV::Variable(Reg(r), reg_arg_name(code, f, r as int))
                    },
            ),
            ctx: Seq::empty(),
            seen: Set::new(
                |n: Seq<char>|
                    exists|r: int|
                        start <= r < nargs && #[trigger] reg_arg_name(code, f, r) == Some(n),
            ),
            notes: Seq::empty(),
        }
    }

    /// The state with one thing more that was passed over or settled.
    pub open spec fn note(self, d: Diagnostic) -> StateV {
        StateV { notes: self.notes.push(d), ..self }
    }

    /// The state with what a closure added to what was passed over or settled.
    pub open spec fn note_all(self, notes: Seq<Diagnostic>) -> StateV {
        StateV { notes: self.notes + notes, ..self }
    }

    /// The expression that a register stands for, a placeholder where it holds nothing.
    pub open spec fn expr(self, reg: Reg) -> ExprV {
        if self.regs.contains_key(reg.0) {
            self.regs[reg.0]
        } else {
            unknown_v(missing_expr())
        }
    }

    /// The expressions that some registers stand for.
    pub open spec fn args_expr(self, args: Seq<Reg>) -> Seq<ExprV> {
        Seq::new(args.len(), |k: int| self.expr(args[k]))
    }

    pub open spec fn push_stmt(self, stmt: StmtV) -> StateV {
        StateV { scopes: self.scopes.push_stmt(stmt), ..self }
    }

    /// Gives a register the expression it stands for from now on.
    pub open spec fn set_reg(self, reg: Reg, e: ExprV) -> StateV {
        StateV { regs: self.regs.insert(reg.0, e), ..self }
    }

    /// The instruction at `pos` gives `dst` the value `e`. Where the instruction assigns no
    /// variable, `dst` stands for `e` from now on. Where it does, `dst` stands for the
    /// variable, and the assignment becomes a statement: a declaration where the name is
    /// new.
    pub open spec fn push_expr(
        self,
        code: &Bytecode,
        f: &Function,
        pos: int,
        dst: Reg,
        e: ExprV,
    ) -> StateV {
        match f.spec_var_name(code, pos) {
            None => self.set_reg(dst, e),
            Some(name) => StateV {
                seen: self.seen.insert(name),
                ..self.set_reg(dst, ExprV::Variable(dst, Some(name))).push_stmt(
                    StmtV::Assign {
                        declaration: !self.seen.contains(name),
                        variable: ExprV::Variable(dst, Some(name)),
                        assign: e,
                    },
                )
            },
        }
    }
}

impl DecompilerState {
    /// The state before the first instruction of `f`.
    pub fn new(code: &Bytecode, f: &Function) -> (r: DecompilerState)
        requires
            f.spec_ty(code) is Some,
            f.spec_ty(code).unwrap().args@.len() <= u32::MAX,
            f.name matches Some(n) ==> n.0 < code.strings@.len(),
            f.assigns_valid(code),
        ensures
            r@ == StateV::initial(code, f),
            r@.wf(f),
    {
        let scopes = Scopes::new();
        let mut reg_state: HashMap<u32, Expr> = HashMap::new();
        let expr_ctx: Vec<ExprCtx> = Vec::new();
        let mut seen = NameSet::new();
        let mut start: usize = 0;
        let named_constructor = match f.name(code) {
            Some(n) => String::from_str(n) == String::from_str("__constructor__"),
            None => false,
        };
        if f.is_method() || named_constructor {
            reg_state.insert(0, Expr::This);
            start = 1;
        }
        let nargs = f.ty(code).args.len();
        let ghost init = StateV::initial(code, f);
        let mut i: usize = start;
        while i < nargs
            invariant
                start == first_arg(code, f),
                init == StateV::initial(code, f),
                f.spec_ty(code) is Some,
                start <= i,
                i <= nargs || i == start,
                nargs == f.spec_ty(code).unwrap().args@.len(),
                nargs <= u32::MAX,
                f.assigns_valid(code),
                forall|r: u32|
                    reg_state@.contains_key(r) <==> (start == 1 && r == 0) || start <= r < i,
                forall|r: u32| #[trigger]
                    reg_state@.contains_key(r) ==> reg_state@[r]@ == init.regs[r],
                forall|n: Seq<char>|
                    seen@.contains(n) <==> exists|r: int|
                        start <= r < i && #[trigger] reg_arg_name(code, f, r) == Some(n),
            decreases nargs - i,
        {
            let name = match f.arg_name(code, i - start) {
                Some(n) => Some(n.to_owned()),
                None => None,
            };
            let ghost seen_before = seen@;
            let for_set = match &name {
                Some(n) => Some(n.clone()),
                None => None,
            };
            reg_state.insert(i as u32, Expr::Variable(Reg(i as u32), name));
            if let Some(n) = for_set {
                seen.insert(n);
            }
            assert forall|n: Seq<char>|
                seen@.contains(n) <==> exists|r: int|
                    start <= r < i + 1 && #[trigger] reg_arg_name(code, f, r) == Some(n) by {
                if seen@.contains(n) {
                    if seen_before.contains(n) {
                        let r = choose|r: int|
                            start <= r < i && #[trigger] reg_arg_name(code, f, r) == Some(n);
                        assert(start <= r < i + 1 && reg_arg_name(code, f, r) == Some(n));
                    } else {
                        assert(reg_arg_name(code, f, i as int) == Some(n));
                    }
                }
                if exists|r: int|
                    start <= r < i + 1 && #[trigger] reg_arg_name(code, f, r) == Some(n) {
                    let r = choose|r: int|
                        start <= r < i + 1 && #[trigger] reg_arg_name(code, f, r) == Some(n);
                    if r < i {
                        assert(seen_before.contains(n));
                    }
                }
            }
            i += 1;
        }
        let r = DecompilerState { scopes, reg_state, expr_ctx, seen, notes: Vec::new() };
        assert(r@.regs =~= init.regs);
        assert(r@.seen =~= init.seen);
        assert(r@.ctx =~= init.ctx);
        r
    }

    pub fn push_stmt(&mut self, stmt: Statement)
        requires
            old(self)@.scopes.wf(),
        ensures
            final(self)@ == old(self)@.push_stmt(stmt@),
            final(self)@.scopes.wf(),
            final(self).scopes.cursor == old(self).scopes.cursor,
    {
        self.scopes.push_stmt(stmt);
    }

    /// Update the register state and create a statement depending on inline rules
    pub fn push_expr(&mut self, code: &Bytecode, f: &Function, i: usize, dst: Reg, expr: Expr)
        requires
            old(self)@.scopes.wf(),
            f.assigns_valid(code),
        ensures
            final(self)@ == old(self)@.push_expr(code, f, i as int, dst, expr@),
            final(self)@.scopes.wf(),
            final(self).scopes.cursor == old(self).scopes.cursor,
    {
        match f.var_name(code, i) {
            None => {
                self.reg_state.insert(dst.0, expr);
                assert(self@.regs =~= old(self)@.regs.insert(dst.0, expr@));
            },
            Some(name) => {
                let variable = Expr::Variable(dst, Some(name.clone()));
                self.reg_state.insert(dst.0, variable.clone());
                assert(self@.regs =~= old(self)@.regs.insert(dst.0, variable@));
                let declaration = self.seen.insert(name);
                self.scopes.push_stmt(Statement::Assign { declaration, variable, assign: expr });
            },
        }
    }

    /// Get the expr for a register
    pub fn expr(&self, reg: Reg) -> (r: Expr)
        ensures
            r@ == self@.expr(reg),
    {
        match self.reg_state.get(&reg.0) {
            Some(e) => e.clone(),
            None => unknown("missing expr"),
        }
    }

    /// Expands the expression of many registers
    pub fn args_expr(&self, args: &[Reg]) -> (r: Vec<Expr>)
        ensures
            exprs_view(r@) == self@.args_expr(args@),
    {
        let r = self.args_expr_from(args, 0);
        r
    }

    /// Expands the expression of the registers from the index `from` on
    pub fn args_expr_from(&self, args: &[Reg], from: usize) -> (r: Vec<Expr>)
        requires
            from <= args@.len(),
        ensures
            exprs_view(r@) == self@.args_expr(args@.skip(from as int)),
    {
        let mut out: Vec<Expr> = Vec::new();
        let mut k: usize = from;
        while k < args.len()
            invariant
                from <= k <= args@.len(),
                exprs_view(out@) == self@.args_expr(args@.subrange(from as int, k as int)),
            decreases args.len() - k,
        {
            let e = self.expr(args[k]);
            out.push(e);
            assert(self@.args_expr(args@.subrange(from as int, k + 1)) =~= self@.args_expr(
                args@.subrange(from as int, k as int),
            ).push(self@.expr(args@[k as int])));
            k += 1;
        }
        out
    }
}

} // verus!
