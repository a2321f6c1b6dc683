//! Rewrites of the syntax tree that fold the idioms of the compiler back into source form.
//!
//! One traversal applies every rewrite, children before their parent: to each statement the
//! fold of an `if` and `else` that assign the same place into one conditional assignment;
//! to each expression the folds of string concatenation, of the conversion of integers to
//! strings inside a concatenation, and of the call of the trace function.

use crate::ast::{
    array, array_v, binary, binary_v, call, call_v, cases_view, exprs_view, field_named, field_v,
    fields_view, group_ast_views, stmts_view, unary, unary_v, BinaryKind, Constant, ConstructorCall,
    Expr, ExprV, Statement, StmtV,
};
use crate::types::{Bytecode, RefField, RefFun, RefFunKnown, Reg};
use vstd::pervasive::unreached;
use vstd::prelude::*;

verus! {

broadcast use group_ast_views;

/// Two expressions name the same place: the same variable, the same field of the same
/// place, or the same element of the same place. Only variables, `this`, literals, fields
/// and elements are compared; anything else names no place.
pub open spec fn same_place(a: ExprV, b: ExprV) -> bool
    decreases a,
{
    match (a, b) {
        (ExprV::Variable(r1, n1), ExprV::Variable(r2, n2)) => r1 == r2 && n1 == n2,
        (ExprV::This, ExprV::This) => true,
        (ExprV::Constant(c1), ExprV::Constant(c2)) => c1 == c2,
        (ExprV::Field(e1, n1), ExprV::Field(e2, n2)) => n1 == n2 && same_place(*e1, *e2),
        (ExprV::Array(e1, i1), ExprV::Array(e2, i2)) => same_place(*e1, *e2) && same_place(
            *i1,
            *i2,
        ),
        _ => false,
    }
}

/// The findex names a function or native of the bytecode whose name is `name`.
pub open spec fn fun_is_named(code: &Bytecode, fun: RefFun, name: Seq<char>) -> bool {
    &&& fun.valid(code)
    &&& fun.spec_resolve(code).name_valid(code)
    &&& fun.spec_resolve(code).spec_name(code) == Some(name)
}

/// The expression is a call of the function that converts an integer to a string.
pub open spec fn is_itos_call(code: &Bytecode, e: ExprV) -> bool {
    match e {
        ExprV::Call(fun, args) => args.len() >= 1 && match *fun {
            ExprV::FunRef(f) => fun_is_named(code, f, "itos"@),
            _ => false,
        },
        _ => false,
    }
}

/// The expression without the conversions of integers to strings around it.
pub open spec fn strip_itos(code: &Bytecode, e: ExprV) -> ExprV
    decreases e,
{
    if is_itos_call(code, e) {
        match e {
            ExprV::Call(fun, args) => strip_itos(code, args[0]),
            _ => e,
        }
    } else {
        e
    }
}

/// The name of a method that adds two strings.
pub open spec fn is_concat_name(name: Seq<char>) -> bool {
    name == "+"@ || name == "__add__"@
}

/// A call of a method that adds two strings becomes an addition.
pub open spec fn fold_string_concat(e: ExprV) -> ExprV {
    match e {
        ExprV::Call(fun, args) => match *fun {
            ExprV::Field(receiver, name) => if is_concat_name(name) && args.len() == 1 {
                binary_v(BinaryKind::Add, *receiver, args[0])
            } else {
                e
            },
            _ => e,
        },
        _ => e,
    }
}

/// The operands of an addition lose the conversions of integers to strings around them.
pub open spec fn fold_itos(code: &Bytecode, e: ExprV) -> ExprV {
    match e {
        ExprV::BinaryOp(BinaryKind::Add, a, b) => binary_v(
            BinaryKind::Add,
            strip_itos(code, *a),
            strip_itos(code, *b),
        ),
        _ => e,
    }
}

/// The expression is the trace function of the runtime: the field `trace` of the class
/// `haxe.$Log`.
pub open spec fn is_trace_fun(e: ExprV) -> bool {
    match e {
        ExprV::Field(receiver, name) => name == "trace"@ && match *receiver {
            ExprV::Variable(_, Some(class)) => class == "haxe.$Log"@,
            _ => false,
        },
        _ => false,
    }
}

/// The arguments that the source gave: those that are no anonymous structure. The compiler
/// adds the place of the call as one.
pub open spec fn source_args(args: Seq<ExprV>) -> Seq<ExprV> {
    args.filter(|a: ExprV| !(a is Anonymous))
}

/// The variable that a call of the trace function is written with.
pub open spec fn trace_name() -> ExprV {
    ExprV::Variable(Reg(0), Some("trace"@))
}

/// A call of the trace function of the runtime becomes a call of `trace` with the
/// arguments that the source gave.
pub open spec fn fold_trace(e: ExprV) -> ExprV {
    match e {
        ExprV::Call(fun, args) => if is_trace_fun(*fun) {
            call_v(trace_name(), source_args(args))
        } else {
            e
        },
        _ => e,
    }
}

/// The rewrites of one expression whose parts are rewritten, in their order.
pub open spec fn fold_expr(code: &Bytecode, e: ExprV) -> ExprV {
    fold_trace(fold_itos(code, fold_string_concat(e)))
}

/// An `if` and `else` that each assign the same place, and do nothing else, become one
/// assignment of a choice. It declares the variable where one of the two did.
pub open spec fn fold_stmt(s: StmtV) -> StmtV {
    match s {
        StmtV::IfElse { cond, if_, else_: Some(else_) } => if if_.len() == 1 && else_.len() == 1 {
            match (if_[0], else_[0]) {
                (
                    StmtV::Assign { declaration: d1, variable: v1, assign: a1 },
                    StmtV::Assign { declaration: d2, variable: v2, assign: a2 },
                ) => if same_place(v1, v2) {
                    StmtV::Assign {
                        declaration: d1 || d2,
                        variable: v1,
                        assign: ExprV::IfElse {
                            cond: Box::new(cond),
                            if_: Box::new(a1),
                            else_: Box::new(a2),
                        },
                    }
                } else {
                    s
                },
                _ => s,
            }
        } else {
            s
        },
        _ => s,
    }
}

/// Every expression of a sequence rewritten.
pub open spec fn post_exprs(code: &Bytecode, v: Seq<ExprV>) -> Seq<ExprV>
    decreases v,
{
    Seq::new(
        v.len(),
        |i: int|
            if 0 <= i < v.len() {
                post_expr(code, v[i])
            } else {
                ExprV::This
            },
    )
}

/// The value of every field of an anonymous structure rewritten.
pub open spec fn post_fields(code: &Bytecode, v: Seq<(RefField, ExprV)>) -> Seq<
    (RefField, ExprV),
>
    decreases v,
{
    Seq::new(
        v.len(),
        |i: int|
            if 0 <= i < v.len() {
                (v[i].0, post_expr(code, v[i].1))
            } else {
                (RefField(0), ExprV::This)
            },
    )
}

/// Every statement of a sequence rewritten.
pub open spec fn post_stmts(code: &Bytecode, v: Seq<StmtV>) -> Seq<StmtV>
    decreases v,
{
    Seq::new(
        v.len(),
        |i: int|
            if 0 <= i < v.len() {
                post_stmt(code, v[i])
            } else {
                StmtV::Break
            },
    )
}

/// The body of every case of a switch rewritten.
pub open spec fn post_cases(code: &Bytecode, v: Seq<(Option<usize>, Seq<StmtV>)>) -> Seq<
    (Option<usize>, Seq<StmtV>),
>
    decreases v,
{
    Seq::new(
        v.len(),
        |i: int|
            if 0 <= i < v.len() {
                (v[i].0, post_stmts(code, v[i].1))
            } else {
                (None, Seq::empty())
            },
    )
}

/// The expression with its parts rewritten.
pub open spec fn post_parts(code: &Bytecode, e: ExprV) -> ExprV
    decreases e, 0nat,
{
    match e {
        ExprV::Anonymous(ty, fields) => ExprV::Anonymous(ty, post_fields(code, fields)),
        ExprV::Array(a, i) => array_v(post_expr(code, *a), post_expr(code, *i)),
        ExprV::Call(fun, args) => call_v(post_expr(code, *fun), post_exprs(code, args)),
        ExprV::Constant(c) => e,
        ExprV::Constructor(ty, args) => ExprV::Constructor(ty, post_exprs(code, args)),
        ExprV::Closure(fun, stmts) => ExprV::Closure(fun, post_stmts(code, stmts)),
        ExprV::EnumConstr(ty, construct, args) => ExprV::EnumConstr(
            ty,
            construct,
            post_exprs(code, args),
        ),
        ExprV::Field(receiver, name) => field_v(post_expr(code, *receiver), name),
        ExprV::FunRef(fun) => e,
        ExprV::IfElse { cond, if_, else_ } => ExprV::IfElse {
            cond: Box::new(post_expr(code, *cond)),
            if_: Box::new(post_expr(code, *if_)),
            else_: Box::new(post_expr(code, *else_)),
        },
        ExprV::BinaryOp(kind, a, b) => binary_v(kind, post_expr(code, *a), post_expr(code, *b)),
        ExprV::UnaryOp(kind, a) => unary_v(kind, post_expr(code, *a)),
        ExprV::This => e,
        ExprV::Unknown(msg) => e,
        ExprV::Variable(reg, name) => e,
    }
}

/// The expression rewritten: its parts first, then the expression itself.
pub open spec fn post_expr(code: &Bytecode, e: ExprV) -> ExprV
    decreases e, 1nat,
{
    fold_expr(code, post_parts(code, e))
}

/// The statement with its parts rewritten.
pub open spec fn post_stmt_parts(code: &Bytecode, s: StmtV) -> StmtV
    decreases s, 0nat,
{
    match s {
        StmtV::Assign { declaration, variable, assign } => StmtV::Assign {
            declaration,
            variable: post_expr(code, variable),
            assign: post_expr(code, assign),
        },
        StmtV::ExprStatement(e) => StmtV::ExprStatement(post_expr(code, e)),
        StmtV::Return(e) => StmtV::Return(
            match e {
                Some(e) => Some(post_expr(code, e)),
                None => None,
            },
        ),
        StmtV::IfElse { cond, if_, else_ } => StmtV::IfElse {
            cond: post_expr(code, cond),
            if_: post_stmts(code, if_),
            else_: match else_ {
                Some(stmts) => Some(post_stmts(code, stmts)),
                None => None,
            },
        },
        StmtV::Switch { arg, cases } => StmtV::Switch {
            arg: post_expr(code, arg),
            cases: post_cases(code, cases),
        },
        StmtV::While { cond, stmts } => StmtV::While {
            cond: post_expr(code, cond),
            stmts: post_stmts(code, stmts),
        },
        StmtV::Break => s,
        StmtV::Continue => s,
        StmtV::Throw(e) => StmtV::Throw(post_expr(code, e)),
        StmtV::Try { stmts, catch } => StmtV::Try {
            stmts: post_stmts(code, stmts),
            catch: match catch {
                Some(stmts) => Some(post_stmts(code, stmts)),
                None => None,
            },
        },
        StmtV::Comment(text) => s,
    }
}

/// The statement rewritten: its parts first, then the statement itself.
pub open spec fn post_stmt(code: &Bytecode, s: StmtV) -> StmtV
    decreases s, 1nat,
{
    fold_stmt(post_stmt_parts(code, s))
}

/// True where the string is the text.
pub fn str_is(s: &String, text: &str) -> (r: bool)
    ensures
        r == (s@ == text@),
{
    *s == String::from_str(text)
}

/// True where two names are the same, or both are missing.
pub fn same_name(a: &Option<String>, b: &Option<String>) -> (r: bool)
    ensures
        r == match (a, b) {
            (Some(a), Some(b)) => a@ == b@,
            (None, None) => true,
            _ => false,
        },
{
    match (a, b) {
        (Some(a), Some(b)) => *a == *b,
        (None, None) => true,
        _ => false,
    }
}

/// True where two literals are the same.
pub fn same_constant(a: &Constant, b: &Constant) -> (r: bool)
    ensures
        r == (a@ == b@),
{
    match (a, b) {
        (Constant::Int(a), Constant::Int(b)) => *a == *b,
        (Constant::Float(a), Constant::Float(b)) => *a == *b,
        (Constant::String(a), Constant::String(b)) => *a == *b,
        (Constant::Bool(a), Constant::Bool(b)) => *a == *b,
        (Constant::Null, Constant::Null) => true,
        _ => false,
    }
}

/// True where two expressions name the same place.
pub fn is_same_place(a: &Expr, b: &Expr) -> (r: bool)
    ensures
        r == same_place(a@, b@),
    decreases a,
{
    match (a, b) {
        (Expr::Variable(r1, n1), Expr::Variable(r2, n2)) => *r1 == *r2 && same_name(n1, n2),
        (Expr::This, Expr::This) => true,
        (Expr::Constant(c1), Expr::Constant(c2)) => same_constant(c1, c2),
        (Expr::Field(e1, n1), Expr::Field(e2, n2)) => *n1 == *n2 && is_same_place(e1, e2),
        (Expr::Array(e1, i1), Expr::Array(e2, i2)) => is_same_place(e1, e2) && is_same_place(
            i1,
            i2,
        ),
        _ => false,
    }
}

/// True where the findex names a function or native of the bytecode whose name is `name`.
pub fn fun_named(code: &Bytecode, fun: RefFun, name: &str) -> (r: bool)
    ensures
        r == fun_is_named(code, fun, name@),
{
    if fun.0 >= code.findexes.len() {
        return false;
    }
    match code.findexes[fun.0] {
        RefFunKnown::Fun(x) => {
            if x >= code.functions.len() {
                return false;
            }
            match code.functions[x].name {
                Some(n) => n.0 < code.strings.len() && str_is(&code.strings[n.0], name),
                None => false,
            }
        },
        RefFunKnown::Native(x) => {
            if x >= code.natives.len() {
                return false;
            }
            let n = code.natives[x].name;
            n.0 < code.strings.len() && str_is(&code.strings[n.0], name)
        },
    }
}

/// True where the expression is a call of the function that converts an integer to a
/// string.
pub fn itos_call(code: &Bytecode, e: &Expr) -> (r: bool)
    ensures
        r == is_itos_call(code, e@),
{
    proof {
        reveal_with_fuel(Expr::model, 3);
    }
    match e {
        Expr::Call(fun, args) => args.len() >= 1 && match &**fun {
            Expr::FunRef(f) => fun_named(code, *f, "itos"),
            _ => false,
        },
        _ => false,
    }
}

/// The expression without the conversions of integers to strings around it.
pub fn without_itos(code: &Bytecode, e: &Expr) -> (r: Expr)
    ensures
        r@ == strip_itos(code, e@),
    decreases e,
{
    proof {
        reveal_with_fuel(Expr::model, 3);
    }
    if itos_call(code, e) {
        match e {
            Expr::Call(fun, args) => without_itos(code, &args[0]),
            _ => e.clone(),
        }
    } else {
        e.clone()
    }
}

/// A call of a method that adds two strings becomes an addition.
pub fn string_concat(e: Expr) -> (r: Expr)
    ensures
        r@ == fold_string_concat(e@),
{
    proof {
        reveal_with_fuel(Expr::model, 3);
    }
    let applies = match &e {
        Expr::Call(fun, args) => args.len() == 1 && match &**fun {
            Expr::Field(_, name) => str_is(name, "+") || str_is(name, "__add__"),
            _ => false,
        },
        _ => false,
    };
    if applies {
        match e {
            Expr::Call(fun, args) => {
                let mut args = args;
                let other = args.pop().unwrap();
                match *fun {
                    Expr::Field(receiver, _) => binary(BinaryKind::Add, *receiver, other),
                    _ => unreached(),
                }
            },
            _ => unreached(),
        }
    } else {
        e
    }
}

/// The operands of an addition lose the conversions of integers to strings around them.
pub fn itos(code: &Bytecode, e: Expr) -> (r: Expr)
    ensures
        r@ == fold_itos(code, e@),
{
    match e {
        Expr::BinaryOp(BinaryKind::Add, a, b) => binary(
            BinaryKind::Add,
            without_itos(code, &*a),
            without_itos(code, &*b),
        ),
        other => other,
    }
}

/// True where the expression is the trace function of the runtime.
pub fn trace_fun(e: &Expr) -> (r: bool)
    ensures
        r == is_trace_fun(e@),
{
    proof {
        reveal_with_fuel(Expr::model, 3);
    }
    match e {
        Expr::Field(receiver, name) => str_is(name, "trace") && match &**receiver {
            Expr::Variable(_, Some(class)) => str_is(class, "haxe.$Log"),
            _ => false,
        },
        _ => false,
    }
}

/// The arguments that are no anonymous structure.
pub fn args_of_source(args: &Vec<Expr>) -> (r: Vec<Expr>)
    ensures
        exprs_view(r@) == source_args(exprs_view(args@)),
{
    let ghost pred = |a: ExprV| !(a is Anonymous);
    let ghost all = exprs_view(args@);
    let mut out: Vec<Expr> = Vec::new();
    let mut k: usize = 0;
    assert(all.take(0).filter(pred) =~= Seq::empty()) by {
        reveal(Seq::filter);
    }
    while k < args.len()
        invariant
            k <= args@.len(),
            all == exprs_view(args@),
            pred == |a: ExprV| !(a is Anonymous),
            exprs_view(out@) == all.take(k as int).filter(pred),
        decreases args.len() - k,
    {
        proof {
            let next = all.take(k + 1);
            assert(next.drop_last() =~= all.take(k as int));
            reveal(Seq::filter);
        }
        let anonymous = match &args[k] {
            Expr::Anonymous(_, _) => true,
            _ => false,
        };
        if !anonymous {
            out.push(args[k].clone());
        }
        k += 1;
    }
    assert(all.take(k as int) =~= all);
    out
}

/// A call of the trace function of the runtime becomes a call of `trace` with the
/// arguments that the source gave.
pub fn trace(e: Expr) -> (r: Expr)
    ensures
        r@ == fold_trace(e@),
{
    proof {
        reveal_with_fuel(Expr::model, 3);
    }
    let applies = match &e {
        Expr::Call(fun, _) => trace_fun(fun),
        _ => false,
    };
    if applies {
        match &e {
            Expr::Call(_, args) => call(
                Expr::Variable(Reg(0), Some("trace".to_owned())),
                args_of_source(args),
            ),
            _ => unreached(),
        }
    } else {
        e
    }
}

/// The rewrites of one expression whose parts are rewritten, in their order.
pub fn rewrite_expr(code: &Bytecode, e: Expr) -> (r: Expr)
    ensures
        r@ == fold_expr(code, e@),
{
    trace(itos(code, string_concat(e)))
}

/// An `if` and `else` that each assign the same place, and do nothing else, become one
/// assignment of a choice.
pub fn rewrite_stmt(s: Statement) -> (r: Statement)
    ensures
        r@ == fold_stmt(s@),
{
    proof {
        reveal_with_fuel(Statement::model, 2);
        reveal_with_fuel(Expr::model, 2);
    }
    let applies = match &s {
        Statement::IfElse { cond, if_, else_: Some(else_) } => if_.len() == 1 && else_.len() == 1
            && match (&if_[0], &else_[0]) {
            (
                Statement::Assign { variable: v1, .. },
                Statement::Assign { variable: v2, .. },
            ) => is_same_place(v1, v2),
            _ => false,
        },
        _ => false,
    };
    if applies {
        match s {
            Statement::IfElse { cond, if_, else_: Some(else_) } => {
                let mut if_ = if_;
                let mut else_ = else_;
                match (if_.pop().unwrap(), else_.pop().unwrap()) {
                    (
                        Statement::Assign { declaration: d1, variable, assign: a1 },
                        Statement::Assign { declaration: d2, variable: _, assign: a2 },
                    ) => Statement::Assign {
                        declaration: d1 || d2,
                        variable,
                        assign: Expr::IfElse {
                            cond: Box::new(cond),
                            if_: Box::new(a1),
                            else_: Box::new(a2),
                        },
                    },
                    _ => unreached(),
                }
            },
            _ => unreached(),
        }
    } else {
        s
    }
}

/// Rewrites every expression of a list.
pub fn visit_exprs(code: &Bytecode, v: &Vec<Expr>) -> (r: Vec<Expr>)
    ensures
        exprs_view(r@) == post_exprs(code, exprs_view(v@)),
    decreases v,
{
    let mut out: Vec<Expr> = Vec::new();
    let mut i: usize = 0;
    while i < v.len()
        invariant
            i <= v.len(),
            out.len() == i,
            forall|k: int| 0 <= k < i ==> out@[k]@ == post_expr(code, v@[k]@),
        decreases v.len() - i,
    {
        let e = visit_expr(code, &v[i]);
        out.push(e);
        i += 1;
    }
    out
}

/// Rewrites the value of every field of an anonymous structure.
pub fn visit_fields(code: &Bytecode, v: &Vec<(RefField, Expr)>) -> (r: Vec<(RefField, Expr)>)
    ensures
        fields_view(r@) == post_fields(code, fields_view(v@)),
    decreases v,
{
    let mut out: Vec<(RefField, Expr)> = Vec::new();
    let mut i: usize = 0;
    while i < v.len()
        invariant
            i <= v.len(),
            out.len() == i,
            forall|k: int|
                0 <= k < i ==> out@[k].0 == v@[k].0 && out@[k].1@ == post_expr(code, v@[k].1@),
        decreases v.len() - i,
    {
        let e = visit_expr(code, &v[i].1);
        out.push((v[i].0, e));
        i += 1;
    }
    out
}

/// Rewrites every statement of a list.
pub fn visit_stmts(code: &Bytecode, v: &Vec<Statement>) -> (r: Vec<Statement>)
    ensures
        stmts_view(r@) == post_stmts(code, stmts_view(v@)),
    decreases v,
{
    let mut out: Vec<Statement> = Vec::new();
    let mut i: usize = 0;
    while i < v.len()
        invariant
            i <= v.len(),
            out.len() == i,
            forall|k: int| 0 <= k < i ==> out@[k]@ == post_stmt(code, v@[k]@),
        decreases v.len() - i,
    {
        let s = visit_stmt(code, &v[i]);
        out.push(s);
        i += 1;
    }
    out
}

/// Rewrites the body of every case of a switch.
pub fn visit_cases(code: &Bytecode, v: &Vec<(Option<usize>, Vec<Statement>)>) -> (r: Vec<
    (Option<usize>, Vec<Statement>),
>)
    ensures
        cases_view(r@) == post_cases(code, cases_view(v@)),
    decreases v,
{
    let mut out: Vec<(Option<usize>, Vec<Statement>)> = Vec::new();
    let mut i: usize = 0;
    while i < v.len()
        invariant
            i <= v.len(),
            out.len() == i,
            forall|k: int|
                0 <= k < i ==> out@[k].0 == v@[k].0 && stmts_view(out@[k].1@) == post_stmts(
                    code,
                    stmts_view(v@[k].1@),
                ),
        decreases v.len() - i,
    {
        let body = visit_stmts(code, &v[i].1);
        out.push((v[i].0, body));
        i += 1;
    }
    out
}

/// The expression with its parts rewritten.
pub fn visit_parts(code: &Bytecode, e: &Expr) -> (r: Expr)
    ensures
        r@ == post_parts(code, e@),
    decreases e, 0nat,
{
    match e {
        Expr::Anonymous(ty, fields) => Expr::Anonymous(*ty, visit_fields(code, fields)),
        Expr::Array(a, i) => array(visit_expr(code, a), visit_expr(code, i)),
        Expr::Call(fun, args) => call(visit_expr(code, fun), visit_exprs(code, args)),
        Expr::Constructor(c) => Expr::Constructor(
            ConstructorCall::new(c.ty, visit_exprs(code, &c.args)),
        ),
        Expr::Closure(fun, stmts) => Expr::Closure(*fun, visit_stmts(code, stmts)),
        Expr::EnumConstr(ty, construct, args) => Expr::EnumConstr(
            *ty,
            *construct,
            visit_exprs(code, args),
        ),
        Expr::Field(receiver, name) => field_named(visit_expr(code, receiver), name.clone()),
        Expr::IfElse { cond, if_, else_ } => Expr::IfElse {
            cond: Box::new(visit_expr(code, cond)),
            if_: Box::new(visit_expr(code, if_)),
            else_: Box::new(visit_expr(code, else_)),
        },
        Expr::BinaryOp(kind, a, b) => binary(*kind, visit_expr(code, a), visit_expr(code, b)),
        Expr::UnaryOp(kind, a) => unary(*kind, visit_expr(code, a)),
        _ => e.clone(),
    }
}

/// Rewrites an expression: its parts first, then the expression itself.
pub fn visit_expr(code: &Bytecode, e: &Expr) -> (r: Expr)
    ensures
        r@ == post_expr(code, e@),
    decreases e, 1nat,
{
    rewrite_expr(code, visit_parts(code, e))
}

/// The statement with its parts rewritten.
pub fn visit_stmt_parts(code: &Bytecode, s: &Statement) -> (r: Statement)
    ensures
        r@ == post_stmt_parts(code, s@),
    decreases s, 0nat,
{
    match s {
        Statement::Assign { declaration, variable, assign } => Statement::Assign {
            declaration: *declaration,
            variable: visit_expr(code, variable),
            assign: visit_expr(code, assign),
        },
        Statement::ExprStatement(e) => Statement::ExprStatement(visit_expr(code, e)),
        Statement::Return(e) => Statement::Return(
            match e {
                Some(e) => Some(visit_expr(code, e)),
                None => None,
            },
        ),
        Statement::IfElse { cond, if_, else_ } => Statement::IfElse {
            cond: visit_expr(code, cond),
            if_: visit_stmts(code, if_),
            else_: match else_ {
                Some(stmts) => Some(visit_stmts(code, stmts)),
                None => None,
            },
        },
        Statement::Switch { arg, cases } => Statement::Switch {
            arg: visit_expr(code, arg),
            cases: visit_cases(code, cases),
        },
        Statement::While { cond, stmts } => Statement::While {
            cond: visit_expr(code, cond),
            stmts: visit_stmts(code, stmts),
        },
        Statement::Throw(e) => Statement::Throw(visit_expr(code, e)),
        Statement::Try { stmts, catch } => Statement::Try {
            stmts: visit_stmts(code, stmts),
            catch: match catch {
                Some(stmts) => Some(visit_stmts(code, stmts)),
                None => None,
            },
        },
        _ => s.clone(),
    }
}

/// Rewrites a statement: its parts first, then the statement itself.
pub fn visit_stmt(code: &Bytecode, s: &Statement) -> (r: Statement)
    ensures
        r@ == post_stmt(code, s@),
    decreases s, 1nat,
{
    rewrite_stmt(visit_stmt_parts(code, s))
}

/// Rewrites the statements of a function.
pub fn visit(code: &Bytecode, statements: &Vec<Statement>) -> (r: Vec<Statement>)
    ensures
        stmts_view(r@) == post_stmts(code, stmts_view(statements@)),
{
    visit_stmts(code, statements)
}

/// The post-processing leaves a place as it is: in a variable, `this`, a literal, a field
/// of a place and an element of a place it finds nothing to rewrite.
pub proof fn lemma_place_is_kept(code: &Bytecode, x: ExprV, y: ExprV)
    requires
        same_place(x, y),
    ensures
        post_expr(code, x) == x,
        post_expr(code, y) == y,
    decreases x,
{
    match (x, y) {
        (ExprV::Field(e1, n1), ExprV::Field(e2, n2)) => {
            lemma_place_is_kept(code, *e1, *e2);
            assert(post_parts(code, x) == x);
            assert(post_parts(code, y) == y);
        },
        (ExprV::Array(e1, i1), ExprV::Array(e2, i2)) => {
            lemma_place_is_kept(code, *e1, *e2);
            lemma_place_is_kept(code, *i1, *i2);
            assert(post_parts(code, x) == x);
            assert(post_parts(code, y) == y);
        },
        _ => {
            assert(post_parts(code, x) == x);
            assert(post_parts(code, y) == y);
        },
    }
}

/// The fold of an `if` and `else` that assign the same place: the statements
/// `if (cond) x = a else x = b` become the one statement `x = cond ? a : b`, and no `if`
/// is left. The place stays as it is; the condition and the two values are rewritten as
/// any expression is. The assignment declares the variable where one of the two did.
pub proof fn lemma_if_else_fold(
    code: &Bytecode,
    cond: ExprV,
    d1: bool,
    x: ExprV,
    a: ExprV,
    d2: bool,
    y: ExprV,
    b: ExprV,
)
    requires
        same_place(x, y),
    ensures
        post_stmts(
            code,
            seq![
                StmtV::IfElse {
                    cond,
                    if_: seq![StmtV::Assign { declaration: d1, variable: x, assign: a }],
                    else_: Some(seq![StmtV::Assign { declaration: d2, variable: y, assign: b }]),
                },
            ],
        ) == seq![
            StmtV::Assign {
                declaration: d1 || d2,
                variable: x,
                assign: ExprV::IfElse {
                    cond: Box::new(post_expr(code, cond)),
                    if_: Box::new(post_expr(code, a)),
                    else_: Box::new(post_expr(code, b)),
                },
            },
        ],
{
    lemma_place_is_kept(code, x, y);
    let first = StmtV::Assign { declaration: d1, variable: x, assign: a };
    let second = StmtV::Assign { declaration: d2, variable: y, assign: b };
    let whole = StmtV::IfElse { cond, if_: seq![first], else_: Some(seq![second]) };
    // each branch is one assignment still, to the place that it was to
    let first_done = StmtV::Assign { declaration: d1, variable: x, assign: post_expr(code, a) };
    let second_done = StmtV::Assign { declaration: d2, variable: y, assign: post_expr(code, b) };
    assert(post_stmt(code, first) == first_done);
    assert(post_stmt(code, second) == second_done);
    assert(post_stmts(code, seq![first]) =~= seq![first_done]);
    assert(post_stmts(code, seq![second]) =~= seq![second_done]);
    assert(post_stmt_parts(code, whole) == (StmtV::IfElse {
        cond: post_expr(code, cond),
        if_: seq![first_done],
        else_: Some(seq![second_done]),
    }));
    assert(post_stmts(code, seq![whole]) =~= seq![post_stmt(code, whole)]);
}

} // verus!
