//! The post-processing leaves nothing for itself to do: applied to its own result, it
//! changes nothing.

use crate::ast::{binary_v, call_v, field_v, BinaryKind, ExprV, StmtV};
use crate::post::{
    fold_expr, fold_stmt, is_concat_name, is_itos_call, is_trace_fun, post_cases, post_expr,
    post_exprs, post_fields, post_parts, post_stmt, post_stmt_parts, post_stmts, source_args,
    strip_itos, trace_name,
};
use crate::types::{Bytecode, RefField};
use vstd::prelude::*;

verus! {

/// The name of the trace function is no name of a method that adds strings.
proof fn lemma_trace_is_no_concat()
    ensures
        !is_concat_name("trace"@),
{
    reveal_strlit("trace");
    reveal_strlit("+");
    reveal_strlit("__add__");
    assert("trace"@.len() == 5);
    assert("+"@.len() == 1);
    assert("__add__"@.len() == 7);
}

/// An expression that the post-processing leaves as it is stays so without the
/// conversions of integers to strings around it, and has none around it then.
proof fn lemma_strip_fixed(code: &Bytecode, e: ExprV)
    requires
        post_expr(code, e) == e,
    ensures
        post_expr(code, strip_itos(code, e)) == strip_itos(code, e),
        strip_itos(code, strip_itos(code, e)) == strip_itos(code, e),
    decreases e,
{
    if is_itos_call(code, e) {
        match e {
            ExprV::Call(fun, args) => {
                // no rewrite applies to the call of a function, so its arguments are left as
                // they are
                let parts = post_parts(code, e);
                assert(fold_expr(code, parts) == parts);
                assert(post_exprs(code, args) == args);
                assert(post_exprs(code, args)[0] == post_expr(code, args[0]));
                lemma_strip_fixed(code, args[0]);
            },
            _ => {},
        }
    }
}

/// What a filter keeps is among what it was given.
proof fn lemma_filter_keeps<A>(s: Seq<A>, pred: spec_fn(A) -> bool, i: int)
    requires
        0 <= i < s.filter(pred).len(),
    ensures
        s.contains(s.filter(pred)[i]),
    decreases s.len(),
{
    reveal(Seq::filter);
    if s.len() > 0 {
        let rest = s.drop_last().filter(pred);
        if i < rest.len() {
            lemma_filter_keeps(s.drop_last(), pred, i);
            let j = choose|j: int| 0 <= j < s.drop_last().len() && s.drop_last()[j] == rest[i];
            assert(s[j] == rest[i]);
        } else {
            assert(s[s.len() - 1] == s.filter(pred)[i]);
        }
    }
}

/// The post-processing leaves the arguments that the source gave as they are where it
/// leaves the arguments as they are.
proof fn lemma_source_args_fixed(code: &Bytecode, args: Seq<ExprV>)
    requires
        post_exprs(code, args) == args,
    ensures
        post_exprs(code, source_args(args)) == source_args(args),
{
    let pred = |a: ExprV| !(a is Anonymous);
    let kept = args.filter(pred);
    assert forall|i: int| 0 <= i < kept.len() implies post_expr(code, #[trigger] kept[i])
        == kept[i] by {
        lemma_filter_keeps(args, pred, i);
        let j = choose|j: int| 0 <= j < args.len() && args[j] == kept[i];
        assert(post_exprs(code, args)[j] == post_expr(code, args[j]));
    }
    assert(post_exprs(code, kept) =~= kept);
}

/// Where the post-processing leaves the parts of an expression as they are, it leaves the
/// rewritten expression as it is.
proof fn lemma_fold_expr_fixed(code: &Bytecode, e: ExprV)
    requires
        post_parts(code, e) == e,
    ensures
        post_expr(code, fold_expr(code, e)) == fold_expr(code, e),
{
    lemma_trace_is_no_concat();
    match e {
        ExprV::Call(fun, args) => {
            assert(post_expr(code, *fun) == *fun);
            assert(post_exprs(code, args) == args);
            match *fun {
                ExprV::Field(receiver, name) => {
                    // no rewrite applies to a field, so the receiver is left as it is
                    assert(post_parts(code, *fun) == field_v(post_expr(code, *receiver), name));
                    assert(fold_expr(code, post_parts(code, *fun)) == post_parts(code, *fun));
                    assert(post_expr(code, *receiver) == *receiver);
                    if is_concat_name(name) && args.len() == 1 {
                        assert(post_exprs(code, args)[0] == post_expr(code, args[0]));
                        lemma_strip_fixed(code, *receiver);
                        lemma_strip_fixed(code, args[0]);
                        let out = binary_v(
                            BinaryKind::Add,
                            strip_itos(code, *receiver),
                            strip_itos(code, args[0]),
                        );
                        assert(fold_expr(code, e) == out);
                        assert(post_parts(code, out) == out);
                        assert(fold_expr(code, out) == out);
                    } else if is_trace_fun(*fun) {
                        lemma_source_args_fixed(code, args);
                        let out = call_v(trace_name(), source_args(args));
                        assert(fold_expr(code, e) == out);
                        assert(post_parts(code, trace_name()) == trace_name());
                        assert(fold_expr(code, trace_name()) == trace_name());
                        assert(post_parts(code, out) == out);
                        assert(fold_expr(code, out) == out);
                    } else {
                        assert(fold_expr(code, e) == e);
                    }
                },
                _ => {
                    assert(fold_expr(code, e) == e);
                },
            }
        },
        ExprV::BinaryOp(kind, a, b) => {
            assert(post_expr(code, *a) == *a);
            assert(post_expr(code, *b) == *b);
            if kind == BinaryKind::Add {
                lemma_strip_fixed(code, *a);
                lemma_strip_fixed(code, *b);
                let out = binary_v(BinaryKind::Add, strip_itos(code, *a), strip_itos(code, *b));
                assert(fold_expr(code, e) == out);
                assert(post_parts(code, out) == out);
                assert(fold_expr(code, out) == out);
            } else {
                assert(fold_expr(code, e) == e);
            }
        },
        _ => {
            assert(fold_expr(code, e) == e);
        },
    }
}

/// Where the post-processing leaves the parts of a statement as they are, it leaves the
/// rewritten statement as it is.
proof fn lemma_fold_stmt_fixed(code: &Bytecode, s: StmtV)
    requires
        post_stmt_parts(code, s) == s,
    ensures
        post_stmt(code, fold_stmt(s)) == fold_stmt(s),
{
    if fold_stmt(s) != s {
        match s {
            StmtV::IfElse { cond, if_, else_: Some(else_) } => {
                assert(post_expr(code, cond) == cond);
                assert(post_stmts(code, if_)[0] == post_stmt(code, if_[0]));
                assert(post_stmts(code, else_)[0] == post_stmt(code, else_[0]));
                match (if_[0], else_[0]) {
                    (
                        StmtV::Assign { declaration: d1, variable: v1, assign: a1 },
                        StmtV::Assign { declaration: d2, variable: v2, assign: a2 },
                    ) => {
                        // no rewrite applies to an assignment, so its parts are left as
                        // they are
                        assert(fold_stmt(post_stmt_parts(code, if_[0])) == post_stmt_parts(
                            code,
                            if_[0],
                        ));
                        assert(fold_stmt(post_stmt_parts(code, else_[0])) == post_stmt_parts(
                            code,
                            else_[0],
                        ));
                        assert(post_expr(code, v1) == v1);
                        assert(post_expr(code, a1) == a1);
                        assert(post_expr(code, a2) == a2);
                        let choice = ExprV::IfElse {
                            cond: Box::new(cond),
                            if_: Box::new(a1),
                            else_: Box::new(a2),
                        };
                        assert(post_parts(code, choice) == choice);
                        assert(fold_expr(code, choice) == choice);
                        let out = fold_stmt(s);
                        assert(post_stmt_parts(code, out) == out);
                    },
                    _ => {},
                }
            },
            _ => {},
        }
    }
}

/// The post-processing changes nothing in an expression that it has rewritten.
pub proof fn lemma_post_expr_idempotent(code: &Bytecode, e: ExprV)
    ensures
        post_expr(code, post_expr(code, e)) == post_expr(code, e),
    decreases e, 1nat,
{
    lemma_post_parts_fixed(code, e);
    lemma_fold_expr_fixed(code, post_parts(code, e));
}

/// The post-processing leaves the rewritten parts of an expression as they are.
proof fn lemma_post_parts_fixed(code: &Bytecode, e: ExprV)
    ensures
        post_parts(code, post_parts(code, e)) == post_parts(code, e),
    decreases e, 0nat,
{
    match e {
        ExprV::Anonymous(ty, fields) => {
            lemma_post_fields_idempotent(code, fields);
        },
        ExprV::Array(a, i) => {
            lemma_post_expr_idempotent(code, *a);
            lemma_post_expr_idempotent(code, *i);
        },
        ExprV::Call(fun, args) => {
            lemma_post_expr_idempotent(code, *fun);
            lemma_post_exprs_idempotent(code, args);
        },
        ExprV::Constructor(ty, args) => {
            lemma_post_exprs_idempotent(code, args);
        },
        ExprV::Closure(fun, stmts) => {
            lemma_post_stmts_idempotent(code, stmts);
        },
        ExprV::EnumConstr(ty, construct, args) => {
            lemma_post_exprs_idempotent(code, args);
        },
        ExprV::Field(receiver, name) => {
            lemma_post_expr_idempotent(code, *receiver);
        },
        ExprV::IfElse { cond, if_, else_ } => {
            lemma_post_expr_idempotent(code, *cond);
            lemma_post_expr_idempotent(code, *if_);
            lemma_post_expr_idempotent(code, *else_);
        },
        ExprV::BinaryOp(kind, a, b) => {
            lemma_post_expr_idempotent(code, *a);
            lemma_post_expr_idempotent(code, *b);
        },
        ExprV::UnaryOp(kind, a) => {
            lemma_post_expr_idempotent(code, *a);
        },
        _ => {},
    }
}

/// The post-processing changes nothing in expressions that it has rewritten.
pub proof fn lemma_post_exprs_idempotent(code: &Bytecode, v: Seq<ExprV>)
    ensures
        post_exprs(code, post_exprs(code, v)) == post_exprs(code, v),
    decreases v,
{
    assert forall|i: int| 0 <= i < v.len() implies post_expr(
        code,
        #[trigger] post_exprs(code, v)[i],
    ) == post_exprs(code, v)[i] by {
        lemma_post_expr_idempotent(code, v[i]);
    }
}

/// The post-processing changes nothing in the fields of an anonymous structure that it has
/// rewritten.
proof fn lemma_post_fields_idempotent(code: &Bytecode, v: Seq<(RefField, ExprV)>)
    ensures
        post_fields(code, post_fields(code, v)) == post_fields(code, v),
    decreases v,
{
    assert forall|i: int| 0 <= i < v.len() implies post_expr(
        code,
        (#[trigger] post_fields(code, v)[i]).1,
    ) == post_fields(code, v)[i].1 by {
        lemma_post_expr_idempotent(code, v[i].1);
    }
}

/// The post-processing changes nothing in a statement that it has rewritten.
pub proof fn lemma_post_stmt_idempotent(code: &Bytecode, s: StmtV)
    ensures
        post_stmt(code, post_stmt(code, s)) == post_stmt(code, s),
    decreases s, 1nat,
{
    lemma_post_stmt_parts_fixed(code, s);
    lemma_fold_stmt_fixed(code, post_stmt_parts(code, s));
}

/// The post-processing leaves the rewritten parts of a statement as they are.
proof fn lemma_post_stmt_parts_fixed(code: &Bytecode, s: StmtV)
    ensures
        post_stmt_parts(code, post_stmt_parts(code, s)) == post_stmt_parts(code, s),
    decreases s, 0nat,
{
    match s {
        StmtV::Assign { declaration, variable, assign } => {
            lemma_post_expr_idempotent(code, variable);
            lemma_post_expr_idempotent(code, assign);
        },
        StmtV::ExprStatement(e) => {
            lemma_post_expr_idempotent(code, e);
        },
        StmtV::Return(e) => {
            match e {
                Some(e) => {
                    lemma_post_expr_idempotent(code, e);
                },
                None => {},
            }
        },
        StmtV::IfElse { cond, if_, else_ } => {
            lemma_post_expr_idempotent(code, cond);
            lemma_post_stmts_idempotent(code, if_);
            match else_ {
                Some(stmts) => {
                    lemma_post_stmts_idempotent(code, stmts);
                },
                None => {},
            }
        },
        StmtV::Switch { arg, cases } => {
            lemma_post_expr_idempotent(code, arg);
            lemma_post_cases_idempotent(code, cases);
        },
        StmtV::While { cond, stmts } => {
            lemma_post_expr_idempotent(code, cond);
            lemma_post_stmts_idempotent(code, stmts);
        },
        StmtV::Throw(e) => {
            lemma_post_expr_idempotent(code, e);
        },
        StmtV::Try { stmts, catch } => {
            lemma_post_stmts_idempotent(code, stmts);
            match catch {
                Some(stmts) => {
                    lemma_post_stmts_idempotent(code, stmts);
                },
                None => {},
            }
        },
        _ => {},
    }
}

/// Post-processing is idempotent: applied to statements that it has rewritten, it gives
/// them back as they are.
pub proof fn lemma_post_stmts_idempotent(code: &Bytecode, v: Seq<StmtV>)
    ensures
        post_stmts(code, post_stmts(code, v)) == post_stmts(code, v),
    decreases v,
{
    assert forall|i: int| 0 <= i < v.len() implies post_stmt(
        code,
        #[trigger] post_stmts(code, v)[i],
    ) == post_stmts(code, v)[i] by {
        lemma_post_stmt_idempotent(code, v[i]);
    }
}

/// The post-processing changes nothing in the cases of a switch that it has rewritten.
proof fn lemma_post_cases_idempotent(code: &Bytecode, v: Seq<(Option<usize>, Seq<StmtV>)>)
    ensures
        post_cases(code, post_cases(code, v)) == post_cases(code, v),
    decreases v,
{
    assert forall|i: int| 0 <= i < v.len() implies post_stmts(
        code,
        (#[trigger] post_cases(code, v)[i]).1,
    ) == post_cases(code, v)[i].1 by {
        lemma_post_stmts_idempotent(code, v[i].1);
    }
}

} // verus!
