use hlbc_decompiler::ast::{BinaryKind, Constant, Expr, Statement};
use hlbc_decompiler::post::{visit, visit_expr};
use hlbc_decompiler::types::{
    Bytecode, Function, Native, RefField, RefFun, RefFunKnown, RefString, RefType, Reg, Type,
    TypeFun,
};
use std::collections::HashMap;

/// A module in which findex 0 is the native `itos` and findex 1 a function `add`.
fn module() -> Bytecode {
    Bytecode {
        version: 4,
        entrypoint: RefFun(1),
        ints: vec![],
        floats: vec![],
        strings: ["", "itos", "std", "add"].iter().map(|s| s.to_string()).collect(),
        debug_files: None,
        types: vec![Type::Void, Type::Fun(TypeFun { args: vec![], ret: RefType(0) })],
        globals: vec![],
        natives: vec![Native {
            name: RefString(1),
            lib: RefString(2),
            t: RefType(1),
            findex: RefFun(0),
        }],
        functions: vec![Function {
            name: Some(RefString(3)),
            t: RefType(1),
            findex: RefFun(1),
            regs: vec![],
            ops: vec![],
            debug_info: None,
            assigns: None,
            parent: None,
        }],
        constants: None,
        findexes: vec![RefFunKnown::Native(0), RefFunKnown::Fun(0)],
        globals_initializers: HashMap::new(),
    }
}

fn var(name: &str) -> Expr {
    Expr::Variable(Reg(3), Some(name.to_string()))
}

fn num(value: i32) -> Expr {
    Expr::Constant(Constant::Int(value))
}

fn text(value: &str) -> Expr {
    Expr::Constant(Constant::String(value.to_string()))
}

fn field(receiver: Expr, name: &str) -> Expr {
    Expr::Field(Box::new(receiver), name.to_string())
}

fn call(fun: Expr, args: Vec<Expr>) -> Expr {
    Expr::Call(Box::new(fun), args)
}

fn plus(a: Expr, b: Expr) -> Expr {
    Expr::BinaryOp(BinaryKind::Add, Box::new(a), Box::new(b))
}

fn itos(e: Expr) -> Expr {
    call(Expr::FunRef(RefFun(0)), vec![e, num(0)])
}

fn assign(declaration: bool, variable: Expr, value: Expr) -> Statement {
    Statement::Assign { declaration, variable, assign: value }
}

fn choice(cond: Expr, a: Expr, b: Expr) -> Expr {
    Expr::IfElse { cond: Box::new(cond), if_: Box::new(a), else_: Box::new(b) }
}

fn branch(cond: Expr, if_: Vec<Statement>, else_: Vec<Statement>) -> Statement {
    Statement::IfElse { cond, if_, else_: Some(else_) }
}

#[test]
fn if_and_else_on_one_place_become_a_choice() {
    let before = vec![branch(
        var("c"),
        vec![assign(false, field(var("p"), "x"), num(1))],
        vec![assign(false, field(var("p"), "x"), num(2))],
    )];
    let after = vec![assign(false, field(var("p"), "x"), choice(var("c"), num(1), num(2)))];
    assert_eq!(visit(&module(), &before), after);
}

#[test]
fn choice_declares_where_a_branch_did() {
    let before = vec![branch(
        var("c"),
        vec![assign(false, var("x"), num(1))],
        vec![assign(true, var("x"), num(2))],
    )];
    let after = vec![assign(true, var("x"), choice(var("c"), num(1), num(2)))];
    assert_eq!(visit(&module(), &before), after);
}

#[test]
fn branches_that_do_more_stay() {
    let two = vec![branch(
        var("c"),
        vec![assign(false, var("x"), num(1)), Statement::Break],
        vec![assign(false, var("x"), num(2))],
    )];
    assert_eq!(visit(&module(), &two), two);
    let no_else = vec![Statement::IfElse {
        cond: var("c"),
        if_: vec![assign(false, var("x"), num(1))],
        else_: None,
    }];
    assert_eq!(visit(&module(), &no_else), no_else);
    let calls = vec![branch(
        var("c"),
        vec![assign(false, call(var("f"), vec![]), num(1))],
        vec![assign(false, call(var("f"), vec![]), num(2))],
    )];
    assert_eq!(visit(&module(), &calls), calls);
    let registers = vec![branch(
        var("c"),
        vec![assign(false, Expr::Variable(Reg(1), None), num(1))],
        vec![assign(false, Expr::Variable(Reg(2), None), num(2))],
    )];
    assert_eq!(visit(&module(), &registers), registers);
}

#[test]
fn nested_branches_are_folded_from_the_inside() {
    let inner = branch(
        var("d"),
        vec![assign(false, var("x"), num(1))],
        vec![assign(false, var("x"), num(2))],
    );
    let before = vec![branch(var("c"), vec![inner], vec![assign(false, var("x"), num(3))])];
    let after = vec![assign(
        false,
        var("x"),
        choice(var("c"), choice(var("d"), num(1), num(2)), num(3)),
    )];
    assert_eq!(visit(&module(), &before), after);
}

#[test]
fn call_of_the_plus_method_becomes_an_addition() {
    let code = module();
    let before = call(field(text("a"), "+"), vec![var("b")]);
    assert_eq!(visit_expr(&code, &before), plus(text("a"), var("b")));
    let named = call(field(text("a"), "__add__"), vec![var("b")]);
    assert_eq!(visit_expr(&code, &named), plus(text("a"), var("b")));
    let other = call(field(text("a"), "concat"), vec![var("b")]);
    assert_eq!(visit_expr(&code, &other), other);
    let two = call(field(text("a"), "+"), vec![var("b"), var("c")]);
    assert_eq!(visit_expr(&code, &two), two);
}

#[test]
fn conversion_to_string_goes_from_an_addition() {
    let code = module();
    let before = plus(text("n = "), itos(var("n")));
    assert_eq!(visit_expr(&code, &before), plus(text("n = "), var("n")));
    let twice = plus(itos(itos(var("n"))), text("!"));
    assert_eq!(visit_expr(&code, &twice), plus(var("n"), text("!")));
    let through_concat = call(field(itos(var("n")), "+"), vec![text("!")]);
    assert_eq!(visit_expr(&code, &through_concat), plus(var("n"), text("!")));
}

#[test]
fn conversion_to_string_stays_elsewhere() {
    let code = module();
    let alone = itos(var("n"));
    assert_eq!(visit_expr(&code, &alone), alone);
    let minus = Expr::BinaryOp(BinaryKind::Sub, Box::new(itos(var("n"))), Box::new(num(1)));
    assert_eq!(visit_expr(&code, &minus), minus);
    let other_fun = plus(call(Expr::FunRef(RefFun(1)), vec![var("n")]), num(1));
    assert_eq!(visit_expr(&code, &other_fun), other_fun);
    let no_such_fun = plus(call(Expr::FunRef(RefFun(9)), vec![var("n")]), num(1));
    assert_eq!(visit_expr(&code, &no_such_fun), no_such_fun);
}

#[test]
fn call_of_the_trace_function_loses_the_place_of_the_call() {
    let code = module();
    let place = Expr::Anonymous(RefType(0), vec![(RefField(0), text("Main.hx"))]);
    let log = || field(var("haxe.$Log"), "trace");
    let before = call(log(), vec![text("hi"), place]);
    let after = call(Expr::Variable(Reg(0), Some("trace".to_string())), vec![text("hi")]);
    assert_eq!(visit_expr(&code, &before), after);
    let other = call(field(var("logger"), "trace"), vec![text("hi")]);
    assert_eq!(visit_expr(&code, &other), other);
}

#[test]
fn rewrites_reach_every_part() {
    let code = module();
    let sum = || call(field(text("a"), "+"), vec![text("b")]);
    let folded = || plus(text("a"), text("b"));
    let before = vec![
        Statement::While {
            cond: sum(),
            stmts: vec![Statement::Return(Some(sum())), Statement::Throw(sum())],
        },
        Statement::Switch {
            arg: sum(),
            cases: vec![(Some(2), vec![Statement::ExprStatement(sum())])],
        },
        Statement::Try {
            stmts: vec![assign(
                true,
                var("x"),
                Expr::Closure(RefFun(1), vec![Statement::Throw(sum())]),
            )],
            catch: Some(vec![Statement::ExprStatement(Expr::Array(
                Box::new(sum()),
                Box::new(sum()),
            ))]),
        },
    ];
    let after = vec![
        Statement::While {
            cond: folded(),
            stmts: vec![Statement::Return(Some(folded())), Statement::Throw(folded())],
        },
        Statement::Switch {
            arg: folded(),
            cases: vec![(Some(2), vec![Statement::ExprStatement(folded())])],
        },
        Statement::Try {
            stmts: vec![assign(
                true,
                var("x"),
                Expr::Closure(RefFun(1), vec![Statement::Throw(folded())]),
            )],
            catch: Some(vec![Statement::ExprStatement(Expr::Array(
                Box::new(folded()),
                Box::new(folded()),
            ))]),
        },
    ];
    assert_eq!(visit(&code, &before), after);
}

#[test]
fn second_pass_changes_nothing() {
    let code = module();
    let place = Expr::Anonymous(RefType(0), vec![]);
    let before = vec![
        branch(
            var("c"),
            vec![assign(true, var("x"), plus(itos(itos(var("n"))), text("!")))],
            vec![assign(false, var("x"), call(field(itos(var("n")), "+"), vec![text("?")]))],
        ),
        Statement::ExprStatement(call(
            field(var("haxe.$Log"), "trace"),
            vec![call(field(text("a"), "__add__"), vec![itos(var("n"))]), place],
        )),
    ];
    let once = visit(&code, &before);
    assert_ne!(once, before);
    assert_eq!(visit(&code, &once), once);
}
