use hlbc_decompiler::ast::{Expr, Statement};
use hlbc_decompiler::scopes::Scopes;
use hlbc_decompiler::types::Reg;

fn var(name: &str) -> Expr {
    Expr::Variable(Reg(0), Some(name.to_string()))
}

fn note(text: &str) -> Statement {
    Statement::Comment(text.to_string())
}

#[test]
fn new_stack_holds_the_body_of_the_function() {
    let scopes = Scopes::new();
    assert!(!scopes.has_scopes());
    assert!(!scopes.last_is_if());
    assert_eq!(scopes.last_is_switch_ctx(), None);
    assert_eq!(scopes.last_loop_start(), None);
    assert_eq!(scopes.last_loop_cond(), None);
    assert_eq!(scopes.statements(), vec![]);
}

#[test]
fn if_is_folded_where_it_ends() {
    let mut scopes = Scopes::new();
    scopes.advance();
    scopes.push_if(3, var("c"));
    assert!(scopes.has_scopes());
    assert!(scopes.last_is_if());
    scopes.advance();
    scopes.push_stmt(note("inside"));
    assert!(scopes.has_scopes());
    scopes.advance();
    assert!(!scopes.has_scopes());
    scopes.push_stmt(note("after"));
    assert_eq!(
        scopes.statements(),
        vec![
            Statement::IfElse { cond: var("c"), if_: vec![note("inside")], else_: None },
            note("after"),
        ]
    );
}

#[test]
fn scopes_that_end_together_are_folded_together() {
    let mut scopes = Scopes::new();
    scopes.push_if(2, var("c"));
    scopes.push_if(2, var("d"));
    scopes.push_stmt(note("inside"));
    scopes.advance();
    assert!(scopes.has_scopes());
    scopes.advance();
    assert!(!scopes.has_scopes());
    let inner = Statement::IfElse { cond: var("d"), if_: vec![note("inside")], else_: None };
    assert_eq!(
        scopes.statements(),
        vec![Statement::IfElse { cond: var("c"), if_: vec![inner], else_: None }]
    );
}

#[test]
fn else_takes_the_place_of_its_if() {
    let mut scopes = Scopes::new();
    scopes.push_if(1, var("c"));
    scopes.push_stmt(note("yes"));
    scopes.push_else(2);
    assert!(!scopes.last_is_if());
    scopes.advance();
    scopes.push_stmt(note("no"));
    scopes.advance();
    assert_eq!(
        scopes.statements(),
        vec![Statement::IfElse {
            cond: var("c"),
            if_: vec![note("yes")],
            else_: Some(vec![note("no")]),
        }]
    );
}

#[test]
fn loop_is_closed_by_hand() {
    let mut scopes = Scopes::new();
    scopes.push_loop(4);
    assert_eq!(scopes.last_loop_start(), Some(4));
    assert_eq!(scopes.last_loop_cond(), Some(&Expr::Unknown("no condition".to_string())));
    scopes.push_if(9, var("d"));
    assert_eq!(scopes.last_loop_start(), Some(4));
    assert_eq!(scopes.end_last_loop(), None);
    scopes.set_last_loop_cond(var("c"));
    assert_eq!(scopes.last_loop_cond(), Some(&var("c")));
    scopes.fold_last();
    let inner = Statement::IfElse { cond: var("d"), if_: vec![], else_: None };
    assert_eq!(
        scopes.end_last_loop(),
        Some(Statement::While { cond: var("c"), stmts: vec![inner] })
    );
    assert!(!scopes.has_scopes());
    assert_eq!(scopes.end_last_loop(), None);
}

#[test]
fn condition_without_a_loop_changes_nothing() {
    let mut scopes = Scopes::new();
    scopes.push_try(3);
    scopes.set_last_loop_cond(var("c"));
    assert_eq!(scopes.last_loop_cond(), None);
    assert_eq!(
        scopes.statements(),
        vec![Statement::Try { stmts: vec![], catch: None }]
    );
}

#[test]
fn switch_gathers_its_cases() {
    let mut scopes = Scopes::new();
    scopes.push_switch(9, var("c"), vec![3, 5]);
    assert_eq!(scopes.last_is_switch_ctx(), Some(&vec![3, 5]));
    scopes.push_stmt(note("default"));
    scopes.push_switch_case(1);
    scopes.push_stmt(note("one"));
    scopes.push_switch_case(0);
    assert_eq!(
        scopes.statements(),
        vec![Statement::Switch {
            arg: var("c"),
            cases: vec![
                (None, vec![note("default")]),
                (Some(1), vec![note("one")]),
                (Some(0), vec![]),
            ],
        }]
    );
}
