use hlbc_decompiler::ast::{BinaryKind, Constant, ConstructorCall, Expr, Statement, UnaryKind};
use hlbc_decompiler::lifter::{
    decompile_code, decompile_code_noting, decompile_code_within, decompile_function,
    decompile_function_noting,
};
use hlbc_decompiler::state::Diagnostic;
use hlbc_decompiler::model::DecompileError;
use hlbc_decompiler::opcodes::Opcode;
use hlbc_decompiler::types::{
    Bytecode, ConstantDef, Function, Native, ObjField, ObjProto, RefEnumConstruct, RefField,
    RefFun, RefFunKnown, RefGlobal, RefInt, RefString, RefType, Reg, Type, TypeFun, TypeObj,
    ValBool,
};
use std::collections::HashMap;

const VOID: RefType = RefType(0);
const I32: RefType = RefType(1);
const FUN_VOID: RefType = RefType(2);
const FUN_I32: RefType = RefType(3);
const OBJ: RefType = RefType(4);
const VIRTUAL: RefType = RefType(5);
const ENUM: RefType = RefType(6);
const BOOL: RefType = RefType(7);
const FUN_BOOL_VOID: RefType = RefType(8);

fn strings() -> Vec<String> {
    ["", "i", "Point", "x", "y", "f", "c", "d", "hello", "make", "Color", "std", "print"]
        .iter()
        .map(|s| s.to_string())
        .collect()
}

fn point() -> TypeObj {
    TypeObj {
        name: RefString(2),
        super_: None,
        global: RefGlobal(0),
        own_fields: vec![
            ObjField { name: RefString(3), t: I32 },
            ObjField { name: RefString(4), t: I32 },
        ],
        protos: vec![ObjProto { name: RefString(5), findex: RefFun(1), pindex: 0 }],
        bindings: vec![],
        fields: vec![
            ObjField { name: RefString(3), t: I32 },
            ObjField { name: RefString(4), t: I32 },
        ],
    }
}

/// A module whose function 0 is `f`; function 1 is a method of `Point` that returns an
/// i32, function 2 returns nothing, and findex 3 is a native that returns nothing.
fn module(f: &Function) -> Bytecode {
    let method = Function {
        name: Some(RefString(5)),
        t: FUN_I32,
        findex: RefFun(1),
        regs: vec![OBJ, I32],
        ops: vec![Opcode::Ret { ret: Reg(1) }],
        debug_info: None,
        assigns: None,
        parent: Some(OBJ),
    };
    let plain = Function {
        name: Some(RefString(9)),
        t: FUN_VOID,
        findex: RefFun(2),
        regs: vec![VOID],
        ops: vec![Opcode::Ret { ret: Reg(0) }],
        debug_info: None,
        assigns: None,
        parent: None,
    };
    Bytecode {
        version: 4,
        entrypoint: RefFun(0),
        ints: vec![0, 1, 2, -7],
        floats: vec![0x3ff8_0000_0000_0000],
        strings: strings(),
        debug_files: None,
        types: vec![
            Type::Void,
            Type::I32,
            Type::Fun(TypeFun { args: vec![], ret: VOID }),
            Type::Fun(TypeFun { args: vec![], ret: I32 }),
            Type::Obj(point()),
            Type::Virtual {
                fields: vec![
                    ObjField { name: RefString(3), t: I32 },
                    ObjField { name: RefString(4), t: I32 },
                ],
            },
            Type::Enum { name: RefString(10), global: RefGlobal(0), constructs: vec![] },
            Type::Bool,
            Type::Fun(TypeFun { args: vec![BOOL, BOOL], ret: VOID }),
        ],
        globals: vec![],
        natives: vec![Native {
            name: RefString(12),
            lib: RefString(11),
            t: FUN_VOID,
            findex: RefFun(3),
        }],
        functions: vec![f.clone(), method, plain],
        constants: Some(vec![ConstantDef { global: RefGlobal(1), fields: vec![8] }]),
        findexes: vec![
            RefFunKnown::Fun(0),
            RefFunKnown::Fun(1),
            RefFunKnown::Fun(2),
            RefFunKnown::Native(0),
        ],
        globals_initializers: HashMap::from([(1, 0)]),
    }
}

fn function(regs: Vec<RefType>, ops: Vec<Opcode>) -> Function {
    Function {
        name: None,
        t: FUN_VOID,
        findex: RefFun(0),
        regs,
        ops,
        debug_info: None,
        assigns: None,
        parent: None,
    }
}

fn named(mut f: Function, assigns: &[(usize, usize)]) -> Function {
    f.assigns = Some(assigns.iter().map(|&(s, i)| (RefString(s), i)).collect());
    f
}

fn lift(f: &Function) -> Result<Vec<Statement>, DecompileError> {
    let code = module(f);
    assert!(code.check());
    assert!(f.check(&code));
    decompile_code(&code, f)
}

fn var(reg: u32, name: &str) -> Expr {
    Expr::Variable(Reg(reg), Some(name.to_string()))
}

fn num(value: i32) -> Expr {
    Expr::Constant(Constant::Int(value))
}

fn missing() -> Expr {
    Expr::Unknown("missing expr".to_string())
}

fn binary(kind: BinaryKind, a: Expr, b: Expr) -> Expr {
    Expr::BinaryOp(kind, Box::new(a), Box::new(b))
}

fn field(receiver: Expr, name: &str) -> Expr {
    Expr::Field(Box::new(receiver), name.to_string())
}

fn assign(declaration: bool, variable: Expr, value: Expr) -> Statement {
    Statement::Assign { declaration, variable, assign: value }
}

fn comment(text: &str) -> Statement {
    Statement::Comment(text.to_string())
}

/// A function with the arguments `c` and `d` in the registers 0 and 1.
fn with_conditions(
    mut regs: Vec<RefType>,
    ops: Vec<Opcode>,
    assigns: &[(usize, usize)],
) -> Function {
    let mut all = vec![BOOL, BOOL];
    all.append(&mut regs);
    let mut f = function(all, ops);
    f.t = FUN_BOOL_VOID;
    let mut table = vec![(6, 0), (7, 0)];
    table.extend_from_slice(assigns);
    named(f, &table)
}

#[test]
fn return_void_alone_gives_no_statement() {
    let f = function(vec![VOID], vec![Opcode::Ret { ret: Reg(0) }]);
    assert_eq!(lift(&f), Ok(vec![]));
}

#[test]
fn return_of_a_value_at_the_top_is_a_statement() {
    let f = function(
        vec![I32],
        vec![Opcode::Int { dst: Reg(0), ptr: RefInt(3) }, Opcode::Ret { ret: Reg(0) }],
    );
    assert_eq!(lift(&f), Ok(vec![Statement::Return(Some(num(-7)))]));
}

#[test]
fn return_void_inside_a_scope_is_a_statement() {
    // if (c) return;
    let f = with_conditions(
        vec![VOID],
        vec![
            Opcode::JFalse { cond: Reg(0), offset: 1 },
            Opcode::Ret { ret: Reg(2) },
            Opcode::Ret { ret: Reg(2) },
        ],
        &[],
    );
    assert_eq!(
        lift(&f),
        Ok(vec![Statement::IfElse {
            cond: var(0, "c"),
            if_: vec![Statement::Return(None)],
            else_: None,
        }])
    );
}

#[test]
fn call_this_is_a_call_of_a_field_of_this() {
    // reg1 = reg0.f(); return reg1
    let mut f = function(
        vec![OBJ, I32],
        vec![
            Opcode::CallThis { dst: Reg(1), field: RefField(0), args: vec![] },
            Opcode::Ret { ret: Reg(1) },
        ],
    );
    f.parent = Some(OBJ);
    let expected = Expr::Call(Box::new(field(Expr::This, "f")), vec![]);
    assert_eq!(lift(&f), Ok(vec![Statement::Return(Some(expected))]));
}

#[test]
fn simple_while_loop() {
    // while (i < n) i = i + k, compiled as: leave the loop if i >= n
    let mut f = function(
        vec![I32, I32, I32, VOID],
        vec![
            Opcode::Label,
            Opcode::JSGte { a: Reg(0), b: Reg(1), offset: 2 },
            Opcode::Add { dst: Reg(0), a: Reg(0), b: Reg(2) },
            Opcode::JAlways { offset: -4 },
            Opcode::Ret { ret: Reg(3) },
        ],
    );
    f.t = RefType(8);
    let f = named(f, &[(1, 0), (3, 0), (1, 3)]);
    let expected = vec![Statement::While {
        cond: binary(BinaryKind::Gt, var(1, "x"), var(0, "i")),
        stmts: vec![assign(
            false,
            var(0, "i"),
            binary(BinaryKind::Add, var(0, "i"), missing()),
        )],
    }];
    assert_eq!(lift(&f), Ok(expected));
}

#[test]
fn jump_if_lower_runs_the_body_under_the_opposite() {
    let f = with_conditions(
        vec![VOID],
        vec![
            Opcode::JSLt { a: Reg(0), b: Reg(1), offset: 1 },
            Opcode::Incr { dst: Reg(0) },
            Opcode::Ret { ret: Reg(2) },
        ],
        &[],
    );
    let expected = vec![Statement::IfElse {
        cond: binary(BinaryKind::Lte, var(1, "d"), var(0, "c")),
        if_: vec![Statement::ExprStatement(Expr::UnaryOp(
            UnaryKind::Incr,
            Box::new(var(0, "c")),
        ))],
        else_: None,
    }];
    assert_eq!(lift(&f), Ok(expected));
}

#[test]
fn each_conditional_jump_records_the_opposite_test() {
    let cond_of = |op: Opcode| {
        let ops = vec![op, Opcode::Nop, Opcode::Ret { ret: Reg(2) }];
        let f = with_conditions(vec![VOID], ops, &[]);
        match lift(&f).unwrap().pop() {
            Some(Statement::IfElse { cond, .. }) => cond,
            other => panic!("no if: {:?}", other),
        }
    };
    let (c, d) = (|| var(0, "c"), || var(1, "d"));
    let null = || Expr::Constant(Constant::Null);
    let (a, b, offset) = (Reg(0), Reg(1), 1);
    assert_eq!(
        cond_of(Opcode::JTrue { cond: a, offset }),
        Expr::UnaryOp(UnaryKind::Not, Box::new(c()))
    );
    assert_eq!(cond_of(Opcode::JFalse { cond: a, offset }), c());
    assert_eq!(cond_of(Opcode::JNull { reg: a, offset }), binary(BinaryKind::NotEq, c(), null()));
    assert_eq!(cond_of(Opcode::JNotNull { reg: a, offset }), binary(BinaryKind::Eq, c(), null()));
    assert_eq!(cond_of(Opcode::JSGte { a, b, offset }), binary(BinaryKind::Gt, d(), c()));
    assert_eq!(cond_of(Opcode::JUGte { a, b, offset }), binary(BinaryKind::Gt, d(), c()));
    assert_eq!(cond_of(Opcode::JSGt { a, b, offset }), binary(BinaryKind::Gte, d(), c()));
    assert_eq!(cond_of(Opcode::JSLte { a, b, offset }), binary(BinaryKind::Lt, d(), c()));
    assert_eq!(cond_of(Opcode::JSLt { a, b, offset }), binary(BinaryKind::Lte, d(), c()));
    assert_eq!(cond_of(Opcode::JULt { a, b, offset }), binary(BinaryKind::Lte, d(), c()));
    assert_eq!(cond_of(Opcode::JEq { a, b, offset }), binary(BinaryKind::NotEq, c(), d()));
    assert_eq!(cond_of(Opcode::JNotEq { a, b, offset }), binary(BinaryKind::Eq, c(), d()));
}

#[test]
fn if_else_assignment_is_folded_into_a_choice() {
    // if (c) x = 1 else x = 2
    let f = with_conditions(
        vec![I32, VOID],
        vec![
            Opcode::JFalse { cond: Reg(0), offset: 2 },
            Opcode::Int { dst: Reg(2), ptr: RefInt(1) },
            Opcode::JAlways { offset: 1 },
            Opcode::Int { dst: Reg(2), ptr: RefInt(2) },
            Opcode::Ret { ret: Reg(3) },
        ],
        &[(3, 2), (3, 4)],
    );
    let expected = vec![assign(
        true,
        var(2, "x"),
        Expr::IfElse {
            cond: Box::new(var(0, "c")),
            if_: Box::new(num(1)),
            else_: Box::new(num(2)),
        },
    )];
    assert_eq!(lift(&f), Ok(expected));
}

#[test]
fn if_else_on_different_places_stays() {
    // if (c) x = 1 else y = 2
    let f = with_conditions(
        vec![I32, I32, VOID],
        vec![
            Opcode::JFalse { cond: Reg(0), offset: 2 },
            Opcode::Int { dst: Reg(2), ptr: RefInt(1) },
            Opcode::JAlways { offset: 1 },
            Opcode::Int { dst: Reg(3), ptr: RefInt(2) },
            Opcode::Ret { ret: Reg(4) },
        ],
        &[(3, 2), (4, 4)],
    );
    let expected = vec![Statement::IfElse {
        cond: var(0, "c"),
        if_: vec![assign(true, var(2, "x"), num(1))],
        else_: Some(vec![assign(true, var(3, "y"), num(2))]),
    }];
    assert_eq!(lift(&f), Ok(expected));
}

#[test]
fn constructor_call_is_stitched_to_the_allocation() {
    let f = function(
        vec![OBJ, I32, VOID],
        vec![
            Opcode::New { dst: Reg(0) },
            Opcode::Int { dst: Reg(1), ptr: RefInt(0) },
            Opcode::Call2 { dst: Reg(2), fun: RefFun(2), arg0: Reg(0), arg1: Reg(1) },
            Opcode::Ret { ret: Reg(0) },
        ],
    );
    let made = Expr::Constructor(ConstructorCall { ty: OBJ, args: vec![num(0)] });
    assert_eq!(lift(&f), Ok(vec![Statement::Return(Some(made))]));
}

#[test]
fn constructor_call_is_assigned_at_the_allocation() {
    let f = named(
        function(
            vec![OBJ, I32, VOID],
            vec![
                Opcode::New { dst: Reg(0) },
                Opcode::Int { dst: Reg(1), ptr: RefInt(0) },
                Opcode::CallN { dst: Reg(2), fun: RefFun(2), args: vec![Reg(0), Reg(1)] },
                Opcode::Ret { ret: Reg(2) },
            ],
        ),
        &[(1, 1)],
    );
    let made = Expr::Constructor(ConstructorCall { ty: OBJ, args: vec![num(0)] });
    assert_eq!(lift(&f), Ok(vec![assign(true, var(0, "i"), made)]));
}

#[test]
fn call_on_another_register_is_a_plain_call() {
    let f = function(
        vec![OBJ, I32, VOID],
        vec![
            Opcode::New { dst: Reg(0) },
            Opcode::Call1 { dst: Reg(2), fun: RefFun(2), arg0: Reg(1) },
            Opcode::Ret { ret: Reg(2) },
        ],
    );
    let expected = vec![
        comment("make@2"),
        Statement::ExprStatement(Expr::Call(Box::new(Expr::FunRef(RefFun(2))), vec![missing()])),
    ];
    assert_eq!(lift(&f), Ok(expected));
}

#[test]
fn call_of_a_method_is_a_call_of_a_field_of_the_first_argument() {
    let f = with_conditions(
        vec![I32],
        vec![
            Opcode::Call2 { dst: Reg(2), fun: RefFun(1), arg0: Reg(0), arg1: Reg(1) },
            Opcode::Ret { ret: Reg(2) },
        ],
        &[],
    );
    let made = Expr::Call(Box::new(field(var(0, "c"), "f")), vec![var(1, "d")]);
    assert_eq!(lift(&f), Ok(vec![comment("f@1"), Statement::Return(Some(made))]));
}

#[test]
fn call_without_arguments_is_noted_and_made() {
    let f = function(
        vec![VOID],
        vec![Opcode::Call0 { dst: Reg(0), fun: RefFun(3) }, Opcode::Ret { ret: Reg(0) }],
    );
    let expected = vec![
        comment("std/print@3"),
        Statement::ExprStatement(Expr::Call(Box::new(Expr::FunRef(RefFun(3))), vec![])),
    ];
    assert_eq!(lift(&f), Ok(expected));
}

#[test]
fn call_method_and_call_closure() {
    let f = with_conditions(
        vec![OBJ, I32, FUN_VOID, VOID],
        vec![
            Opcode::CallMethod { dst: Reg(3), field: RefField(0), args: vec![Reg(2), Reg(0)] },
            Opcode::CallClosure { dst: Reg(5), fun: Reg(4), args: vec![Reg(1)] },
            Opcode::Ret { ret: Reg(3) },
        ],
        &[],
    );
    let method = Expr::Call(Box::new(field(missing(), "x")), vec![var(0, "c")]);
    let closure = Expr::Call(Box::new(missing()), vec![var(1, "d")]);
    assert_eq!(
        lift(&f),
        Ok(vec![Statement::ExprStatement(closure), Statement::Return(Some(method))])
    );
}

#[test]
fn anonymous_structure_is_stitched_to_the_allocation() {
    let f = with_conditions(
        vec![VIRTUAL, VOID],
        vec![
            Opcode::New { dst: Reg(2) },
            Opcode::SetField { obj: Reg(2), field: RefField(0), src: Reg(0) },
            Opcode::SetField { obj: Reg(2), field: RefField(1), src: Reg(1) },
            Opcode::Ret { ret: Reg(2) },
        ],
        &[],
    );
    let made = Expr::Anonymous(
        VIRTUAL,
        vec![(RefField(0), var(0, "c")), (RefField(1), var(1, "d"))],
    );
    assert_eq!(lift(&f), Ok(vec![Statement::Return(Some(made))]));
}

#[test]
fn field_set_twice_keeps_the_last_value() {
    let f = with_conditions(
        vec![VIRTUAL, VOID],
        vec![
            Opcode::New { dst: Reg(2) },
            Opcode::SetField { obj: Reg(2), field: RefField(1), src: Reg(0) },
            Opcode::SetField { obj: Reg(2), field: RefField(1), src: Reg(1) },
            Opcode::Ret { ret: Reg(2) },
        ],
        &[],
    );
    let made = Expr::Anonymous(VIRTUAL, vec![(RefField(1), var(1, "d"))]);
    assert_eq!(lift(&f), Ok(vec![Statement::Return(Some(made))]));
}

#[test]
fn field_set_outside_an_allocation_is_an_assignment() {
    let f = with_conditions(
        vec![OBJ, VOID],
        vec![
            Opcode::SetField { obj: Reg(2), field: RefField(1), src: Reg(0) },
            Opcode::SetField { obj: Reg(2), field: RefField(7), src: Reg(1) },
            Opcode::Ret { ret: Reg(3) },
        ],
        &[],
    );
    let expected = vec![
        assign(false, field(missing(), "y"), var(0, "c")),
        assign(false, field(missing(), "field7"), var(1, "d")),
    ];
    assert_eq!(lift(&f), Ok(expected));
}

#[test]
fn allocation_of_another_type_is_a_constructor_call() {
    let f = function(vec![I32], vec![Opcode::New { dst: Reg(0) }, Opcode::Ret { ret: Reg(0) }]);
    let made = Expr::Constructor(ConstructorCall { ty: I32, args: vec![] });
    assert_eq!(lift(&f), Ok(vec![Statement::Return(Some(made))]));
}

#[test]
fn break_inside_a_loop() {
    // while (c) { if (d) break; d++ }
    let f = with_conditions(
        vec![VOID],
        vec![
            Opcode::Label,
            Opcode::JFalse { cond: Reg(0), offset: 4 },
            Opcode::JFalse { cond: Reg(1), offset: 1 },
            Opcode::JAlways { offset: 2 },
            Opcode::Incr { dst: Reg(1) },
            Opcode::JAlways { offset: -6 },
            Opcode::Ret { ret: Reg(2) },
        ],
        &[],
    );
    let expected = vec![Statement::While {
        cond: var(0, "c"),
        stmts: vec![
            Statement::IfElse { cond: var(1, "d"), if_: vec![Statement::Break], else_: None },
            Statement::ExprStatement(Expr::UnaryOp(UnaryKind::Incr, Box::new(var(1, "d")))),
        ],
    }];
    assert_eq!(lift(&f), Ok(expected));
}

#[test]
fn continue_inside_a_loop() {
    // while (c) { if (d) continue; d++ }
    let f = with_conditions(
        vec![VOID],
        vec![
            Opcode::Label,
            Opcode::JFalse { cond: Reg(0), offset: 4 },
            Opcode::JFalse { cond: Reg(1), offset: 1 },
            Opcode::JAlways { offset: -4 },
            Opcode::Incr { dst: Reg(1) },
            Opcode::JAlways { offset: -6 },
            Opcode::Ret { ret: Reg(2) },
        ],
        &[],
    );
    let expected = vec![Statement::While {
        cond: var(0, "c"),
        stmts: vec![
            Statement::IfElse { cond: var(1, "d"), if_: vec![Statement::Continue], else_: None },
            Statement::ExprStatement(Expr::UnaryOp(UnaryKind::Incr, Box::new(var(1, "d")))),
        ],
    }];
    assert_eq!(lift(&f), Ok(expected));
}

#[test]
fn second_exit_condition_of_a_loop_is_an_if() {
    let f = with_conditions(
        vec![VOID],
        vec![
            Opcode::Label,
            Opcode::JFalse { cond: Reg(0), offset: 2 },
            Opcode::JFalse { cond: Reg(1), offset: 1 },
            Opcode::JAlways { offset: -4 },
            Opcode::Ret { ret: Reg(2) },
        ],
        &[],
    );
    assert_eq!(lift(&f), Err(DecompileError::LoopNotInnermost));
}

#[test]
fn loop_without_condition_keeps_the_placeholder() {
    let f = function(
        vec![VOID],
        vec![Opcode::Label, Opcode::JAlways { offset: -2 }, Opcode::Ret { ret: Reg(0) }],
    );
    let expected = vec![Statement::While {
        cond: Expr::Unknown("no condition".to_string()),
        stmts: vec![],
    }];
    assert_eq!(lift(&f), Ok(expected));
}

#[test]
fn switch_with_two_cases() {
    let f = with_conditions(
        vec![I32, VOID],
        vec![
            Opcode::Switch { reg: Reg(2), offsets: vec![2, 4], end: 5 },
            Opcode::Incr { dst: Reg(0) },
            Opcode::JAlways { offset: 3 },
            Opcode::Incr { dst: Reg(1) },
            Opcode::JAlways { offset: 1 },
            Opcode::Decr { dst: Reg(1) },
            Opcode::Ret { ret: Reg(3) },
        ],
        &[],
    );
    let step = |kind, reg, name: &str| {
        Statement::ExprStatement(Expr::UnaryOp(kind, Box::new(var(reg, name))))
    };
    let expected = vec![Statement::Switch {
        arg: missing(),
        cases: vec![
            (None, vec![step(UnaryKind::Incr, 0, "c")]),
            (Some(0), vec![step(UnaryKind::Incr, 1, "d")]),
            (Some(1), vec![step(UnaryKind::Decr, 1, "d")]),
        ],
    }];
    assert_eq!(lift(&f), Ok(expected));
}

#[test]
fn trap_opens_a_guarded_region() {
    let f = with_conditions(
        vec![VOID],
        vec![
            Opcode::Trap { exc: Reg(0), offset: 2 },
            Opcode::Throw { exc: Reg(1) },
            Opcode::EndTrap { exc: true },
            Opcode::Rethrow { exc: Reg(0) },
            Opcode::Ret { ret: Reg(2) },
        ],
        &[],
    );
    let expected = vec![
        Statement::Try { stmts: vec![Statement::Throw(var(1, "d"))], catch: None },
        Statement::Throw(var(0, "c")),
    ];
    assert_eq!(lift(&f), Ok(expected));
}

#[test]
fn scope_left_open_is_folded_at_the_end() {
    let f = function(vec![I32], vec![Opcode::Label, Opcode::Incr { dst: Reg(0) }]);
    let expected = vec![Statement::While {
        cond: Expr::Unknown("no condition".to_string()),
        stmts: vec![Statement::ExprStatement(Expr::UnaryOp(
            UnaryKind::Incr,
            Box::new(missing()),
        ))],
    }];
    assert_eq!(lift(&f), Ok(expected));
}

#[test]
fn backward_jump_outside_a_loop_is_refused() {
    let f = function(vec![VOID], vec![Opcode::JAlways { offset: -1 }]);
    assert_eq!(lift(&f), Err(DecompileError::BackwardJumpOutsideLoop));
    let f = function(vec![VOID], vec![Opcode::JAlways { offset: i32::MIN }]);
    assert_eq!(lift(&f), Err(DecompileError::BackwardJumpOutsideLoop));
}

#[test]
fn backward_jump_to_another_place_does_not_make_a_continue() {
    // the jumps at 2 and 3 lead before the function and behind the label
    let f = function(
        vec![VOID],
        vec![
            Opcode::Label,
            Opcode::JAlways { offset: -2 },
            Opcode::JAlways { offset: -9 },
            Opcode::JAlways { offset: -3 },
        ],
    );
    assert_eq!(lift(&f), Err(DecompileError::BackwardJumpOutsideLoop));
    let f = function(
        vec![VOID],
        vec![Opcode::Label, Opcode::JAlways { offset: -1 }, Opcode::JAlways { offset: -3 }],
    );
    let placeholder = || Expr::Unknown("no condition".to_string());
    assert_eq!(
        lift(&f),
        Ok(vec![Statement::While {
            cond: placeholder(),
            stmts: vec![Statement::Continue],
        }])
    );
}

#[test]
fn conditional_jump_backward_does_nothing() {
    let f = with_conditions(
        vec![VOID],
        vec![
            Opcode::JTrue { cond: Reg(0), offset: -1 },
            Opcode::JTrue { cond: Reg(0), offset: 0 },
            Opcode::JFalse { cond: Reg(0), offset: i32::MIN },
            Opcode::Ret { ret: Reg(2) },
        ],
        &[],
    );
    assert_eq!(lift(&f), Ok(vec![]));
}

#[test]
fn last_backward_jump_inside_an_if_is_refused() {
    let f = with_conditions(
        vec![],
        vec![
            Opcode::Label,
            Opcode::JFalse { cond: Reg(0), offset: 3 },
            Opcode::Nop,
            Opcode::JAlways { offset: -4 },
            Opcode::Nop,
        ],
        &[],
    );
    assert_eq!(lift(&f), Err(DecompileError::LoopNotInnermost));
}

#[test]
fn jump_inside_a_switch_at_no_case_is_refused() {
    let f = function(
        vec![I32],
        vec![
            Opcode::Switch { reg: Reg(0), offsets: vec![2], end: 3 },
            Opcode::JAlways { offset: 0 },
            Opcode::Nop,
            Opcode::Nop,
        ],
    );
    assert_eq!(lift(&f), Err(DecompileError::NoSwitchCase));
}

#[test]
fn closure_of_the_function_itself_is_refused() {
    let f = function(
        vec![FUN_VOID],
        vec![Opcode::StaticClosure { dst: Reg(0), fun: RefFun(0) }],
    );
    assert_eq!(lift(&f), Err(DecompileError::ClosuresTooDeep));
}

#[test]
fn forward_jump_that_matches_nothing_is_passed_over() {
    let f = function(
        vec![I32],
        vec![Opcode::JAlways { offset: 0 }, Opcode::Incr { dst: Reg(0) }],
    );
    assert_eq!(lift(&f).map(|stmts| stmts.len()), Ok(1));
    let mut notes = vec![Diagnostic::LoopCondition { fun: RefFun(9), pos: 9 }];
    assert_eq!(decompile_code_noting(&module(&f), &f, &mut notes), lift(&f));
    assert_eq!(
        notes,
        vec![
            Diagnostic::LoopCondition { fun: RefFun(9), pos: 9 },
            Diagnostic::JumpWithoutScope { fun: RefFun(0), pos: 0 },
        ]
    );
}

#[test]
fn what_is_noted_in_a_closure_is_noted_for_the_function() {
    // 0: a jump that matches nothing; 1: a closure of the function 2; 2: as 0
    let f = function(
        vec![FUN_VOID],
        vec![
            Opcode::JAlways { offset: 0 },
            Opcode::StaticClosure { dst: Reg(0), fun: RefFun(2) },
            Opcode::JAlways { offset: 0 },
        ],
    );
    let mut code = module(&f);
    code.functions[2].ops = vec![
        Opcode::Label,
        Opcode::JFalse { cond: Reg(0), offset: 1 },
        Opcode::JAlways { offset: -3 },
        Opcode::JAlways { offset: 0 },
    ];
    assert!(code.check());
    let mut notes = vec![];
    assert!(decompile_code_noting(&code, &f, &mut notes).is_ok());
    assert_eq!(
        notes,
        vec![
            Diagnostic::JumpWithoutScope { fun: RefFun(0), pos: 0 },
            Diagnostic::LoopCondition { fun: RefFun(2), pos: 1 },
            Diagnostic::JumpWithoutScope { fun: RefFun(2), pos: 3 },
            Diagnostic::JumpWithoutScope { fun: RefFun(0), pos: 2 },
        ]
    );
}

#[test]
fn nothing_is_noted_where_every_jump_matches() {
    let f = with_conditions(
        vec![VOID],
        vec![
            Opcode::JFalse { cond: Reg(0), offset: 2 },
            Opcode::Nop,
            Opcode::JAlways { offset: 1 },
            Opcode::Nop,
            Opcode::Ret { ret: Reg(2) },
        ],
        &[],
    );
    let mut notes = vec![];
    assert!(decompile_code_noting(&module(&f), &f, &mut notes).is_ok());
    assert_eq!(notes, vec![]);
}

#[test]
fn nothing_is_noted_where_the_function_is_refused() {
    let f = function(
        vec![VOID],
        vec![Opcode::JAlways { offset: 0 }, Opcode::JAlways { offset: -1 }],
    );
    let mut notes = vec![];
    assert_eq!(
        decompile_code_noting(&module(&f), &f, &mut notes),
        Err(DecompileError::BackwardJumpOutsideLoop)
    );
    assert_eq!(notes, vec![]);
}

#[test]
fn function_out_of_context_notes_as_its_code_does() {
    let f = function(vec![VOID], vec![Opcode::JAlways { offset: 0 }]);
    let code = module(&f);
    let mut notes = vec![];
    let method = decompile_function_noting(&code, &f, &mut notes).unwrap();
    assert_eq!(Ok(method), decompile_function(&code, &f));
    assert_eq!(notes, vec![Diagnostic::JumpWithoutScope { fun: RefFun(0), pos: 0 }]);
}

#[test]
fn static_closure_holds_the_body_of_its_function() {
    let f = function(
        vec![FUN_I32],
        vec![Opcode::StaticClosure { dst: Reg(0), fun: RefFun(1) }, Opcode::Ret { ret: Reg(0) }],
    );
    let body = vec![Statement::Return(Some(missing()))];
    let expected = vec![
        comment("closure: f@1"),
        Statement::Return(Some(Expr::Closure(RefFun(1), body))),
    ];
    assert_eq!(lift(&f), Ok(expected));
}

#[test]
fn closure_depth_bounds_the_nesting() {
    let f = function(
        vec![FUN_I32],
        vec![Opcode::StaticClosure { dst: Reg(0), fun: RefFun(1) }, Opcode::Ret { ret: Reg(0) }],
    );
    let code = module(&f);
    assert_eq!(decompile_code_within(&code, &f, 0), Err(DecompileError::ClosuresTooDeep));
    assert_eq!(decompile_code_within(&code, &f, 1), decompile_code(&code, &f));
    assert_eq!(decompile_code_within(&code, &f, 7), decompile_code(&code, &f));
}

#[test]
fn instance_closure_binds_a_method_or_captures_an_enum() {
    let f = with_conditions(
        vec![OBJ, ENUM, FUN_I32, FUN_I32],
        vec![
            Opcode::InstanceClosure { dst: Reg(4), fun: RefFun(1), obj: Reg(2) },
            Opcode::InstanceClosure { dst: Reg(5), fun: RefFun(2), obj: Reg(3) },
            Opcode::Ret { ret: Reg(4) },
        ],
        &[(1, 2)],
    );
    let expected = vec![
        comment("closure: f@1"),
        comment("closure: make@2"),
        assign(true, var(5, "i"), Expr::Closure(RefFun(2), vec![])),
        Statement::Return(Some(field(missing(), "f"))),
    ];
    assert_eq!(lift(&f), Ok(expected));
}

#[test]
fn register_that_was_written_is_read_as_what_was_written() {
    let f = function(
        vec![I32, I32, I32, VOID],
        vec![
            Opcode::Int { dst: Reg(0), ptr: RefInt(1) },
            Opcode::Mov { dst: Reg(1), src: Reg(0) },
            Opcode::Add { dst: Reg(2), a: Reg(0), b: Reg(1) },
            Opcode::Label,
            Opcode::Incr { dst: Reg(2) },
            Opcode::JAlways { offset: -3 },
            Opcode::Ret { ret: Reg(2) },
        ],
    );
    let sum = binary(BinaryKind::Add, Expr::Variable(Reg(1), None), num(1));
    let expected = vec![
        Statement::While {
            cond: Expr::Unknown("no condition".to_string()),
            stmts: vec![Statement::ExprStatement(Expr::UnaryOp(
                UnaryKind::Incr,
                Box::new(sum.clone()),
            ))],
        },
        Statement::Return(Some(sum)),
    ];
    assert_eq!(lift(&f), Ok(expected));
}

#[test]
fn variable_is_declared_once() {
    let f = named(
        function(
            vec![I32, VOID],
            vec![
                Opcode::Int { dst: Reg(0), ptr: RefInt(1) },
                Opcode::Int { dst: Reg(0), ptr: RefInt(2) },
                Opcode::Ret { ret: Reg(1) },
            ],
        ),
        &[(1, 1), (1, 2)],
    );
    let expected =
        vec![assign(true, var(0, "i"), num(1)), assign(false, var(0, "i"), num(2))];
    assert_eq!(lift(&f), Ok(expected));
}

#[test]
fn argument_counts_as_declared() {
    let f = with_conditions(
        vec![VOID],
        vec![Opcode::Bool { dst: Reg(0), value: ValBool(true) }, Opcode::Ret { ret: Reg(2) }],
        &[(6, 1)],
    );
    let expected = vec![assign(false, var(0, "c"), Expr::Constant(Constant::Bool(true)))];
    assert_eq!(lift(&f), Ok(expected));
}

#[test]
fn this_is_the_first_register_of_a_method() {
    let mut f = function(vec![OBJ, I32], vec![Opcode::Ret { ret: Reg(0) }]);
    f.parent = Some(OBJ);
    assert_eq!(lift(&f), Ok(vec![Statement::Return(Some(Expr::This))]));
}

#[test]
fn move_makes_the_source_an_alias_of_the_destination() {
    let f = with_conditions(
        vec![BOOL, BOOL],
        vec![
            Opcode::Mov { dst: Reg(2), src: Reg(0) },
            Opcode::Mov { dst: Reg(3), src: Reg(0) },
            Opcode::Ret { ret: Reg(3) },
        ],
        &[(1, 1)],
    );
    let expected = vec![
        assign(true, var(2, "i"), var(0, "c")),
        Statement::Return(Some(var(2, "i"))),
    ];
    assert_eq!(lift(&f), Ok(expected));
}

#[test]
fn values_of_the_pools_and_accesses() {
    let value_of = |regs: Vec<RefType>, op: Opcode| {
        let f = with_conditions(regs, vec![op, Opcode::Ret { ret: Reg(2) }], &[]);
        match lift(&f).unwrap().pop() {
            Some(Statement::Return(Some(e))) => e,
            other => panic!("no value: {:?}", other),
        }
    };
    let (c, d) = (|| var(0, "c"), || var(1, "d"));
    let (dst, a, b) = (Reg(2), Reg(0), Reg(1));
    let text = |s: &str| Expr::Constant(Constant::String(s.to_string()));
    assert_eq!(
        value_of(vec![I32], Opcode::Float { dst, ptr: hlbc_decompiler::types::RefFloat(0) }),
        Expr::Constant(Constant::Float(0x3ff8_0000_0000_0000))
    );
    assert_eq!(value_of(vec![I32], Opcode::String { dst, ptr: RefString(8) }), text("hello"));
    assert_eq!(value_of(vec![I32], Opcode::Null { dst }), Expr::Constant(Constant::Null));
    assert_eq!(value_of(vec![I32], Opcode::Sub { dst, a, b }), binary(BinaryKind::Sub, c(), d()));
    assert_eq!(value_of(vec![I32], Opcode::Mul { dst, a, b }), binary(BinaryKind::Mul, c(), d()));
    assert_eq!(value_of(vec![I32], Opcode::SDiv { dst, a, b }), binary(BinaryKind::Div, c(), d()));
    assert_eq!(value_of(vec![I32], Opcode::UDiv { dst, a, b }), binary(BinaryKind::Div, c(), d()));
    assert_eq!(value_of(vec![I32], Opcode::SMod { dst, a, b }), binary(BinaryKind::Mod, c(), d()));
    assert_eq!(value_of(vec![I32], Opcode::UMod { dst, a, b }), binary(BinaryKind::Mod, c(), d()));
    assert_eq!(value_of(vec![I32], Opcode::Shl { dst, a, b }), binary(BinaryKind::Shl, c(), d()));
    assert_eq!(value_of(vec![I32], Opcode::SShr { dst, a, b }), binary(BinaryKind::Shr, c(), d()));
    assert_eq!(value_of(vec![I32], Opcode::UShr { dst, a, b }), binary(BinaryKind::Shr, c(), d()));
    assert_eq!(value_of(vec![I32], Opcode::And { dst, a, b }), binary(BinaryKind::And, c(), d()));
    assert_eq!(value_of(vec![I32], Opcode::Or { dst, a, b }), binary(BinaryKind::Or, c(), d()));
    assert_eq!(value_of(vec![I32], Opcode::Xor { dst, a, b }), binary(BinaryKind::Xor, c(), d()));
    assert_eq!(
        value_of(vec![I32], Opcode::Neg { dst, src: a }),
        Expr::UnaryOp(UnaryKind::Neg, Box::new(c()))
    );
    assert_eq!(
        value_of(vec![I32], Opcode::Not { dst, src: a }),
        Expr::UnaryOp(UnaryKind::Not, Box::new(c()))
    );
    assert_eq!(value_of(vec![I32], Opcode::ToDyn { dst, src: b }), d());
    assert_eq!(value_of(vec![I32], Opcode::SafeCast { dst, src: b }), d());
    assert_eq!(value_of(vec![I32], Opcode::Unref { dst, src: b }), d());
    assert_eq!(
        value_of(vec![I32], Opcode::DynGet { dst, obj: a, field: RefString(8) }),
        Expr::Array(Box::new(c()), Box::new(text("hello")))
    );
    assert_eq!(
        value_of(vec![I32], Opcode::GetArray { dst, array: a, index: b }),
        Expr::Array(Box::new(c()), Box::new(d()))
    );
    assert_eq!(
        value_of(vec![I32], Opcode::GetMem { dst, bytes: a, index: b }),
        Expr::Array(Box::new(c()), Box::new(d()))
    );
    assert_eq!(value_of(vec![I32], Opcode::ArraySize { dst, array: a }), field(c(), "length"));
    assert_eq!(
        value_of(vec![I32], Opcode::EnumIndex { dst, value: a }),
        field(c(), "constructorIndex")
    );
    assert_eq!(
        value_of(
            vec![I32],
            Opcode::EnumField {
                dst,
                value: a,
                construct: RefEnumConstruct(0),
                field: RefField(12)
            }
        ),
        field(c(), "12")
    );
    assert_eq!(
        value_of(vec![ENUM], Opcode::EnumAlloc { dst, construct: RefEnumConstruct(1) }),
        Expr::EnumConstr(ENUM, RefEnumConstruct(1), vec![])
    );
    assert_eq!(
        value_of(
            vec![ENUM],
            Opcode::MakeEnum { dst, construct: RefEnumConstruct(1), args: vec![b, a] }
        ),
        Expr::EnumConstr(ENUM, RefEnumConstruct(1), vec![d(), c()])
    );
    assert_eq!(value_of(vec![I32], Opcode::Nop), missing());
}

#[test]
fn fields_are_named_by_the_type_of_the_register() {
    let mut f = function(
        vec![OBJ, VIRTUAL, I32, I32, I32],
        vec![
            Opcode::GetThis { dst: Reg(2), field: RefField(0) },
            Opcode::Field { dst: Reg(3), obj: Reg(1), field: RefField(1) },
            Opcode::Field { dst: Reg(4), obj: Reg(2), field: RefField(3) },
            Opcode::SetThis { field: RefField(1), src: Reg(3) },
            Opcode::Ret { ret: Reg(4) },
        ],
    );
    f.parent = Some(OBJ);
    let expected = vec![
        assign(false, field(Expr::This, "y"), field(missing(), "y")),
        Statement::Return(Some(field(field(Expr::This, "x"), "field3"))),
    ];
    assert_eq!(lift(&f), Ok(expected));
}

#[test]
fn statements_of_single_instructions() {
    let f = with_conditions(
        vec![I32, VOID],
        vec![
            Opcode::Decr { dst: Reg(0) },
            Opcode::DynSet { obj: Reg(0), field: RefString(8), src: Reg(1) },
            Opcode::Setref { dst: Reg(0), value: Reg(1) },
            Opcode::SetArray { array: Reg(0), index: Reg(1), src: Reg(2) },
            Opcode::SetMem { bytes: Reg(0), index: Reg(1), src: Reg(2) },
            Opcode::SetEnumField { value: Reg(0), field: RefField(3), src: Reg(1) },
            Opcode::SetEnumField { value: Reg(2), field: RefField(0), src: Reg(1) },
            Opcode::Ret { ret: Reg(3) },
        ],
        &[],
    );
    let (c, d) = (|| var(0, "c"), || var(1, "d"));
    let element = || Expr::Array(Box::new(c()), Box::new(d()));
    let expected = vec![
        Statement::ExprStatement(Expr::UnaryOp(UnaryKind::Decr, Box::new(c()))),
        assign(
            false,
            Expr::Array(
                Box::new(c()),
                Box::new(Expr::Constant(Constant::String("hello".to_string()))),
            ),
            d(),
        ),
        assign(false, c(), d()),
        assign(false, element(), missing()),
        assign(false, element(), missing()),
        assign(false, field(c(), "3"), d()),
        comment("closure capture"),
        assign(false, field(missing(), "0"), d()),
    ];
    assert_eq!(lift(&f), Ok(expected));
}

#[test]
fn globals_by_the_type_of_the_register() {
    let mut f = function(
        vec![OBJ, ENUM, I32, VOID],
        vec![
            Opcode::GetGlobal { dst: Reg(0), global: RefGlobal(5) },
            Opcode::GetGlobal { dst: Reg(1), global: RefGlobal(5) },
            Opcode::GetGlobal { dst: Reg(2), global: RefGlobal(5) },
            Opcode::Incr { dst: Reg(0) },
            Opcode::Incr { dst: Reg(1) },
            Opcode::Incr { dst: Reg(2) },
            Opcode::Ret { ret: Reg(3) },
        ],
    );
    f.name = Some(RefString(9));
    let step = |e: Expr| Statement::ExprStatement(Expr::UnaryOp(UnaryKind::Incr, Box::new(e)));
    let expected = vec![
        step(var(0, "Point")),
        step(Expr::Unknown("unknown enum variant".to_string())),
        step(missing()),
    ];
    assert_eq!(lift(&f), Ok(expected));
}

#[test]
fn global_string_is_its_initial_value() {
    let mut regs = vec![VOID; 14];
    regs[0] = RefType(13);
    let f = function(
        regs,
        vec![Opcode::GetGlobal { dst: Reg(0), global: RefGlobal(1) }, Opcode::Ret { ret: Reg(0) }],
    );
    let code = module(&f);
    assert!(f.check(&code));
    let text = Expr::Constant(Constant::String("hello".to_string()));
    assert_eq!(decompile_code(&code, &f), Ok(vec![Statement::Return(Some(text))]));
}

#[test]
fn function_out_of_context_is_a_static_method() {
    let f = function(
        vec![I32],
        vec![Opcode::Int { dst: Reg(0), ptr: RefInt(1) }, Opcode::Ret { ret: Reg(0) }],
    );
    let code = module(&f);
    let method = decompile_function(&code, &f).unwrap();
    assert_eq!(method.fun, RefFun(0));
    assert!(method.static_);
    assert!(!method.dynamic);
    assert_eq!(method.statements, vec![Statement::Return(Some(num(1)))]);
}

#[test]
fn loop_whose_first_jump_leads_behind_its_bottom_is_refused() {
    // the jump at 1 leads to the return, not over the bottom of the loop: it opens an `if`,
    // which is still open at the bottom of the loop
    let f = function(
        vec![VOID, I32, I32, I32],
        vec![
            Opcode::Label,
            Opcode::JSLt { a: Reg(1), b: Reg(2), offset: 3 },
            Opcode::Add { dst: Reg(1), a: Reg(1), b: Reg(3) },
            Opcode::JAlways { offset: -4 },
            Opcode::Ret { ret: Reg(0) },
        ],
    );
    assert_eq!(lift(&f), Err(DecompileError::LoopNotInnermost));
}

#[test]
fn closure_holds_what_its_function_decompiles_to() {
    let f = function(
        vec![FUN_I32, FUN_VOID],
        vec![
            Opcode::StaticClosure { dst: Reg(0), fun: RefFun(1) },
            Opcode::StaticClosure { dst: Reg(1), fun: RefFun(2) },
            Opcode::Ret { ret: Reg(0) },
        ],
    );
    let mut code = module(&f);
    code.functions[2].ops = vec![
        Opcode::StaticClosure { dst: Reg(0), fun: RefFun(1) },
        Opcode::Ret { ret: Reg(0) },
    ];
    code.functions[2].regs = vec![FUN_I32];
    let alone = |g: usize| decompile_code(&code, &code.functions[g]).unwrap();
    let inner = Expr::Closure(RefFun(1), alone(1));
    assert_eq!(
        alone(2),
        vec![comment("closure: f@1"), Statement::Return(Some(inner.clone()))]
    );
    assert_eq!(
        decompile_code(&code, &f),
        Ok(vec![
            comment("closure: f@1"),
            comment("closure: make@2"),
            Statement::Return(Some(inner)),
        ])
    );
    let named = named(f.clone(), &[(1, 2)]);
    assert_eq!(
        decompile_code(&code, &named).map(|s| s[2].clone()),
        Ok(assign(true, var(1, "i"), Expr::Closure(RefFun(2), alone(2))))
    );
}
