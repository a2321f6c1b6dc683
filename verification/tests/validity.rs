use hlbc_decompiler::opcodes::Opcode;
use hlbc_decompiler::types::{
    Bytecode, ConstantDef, Function, Native, ObjField, ObjProto, RefField, RefFloat, RefFun,
    RefFunKnown, RefGlobal, RefInt, RefString, RefType, Reg, Type, TypeFun, TypeObj,
};
use hlbc_decompiler::validity::{check_forward, check_op};
use std::collections::HashMap;

fn point() -> TypeObj {
    TypeObj {
        name: RefString(1),
        super_: None,
        global: RefGlobal(0),
        own_fields: vec![ObjField { name: RefString(2), t: RefType(1) }],
        protos: vec![ObjProto { name: RefString(3), findex: RefFun(0), pindex: 0 }],
        bindings: vec![],
        fields: vec![ObjField { name: RefString(2), t: RefType(1) }],
    }
}

/// Types: 0 void, 1 i32, 2 () -> void, 3 Point, 4 virtual with one field; then bytes up to
/// 13, the type of strings. Findex 0 is the function, findex 1 a native.
fn module(ops: Vec<Opcode>) -> Bytecode {
    let mut types = vec![
        Type::Void,
        Type::I32,
        Type::Fun(TypeFun { args: vec![], ret: RefType(0) }),
        Type::Obj(point()),
        Type::Virtual { fields: vec![ObjField { name: RefString(2), t: RefType(1) }] },
    ];
    while types.len() < 14 {
        types.push(Type::Bytes);
    }
    let f = Function {
        name: Some(RefString(3)),
        t: RefType(2),
        findex: RefFun(0),
        regs: vec![RefType(3), RefType(1), RefType(4), RefType(13)],
        ops,
        debug_info: None,
        assigns: Some(vec![(RefString(2), 1)]),
        parent: None,
    };
    Bytecode {
        version: 4,
        entrypoint: RefFun(0),
        ints: vec![1],
        floats: vec![0],
        strings: ["", "Point", "x", "move", "std", "log"].iter().map(|s| s.to_string()).collect(),
        debug_files: None,
        types,
        globals: vec![],
        natives: vec![Native {
            name: RefString(5),
            lib: RefString(4),
            t: RefType(2),
            findex: RefFun(1),
        }],
        functions: vec![f],
        constants: Some(vec![ConstantDef { global: RefGlobal(2), fields: vec![1] }]),
        findexes: vec![RefFunKnown::Fun(0), RefFunKnown::Native(0)],
        globals_initializers: HashMap::from([(2, 0)]),
    }
}

fn accepts(op: Opcode) -> bool {
    let code = module(vec![op, Opcode::Nop, Opcode::Nop]);
    let ok = check_op(&code, &code.functions[0], 0);
    assert_eq!(code.functions[0].check(&code), ok);
    assert_eq!(code.check(), ok);
    ok
}

#[test]
fn jumps_forward_lead_inside_the_function() {
    assert!(accepts(Opcode::JAlways { offset: 2 }));
    assert!(!accepts(Opcode::JAlways { offset: 3 }));
    assert!(!accepts(Opcode::JAlways { offset: i32::MAX }));
    assert!(accepts(Opcode::JAlways { offset: -1 }));
    assert!(accepts(Opcode::JAlways { offset: -2 }));
    assert!(accepts(Opcode::JAlways { offset: i32::MIN }));
    assert!(accepts(Opcode::JTrue { cond: Reg(9), offset: 1 }));
    assert!(!accepts(Opcode::JTrue { cond: Reg(0), offset: 5 }));
    assert!(accepts(Opcode::JNull { reg: Reg(0), offset: -9 }));
    assert!(!accepts(Opcode::JSLt { a: Reg(0), b: Reg(1), offset: 7 }));
    assert!(!accepts(Opcode::JEq { a: Reg(0), b: Reg(1), offset: 7 }));
    assert!(accepts(Opcode::Trap { exc: Reg(0), offset: 2 }));
    assert!(!accepts(Opcode::Trap { exc: Reg(0), offset: 3 }));
    assert!(!accepts(Opcode::Trap { exc: Reg(0), offset: -1 }));
    assert!(accepts(Opcode::Switch { reg: Reg(1), offsets: vec![0, 2], end: 2 }));
    assert!(!accepts(Opcode::Switch { reg: Reg(1), offsets: vec![0, 3], end: 2 }));
    assert!(!accepts(Opcode::Switch { reg: Reg(1), offsets: vec![-1], end: 2 }));
    assert!(!accepts(Opcode::Switch { reg: Reg(1), offsets: vec![], end: 3 }));
    assert!(!accepts(Opcode::Switch { reg: Reg(1), offsets: vec![], end: -1 }));
    let code = module(vec![Opcode::Nop, Opcode::Nop]);
    assert!(check_forward(&code.functions[0], 1, 0));
    assert!(!check_forward(&code.functions[0], 1, 1));
    assert!(check_forward(&code.functions[0], 1, -3));
}

#[test]
fn constants_lie_in_their_pools() {
    assert!(accepts(Opcode::Int { dst: Reg(1), ptr: RefInt(0) }));
    assert!(!accepts(Opcode::Int { dst: Reg(1), ptr: RefInt(1) }));
    assert!(accepts(Opcode::Float { dst: Reg(1), ptr: RefFloat(0) }));
    assert!(!accepts(Opcode::Float { dst: Reg(1), ptr: RefFloat(1) }));
    assert!(accepts(Opcode::String { dst: Reg(1), ptr: RefString(5) }));
    assert!(!accepts(Opcode::String { dst: Reg(1), ptr: RefString(6) }));
    assert!(accepts(Opcode::DynGet { dst: Reg(1), obj: Reg(0), field: RefString(0) }));
    assert!(!accepts(Opcode::DynSet { obj: Reg(0), field: RefString(6), src: Reg(1) }));
}

#[test]
fn registers_that_are_typed_are_registers_of_the_function() {
    assert!(accepts(Opcode::Ret { ret: Reg(3) }));
    assert!(!accepts(Opcode::Ret { ret: Reg(4) }));
    assert!(accepts(Opcode::New { dst: Reg(0) }));
    assert!(!accepts(Opcode::New { dst: Reg(4) }));
    assert!(accepts(Opcode::CallClosure { dst: Reg(1), fun: Reg(0), args: vec![] }));
    assert!(!accepts(Opcode::CallClosure { dst: Reg(1), fun: Reg(4), args: vec![] }));
    assert!(accepts(Opcode::Add { dst: Reg(77), a: Reg(78), b: Reg(79) }));
}

#[test]
fn fields_and_methods_are_those_of_the_type() {
    assert!(accepts(Opcode::Field { dst: Reg(1), obj: Reg(0), field: RefField(0) }));
    assert!(accepts(Opcode::Field { dst: Reg(1), obj: Reg(0), field: RefField(9) }));
    assert!(accepts(Opcode::Field { dst: Reg(1), obj: Reg(2), field: RefField(0) }));
    assert!(!accepts(Opcode::Field { dst: Reg(1), obj: Reg(2), field: RefField(1) }));
    assert!(accepts(Opcode::Field { dst: Reg(1), obj: Reg(1), field: RefField(9) }));
    assert!(!accepts(Opcode::SetField { obj: Reg(4), field: RefField(0), src: Reg(1) }));
    assert!(accepts(Opcode::GetThis { dst: Reg(1), field: RefField(0) }));
    assert!(accepts(Opcode::CallThis { dst: Reg(1), field: RefField(0), args: vec![] }));
    assert!(!accepts(Opcode::CallThis { dst: Reg(1), field: RefField(1), args: vec![] }));
    assert!(accepts(Opcode::CallMethod { dst: Reg(1), field: RefField(0), args: vec![Reg(0)] }));
    assert!(accepts(Opcode::CallMethod { dst: Reg(1), field: RefField(0), args: vec![Reg(1)] }));
    assert!(!accepts(Opcode::CallMethod { dst: Reg(1), field: RefField(0), args: vec![] }));
    assert!(!accepts(Opcode::CallMethod { dst: Reg(1), field: RefField(1), args: vec![Reg(0)] }));
}

#[test]
fn functions_are_those_of_the_bytecode() {
    assert!(accepts(Opcode::Call0 { dst: Reg(1), fun: RefFun(0) }));
    assert!(accepts(Opcode::Call1 { dst: Reg(1), fun: RefFun(1), arg0: Reg(0) }));
    assert!(!accepts(Opcode::Call0 { dst: Reg(1), fun: RefFun(2) }));
    assert!(!accepts(Opcode::CallN { dst: Reg(1), fun: RefFun(2), args: vec![] }));
    assert!(accepts(Opcode::StaticClosure { dst: Reg(1), fun: RefFun(0) }));
    assert!(!accepts(Opcode::StaticClosure { dst: Reg(1), fun: RefFun(1) }));
    assert!(accepts(Opcode::InstanceClosure { dst: Reg(1), fun: RefFun(0), obj: Reg(0) }));
    assert!(!accepts(Opcode::InstanceClosure { dst: Reg(1), fun: RefFun(0), obj: Reg(4) }));
    assert!(!accepts(Opcode::InstanceClosure { dst: Reg(1), fun: RefFun(1), obj: Reg(0) }));
}

#[test]
fn global_string_has_its_initial_value() {
    assert!(accepts(Opcode::GetGlobal { dst: Reg(3), global: RefGlobal(2) }));
    assert!(!accepts(Opcode::GetGlobal { dst: Reg(3), global: RefGlobal(1) }));
    assert!(accepts(Opcode::GetGlobal { dst: Reg(0), global: RefGlobal(1) }));
    assert!(!accepts(Opcode::GetGlobal { dst: Reg(4), global: RefGlobal(2) }));
    let mut code = module(vec![Opcode::GetGlobal { dst: Reg(3), global: RefGlobal(2) }]);
    code.constants = None;
    assert!(!code.check());
    code.constants = Some(vec![ConstantDef { global: RefGlobal(2), fields: vec![] }]);
    assert!(!code.check());
    code.constants = Some(vec![ConstantDef { global: RefGlobal(2), fields: vec![6] }]);
    assert!(!code.check());
}

#[test]
fn function_has_a_function_type_and_names_in_the_pool() {
    let mut code = module(vec![Opcode::Nop]);
    assert!(code.check());
    assert!(code.functions[0].check_assigns(&code));
    code.functions[0].t = RefType(1);
    assert!(!code.check());
    code.functions[0].t = RefType(99);
    assert!(!code.check());
    code.functions[0].t = RefType(2);
    code.functions[0].name = Some(RefString(6));
    assert!(!code.check());
    code.functions[0].name = None;
    assert!(code.check());
    code.functions[0].assigns = Some(vec![(RefString(2), 1), (RefString(6), 1)]);
    assert!(!code.functions[0].check_assigns(&code));
    assert!(!code.check());
}

#[test]
fn method_that_is_called_has_a_name() {
    let mut code = module(vec![Opcode::Call1 { dst: Reg(1), fun: RefFun(0), arg0: Reg(0) }]);
    code.functions[0].parent = Some(RefType(3));
    assert!(code.check());
    code.functions[0].name = None;
    assert!(!code.check());
    code.functions[0].parent = None;
    assert!(code.check());
}

/// A function that does nothing but make a closure of the function `fun`.
fn closure_of(findex: usize, fun: usize) -> Function {
    Function {
        name: None,
        t: RefType(2),
        findex: RefFun(findex),
        regs: vec![RefType(2)],
        ops: vec![Opcode::StaticClosure { dst: Reg(0), fun: RefFun(fun) }],
        debug_info: None,
        assigns: None,
        parent: None,
    }
}

/// The function 0 makes a closure of the function 1, which makes one of the function 2.
/// The function 3 is alone. Findex 4 is a native.
fn nested() -> Bytecode {
    let mut code = module(vec![Opcode::Nop]);
    let leaf = code.functions[0].clone();
    code.functions = vec![closure_of(0, 1), closure_of(1, 2), leaf.clone(), leaf];
    code.functions[2].findex = RefFun(2);
    code.functions[3].findex = RefFun(3);
    code.findexes = vec![
        RefFunKnown::Fun(0),
        RefFunKnown::Fun(1),
        RefFunKnown::Fun(2),
        RefFunKnown::Fun(3),
        RefFunKnown::Native(0),
    ];
    code.natives[0].findex = RefFun(4);
    code
}

#[test]
fn only_the_functions_that_closures_reach_are_asked_for() {
    let mut code = nested();
    assert!(code.check());
    assert!(code.functions[0].check_within(&code, 4));
    // the function 3 is reached by no closure
    code.functions[3].ops = vec![Opcode::Int { dst: Reg(0), ptr: RefInt(9) }];
    assert!(!code.check());
    assert!(code.functions[0].check_within(&code, 4));
    assert!(!code.functions[3].check_within(&code, 4));
    assert_eq!(
        hlbc_decompiler::lifter::decompile_code(&code, &code.functions[0]),
        Ok(vec![hlbc_decompiler::ast::Statement::Comment("closure: _@1".to_string())])
    );
}

#[test]
fn functions_are_asked_for_as_deep_as_they_are_read() {
    let mut code = nested();
    code.functions[2].ops = vec![Opcode::Int { dst: Reg(0), ptr: RefInt(9) }];
    assert!(!code.functions[2].check_within(&code, 0));
    assert!(code.functions[1].check_within(&code, 0));
    assert!(!code.functions[1].check_within(&code, 1));
    assert!(code.functions[0].check_within(&code, 1));
    assert!(!code.functions[0].check_within(&code, 2));
    assert!(!code.functions[0].check_within(&code, 4));
}
