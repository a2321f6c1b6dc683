use hlbc_decompiler::ast::{Class, ClassField, Constant, Expr, Method, Statement};
use hlbc_decompiler::class::{decompile_class, decompile_class_noting};
use hlbc_decompiler::state::Diagnostic;
use hlbc_decompiler::model::DecompileError;
use hlbc_decompiler::opcodes::Opcode;
use hlbc_decompiler::types::{
    Bytecode, Function, Native, ObjField, ObjProto, RefField, RefFun, RefFunKnown, RefGlobal,
    RefInt, RefString, RefType, Reg, Type, TypeFun, TypeObj,
};
use std::collections::HashMap;

fn field(name: usize) -> ObjField {
    ObjField { name: RefString(name), t: RefType(1) }
}

fn function(findex: usize, ops: Vec<Opcode>) -> Function {
    Function {
        name: None,
        t: RefType(2),
        findex: RefFun(findex),
        regs: vec![RefType(1)],
        ops,
        debug_info: None,
        assigns: None,
        parent: None,
    }
}

fn ret_const(value: usize) -> Vec<Opcode> {
    vec![Opcode::Int { dst: Reg(0), ptr: RefInt(value) }, Opcode::Ret { ret: Reg(0) }]
}

fn body(value: i32) -> Vec<Statement> {
    vec![Statement::Return(Some(Expr::Constant(Constant::Int(value))))]
}

/// The class `Dog` extends `Animal`, which has the two fields `id` and `age`. `Dog` adds
/// `name`, `bark` and `tail`, of which `bark` holds the function 1. Its static part has the
/// fields `count` and `make`, of which `make` holds the function 2. `Dog` declares the
/// method `run`, the function 3.
fn module() -> Bytecode {
    let animal = TypeObj {
        name: RefString(1),
        super_: None,
        global: RefGlobal(0),
        own_fields: vec![field(3), field(4)],
        protos: vec![],
        bindings: vec![],
        fields: vec![field(3), field(4)],
    };
    let dog = TypeObj {
        name: RefString(2),
        super_: Some(RefType(3)),
        global: RefGlobal(1),
        own_fields: vec![field(5), field(6), field(7)],
        protos: vec![ObjProto { name: RefString(10), findex: RefFun(3), pindex: 0 }],
        bindings: vec![(RefField(3), RefFun(1))],
        fields: vec![field(3), field(4), field(5), field(6), field(7)],
    };
    let statics = TypeObj {
        name: RefString(11),
        super_: None,
        global: RefGlobal(0),
        own_fields: vec![field(8), field(9)],
        protos: vec![],
        bindings: vec![(RefField(1), RefFun(2))],
        fields: vec![field(8), field(9)],
    };
    Bytecode {
        version: 4,
        entrypoint: RefFun(0),
        ints: vec![10, 11, 12, 13],
        floats: vec![],
        strings: [
            "", "Animal", "Dog", "id", "age", "name", "bark", "tail", "count", "make", "run",
            "$Dog", "std", "log",
        ]
        .iter()
        .map(|s| s.to_string())
        .collect(),
        debug_files: None,
        types: vec![
            Type::Void,
            Type::I32,
            Type::Fun(TypeFun { args: vec![], ret: RefType(1) }),
            Type::Obj(animal),
            Type::Obj(dog),
            Type::Obj(statics),
        ],
        globals: vec![RefType(5)],
        natives: vec![Native {
            name: RefString(13),
            lib: RefString(12),
            t: RefType(2),
            findex: RefFun(4),
        }],
        functions: vec![
            function(0, ret_const(0)),
            function(1, ret_const(1)),
            function(2, ret_const(2)),
            function(3, ret_const(3)),
        ],
        constants: None,
        findexes: vec![
            RefFunKnown::Fun(0),
            RefFunKnown::Fun(1),
            RefFunKnown::Fun(2),
            RefFunKnown::Fun(3),
            RefFunKnown::Native(0),
        ],
        globals_initializers: HashMap::new(),
    }
}

fn dog(code: &Bytecode) -> &TypeObj {
    code.types[4].get_type_obj().unwrap()
}

fn class_field(name: &str, static_: bool) -> ClassField {
    ClassField { name: name.to_string(), static_, ty: RefType(1) }
}

#[test]
fn class_has_its_own_fields_and_every_method() {
    let code = module();
    assert!(code.check());
    assert!(dog(&code).check_class(&code));
    let expected = Class {
        name: "Dog".to_string(),
        parent: Some("Animal".to_string()),
        fields: vec![
            class_field("name", false),
            class_field("tail", false),
            class_field("count", true),
        ],
        methods: vec![
            Method { fun: RefFun(1), static_: false, dynamic: true, statements: body(11) },
            Method { fun: RefFun(2), static_: true, dynamic: true, statements: body(12) },
            Method { fun: RefFun(3), static_: false, dynamic: false, statements: body(13) },
        ],
    };
    assert_eq!(decompile_class(&code, dog(&code)), Ok(expected));
}

#[test]
fn class_without_parent_and_static_part() {
    let code = module();
    let animal = code.types[3].get_type_obj().unwrap();
    assert!(animal.check_class(&code));
    let expected = Class {
        name: "Animal".to_string(),
        parent: None,
        fields: vec![class_field("id", false), class_field("age", false)],
        methods: vec![],
    };
    assert_eq!(decompile_class(&code, animal), Ok(expected));
}

#[test]
fn bound_fields_are_told_by_their_index_among_all_fields() {
    let code = module();
    assert!(dog(&code).has_binding(3));
    assert!(!dog(&code).has_binding(1));
    assert!(!dog(&code).has_binding(4));
}

#[test]
fn class_fails_with_its_first_method_that_fails() {
    let mut code = module();
    code.functions[2].ops = vec![Opcode::JAlways { offset: -1 }];
    code.functions[3].ops = vec![Opcode::StaticClosure { dst: Reg(0), fun: RefFun(3) }];
    assert!(code.check());
    assert_eq!(
        decompile_class(&code, dog(&code)),
        Err(DecompileError::BackwardJumpOutsideLoop)
    );
}

#[test]
fn class_notes_what_its_methods_note_in_their_order() {
    let mut code = module();
    let passed_over = vec![Opcode::JAlways { offset: 0 }, Opcode::JAlways { offset: 0 }];
    code.functions[1].ops = passed_over.clone();
    code.functions[3].ops = passed_over;
    assert!(code.check());
    let mut notes = vec![];
    let class = decompile_class_noting(&code, dog(&code), &mut notes);
    assert_eq!(class, decompile_class(&code, dog(&code)));
    assert_eq!(
        notes,
        vec![
            Diagnostic::JumpWithoutScope { fun: RefFun(1), pos: 0 },
            Diagnostic::JumpWithoutScope { fun: RefFun(1), pos: 1 },
            Diagnostic::JumpWithoutScope { fun: RefFun(3), pos: 0 },
            Diagnostic::JumpWithoutScope { fun: RefFun(3), pos: 1 },
        ]
    );
    code.functions[3].ops = vec![Opcode::JAlways { offset: -1 }];
    let mut notes = vec![];
    assert!(decompile_class_noting(&code, dog(&code), &mut notes).is_err());
    assert_eq!(notes, vec![]);
}

#[test]
fn field_bound_twice_is_found() {
    let mut code = module();
    assert!(dog(&code).check_bindings_distinct());
    match &mut code.types[4] {
        Type::Obj(ty) => ty.bindings.push((RefField(3), RefFun(2))),
        _ => panic!("no object"),
    }
    assert!(!dog(&code).check_bindings_distinct());
    assert!(!dog(&code).check_part(&code));
    assert!(!dog(&code).check_class(&code));
}

#[test]
fn class_with_a_native_for_a_method_is_found() {
    let mut code = module();
    assert!(dog(&code).check_part(&code));
    match &mut code.types[4] {
        Type::Obj(ty) => ty.protos[0].findex = RefFun(4),
        _ => panic!("no object"),
    }
    assert!(!dog(&code).check_class(&code));
    match &mut code.types[4] {
        Type::Obj(ty) => {
            ty.protos[0].findex = RefFun(3);
            ty.own_fields.truncate(1);
            ty.fields.clear();
        }
        _ => panic!("no object"),
    }
    assert!(!dog(&code).check_part(&code));
    assert!(!dog(&code).check_class(&code));
}
