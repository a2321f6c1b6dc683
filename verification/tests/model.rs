use hlbc_decompiler::fmt::decimal;
use hlbc_decompiler::opcodes::Opcode;
use hlbc_decompiler::types::{
    Bytecode, ConstantDef, EnumConstruct, FunPtr, Function, Native, ObjField, ObjProto,
    RefEnumConstruct, RefField, RefFloat, RefFun, RefFunKnown, RefGlobal, RefInt, RefString,
    RefType, Reg, Type, TypeFun, TypeObj,
};
use std::collections::HashMap;

fn field(name: usize, t: usize) -> ObjField {
    ObjField { name: RefString(name), t: RefType(t) }
}

fn shape() -> TypeObj {
    TypeObj {
        name: RefString(1),
        super_: None,
        global: RefGlobal(1),
        own_fields: vec![field(3, 1)],
        protos: vec![ObjProto { name: RefString(5), findex: RefFun(0), pindex: 0 }],
        bindings: vec![],
        fields: vec![field(2, 1), field(3, 1)],
    }
}

fn statics() -> TypeObj {
    TypeObj {
        name: RefString(4),
        super_: None,
        global: RefGlobal(0),
        own_fields: vec![],
        protos: vec![],
        bindings: vec![],
        fields: vec![],
    }
}

/// Strings: 0 "", 1 "Shape", 2 "id", 3 "area", 4 "$Shape", 5 "scale", 6 "k", 7 "n",
/// 8 "std", 9 "sqrt", 10 "Red", 11 "Color", 12 "Ptr".
/// Types: 0 void, 1 i32, 2 (i32, i32) -> void, 3 Shape, 4 $Shape, 5 virtual that holds
/// itself, 6 ref of 5, 7 enum Color, 8 enum without a name, 9 struct, 10 abstract Ptr,
/// 11 null of i32, 12 packed 9, 13 method () -> i32.
fn module() -> Bytecode {
    let scale = Function {
        name: Some(RefString(5)),
        t: RefType(2),
        findex: RefFun(0),
        regs: vec![RefType(3), RefType(1), RefType(1), RefType(0)],
        ops: vec![Opcode::Nop, Opcode::Nop, Opcode::Ret { ret: Reg(3) }],
        debug_info: None,
        assigns: Some(vec![
            (RefString(6), 0),
            (RefString(2), 2),
            (RefString(7), 0),
            (RefString(3), 2),
        ]),
        parent: Some(RefType(3)),
    };
    let anonymous = Function {
        name: None,
        t: RefType(13),
        findex: RefFun(2),
        regs: vec![],
        ops: vec![],
        debug_info: None,
        assigns: None,
        parent: Some(RefType(3)),
    };
    Bytecode {
        version: 4,
        entrypoint: RefFun(0),
        ints: vec![7, -3],
        floats: vec![0x4000_0000_0000_0000],
        strings: [
            "", "Shape", "id", "area", "$Shape", "scale", "k", "n", "std", "sqrt", "Red", "Color",
            "Ptr",
        ]
        .iter()
        .map(|s| s.to_string())
        .collect(),
        debug_files: None,
        types: vec![
            Type::Void,
            Type::I32,
            Type::Fun(TypeFun { args: vec![RefType(1), RefType(1)], ret: RefType(0) }),
            Type::Obj(shape()),
            Type::Obj(statics()),
            Type::Virtual { fields: vec![field(2, 1), field(3, 6)] },
            Type::Ref(RefType(5)),
            Type::Enum {
                name: RefString(11),
                global: RefGlobal(0),
                constructs: vec![
                    EnumConstruct { name: RefString(10), params: vec![] },
                    EnumConstruct { name: RefString(0), params: vec![RefType(1)] },
                ],
            },
            Type::Enum { name: RefString(0), global: RefGlobal(0), constructs: vec![] },
            Type::Struct(shape()),
            Type::Abstract { name: RefString(12) },
            Type::Null(RefType(1)),
            Type::Packed(RefType(9)),
            Type::Method(TypeFun { args: vec![], ret: RefType(1) }),
        ],
        globals: vec![RefType(4), RefType(1)],
        natives: vec![Native {
            name: RefString(9),
            lib: RefString(8),
            t: RefType(2),
            findex: RefFun(1),
        }],
        functions: vec![scale, anonymous],
        constants: Some(vec![ConstantDef { global: RefGlobal(0), fields: vec![1] }]),
        findexes: vec![RefFunKnown::Fun(0), RefFunKnown::Native(0), RefFunKnown::Fun(1)],
        globals_initializers: HashMap::new(),
    }
}

#[test]
fn references_resolve_into_their_pools() {
    let code = module();
    assert_eq!(RefInt(1).resolve(&code.ints), -3);
    assert_eq!(RefInt(0).display(&code), 7);
    assert_eq!(RefFloat(0).resolve(&code.floats), 0x4000_0000_0000_0000);
    assert_eq!(RefFloat(0).display(&code), 0x4000_0000_0000_0000);
    assert_eq!(RefString(3).resolve(&code.strings), "area");
    assert_eq!(RefString(3).display(&code), "area");
    assert_eq!(RefType(1).resolve(&code.types), &Type::I32);
    assert!(RefType(0).is_void());
    assert!(!RefType(1).is_void());
}

#[test]
fn types_resolve_by_their_kind() {
    let code = module();
    assert_eq!(RefType(3).resolve_as_obj(&code.types), Some(&shape()));
    assert_eq!(RefType(9).resolve_as_obj(&code.types), Some(&shape()));
    assert_eq!(RefType(1).resolve_as_obj(&code.types), None);
    assert_eq!(RefType(2).resolve_as_fun(&code.types).map(|f| f.ret), Some(RefType(0)));
    assert_eq!(RefType(13).resolve_as_fun(&code.types).map(|f| f.ret), Some(RefType(1)));
    assert_eq!(RefType(3).resolve_as_fun(&code.types), None);
    assert_eq!(code.types[3].get_type_obj(), Some(&shape()));
    assert_eq!(code.types[2].get_type_obj(), None);
    assert_eq!(code.types[13].get_type_fun().map(|f| f.args.len()), Some(0));
    assert_eq!(code.types[5].get_type_fun(), None);
    assert_eq!(RefType(3).field(RefField(1), &code), Some(&field(3, 1)));
    assert_eq!(RefType(1).field(RefField(1), &code), None);
    assert_eq!(RefType(3).method(0, &code).map(|p| p.findex), Some(RefFun(0)));
    assert_eq!(RefType(5).method(0, &code), None);
}

#[test]
fn object_type_can_be_changed_in_place() {
    let mut ty = Type::Struct(shape());
    match ty.get_type_obj_mut() {
        Some(obj) => obj.name = RefString(4),
        None => panic!("no object"),
    }
    assert_eq!(ty.get_type_obj().map(|obj| obj.name), Some(RefString(4)));
    assert!(Type::I32.get_type_obj_mut().is_none());
}

#[test]
fn static_part_is_the_type_of_the_global() {
    let code = module();
    assert_eq!(shape().get_static_type(&code), Some(&statics()));
    assert_eq!(statics().get_static_type(&code), None);
    let mut of_an_int = shape();
    of_an_int.global = RefGlobal(2);
    assert_eq!(of_an_int.get_static_type(&code), None);
}

#[test]
fn function_knows_its_name_type_and_registers() {
    let code = module();
    let f = &code.functions[0];
    assert_eq!(f.name(&code), Some("scale"));
    assert_eq!(f.name_default(&code), "scale");
    assert_eq!(code.functions[1].name(&code), None);
    assert_eq!(code.functions[1].name_default(&code), "_");
    assert_eq!(f.regtype(Reg(1)), RefType(1));
    assert_eq!(f.ty(&code).ret, RefType(0));
    assert_eq!(f.args(&code), &[RefType(1), RefType(1)]);
    assert_eq!(f.ret(&code), &Type::Void);
    assert!(f.is_method());
    assert!(!code.functions[1].is_method());
    let mut elsewhere = f.clone();
    elsewhere.parent = Some(RefType(4));
    assert!(!elsewhere.is_method());
    elsewhere.parent = None;
    assert!(!elsewhere.is_method());
}

#[test]
fn names_of_arguments_and_variables_come_from_the_assigns() {
    let code = module();
    let f = &code.functions[0];
    assert_eq!(f.arg_name(&code, 0), Some("k"));
    assert_eq!(f.arg_name(&code, 1), Some("n"));
    assert_eq!(f.arg_name(&code, 2), None);
    assert_eq!(f.var_name(&code, 1), Some("id".to_string()));
    assert_eq!(f.var_name(&code, 0), None);
    assert_eq!(f.var_name(&code, 2), None);
    assert_eq!(f.var_name(&code, usize::MAX), None);
    assert_eq!(code.functions[1].arg_name(&code, 0), None);
    assert_eq!(code.functions[1].var_name(&code, 1), None);
}

#[test]
fn native_knows_its_name_and_type() {
    let code = module();
    let n = &code.natives[0];
    assert_eq!(n.name(&code), "sqrt");
    assert_eq!(n.ty(&code).args.len(), 2);
    assert_eq!(n.args(&code), &[RefType(1), RefType(1)]);
    assert_eq!(n.ret(&code), &Type::Void);
}

#[test]
fn findex_resolves_to_a_function_or_a_native() {
    let code = module();
    assert!(RefFun(0).resolve(&code).is_fun());
    assert!(!RefFun(0).resolve(&code).is_native());
    assert!(RefFun(1).resolve(&code).is_native());
    assert!(!RefFun(1).resolve(&code).is_fun());
    assert_eq!(RefFun(0).resolve(&code).findex(), RefFun(0));
    assert_eq!(RefFun(1).resolve(&code).findex(), RefFun(1));
    assert_eq!(RefFun(0).resolve_as_fn(&code).map(|f| f.findex), Some(RefFun(0)));
    assert!(RefFun(1).resolve_as_fn(&code).is_none());
    assert_eq!(RefFun(0).name(&code), Some("scale"));
    assert_eq!(RefFun(1).name(&code), Some("sqrt"));
    assert_eq!(RefFun(2).name(&code), None);
    assert_eq!(RefFun(2).name_default(&code), "_");
    assert_eq!(RefFun(1).name_default(&code), "sqrt");
    assert_eq!(RefFun(2).ty(&code).ret, RefType(1));
    assert_eq!(RefFun(1).args(&code).len(), 2);
    assert_eq!(RefFun(2).ret(&code), &Type::I32);
    assert!(matches!(RefFunKnown::Fun(1).resolve(&code), FunPtr::Fun(f) if f.findex == RefFun(2)));
    assert!(matches!(RefFunKnown::Native(0).resolve(&code), FunPtr::Native(_)));
    assert!(RefFunKnown::Native(0).resolve_as_fn(&code).is_none());
    assert_eq!(RefFunKnown::Fun(0).resolve_as_fn(&code).map(|f| f.findex), Some(RefFun(0)));
}

#[test]
fn numbers_are_written_in_decimal() {
    assert_eq!(decimal(0), "0");
    assert_eq!(decimal(7), "7");
    assert_eq!(decimal(10), "10");
    assert_eq!(decimal(1234567890), "1234567890");
    assert_eq!(decimal(usize::MAX), usize::MAX.to_string());
}

#[test]
fn identifiers_of_functions_and_natives() {
    let code = module();
    assert_eq!(code.functions[0].display_id(&code), "scale@0");
    assert_eq!(code.functions[1].display_id(&code), "_@2");
    assert_eq!(code.natives[0].display_id(&code), "std/sqrt@1");
    assert_eq!(RefFun(0).display_id(&code), "scale@0");
    assert_eq!(RefFun(1).display_id(&code), "std/sqrt@1");
    assert_eq!(RefFun(2).resolve(&code).display_id(&code), "_@2");
    assert_eq!(code.functions[0].display_header(&code), "fn scale@0 (i32, i32) -> (void)@2");
    assert_eq!(
        code.natives[0].display_header(&code),
        "fn:native std/sqrt@1 (i32, i32) -> (void)@2"
    );
    assert_eq!(RefFun(2).display_header(&code), "fn _@2 () -> (i32)@13");
    assert_eq!(
        RefFun(1).resolve(&code).display_header(&code),
        "fn:native std/sqrt@1 (i32, i32) -> (void)@2"
    );
}

#[test]
fn names_of_fields_and_variants() {
    let code = module();
    assert_eq!(RefField(1).display_obj(&code.types[3], &code), "area");
    assert_eq!(RefField(2).display_obj(&code.types[3], &code), "field2");
    assert_eq!(RefField(0).display_obj(&code.types[5], &code), "id");
    assert_eq!(RefField(4).display_obj(&code.types[1], &code), "field4");
    assert_eq!(RefEnumConstruct(0).display(RefType(7), &code), "Red");
    assert_eq!(RefEnumConstruct(1).display(RefType(7), &code), "_");
    assert_eq!(RefEnumConstruct(0).display(RefType(1), &code), "_");
}

#[test]
fn variant_without_a_name_reads_no_string() {
    let mut code = module();
    code.strings.clear();
    assert!(RefEnumConstruct(1).check_display(RefType(7), &code));
    assert_eq!(RefEnumConstruct(1).display(RefType(7), &code), "_");
    assert!(!RefEnumConstruct(0).check_display(RefType(7), &code));
    assert!(!RefEnumConstruct(2).check_display(RefType(7), &code));
    assert!(RefEnumConstruct(2).check_display(RefType(1), &code));
    assert!(!RefEnumConstruct(0).check_display(RefType(99), &code));
    assert!(code.types[8].check_refs(&code));
    assert_eq!(code.types[8].display(&code, None), "enum<_>");
    assert!(!code.types[7].check_refs(&code));
}

#[test]
fn text_of_each_kind_of_type() {
    let code = module();
    assert!(code.check_types());
    let text = |t: usize| RefType(t).display(&code);
    assert_eq!(text(0), "void");
    assert_eq!(text(1), "i32");
    assert_eq!(text(2), "(i32, i32) -> (void)");
    assert_eq!(text(3), "Shape");
    assert_eq!(text(7), "enum<Color>");
    assert_eq!(text(8), "enum<_>");
    assert_eq!(text(9), "Shape<id: i32, area: i32>");
    assert_eq!(text(10), "Ptr");
    assert_eq!(text(11), "null<i32>");
    assert_eq!(text(12), "packed<Shape<id: i32, area: i32>>");
    assert_eq!(text(13), "() -> (i32)");
    assert_eq!(RefType(11).display_id(&code), "null<i32>@11");
    let plain = |ty: Type| ty.display(&code, None);
    assert_eq!(plain(Type::UI8), "i8");
    assert_eq!(plain(Type::UI16), "i16");
    assert_eq!(plain(Type::I64), "i64");
    assert_eq!(plain(Type::F32), "f32");
    assert_eq!(plain(Type::F64), "f64");
    assert_eq!(plain(Type::Bool), "bool");
    assert_eq!(plain(Type::Bytes), "bytes");
    assert_eq!(plain(Type::Dyn), "dynamic");
    assert_eq!(plain(Type::Array), "array");
    assert_eq!(plain(Type::Type), "type");
    assert_eq!(plain(Type::DynObj), "dynobj");
}

#[test]
fn type_that_holds_itself_is_written_self() {
    let code = module();
    assert_eq!(RefType(5).display(&code), "virtual<id: i32, area: ref<Self>>");
    assert_eq!(RefType(6).display(&code), "ref<virtual<id: i32, area: Self>>");
    assert_eq!(RefType(5).display_rec(&code, &vec![6]), "virtual<id: i32, area: Self>");
    assert_eq!(RefType(5).display_rec(&code, &vec![5]), "Self");
}

#[test]
fn type_of_the_table_is_written_as_its_index_is() {
    let code = module();
    for t in 0..code.types.len() {
        assert_eq!(code.types[t].display(&code, Some(RefType(t))), RefType(t).display(&code));
    }
    assert_eq!(
        code.types[5].display(&code, Some(RefType(5))),
        "virtual<id: i32, area: ref<Self>>"
    );
}

#[test]
fn type_outside_the_table_is_written_once_more_inside_itself() {
    let code = module();
    assert_eq!(
        code.types[5].clone().display(&code, None),
        "virtual<id: i32, area: ref<virtual<id: i32, area: Self>>>"
    );
}

#[test]
fn types_outside_the_pools_are_found() {
    let mut code = module();
    code.types.push(Type::Ref(RefType(99)));
    assert!(!code.check_types());
    code.types.pop();
    code.types.push(Type::Abstract { name: RefString(99) });
    assert!(!code.check_types());
    code.types.pop();
    code.types.push(Type::Fun(TypeFun { args: vec![RefType(99)], ret: RefType(0) }));
    assert!(!code.check_types());
    code.types.pop();
    code.types.push(Type::Virtual { fields: vec![field(2, 99)] });
    assert!(!code.check_types());
}
