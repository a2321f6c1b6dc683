use hlbc_decompiler::listing::{bool_text, check_header, pad_start, target_fits, Line};
use hlbc_decompiler::opcodes::Opcode;
use hlbc_decompiler::types::{
    Bytecode, EnumConstruct, Function, Native, ObjField, ObjProto, RefEnumConstruct, RefField,
    RefFloat, RefFun, RefFunKnown, RefGlobal, RefInt, RefString, RefType, Reg, Type, TypeFun,
    TypeObj, ValBool,
};
use std::collections::HashMap;

/// Types: 0 void, 1 i32, 2 () -> void, 3 Point with the field x and the method move,
/// 4 enum Color with the variant Red.
fn module() -> Bytecode {
    let point = TypeObj {
        name: RefString(1),
        super_: None,
        global: RefGlobal(0),
        own_fields: vec![ObjField { name: RefString(2), t: RefType(1) }],
        protos: vec![ObjProto { name: RefString(3), findex: RefFun(0), pindex: 0 }],
        bindings: vec![],
        fields: vec![ObjField { name: RefString(2), t: RefType(1) }],
    };
    let f = Function {
        name: Some(RefString(3)),
        t: RefType(2),
        findex: RefFun(0),
        regs: vec![RefType(3), RefType(1), RefType(4)],
        ops: vec![],
        debug_info: None,
        assigns: None,
        parent: None,
    };
    Bytecode {
        version: 4,
        entrypoint: RefFun(0),
        ints: vec![42, -42, i32::MIN],
        floats: vec![0],
        strings: ["", "Point", "x", "move", "std", "log", "Color", "Red"]
            .iter()
            .map(|s| s.to_string())
            .collect(),
        debug_files: None,
        types: vec![
            Type::Void,
            Type::I32,
            Type::Fun(TypeFun { args: vec![], ret: RefType(0) }),
            Type::Obj(point),
            Type::Enum {
                name: RefString(6),
                global: RefGlobal(0),
                constructs: vec![EnumConstruct { name: RefString(7), params: vec![] }],
            },
        ],
        globals: vec![],
        natives: vec![Native {
            name: RefString(5),
            lib: RefString(4),
            t: RefType(2),
            findex: RefFun(1),
        }],
        functions: vec![f],
        constants: None,
        findexes: vec![RefFunKnown::Fun(0), RefFunKnown::Native(0)],
        globals_initializers: HashMap::new(),
    }
}

fn text(op: Opcode) -> Option<String> {
    let code = module();
    assert!(op.check_text(&code, &code.functions[0], 10));
    op.text(&code, &code.functions[0], 10)
}

fn line(op: Opcode) -> String {
    text(op).unwrap()
}

fn refused(op: Opcode) -> bool {
    let code = module();
    !op.check_text(&code, &code.functions[0], 10)
}

const A: Reg = Reg(0);
const B: Reg = Reg(1);
const C: Reg = Reg(2);

#[test]
fn name_of_an_instruction() {
    assert_eq!(Opcode::Mov { dst: A, src: B }.name(), "Mov");
    assert_eq!(Opcode::Label.name(), "Label");
    assert_eq!(Opcode::JNotGte { a: A, b: B, offset: 0 }.name(), "JNotGte");
    assert_eq!(Opcode::Nop.name(), "Nop");
    assert_eq!(Opcode::GetTID { dst: A, src: B }.name(), "GetTID");
}

#[test]
fn line_is_put_together_from_its_parts() {
    assert_eq!(Line::start("a").lit("b").reg(Reg(12)).num(7).text, "abreg127");
    assert_eq!(Line::start_reg(Reg(0)).signed(-5).signed(5).signed(0).text, "reg0-550");
    assert_eq!(Line::start("").regs(&[A, B, C], 0).text, "reg0, reg1, reg2");
    assert_eq!(Line::start("(").regs(&[A, B, C], 2).lit(")").text, "(reg2)");
    assert_eq!(Line::start("(").regs(&[A, B, C], 3).lit(")").text, "()");
    assert_eq!(Line::start("ab").pad(5).lit("|").text, "ab   |");
    assert_eq!(Line::start("abcde").pad(5).lit("|").text, "abcde|");
    assert_eq!(Line::start("abcdef").pad(5).lit("|").text, "abcdef|");
    assert_eq!(Line::start("é").pad(3).lit("|").text, "é  |");
    assert_eq!(bool_text(true), "true");
    assert_eq!(bool_text(false), "false");
}

#[test]
fn text_of_loads_and_operators() {
    assert_eq!(line(Opcode::Mov { dst: A, src: B }), "reg0 = reg1");
    assert_eq!(line(Opcode::Int { dst: A, ptr: RefInt(0) }), "reg0 = 42");
    assert_eq!(line(Opcode::Int { dst: A, ptr: RefInt(1) }), "reg0 = -42");
    assert_eq!(line(Opcode::Int { dst: A, ptr: RefInt(2) }), "reg0 = -2147483648");
    assert_eq!(line(Opcode::Bool { dst: A, value: ValBool(true) }), "reg0 = true");
    assert_eq!(line(Opcode::String { dst: A, ptr: RefString(1) }), "reg0 = \"Point\"");
    assert_eq!(line(Opcode::Null { dst: A }), "reg0 = null");
    assert_eq!(line(Opcode::Add { dst: A, a: B, b: C }), "reg0 = reg1 + reg2");
    assert_eq!(line(Opcode::Sub { dst: A, a: B, b: C }), "reg0 = reg1 - reg2");
    assert_eq!(line(Opcode::Mul { dst: A, a: B, b: C }), "reg0 = reg1 * reg2");
    assert_eq!(line(Opcode::SDiv { dst: A, a: B, b: C }), "reg0 = reg1 / reg2");
    assert_eq!(line(Opcode::UMod { dst: A, a: B, b: C }), "reg0 = reg1 % reg2");
    assert_eq!(line(Opcode::Shl { dst: A, a: B, b: C }), "reg0 = reg1 << reg2");
    assert_eq!(line(Opcode::UShr { dst: A, a: B, b: C }), "reg0 = reg1 >> reg2");
    assert_eq!(line(Opcode::And { dst: A, a: B, b: C }), "reg0 = reg1 & reg2");
    assert_eq!(line(Opcode::Or { dst: A, a: B, b: C }), "reg0 = reg1 | reg2");
    assert_eq!(line(Opcode::Xor { dst: A, a: B, b: C }), "reg0 = reg1 ^ reg2");
    assert_eq!(line(Opcode::Neg { dst: A, src: B }), "reg0 = -reg1");
    assert_eq!(line(Opcode::Not { dst: A, src: B }), "reg0 = !reg1");
    assert_eq!(line(Opcode::Incr { dst: A }), "reg0++");
    assert_eq!(line(Opcode::Decr { dst: A }), "reg0--");
    assert_eq!(line(Opcode::ToDyn { dst: A, src: B }), "reg0 = cast reg1");
    assert_eq!(line(Opcode::Ref { dst: A, src: B }), "reg0 = &reg1");
    assert_eq!(line(Opcode::Unref { dst: A, src: B }), "reg0 = *reg1");
    assert!(refused(Opcode::Int { dst: A, ptr: RefInt(3) }));
    assert!(refused(Opcode::String { dst: A, ptr: RefString(8) }));
}

#[test]
fn text_of_calls() {
    let fun = RefFun(1);
    assert_eq!(line(Opcode::Call0 { dst: A, fun }), "reg0 = std/log@1()");
    assert_eq!(line(Opcode::Call1 { dst: A, fun, arg0: B }), "reg0 = std/log@1(reg1)");
    assert_eq!(
        line(Opcode::Call2 { dst: A, fun, arg0: B, arg1: C }),
        "reg0 = std/log@1(reg1, reg2)"
    );
    assert_eq!(
        line(Opcode::Call3 { dst: A, fun, arg0: B, arg1: C, arg2: A }),
        "reg0 = std/log@1(reg1, reg2, reg0)"
    );
    assert_eq!(
        line(Opcode::Call4 { dst: A, fun, arg0: B, arg1: C, arg2: A, arg3: B }),
        "reg0 = std/log@1(reg1, reg2,reg0, reg1)"
    );
    assert_eq!(
        line(Opcode::CallN { dst: A, fun: RefFun(0), args: vec![B, C] }),
        "reg0 = move@0(reg1, reg2)"
    );
    assert_eq!(
        line(Opcode::CallMethod { dst: B, field: RefField(0), args: vec![A, C] }),
        "reg1 = reg0.x(reg2)"
    );
    assert_eq!(
        line(Opcode::CallThis { dst: B, field: RefField(3), args: vec![C] }),
        "reg1 = reg0.field3(reg2)"
    );
    assert_eq!(
        line(Opcode::CallClosure { dst: A, fun: B, args: vec![] }),
        "reg0 = reg1()"
    );
    assert_eq!(
        line(Opcode::StaticClosure { dst: A, fun: RefFun(0) }),
        "reg0 = fn move@0 () -> (void)@2"
    );
    assert_eq!(
        line(Opcode::InstanceClosure { dst: A, fun, obj: B }),
        "reg0 = reg1.fn:native std/log@1 () -> (void)@2"
    );
    assert!(refused(Opcode::Call0 { dst: A, fun: RefFun(2) }));
    assert!(refused(Opcode::StaticClosure { dst: A, fun: RefFun(2) }));
    assert!(refused(Opcode::CallMethod { dst: B, field: RefField(0), args: vec![] }));
    assert!(check_header(&module(), RefFun(1)));
    assert!(!check_header(&module(), RefFun(2)));
}

#[test]
fn text_of_accesses() {
    let field = RefField(0);
    assert_eq!(line(Opcode::GetGlobal { dst: A, global: RefGlobal(7) }), "reg0 = global@7");
    assert_eq!(line(Opcode::SetGlobal { global: RefGlobal(7), src: A }), "global@7 = reg0");
    assert_eq!(line(Opcode::Field { dst: B, obj: A, field }), "reg1 = reg0.x");
    assert_eq!(line(Opcode::SetField { obj: A, field, src: B }), "reg0.x = reg1");
    assert_eq!(line(Opcode::GetThis { dst: B, field }), "reg1 = this.x");
    assert_eq!(line(Opcode::SetThis { field, src: B }), "this.x = reg1");
    assert_eq!(
        line(Opcode::DynGet { dst: B, obj: A, field: RefString(2) }),
        "reg1 = reg0[\"x\"]"
    );
    assert_eq!(
        line(Opcode::DynSet { obj: A, field: RefString(2), src: B }),
        "reg0[\"x\"] = reg1"
    );
    assert_eq!(line(Opcode::GetArray { dst: A, array: B, index: C }), "reg0 = reg1[reg2]");
    assert_eq!(line(Opcode::SetArray { array: B, index: C, src: A }), "reg1[reg2] = reg0");
    assert_eq!(line(Opcode::ArraySize { dst: A, array: B }), "reg0 = reg1.length");
    assert_eq!(line(Opcode::New { dst: A }), "reg0 = new Point@3");
    assert_eq!(line(Opcode::Type { dst: A, ty: RefType(2) }), "reg0 = () -> (void)@2");
    assert!(refused(Opcode::Field { dst: B, obj: Reg(3), field }));
    assert!(refused(Opcode::New { dst: Reg(3) }));
    assert!(refused(Opcode::Type { dst: A, ty: RefType(5) }));
}

#[test]
fn text_of_jumps() {
    assert_eq!(line(Opcode::JTrue { cond: A, offset: 2 }), "if reg0 == true jump to 13");
    assert_eq!(line(Opcode::JFalse { cond: A, offset: -2 }), "if reg0 == false jump to 9");
    assert_eq!(line(Opcode::JNull { reg: A, offset: 0 }), "if reg0 == null jump to 11");
    assert_eq!(line(Opcode::JNotNull { reg: A, offset: 0 }), "if reg0 != null jump to 11");
    assert_eq!(line(Opcode::JSLt { a: A, b: B, offset: 0 }), "if reg0 < reg1 jump to 11");
    assert_eq!(line(Opcode::JSGte { a: A, b: B, offset: 0 }), "if reg0 >= reg1 jump to 11");
    assert_eq!(line(Opcode::JSGt { a: A, b: B, offset: 0 }), "if reg0 > reg1 jump to 11");
    assert_eq!(line(Opcode::JSLte { a: A, b: B, offset: 0 }), "if reg0 <= reg1 jump to 11");
    assert_eq!(line(Opcode::JULt { a: A, b: B, offset: 0 }), "if reg0 < reg1 jump to 11");
    assert_eq!(line(Opcode::JUGte { a: A, b: B, offset: 0 }), "if reg0 >= reg1 jump to 11");
    assert_eq!(line(Opcode::JNotLt { a: A, b: B, offset: 0 }), "if reg0 !< reg1 jump to 11");
    assert_eq!(line(Opcode::JNotGte { a: A, b: B, offset: 0 }), "if reg0 !>= reg1 jump to 11");
    assert_eq!(line(Opcode::JEq { a: A, b: B, offset: 0 }), "if reg0 == reg1 jump to 11");
    assert_eq!(line(Opcode::JNotEq { a: A, b: B, offset: 0 }), "if reg0 != reg1 jump to 11");
    assert_eq!(line(Opcode::JAlways { offset: -12 }), "jump to -1");
    assert_eq!(line(Opcode::Trap { exc: A, offset: 5 }), "try reg0 jump to 16");
    assert_eq!(line(Opcode::EndTrap { exc: true }), "catch true");
    assert_eq!(line(Opcode::Ret { ret: C }), "reg2");
    assert_eq!(line(Opcode::Throw { exc: C }), "throw reg2");
    assert_eq!(line(Opcode::Rethrow { exc: C }), "rethrow reg2");
    assert_eq!(line(Opcode::NullCheck { reg: C }), "if reg2 == null throw exc");
    assert!(refused(Opcode::JAlways { offset: i32::MAX }));
    assert!(target_fits(10, i32::MAX - 11));
    assert!(!target_fits(10, i32::MAX - 10));
    assert!(target_fits(-10, i32::MIN + 9));
    assert!(!target_fits(-10, i32::MIN + 8));
}

#[test]
fn text_of_enums() {
    let construct = RefEnumConstruct(0);
    assert_eq!(
        line(Opcode::MakeEnum { dst: C, construct, args: vec![A, B] }),
        "reg2 = variant Red (reg0, reg1)"
    );
    assert_eq!(line(Opcode::EnumAlloc { dst: C, construct }), "reg2 = new Red");
    assert_eq!(line(Opcode::EnumAlloc { dst: A, construct }), "reg0 = new _");
    assert_eq!(line(Opcode::EnumIndex { dst: A, value: C }), "reg0 = variant of reg2");
    assert_eq!(
        line(Opcode::EnumField { dst: C, value: A, construct, field: RefField(1) }),
        "reg2 = (reg0 as Red).1"
    );
    assert_eq!(
        line(Opcode::SetEnumField { value: C, field: RefField(1), src: A }),
        "reg2.1 = reg0"
    );
    assert!(refused(Opcode::EnumAlloc { dst: C, construct: RefEnumConstruct(1) }));
    assert!(refused(Opcode::EnumAlloc { dst: Reg(3), construct }));
}

#[test]
fn instructions_without_a_text_of_their_own() {
    assert_eq!(text(Opcode::Float { dst: A, ptr: RefFloat(0) }), None);
    assert_eq!(text(Opcode::Label), None);
    assert_eq!(text(Opcode::Nop), None);
    assert_eq!(text(Opcode::ToSFloat { dst: A, src: B }), None);
    assert_eq!(text(Opcode::Switch { reg: A, offsets: vec![], end: 0 }), None);
    assert_eq!(text(Opcode::GetMem { dst: A, bytes: B, index: C }), None);
    let code = module();
    assert_eq!(Opcode::Nop.display(&code, &code.functions[0], 0, 11), None);
}

#[test]
fn line_has_the_name_in_a_column() {
    let code = module();
    let f = &code.functions[0];
    assert_eq!(
        Opcode::Mov { dst: A, src: B }.display(&code, f, 0, 11),
        Some("Mov         reg0 = reg1".to_string())
    );
    assert_eq!(
        Opcode::InstanceClosure { dst: A, fun: RefFun(0), obj: B }.display(&code, f, 0, 11),
        Some("InstanceClosure reg0 = reg1.fn move@0 () -> (void)@2".to_string())
    );
    assert_eq!(
        Opcode::Ret { ret: A }.display(&code, f, 0, 0),
        Some("Ret reg0".to_string())
    );
}

fn listed(ops: Vec<Opcode>, debug: Option<Vec<(usize, usize)>>) -> (Bytecode, Function) {
    let mut code = module();
    code.debug_files = Some(vec!["Main.hx".to_string(), "a/very/long/path/Shape.hx".to_string()]);
    let mut f = code.functions[0].clone();
    f.ops = ops;
    f.debug_info = debug;
    code.functions[0] = f.clone();
    (code, f)
}

#[test]
fn text_is_padded_at_its_start() {
    assert_eq!(pad_start("ab", 5), "   ab");
    assert_eq!(pad_start("abcde", 5), "abcde");
    assert_eq!(pad_start("abcdef", 5), "abcdef");
    assert_eq!(pad_start("", 2), "  ");
    assert_eq!(pad_start("é", 3), format!("{:>3}", "é"));
}

#[test]
fn listing_of_a_function_without_debug_information() {
    let ops = vec![Opcode::Mov { dst: A, src: B }, Opcode::Ret { ret: C }];
    let (code, f) = listed(ops, None);
    assert!(f.check_display(&code));
    assert_eq!(f.shown_ops(), 2);
    let expected = "fn move@0 () -> (void)@2 (3 regs, 2 ops)\n\
                    \x20   reg0  Point@3\n\
                    \x20   reg1  i32@1\n\
                    \x20   reg2  enum<Color>@4\n\
                    \x20 0: Mov         reg0 = reg1\n\
                    \x20 1: Ret         reg2\n";
    assert_eq!(f.display(&code), Some(expected.to_string()));
}

#[test]
fn listing_of_a_function_with_debug_information() {
    let ops = vec![
        Opcode::Mov { dst: A, src: B },
        Opcode::JAlways { offset: -2 },
        Opcode::Ret { ret: C },
    ];
    let (code, f) = listed(ops, Some(vec![(0, 7), (1, 1234)]));
    assert!(f.check_display(&code));
    assert_eq!(f.shown_ops(), 2);
    let expected = "fn move@0 () -> (void)@2 (3 regs, 3 ops)\n\
                    \x20   reg0  Point@3\n\
                    \x20   reg1  i32@1\n\
                    \x20   reg2  enum<Color>@4\n\
                    \x20    Main.hx:7     0: Mov         reg0 = reg1\n\
                    a/very/long/path/Shape.hx:1234   1: JAlways     jump to 0\n";
    assert_eq!(f.display(&code), Some(expected.to_string()));
    let by_std = format!(
        "{:>12}:{:<3} {:>3}: {:<11} {}\n",
        "Main.hx", 7, 0, "Mov", "reg0 = reg1"
    );
    assert!(f.display(&code).unwrap().contains(&by_std));
}

#[test]
fn listing_numbers_each_register_in_its_column() {
    let (mut code, mut f) = listed(vec![], None);
    f.regs = vec![RefType(1); 11];
    code.functions[0] = f.clone();
    let text = f.display(&code).unwrap();
    assert!(text.starts_with("fn move@0 () -> (void)@2 (11 regs, 0 ops)\n    reg0  i32@1\n"));
    assert!(text.ends_with("    reg9  i32@1\n    reg10 i32@1\n"));
    assert_eq!(text.lines().count(), 12);
}

#[test]
fn listing_without_a_text_for_an_instruction() {
    let ops = vec![Opcode::Mov { dst: A, src: B }, Opcode::Nop, Opcode::Ret { ret: C }];
    let (code, f) = listed(ops.clone(), None);
    assert!(f.check_display(&code));
    assert_eq!(f.display(&code), None);
    let (code, f) = listed(ops, Some(vec![(0, 1)]));
    assert_eq!(f.shown_ops(), 1);
    assert!(f.display(&code).is_some());
    let (code, f) = listed(vec![Opcode::Float { dst: A, ptr: RefFloat(0) }], None);
    assert_eq!(f.display(&code), None);
}

#[test]
fn listing_that_cannot_be_written_is_found() {
    let ops = vec![Opcode::Mov { dst: A, src: B }];
    let (code, f) = listed(ops.clone(), Some(vec![(2, 1)]));
    assert!(!f.check_display(&code));
    let (mut code, f) = listed(ops.clone(), Some(vec![(0, 1)]));
    code.debug_files = None;
    assert!(!f.check_display(&code));
    let (code, f) = listed(vec![Opcode::Int { dst: A, ptr: RefInt(9) }], None);
    assert!(!f.check_display(&code));
    let (code, mut f) = listed(ops.clone(), None);
    f.regs.push(RefType(99));
    assert!(!f.check_display(&code));
    let (code, mut f) = listed(ops.clone(), None);
    f.t = RefType(99);
    assert!(!f.check_display(&code));
    let (code, mut f) = listed(ops, None);
    f.name = Some(RefString(99));
    assert!(!f.check_display(&code));
}
