//! What the decompiler asks of a function and of the bytecode around it: that every index
//! an instruction is resolved through lies inside its pool, and that every jump forward
//! leads inside the function. It asks this of the function that it decompiles and of the
//! functions that the closures of that function hold, and of no other.

use crate::model::closure_body_of;
use crate::opcodes::Opcode;
use crate::types::{
    Bytecode, Function, FunPtr, RefField, RefFun, RefFunKnown, RefGlobal, RefString, RefType, Reg,
    Type,
};
use vstd::prelude::*;

verus! {

broadcast use vstd::std_specs::hash::group_hash_axioms;

/// The type index of strings, by convention of the compiler.
pub const STRING_TYPE: usize = 13;

/// The register is one of the function.
pub open spec fn reg_ok(f: &Function, r: Reg) -> bool {
    r.0 < f.regs@.len()
}

/// The register is one of the function and its type one of the type table.
pub open spec fn typed_reg(code: &Bytecode, f: &Function, r: Reg) -> bool {
    r.0 < f.regs@.len() && f.regs@[r.0 as int].0 < code.types@.len()
}

/// The type of a register.
pub open spec fn reg_type<'a>(code: &'a Bytecode, f: &Function, r: Reg) -> &'a Type {
    &code.types@[f.regs@[r.0 as int].0 as int]
}

/// The instruction that a jump at `i` leads to.
pub open spec fn jump_target(i: int, offset: i32) -> int {
    i + offset + 1
}

/// A jump forward leads to an instruction of the function, or just behind the last. A jump
/// backward may lead anywhere.
pub open spec fn forward_ok(f: &Function, i: int, offset: i32) -> bool {
    offset >= 0 ==> jump_target(i, offset) <= f.ops@.len()
}

/// The string lies in the pool.
pub open spec fn string_ok(code: &Bytecode, s: RefString) -> bool {
    s.0 < code.strings@.len()
}

/// The register has a type, and the name of the field in that type can be looked up.
pub open spec fn field_ok(code: &Bytecode, f: &Function, obj: Reg, field: RefField) -> bool {
    typed_reg(code, f, obj) && field.display_valid(reg_type(code, f, obj), code)
}

/// The findex names a function or native whose identifier can be written and whose type is
/// a function type.
pub open spec fn callee_ok(code: &Bytecode, fun: RefFun) -> bool {
    &&& fun.valid(code)
    &&& fun.spec_resolve(code).display_valid(code)
    &&& fun.spec_ty(code) is Some
    &&& fun.spec_fn(code) matches Some(g) ==> g.spec_is_method() ==> g.name is Some
}

/// The findex names a function, not a native, whose identifier can be written.
pub open spec fn closure_ok(code: &Bytecode, fun: RefFun) -> bool {
    &&& fun.valid(code)
    &&& fun.spec_resolve(code).display_valid(code)
    &&& fun.spec_fn(code) is Some
}

/// The function bound to a method is known, and has a function type where it is no native.
pub open spec fn bound_ok(code: &Bytecode, fun: RefFun) -> bool {
    &&& fun.valid(code)
    &&& fun.spec_fn(code) matches Some(g) ==> g.spec_ty(code) is Some
}

/// The global is initialised by a constant whose first field is a string of the pool.
pub open spec fn string_global_ok(code: &Bytecode, global: RefGlobal) -> bool {
    &&& code.globals_initializers@.contains_key(global.0)
    &&& code.constants matches Some(constants) && {
        let init = code.globals_initializers@[global.0];
        &&& init < constants@.len()
        &&& constants@[init as int].fields@.len() > 0
        &&& constants@[init as int].fields@[0] < code.strings@.len()
    }
}

/// The method `field` of the type of the register `obj` can be looked up, where that type
/// is an object type.
pub open spec fn method_ok(code: &Bytecode, f: &Function, obj: Reg, field: RefField) -> bool {
    reg_type(code, f, obj).spec_type_obj() matches Some(ty) ==> {
        &&& field.0 < ty.protos@.len()
        &&& bound_ok(code, ty.protos@[field.0 as int].findex)
    }
}

/// What the decompiler asks of the instruction at `i`.
pub open spec fn op_wf(code: &Bytecode, f: &Function, i: int) -> bool {
    match f.ops@[i] {
        Opcode::JTrue { offset, .. } => forward_ok(f, i, offset),
        Opcode::JFalse { offset, .. } => forward_ok(f, i, offset),
        Opcode::JNull { offset, .. } => forward_ok(f, i, offset),
        Opcode::JNotNull { offset, .. } => forward_ok(f, i, offset),
        Opcode::JSLt { offset, .. } => forward_ok(f, i, offset),
        Opcode::JSGte { offset, .. } => forward_ok(f, i, offset),
        Opcode::JSGt { offset, .. } => forward_ok(f, i, offset),
        Opcode::JSLte { offset, .. } => forward_ok(f, i, offset),
        Opcode::JULt { offset, .. } => forward_ok(f, i, offset),
        Opcode::JUGte { offset, .. } => forward_ok(f, i, offset),
        Opcode::JEq { offset, .. } => forward_ok(f, i, offset),
        Opcode::JNotEq { offset, .. } => forward_ok(f, i, offset),
        Opcode::JAlways { offset } => forward_ok(f, i, offset),
        Opcode::Switch { offsets, end, .. } => {
            &&& 0 <= end
            &&& forward_ok(f, i, end)
            &&& forall|k: int|
                0 <= k < offsets@.len() ==> 0 <= #[trigger] offsets@[k] && i + offsets@[k]
                    < f.ops@.len()
        },
        Opcode::Trap { offset, .. } => 0 <= offset && forward_ok(f, i, offset),
        Opcode::Ret { ret } => reg_ok(f, ret),
        Opcode::Int { ptr, .. } => ptr.0 < code.ints@.len(),
        Opcode::Float { ptr, .. } => ptr.0 < code.floats@.len(),
        Opcode::String { ptr, .. } => string_ok(code, ptr),
        Opcode::Call0 { fun, .. } => callee_ok(code, fun),
        Opcode::Call1 { fun, .. } => callee_ok(code, fun),
        Opcode::Call2 { fun, .. } => callee_ok(code, fun),
        Opcode::Call3 { fun, .. } => callee_ok(code, fun),
        Opcode::Call4 { fun, .. } => callee_ok(code, fun),
        Opcode::CallN { fun, .. } => callee_ok(code, fun),
        Opcode::CallMethod { field, args, .. } => {
            &&& args@.len() > 0
            &&& field_ok(code, f, args@[0], field)
            &&& method_ok(code, f, args@[0], field)
        },
        Opcode::CallThis { field, .. } => {
            &&& typed_reg(code, f, Reg(0))
            &&& method_ok(code, f, Reg(0), field)
            &&& reg_type(code, f, Reg(0)).spec_type_obj() matches Some(ty) && string_ok(
                code,
                ty.protos@[field.0 as int].name,
            )
        },
        Opcode::CallClosure { fun, .. } => typed_reg(code, f, fun),
        Opcode::StaticClosure { fun, .. } => closure_ok(code, fun),
        Opcode::InstanceClosure { fun, obj, .. } => typed_reg(code, f, obj) && closure_ok(
            code,
            fun,
        ),
        Opcode::GetGlobal { dst, global } => {
            &&& reg_ok(f, dst)
            &&& if f.regs@[dst.0 as int].0 == STRING_TYPE {
                string_global_ok(code, global)
            } else {
                &&& typed_reg(code, f, dst)
                &&& reg_type(code, f, dst).spec_type_obj() matches Some(ty) ==> string_ok(
                    code,
                    ty.name,
                )
            }
        },
        Opcode::Field { obj, field, .. } => field_ok(code, f, obj, field),
        Opcode::SetField { obj, field, .. } => field_ok(code, f, obj, field),
        Opcode::GetThis { field, .. } => field_ok(code, f, Reg(0), field),
        Opcode::SetThis { field, .. } => field_ok(code, f, Reg(0), field),
        Opcode::DynGet { field, .. } => string_ok(code, field),
        Opcode::DynSet { field, .. } => string_ok(code, field),
        Opcode::New { dst } => typed_reg(code, f, dst),
        Opcode::EnumAlloc { dst, .. } => reg_ok(f, dst),
        Opcode::MakeEnum { dst, .. } => reg_ok(f, dst),
        _ => true,
    }
}

impl Function {
    /// The function can be decompiled: its type is a function type, its arguments are no
    /// more than registers can be numbered, its names lie in the string pool, and each
    /// instruction is as the decompiler asks.
    pub open spec fn wf(&self, code: &Bytecode) -> bool {
        &&& self.spec_ty(code) is Some
        &&& self.spec_ty(code).unwrap().args@.len() <= u32::MAX
        &&& self.name matches Some(n) ==> n.0 < code.strings@.len()
        &&& self.assigns_valid(code)
        &&& forall|i: int| 0 <= i < self.ops@.len() ==> #[trigger] op_wf(code, self, i)
    }
}

impl Function {
    /// The function can be decompiled with closures that nest `depth` deep: it is as the
    /// decompiler asks, and so is the function that each of its closures holds, with
    /// closures that nest one less deep. Where `depth` is 0 the decompiler reads the
    /// function of no closure, and nothing is asked of any.
    pub open spec fn wf_within(&self, code: &Bytecode, depth: nat) -> bool
        decreases depth,
    {
        &&& self.wf(code)
        &&& forall|i: int|
            0 <= i < self.ops@.len() ==> match #[trigger] closure_body_of(
                code,
                self,
                self.ops@[i],
            ) {
                Some(fun) => depth > 0 ==> fun.spec_fn(code).unwrap().wf_within(
                    code,
                    (depth - 1) as nat,
                ),
                None => true,
            }
    }
}

impl Bytecode {
    /// Every function of the bytecode is as the decompiler asks.
    pub open spec fn wf(&self) -> bool {
        forall|k: int| 0 <= k < self.functions@.len() ==> (#[trigger] self.functions@[k]).wf(self)
    }
}

/// In a bytecode whose every function is as the decompiler asks, a function that is so can
/// be decompiled with closures that nest any depth.
pub proof fn lemma_wf_within(code: &Bytecode, f: &Function, depth: nat)
    requires
        code.wf(),
        f.wf(code),
    ensures
        f.wf_within(code, depth),
    decreases depth,
{
    assert forall|i: int| 0 <= i < f.ops@.len() implies match #[trigger] closure_body_of(
        code,
        f,
        f.ops@[i],
    ) {
        Some(fun) => depth > 0 ==> fun.spec_fn(code).unwrap().wf_within(code, (depth - 1) as nat),
        None => true,
    } by {
        assert(op_wf(code, f, i));
        match closure_body_of(code, f, f.ops@[i]) {
            Some(fun) => {
                if depth > 0 {
                    // the closure holds a function of the bytecode
                    match code.findexes@[fun.0 as int] {
                        RefFunKnown::Fun(x) => {
                            assert(code.functions@[x as int].wf(code));
                            lemma_wf_within(code, &code.functions@[x as int], (depth - 1) as nat);
                        },
                        RefFunKnown::Native(_) => {},
                    }
                }
            },
            None => {},
        }
    }
}

/// True where the register is one of the function and its type one of the type table.
pub fn check_typed_reg(code: &Bytecode, f: &Function, r: Reg) -> (ok: bool)
    ensures
        ok == typed_reg(code, f, r),
{
    (r.0 as usize) < f.regs.len() && f.regs[r.0 as usize].0 < code.types.len()
}

/// True where the jump, if it leads forward, leads to an instruction of the function or
/// just behind the last.
pub fn check_forward(f: &Function, i: usize, offset: i32) -> (ok: bool)
    requires
        i < f.ops@.len(),
    ensures
        ok == forward_ok(f, i as int, offset),
{
    offset < 0 || (offset as usize) < f.ops.len() - i
}

/// True where the name of the field in the type can be looked up.
pub fn check_field_name(code: &Bytecode, parent: &Type, field: RefField) -> (ok: bool)
    ensures
        ok == field.display_valid(parent, code),
{
    match parent {
        Type::Obj(obj) => field.0 >= obj.fields.len() || obj.fields[field.0].name.0
            < code.strings.len(),
        Type::Struct(obj) => field.0 >= obj.fields.len() || obj.fields[field.0].name.0
            < code.strings.len(),
        Type::Virtual { fields } => field.0 < fields.len() && fields[field.0].name.0
            < code.strings.len(),
        _ => true,
    }
}

/// True where the register has a type and the name of the field in that type can be looked
/// up.
pub fn check_field(code: &Bytecode, f: &Function, obj: Reg, field: RefField) -> (ok: bool)
    ensures
        ok == field_ok(code, f, obj, field),
{
    check_typed_reg(code, f, obj) && check_field_name(
        code,
        &code.types[f.regs[obj.0 as usize].0],
        field,
    )
}

/// True where the findex lies in the table and names an element of its pool.
pub fn check_fun(code: &Bytecode, fun: RefFun) -> (ok: bool)
    ensures
        ok == fun.valid(code),
{
    fun.0 < code.findexes.len() && match code.findexes[fun.0] {
        RefFunKnown::Fun(x) => x < code.functions.len(),
        RefFunKnown::Native(x) => x < code.natives.len(),
    }
}

/// True where the identifier of the function or native can be written.
pub fn check_fun_names(code: &Bytecode, fun: RefFun) -> (ok: bool)
    requires
        fun.valid(code),
    ensures
        ok == fun.spec_resolve(code).display_valid(code),
{
    match fun.resolve(code) {
        FunPtr::Fun(g) => match g.name {
            Some(n) => n.0 < code.strings.len(),
            None => true,
        },
        FunPtr::Native(n) => n.lib.0 < code.strings.len() && n.name.0 < code.strings.len(),
    }
}

/// True where the type lies in the type table and is a function type.
pub fn check_fun_type(code: &Bytecode, t: RefType) -> (ok: bool)
    ensures
        ok == (t.0 < code.types@.len() && code.types@[t.0 as int].spec_type_fun() is Some),
{
    t.0 < code.types.len() && t.resolve_as_fun(code.types.as_slice()).is_some()
}

/// True where the function or native can be called by an instruction.
pub fn check_callee(code: &Bytecode, fun: RefFun) -> (ok: bool)
    ensures
        ok == callee_ok(code, fun),
{
    if !check_fun(code, fun) {
        return false;
    }
    if !check_fun_names(code, fun) {
        return false;
    }
    match fun.resolve(code) {
        FunPtr::Fun(g) => check_fun_type(code, g.t) && (!g.is_method() || g.name.is_some()),
        FunPtr::Native(n) => check_fun_type(code, n.t),
    }
}

/// True where the findex names a function whose identifier can be written.
pub fn check_closure(code: &Bytecode, fun: RefFun) -> (ok: bool)
    ensures
        ok == closure_ok(code, fun),
{
    check_fun(code, fun) && check_fun_names(code, fun) && fun.resolve_as_fn(code).is_some()
}

/// True where the function bound to a method is known, and has a function type where it
/// is no native.
pub fn check_bound(code: &Bytecode, fun: RefFun) -> (ok: bool)
    ensures
        ok == bound_ok(code, fun),
{
    check_fun(code, fun) && match fun.resolve_as_fn(code) {
        Some(g) => check_fun_type(code, g.t),
        None => true,
    }
}

/// True where the global is initialised by a constant whose first field is a string.
pub fn check_string_global(code: &Bytecode, global: RefGlobal) -> (ok: bool)
    ensures
        ok == string_global_ok(code, global),
{
    match code.globals_initializers.get(&global.0) {
        Some(init) => match &code.constants {
            Some(constants) => *init < constants.len() && constants[*init].fields.len() > 0
                && constants[*init].fields[0] < code.strings.len(),
            None => false,
        },
        None => false,
    }
}

/// True where the method of the type of the register can be looked up.
pub fn check_method(code: &Bytecode, f: &Function, obj: Reg, field: RefField) -> (ok: bool)
    requires
        typed_reg(code, f, obj),
    ensures
        ok == method_ok(code, f, obj, field),
{
    match f.regtype(obj).resolve_as_obj(code.types.as_slice()) {
        Some(ty) => field.0 < ty.protos.len() && check_bound(code, ty.protos[field.0].findex),
        None => true,
    }
}

/// True where every case of a switch at `i` starts inside the function.
pub fn check_switch_offsets(f: &Function, i: usize, offsets: &Vec<i32>) -> (ok: bool)
    requires
        i < f.ops@.len(),
    ensures
        ok == forall|k: int|
            0 <= k < offsets@.len() ==> 0 <= #[trigger] offsets@[k] && i + offsets@[k]
                < f.ops@.len(),
{
    let mut k: usize = 0;
    while k < offsets.len()
        invariant
            k <= offsets@.len(),
            i < f.ops@.len(),
            forall|j: int|
                0 <= j < k ==> 0 <= #[trigger] offsets@[j] && i + offsets@[j] < f.ops@.len(),
        decreases offsets.len() - k,
    {
        if offsets[k] < 0 || (offsets[k] as usize) >= f.ops.len() - i {
            return false;
        }
        k += 1;
    }
    true
}

/// True where the instruction at `i` is as the decompiler asks.
pub fn check_op(code: &Bytecode, f: &Function, i: usize) -> (ok: bool)
    requires
        i < f.ops@.len(),
    ensures
        ok == op_wf(code, f, i as int),
{
    match &f.ops[i] {
        Opcode::JTrue { offset, .. } => check_forward(f, i, *offset),
        Opcode::JFalse { offset, .. } => check_forward(f, i, *offset),
        Opcode::JNull { offset, .. } => check_forward(f, i, *offset),
        Opcode::JNotNull { offset, .. } => check_forward(f, i, *offset),
        Opcode::JSLt { offset, .. } => check_forward(f, i, *offset),
        Opcode::JSGte { offset, .. } => check_forward(f, i, *offset),
        Opcode::JSGt { offset, .. } => check_forward(f, i, *offset),
        Opcode::JSLte { offset, .. } => check_forward(f, i, *offset),
        Opcode::JULt { offset, .. } => check_forward(f, i, *offset),
        Opcode::JUGte { offset, .. } => check_forward(f, i, *offset),
        Opcode::JEq { offset, .. } => check_forward(f, i, *offset),
        Opcode::JNotEq { offset, .. } => check_forward(f, i, *offset),
        Opcode::JAlways { offset } => check_forward(f, i, *offset),
        Opcode::Switch { offsets, end, .. } => *end >= 0 && check_forward(f, i, *end)
            && check_switch_offsets(f, i, offsets),
        Opcode::Trap { offset, .. } => *offset >= 0 && check_forward(f, i, *offset),
        Opcode::Ret { ret } => (ret.0 as usize) < f.regs.len(),
        Opcode::Int { ptr, .. } => ptr.0 < code.ints.len(),
        Opcode::Float { ptr, .. } => ptr.0 < code.floats.len(),
        Opcode::String { ptr, .. } => ptr.0 < code.strings.len(),
        Opcode::Call0 { fun, .. } => check_callee(code, *fun),
        Opcode::Call1 { fun, .. } => check_callee(code, *fun),
        Opcode::Call2 { fun, .. } => check_callee(code, *fun),
        Opcode::Call3 { fun, .. } => check_callee(code, *fun),
        Opcode::Call4 { fun, .. } => check_callee(code, *fun),
        Opcode::CallN { fun, .. } => check_callee(code, *fun),
        Opcode::CallMethod { field, args, .. } => args.len() > 0 && check_field(
            code,
            f,
            args[0],
            *field,
        ) && check_method(code, f, args[0], *field),
        Opcode::CallThis { field, .. } => {
            if !check_typed_reg(code, f, Reg(0)) {
                return false;
            }
            if !check_method(code, f, Reg(0), *field) {
                return false;
            }
            match f.regtype(Reg(0)).resolve_as_obj(code.types.as_slice()) {
                Some(ty) => ty.protos[field.0].name.0 < code.strings.len(),
                None => false,
            }
        },
        Opcode::CallClosure { fun, .. } => check_typed_reg(code, f, *fun),
        Opcode::StaticClosure { fun, .. } => check_closure(code, *fun),
        Opcode::InstanceClosure { fun, obj, .. } => check_typed_reg(code, f, *obj)
            && check_closure(code, *fun),
        Opcode::GetGlobal { dst, global } => {
            if (dst.0 as usize) >= f.regs.len() {
                return false;
            }
            if f.regtype(*dst).0 == STRING_TYPE {
                check_string_global(code, *global)
            } else if !check_typed_reg(code, f, *dst) {
                false
            } else {
                match f.regtype(*dst).resolve_as_obj(code.types.as_slice()) {
                    Some(ty) => ty.name.0 < code.strings.len(),
                    None => true,
                }
            }
        },
        Opcode::Field { obj, field, .. } => check_field(code, f, *obj, *field),
        Opcode::SetField { obj, field, .. } => check_field(code, f, *obj, *field),
        Opcode::GetThis { field, .. } => check_field(code, f, Reg(0), *field),
        Opcode::SetThis { field, .. } => check_field(code, f, Reg(0), *field),
        Opcode::DynGet { field, .. } => field.0 < code.strings.len(),
        Opcode::DynSet { field, .. } => field.0 < code.strings.len(),
        Opcode::New { dst } => check_typed_reg(code, f, *dst),
        Opcode::EnumAlloc { dst, .. } => (dst.0 as usize) < f.regs.len(),
        Opcode::MakeEnum { dst, .. } => (dst.0 as usize) < f.regs.len(),
        _ => true,
    }
}

impl Function {
    /// True where every name of the assigns table lies in the string pool.
    pub fn check_assigns(&self, code: &Bytecode) -> (ok: bool)
        ensures
            ok == self.assigns_valid(code),
    {
        match &self.assigns {
            Some(a) => {
                let mut k: usize = 0;
                while k < a.len()
                    invariant
                        k <= a@.len(),
                        self.assigns == Some(*a),
                        forall|j: int| 0 <= j < k ==> (#[trigger] a@[j]).0.0 < code.strings@.len(),
                    decreases a.len() - k,
                {
                    if a[k].0.0 >= code.strings.len() {
                        assert(self.assigns->Some_0@[k as int].0.0 >= code.strings@.len());
                        return false;
                    }
                    k += 1;
                }
                true
            },
            None => true,
        }
    }

    /// True where the function can be decompiled.
    pub fn check(&self, code: &Bytecode) -> (ok: bool)
        ensures
            ok == self.wf(code),
    {
        if !check_fun_type(code, self.t) {
            return false;
        }
        if self.ty(code).args.len() > u32::MAX as usize {
            return false;
        }
        match self.name {
            Some(n) => {
                if n.0 >= code.strings.len() {
                    return false;
                }
            },
            None => {},
        }
        if !self.check_assigns(code) {
            return false;
        }
        let mut i: usize = 0;
        while i < self.ops.len()
            invariant
                i <= self.ops@.len(),
                forall|j: int| 0 <= j < i ==> #[trigger] op_wf(code, self, j),
            decreases self.ops.len() - i,
        {
            if !check_op(code, self, i) {
                return false;
            }
            i += 1;
        }
        true
    }
}

impl Bytecode {
    /// True where every function of the bytecode is as the decompiler asks. Each of them
    /// can then be decompiled, whatever its closures hold.
    pub fn check(&self) -> (ok: bool)
        ensures
            ok == self.wf(),
            ok ==> forall|k: int|
                0 <= k < self.functions@.len() ==> (#[trigger] self.functions@[k]).wf_within(
                    self,
                    self.functions@.len(),
                ),
    {
        let mut k: usize = 0;
        while k < self.functions.len()
            invariant
                k <= self.functions@.len(),
                forall|j: int| 0 <= j < k ==> (#[trigger] self.functions@[j]).wf(self),
            decreases self.functions.len() - k,
        {
            if !self.functions[k].check(self) {
                return false;
            }
            k += 1;
        }
        assert forall|k: int| 0 <= k < self.functions@.len() implies (
        #[trigger] self.functions@[k]).wf_within(self, self.functions@.len()) by {
            lemma_wf_within(self, &self.functions@[k], self.functions@.len());
        }
        true
    }
}

/// The function whose body a closure made by the instruction at `i` holds, where it makes
/// one.
pub fn closure_fun(code: &Bytecode, f: &Function, i: usize) -> (r: Option<RefFun>)
    requires
        i < f.ops@.len(),
        op_wf(code, f, i as int),
    ensures
        r == closure_body_of(code, f, f.ops@[i as int]),
{
    match &f.ops[i] {
        Opcode::StaticClosure { fun, .. } => Some(*fun),
        Opcode::InstanceClosure { fun, obj, .. } => match f.regtype(*obj).resolve(
            code.types.as_slice(),
        ) {
            Type::Enum { .. } => Some(*fun),
            _ => None,
        },
        _ => None,
    }
}

impl Function {
    /// True where the function can be decompiled with closures that nest `depth` deep.
    pub fn check_within(&self, code: &Bytecode, depth: usize) -> (ok: bool)
        ensures
            ok == self.wf_within(code, depth as nat),
        decreases depth,
    {
        if !self.check(code) {
            return false;
        }
        if depth == 0 {
            return true;
        }
        let mut i: usize = 0;
        while i < self.ops.len()
            invariant
                i <= self.ops@.len(),
                depth > 0,
                self.wf(code),
                forall|j: int|
                    0 <= j < i ==> match #[trigger] closure_body_of(code, self, self.ops@[j]) {
                        Some(fun) => fun.spec_fn(code).unwrap().wf_within(
                            code,
                            (depth - 1) as nat,
                        ),
                        None => true,
                    },
            decreases self.ops.len() - i,
        {
            assert(op_wf(code, self, i as int));
            match closure_fun(code, self, i) {
                Some(fun) => {
                    let g = fun.resolve_as_fn(code).unwrap();
                    if !g.check_within(code, depth - 1) {
                        assert(closure_body_of(code, self, self.ops@[i as int]) == Some(fun));
                        return false;
                    }
                },
                None => {},
            }
            i += 1;
        }
        true
    }
}

} // verus!
