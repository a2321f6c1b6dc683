//! The bytecode model: constant pools, types, functions and the references between them.
//!
//! A reference is an index into one pool of a [`Bytecode`]. Resolving one takes the pool and
//! asks, as a precondition, that the index lies inside it.

use crate::opcodes::Opcode;
use std::collections::HashMap;
use vstd::prelude::*;

verus! {

/// A register argument
#[derive(Debug, Copy, Clone, Eq, PartialEq, Structural, Default, Hash)]
pub struct Reg(pub u32);

/// A reference to the i32 constant pool
#[derive(Debug, Copy, Clone, Eq, PartialEq, Structural, Default)]
pub struct RefInt(pub usize);

/// A reference to the f64 constant pool
#[derive(Debug, Copy, Clone, Eq, PartialEq, Structural, Default)]
pub struct RefFloat(pub usize);

/// A reference to the bytes constant pool
#[derive(Debug, Copy, Clone, Eq, PartialEq, Structural, Default)]
pub struct RefBytes(pub usize);

/// Reference to the string constant pool
#[derive(Debug, Copy, Clone, Eq, PartialEq, Structural, Default)]
pub struct RefString(pub usize);

/// An inline bool value
#[derive(Debug, Copy, Clone, Eq, PartialEq, Structural, Default)]
pub struct ValBool(pub bool);

/// A reference to a global
#[derive(Debug, Copy, Clone, Eq, PartialEq, Structural, Default, Hash)]
pub struct RefGlobal(pub usize);

/// Reference to a type in the constant pool
#[derive(Debug, Copy, Clone, Eq, PartialEq, Structural, Default)]
pub struct RefType(pub usize);

/// A reference to an object field
#[derive(Debug, Copy, Clone, Eq, PartialEq, Structural, Hash, Default)]
pub struct RefField(pub usize);

/// A reference to an enum variant
#[derive(Debug, Clone, Copy, PartialEq, Eq, Structural, Default)]
pub struct RefEnumConstruct(pub usize);

/// Index reference to a function or a native in the pool (findex)
#[derive(Debug, Copy, Clone, Eq, PartialEq, Structural, Hash, Default)]
pub struct RefFun(pub usize);

/// An object field definition
#[derive(Debug, Clone, PartialEq, Eq, Default)]
pub struct ObjField {
    /// Field name
    pub name: RefString,
    /// Field type
    pub t: RefType,
}

/// An object method definition
#[derive(Debug, Clone, PartialEq, Eq)]
pub struct ObjProto {
    /// Method name
    pub name: RefString,
    /// Function bound to this method
    pub findex: RefFun,
    /// Slot of the method in the virtual table, negative when it has none
    pub pindex: i32,
}

/// An enum variant definition
#[derive(Debug, Clone, PartialEq, Eq)]
pub struct EnumConstruct {
    /// Variant name, index 0 when it has none
    pub name: RefString,
    /// Variant fields types
    pub params: Vec<RefType>,
}

/// Common type for [Type::Fun] and [Type::Method]
#[derive(Debug, Clone, PartialEq, Eq)]
pub struct TypeFun {
    pub args: Vec<RefType>,
    pub ret: RefType,
}

/// Common type for [Type::Obj] and [Type::Struct]
#[derive(Debug, Clone, PartialEq, Eq)]
pub struct TypeObj {
    pub name: RefString,
    pub super_: Option<RefType>,
    pub global: RefGlobal,
    /// Fields defined in this type
    pub own_fields: Vec<ObjField>,
    /// Methods in this class
    pub protos: Vec<ObjProto>,
    /// Functions bound to class fields, each field once. The methods of the class come out
    /// in the order of this list.
    pub bindings: Vec<(RefField, RefFun)>,
    /// Fields including parents in the hierarchy
    pub fields: Vec<ObjField>,
}

/// Type available in the hashlink type system. Every type is one of those.
#[derive(Debug, Clone, PartialEq, Eq)]
pub enum Type {
    Void,
    UI8,
    UI16,
    I32,
    I64,
    F32,
    F64,
    Bool,
    Bytes,
    Dyn,
    Fun(TypeFun),
    Obj(TypeObj),
    Array,
    Type,
    Ref(RefType),
    Virtual { fields: Vec<ObjField> },
    DynObj,
    Abstract { name: RefString },
    Enum { name: RefString, global: RefGlobal, constructs: Vec<EnumConstruct> },
    Null(RefType),
    Method(TypeFun),
    Struct(TypeObj),
    Packed(RefType),
}

/// A native function reference. Contains no code but indicates the library from where to load it.
#[derive(Debug, Clone)]
pub struct Native {
    /// Native function name
    pub name: RefString,
    /// Native lib name
    pub lib: RefString,
    pub t: RefType,
    pub findex: RefFun,
}

/// A function definition with its code.
#[derive(Debug, Clone)]
pub struct Function {
    pub name: Option<RefString>,
    pub t: RefType,
    pub findex: RefFun,
    /// The types of the registers used by this function
    pub regs: Vec<RefType>,
    /// Instructions
    pub ops: Vec<Opcode>,
    /// *Debug* File and line information for each instruction
    pub debug_info: Option<Vec<(usize, usize)>>,
    /// *Debug* Information about some variables names for some instructions
    pub assigns: Option<Vec<(RefString, usize)>>,
    /// Parent type (Obj/Struct) this function is a member of.
    /// This does not mean it's a method
    pub parent: Option<RefType>,
}

/// Index reference to either a function or a native.
#[derive(Debug, Copy, Clone)]
pub enum RefFunKnown {
    Fun(usize),
    Native(usize),
}

/// Reference to a function or a native object
#[derive(Debug, Copy, Clone)]
pub enum FunPtr<'a> {
    Fun(&'a Function),
    Native(&'a Native),
}

/// A constant definition
#[derive(Debug, Clone)]
pub struct ConstantDef {
    pub global: RefGlobal,
    pub fields: Vec<usize>,
}

/// A bytecode module: the pools that every reference points into.
#[derive(Debug, Clone)]
pub struct Bytecode {
    /// Bytecode format version
    pub version: u8,
    /// Function run at startup
    pub entrypoint: RefFun,
    /// i32 constant pool
    pub ints: Vec<i32>,
    /// f64 constant pool, each constant as the bits of its IEEE 754 encoding
    pub floats: Vec<u64>,
    /// String constant pool
    pub strings: Vec<String>,
    /// *Debug* file names
    pub debug_files: Option<Vec<String>>,
    /// Types, known as the type table
    pub types: Vec<Type>,
    /// Types of the globals
    pub globals: Vec<RefType>,
    /// Native functions
    pub natives: Vec<Native>,
    /// Functions with their code
    pub functions: Vec<Function>,
    /// Constant definitions, the initial values of some globals
    pub constants: Option<Vec<ConstantDef>>,
    /// For each findex, where the function or native it names is
    pub findexes: Vec<RefFunKnown>,
    /// For a global index, the index of the constant that initialises it
    pub globals_initializers: HashMap<usize, usize>,
}

impl RefInt {
    /// The constant this reference points to.
    pub fn resolve(&self, ints: &[i32]) -> (r: i32)
        requires
            self.0 < ints@.len(),
        ensures
            r == ints@[self.0 as int],
    {
        ints[self.0]
    }
}

impl RefFloat {
    /// The bits of the constant this reference points to.
    pub fn resolve(&self, floats: &[u64]) -> (r: u64)
        requires
            self.0 < floats@.len(),
        ensures
            r == floats@[self.0 as int],
    {
        floats[self.0]
    }
}

impl RefString {
    /// The string this reference points to.
    pub fn resolve<'a>(&self, strings: &'a [String]) -> (r: &'a str)
        requires
            self.0 < strings@.len(),
        ensures
            r@ == strings@[self.0 as int]@,
    {
        strings[self.0].as_str()
    }
}

impl Type {
    /// The object definition of an `Obj` or a `Struct`.
    pub open spec fn spec_type_obj(&self) -> Option<&TypeObj> {
        match self {
            Type::Obj(obj) => Some(obj),
            Type::Struct(obj) => Some(obj),
            _ => None,
        }
    }

    /// The signature of a `Fun` or a `Method`.
    pub open spec fn spec_type_fun(&self) -> Option<&TypeFun> {
        match self {
            Type::Fun(fun) => Some(fun),
            Type::Method(fun) => Some(fun),
            _ => None,
        }
    }

    pub fn get_type_obj(&self) -> (r: Option<&TypeObj>)
        ensures
            r == self.spec_type_obj(),
    {
        match self {
            Type::Obj(obj) => Some(obj),
            Type::Struct(obj) => Some(obj),
            _ => None,
        }
    }

    pub fn get_type_obj_mut(&mut self) -> (r: Option<&mut TypeObj>)
        ensures
            match r {
                Some(obj) => old(self).spec_type_obj() == Some(&*obj) && (match *old(self) {
                    Type::Obj(_) => *final(self) == Type::Obj(*final(obj)),
                    _ => *final(self) == Type::Struct(*final(obj)),
                }),
                None => old(self).spec_type_obj() is None && *final(self) == *old(self),
            },
    {
        match self {
            Type::Obj(obj) => Some(obj),
            Type::Struct(obj) => Some(obj),
            _ => None,
        }
    }

    pub fn get_type_fun(&self) -> (r: Option<&TypeFun>)
        ensures
            r == self.spec_type_fun(),
    {
        match self {
            Type::Fun(fun) => Some(fun),
            Type::Method(fun) => Some(fun),
            _ => None,
        }
    }
}

impl RefType {
    /// The type this reference points to.
    pub fn resolve<'a>(&self, types: &'a [Type]) -> (r: &'a Type)
        requires
            self.0 < types@.len(),
        ensures
            *r == types@[self.0 as int],
    {
        &types[self.0]
    }

    /// The void type is the first of the type table.
    pub fn is_void(&self) -> (r: bool)
        ensures
            r == (self.0 == 0),
    {
        self.0 == 0
    }

    pub fn resolve_as_fun<'a>(&self, types: &'a [Type]) -> (r: Option<&'a TypeFun>)
        requires
            self.0 < types@.len(),
        ensures
            r == types@[self.0 as int].spec_type_fun(),
    {
        match self.resolve(types) {
            Type::Fun(fun) => Some(fun),
            Type::Method(fun) => Some(fun),
            _ => None,
        }
    }

    pub fn resolve_as_obj<'a>(&self, types: &'a [Type]) -> (r: Option<&'a TypeObj>)
        requires
            self.0 < types@.len(),
        ensures
            r == types@[self.0 as int].spec_type_obj(),
    {
        self.resolve(types).get_type_obj()
    }

    /// The definition of a field of the object type this reference points to, `None` when it
    /// points to another kind of type.
    pub fn field<'a>(&self, field: RefField, code: &'a Bytecode) -> (r: Option<&'a ObjField>)
        requires
            self.0 < code.types@.len(),
            code.types@[self.0 as int].spec_type_obj() matches Some(obj) ==> field.0
                < obj.fields@.len(),
        ensures
            r == match code.types@[self.0 as int].spec_type_obj() {
                Some(obj) => Some(&obj.fields@[field.0 as int]),
                None => None,
            },
    {
        match self.resolve_as_obj(code.types.as_slice()) {
            Some(obj) => Some(&obj.fields[field.0]),
            None => None,
        }
    }

    /// The definition of a method of the object type this reference points to, `None` when it
    /// points to another kind of type.
    pub fn method<'a>(&self, meth: usize, code: &'a Bytecode) -> (r: Option<&'a ObjProto>)
        requires
            self.0 < code.types@.len(),
            code.types@[self.0 as int].spec_type_obj() matches Some(obj) ==> meth
                < obj.protos@.len(),
        ensures
            r == match code.types@[self.0 as int].spec_type_obj() {
                Some(obj) => Some(&obj.protos@[meth as int]),
                None => None,
            },
    {
        match self.resolve_as_obj(code.types.as_slice()) {
            Some(obj) => Some(&obj.protos[meth]),
            None => None,
        }
    }
}

impl TypeObj {
    /// The type that holds the static part of this class: the type of the global of this
    /// class, where it is an object type. Global 0 stands for no global.
    pub open spec fn spec_static_type<'a>(&self, ctx: &'a Bytecode) -> Option<&'a TypeObj> {
        if self.global.0 > 0 {
            ctx.types@[ctx.globals@[self.global.0 - 1].0 as int].spec_type_obj()
        } else {
            None
        }
    }

    /// Get the static part of this class
    pub fn get_static_type<'a>(&self, ctx: &'a Bytecode) -> (r: Option<&'a TypeObj>)
        requires
            self.global.0 > 0 ==> {
                &&& self.global.0 - 1 < ctx.globals@.len()
                &&& ctx.globals@[self.global.0 - 1].0 < ctx.types@.len()
            },
        ensures
            r == self.spec_static_type(ctx),
    {
        if self.global.0 > 0 {
            ctx.globals[self.global.0 - 1].resolve_as_obj(ctx.types.as_slice())
        } else {
            None
        }
    }
}

impl Native {
    /// The signature of this native, where its type is a function type.
    pub open spec fn spec_ty<'a>(&self, code: &'a Bytecode) -> Option<&'a TypeFun> {
        if self.t.0 < code.types@.len() {
            code.types@[self.t.0 as int].spec_type_fun()
        } else {
            None
        }
    }

    pub fn name<'a>(&self, code: &'a Bytecode) -> (r: &'a str)
        requires
            self.name.0 < code.strings@.len(),
        ensures
            r@ == code.strings@[self.name.0 as int]@,
    {
        self.name.resolve(code.strings.as_slice())
    }

    /// Get the native function signature type
    pub fn ty<'a>(&self, code: &'a Bytecode) -> (r: &'a TypeFun)
        requires
            self.spec_ty(code) is Some,
        ensures
            Some(r) == self.spec_ty(code),
    {
        self.t.resolve_as_fun(code.types.as_slice()).unwrap()
    }

    pub fn args<'a>(&self, code: &'a Bytecode) -> (r: &'a [RefType])
        requires
            self.spec_ty(code) is Some,
        ensures
            r@ == self.spec_ty(code).unwrap().args@,
    {
        self.ty(code).args.as_slice()
    }

    pub fn ret<'a>(&self, code: &'a Bytecode) -> (r: &'a Type)
        requires
            self.spec_ty(code) matches Some(ty) && ty.ret.0 < code.types@.len(),
        ensures
            *r == code.types@[self.spec_ty(code).unwrap().ret.0 as int],
    {
        self.ty(code).ret.resolve(code.types.as_slice())
    }
}

/// Index of the first assignment recorded for the instruction position `target - 1`, looking
/// from index `from` on.
pub open spec fn find_assign(a: Seq<(RefString, usize)>, target: int, from: int) -> Option<int>
    decreases a.len() - from,
{
    if from < 0 || from >= a.len() {
        None
    } else if a[from].1 == target {
        Some(from)
    } else {
        find_assign(a, target, from + 1)
    }
}

/// The assignments that name the arguments: those recorded before the first instruction.
pub open spec fn arg_assigns(a: Seq<(RefString, usize)>) -> Seq<(RefString, usize)> {
    a.filter(|e: (RefString, usize)| e.1 == 0)
}

impl Function {
    /// The signature of this function, where its type is a function type.
    pub open spec fn spec_ty<'a>(&self, code: &'a Bytecode) -> Option<&'a TypeFun> {
        if self.t.0 < code.types@.len() {
            code.types@[self.t.0 as int].spec_type_fun()
        } else {
            None
        }
    }

    /// The name of this function, where it has one.
    pub open spec fn spec_name(&self, code: &Bytecode) -> Option<Seq<char>> {
        match self.name {
            Some(n) => Some(code.strings@[n.0 as int]@),
            None => None,
        }
    }

    /// The name of this function, `_` where it has none.
    pub open spec fn spec_name_default(&self, code: &Bytecode) -> Seq<char> {
        match self.name {
            Some(n) => code.strings@[n.0 as int]@,
            None => "_"@,
        }
    }

    /// Every name of the assigns table lies in the string pool.
    pub open spec fn assigns_valid(&self, code: &Bytecode) -> bool {
        self.assigns matches Some(a) ==> forall|k: int|
            0 <= k < a@.len() ==> (#[trigger] a@[k]).0.0 < code.strings@.len()
    }

    /// The name of the argument `pos`: that of the assignment `pos` among those recorded
    /// before the first instruction.
    pub open spec fn spec_arg_name(&self, code: &Bytecode, pos: int) -> Option<Seq<char>> {
        match self.assigns {
            Some(a) => if 0 <= pos < arg_assigns(a@).len() {
                Some(code.strings@[arg_assigns(a@)[pos].0.0 as int]@)
            } else {
                None
            },
            None => None,
        }
    }

    /// The name of the variable that the instruction at `pos` assigns: that of the first
    /// assignment recorded for `pos + 1`.
    pub open spec fn spec_var_name(&self, code: &Bytecode, pos: int) -> Option<Seq<char>> {
        match self.assigns {
            Some(a) => match find_assign(a@, pos + 1, 0) {
                Some(k) => Some(code.strings@[a@[k].0.0 as int]@),
                None => None,
            },
            None => None,
        }
    }

    /// A function is a method if the first register has the type of the parent.
    pub open spec fn spec_is_method(&self) -> bool {
        match self.parent {
            Some(parent) => self.regs@.len() > 0 && self.regs@[0] == parent,
            None => false,
        }
    }

    /// Get the type of a register
    pub fn regtype(&self, reg: Reg) -> (r: RefType)
        requires
            reg.0 < self.regs@.len(),
        ensures
            r == self.regs@[reg.0 as int],
    {
        self.regs[reg.0 as usize]
    }

    /// Convenience method to resolve the function name
    pub fn name<'a>(&self, code: &'a Bytecode) -> (r: Option<&'a str>)
        requires
            self.name matches Some(n) ==> n.0 < code.strings@.len(),
        ensures
            r matches Some(s) ==> self.spec_name(code) == Some(s@),
            r is None ==> self.spec_name(code) is None,
    {
        match self.name {
            Some(n) => Some(n.resolve(code.strings.as_slice())),
            None => None,
        }
    }

    /// Convenience method to get the function name or "_"
    pub fn name_default<'a>(&self, code: &'a Bytecode) -> (r: &'a str)
        requires
            self.name matches Some(n) ==> n.0 < code.strings@.len(),
        ensures
            r@ == self.spec_name_default(code),
    {
        match self.name(code) {
            Some(s) => s,
            None => "_",
        }
    }

    /// Get the function signature type
    pub fn ty<'a>(&self, code: &'a Bytecode) -> (r: &'a TypeFun)
        requires
            self.spec_ty(code) is Some,
        ensures
            Some(r) == self.spec_ty(code),
    {
        self.t.resolve_as_fun(code.types.as_slice()).unwrap()
    }

    /// Convenience method to resolve the function args
    pub fn args<'a>(&self, code: &'a Bytecode) -> (r: &'a [RefType])
        requires
            self.spec_ty(code) is Some,
        ensures
            r@ == self.spec_ty(code).unwrap().args@,
    {
        self.ty(code).args.as_slice()
    }

    /// Convenience method to resolve the function return type
    pub fn ret<'a>(&self, code: &'a Bytecode) -> (r: &'a Type)
        requires
            self.spec_ty(code) matches Some(ty) && ty.ret.0 < code.types@.len(),
        ensures
            *r == code.types@[self.spec_ty(code).unwrap().ret.0 as int],
    {
        self.ty(code).ret.resolve(code.types.as_slice())
    }

    /// Uses the assigns to find the name of an argument
    pub fn arg_name<'a>(&self, code: &'a Bytecode, pos: usize) -> (r: Option<&'a str>)
        requires
            self.assigns_valid(code),
        ensures
            r matches Some(s) ==> self.spec_arg_name(code, pos as int) == Some(s@),
            r is None ==> self.spec_arg_name(code, pos as int) is None,
    {
        match &self.assigns {
            Some(a) => {
                let ghost pred = |e: (RefString, usize)| e.1 == 0;
                let mut seen: usize = 0;
                let mut k: usize = 0;
                while k < a.len()
                    invariant
                        k <= a.len(),
                        seen <= pos,
                        seen <= k,
                        a@.take(k as int).filter(pred).len() == seen,
                        pred == |e: (RefString, usize)| e.1 == 0,
                        self.assigns_valid(code),
                        self.assigns == Some(*a),
                    decreases a.len() - k,
                {
                    proof {
                        let next = a@.take(k + 1);
                        assert(next.drop_last() =~= a@.take(k as int));
                        reveal(Seq::filter);
                    }
                    if a[k].1 == 0 {
                        if seen == pos {
                            proof {
                                // the assignment is the last of the prefix that it ends
                                let hits = a@.take(k + 1).filter(pred);
                                assert(hits[pos as int] == a@[k as int]);
                                lemma_filter_prefix(a@, pred, k + 1);
                            }
                            return Some(a[k].0.resolve(code.strings.as_slice()));
                        }
                        seen += 1;
                    }
                    k += 1;
                }
                proof {
                    assert(a@.take(k as int) =~= a@);
                }
                None
            },
            None => None,
        }
    }

    /// Uses the assigns to find the name of a variable
    pub fn var_name(&self, code: &Bytecode, pos: usize) -> (r: Option<String>)
        requires
            self.assigns_valid(code),
        ensures
            r matches Some(s) ==> self.spec_var_name(code, pos as int) == Some(s@),
            r is None ==> self.spec_var_name(code, pos as int) is None,
    {
        match &self.assigns {
            Some(a) => {
                let mut k: usize = 0;
                while k < a.len()
                    invariant
                        k <= a.len(),
                        find_assign(a@, pos + 1, 0) == find_assign(a@, pos + 1, k as int),
                        self.assigns_valid(code),
                        self.assigns == Some(*a),
                    decreases a.len() - k,
                {
                    if pos < usize::MAX && a[k].1 == pos + 1 {
                        return Some(a[k].0.resolve(code.strings.as_slice()).to_owned());
                    }
                    k += 1;
                }
                None
            },
            None => None,
        }
    }

    /// A function is a method if the first argument has the same type as the parent type
    pub fn is_method(&self) -> (r: bool)
        ensures
            r == self.spec_is_method(),
    {
        match self.parent {
            Some(parent) => self.regs.len() > 0 && self.regs[0] == parent,
            None => false,
        }
    }
}

/// The elements of a prefix that satisfy a predicate are a prefix of those of the whole
/// sequence that do.
pub proof fn lemma_filter_prefix<A>(s: Seq<A>, pred: spec_fn(A) -> bool, n: int)
    requires
        0 <= n <= s.len(),
    ensures
        s.take(n).filter(pred).len() <= s.filter(pred).len(),
        forall|j: int|
            0 <= j < s.take(n).filter(pred).len() ==> s.take(n).filter(pred)[j] == s.filter(
                pred,
            )[j],
    decreases s.len() - n,
{
    if n == s.len() {
        assert(s.take(n) =~= s);
    } else {
        lemma_filter_prefix(s, pred, n + 1);
        let next = s.take(n + 1);
        assert(next.drop_last() =~= s.take(n));
        reveal(Seq::filter);
    }
}

impl RefFunKnown {
    /// The index lies inside the pool it names.
    pub open spec fn valid(&self, code: &Bytecode) -> bool {
        match self {
            RefFunKnown::Fun(x) => *x < code.functions@.len(),
            RefFunKnown::Native(x) => *x < code.natives@.len(),
        }
    }

    pub open spec fn spec_resolve<'a>(&self, code: &'a Bytecode) -> FunPtr<'a> {
        match self {
            RefFunKnown::Fun(x) => FunPtr::Fun(&code.functions@[*x as int]),
            RefFunKnown::Native(x) => FunPtr::Native(&code.natives@[*x as int]),
        }
    }

    pub fn resolve<'a>(&self, code: &'a Bytecode) -> (r: FunPtr<'a>)
        requires
            self.valid(code),
        ensures
            r == self.spec_resolve(code),
    {
        match *self {
            RefFunKnown::Fun(x) => FunPtr::Fun(&code.functions[x]),
            RefFunKnown::Native(x) => FunPtr::Native(&code.natives[x]),
        }
    }

    pub fn resolve_as_fn<'a>(&self, code: &'a Bytecode) -> (r: Option<&'a Function>)
        requires
            self.valid(code),
        ensures
            r == self.spec_resolve(code).spec_fun(),
    {
        match *self {
            RefFunKnown::Fun(x) => Some(&code.functions[x]),
            RefFunKnown::Native(_) => None,
        }
    }
}

impl<'a> FunPtr<'a> {
    /// The function, where this is one.
    pub open spec fn spec_fun(&self) -> Option<&'a Function> {
        match self {
            FunPtr::Fun(fun) => Some(*fun),
            FunPtr::Native(_) => None,
        }
    }

    /// The type of the function or native.
    pub open spec fn spec_t(&self) -> RefType {
        match self {
            FunPtr::Fun(fun) => fun.t,
            FunPtr::Native(n) => n.t,
        }
    }

    /// The name of the function or native, where it has one.
    pub open spec fn spec_name(&self, code: &Bytecode) -> Option<Seq<char>> {
        match self {
            FunPtr::Fun(fun) => fun.spec_name(code),
            FunPtr::Native(n) => Some(code.strings@[n.name.0 as int]@),
        }
    }

    /// The name of the function or native lies in the string pool.
    pub open spec fn name_valid(&self, code: &Bytecode) -> bool {
        match self {
            FunPtr::Fun(fun) => fun.name matches Some(n) ==> n.0 < code.strings@.len(),
            FunPtr::Native(n) => n.name.0 < code.strings@.len(),
        }
    }

    pub fn findex(&self) -> (r: RefFun)
        ensures
            r == match self {
                FunPtr::Fun(fun) => fun.findex,
                FunPtr::Native(n) => n.findex,
            },
    {
        match self {
            FunPtr::Fun(fun) => fun.findex,
            FunPtr::Native(n) => n.findex,
        }
    }

    pub fn is_fun(&self) -> (r: bool)
        ensures
            r == (self is Fun),
    {
        match self {
            FunPtr::Fun(_) => true,
            FunPtr::Native(_) => false,
        }
    }

    pub fn is_native(&self) -> (r: bool)
        ensures
            r == (self is Native),
    {
        match self {
            FunPtr::Fun(_) => false,
            FunPtr::Native(_) => true,
        }
    }
}

impl RefFun {
    /// The findex lies in the table and names an element of its pool.
    pub open spec fn valid(&self, code: &Bytecode) -> bool {
        self.0 < code.findexes@.len() && code.findexes@[self.0 as int].valid(code)
    }

    pub open spec fn spec_resolve<'a>(&self, code: &'a Bytecode) -> FunPtr<'a> {
        code.findexes@[self.0 as int].spec_resolve(code)
    }

    /// The function this findex names, `None` where it names a native.
    pub open spec fn spec_fn<'a>(&self, code: &'a Bytecode) -> Option<&'a Function> {
        self.spec_resolve(code).spec_fun()
    }

    /// The signature of the function or native this findex names.
    pub open spec fn spec_ty<'a>(&self, code: &'a Bytecode) -> Option<&'a TypeFun> {
        let t = self.spec_resolve(code).spec_t();
        if t.0 < code.types@.len() {
            code.types@[t.0 as int].spec_type_fun()
        } else {
            None
        }
    }

    /// The name of the function or native, `_` where it has none.
    pub open spec fn spec_name_default(&self, code: &Bytecode) -> Seq<char> {
        match self.spec_resolve(code).spec_name(code) {
            Some(s) => s,
            None => "_"@,
        }
    }

    pub fn resolve<'a>(&self, code: &'a Bytecode) -> (r: FunPtr<'a>)
        requires
            self.valid(code),
        ensures
            r == self.spec_resolve(code),
    {
        code.findexes[self.0].resolve(code)
    }

    /// Useful when you already know you should be getting a Function
    pub fn resolve_as_fn<'a>(&self, code: &'a Bytecode) -> (r: Option<&'a Function>)
        requires
            self.valid(code),
        ensures
            r == self.spec_fn(code),
    {
        code.findexes[self.0].resolve_as_fn(code)
    }

    pub fn name<'a>(&self, code: &'a Bytecode) -> (r: Option<&'a str>)
        requires
            self.valid(code),
            self.spec_resolve(code).name_valid(code),
        ensures
            r matches Some(s) ==> self.spec_resolve(code).spec_name(code) == Some(s@),
            r is None ==> self.spec_resolve(code).spec_name(code) is None,
    {
        match self.resolve(code) {
            FunPtr::Fun(fun) => fun.name(code),
            FunPtr::Native(n) => Some(n.name.resolve(code.strings.as_slice())),
        }
    }

    pub fn name_default<'a>(&self, code: &'a Bytecode) -> (r: &'a str)
        requires
            self.valid(code),
            self.spec_resolve(code).name_valid(code),
        ensures
            r@ == self.spec_name_default(code),
    {
        match self.resolve(code) {
            FunPtr::Fun(fun) => fun.name_default(code),
            FunPtr::Native(n) => n.name(code),
        }
    }

    pub fn ty<'a>(&self, code: &'a Bytecode) -> (r: &'a TypeFun)
        requires
            self.valid(code),
            self.spec_ty(code) is Some,
        ensures
            Some(r) == self.spec_ty(code),
    {
        match self.resolve(code) {
            FunPtr::Fun(fun) => fun.ty(code),
            FunPtr::Native(n) => n.ty(code),
        }
    }

    pub fn args<'a>(&self, code: &'a Bytecode) -> (r: &'a [RefType])
        requires
            self.valid(code),
            self.spec_ty(code) is Some,
        ensures
            r@ == self.spec_ty(code).unwrap().args@,
    {
        self.ty(code).args.as_slice()
    }

    pub fn ret<'a>(&self, code: &'a Bytecode) -> (r: &'a Type)
        requires
            self.valid(code),
            self.spec_ty(code) matches Some(ty) && ty.ret.0 < code.types@.len(),
        ensures
            *r == code.types@[self.spec_ty(code).unwrap().ret.0 as int],
    {
        self.ty(code).ret.resolve(code.types.as_slice())
    }
}

} // verus!
