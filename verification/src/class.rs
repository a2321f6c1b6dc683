//! Decompiling a class: its fields, and every method bound to it.

use crate::ast::{Class, ClassField, ClassFieldV, ClassV, Method, MethodV};
use crate::lifter::decompile_code_noting;
use crate::model::{lift, lift_notes, DecompileError};
use crate::state::Diagnostic;
use crate::types::{Bytecode, RefFun, TypeObj};
use crate::validity::check_fun;
use vstd::prelude::*;

verus! {

/// A method to decompile: its function, and whether it is static and dynamic.
pub struct MethodEntry {
    pub fun: RefFun,
    pub static_: bool,
    pub dynamic: bool,
}

impl TypeObj {
    /// The index, among all the fields of the type, of the first field that the type
    /// itself defines.
    pub open spec fn own_base(&self) -> int {
        self.fields@.len() - self.own_fields@.len()
    }

    /// The field with this index holds a method.
    pub open spec fn is_bound(&self, index: int) -> bool {
        exists|k: int| 0 <= k < self.bindings@.len() && (#[trigger] self.bindings@[k]).0.0 == index
    }

    /// The field `i` among those that the type defines holds no method.
    pub open spec fn is_free(&self, i: int) -> bool {
        !self.is_bound(i + self.own_base())
    }

    /// The field `i` among those that the type defines, as a field of the class.
    pub open spec fn field_entry(&self, code: &Bytecode, static_: bool, i: int) -> ClassFieldV {
        ClassFieldV {
            name: code.strings@[self.own_fields@[i].name.0 as int]@,
            static_,
            ty: self.own_fields@[i].t,
        }
    }

    /// The fields that the type defines and that hold no method, in their order.
    pub open spec fn class_fields(&self, code: &Bytecode, static_: bool) -> Seq<ClassFieldV> {
        Seq::new(self.own_fields@.len(), |i: int| i).filter(|i: int| self.is_free(i)).map_values(
            |i: int| self.field_entry(code, static_, i),
        )
    }

    /// The methods bound to fields of the type, in the order of the bindings. A method that
    /// is bound to a field is dynamic, on the type and on its static part alike.
    pub open spec fn bound_methods(&self, static_: bool) -> Seq<MethodEntry> {
        Seq::new(
            self.bindings@.len(),
            |k: int| MethodEntry { fun: self.bindings@[k].1, static_, dynamic: true },
        )
    }

    /// The methods that the type declares, in their order.
    pub open spec fn proto_methods(&self) -> Seq<MethodEntry> {
        Seq::new(
            self.protos@.len(),
            |k: int| MethodEntry { fun: self.protos@[k].findex, static_: false, dynamic: false },
        )
    }

    /// The methods of the class: those bound to fields of the type, which are dynamic
    /// methods of its values; those bound to fields of its static part, which are dynamic
    /// static methods; and those that the type declares, which are neither.
    pub open spec fn class_methods(&self, code: &Bytecode) -> Seq<MethodEntry> {
        self.bound_methods(false) + match self.spec_static_type(code) {
            Some(ty) => ty.bound_methods(true),
            None => Seq::empty(),
        } + self.proto_methods()
    }

    /// No field is bound twice.
    pub open spec fn bindings_distinct(&self) -> bool {
        forall|j: int, k: int|
            0 <= j < k < self.bindings@.len() ==> (#[trigger] self.bindings@[j]).0 != (
            #[trigger] self.bindings@[k]).0
    }

    /// The type has no more fields of its own than fields, their names lie in the string
    /// pool, no field is bound twice, and the functions bound to it are functions of the
    /// bytecode that can be decompiled.
    pub open spec fn part_ok(&self, code: &Bytecode) -> bool {
        &&& self.own_fields@.len() <= self.fields@.len()
        &&& self.bindings_distinct()
        &&& forall|i: int|
            0 <= i < self.own_fields@.len() ==> (#[trigger] self.own_fields@[i]).name.0
                < code.strings@.len()
        &&& forall|k: int|
            0 <= k < self.bindings@.len() ==> fun_ok(code, (#[trigger] self.bindings@[k]).1)
    }

    /// The class can be decompiled: every index it is resolved through lies inside its
    /// pool, and every method is a function of the bytecode that can be decompiled.
    pub open spec fn class_ok(&self, code: &Bytecode) -> bool {
        &&& self.name.0 < code.strings@.len()
        &&& self.part_ok(code)
        &&& self.global.0 > 0 ==> {
            &&& self.global.0 - 1 < code.globals@.len()
            &&& code.globals@[self.global.0 - 1].0 < code.types@.len()
        }
        &&& self.spec_static_type(code) matches Some(ty) ==> ty.part_ok(code)
        &&& forall|k: int|
            0 <= k < self.protos@.len() ==> fun_ok(code, (#[trigger] self.protos@[k]).findex)
        &&& self.super_ matches Some(parent) ==> parent.0 < code.types@.len() && (
        code.types@[parent.0 as int].spec_type_obj() matches Some(ty) ==> ty.name.0
            < code.strings@.len())
    }

    /// The name of the class that this one extends.
    pub open spec fn parent_name(&self, code: &Bytecode) -> Option<Seq<char>> {
        match self.super_ {
            Some(parent) => match code.types@[parent.0 as int].spec_type_obj() {
                Some(ty) => Some(code.strings@[ty.name.0 as int]@),
                None => None,
            },
            None => None,
        }
    }
}

/// The findex names a function of the bytecode, not a native, and that function can be
/// decompiled.
pub open spec fn fun_ok(code: &Bytecode, fun: RefFun) -> bool {
    &&& fun.valid(code)
    &&& fun.spec_fn(code) matches Some(g) && g.wf_within(code, code.functions@.len())
}

/// The methods decompiled in their order, or the error of the first that cannot be.
pub open spec fn lift_methods(code: &Bytecode, entries: Seq<MethodEntry>) -> Result<
    Seq<MethodV>,
    DecompileError,
>
    decreases entries.len(),
{
    if entries.len() == 0 {
        Ok(Seq::empty())
    } else {
        match lift_methods(code, entries.drop_last()) {
            Ok(methods) => match lift(
                code,
                entries.last().fun.spec_fn(code).unwrap(),
                code.functions@.len(),
            ) {
                Ok(statements) => Ok(
                    methods.push(
                        MethodV {
                            fun: entries.last().fun,
                            static_: entries.last().static_,
                            dynamic: entries.last().dynamic,
                            statements,
                        },
                    ),
                ),
                Err(e) => Err(e),
            },
            Err(e) => Err(e),
        }
    }
}

/// What is passed over or settled while the methods are decompiled, in their order.
pub open spec fn methods_notes(code: &Bytecode, entries: Seq<MethodEntry>) -> Seq<Diagnostic>
    decreases entries.len(),
{
    if entries.len() == 0 {
        Seq::empty()
    } else {
        methods_notes(code, entries.drop_last()) + lift_notes(
            code,
            entries.last().fun.spec_fn(code).unwrap(),
            code.functions@.len(),
        )
    }
}

/// The class that a type decompiles to.
pub open spec fn lift_class(code: &Bytecode, obj: &TypeObj) -> Result<ClassV, DecompileError> {
    match lift_methods(code, obj.class_methods(code)) {
        Ok(methods) => Ok(
            ClassV {
                name: code.strings@[obj.name.0 as int]@,
                parent: obj.parent_name(code),
                fields: obj.class_fields(code, false) + match obj.spec_static_type(code) {
                    Some(ty) => ty.class_fields(code, true),
                    None => Seq::empty(),
                },
                methods,
            },
        ),
        Err(e) => Err(e),
    }
}

/// Once a method cannot be decompiled, no longer list of methods can.
pub proof fn lemma_lift_methods_fails(code: &Bytecode, entries: Seq<MethodEntry>, n: int)
    requires
        0 <= n <= entries.len(),
        lift_methods(code, entries.take(n)) is Err,
    ensures
        lift_methods(code, entries) == lift_methods(code, entries.take(n)),
    decreases entries.len() - n,
{
    if n == entries.len() {
        assert(entries.take(n) =~= entries);
    } else {
        assert(entries.take(n + 1).drop_last() =~= entries.take(n));
        lemma_lift_methods_fails(code, entries, n + 1);
    }
}

impl TypeObj {
    /// True where the field with this index holds a method.
    pub fn has_binding(&self, index: usize) -> (r: bool)
        ensures
            r == self.is_bound(index as int),
    {
        let mut k: usize = 0;
        while k < self.bindings.len()
            invariant
                k <= self.bindings@.len(),
                forall|j: int| 0 <= j < k ==> (#[trigger] self.bindings@[j]).0.0 != index,
            decreases self.bindings.len() - k,
        {
            if self.bindings[k].0.0 == index {
                return true;
            }
            k += 1;
        }
        false
    }

    /// Appends the fields that the type defines and that hold no method.
    pub fn push_class_fields(&self, code: &Bytecode, static_: bool, fields: &mut Vec<ClassField>)
        requires
            self.part_ok(code),
        ensures
            final(fields)@.map_values(|f: ClassField| f@) == old(fields)@.map_values(
                |f: ClassField| f@,
            ) + self.class_fields(code, static_),
    {
        let ghost before = fields@.map_values(|f: ClassField| f@);
        let ghost indices = Seq::new(self.own_fields@.len(), |i: int| i);
        let ghost free = |i: int| self.is_free(i);
        let ghost entry = |i: int| self.field_entry(code, static_, i);
        let total = self.fields.len();
        let base = total - self.own_fields.len();
        let mut i: usize = 0;
        assert(indices.take(0).filter(free) =~= Seq::empty()) by {
            reveal(Seq::filter);
        }
        assert(fields@.map_values(|f: ClassField| f@) =~= before + indices.take(0).filter(
            free,
        ).map_values(entry));
        while i < self.own_fields.len()
            invariant
                i <= self.own_fields@.len(),
                self.part_ok(code),
                base == self.own_base(),
                total == self.fields@.len(),
                indices == Seq::new(self.own_fields@.len(), |i: int| i),
                forall|i: int| #[trigger] free(i) == self.is_free(i),
                forall|i: int| #[trigger] entry(i) == self.field_entry(code, static_, i),
                fields@.map_values(|f: ClassField| f@) == before + indices.take(i as int).filter(
                    free,
                ).map_values(entry),
            decreases self.own_fields.len() - i,
        {
            proof {
                let next = indices.take(i + 1);
                assert(next.drop_last() =~= indices.take(i as int));
                reveal(Seq::filter);
            }
            let ghost so_far = indices.take(i as int).filter(free);
            if !self.has_binding(i + base) {
                let own = &self.own_fields[i];
                let ghost prev = fields@;
                fields.push(ClassField { name: own.name.display(code), static_, ty: own.t });
                assert(so_far.push(i as int).map_values(entry) =~= so_far.map_values(entry).push(
                    entry(i as int),
                ));
                assert(fields@.map_values(|f: ClassField| f@) =~= prev.map_values(
                    |f: ClassField| f@,
                ).push(fields@.last()@));
            }
            i += 1;
        }
        assert(indices.take(i as int) =~= indices);
    }
}

/// Decompiles the methods in their order and appends them, and what is passed over or
/// settled on the way to `notes`.
fn push_methods(
    code: &Bytecode,
    funs: &Vec<RefFun>,
    static_: bool,
    dynamic: bool,
    methods: &mut Vec<Method>,
    notes: &mut Vec<Diagnostic>,
    Ghost(entries): Ghost<Seq<MethodEntry>>,
    Ghost(done): Ghost<int>,
) -> (r: Result<(), DecompileError>)
    requires
        0 <= done,
        done + funs@.len() <= entries.len(),
        forall|k: int| 0 <= k < funs@.len() ==> fun_ok(code, #[trigger] funs@[k]),
        forall|k: int|
            0 <= k < funs@.len() ==> #[trigger] entries[done + k] == (MethodEntry {
                fun: funs@[k],
                static_,
                dynamic,
            }),
        lift_methods(code, entries.take(done)) == Ok::<Seq<MethodV>, DecompileError>(
            old(methods)@.map_values(|m: Method| m@),
        ),
        old(notes)@ == methods_notes(code, entries.take(done)),
    ensures
        match r {
            Ok(()) => {
                &&& lift_methods(code, entries.take(done + funs@.len())) == Ok::<
                    Seq<MethodV>,
                    DecompileError,
                >(final(methods)@.map_values(|m: Method| m@))
                &&& final(notes)@ == methods_notes(code, entries.take(done + funs@.len()))
            },
            Err(e) => lift_methods(code, entries) == Err::<Seq<MethodV>, DecompileError>(e),
        },
{
    let mut k: usize = 0;
    while k < funs.len()
        invariant
            k <= funs@.len(),
                0 <= done,
            done + funs@.len() <= entries.len(),
            forall|k: int| 0 <= k < funs@.len() ==> fun_ok(code, #[trigger] funs@[k]),
            forall|k: int|
                0 <= k < funs@.len() ==> #[trigger] entries[done + k] == (MethodEntry {
                    fun: funs@[k],
                    static_,
                    dynamic,
                }),
            lift_methods(code, entries.take(done + k)) == Ok::<Seq<MethodV>, DecompileError>(
                methods@.map_values(|m: Method| m@),
            ),
            notes@ == methods_notes(code, entries.take(done + k)),
        decreases funs.len() - k,
    {
        let fun = funs[k];
        let g = fun.resolve_as_fn(code).unwrap();
        proof {
            let next = entries.take(done + k + 1);
            assert(next.drop_last() =~= entries.take(done + k));
            assert(next.last() == entries[done + k]);
        }
        match decompile_code_noting(code, g, notes) {
            Ok(statements) => {
                let ghost before = methods@.map_values(|m: Method| m@);
                methods.push(Method { fun, static_, dynamic, statements });
                assert(methods@.map_values(|m: Method| m@) =~= before.push(
                    methods@.last()@,
                ));
            },
            Err(e) => {
                proof {
                    lemma_lift_methods_fails(code, entries, done + k + 1);
                }
                return Err(e);
            },
        }
        k += 1;
    }
    Ok(())
}

/// The functions bound to fields of the type, in the order of the bindings.
fn binding_funs(ty: &TypeObj) -> (r: Vec<RefFun>)
    ensures
        r@ == Seq::new(ty.bindings@.len(), |k: int| ty.bindings@[k].1),
{
    let mut out: Vec<RefFun> = Vec::new();
    let mut k: usize = 0;
    while k < ty.bindings.len()
        invariant
            k <= ty.bindings@.len(),
            out@.len() == k,
            forall|j: int| 0 <= j < k ==> out@[j] == ty.bindings@[j].1,
        decreases ty.bindings.len() - k,
    {
        out.push(ty.bindings[k].1);
        k += 1;
    }
    out
}

/// The functions of the methods that the type declares, in their order.
fn proto_funs(ty: &TypeObj) -> (r: Vec<RefFun>)
    ensures
        r@ == Seq::new(ty.protos@.len(), |k: int| ty.protos@[k].findex),
{
    let mut out: Vec<RefFun> = Vec::new();
    let mut k: usize = 0;
    while k < ty.protos.len()
        invariant
            k <= ty.protos@.len(),
            out@.len() == k,
            forall|j: int| 0 <= j < k ==> out@[j] == ty.protos@[j].findex,
        decreases ty.protos.len() - k,
    {
        out.push(ty.protos[k].findex);
        k += 1;
    }
    out
}

/// Decompile a class with its static and instance fields and methods.
///
/// The fields are those that the type defines and that hold no method, then those of its
/// static part. The methods are those bound to fields of the type, then those bound to
/// fields of its static part, then those that the type declares. Fails with the error of
/// the first method that cannot be decompiled.
///
/// What is passed over or settled while the methods are decompiled is appended to `sink`,
/// method by method. Nothing is appended where the class cannot be decompiled.
pub fn decompile_class_noting(code: &Bytecode, obj: &TypeObj, sink: &mut Vec<Diagnostic>) -> (r:
    Result<Class, DecompileError>)
    requires
        obj.class_ok(code),
    ensures
        match lift_class(code, obj) {
            Ok(class) => {
                &&& r matches Ok(c) && c@ == class
                &&& final(sink)@ == old(sink)@ + methods_notes(code, obj.class_methods(code))
            },
            Err(e) => r matches Err(e2) && e2 == e && final(sink)@ == old(sink)@,
        },
{
    let static_type = obj.get_static_type(code);
    let mut fields: Vec<ClassField> = Vec::new();
    obj.push_class_fields(code, false, &mut fields);
    if let Some(ty) = static_type {
        ty.push_class_fields(code, true, &mut fields);
    }
    assert(fields@.map_values(|f: ClassField| f@) =~= obj.class_fields(code, false)
        + match obj.spec_static_type(code) {
        Some(ty) => ty.class_fields(code, true),
        None => Seq::empty(),
    });

    let ghost entries = obj.class_methods(code);
    let mut methods: Vec<Method> = Vec::new();
    let mut notes: Vec<Diagnostic> = Vec::new();
    assert(methods@.map_values(|m: Method| m@) =~= Seq::empty());
    assert(entries.take(0) =~= Seq::empty());
    let bound = binding_funs(obj);
    match push_methods(
        code,
        &bound,
        false,
        true,
        &mut methods,
        &mut notes,
        Ghost(entries),
        Ghost(0),
    ) {
        Ok(()) => {},
        Err(e) => {
            return Err(e);
        },
    }
    let ghost done = bound@.len() as int;
    if let Some(ty) = static_type {
        let bound = binding_funs(ty);
        match push_methods(
            code,
            &bound,
            true,
            true,
            &mut methods,
            &mut notes,
            Ghost(entries),
            Ghost(done),
        ) {
            Ok(()) => {},
            Err(e) => {
                return Err(e);
            },
        }
        proof {
            done = done + bound@.len();
        }
    }
    let declared = proto_funs(obj);
    match push_methods(
        code,
        &declared,
        false,
        false,
        &mut methods,
        &mut notes,
        Ghost(entries),
        Ghost(done),
    ) {
        Ok(()) => {},
        Err(e) => {
            return Err(e);
        },
    }
    assert(entries.take(done + declared@.len()) =~= entries);
    let parent = match obj.super_ {
        Some(parent) => match parent.resolve_as_obj(code.types.as_slice()) {
            Some(ty) => Some(ty.name.display(code)),
            None => None,
        },
        None => None,
    };
    sink.append(&mut notes);
    Ok(Class { name: obj.name.display(code), parent, fields, methods })
}

/// Decompile a class with its static and instance fields and methods.
///
/// The fields are those that the type defines and that hold no method, then those of its
/// static part. The methods are those bound to fields of the type, then those bound to
/// fields of its static part, then those that the type declares. Fails with the error of
/// the first method that cannot be decompiled.
pub fn decompile_class(code: &Bytecode, obj: &TypeObj) -> (r: Result<Class, DecompileError>)
    requires
        obj.class_ok(code),
    ensures
        match lift_class(code, obj) {
            Ok(class) => r matches Ok(c) && c@ == class,
            Err(e) => r matches Err(e2) && e2 == e,
        },
{
    let mut sink: Vec<Diagnostic> = Vec::new();
    decompile_class_noting(code, obj, &mut sink)
}

/// True where the findex names a function of the bytecode, not a native, and that function
/// can be decompiled.
pub fn check_method_fun(code: &Bytecode, fun: RefFun) -> (ok: bool)
    ensures
        ok == fun_ok(code, fun),
{
    if !check_fun(code, fun) {
        return false;
    }
    match fun.resolve_as_fn(code) {
        Some(g) => g.check_within(code, code.functions.len()),
        None => false,
    }
}

impl TypeObj {
    /// True where no field is bound twice.
    pub fn check_bindings_distinct(&self) -> (ok: bool)
        ensures
            ok == self.bindings_distinct(),
    {
        let mut k: usize = 0;
        while k < self.bindings.len()
            invariant
                k <= self.bindings@.len(),
                forall|i: int, j: int|
                    0 <= i < j < k ==> (#[trigger] self.bindings@[i]).0 != (
                    #[trigger] self.bindings@[j]).0,
            decreases self.bindings.len() - k,
        {
            let mut j: usize = 0;
            while j < k
                invariant
                    j <= k < self.bindings@.len(),
                    forall|i: int| 0 <= i < j ==> (#[trigger] self.bindings@[i]).0
                        != self.bindings@[k as int].0,
                decreases k - j,
            {
                if self.bindings[j].0 == self.bindings[k].0 {
                    return false;
                }
                j += 1;
            }
            k += 1;
        }
        true
    }

    /// True where the fields and bindings of the type are as decompiling a class asks.
    pub fn check_part(&self, code: &Bytecode) -> (ok: bool)
        ensures
            ok == self.part_ok(code),
    {
        if self.own_fields.len() > self.fields.len() {
            return false;
        }
        if !self.check_bindings_distinct() {
            return false;
        }
        let mut i: usize = 0;
        while i < self.own_fields.len()
            invariant
                i <= self.own_fields@.len(),
                forall|j: int|
                    0 <= j < i ==> (#[trigger] self.own_fields@[j]).name.0 < code.strings@.len(),
            decreases self.own_fields.len() - i,
        {
            if self.own_fields[i].name.0 >= code.strings.len() {
                return false;
            }
            i += 1;
        }
        let mut k: usize = 0;
        while k < self.bindings.len()
            invariant
                k <= self.bindings@.len(),
                forall|j: int| 0 <= j < k ==> fun_ok(code, (#[trigger] self.bindings@[j]).1),
            decreases self.bindings.len() - k,
        {
            if !check_method_fun(code, self.bindings[k].1) {
                return false;
            }
            k += 1;
        }
        true
    }

    /// True where the class can be decompiled.
    pub fn check_class(&self, code: &Bytecode) -> (ok: bool)
        ensures
            ok == self.class_ok(code),
    {
        if self.name.0 >= code.strings.len() {
            return false;
        }
        if !self.check_part(code) {
            return false;
        }
        if self.global.0 > 0 {
            if self.global.0 - 1 >= code.globals.len() {
                return false;
            }
            if code.globals[self.global.0 - 1].0 >= code.types.len() {
                return false;
            }
        }
        match self.get_static_type(code) {
            Some(ty) => {
                if !ty.check_part(code) {
                    return false;
                }
            },
            None => {},
        }
        let mut k: usize = 0;
        while k < self.protos.len()
            invariant
                k <= self.protos@.len(),
                forall|j: int| 0 <= j < k ==> fun_ok(code, (#[trigger] self.protos@[j]).findex),
            decreases self.protos.len() - k,
        {
            if !check_method_fun(code, self.protos[k].findex) {
                return false;
            }
            k += 1;
        }
        match self.super_ {
            Some(parent) => {
                if parent.0 >= code.types.len() {
                    return false;
                }
                match parent.resolve_as_obj(code.types.as_slice()) {
                    Some(ty) => ty.name.0 < code.strings.len(),
                    None => true,
                }
            },
            None => true,
        }
    }
}

} // verus!
