//! Text for the elements of the bytecode: names, identifiers and types.

use crate::types::{
    Bytecode, Function, FunPtr, Native, ObjField, RefEnumConstruct, RefField, RefFloat, RefFun,
    RefInt, RefString, RefType, Type, TypeFun,
};
use vstd::prelude::*;

verus! {

/// The text of one decimal digit.
pub open spec fn spec_digit(d: nat) -> Seq<char> {
    if d == 0 {
        "0"@
    } else if d == 1 {
        "1"@
    } else if d == 2 {
        "2"@
    } else if d == 3 {
        "3"@
    } else if d == 4 {
        "4"@
    } else if d == 5 {
        "5"@
    } else if d == 6 {
        "6"@
    } else if d == 7 {
        "7"@
    } else if d == 8 {
        "8"@
    } else {
        "9"@
    }
}

/// The decimal digits of a number, without leading zeros.
pub open spec fn spec_decimal(n: nat) -> Seq<char>
    decreases n,
{
    if n < 10 {
        spec_digit(n)
    } else {
        spec_decimal(n / 10) + spec_digit(n % 10)
    }
}

fn digit(d: usize) -> (r: &'static str)
    requires
        d < 10,
    ensures
        r@ == spec_digit(d as nat),
{
    if d == 0 {
        "0"
    } else if d == 1 {
        "1"
    } else if d == 2 {
        "2"
    } else if d == 3 {
        "3"
    } else if d == 4 {
        "4"
    } else if d == 5 {
        "5"
    } else if d == 6 {
        "6"
    } else if d == 7 {
        "7"
    } else if d == 8 {
        "8"
    } else {
        "9"
    }
}

/// Writes a number in decimal.
pub fn decimal(n: usize) -> (r: String)
    ensures
        r@ == spec_decimal(n as nat),
    decreases n,
{
    if n < 10 {
        String::from_str(digit(n))
    } else {
        let mut s = decimal(n / 10);
        s.append(digit(n % 10));
        s
    }
}

/// The text `field` followed by the index, for a field that has no name.
pub open spec fn spec_field_fallback(index: nat) -> Seq<char> {
    "field"@ + spec_decimal(index)
}

impl RefInt {
    /// The constant as text is the constant itself.
    pub fn display(&self, ctx: &Bytecode) -> (r: i32)
        requires
            self.0 < ctx.ints@.len(),
        ensures
            r == ctx.ints@[self.0 as int],
    {
        self.resolve(ctx.ints.as_slice())
    }
}

impl RefString {
    /// The characters of the string this reference points to.
    pub open spec fn spec_display(&self, ctx: &Bytecode) -> Seq<char> {
        ctx.strings@[self.0 as int]@
    }

    pub fn display(&self, ctx: &Bytecode) -> (r: String)
        requires
            self.0 < ctx.strings@.len(),
        ensures
            r@ == self.spec_display(ctx),
    {
        self.resolve(ctx.strings.as_slice()).to_owned()
    }
}

impl RefField {
    /// The field index and the names of the fields lie inside their pools, as far as a
    /// name is looked up.
    pub open spec fn display_valid(&self, parent: &Type, ctx: &Bytecode) -> bool {
        match parent.spec_type_obj() {
            Some(obj) => self.0 < obj.fields@.len() ==> obj.fields@[self.0 as int].name.0
                < ctx.strings@.len(),
            None => match parent {
                Type::Virtual { fields } => self.0 < fields@.len() && fields@[self.0 as int].name.0
                    < ctx.strings@.len(),
                _ => true,
            },
        }
    }

    /// The name of this field in a value of type `parent`: the name that the type gives it,
    /// or `field` and the index where an object type has no such field or the type has no
    /// fields at all.
    pub open spec fn spec_display_obj(&self, parent: &Type, ctx: &Bytecode) -> Seq<char> {
        match parent.spec_type_obj() {
            Some(obj) => if self.0 < obj.fields@.len() {
                obj.fields@[self.0 as int].name.spec_display(ctx)
            } else {
                spec_field_fallback(self.0 as nat)
            },
            None => match parent {
                Type::Virtual { fields } => fields@[self.0 as int].name.spec_display(ctx),
                _ => spec_field_fallback(self.0 as nat),
            },
        }
    }

    pub fn display_obj(&self, parent: &Type, ctx: &Bytecode) -> (r: String)
        requires
            self.display_valid(parent, ctx),
        ensures
            r@ == self.spec_display_obj(parent, ctx),
    {
        if let Some(obj) = parent.get_type_obj() {
            if self.0 < obj.fields.len() {
                obj.fields[self.0].name.display(ctx)
            } else {
                String::from_str("field").concat(decimal(self.0).as_str())
            }
        } else if let Type::Virtual { fields } = parent {
            fields[self.0].name.display(ctx)
        } else {
            String::from_str("field").concat(decimal(self.0).as_str())
        }
    }
}

impl RefEnumConstruct {
    /// The variant index lies inside the enum, and the name of the variant in the string
    /// pool where the variant has one: as far as they are looked up.
    pub open spec fn display_valid(&self, parent: RefType, ctx: &Bytecode) -> bool {
        &&& parent.0 < ctx.types@.len()
        &&& ctx.types@[parent.0 as int] matches Type::Enum { constructs, .. } ==> self.0
            < constructs@.len() && (constructs@[self.0 as int].name.0 != 0
            ==> constructs@[self.0 as int].name.0 < ctx.strings@.len())
    }

    /// The name of this variant of the enum `parent`, `_` where it has none or `parent` is
    /// no enum.
    pub open spec fn spec_display(&self, parent: RefType, ctx: &Bytecode) -> Seq<char> {
        match ctx.types@[parent.0 as int] {
            Type::Enum { constructs, .. } => if constructs@[self.0 as int].name.0 != 0 {
                constructs@[self.0 as int].name.spec_display(ctx)
            } else {
                "_"@
            },
            _ => "_"@,
        }
    }

    /// True where the name of the variant can be looked up.
    pub fn check_display(&self, parent: RefType, ctx: &Bytecode) -> (ok: bool)
        ensures
            ok == self.display_valid(parent, ctx),
    {
        if parent.0 >= ctx.types.len() {
            return false;
        }
        match parent.resolve(ctx.types.as_slice()) {
            Type::Enum { constructs, .. } => self.0 < constructs.len() && (
            constructs[self.0].name.0 == 0 || constructs[self.0].name.0 < ctx.strings.len()),
            _ => true,
        }
    }

    pub fn display(&self, parent: RefType, ctx: &Bytecode) -> (r: String)
        requires
            self.display_valid(parent, ctx),
        ensures
            r@ == self.spec_display(parent, ctx),
    {
        match parent.resolve(ctx.types.as_slice()) {
            Type::Enum { constructs, .. } => {
                let name = &constructs[self.0].name;
                if name.0 != 0 {
                    name.display(ctx)
                } else {
                    String::from_str("_")
                }
            },
            _ => String::from_str("_"),
        }
    }
}

impl Native {
    /// `{lib}/{name}@{findex}`
    pub open spec fn spec_display_id(&self, ctx: &Bytecode) -> Seq<char> {
        ctx.strings@[self.lib.0 as int]@ + "/"@ + ctx.strings@[self.name.0 as int]@ + "@"@
            + spec_decimal(self.findex.0 as nat)
    }

    /// Display something like `{lib}/{name}@{findex}`
    pub fn display_id(&self, ctx: &Bytecode) -> (r: String)
        requires
            self.lib.0 < ctx.strings@.len(),
            self.name.0 < ctx.strings@.len(),
        ensures
            r@ == self.spec_display_id(ctx),
    {
        let mut s = self.lib.display(ctx);
        s.append("/");
        s.append(self.name.resolve(ctx.strings.as_slice()));
        s.append("@");
        s.append(decimal(self.findex.0).as_str());
        s
    }
}

impl Function {
    /// `{name}@{findex}`, with `_` for a function without a name
    pub open spec fn spec_display_id(&self, ctx: &Bytecode) -> Seq<char> {
        self.spec_name_default(ctx) + "@"@ + spec_decimal(self.findex.0 as nat)
    }

    /// Display something like `{name}@{findex}`
    pub fn display_id(&self, ctx: &Bytecode) -> (r: String)
        requires
            self.name matches Some(n) ==> n.0 < ctx.strings@.len(),
        ensures
            r@ == self.spec_display_id(ctx),
    {
        let mut s = String::from_str(self.name_default(ctx));
        s.append("@");
        s.append(decimal(self.findex.0).as_str());
        s
    }
}

impl<'a> FunPtr<'a> {
    /// The names that the identifier is made of lie in the string pool.
    pub open spec fn display_valid(&self, ctx: &Bytecode) -> bool {
        match self {
            FunPtr::Fun(fun) => fun.name matches Some(n) ==> n.0 < ctx.strings@.len(),
            FunPtr::Native(n) => n.lib.0 < ctx.strings@.len() && n.name.0 < ctx.strings@.len(),
        }
    }

    /// `{name}@{findex}` for functions and `{lib}/{name}@{findex}` for natives.
    pub open spec fn spec_display_id(&self, ctx: &Bytecode) -> Seq<char> {
        match self {
            FunPtr::Fun(fun) => fun.spec_display_id(ctx),
            FunPtr::Native(n) => n.spec_display_id(ctx),
        }
    }

    /// Display something like `{name}@{findex}` for functions and `{lib}/{name}@{findex}`
    /// for natives.
    pub fn display_id(&self, ctx: &Bytecode) -> (r: String)
        requires
            self.display_valid(ctx),
        ensures
            r@ == self.spec_display_id(ctx),
    {
        match self {
            FunPtr::Fun(fun) => fun.display_id(ctx),
            FunPtr::Native(n) => n.display_id(ctx),
        }
    }
}

impl RefFun {
    /// The identifier of the function or native this findex names.
    pub open spec fn spec_display_id(&self, ctx: &Bytecode) -> Seq<char> {
        self.spec_resolve(ctx).spec_display_id(ctx)
    }

    /// Display something like `{name}@{findex}` for functions and `{lib}/{name}@{findex}`
    /// for natives.
    pub fn display_id(&self, ctx: &Bytecode) -> (r: String)
        requires
            self.valid(ctx),
            self.spec_resolve(ctx).display_valid(ctx),
        ensures
            r@ == self.spec_display_id(ctx),
    {
        self.resolve(ctx).display_id(ctx)
    }
}

/// The texts joined, with `sep` between each two.
pub open spec fn spec_join(items: Seq<Seq<char>>, sep: Seq<char>) -> Seq<char>
    decreases items.len(),
{
    if items.len() == 0 {
        Seq::empty()
    } else if items.len() == 1 {
        items[0]
    } else {
        spec_join(items.drop_last(), sep) + sep + items.last()
    }
}

/// Appends one more text to a joined text.
fn join_push(joined: &mut String, count: usize, item: &str, Ghost(items): Ghost<Seq<Seq<char>>>)
    requires
        count == items.len(),
        old(joined)@ == spec_join(items, ", "@),
    ensures
        final(joined)@ == spec_join(items.push(item@), ", "@),
{
    assert(items.push(item@).drop_last() =~= items);
    if count > 0 {
        joined.append(", ");
    }
    joined.append(item);
}

impl ObjField {
    /// The name and the type of the field lie inside their pools.
    pub open spec fn refs_ok(&self, code: &Bytecode) -> bool {
        self.name.0 < code.strings@.len() && self.t.0 < code.types@.len()
    }
}

impl TypeFun {
    /// The types of the arguments and of the result lie in the type table.
    pub open spec fn refs_ok(&self, code: &Bytecode) -> bool {
        &&& self.ret.0 < code.types@.len()
        &&& forall|k: int|
            0 <= k < self.args@.len() ==> (#[trigger] self.args@[k]).0 < code.types@.len()
    }
}

impl Type {
    /// Every name and type that the text of the type is made of lies inside its pool.
    pub open spec fn refs_ok(&self, code: &Bytecode) -> bool {
        match self {
            Type::Fun(fun) => fun.refs_ok(code),
            Type::Method(fun) => fun.refs_ok(code),
            Type::Obj(obj) => obj.name.0 < code.strings@.len(),
            Type::Struct(obj) => {
                &&& obj.name.0 < code.strings@.len()
                &&& forall|k: int|
                    0 <= k < obj.fields@.len() ==> (#[trigger] obj.fields@[k]).refs_ok(code)
            },
            Type::Ref(inner) => inner.0 < code.types@.len(),
            Type::Null(inner) => inner.0 < code.types@.len(),
            Type::Packed(inner) => inner.0 < code.types@.len(),
            Type::Virtual { fields } => forall|k: int|
                0 <= k < fields@.len() ==> (#[trigger] fields@[k]).refs_ok(code),
            Type::Abstract { name } => name.0 < code.strings@.len(),
            Type::Enum { name, .. } => name.0 != 0 ==> name.0 < code.strings@.len(),
            _ => true,
        }
    }
}

impl Bytecode {
    /// The text of every type of the type table can be written.
    pub open spec fn types_ok(&self) -> bool {
        forall|t: int| 0 <= t < self.types@.len() ==> (#[trigger] self.types@[t]).refs_ok(self)
    }
}

/// The indices are indices of the type table, each once.
pub open spec fn trail_ok(code: &Bytecode, parents: Seq<usize>) -> bool {
    &&& parents.no_duplicates()
    &&& forall|k: int| 0 <= k < parents.len() ==> #[trigger] parents[k] < code.types@.len()
}

/// A trail of types that are being written does not hold the whole table while a type is
/// left to write: there is room for a type of the table that the trail does not hold, and
/// the trail with that type is a trail again.
pub proof fn lemma_trail_has_room(code: &Bytecode, t: RefType, parents: Seq<usize>)
    requires
        trail_ok(code, parents),
        t.0 < code.types@.len(),
        !parents.contains(t.0),
    ensures
        parents.len() < code.types@.len(),
        trail_ok(code, parents.push(t.0)),
{
    let longer = parents.push(t.0);
    assert forall|i: int, j: int|
        0 <= i < longer.len() && 0 <= j < longer.len() && i != j implies longer[i]
        != longer[j] by {
        if i < parents.len() && j < parents.len() {
            assert(parents[i] != parents[j]);
        } else if i < parents.len() {
            assert(parents.contains(parents[i]));
        } else {
            assert(parents.contains(parents[j]));
        }
    }
    // as many distinct indices as the trail is long lie in the table
    let as_ints = longer.map_values(|x: usize| x as int);
    assert forall|i: int, j: int|
        0 <= i < as_ints.len() && 0 <= j < as_ints.len() && i != j implies as_ints[i]
        != as_ints[j] by {
        assert(longer[i] != longer[j]);
    }
    as_ints.unique_seq_to_set();
    let table = vstd::set_lib::set_int_range(0, code.types@.len() as int);
    vstd::set_lib::lemma_int_range(0, code.types@.len() as int);
    assert forall|x: int| as_ints.to_set().contains(x) implies table.contains(x) by {
        let k = choose|k: int| 0 <= k < as_ints.len() && as_ints[k] == x;
        assert(longer[k] < code.types@.len());
    }
    vstd::set_lib::lemma_len_subset(as_ints.to_set(), table);
}

/// The text of a type given by its index. `parents` holds the indices of the types that
/// are being written around it: a type that is one of them is written `Self`, which ends
/// the text of a type that refers to itself. So does a trail as long as the table, which a
/// trail of distinct types of the table never is while a type is left to write.
pub open spec fn spec_display_rec(code: &Bytecode, t: RefType, parents: Seq<usize>) -> Seq<char>
    decreases code.types@.len() - parents.len(), 0nat,
{
    if parents.contains(t.0) || parents.len() >= code.types@.len() {
        "Self"@
    } else {
        spec_type_text(code, &code.types@[t.0 as int], parents.push(t.0))
    }
}

/// The text `name: type` of each field.
pub open spec fn spec_fields_text(
    code: &Bytecode,
    fields: Seq<ObjField>,
    parents: Seq<usize>,
) -> Seq<Seq<char>>
    decreases code.types@.len() - parents.len(), 1nat,
{
    Seq::new(
        fields.len(),
        |k: int|
            code.strings@[fields[k].name.0 as int]@ + ": "@ + spec_display_rec(
                code,
                fields[k].t,
                parents,
            ),
    )
}

/// The text of each type of a list.
pub open spec fn spec_types_text(code: &Bytecode, types: Seq<RefType>, parents: Seq<usize>) -> Seq<
    Seq<char>,
>
    decreases code.types@.len() - parents.len(), 1nat,
{
    Seq::new(types.len(), |k: int| spec_display_rec(code, types[k], parents))
}

/// The text `(args) -> (ret)` of a function type.
pub open spec fn spec_fun_text(code: &Bytecode, fun: &TypeFun, parents: Seq<usize>) -> Seq<char>
    decreases code.types@.len() - parents.len(), 2nat,
{
    "("@ + spec_join(spec_types_text(code, fun.args@, parents), ", "@) + ") -> ("@
        + spec_display_rec(code, fun.ret, parents) + ")"@
}

/// The name of an enum, `_` where it has none.
pub open spec fn spec_enum_name(code: &Bytecode, name: RefString) -> Seq<char> {
    if name.0 != 0 {
        code.strings@[name.0 as int]@
    } else {
        "_"@
    }
}

/// The text of a type. `parents` holds the indices of the types that are being written
/// around it and of the type itself, where it has one.
pub open spec fn spec_type_text(code: &Bytecode, ty: &Type, parents: Seq<usize>) -> Seq<char>
    decreases code.types@.len() - parents.len(), 3nat,
{
    match ty {
        Type::Void => "void"@,
        Type::UI8 => "i8"@,
        Type::UI16 => "i16"@,
        Type::I32 => "i32"@,
        Type::I64 => "i64"@,
        Type::F32 => "f32"@,
        Type::F64 => "f64"@,
        Type::Bool => "bool"@,
        Type::Bytes => "bytes"@,
        Type::Dyn => "dynamic"@,
        Type::Fun(fun) => spec_fun_text(code, fun, parents),
        Type::Obj(obj) => code.strings@[obj.name.0 as int]@,
        Type::Array => "array"@,
        Type::Type => "type"@,
        Type::Ref(inner) => "ref<"@ + spec_display_rec(code, *inner, parents) + ">"@,
        Type::Virtual { fields } => "virtual<"@ + spec_join(
            spec_fields_text(code, fields@, parents),
            ", "@,
        ) + ">"@,
        Type::DynObj => "dynobj"@,
        Type::Abstract { name } => code.strings@[name.0 as int]@,
        Type::Enum { name, .. } => "enum<"@ + spec_enum_name(code, *name) + ">"@,
        Type::Null(inner) => "null<"@ + spec_display_rec(code, *inner, parents) + ">"@,
        Type::Method(fun) => spec_fun_text(code, fun, parents),
        Type::Struct(obj) => code.strings@[obj.name.0 as int]@ + "<"@ + spec_join(
            spec_fields_text(code, obj.fields@, parents),
            ", "@,
        ) + ">"@,
        Type::Packed(inner) => "packed<"@ + spec_display_rec(code, *inner, parents) + ">"@,
    }
}

/// True where `x` is among `v`.
pub fn contains_index(v: &Vec<usize>, x: usize) -> (r: bool)
    ensures
        r == v@.contains(x),
{
    let mut k: usize = 0;
    while k < v.len()
        invariant
            k <= v@.len(),
            forall|j: int| 0 <= j < k ==> v@[j] != x,
        decreases v.len() - k,
    {
        if v[k] == x {
            return true;
        }
        k += 1;
    }
    false
}

/// The list with one more index.
fn with_index(v: &Vec<usize>, x: usize) -> (r: Vec<usize>)
    ensures
        r@ == v@.push(x),
{
    let mut out: Vec<usize> = Vec::new();
    let mut k: usize = 0;
    while k < v.len()
        invariant
            k <= v@.len(),
            out@ == v@.take(k as int),
        decreases v.len() - k,
    {
        out.push(v[k]);
        k += 1;
    }
    out.push(x);
    out
}

/// The text `name: type` of each field, joined.
fn fields_text(code: &Bytecode, fields: &Vec<ObjField>, parents: &Vec<usize>) -> (r: String)
    requires
        code.types_ok(),
        trail_ok(code, parents@),
        forall|k: int| 0 <= k < fields@.len() ==> (#[trigger] fields@[k]).refs_ok(code),
    ensures
        r@ == spec_join(spec_fields_text(code, fields@, parents@), ", "@),
    decreases code.types@.len() - parents@.len(), 1nat,
{
    let ghost all = spec_fields_text(code, fields@, parents@);
    let mut joined = String::new();
    let mut k: usize = 0;
    while k < fields.len()
        invariant
            k <= fields@.len(),
            code.types_ok(),
            trail_ok(code, parents@),
            forall|k: int| 0 <= k < fields@.len() ==> (#[trigger] fields@[k]).refs_ok(code),
            all == spec_fields_text(code, fields@, parents@),
            joined@ == spec_join(all.take(k as int), ", "@),
        decreases fields.len() - k,
    {
        let mut item = fields[k].name.display(code);
        item.append(": ");
        item.append(fields[k].t.display_rec(code, parents).as_str());
        assert(all.take(k + 1) =~= all.take(k as int).push(item@));
        join_push(&mut joined, k, item.as_str(), Ghost(all.take(k as int)));
        k += 1;
    }
    assert(all.take(k as int) =~= all);
    joined
}

/// The text `(args) -> (ret)` of a function type.
fn fun_text(code: &Bytecode, fun: &TypeFun, parents: &Vec<usize>) -> (r: String)
    requires
        code.types_ok(),
        trail_ok(code, parents@),
        fun.refs_ok(code),
    ensures
        r@ == spec_fun_text(code, fun, parents@),
    decreases code.types@.len() - parents@.len(), 2nat,
{
    let ghost all = spec_types_text(code, fun.args@, parents@);
    let mut joined = String::new();
    let mut k: usize = 0;
    while k < fun.args.len()
        invariant
            k <= fun.args@.len(),
            code.types_ok(),
            trail_ok(code, parents@),
            fun.refs_ok(code),
            all == spec_types_text(code, fun.args@, parents@),
            joined@ == spec_join(all.take(k as int), ", "@),
        decreases fun.args.len() - k,
    {
        let item = fun.args[k].display_rec(code, parents);
        assert(all.take(k + 1) =~= all.take(k as int).push(item@));
        join_push(&mut joined, k, item.as_str(), Ghost(all.take(k as int)));
        k += 1;
    }
    assert(all.take(k as int) =~= all);
    let mut text = String::from_str("(");
    text.append(joined.as_str());
    text.append(") -> (");
    text.append(fun.ret.display_rec(code, parents).as_str());
    text.append(")");
    text
}

/// A text between an opening and a closing text.
fn wrapped(open: &str, inner: &str, close: &str) -> (r: String)
    ensures
        r@ == open@ + inner@ + close@,
{
    let mut text = String::from_str(open);
    text.append(inner);
    text.append(close);
    text
}

/// The trail that the text of a type starts with: the index of the type, where it stands
/// in the type table.
pub open spec fn spec_own_trail(at: Option<RefType>) -> Seq<usize> {
    match at {
        Some(t) => seq![t.0],
        None => Seq::empty(),
    }
}

impl Type {
    /// The text of the type. `at` is the index at which the type stands in the type table,
    /// where it stands there: a reference to that index inside the type is written `Self`,
    /// so that the text is the one that [`RefType::display`] gives for the index. For a
    /// type that stands nowhere in the table `at` is `None`.
    pub fn display(&self, ctx: &Bytecode, at: Option<RefType>) -> (r: String)
        requires
            ctx.types_ok(),
            self.refs_ok(ctx),
            at matches Some(t) ==> t.0 < ctx.types@.len(),
        ensures
            r@ == spec_type_text(ctx, self, spec_own_trail(at)),
            at is Some && ctx.types@[at.unwrap().0 as int] == *self ==> r@ == spec_display_rec(
                ctx,
                at.unwrap(),
                Seq::empty(),
            ),
    {
        let mut parents: Vec<usize> = Vec::new();
        match at {
            Some(t) => {
                proof {
                    lemma_trail_has_room(ctx, t, parents@);
                }
                parents.push(t.0);
                assert(parents@ =~= seq![t.0]);
            },
            None => {},
        }
        self.display_rec(ctx, &parents)
    }

    /// The text of the type inside the types whose indices `parents` holds.
    pub fn display_rec(&self, ctx: &Bytecode, parents: &Vec<usize>) -> (r: String)
        requires
            ctx.types_ok(),
            trail_ok(ctx, parents@),
            self.refs_ok(ctx),
        ensures
            r@ == spec_type_text(ctx, self, parents@),
        decreases ctx.types@.len() - parents@.len(), 3nat,
    {
        match self {
            Type::Void => String::from_str("void"),
            Type::UI8 => String::from_str("i8"),
            Type::UI16 => String::from_str("i16"),
            Type::I32 => String::from_str("i32"),
            Type::I64 => String::from_str("i64"),
            Type::F32 => String::from_str("f32"),
            Type::F64 => String::from_str("f64"),
            Type::Bool => String::from_str("bool"),
            Type::Bytes => String::from_str("bytes"),
            Type::Dyn => String::from_str("dynamic"),
            Type::Fun(fun) => fun_text(ctx, fun, parents),
            Type::Obj(obj) => obj.name.display(ctx),
            Type::Array => String::from_str("array"),
            Type::Type => String::from_str("type"),
            Type::Ref(inner) => wrapped("ref<", inner.display_rec(ctx, parents).as_str(), ">"),
            Type::Virtual { fields } => wrapped(
                "virtual<",
                fields_text(ctx, fields, parents).as_str(),
                ">",
            ),
            Type::DynObj => String::from_str("dynobj"),
            Type::Abstract { name } => name.display(ctx),
            Type::Enum { name, .. } => {
                if name.0 != 0 {
                    wrapped("enum<", name.resolve(ctx.strings.as_slice()), ">")
                } else {
                    wrapped("enum<", "_", ">")
                }
            },
            Type::Null(inner) => wrapped("null<", inner.display_rec(ctx, parents).as_str(), ">"),
            Type::Method(fun) => fun_text(ctx, fun, parents),
            Type::Struct(obj) => {
                let mut text = obj.name.display(ctx);
                text.append("<");
                text.append(fields_text(ctx, &obj.fields, parents).as_str());
                text.append(">");
                text
            },
            Type::Packed(inner) => wrapped(
                "packed<",
                inner.display_rec(ctx, parents).as_str(),
                ">",
            ),
        }
    }
}

impl RefFloat {
    /// The constant as text is given by its bits.
    pub fn display(&self, ctx: &Bytecode) -> (r: u64)
        requires
            self.0 < ctx.floats@.len(),
        ensures
            r == ctx.floats@[self.0 as int],
    {
        self.resolve(ctx.floats.as_slice())
    }
}

impl RefType {
    /// The text of the type this reference points to. A type that refers to itself is
    /// written `Self` inside its own text.
    pub fn display(&self, ctx: &Bytecode) -> (r: String)
        requires
            ctx.types_ok(),
            self.0 < ctx.types@.len(),
        ensures
            r@ == spec_display_rec(ctx, *self, Seq::empty()),
    {
        let parents: Vec<usize> = Vec::new();
        self.display_rec(ctx, &parents)
    }

    /// `{type}@{index}`
    pub open spec fn spec_display_id(&self, ctx: &Bytecode) -> Seq<char> {
        spec_display_rec(ctx, *self, Seq::empty()) + "@"@ + spec_decimal(self.0 as nat)
    }

    /// Display something like `{type}@{index}`
    pub fn display_id(&self, ctx: &Bytecode) -> (r: String)
        requires
            ctx.types_ok(),
            self.0 < ctx.types@.len(),
        ensures
            r@ == self.spec_display_id(ctx),
    {
        let mut text = self.display(ctx);
        text.append("@");
        text.append(decimal(self.0).as_str());
        text
    }

    /// The text of the type this reference points to, inside the types whose indices
    /// `parents` holds.
    pub fn display_rec(&self, ctx: &Bytecode, parents: &Vec<usize>) -> (r: String)
        requires
            ctx.types_ok(),
            trail_ok(ctx, parents@),
            self.0 < ctx.types@.len(),
        ensures
            r@ == spec_display_rec(ctx, *self, parents@),
        decreases ctx.types@.len() - parents@.len(), 0nat,
    {
        if contains_index(parents, self.0) {
            String::from_str("Self")
        } else {
            proof {
                lemma_trail_has_room(ctx, *self, parents@);
            }
            let inside = with_index(parents, self.0);
            self.resolve(ctx.types.as_slice()).display_rec(ctx, &inside)
        }
    }
}

impl ObjField {
    /// True where the name and the type of the field lie inside their pools.
    pub fn check_refs(&self, code: &Bytecode) -> (ok: bool)
        ensures
            ok == self.refs_ok(code),
    {
        self.name.0 < code.strings.len() && self.t.0 < code.types.len()
    }
}

/// True where the name and the type of every field lie inside their pools.
pub fn check_fields(code: &Bytecode, fields: &Vec<ObjField>) -> (ok: bool)
    ensures
        ok == forall|k: int| 0 <= k < fields@.len() ==> (#[trigger] fields@[k]).refs_ok(code),
{
    let mut k: usize = 0;
    while k < fields.len()
        invariant
            k <= fields@.len(),
            forall|j: int| 0 <= j < k ==> (#[trigger] fields@[j]).refs_ok(code),
        decreases fields.len() - k,
    {
        if !fields[k].check_refs(code) {
            return false;
        }
        k += 1;
    }
    true
}

impl TypeFun {
    /// True where the types of the arguments and of the result lie in the type table.
    pub fn check_refs(&self, code: &Bytecode) -> (ok: bool)
        ensures
            ok == self.refs_ok(code),
    {
        if self.ret.0 >= code.types.len() {
            return false;
        }
        let mut k: usize = 0;
        while k < self.args.len()
            invariant
                k <= self.args@.len(),
                forall|j: int| 0 <= j < k ==> (#[trigger] self.args@[j]).0 < code.types@.len(),
            decreases self.args.len() - k,
        {
            if self.args[k].0 >= code.types.len() {
                return false;
            }
            k += 1;
        }
        true
    }
}

impl Type {
    /// True where the text of the type can be written.
    pub fn check_refs(&self, code: &Bytecode) -> (ok: bool)
        ensures
            ok == self.refs_ok(code),
    {
        match self {
            Type::Fun(fun) => fun.check_refs(code),
            Type::Method(fun) => fun.check_refs(code),
            Type::Obj(obj) => obj.name.0 < code.strings.len(),
            Type::Struct(obj) => obj.name.0 < code.strings.len() && check_fields(code, &obj.fields),
            Type::Ref(inner) => inner.0 < code.types.len(),
            Type::Null(inner) => inner.0 < code.types.len(),
            Type::Packed(inner) => inner.0 < code.types.len(),
            Type::Virtual { fields } => check_fields(code, fields),
            Type::Abstract { name } => name.0 < code.strings.len(),
            Type::Enum { name, .. } => name.0 == 0 || name.0 < code.strings.len(),
            _ => true,
        }
    }
}

impl Bytecode {
    /// True where the text of every type of the type table can be written.
    pub fn check_types(&self) -> (ok: bool)
        ensures
            ok == self.types_ok(),
    {
        let mut t: usize = 0;
        while t < self.types.len()
            invariant
                t <= self.types@.len(),
                forall|j: int| 0 <= j < t ==> (#[trigger] self.types@[j]).refs_ok(self),
            decreases self.types.len() - t,
        {
            if !self.types[t].check_refs(self) {
                return false;
            }
            t += 1;
        }
        true
    }
}

impl Native {
    /// `fn:native {lib}/{name}@{findex} {type}@{index}`
    pub open spec fn spec_display_header(&self, ctx: &Bytecode) -> Seq<char> {
        "fn:native "@ + self.spec_display_id(ctx) + " "@ + self.t.spec_display_id(ctx)
    }

    /// Display something like `fn:native {lib}/{name}@{findex} {type}@{index}`
    pub fn display_header(&self, ctx: &Bytecode) -> (r: String)
        requires
            ctx.types_ok(),
            self.t.0 < ctx.types@.len(),
            self.lib.0 < ctx.strings@.len(),
            self.name.0 < ctx.strings@.len(),
        ensures
            r@ == self.spec_display_header(ctx),
    {
        let mut text = String::from_str("fn:native ");
        text.append(self.display_id(ctx).as_str());
        text.append(" ");
        text.append(self.t.display_id(ctx).as_str());
        text
    }
}

impl Function {
    /// `fn {name}@{findex} {type}@{index}`
    pub open spec fn spec_display_header(&self, ctx: &Bytecode) -> Seq<char> {
        "fn "@ + self.spec_display_id(ctx) + " "@ + self.t.spec_display_id(ctx)
    }

    /// Display something like `fn {name}@{findex} {type}@{index}`
    pub fn display_header(&self, ctx: &Bytecode) -> (r: String)
        requires
            ctx.types_ok(),
            self.t.0 < ctx.types@.len(),
            self.name matches Some(n) ==> n.0 < ctx.strings@.len(),
        ensures
            r@ == self.spec_display_header(ctx),
    {
        let mut text = String::from_str("fn ");
        text.append(self.display_id(ctx).as_str());
        text.append(" ");
        text.append(self.t.display_id(ctx).as_str());
        text
    }
}

impl<'a> FunPtr<'a> {
    /// The header of the function or native.
    pub open spec fn spec_display_header(&self, ctx: &Bytecode) -> Seq<char> {
        match self {
            FunPtr::Fun(fun) => fun.spec_display_header(ctx),
            FunPtr::Native(n) => n.spec_display_header(ctx),
        }
    }

    pub fn display_header(&self, ctx: &Bytecode) -> (r: String)
        requires
            ctx.types_ok(),
            self.spec_t().0 < ctx.types@.len(),
            self.display_valid(ctx),
        ensures
            r@ == self.spec_display_header(ctx),
    {
        match self {
            FunPtr::Fun(fun) => fun.display_header(ctx),
            FunPtr::Native(n) => n.display_header(ctx),
        }
    }
}

impl RefFun {
    /// The header of the function or native this findex names.
    pub fn display_header(&self, ctx: &Bytecode) -> (r: String)
        requires
            ctx.types_ok(),
            self.valid(ctx),
            self.spec_resolve(ctx).spec_t().0 < ctx.types@.len(),
            self.spec_resolve(ctx).display_valid(ctx),
        ensures
            r@ == self.spec_resolve(ctx).spec_display_header(ctx),
    {
        self.resolve(ctx).display_header(ctx)
    }
}

} // verus!
