//! The assembly view of an instruction: its name, and what it does with the names that the
//! bytecode gives to what it refers to.

use crate::fmt::{decimal, spec_decimal, spec_join};
use crate::opcodes::Opcode;
use crate::types::{Bytecode, Function, FunPtr, RefField, RefFun, Reg};
use crate::validity::{
    check_field, check_fun, check_fun_names, check_typed_reg, field_ok, reg_ok, reg_type, typed_reg,
};
use vstd::pervasive::unreached;
use vstd::prelude::*;

verus! {

/// A register as text: `reg` and its number.
pub open spec fn spec_reg(r: Reg) -> Seq<char> {
    "reg"@ + spec_decimal(r.0 as nat)
}

/// A number with its sign as text.
pub open spec fn spec_signed(n: int) -> Seq<char> {
    if n < 0 {
        "-"@ + spec_decimal((-n) as nat)
    } else {
        spec_decimal(n as nat)
    }
}

/// A truth value as text.
pub open spec fn spec_bool(b: bool) -> Seq<char> {
    if b {
        "true"@
    } else {
        "false"@
    }
}

/// Registers as text, with `, ` between each two.
pub open spec fn spec_regs(list: Seq<Reg>) -> Seq<char> {
    spec_join(Seq::new(list.len(), |k: int| spec_reg(list[k])), ", "@)
}

/// The text padded with spaces at its end up to `width` characters.
pub open spec fn spec_pad(text: Seq<char>, width: nat) -> Seq<char> {
    if text.len() >= width {
        text
    } else {
        text + Seq::new((width - text.len()) as nat, |k: int| ' ')
    }
}

/// The header of the function or native can be written.
pub open spec fn header_ok(ctx: &Bytecode, fun: RefFun) -> bool {
    &&& fun.valid(ctx)
    &&& fun.spec_resolve(ctx).display_valid(ctx)
    &&& ctx.types_ok()
    &&& fun.spec_resolve(ctx).spec_t().0 < ctx.types@.len()
}

/// True where the header of the function or native can be written.
pub fn check_header(ctx: &Bytecode, fun: RefFun) -> (ok: bool)
    ensures
        ok == header_ok(ctx, fun),
{
    if !check_fun(ctx, fun) || !check_fun_names(ctx, fun) || !ctx.check_types() {
        return false;
    }
    match fun.resolve(ctx) {
        FunPtr::Fun(f) => f.t.0 < ctx.types.len(),
        FunPtr::Native(n) => n.t.0 < ctx.types.len(),
    }
}

/// True where the place that a jump at `pos` leads to can be numbered.
pub fn target_fits(pos: i32, offset: i32) -> (ok: bool)
    ensures
        ok == (i32::MIN <= pos + offset + 1 <= i32::MAX),
{
    let target: i64 = pos as i64 + offset as i64 + 1;
    -2147483648 <= target && target <= 2147483647
}

/// A truth value as text.
pub fn bool_text(b: bool) -> (r: &'static str)
    ensures
        r@ == spec_bool(b),
{
    if b {
        "true"
    } else {
        "false"
    }
}

/// The name of a field in the type of a register.
pub fn field_name(ctx: &Bytecode, parent: &Function, obj: Reg, field: RefField) -> (r: String)
    requires
        field_ok(ctx, parent, obj, field),
    ensures
        r@ == field.spec_display_obj(reg_type(ctx, parent, obj), ctx),
{
    field.display_obj(parent.regtype(obj).resolve(ctx.types.as_slice()), ctx)
}

/// A line of text that is being written.
pub struct Line {
    pub text: String,
}

impl Line {
    /// A line that starts with a text.
    pub fn start(s: &str) -> (r: Line)
        ensures
            r.text@ == s@,
    {
        Line { text: String::from_str(s) }
    }

    /// A line that starts with a register.
    pub fn start_reg(r: Reg) -> (line: Line)
        ensures
            line.text@ == spec_reg(r),
    {
        let mut text = String::from_str("reg");
        text.append(decimal(r.0 as usize).as_str());
        Line { text }
    }

    /// The line with a text more.
    pub fn lit(self, s: &str) -> (r: Line)
        ensures
            r.text@ == self.text@ + s@,
    {
        let mut text = self.text;
        text.append(s);
        Line { text }
    }

    /// The line with a register more.
    pub fn reg(self, r: Reg) -> (line: Line)
        ensures
            line.text@ == self.text@ + spec_reg(r),
    {
        let shown = Line::start_reg(r);
        self.lit(shown.text.as_str())
    }

    /// The line with a number more.
    pub fn num(self, n: usize) -> (r: Line)
        ensures
            r.text@ == self.text@ + spec_decimal(n as nat),
    {
        self.lit(decimal(n).as_str())
    }

    /// The line with a number with its sign more.
    pub fn signed(self, n: i64) -> (r: Line)
        requires
            -2147483648 <= n <= 2147483647,
        ensures
            r.text@ == self.text@ + spec_signed(n as int),
    {
        if n < 0 {
            let mut shown = String::from_str("-");
            shown.append(decimal((-n) as usize).as_str());
            self.lit(shown.as_str())
        } else {
            self.lit(decimal(n as usize).as_str())
        }
    }

    /// The line with the registers from the index `from` on more.
    pub fn regs(self, list: &[Reg], from: usize) -> (r: Line)
        requires
            from <= list@.len(),
        ensures
            r.text@ == self.text@ + spec_regs(list@.skip(from as int)),
            from == 0 ==> r.text@ == self.text@ + spec_regs(list@),
    {
        assert(list@.skip(0) =~= list@);
        let ghost rest = list@.skip(from as int);
        let ghost all = Seq::new(rest.len(), |k: int| spec_reg(rest[k]));
        let mut joined = String::new();
        let mut k: usize = from;
        while k < list.len()
            invariant
                from <= k <= list@.len(),
                rest == list@.skip(from as int),
                all == Seq::new(rest.len(), |k: int| spec_reg(rest[k])),
                joined@ == spec_join(all.take(k - from), ", "@),
            decreases list.len() - k,
        {
            let item = Line::start_reg(list[k]);
            assert(all.take(k - from + 1).drop_last() =~= all.take(k - from));
            if k > from {
                joined.append(", ");
            }
            joined.append(item.text.as_str());
            k += 1;
        }
        assert(all.take(k - from) =~= all);
        self.lit(joined.as_str())
    }

    /// The line padded with spaces at its end up to `width` characters.
    pub fn pad(self, width: usize) -> (r: Line)
        ensures
            r.text@ == spec_pad(self.text@, width as nat),
    {
        let len = self.text.as_str().unicode_len();
        let mut text = self.text;
        let ghost start = text@;
        let mut k: usize = len;
        proof {
            reveal_strlit(" ");
        }
        while k < width
            invariant
                len <= k,
                k <= width || k == len,
                len == start.len(),
                " "@ == seq![' '],
                text@ == start + Seq::new((k - len) as nat, |k: int| ' '),
            decreases width - k,
        {
            text.append(" ");
            k += 1;
        }
        Line { text }
    }
}

/// What an instruction at `pos` of the function `parent` does, as text. `None` for the
/// instructions whose text is made through the formatter of the standard library: the
/// load of a float, and those that are shown as their debug output.
pub open spec fn spec_text(op: Opcode, ctx: &Bytecode, parent: &Function, pos: int) -> Option<
    Seq<char>,
> {
    match op {
        Opcode::Mov { dst, src } => Some(spec_reg(dst) + " = "@ + spec_reg(src)),
        Opcode::Int { dst, ptr } => Some(
            spec_reg(dst)
                + " = "@
                + spec_signed(ctx.ints@[ptr.0 as int] as int)
        ),
        Opcode::Bool { dst, value } => Some(spec_reg(dst) + " = "@ + spec_bool(value.0)),
        Opcode::String { dst, ptr } => Some(
            spec_reg(dst)
                + " = \""@
                + ctx.strings@[ptr.0 as int]@
                + "\""@
        ),
        Opcode::Null { dst } => Some(spec_reg(dst) + " = null"@),
        Opcode::Add { dst, a, b } => Some(
            spec_reg(dst)
                + " = "@
                + spec_reg(a)
                + " + "@
                + spec_reg(b)
        ),
        Opcode::Sub { dst, a, b } => Some(
            spec_reg(dst)
                + " = "@
                + spec_reg(a)
                + " - "@
                + spec_reg(b)
        ),
        Opcode::Mul { dst, a, b } => Some(
            spec_reg(dst)
                + " = "@
                + spec_reg(a)
                + " * "@
                + spec_reg(b)
        ),
        Opcode::SDiv { dst, a, b } => Some(
            spec_reg(dst)
                + " = "@
                + spec_reg(a)
                + " / "@
                + spec_reg(b)
        ),
        Opcode::UDiv { dst, a, b } => Some(
            spec_reg(dst)
                + " = "@
                + spec_reg(a)
                + " / "@
                + spec_reg(b)
        ),
        Opcode::SMod { dst, a, b } => Some(
            spec_reg(dst)
                + " = "@
                + spec_reg(a)
                + " % "@
                + spec_reg(b)
        ),
        Opcode::UMod { dst, a, b } => Some(
            spec_reg(dst)
                + " = "@
                + spec_reg(a)
                + " % "@
                + spec_reg(b)
        ),
        Opcode::Shl { dst, a, b } => Some(
            spec_reg(dst)
                + " = "@
                + spec_reg(a)
                + " << "@
                + spec_reg(b)
        ),
        Opcode::SShr { dst, a, b } => Some(
            spec_reg(dst)
                + " = "@
                + spec_reg(a)
                + " >> "@
                + spec_reg(b)
        ),
        Opcode::UShr { dst, a, b } => Some(
            spec_reg(dst)
                + " = "@
                + spec_reg(a)
                + " >> "@
                + spec_reg(b)
        ),
        Opcode::And { dst, a, b } => Some(
            spec_reg(dst)
                + " = "@
                + spec_reg(a)
                + " & "@
                + spec_reg(b)
        ),
        Opcode::Or { dst, a, b } => Some(
            spec_reg(dst)
                + " = "@
                + spec_reg(a)
                + " | "@
                + spec_reg(b)
        ),
        Opcode::Xor { dst, a, b } => Some(
            spec_reg(dst)
                + " = "@
                + spec_reg(a)
                + " ^ "@
                + spec_reg(b)
        ),
        Opcode::Neg { dst, src } => Some(spec_reg(dst) + " = -"@ + spec_reg(src)),
        Opcode::Not { dst, src } => Some(spec_reg(dst) + " = !"@ + spec_reg(src)),
        Opcode::Incr { dst } => Some(spec_reg(dst) + "++"@),
        Opcode::Decr { dst } => Some(spec_reg(dst) + "--"@),
        Opcode::Call0 { dst, fun } => Some(
            spec_reg(dst)
                + " = "@
                + fun.spec_display_id(ctx)
                + "()"@
        ),
        Opcode::Call1 { dst, fun, arg0 } => Some(
            spec_reg(dst)
                + " = "@
                + fun.spec_display_id(ctx)
                + "("@
                + spec_reg(arg0)
                + ")"@
        ),
        Opcode::Call2 { dst, fun, arg0, arg1 } => Some(
            spec_reg(dst)
                + " = "@
                + fun.spec_display_id(ctx)
                + "("@
                + spec_reg(arg0)
                + ", "@
                + spec_reg(arg1)
                + ")"@
        ),
        Opcode::Call3 { dst, fun, arg0, arg1, arg2 } => Some(
            spec_reg(dst)
                + " = "@
                + fun.spec_display_id(ctx)
                + "("@
                + spec_reg(arg0)
                + ", "@
                + spec_reg(arg1)
                + ", "@
                + spec_reg(arg2)
                + ")"@
        ),
        Opcode::Call4 { dst, fun, arg0, arg1, arg2, arg3 } => Some(
            spec_reg(dst)
                + " = "@
                + fun.spec_display_id(ctx)
                + "("@
                + spec_reg(arg0)
                + ", "@
                + spec_reg(arg1)
                + ","@
                + spec_reg(arg2)
                + ", "@
                + spec_reg(arg3)
                + ")"@
        ),
        Opcode::CallN { dst, fun, args } => Some(
            spec_reg(dst)
                + " = "@
                + fun.spec_display_id(ctx)
                + "("@
                + spec_regs(args@)
                + ")"@
        ),
        Opcode::CallMethod { dst, field, args } => Some(
            spec_reg(dst)
                + " = "@
                + spec_reg(args@[0])
                + "."@
                + field.spec_display_obj(reg_type(ctx, parent, args@[0]), ctx)
                + "("@
                + spec_regs(args@.skip(1))
                + ")"@
        ),
        Opcode::CallThis { dst, field, args } => Some(
            spec_reg(dst)
                + " = reg0."@
                + field.spec_display_obj(reg_type(ctx, parent, Reg(0)), ctx)
                + "("@
                + spec_regs(args@)
                + ")"@
        ),
        Opcode::CallClosure { dst, fun, args } => Some(
            spec_reg(dst)
                + " = "@
                + spec_reg(fun)
                + "("@
                + spec_regs(args@)
                + ")"@
        ),
        Opcode::StaticClosure { dst, fun } => Some(
            spec_reg(dst)
                + " = "@
                + fun.spec_resolve(ctx).spec_display_header(ctx)
        ),
        Opcode::InstanceClosure { dst, fun, obj } => Some(
            spec_reg(dst)
                + " = "@
                + spec_reg(obj)
                + "."@
                + fun.spec_resolve(ctx).spec_display_header(ctx)
        ),
        Opcode::GetGlobal { dst, global } => Some(
            spec_reg(dst)
                + " = global@"@
                + spec_decimal(global.0 as nat)
        ),
        Opcode::SetGlobal { global, src } => Some(
            "global@"@
                + spec_decimal(global.0 as nat)
                + " = "@
                + spec_reg(src)
        ),
        Opcode::Field { dst, obj, field } => Some(
            spec_reg(dst)
                + " = "@
                + spec_reg(obj)
                + "."@
                + field.spec_display_obj(reg_type(ctx, parent, obj), ctx)
        ),
        Opcode::SetField { obj, field, src } => Some(
            spec_reg(obj)
                + "."@
                + field.spec_display_obj(reg_type(ctx, parent, obj), ctx)
                + " = "@
                + spec_reg(src)
        ),
        Opcode::GetThis { dst, field } => Some(
            spec_reg(dst)
                + " = this."@
                + field.spec_display_obj(reg_type(ctx, parent, Reg(0)), ctx)
        ),
        Opcode::SetThis { field, src } => Some(
            "this."@
                + field.spec_display_obj(reg_type(ctx, parent, Reg(0)), ctx)
                + " = "@
                + spec_reg(src)
        ),
        Opcode::DynGet { dst, obj, field } => Some(
            spec_reg(dst)
                + " = "@
                + spec_reg(obj)
                + "[\""@
                + ctx.strings@[field.0 as int]@
                + "\"]"@
        ),
        Opcode::DynSet { obj, field, src } => Some(
            spec_reg(obj)
                + "[\""@
                + ctx.strings@[field.0 as int]@
                + "\"] = "@
                + spec_reg(src)
        ),
        Opcode::JTrue { cond, offset } => Some(
            "if "@
                + spec_reg(cond)
                + " == true jump to "@
                + spec_signed(pos + offset + 1)
        ),
        Opcode::JFalse { cond, offset } => Some(
            "if "@
                + spec_reg(cond)
                + " == false jump to "@
                + spec_signed(pos + offset + 1)
        ),
        Opcode::JNull { reg, offset } => Some(
            "if "@
                + spec_reg(reg)
                + " == null jump to "@
                + spec_signed(pos + offset + 1)
        ),
        Opcode::JNotNull { reg, offset } => Some(
            "if "@
                + spec_reg(reg)
                + " != null jump to "@
                + spec_signed(pos + offset + 1)
        ),
        Opcode::JSLt { a, b, offset } => Some(
            "if "@
                + spec_reg(a)
                + " < "@
                + spec_reg(b)
                + " jump to "@
                + spec_signed(pos + offset + 1)
        ),
        Opcode::JSGte { a, b, offset } => Some(
            "if "@
                + spec_reg(a)
                + " >= "@
                + spec_reg(b)
                + " jump to "@
                + spec_signed(pos + offset + 1)
        ),
        Opcode::JSGt { a, b, offset } => Some(
            "if "@
                + spec_reg(a)
                + " > "@
                + spec_reg(b)
                + " jump to "@
                + spec_signed(pos + offset + 1)
        ),
        Opcode::JSLte { a, b, offset } => Some(
            "if "@
                + spec_reg(a)
                + " <= "@
                + spec_reg(b)
                + " jump to "@
                + spec_signed(pos + offset + 1)
        ),
        Opcode::JULt { a, b, offset } => Some(
            "if "@
                + spec_reg(a)
                + " < "@
                + spec_reg(b)
                + " jump to "@
                + spec_signed(pos + offset + 1)
        ),
        Opcode::JUGte { a, b, offset } => Some(
            "if "@
                + spec_reg(a)
                + " >= "@
                + spec_reg(b)
                + " jump to "@
                + spec_signed(pos + offset + 1)
        ),
        Opcode::JNotLt { a, b, offset } => Some(
            "if "@
                + spec_reg(a)
                + " !< "@
                + spec_reg(b)
                + " jump to "@
                + spec_signed(pos + offset + 1)
        ),
        Opcode::JNotGte { a, b, offset } => Some(
            "if "@
                + spec_reg(a)
                + " !>= "@
                + spec_reg(b)
                + " jump to "@
                + spec_signed(pos + offset + 1)
        ),
        Opcode::JEq { a, b, offset } => Some(
            "if "@
                + spec_reg(a)
                + " == "@
                + spec_reg(b)
                + " jump to "@
                + spec_signed(pos + offset + 1)
        ),
        Opcode::JNotEq { a, b, offset } => Some(
            "if "@
                + spec_reg(a)
                + " != "@
                + spec_reg(b)
                + " jump to "@
                + spec_signed(pos + offset + 1)
        ),
        Opcode::JAlways { offset } => Some("jump to "@ + spec_signed(pos + offset + 1)),
        Opcode::ToDyn { dst, src } => Some(spec_reg(dst) + " = cast "@ + spec_reg(src)),
        Opcode::ToInt { dst, src } => Some(spec_reg(dst) + " = cast "@ + spec_reg(src)),
        Opcode::SafeCast { dst, src } => Some(spec_reg(dst) + " = cast "@ + spec_reg(src)),
        Opcode::UnsafeCast { dst, src } => Some(spec_reg(dst) + " = cast "@ + spec_reg(src)),
        Opcode::ToVirtual { dst, src } => Some(spec_reg(dst) + " = cast "@ + spec_reg(src)),
        Opcode::Ret { ret } => Some(spec_reg(ret)),
        Opcode::Throw { exc } => Some("throw "@ + spec_reg(exc)),
        Opcode::Rethrow { exc } => Some("rethrow "@ + spec_reg(exc)),
        Opcode::NullCheck { reg } => Some("if "@ + spec_reg(reg) + " == null throw exc"@),
        Opcode::Trap { exc, offset } => Some(
            "try "@
                + spec_reg(exc)
                + " jump to "@
                + spec_signed(pos + offset + 1)
        ),
        Opcode::EndTrap { exc } => Some("catch "@ + spec_bool(exc)),
        Opcode::GetArray { dst, array, index } => Some(
            spec_reg(dst)
                + " = "@
                + spec_reg(array)
                + "["@
                + spec_reg(index)
                + "]"@
        ),
        Opcode::SetArray { array, index, src } => Some(
            spec_reg(array)
                + "["@
                + spec_reg(index)
                + "] = "@
                + spec_reg(src)
        ),
        Opcode::New { dst } => Some(
            spec_reg(dst)
                + " = new "@
                + parent.regs@[dst.0 as int].spec_display_id(ctx)
        ),
        Opcode::ArraySize { dst, array } => Some(
            spec_reg(dst)
                + " = "@
                + spec_reg(array)
                + ".length"@
        ),
        Opcode::Type { dst, ty } => Some(spec_reg(dst) + " = "@ + ty.spec_display_id(ctx)),
        Opcode::Ref { dst, src } => Some(spec_reg(dst) + " = &"@ + spec_reg(src)),
        Opcode::Unref { dst, src } => Some(spec_reg(dst) + " = *"@ + spec_reg(src)),
        Opcode::MakeEnum { dst, construct, args } => Some(
            spec_reg(dst)
                + " = variant "@
                + construct.spec_display(parent.regs@[dst.0 as int], ctx)
                + " ("@
                + spec_regs(args@)
                + ")"@
        ),
        Opcode::EnumAlloc { dst, construct } => Some(
            spec_reg(dst)
                + " = new "@
                + construct.spec_display(parent.regs@[dst.0 as int], ctx)
        ),
        Opcode::EnumIndex { dst, value } => Some(
            spec_reg(dst)
                + " = variant of "@
                + spec_reg(value)
        ),
        Opcode::EnumField { dst, value, construct, field } => Some(
            spec_reg(dst)
                + " = ("@
                + spec_reg(value)
                + " as "@
                + construct.spec_display(parent.regs@[dst.0 as int], ctx)
                + ")."@
                + spec_decimal(field.0 as nat)
        ),
        Opcode::SetEnumField { value, field, src } => Some(
            spec_reg(value)
                + "."@
                + spec_decimal(field.0 as nat)
                + " = "@
                + spec_reg(src)
        ),
        _ => None,
    }
}

/// Every index that the text of the instruction is resolved through lies inside its pool,
/// and the place that a jump leads to can be numbered.
pub open spec fn text_ok(op: Opcode, ctx: &Bytecode, parent: &Function, pos: int) -> bool {
    match op {
        Opcode::Int { ptr, .. } => ptr.0 < ctx.ints@.len(),
        Opcode::String { ptr, .. } => ptr.0 < ctx.strings@.len(),
        Opcode::Call0 { fun, .. } => fun.valid(ctx) && fun.spec_resolve(ctx).display_valid(ctx),
        Opcode::Call1 { fun, .. } => {
            fun.valid(ctx)
                && fun.spec_resolve(ctx).display_valid(ctx)
        },
        Opcode::Call2 { fun, .. } => {
            fun.valid(ctx)
                && fun.spec_resolve(ctx).display_valid(ctx)
        },
        Opcode::Call3 { fun, .. } => {
            fun.valid(ctx)
                && fun.spec_resolve(ctx).display_valid(ctx)
        },
        Opcode::Call4 { fun, .. } => {
            fun.valid(ctx)
                && fun.spec_resolve(ctx).display_valid(ctx)
        },
        Opcode::CallN { fun, .. } => {
            fun.valid(ctx)
                && fun.spec_resolve(ctx).display_valid(ctx)
        },
        Opcode::CallMethod { field, args, .. } => {
            args@.len() > 0
                && field_ok(ctx, parent, args@[0], field)
        },
        Opcode::CallThis { field, .. } => field_ok(ctx, parent, Reg(0), field),
        Opcode::StaticClosure { fun, .. } => header_ok(ctx, fun),
        Opcode::InstanceClosure { fun, .. } => header_ok(ctx, fun),
        Opcode::Field { obj, field, .. } => field_ok(ctx, parent, obj, field),
        Opcode::SetField { obj, field, .. } => field_ok(ctx, parent, obj, field),
        Opcode::GetThis { field, .. } => field_ok(ctx, parent, Reg(0), field),
        Opcode::SetThis { field, .. } => field_ok(ctx, parent, Reg(0), field),
        Opcode::DynGet { field, .. } => field.0 < ctx.strings@.len(),
        Opcode::DynSet { field, .. } => field.0 < ctx.strings@.len(),
        Opcode::JTrue { offset, .. } => i32::MIN <= pos + offset + 1 <= i32::MAX,
        Opcode::JFalse { offset, .. } => i32::MIN <= pos + offset + 1 <= i32::MAX,
        Opcode::JNull { offset, .. } => i32::MIN <= pos + offset + 1 <= i32::MAX,
        Opcode::JNotNull { offset, .. } => i32::MIN <= pos + offset + 1 <= i32::MAX,
        Opcode::JSLt { offset, .. } => i32::MIN <= pos + offset + 1 <= i32::MAX,
        Opcode::JSGte { offset, .. } => i32::MIN <= pos + offset + 1 <= i32::MAX,
        Opcode::JSGt { offset, .. } => i32::MIN <= pos + offset + 1 <= i32::MAX,
        Opcode::JSLte { offset, .. } => i32::MIN <= pos + offset + 1 <= i32::MAX,
        Opcode::JULt { offset, .. } => i32::MIN <= pos + offset + 1 <= i32::MAX,
        Opcode::JUGte { offset, .. } => i32::MIN <= pos + offset + 1 <= i32::MAX,
        Opcode::JNotLt { offset, .. } => i32::MIN <= pos + offset + 1 <= i32::MAX,
        Opcode::JNotGte { offset, .. } => i32::MIN <= pos + offset + 1 <= i32::MAX,
        Opcode::JEq { offset, .. } => i32::MIN <= pos + offset + 1 <= i32::MAX,
        Opcode::JNotEq { offset, .. } => i32::MIN <= pos + offset + 1 <= i32::MAX,
        Opcode::JAlways { offset } => i32::MIN <= pos + offset + 1 <= i32::MAX,
        Opcode::Trap { offset, .. } => i32::MIN <= pos + offset + 1 <= i32::MAX,
        Opcode::New { dst } => ctx.types_ok() && typed_reg(ctx, parent, dst),
        Opcode::Type { ty, .. } => ctx.types_ok() && ty.0 < ctx.types@.len(),
        Opcode::MakeEnum { dst, construct, .. } => {
            reg_ok(parent, dst)
                && construct.display_valid(parent.regs@[dst.0 as int], ctx)
        },
        Opcode::EnumAlloc { dst, construct } => {
            reg_ok(parent, dst)
                && construct.display_valid(parent.regs@[dst.0 as int], ctx)
        },
        Opcode::EnumField { dst, construct, .. } => {
            reg_ok(parent, dst)
                && construct.display_valid(parent.regs@[dst.0 as int], ctx)
        },
        _ => true,
    }
}

impl Opcode {
    /// True where the text of the instruction can be written.
    pub fn check_text(&self, ctx: &Bytecode, parent: &Function, pos: i32) -> (ok: bool)
        ensures
            ok == text_ok(*self, ctx, parent, pos as int),
    {
        match self {
            Opcode::Int { ptr, .. } => ptr.0 < ctx.ints.len(),
            Opcode::String { ptr, .. } => ptr.0 < ctx.strings.len(),
            Opcode::Call0 { fun, .. } => check_fun(ctx, *fun) && check_fun_names(ctx, *fun),
            Opcode::Call1 { fun, .. } => check_fun(ctx, *fun) && check_fun_names(ctx, *fun),
            Opcode::Call2 { fun, .. } => {
                check_fun(ctx, *fun)
                    && check_fun_names(ctx, *fun)
            },
            Opcode::Call3 { fun, .. } => {
                check_fun(ctx, *fun)
                    && check_fun_names(ctx, *fun)
            },
            Opcode::Call4 { fun, .. } => {
                check_fun(ctx, *fun)
                    && check_fun_names(ctx, *fun)
            },
            Opcode::CallN { fun, .. } => check_fun(ctx, *fun) && check_fun_names(ctx, *fun),
            Opcode::CallMethod { field, args, .. } => {
                args.len() > 0
                    && check_field(ctx, parent, args[0], *field)
            },
            Opcode::CallThis { field, .. } => check_field(ctx, parent, Reg(0), *field),
            Opcode::StaticClosure { fun, .. } => check_header(ctx, *fun),
            Opcode::InstanceClosure { fun, .. } => check_header(ctx, *fun),
            Opcode::Field { obj, field, .. } => check_field(ctx, parent, *obj, *field),
            Opcode::SetField { obj, field, .. } => check_field(ctx, parent, *obj, *field),
            Opcode::GetThis { field, .. } => check_field(ctx, parent, Reg(0), *field),
            Opcode::SetThis { field, .. } => check_field(ctx, parent, Reg(0), *field),
            Opcode::DynGet { field, .. } => field.0 < ctx.strings.len(),
            Opcode::DynSet { field, .. } => field.0 < ctx.strings.len(),
            Opcode::JTrue { offset, .. } => target_fits(pos, *offset),
            Opcode::JFalse { offset, .. } => target_fits(pos, *offset),
            Opcode::JNull { offset, .. } => target_fits(pos, *offset),
            Opcode::JNotNull { offset, .. } => target_fits(pos, *offset),
            Opcode::JSLt { offset, .. } => target_fits(pos, *offset),
            Opcode::JSGte { offset, .. } => target_fits(pos, *offset),
            Opcode::JSGt { offset, .. } => target_fits(pos, *offset),
            Opcode::JSLte { offset, .. } => target_fits(pos, *offset),
            Opcode::JULt { offset, .. } => target_fits(pos, *offset),
            Opcode::JUGte { offset, .. } => target_fits(pos, *offset),
            Opcode::JNotLt { offset, .. } => target_fits(pos, *offset),
            Opcode::JNotGte { offset, .. } => target_fits(pos, *offset),
            Opcode::JEq { offset, .. } => target_fits(pos, *offset),
            Opcode::JNotEq { offset, .. } => target_fits(pos, *offset),
            Opcode::JAlways { offset } => target_fits(pos, *offset),
            Opcode::Trap { offset, .. } => target_fits(pos, *offset),
            Opcode::New { dst } => ctx.check_types() && check_typed_reg(ctx, parent, *dst),
            Opcode::Type { ty, .. } => ctx.check_types() && ty.0 < ctx.types.len(),
            Opcode::MakeEnum { dst, construct, .. } => {
                (dst.0 as usize) < parent.regs.len()
                    && construct.check_display(parent.regs[dst.0 as usize], ctx)
            },
            Opcode::EnumAlloc { dst, construct } => {
                (dst.0 as usize) < parent.regs.len()
                    && construct.check_display(parent.regs[dst.0 as usize], ctx)
            },
            Opcode::EnumField { dst, construct, .. } => {
                (dst.0 as usize) < parent.regs.len()
                    && construct.check_display(parent.regs[dst.0 as usize], ctx)
            },
            _ => true,
        }
    }

    /// What the instruction does, as text. `None` for the instructions whose text is made
    /// through the formatter of the standard library.
    pub fn text(&self, ctx: &Bytecode, parent: &Function, pos: i32) -> (r: Option<String>)
        requires
            text_ok(*self, ctx, parent, pos as int),
        ensures
            match r {
                Some(s) => spec_text(*self, ctx, parent, pos as int) == Some(s@),
                None => spec_text(*self, ctx, parent, pos as int) is None,
            },
    {
        match self {
            Opcode::Mov { dst, src } => Some(Line::start_reg(*dst).lit(" = ").reg(*src).text),
            Opcode::Int { dst, ptr } => Some(
                Line::start_reg(*dst).lit(" = ").signed(ctx.ints[ptr.0] as i64)
                    .text,
            ),
            Opcode::Bool { dst, value } => Some(
                Line::start_reg(*dst).lit(" = ").lit(bool_text(value.0))
                    .text,
            ),
            Opcode::String { dst, ptr } => Some(
                Line::start_reg(*dst).lit(" = \"").lit(ctx.strings[ptr.0].as_str()).lit("\"")
                    .text,
            ),
            Opcode::Null { dst } => Some(Line::start_reg(*dst).lit(" = null").text),
            Opcode::Add { dst, a, b } => Some(
                Line::start_reg(*dst).lit(" = ").reg(*a).lit(" + ").reg(*b)
                    .text,
            ),
            Opcode::Sub { dst, a, b } => Some(
                Line::start_reg(*dst).lit(" = ").reg(*a).lit(" - ").reg(*b)
                    .text,
            ),
            Opcode::Mul { dst, a, b } => Some(
                Line::start_reg(*dst).lit(" = ").reg(*a).lit(" * ").reg(*b)
                    .text,
            ),
            Opcode::SDiv { dst, a, b } => Some(
                Line::start_reg(*dst).lit(" = ").reg(*a).lit(" / ").reg(*b)
                    .text,
            ),
            Opcode::UDiv { dst, a, b } => Some(
                Line::start_reg(*dst).lit(" = ").reg(*a).lit(" / ").reg(*b)
                    .text,
            ),
            Opcode::SMod { dst, a, b } => Some(
                Line::start_reg(*dst).lit(" = ").reg(*a).lit(" % ").reg(*b)
                    .text,
            ),
            Opcode::UMod { dst, a, b } => Some(
                Line::start_reg(*dst).lit(" = ").reg(*a).lit(" % ").reg(*b)
                    .text,
            ),
            Opcode::Shl { dst, a, b } => Some(
                Line::start_reg(*dst).lit(" = ").reg(*a).lit(" << ").reg(*b)
                    .text,
            ),
            Opcode::SShr { dst, a, b } => Some(
                Line::start_reg(*dst).lit(" = ").reg(*a).lit(" >> ").reg(*b)
                    .text,
            ),
            Opcode::UShr { dst, a, b } => Some(
                Line::start_reg(*dst).lit(" = ").reg(*a).lit(" >> ").reg(*b)
                    .text,
            ),
            Opcode::And { dst, a, b } => Some(
                Line::start_reg(*dst).lit(" = ").reg(*a).lit(" & ").reg(*b)
                    .text,
            ),
            Opcode::Or { dst, a, b } => Some(
                Line::start_reg(*dst).lit(" = ").reg(*a).lit(" | ").reg(*b)
                    .text,
            ),
            Opcode::Xor { dst, a, b } => Some(
                Line::start_reg(*dst).lit(" = ").reg(*a).lit(" ^ ").reg(*b)
                    .text,
            ),
            Opcode::Neg { dst, src } => Some(Line::start_reg(*dst).lit(" = -").reg(*src).text),
            Opcode::Not { dst, src } => Some(Line::start_reg(*dst).lit(" = !").reg(*src).text),
            Opcode::Incr { dst } => Some(Line::start_reg(*dst).lit("++").text),
            Opcode::Decr { dst } => Some(Line::start_reg(*dst).lit("--").text),
            Opcode::Call0 { dst, fun } => Some(
                Line::start_reg(*dst).lit(" = ").lit(fun.display_id(ctx).as_str()).lit("()")
                    .text,
            ),
            Opcode::Call1 { dst, fun, arg0 } => Some(
                Line::start_reg(*dst)
                    .lit(" = ")
                    .lit(fun.display_id(ctx).as_str())
                    .lit("(")
                    .reg(*arg0)
                    .lit(")")
                    .text,
            ),
            Opcode::Call2 { dst, fun, arg0, arg1 } => Some(
                Line::start_reg(*dst)
                    .lit(" = ")
                    .lit(fun.display_id(ctx).as_str())
                    .lit("(")
                    .reg(*arg0)
                    .lit(", ")
                    .reg(*arg1)
                    .lit(")")
                    .text,
            ),
            Opcode::Call3 { dst, fun, arg0, arg1, arg2 } => Some(
                Line::start_reg(*dst)
                    .lit(" = ")
                    .lit(fun.display_id(ctx).as_str())
                    .lit("(")
                    .reg(*arg0)
                    .lit(", ")
                    .reg(*arg1)
                    .lit(", ")
                    .reg(*arg2)
                    .lit(")")
                    .text,
            ),
            Opcode::Call4 { dst, fun, arg0, arg1, arg2, arg3 } => Some(
                Line::start_reg(*dst)
                    .lit(" = ")
                    .lit(fun.display_id(ctx).as_str())
                    .lit("(")
                    .reg(*arg0)
                    .lit(", ")
                    .reg(*arg1)
                    .lit(",")
                    .reg(*arg2)
                    .lit(", ")
                    .reg(*arg3)
                    .lit(")")
                    .text,
            ),
            Opcode::CallN { dst, fun, args } => Some(
                Line::start_reg(*dst)
                    .lit(" = ")
                    .lit(fun.display_id(ctx).as_str())
                    .lit("(")
                    .regs(args.as_slice(), 0)
                    .lit(")")
                    .text,
            ),
            Opcode::CallMethod { dst, field, args } => Some(
                Line::start_reg(*dst)
                    .lit(" = ")
                    .reg(args[0])
                    .lit(".")
                    .lit(
                        field_name(ctx, parent, args[0], *field).as_str(),
                    )
                    .lit("(")
                    .regs(args.as_slice(), 1)
                    .lit(")")
                    .text,
            ),
            Opcode::CallThis { dst, field, args } => Some(
                Line::start_reg(*dst)
                    .lit(" = reg0.")
                    .lit(
                        field_name(ctx, parent, Reg(0), *field).as_str(),
                    )
                    .lit("(")
                    .regs(args.as_slice(), 0)
                    .lit(")")
                    .text,
            ),
            Opcode::CallClosure { dst, fun, args } => Some(
                Line::start_reg(*dst)
                    .lit(" = ")
                    .reg(*fun)
                    .lit("(")
                    .regs(args.as_slice(), 0)
                    .lit(")")
                    .text,
            ),
            Opcode::StaticClosure { dst, fun } => Some(
                Line::start_reg(*dst).lit(" = ").lit(fun.display_header(ctx).as_str())
                    .text,
            ),
            Opcode::InstanceClosure { dst, fun, obj } => Some(
                Line::start_reg(*dst)
                    .lit(" = ")
                    .reg(*obj)
                    .lit(".")
                    .lit(fun.display_header(ctx).as_str())
                    .text,
            ),
            Opcode::GetGlobal { dst, global } => Some(
                Line::start_reg(*dst).lit(" = global@").num(global.0)
                    .text,
            ),
            Opcode::SetGlobal { global, src } => Some(
                Line::start("global@").num(global.0).lit(" = ").reg(*src)
                    .text,
            ),
            Opcode::Field { dst, obj, field } => Some(
                Line::start_reg(*dst)
                    .lit(" = ")
                    .reg(*obj)
                    .lit(".")
                    .lit(
                        field_name(ctx, parent, *obj, *field).as_str(),
                    )
                    .text,
            ),
            Opcode::SetField { obj, field, src } => Some(
                Line::start_reg(*obj)
                    .lit(".")
                    .lit(
                        field_name(ctx, parent, *obj, *field).as_str(),
                    )
                    .lit(" = ")
                    .reg(*src)
                    .text,
            ),
            Opcode::GetThis { dst, field } => Some(
                Line::start_reg(*dst)
                    .lit(" = this.")
                    .lit(
                        field_name(ctx, parent, Reg(0), *field).as_str(),
                    )
                    .text,
            ),
            Opcode::SetThis { field, src } => Some(
                Line::start("this.")
                    .lit(
                        field_name(ctx, parent, Reg(0), *field).as_str(),
                    )
                    .lit(" = ")
                    .reg(*src)
                    .text,
            ),
            Opcode::DynGet { dst, obj, field } => Some(
                Line::start_reg(*dst)
                    .lit(" = ")
                    .reg(*obj)
                    .lit("[\"")
                    .lit(ctx.strings[field.0].as_str())
                    .lit("\"]")
                    .text,
            ),
            Opcode::DynSet { obj, field, src } => Some(
                Line::start_reg(*obj)
                    .lit("[\"")
                    .lit(ctx.strings[field.0].as_str())
                    .lit("\"] = ")
                    .reg(*src)
                    .text,
            ),
            Opcode::JTrue { cond, offset } => Some(
                Line::start("if ")
                    .reg(*cond)
                    .lit(" == true jump to ")
                    .signed(pos as i64 + *offset as i64 + 1)
                    .text,
            ),
            Opcode::JFalse { cond, offset } => Some(
                Line::start("if ")
                    .reg(*cond)
                    .lit(" == false jump to ")
                    .signed(pos as i64 + *offset as i64 + 1)
                    .text,
            ),
            Opcode::JNull { reg, offset } => Some(
                Line::start("if ")
                    .reg(*reg)
                    .lit(" == null jump to ")
                    .signed(pos as i64 + *offset as i64 + 1)
                    .text,
            ),
            Opcode::JNotNull { reg, offset } => Some(
                Line::start("if ")
                    .reg(*reg)
                    .lit(" != null jump to ")
                    .signed(pos as i64 + *offset as i64 + 1)
                    .text,
            ),
            Opcode::JSLt { a, b, offset } => Some(
                Line::start("if ")
                    .reg(*a)
                    .lit(" < ")
                    .reg(*b)
                    .lit(" jump to ")
                    .signed(pos as i64 + *offset as i64 + 1)
                    .text,
            ),
            Opcode::JSGte { a, b, offset } => Some(
                Line::start("if ")
                    .reg(*a)
                    .lit(" >= ")
                    .reg(*b)
                    .lit(" jump to ")
                    .signed(pos as i64 + *offset as i64 + 1)
                    .text,
            ),
            Opcode::JSGt { a, b, offset } => Some(
                Line::start("if ")
                    .reg(*a)
                    .lit(" > ")
                    .reg(*b)
                    .lit(" jump to ")
                    .signed(pos as i64 + *offset as i64 + 1)
                    .text,
            ),
            Opcode::JSLte { a, b, offset } => Some(
                Line::start("if ")
                    .reg(*a)
                    .lit(" <= ")
                    .reg(*b)
                    .lit(" jump to ")
                    .signed(pos as i64 + *offset as i64 + 1)
                    .text,
            ),
            Opcode::JULt { a, b, offset } => Some(
                Line::start("if ")
                    .reg(*a)
                    .lit(" < ")
                    .reg(*b)
                    .lit(" jump to ")
                    .signed(pos as i64 + *offset as i64 + 1)
                    .text,
            ),
            Opcode::JUGte { a, b, offset } => Some(
                Line::start("if ")
                    .reg(*a)
                    .lit(" >= ")
                    .reg(*b)
                    .lit(" jump to ")
                    .signed(pos as i64 + *offset as i64 + 1)
                    .text,
            ),
            Opcode::JNotLt { a, b, offset } => Some(
                Line::start("if ")
                    .reg(*a)
                    .lit(" !< ")
                    .reg(*b)
                    .lit(" jump to ")
                    .signed(pos as i64 + *offset as i64 + 1)
                    .text,
            ),
            Opcode::JNotGte { a, b, offset } => Some(
                Line::start("if ")
                    .reg(*a)
                    .lit(" !>= ")
                    .reg(*b)
                    .lit(" jump to ")
                    .signed(pos as i64 + *offset as i64 + 1)
                    .text,
            ),
            Opcode::JEq { a, b, offset } => Some(
                Line::start("if ")
                    .reg(*a)
                    .lit(" == ")
                    .reg(*b)
                    .lit(" jump to ")
                    .signed(pos as i64 + *offset as i64 + 1)
                    .text,
            ),
            Opcode::JNotEq { a, b, offset } => Some(
                Line::start("if ")
                    .reg(*a)
                    .lit(" != ")
                    .reg(*b)
                    .lit(" jump to ")
                    .signed(pos as i64 + *offset as i64 + 1)
                    .text,
            ),
            Opcode::JAlways { offset } => Some(
                Line::start("jump to ").signed(pos as i64 + *offset as i64 + 1)
                    .text,
            ),
            Opcode::ToDyn { dst, src } => Some(
                Line::start_reg(*dst).lit(" = cast ").reg(*src)
                    .text,
            ),
            Opcode::ToInt { dst, src } => Some(
                Line::start_reg(*dst).lit(" = cast ").reg(*src)
                    .text,
            ),
            Opcode::SafeCast { dst, src } => Some(
                Line::start_reg(*dst).lit(" = cast ").reg(*src)
                    .text,
            ),
            Opcode::UnsafeCast { dst, src } => Some(
                Line::start_reg(*dst).lit(" = cast ").reg(*src)
                    .text,
            ),
            Opcode::ToVirtual { dst, src } => Some(
                Line::start_reg(*dst).lit(" = cast ").reg(*src)
                    .text,
            ),
            Opcode::Ret { ret } => Some(Line::start_reg(*ret).text),
            Opcode::Throw { exc } => Some(Line::start("throw ").reg(*exc).text),
            Opcode::Rethrow { exc } => Some(Line::start("rethrow ").reg(*exc).text),
            Opcode::NullCheck { reg } => Some(
                Line::start("if ").reg(*reg).lit(" == null throw exc")
                    .text,
            ),
            Opcode::Trap { exc, offset } => Some(
                Line::start("try ")
                    .reg(*exc)
                    .lit(" jump to ")
                    .signed(pos as i64 + *offset as i64 + 1)
                    .text,
            ),
            Opcode::EndTrap { exc } => Some(Line::start("catch ").lit(bool_text(*exc)).text),
            Opcode::GetArray { dst, array, index } => Some(
                Line::start_reg(*dst).lit(" = ").reg(*array).lit("[").reg(*index).lit("]")
                    .text,
            ),
            Opcode::SetArray { array, index, src } => Some(
                Line::start_reg(*array).lit("[").reg(*index).lit("] = ").reg(*src)
                    .text,
            ),
            Opcode::New { dst } => Some(
                Line::start_reg(*dst)
                    .lit(" = new ")
                    .lit(parent.regtype(*dst).display_id(ctx).as_str())
                    .text,
            ),
            Opcode::ArraySize { dst, array } => Some(
                Line::start_reg(*dst).lit(" = ").reg(*array).lit(".length")
                    .text,
            ),
            Opcode::Type { dst, ty } => Some(
                Line::start_reg(*dst).lit(" = ").lit(ty.display_id(ctx).as_str())
                    .text,
            ),
            Opcode::Ref { dst, src } => Some(Line::start_reg(*dst).lit(" = &").reg(*src).text),
            Opcode::Unref { dst, src } => Some(Line::start_reg(*dst).lit(" = *").reg(*src).text),
            Opcode::MakeEnum { dst, construct, args } => Some(
                Line::start_reg(*dst)
                    .lit(" = variant ")
                    .lit(construct.display(parent.regtype(*dst), ctx).as_str())
                    .lit(" (")
                    .regs(args.as_slice(), 0)
                    .lit(")")
                    .text,
            ),
            Opcode::EnumAlloc { dst, construct } => Some(
                Line::start_reg(*dst)
                    .lit(" = new ")
                    .lit(construct.display(parent.regtype(*dst), ctx).as_str())
                    .text,
            ),
            Opcode::EnumIndex { dst, value } => Some(
                Line::start_reg(*dst).lit(" = variant of ").reg(*value)
                    .text,
            ),
            Opcode::EnumField { dst, value, construct, field } => Some(
                Line::start_reg(*dst)
                    .lit(" = (")
                    .reg(*value)
                    .lit(" as ")
                    .lit(construct.display(parent.regtype(*dst), ctx).as_str())
                    .lit(").")
                    .num(field.0)
                    .text,
            ),
            Opcode::SetEnumField { value, field, src } => Some(
                Line::start_reg(*value).lit(".").num(field.0).lit(" = ").reg(*src)
                    .text,
            ),
            _ => None,
        }
    }

    /// This display is an enhanced assembly view, with nice printing and added information
    /// from the context: the name of the instruction, padded to `align` characters, a space,
    /// and what the instruction does. `None` for the instructions whose text is made through
    /// the formatter of the standard library.
    pub fn display(&self, ctx: &Bytecode, parent: &Function, pos: i32, align: usize) -> (r: Option<
        String,
    >)
        requires
            text_ok(*self, ctx, parent, pos as int),
        ensures
            match r {
                Some(s) => spec_line(*self, ctx, parent, pos as int, align as nat) == Some(s@),
                None => spec_line(*self, ctx, parent, pos as int, align as nat) is None,
            },
    {
        match self.text(ctx, parent, pos) {
            Some(text) => Some(
                Line::start(self.name()).pad(align).lit(" ").lit(text.as_str()).text,
            ),
            None => None,
        }
    }
}

impl Opcode {
    /// The name of the instruction.
    pub open spec fn spec_name(&self) -> Seq<char> {
        match self {
            Opcode::Mov { .. } => "Mov"@,
            Opcode::Int { .. } => "Int"@,
            Opcode::Float { .. } => "Float"@,
            Opcode::Bool { .. } => "Bool"@,
            Opcode::Bytes { .. } => "Bytes"@,
            Opcode::String { .. } => "String"@,
            Opcode::Null { .. } => "Null"@,
            Opcode::Add { .. } => "Add"@,
            Opcode::Sub { .. } => "Sub"@,
            Opcode::Mul { .. } => "Mul"@,
            Opcode::SDiv { .. } => "SDiv"@,
            Opcode::UDiv { .. } => "UDiv"@,
            Opcode::SMod { .. } => "SMod"@,
            Opcode::UMod { .. } => "UMod"@,
            Opcode::Shl { .. } => "Shl"@,
            Opcode::SShr { .. } => "SShr"@,
            Opcode::UShr { .. } => "UShr"@,
            Opcode::And { .. } => "And"@,
            Opcode::Or { .. } => "Or"@,
            Opcode::Xor { .. } => "Xor"@,
            Opcode::Neg { .. } => "Neg"@,
            Opcode::Not { .. } => "Not"@,
            Opcode::Incr { .. } => "Incr"@,
            Opcode::Decr { .. } => "Decr"@,
            Opcode::Call0 { .. } => "Call0"@,
            Opcode::Call1 { .. } => "Call1"@,
            Opcode::Call2 { .. } => "Call2"@,
            Opcode::Call3 { .. } => "Call3"@,
            Opcode::Call4 { .. } => "Call4"@,
            Opcode::CallN { .. } => "CallN"@,
            Opcode::CallMethod { .. } => "CallMethod"@,
            Opcode::CallThis { .. } => "CallThis"@,
            Opcode::CallClosure { .. } => "CallClosure"@,
            Opcode::StaticClosure { .. } => "StaticClosure"@,
            Opcode::InstanceClosure { .. } => "InstanceClosure"@,
            Opcode::VirtualClosure { .. } => "VirtualClosure"@,
            Opcode::GetGlobal { .. } => "GetGlobal"@,
            Opcode::SetGlobal { .. } => "SetGlobal"@,
            Opcode::Field { .. } => "Field"@,
            Opcode::SetField { .. } => "SetField"@,
            Opcode::GetThis { .. } => "GetThis"@,
            Opcode::SetThis { .. } => "SetThis"@,
            Opcode::DynGet { .. } => "DynGet"@,
            Opcode::DynSet { .. } => "DynSet"@,
            Opcode::JTrue { .. } => "JTrue"@,
            Opcode::JFalse { .. } => "JFalse"@,
            Opcode::JNull { .. } => "JNull"@,
            Opcode::JNotNull { .. } => "JNotNull"@,
            Opcode::JSLt { .. } => "JSLt"@,
            Opcode::JSGte { .. } => "JSGte"@,
            Opcode::JSGt { .. } => "JSGt"@,
            Opcode::JSLte { .. } => "JSLte"@,
            Opcode::JULt { .. } => "JULt"@,
            Opcode::JUGte { .. } => "JUGte"@,
            Opcode::JNotLt { .. } => "JNotLt"@,
            Opcode::JNotGte { .. } => "JNotGte"@,
            Opcode::JEq { .. } => "JEq"@,
            Opcode::JNotEq { .. } => "JNotEq"@,
            Opcode::JAlways { .. } => "JAlways"@,
            Opcode::ToDyn { .. } => "ToDyn"@,
            Opcode::ToSFloat { .. } => "ToSFloat"@,
            Opcode::ToUFloat { .. } => "ToUFloat"@,
            Opcode::ToInt { .. } => "ToInt"@,
            Opcode::SafeCast { .. } => "SafeCast"@,
            Opcode::UnsafeCast { .. } => "UnsafeCast"@,
            Opcode::ToVirtual { .. } => "ToVirtual"@,
            Opcode::Label => "Label"@,
            Opcode::Ret { .. } => "Ret"@,
            Opcode::Throw { .. } => "Throw"@,
            Opcode::Rethrow { .. } => "Rethrow"@,
            Opcode::Switch { .. } => "Switch"@,
            Opcode::NullCheck { .. } => "NullCheck"@,
            Opcode::Trap { .. } => "Trap"@,
            Opcode::EndTrap { .. } => "EndTrap"@,
            Opcode::GetI8 { .. } => "GetI8"@,
            Opcode::GetI16 { .. } => "GetI16"@,
            Opcode::GetMem { .. } => "GetMem"@,
            Opcode::GetArray { .. } => "GetArray"@,
            Opcode::SetI8 { .. } => "SetI8"@,
            Opcode::SetI16 { .. } => "SetI16"@,
            Opcode::SetMem { .. } => "SetMem"@,
            Opcode::SetArray { .. } => "SetArray"@,
            Opcode::New { .. } => "New"@,
            Opcode::ArraySize { .. } => "ArraySize"@,
            Opcode::Type { .. } => "Type"@,
            Opcode::GetType { .. } => "GetType"@,
            Opcode::GetTID { .. } => "GetTID"@,
            Opcode::Ref { .. } => "Ref"@,
            Opcode::Unref { .. } => "Unref"@,
            Opcode::Setref { .. } => "Setref"@,
            Opcode::MakeEnum { .. } => "MakeEnum"@,
            Opcode::EnumAlloc { .. } => "EnumAlloc"@,
            Opcode::EnumIndex { .. } => "EnumIndex"@,
            Opcode::EnumField { .. } => "EnumField"@,
            Opcode::SetEnumField { .. } => "SetEnumField"@,
            Opcode::Assert => "Assert"@,
            Opcode::RefData { .. } => "RefData"@,
            Opcode::RefOffset { .. } => "RefOffset"@,
            Opcode::Nop => "Nop"@,
        }
    }

    /// The name of the instruction.
    pub fn name(&self) -> (r: &'static str)
        ensures
            r@ == self.spec_name(),
    {
        match self {
            Opcode::Mov { .. } => "Mov",
            Opcode::Int { .. } => "Int",
            Opcode::Float { .. } => "Float",
            Opcode::Bool { .. } => "Bool",
            Opcode::Bytes { .. } => "Bytes",
            Opcode::String { .. } => "String",
            Opcode::Null { .. } => "Null",
            Opcode::Add { .. } => "Add",
            Opcode::Sub { .. } => "Sub",
            Opcode::Mul { .. } => "Mul",
            Opcode::SDiv { .. } => "SDiv",
            Opcode::UDiv { .. } => "UDiv",
            Opcode::SMod { .. } => "SMod",
            Opcode::UMod { .. } => "UMod",
            Opcode::Shl { .. } => "Shl",
            Opcode::SShr { .. } => "SShr",
            Opcode::UShr { .. } => "UShr",
            Opcode::And { .. } => "And",
            Opcode::Or { .. } => "Or",
            Opcode::Xor { .. } => "Xor",
            Opcode::Neg { .. } => "Neg",
            Opcode::Not { .. } => "Not",
            Opcode::Incr { .. } => "Incr",
            Opcode::Decr { .. } => "Decr",
            Opcode::Call0 { .. } => "Call0",
            Opcode::Call1 { .. } => "Call1",
            Opcode::Call2 { .. } => "Call2",
            Opcode::Call3 { .. } => "Call3",
            Opcode::Call4 { .. } => "Call4",
            Opcode::CallN { .. } => "CallN",
            Opcode::CallMethod { .. } => "CallMethod",
            Opcode::CallThis { .. } => "CallThis",
            Opcode::CallClosure { .. } => "CallClosure",
            Opcode::StaticClosure { .. } => "StaticClosure",
            Opcode::InstanceClosure { .. } => "InstanceClosure",
            Opcode::VirtualClosure { .. } => "VirtualClosure",
            Opcode::GetGlobal { .. } => "GetGlobal",
            Opcode::SetGlobal { .. } => "SetGlobal",
            Opcode::Field { .. } => "Field",
            Opcode::SetField { .. } => "SetField",
            Opcode::GetThis { .. } => "GetThis",
            Opcode::SetThis { .. } => "SetThis",
            Opcode::DynGet { .. } => "DynGet",
            Opcode::DynSet { .. } => "DynSet",
            Opcode::JTrue { .. } => "JTrue",
            Opcode::JFalse { .. } => "JFalse",
            Opcode::JNull { .. } => "JNull",
            Opcode::JNotNull { .. } => "JNotNull",
            Opcode::JSLt { .. } => "JSLt",
            Opcode::JSGte { .. } => "JSGte",
            Opcode::JSGt { .. } => "JSGt",
            Opcode::JSLte { .. } => "JSLte",
            Opcode::JULt { .. } => "JULt",
            Opcode::JUGte { .. } => "JUGte",
            Opcode::JNotLt { .. } => "JNotLt",
            Opcode::JNotGte { .. } => "JNotGte",
            Opcode::JEq { .. } => "JEq",
            Opcode::JNotEq { .. } => "JNotEq",
            Opcode::JAlways { .. } => "JAlways",
            Opcode::ToDyn { .. } => "ToDyn",
            Opcode::ToSFloat { .. } => "ToSFloat",
            Opcode::ToUFloat { .. } => "ToUFloat",
            Opcode::ToInt { .. } => "ToInt",
            Opcode::SafeCast { .. } => "SafeCast",
            Opcode::UnsafeCast { .. } => "UnsafeCast",
            Opcode::ToVirtual { .. } => "ToVirtual",
            Opcode::Label => "Label",
            Opcode::Ret { .. } => "Ret",
            Opcode::Throw { .. } => "Throw",
            Opcode::Rethrow { .. } => "Rethrow",
            Opcode::Switch { .. } => "Switch",
            Opcode::NullCheck { .. } => "NullCheck",
            Opcode::Trap { .. } => "Trap",
            Opcode::EndTrap { .. } => "EndTrap",
            Opcode::GetI8 { .. } => "GetI8",
            Opcode::GetI16 { .. } => "GetI16",
            Opcode::GetMem { .. } => "GetMem",
            Opcode::GetArray { .. } => "GetArray",
            Opcode::SetI8 { .. } => "SetI8",
            Opcode::SetI16 { .. } => "SetI16",
            Opcode::SetMem { .. } => "SetMem",
            Opcode::SetArray { .. } => "SetArray",
            Opcode::New { .. } => "New",
            Opcode::ArraySize { .. } => "ArraySize",
            Opcode::Type { .. } => "Type",
            Opcode::GetType { .. } => "GetType",
            Opcode::GetTID { .. } => "GetTID",
            Opcode::Ref { .. } => "Ref",
            Opcode::Unref { .. } => "Unref",
            Opcode::Setref { .. } => "Setref",
            Opcode::MakeEnum { .. } => "MakeEnum",
            Opcode::EnumAlloc { .. } => "EnumAlloc",
            Opcode::EnumIndex { .. } => "EnumIndex",
            Opcode::EnumField { .. } => "EnumField",
            Opcode::SetEnumField { .. } => "SetEnumField",
            Opcode::Assert => "Assert",
            Opcode::RefData { .. } => "RefData",
            Opcode::RefOffset { .. } => "RefOffset",
            Opcode::Nop => "Nop",
        }
    }
}

/// The line of an instruction without a place before it: its name, padded to `align`
/// characters, a space, and what it does. `None` where the instruction has no text of its
/// own.
pub open spec fn spec_line(
    op: Opcode,
    ctx: &Bytecode,
    parent: &Function,
    pos: int,
    align: nat,
) -> Option<Seq<char>> {
    match spec_text(op, ctx, parent, pos) {
        Some(t) => Some(spec_pad(op.spec_name(), align) + " "@ + t),
        None => None,
    }
}

/// The text padded with spaces at its start up to `width` characters.
pub open spec fn spec_pad_start(text: Seq<char>, width: nat) -> Seq<char> {
    if text.len() >= width {
        text
    } else {
        Seq::new((width - text.len()) as nat, |k: int| ' ') + text
    }
}

/// The text padded with spaces at its start up to `width` characters.
pub fn pad_start(text: &str, width: usize) -> (r: String)
    ensures
        r@ == spec_pad_start(text@, width as nat),
{
    let len = text.unicode_len();
    let mut out = String::new();
    let mut k: usize = len;
    proof {
        reveal_strlit(" ");
        assert(out@ =~= Seq::new(0nat, |k: int| ' '));
    }
    while k < width
        invariant
            len <= k,
            k <= width || k == len,
            len == text@.len(),
            " "@ == seq![' '],
            out@ == Seq::new((k - len) as nat, |k: int| ' '),
        decreases width - k,
    {
        out.append(" ");
        k += 1;
        assert(out@ =~= Seq::new((k - len) as nat, |k: int| ' '));
    }
    if len >= width {
        assert(out@ + text@ =~= text@);
    }
    out.append(text);
    out
}

/// The width of the column of the names of the instructions in the listing of a function.
pub const NAME_COLUMN: usize = 11;

impl Function {
    /// The first line of the listing: the header of the function and the numbers of its
    /// registers and instructions.
    pub open spec fn spec_listing_head(&self, ctx: &Bytecode) -> Seq<char> {
        self.spec_display_header(ctx) + " ("@ + spec_decimal(self.regs@.len()) + " regs, "@
            + spec_decimal(self.ops@.len()) + " ops)\n"@
    }

    /// The line of the register `i`: its number in a column of two characters, and its
    /// type.
    pub open spec fn spec_reg_line(&self, ctx: &Bytecode, i: int) -> Seq<char> {
        "    reg"@ + spec_pad(spec_decimal(i as nat), 2) + " "@ + self.regs@[i].spec_display_id(
            ctx,
        ) + "\n"@
    }

    /// The lines of the first `k` registers.
    pub open spec fn spec_reg_lines(&self, ctx: &Bytecode, k: nat) -> Seq<char>
        decreases k,
    {
        if k == 0 {
            Seq::empty()
        } else {
            self.spec_reg_lines(ctx, (k - 1) as nat) + self.spec_reg_line(ctx, k - 1)
        }
    }

    /// The number of instructions that the listing shows: all of them, or as many as have
    /// debug information where the function has any.
    pub open spec fn spec_shown_ops(&self) -> nat {
        match self.debug_info {
            Some(debug) => if debug@.len() < self.ops@.len() {
                debug@.len()
            } else {
                self.ops@.len()
            },
            None => self.ops@.len(),
        }
    }

    /// The line of the instruction at `i`: its index in a column of three characters and
    /// what it does. Where the function has debug information, the file, in a column of
    /// twelve characters, and the line of the source, in a column of three, stand before
    /// them. `None` where the instruction has no text of its own.
    pub open spec fn spec_op_line(&self, ctx: &Bytecode, i: int) -> Option<Seq<char>> {
        match spec_line(self.ops@[i], ctx, self, i, NAME_COLUMN as nat) {
            Some(shown) => match self.debug_info {
                Some(debug) => Some(
                    spec_pad_start(ctx.debug_files.unwrap()@[debug@[i].0 as int]@, 12) + ":"@
                        + spec_pad(spec_decimal(debug@[i].1 as nat), 3) + " "@ + spec_pad_start(
                        spec_decimal(i as nat),
                        3,
                    ) + ": "@ + shown + "\n"@,
                ),
                None => Some(spec_pad_start(spec_decimal(i as nat), 3) + ": "@ + shown + "\n"@),
            },
            None => None,
        }
    }

    /// The lines of the first `k` instructions, `None` where one of them has no text of its
    /// own.
    pub open spec fn spec_op_lines(&self, ctx: &Bytecode, k: nat) -> Option<Seq<char>>
        decreases k,
    {
        if k == 0 {
            Some(Seq::empty())
        } else {
            match (self.spec_op_lines(ctx, (k - 1) as nat), self.spec_op_line(ctx, k - 1)) {
                (Some(before), Some(line)) => Some(before + line),
                _ => None,
            }
        }
    }

    /// The listing of the function: its first line, a line for each register and a line for
    /// each instruction that is shown. `None` where an instruction that is shown has no
    /// text of its own.
    pub open spec fn spec_listing(&self, ctx: &Bytecode) -> Option<Seq<char>> {
        match self.spec_op_lines(ctx, self.spec_shown_ops()) {
            Some(lines) => Some(
                self.spec_listing_head(ctx) + self.spec_reg_lines(ctx, self.regs@.len()) + lines,
            ),
            None => None,
        }
    }

    /// The listing can be written: the names and types that it shows lie inside their
    /// pools, the instructions are no more than an index of 32 bits can number, the text
    /// of each instruction that is shown can be written, and each has its file among the
    /// debug files where the function has debug information.
    pub open spec fn listing_ok(&self, ctx: &Bytecode) -> bool {
        &&& ctx.types_ok()
        &&& self.t.0 < ctx.types@.len()
        &&& self.name matches Some(n) ==> n.0 < ctx.strings@.len()
        &&& forall|i: int|
            0 <= i < self.regs@.len() ==> (#[trigger] self.regs@[i]).0 < ctx.types@.len()
        &&& self.ops@.len() <= i32::MAX
        &&& forall|i: int| 0 <= i < self.spec_shown_ops() ==> #[trigger] self.op_shown_ok(ctx, i)
    }

    /// The line of the instruction at `i` can be written.
    pub open spec fn op_shown_ok(&self, ctx: &Bytecode, i: int) -> bool {
        &&& text_ok(self.ops@[i], ctx, self, i)
        &&& self.debug_info matches Some(debug) ==> ctx.debug_files matches Some(files)
            && debug@[i].0 < files@.len()
    }

    /// Once an instruction has no text of its own, no longer listing has one.
    pub proof fn lemma_no_lines(&self, ctx: &Bytecode, k: nat, n: nat)
        requires
            k <= n,
            self.spec_op_lines(ctx, k) is None,
        ensures
            self.spec_op_lines(ctx, n) is None,
        decreases n - k,
    {
        if k < n {
            self.lemma_no_lines(ctx, k + 1, n);
        }
    }

    /// True where the listing of the function can be written.
    pub fn check_display(&self, ctx: &Bytecode) -> (ok: bool)
        ensures
            ok == self.listing_ok(ctx),
    {
        if !ctx.check_types() || self.t.0 >= ctx.types.len() {
            return false;
        }
        match self.name {
            Some(n) => {
                if n.0 >= ctx.strings.len() {
                    return false;
                }
            },
            None => {},
        }
        let mut r: usize = 0;
        while r < self.regs.len()
            invariant
                r <= self.regs@.len(),
                forall|i: int| 0 <= i < r ==> (#[trigger] self.regs@[i]).0 < ctx.types@.len(),
            decreases self.regs.len() - r,
        {
            if self.regs[r].0 >= ctx.types.len() {
                return false;
            }
            r += 1;
        }
        if self.ops.len() > 2147483647 {
            return false;
        }
        let shown = self.shown_ops();
        let mut i: usize = 0;
        while i < shown
            invariant
                i <= shown,
                shown == self.spec_shown_ops(),
                shown <= self.ops@.len(),
                self.ops@.len() <= i32::MAX,
                forall|j: int| 0 <= j < i ==> #[trigger] self.op_shown_ok(ctx, j),
            decreases shown - i,
        {
            if !self.ops[i].check_text(ctx, self, i as i32) {
                assert(!self.op_shown_ok(ctx, i as int));
                return false;
            }
            match &self.debug_info {
                Some(debug) => {
                    let in_files = match &ctx.debug_files {
                        Some(files) => debug[i].0 < files.len(),
                        None => false,
                    };
                    if !in_files {
                        assert(!self.op_shown_ok(ctx, i as int));
                        return false;
                    }
                },
                None => {},
            }
            i += 1;
        }
        true
    }

    /// The number of instructions that the listing shows.
    pub fn shown_ops(&self) -> (r: usize)
        ensures
            r == self.spec_shown_ops(),
            r <= self.ops@.len(),
    {
        match &self.debug_info {
            Some(debug) => {
                if debug.len() < self.ops.len() {
                    debug.len()
                } else {
                    self.ops.len()
                }
            },
            None => self.ops.len(),
        }
    }

    /// The listing of the function: its header with the numbers of its registers and
    /// instructions, the registers with their types, and the instructions, each with the
    /// file and line that the debug information gives it. `None` where an instruction that
    /// is shown has no text of its own: its text is made through the formatter of the
    /// standard library.
    pub fn display(&self, ctx: &Bytecode) -> (r: Option<String>)
        requires
            self.listing_ok(ctx),
        ensures
            match r {
                Some(s) => self.spec_listing(ctx) == Some(s@),
                None => self.spec_listing(ctx) is None,
            },
    {
        let head = Line::start(self.display_header(ctx).as_str()).lit(" (").num(
            self.regs.len(),
        ).lit(" regs, ").num(self.ops.len()).lit(" ops)\n");

        let mut regs = String::new();
        let mut r: usize = 0;
        while r < self.regs.len()
            invariant
                r <= self.regs@.len(),
                self.listing_ok(ctx),
                regs@ == self.spec_reg_lines(ctx, r as nat),
            decreases self.regs.len() - r,
        {
            assert(self.regs@[r as int].0 < ctx.types@.len());
            let number = Line::start(decimal(r).as_str()).pad(2);
            let line = Line::start("    reg").lit(number.text.as_str()).lit(" ").lit(
                self.regs[r].display_id(ctx).as_str(),
            ).lit("\n");
            regs.append(line.text.as_str());
            r += 1;
        }

        let shown = self.shown_ops();
        let mut ops = String::new();
        let mut i: usize = 0;
        while i < shown
            invariant
                i <= shown,
                shown == self.spec_shown_ops(),
                shown <= self.ops@.len(),
                self.listing_ok(ctx),
                self.spec_op_lines(ctx, i as nat) == Some(ops@),
            decreases shown - i,
        {
            assert(self.op_shown_ok(ctx, i as int));
            let shown_op = match self.ops[i].display(ctx, self, i as i32, NAME_COLUMN) {
                Some(text) => text,
                None => {
                    proof {
                        assert(self.spec_op_lines(ctx, (i + 1) as nat) is None);
                        self.lemma_no_lines(ctx, (i + 1) as nat, shown as nat);
                    }
                    return None;
                },
            };
            let index = pad_start(decimal(i).as_str(), 3);
            let line = match &self.debug_info {
                Some(debug) => {
                    let file = match &ctx.debug_files {
                        Some(files) => pad_start(files[debug[i].0].as_str(), 12),
                        None => unreached(),
                    };
                    let source = Line::start(decimal(debug[i].1).as_str()).pad(3);
                    Line::start(file.as_str()).lit(":").lit(source.text.as_str()).lit(" ").lit(
                        index.as_str(),
                    ).lit(": ").lit(shown_op.as_str()).lit("\n")
                },
                None => Line::start(index.as_str()).lit(": ").lit(shown_op.as_str()).lit("\n"),
            };
            ops.append(line.text.as_str());
            i += 1;
        }
        Some(head.lit(regs.as_str()).lit(ops.as_str()).text)
    }
}

} // verus!
