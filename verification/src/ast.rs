//! The syntax tree that the decompiler produces.
//!
//! Each node type has a view, written `@`, that forgets how the node is stored: strings
//! become sequences of characters and vectors become sequences of views. Contracts speak of
//! the views.

use crate::types::{Bytecode, RefEnumConstruct, RefField, RefFun, RefString, RefType, Reg};
use vstd::prelude::*;

verus! {

/// A literal.
#[derive(Debug, Clone, PartialEq, Eq)]
pub enum Constant {
    Int(i32),
    /// A float, given by the bits of its IEEE 754 encoding
    Float(u64),
    String(String),
    Bool(bool),
    Null,
}

/// The view of a [`Constant`].
pub enum ConstantV {
    Int(i32),
    Float(u64),
    String(Seq<char>),
    Bool(bool),
    Null,
}

impl View for Constant {
    type V = ConstantV;

    open spec fn view(&self) -> ConstantV {
        match self {
            Constant::Int(c) => ConstantV::Int(*c),
            Constant::Float(c) => ConstantV::Float(*c),
            Constant::String(s) => ConstantV::String(s@),
            Constant::Bool(b) => ConstantV::Bool(*b),
            Constant::Null => ConstantV::Null,
        }
    }
}

/// Operators with one operand.
#[derive(Debug, Clone, Copy, PartialEq, Eq, Structural)]
pub enum UnaryKind {
    Neg,
    Not,
    Incr,
    Decr,
}

/// Operators with two operands.
#[derive(Debug, Clone, Copy, PartialEq, Eq, Structural)]
pub enum BinaryKind {
    Add,
    Sub,
    Mul,
    Div,
    Mod,
    Shl,
    Shr,
    And,
    Or,
    Xor,
    Eq,
    NotEq,
    Lt,
    Lte,
    Gt,
    Gte,
}

/// A call to the constructor of a type.
#[derive(Debug, PartialEq, Eq)]
pub struct ConstructorCall {
    pub ty: RefType,
    pub args: Vec<Expr>,
}

/// An expression.
#[derive(Debug, PartialEq, Eq)]
pub enum Expr {
    /// An anonymous structure: its type and the value of each field, in the order in which
    /// the fields were set. The decompiler gives no field two values.
    Anonymous(RefType, Vec<(RefField, Expr)>),
    /// Bracket access: receiver and index
    Array(Box<Expr>, Box<Expr>),
    /// A call: callee and arguments
    Call(Box<Expr>, Vec<Expr>),
    Constant(Constant),
    Constructor(ConstructorCall),
    /// A closure: the function it runs and the body of that function
    Closure(RefFun, Vec<Statement>),
    /// An enum variant: type, variant and arguments
    EnumConstr(RefType, RefEnumConstruct, Vec<Expr>),
    /// Dotted access: receiver and field name
    Field(Box<Expr>, String),
    /// A function named by its findex
    FunRef(RefFun),
    /// A choice between two values
    IfElse { cond: Box<Expr>, if_: Box<Expr>, else_: Box<Expr> },
    BinaryOp(BinaryKind, Box<Expr>, Box<Expr>),
    UnaryOp(UnaryKind, Box<Expr>),
    This,
    /// What could not be resolved, with the reason
    Unknown(String),
    /// A local: its register and its name, where it has one
    Variable(Reg, Option<String>),
}

/// A statement.
#[derive(Debug, PartialEq, Eq)]
pub enum Statement {
    /// Variable assignment, a declaration where the variable is new
    Assign { declaration: bool, variable: Expr, assign: Expr },
    /// An expression evaluated for its effect
    ExprStatement(Expr),
    Return(Option<Expr>),
    IfElse { cond: Expr, if_: Vec<Statement>, else_: Option<Vec<Statement>> },
    /// A switch: the first case holds what comes before any numbered case, under no number
    Switch { arg: Expr, cases: Vec<(Option<usize>, Vec<Statement>)> },
    While { cond: Expr, stmts: Vec<Statement> },
    Break,
    Continue,
    Throw(Expr),
    Try { stmts: Vec<Statement>, catch: Option<Vec<Statement>> },
    Comment(String),
}

/// The view of an [`Expr`].
pub enum ExprV {
    Anonymous(RefType, Seq<(RefField, ExprV)>),
    Array(Box<ExprV>, Box<ExprV>),
    Call(Box<ExprV>, Seq<ExprV>),
    Constant(ConstantV),
    Constructor(RefType, Seq<ExprV>),
    Closure(RefFun, Seq<StmtV>),
    EnumConstr(RefType, RefEnumConstruct, Seq<ExprV>),
    Field(Box<ExprV>, Seq<char>),
    FunRef(RefFun),
    IfElse { cond: Box<ExprV>, if_: Box<ExprV>, else_: Box<ExprV> },
    BinaryOp(BinaryKind, Box<ExprV>, Box<ExprV>),
    UnaryOp(UnaryKind, Box<ExprV>),
    This,
    Unknown(Seq<char>),
    Variable(Reg, Option<Seq<char>>),
}

/// The view of a [`Statement`].
pub enum StmtV {
    Assign { declaration: bool, variable: ExprV, assign: ExprV },
    ExprStatement(ExprV),
    Return(Option<ExprV>),
    IfElse { cond: ExprV, if_: Seq<StmtV>, else_: Option<Seq<StmtV>> },
    Switch { arg: ExprV, cases: Seq<(Option<usize>, Seq<StmtV>)> },
    While { cond: ExprV, stmts: Seq<StmtV> },
    Break,
    Continue,
    Throw(ExprV),
    Try { stmts: Seq<StmtV>, catch: Option<Seq<StmtV>> },
    Comment(Seq<char>),
}

/// The views of a sequence of expressions.
pub open spec fn exprs_view(v: Seq<Expr>) -> Seq<ExprV>
    decreases v,
{
    Seq::new(
        v.len(),
        |i: int|
            if 0 <= i < v.len() {
                v[i].model()
            } else {
                ExprV::This
            },
    )
}

/// The views of the fields of an anonymous structure.
pub open spec fn fields_view(v: Seq<(RefField, Expr)>) -> Seq<(RefField, ExprV)>
    decreases v,
{
    Seq::new(
        v.len(),
        |i: int|
            if 0 <= i < v.len() {
                (v[i].0, v[i].1.model())
            } else {
                (RefField(0), ExprV::This)
            },
    )
}

/// The views of a sequence of statements.
pub open spec fn stmts_view(v: Seq<Statement>) -> Seq<StmtV>
    decreases v,
{
    Seq::new(
        v.len(),
        |i: int|
            if 0 <= i < v.len() {
                v[i].model()
            } else {
                StmtV::Break
            },
    )
}

/// The views of the cases of a switch.
pub open spec fn cases_view(v: Seq<(Option<usize>, Vec<Statement>)>) -> Seq<
    (Option<usize>, Seq<StmtV>),
>
    decreases v,
{
    Seq::new(
        v.len(),
        |i: int|
            if 0 <= i < v.len() {
                (v[i].0, stmts_view(v[i].1@))
            } else {
                (None, Seq::empty())
            },
    )
}

impl View for Expr {
    type V = ExprV;

    open spec fn view(&self) -> ExprV {
        self.model()
    }
}

impl View for Statement {
    type V = StmtV;

    open spec fn view(&self) -> StmtV {
        self.model()
    }
}

impl Expr {
    /// What the expression is, whatever way it is stored.
    pub open spec fn model(&self) -> ExprV
        decreases self,
    {
        match self {
            Expr::Anonymous(ty, fields) => ExprV::Anonymous(*ty, fields_view(fields@)),
            Expr::Array(array, index) => ExprV::Array(
                Box::new(array.model()),
                Box::new(index.model()),
            ),
            Expr::Call(fun, args) => ExprV::Call(Box::new(fun.model()), exprs_view(args@)),
            Expr::Constant(c) => ExprV::Constant(c@),
            Expr::Constructor(c) => ExprV::Constructor(c.ty, exprs_view(c.args@)),
            Expr::Closure(fun, stmts) => ExprV::Closure(*fun, stmts_view(stmts@)),
            Expr::EnumConstr(ty, construct, args) => ExprV::EnumConstr(
                *ty,
                *construct,
                exprs_view(args@),
            ),
            Expr::Field(receiver, name) => ExprV::Field(Box::new(receiver.model()), name@),
            Expr::FunRef(fun) => ExprV::FunRef(*fun),
            Expr::IfElse { cond, if_, else_ } => ExprV::IfElse {
                cond: Box::new(cond.model()),
                if_: Box::new(if_.model()),
                else_: Box::new(else_.model()),
            },
            Expr::BinaryOp(kind, a, b) => ExprV::BinaryOp(
                *kind,
                Box::new(a.model()),
                Box::new(b.model()),
            ),
            Expr::UnaryOp(kind, a) => ExprV::UnaryOp(*kind, Box::new(a.model())),
            Expr::This => ExprV::This,
            Expr::Unknown(msg) => ExprV::Unknown(msg@),
            Expr::Variable(reg, name) => ExprV::Variable(
                *reg,
                match name {
                    Some(n) => Some(n@),
                    None => None,
                },
            ),
        }
    }
}

impl Statement {
    /// What the statement is, whatever way it is stored.
    pub open spec fn model(&self) -> StmtV
        decreases self,
    {
        match self {
            Statement::Assign { declaration, variable, assign } => StmtV::Assign {
                declaration: *declaration,
                variable: variable.model(),
                assign: assign.model(),
            },
            Statement::ExprStatement(e) => StmtV::ExprStatement(e.model()),
            Statement::Return(e) => StmtV::Return(
                match e {
                    Some(e) => Some(e.model()),
                    None => None,
                },
            ),
            Statement::IfElse { cond, if_, else_ } => StmtV::IfElse {
                cond: cond.model(),
                if_: stmts_view(if_@),
                else_: match else_ {
                    Some(stmts) => Some(stmts_view(stmts@)),
                    None => None,
                },
            },
            Statement::Switch { arg, cases } => StmtV::Switch {
                arg: arg.model(),
                cases: cases_view(cases@),
            },
            Statement::While { cond, stmts } => StmtV::While {
                cond: cond.model(),
                stmts: stmts_view(stmts@),
            },
            Statement::Break => StmtV::Break,
            Statement::Continue => StmtV::Continue,
            Statement::Throw(e) => StmtV::Throw(e.model()),
            Statement::Try { stmts, catch } => StmtV::Try {
                stmts: stmts_view(stmts@),
                catch: match catch {
                    Some(stmts) => Some(stmts_view(stmts@)),
                    None => None,
                },
            },
            Statement::Comment(text) => StmtV::Comment(text@),
        }
    }
}

/// Copies a list of expressions.
pub fn clone_exprs(v: &Vec<Expr>) -> (r: Vec<Expr>)
    ensures
        exprs_view(r@) == exprs_view(v@),
    decreases v,
{
    let mut out: Vec<Expr> = Vec::new();
    let mut i: usize = 0;
    while i < v.len()
        invariant
            i <= v.len(),
            out.len() == i,
            forall|k: int| 0 <= k < i ==> out@[k]@ == v@[k]@,
        decreases v.len() - i,
    {
        let e = v[i].clone();
        out.push(e);
        i += 1;
    }
    out
}

/// Copies the fields of an anonymous structure.
pub fn clone_fields(v: &Vec<(RefField, Expr)>) -> (r: Vec<(RefField, Expr)>)
    ensures
        fields_view(r@) == fields_view(v@),
    decreases v,
{
    let mut out: Vec<(RefField, Expr)> = Vec::new();
    let mut i: usize = 0;
    while i < v.len()
        invariant
            i <= v.len(),
            out.len() == i,
            forall|k: int| 0 <= k < i ==> out@[k].0 == v@[k].0 && out@[k].1@ == v@[k].1@,
        decreases v.len() - i,
    {
        let e = v[i].1.clone();
        out.push((v[i].0, e));
        i += 1;
    }
    out
}

/// Copies a list of statements.
pub fn clone_stmts(v: &Vec<Statement>) -> (r: Vec<Statement>)
    ensures
        stmts_view(r@) == stmts_view(v@),
    decreases v,
{
    let mut out: Vec<Statement> = Vec::new();
    let mut i: usize = 0;
    while i < v.len()
        invariant
            i <= v.len(),
            out.len() == i,
            forall|k: int| 0 <= k < i ==> out@[k]@ == v@[k]@,
        decreases v.len() - i,
    {
        let e = v[i].clone();
        out.push(e);
        i += 1;
    }
    out
}

/// Copies the cases of a switch.
pub fn clone_cases(v: &Vec<(Option<usize>, Vec<Statement>)>) -> (r: Vec<
    (Option<usize>, Vec<Statement>),
>)
    ensures
        cases_view(r@) == cases_view(v@),
    decreases v,
{
    let mut out: Vec<(Option<usize>, Vec<Statement>)> = Vec::new();
    let mut i: usize = 0;
    while i < v.len()
        invariant
            i <= v.len(),
            out.len() == i,
            forall|k: int|
                0 <= k < i ==> out@[k].0 == v@[k].0 && stmts_view(out@[k].1@) == stmts_view(
                    v@[k].1@,
                ),
        decreases v.len() - i,
    {
        let body = clone_stmts(&v[i].1);
        out.push((v[i].0, body));
        i += 1;
    }
    out
}

impl Clone for Expr {
    fn clone(&self) -> (r: Self)
        ensures
            r@ == self@,
        decreases self,
    {
        match self {
            Expr::Anonymous(ty, fields) => Expr::Anonymous(*ty, clone_fields(fields)),
            Expr::Array(array, index) => Expr::Array(
                Box::new((**array).clone()),
                Box::new((**index).clone()),
            ),
            Expr::Call(fun, args) => Expr::Call(Box::new((**fun).clone()), clone_exprs(args)),
            Expr::Constant(c) => Expr::Constant(
                match c {
                    Constant::Int(c) => Constant::Int(*c),
                    Constant::Float(c) => Constant::Float(*c),
                    Constant::String(s) => Constant::String(s.clone()),
                    Constant::Bool(b) => Constant::Bool(*b),
                    Constant::Null => Constant::Null,
                },
            ),
            Expr::Constructor(c) => Expr::Constructor(
                ConstructorCall { ty: c.ty, args: clone_exprs(&c.args) },
            ),
            Expr::Closure(fun, stmts) => Expr::Closure(*fun, clone_stmts(stmts)),
            Expr::EnumConstr(ty, construct, args) => Expr::EnumConstr(
                *ty,
                *construct,
                clone_exprs(args),
            ),
            Expr::Field(receiver, name) => Expr::Field(
                Box::new((**receiver).clone()),
                name.clone(),
            ),
            Expr::FunRef(fun) => Expr::FunRef(*fun),
            Expr::IfElse { cond, if_, else_ } => Expr::IfElse {
                cond: Box::new((**cond).clone()),
                if_: Box::new((**if_).clone()),
                else_: Box::new((**else_).clone()),
            },
            Expr::BinaryOp(kind, a, b) => Expr::BinaryOp(
                *kind,
                Box::new((**a).clone()),
                Box::new((**b).clone()),
            ),
            Expr::UnaryOp(kind, a) => Expr::UnaryOp(*kind, Box::new((**a).clone())),
            Expr::This => Expr::This,
            Expr::Unknown(msg) => Expr::Unknown(msg.clone()),
            Expr::Variable(reg, name) => Expr::Variable(
                *reg,
                match name {
                    Some(n) => Some(n.clone()),
                    None => None,
                },
            ),
        }
    }
}

impl Clone for Statement {
    fn clone(&self) -> (r: Self)
        ensures
            r@ == self@,
        decreases self,
    {
        match self {
            Statement::Assign { declaration, variable, assign } => Statement::Assign {
                declaration: *declaration,
                variable: variable.clone(),
                assign: assign.clone(),
            },
            Statement::ExprStatement(e) => Statement::ExprStatement(e.clone()),
            Statement::Return(e) => Statement::Return(
                match e {
                    Some(e) => Some(e.clone()),
                    None => None,
                },
            ),
            Statement::IfElse { cond, if_, else_ } => Statement::IfElse {
                cond: cond.clone(),
                if_: clone_stmts(if_),
                else_: match else_ {
                    Some(stmts) => Some(clone_stmts(stmts)),
                    None => None,
                },
            },
            Statement::Switch { arg, cases } => Statement::Switch {
                arg: arg.clone(),
                cases: clone_cases(cases),
            },
            Statement::While { cond, stmts } => Statement::While {
                cond: cond.clone(),
                stmts: clone_stmts(stmts),
            },
            Statement::Break => Statement::Break,
            Statement::Continue => Statement::Continue,
            Statement::Throw(e) => Statement::Throw(e.clone()),
            Statement::Try { stmts, catch } => Statement::Try {
                stmts: clone_stmts(stmts),
                catch: match catch {
                    Some(stmts) => Some(clone_stmts(stmts)),
                    None => None,
                },
            },
            Statement::Comment(text) => Statement::Comment(text.clone()),
        }
    }
}

impl Clone for ConstructorCall {
    fn clone(&self) -> (r: Self)
        ensures
            r.ty == self.ty,
            exprs_view(r.args@) == exprs_view(self.args@),
    {
        ConstructorCall { ty: self.ty, args: clone_exprs(&self.args) }
    }
}

/// A field of a class.
#[derive(Debug, PartialEq, Eq)]
pub struct ClassField {
    pub name: String,
    pub static_: bool,
    pub ty: RefType,
}

/// A method of a class: a function and its decompiled body.
#[derive(Debug, PartialEq, Eq)]
pub struct Method {
    pub fun: RefFun,
    pub static_: bool,
    pub dynamic: bool,
    pub statements: Vec<Statement>,
}

/// A class with its fields and methods.
#[derive(Debug, PartialEq, Eq)]
pub struct Class {
    pub name: String,
    pub parent: Option<String>,
    pub fields: Vec<ClassField>,
    pub methods: Vec<Method>,
}

/// The view of a [`ClassField`].
pub struct ClassFieldV {
    pub name: Seq<char>,
    pub static_: bool,
    pub ty: RefType,
}

/// The view of a [`Method`].
pub struct MethodV {
    pub fun: RefFun,
    pub static_: bool,
    pub dynamic: bool,
    pub statements: Seq<StmtV>,
}

/// The view of a [`Class`].
pub struct ClassV {
    pub name: Seq<char>,
    pub parent: Option<Seq<char>>,
    pub fields: Seq<ClassFieldV>,
    pub methods: Seq<MethodV>,
}

impl View for ClassField {
    type V = ClassFieldV;

    open spec fn view(&self) -> ClassFieldV {
        ClassFieldV { name: self.name@, static_: self.static_, ty: self.ty }
    }
}

impl View for Method {
    type V = MethodV;

    open spec fn view(&self) -> MethodV {
        MethodV {
            fun: self.fun,
            static_: self.static_,
            dynamic: self.dynamic,
            statements: stmts_view(self.statements@),
        }
    }
}

impl View for Class {
    type V = ClassV;

    open spec fn view(&self) -> ClassV {
        ClassV {
            name: self.name@,
            parent: match self.parent {
                Some(p) => Some(p@),
                None => None,
            },
            fields: self.fields@.map_values(|f: ClassField| f@),
            methods: self.methods@.map_values(|m: Method| m@),
        }
    }
}

impl ConstructorCall {
    pub fn new(ty: RefType, args: Vec<Expr>) -> (r: ConstructorCall)
        ensures
            r.ty == ty,
            r.args == args,
    {
        ConstructorCall { ty, args }
    }
}

/// The view of an expression with two operands.
pub open spec fn binary_v(kind: BinaryKind, a: ExprV, b: ExprV) -> ExprV {
    ExprV::BinaryOp(kind, Box::new(a), Box::new(b))
}

/// The view of an expression with one operand.
pub open spec fn unary_v(kind: UnaryKind, a: ExprV) -> ExprV {
    ExprV::UnaryOp(kind, Box::new(a))
}

/// The view of a dotted access.
pub open spec fn field_v(receiver: ExprV, name: Seq<char>) -> ExprV {
    ExprV::Field(Box::new(receiver), name)
}

/// The view of a bracket access.
pub open spec fn array_v(receiver: ExprV, index: ExprV) -> ExprV {
    ExprV::Array(Box::new(receiver), Box::new(index))
}

/// The view of a call.
pub open spec fn call_v(fun: ExprV, args: Seq<ExprV>) -> ExprV {
    ExprV::Call(Box::new(fun), args)
}

/// The view of the null literal.
pub open spec fn null_v() -> ExprV {
    ExprV::Constant(ConstantV::Null)
}

/// The view of a string literal.
pub open spec fn string_v(text: Seq<char>) -> ExprV {
    ExprV::Constant(ConstantV::String(text))
}

/// The view of a placeholder.
pub open spec fn unknown_v(msg: Seq<char>) -> ExprV {
    ExprV::Unknown(msg)
}

pub fn cst_int(cst: i32) -> (r: Expr)
    ensures
        r@ == ExprV::Constant(ConstantV::Int(cst)),
{
    Expr::Constant(Constant::Int(cst))
}

/// A float literal, from the bits of its IEEE 754 encoding.
pub fn cst_float(cst: u64) -> (r: Expr)
    ensures
        r@ == ExprV::Constant(ConstantV::Float(cst)),
{
    Expr::Constant(Constant::Float(cst))
}

pub fn cst_bool(cst: bool) -> (r: Expr)
    ensures
        r@ == ExprV::Constant(ConstantV::Bool(cst)),
{
    Expr::Constant(Constant::Bool(cst))
}

pub fn cst_string(cst: String) -> (r: Expr)
    ensures
        r@ == string_v(cst@),
{
    Expr::Constant(Constant::String(cst))
}

/// The string literal that a reference to the string pool points to.
pub fn cst_refstring(cst: RefString, code: &Bytecode) -> (r: Expr)
    requires
        cst.0 < code.strings@.len(),
    ensures
        r@ == string_v(code.strings@[cst.0 as int]@),
{
    cst_string(cst.display(code))
}

pub fn cst_null() -> (r: Expr)
    ensures
        r@ == null_v(),
{
    Expr::Constant(Constant::Null)
}

pub fn cst_this() -> (r: Expr)
    ensures
        r@ == ExprV::This,
{
    Expr::This
}

/// A placeholder with the reason why nothing better is known.
pub fn unknown(msg: &str) -> (r: Expr)
    ensures
        r@ == unknown_v(msg@),
{
    Expr::Unknown(msg.to_owned())
}

pub fn binary(kind: BinaryKind, a: Expr, b: Expr) -> (r: Expr)
    ensures
        r@ == binary_v(kind, a@, b@),
{
    Expr::BinaryOp(kind, Box::new(a), Box::new(b))
}

pub fn unary(kind: UnaryKind, a: Expr) -> (r: Expr)
    ensures
        r@ == unary_v(kind, a@),
{
    Expr::UnaryOp(kind, Box::new(a))
}

pub fn add(a: Expr, b: Expr) -> (r: Expr)
    ensures
        r@ == binary_v(BinaryKind::Add, a@, b@),
{
    binary(BinaryKind::Add, a, b)
}

pub fn sub(a: Expr, b: Expr) -> (r: Expr)
    ensures
        r@ == binary_v(BinaryKind::Sub, a@, b@),
{
    binary(BinaryKind::Sub, a, b)
}

pub fn mul(a: Expr, b: Expr) -> (r: Expr)
    ensures
        r@ == binary_v(BinaryKind::Mul, a@, b@),
{
    binary(BinaryKind::Mul, a, b)
}

pub fn div(a: Expr, b: Expr) -> (r: Expr)
    ensures
        r@ == binary_v(BinaryKind::Div, a@, b@),
{
    binary(BinaryKind::Div, a, b)
}

pub fn modulo(a: Expr, b: Expr) -> (r: Expr)
    ensures
        r@ == binary_v(BinaryKind::Mod, a@, b@),
{
    binary(BinaryKind::Mod, a, b)
}

pub fn shl(a: Expr, b: Expr) -> (r: Expr)
    ensures
        r@ == binary_v(BinaryKind::Shl, a@, b@),
{
    binary(BinaryKind::Shl, a, b)
}

pub fn shr(a: Expr, b: Expr) -> (r: Expr)
    ensures
        r@ == binary_v(BinaryKind::Shr, a@, b@),
{
    binary(BinaryKind::Shr, a, b)
}

pub fn and(a: Expr, b: Expr) -> (r: Expr)
    ensures
        r@ == binary_v(BinaryKind::And, a@, b@),
{
    binary(BinaryKind::And, a, b)
}

pub fn or(a: Expr, b: Expr) -> (r: Expr)
    ensures
        r@ == binary_v(BinaryKind::Or, a@, b@),
{
    binary(BinaryKind::Or, a, b)
}

pub fn xor(a: Expr, b: Expr) -> (r: Expr)
    ensures
        r@ == binary_v(BinaryKind::Xor, a@, b@),
{
    binary(BinaryKind::Xor, a, b)
}

pub fn eq(a: Expr, b: Expr) -> (r: Expr)
    ensures
        r@ == binary_v(BinaryKind::Eq, a@, b@),
{
    binary(BinaryKind::Eq, a, b)
}

pub fn noteq(a: Expr, b: Expr) -> (r: Expr)
    ensures
        r@ == binary_v(BinaryKind::NotEq, a@, b@),
{
    binary(BinaryKind::NotEq, a, b)
}

pub fn gt(a: Expr, b: Expr) -> (r: Expr)
    ensures
        r@ == binary_v(BinaryKind::Gt, a@, b@),
{
    binary(BinaryKind::Gt, a, b)
}

pub fn gte(a: Expr, b: Expr) -> (r: Expr)
    ensures
        r@ == binary_v(BinaryKind::Gte, a@, b@),
{
    binary(BinaryKind::Gte, a, b)
}

pub fn lt(a: Expr, b: Expr) -> (r: Expr)
    ensures
        r@ == binary_v(BinaryKind::Lt, a@, b@),
{
    binary(BinaryKind::Lt, a, b)
}

pub fn lte(a: Expr, b: Expr) -> (r: Expr)
    ensures
        r@ == binary_v(BinaryKind::Lte, a@, b@),
{
    binary(BinaryKind::Lte, a, b)
}

pub fn neg(a: Expr) -> (r: Expr)
    ensures
        r@ == unary_v(UnaryKind::Neg, a@),
{
    unary(UnaryKind::Neg, a)
}

pub fn not(a: Expr) -> (r: Expr)
    ensures
        r@ == unary_v(UnaryKind::Not, a@),
{
    unary(UnaryKind::Not, a)
}

pub fn incr(a: Expr) -> (r: Expr)
    ensures
        r@ == unary_v(UnaryKind::Incr, a@),
{
    unary(UnaryKind::Incr, a)
}

pub fn decr(a: Expr) -> (r: Expr)
    ensures
        r@ == unary_v(UnaryKind::Decr, a@),
{
    unary(UnaryKind::Decr, a)
}

/// Bracket access.
pub fn array(receiver: Expr, index: Expr) -> (r: Expr)
    ensures
        r@ == array_v(receiver@, index@),
{
    Expr::Array(Box::new(receiver), Box::new(index))
}

/// Dotted access under a name that is already known.
pub fn field_named(receiver: Expr, name: String) -> (r: Expr)
    ensures
        r@ == field_v(receiver@, name@),
{
    Expr::Field(Box::new(receiver), name)
}

/// Dotted access to a field of a value of type `obj`, under the name that the type gives
/// the field.
pub fn field(expr: Expr, obj: RefType, index: RefField, code: &Bytecode) -> (r: Expr)
    requires
        obj.0 < code.types@.len(),
        index.display_valid(&code.types@[obj.0 as int], code),
    ensures
        r@ == field_v(expr@, index.spec_display_obj(&code.types@[obj.0 as int], code)),
{
    Expr::Field(Box::new(expr), index.display_obj(obj.resolve(code.types.as_slice()), code))
}

pub fn call(fun: Expr, args: Vec<Expr>) -> (r: Expr)
    ensures
        r@ == call_v(fun@, exprs_view(args@)),
{
    Expr::Call(Box::new(fun), args)
}

/// A call of a function named by its findex.
pub fn call_fun(fun: RefFun, args: Vec<Expr>) -> (r: Expr)
    ensures
        r@ == call_v(ExprV::FunRef(fun), exprs_view(args@)),
{
    call(Expr::FunRef(fun), args)
}

/// An expression evaluated for its effect.
pub fn stmt(e: Expr) -> (r: Statement)
    ensures
        r@ == StmtV::ExprStatement(e@),
{
    Statement::ExprStatement(e)
}

pub fn comment(text: String) -> (r: Statement)
    ensures
        r@ == StmtV::Comment(text@),
{
    Statement::Comment(text)
}

/// An assignment to something that is already declared.
pub fn assign(variable: Expr, value: Expr) -> (r: Statement)
    ensures
        r@ == (StmtV::Assign { declaration: false, variable: variable@, assign: value@ }),
{
    Statement::Assign { declaration: false, variable, assign: value }
}

/// Appending to a list of expressions appends to its view.
pub broadcast proof fn lemma_exprs_push(v: Seq<Expr>, e: Expr)
    ensures
        #[trigger] exprs_view(v.push(e)) == exprs_view(v).push(e@),
{
}

/// The view of no expressions is empty.
pub broadcast proof fn lemma_exprs_empty()
    ensures
        #[trigger] exprs_view(Seq::<Expr>::empty()) == Seq::<ExprV>::empty(),
{
}

/// Appending to a list of statements appends to its view.
pub broadcast proof fn lemma_stmts_push(v: Seq<Statement>, s: Statement)
    ensures
        #[trigger] stmts_view(v.push(s)) == stmts_view(v).push(s@),
{
}

/// The view of no statements is empty.
pub broadcast proof fn lemma_stmts_empty()
    ensures
        #[trigger] stmts_view(Seq::<Statement>::empty()) == Seq::<StmtV>::empty(),
{
}

/// Appending to the fields of an anonymous structure appends to their view.
pub broadcast proof fn lemma_fields_push(v: Seq<(RefField, Expr)>, f: (RefField, Expr))
    ensures
        #[trigger] fields_view(v.push(f)) == fields_view(v).push((f.0, f.1@)),
{
}

/// The view of no fields is empty.
pub broadcast proof fn lemma_fields_empty()
    ensures
        #[trigger] fields_view(Seq::<(RefField, Expr)>::empty()) == Seq::<
            (RefField, ExprV),
        >::empty(),
{
}

/// Appending to the cases of a switch appends to their view.
pub broadcast proof fn lemma_cases_push(
    v: Seq<(Option<usize>, Vec<Statement>)>,
    case: (Option<usize>, Vec<Statement>),
)
    ensures
        #[trigger] cases_view(v.push(case)) == cases_view(v).push(
            (case.0, stmts_view(case.1@)),
        ),
{
}

/// The view of no cases is empty.
pub broadcast proof fn lemma_cases_empty()
    ensures
        #[trigger] cases_view(Seq::<(Option<usize>, Vec<Statement>)>::empty()) == Seq::<
            (Option<usize>, Seq<StmtV>),
        >::empty(),
{
    assert(cases_view(Seq::<(Option<usize>, Vec<Statement>)>::empty()) =~= Seq::<
        (Option<usize>, Seq<StmtV>),
    >::empty());
}

/// How the view of a list follows from the list as it grows.
pub broadcast group group_ast_views {
    lemma_exprs_push,
    lemma_exprs_empty,
    lemma_stmts_push,
    lemma_stmts_empty,
    lemma_fields_push,
    lemma_fields_empty,
    lemma_cases_push,
    lemma_cases_empty,
}

} // verus!
