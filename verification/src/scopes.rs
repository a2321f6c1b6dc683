//! The stack of open scopes, which rebuilds structured control flow from jumps.
//!
//! The stack advances in step with the instructions. Each open scope gathers statements; a
//! scope other than the function body and a loop knows the instruction index at which it
//! ends, and is folded into one statement of the scope around it when the cursor gets there.

use crate::ast::{cases_view, group_ast_views, stmts_view, Expr, ExprV, Statement, StmtV};
use vstd::prelude::*;

verus! {

broadcast use group_ast_views;

/// What a scope is, with what it needs to become a statement.
#[derive(Debug)]
pub enum ScopeKind {
    /// The body of the function, at the bottom of the stack
    Function,
    /// A loop: the index of its `Label` and its condition, a placeholder until known
    Loop { start: usize, cond: Expr },
    /// The branch taken when `cond` holds
    If { cond: Expr },
    /// The branch taken when `cond` does not hold, after the branch taken when it does
    Else { cond: Expr, if_: Vec<Statement> },
    /// A switch: its argument, the instruction index that starts each numbered case, the
    /// cases that are complete, and the number of the one being gathered
    Switch {
        arg: Expr,
        targets: Vec<usize>,
        cases: Vec<(Option<usize>, Vec<Statement>)>,
        current: Option<usize>,
    },
    /// A guarded region
    Try,
}

/// An open scope.
#[derive(Debug)]
pub struct Scope {
    pub kind: ScopeKind,
    /// The number of instructions after which the scope ends, where it is known
    pub end: Option<usize>,
    /// The statements gathered so far
    pub stmts: Vec<Statement>,
}

/// The stack of open scopes of one function.
pub struct Scopes {
    /// The open scopes, the body of the function first
    pub scopes: Vec<Scope>,
    /// The number of instructions consumed
    pub cursor: usize,
    /// How many scopes were opened above the body of the function
    pub opened: Ghost<nat>,
    /// How many scopes were folded
    pub closed: Ghost<nat>,
}

/// The view of a [`ScopeKind`].
pub enum ScopeKindV {
    Function,
    Loop { start: usize, cond: ExprV },
    If { cond: ExprV },
    Else { cond: ExprV, if_: Seq<StmtV> },
    Switch {
        arg: ExprV,
        targets: Seq<usize>,
        cases: Seq<(Option<usize>, Seq<StmtV>)>,
        current: Option<usize>,
    },
    Try,
}

/// The view of a [`Scope`].
pub struct ScopeV {
    pub kind: ScopeKindV,
    pub end: Option<usize>,
    pub stmts: Seq<StmtV>,
}

/// The view of a [`Scopes`].
pub struct ScopesV {
    pub scopes: Seq<ScopeV>,
    pub cursor: usize,
    pub opened: nat,
    pub closed: nat,
}

impl View for ScopeKind {
    type V = ScopeKindV;

    open spec fn view(&self) -> ScopeKindV {
        match self {
            ScopeKind::Function => ScopeKindV::Function,
            ScopeKind::Loop { start, cond } => ScopeKindV::Loop { start: *start, cond: cond@ },
            ScopeKind::If { cond } => ScopeKindV::If { cond: cond@ },
            ScopeKind::Else { cond, if_ } => ScopeKindV::Else {
                cond: cond@,
                if_: stmts_view(if_@),
            },
            ScopeKind::Switch { arg, targets, cases, current } => ScopeKindV::Switch {
                arg: arg@,
                targets: targets@,
                cases: cases_view(cases@),
                current: *current,
            },
            ScopeKind::Try => ScopeKindV::Try,
        }
    }
}

impl View for Scope {
    type V = ScopeV;

    open spec fn view(&self) -> ScopeV {
        ScopeV { kind: self.kind@, end: self.end, stmts: stmts_view(self.stmts@) }
    }
}

impl View for Scopes {
    type V = ScopesV;

    open spec fn view(&self) -> ScopesV {
        ScopesV {
            scopes: self.scopes@.map_values(|s: Scope| s@),
            cursor: self.cursor,
            opened: self.opened@,
            closed: self.closed@,
        }
    }
}

/// The text of the condition of a loop whose condition is not known yet.
pub open spec fn no_condition() -> Seq<char> {
    "no condition"@
}

impl ScopeV {
    /// The statement that a scope becomes when it is folded. The body of the function is
    /// never folded in a stack that is well formed; it is given the shape of a guarded region.
    pub open spec fn fold(self) -> StmtV {
        match self.kind {
            ScopeKindV::Function => StmtV::Try { stmts: self.stmts, catch: None },
            ScopeKindV::Loop { start, cond } => StmtV::While { cond, stmts: self.stmts },
            ScopeKindV::If { cond } => StmtV::IfElse { cond, if_: self.stmts, else_: None },
            ScopeKindV::Else { cond, if_ } => StmtV::IfElse {
                cond,
                if_,
                else_: Some(self.stmts),
            },
            ScopeKindV::Switch { arg, targets, cases, current } => StmtV::Switch {
                arg,
                cases: cases.push((current, self.stmts)),
            },
            ScopeKindV::Try => StmtV::Try { stmts: self.stmts, catch: None },
        }
    }

    /// The scope with one more statement.
    pub open spec fn with_stmt(self, s: StmtV) -> ScopeV {
        ScopeV { stmts: self.stmts.push(s), ..self }
    }
}

/// The index of the innermost loop among the scopes.
pub open spec fn last_loop(scopes: Seq<ScopeV>) -> Option<int>
    decreases scopes.len(),
{
    if scopes.len() == 0 {
        None
    } else if scopes.last().kind is Loop {
        Some(scopes.len() - 1)
    } else {
        last_loop(scopes.drop_last())
    }
}

impl ScopesV {
    /// The state of a stack that holds the body of the function and nothing else.
    pub open spec fn initial() -> ScopesV {
        ScopesV {
            scopes: seq![ScopeV { kind: ScopeKindV::Function, end: None, stmts: Seq::empty() }],
            cursor: 0,
            opened: 0,
            closed: 0,
        }
    }

    /// The body of the function is at the bottom and nowhere else, and the scopes above it
    /// are those that were opened and not folded.
    pub open spec fn wf(self) -> bool {
        &&& self.scopes.len() >= 1
        &&& self.scopes[0].kind is Function
        &&& forall|k: int|
            1 <= k < self.scopes.len() ==> !(#[trigger] self.scopes[k].kind is Function)
        &&& self.opened == self.closed + self.scopes.len() - 1
    }

    /// The innermost scope.
    pub open spec fn last(self) -> ScopeV {
        self.scopes.last()
    }

    /// The stack with another innermost scope.
    pub open spec fn with_last(self, s: ScopeV) -> ScopesV {
        ScopesV { scopes: self.scopes.update(self.scopes.len() - 1, s), ..self }
    }

    pub open spec fn push_stmt(self, s: StmtV) -> ScopesV {
        self.with_last(self.last().with_stmt(s))
    }

    /// Opens a scope.
    pub open spec fn push_scope(self, kind: ScopeKindV, end: Option<usize>) -> ScopesV {
        ScopesV {
            scopes: self.scopes.push(ScopeV { kind, end, stmts: Seq::empty() }),
            opened: self.opened + 1,
            ..self
        }
    }

    pub open spec fn push_loop(self, start: usize) -> ScopesV {
        self.push_scope(
            ScopeKindV::Loop { start, cond: ExprV::Unknown(no_condition()) },
            None,
        )
    }

    pub open spec fn push_if(self, end: usize, cond: ExprV) -> ScopesV {
        self.push_scope(ScopeKindV::If { cond }, Some(end))
    }

    /// Turns the innermost scope, an `If`, into the `Else` that follows it.
    pub open spec fn push_else(self, end: usize) -> ScopesV {
        self.with_last(
            ScopeV {
                kind: ScopeKindV::Else { cond: self.last().kind->If_cond, if_: self.last().stmts },
                end: Some(end),
                stmts: Seq::empty(),
            },
        )
    }

    pub open spec fn push_switch(self, end: usize, arg: ExprV, targets: Seq<usize>) -> ScopesV {
        self.push_scope(
            ScopeKindV::Switch { arg, targets, cases: Seq::empty(), current: None },
            Some(end),
        )
    }

    /// Completes the case being gathered by the innermost scope, a `Switch`, and starts the
    /// case `case`.
    pub open spec fn push_switch_case(self, case: usize) -> ScopesV {
        self.with_last(
            ScopeV {
                kind: ScopeKindV::Switch {
                    arg: self.last().kind->Switch_arg,
                    targets: self.last().kind->Switch_targets,
                    cases: self.last().kind->Switch_cases.push(
                        (self.last().kind->Switch_current, self.last().stmts),
                    ),
                    current: Some(case),
                },
                stmts: Seq::empty(),
                ..self.last()
            },
        )
    }

    pub open spec fn push_try(self, end: usize) -> ScopesV {
        self.push_scope(ScopeKindV::Try, Some(end))
    }

    /// Removes the innermost scope without a trace but in the count of folds.
    pub open spec fn pop_last(self) -> ScopesV {
        ScopesV { scopes: self.scopes.drop_last(), closed: self.closed + 1, ..self }
    }

    /// Folds the innermost scope into one statement of the scope around it.
    pub open spec fn fold_last(self) -> ScopesV {
        self.pop_last().push_stmt(self.last().fold())
    }

    /// Folds the scopes that end at the cursor, innermost first, up to the first that does
    /// not.
    pub open spec fn fold_due(self) -> ScopesV
        decreases self.scopes.len(),
    {
        if self.scopes.len() > 1 && self.last().end == Some(self.cursor) {
            self.fold_last().fold_due()
        } else {
            self
        }
    }

    /// One instruction was consumed.
    pub open spec fn advance(self) -> ScopesV {
        ScopesV { cursor: (self.cursor + 1) as usize, ..self }.fold_due()
    }

    /// Folds every scope into the body of the function.
    pub open spec fn fold_all(self) -> ScopesV
        decreases self.scopes.len(),
    {
        if self.scopes.len() > 1 {
            self.fold_last().fold_all()
        } else {
            self
        }
    }

    /// The statements of the function once every scope is folded.
    pub open spec fn statements(self) -> Seq<StmtV> {
        self.fold_all().scopes[0].stmts
    }

    pub open spec fn has_scopes(self) -> bool {
        self.scopes.len() > 1
    }

    pub open spec fn last_is_if(self) -> bool {
        self.last().kind is If
    }

    /// The case targets of the innermost scope, where it is a `Switch`.
    pub open spec fn last_is_switch_ctx(self) -> Option<Seq<usize>> {
        match self.last().kind {
            ScopeKindV::Switch { targets, .. } => Some(targets),
            _ => None,
        }
    }

    /// The index of the `Label` of the innermost loop.
    pub open spec fn last_loop_start(self) -> Option<usize> {
        match last_loop(self.scopes) {
            Some(k) => Some(self.scopes[k].kind->Loop_start),
            None => None,
        }
    }

    /// The condition of the innermost loop.
    pub open spec fn last_loop_cond(self) -> Option<ExprV> {
        match last_loop(self.scopes) {
            Some(k) => Some(self.scopes[k].kind->Loop_cond),
            None => None,
        }
    }

    /// Gives the innermost loop its condition.
    pub open spec fn set_last_loop_cond(self, cond: ExprV) -> ScopesV {
        match last_loop(self.scopes) {
            Some(k) => ScopesV {
                scopes: self.scopes.update(
                    k,
                    ScopeV {
                        kind: ScopeKindV::Loop { start: self.scopes[k].kind->Loop_start, cond },
                        ..self.scopes[k]
                    },
                ),
                ..self
            },
            None => self,
        }
    }
}

impl Scope {
    /// The statement that the scope becomes when it is folded.
    pub fn fold(self) -> (r: Statement)
        ensures
            r@ == self@.fold(),
    {
        let Scope { kind, end, stmts } = self;
        match kind {
            ScopeKind::Function => Statement::Try { stmts, catch: None },
            ScopeKind::Loop { start, cond } => Statement::While { cond, stmts },
            ScopeKind::If { cond } => Statement::IfElse { cond, if_: stmts, else_: None },
            ScopeKind::Else { cond, if_ } => Statement::IfElse { cond, if_, else_: Some(stmts) },
            ScopeKind::Switch { arg, targets, cases, current } => {
                let mut cases = cases;
                let ghost before = cases@;
                cases.push((current, stmts));
                assert(cases_view(cases@) == cases_view(before).push(
                    (current, stmts_view(stmts@)),
                ));
                Statement::Switch { arg, cases }
            },
            ScopeKind::Try => Statement::Try { stmts, catch: None },
        }
    }
}

impl Scopes {
    /// A stack that holds the body of the function and nothing else.
    pub fn new() -> (r: Scopes)
        ensures
            r@ == ScopesV::initial(),
            r@.wf(),
    {
        let mut scopes: Vec<Scope> = Vec::new();
        scopes.push(Scope { kind: ScopeKind::Function, end: None, stmts: Vec::new() });
        let r = Scopes { scopes, cursor: 0, opened: Ghost(0), closed: Ghost(0) };
        assert(r@.scopes =~= ScopesV::initial().scopes);
        r
    }

    /// Appends a statement to the innermost scope.
    pub fn push_stmt(&mut self, stmt: Statement)
        requires
            old(self)@.wf(),
        ensures
            final(self)@ == old(self)@.push_stmt(stmt@),
            final(self)@.wf(),
    {
        let n = self.scopes.len();
        self.scopes[n - 1].stmts.push(stmt);
        assert(self@.scopes =~= old(self)@.push_stmt(stmt@).scopes);
    }

    fn push_scope(&mut self, kind: ScopeKind, end: Option<usize>)
        requires
            old(self)@.wf(),
            !(kind is Function),
        ensures
            final(self)@ == old(self)@.push_scope(kind@, end),
            final(self)@.wf(),
    {
        self.scopes.push(Scope { kind, end, stmts: Vec::new() });
        self.opened = Ghost((self.opened@ + 1) as nat);
        assert(self@.scopes =~= old(self)@.push_scope(kind@, end).scopes);
    }

    /// Opens a loop whose `Label` is at `start`.
    pub fn push_loop(&mut self, start: usize)
        requires
            old(self)@.wf(),
        ensures
            final(self)@ == old(self)@.push_loop(start),
            final(self)@.wf(),
    {
        let cond = Expr::Unknown("no condition".to_owned());
        self.push_scope(ScopeKind::Loop { start, cond }, None);
    }

    /// Opens the branch taken when `cond` holds, which ends after `end` instructions.
    pub fn push_if(&mut self, end: usize, cond: Expr)
        requires
            old(self)@.wf(),
        ensures
            final(self)@ == old(self)@.push_if(end, cond@),
            final(self)@.wf(),
    {
        self.push_scope(ScopeKind::If { cond }, Some(end));
    }

    /// Turns the innermost scope, an `If`, into the `Else` that follows it and ends after
    /// `end` instructions.
    pub fn push_else(&mut self, end: usize)
        requires
            old(self)@.wf(),
            old(self)@.last_is_if(),
        ensures
            final(self)@ == old(self)@.push_else(end),
            final(self)@.wf(),
    {
        let scope = self.scopes.pop().unwrap();
        let Scope { kind, end: _, stmts } = scope;
        match kind {
            ScopeKind::If { cond } => {
                self.scopes.push(
                    Scope {
                        kind: ScopeKind::Else { cond, if_: stmts },
                        end: Some(end),
                        stmts: Vec::new(),
                    },
                );
            },
            _ => {},
        }
        assert(self@.scopes =~= old(self)@.push_else(end).scopes);
    }

    /// Opens a switch on `arg` that ends after `end` instructions. The instruction at
    /// `targets[k]` starts the case `k`.
    pub fn push_switch(&mut self, end: usize, arg: Expr, targets: Vec<usize>)
        requires
            old(self)@.wf(),
        ensures
            final(self)@ == old(self)@.push_switch(end, arg@, targets@),
            final(self)@.wf(),
    {
        let cases: Vec<(Option<usize>, Vec<Statement>)> = Vec::new();
        self.push_scope(ScopeKind::Switch { arg, targets, cases, current: None }, Some(end));
    }

    /// Completes the case that the innermost scope, a `Switch`, is gathering, and starts
    /// the case `case`.
    pub fn push_switch_case(&mut self, case: usize)
        requires
            old(self)@.wf(),
            old(self)@.last().kind is Switch,
        ensures
            final(self)@ == old(self)@.push_switch_case(case),
            final(self)@.wf(),
    {
        let scope = self.scopes.pop().unwrap();
        let Scope { kind, end, stmts } = scope;
        match kind {
            ScopeKind::Switch { arg, targets, cases, current } => {
                let mut cases = cases;
                cases.push((current, stmts));
                self.scopes.push(
                    Scope {
                        kind: ScopeKind::Switch { arg, targets, cases, current: Some(case) },
                        end,
                        stmts: Vec::new(),
                    },
                );
            },
            _ => {},
        }
        assert(self@.scopes =~= old(self)@.push_switch_case(case).scopes);
    }

    /// Opens a guarded region that ends after `end` instructions.
    pub fn push_try(&mut self, end: usize)
        requires
            old(self)@.wf(),
        ensures
            final(self)@ == old(self)@.push_try(end),
            final(self)@.wf(),
    {
        self.push_scope(ScopeKind::Try, Some(end));
    }

    /// Folds the innermost scope into one statement of the scope around it.
    pub fn fold_last(&mut self)
        requires
            old(self)@.wf(),
            old(self)@.has_scopes(),
        ensures
            final(self)@ == old(self)@.fold_last(),
            final(self)@.wf(),
            final(self).cursor == old(self).cursor,
    {
        let scope = self.scopes.pop().unwrap();
        self.closed = Ghost(self.closed@ + 1);
        assert(self@.scopes =~= old(self)@.pop_last().scopes);
        self.push_stmt(scope.fold());
    }

    /// One instruction was consumed: moves the cursor and folds the scopes that end there.
    pub fn advance(&mut self)
        requires
            old(self)@.wf(),
            old(self).cursor < usize::MAX,
        ensures
            final(self)@ == old(self)@.advance(),
            final(self)@.wf(),
            final(self).cursor == old(self).cursor + 1,
    {
        self.cursor = self.cursor + 1;
        while self.scopes.len() > 1 && self.last_ends_here()
            invariant
                self@.wf(),
                self@.fold_due() == old(self)@.advance(),
                self.cursor == old(self).cursor + 1,
            decreases self.scopes.len(),
        {
            self.fold_last();
        }
    }

    fn last_ends_here(&self) -> (r: bool)
        requires
            self@.wf(),
        ensures
            r == (self@.last().end == Some(self@.cursor)),
    {
        let n = self.scopes.len();
        match self.scopes[n - 1].end {
            Some(end) => end == self.cursor,
            None => false,
        }
    }

    /// Closes the innermost scope where it is a loop, and hands out the loop as a statement.
    /// Leaves the stack as it is where the innermost scope is no loop.
    pub fn end_last_loop(&mut self) -> (r: Option<Statement>)
        requires
            old(self)@.wf(),
        ensures
            final(self)@.wf(),
            match r {
                Some(stmt) => {
                    &&& old(self)@.last().kind is Loop
                    &&& stmt@ == old(self)@.last().fold()
                    &&& final(self)@ == old(self)@.pop_last()
                },
                None => !(old(self)@.last().kind is Loop) && final(self)@ == old(self)@,
            },
    {
        let n = self.scopes.len();
        let is_loop = match &self.scopes[n - 1].kind {
            ScopeKind::Loop { .. } => true,
            _ => false,
        };
        if is_loop {
            let scope = self.scopes.pop().unwrap();
            self.closed = Ghost(self.closed@ + 1);
            assert(self@.scopes =~= old(self)@.pop_last().scopes);
            Some(scope.fold())
        } else {
            None
        }
    }

    /// True where a scope is open above the body of the function.
    pub fn has_scopes(&self) -> (r: bool)
        ensures
            r == self@.has_scopes(),
    {
        self.scopes.len() > 1
    }

    pub fn last_is_if(&self) -> (r: bool)
        requires
            self@.wf(),
        ensures
            r == self@.last_is_if(),
    {
        let n = self.scopes.len();
        match &self.scopes[n - 1].kind {
            ScopeKind::If { .. } => true,
            _ => false,
        }
    }

    /// The case targets of the innermost scope, where it is a switch.
    pub fn last_is_switch_ctx(&self) -> (r: Option<&Vec<usize>>)
        requires
            self@.wf(),
        ensures
            match r {
                Some(targets) => self@.last_is_switch_ctx() == Some(targets@),
                None => self@.last_is_switch_ctx() is None,
            },
    {
        let n = self.scopes.len();
        match &self.scopes[n - 1].kind {
            ScopeKind::Switch { targets, .. } => Some(targets),
            _ => None,
        }
    }

    /// The position in the stack of the innermost loop.
    fn last_loop_index(&self) -> (r: Option<usize>)
        ensures
            match r {
                Some(k) => last_loop(self@.scopes) == Some(k as int) && k < self.scopes@.len()
                    && self.scopes@[k as int].kind is Loop,
                None => last_loop(self@.scopes) is None,
            },
    {
        let mut k = self.scopes.len();
        assert(self@.scopes.take(k as int) =~= self@.scopes);
        while k > 0
            invariant
                k <= self.scopes@.len(),
                last_loop(self@.scopes) == last_loop(self@.scopes.take(k as int)),
            decreases k,
        {
            proof {
                assert(self@.scopes.take(k as int).drop_last() =~= self@.scopes.take(k - 1));
            }
            match &self.scopes[k - 1].kind {
                ScopeKind::Loop { .. } => {
                    return Some(k - 1);
                },
                _ => {},
            }
            k -= 1;
        }
        None
    }

    /// The index of the `Label` of the innermost loop.
    pub fn last_loop_start(&self) -> (r: Option<usize>)
        ensures
            r == self@.last_loop_start(),
    {
        match self.last_loop_index() {
            Some(k) => match &self.scopes[k].kind {
                ScopeKind::Loop { start, .. } => Some(*start),
                _ => None,
            },
            None => None,
        }
    }

    /// The condition of the innermost loop.
    pub fn last_loop_cond(&self) -> (r: Option<&Expr>)
        ensures
            match r {
                Some(cond) => self@.last_loop_cond() == Some(cond@),
                None => self@.last_loop_cond() is None,
            },
    {
        match self.last_loop_index() {
            Some(k) => match &self.scopes[k].kind {
                ScopeKind::Loop { cond, .. } => Some(cond),
                _ => None,
            },
            None => None,
        }
    }

    /// Gives the innermost loop its condition. Does nothing where no loop is open.
    pub fn set_last_loop_cond(&mut self, cond: Expr)
        requires
            old(self)@.wf(),
        ensures
            final(self)@ == old(self)@.set_last_loop_cond(cond@),
            final(self)@.wf(),
    {
        match self.last_loop_index() {
            Some(k) => {
                match &mut self.scopes[k].kind {
                    ScopeKind::Loop { cond: slot, .. } => {
                        *slot = cond;
                    },
                    _ => {},
                }
                assert(self@.scopes =~= old(self)@.set_last_loop_cond(cond@).scopes);
            },
            None => {},
        }
    }

    /// Folds every scope that is still open and hands out the statements of the function.
    pub fn statements(self) -> (r: Vec<Statement>)
        requires
            self@.wf(),
        ensures
            stmts_view(r@) == self@.statements(),
    {
        let mut scopes = self;
        while scopes.scopes.len() > 1
            invariant
                scopes@.wf(),
                scopes@.fold_all() == self@.fold_all(),
            decreases scopes.scopes.len(),
        {
            scopes.fold_last();
        }
        let root = scopes.scopes.pop().unwrap();
        root.stmts
    }
}

/// The innermost loop, where there is one, is a loop above the body of the function.
pub proof fn lemma_last_loop(scopes: Seq<ScopeV>)
    ensures
        match last_loop(scopes) {
            Some(k) => 0 <= k < scopes.len() && scopes[k].kind is Loop,
            None => forall|k: int| 0 <= k < scopes.len() ==> !(#[trigger] scopes[k].kind is Loop),
        },
    decreases scopes.len(),
{
    if scopes.len() > 0 && !(scopes.last().kind is Loop) {
        lemma_last_loop(scopes.drop_last());
        assert forall|k: int| 0 <= k < scopes.len() - 1 implies scopes[k]
            == scopes.drop_last()[k] by {}
    }
}

/// Folding the scopes that end at the cursor keeps the stack well formed.
pub proof fn lemma_fold_due_wf(s: ScopesV)
    requires
        s.wf(),
    ensures
        s.fold_due().wf(),
        s.fold_due().cursor == s.cursor,
        s.fold_due().opened == s.opened,
    decreases s.scopes.len(),
{
    if s.scopes.len() > 1 && s.last().end == Some(s.cursor) {
        lemma_fold_due_wf(s.fold_last());
    }
}

/// Scope-stack balance: every scope that was opened is folded or still open, so as many
/// were folded as opened exactly where none is open. Once every scope is folded into the
/// body of the function, as many were folded as opened.
pub proof fn lemma_scope_balance(s: ScopesV)
    requires
        s.wf(),
    ensures
        s.opened == s.closed + (s.scopes.len() - 1),
        s.opened == s.closed <==> !s.has_scopes(),
        s.fold_all().wf(),
        !s.fold_all().has_scopes(),
        s.fold_all().opened == s.opened,
        s.fold_all().closed == s.opened,
    decreases s.scopes.len(),
{
    if s.scopes.len() > 1 {
        lemma_scope_balance(s.fold_last());
    }
}

} // verus!
