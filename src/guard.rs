//! Guards: the statements that govern one ABI, and their evaluation on the
//! arguments of a call.

use crate::action::{actions_to_execute, to_execute, Action};
use crate::bound::{ArgValue, PredicateParams};
use crate::stmt::Statement;
use smallvec::SmallVec;
use vstd::prelude::*;

verus! {

/// The recommended number of statements of one guard. It sizes the inline
/// storage of the statement and action lists only: more statements are kept
/// and evaluated.
pub const STMT_EACH_GUARD: usize = 2;

/// The recommended number of actions that one guard yields.
pub const ACTION_NUM: usize = STMT_EACH_GUARD;

/// The actions that a guard yields, in order. They are held inline up to
/// `ACTION_NUM` and on the heap beyond.
#[verifier::external_body]
pub struct ActionList {
    items: SmallVec<[Action; 2]>,
}

/// The actions held by an action list, in order.
pub uninterp spec fn action_items(v: ActionList) -> Seq<Action>;

impl ActionList {
    /// Relies on `smallvec::SmallVec::new`: an empty vector.
    #[verifier::external_body]
    fn new() -> (r: ActionList)
        ensures
            action_items(r) == Seq::<Action>::empty(),
    {
        ActionList { items: SmallVec::new() }
    }

    /// Relies on `smallvec::SmallVec::push`: appends one element at the end.
    #[verifier::external_body]
    fn push(&mut self, a: Action)
        ensures
            action_items(*final(self)) == action_items(*old(self)).push(a),
    {
        self.items.push(a)
    }

    /// Relies on `smallvec::SmallVec::as_slice`: the elements, in order.
    #[verifier::external_body]
    fn as_slice(&self) -> (r: &[Action])
        ensures
            r@ == action_items(*self),
    {
        self.items.as_slice()
    }

    /// The number of actions.
    pub fn len(&self) -> (r: usize)
        ensures
            r == action_items(*self).len(),
    {
        self.as_slice().len()
    }

    /// The actions, in order.
    pub fn to_vec(&self) -> (r: Vec<Action>)
        ensures
            r@ == action_items(*self),
    {
        let items = self.as_slice();
        let mut r: Vec<Action> = Vec::new();
        let mut i: usize = 0;
        while i < items.len()
            invariant
                i <= items@.len(),
                r@ == items@.take(i as int),
            decreases items@.len() - i,
        {
            r.push(items[i]);
            i += 1;
            assert(r@ =~= items@.take(i as int));
        }
        assert(items@.take(i as int) =~= items@);
        r
    }

    /// The actions that need enforcement: all but `Allow`, in order.
    pub fn to_execute(&self) -> (r: Vec<Action>)
        ensures
            r@ == to_execute(action_items(*self)),
    {
        actions_to_execute(self.as_slice())
    }
}

/// The statements of a guard, in order. They are held inline up to
/// `STMT_EACH_GUARD` and on the heap beyond.
#[verifier::external_body]
pub struct StatementList<'desc> {
    items: SmallVec<[Statement<'desc>; 2]>,
}

/// The statements held by a statement list, in order.
pub uninterp spec fn statement_items(l: StatementList) -> Seq<Statement>;

impl<'desc> StatementList<'desc> {
    /// Relies on `smallvec::SmallVec::from_vec`: the vector's elements, in
    /// order.
    #[verifier::external_body]
    fn from_vec(v: Vec<Statement<'desc>>) -> (r: StatementList<'desc>)
        ensures
            statement_items(r) == v@,
    {
        StatementList { items: SmallVec::from_vec(v) }
    }

    /// Relies on `smallvec::SmallVec::push`: appends one element at the end.
    #[verifier::external_body]
    fn push(&mut self, s: Statement<'desc>)
        ensures
            statement_items(*final(self)) == statement_items(*old(self)).push(s),
    {
        self.items.push(s)
    }

    /// Relies on `smallvec::SmallVec::as_slice`: the elements, in order.
    #[verifier::external_body]
    fn as_slice(&self) -> (r: &[Statement<'desc>])
        ensures
            r@ == statement_items(*self),
    {
        self.items.as_slice()
    }
}

/// Relies on `Vec::from` on an array: the array's elements, in order.
#[verifier::external_body]
fn vec_from_array<T, const N: usize>(a: [T; N]) -> (r: Vec<T>)
    ensures
        r@ == a@,
{
    Vec::from(a)
}

/// The actions of the statements that fire on `args`, in declaration order.
pub open spec fn fired_actions(stmts: Seq<Statement>, args: Seq<ArgValue>) -> Seq<Action>
    decreases stmts.len(),
{
    if stmts.len() == 0 {
        Seq::empty()
    } else {
        let earlier = fired_actions(stmts.drop_last(), args);
        if stmts.last().fires(args) {
            earlier.push(stmts.last().spec_action())
        } else {
            earlier
        }
    }
}

/// One guard for each WASI ABI: the ordered statements that apply to its
/// calls.
pub struct WasiGuard<'desc> {
    statements: StatementList<'desc>,
}

impl<'desc> WasiGuard<'desc> {
    pub closed spec fn spec_statements(&self) -> Seq<Statement<'desc>> {
        statement_items(self.statements)
    }

    /// Every statement is typed for argument lists of this length.
    pub open spec fn accepts(&self, args: Seq<ArgValue>) -> bool {
        forall|i: int|
            0 <= i < self.spec_statements().len() ==> (#[trigger] self.spec_statements()[i]).spec_abi().arity()
                == args.len()
    }

    /// Some statement kills every call.
    pub open spec fn kills_unconditionally(&self) -> bool {
        exists|i: int|
            0 <= i < self.spec_statements().len() && (#[trigger] self.spec_statements()[i]).kills_unconditionally()
    }

    pub fn from_vec(statements: Vec<Statement<'desc>>) -> (r: Self)
        ensures
            r.spec_statements() == statements@,
    {
        WasiGuard { statements: StatementList::from_vec(statements) }
    }

    pub fn from_arr<const N: usize>(statements: [Statement<'desc>; N]) -> (r: Self)
        ensures
            r.spec_statements() == statements@,
    {
        WasiGuard { statements: StatementList::from_vec(vec_from_array(statements)) }
    }

    /// Appends a statement after the present ones.
    pub(crate) fn add(&mut self, statement: Statement<'desc>)
        ensures
            final(self).spec_statements() == old(self).spec_statements().push(statement),
    {
        self.statements.push(statement);
    }

    pub fn statements(&self) -> (r: &[Statement<'desc>])
        ensures
            r@ == self.spec_statements(),
    {
        self.statements.as_slice()
    }

    /// Evaluates every statement in declaration order and returns the actions
    /// of those whose bound is absent or satisfied; empty when none applies.
    pub fn check_args(&self, args: &[ArgValue]) -> (r: ActionList)
        requires
            self.accepts(args@),
        ensures
            action_items(r) == fired_actions(self.spec_statements(), args@),
    {
        let stmts = self.statements.as_slice();
        let mut r = ActionList::new();
        let mut i: usize = 0;
        while i < stmts.len()
            invariant
                i <= stmts@.len(),
                stmts@ == self.spec_statements(),
                self.accepts(args@),
                action_items(r) == fired_actions(stmts@.take(i as int), args@),
            decreases stmts@.len() - i,
        {
            assert(stmts@.take(i as int + 1).drop_last() =~= stmts@.take(i as int));
            let stmt = &stmts[i];
            assert(self.spec_statements()[i as int] == *stmt);
            if stmt.check_bound_args(args) {
                r.push(stmt.action());
            }
            i += 1;
        }
        assert(stmts@.take(i as int) =~= stmts@);
        r
    }

    /// Evaluates the guard on a tuple of arguments.
    pub fn check<P: PredicateParams>(&self, params: P) -> (r: ActionList)
        requires
            self.accepts(params.arg_values()),
        ensures
            action_items(r) == fired_actions(self.spec_statements(), params.arg_values()),
    {
        let args = params.to_args();
        self.check_args(args.as_slice())
    }

    /// Whether some statement kills every call of the ABI.
    pub fn must_be_killed(&self) -> (r: bool)
        ensures
            r == self.kills_unconditionally(),
    {
        let stmts = self.statements.as_slice();
        let mut i: usize = 0;
        while i < stmts.len()
            invariant
                i <= stmts@.len(),
                stmts@ == self.spec_statements(),
                forall|j: int| 0 <= j < i ==> !(#[trigger] stmts@[j]).kills_unconditionally(),
            decreases stmts@.len() - i,
        {
            if stmts[i].must_be_killed() {
                assert(self.spec_statements()[i as int].kills_unconditionally());
                return true;
            }
            i += 1;
        }
        false
    }
}

/// Guard evaluation keeps exactly the statements that fire, in declaration
/// order, and yields their actions.
pub proof fn lemma_fired_actions_filter_map(stmts: Seq<Statement>, args: Seq<ArgValue>)
    ensures
        fired_actions(stmts, args) == stmts.filter(|s: Statement| s.fires(args)).map_values(
            |s: Statement| s.spec_action(),
        ),
    decreases stmts.len(),
{
    let p = |s: Statement| s.fires(args);
    let f = |s: Statement| s.spec_action();
    if stmts.len() > 0 {
        let init = stmts.drop_last();
        lemma_fired_actions_filter_map(init, args);
        assert(stmts =~= init.push(stmts.last()));
        init.lemma_filter_push(stmts.last(), p);
        if p(stmts.last()) {
            assert(init.filter(p).push(stmts.last()).map_values(f) =~= init.filter(p).map_values(
                f,
            ).push(f(stmts.last())));
        }
    } else {
        assert(stmts.filter(p) =~= Seq::<Statement>::empty());
        assert(stmts.filter(p).map_values(f) =~= Seq::<Action>::empty());
    }
}

} // verus!
