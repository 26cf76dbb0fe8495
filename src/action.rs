//! The decision that a statement or a policy yields, and its partial order.

use core::cmp::Ordering;
use vstd::prelude::*;

verus! {

/// An errno that a WASI call returns.
pub type WasiErrno = u16;

/// Actions that can be taken by the policy.
#[derive(Debug, Clone, Copy, PartialEq, Eq, Structural)]
pub enum Action {
    Allow,
    Log,
    /// Return from the WASI call with a user-defined errno.
    ReturnErrno(WasiErrno),
    /// Terminate the WASM task.
    Kill,
}

/// Severity rank of an action: `Allow < Log < ReturnErrno(_) < Kill`.
pub open spec fn rank(a: Action) -> int {
    match a {
        Action::Allow => 0,
        Action::Log => 1,
        Action::ReturnErrno(_) => 2,
        Action::Kill => 3,
    }
}

/// How two actions are ordered: by rank, except that two errno returns with
/// different codes are not ordered.
pub open spec fn action_cmp(a: Action, b: Action) -> Option<Ordering> {
    if a is ReturnErrno && b is ReturnErrno && a != b {
        None
    } else if rank(a) < rank(b) {
        Some(Ordering::Less)
    } else if rank(a) == rank(b) {
        Some(Ordering::Equal)
    } else {
        Some(Ordering::Greater)
    }
}

impl Action {
    /// The action of a statement or a policy that names none: `Kill`.
    pub fn default() -> (r: Action)
        ensures
            r == Action::Kill,
    {
        Action::Kill
    }

    pub fn is_kill(&self) -> (r: bool)
        ensures
            r == (*self == Action::Kill),
    {
        matches!(self, Action::Kill)
    }

    pub fn is_allow(&self) -> (r: bool)
        ensures
            r == (*self == Action::Allow),
    {
        matches!(self, Action::Allow)
    }
}

impl Default for Action {
    fn default() -> (r: Action)
        ensures
            r == Action::Kill,
    {
        Action::Kill
    }
}

impl PartialOrd for Action {
    fn partial_cmp(&self, other: &Action) -> (r: Option<Ordering>) {
        match (self, other) {
            (Action::Allow, Action::Allow) => Some(Ordering::Equal),
            (Action::Allow, _) => Some(Ordering::Less),
            (_, Action::Allow) => Some(Ordering::Greater),
            (Action::Log, Action::Log) => Some(Ordering::Equal),
            (Action::Log, _) => Some(Ordering::Less),
            (_, Action::Log) => Some(Ordering::Greater),
            (Action::ReturnErrno(x), Action::ReturnErrno(y)) => if x == y {
                Some(Ordering::Equal)
            } else {
                None
            },
            (Action::ReturnErrno(_), _) => Some(Ordering::Less),
            (_, Action::ReturnErrno(_)) => Some(Ordering::Greater),
            (Action::Kill, Action::Kill) => Some(Ordering::Equal),
        }
    }
}

impl vstd::std_specs::cmp::PartialOrdSpecImpl for Action {
    open spec fn obeys_partial_cmp_spec() -> bool {
        true
    }

    open spec fn partial_cmp_spec(&self, other: &Action) -> Option<Ordering> {
        action_cmp(*self, *other)
    }
}

/// `Allow` is below or equal to every action, and `Kill` above or equal to
/// every action; the only unordered pairs are two errno returns with
/// different codes.
pub proof fn lemma_allow_least_kill_greatest(a: Action, b: Action)
    ensures
        action_cmp(Action::Allow, a) == Some(Ordering::Less) || action_cmp(Action::Allow, a)
            == Some(Ordering::Equal),
        action_cmp(a, Action::Kill) == Some(Ordering::Less) || action_cmp(a, Action::Kill)
            == Some(Ordering::Equal),
        action_cmp(a, b) is None <==> (a is ReturnErrno && b is ReturnErrno && a != b),
        action_cmp(a, b) == Some(Ordering::Equal) <==> a == b,
{
}

/// The actions that need enforcement: all but `Allow`, in their order.
pub open spec fn to_execute(actions: Seq<Action>) -> Seq<Action> {
    actions.filter(|a: Action| a != Action::Allow)
}

/// Filters out `Action::Allow` from the given actions, keeping the order of
/// the rest.
pub fn actions_to_execute(actions: &[Action]) -> (r: Vec<Action>)
    ensures
        r@ == to_execute(actions@),
{
    let mut r: Vec<Action> = Vec::new();
    let mut i: usize = 0;
    while i < actions.len()
        invariant
            i <= actions@.len(),
            r@ == to_execute(actions@.take(i as int)),
        decreases actions@.len() - i,
    {
        proof {
            assert(actions@.take(i as int + 1) =~= actions@.take(i as int).push(actions@[i as int]));
            actions@.take(i as int).lemma_filter_push(actions@[i as int], |a: Action| a != Action::Allow);
        }
        if actions[i] != Action::Allow {
            r.push(actions[i]);
        }
        i += 1;
    }
    assert(actions@.take(actions@.len() as int) =~= actions@);
    r
}

/// Filtering twice gives what filtering once gives.
pub proof fn lemma_to_execute_idempotent(actions: Seq<Action>)
    ensures
        to_execute(to_execute(actions)) == to_execute(actions),
    decreases actions.len(),
{
    let p = |a: Action| a != Action::Allow;
    if actions.len() > 0 {
        let init = actions.drop_last();
        assert(actions =~= init.push(actions.last()));
        init.lemma_filter_push(actions.last(), p);
        lemma_to_execute_idempotent(init);
        if p(actions.last()) {
            init.filter(p).lemma_filter_push(actions.last(), p);
        }
    } else {
        assert(actions.filter(p) =~= Seq::<Action>::empty());
    }
}

/// What `actions_to_execute` keeps is exactly the non-`Allow` entries: none of
/// its result is `Allow`, and every entry that is not `Allow` is kept.
pub proof fn lemma_to_execute_drops_exactly_allow(actions: Seq<Action>)
    ensures
        forall|i: int| 0 <= i < to_execute(actions).len() ==> to_execute(actions)[i] != Action::Allow,
        forall|a: Action| a != Action::Allow ==> (actions.contains(a) <==> to_execute(actions).contains(a)),
        to_execute(actions).len() <= actions.len(),
{
    let p = |a: Action| a != Action::Allow;
    actions.lemma_filter_len(p);
    assert forall|i: int| 0 <= i < to_execute(actions).len() implies to_execute(actions)[i]
        != Action::Allow by {
        actions.lemma_filter_pred(p, i);
    }
    assert forall|a: Action| a != Action::Allow implies (actions.contains(a) <==> to_execute(
        actions,
    ).contains(a)) by {
        if actions.contains(a) {
            let i = choose|i: int| 0 <= i < actions.len() && actions[i] == a;
            actions.lemma_filter_contains(p, i);
        }
        if to_execute(actions).contains(a) {
            actions.lemma_filter_contains_rev(p, a);
        }
    }
}

} // verus!
