//! Statements: "if a call of this ABI satisfies this bound, take this action".

use crate::action::Action;
use crate::bound::{AbiArgBound, ArgValue, Predicate, PredicateParams};
use crate::wasi::WasiAbiDescriptor;
use vstd::prelude::*;

verus! {

/// If `abi` satisfies `bound`, then `action`. A statement without a bound
/// applies to every call of its ABI.
#[derive(Debug)]
pub struct Statement<'desc> {
    abi: &'desc WasiAbiDescriptor,
    bound: Option<AbiArgBound>,
    action: Action,
}

impl<'desc> Statement<'desc> {
    #[verifier::type_invariant]
    spec fn inv(&self) -> bool {
        self.bound matches Some(b) ==> b.arity() == self.abi.arity()
    }

    pub closed spec fn spec_abi(&self) -> WasiAbiDescriptor {
        *self.abi
    }

    pub closed spec fn spec_bound(&self) -> Option<AbiArgBound> {
        self.bound
    }

    pub closed spec fn spec_action(&self) -> Action {
        self.action
    }

    /// The bound is absent or satisfied by the arguments.
    pub open spec fn fires(&self, args: Seq<ArgValue>) -> bool {
        match self.spec_bound() {
            None => true,
            Some(b) => b.holds_on(args),
        }
    }

    /// A statement that kills every call of its ABI, whatever the arguments.
    pub open spec fn kills_unconditionally(&self) -> bool {
        self.spec_action() == Action::Kill && self.spec_bound() is None
    }

    /// A statement with no bound.
    pub fn new(abi: &'desc WasiAbiDescriptor, action: Action) -> (r: Statement<'desc>)
        ensures
            r.spec_abi() == *abi,
            r.spec_bound() is None,
            r.spec_action() == action,
    {
        Statement { abi, bound: None, action }
    }

    pub fn abi(&self) -> (r: &'desc WasiAbiDescriptor)
        ensures
            *r == self.spec_abi(),
    {
        self.abi
    }

    pub fn action(&self) -> (r: Action)
        ensures
            r == self.spec_action(),
    {
        self.action
    }

    pub fn bound(&self) -> (r: Option<&AbiArgBound>)
        ensures
            r matches Some(b) ==> self.spec_bound() == Some(*b),
            r is None <==> self.spec_bound() is None,
    {
        match &self.bound {
            Some(b) => Some(b),
            None => None,
        }
    }

    /// Replaces the bound by one with the same number of arguments; their
    /// types may differ.
    pub fn when(self, bound: AbiArgBound) -> (r: Statement<'desc>)
        requires
            bound.arity() == self.spec_abi().arity(),
        ensures
            r.spec_abi() == self.spec_abi(),
            r.spec_bound() == Some(bound),
            r.spec_action() == self.spec_action(),
    {
        Statement { abi: self.abi, bound: Some(bound), action: self.action }
    }

    /// Adds a bound that must hold as well as the present one.
    pub fn and_when(self, other_bound: AbiArgBound) -> (r: Self)
        requires
            other_bound.arity() == self.spec_abi().arity(),
        ensures
            r.spec_abi() == self.spec_abi(),
            r.spec_action() == self.spec_action(),
            r.spec_bound() matches Some(b) && b.arity() == other_bound.arity() && b.predicate()
                == match self.spec_bound() {
                None => other_bound.predicate(),
                Some(old_bound) => Predicate::And(
                    Box::new(old_bound.predicate()),
                    Box::new(other_bound.predicate()),
                ),
            },
    {
        proof {
            use_type_invariant(&self);
        }
        let Statement { abi, bound, action } = self;
        let bound = match bound {
            None => other_bound,
            Some(b) => b.and(other_bound),
        };
        Statement { abi, bound: Some(bound), action }
    }

    /// Replaces the action.
    pub fn trigger(self, action: Action) -> (r: Self)
        ensures
            r.spec_abi() == self.spec_abi(),
            r.spec_bound() == self.spec_bound(),
            r.spec_action() == action,
    {
        proof {
            use_type_invariant(&self);
        }
        Statement { abi: self.abi, bound: self.bound, action }
    }

    /// Whether the statement applies to a call with these arguments: `true`
    /// when there is no bound.
    pub fn check_bound_args(&self, args: &[ArgValue]) -> (r: bool)
        requires
            args@.len() == self.spec_abi().arity(),
        ensures
            r == self.fires(args@),
    {
        proof {
            use_type_invariant(self);
        }
        match &self.bound {
            None => true,
            Some(b) => b.check_args(args),
        }
    }

    /// Whether the statement applies to a call with this tuple of arguments.
    pub fn check_bound<P: PredicateParams>(&self, params: P) -> (r: bool)
        requires
            params.arg_values().len() == self.spec_abi().arity(),
        ensures
            r == self.fires(params.arg_values()),
    {
        let args = params.to_args();
        self.check_bound_args(args.as_slice())
    }

    /// Whether the statement kills every call of its ABI.
    pub fn must_be_killed(&self) -> (r: bool)
        ensures
            r == self.kills_unconditionally(),
    {
        self.action.is_kill() && self.bound.is_none()
    }
}

/// Starts a statement on an ABI with the given action.
pub trait Trigger<'initiator> {
    fn trigger(&'initiator self, action: Action) -> Statement<'initiator>;
}

impl<'desc> Trigger<'desc> for WasiAbiDescriptor {
    fn trigger(&'desc self, action: Action) -> (r: Statement<'desc>)
        ensures
            r.spec_abi() == *self,
            r.spec_bound() is None,
            r.spec_action() == action,
    {
        Statement::new(self, action)
    }
}

} // verus!
