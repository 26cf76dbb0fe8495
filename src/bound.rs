//! Predicates over the arguments of a WASI call, their composition, and the
//! bound that a statement carries.
//!
//! A call's arguments are a list of tagged values. A predicate is a small
//! expression over them (comparisons of arguments and constants, divisibility,
//! negation, conjunction, disjunction), so that what it decides is stated and
//! checked rather than hidden in a closure.

use vstd::prelude::*;

verus! {

/// One argument of a WASI call, tagged with its type.
#[derive(Debug, Clone, Copy, PartialEq, Eq, Structural)]
pub enum ArgValue {
    Bool(bool),
    I32(i32),
    U32(u32),
    I64(i64),
    U64(u64),
}

impl ArgValue {
    /// The integer that an argument stands for; `true` is 1 and `false` 0.
    pub open spec fn int_value(self) -> int {
        match self {
            ArgValue::Bool(b) => if b {
                1
            } else {
                0
            },
            ArgValue::I32(v) => v as int,
            ArgValue::U32(v) => v as int,
            ArgValue::I64(v) => v as int,
            ArgValue::U64(v) => v as int,
        }
    }

    pub fn to_i128(&self) -> (r: i128)
        ensures
            r as int == self.int_value(),
            -0x8000_0000_0000_0000 <= r <= 0xffff_ffff_ffff_ffff,
    {
        match *self {
            ArgValue::Bool(b) => if b {
                1
            } else {
                0
            },
            ArgValue::I32(v) => v as i128,
            ArgValue::U32(v) => v as i128,
            ArgValue::I64(v) => v as i128,
            ArgValue::U64(v) => v as i128,
        }
    }
}

/// A type that can stand as one argument of a predicate.
pub trait PredicateParam: Sized {
    spec fn arg_value(&self) -> ArgValue;

    fn to_arg(&self) -> (r: ArgValue)
        ensures
            r == self.arg_value(),
    ;
}

impl PredicateParam for bool {
    open spec fn arg_value(&self) -> ArgValue {
        ArgValue::Bool(*self)
    }

    fn to_arg(&self) -> (r: ArgValue) {
        ArgValue::Bool(*self)
    }
}

impl PredicateParam for i32 {
    open spec fn arg_value(&self) -> ArgValue {
        ArgValue::I32(*self)
    }

    fn to_arg(&self) -> (r: ArgValue) {
        ArgValue::I32(*self)
    }
}

impl PredicateParam for u32 {
    open spec fn arg_value(&self) -> ArgValue {
        ArgValue::U32(*self)
    }

    fn to_arg(&self) -> (r: ArgValue) {
        ArgValue::U32(*self)
    }
}

impl PredicateParam for i64 {
    open spec fn arg_value(&self) -> ArgValue {
        ArgValue::I64(*self)
    }

    fn to_arg(&self) -> (r: ArgValue) {
        ArgValue::I64(*self)
    }
}

impl PredicateParam for u64 {
    open spec fn arg_value(&self) -> ArgValue {
        ArgValue::U64(*self)
    }

    fn to_arg(&self) -> (r: ArgValue) {
        ArgValue::U64(*self)
    }
}

impl PredicateParam for ArgValue {
    open spec fn arg_value(&self) -> ArgValue {
        *self
    }

    fn to_arg(&self) -> (r: ArgValue) {
        *self
    }
}

/// A tuple, with the number of its fields.
pub trait Tuple {
    const LENGTH: usize;
}

/// A tuple whose fields can all stand as predicate arguments: the argument
/// list of one call.
pub trait PredicateParams: Tuple {
    spec fn arg_values(&self) -> Seq<ArgValue>;

    fn to_args(&self) -> (r: Vec<ArgValue>)
        ensures
            r@ == self.arg_values(),
    ;
}

impl Tuple for () {
    const LENGTH: usize = 0;
}

impl PredicateParams for () {
    open spec fn arg_values(&self) -> Seq<ArgValue> {
        seq![]
    }

    fn to_args(&self) -> (r: Vec<ArgValue>) {
        let r: Vec<ArgValue> = vec![];
        proof {
            assert(r@ =~= self.arg_values());
        }
        r
    }
}

impl<A0> Tuple for (A0,) {
    const LENGTH: usize = 1;
}

impl<A0: PredicateParam> PredicateParams for (A0,) {
    open spec fn arg_values(&self) -> Seq<ArgValue> {
        seq![self.0.arg_value()]
    }

    fn to_args(&self) -> (r: Vec<ArgValue>) {
        let r: Vec<ArgValue> = vec![self.0.to_arg()];
        proof {
            assert(r@ =~= self.arg_values());
        }
        r
    }
}

impl<A0, A1> Tuple for (A0, A1) {
    const LENGTH: usize = 2;
}

impl<A0: PredicateParam, A1: PredicateParam> PredicateParams for (A0, A1) {
    open spec fn arg_values(&self) -> Seq<ArgValue> {
        seq![self.0.arg_value(), self.1.arg_value()]
    }

    fn to_args(&self) -> (r: Vec<ArgValue>) {
        let r: Vec<ArgValue> = vec![self.0.to_arg(), self.1.to_arg()];
        proof {
            assert(r@ =~= self.arg_values());
        }
        r
    }
}

impl<A0, A1, A2> Tuple for (A0, A1, A2) {
    const LENGTH: usize = 3;
}

impl<A0: PredicateParam, A1: PredicateParam, A2: PredicateParam> PredicateParams for (A0, A1, A2) {
    open spec fn arg_values(&self) -> Seq<ArgValue> {
        seq![self.0.arg_value(), self.1.arg_value(), self.2.arg_value()]
    }

    fn to_args(&self) -> (r: Vec<ArgValue>) {
        let r: Vec<ArgValue> = vec![self.0.to_arg(), self.1.to_arg(), self.2.to_arg()];
        proof {
            assert(r@ =~= self.arg_values());
        }
        r
    }
}

impl<A0, A1, A2, A3> Tuple for (A0, A1, A2, A3) {
    const LENGTH: usize = 4;
}

impl<A0: PredicateParam, A1: PredicateParam, A2: PredicateParam, A3: PredicateParam> PredicateParams for (A0, A1, A2, A3) {
    open spec fn arg_values(&self) -> Seq<ArgValue> {
        seq![self.0.arg_value(), self.1.arg_value(), self.2.arg_value(), self.3.arg_value()]
    }

    fn to_args(&self) -> (r: Vec<ArgValue>) {
        let r: Vec<ArgValue> = vec![self.0.to_arg(), self.1.to_arg(), self.2.to_arg(), self.3.to_arg()];
        proof {
            assert(r@ =~= self.arg_values());
        }
        r
    }
}

impl<A0, A1, A2, A3, A4> Tuple for (A0, A1, A2, A3, A4) {
    const LENGTH: usize = 5;
}

impl<A0: PredicateParam, A1: PredicateParam, A2: PredicateParam, A3: PredicateParam, A4: PredicateParam> PredicateParams for (A0, A1, A2, A3, A4) {
    open spec fn arg_values(&self) -> Seq<ArgValue> {
        seq![self.0.arg_value(), self.1.arg_value(), self.2.arg_value(), self.3.arg_value(), self.4.arg_value()]
    }

    fn to_args(&self) -> (r: Vec<ArgValue>) {
        let r: Vec<ArgValue> = vec![self.0.to_arg(), self.1.to_arg(), self.2.to_arg(), self.3.to_arg(), self.4.to_arg()];
        proof {
            assert(r@ =~= self.arg_values());
        }
        r
    }
}

impl<A0, A1, A2, A3, A4, A5> Tuple for (A0, A1, A2, A3, A4, A5) {
    const LENGTH: usize = 6;
}

impl<A0: PredicateParam, A1: PredicateParam, A2: PredicateParam, A3: PredicateParam, A4: PredicateParam, A5: PredicateParam> PredicateParams for (A0, A1, A2, A3, A4, A5) {
    open spec fn arg_values(&self) -> Seq<ArgValue> {
        seq![self.0.arg_value(), self.1.arg_value(), self.2.arg_value(), self.3.arg_value(), self.4.arg_value(), self.5.arg_value()]
    }

    fn to_args(&self) -> (r: Vec<ArgValue>) {
        let r: Vec<ArgValue> = vec![self.0.to_arg(), self.1.to_arg(), self.2.to_arg(), self.3.to_arg(), self.4.to_arg(), self.5.to_arg()];
        proof {
            assert(r@ =~= self.arg_values());
        }
        r
    }
}

impl<A0, A1, A2, A3, A4, A5, A6> Tuple for (A0, A1, A2, A3, A4, A5, A6) {
    const LENGTH: usize = 7;
}

impl<A0: PredicateParam, A1: PredicateParam, A2: PredicateParam, A3: PredicateParam, A4: PredicateParam, A5: PredicateParam, A6: PredicateParam> PredicateParams for (A0, A1, A2, A3, A4, A5, A6) {
    open spec fn arg_values(&self) -> Seq<ArgValue> {
        seq![self.0.arg_value(), self.1.arg_value(), self.2.arg_value(), self.3.arg_value(), self.4.arg_value(), self.5.arg_value(), self.6.arg_value()]
    }

    fn to_args(&self) -> (r: Vec<ArgValue>) {
        let r: Vec<ArgValue> = vec![self.0.to_arg(), self.1.to_arg(), self.2.to_arg(), self.3.to_arg(), self.4.to_arg(), self.5.to_arg(), self.6.to_arg()];
        proof {
            assert(r@ =~= self.arg_values());
        }
        r
    }
}

impl<A0, A1, A2, A3, A4, A5, A6, A7> Tuple for (A0, A1, A2, A3, A4, A5, A6, A7) {
    const LENGTH: usize = 8;
}

impl<A0: PredicateParam, A1: PredicateParam, A2: PredicateParam, A3: PredicateParam, A4: PredicateParam, A5: PredicateParam, A6: PredicateParam, A7: PredicateParam> PredicateParams for (A0, A1, A2, A3, A4, A5, A6, A7) {
    open spec fn arg_values(&self) -> Seq<ArgValue> {
        seq![self.0.arg_value(), self.1.arg_value(), self.2.arg_value(), self.3.arg_value(), self.4.arg_value(), self.5.arg_value(), self.6.arg_value(), self.7.arg_value()]
    }

    fn to_args(&self) -> (r: Vec<ArgValue>) {
        let r: Vec<ArgValue> = vec![self.0.to_arg(), self.1.to_arg(), self.2.to_arg(), self.3.to_arg(), self.4.to_arg(), self.5.to_arg(), self.6.to_arg(), self.7.to_arg()];
        proof {
            assert(r@ =~= self.arg_values());
        }
        r
    }
}

impl<A0, A1, A2, A3, A4, A5, A6, A7, A8> Tuple for (A0, A1, A2, A3, A4, A5, A6, A7, A8) {
    const LENGTH: usize = 9;
}

impl<A0: PredicateParam, A1: PredicateParam, A2: PredicateParam, A3: PredicateParam, A4: PredicateParam, A5: PredicateParam, A6: PredicateParam, A7: PredicateParam, A8: PredicateParam> PredicateParams for (A0, A1, A2, A3, A4, A5, A6, A7, A8) {
    open spec fn arg_values(&self) -> Seq<ArgValue> {
        seq![self.0.arg_value(), self.1.arg_value(), self.2.arg_value(), self.3.arg_value(), self.4.arg_value(), self.5.arg_value(), self.6.arg_value(), self.7.arg_value(), self.8.arg_value()]
    }

    fn to_args(&self) -> (r: Vec<ArgValue>) {
        let r: Vec<ArgValue> = vec![self.0.to_arg(), self.1.to_arg(), self.2.to_arg(), self.3.to_arg(), self.4.to_arg(), self.5.to_arg(), self.6.to_arg(), self.7.to_arg(), self.8.to_arg()];
        proof {
            assert(r@ =~= self.arg_values());
        }
        r
    }
}

impl<A0, A1, A2, A3, A4, A5, A6, A7, A8, A9> Tuple for (A0, A1, A2, A3, A4, A5, A6, A7, A8, A9) {
    const LENGTH: usize = 10;
}

impl<A0: PredicateParam, A1: PredicateParam, A2: PredicateParam, A3: PredicateParam, A4: PredicateParam, A5: PredicateParam, A6: PredicateParam, A7: PredicateParam, A8: PredicateParam, A9: PredicateParam> PredicateParams for (A0, A1, A2, A3, A4, A5, A6, A7, A8, A9) {
    open spec fn arg_values(&self) -> Seq<ArgValue> {
        seq![self.0.arg_value(), self.1.arg_value(), self.2.arg_value(), self.3.arg_value(), self.4.arg_value(), self.5.arg_value(), self.6.arg_value(), self.7.arg_value(), self.8.arg_value(), self.9.arg_value()]
    }

    fn to_args(&self) -> (r: Vec<ArgValue>) {
        let r: Vec<ArgValue> = vec![self.0.to_arg(), self.1.to_arg(), self.2.to_arg(), self.3.to_arg(), self.4.to_arg(), self.5.to_arg(), self.6.to_arg(), self.7.to_arg(), self.8.to_arg(), self.9.to_arg()];
        proof {
            assert(r@ =~= self.arg_values());
        }
        r
    }
}

/// A value that a predicate reads: an argument, by position, or a constant.
#[derive(Debug, Clone, Copy, PartialEq, Eq, Structural)]
pub enum Operand {
    Arg(usize),
    Const(i64),
}

impl Operand {
    /// The operand reads no argument at or past `arity`.
    pub open spec fn within(self, arity: nat) -> bool {
        match self {
            Operand::Arg(i) => i < arity,
            Operand::Const(_) => true,
        }
    }

    pub open spec fn eval(self, args: Seq<ArgValue>) -> int {
        match self {
            Operand::Arg(i) => args[i as int].int_value(),
            Operand::Const(c) => c as int,
        }
    }

    pub fn value(&self, args: &[ArgValue]) -> (r: i128)
        requires
            self.within(args@.len()),
        ensures
            r as int == self.eval(args@),
            -0x8000_0000_0000_0000 <= r <= 0xffff_ffff_ffff_ffff,
    {
        match *self {
            Operand::Arg(i) => args[i].to_i128(),
            Operand::Const(c) => c as i128,
        }
    }
}

/// An integer expression over operands.
#[derive(Debug, Clone, Copy, PartialEq, Eq, Structural)]
pub enum Term {
    Value(Operand),
    Sum(Operand, Operand),
    Difference(Operand, Operand),
    /// Bitwise and, on the two's complement forms of the operands.
    BitAnd(Operand, Operand),
}

impl Term {
    pub open spec fn within(self, arity: nat) -> bool {
        match self {
            Term::Value(a) => a.within(arity),
            Term::Sum(a, b) => a.within(arity) && b.within(arity),
            Term::Difference(a, b) => a.within(arity) && b.within(arity),
            Term::BitAnd(a, b) => a.within(arity) && b.within(arity),
        }
    }

    pub open spec fn eval(self, args: Seq<ArgValue>) -> int {
        match self {
            Term::Value(a) => a.eval(args),
            Term::Sum(a, b) => a.eval(args) + b.eval(args),
            Term::Difference(a, b) => a.eval(args) - b.eval(args),
            Term::BitAnd(a, b) => ((a.eval(args) as i128) & (b.eval(args) as i128)) as int,
        }
    }

    pub fn value(&self, args: &[ArgValue]) -> (r: i128)
        requires
            self.within(args@.len()),
        ensures
            r as int == self.eval(args@),
            r >= -0x2_0000_0000_0000_0000,
    {
        match *self {
            Term::Value(a) => a.value(args),
            Term::Sum(a, b) => a.value(args) + b.value(args),
            Term::Difference(a, b) => a.value(args) - b.value(args),
            Term::BitAnd(a, b) => {
                let x = a.value(args);
                let y = b.value(args);
                assert(x & y >= -0x8000_0000_0000_0000i128) by (bit_vector)
                    requires
                        x >= -0x8000_0000_0000_0000i128,
                        y >= -0x8000_0000_0000_0000i128,
                ;
                x & y
            },
        }
    }
}

/// A comparison between two integers.
#[derive(Debug, Clone, Copy, PartialEq, Eq, Structural)]
pub enum CmpOp {
    Lt,
    Le,
    Eq,
    Ne,
    Gt,
    Ge,
}

impl CmpOp {
    pub open spec fn holds(self, a: int, b: int) -> bool {
        match self {
            CmpOp::Lt => a < b,
            CmpOp::Le => a <= b,
            CmpOp::Eq => a == b,
            CmpOp::Ne => a != b,
            CmpOp::Gt => a > b,
            CmpOp::Ge => a >= b,
        }
    }

    pub fn apply(&self, a: i128, b: i128) -> (r: bool)
        ensures
            r == self.holds(a as int, b as int),
    {
        match *self {
            CmpOp::Lt => a < b,
            CmpOp::Le => a <= b,
            CmpOp::Eq => a == b,
            CmpOp::Ne => a != b,
            CmpOp::Gt => a > b,
            CmpOp::Ge => a >= b,
        }
    }
}

/// `m` divides `t`; zero divides only zero.
pub open spec fn divides(m: nat, t: int) -> bool {
    if m == 0 {
        t == 0
    } else {
        (if t < 0 {
            -t
        } else {
            t
        }) % (m as int) == 0
    }
}

/// A boolean function of a call's arguments.
#[derive(Debug)]
pub enum Predicate {
    Const(bool),
    Compare(Term, CmpOp, Term),
    /// The term is a multiple of the modulus.
    MultipleOf(Term, u64),
    Not(Box<Predicate>),
    And(Box<Predicate>, Box<Predicate>),
    Or(Box<Predicate>, Box<Predicate>),
}

impl Predicate {
    /// The predicate reads no argument at or past `arity`.
    pub open spec fn within(self, arity: nat) -> bool
        decreases self,
    {
        match self {
            Predicate::Const(_) => true,
            Predicate::Compare(a, _, b) => a.within(arity) && b.within(arity),
            Predicate::MultipleOf(t, _) => t.within(arity),
            Predicate::Not(p) => p.within(arity),
            Predicate::And(p, q) => p.within(arity) && q.within(arity),
            Predicate::Or(p, q) => p.within(arity) && q.within(arity),
        }
    }

    pub open spec fn eval(self, args: Seq<ArgValue>) -> bool
        decreases self,
    {
        match self {
            Predicate::Const(b) => b,
            Predicate::Compare(a, op, b) => op.holds(a.eval(args), b.eval(args)),
            Predicate::MultipleOf(t, m) => divides(m as nat, t.eval(args)),
            Predicate::Not(p) => !p.eval(args),
            Predicate::And(p, q) => p.eval(args) && q.eval(args),
            Predicate::Or(p, q) => p.eval(args) || q.eval(args),
        }
    }

    /// Whether the predicate reads only arguments below `arity`.
    pub fn reads_within(&self, arity: usize) -> (r: bool)
        ensures
            r == self.within(arity as nat),
        decreases self,
    {
        match self {
            Predicate::Const(_) => true,
            Predicate::Compare(a, _, b) => term_within(a, arity) && term_within(b, arity),
            Predicate::MultipleOf(t, _) => term_within(t, arity),
            Predicate::Not(p) => p.reads_within(arity),
            Predicate::And(p, q) => p.reads_within(arity) && q.reads_within(arity),
            Predicate::Or(p, q) => p.reads_within(arity) && q.reads_within(arity),
        }
    }

    /// Evaluates the predicate on the arguments, left operand first and
    /// short-circuiting.
    pub fn evaluate(&self, args: &[ArgValue]) -> (r: bool)
        requires
            self.within(args@.len()),
        ensures
            r == self.eval(args@),
        decreases self,
    {
        match self {
            Predicate::Const(b) => *b,
            Predicate::Compare(a, op, b) => op.apply(a.value(args), b.value(args)),
            Predicate::MultipleOf(t, m) => {
                let v = t.value(args);
                if *m == 0 {
                    v == 0
                } else {
                    let magnitude: i128 = if v < 0 {
                        -v
                    } else {
                        v
                    };
                    (magnitude as u128) % (*m as u128) == 0
                }
            },
            Predicate::Not(p) => !p.evaluate(args),
            Predicate::And(p, q) => p.evaluate(args) && q.evaluate(args),
            Predicate::Or(p, q) => p.evaluate(args) || q.evaluate(args),
        }
    }
}

fn operand_within(a: &Operand, arity: usize) -> (r: bool)
    ensures
        r == a.within(arity as nat),
{
    match *a {
        Operand::Arg(i) => i < arity,
        Operand::Const(_) => true,
    }
}

fn term_within(t: &Term, arity: usize) -> (r: bool)
    ensures
        r == t.within(arity as nat),
{
    match t {
        Term::Value(a) => operand_within(a, arity),
        Term::Sum(a, b) => operand_within(a, arity) && operand_within(b, arity),
        Term::Difference(a, b) => operand_within(a, arity) && operand_within(b, arity),
        Term::BitAnd(a, b) => operand_within(a, arity) && operand_within(b, arity),
    }
}

/// A boolean function of a call's arguments.
pub trait PredicateFunction {
    /// The predicate can be applied to argument lists of this length.
    spec fn accepts(&self, args: Seq<ArgValue>) -> bool;

    /// What the predicate says of the arguments.
    spec fn holds(&self, args: Seq<ArgValue>) -> bool;

    fn call(&self, args: &[ArgValue]) -> (r: bool)
        requires
            self.accepts(args@),
        ensures
            r == self.holds(args@),
    ;
}

impl PredicateFunction for Predicate {
    open spec fn accepts(&self, args: Seq<ArgValue>) -> bool {
        self.within(args.len())
    }

    open spec fn holds(&self, args: Seq<ArgValue>) -> bool {
        self.eval(args)
    }

    fn call(&self, args: &[ArgValue]) -> (r: bool) {
        self.evaluate(args)
    }
}

/// A list of predicates holds when all of them hold.
impl<T: PredicateFunction> PredicateFunction for Vec<T> {
    open spec fn accepts(&self, args: Seq<ArgValue>) -> bool {
        forall|i: int| 0 <= i < self@.len() ==> (#[trigger] self@[i]).accepts(args)
    }

    open spec fn holds(&self, args: Seq<ArgValue>) -> bool {
        forall|i: int| 0 <= i < self@.len() ==> (#[trigger] self@[i]).holds(args)
    }

    fn call(&self, args: &[ArgValue]) -> (r: bool) {
        let mut i: usize = 0;
        while i < self.len()
            invariant
                i <= self@.len(),
                self.accepts(args@),
                forall|j: int| 0 <= j < i ==> (#[trigger] self@[j]).holds(args@),
            decreases self@.len() - i,
        {
            if !self[i].call(args) {
                return false;
            }
            i += 1;
        }
        true
    }
}

/// The conjunction or the disjunction of two predicates. Each operand is
/// handed its own copy of the arguments; evaluation short-circuits.
pub enum PredicateComposition<A, B> {
    And(A, B),
    Or(A, B),
}

impl<A: PredicateFunction, B: PredicateFunction> PredicateComposition<A, B> {
    pub fn all(a: A, b: B) -> (r: Self)
        ensures
            r == PredicateComposition::And(a, b),
    {
        PredicateComposition::And(a, b)
    }

    pub fn any(a: A, b: B) -> (r: Self)
        ensures
            r == PredicateComposition::Or(a, b),
    {
        PredicateComposition::Or(a, b)
    }

    pub fn and<Other: PredicateFunction>(self, other: Other) -> (r: PredicateComposition<
        Self,
        Other,
    >)
        ensures
            r == PredicateComposition::And(self, other),
    {
        PredicateComposition::all(self, other)
    }

    pub fn or<Other: PredicateFunction>(self, other: Other) -> (r: PredicateComposition<
        Self,
        Other,
    >)
        ensures
            r == PredicateComposition::Or(self, other),
    {
        PredicateComposition::any(self, other)
    }
}

impl<A: PredicateFunction, B: PredicateFunction> PredicateFunction for PredicateComposition<A, B> {
    open spec fn accepts(&self, args: Seq<ArgValue>) -> bool {
        match self {
            PredicateComposition::And(a, b) => a.accepts(args) && b.accepts(args),
            PredicateComposition::Or(a, b) => a.accepts(args) && b.accepts(args),
        }
    }

    open spec fn holds(&self, args: Seq<ArgValue>) -> bool {
        match self {
            PredicateComposition::And(a, b) => a.holds(args) && b.holds(args),
            PredicateComposition::Or(a, b) => a.holds(args) || b.holds(args),
        }
    }

    fn call(&self, args: &[ArgValue]) -> (r: bool) {
        match self {
            PredicateComposition::And(a, b) => a.call(args) && b.call(args),
            PredicateComposition::Or(a, b) => a.call(args) || b.call(args),
        }
    }
}

/// The bound of a statement: a predicate over the arguments of an ABI with a
/// fixed number of arguments, which the predicate reads no further than.
#[derive(Debug)]
pub struct AbiArgBound {
    arity: usize,
    predicate: Predicate,
}

impl AbiArgBound {
    #[verifier::type_invariant]
    spec fn inv(&self) -> bool {
        self.predicate.within(self.arity as nat)
    }

    /// The number of arguments the bound is typed for.
    pub closed spec fn arity(&self) -> nat {
        self.arity as nat
    }

    pub closed spec fn predicate(&self) -> Predicate {
        self.predicate
    }

    /// What the bound says of an argument list of its arity.
    pub open spec fn holds_on(&self, args: Seq<ArgValue>) -> bool {
        self.predicate().eval(args)
    }

    /// A bound over `arity` arguments; `None` where the predicate reads an
    /// argument past them.
    pub fn from_predicate(arity: usize, predicate: Predicate) -> (r: Option<Self>)
        ensures
            r is Some <==> predicate.within(arity as nat),
            r matches Some(b) ==> b.arity() == arity && b.predicate() == predicate,
    {
        if predicate.reads_within(arity) {
            Some(AbiArgBound { arity, predicate })
        } else {
            None
        }
    }

    pub fn from_boxed_predicate(arity: usize, predicate: Box<Predicate>) -> (r: Option<Self>)
        ensures
            r is Some <==> predicate.within(arity as nat),
            r matches Some(b) ==> b.arity() == arity && b.predicate() == *predicate,
    {
        AbiArgBound::from_predicate(arity, *predicate)
    }

    /// The number of arguments the bound is typed for.
    pub fn arg_count(&self) -> (r: usize)
        ensures
            r == self.arity(),
    {
        self.arity
    }

    /// Holds when both bounds hold.
    pub fn and(self, other: Self) -> (r: Self)
        requires
            self.arity() == other.arity(),
        ensures
            r.arity() == self.arity(),
            r.predicate() == Predicate::And(Box::new(self.predicate()), Box::new(other.predicate())),
    {
        proof {
            use_type_invariant(&self);
            use_type_invariant(&other);
        }
        AbiArgBound {
            arity: self.arity,
            predicate: Predicate::And(Box::new(self.predicate), Box::new(other.predicate)),
        }
    }

    /// Holds when either bound holds.
    pub fn or(self, other: Self) -> (r: Self)
        requires
            self.arity() == other.arity(),
        ensures
            r.arity() == self.arity(),
            r.predicate() == Predicate::Or(Box::new(self.predicate()), Box::new(other.predicate())),
    {
        proof {
            use_type_invariant(&self);
            use_type_invariant(&other);
        }
        AbiArgBound {
            arity: self.arity,
            predicate: Predicate::Or(Box::new(self.predicate), Box::new(other.predicate)),
        }
    }

    /// Whether the bound holds of an argument list of its arity.
    pub fn check_args(&self, args: &[ArgValue]) -> (r: bool)
        requires
            args@.len() == self.arity(),
        ensures
            r == self.holds_on(args@),
    {
        proof {
            use_type_invariant(self);
        }
        self.predicate.evaluate(args)
    }

    /// Whether the bound holds of a tuple of arguments of its arity.
    pub fn check<P: PredicateParams>(&self, params: P) -> (r: bool)
        requires
            params.arg_values().len() == self.arity(),
        ensures
            r == self.holds_on(params.arg_values()),
    {
        let args = params.to_args();
        self.check_args(args.as_slice())
    }
}

impl PredicateFunction for AbiArgBound {
    open spec fn accepts(&self, args: Seq<ArgValue>) -> bool {
        args.len() == self.arity()
    }

    open spec fn holds(&self, args: Seq<ArgValue>) -> bool {
        self.holds_on(args)
    }

    fn call(&self, args: &[ArgValue]) -> (r: bool) {
        self.check_args(args)
    }
}

} // verus!
