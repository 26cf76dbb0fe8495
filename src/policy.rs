//! A policy: the default action, the guard of each ABI that has statements,
//! and the ABIs that it kills whatever their arguments.

use crate::action::Action;
use crate::guard::WasiGuard;
use crate::stmt::Statement;
use crate::wasi::WasiAbiDescriptor;
use vstd::prelude::*;
use vstd::string::StringExecFns;

verus! {

/// A statement is on the ABI named `n`.
pub open spec fn on_abi<'a>(n: Seq<char>) -> spec_fn(Statement<'a>) -> bool {
    |s: Statement<'a>| s.spec_abi().name@ == n
}

/// The statements on the ABI named `n`, in their order.
pub open spec fn statements_on<'a>(stmts: Seq<Statement<'a>>, n: Seq<char>) -> Seq<Statement<'a>> {
    stmts.filter(on_abi(n))
}

/// Some statement is on the ABI named `n`.
pub open spec fn has_statement_on(stmts: Seq<Statement>, n: Seq<char>) -> bool {
    exists|j: int| 0 <= j < stmts.len() && (#[trigger] stmts[j]).spec_abi().name@ == n
}

/// Some descriptor is named `n`.
pub open spec fn is_known(known: Seq<WasiAbiDescriptor>, n: Seq<char>) -> bool {
    exists|j: int| 0 <= j < known.len() && (#[trigger] known[j]).name@ == n
}

/// The names of a list of strings.
pub open spec fn name_views(v: Seq<String>) -> Seq<Seq<char>> {
    v.map_values(|s: String| s@)
}

/// The ABIs that the policy kills whatever the arguments: those with an
/// unconditional kill statement, and, under a default of `Kill`, the known
/// ABIs that have no statement.
pub open spec fn killed_by(
    default_action: Action,
    known: Seq<WasiAbiDescriptor>,
    stmts: Seq<Statement>,
    n: Seq<char>,
) -> bool {
    (exists|j: int|
        0 <= j < stmts.len() && (#[trigger] stmts[j]).spec_abi().name@ == n
            && stmts[j].kills_unconditionally()) || (default_action == Action::Kill && is_known(
        known,
        n,
    ) && !has_statement_on(stmts, n))
}

proof fn lemma_statements_on_push<'a>(stmts: Seq<Statement<'a>>, i: int, n: Seq<char>)
    requires
        0 <= i < stmts.len(),
    ensures
        statements_on(stmts.take(i + 1), n) == if stmts[i].spec_abi().name@ == n {
            statements_on(stmts.take(i), n).push(stmts[i])
        } else {
            statements_on(stmts.take(i), n)
        },
        has_statement_on(stmts.take(i + 1), n) <==> (has_statement_on(stmts.take(i), n)
            || stmts[i].spec_abi().name@ == n),
{
    assert(stmts.take(i + 1) =~= stmts.take(i).push(stmts[i]));
    stmts.take(i).lemma_filter_push(stmts[i], on_abi(n));
    if has_statement_on(stmts.take(i + 1), n) {
        let j = choose|j: int|
            0 <= j < stmts.take(i + 1).len() && (#[trigger] stmts.take(i + 1)[j]).spec_abi().name@
                == n;
        if j < i {
            assert(stmts.take(i)[j] == stmts.take(i + 1)[j]);
        }
    }
    if has_statement_on(stmts.take(i), n) {
        let j = choose|j: int|
            0 <= j < stmts.take(i).len() && (#[trigger] stmts.take(i)[j]).spec_abi().name@ == n;
        assert(stmts.take(i + 1)[j] == stmts.take(i)[j]);
    }
    if stmts[i].spec_abi().name@ == n {
        assert(stmts.take(i + 1)[i] == stmts[i]);
    }
}

/// The statements on one ABI hold an unconditional kill exactly when some
/// statement on that ABI is one.
proof fn lemma_group_kills<'a>(stmts: Seq<Statement<'a>>, n: Seq<char>)
    ensures
        (exists|i: int|
            0 <= i < statements_on(stmts, n).len() && (#[trigger] statements_on(
                stmts,
                n,
            )[i]).kills_unconditionally()) <==> (exists|j: int|
            0 <= j < stmts.len() && (#[trigger] stmts[j]).spec_abi().name@ == n
                && stmts[j].kills_unconditionally()),
{
    let f = statements_on(stmts, n);
    if exists|i: int| 0 <= i < f.len() && (#[trigger] f[i]).kills_unconditionally() {
        let i = choose|i: int| 0 <= i < f.len() && (#[trigger] f[i]).kills_unconditionally();
        stmts.lemma_filter_pred(on_abi(n), i);
        assert(f.contains(f[i]));
        stmts.lemma_filter_contains_rev(on_abi(n), f[i]);
        let j = choose|j: int| 0 <= j < stmts.len() && stmts[j] == f[i];
        assert(stmts[j].spec_abi().name@ == n);
    }
    if exists|j: int|
        0 <= j < stmts.len() && (#[trigger] stmts[j]).spec_abi().name@ == n
            && stmts[j].kills_unconditionally() {
        let j = choose|j: int|
            0 <= j < stmts.len() && (#[trigger] stmts[j]).spec_abi().name@ == n
                && stmts[j].kills_unconditionally();
        stmts.lemma_filter_contains(on_abi(n), j);
        let i = choose|i: int| 0 <= i < f.len() && f[i] == stmts[j];
        assert(f[i].kills_unconditionally());
    }
}

/// Whether `names` holds `n`, and where.
fn position_of(names: &Vec<String>, n: &String) -> (r: Option<usize>)
    ensures
        r matches Some(k) ==> k < names@.len() && names@[k as int]@ == n@,
        r is None ==> forall|k: int| 0 <= k < names@.len() ==> (#[trigger] names@[k])@ != n@,
{
    let mut k: usize = 0;
    while k < names.len()
        invariant
            k <= names@.len(),
            forall|j: int| 0 <= j < k ==> (#[trigger] names@[j])@ != n@,
        decreases names@.len() - k,
    {
        if names[k] == *n {
            return Some(k);
        }
        k += 1;
    }
    None
}

/// Adds a name to a list of distinct names, unless it is there already.
fn insert_name(names: &mut Vec<String>, name: String)
    requires
        name_views(old(names)@).no_duplicates(),
    ensures
        name_views(final(names)@).no_duplicates(),
        forall|n: Seq<char>|
            #![trigger name_views(final(names)@).contains(n)]
            name_views(final(names)@).contains(n) <==> (name_views(old(names)@).contains(n) || n
                == name@),
{
    broadcast use vstd::seq_lib::lemma_seq_contains_after_push;

    let ghost before = name_views(names@);
    match position_of(names, &name) {
        Some(k) => {
            assert(before[k as int] == name@);
        },
        None => {
            names.push(name);
            assert(name_views(names@) =~= before.push(name@));
            assert(!before.contains(name@)) by {
                if before.contains(name@) {
                    let k = choose|k: int| 0 <= k < before.len() && before[k] == name@;
                    assert(names@[k]@ == name@);
                }
            }
        },
    }
}

/// A finished policy. It is built once and read only afterwards.
pub struct Policy<'desc> {
    default_action: Action,
    names: Vec<String>,
    guards: Vec<WasiGuard<'desc>>,
    must_be_killed: Vec<String>,
}

impl<'desc> Policy<'desc> {
    #[verifier::type_invariant]
    spec fn inv(&self) -> bool {
        &&& self.names@.len() == self.guards@.len()
        &&& forall|a: int, b: int|
            0 <= a < self.names@.len() && 0 <= b < self.names@.len() && a != b
                ==> #[trigger] self.names@[a]@ != #[trigger] self.names@[b]@
    }

    pub closed spec fn spec_default_action(&self) -> Action {
        self.default_action
    }

    /// The name of the ABI of each guard, in the order of the guards.
    pub closed spec fn spec_names(&self) -> Seq<Seq<char>> {
        name_views(self.names@)
    }

    pub closed spec fn spec_guards(&self) -> Seq<WasiGuard<'desc>> {
        self.guards@
    }

    pub closed spec fn spec_must_be_killed(&self) -> Seq<Seq<char>> {
        name_views(self.must_be_killed@)
    }

    /// The guard of the ABI named `n`, if it has one.
    pub open spec fn spec_guard_for(&self, n: Seq<char>) -> Option<WasiGuard<'desc>> {
        if exists|k: int| 0 <= k < self.spec_names().len() && self.spec_names()[k] == n {
            let k = choose|k: int| 0 <= k < self.spec_names().len() && self.spec_names()[k] == n;
            Some(self.spec_guards()[k])
        } else {
            None
        }
    }

    /// Builds a policy from its default action, the descriptors of the ABIs it
    /// knows, and its statements. The statements on one ABI form its guard, in
    /// their order; an ABI without statements has no guard and takes the
    /// default action.
    pub fn new(
        default_action: Action,
        known: &[WasiAbiDescriptor],
        statements: Vec<Statement<'desc>>,
    ) -> (r: Self)
        ensures
            r.spec_default_action() == default_action,
            forall|n: Seq<char>|
                #![trigger r.spec_guard_for(n)]
                (r.spec_guard_for(n) is Some <==> has_statement_on(statements@, n)) && (r.spec_guard_for(n) matches Some(g) ==> g.spec_statements() == statements_on(statements@, n)),
            r.spec_must_be_killed().no_duplicates(),
            forall|n: Seq<char>|
                #![trigger r.spec_must_be_killed().contains(n)]
                r.spec_must_be_killed().contains(n) <==> killed_by(
                    default_action,
                    known@,
                    statements@,
                    n,
                ),
    {
        let ghost stmts = statements@;
        let mut rest = statements;
        let mut names: Vec<String> = Vec::new();
        let mut guards: Vec<WasiGuard<'desc>> = Vec::new();
        let ghost mut i: int = 0;
        while rest.len() > 0
            invariant
                0 <= i <= stmts.len(),
                rest@ == stmts.skip(i),
                names@.len() == guards@.len(),
                forall|a: int, b: int|
                    0 <= a < names@.len() && 0 <= b < names@.len() && a != b
                        ==> #[trigger] names@[a]@ != #[trigger] names@[b]@,
                forall|k: int|
                    0 <= k < guards@.len() ==> (#[trigger] guards@[k]).spec_statements()
                        == statements_on(stmts.take(i), names@[k]@),
                forall|n: Seq<char>|
                    #![trigger has_statement_on(stmts.take(i), n)]
                    has_statement_on(stmts.take(i), n) <==> exists|k: int|
                        0 <= k < names@.len() && (#[trigger] names@[k])@ == n,
            decreases rest@.len(),
        {
            let s = rest.remove(0);
            assert(s == stmts[i]);
            let name = &s.abi().name;
            let ghost old_names = names@;
            let ghost old_guards = guards@;
            proof {
                assert forall|n: Seq<char>| true implies #[trigger] statements_on(
                    stmts.take(i + 1),
                    n,
                ) == if stmts[i].spec_abi().name@ == n {
                    statements_on(stmts.take(i), n).push(stmts[i])
                } else {
                    statements_on(stmts.take(i), n)
                } && (has_statement_on(stmts.take(i + 1), n) <==> (has_statement_on(stmts.take(i), n)
                    || stmts[i].spec_abi().name@ == n)) by {
                    lemma_statements_on_push(stmts, i, n);
                }
            }
            match position_of(&names, name) {
                Some(k) => {
                    let mut g = guards.remove(k);
                    g.add(s);
                    guards.insert(k, g);
                    proof {
                        assert(guards@ == old_guards.update(k as int, g));
                        assert forall|kk: int| 0 <= kk < guards@.len() implies (
                        #[trigger] guards@[kk]).spec_statements() == statements_on(
                            stmts.take(i + 1),
                            names@[kk]@,
                        ) by {
                            let _ = statements_on(stmts.take(i + 1), names@[kk]@);
                            if kk != k {
                                assert(names@[kk]@ != names@[k as int]@);
                            }
                        }
                        assert forall|n: Seq<char>| #[trigger]
                            has_statement_on(stmts.take(i + 1), n) <==> exists|kk: int|
                                0 <= kk < names@.len() && (#[trigger] names@[kk])@ == n by {
                            let _ = statements_on(stmts.take(i + 1), n);
                            let _ = has_statement_on(stmts.take(i), n);
                            if stmts[i].spec_abi().name@ == n {
                                assert(names@[k as int]@ == n);
                            }
                        }
                    }
                },
                None => {
                    let n = name.clone();
                    let mut g = WasiGuard::from_vec(Vec::new());
                    g.add(s);
                    names.push(n);
                    guards.push(g);
                    proof {
                        let k = names@.len() - 1;
                        assert(names@ == old_names.push(n));
                        assert(!has_statement_on(stmts.take(i), n@));
                        assert(statements_on(stmts.take(i), n@) =~= Seq::empty()) by {
                            let p = on_abi(n@);
                            assert forall|j: int| 0 <= j < stmts.take(i).len() implies !p(
                                stmts.take(i)[j],
                            ) by {
                                if p(stmts.take(i)[j]) {
                                    assert(has_statement_on(stmts.take(i), n@));
                                }
                            }
                            stmts.take(i).lemma_all_neg_filter_empty(p);
                        }
                        assert forall|kk: int| 0 <= kk < guards@.len() implies (
                        #[trigger] guards@[kk]).spec_statements() == statements_on(
                            stmts.take(i + 1),
                            names@[kk]@,
                        ) by {
                            let _ = statements_on(stmts.take(i + 1), names@[kk]@);
                            if kk < k {
                                assert(names@[kk] == old_names[kk]);
                                assert(old_names[kk]@ != n@);
                            } else {
                                assert(statements_on(stmts.take(i), n@).push(stmts[i]) =~= seq![
                                    stmts[i],
                                ]);
                            }
                        }
                        assert forall|a: int, b: int|
                            0 <= a < names@.len() && 0 <= b < names@.len() && a != b
                                implies #[trigger] names@[a]@ != #[trigger] names@[b]@ by {
                            if a == k {
                                assert(old_names[b]@ != n@);
                            } else if b == k {
                                assert(old_names[a]@ != n@);
                            }
                        }
                        assert forall|m: Seq<char>| #[trigger]
                            has_statement_on(stmts.take(i + 1), m) <==> exists|kk: int|
                                0 <= kk < names@.len() && (#[trigger] names@[kk])@ == m by {
                            let _ = statements_on(stmts.take(i + 1), m);
                            let _ = has_statement_on(stmts.take(i), m);
                            if m == n@ {
                                assert(names@[k]@ == m);
                            }
                            if exists|kk: int| 0 <= kk < old_names.len() && (#[trigger] old_names[kk])@ == m {
                                let kk = choose|kk: int| 0 <= kk < old_names.len() && (#[trigger] old_names[kk])@ == m;
                                assert(names@[kk] == old_names[kk]);
                            }
                            if exists|kk: int| 0 <= kk < names@.len() && (#[trigger] names@[kk])@ == m {
                                let kk = choose|kk: int| 0 <= kk < names@.len() && (#[trigger] names@[kk])@ == m;
                                if kk < k {
                                    assert(names@[kk] == old_names[kk]);
                                }
                            }
                        }
                    }
                },
            }
            proof {
                i = i + 1;
                assert(rest@ =~= stmts.skip(i));
            }
        }
        assert(stmts.take(i) =~= stmts);
        let mut must_be_killed: Vec<String> = Vec::new();
        let mut k: usize = 0;
        while k < guards.len()
            invariant
                k <= guards@.len(),
                names@.len() == guards@.len(),
                name_views(must_be_killed@).no_duplicates(),
                forall|n: Seq<char>|
                    #![trigger name_views(must_be_killed@).contains(n)]
                    name_views(must_be_killed@).contains(n) <==> exists|kk: int|
                        0 <= kk < k && (#[trigger] names@[kk])@ == n && guards@[kk].kills_unconditionally(),
            decreases guards@.len() - k,
        {
            let ghost before = must_be_killed@;
            if guards[k].must_be_killed() {
                insert_name(&mut must_be_killed, names[k].clone());
            }
            proof {
                assert forall|n: Seq<char>| #[trigger] name_views(must_be_killed@).contains(n) <==> exists|kk: int|
                    0 <= kk < k + 1 && (#[trigger] names@[kk])@ == n && guards@[kk].kills_unconditionally() by {
                    broadcast use vstd::seq_lib::lemma_seq_contains_after_push;
                    if names@[k as int]@ == n && guards@[k as int].kills_unconditionally() {
                        assert(name_views(must_be_killed@).contains(n));
                    }
                }
            }
            k += 1;
        }
        let ghost guard_killed = must_be_killed@;
        if default_action.is_kill() {
            let mut j: usize = 0;
            while j < known.len()
                invariant
                    j <= known@.len(),
                    name_views(must_be_killed@).no_duplicates(),
                    forall|n: Seq<char>|
                        #![trigger name_views(must_be_killed@).contains(n)]
                        name_views(must_be_killed@).contains(n) <==> (name_views(guard_killed).contains(n) || exists|jj: int|
                            0 <= jj < j && (#[trigger] known@[jj]).name@ == n && !exists|kk: int|
                                0 <= kk < names@.len() && (#[trigger] names@[kk])@ == n),
                decreases known@.len() - j,
            {
                let ghost before = must_be_killed@;
                let absent = position_of(&names, &known[j].name).is_none();
                if absent {
                    insert_name(&mut must_be_killed, known[j].name.clone());
                }
                proof {
                    assert forall|n: Seq<char>| #[trigger] name_views(must_be_killed@).contains(n) <==> (name_views(guard_killed).contains(n) || exists|jj: int|
                            0 <= jj < j + 1 && (#[trigger] known@[jj]).name@ == n && !exists|kk: int|
                                0 <= kk < names@.len() && (#[trigger] names@[kk])@ == n) by {
                        broadcast use vstd::seq_lib::lemma_seq_contains_after_push;
                        if known@[j as int].name@ == n && absent {
                            assert(name_views(must_be_killed@).contains(n));
                        }
                        if known@[j as int].name@ == n && !absent {
                            let kk = choose|kk: int| 0 <= kk < names@.len() && (#[trigger] names@[kk])@ == n;
                        }
                    }
                }
                j += 1;
            }
        }
        proof {
            assert forall|n: Seq<char>| #[trigger] name_views(must_be_killed@).contains(n) <==> killed_by(
                default_action,
                known@,
                stmts,
                n,
            ) by {
                lemma_group_kills(stmts, n);
                let _ = has_statement_on(stmts.take(i), n);
                if exists|kk: int| 0 <= kk < names@.len() && (#[trigger] names@[kk])@ == n {
                    let kk = choose|kk: int| 0 <= kk < names@.len() && (#[trigger] names@[kk])@ == n;
                    assert(guards@[kk].spec_statements() == statements_on(stmts, n));
                }
                if default_action == Action::Kill && is_known(known@, n) && !has_statement_on(stmts, n) {
                    let jj = choose|jj: int| 0 <= jj < known@.len() && (#[trigger] known@[jj]).name@ == n;
                }
            }
        }
        let r = Policy { default_action, names, guards, must_be_killed };
        proof {
            assert forall|n: Seq<char>| #[trigger] r.spec_guard_for(n) is Some <==> has_statement_on(stmts, n) by {
                let _ = has_statement_on(stmts.take(i), n);
                let views = r.spec_names();
                if exists|kk: int| 0 <= kk < r.names@.len() && (#[trigger] r.names@[kk])@ == n {
                    let kk = choose|kk: int| 0 <= kk < r.names@.len() && (#[trigger] r.names@[kk])@ == n;
                    assert(views[kk] == n);
                }
                if exists|c: int| 0 <= c < views.len() && views[c] == n {
                    let c = choose|c: int| 0 <= c < views.len() && views[c] == n;
                    assert(r.names@[c]@ == n);
                }
            }
            assert forall|n: Seq<char>| #[trigger] r.spec_guard_for(n) is Some implies r.spec_guard_for(n).unwrap().spec_statements() == statements_on(stmts, n) by {
                let views = r.spec_names();
                let c = choose|c: int| 0 <= c < views.len() && views[c] == n;
                assert(r.names@[c]@ == n);
            }
        }
        r
    }

    /// The action for calls of ABIs without a guard.
    pub fn default_action(&self) -> (r: Action)
        ensures
            r == self.spec_default_action(),
    {
        self.default_action
    }

    /// The guard of the ABI named `name`; `None` means that the default
    /// action applies.
    pub fn guard_for(&self, name: &str) -> (r: Option<&WasiGuard<'desc>>)
        ensures
            r is Some <==> self.spec_guard_for(name@) is Some,
            r matches Some(g) ==> self.spec_guard_for(name@) == Some(*g),
    {
        proof {
            use_type_invariant(self);
        }
        let key = String::from_str(name);
        match position_of(&self.names, &key) {
            Some(k) => {
                proof {
                    let views = self.spec_names();
                    assert(views[k as int] == name@);
                    let c = choose|c: int| 0 <= c < views.len() && views[c] == name@;
                    assert(self.names@[c]@ == name@);
                }
                Some(&self.guards[k])
            },
            None => {
                proof {
                    let views = self.spec_names();
                    if exists|c: int| 0 <= c < views.len() && views[c] == name@ {
                        let c = choose|c: int| 0 <= c < views.len() && views[c] == name@;
                        assert(self.names@[c]@ == name@);
                    }
                }
                None
            },
        }
    }

    /// Whether the ABI named `name` has a guard.
    pub fn has_wasi_named(&self, name: &str) -> (r: bool)
        ensures
            r == self.spec_guard_for(name@) is Some,
    {
        self.guard_for(name).is_some()
    }

    /// The names of the ABIs that the policy kills whatever their arguments.
    pub fn must_be_killed(&self) -> (r: &[String])
        ensures
            name_views(r@) == self.spec_must_be_killed(),
    {
        self.must_be_killed.as_slice()
    }

}

/// The must-be-killed list counts its names: a list without repeats that
/// holds the same names as another list without repeats is as long. With the
/// contract of `Policy::new`, a policy with default `Kill` and no statements
/// kills as many ABIs as it knows by distinct names, and one with a
/// non-killing statement on one known ABI kills one fewer.
pub proof fn lemma_killed_count(killed: Seq<Seq<char>>, expected: Seq<Seq<char>>)
    requires
        killed.no_duplicates(),
        expected.no_duplicates(),
        forall|n: Seq<char>| killed.contains(n) <==> expected.contains(n),
    ensures
        killed.len() == expected.len(),
{
    killed.unique_seq_to_set();
    expected.unique_seq_to_set();
    assert(killed.to_set() =~= expected.to_set());
}

} // verus!
