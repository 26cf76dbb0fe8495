use wasi_guard::action::{actions_to_execute, Action, WasiErrno};
use wasi_guard::bound::{AbiArgBound, CmpOp, Operand, Predicate, Term};
use wasi_guard::guard::{WasiGuard, ACTION_NUM};
use wasi_guard::policy::Policy;
use wasi_guard::stmt::{Statement, Trigger};
use wasi_guard::wasi::{lookup, preview1, AbiArg, WasiAbiDescriptor, PREVIEW1_ABI_COUNT};

fn arg(i: usize) -> Term {
    Term::Value(Operand::Arg(i))
}

fn lit(c: i64) -> Term {
    Term::Value(Operand::Const(c))
}

fn cmp(a: Term, op: CmpOp, b: Term) -> Predicate {
    Predicate::Compare(a, op, b)
}

fn and(p: Predicate, q: Predicate) -> Predicate {
    Predicate::And(Box::new(p), Box::new(q))
}

fn bound(arity: usize, p: Predicate) -> AbiArgBound {
    AbiArgBound::from_predicate(arity, p).unwrap()
}

fn wasi() -> WasiAbiDescriptor {
    WasiAbiDescriptor::new("clock_time_get", vec![AbiArg::untyped("clock_id"), AbiArg::new("precision", 8)])
}

/// x > 0 && y > 0
fn both_positive() -> AbiArgBound {
    bound(2, and(cmp(arg(0), CmpOp::Gt, lit(0)), cmp(arg(1), CmpOp::Gt, lit(0))))
}

/// x + y > 256
fn sum_over_256() -> AbiArgBound {
    bound(2, cmp(Term::Sum(Operand::Arg(0), Operand::Arg(1)), CmpOp::Gt, lit(256)))
}

#[test]
fn action_order() {
    assert!(Action::Allow < Action::Log);
    assert!(Action::Log < Action::ReturnErrno(0));
    assert!(Action::ReturnErrno(0) < Action::Kill);
}

#[test]
fn action_order_is_partial() {
    let all = [Action::Allow, Action::Log, Action::ReturnErrno(1), Action::ReturnErrno(2), Action::Kill];
    for a in all {
        assert!(Action::Allow <= a);
        assert!(a <= Action::Kill);
    }
    assert_eq!(Action::ReturnErrno(1).partial_cmp(&Action::ReturnErrno(2)), None);
    assert_eq!(Action::ReturnErrno(1).partial_cmp(&Action::ReturnErrno(1)), Some(std::cmp::Ordering::Equal));
    assert!(!(Action::ReturnErrno(1) < Action::ReturnErrno(2)));
    assert!(!(Action::ReturnErrno(2) < Action::ReturnErrno(1)));
    assert_eq!(Action::Kill.partial_cmp(&Action::Kill), Some(std::cmp::Ordering::Equal));
    assert_eq!(Action::Kill.partial_cmp(&Action::Log), Some(std::cmp::Ordering::Greater));
    assert_eq!(Action::ReturnErrno(1), Action::ReturnErrno(1));
    assert_ne!(Action::ReturnErrno(1), Action::ReturnErrno(2));
}

#[test]
fn default_action_is_kill() {
    assert_eq!(Action::default(), Action::Kill);
    assert_eq!(<Action as Default>::default(), Action::Kill);
    assert!(Action::Kill.is_kill() && !Action::Log.is_kill());
    assert!(Action::Allow.is_allow() && !Action::ReturnErrno(0).is_allow());
}

#[test]
fn actions_to_execute_drops_allow_only() {
    let xs = [Action::Allow, Action::Log, Action::Allow, Action::ReturnErrno(3), Action::Kill, Action::Allow];
    let once = actions_to_execute(&xs);
    assert_eq!(once, vec![Action::Log, Action::ReturnErrno(3), Action::Kill]);
    assert_eq!(actions_to_execute(&once), once);
    assert!(actions_to_execute(&[]).is_empty());
    assert!(actions_to_execute(&[Action::Allow, Action::Allow]).is_empty());
}

#[test]
fn claim_statement() {
    let desc = wasi();
    let statement = desc.trigger(Action::Allow);
    assert_eq!(statement.abi().name, "clock_time_get");

    // a > 0 && b <= 1 << 8
    let first = bound(2, and(cmp(arg(0), CmpOp::Gt, lit(0)), cmp(arg(1), CmpOp::Le, lit(1 << 8))));
    let statement = statement.when(first);
    assert_eq!(statement.abi().args.len(), 2);
    assert_eq!(statement.abi().name, "clock_time_get");
    assert!(statement.check_bound((1i32, 233u64)));
    assert!(!statement.check_bound((0i32, 1u64 << 9)));

    // Reinterpret the statement with a newly typed bound of the same arity.
    let second = bound(2, and(cmp(arg(0), CmpOp::Gt, lit(0)), cmp(arg(1), CmpOp::Le, lit(1 << 8))));
    let statement = statement.when(second);
    assert_eq!(statement.abi().name, "clock_time_get");
    assert!(statement.check_bound((1i32, 233u32)));
    assert!(!statement.check_bound((0i32, 1u32 << 9)));

    // chain-style
    let statement = desc
        .trigger(Action::Allow)
        .when(bound(2, cmp(arg(0), CmpOp::Gt, lit(0))))
        .trigger(Action::Kill);
    assert_eq!(statement.abi().name, "clock_time_get");
    assert_eq!(statement.abi().args.len(), 2);
    assert_eq!(statement.action(), Action::Kill);
    assert!(statement.check_bound((1i32, true)));
    assert!(!statement.check_bound((0i32 - 1, false)));
}

#[test]
fn statement_macro() {
    let desc = wasi();
    let statement = Statement::new(&desc, Action::Kill);
    // always `true` on `check_bound` because there is no bound
    assert!(statement.check_bound((1, 0)));
    assert!(statement.check_bound((0 - 1, 0)));
    assert!(statement.must_be_killed());
    let statement = Statement::new(&desc, Action::default());
    assert_eq!(statement.action(), Action::default());

    // b
    let other_bound = bound(2, cmp(arg(1), CmpOp::Eq, lit(1)));
    let statement = desc
        .trigger(Action::Kill)
        .when(bound(2, cmp(arg(0), CmpOp::Gt, lit(0))))
        .and_when(other_bound);
    assert_eq!(statement.abi().name, "clock_time_get");
    assert_eq!(statement.abi().args.len(), 2);
    assert!(statement.check_bound((1i32, true)));
    assert!(!statement.check_bound((1i32, false)));
    assert!(!statement.check_bound((0i32 - 1, true)));
    assert!(!statement.must_be_killed());
}

#[test]
fn inner_statement_macros() {
    let desc = wasi();
    let allow_stat = desc
        .trigger(Action::Allow)
        .when(bound(2, cmp(Term::Sum(Operand::Arg(0), Operand::Arg(1)), CmpOp::Gt, lit(0))))
        .and_when(bound(2, cmp(Term::Sum(Operand::Arg(0), Operand::Arg(1)), CmpOp::Lt, lit(256))));
    assert_eq!(allow_stat.action(), Action::Allow);

    let kill_stat = desc.trigger(Action::Kill).and_when(sum_over_256());
    assert_eq!(kill_stat.action(), Action::Kill);
    assert!(kill_stat.bound().is_some());

    let log_stat = desc.trigger(Action::Log).when(bound(2, cmp(Term::Sum(Operand::Arg(0), Operand::Arg(1)), CmpOp::Gt, lit(0))));
    assert_eq!(log_stat.action(), Action::Log);

    let ret_stat_0 = desc.trigger(Action::ReturnErrno(23));
    assert_eq!(ret_stat_0.action(), Action::ReturnErrno(23));
    assert!(ret_stat_0.bound().is_none());
}

#[test]
fn full_statement() {
    let desc = wasi();
    let statement = desc.trigger(Action::Allow);
    let statement = statement.when(bound(2, and(cmp(arg(0), CmpOp::Gt, lit(0)), cmp(arg(1), CmpOp::Le, lit(1 << 8)))));
    assert!(statement.check_bound((1i32, 233u64)));
    assert!(!statement.check_bound((0i32, 1u64 << 9)));
}

#[test]
fn action_filter() {
    let desc = wasi();
    let statements = [
        desc.trigger(Action::Allow).when(both_positive()),
        desc.trigger(Action::Kill).when(sum_over_256()),
    ];
    let guard = WasiGuard::from_arr(statements);

    let actions = guard.check((1i32, 2i64));
    assert_eq!(actions.len(), 1);
    assert!(actions.to_vec().iter().all(|action| action == &Action::Allow));

    let actions = guard.check((1i32, 256i64));
    assert_eq!(actions.len(), 2);

    let actions = actions_to_execute(&actions.to_vec());
    assert!(actions.len() == 1);
    assert!(actions.iter().all(|&action| action != Action::Allow));
}

#[test]
fn overflowing_statements() {
    let desc = wasi();
    // The number of statements can be more than `ACTION_NUM`.
    let statements = vec![
        desc.trigger(Action::Allow).when(both_positive()),
        desc.trigger(Action::Kill).when(sum_over_256()),
        // x > 0 && y > 1
        desc.trigger(Action::Log).when(bound(2, and(cmp(arg(0), CmpOp::Gt, lit(0)), cmp(arg(1), CmpOp::Gt, lit(1))))),
        desc.trigger(Action::Kill).when(sum_over_256()),
        desc.trigger(Action::Allow).when(both_positive()),
        desc.trigger(Action::Kill).when(sum_over_256()),
    ];
    assert!(statements.len() > ACTION_NUM);
    let guard = WasiGuard::from_vec(statements);

    let actions = guard.check((1i32, 2i64)).to_vec();
    assert_eq!(actions.len(), 3);
    assert_eq!(actions[0], Action::Allow);
    assert_eq!(actions[1], Action::Log);
    assert_eq!(actions[2], Action::Allow);
}

#[test]
fn guard_evaluation_keeps_declaration_order() {
    let abis = vec![WasiAbiDescriptor::new("f", vec![AbiArg::untyped("x")])];
    let f = &abis[0];
    // [unconditional Log, Kill where x > 0]
    let guard = WasiGuard::from_vec(vec![
        f.trigger(Action::Log),
        f.trigger(Action::Kill).when(bound(1, cmp(arg(0), CmpOp::Gt, lit(0)))),
    ]);
    assert_eq!(guard.check((5,)).to_vec(), vec![Action::Log, Action::Kill]);
    assert_eq!(guard.check((-1,)).to_vec(), vec![Action::Log]);
    assert_eq!(guard.check((5,)).to_execute(), vec![Action::Log, Action::Kill]);
    // Allow followed by Kill when both fire; no reduction is applied.
    let guard = WasiGuard::from_vec(vec![f.trigger(Action::Allow), f.trigger(Action::Kill)]);
    assert_eq!(guard.check((0,)).to_vec(), vec![Action::Allow, Action::Kill]);
    // Nothing fires: the caller falls back to the default action.
    let guard = WasiGuard::from_vec(vec![f.trigger(Action::Kill).when(bound(1, Predicate::Const(false)))]);
    assert_eq!(guard.check((0,)).len(), 0);
    assert!(!guard.must_be_killed());
    assert_eq!(guard.statements().len(), 1);
}

fn static_guard_check(desc: &WasiAbiDescriptor) {
    let guard = WasiGuard::from_arr([desc.trigger(Action::Allow).when(both_positive())]);
    let actions = guard.check((1i32, 2i64));
    assert!(actions.to_vec().iter().all(|action| action == &Action::Allow));
}

#[test]
fn lazy_static_guard() {
    static_guard_check(&wasi());
}

#[test]
fn static_guard() {
    static_guard_check(&wasi());
}

fn policy_with<'a>(
    abis: &'a [WasiAbiDescriptor],
    default_action: Action,
    rules: Vec<(&str, Action, Option<AbiArgBound>)>,
) -> Policy<'a> {
    let statements = rules
        .into_iter()
        .map(|(name, action, b)| {
            let s = Statement::new(lookup(abis, name).unwrap(), action);
            match b {
                Some(b) => s.when(b),
                None => s,
            }
        })
        .collect();
    Policy::new(default_action, abis, statements)
}

#[test]
fn allow_default() {
    let abis = preview1();
    let policy = policy_with(&abis, Action::Allow, vec![]);
    assert_eq!(policy.default_action(), Action::Allow);
    assert!(policy.must_be_killed().is_empty());
}

#[test]
fn kill_default() {
    let abis = preview1();
    let policy = policy_with(&abis, Action::Kill, vec![]);
    assert_eq!(policy.default_action(), Action::Kill);
}

#[test]
fn got_killed_anyway() {
    let abis = preview1();
    let policy = policy_with(&abis, Action::Kill, vec![]);
    assert_eq!(policy.must_be_killed().len(), PREVIEW1_ABI_COUNT);
}

#[test]
fn log_default() {
    let abis = preview1();
    let policy = policy_with(&abis, Action::Log, vec![]);
    assert_eq!(policy.default_action(), Action::Log);
}

#[test]
fn ret_errno_default() {
    const DEFUALT_ERRNO: WasiErrno = 21;
    let abis = preview1();
    let policy = policy_with(&abis, Action::ReturnErrno(DEFUALT_ERRNO), vec![]);
    assert_eq!(policy.default_action(), Action::ReturnErrno(DEFUALT_ERRNO));
    assert!(policy.must_be_killed().is_empty());
}

#[test]
fn kill_got_killed() {
    let abis = preview1();
    let policy = policy_with(
        &abis,
        Action::Allow,
        vec![
            ("sched_yield", Action::Log, None),
            ("sched_yield", Action::Kill, None),
            // a kill with a bound does not make `proc_exit` always killed
            ("proc_exit", Action::Kill, Some(bound(1, cmp(arg(0), CmpOp::Eq, lit(3))))),
        ],
    );
    assert_eq!(policy.must_be_killed().len(), 1);
    assert!(policy.must_be_killed().iter().any(|wasi_name| wasi_name == "sched_yield"));
    assert!(!policy.must_be_killed().iter().any(|wasi_name| wasi_name == "proc_exit"));
    assert!(!policy.must_be_killed().iter().any(|wasi_name| wasi_name == "proc_eixt"));
}

fn simple_policy(abis: &[WasiAbiDescriptor]) -> Policy<'_> {
    policy_with(
        abis,
        Action::Kill,
        vec![
            ("args_get", Action::Allow, Some(bound(2, Predicate::Const(true)))),
            ("proc_exit", Action::Allow, Some(bound(1, cmp(arg(0), CmpOp::Ge, lit(0))))),
            (
                "proc_exit",
                Action::Log,
                Some(
                    bound(1, cmp(arg(0), CmpOp::Ge, lit(4))).and(bound(
                        1,
                        cmp(Term::BitAnd(Operand::Arg(0), Operand::Const(0b1)), CmpOp::Eq, lit(0b1)),
                    )),
                ),
            ),
        ],
    )
}

#[test]
fn simple_default() {
    let abis = preview1();
    assert_eq!(simple_policy(&abis).default_action(), Action::Kill);
}

#[test]
fn args_get_exists() {
    let abis = preview1();
    assert!(simple_policy(&abis).guard_for("args_get").is_some());
    assert!(simple_policy(&abis).has_wasi_named("args_get"));
}

#[test]
fn simple_proc_exit_exists() {
    let abis = preview1();
    let policy = simple_policy(&abis);
    assert!(policy.guard_for("proc_exit").is_some());
    let actions = policy.guard_for("proc_exit").unwrap().check((0,));
    assert_eq!(actions_to_execute(&actions.to_vec()).len(), 0);

    // 5 >= 4 and 5 is odd
    let actions = policy.guard_for("proc_exit").unwrap().check((5,));
    assert_eq!(actions.len(), 2);
    assert_eq!(actions.to_execute().len(), 1);
}

#[test]
fn environ_get_does_not_exists() {
    let abis = preview1();
    let policy = simple_policy(&abis);
    assert!(!policy.guard_for("environ_get").is_some());
    // Statements only bound by arguments never mark an ABI as always killed.
    assert_eq!(policy.must_be_killed().len(), PREVIEW1_ABI_COUNT - 2);
    assert!(policy.must_be_killed().iter().any(|n| n == "environ_get"));
}

#[test]
fn without_bounds_proc_exit_exists() {
    let abis = preview1();
    let policy = policy_with(&abis, Action::Kill, vec![("proc_exit", Action::Log, None)]);
    assert!(policy.guard_for("proc_exit").is_some());
    let actions = policy.guard_for("proc_exit").unwrap().check((0,)).to_vec();
    assert_eq!(actions.len(), 1);
    assert_eq!(actions[0], Action::Log);
}

#[test]
fn without_bounds_got_killed() {
    let abis = preview1();
    let policy = policy_with(&abis, Action::Kill, vec![("proc_exit", Action::Log, None)]);
    assert_eq!(policy.must_be_killed().len(), PREVIEW1_ABI_COUNT - 1);
    assert!(!policy.must_be_killed().iter().any(|wasi_name| wasi_name == "proc_exit"));
    assert!(!policy.must_be_killed().iter().any(|wasi_name| wasi_name == "proc_eixt"));
}

#[test]
fn must_be_killed_membership() {
    let abis = preview1();
    // A conditional kill is not enough; an unconditional one is.
    let policy = policy_with(
        &abis,
        Action::Allow,
        vec![
            ("proc_exit", Action::Kill, Some(bound(1, cmp(arg(0), CmpOp::Eq, lit(3))))),
            ("sched_yield", Action::Kill, None),
        ],
    );
    assert!(!policy.must_be_killed().iter().any(|n| n == "proc_exit"));
    assert!(policy.must_be_killed().iter().any(|n| n == "sched_yield"));
    // An ABI with no statements follows the default.
    assert!(!policy.must_be_killed().iter().any(|n| n == "fd_read"));
    let policy = policy_with(&abis, Action::Kill, vec![("sched_yield", Action::Allow, None)]);
    assert!(policy.must_be_killed().iter().any(|n| n == "fd_read"));
    assert!(!policy.must_be_killed().iter().any(|n| n == "sched_yield"));
    // Statements group by ABI in their order.
    let policy = policy_with(
        &abis,
        Action::Allow,
        vec![
            ("fd_read", Action::Log, None),
            ("fd_write", Action::Kill, None),
            ("fd_read", Action::ReturnErrno(63), None),
        ],
    );
    let fd_read = policy.guard_for("fd_read").unwrap();
    assert_eq!(fd_read.statements().len(), 2);
    assert_eq!(fd_read.check((0, 0, 0, 0)).to_vec(), vec![Action::Log, Action::ReturnErrno(63)]);
    assert_eq!(policy.guard_for("fd_write").unwrap().statements().len(), 1);
    assert!(policy.guard_for("fd_close").is_none());
}
