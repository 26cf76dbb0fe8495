use wasi_guard::wasi::{
    lookup, preview1, wasi_names, AbiArg, WasiAbiDescriptor, DEFAULT_ARG_SIZE, PREVIEW1_ABI_COUNT,
};

fn abi(name: &str, args: Vec<AbiArg>) -> WasiAbiDescriptor {
    WasiAbiDescriptor::new(name, args)
}

fn a() -> WasiAbiDescriptor {
    abi("A", vec![])
}

fn b() -> WasiAbiDescriptor {
    abi("proc_exit", vec![AbiArg::untyped("code")])
}

fn c() -> WasiAbiDescriptor {
    abi("clock_time_get", vec![AbiArg::untyped("clock_id"), AbiArg::new("precision", 8)])
}

fn d() -> WasiAbiDescriptor {
    abi("close", vec![AbiArg::new("fd", std::mem::size_of::<u64>())])
}

fn e() -> WasiAbiDescriptor {
    abi(
        "wasi",
        vec![
            AbiArg::new("arg_0", 8),
            AbiArg::untyped("arg1"),
            AbiArg::new("ARG2", std::mem::size_of::<i64>()),
            AbiArg::untyped("arg3"),
        ],
    )
}

fn check_abi_args() {
    let arg0 = AbiArg::untyped("a");
    assert_eq!(arg0.name, "a");
    assert_eq!(arg0.size, std::mem::size_of::<i32>());
    let arg1 = AbiArg::new("b", std::mem::size_of::<i64>());
    assert_eq!(arg1.name, "b");
    assert_eq!(arg1.size, std::mem::size_of::<i64>());
    let arg2 = AbiArg::new("b", 2);
    assert_eq!(arg2.name, "b");
    assert_eq!(arg2.size, 2);

    let camel_case = AbiArg::new("camelCase", 8);
    assert_eq!(camel_case.name, "camelCase");
    assert_eq!(camel_case.size, 8);
    let snake_case = AbiArg::untyped("snake_case");
    assert_eq!(snake_case.name, "snake_case");
    assert_eq!(snake_case.size, std::mem::size_of::<i32>());
}

#[test]
fn test_abi_arg_from_macro() {
    check_abi_args();
}

#[test]
fn wasi_abi_arg_from_macro() {
    check_abi_args();
}

fn check_args_num() {
    assert_eq!(a().args.len(), 0);
    assert_eq!(abi("A1", vec![]).args.len(), 0);
    assert_eq!(b().args.len(), 1);
    assert_eq!(b().args.len(), 1);
    assert_eq!(c().args.len(), 2);
    assert_eq!(d().args.len(), 1);
    assert_eq!(e().args.len(), 4);

    let wasi_abi = abi(
        "wasi_abi",
        vec![AbiArg::untyped("arg0"), AbiArg::untyped("arg1"), AbiArg::untyped("arg2")],
    );
    assert_eq!(wasi_abi.args.len(), 3);
}

#[test]
fn test_args_num() {
    check_args_num();
}

#[test]
fn wasi_args_num() {
    check_args_num();
}

fn check_arg_size() {
    assert_eq!(b().args[0].size, std::mem::size_of::<i32>());
    assert_eq!(c().args[0].size, std::mem::size_of::<i32>());
    assert_eq!(c().args[1].size, 8);
    assert_eq!(d().args[0].size, std::mem::size_of::<u64>());
    assert_eq!(e().args[0].size, 8);
    assert_eq!(e().args[1].size, std::mem::size_of::<i32>());
    assert_eq!(e().args[2].size, std::mem::size_of::<i64>());
    assert_eq!(e().args[3].size, std::mem::size_of::<i32>());
}

#[test]
fn test_arg_size() {
    check_arg_size();
}

#[test]
fn wasi_arg_size() {
    check_arg_size();
}

fn check_distinct_arg_names() {
    assert!(e().args_are_distinct());

    let wasi_abi = abi(
        "wasi_abi",
        vec![AbiArg::untyped("arg0"), AbiArg::untyped("arg1"), AbiArg::untyped("arg0")],
    );
    assert!(!wasi_abi.args_are_distinct());
}

#[test]
fn test_distinct_arg_names() {
    check_distinct_arg_names();
}

#[test]
fn wasi_distinct_arg_names() {
    check_distinct_arg_names();
}

#[test]
fn distinct_arg_names_edge_cases() {
    assert!(a().args_are_distinct());
    assert!(b().args_are_distinct());
    let twice = abi("twice", vec![AbiArg::untyped("x"), AbiArg::new("x", 8)]);
    assert!(!twice.args_are_distinct());
}

#[test]
fn ret_val_size_is_errno_width() {
    assert_eq!(WasiAbiDescriptor::ret_val_size(), std::mem::size_of::<i32>());
    assert_eq!(DEFAULT_ARG_SIZE, std::mem::size_of::<i32>());
}

#[test]
fn count_args_in_macro() {
    let one = abi("x", vec![AbiArg::untyped("a")]);
    assert_eq!(one.args.len(), 1);
    let three = abi("x", vec![AbiArg::untyped("a"), AbiArg::untyped("b"), AbiArg::untyped("c")]);
    assert_eq!(three.args.len(), 3);

    let typed = abi("x", vec![AbiArg::new("a", 4)]);
    assert_eq!(typed.args.len(), 1);
    let typed4 = abi(
        "x",
        vec![AbiArg::new("a", 4), AbiArg::new("b", 4), AbiArg::new("c", 8), AbiArg::new("d", 1)],
    );
    assert_eq!(typed4.args.len(), 4);

    let sized = abi("x", vec![AbiArg::new("a", 4)]);
    assert_eq!(sized.args.len(), 1);
    let sized3 = abi("x", vec![AbiArg::new("a", 4), AbiArg::new("b", 4), AbiArg::new("c", 8)]);
    assert_eq!(sized3.args.len(), 3);

    let mixed = abi(
        "x",
        vec![AbiArg::untyped("a"), AbiArg::new("b", 8), AbiArg::new("c", 8), AbiArg::untyped("d")],
    );
    assert_eq!(mixed.args.len(), 4);
}

#[test]
fn define_wasi_abi() {
    let wasi_args = abi(
        "wasi_args",
        vec![AbiArg::untyped("a"), AbiArg::new("bb", std::mem::size_of::<i64>()), AbiArg::new("cc_c", 8)],
    );
    assert_eq!(wasi_args.name, "wasi_args");
    assert_eq!(wasi_args.args.len(), 3);
    assert_eq!(wasi_args.args[0].name, "a");
    assert_eq!(wasi_args.args[0].size, std::mem::size_of::<i32>());
    assert_eq!(wasi_args.args[1].name, "bb");
    assert_eq!(wasi_args.args[1].size, std::mem::size_of::<i64>());
    assert_eq!(wasi_args.args[2].name, "cc_c");
    assert_eq!(wasi_args.args[2].size, 8);
}

#[test]
fn args_get_descriptor_exists() {
    let abis = preview1();
    let args_get = lookup(&abis, "args_get").unwrap();
    assert_eq!(args_get.name, "args_get");
    assert_eq!(args_get.args.len(), 2);
    assert_eq!(args_get.args[0].size, std::mem::size_of::<i32>());
}

#[test]
fn number() {
    let names = wasi_names();
    assert_eq!(names.len(), 42 + 4);
    assert_eq!(PREVIEW1_ABI_COUNT, 42 + 4);
    let last_idx: usize = 42 + 4 - 1;
    assert_eq!(names[last_idx], "sock_accept");
}

#[test]
fn wasmedge_sock_abis() {
    assert!(!wasi_names().iter().any(|name| name == "sock_listen"));
    assert!(lookup(&preview1(), "sock_listen").is_none());
}

#[test]
fn registry_is_well_formed() {
    let abis = preview1();
    for abi in abis.iter() {
        assert!(abi.args_are_distinct());
        assert!(abi.args.iter().all(|arg| arg.size > 0));
    }
    let names = wasi_names();
    for (i, name) in names.iter().enumerate() {
        assert!(!names[..i].contains(name));
    }
}

#[test]
fn param_type_0() {
    let abis = preview1();
    let sched_yield = lookup(&abis, "sched_yield").unwrap();
    assert_eq!(sched_yield.args.len(), 0);
}

#[test]
fn param_type_1() {
    let abis = preview1();
    let proc_exit = lookup(&abis, "proc_exit").unwrap();
    assert_eq!(proc_exit.args.len(), 1);
    assert_eq!(proc_exit.args[0].size, std::mem::size_of::<u32>());
}

#[test]
fn param_type_2() {
    let abis = preview1();
    let clock_res_get = lookup(&abis, "clock_res_get").unwrap();
    assert_eq!(clock_res_get.args.len(), 2);
    assert!(clock_res_get.args.iter().all(|arg| arg.size == std::mem::size_of::<i32>()));
    let clock_time_get = lookup(&abis, "clock_time_get").unwrap();
    assert_eq!(clock_time_get.args[1].size, std::mem::size_of::<u64>());
}
