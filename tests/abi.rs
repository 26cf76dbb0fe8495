use std::rc::Rc;
use wasi_guard::abi::{
    forbidden_imports, import_funcs_from_sections, parse_import_funcs, FuncSignature, ImportFunc,
    ParseError, RawImport, Section, SubTypeInfo, TypeGroup, ValueType,
};

const MODULE: &str = r#"(module $rust-672937185f5392fa.wasm
    (type (;0;) (func))
    (type (;1;) (func (param i32)))
    (type (;2;) (func (param i32 i32)))
    (type (;3;) (func (param i32 i32) (result i32)))
    (type (;4;) (func (param i32) (result i32)))
    (type (;5;) (func (param i32 i32 i32) (result i32)))
    (type (;6;) (func (param i32 i32 i32)))
    (type (;7;) (func (param i32 i64 i32) (result i32)))
    (type (;8;) (func (param i32 i32 i32 i32) (result i32)))
    (type (;9;) (func (result i32)))
    (type (;10;) (func (param i32) (result i64)))
    (type (;11;) (func (param i32 i32 i32 i32)))
    (type (;12;) (func (param i32 i64 i32)))
    (type (;13;) (func (param i64 i64 i32) (result i64)))
    (type (;14;) (func (param i32 i64 i64)))
    (type (;15;) (func (param i32 i32 i32 i32 i32)))
    (type (;16;) (func (param i32 i32 i32 i32 i32) (result i32)))
    (type (;17;) (func (param i32 i32 i64 i32)))
    (type (;18;) (func (param i32 i32 i64)))
    (type (;19;) (func (param i32 i32 i32 i32 i32 i32 i32)))
    (type (;20;) (func (param i32 i32 i32 i32 i32 i32) (result i32)))
    (type (;21;) (func (param i32 i32 i32 i32 i32 i32 i32 i32 i32 i32 i32) (result i32)))
    (type (;22;) (func (param i32 i64 i32 i32 i32 i32 i32 i32) (result i32)))
    (type (;23;) (func (param i32 i32 i32 i32 i32 i32 i32) (result i32)))
    (type (;24;) (func (param i64 i32 i32) (result i32)))
    (type (;25;) (func (param i32 i64 i64 i64 i64)))
    (import "wasi_snapshot_preview1" "clock_time_get" (func $_ZN4wasi13lib_generated22wasi_snapshot_preview114clock_time_get17hf55eee9df40ce7deE (type 7)))
    (import "wasi_snapshot_preview1" "fd_write" (func $_ZN4wasi13lib_generated22wasi_snapshot_preview18fd_write17h12b230225e789f1eE (type 8)))
    (import "wasi_snapshot_preview1" "environ_get" (func $__imported_wasi_snapshot_preview1_environ_get (type 3)))
    (import "wasi_snapshot_preview1" "environ_sizes_get" (func $__imported_wasi_snapshot_preview1_environ_sizes_get (type 3)))
    (import "wasi_snapshot_preview1" "proc_exit" (func $__imported_wasi_snapshot_preview1_proc_exit (type 1)))
)"#;

#[test]
fn parse_import_funcs_test() {
    let wasm_binary = wat::parse_str(MODULE).unwrap();
    let import_funcs = parse_import_funcs(&wasm_binary).unwrap();
    assert_eq!(import_funcs.len(), 5);
    assert_eq!(import_funcs[0].module, "wasi_snapshot_preview1");
    assert_eq!(import_funcs[0].name, "clock_time_get");
    assert!(import_funcs[0].is_c_abi());
    assert_eq!(import_funcs[0].unwrap_func().params().len(), 3);
    assert_eq!(import_funcs[0].unwrap_func().params()[1], ValueType::I64);

    assert_eq!(import_funcs[4].name, "proc_exit");
    assert_eq!(import_funcs[4].unwrap_func().params().len(), 1);
    assert_eq!(import_funcs[4].unwrap_func().params()[0], ValueType::I32);
}

#[test]
fn parsed_imports_keep_declaration_order_and_types() {
    let wasm_binary = wat::parse_str(MODULE).unwrap();
    let funcs = parse_import_funcs(&wasm_binary).unwrap();
    let names: Vec<&str> = funcs.iter().map(|f| f.name.as_str()).collect();
    assert_eq!(names, vec!["clock_time_get", "fd_write", "environ_get", "environ_sizes_get", "proc_exit"]);
    assert!(funcs.iter().all(|f| f.module == "wasi_snapshot_preview1"));
    let counts: Vec<(usize, usize)> =
        funcs.iter().map(|f| (f.unwrap_func().params().len(), f.unwrap_func().results().len())).collect();
    assert_eq!(counts, vec![(3, 1), (4, 1), (2, 1), (2, 1), (1, 0)]);
    // environ_get and environ_sizes_get share type 3.
    assert!(Rc::ptr_eq(&funcs[2].ty, &funcs[3].ty));
    assert!(funcs.iter().all(|f| f.is_c_abi()));
}

#[test]
fn non_function_import_is_refused() {
    let wasm_binary = wat::parse_str(
        r#"(module
            (type (func (param i32)))
            (import "env" "f" (func (type 0)))
            (import "env" "memory" (memory 1))
        )"#,
    )
    .unwrap();
    assert_eq!(parse_import_funcs(&wasm_binary).unwrap_err(), ParseError::NonFunctionImport);
    let global = wat::parse_str(r#"(module (import "env" "g" (global i32)))"#).unwrap();
    assert_eq!(parse_import_funcs(&global).unwrap_err(), ParseError::NonFunctionImport);
}

#[test]
fn malformed_module_is_refused() {
    assert_eq!(parse_import_funcs(b"not a module").unwrap_err(), ParseError::MalformedBinary);
    let mut truncated = wat::parse_str(MODULE).unwrap();
    truncated.truncate(truncated.len() - 3);
    assert_eq!(parse_import_funcs(&truncated).unwrap_err(), ParseError::MalformedBinary);
}

#[test]
fn module_without_imports() {
    let wasm_binary = wat::parse_str("(module)").unwrap();
    assert!(parse_import_funcs(&wasm_binary).unwrap().is_empty());
}

#[test]
fn multi_result_import_is_not_c_abi() {
    let wasm_binary = wat::parse_str(
        r#"(module (import "env" "pair" (func (param i32) (result i32 i64))))"#,
    )
    .unwrap();
    let funcs = parse_import_funcs(&wasm_binary).unwrap();
    assert_eq!(funcs.len(), 1);
    assert!(!funcs[0].is_c_abi());
    assert_eq!(funcs[0].unwrap_func().results(), &[ValueType::I32, ValueType::I64]);
}

fn group(params: Vec<ValueType>) -> Rc<TypeGroup> {
    Rc::new(TypeGroup {
        explicit: false,
        types: vec![SubTypeInfo { is_final: true, func: Some(FuncSignature { params, results: vec![] }) }],
    })
}

fn raw(name: &str, func_type: Option<u32>) -> RawImport {
    RawImport { module: "m".to_string(), name: name.to_string(), func_type }
}

#[test]
fn sections_resolve_types_by_index() {
    let sections = vec![
        Section::Types { groups: vec![group(vec![]), group(vec![ValueType::I32])], truncated: false },
        Section::Other,
        Section::Imports { entries: vec![raw("a", Some(1)), raw("b", Some(0))], truncated: false },
    ];
    let funcs = import_funcs_from_sections(&sections, false).unwrap();
    assert_eq!(funcs.len(), 2);
    assert_eq!(funcs[0].name, "a");
    assert_eq!(funcs[0].unwrap_func().params(), &[ValueType::I32]);
    assert_eq!(funcs[1].unwrap_func().params().len(), 0);
}

#[test]
fn sections_report_errors_in_stream_order() {
    let unresolved = vec![Section::Imports { entries: vec![raw("a", Some(2))], truncated: false }];
    assert_eq!(import_funcs_from_sections(&unresolved, false).unwrap_err(), ParseError::UnresolvedType);
    // A failure after the sections comes before resolution.
    assert_eq!(import_funcs_from_sections(&unresolved, true).unwrap_err(), ParseError::MalformedBinary);
    // A non-function entry ahead of a reader failure is what is reported.
    let both = vec![Section::Imports { entries: vec![raw("a", None)], truncated: true }];
    assert_eq!(import_funcs_from_sections(&both, false).unwrap_err(), ParseError::NonFunctionImport);
    let failed_types = vec![
        Section::Types { groups: vec![], truncated: true },
        Section::Imports { entries: vec![raw("a", None)], truncated: false },
    ];
    assert_eq!(import_funcs_from_sections(&failed_types, false).unwrap_err(), ParseError::MalformedBinary);
}

fn import(name: &str) -> ImportFunc {
    ImportFunc { module: "wasi_snapshot_preview1".to_string(), name: name.to_string(), ty: group(vec![]) }
}

#[test]
fn forbidden_imports_filters_by_name() {
    let imports = vec![import("fd_read"), import("proc_exit"), import("fd_write"), import("proc_exit")];
    let blacklist = vec!["proc_exit".to_string(), "sched_yield".to_string()];
    let forbidden = forbidden_imports(&imports, &blacklist);
    assert_eq!(forbidden.len(), 2);
    assert!(forbidden.iter().all(|f| f.name == "proc_exit"));
    assert!(std::ptr::eq(forbidden[0], &imports[1]));
    assert!(std::ptr::eq(forbidden[1], &imports[3]));
    assert!(forbidden_imports(&imports, &[]).is_empty());
    assert!(forbidden_imports(&[], &blacklist).is_empty());
}
