use sm_glue::gen::{ExportKind, GlueModule, SpiderMonkeyWasm};
use sm_glue::instr::Instr;
use sm_glue::types::{IdlFunc, IdlType, Interface, ValTy};

fn new_gen(name: &str, src: &str) -> SpiderMonkeyWasm {
    let mut g = SpiderMonkeyWasm::new(name.to_string(), src.to_string());
    g.import_spidermonkey(true);
    g
}

fn func(name: &str, params: Vec<IdlType>, results: Vec<IdlType>) -> IdlFunc {
    IdlFunc {
        name: name.to_string(),
        params,
        results,
    }
}

fn iface(name: &str, functions: Vec<IdlFunc>) -> Interface {
    Interface {
        name: name.to_string(),
        functions,
    }
}

fn validate(bytes: &[u8]) {
    wasmparser::Validator::new()
        .validate_all(bytes)
        .expect("emitted module must validate");
}

fn count_type_entries(m: &GlueModule, params: &[ValTy], results: &[ValTy], retptr: bool) -> usize {
    m.types
        .types
        .iter()
        .filter(|t| {
            t.params.as_slice() == params
                && t.results.as_slice() == results
                && t.retptr.is_some() == retptr
        })
        .count()
}

#[test]
fn import_of_scalar_function() {
    // imports { fn f(x: u32) -> u32 }, script exports nothing
    let mut g = new_gen("foo.js", "// nothing");
    let host = iface("host", vec![func("f", vec![IdlType::U32], vec![IdlType::U32])]);
    g.preprocess_all(&vec![host], &vec![]);
    let host = iface("host", vec![func("f", vec![IdlType::U32], vec![IdlType::U32])]);
    g.import(&host, &host.functions[0]);
    let m = g.finish_module();

    assert_eq!(m.n_imports, 1);
    assert_eq!(m.n_exports, 0);
    // exactly one interface import, under (interface-name, function-name)
    assert_eq!(m.idl_imports.len(), 1);
    assert_eq!(m.idl_imports[0].module, "host");
    assert_eq!(m.idl_imports[0].name, "f");
    // with the canonical wire signature (i32) -> i32
    let ty = &m.types.types[m.idl_imports[0].type_index as usize];
    assert_eq!(ty.params, vec![ValTy::I32]);
    assert_eq!(ty.results, vec![ValTy::I32]);
    assert!(ty.retptr.is_none());
    // one import-glue body, zero export-glue bodies, one bootstrap
    assert_eq!(m.code.len(), 2);
    // the glue body calls the interface import
    assert!(m.code[0].insns.contains(&Instr::Call(0)));
    // the bootstrap registers one module with one function
    let boot = &m.code[1].insns;
    let new_builder = 1 + 4; // SMW_NEW_MODULE_BUILDER after one interface import
    let add_export = 1 + 5;
    assert_eq!(boot.iter().filter(|i| **i == Instr::Call(new_builder)).count(), 1);
    assert_eq!(boot.iter().filter(|i| **i == Instr::Call(add_export)).count(), 1);
    // the import-glue trampoline is referenced from the bootstrap
    assert!(boot.contains(&Instr::RefFunc(1 + 24)));
    assert_eq!(m.elem_funcs, vec![25]);

    let bytes = sm_glue::encode::encode_module(&m);
    validate(&bytes);
}

#[test]
fn export_of_string_function() {
    // exports { fn g(s: string) -> string }
    let mut g = new_gen("foo.js", "function g(s) { return s; }");
    let api = iface("api", vec![func("g", vec![IdlType::Str], vec![IdlType::Str])]);
    g.preprocess_all(&vec![], &vec![api]);
    let api = iface("api", vec![func("g", vec![IdlType::Str], vec![IdlType::Str])]);
    g.export(&api, &api.functions[0]);
    let m = g.finish_module();

    assert_eq!(m.n_imports, 0);
    assert_eq!(m.n_exports, 1);
    // module exports g with signature (i32,i32,i32) -> i32: ptr, len and a
    // return-pointer parameter, returning the result-area address
    assert_eq!(m.exports[0].name, "g");
    assert_eq!(m.exports[0].kind, ExportKind::Func);
    assert_eq!(m.exports[0].index, 24); // after 0 imports + 24 engine imports
    let (body, ti) = (&m.code[0], m.func_types[0]);
    let ty = &m.types.types[ti as usize];
    assert_eq!(ty.params, vec![ValTy::I32, ValTy::I32, ValTy::I32]);
    assert_eq!(ty.results, vec![ValTy::I32]);
    assert_eq!(ty.retptr.as_deref(), Some(&[ValTy::I32, ValTy::I32][..]));
    // the body lifts the incoming (ptr, len), calls into the script, and
    // lowers the result through the scratch area
    let lift = 0 + 18; // SMW_string_canon_lift
    let call = 0 + 12; // SMW_call
    let lower = 0 + 17; // SMW_string_canon_lower
    assert!(body.insns.contains(&Instr::Call(lift)));
    assert!(body.insns.contains(&Instr::Call(call)));
    assert!(body.insns.contains(&Instr::Call(lower)));
    let p_lift = body.insns.iter().position(|i| *i == Instr::Call(lift)).unwrap();
    let p_call = body.insns.iter().position(|i| *i == Instr::Call(call)).unwrap();
    let p_lower = body.insns.iter().position(|i| *i == Instr::Call(lower)).unwrap();
    assert!(p_lift < p_call && p_call < p_lower);

    let bytes = sm_glue::encode::encode_module(&m);
    validate(&bytes);
}

#[test]
fn import_of_list_function() {
    // imports { fn h(xs: list<u32>) -> () }
    let mut g = new_gen("foo.js", "// nothing");
    let mk = || {
        iface(
            "host",
            vec![func("h", vec![IdlType::List(Box::new(IdlType::U32))], vec![])],
        )
    };
    g.preprocess_all(&vec![mk()], &vec![]);
    let host = mk();
    g.import(&host, &host.functions[0]);
    let m = g.finish_module();

    let body = &m.code[0].insns;
    let spread = 1 + 19; // SMW_spread_into_array
    let get_elem = 1 + 20; // SMW_get_array_element
    let from_u32 = 1 + 15; // SMW_i32_from_u32
    let malloc = 1 + 8; // SMW_malloc
    let free = 1 + 1; // canonical_abi_free
    assert!(body.contains(&Instr::Call(spread)));
    assert!(body.contains(&Instr::Call(get_elem)));
    assert!(body.contains(&Instr::Call(from_u32)));
    // allocates length * 4 bytes in engine memory
    let p_malloc = body.iter().position(|i| *i == Instr::Call(malloc)).unwrap();
    assert_eq!(body[p_malloc - 2], Instr::I32Const(4));
    assert_eq!(body[p_malloc - 1], Instr::I32Mul);
    // lowers each element inside a loop and stores it at the base pointer
    assert!(body.contains(&Instr::BlockStart));
    assert!(body.contains(&Instr::LoopStart));
    assert!(body.contains(&Instr::I32Store(0)));
    // calls h, then frees the allocation exactly once
    let p_call = body.iter().position(|i| *i == Instr::Call(0)).unwrap();
    let p_free = body.iter().position(|i| *i == Instr::Call(free)).unwrap();
    assert!(p_call < p_free);
    assert_eq!(body.iter().filter(|i| **i == Instr::Call(free)).count(), 1);

    let bytes = sm_glue::encode::encode_module(&m);
    validate(&bytes);
}

#[test]
fn identical_signatures_share_one_type_entry() {
    // two interface functions with wire signature (i32) -> ()
    let mut g = new_gen("foo.js", "// nothing");
    let mk = || {
        iface(
            "host",
            vec![
                func("a", vec![IdlType::U32], vec![]),
                func("b", vec![IdlType::U32], vec![]),
            ],
        )
    };
    g.preprocess_all(&vec![mk()], &vec![]);
    let host = mk();
    g.import(&host, &host.functions[0]);
    g.import(&host, &host.functions[1]);
    let m = g.finish_module();

    assert_eq!(m.idl_imports[0].type_index, m.idl_imports[1].type_index);
    assert_eq!(count_type_entries(&m, &[ValTy::I32], &[], false), 1);

    let bytes = sm_glue::encode::encode_module(&m);
    validate(&bytes);
}

#[test]
fn export_completeness() {
    let mut g = new_gen("foo.js", "function g(s) { return s; }");
    let mk = || iface("api", vec![func("g", vec![IdlType::Str], vec![IdlType::Str])]);
    g.preprocess_all(&vec![], &vec![mk()]);
    let api = mk();
    g.export(&api, &api.functions[0]);
    let m = g.finish_module();

    let names: Vec<&str> = m.exports.iter().map(|e| e.name.as_str()).collect();
    assert_eq!(
        names,
        vec![
            "g",
            "memory",
            "canonical_abi_free",
            "canonical_abi_realloc",
            "wizer.initialize"
        ]
    );
    assert_eq!(m.exports[1].kind, ExportKind::Memory);
    assert_eq!(m.exports[1].index, 0);
    assert_eq!(m.exports[2].index, 1); // canonical_abi_free engine import
    assert_eq!(m.exports[3].index, 2); // canonical_abi_realloc engine import
    assert_eq!(m.exports[4].index, 25); // the bootstrap, last function index
}

#[test]
fn empty_module_validates() {
    let mut g = new_gen("app.js", "1 + 1");
    g.preprocess_all(&vec![], &vec![]);
    let m = g.finish_module();
    assert_eq!(m.code.len(), 1); // just the bootstrap
    assert!(m.elem_funcs.is_empty());
    let bytes = sm_glue::encode::encode_module(&m);
    validate(&bytes);
}

#[test]
fn scratch_area_sized_by_preprocessing() {
    // an import returning a string transfers two scalars through the
    // return-pointer area
    let mut g = new_gen("foo.js", "// nothing");
    let mk = || iface("host", vec![func("k", vec![], vec![IdlType::Str])]);
    g.preprocess_all(&vec![mk()], &vec![]);
    assert_eq!(g.i64_return_pointer_area_size, 2);
    let host = mk();
    g.import(&host, &host.functions[0]);
    let m = g.finish_module();
    // the bootstrap allocates eight bytes per scratch unit
    let boot = &m.code[m.code.len() - 1].insns;
    assert_eq!(boot[15], Instr::I32Const(16));
    assert_eq!(boot[16], Instr::Call(1 + 8)); // SMW_malloc
    let bytes = sm_glue::encode::encode_module(&m);
    validate(&bytes);
}

#[test]
fn finish_all_names_the_output_after_the_script_stem() {
    let mut g = new_gen("./app.js", "1 + 1");
    g.preprocess_all(&vec![], &vec![]);
    let (name, bytes) = g.finish_all();
    assert_eq!(name, "app.wasm");
    validate(&bytes);
}

#[test]
fn string_argument_is_freed_after_the_call() {
    // imports { fn p(s: string) -> () }: the glue body owns the lowered
    // string and must release it after the import returns
    let mut g = new_gen("foo.js", "// nothing");
    let mk = || iface("host", vec![func("p", vec![IdlType::Str], vec![])]);
    g.preprocess_all(&vec![mk()], &vec![]);
    let host = mk();
    g.import(&host, &host.functions[0]);
    let m = g.finish_module();

    let body = &m.code[0].insns;
    let lower = 1 + 17; // SMW_string_canon_lower
    let free = 1 + 1; // canonical_abi_free
    assert!(body.contains(&Instr::Call(lower)));
    let p_call = body.iter().position(|i| *i == Instr::Call(0)).unwrap();
    let p_free = body.iter().position(|i| *i == Instr::Call(free)).unwrap();
    assert!(p_call < p_free);
    assert_eq!(body.iter().filter(|i| **i == Instr::Call(free)).count(), 1);
    // lowering a string reserves two scalar slots of scratch space
    assert!(g.i64_return_pointer_area_size >= 1);

    let bytes = sm_glue::encode::encode_module(&m);
    validate(&bytes);
}

#[test]
fn bootstrap_registers_each_interface_once() {
    let mut g = new_gen("foo.js", "// nothing");
    let mk = |n: &str, f: &str| iface(n, vec![func(f, vec![IdlType::U32], vec![])]);
    g.preprocess_all(&vec![mk("alpha", "f"), mk("beta", "g")], &vec![]);
    let a = mk("alpha", "f");
    let b = mk("beta", "g");
    g.import(&a, &a.functions[0]);
    g.import(&b, &b.functions[0]);
    let m = g.finish_module();

    let boot = &m.code[m.code.len() - 1].insns;
    let ni = 2;
    let new_builder = ni + 4;
    let finish_builder = ni + 6;
    let startup = ni + 0;
    assert_eq!(boot.iter().filter(|i| **i == Instr::Call(new_builder)).count(), 2);
    assert_eq!(boot.iter().filter(|i| **i == Instr::Call(finish_builder)).count(), 2);
    // only the bootstrap runs the engine's startup routine, exactly once
    assert_eq!(boot.iter().filter(|i| **i == Instr::Call(startup)).count(), 1);
    for k in 0..m.code.len() - 1 {
        assert!(!m.code[k].insns.contains(&Instr::Call(startup)));
    }
    // both trampolines land in the indirect function table
    assert!(boot.contains(&Instr::RefFunc(ni + 24)));
    assert!(boot.contains(&Instr::RefFunc(ni + 24 + 1)));

    let bytes = sm_glue::encode::encode_module(&m);
    validate(&bytes);
}
