use sm_glue::arena::DataSegments;
use sm_glue::bindgen::{pop_js, pop_wasm, Operand};
use sm_glue::filename::output_filename;
use sm_glue::gen::SpiderMonkeyWasm;
use sm_glue::interner::TypeTable;
use sm_glue::types::{wasm_signature, Direction, IdlFunc, IdlType, ValTy, WasmSignature};

#[test]
fn arena_hands_out_stable_offsets() {
    let mut a = DataSegments::new();
    assert_eq!(a.add(b"abc"), 0);
    assert_eq!(a.add(b"de"), 3);
    assert_eq!(a.add(b""), 5);
    assert_eq!(a.len(), 5);
    assert_eq!(a.bytes, b"abcde".to_vec());
}

#[test]
fn arena_page_counts() {
    let mut a = DataSegments::new();
    assert_eq!(a.min_pages(), 0);
    a.add(&[0u8; 100]);
    assert_eq!(a.min_pages(), 1);
    a.add(&vec![0u8; 65436]);
    assert_eq!(a.len(), 65536);
    assert_eq!(a.min_pages(), 1);
    a.add(b"x");
    assert_eq!(a.min_pages(), 2);
}

#[test]
fn interner_deduplicates() {
    let mut t = TypeTable::new();
    let sig = || WasmSignature {
        params: vec![ValTy::I32, ValTy::I64],
        results: vec![],
        retptr: None,
    };
    let other = WasmSignature {
        params: vec![ValTy::I32],
        results: vec![ValTy::F32],
        retptr: None,
    };
    let a = t.intern(sig());
    let b = t.intern(other);
    let c = t.intern(sig());
    assert_eq!(a, c);
    assert_ne!(a, b);
    assert_eq!(t.len(), 2);
}

#[test]
fn operand_tags_are_kept_apart() {
    let mut ops = vec![Operand::Js(7), Operand::Wasm(3)];
    assert_eq!(Operand::Js(7).unwrap_js(), 7);
    assert_eq!(Operand::Wasm(3).unwrap_wasm(), 3);
    assert_eq!(pop_wasm(&mut ops), 3);
    assert_eq!(pop_js(&mut ops), 7);
    assert!(ops.is_empty());
}

#[test]
fn wire_signatures_follow_the_canonical_abi() {
    let f = IdlFunc {
        name: "f".to_string(),
        params: vec![IdlType::U32, IdlType::Str],
        results: vec![IdlType::U32],
    };
    let s = wasm_signature(Direction::Import, &f);
    assert_eq!(s.params, vec![ValTy::I32, ValTy::I32, ValTy::I32]);
    assert_eq!(s.results, vec![ValTy::I32]);
    assert!(s.retptr.is_none());

    // a string result moves through the return-pointer area
    let g = IdlFunc {
        name: "g".to_string(),
        params: vec![],
        results: vec![IdlType::Str],
    };
    let si = wasm_signature(Direction::Import, &g);
    assert_eq!(si.params, vec![ValTy::I32]); // just the return pointer
    assert_eq!(si.results, vec![]);
    assert_eq!(si.retptr, Some(vec![ValTy::I32, ValTy::I32]));
    let se = wasm_signature(Direction::Export, &g);
    assert_eq!(se.params, vec![ValTy::I32]);
    assert_eq!(se.results, vec![ValTy::I32]); // an export returns the area address
    assert_eq!(se.retptr, Some(vec![ValTy::I32, ValTy::I32]));
}

#[test]
fn output_filenames() {
    assert_eq!(output_filename("./app.js").as_deref(), Some("app.wasm"));
    assert_eq!(output_filename("app.js").as_deref(), Some("app.wasm"));
    assert_eq!(output_filename("dir/sub/main.mjs").as_deref(), Some("main.wasm"));
    assert_eq!(output_filename("noext").as_deref(), Some("noext.wasm"));
    assert_eq!(output_filename("a.b.c").as_deref(), Some("a.b.wasm"));
    assert_eq!(output_filename(".bashrc").as_deref(), Some(".bashrc.wasm"));
    assert_eq!(output_filename("trailingdot.").as_deref(), Some("trailingdot.wasm"));
    assert_eq!(output_filename(""), None);
    assert_eq!(output_filename("."), None);
    assert_eq!(output_filename(".."), None);
    assert_eq!(output_filename("a/.."), None);
    assert_eq!(output_filename("dir/"), None);
}

#[test]
fn index_space_partition() {
    let mut g = SpiderMonkeyWasm::new("a.js".to_string(), "".to_string());
    g.import_spidermonkey(true);
    let host = sm_glue::types::Interface {
        name: "host".to_string(),
        functions: vec![
            IdlFunc { name: "f".to_string(), params: vec![IdlType::U32], results: vec![] },
            IdlFunc { name: "g".to_string(), params: vec![], results: vec![IdlType::U32] },
        ],
    };
    let api = sm_glue::types::Interface {
        name: "api".to_string(),
        functions: vec![
            IdlFunc { name: "h".to_string(), params: vec![], results: vec![] },
        ],
    };
    g.preprocess_all(&vec![host], &vec![api]);
    assert_eq!(g.witx_import_functions_len(), 2);
    assert_eq!(g.witx_exports_len(), 1);
    assert_eq!(g.witx_import(0), 0);
    assert_eq!(g.spidermonkey_import(0), 2); // the engine's startup routine
    assert_eq!(g.spidermonkey_import(8), 10); // the engine's allocator
    assert_eq!(g.witx_import_glue_fns_start(), 26);
    assert_eq!(g.witx_import_glue_fn(1), 27);
    assert_eq!(g.witx_export_start(), 28);
    assert_eq!(g.witx_export(0), 28);
}

#[test]
fn list_of_strings_round_trip_shape() {
    // a list<string> parameter exercises the nested block splice
    let mut g = SpiderMonkeyWasm::new("n.js".to_string(), "".to_string());
    g.import_spidermonkey(true);
    let mk = || sm_glue::types::Interface {
        name: "host".to_string(),
        functions: vec![IdlFunc {
            name: "join".to_string(),
            params: vec![IdlType::List(Box::new(IdlType::Str))],
            results: vec![IdlType::Str],
        }],
    };
    g.preprocess_all(&vec![mk()], &vec![]);
    let host = mk();
    g.import(&host, &host.functions[0]);
    let m = g.finish_module();
    let bytes = sm_glue::encode::encode_module(&m);
    wasmparser::Validator::new()
        .validate_all(&bytes)
        .expect("nested list module must validate");
}
