//! The binary encoding of the assembled module model, delegated to the
//! `wasm-encoder` crate. Every call into that crate goes through one of the
//! small trusted wrappers below; the walk over the model itself is verified.
//!
//! Nothing is claimed of the produced bytes, deliberately. Every property
//! of the emitted module is stated and proved on the model in
//! [`crate::gen`], where it is meaningful; a byte-level restatement could
//! only name the encoding (nothing here could check such a name against the
//! format), so it would add trusted text without adding a checked fact. The
//! wrappers therefore carry no `ensures`: what is trusted is exactly that
//! each one appends the one construct its doc comment names, and nothing
//! about the bytes is assumed anywhere in a proof.

use vstd::prelude::*;
use crate::bindgen::GlueBody;
use crate::gen::{ExportKind, GlueModule};
use crate::instr::Instr;
use crate::types::ValTy;

verus! {

#[verifier::external_type_specification]
#[verifier::external_body]
pub struct ExModule(wasm_encoder::Module);

#[verifier::external_type_specification]
#[verifier::external_body]
pub struct ExTypeSection(wasm_encoder::TypeSection);

#[verifier::external_type_specification]
#[verifier::external_body]
pub struct ExImportSection(wasm_encoder::ImportSection);

#[verifier::external_type_specification]
#[verifier::external_body]
pub struct ExFunctionSection(wasm_encoder::FunctionSection);

#[verifier::external_type_specification]
#[verifier::external_body]
pub struct ExMemorySection(wasm_encoder::MemorySection);

#[verifier::external_type_specification]
#[verifier::external_body]
pub struct ExGlobalSection(wasm_encoder::GlobalSection);

#[verifier::external_type_specification]
#[verifier::external_body]
pub struct ExExportSection(wasm_encoder::ExportSection);

#[verifier::external_type_specification]
#[verifier::external_body]
pub struct ExElementSection(wasm_encoder::ElementSection);

#[verifier::external_type_specification]
#[verifier::external_body]
pub struct ExCodeSection(wasm_encoder::CodeSection);

#[verifier::external_type_specification]
#[verifier::external_body]
pub struct ExDataSection(wasm_encoder::DataSection);

#[verifier::external_type_specification]
#[verifier::external_body]
pub struct ExFunction(wasm_encoder::Function);

#[verifier::external_type_specification]
#[verifier::external_body]
pub struct ExValType(wasm_encoder::ValType);

/// Relies on `wasm_encoder::ValType`: maps each scalar of the model to its
/// encoder equivalent, one for one.
#[verifier::external_body]
fn vts(tys: &Vec<ValTy>) -> Vec<wasm_encoder::ValType> {
    tys.iter().map(
        |t|
            match t {
                ValTy::I32 => wasm_encoder::ValType::I32,
                ValTy::I64 => wasm_encoder::ValType::I64,
                ValTy::F32 => wasm_encoder::ValType::F32,
                ValTy::F64 => wasm_encoder::ValType::F64,
            },
    ).collect()
}

/// Relies on `wasm_encoder::TypeSection::new`: an empty type section.
#[verifier::external_body]
fn ts_new() -> wasm_encoder::TypeSection {
    wasm_encoder::TypeSection::new()
}

/// Relies on `wasm_encoder::CoreTypeEncoder::function`: appends one function
/// type with the given parameter and result scalars.
#[verifier::external_body]
fn ts_function(ts: &mut wasm_encoder::TypeSection, params: &Vec<ValTy>, results: &Vec<ValTy>) {
    ts.ty().function(vts(params), vts(results));
}

/// Relies on `wasm_encoder::ImportSection::new`: an empty import section.
#[verifier::external_body]
fn is_new() -> wasm_encoder::ImportSection {
    wasm_encoder::ImportSection::new()
}

/// Relies on `wasm_encoder::ImportSection::import` with a function entity:
/// appends one function import of the given type index.
#[verifier::external_body]
fn is_func(s: &mut wasm_encoder::ImportSection, module: &str, name: &str, ty: u32) {
    s.import(module, name, wasm_encoder::EntityType::Function(ty));
}

/// Relies on `wasm_encoder::ImportSection::import` with a memory entity:
/// imports the engine's 32-bit linear memory (minimum 0, no maximum).
#[verifier::external_body]
fn is_engine_memory(s: &mut wasm_encoder::ImportSection, module: &str, name: &str) {
    s.import(
        module,
        name,
        wasm_encoder::EntityType::Memory(
            wasm_encoder::MemoryType {
                minimum: 0,
                maximum: None,
                memory64: false,
                shared: false,
                page_size_log2: None,
            },
        ),
    );
}

/// Relies on `wasm_encoder::ImportSection::import` with a table entity:
/// imports the engine's indirect function table (funcref, minimum 0, no
/// maximum).
#[verifier::external_body]
fn is_engine_table(s: &mut wasm_encoder::ImportSection, module: &str, name: &str) {
    s.import(
        module,
        name,
        wasm_encoder::EntityType::Table(
            wasm_encoder::TableType {
                element_type: wasm_encoder::RefType::FUNCREF,
                table64: false,
                minimum: 0,
                maximum: None,
                shared: false,
            },
        ),
    );
}

/// Relies on `wasm_encoder::FunctionSection::new`: an empty section.
#[verifier::external_body]
fn fs_new() -> wasm_encoder::FunctionSection {
    wasm_encoder::FunctionSection::new()
}

/// Relies on `wasm_encoder::FunctionSection::function`: appends one entry.
#[verifier::external_body]
fn fs_function(s: &mut wasm_encoder::FunctionSection, ty: u32) {
    s.function(ty);
}

/// Relies on `wasm_encoder::MemorySection::new`: an empty section.
#[verifier::external_body]
fn ms_new() -> wasm_encoder::MemorySection {
    wasm_encoder::MemorySection::new()
}

/// Relies on `wasm_encoder::MemorySection::memory`: defines the glue
/// module's own 32-bit memory with the given minimum page count and no
/// maximum.
#[verifier::external_body]
fn ms_memory(s: &mut wasm_encoder::MemorySection, min_pages: u64) {
    s.memory(
        wasm_encoder::MemoryType {
            minimum: min_pages,
            maximum: None,
            memory64: false,
            shared: false,
            page_size_log2: None,
        },
    );
}

/// Relies on `wasm_encoder::GlobalSection::new`: an empty section.
#[verifier::external_body]
fn gs_new() -> wasm_encoder::GlobalSection {
    wasm_encoder::GlobalSection::new()
}

/// Relies on `wasm_encoder::GlobalSection::global`: defines the single
/// mutable `i32` return-pointer global, initialized to zero.
#[verifier::external_body]
fn gs_retptr_global(s: &mut wasm_encoder::GlobalSection) {
    s.global(
        wasm_encoder::GlobalType {
            val_type: wasm_encoder::ValType::I32,
            mutable: true,
            shared: false,
        },
        &wasm_encoder::ConstExpr::i32_const(0),
    );
}

/// Relies on `wasm_encoder::ExportSection::new`: an empty section.
#[verifier::external_body]
fn es_new() -> wasm_encoder::ExportSection {
    wasm_encoder::ExportSection::new()
}

/// Relies on `wasm_encoder::ExportSection::export` with a function kind.
#[verifier::external_body]
fn es_func(s: &mut wasm_encoder::ExportSection, name: &str, index: u32) {
    s.export(name, wasm_encoder::ExportKind::Func, index);
}

/// Relies on `wasm_encoder::ExportSection::export` with a memory kind.
#[verifier::external_body]
fn es_memory(s: &mut wasm_encoder::ExportSection, name: &str, index: u32) {
    s.export(name, wasm_encoder::ExportKind::Memory, index);
}

/// Relies on `wasm_encoder::ElementSection::new`: an empty section.
#[verifier::external_body]
fn els_new() -> wasm_encoder::ElementSection {
    wasm_encoder::ElementSection::new()
}

/// Relies on `wasm_encoder::ElementSection::declared` with a function list:
/// declares the given functions reference-able.
#[verifier::external_body]
fn els_declared(s: &mut wasm_encoder::ElementSection, idxs: &Vec<u32>) {
    s.declared(wasm_encoder::Elements::Functions(std::borrow::Cow::from(idxs.as_slice())));
}

/// Relies on `wasm_encoder::CodeSection::new`: an empty section.
#[verifier::external_body]
fn cs_new() -> wasm_encoder::CodeSection {
    wasm_encoder::CodeSection::new()
}

/// Relies on `wasm_encoder::CodeSection::function`: appends one body.
#[verifier::external_body]
fn cs_function(s: &mut wasm_encoder::CodeSection, f: &wasm_encoder::Function) {
    s.function(f);
}

/// Relies on `wasm_encoder::DataSection::new`: an empty section.
#[verifier::external_body]
fn ds_new() -> wasm_encoder::DataSection {
    wasm_encoder::DataSection::new()
}

/// Relies on `wasm_encoder::DataSection::active`: one active segment in the
/// glue module's memory at offset zero.
#[verifier::external_body]
fn ds_active(s: &mut wasm_encoder::DataSection, memory_index: u32, bytes: &Vec<u8>) {
    s.active(memory_index, &wasm_encoder::ConstExpr::i32_const(0), bytes.iter().copied());
}

/// Relies on `wasm_encoder::Function::new_with_locals_types`: a body with
/// the given locals, compacted into the run-length local encoding.
#[verifier::external_body]
fn func_new(locals: &Vec<ValTy>) -> wasm_encoder::Function {
    wasm_encoder::Function::new_with_locals_types(vts(locals))
}

/// Relies on `wasm_encoder::Module::new`: an empty module.
#[verifier::external_body]
fn module_new() -> wasm_encoder::Module {
    wasm_encoder::Module::new()
}

/// Relies on `wasm_encoder::Module::finish`: the module's bytes.
#[verifier::external_body]
fn module_finish(m: wasm_encoder::Module) -> Vec<u8> {
    m.finish()
}

/// Relies on `wasm_encoder::Module::section` for each section type below:
/// appends the encoded section.
#[verifier::external_body]
fn module_types(m: &mut wasm_encoder::Module, s: &wasm_encoder::TypeSection) {
    m.section(s);
}

/// Relies on `wasm_encoder::Module::section`.
#[verifier::external_body]
fn module_imports(m: &mut wasm_encoder::Module, s: &wasm_encoder::ImportSection) {
    m.section(s);
}

/// Relies on `wasm_encoder::Module::section`.
#[verifier::external_body]
fn module_functions(m: &mut wasm_encoder::Module, s: &wasm_encoder::FunctionSection) {
    m.section(s);
}

/// Relies on `wasm_encoder::Module::section`.
#[verifier::external_body]
fn module_memories(m: &mut wasm_encoder::Module, s: &wasm_encoder::MemorySection) {
    m.section(s);
}

/// Relies on `wasm_encoder::Module::section`.
#[verifier::external_body]
fn module_globals(m: &mut wasm_encoder::Module, s: &wasm_encoder::GlobalSection) {
    m.section(s);
}

/// Relies on `wasm_encoder::Module::section`.
#[verifier::external_body]
fn module_exports(m: &mut wasm_encoder::Module, s: &wasm_encoder::ExportSection) {
    m.section(s);
}

/// Relies on `wasm_encoder::Module::section`.
#[verifier::external_body]
fn module_elements(m: &mut wasm_encoder::Module, s: &wasm_encoder::ElementSection) {
    m.section(s);
}

/// Relies on `wasm_encoder::Module::section`.
#[verifier::external_body]
fn module_code(m: &mut wasm_encoder::Module, s: &wasm_encoder::CodeSection) {
    m.section(s);
}

/// Relies on `wasm_encoder::Module::section`.
#[verifier::external_body]
fn module_data(m: &mut wasm_encoder::Module, s: &wasm_encoder::DataSection) {
    m.section(s);
}

/// Relies on `wasm_encoder::Function::instruction` for each arm below: each
/// wrapper appends exactly the one named instruction. Loads and stores
/// address the engine memory (index 0) with byte alignment.
#[verifier::external_body]
fn f_unreachable(f: &mut wasm_encoder::Function) {
    f.instruction(&wasm_encoder::Instruction::Unreachable);
}

/// Relies on `wasm_encoder::Function::instruction` (empty-typed `block`).
#[verifier::external_body]
fn f_block(f: &mut wasm_encoder::Function) {
    f.instruction(&wasm_encoder::Instruction::Block(wasm_encoder::BlockType::Empty));
}

/// Relies on `wasm_encoder::Function::instruction` (empty-typed `loop`).
#[verifier::external_body]
fn f_loop(f: &mut wasm_encoder::Function) {
    f.instruction(&wasm_encoder::Instruction::Loop(wasm_encoder::BlockType::Empty));
}

/// Relies on `wasm_encoder::Function::instruction` (empty-typed `if`).
#[verifier::external_body]
fn f_if(f: &mut wasm_encoder::Function) {
    f.instruction(&wasm_encoder::Instruction::If(wasm_encoder::BlockType::Empty));
}

/// Relies on `wasm_encoder::Function::instruction`.
#[verifier::external_body]
fn f_end(f: &mut wasm_encoder::Function) {
    f.instruction(&wasm_encoder::Instruction::End);
}

/// Relies on `wasm_encoder::Function::instruction`.
#[verifier::external_body]
fn f_br(f: &mut wasm_encoder::Function, depth: u32) {
    f.instruction(&wasm_encoder::Instruction::Br(depth));
}

/// Relies on `wasm_encoder::Function::instruction`.
#[verifier::external_body]
fn f_br_if(f: &mut wasm_encoder::Function, depth: u32) {
    f.instruction(&wasm_encoder::Instruction::BrIf(depth));
}

/// Relies on `wasm_encoder::Function::instruction`.
#[verifier::external_body]
fn f_return(f: &mut wasm_encoder::Function) {
    f.instruction(&wasm_encoder::Instruction::Return);
}

/// Relies on `wasm_encoder::Function::instruction`.
#[verifier::external_body]
fn f_call(f: &mut wasm_encoder::Function, target: u32) {
    f.instruction(&wasm_encoder::Instruction::Call(target));
}

/// Relies on `wasm_encoder::Function::instruction`.
#[verifier::external_body]
fn f_local_get(f: &mut wasm_encoder::Function, l: u32) {
    f.instruction(&wasm_encoder::Instruction::LocalGet(l));
}

/// Relies on `wasm_encoder::Function::instruction`.
#[verifier::external_body]
fn f_local_set(f: &mut wasm_encoder::Function, l: u32) {
    f.instruction(&wasm_encoder::Instruction::LocalSet(l));
}

/// Relies on `wasm_encoder::Function::instruction`.
#[verifier::external_body]
fn f_local_tee(f: &mut wasm_encoder::Function, l: u32) {
    f.instruction(&wasm_encoder::Instruction::LocalTee(l));
}

/// Relies on `wasm_encoder::Function::instruction`.
#[verifier::external_body]
fn f_global_get(f: &mut wasm_encoder::Function, g: u32) {
    f.instruction(&wasm_encoder::Instruction::GlobalGet(g));
}

/// Relies on `wasm_encoder::Function::instruction`.
#[verifier::external_body]
fn f_global_set(f: &mut wasm_encoder::Function, g: u32) {
    f.instruction(&wasm_encoder::Instruction::GlobalSet(g));
}

/// Relies on `wasm_encoder::Function::instruction` (`i32.load` from memory
/// 0, alignment exponent 0, static offset as given).
#[verifier::external_body]
fn f_i32_load(f: &mut wasm_encoder::Function, offset: u32) {
    f.instruction(
        &wasm_encoder::Instruction::I32Load(
            wasm_encoder::MemArg { offset: offset as u64, align: 0, memory_index: 0 },
        ),
    );
}

/// Relies on `wasm_encoder::Function::instruction` (`i32.store` to memory
/// 0, alignment exponent 0, static offset as given).
#[verifier::external_body]
fn f_i32_store(f: &mut wasm_encoder::Function, offset: u32) {
    f.instruction(
        &wasm_encoder::Instruction::I32Store(
            wasm_encoder::MemArg { offset: offset as u64, align: 0, memory_index: 0 },
        ),
    );
}

/// Relies on `wasm_encoder::Function::instruction` (`memory.copy` from the
/// glue data memory, index 1, into the engine memory, index 0).
#[verifier::external_body]
fn f_memory_copy_to_engine(f: &mut wasm_encoder::Function) {
    f.instruction(
        &wasm_encoder::Instruction::MemoryCopy {
            src_mem: crate::instr::GLUE_MEMORY,
            dst_mem: crate::instr::SM_MEMORY,
        },
    );
}

/// Relies on `wasm_encoder::Function::instruction`.
#[verifier::external_body]
fn f_i32_const(f: &mut wasm_encoder::Function, v: i32) {
    f.instruction(&wasm_encoder::Instruction::I32Const(v));
}

/// Relies on `wasm_encoder::Function::instruction`.
#[verifier::external_body]
fn f_i32_eq(f: &mut wasm_encoder::Function) {
    f.instruction(&wasm_encoder::Instruction::I32Eq);
}

/// Relies on `wasm_encoder::Function::instruction`.
#[verifier::external_body]
fn f_i32_ge_u(f: &mut wasm_encoder::Function) {
    f.instruction(&wasm_encoder::Instruction::I32GeU);
}

/// Relies on `wasm_encoder::Function::instruction`.
#[verifier::external_body]
fn f_i32_add(f: &mut wasm_encoder::Function) {
    f.instruction(&wasm_encoder::Instruction::I32Add);
}

/// Relies on `wasm_encoder::Function::instruction`.
#[verifier::external_body]
fn f_i32_mul(f: &mut wasm_encoder::Function) {
    f.instruction(&wasm_encoder::Instruction::I32Mul);
}

/// Relies on `wasm_encoder::Function::instruction` (`ref.null func`).
#[verifier::external_body]
fn f_ref_null_func(f: &mut wasm_encoder::Function) {
    f.instruction(&wasm_encoder::Instruction::RefNull(wasm_encoder::HeapType::FUNC));
}

/// Relies on `wasm_encoder::Function::instruction`.
#[verifier::external_body]
fn f_ref_func(f: &mut wasm_encoder::Function, target: u32) {
    f.instruction(&wasm_encoder::Instruction::RefFunc(target));
}

/// Relies on `wasm_encoder::Function::instruction`.
#[verifier::external_body]
fn f_table_set(f: &mut wasm_encoder::Function, table: u32) {
    f.instruction(&wasm_encoder::Instruction::TableSet(table));
}

/// Relies on `wasm_encoder::Function::instruction`.
#[verifier::external_body]
fn f_table_grow(f: &mut wasm_encoder::Function, table: u32) {
    f.instruction(&wasm_encoder::Instruction::TableGrow(table));
}

/// Encode one model instruction into the body being built.
fn emit_insn(f: &mut wasm_encoder::Function, i: &Instr) {
    match i {
        Instr::Unreachable => f_unreachable(f),
        Instr::BlockStart => f_block(f),
        Instr::LoopStart => f_loop(f),
        Instr::IfStart => f_if(f),
        Instr::End => f_end(f),
        Instr::Br(d) => f_br(f, *d),
        Instr::BrIf(d) => f_br_if(f, *d),
        Instr::Ret => f_return(f),
        Instr::Call(t) => f_call(f, *t),
        Instr::LocalGet(l) => f_local_get(f, *l),
        Instr::LocalSet(l) => f_local_set(f, *l),
        Instr::LocalTee(l) => f_local_tee(f, *l),
        Instr::GlobalGet(g) => f_global_get(f, *g),
        Instr::GlobalSet(g) => f_global_set(f, *g),
        Instr::I32Load(o) => f_i32_load(f, *o),
        Instr::I32Store(o) => f_i32_store(f, *o),
        Instr::MemoryCopyToEngine => f_memory_copy_to_engine(f),
        Instr::I32Const(v) => f_i32_const(f, *v),
        Instr::I32Eq => f_i32_eq(f),
        Instr::I32GeU => f_i32_ge_u(f),
        Instr::I32Add => f_i32_add(f),
        Instr::I32Mul => f_i32_mul(f),
        Instr::RefNullFunc => f_ref_null_func(f),
        Instr::RefFunc(t) => f_ref_func(f, *t),
        Instr::TableSet(t) => f_table_set(f, *t),
        Instr::TableGrow(t) => f_table_grow(f, *t),
    }
}

/// Encode one glue body.
fn encode_body(b: &GlueBody) -> wasm_encoder::Function {
    let mut f = func_new(&b.locals);
    let mut i: usize = 0;
    while i < b.insns.len()
        decreases b.insns@.len() - i,
    {
        emit_insn(&mut f, &b.insns[i]);
        i += 1;
    }
    f
}

/// Encode the assembled module model into WebAssembly bytes, in this
/// section order: types, imports, functions, memories, globals, exports,
/// elements, code, data.
pub fn encode_module(m: &GlueModule) -> Vec<u8>
    requires
        m.engine_types@.len() <= crate::engine::SMW_COUNT,
{
    let mut types = ts_new();
    let mut i: usize = 0;
    while i < m.types.types.len()
        decreases m.types.types@.len() - i,
    {
        ts_function(&mut types, &m.types.types[i].params, &m.types.types[i].results);
        i += 1;
    }

    let mut imports = is_new();
    let mut j: usize = 0;
    while j < m.idl_imports.len()
        decreases m.idl_imports@.len() - j,
    {
        is_func(
            &mut imports,
            m.idl_imports[j].module.as_str(),
            m.idl_imports[j].name.as_str(),
            m.idl_imports[j].type_index,
        );
        j += 1;
    }
    let mut k: usize = 0;
    while k < m.engine_types.len()
        invariant
            m.engine_types@.len() <= crate::engine::SMW_COUNT,
        decreases m.engine_types@.len() - k,
    {
        is_func(&mut imports, "spidermonkey", crate::engine::smw_name(k as u32), m.engine_types[k]);
        k += 1;
    }
    is_engine_memory(&mut imports, "spidermonkey", "memory");
    is_engine_table(&mut imports, "spidermonkey", "__indirect_function_table");

    let mut funcs = fs_new();
    let mut x: usize = 0;
    while x < m.func_types.len()
        decreases m.func_types@.len() - x,
    {
        fs_function(&mut funcs, m.func_types[x]);
        x += 1;
    }

    let mut mems = ms_new();
    ms_memory(&mut mems, m.min_pages);

    let mut globals = gs_new();
    gs_retptr_global(&mut globals);

    let mut exports = es_new();
    let mut e: usize = 0;
    while e < m.exports.len()
        decreases m.exports@.len() - e,
    {
        match m.exports[e].kind {
            ExportKind::Func => es_func(&mut exports, m.exports[e].name.as_str(), m.exports[e].index),
            ExportKind::Memory => es_memory(
                &mut exports,
                m.exports[e].name.as_str(),
                m.exports[e].index,
            ),
        }
        e += 1;
    }

    let mut elems = els_new();
    let has_elems = m.elem_funcs.len() > 0;
    if has_elems {
        els_declared(&mut elems, &m.elem_funcs);
    }

    let mut code = cs_new();
    let mut c: usize = 0;
    while c < m.code.len()
        decreases m.code@.len() - c,
    {
        let f = encode_body(&m.code[c]);
        cs_function(&mut code, &f);
        c += 1;
    }

    let mut data = ds_new();
    ds_active(&mut data, crate::instr::GLUE_MEMORY, &m.data);

    let mut module = module_new();
    module_types(&mut module, &types);
    module_imports(&mut module, &imports);
    module_functions(&mut module, &funcs);
    module_memories(&mut module, &mems);
    module_globals(&mut module, &globals);
    module_exports(&mut module, &exports);
    if has_elems {
        module_elements(&mut module, &elems);
    }
    module_code(&mut module, &code);
    module_data(&mut module, &data);
    module_finish(module)
}

} // verus!
