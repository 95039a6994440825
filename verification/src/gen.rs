//! The glue-module generator: owns the growing module state (type section,
//! imports, glue bodies, exports, data arena), computes every function index
//! from the counts fixed at preprocessing time, and assembles the final
//! module model.
//!
//! The function index space is one contiguous numbering, partitioned in this
//! order: interface imports, engine imports, import-glue bodies (one per
//! interface import, same order), export-glue bodies, and last the single
//! bootstrap function.

use vstd::prelude::*;
use crate::arena::DataSegments;
use crate::bindgen::GlueBody;
use crate::engine::SMW_COUNT;
use crate::imports_map::ImportMap;
use crate::interner::TypeTable;
use crate::types::{spec_wasm_signature, Direction, IdlFunc, Interface};

verus! {

/// One interface-function import of the emitted module: imported under
/// `(module, name)` with the interned wire signature `type_index`.
#[derive(Debug)]
pub struct IdlImport {
    pub module: String,
    pub name: String,
    pub type_index: u32,
}

/// The mathematical value of an [`IdlImport`].
#[verifier::ext_equal]
pub ghost struct IdlImportView {
    pub module: Seq<char>,
    pub name: Seq<char>,
    pub type_index: u32,
}

impl View for IdlImport {
    type V = IdlImportView;

    open spec fn view(&self) -> IdlImportView {
        IdlImportView { module: self.module@, name: self.name@, type_index: self.type_index }
    }
}

/// What an export entry exports.
#[derive(Clone, Copy, Debug, PartialEq, Eq, Structural)]
pub enum ExportKind {
    Func,
    Memory,
}

/// One export of the emitted module.
#[derive(Debug)]
pub struct ExportEntry {
    pub name: String,
    pub kind: ExportKind,
    pub index: u32,
}

/// The mathematical value of an [`ExportEntry`].
#[verifier::ext_equal]
pub ghost struct ExportView {
    pub name: Seq<char>,
    pub kind: ExportKind,
    pub index: u32,
}

impl View for ExportEntry {
    type V = ExportView;

    open spec fn view(&self) -> ExportView {
        ExportView { name: self.name@, kind: self.kind, index: self.index }
    }
}

/// The number of functions over a sequence of interfaces.
pub open spec fn iface_fn_count(ifaces: Seq<Interface>) -> nat
    decreases ifaces.len(),
{
    if ifaces.len() == 0 {
        0
    } else {
        iface_fn_count(ifaces.drop_last()) + ifaces.last().functions@.len()
    }
}

pub proof fn lemma_iface_fn_count_mono(ifaces: Seq<Interface>, i: int)
    requires
        0 <= i <= ifaces.len(),
    ensures
        iface_fn_count(ifaces.take(i)) <= iface_fn_count(ifaces),
    decreases ifaces.len(),
{
    if i == ifaces.len() {
        assert(ifaces.take(i) =~= ifaces);
    } else {
        assert(ifaces.take(i) =~= ifaces.drop_last().take(i));
        lemma_iface_fn_count_mono(ifaces.drop_last(), i);
    }
}

/// The scalar count a function returns through the return-pointer area; zero
/// when it returns directly.
pub open spec fn sig_retptr_len(dir: Direction, f: IdlFunc) -> nat {
    match spec_wasm_signature(dir, f).retptr {
        Option::Some(r) => r.len(),
        Option::None => 0,
    }
}

/// The largest return-pointer scalar count over a function sequence.
pub open spec fn max_retptr_funcs(fs: Seq<IdlFunc>, dir: Direction) -> nat
    decreases fs.len(),
{
    if fs.len() == 0 {
        0
    } else {
        let rest = max_retptr_funcs(fs.drop_last(), dir);
        let last = sig_retptr_len(dir, fs.last());
        if last > rest {
            last
        } else {
            rest
        }
    }
}

/// The largest return-pointer scalar count over a sequence of interfaces.
pub open spec fn max_retptr_ifaces(ifaces: Seq<Interface>, dir: Direction) -> nat
    decreases ifaces.len(),
{
    if ifaces.len() == 0 {
        0
    } else {
        let rest = max_retptr_ifaces(ifaces.drop_last(), dir);
        let last = max_retptr_funcs(ifaces.last().functions@, dir);
        if last > rest {
            last
        } else {
            rest
        }
    }
}

/// The scratch size the preprocessing pass computes: the largest
/// return-pointer scalar count over every function in both directions.
pub open spec fn spec_scratch_size(imports: Seq<Interface>, exports: Seq<Interface>) -> nat {
    let a = max_retptr_ifaces(imports, Direction::Import);
    let b = max_retptr_ifaces(exports, Direction::Export);
    if a > b {
        a
    } else {
        b
    }
}

/// The preprocessing maximum covers every function's return-pointer need.
pub proof fn lemma_max_retptr_covers(ifaces: Seq<Interface>, dir: Direction, i: int, j: int)
    requires
        0 <= i < ifaces.len(),
        0 <= j < ifaces[i].functions@.len(),
    ensures
        sig_retptr_len(dir, ifaces[i].functions@[j]) <= max_retptr_ifaces(ifaces, dir),
    decreases ifaces.len(),
{
    if i == ifaces.len() - 1 {
        lemma_max_retptr_funcs_covers(ifaces.last().functions@, dir, j);
    } else {
        assert(ifaces.drop_last()[i] == ifaces[i]);
        lemma_max_retptr_covers(ifaces.drop_last(), dir, i, j);
    }
}

pub proof fn lemma_max_retptr_funcs_covers(fs: Seq<IdlFunc>, dir: Direction, j: int)
    requires
        0 <= j < fs.len(),
    ensures
        sig_retptr_len(dir, fs[j]) <= max_retptr_funcs(fs, dir),
    decreases fs.len(),
{
    if j == fs.len() - 1 {
    } else {
        assert(fs.drop_last()[j] == fs[j]);
        lemma_max_retptr_funcs_covers(fs.drop_last(), dir, j);
    }
}

/// The glue-module generator.
pub struct SpiderMonkeyWasm {
    /// The filename recorded for the script.
    pub js_name: String,
    /// The script source.
    pub js: String,
    /// The size of the return-pointer scratch area, in 8-byte units (one
    /// unit per return-pointer scalar, conservatively): the largest need
    /// seen so far. It never shrinks; the bootstrap allocates eight times
    /// this count in bytes.
    pub i64_return_pointer_area_size: usize,
    /// The number of interface imports, fixed by preprocessing.
    pub num_import_functions: Option<u32>,
    /// The number of interface exports, fixed by preprocessing.
    pub num_export_functions: Option<u32>,
    /// Whether the engine is imported as a two-level import group rather
    /// than embedded. Only importing is supported.
    pub import_spidermonkey: bool,
    /// The interned wire signatures: the type section.
    pub types: TypeTable,
    /// The interface-function imports, in registration order.
    pub idl_imports: Vec<IdlImport>,
    /// One glue body per interface import, same order.
    pub import_glue_fns: Vec<GlueBody>,
    /// The registry the bootstrap and the glue bodies resolve interface
    /// functions through.
    pub import_fn_name_to_index: ImportMap,
    /// The exports registered so far (one per interface export until
    /// assembly adds the fixed ones).
    pub exports: Vec<ExportEntry>,
    /// One glue body and its interned wire type per interface export.
    pub export_glue_fns: Vec<(GlueBody, u32)>,
    /// The data-segment arena backing the glue module's own memory.
    pub data_segments: DataSegments,
}

impl SpiderMonkeyWasm {
    /// Both counts are fixed: registration may begin.
    pub open spec fn preprocessed(&self) -> bool {
        self.num_import_functions is Some
    }

    /// The number of interface imports.
    pub open spec fn ni(&self) -> u32 {
        self.num_import_functions->Some_0
    }

    /// The number of interface exports.
    pub open spec fn ne(&self) -> u32 {
        self.num_export_functions->Some_0
    }

    /// The function index where import-glue bodies start.
    pub open spec fn spec_import_glue_start(&self) -> int {
        self.ni() + SMW_COUNT
    }

    /// The function index where export-glue bodies start.
    pub open spec fn spec_export_start(&self) -> int {
        self.ni() + SMW_COUNT + self.ni()
    }

    /// The bootstrap function's index: the last of the index space.
    pub open spec fn spec_bootstrap_index(&self) -> int {
        self.ni() + SMW_COUNT + self.ni() + self.ne()
    }

    /// The counts are fixed and the whole index space fits 32 bits.
    pub open spec fn counts_ok(&self) -> bool {
        &&& self.preprocessed()
        &&& self.num_export_functions is Some
        &&& self.spec_bootstrap_index() + 1 <= u32::MAX
    }

    /// The generator's invariant: the type section is duplicate-free, the
    /// counts fit the 32-bit index space, registration stays within the
    /// preprocessed counts, and every glue body respects the index-space
    /// partition.
    pub open spec fn wf(&self) -> bool {
        &&& self.types.wf()
        &&& (self.num_import_functions is Some <==> self.num_export_functions is Some)
        &&& (self.preprocessed() ==> {
            &&& self.spec_bootstrap_index() + 1 <= u32::MAX
            &&& self.idl_imports@.len() == self.import_glue_fns@.len()
            &&& self.idl_imports@.len() == self.import_fn_name_to_index.spec_total()
            &&& self.idl_imports@.len() <= self.ni()
            &&& self.import_fn_name_to_index.indices_lt(self.ni())
            &&& self.export_glue_fns@.len() <= self.ne()
            &&& self.exports@.len() == self.export_glue_fns@.len()
            &&& (forall|k: int|
                0 <= k < self.import_glue_fns@.len() ==> crate::bindgen::glue_seq_ok(
                    (#[trigger] self.import_glue_fns@[k]).insns@,
                    self.ni(),
                ))
            &&& (forall|k: int|
                0 <= k < self.idl_imports@.len() ==> (#[trigger] self.idl_imports@[k]).type_index
                    < self.types.views().len())
            &&& (forall|k: int|
                0 <= k < self.export_glue_fns@.len() ==> (#[trigger] self.export_glue_fns@[k]).1
                    < self.types.views().len())
            &&& (forall|k: int|
                0 <= k < self.export_glue_fns@.len() ==> crate::bindgen::glue_seq_ok(
                    (#[trigger] self.export_glue_fns@[k]).0.insns@,
                    self.ni(),
                ))
        })
        &&& (!self.preprocessed() ==> {
            &&& self.idl_imports@.len() == 0
            &&& self.import_glue_fns@.len() == 0
            &&& self.import_fn_name_to_index@.len() == 0
            &&& self.exports@.len() == 0
            &&& self.export_glue_fns@.len() == 0
        })
    }

    /// Construct a generator for the given script name and source.
    pub fn new(js_name: String, js: String) -> (r: Self)
        ensures
            r.js_name@ == js_name@,
            r.js@ == js@,
            r.i64_return_pointer_area_size == 0,
            r.num_import_functions is None,
            r.num_export_functions is None,
            !r.import_spidermonkey,
            r.types.views() =~= Seq::<crate::types::SigView>::empty(),
            r.idl_imports@ =~= Seq::<IdlImport>::empty(),
            r.import_glue_fns@ =~= Seq::<GlueBody>::empty(),
            r.import_fn_name_to_index@ =~= Seq::<crate::imports_map::ModuleView>::empty(),
            r.exports@ =~= Seq::<ExportEntry>::empty(),
            r.export_glue_fns@ =~= Seq::<(GlueBody, u32)>::empty(),
            r.data_segments.bytes@ =~= Seq::<u8>::empty(),
            r.wf(),
    {
        SpiderMonkeyWasm {
            js_name,
            js,
            i64_return_pointer_area_size: 0,
            num_import_functions: Option::None,
            num_export_functions: Option::None,
            import_spidermonkey: false,
            types: TypeTable::new(),
            idl_imports: Vec::new(),
            import_glue_fns: Vec::new(),
            import_fn_name_to_index: ImportMap::new(),
            exports: Vec::new(),
            export_glue_fns: Vec::new(),
            data_segments: DataSegments::new(),
        }
    }

    /// Configure how the engine is linked: `true` imports a pre-instantiated
    /// engine; `false` would embed the engine module, which this generator
    /// does not support.
    pub fn import_spidermonkey(&mut self, import: bool)
        ensures
            *final(self) == (SpiderMonkeyWasm { import_spidermonkey: import, ..*old(self) }),
    {
        self.import_spidermonkey = import;
    }

    /// The number of interface imports. Preprocessing must have run.
    pub fn witx_import_functions_len(&self) -> (r: u32)
        requires
            self.preprocessed(),
        ensures
            r == self.ni(),
    {
        match self.num_import_functions {
            Option::Some(n) => n,
            Option::None => {
                proof {
                    assert(false);
                }
                0
            },
        }
    }

    /// The function index of the `i`-th interface import.
    pub fn witx_import(&self, i: u32) -> (r: u32)
        ensures
            r == i,
    {
        i
    }

    /// The function index of the `k`-th engine import.
    pub fn spidermonkey_import(&self, k: u32) -> (r: u32)
        requires
            self.counts_ok(),
            k < SMW_COUNT,
        ensures
            r == self.ni() + k,
    {
        self.witx_import_functions_len() + k
    }

    /// The function index where import-glue bodies start.
    pub fn witx_import_glue_fns_start(&self) -> (r: u32)
        requires
            self.counts_ok(),
        ensures
            r == self.spec_import_glue_start(),
    {
        self.witx_import_functions_len() + SMW_COUNT
    }

    /// The function index of the glue body of the `i`-th interface import.
    pub fn witx_import_glue_fn(&self, i: u32) -> (r: u32)
        requires
            self.counts_ok(),
            i < self.ni(),
        ensures
            r == self.spec_import_glue_start() + i,
    {
        self.witx_import_glue_fns_start() + i
    }

    /// The function index where export-glue bodies start.
    pub fn witx_export_start(&self) -> (r: u32)
        requires
            self.counts_ok(),
        ensures
            r == self.spec_export_start(),
    {
        self.witx_import_glue_fns_start() + self.witx_import_functions_len()
    }

    /// The number of interface exports. Preprocessing must have run.
    pub fn witx_exports_len(&self) -> (r: u32)
        requires
            self.counts_ok(),
        ensures
            r == self.ne(),
    {
        match self.num_export_functions {
            Option::Some(n) => n,
            Option::None => {
                proof {
                    assert(false);
                }
                0
            },
        }
    }

    /// The function index of the glue body of the `i`-th interface export.
    pub fn witx_export(&self, i: u32) -> (r: u32)
        requires
            self.counts_ok(),
            i < self.ne(),
        ensures
            r == self.spec_export_start() + i,
    {
        self.witx_export_start() + i
    }

    /// Fix the interface counts and size the return-pointer scratch area:
    /// its size becomes the largest scalar count any function returns
    /// through it, in either direction. Must run exactly once, before any
    /// registration; at most one interface may be exported.
    pub fn preprocess_all(&mut self, imports: &Vec<Interface>, exports: &Vec<Interface>)
        requires
            old(self).wf(),
            !old(self).preprocessed(),
            exports@.len() <= 1,
            2 * iface_fn_count(imports@) + iface_fn_count(exports@) + SMW_COUNT + 1 <= u32::MAX,
        ensures
            final(self).wf(),
            final(self).preprocessed(),
            final(self).ni() == iface_fn_count(imports@),
            final(self).ne() == iface_fn_count(exports@),
            final(self).i64_return_pointer_area_size == spec_scratch_size(imports@, exports@),
            final(self).js_name == old(self).js_name,
            final(self).js == old(self).js,
            final(self).import_spidermonkey == old(self).import_spidermonkey,
            final(self).types == old(self).types,
            final(self).idl_imports == old(self).idl_imports,
            final(self).import_glue_fns == old(self).import_glue_fns,
            final(self).import_fn_name_to_index == old(self).import_fn_name_to_index,
            final(self).exports == old(self).exports,
            final(self).export_glue_fns == old(self).export_glue_fns,
            final(self).data_segments == old(self).data_segments,
    {
        let n_imp = count_functions(imports);
        let n_exp = count_functions(exports);
        self.num_import_functions = Option::Some(n_imp);
        self.num_export_functions = Option::Some(n_exp);

        let a = max_retptr_of(imports, Direction::Import);
        let b = max_retptr_of(exports, Direction::Export);
        self.i64_return_pointer_area_size = if a > b {
            a
        } else {
            b
        };
    }

    /// Per-interface preprocessing. Sizes and alignments are derived
    /// directly from the types here, so there is nothing to record.
    pub fn preprocess_one(&self, iface: &Interface, dir: Direction) {
    }

    /// Per-interface finalization. Nothing happens until every interface is
    /// registered and [`Self::finish_all`] assembles the module.
    pub fn finish_one(&self, iface: &Interface) {
    }
}

/// Count the functions over a sequence of interfaces.
fn count_functions(ifaces: &Vec<Interface>) -> (r: u32)
    requires
        iface_fn_count(ifaces@) <= u32::MAX,
    ensures
        r == iface_fn_count(ifaces@),
{
    let mut n: u32 = 0;
    let mut i: usize = 0;
    while i < ifaces.len()
        invariant
            i <= ifaces@.len(),
            n == iface_fn_count(ifaces@.take(i as int)),
        decreases ifaces@.len() - i,
    {
        proof {
            assert(ifaces@.take(i + 1).drop_last() =~= ifaces@.take(i as int));
            assert(ifaces@.take(i + 1).last() == ifaces@[i as int]);
            lemma_iface_fn_count_mono(ifaces@, i + 1);
        }
        let m = ifaces[i].functions.len();
        n = n + m as u32;
        i += 1;
    }
    proof {
        assert(ifaces@.take(ifaces@.len() as int) =~= ifaces@);
    }
    n
}

/// The largest return-pointer scalar count over the functions of `ifaces`
/// in direction `dir`.
fn max_retptr_of(ifaces: &Vec<Interface>, dir: Direction) -> (r: usize)
    ensures
        r == max_retptr_ifaces(ifaces@, dir),
{
    let mut best: usize = 0;
    let mut i: usize = 0;
    while i < ifaces.len()
        invariant
            i <= ifaces@.len(),
            best == max_retptr_ifaces(ifaces@.take(i as int), dir),
        decreases ifaces@.len() - i,
    {
        proof {
            assert(ifaces@.take(i + 1).drop_last() =~= ifaces@.take(i as int));
            assert(ifaces@.take(i + 1).last() == ifaces@[i as int]);
        }
        let fs = &ifaces[i].functions;
        let mut fbest: usize = 0;
        let mut j: usize = 0;
        while j < fs.len()
            invariant
                j <= fs@.len(),
                fbest == max_retptr_funcs(fs@.take(j as int), dir),
            decreases fs@.len() - j,
        {
            proof {
                assert(fs@.take(j + 1).drop_last() =~= fs@.take(j as int));
                assert(fs@.take(j + 1).last() == fs@[j as int]);
            }
            let sig = crate::types::wasm_signature(dir, &fs[j]);
            let l: usize = match &sig.retptr {
                Option::Some(v) => v.len(),
                Option::None => 0,
            };
            if l > fbest {
                fbest = l;
            }
            j += 1;
        }
        proof {
            assert(fs@.take(fs@.len() as int) =~= fs@);
        }
        if fbest > best {
            best = fbest;
        }
        i += 1;
    }
    proof {
        assert(ifaces@.take(ifaces@.len() as int) =~= ifaces@);
    }
    best
}

} // verus!

verus! {

impl SpiderMonkeyWasm {
    /// Register one imported interface function: add its canonical-ABI
    /// import (interning the wire signature), record it in the registry, and
    /// synthesize its import-glue body, which lowers the script arguments,
    /// calls the import, lifts the results back to script values, and
    /// releases every pending canonical-ABI allocation.
    #[verifier::rlimit(100)]
    pub fn import(&mut self, iface: &Interface, func: &IdlFunc)
        requires
            old(self).wf(),
            old(self).preprocessed(),
            old(self).idl_imports@.len() < old(self).ni(),
            old(self).import_fn_name_to_index.spec_lookup(iface.name@, func.name@) is None,
            old(self).types.views().len() < u32::MAX,
            func.params@.len() + crate::walker::tys_lower_jcost(func.params@)
                + crate::walker::tys_lift_jcost(func.results@) + crate::walker::tys_lower_lcost(
                func.params@,
            ) + crate::walker::tys_lift_lcost(func.results@) + crate::types::flatten_tys(
                func.results@,
            ).len() + crate::types::flatten_tys(func.params@).len() + 16 <= u32::MAX,
            crate::types::flatten_tys(func.results@).len() * 4 + 8 <= u32::MAX,
        ensures
            final(self).wf(),
            final(self).preprocessed(),
            final(self).ni() == old(self).ni(),
            final(self).ne() == old(self).ne(),
            final(self).idl_imports@.len() == old(self).idl_imports@.len() + 1,
            final(self).idl_imports@.drop_last() == old(self).idl_imports@,
            final(self).idl_imports@.last()@.module == iface.name@,
            final(self).idl_imports@.last()@.name == func.name@,
            final(self).idl_imports@.last().type_index < final(self).types.views().len(),
            final(self).types.views()[final(self).idl_imports@.last().type_index as int]
                == spec_wasm_signature(Direction::Import, *func),
            old(self).types.views().is_prefix_of(final(self).types.views()),
            final(self).import_fn_name_to_index.spec_lookup_entry(iface.name@, func.name@)
                == Option::Some(
                crate::imports_map::EntryView {
                    func_name: func.name@,
                    index: old(self).idl_imports@.len() as u32,
                    num_args: func.params@.len() as u32,
                },
            ),
            final(self).import_glue_fns@.len() == old(self).import_glue_fns@.len() + 1,
            final(self).import_glue_fns@.drop_last() == old(self).import_glue_fns@,
            final(self).import_glue_fns@.last().insns@ == spec_import_glue_body(
                *func,
                old(self).ni(),
                old(self).idl_imports@.len() as u32,
            ),
            final(self).i64_return_pointer_area_size >= old(self).i64_return_pointer_area_size,
            final(self).i64_return_pointer_area_size >= sig_retptr_len(
                Direction::Import,
                *func,
            ),
            (exists|k: int|
                0 <= k < func.params@.len() && crate::types::mentions_str(
                    #[trigger] func.params@[k],
                )) ==> final(self).i64_return_pointer_area_size >= 1,
            final(self).exports == old(self).exports,
            final(self).export_glue_fns == old(self).export_glue_fns,
            final(self).js_name == old(self).js_name,
            final(self).js == old(self).js,
            final(self).data_segments == old(self).data_segments,
            final(self).import_spidermonkey == old(self).import_spidermonkey,
    {
        let ghost params = func.params@;
        let ghost results = func.results@;
        let sig = crate::types::wasm_signature(Direction::Import, func);
        let type_index = self.types.intern(sig.clone());
        let import_fn_index = self.witx_import(self.idl_imports.len() as u32);
        self.idl_imports.push(
            IdlImport {
                module: clone_string(&iface.name),
                name: clone_string(&func.name),
                type_index,
            },
        );
        self.import_fn_name_to_index.insert(
            iface.name.as_str(),
            func.name.as_str(),
            import_fn_index,
            func.params.len() as u32,
        );

        let ni = self.witx_import_functions_len();
        let (body, scratch) = build_import_glue(
            &self.import_fn_name_to_index,
            iface.name.as_str(),
            func,
            ni,
            import_fn_index,
        );
        if self.i64_return_pointer_area_size < scratch {
            self.i64_return_pointer_area_size = scratch;
        }
        self.import_glue_fns.push(body);
    }
}

/// Synthesize the import-glue body for `func`, whose interface import has
/// function index `idx` among `ni` interface imports: lower the script
/// arguments, call the import, release every pending canonical-ABI
/// allocation, lift the results and return them to the script caller.
/// Returns the body — exactly [`spec_import_glue_body`] — and the scratch
/// size it needs.
#[verifier::rlimit(100)]
#[verifier::loop_isolation(true)]
fn build_import_glue(
    imports: &crate::imports_map::ImportMap,
    module: &str,
    func: &IdlFunc,
    ni: u32,
    idx: u32,
) -> (r: (crate::bindgen::GlueBody, usize))
    requires
        ni + SMW_COUNT <= u32::MAX,
        imports.spec_lookup(module@, func.name@) == Option::Some(idx),
        imports.indices_lt(ni),
        func.params@.len() + crate::walker::tys_lower_jcost(func.params@)
            + crate::walker::tys_lift_jcost(func.results@) + crate::walker::tys_lower_lcost(
            func.params@,
        ) + crate::walker::tys_lift_lcost(func.results@) + crate::types::flatten_tys(
            func.results@,
        ).len() + crate::types::flatten_tys(func.params@).len() + 16 <= u32::MAX,
        crate::types::flatten_tys(func.results@).len() * 4 + 8 <= u32::MAX,
    ensures
        r.0.insns@ == spec_import_glue_body(*func, ni, idx),
        crate::bindgen::glue_seq_ok(r.0.insns@, ni),
        r.1 >= sig_retptr_len(Direction::Import, *func),
        (exists|k: int|
            0 <= k < func.params@.len() && crate::types::mentions_str(
                #[trigger] func.params@[k],
            )) ==> r.1 >= 1,
{
        let ghost params = func.params@;
        let ghost results = func.results@;
        let sig = crate::types::wasm_signature(Direction::Import, func);
        let mut bg = crate::bindgen::Bindgen::new(
            crate::bindgen::LiftLower::LowerArgsLiftResults,
            ni,
            3,
            func.params.len() as u32,
        );
        let mut operands: Vec<crate::bindgen::Operand> = Vec::new();

        let mut nth: usize = 0;
        while nth < func.params.len()
            invariant
                params == func.params@,
                results == func.results@,
                params.len() + crate::walker::tys_lower_jcost(params)
                    + crate::walker::tys_lift_jcost(results) + crate::walker::tys_lower_lcost(
                    params,
                ) + crate::walker::tys_lift_lcost(results) + crate::types::flatten_tys(
                    results,
                ).len() + crate::types::flatten_tys(params).len() + 16 <= u32::MAX,
                nth <= params.len(),
                bg.inv(),
                bg.blocks_ok(),
                bg.lift_lower is LowerArgsLiftResults,
                bg.n_outer_params == 3,
                bg.n_imports == ni,
                bg.outer@.len() == 0,
                bg.block_results@.len() == 0,
                bg.iter_elems@.len() == 0,
                bg.iter_base_pointers@.len() == 0,
                bg.locals@.len() == crate::walker::tys_lower_lcost(params.take(nth as int)),
                bg.js_count == params.len() + crate::walker::tys_lower_jcost(
                    params.take(nth as int),
                ),
                bg.cur@ == crate::bindgen::spec_prelude(
                    crate::bindgen::LiftLower::LowerArgsLiftResults,
                    ni,
                ) + import_args_code(params, nth as int, ni),
                bg.to_free@ == import_args_frees(params, nth as int),
                operands@ == import_args_locals(params, nth as int).map_values(
                    |x: u32| crate::bindgen::Operand::Wasm(x),
                ),
                operands@.len() == crate::types::flatten_tys(params.take(nth as int)).len(),
                forall|k: int| 0 <= k < operands@.len() ==> operands@[k] is Wasm,
                (exists|k: int|
                    0 <= k < nth && crate::types::mentions_str(#[trigger] params[k]))
                    ==> bg.scratch >= 1,
            decreases params.len() - nth,
        {
            proof {
                assert(params.take(nth + 1).drop_last() =~= params.take(nth as int));
                assert(params.take(nth + 1).last() == params[nth as int]);
                assert(params.take(nth + 1) =~= params.take(nth as int).push(params[nth as int]));
                crate::types::lemma_flatten_tys_push(params.take(nth as int), params[nth as int]);
                crate::walker::lemma_tys_lower_lcost_mono(params, nth + 1);
                crate::walker::lemma_tys_lower_jcost_mono(params, nth + 1);
            }
            let ghost pre_args = operands@;
            let ghost pre_cur = bg.cur@;
            let ghost pre_frees = bg.to_free@;
            let ghost l_nth = import_arg_local(params, nth as int);
            let ghost j_nth = import_arg_slot(params, nth as int);
            bg.get_arg(nth as u32, &mut operands);
            crate::walker::lower_ty(&mut bg, &func.params[nth], false, &mut operands);
            proof {
                assert(pre_args.push(crate::bindgen::Operand::Js(nth as u32)).drop_last()
                    =~= pre_args);
                assert(operands@.take(pre_args.len() as int) == pre_args);
                assert forall|k: int| 0 <= k < operands@.len() implies operands@[k] is Wasm by {
                    if k < pre_args.len() {
                        assert(operands@[k] == operands@.take(pre_args.len() as int)[k]);
                    }
                }
                assert(bg.cur@ =~= crate::bindgen::spec_prelude(
                    crate::bindgen::LiftLower::LowerArgsLiftResults,
                    ni,
                ) + import_args_code(params, nth + 1, ni)) by {
                    assert(bg.cur@ == pre_cur + crate::walker::lower_code(
                        params[nth as int],
                        false,
                        ni,
                        l_nth,
                        j_nth,
                        nth as u32,
                    ));
                }
                assert(bg.to_free@ =~= import_args_frees(params, nth + 1)) by {
                    assert(bg.to_free@ == pre_frees + crate::walker::lower_frees(
                        params[nth as int],
                        false,
                        l_nth,
                    ));
                }
                assert(operands@ =~= import_args_locals(params, nth + 1).map_values(
                    |x: u32| crate::bindgen::Operand::Wasm(x),
                )) by {
                    assert(operands@ == pre_args + crate::walker::lower_result_locals(
                        params[nth as int],
                        l_nth,
                    ).map_values(|x: u32| crate::bindgen::Operand::Wasm(x)));
                }
            }
            nth += 1;
        }
        proof {
            assert(params.take(params.len() as int) =~= params);
        }
        let ghost np = params.len() as int;
        let ghost l_args = import_arg_local(params, np);
        let ghost j_args = import_arg_slot(params, np);
        let ghost arg_locals = import_args_locals(params, np);
        let ghost frees = import_args_frees(params, np);
        let ghost cur_args = bg.cur@;
        proof {
            assert(bg.next_local() == l_args);
            assert(bg.js_count == j_args);
        }

        let n_results = func.results.len();
        match &sig.retptr {
            Option::Some(rp) => {
                if bg.scratch < rp.len() {
                    bg.scratch = rp.len();
                }
                let ghost scratch_mid = bg.scratch;
                proof {
                    assert(sig@.retptr == Option::Some(rp@));
                    assert(scratch_mid >= sig_retptr_len(Direction::Import, *func));
                }
                let rp_len = rp.len();
                bg.i64_return_pointer_area(rp_len, &mut operands);
                let rp_local = operands[operands.len() - 1].unwrap_wasm();
                proof {
                    assert(rp_local == l_args);
                    assert(operands@ =~= arg_locals.push(l_args).map_values(
                        |x: u32| crate::bindgen::Operand::Wasm(x),
                    ));
                    assert(operands@.skip(0) =~= operands@);
                    assert(sig@.params.len() == crate::types::flatten_tys(params).len() + 1);
                }
                bg.call_wasm(
                    imports,
                    module,
                    func.name.as_str(),
                    sig.params.len(),
                    &sig.results,
                    &mut operands,
                );
                assert(operands@ =~= Seq::<crate::bindgen::Operand>::empty());
                let ghost cur_call = bg.cur@;
                proof {
                    assert(cur_call =~= cur_args + seq![
                        crate::instr::Instr::GlobalGet(crate::instr::RET_PTR_GLOBAL),
                        crate::instr::Instr::LocalSet(l_args),
                    ] + crate::bindgen::seq_local_gets(
                        arg_locals.push(l_args).map_values(
                            |x: u32| crate::bindgen::Operand::Wasm(x),
                        ),
                    ) + seq![crate::instr::Instr::Call(idx)] + crate::bindgen::seq_drain(
                        frees,
                        ni,
                    )) by {
                        assert(crate::bindgen::seq_local_sets_rev((l_args + 1) as u32, 0)
                            =~= Seq::<crate::instr::Instr>::empty());
                    }
                }

                let mut slot: u32 = 0;
                let ghost locals_base = bg.locals@.len();
                let ghost js_base = bg.js_count;
                let mut ri: usize = 0;
                while ri < n_results
                    invariant
                        params == func.params@,
                        results == func.results@,
                        params.len() + crate::walker::tys_lower_jcost(params)
                            + crate::walker::tys_lift_jcost(results)
                            + crate::walker::tys_lower_lcost(params)
                            + crate::walker::tys_lift_lcost(results) + crate::types::flatten_tys(
                            results,
                        ).len() + crate::types::flatten_tys(params).len() + 16 <= u32::MAX,
                        crate::types::flatten_tys(results).len() * 4 + 8 <= u32::MAX,
                        3 + locals_base == rp_local + 1,
                        ri <= results.len(),
                        n_results == results.len(),
                        bg.inv(),
                        bg.blocks_ok(),
                        bg.lift_lower is LowerArgsLiftResults,
                        bg.n_outer_params == 3,
                        bg.n_imports == ni,
                        bg.outer@.len() == 0,
                        bg.block_results@.len() == 0,
                        bg.iter_elems@.len() == 0,
                        bg.iter_base_pointers@.len() == 0,
                        bg.scratch >= scratch_mid,
                        slot == crate::types::flatten_tys(results.take(ri as int)).len(),
                        crate::types::flatten_tys(results.take(ri as int)).len()
                            <= crate::types::flatten_tys(results).len(),
                        locals_base == crate::walker::tys_lower_lcost(params) + 1,
                        js_base == j_args,
                        js_base == params.len() + crate::walker::tys_lower_jcost(params),
                        rp_local == l_args,
                        bg.locals@.len() == locals_base + crate::types::flatten_tys(
                            results.take(ri as int),
                        ).len() + crate::walker::tys_lift_lcost(results.take(ri as int)),
                        bg.js_count == js_base + crate::walker::tys_lift_jcost(
                            results.take(ri as int),
                        ),
                        bg.cur@ == cur_call + import_results_code(
                            results,
                            ri as int,
                            ni,
                            rp_local,
                            (rp_local + 1) as u32,
                            j_args,
                        ),
                        operands@ == import_result_slots(results, ri as int, j_args).map_values(
                            |x: u32| crate::bindgen::Operand::Js(x),
                        ),
                        operands@.len() == ri,
                        forall|k: int| 0 <= k < operands@.len() ==> operands@[k] is Js,
                    decreases n_results - ri,
                {
                    proof {
                        assert(results.take(ri + 1).drop_last() =~= results.take(ri as int));
                        assert(results.take(ri + 1).last() == results[ri as int]);
                        assert(results.take(ri + 1) =~= results.take(ri as int).push(
                            results[ri as int],
                        ));
                        crate::types::lemma_flatten_tys_push(
                            results.take(ri as int),
                            results[ri as int],
                        );
                        crate::walker::lemma_tys_lift_lcost_mono(results, ri + 1);
                        crate::walker::lemma_tys_lift_jcost_mono(results, ri + 1);
                        crate::walker::lemma_flatten_tys_mono(results, ri + 1);
                    }
                    let ghost pre_ops = operands@;
                    let ghost pre_cur = bg.cur@;
                    let ghost lld = bg.next_local();
                    let ghost w = crate::types::flatten_ty(results[ri as int]).len();
                    match &func.results[ri] {
                        crate::types::IdlType::U32 => {
                            operands.push(crate::bindgen::Operand::Wasm(rp_local));
                            bg.i32_load(4 * slot, &mut operands);
                            slot = slot + 1;
                            assert(bg.cur@ =~= pre_cur + crate::bindgen::seq_i32_load(
                                rp_local,
                                (4 * crate::types::flatten_tys(results.take(ri as int)).len())
                                    as u32,
                                lld,
                            ));
                            assert(operands@ =~= pre_ops.push(
                                crate::bindgen::Operand::Wasm(lld),
                            ));
                        },
                        _ => {
                            operands.push(crate::bindgen::Operand::Wasm(rp_local));
                            bg.i32_load(4 * slot, &mut operands);
                            operands.push(crate::bindgen::Operand::Wasm(rp_local));
                            bg.i32_load(4 * slot + 4, &mut operands);
                            slot = slot + 2;
                            assert(bg.cur@ =~= pre_cur + (crate::bindgen::seq_i32_load(
                                rp_local,
                                (4 * crate::types::flatten_tys(results.take(ri as int)).len())
                                    as u32,
                                lld,
                            ) + crate::bindgen::seq_i32_load(
                                rp_local,
                                (4 * crate::types::flatten_tys(results.take(ri as int)).len() + 4)
                                    as u32,
                                (lld + 1) as u32,
                            )));
                            assert(operands@ =~= pre_ops.push(
                                crate::bindgen::Operand::Wasm(lld),
                            ).push(crate::bindgen::Operand::Wasm((lld + 1) as u32)));
                        },
                    }
                    assert(operands@.take(pre_ops.len() as int) =~= pre_ops);
                    let ghost ops_loaded = operands@;
                    proof {
                        if w == 1 {
                            assert(Seq::new(
                                w,
                                |k: int| ops_loaded[ops_loaded.len() - w + k]->Wasm_0,
                            ) =~= seq![lld]);
                        } else {
                            assert(Seq::new(
                                w,
                                |k: int| ops_loaded[ops_loaded.len() - w + k]->Wasm_0,
                            ) =~= seq![lld, (lld + 1) as u32]);
                        }
                    }
                    crate::walker::lift_ty(&mut bg, &func.results[ri], true, &mut operands);
                    assert(operands@.drop_last() =~= pre_ops);
                    proof {
                        assert forall|k: int| 0 <= k < operands@.len() implies operands@[k] is Js by {
                            if k < operands@.len() - 1 {
                                assert(operands@[k] == operands@.drop_last()[k]);
                            }
                        }
                        assert(bg.cur@ =~= cur_call + import_results_code(
                            results,
                            ri + 1,
                            ni,
                            rp_local,
                            (rp_local + 1) as u32,
                            j_args,
                        ));
                        assert(operands@ =~= import_result_slots(results, ri + 1, j_args)
                            .map_values(|x: u32| crate::bindgen::Operand::Js(x)));
                    }
                    ri += 1;
                }
                proof {
                    assert(results.take(results.len() as int) =~= results);
                    assert(operands@.skip(0) =~= operands@);
                }
                bg.emit_return(n_results, &mut operands);
                proof {
                    assert(bg.cur@.push(crate::instr::Instr::End) =~= spec_import_glue_body(
                        *func,
                        ni,
                        idx,
                    ));
                }
            },
            Option::None => {
                let ghost scratch_mid = bg.scratch;
                proof {
                    assert(sig@.retptr is None);
                    assert(sig_retptr_len(Direction::Import, *func) == 0);
                    assert(operands@.skip(0) =~= operands@);
                    assert(sig@.params.len() == crate::types::flatten_tys(params).len());
                }
                bg.call_wasm(
                    imports,
                    module,
                    func.name.as_str(),
                    sig.params.len(),
                    &sig.results,
                    &mut operands,
                );
                let ghost cur_call = bg.cur@;
                proof {
                    crate::walker::lemma_flatten_ge_len(results);
                    assert(cur_call =~= cur_args + crate::bindgen::seq_local_gets(
                        arg_locals.map_values(|x: u32| crate::bindgen::Operand::Wasm(x)),
                    ) + seq![crate::instr::Instr::Call(idx)] + crate::bindgen::seq_local_sets_rev(
                        l_args,
                        sig@.results.len(),
                    ) + crate::bindgen::seq_drain(frees, ni));
                }
                if n_results == 1 {
                    proof {
                        assert(results.drop_first() =~= Seq::<crate::types::IdlType>::empty());
                        assert(crate::types::flatten_tys(results) == crate::types::flatten_ty(
                            results[0],
                        ) + crate::types::flatten_tys(results.drop_first()));
                        crate::walker::lemma_tys_lift_lcost_mono(results, 1);
                        crate::walker::lemma_tys_lift_jcost_mono(results, 1);
                        assert(results.take(1) =~= results);
                    }
                    proof {
                        assert(operands@ =~= seq![crate::bindgen::Operand::Wasm(l_args)]);
                        assert(Seq::new(1, |k: int| operands@[0 + k]->Wasm_0) =~= seq![l_args]);
                    }
                    crate::walker::lift_ty(&mut bg, &func.results[0], true, &mut operands);
                    assert(operands@.len() == 1);
                    proof {
                        assert(bg.cur@ =~= cur_call + crate::walker::lift_code(
                            results[0],
                            true,
                            ni,
                            (l_args + 1) as u32,
                            j_args,
                            seq![l_args],
                        ));
                        assert(operands@ =~= seq![
                            crate::bindgen::Operand::Js(
                                crate::walker::lift_result_slot(results[0], j_args),
                            ),
                        ]);
                    }
                }
                proof {
                    assert(operands@.skip(operands@.len() - n_results) =~= operands@);
                }
                bg.emit_return(n_results, &mut operands);
                proof {
                    assert(bg.cur@.push(crate::instr::Instr::End) =~= spec_import_glue_body(
                        *func,
                        ni,
                        idx,
                    ));
                }
            },
        }

        let scratch = bg.scratch;
        let body = bg.finish();
        proof {
            assert(body.insns@ =~= bg.cur@.push(crate::instr::Instr::End));
        }
        (body, scratch)
    }

/// Synthesize the export-glue body for `func` among `ni` interface
/// imports, appending the function's name to the data arena: lift the wire
/// arguments into script values, call the named script function, and lower
/// the results back to the wire. Returns the body — exactly
/// [`spec_export_glue_body`] at the arena offset where the name landed —
/// and the scratch size it needs.
#[verifier::rlimit(100)]
#[verifier::loop_isolation(true)]
fn build_export_glue(func: &IdlFunc, ni: u32, arena: &mut crate::arena::DataSegments) -> (r: (
    crate::bindgen::GlueBody,
    usize,
))
    requires
        ni + SMW_COUNT <= u32::MAX,
        vstd::utf8::encode_utf8(func.name@).len() + 1 <= u32::MAX,
        old(arena).bytes@.len() + vstd::utf8::encode_utf8(func.name@).len() <= u32::MAX,
        func.params@.len() + crate::walker::tys_lift_jcost(func.params@)
            + crate::walker::tys_lower_jcost(func.results@) + crate::walker::tys_lift_lcost(
            func.params@,
        ) + crate::walker::tys_lower_lcost(func.results@) + crate::types::flatten_tys(
            func.params@,
        ).len() + crate::types::flatten_tys(func.results@).len() + func.results@.len() + 16
            <= u32::MAX,
        crate::types::flatten_tys(func.results@).len() * 4 + 8 <= u32::MAX,
    ensures
        r.0.insns@ == spec_export_glue_body(*func, ni, old(arena).bytes@.len() as u32),
        crate::bindgen::glue_seq_ok(r.0.insns@, ni),
        final(arena).bytes@ == old(arena).bytes@ + vstd::utf8::encode_utf8(func.name@),
        r.1 >= sig_retptr_len(Direction::Export, *func),
        (exists|k: int|
            0 <= k < func.results@.len() && crate::types::mentions_str(
                #[trigger] func.results@[k],
            )) ==> r.1 >= 1,
{
        let ghost params = func.params@;
        let ghost results = func.results@;
        let sig = crate::types::wasm_signature(Direction::Export, func);
        let mut bg = crate::bindgen::Bindgen::new(
            crate::bindgen::LiftLower::LiftArgsLowerResults,
            ni,
            sig.params.len() as u32,
            0,
        );
        let mut operands: Vec<crate::bindgen::Operand> = Vec::new();
        let ghost n0 = sig@.params.len() as u32;
        proof {
            assert(bg.cur@ =~= Seq::<crate::instr::Instr>::empty());
        }

        let mut slot: u32 = 0;
        let mut nth: usize = 0;
        while nth < func.params.len()
            invariant
                params == func.params@,
                results == func.results@,
                params.len() + crate::walker::tys_lift_jcost(params)
                    + crate::walker::tys_lower_jcost(results) + crate::walker::tys_lift_lcost(
                    params,
                ) + crate::walker::tys_lower_lcost(results) + crate::types::flatten_tys(
                    params,
                ).len() + crate::types::flatten_tys(results).len() + results.len() + 16
                    <= u32::MAX,
                n0 == sig@.params.len(),
                sig@ == spec_wasm_signature(Direction::Export, *func),
                nth <= params.len(),
                bg.inv(),
                bg.blocks_ok(),
                bg.lift_lower is LiftArgsLowerResults,
                bg.n_outer_params == n0,
                bg.n_imports == ni,
                bg.outer@.len() == 0,
                bg.block_results@.len() == 0,
                bg.iter_elems@.len() == 0,
                bg.iter_base_pointers@.len() == 0,
                bg.locals@.len() == crate::walker::tys_lift_lcost(params.take(nth as int)),
                bg.js_count == crate::walker::tys_lift_jcost(params.take(nth as int)),
                bg.cur@ == export_args_code(params, nth as int, ni, n0),
                operands@ == export_arg_slots(params, nth as int).map_values(
                    |x: u32| crate::bindgen::Operand::Js(x),
                ),
                slot == crate::types::flatten_tys(params.take(nth as int)).len(),
                crate::types::flatten_tys(params.take(nth as int)).len()
                    <= crate::types::flatten_tys(params).len(),
                operands@.len() == nth,
                forall|k: int| 0 <= k < operands@.len() ==> operands@[k] is Js,
            decreases params.len() - nth,
        {
            proof {
                assert(params.take(nth + 1).drop_last() =~= params.take(nth as int));
                assert(params.take(nth + 1).last() == params[nth as int]);
                assert(params.take(nth + 1) =~= params.take(nth as int).push(params[nth as int]));
                crate::types::lemma_flatten_tys_push(params.take(nth as int), params[nth as int]);
                crate::walker::lemma_tys_lift_lcost_mono(params, nth + 1);
                crate::walker::lemma_tys_lift_jcost_mono(params, nth + 1);
                crate::walker::lemma_flatten_tys_mono(params, nth + 1);
            }
            let ghost pre_ops = operands@;
            let ghost pre_cur = bg.cur@;
            let ghost basev = slot;
            let ghost w = crate::types::flatten_ty(params[nth as int]).len();
            let ghost srcs_l: Seq<u32> = if w == 1 {
                seq![basev]
            } else {
                seq![basev, (basev + 1) as u32]
            };
            match &func.params[nth] {
                crate::types::IdlType::U32 => {
                    bg.get_arg(slot, &mut operands);
                    slot = slot + 1;
                    assert(operands@ =~= pre_ops.push(crate::bindgen::Operand::Wasm(basev)));
                },
                _ => {
                    bg.get_arg(slot, &mut operands);
                    bg.get_arg(slot + 1, &mut operands);
                    slot = slot + 2;
                    assert(operands@ =~= pre_ops.push(crate::bindgen::Operand::Wasm(basev)).push(
                        crate::bindgen::Operand::Wasm((basev + 1) as u32),
                    ));
                },
            }
            assert(operands@.take(pre_ops.len() as int) =~= pre_ops);
            let ghost ops_got = operands@;
            proof {
                assert(Seq::new(w, |k: int| ops_got[ops_got.len() - w + k]->Wasm_0) =~= srcs_l);
            }
            crate::walker::lift_ty(&mut bg, &func.params[nth], true, &mut operands);
            assert(operands@.drop_last() =~= pre_ops);
            proof {
                assert forall|k: int| 0 <= k < operands@.len() implies operands@[k] is Js by {
                    if k < operands@.len() - 1 {
                        assert(operands@[k] == operands@.drop_last()[k]);
                    }
                }
                assert(bg.cur@ =~= export_args_code(params, nth + 1, ni, n0)) by {
                    assert(bg.cur@ == pre_cur + crate::walker::lift_code(
                        params[nth as int],
                        true,
                        ni,
                        export_arg_local(params, nth as int, n0),
                        export_arg_slot(params, nth as int),
                        srcs_l,
                    ));
                }
                assert(operands@ =~= export_arg_slots(params, nth + 1).map_values(
                    |x: u32| crate::bindgen::Operand::Js(x),
                ));
            }
            nth += 1;
        }
        proof {
            assert(params.take(params.len() as int) =~= params);
        }
        let ghost np = params.len() as int;
        let ghost name_local = export_arg_local(params, np, n0);
        let ghost arg_slots = export_arg_slots(params, np);
        let ghost cur_args = bg.cur@;
        let ghost arena0 = arena.bytes@;
        let ghost name_len = vstd::utf8::encode_utf8(func.name@).len() as u32;
        proof {
            assert(bg.next_local() == name_local);
            assert(operands@.skip(0) =~= operands@);
        }

        let n_results = func.results.len();
        bg.call_interface(
            func.name.as_str(),
            func.params.len(),
            n_results,
            arena,
            &mut operands,
        );
        let ghost cur_call = bg.cur@;
        let ghost first: u32 = if n_results == 0 {
            crate::bindgen::NO_RESULT_SLOT
        } else {
            export_arg_slot(params, np)
        };
        proof {
            assert(cur_call =~= cur_args + crate::bindgen::seq_push_args(
                arg_slots.map_values(|x: u32| crate::bindgen::Operand::Js(x)),
                ni,
            ) + crate::bindgen::seq_ci_name(
                name_local,
                name_len,
                arena0.len() as u32,
                ni,
            ) + crate::bindgen::seq_ci_call(name_local, name_len, n_results as u32, first, ni));
            assert(operands@ =~= Seq::new(
                n_results as nat,
                |k: int| crate::bindgen::Operand::Js((export_arg_slot(params, np) + k) as u32),
            ));
        }

        match &sig.retptr {
            Option::Some(rp) => {
                if bg.scratch < rp.len() {
                    bg.scratch = rp.len();
                }
                let ghost scratch_mid = bg.scratch;
                proof {
                    assert(sig@.retptr == Option::Some(rp@));
                    assert(scratch_mid >= sig_retptr_len(Direction::Export, *func));
                }
                let rp_len = rp.len();
                bg.i64_return_pointer_area(rp_len, &mut operands);
                let rp_local = crate::bindgen::pop_wasm(&mut operands);
                assert(operands@.len() == n_results);
                assert(forall|k: int| 0 <= k < operands@.len() ==> operands@[k] is Js);
                let ghost cur_rp = bg.cur@;
                proof {
                    assert(n_results >= 1) by {
                        if results.len() == 0 {
                            assert(crate::types::flatten_tys(results) =~= Seq::<
                                crate::types::ValTy,
                            >::empty());
                        }
                    }
                    assert(rp_local == (name_local + 1) as u32);
                    assert(cur_rp =~= cur_call + seq![
                        crate::instr::Instr::GlobalGet(crate::instr::RET_PTR_GLOBAL),
                        crate::instr::Instr::LocalSet(rp_local),
                    ]);
                    assert(operands@ =~= Seq::new(
                        n_results as nat,
                        |k: int| crate::bindgen::Operand::Js((first + k) as u32),
                    ));
                }

                let ghost locals_base = bg.locals@.len();
                let ghost js_base = bg.js_count;
                let mut base: u32 = slot_count(&sig);
                assert(base == crate::types::flatten_tys(results).len());
                let mut ri: usize = n_results;
                proof {
                    assert(results.take(ri as int) =~= results);
                    crate::walker::lemma_flatten_tys_mono(results, ri as int);
                }
                while ri > 0
                    invariant
                        params == func.params@,
                        results == func.results@,
                        params.len() + crate::walker::tys_lift_jcost(params)
                            + crate::walker::tys_lower_jcost(results)
                            + crate::walker::tys_lift_lcost(params)
                            + crate::walker::tys_lower_lcost(results) + crate::types::flatten_tys(
                            params,
                        ).len() + crate::types::flatten_tys(results).len() + results.len() + 16
                            <= u32::MAX,
                        crate::types::flatten_tys(results).len() * 4 + 8 <= u32::MAX,
                        n0 == sig@.params.len(),
                        n0 <= crate::types::flatten_tys(params).len() + 1,
                        ri <= results.len(),
                        n_results == results.len(),
                        n_results >= 1,
                        bg.inv(),
                        bg.blocks_ok(),
                        bg.lift_lower is LiftArgsLowerResults,
                        bg.n_outer_params == n0,
                        bg.n_imports == ni,
                        bg.outer@.len() == 0,
                        bg.block_results@.len() == 0,
                        bg.iter_elems@.len() == 0,
                        bg.iter_base_pointers@.len() == 0,
                        bg.scratch >= scratch_mid,
                        (exists|k: int|
                            ri <= k < results.len() && crate::types::mentions_str(
                                #[trigger] results[k],
                            )) ==> bg.scratch >= 1,
                        base == crate::types::flatten_tys(results.take(ri as int)).len(),
                        crate::types::flatten_tys(results.take(ri as int)).len()
                            <= crate::types::flatten_tys(results).len(),
                        name_local == export_arg_local(params, params.len() as int, n0),
                        rp_local == (name_local + 1) as u32,
                        first == export_arg_slot(params, params.len() as int),
                        locals_base == crate::walker::tys_lift_lcost(params) + 2,
                        js_base == first + n_results,
                        bg.locals@.len() == locals_base + (crate::walker::tys_lower_lcost(results)
                            - crate::walker::tys_lower_lcost(results.take(ri as int))),
                        bg.js_count == js_base + (crate::walker::tys_lower_jcost(results)
                            - crate::walker::tys_lower_jcost(results.take(ri as int))),
                        bg.cur@ == cur_rp + export_results_code(
                            results,
                            ri as int,
                            ni,
                            rp_local,
                            (rp_local + 1) as u32,
                            (first + n_results) as u32,
                            first,
                        ),
                        operands@ == Seq::new(
                            ri as nat,
                            |k: int| crate::bindgen::Operand::Js((first + k) as u32),
                        ),
                        operands@.len() == ri,
                        forall|k: int| 0 <= k < operands@.len() ==> operands@[k] is Js,
                    decreases ri,
                {
                    ri -= 1;
                    proof {
                        assert(params.take(params.len() as int) =~= params);
                        assert(results.take(ri + 1).drop_last() =~= results.take(ri as int));
                        assert(results.take(ri + 1).last() == results[ri as int]);
                        assert(results.take(ri + 1) =~= results.take(ri as int).push(
                            results[ri as int],
                        ));
                        crate::types::lemma_flatten_tys_push(
                            results.take(ri as int),
                            results[ri as int],
                        );
                        crate::walker::lemma_tys_lower_lcost_mono(results, ri as int);
                        crate::walker::lemma_tys_lower_jcost_mono(results, ri as int);
                        assert(crate::walker::tys_lower_lcost(results.take(ri as int))
                            + crate::walker::ty_lower_lcost(results[ri as int])
                            == crate::walker::tys_lower_lcost(results.take(ri + 1)));
                        assert(crate::walker::tys_lower_jcost(results.take(ri as int))
                            + crate::walker::ty_lower_jcost(results[ri as int])
                            == crate::walker::tys_lower_jcost(results.take(ri + 1)));
                        crate::walker::lemma_tys_lower_lcost_mono(results, ri + 1);
                        crate::walker::lemma_tys_lower_jcost_mono(results, ri + 1);
                        crate::walker::lemma_flatten_tys_mono(results, ri as int);
                    }
                    let ghost pre_ops = operands@;
                    let ghost pre_cur = bg.cur@;
                    let ghost l_ri = bg.next_local();
                    let ghost vals = crate::walker::lower_result_locals(results[ri as int], l_ri);
                    proof {
                        assert(pre_ops.last() == crate::bindgen::Operand::Js(
                            (first + ri) as u32,
                        ));
                    }
                    crate::walker::lower_ty(&mut bg, &func.results[ri], true, &mut operands);
                    proof {
                        assert(operands@.take(pre_ops.len() - 1) == pre_ops.drop_last());
                        assert(operands@ =~= pre_ops.drop_last() + vals.map_values(
                            |x: u32| crate::bindgen::Operand::Wasm(x),
                        ));
                    }
                    match &func.results[ri] {
                        crate::types::IdlType::U32 => {
                            base = base - 1;
                            operands.push(crate::bindgen::Operand::Wasm(rp_local));
                            bg.i32_store(4 * base, &mut operands);
                            assert(bg.cur@ =~= pre_cur + crate::walker::lower_code(
                                results[ri as int],
                                true,
                                ni,
                                l_ri,
                                (first + n_results + (crate::walker::tys_lower_jcost(results)
                                    - crate::walker::tys_lower_jcost(results.take(ri + 1))))
                                    as u32,
                                (first + ri) as u32,
                            ) + crate::bindgen::seq_i32_store(
                                rp_local,
                                vals[0],
                                (4 * crate::types::flatten_tys(results.take(ri as int)).len())
                                    as u32,
                            ));
                        },
                        _ => {
                            base = base - 2;
                            operands.push(crate::bindgen::Operand::Wasm(rp_local));
                            bg.i32_store(4 * base + 4, &mut operands);
                            operands.push(crate::bindgen::Operand::Wasm(rp_local));
                            bg.i32_store(4 * base, &mut operands);
                            assert(bg.cur@ =~= pre_cur + crate::walker::lower_code(
                                results[ri as int],
                                true,
                                ni,
                                l_ri,
                                (first + n_results + (crate::walker::tys_lower_jcost(results)
                                    - crate::walker::tys_lower_jcost(results.take(ri + 1))))
                                    as u32,
                                (first + ri) as u32,
                            ) + (crate::bindgen::seq_i32_store(
                                rp_local,
                                vals[1],
                                (4 * crate::types::flatten_tys(results.take(ri as int)).len() + 4)
                                    as u32,
                            ) + crate::bindgen::seq_i32_store(
                                rp_local,
                                vals[0],
                                (4 * crate::types::flatten_tys(results.take(ri as int)).len())
                                    as u32,
                            )));
                        },
                    }
                    assert(operands@ =~= pre_ops.drop_last());
                    proof {
                        assert forall|k: int| 0 <= k < operands@.len() implies operands@[k] is Js
                        by {
                            assert(operands@[k] == pre_ops[k]);
                        }
                        assert(bg.cur@ =~= cur_rp + export_results_code(
                            results,
                            ri as int,
                            ni,
                            rp_local,
                            (rp_local + 1) as u32,
                            (first + n_results) as u32,
                            first,
                        ));
                        assert(operands@ =~= Seq::new(
                            ri as nat,
                            |k: int| crate::bindgen::Operand::Js((first + k) as u32),
                        ));
                    }
                }
                proof {
                    assert(results.take(0) =~= Seq::<crate::types::IdlType>::empty());
                }
                operands.push(crate::bindgen::Operand::Wasm(rp_local));
                proof {
                    assert(operands@ =~= seq![crate::bindgen::Operand::Wasm(rp_local)]);
                    assert(operands@.skip(0) =~= operands@);
                }
                bg.emit_return(1, &mut operands);
                proof {
                    assert(bg.cur@.push(crate::instr::Instr::End) =~= spec_export_glue_body(
                        *func,
                        ni,
                        arena0.len() as u32,
                    ));
                }
            },
            Option::None => {
                proof {
                    assert(sig@.retptr is None);
                    assert(sig_retptr_len(Direction::Export, *func) == 0);
                    crate::walker::lemma_flatten_ge_len(results);
                }
                if n_results == 1 {
                    proof {
                        assert(results.drop_first() =~= Seq::<crate::types::IdlType>::empty());
                        assert(crate::types::flatten_tys(results) == crate::types::flatten_ty(
                            results[0],
                        ) + crate::types::flatten_tys(results.drop_first()));
                        crate::walker::lemma_tys_lower_lcost_mono(results, 1);
                        crate::walker::lemma_tys_lower_jcost_mono(results, 1);
                        assert(results.take(1) =~= results);
                    }
                    proof {
                        assert(operands@ =~= seq![crate::bindgen::Operand::Js(first)]);
                        assert(results[0] is U32) by {
                            assert(crate::types::flatten_tys(results).len() == 1);
                        }
                    }
                    crate::walker::lower_ty(&mut bg, &func.results[0], true, &mut operands);
                    proof {
                        assert(bg.cur@ =~= cur_call + crate::walker::lower_code(
                            results[0],
                            true,
                            ni,
                            (name_local + 1) as u32,
                            (first + 1) as u32,
                            first,
                        ));
                        assert(operands@ =~= seq![
                            crate::bindgen::Operand::Wasm((name_local + 1) as u32),
                        ]);
                        assert(operands@.skip(0) =~= operands@);
                    }
                    bg.emit_return(1, &mut operands);
                } else {
                    proof {
                        assert(operands@ =~= Seq::<crate::bindgen::Operand>::empty());
                    }
                    bg.emit_return(0, &mut operands);
                }
                proof {
                    assert(bg.cur@.push(crate::instr::Instr::End) =~= spec_export_glue_body(
                        *func,
                        ni,
                        arena0.len() as u32,
                    ));
                }
            },
        }

        let scratch = bg.scratch;
        let body = bg.finish();
        proof {
            assert(body.insns@ =~= bg.cur@.push(crate::instr::Instr::End));
        }
        (body, scratch)
    }

/// Copy a string.
fn clone_string(s: &String) -> (r: String)
    ensures
        r@ == s@,
{
    s.as_str().to_owned()
}

} // verus!

verus! {

impl SpiderMonkeyWasm {
    /// Register one exported interface function: export its glue body under
    /// the function's name (interning the wire signature) and synthesize
    /// that body, which lifts the canonical-ABI arguments into script
    /// values, calls the named script function, and lowers the results back
    /// to the wire, through the scratch area when they do not fit the direct
    /// return slot.
    #[verifier::rlimit(100)]
    pub fn export(&mut self, iface: &Interface, func: &IdlFunc)
        requires
            old(self).wf(),
            old(self).preprocessed(),
            old(self).export_glue_fns@.len() < old(self).ne(),
            old(self).types.views().len() < u32::MAX,
            vstd::utf8::encode_utf8(func.name@).len() + 1 <= u32::MAX,
            old(self).data_segments.bytes@.len() + vstd::utf8::encode_utf8(func.name@).len()
                <= u32::MAX,
            func.params@.len() + crate::walker::tys_lift_jcost(func.params@)
                + crate::walker::tys_lower_jcost(func.results@) + crate::walker::tys_lift_lcost(
                func.params@,
            ) + crate::walker::tys_lower_lcost(func.results@) + crate::types::flatten_tys(
                func.params@,
            ).len() + crate::types::flatten_tys(func.results@).len() + func.results@.len() + 16
                <= u32::MAX,
            crate::types::flatten_tys(func.results@).len() * 4 + 8 <= u32::MAX,
        ensures
            final(self).wf(),
            final(self).preprocessed(),
            final(self).ni() == old(self).ni(),
            final(self).ne() == old(self).ne(),
            final(self).exports@.len() == old(self).exports@.len() + 1,
            final(self).exports@.drop_last() == old(self).exports@,
            final(self).exports@.last()@.name == func.name@,
            final(self).exports@.last()@.kind == ExportKind::Func,
            final(self).exports@.last()@.index == old(self).spec_export_start() + old(
                self,
            ).export_glue_fns@.len(),
            final(self).export_glue_fns@.len() == old(self).export_glue_fns@.len() + 1,
            final(self).export_glue_fns@.drop_last() == old(self).export_glue_fns@,
            final(self).export_glue_fns@.last().0.insns@ == spec_export_glue_body(
                *func,
                old(self).ni(),
                old(self).data_segments.bytes@.len() as u32,
            ),
            final(self).export_glue_fns@.last().1 < final(self).types.views().len(),
            final(self).types.views()[final(self).export_glue_fns@.last().1 as int]
                == spec_wasm_signature(Direction::Export, *func),
            old(self).types.views().is_prefix_of(final(self).types.views()),
            old(self).data_segments.bytes@.is_prefix_of(final(self).data_segments.bytes@),
            final(self).data_segments.bytes@ == old(self).data_segments.bytes@
                + vstd::utf8::encode_utf8(func.name@),
            final(self).i64_return_pointer_area_size >= old(self).i64_return_pointer_area_size,
            final(self).i64_return_pointer_area_size >= sig_retptr_len(
                Direction::Export,
                *func,
            ),
            (exists|k: int|
                0 <= k < func.results@.len() && crate::types::mentions_str(
                    #[trigger] func.results@[k],
                )) ==> final(self).i64_return_pointer_area_size >= 1,
            final(self).idl_imports == old(self).idl_imports,
            final(self).import_glue_fns == old(self).import_glue_fns,
            final(self).import_fn_name_to_index == old(self).import_fn_name_to_index,
            final(self).js_name == old(self).js_name,
            final(self).js == old(self).js,
            final(self).import_spidermonkey == old(self).import_spidermonkey,
    {
        let ghost params = func.params@;
        let ghost results = func.results@;
        let sig = crate::types::wasm_signature(Direction::Export, func);
        let type_index = self.types.intern(sig.clone());
        let export_fn_index = self.witx_export(self.export_glue_fns.len() as u32);
        self.exports.push(
            ExportEntry {
                name: clone_string(&func.name),
                kind: ExportKind::Func,
                index: export_fn_index,
            },
        );

        let ni = self.witx_import_functions_len();
        let (body, scratch) = build_export_glue(func, ni, &mut self.data_segments);
        if self.i64_return_pointer_area_size < scratch {
            self.i64_return_pointer_area_size = scratch;
        }
        self.export_glue_fns.push((body, type_index));
    }
}

/// The scalar count of a signature's return-pointer area.
fn slot_count(sig: &crate::types::WasmSignature) -> (r: u32)
    requires
        sig@.retptr is Some,
        sig@.retptr->Some_0.len() <= u32::MAX,
    ensures
        r == sig@.retptr->Some_0.len(),
{
    match &sig.retptr {
        Option::Some(v) => v.len() as u32,
        Option::None => {
            proof {
                assert(false);
            }
            0
        },
    }
}

} // verus!

verus! {

/// What any instruction of the bootstrap may do: call only engine imports,
/// reference only import-glue bodies, and touch only table 0.
pub open spec fn boot_insn_ok(i: crate::instr::Instr, ni: u32) -> bool {
    match i {
        crate::instr::Instr::Call(t) => ni <= t < ni + SMW_COUNT,
        crate::instr::Instr::RefFunc(t) => ni + SMW_COUNT <= t < ni + SMW_COUNT + ni,
        crate::instr::Instr::TableSet(t) => t == 0,
        crate::instr::Instr::TableGrow(t) => t == 0,
        _ => true,
    }
}

/// Every instruction of `s` satisfies [`boot_insn_ok`].
pub open spec fn boot_seq_ok(s: Seq<crate::instr::Instr>, ni: u32) -> bool {
    forall|k: int| 0 <= k < s.len() ==> boot_insn_ok(#[trigger] s[k], ni)
}

/// Append one instruction to a bootstrap body under construction.
fn boot_push(body: &mut Vec<crate::instr::Instr>, i: crate::instr::Instr, ni: u32)
    requires
        boot_insn_ok(i, ni),
        boot_seq_ok(old(body)@, ni),
    ensures
        final(body)@ == old(body)@.push(i),
        boot_seq_ok(final(body)@, ni),
{
    body.push(i);
    proof {
        assert forall|k: int| 0 <= k < body@.len() implies boot_insn_ok(#[trigger] body@[k], ni)
        by {
            if k < body@.len() - 1 {
                assert(body@[k] == old(body)@[k]);
            }
        }
    }
}

/// The byte count of the function names of one registry group.
pub open spec fn funcs_name_bytes(fs: Seq<crate::imports_map::EntryView>) -> nat
    decreases fs.len(),
{
    if fs.len() == 0 {
        0
    } else {
        funcs_name_bytes(fs.drop_last()) + vstd::utf8::encode_utf8(fs.last().func_name).len()
    }
}

/// The byte count of every interface and function name in the registry.
pub open spec fn modules_name_bytes(ms: Seq<crate::imports_map::ModuleView>) -> nat
    decreases ms.len(),
{
    if ms.len() == 0 {
        0
    } else {
        modules_name_bytes(ms.drop_last()) + vstd::utf8::encode_utf8(ms.last().module_name).len()
            + funcs_name_bytes(ms.last().funcs)
    }
}

pub proof fn lemma_funcs_name_bytes_mono(fs: Seq<crate::imports_map::EntryView>, j: int)
    requires
        0 <= j <= fs.len(),
    ensures
        funcs_name_bytes(fs.take(j)) <= funcs_name_bytes(fs),
    decreases fs.len(),
{
    if j == fs.len() {
        assert(fs.take(j) =~= fs);
    } else {
        assert(fs.take(j) =~= fs.drop_last().take(j));
        lemma_funcs_name_bytes_mono(fs.drop_last(), j);
    }
}

pub proof fn lemma_modules_name_bytes_mono(ms: Seq<crate::imports_map::ModuleView>, i: int)
    requires
        0 <= i <= ms.len(),
    ensures
        modules_name_bytes(ms.take(i)) <= modules_name_bytes(ms),
    decreases ms.len(),
{
    if i == ms.len() {
        assert(ms.take(i) =~= ms);
    } else {
        assert(ms.take(i) =~= ms.drop_last().take(i));
        lemma_modules_name_bytes_mono(ms.drop_last(), i);
    }
}

/// The opening of the bootstrap, before the per-interface registration:
/// run the engine's static initializers, allocate and copy the script name
/// and source, allocate the return-pointer scratch area, and bring the
/// engine up.
pub open spec fn spec_boot_prefix(
    ni: u32,
    js_name_offset: u32,
    js_name_len: u32,
    js_offset: u32,
    js_len: u32,
    scratch: u32,
) -> Seq<crate::instr::Instr> {
    seq![
        crate::instr::Instr::Call((ni + crate::engine::SMW_INITIALIZE) as u32),
        crate::instr::Instr::I32Const(js_name_len as i32),
        crate::instr::Instr::Call((ni + crate::engine::SMW_MALLOC) as u32),
        crate::instr::Instr::LocalSet(0),
        crate::instr::Instr::I32Const(js_len as i32),
        crate::instr::Instr::Call((ni + crate::engine::SMW_MALLOC) as u32),
        crate::instr::Instr::LocalSet(1),
        crate::instr::Instr::LocalGet(0),
        crate::instr::Instr::I32Const(js_name_offset as i32),
        crate::instr::Instr::I32Const(js_name_len as i32),
        crate::instr::Instr::MemoryCopyToEngine,
        crate::instr::Instr::LocalGet(1),
        crate::instr::Instr::I32Const(js_offset as i32),
        crate::instr::Instr::I32Const(js_len as i32),
        crate::instr::Instr::MemoryCopyToEngine,
        crate::instr::Instr::I32Const(scratch as i32),
        crate::instr::Instr::Call((ni + crate::engine::SMW_MALLOC) as u32),
        crate::instr::Instr::LocalSet(6),
        crate::instr::Instr::LocalGet(6),
        crate::instr::Instr::GlobalSet(crate::instr::RET_PTR_GLOBAL),
        crate::instr::Instr::Call((ni + crate::engine::SMW_INITIALIZE_ENGINE) as u32),
    ]
}

/// The closing of the bootstrap: evaluate the script.
pub open spec fn spec_boot_suffix(ni: u32, js_len: u32) -> Seq<crate::instr::Instr> {
    seq![
        crate::instr::Instr::LocalGet(0),
        crate::instr::Instr::LocalGet(1),
        crate::instr::Instr::I32Const(js_len as i32),
        crate::instr::Instr::Call((ni + crate::engine::SMW_EVAL_MODULE) as u32),
        crate::instr::Instr::End,
    ]
}

impl SpiderMonkeyWasm {
    /// Synthesize the bootstrap body: after the fixed opening it registers,
    /// for every interface that owns imported functions, a synthetic script
    /// module whose members are the import-glue trampolines, grown into the
    /// indirect function table (trapping if the grow fails), and finally
    /// evaluates the script. Also records the bootstrap's export under its
    /// well-known name.
    #[verifier::rlimit(100)]
    #[verifier::loop_isolation(true)]
    pub fn define_wizer_initialize(
        &mut self,
        js_name_offset: u32,
        js_name_len: u32,
        js_offset: u32,
        js_len: u32,
    ) -> (body: crate::bindgen::GlueBody)
        requires
            old(self).counts_ok(),
            old(self).import_fn_name_to_index.indices_lt(old(self).ni()),
            8 * old(self).i64_return_pointer_area_size <= u32::MAX,
            old(self).data_segments.bytes@.len() + modules_name_bytes(
                old(self).import_fn_name_to_index@,
            ) <= u32::MAX,
        ensures
            final(self).preprocessed(),
            final(self).ni() == old(self).ni(),
            final(self).ne() == old(self).ne(),
            *final(self) == (SpiderMonkeyWasm {
                exports: final(self).exports,
                data_segments: final(self).data_segments,
                ..*old(self)
            }),
            final(self).exports@.len() == old(self).exports@.len() + 1,
            final(self).exports@.drop_last() == old(self).exports@,
            final(self).exports@.last()@.name == "wizer.initialize"@,
            final(self).exports@.last()@.kind == ExportKind::Func,
            final(self).exports@.last()@.index == old(self).spec_bootstrap_index(),
            old(self).data_segments.bytes@.is_prefix_of(final(self).data_segments.bytes@),
            final(self).data_segments.bytes@.len() <= old(self).data_segments.bytes@.len()
                + modules_name_bytes(old(self).import_fn_name_to_index@),
            body.locals@ =~= seq![
                crate::types::ValTy::I32,
                crate::types::ValTy::I32,
                crate::types::ValTy::I32,
                crate::types::ValTy::I32,
                crate::types::ValTy::I32,
                crate::types::ValTy::I32,
                crate::types::ValTy::I32,
            ],
            boot_seq_ok(body.insns@, old(self).ni()),
            body.insns@.len() >= 26,
            body.insns@.take(21) == spec_boot_prefix(
                old(self).ni(),
                js_name_offset,
                js_name_len,
                js_offset,
                js_len,
                (8 * old(self).i64_return_pointer_area_size) as u32,
            ),
            body.insns@.skip(body.insns@.len() - 5) == spec_boot_suffix(
                old(self).ni(),
                js_len,
            ),
            body.insns@ == spec_boot_prefix(
                old(self).ni(),
                js_name_offset,
                js_name_len,
                js_offset,
                js_len,
                (8 * old(self).i64_return_pointer_area_size) as u32,
            ) + spec_boot_modules(
                old(self).import_fn_name_to_index@,
                old(self).import_fn_name_to_index@.len() as int,
                old(self).ni(),
                old(self).data_segments.bytes@.len() as int,
            ) + spec_boot_suffix(old(self).ni(), js_len),
    {
        let ni = self.witx_import_functions_len();
        let ghost ms = self.import_fn_name_to_index@;
        let ghost arena0 = self.data_segments.bytes@;

        let wizer_init_index = self.witx_export_start() + self.witx_exports_len();

        let mut body: Vec<crate::instr::Instr> = Vec::new();
        boot_push(&mut body, crate::instr::Instr::Call(ni + crate::engine::SMW_INITIALIZE), ni);
        boot_push(
            &mut body,
            crate::instr::Instr::I32Const(#[verifier::truncate] (js_name_len as i32)),
            ni,
        );
        boot_push(&mut body, crate::instr::Instr::Call(ni + crate::engine::SMW_MALLOC), ni);
        boot_push(&mut body, crate::instr::Instr::LocalSet(0), ni);
        boot_push(
            &mut body,
            crate::instr::Instr::I32Const(#[verifier::truncate] (js_len as i32)),
            ni,
        );
        boot_push(&mut body, crate::instr::Instr::Call(ni + crate::engine::SMW_MALLOC), ni);
        boot_push(&mut body, crate::instr::Instr::LocalSet(1), ni);
        boot_push(&mut body, crate::instr::Instr::LocalGet(0), ni);
        boot_push(
            &mut body,
            crate::instr::Instr::I32Const(#[verifier::truncate] (js_name_offset as i32)),
            ni,
        );
        boot_push(
            &mut body,
            crate::instr::Instr::I32Const(#[verifier::truncate] (js_name_len as i32)),
            ni,
        );
        boot_push(&mut body, crate::instr::Instr::MemoryCopyToEngine, ni);
        boot_push(&mut body, crate::instr::Instr::LocalGet(1), ni);
        boot_push(
            &mut body,
            crate::instr::Instr::I32Const(#[verifier::truncate] (js_offset as i32)),
            ni,
        );
        boot_push(
            &mut body,
            crate::instr::Instr::I32Const(#[verifier::truncate] (js_len as i32)),
            ni,
        );
        boot_push(&mut body, crate::instr::Instr::MemoryCopyToEngine, ni);
        let scratch: u32 = 8 * (self.i64_return_pointer_area_size as u32);
        boot_push(
            &mut body,
            crate::instr::Instr::I32Const(#[verifier::truncate] (scratch as i32)),
            ni,
        );
        boot_push(&mut body, crate::instr::Instr::Call(ni + crate::engine::SMW_MALLOC), ni);
        boot_push(&mut body, crate::instr::Instr::LocalSet(6), ni);
        boot_push(&mut body, crate::instr::Instr::LocalGet(6), ni);
        boot_push(&mut body, crate::instr::Instr::GlobalSet(crate::instr::RET_PTR_GLOBAL), ni);
        boot_push(
            &mut body,
            crate::instr::Instr::Call(ni + crate::engine::SMW_INITIALIZE_ENGINE),
            ni,
        );
        assert(body@ =~= spec_boot_prefix(
            ni,
            js_name_offset,
            js_name_len,
            js_offset,
            js_len,
            scratch,
        ));
        let ghost prefix = body@;

        let n_modules = self.import_fn_name_to_index.modules.len();
        let mut i: usize = 0;
        while i < n_modules
            invariant
                *self == (SpiderMonkeyWasm { data_segments: self.data_segments, ..*old(self) }),
                ms == self.import_fn_name_to_index@,
                n_modules == self.import_fn_name_to_index.modules@.len(),
                n_modules == ms.len(),
                i <= n_modules,
                self.counts_ok(),
                ni == self.ni(),
                self.import_fn_name_to_index.indices_lt(ni),
                arena0.len() + modules_name_bytes(ms) <= u32::MAX,
                boot_seq_ok(body@, ni),
                prefix.is_prefix_of(body@),
                body@ == prefix + spec_boot_modules(ms, i as int, ni, arena0.len() as int),
                self.data_segments.bytes@.len() == arena0.len() + modules_name_bytes(
                    ms.take(i as int),
                ),
                arena0.is_prefix_of(self.data_segments.bytes@),
            decreases n_modules - i,
        {
            proof {
                assert(ms.take(i + 1).drop_last() =~= ms.take(i as int));
                assert(ms.take(i + 1).last() == ms[i as int]);
                lemma_modules_name_bytes_mono(ms, i + 1);
            }
            let m_name_len = self.import_fn_name_to_index.modules[i].module_name.as_str().len();
            boot_push(
                &mut body,
                crate::instr::Instr::I32Const(#[verifier::truncate] (m_name_len as u32 as i32)),
                ni,
            );
            boot_push(&mut body, crate::instr::Instr::Call(ni + crate::engine::SMW_MALLOC), ni);
            boot_push(&mut body, crate::instr::Instr::LocalSet(2), ni);
            let module_offset = self.data_segments.add(
                self.import_fn_name_to_index.modules[i].module_name.as_str().as_bytes(),
            );
            boot_push(&mut body, crate::instr::Instr::LocalGet(2), ni);
            boot_push(
                &mut body,
                crate::instr::Instr::I32Const(#[verifier::truncate] (module_offset as i32)),
                ni,
            );
            boot_push(
                &mut body,
                crate::instr::Instr::I32Const(#[verifier::truncate] (m_name_len as u32 as i32)),
                ni,
            );
            boot_push(&mut body, crate::instr::Instr::MemoryCopyToEngine, ni);
            boot_push(&mut body, crate::instr::Instr::LocalGet(2), ni);
            boot_push(
                &mut body,
                crate::instr::Instr::I32Const(#[verifier::truncate] (m_name_len as u32 as i32)),
                ni,
            );
            boot_push(
                &mut body,
                crate::instr::Instr::Call(ni + crate::engine::SMW_NEW_MODULE_BUILDER),
                ni,
            );
            boot_push(&mut body, crate::instr::Instr::LocalSet(3), ni);

            let n_funcs = self.import_fn_name_to_index.modules[i].funcs.len();
            boot_push(&mut body, crate::instr::Instr::RefNullFunc, ni);
            boot_push(
                &mut body,
                crate::instr::Instr::I32Const(#[verifier::truncate] (n_funcs as u32 as i32)),
                ni,
            );
            boot_push(&mut body, crate::instr::Instr::TableGrow(0), ni);
            boot_push(&mut body, crate::instr::Instr::LocalTee(4), ni);
            boot_push(&mut body, crate::instr::Instr::I32Const(-1), ni);
            boot_push(&mut body, crate::instr::Instr::I32Eq, ni);
            boot_push(&mut body, crate::instr::Instr::IfStart, ni);
            boot_push(&mut body, crate::instr::Instr::Unreachable, ni);
            boot_push(&mut body, crate::instr::Instr::End, ni);

            let ghost pre_mod = prefix + spec_boot_modules(ms, i as int, ni, arena0.len() as int);
            let ghost off_mod = arena0.len() as int + modules_name_bytes(ms.take(i as int));
            let ghost cur_mod = body@;
            proof {
                assert(cur_mod =~= pre_mod + spec_boot_module(ms[i as int], ni, off_mod).take(20));
            }
            let ghost fsv = ms[i as int].funcs;
            let ghost off_funcs = off_mod + vstd::utf8::encode_utf8(
                ms[i as int].module_name,
            ).len() as int;
            let mut j: usize = 0;
            while j < n_funcs
                invariant
                    *self == (SpiderMonkeyWasm {
                        data_segments: self.data_segments,
                        ..*old(self)
                    }),
                    ms == self.import_fn_name_to_index@,
                    n_modules == self.import_fn_name_to_index.modules@.len(),
                    i < n_modules,
                    n_modules == ms.len(),
                    fsv == ms[i as int].funcs,
                    n_funcs == fsv.len(),
                    j <= n_funcs,
                    self.counts_ok(),
                    ni == self.ni(),
                    self.import_fn_name_to_index.indices_lt(ni),
                    arena0.len() + modules_name_bytes(ms) <= u32::MAX,
                    off_mod == arena0.len() as int + modules_name_bytes(ms.take(i as int)),
                    boot_seq_ok(body@, ni),
                    prefix.is_prefix_of(body@),
                    cur_mod == prefix + spec_boot_modules(ms, i as int, ni, arena0.len() as int)
                        + spec_boot_module(
                        ms[i as int],
                        ni,
                        arena0.len() as int + modules_name_bytes(ms.take(i as int)),
                    ).take(20),
                    off_funcs == arena0.len() as int + modules_name_bytes(ms.take(i as int))
                        + vstd::utf8::encode_utf8(ms[i as int].module_name).len(),
                    body@ == cur_mod + spec_boot_funcs(fsv, j as int, ni, off_funcs),
                    self.data_segments.bytes@.len() == off_funcs + funcs_name_bytes(
                        fsv.take(j as int),
                    ),
                    arena0.is_prefix_of(self.data_segments.bytes@),
                decreases n_funcs - j,
            {
                proof {
                    assert(fsv.take(j + 1).drop_last() =~= fsv.take(j as int));
                    assert(fsv.take(j + 1).last() == fsv[j as int]);
                    lemma_funcs_name_bytes_mono(fsv, j + 1);
                    lemma_modules_name_bytes_mono(ms, i + 1);
                    lemma_modules_name_bytes_step(ms, i as int);
                }
                let f_name_len =
                    self.import_fn_name_to_index.modules[i].funcs[j].func_name.as_str().len();
                boot_push(
                    &mut body,
                    crate::instr::Instr::I32Const(
                        #[verifier::truncate] (f_name_len as u32 as i32),
                    ),
                    ni,
                );
                boot_push(
                    &mut body,
                    crate::instr::Instr::Call(ni + crate::engine::SMW_MALLOC),
                    ni,
                );
                boot_push(&mut body, crate::instr::Instr::LocalSet(5), ni);
                let func_name_offset = self.data_segments.add(
                    self.import_fn_name_to_index.modules[i].funcs[j].func_name.as_str().as_bytes(),
                );
                boot_push(&mut body, crate::instr::Instr::LocalGet(5), ni);
                boot_push(
                    &mut body,
                    crate::instr::Instr::I32Const(#[verifier::truncate] (func_name_offset as i32)),
                    ni,
                );
                boot_push(
                    &mut body,
                    crate::instr::Instr::I32Const(
                        #[verifier::truncate] (f_name_len as u32 as i32),
                    ),
                    ni,
                );
                boot_push(&mut body, crate::instr::Instr::MemoryCopyToEngine, ni);

                let func_index = self.import_fn_name_to_index.modules[i].funcs[j].index;
                assert(func_index < ni);
                let glue_func_index = self.witx_import_glue_fn(func_index);
                boot_push(
                    &mut body,
                    crate::instr::Instr::I32Const(#[verifier::truncate] (j as u32 as i32)),
                    ni,
                );
                boot_push(&mut body, crate::instr::Instr::LocalGet(4), ni);
                boot_push(&mut body, crate::instr::Instr::I32Add, ni);
                boot_push(&mut body, crate::instr::Instr::RefFunc(glue_func_index), ni);
                boot_push(&mut body, crate::instr::Instr::TableSet(0), ni);

                let num_args = self.import_fn_name_to_index.modules[i].funcs[j].num_args;
                boot_push(&mut body, crate::instr::Instr::LocalGet(3), ni);
                boot_push(&mut body, crate::instr::Instr::LocalGet(5), ni);
                boot_push(
                    &mut body,
                    crate::instr::Instr::I32Const(
                        #[verifier::truncate] (f_name_len as u32 as i32),
                    ),
                    ni,
                );
                boot_push(
                    &mut body,
                    crate::instr::Instr::I32Const(#[verifier::truncate] (j as u32 as i32)),
                    ni,
                );
                boot_push(&mut body, crate::instr::Instr::LocalGet(4), ni);
                boot_push(&mut body, crate::instr::Instr::I32Add, ni);
                boot_push(
                    &mut body,
                    crate::instr::Instr::I32Const(#[verifier::truncate] (num_args as i32)),
                    ni,
                );
                boot_push(
                    &mut body,
                    crate::instr::Instr::Call(ni + crate::engine::SMW_MODULE_BUILDER_ADD_EXPORT),
                    ni,
                );
                proof {
                    assert(body@ =~= cur_mod + spec_boot_funcs(fsv, j + 1, ni, off_funcs)) by {
                        assert(spec_boot_funcs(fsv, j + 1, ni, off_funcs) == spec_boot_funcs(
                            fsv,
                            j as int,
                            ni,
                            off_funcs,
                        ) + spec_boot_func(
                            fsv[j as int],
                            j as int,
                            (off_funcs + funcs_name_bytes(fsv.take(j as int))) as u32,
                            ni,
                        ));
                    }
                }
                j += 1;
            }

            boot_push(&mut body, crate::instr::Instr::LocalGet(3), ni);
            boot_push(
                &mut body,
                crate::instr::Instr::Call(ni + crate::engine::SMW_FINISH_MODULE_BUILDER),
                ni,
            );
            proof {
                assert(fsv.take(fsv.len() as int) =~= fsv);
                lemma_modules_name_bytes_step(ms, i as int);
                lemma_boot_module_decompose(ms[i as int], ni, off_mod);
                assert(self.data_segments.bytes@.len() == arena0.len() + modules_name_bytes(
                    ms.take(i + 1),
                ));
                assert(body@ =~= prefix + spec_boot_modules(ms, i + 1, ni, arena0.len() as int))
                    by {
                    assert(spec_boot_modules(ms, i + 1, ni, arena0.len() as int)
                        == spec_boot_modules(ms, i as int, ni, arena0.len() as int)
                        + spec_boot_module(ms[i as int], ni, off_mod));
                }
            }
            i += 1;
        }
        proof {
            assert(ms.take(ms.len() as int) =~= ms);
        }

        boot_push(&mut body, crate::instr::Instr::LocalGet(0), ni);
        boot_push(&mut body, crate::instr::Instr::LocalGet(1), ni);
        boot_push(
            &mut body,
            crate::instr::Instr::I32Const(#[verifier::truncate] (js_len as i32)),
            ni,
        );
        boot_push(&mut body, crate::instr::Instr::Call(ni + crate::engine::SMW_EVAL_MODULE), ni);
        boot_push(&mut body, crate::instr::Instr::End, ni);
        assert(body@ =~= spec_boot_prefix(
            ni,
            js_name_offset,
            js_name_len,
            js_offset,
            js_len,
            scratch,
        ) + spec_boot_modules(ms, ms.len() as int, ni, arena0.len() as int) + spec_boot_suffix(
            ni,
            js_len,
        ));
        assert(body@.skip(body@.len() - 5) =~= spec_boot_suffix(ni, js_len));
        assert(body@.take(21) =~= spec_boot_prefix(
            ni,
            js_name_offset,
            js_name_len,
            js_offset,
            js_len,
            scratch,
        ));

        self.exports.push(
            ExportEntry {
                name: wizer_name(),
                kind: ExportKind::Func,
                index: wizer_init_index,
            },
        );

        let mut locals: Vec<crate::types::ValTy> = Vec::new();
        let mut k: usize = 0;
        while k < 7
            invariant
                k <= 7,
                locals@ =~= Seq::new(k as nat, |x: int| crate::types::ValTy::I32),
            decreases 7 - k,
        {
            locals.push(crate::types::ValTy::I32);
            assert(locals@ =~= Seq::new((k + 1) as nat, |x: int| crate::types::ValTy::I32));
            k += 1;
        }
        assert(locals@ =~= seq![
            crate::types::ValTy::I32,
            crate::types::ValTy::I32,
            crate::types::ValTy::I32,
            crate::types::ValTy::I32,
            crate::types::ValTy::I32,
            crate::types::ValTy::I32,
            crate::types::ValTy::I32,
        ]);
        crate::bindgen::GlueBody { locals, insns: body }
    }
}

/// The well-known name of the bootstrap export. The embedding host must
/// invoke it exactly once, before any other export.
pub fn wizer_name() -> (r: String)
    ensures
        r@ == "wizer.initialize"@,
{
    let s: &str = "wizer.initialize";
    s.to_owned()
}

} // verus!

verus! {

/// The assembled glue module, as library data: everything the binary
/// encoding needs, section by section. The fixed parts of the module — the
/// engine's memory and indirect function table imported under
/// `spidermonkey`, the glue module's own data memory, and the single mutable
/// `i32` return-pointer global initialized to zero — carry no fields here;
/// the encoder emits them from the counts.
#[derive(Debug)]
pub struct GlueModule {
    /// The type section: the interned wire signatures, in order.
    pub types: crate::interner::TypeTable,
    /// The interface-function imports, first in the import section and in
    /// the function index space.
    pub idl_imports: Vec<IdlImport>,
    /// The type index of each engine import, in engine-descriptor order;
    /// these follow the interface imports in both sections.
    pub engine_types: Vec<u32>,
    /// The function section: the type index of every defined function, in
    /// index order (import glue, export glue, bootstrap).
    pub func_types: Vec<u32>,
    /// The code section: one body per defined function, same order.
    pub code: Vec<crate::bindgen::GlueBody>,
    /// The least page count spanning the data segment.
    pub min_pages: u64,
    /// The export section, in order.
    pub exports: Vec<ExportEntry>,
    /// The declared element segment making the import-glue bodies
    /// reference-able; empty when there are no imports.
    pub elem_funcs: Vec<u32>,
    /// The data segment: the arena's bytes, active in the glue memory at
    /// offset zero.
    pub data: Vec<u8>,
    /// The number of interface imports.
    pub n_imports: u32,
    /// The number of interface exports.
    pub n_exports: u32,
}

/// The structural law of an assembled module: the code section holds one
/// body per glue function plus the bootstrap; every glue body calls only
/// interface imports or engine imports other than the engine's startup
/// routine; the bootstrap calls only engine imports and references only
/// import-glue bodies; the element segment lists exactly the import-glue
/// range.
pub open spec fn module_wf(m: GlueModule) -> bool {
    &&& m.n_imports + SMW_COUNT + m.n_imports + m.n_exports + 1 <= u32::MAX
    &&& m.code@.len() == m.n_imports + m.n_exports + 1
    &&& (forall|k: int|
        0 <= k < m.code@.len() - 1 ==> crate::bindgen::glue_seq_ok(
            (#[trigger] m.code@[k]).insns@,
            m.n_imports,
        ))
    &&& boot_seq_ok(m.code@.last().insns@, m.n_imports)
    &&& (forall|k: int|
        0 <= k < m.elem_funcs@.len() ==> #[trigger] m.elem_funcs@[k] == m.n_imports + SMW_COUNT
            + k)
    &&& m.elem_funcs@.len() == m.n_imports
    &&& m.func_types@.len() == m.code@.len()
    &&& (forall|k: int|
        0 <= k < m.func_types@.len() ==> #[trigger] m.func_types@[k] < m.types.views().len())
    &&& (forall|k: int|
        0 <= k < m.idl_imports@.len() ==> (#[trigger] m.idl_imports@[k]).type_index
            < m.types.views().len())
    &&& m.engine_types@.len() == SMW_COUNT
    &&& (forall|k: int|
        0 <= k < m.engine_types@.len() ==> #[trigger] m.engine_types@[k]
            < m.types.views().len())
    &&& m.types.wf()
}

/// The total function count of the assembled module's index space.
pub open spec fn module_total_funcs(m: GlueModule) -> int {
    m.n_imports + SMW_COUNT + m.n_imports + m.n_exports + 1
}

/// The wire signature of a script-native function: the shape every
/// import-glue body has.
pub open spec fn spec_js_native_sig() -> crate::types::SigView {
    crate::types::SigView {
        params: seq![
            crate::types::ValTy::I32,
            crate::types::ValTy::I32,
            crate::types::ValTy::I32,
        ],
        results: seq![crate::types::ValTy::I32],
        retptr: Option::None,
    }
}

/// The wire signature of the bootstrap: no parameters, no results.
pub open spec fn spec_void_sig() -> crate::types::SigView {
    crate::types::SigView {
        params: Seq::empty(),
        results: Seq::empty(),
        retptr: Option::None,
    }
}

impl SpiderMonkeyWasm {
    /// Assemble the module model. Every preprocessed function must have been
    /// registered; the engine must be linked by import (embedding is not
    /// supported). Consumes the accumulated state: the generator must not be
    /// used afterwards.
    #[verifier::rlimit(100)]
    pub fn finish_module(&mut self) -> (m: GlueModule)
        requires
            old(self).wf(),
            old(self).preprocessed(),
            old(self).import_spidermonkey,
            old(self).idl_imports@.len() == old(self).ni(),
            old(self).export_glue_fns@.len() == old(self).ne(),
            old(self).types.views().len() + SMW_COUNT + 2 <= u32::MAX,
            8 * old(self).i64_return_pointer_area_size <= u32::MAX,
            old(self).data_segments.bytes@.len() + vstd::utf8::encode_utf8(
                old(self).js_name@,
            ).len() + vstd::utf8::encode_utf8(old(self).js@).len() + modules_name_bytes(
                old(self).import_fn_name_to_index@,
            ) <= u32::MAX,
            vstd::utf8::encode_utf8(old(self).js_name@).len() <= u32::MAX,
            vstd::utf8::encode_utf8(old(self).js@).len() <= u32::MAX,
        ensures
            module_wf(m),
            m.n_imports == old(self).ni(),
            m.n_exports == old(self).ne(),
            m.idl_imports == old(self).idl_imports,
            old(self).types.views().is_prefix_of(m.types.views()),
            (forall|k: int|
                0 <= k < SMW_COUNT ==> m.types.views()[#[trigger] m.engine_types@[k] as int]
                    == crate::engine::spec_smw_sig(k as u32)),
            m.code@.len() == old(self).ni() + old(self).ne() + 1,
            m.code@.take(old(self).ni() as int) == old(self).import_glue_fns@,
            (forall|k: int|
                0 <= k < old(self).ne() ==> m.code@[old(self).ni() + k] == (#[trigger] old(
                    self,
                ).export_glue_fns@[k]).0),
            (forall|k: int|
                0 <= k < old(self).ni() ==> m.types.views()[#[trigger] m.func_types@[k] as int]
                    == spec_js_native_sig()),
            (forall|k: int|
                0 <= k < old(self).ne() ==> m.func_types@[old(self).ni() + k] == (#[trigger] old(
                    self,
                ).export_glue_fns@[k]).1),
            m.types.views()[m.func_types@.last() as int] == spec_void_sig(),
            m.exports@.len() == old(self).exports@.len() + 4,
            m.exports@.take(old(self).exports@.len() as int) == old(self).exports@,
            m.exports@[old(self).exports@.len() as int]@ == (ExportView {
                name: "memory"@,
                kind: ExportKind::Memory,
                index: crate::instr::SM_MEMORY,
            }),
            m.exports@[old(self).exports@.len() as int + 1]@ == (ExportView {
                name: "canonical_abi_free"@,
                kind: ExportKind::Func,
                index: (old(self).ni() + crate::engine::SMW_CANONICAL_ABI_FREE) as u32,
            }),
            m.exports@[old(self).exports@.len() as int + 2]@ == (ExportView {
                name: "canonical_abi_realloc"@,
                kind: ExportKind::Func,
                index: (old(self).ni() + crate::engine::SMW_CANONICAL_ABI_REALLOC) as u32,
            }),
            m.exports@[old(self).exports@.len() as int + 3]@ == (ExportView {
                name: "wizer.initialize"@,
                kind: ExportKind::Func,
                index: old(self).spec_bootstrap_index() as u32,
            }),
            old(self).data_segments.bytes@.is_prefix_of(m.data@),
            m.data@.subrange(
                old(self).data_segments.bytes@.len() as int,
                old(self).data_segments.bytes@.len() as int + vstd::utf8::encode_utf8(
                    old(self).js_name@,
                ).len() as int,
            ) == vstd::utf8::encode_utf8(old(self).js_name@),
            m.min_pages == crate::arena::spec_min_pages(m.data@.len() as nat),
            m.code@.last().insns@.take(21) == spec_boot_prefix(
                old(self).ni(),
                old(self).data_segments.bytes@.len() as u32,
                vstd::utf8::encode_utf8(old(self).js_name@).len() as u32,
                (old(self).data_segments.bytes@.len() + vstd::utf8::encode_utf8(
                    old(self).js_name@,
                ).len()) as u32,
                vstd::utf8::encode_utf8(old(self).js@).len() as u32,
                (8 * old(self).i64_return_pointer_area_size) as u32,
            ),
    {
        let ni = self.witx_import_functions_len();
        let ne = self.witx_exports_len();

        let mut engine_types: Vec<u32> = Vec::new();
        let mut k: usize = 0;
        while k < SMW_COUNT as usize
            invariant
                k <= SMW_COUNT,
                *self == (SpiderMonkeyWasm { types: self.types, ..*old(self) }),
                self.types.wf(),
                old(self).types.views().is_prefix_of(self.types.views()),
                self.types.views().len() <= old(self).types.views().len() + k,
                engine_types@.len() == k,
                forall|x: int|
                    0 <= x < k ==> #[trigger] engine_types@[x] < self.types.views().len()
                        && self.types.views()[engine_types@[x] as int]
                        == crate::engine::spec_smw_sig(x as u32),
            decreases SMW_COUNT - k,
        {
            let sig = crate::engine::smw_sig(k as u32);
            let ghost pre = self.types.views();
            let ti = self.types.intern(sig);
            proof {
                if pre.contains(crate::engine::spec_smw_sig(k as u32)) {
                    assert(self.types.views() == pre);
                } else {
                    assert(self.types.views() == pre.push(crate::engine::spec_smw_sig(k as u32)));
                    assert(pre.is_prefix_of(self.types.views())) by {
                        assert(self.types.views().take(pre.len() as int) =~= pre);
                    }
                }
            }
            engine_types.push(ti);
            k += 1;
        }

        let mut jn_params: Vec<crate::types::ValTy> = Vec::new();
        jn_params.push(crate::types::ValTy::I32);
        jn_params.push(crate::types::ValTy::I32);
        jn_params.push(crate::types::ValTy::I32);
        let mut jn_results: Vec<crate::types::ValTy> = Vec::new();
        jn_results.push(crate::types::ValTy::I32);
        let js_native = crate::types::WasmSignature {
            params: jn_params,
            results: jn_results,
            retptr: Option::None,
        };
        assert(js_native@ =~= spec_js_native_sig());
        let ghost pre1 = self.types.views();
        let js_native_ti = self.types.intern(js_native);
        proof {
            lemma_intern_prefix(pre1, self.types.views(), spec_js_native_sig());
        }
        let void_sig = crate::types::WasmSignature {
            params: Vec::new(),
            results: Vec::new(),
            retptr: Option::None,
        };
        assert(void_sig@ =~= spec_void_sig());
        let ghost pre2 = self.types.views();
        let void_ti = self.types.intern(void_sig);
        proof {
            lemma_intern_prefix(pre2, self.types.views(), spec_void_sig());
        }

        let free_idx = self.spidermonkey_import(crate::engine::SMW_CANONICAL_ABI_FREE);
        let realloc_idx = self.spidermonkey_import(crate::engine::SMW_CANONICAL_ABI_REALLOC);
        let mem_str: &str = "memory";
        let free_str: &str = "canonical_abi_free";
        let realloc_str: &str = "canonical_abi_realloc";
        self.exports.push(
            ExportEntry {
                name: mem_str.to_owned(),
                kind: ExportKind::Memory,
                index: crate::instr::SM_MEMORY,
            },
        );
        self.exports.push(
            ExportEntry {
                name: free_str.to_owned(),
                kind: ExportKind::Func,
                index: free_idx,
            },
        );
        self.exports.push(
            ExportEntry {
                name: realloc_str.to_owned(),
                kind: ExportKind::Func,
                index: realloc_idx,
            },
        );

        let js_name_offset = self.data_segments.add(self.js_name.as_str().as_bytes());
        let js_name_len = self.js_name.as_str().len() as u32;
        let js_offset = self.data_segments.add(self.js.as_str().as_bytes());
        let js_len = self.js.as_str().len() as u32;
        let ghost arena2 = self.data_segments.bytes@;

        let boot = self.define_wizer_initialize(js_name_offset, js_name_len, js_offset, js_len);

        let mut func_types: Vec<u32> = Vec::new();
        let mut code: Vec<crate::bindgen::GlueBody> = Vec::new();
        let mut import_glue: Vec<crate::bindgen::GlueBody> = Vec::new();
        core::mem::swap(&mut import_glue, &mut self.import_glue_fns);
        let ghost ig = import_glue@;
        let mut i: usize = 0;
        let n_ig = import_glue.len();
        while i < n_ig
            invariant
                n_ig == ig.len(),
                i <= n_ig,
                import_glue@ == ig.skip(i as int),
                code@ == ig.take(i as int),
                func_types@.len() == i,
                forall|x: int| 0 <= x < i ==> #[trigger] func_types@[x] == js_native_ti,
            decreases n_ig - i,
        {
            proof {
                assert(ig.skip(i as int)[0] == ig[i as int]);
                assert(ig.skip(i as int).drop_first() =~= ig.skip(i + 1));
                assert(ig.take(i as int).push(ig[i as int]) =~= ig.take(i + 1));
            }
            let b = import_glue.remove(0);
            func_types.push(js_native_ti);
            code.push(b);
            i += 1;
        }
        proof {
            assert(ig.take(n_ig as int) =~= ig);
        }

        let mut export_glue: Vec<(crate::bindgen::GlueBody, u32)> = Vec::new();
        core::mem::swap(&mut export_glue, &mut self.export_glue_fns);
        let ghost eg = export_glue@;
        let mut j: usize = 0;
        let n_eg = export_glue.len();
        while j < n_eg
            invariant
                n_eg == eg.len(),
                n_ig == ig.len(),
                j <= n_eg,
                export_glue@ == eg.skip(j as int),
                code@.len() == n_ig + j,
                code@.take(n_ig as int) == ig,
                forall|x: int| 0 <= x < j ==> code@[n_ig + x] == (#[trigger] eg[x]).0,
                func_types@.len() == n_ig + j,
                forall|x: int| 0 <= x < n_ig ==> #[trigger] func_types@[x] == js_native_ti,
                forall|x: int| 0 <= x < j ==> func_types@[n_ig + x] == (#[trigger] eg[x]).1,
            decreases n_eg - j,
        {
            proof {
                assert(eg.skip(j as int)[0] == eg[j as int]);
                assert(eg.skip(j as int).drop_first() =~= eg.skip(j + 1));
            }
            let (b, ti) = export_glue.remove(0);
            func_types.push(ti);
            code.push(b);
            proof {
                assert(code@.take(n_ig as int) =~= ig);
            }
            j += 1;
        }
        func_types.push(void_ti);
        code.push(boot);

        let mut elem_funcs: Vec<u32> = Vec::new();
        let glue_start = self.witx_import_glue_fns_start();
        let mut e: usize = 0;
        while e < ni as usize
            invariant
                e <= ni,
                glue_start == ni + SMW_COUNT,
                ni + SMW_COUNT + ni + 1 <= u32::MAX,
                elem_funcs@.len() == e,
                forall|x: int| 0 <= x < e ==> #[trigger] elem_funcs@[x] == glue_start + x,
            decreases ni - e,
        {
            elem_funcs.push(glue_start + e as u32);
            e += 1;
        }

        proof {
            assert forall|k: int| 0 <= k < code@.len() - 1 implies crate::bindgen::glue_seq_ok(
                (#[trigger] code@[k]).insns@,
                ni,
            ) by {
                if k < n_ig {
                    assert(code@[k] == code@.take(n_ig as int)[k]);
                    assert(code@[k] == old(self).import_glue_fns@[k]);
                } else {
                    assert(code@[k] == eg[k - n_ig].0);
                    assert(eg[k - n_ig] == old(self).export_glue_fns@[k - n_ig]);
                }
            }
        }
        let min_pages = self.data_segments.min_pages();
        let mut data: Vec<u8> = Vec::new();
        core::mem::swap(&mut data, &mut self.data_segments.bytes);
        proof {
            let l0 = old(self).data_segments.bytes@.len() as int;
            let b1 = vstd::utf8::encode_utf8(old(self).js_name@);
            assert(data@.subrange(0, arena2.len() as int) == arena2);
            assert(data@.subrange(l0, l0 + b1.len() as int) =~= arena2.subrange(
                l0,
                l0 + b1.len() as int,
            ));
            assert(arena2.subrange(l0, l0 + b1.len() as int) =~= b1);
        }

        let mut idl_imports: Vec<IdlImport> = Vec::new();
        core::mem::swap(&mut idl_imports, &mut self.idl_imports);
        let mut exports: Vec<ExportEntry> = Vec::new();
        core::mem::swap(&mut exports, &mut self.exports);
        proof {
            let base = old(self).exports@.len() as int;
            assert(exports@[base] == exports@.drop_last()[base]);
            assert(exports@[base + 1] == exports@.drop_last()[base + 1]);
            assert(exports@[base + 2] == exports@.drop_last()[base + 2]);
            assert(exports@.take(base) =~= exports@.drop_last().take(base));
            assert forall|k: int|
                0 <= k < func_types@.len() implies #[trigger] func_types@[k]
                < self.types.views().len() by {
                if n_ig <= k < n_ig + n_eg {
                    assert(func_types@[k] == eg[k - n_ig].1);
                    assert(eg[k - n_ig] == old(self).export_glue_fns@[k - n_ig]);
                }
            }
        }
        let mut types = crate::interner::TypeTable::new();
        core::mem::swap(&mut types, &mut self.types);

        GlueModule {
            types,
            idl_imports,
            engine_types,
            func_types,
            code,
            min_pages,
            exports,
            elem_funcs,
            data,
            n_imports: ni,
            n_exports: ne,
        }
    }
}

/// Interning preserves earlier entries: the old table is a prefix of the
/// new one, and the interned view sits at the returned index.
proof fn lemma_intern_prefix(
    pre: Seq<crate::types::SigView>,
    post: Seq<crate::types::SigView>,
    v: crate::types::SigView,
)
    requires
        post == pre || post == pre.push(v),
    ensures
        pre.is_prefix_of(post),
{
    if post == pre.push(v) {
        assert(post.take(pre.len() as int) =~= pre);
    } else {
        assert(post.take(pre.len() as int) =~= pre);
    }
}

} // verus!

verus! {

impl SpiderMonkeyWasm {
    /// Assemble and encode the module, returning the output filename (the
    /// script's stem with a `.wasm` extension) and the module bytes. The
    /// same registration rules as [`Self::finish_module`] apply, and the
    /// script path must have a stem.
    pub fn finish_all(&mut self) -> (r: (String, Vec<u8>))
        requires
            old(self).wf(),
            old(self).preprocessed(),
            old(self).import_spidermonkey,
            old(self).idl_imports@.len() == old(self).ni(),
            old(self).export_glue_fns@.len() == old(self).ne(),
            old(self).types.views().len() + SMW_COUNT + 2 <= u32::MAX,
            8 * old(self).i64_return_pointer_area_size <= u32::MAX,
            old(self).data_segments.bytes@.len() + vstd::utf8::encode_utf8(
                old(self).js_name@,
            ).len() + vstd::utf8::encode_utf8(old(self).js@).len() + modules_name_bytes(
                old(self).import_fn_name_to_index@,
            ) <= u32::MAX,
            vstd::utf8::encode_utf8(old(self).js_name@).len() <= u32::MAX,
            vstd::utf8::encode_utf8(old(self).js@).len() <= u32::MAX,
            crate::filename::spec_output_filename(old(self).js_name@) is Some,
        ensures
            r.0@ == crate::filename::spec_output_filename(old(self).js_name@)->Some_0,
    {
        let name = match crate::filename::output_filename(self.js_name.as_str()) {
            Option::Some(n) => n,
            Option::None => {
                proof {
                    assert(false);
                }
                String::new()
            },
        };
        let m = self.finish_module();
        let bytes = crate::encode::encode_module(&m);
        (name, bytes)
    }
}

} // verus!

verus! {

/// The next fresh local after lowering the first `k` parameters of an
/// import-glue body (locals start after the three script-native
/// parameters).
pub open spec fn import_arg_local(params: Seq<crate::types::IdlType>, k: int) -> u32 {
    (3 + crate::walker::tys_lower_lcost(params.take(k))) as u32
}

/// The next operand-vector slot after lowering the first `k` parameters
/// (the first `|params|` slots hold the script arguments).
pub open spec fn import_arg_slot(params: Seq<crate::types::IdlType>, k: int) -> u32 {
    (params.len() + crate::walker::tys_lower_jcost(params.take(k))) as u32
}

/// The argument-lowering code of an import-glue body: the first `k`
/// parameters, each lowered from its argument slot, in order.
pub open spec fn import_args_code(
    params: Seq<crate::types::IdlType>,
    k: int,
    n_imp: u32,
) -> Seq<crate::instr::Instr>
    decreases k,
{
    if k <= 0 {
        Seq::empty()
    } else {
        import_args_code(params, k - 1, n_imp) + crate::walker::lower_code(
            params[k - 1],
            false,
            n_imp,
            import_arg_local(params, k - 1),
            import_arg_slot(params, k - 1),
            (k - 1) as u32,
        )
    }
}

/// The wasm locals holding the lowered wire arguments of the first `k`
/// parameters, in wire order.
pub open spec fn import_args_locals(params: Seq<crate::types::IdlType>, k: int) -> Seq<u32>
    decreases k,
{
    if k <= 0 {
        Seq::empty()
    } else {
        import_args_locals(params, k - 1) + crate::walker::lower_result_locals(
            params[k - 1],
            import_arg_local(params, k - 1),
        )
    }
}

/// The pending-free entries enqueued while lowering the first `k`
/// parameters.
pub open spec fn import_args_frees(params: Seq<crate::types::IdlType>, k: int) -> Seq<
    (u32, u32, u32),
>
    decreases k,
{
    if k <= 0 {
        Seq::empty()
    } else {
        import_args_frees(params, k - 1) + crate::walker::lower_frees(
            params[k - 1],
            false,
            import_arg_local(params, k - 1),
        )
    }
}

/// The operand-vector slots the first `k` lifted results land in,
/// bottom-up, when lifting starts at slot `j0`.
pub open spec fn import_result_slots(
    results: Seq<crate::types::IdlType>,
    k: int,
    j0: u32,
) -> Seq<u32>
    decreases k,
{
    if k <= 0 {
        Seq::empty()
    } else {
        import_result_slots(results, k - 1, j0).push(
            crate::walker::lift_result_slot(
                results[k - 1],
                (j0 + crate::walker::tys_lift_jcost(results.take(k - 1))) as u32,
            ),
        )
    }
}

/// The result-lifting code of an import-glue body whose results come back
/// through the scratch area: for each of the first `k` results, loads from
/// the area (held in local `rpl`) at the running scalar offset, then the
/// lifting. `l0` and `j0` are the counters right after the call.
pub open spec fn import_results_code(
    results: Seq<crate::types::IdlType>,
    k: int,
    n_imp: u32,
    rpl: u32,
    l0: u32,
    j0: u32,
) -> Seq<crate::instr::Instr>
    decreases k,
{
    if k <= 0 {
        Seq::empty()
    } else {
        let slot = crate::types::flatten_tys(results.take(k - 1)).len();
        let l = (l0 + crate::types::flatten_tys(results.take(k - 1)).len()
            + crate::walker::tys_lift_lcost(results.take(k - 1))) as u32;
        let j = (j0 + crate::walker::tys_lift_jcost(results.take(k - 1))) as u32;
        let w = crate::types::flatten_ty(results[k - 1]).len();
        let loads = if w == 1 {
            crate::bindgen::seq_i32_load(rpl, (4 * slot) as u32, l)
        } else {
            crate::bindgen::seq_i32_load(rpl, (4 * slot) as u32, l)
                + crate::bindgen::seq_i32_load(rpl, (4 * slot + 4) as u32, (l + 1) as u32)
        };
        let srcs = if w == 1 {
            seq![l]
        } else {
            seq![l, (l + 1) as u32]
        };
        import_results_code(results, k - 1, n_imp, rpl, l0, j0) + loads
            + crate::walker::lift_code(results[k - 1], true, n_imp, (l + w) as u32, j, srcs)
    }
}

/// The complete import-glue body the registration of `func` synthesizes,
/// when its import gets function index `idx` among `n_imp` interface
/// imports: the operand-vector prelude, the argument lowering, the call
/// with its pending-free drain, the result lifting — through the scratch
/// area when the results do not fit the direct return slot — and the
/// return that hands the results to the script caller.
pub open spec fn spec_import_glue_body(
    func: crate::types::IdlFunc,
    n_imp: u32,
    idx: u32,
) -> Seq<crate::instr::Instr> {
    let params = func.params@;
    let results = func.results@;
    let sig = spec_wasm_signature(Direction::Import, func);
    let np = params.len() as int;
    let args = import_args_code(params, np, n_imp);
    let arg_locals = import_args_locals(params, np);
    let frees = import_args_frees(params, np);
    let l_args = import_arg_local(params, np);
    let j_args = import_arg_slot(params, np);
    crate::bindgen::spec_prelude(crate::bindgen::LiftLower::LowerArgsLiftResults, n_imp) + args + (
    if sig.retptr is Some {
        seq![
            crate::instr::Instr::GlobalGet(crate::instr::RET_PTR_GLOBAL),
            crate::instr::Instr::LocalSet(l_args),
        ] + crate::bindgen::seq_local_gets(
            arg_locals.push(l_args).map_values(|x: u32| crate::bindgen::Operand::Wasm(x)),
        ) + seq![crate::instr::Instr::Call(idx)] + crate::bindgen::seq_drain(frees, n_imp)
            + import_results_code(results, results.len() as int, n_imp, l_args, (l_args + 1) as u32, j_args)
            + crate::bindgen::seq_return_lower(
            import_result_slots(results, results.len() as int, j_args).map_values(
                |x: u32| crate::bindgen::Operand::Js(x),
            ),
            n_imp,
        )
    } else {
        crate::bindgen::seq_local_gets(
            arg_locals.map_values(|x: u32| crate::bindgen::Operand::Wasm(x)),
        ) + seq![crate::instr::Instr::Call(idx)] + crate::bindgen::seq_local_sets_rev(
            l_args,
            sig.results.len(),
        ) + crate::bindgen::seq_drain(frees, n_imp) + (
        if results.len() == 1 {
            crate::walker::lift_code(
                results[0],
                true,
                n_imp,
                (l_args + 1) as u32,
                j_args,
                seq![l_args],
            )
        } else {
            Seq::empty()
        }) + crate::bindgen::seq_return_lower(
            (if results.len() == 1 {
                seq![
                    crate::bindgen::Operand::Js(
                        crate::walker::lift_result_slot(results[0], j_args),
                    ),
                ]
            } else {
                Seq::empty()
            }),
            n_imp,
        )
    }) + seq![crate::instr::Instr::End]
}

} // verus!

verus! {

/// The wire-parameter index where the `k`-th parameter's scalars start.
pub open spec fn export_arg_base(params: Seq<crate::types::IdlType>, k: int) -> u32 {
    crate::types::flatten_tys(params.take(k)).len() as u32
}

/// The next fresh local after lifting the first `k` parameters of an
/// export-glue body whose wire signature has `n0` parameters.
pub open spec fn export_arg_local(params: Seq<crate::types::IdlType>, k: int, n0: u32) -> u32 {
    (n0 + crate::walker::tys_lift_lcost(params.take(k))) as u32
}

/// The next operand-vector slot after lifting the first `k` parameters.
pub open spec fn export_arg_slot(params: Seq<crate::types::IdlType>, k: int) -> u32 {
    crate::walker::tys_lift_jcost(params.take(k)) as u32
}

/// The argument-lifting code of an export-glue body: the first `k`
/// parameters, each lifted from its wire parameters, in order.
pub open spec fn export_args_code(
    params: Seq<crate::types::IdlType>,
    k: int,
    n_imp: u32,
    n0: u32,
) -> Seq<crate::instr::Instr>
    decreases k,
{
    if k <= 0 {
        Seq::empty()
    } else {
        let base = export_arg_base(params, k - 1);
        let w = crate::types::flatten_ty(params[k - 1]).len();
        let srcs = if w == 1 {
            seq![base]
        } else {
            seq![base, (base + 1) as u32]
        };
        export_args_code(params, k - 1, n_imp, n0) + crate::walker::lift_code(
            params[k - 1],
            true,
            n_imp,
            export_arg_local(params, k - 1, n0),
            export_arg_slot(params, k - 1),
            srcs,
        )
    }
}

/// The operand-vector slots the first `k` lifted arguments land in, in
/// order.
pub open spec fn export_arg_slots(params: Seq<crate::types::IdlType>, k: int) -> Seq<u32>
    decreases k,
{
    if k <= 0 {
        Seq::empty()
    } else {
        export_arg_slots(params, k - 1).push(
            crate::walker::lift_result_slot(params[k - 1], export_arg_slot(params, k - 1)),
        )
    }
}

/// The result-lowering code of an export-glue body with a return-pointer
/// area: results are lowered from the last to the first, each followed by
/// the stores of its scalars into the area (held in local `rpl`) at its
/// scalar offset. `l_hi` and `j_hi` are the counters when the lowering
/// starts; `first` is the slot of the first script result. The sequence
/// covers the results from index `k` on.
pub open spec fn export_results_code(
    results: Seq<crate::types::IdlType>,
    k: int,
    n_imp: u32,
    rpl: u32,
    l_hi: u32,
    j_hi: u32,
    first: u32,
) -> Seq<crate::instr::Instr>
    decreases results.len() - k,
{
    if k < 0 || k >= results.len() {
        Seq::empty()
    } else {
        let l = (l_hi + (crate::walker::tys_lower_lcost(results)
            - crate::walker::tys_lower_lcost(results.take(k + 1)))) as u32;
        let j = (j_hi + (crate::walker::tys_lower_jcost(results)
            - crate::walker::tys_lower_jcost(results.take(k + 1)))) as u32;
        let base = crate::types::flatten_tys(results.take(k)).len();
        let vals = crate::walker::lower_result_locals(results[k], l);
        let stores = if vals.len() == 1 {
            crate::bindgen::seq_i32_store(rpl, vals[0], (4 * base) as u32)
        } else {
            crate::bindgen::seq_i32_store(rpl, vals[1], (4 * base + 4) as u32)
                + crate::bindgen::seq_i32_store(rpl, vals[0], (4 * base) as u32)
        };
        export_results_code(results, k + 1, n_imp, rpl, l_hi, j_hi, first)
            + crate::walker::lower_code(results[k], true, n_imp, l, j, (first + k) as u32) + stores
    }
}

/// The complete export-glue body the registration of `func` synthesizes,
/// among `n_imp` interface imports, with the function's name placed at
/// `name_offset` in the data arena: the argument lifting, the script call
/// (arguments pushed, the name copied into engine memory, the call), and
/// the result lowering — through the scratch area when the results do not
/// fit the direct return slot, whose address the body then returns.
pub open spec fn spec_export_glue_body(
    func: crate::types::IdlFunc,
    n_imp: u32,
    name_offset: u32,
) -> Seq<crate::instr::Instr> {
    let params = func.params@;
    let results = func.results@;
    let sig = spec_wasm_signature(Direction::Export, func);
    let np = params.len() as int;
    let n0 = sig.params.len() as u32;
    let name_local = export_arg_local(params, np, n0);
    let name_len = vstd::utf8::encode_utf8(func.name@).len() as u32;
    let nr = results.len();
    let first = if nr == 0 {
        crate::bindgen::NO_RESULT_SLOT
    } else {
        export_arg_slot(params, np)
    };
    export_args_code(params, np, n_imp, n0) + crate::bindgen::seq_push_args(
        export_arg_slots(params, np).map_values(|x: u32| crate::bindgen::Operand::Js(x)),
        n_imp,
    ) + crate::bindgen::seq_ci_name(name_local, name_len, name_offset, n_imp)
        + crate::bindgen::seq_ci_call(name_local, name_len, nr as u32, first, n_imp) + (
    if sig.retptr is Some {
        let rpl = (name_local + 1) as u32;
        seq![
            crate::instr::Instr::GlobalGet(crate::instr::RET_PTR_GLOBAL),
            crate::instr::Instr::LocalSet(rpl),
        ] + export_results_code(
            results,
            0,
            n_imp,
            rpl,
            (rpl + 1) as u32,
            (first + nr) as u32,
            first,
        ) + crate::bindgen::seq_return_lift(
            seq![crate::bindgen::Operand::Wasm(rpl)],
            n_imp,
        )
    } else {
        (if nr == 1 {
            crate::walker::lower_code(
                results[0],
                true,
                n_imp,
                (name_local + 1) as u32,
                (first + 1) as u32,
                first,
            ) + crate::bindgen::seq_return_lift(
                seq![crate::bindgen::Operand::Wasm((name_local + 1) as u32)],
                n_imp,
            )
        } else {
            crate::bindgen::seq_return_lift(Seq::empty(), n_imp)
        })
    }) + seq![crate::instr::Instr::End]
}

} // verus!

verus! {

/// The bootstrap code that registers the `j`-th function of an interface,
/// its name sitting at arena `offset`: copy the name into engine memory
/// (pointer in local 5), write the function's import-glue trampoline into
/// table slot `grow_result + j` (the grow result is in local 4), and
/// register it with the module builder (local 3) under that absolute slot
/// and its declared arity.
pub open spec fn spec_boot_func(
    e: crate::imports_map::EntryView,
    j: int,
    offset: u32,
    ni: u32,
) -> Seq<crate::instr::Instr> {
    let name_len = vstd::utf8::encode_utf8(e.func_name).len() as u32;
    seq![
        crate::instr::Instr::I32Const(name_len as i32),
        crate::instr::Instr::Call((ni + crate::engine::SMW_MALLOC) as u32),
        crate::instr::Instr::LocalSet(5),
        crate::instr::Instr::LocalGet(5),
        crate::instr::Instr::I32Const(offset as i32),
        crate::instr::Instr::I32Const(name_len as i32),
        crate::instr::Instr::MemoryCopyToEngine,
        crate::instr::Instr::I32Const(j as u32 as i32),
        crate::instr::Instr::LocalGet(4),
        crate::instr::Instr::I32Add,
        crate::instr::Instr::RefFunc((ni + crate::engine::SMW_COUNT + e.index) as u32),
        crate::instr::Instr::TableSet(0),
        crate::instr::Instr::LocalGet(3),
        crate::instr::Instr::LocalGet(5),
        crate::instr::Instr::I32Const(name_len as i32),
        crate::instr::Instr::I32Const(j as u32 as i32),
        crate::instr::Instr::LocalGet(4),
        crate::instr::Instr::I32Add,
        crate::instr::Instr::I32Const(e.num_args as i32),
        crate::instr::Instr::Call((ni + crate::engine::SMW_MODULE_BUILDER_ADD_EXPORT) as u32),
    ]
}

/// The registration code for the first `j` functions of one interface,
/// their names appended to the arena from position `off0` on.
pub open spec fn spec_boot_funcs(
    fs: Seq<crate::imports_map::EntryView>,
    j: int,
    ni: u32,
    off0: int,
) -> Seq<crate::instr::Instr>
    decreases j,
{
    if j <= 0 {
        Seq::empty()
    } else {
        spec_boot_funcs(fs, j - 1, ni, off0) + spec_boot_func(
            fs[j - 1],
            j - 1,
            (off0 + funcs_name_bytes(fs.take(j - 1))) as u32,
            ni,
        )
    }
}

/// The bootstrap code that registers one interface whose name lands at
/// arena position `off0`: allocate and copy the name (pointer in local 2),
/// create the script module builder (handle in local 3), grow table 0 by
/// the function count — trapping if the grow returns the sentinel −1 — with
/// the old size in local 4, register each function, and finalize the
/// builder.
pub open spec fn spec_boot_module(
    m: crate::imports_map::ModuleView,
    ni: u32,
    off0: int,
) -> Seq<crate::instr::Instr> {
    let mlen = vstd::utf8::encode_utf8(m.module_name).len() as u32;
    seq![
        crate::instr::Instr::I32Const(mlen as i32),
        crate::instr::Instr::Call((ni + crate::engine::SMW_MALLOC) as u32),
        crate::instr::Instr::LocalSet(2),
        crate::instr::Instr::LocalGet(2),
        crate::instr::Instr::I32Const(off0 as u32 as i32),
        crate::instr::Instr::I32Const(mlen as i32),
        crate::instr::Instr::MemoryCopyToEngine,
        crate::instr::Instr::LocalGet(2),
        crate::instr::Instr::I32Const(mlen as i32),
        crate::instr::Instr::Call((ni + crate::engine::SMW_NEW_MODULE_BUILDER) as u32),
        crate::instr::Instr::LocalSet(3),
        crate::instr::Instr::RefNullFunc,
        crate::instr::Instr::I32Const(m.funcs.len() as u32 as i32),
        crate::instr::Instr::TableGrow(0),
        crate::instr::Instr::LocalTee(4),
        crate::instr::Instr::I32Const(-1i32),
        crate::instr::Instr::I32Eq,
        crate::instr::Instr::IfStart,
        crate::instr::Instr::Unreachable,
        crate::instr::Instr::End,
    ] + spec_boot_funcs(
        m.funcs,
        m.funcs.len() as int,
        ni,
        off0 + vstd::utf8::encode_utf8(m.module_name).len(),
    ) + seq![
        crate::instr::Instr::LocalGet(3),
        crate::instr::Instr::Call((ni + crate::engine::SMW_FINISH_MODULE_BUILDER) as u32),
    ]
}

/// One interface's registration code splits into its head (name copy,
/// builder creation, table grow with trap), the per-function registrations
/// and the builder finalization.
pub proof fn lemma_boot_module_decompose(m: crate::imports_map::ModuleView, ni: u32, off0: int)
    ensures
        spec_boot_module(m, ni, off0) == spec_boot_module(m, ni, off0).take(20)
            + spec_boot_funcs(
            m.funcs,
            m.funcs.len() as int,
            ni,
            off0 + vstd::utf8::encode_utf8(m.module_name).len(),
        ) + seq![
            crate::instr::Instr::LocalGet(3),
            crate::instr::Instr::Call((ni + crate::engine::SMW_FINISH_MODULE_BUILDER) as u32),
        ],
{
    assert(spec_boot_module(m, ni, off0) =~= spec_boot_module(m, ni, off0).take(20)
        + spec_boot_funcs(
        m.funcs,
        m.funcs.len() as int,
        ni,
        off0 + vstd::utf8::encode_utf8(m.module_name).len(),
    ) + seq![
        crate::instr::Instr::LocalGet(3),
        crate::instr::Instr::Call((ni + crate::engine::SMW_FINISH_MODULE_BUILDER) as u32),
    ]);
}

/// The interface name bytes of a one-longer registry prefix.
pub proof fn lemma_modules_name_bytes_step(ms: Seq<crate::imports_map::ModuleView>, i: int)
    requires
        0 <= i < ms.len(),
    ensures
        modules_name_bytes(ms.take(i + 1)) == modules_name_bytes(ms.take(i))
            + vstd::utf8::encode_utf8(ms[i].module_name).len() + funcs_name_bytes(ms[i].funcs),
{
    assert(ms.take(i + 1).drop_last() =~= ms.take(i));
    assert(ms.take(i + 1).last() == ms[i]);
}

/// The registration code for the first `i` interfaces of the registry,
/// their names appended to the arena from position `base` on.
pub open spec fn spec_boot_modules(
    ms: Seq<crate::imports_map::ModuleView>,
    i: int,
    ni: u32,
    base: int,
) -> Seq<crate::instr::Instr>
    decreases i,
{
    if i <= 0 {
        Seq::empty()
    } else {
        spec_boot_modules(ms, i - 1, ni, base) + spec_boot_module(
            ms[i - 1],
            ni,
            base + modules_name_bytes(ms.take(i - 1)),
        )
    }
}

} // verus!
