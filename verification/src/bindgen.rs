//! The glue-body synthesizer: a stack machine over tagged operands that
//! translates, instruction by instruction, between canonical-ABI memory
//! representations and in-engine script values.
//!
//! Each method here consumes one ABI instruction: it pops its inputs from
//! the operand stack, appends the translation code to the current block, and
//! pushes its results. The contract of each method pins the appended
//! instruction sequence exactly.

use vstd::prelude::*;
use vstd::string::StringSliceAdditionalSpecFns;
use crate::arena::DataSegments;
use crate::engine::{SMW_COUNT, SMW_INITIALIZE, SMW_FILL_OPERANDS, SMW_I32_FROM_U32,
    SMW_U32_FROM_I32, SMW_STRING_CANON_LOWER, SMW_STRING_CANON_LIFT, SMW_CANONICAL_ABI_FREE,
    SMW_CLEAR_OPERANDS, SMW_PUSH_RETURN_VALUE, SMW_FINISH_RETURNS, SMW_MALLOC,
    SMW_SPREAD_INTO_ARRAY, SMW_GET_ARRAY_ELEMENT, SMW_ARRAY_PUSH, SMW_NEW_ARRAY, SMW_PUSH_ARG,
    SMW_CALL};
use crate::imports_map::ImportMap;
use crate::instr::{Instr, RET_PTR_GLOBAL};
use crate::types::ValTy;

verus! {

/// The translation direction of a glue body. A glue body for an imported
/// function is called from the script, so it lowers its arguments and lifts
/// its results; a glue body for an exported function is called from outside,
/// so it lifts its arguments and lowers its results.
#[derive(Clone, Copy, Debug, PartialEq, Eq, Structural)]
pub enum LiftLower {
    LowerArgsLiftResults,
    LiftArgsLowerResults,
}

/// A stack operand: either the `n`-th wasm local of the glue body being
/// built, or the `n`-th slot of the engine's script-value operand vector.
/// The two index spaces are disjoint; consuming one as the other is a bug,
/// which the contracts below rule out.
#[derive(Clone, Copy, Debug, PartialEq, Eq, Structural)]
pub enum Operand {
    /// The `n`-th script value in the engine's operand vector.
    Js(u32),
    /// The `n`-th wasm local.
    Wasm(u32),
}

impl Operand {
    /// The slot index of a script-value operand.
    pub fn unwrap_js(&self) -> (r: u32)
        requires
            self is Js,
        ensures
            r == self->Js_0,
    {
        match *self {
            Operand::Js(js) => js,
            Operand::Wasm(_) => {
                proof {
                    assert(false);
                }
                0
            },
        }
    }

    /// The local index of a wasm operand.
    pub fn unwrap_wasm(&self) -> (r: u32)
        requires
            self is Wasm,
        ensures
            r == self->Wasm_0,
    {
        match *self {
            Operand::Wasm(w) => w,
            Operand::Js(_) => {
                proof {
                    assert(false);
                }
                0
            },
        }
    }
}

/// Pop the topmost operand, which must be a wasm local, and return its
/// local index.
pub fn pop_wasm(operands: &mut Vec<Operand>) -> (r: u32)
    requires
        old(operands)@.len() > 0,
        old(operands)@.last() is Wasm,
    ensures
        final(operands)@ == old(operands)@.drop_last(),
        r == old(operands)@.last()->Wasm_0,
{
    match operands.pop() {
        Option::Some(op) => op.unwrap_wasm(),
        Option::None => {
            proof {
                assert(false);
            }
            0
        },
    }
}

/// Pop the topmost operand, which must be a script-value slot, and return
/// its slot index.
pub fn pop_js(operands: &mut Vec<Operand>) -> (r: u32)
    requires
        old(operands)@.len() > 0,
        old(operands)@.last() is Js,
    ensures
        final(operands)@ == old(operands)@.drop_last(),
        r == old(operands)@.last()->Js_0,
{
    match operands.pop() {
        Option::Some(op) => op.unwrap_js(),
        Option::None => {
            proof {
                assert(false);
            }
            0
        },
    }
}

/// A finished glue body: its extra locals (beyond the parameters) and its
/// instructions, terminated by an `end`.
#[derive(Debug)]
pub struct GlueBody {
    pub locals: Vec<ValTy>,
    pub insns: Vec<Instr>,
}

/// What any instruction of a glue body may do: call only interface imports
/// or engine imports other than the engine's startup routine, and never
/// touch tables, function references, or traps. `n_imp` is the number of
/// interface imports, so `n_imp` itself is the startup routine's index.
pub open spec fn glue_insn_ok(i: Instr, n_imp: u32) -> bool {
    match i {
        Instr::Call(t) => t < n_imp + SMW_COUNT && t != n_imp + SMW_INITIALIZE,
        Instr::RefFunc(_) => false,
        Instr::TableSet(_) => false,
        Instr::TableGrow(_) => false,
        Instr::Unreachable => false,
        _ => true,
    }
}

/// Every instruction of `s` satisfies [`glue_insn_ok`].
pub open spec fn glue_seq_ok(s: Seq<Instr>, n_imp: u32) -> bool {
    forall|k: int| 0 <= k < s.len() ==> glue_insn_ok(#[trigger] s[k], n_imp)
}

pub proof fn lemma_glue_seq_ok_add(a: Seq<Instr>, b: Seq<Instr>, n_imp: u32)
    requires
        glue_seq_ok(a, n_imp),
        glue_seq_ok(b, n_imp),
    ensures
        glue_seq_ok(a + b, n_imp),
{
    assert forall|k: int| 0 <= k < (a + b).len() implies glue_insn_ok(#[trigger] (a + b)[k], n_imp) by {
        if k < a.len() {
            assert((a + b)[k] == a[k]);
        } else {
            assert((a + b)[k] == b[k - a.len()]);
        }
    }
}

/// The glue-body synthesizer's state while one body is being built.
#[derive(Debug)]
pub struct Bindgen {
    /// The translation direction.
    pub lift_lower: LiftLower,
    /// The parameter count of the enclosing wasm function: locals are
    /// numbered after the parameters.
    pub n_outer_params: u32,
    /// The number of interface imports; the engine-import slice of the
    /// function index space starts here.
    pub n_imports: u32,
    /// The extra locals allocated so far, in order.
    pub locals: Vec<ValTy>,
    /// The number of engine operand-vector slots in use.
    pub js_count: u32,
    /// The enclosing, unfinished blocks (innermost last).
    pub outer: Vec<Vec<Instr>>,
    /// The block instructions are currently appended to.
    pub cur: Vec<Instr>,
    /// The declared results of finished blocks (innermost last).
    pub block_results: Vec<Vec<Operand>>,
    /// The slot of the current iteration's element, per enclosing list.
    pub iter_elems: Vec<u32>,
    /// The local holding the current iteration's base pointer, per
    /// enclosing list.
    pub iter_base_pointers: Vec<u32>,
    /// Allocations to release after the next interface-import call:
    /// `(pointer local, length local, alignment)`.
    pub to_free: Vec<(u32, u32, u32)>,
    /// The return-pointer scratch size this body needs, in 8-byte units.
    pub scratch: usize,
}

/// The prelude of a glue body: a body that lowers script arguments first
/// copies them from the caller's frame (`argc` in local 1, `vp` in local 2)
/// into the engine's operand vector. A body that lifts its arguments has no
/// prelude.
pub open spec fn spec_prelude(lift_lower: LiftLower, n_imp: u32) -> Seq<Instr> {
    if lift_lower is LowerArgsLiftResults {
        seq![
            Instr::LocalGet(1),
            Instr::LocalGet(2),
            Instr::Call((n_imp + SMW_FILL_OPERANDS) as u32),
        ]
    } else {
        Seq::empty()
    }
}

impl Bindgen {
    /// Size bounds forced by 32-bit local indexing.
    pub open spec fn inv(&self) -> bool {
        &&& self.n_imports + SMW_COUNT <= u32::MAX
        &&& self.n_outer_params + self.locals@.len() <= u32::MAX
    }

    /// There is room for `k` more locals and `j` more operand slots.
    pub open spec fn room(&self, k: int, j: int) -> bool {
        &&& self.n_outer_params + self.locals@.len() + k <= u32::MAX
        &&& self.js_count + j <= u32::MAX
    }

    /// The function index of the `k`-th engine import.
    pub open spec fn smw(&self, k: u32) -> u32 {
        (self.n_imports + k) as u32
    }

    /// The index the next fresh local will get.
    pub open spec fn next_local(&self) -> u32 {
        (self.n_outer_params + self.locals@.len()) as u32
    }

    /// Every block built so far contains only instructions a glue body may
    /// hold.
    pub open spec fn blocks_ok(&self) -> bool {
        &&& glue_seq_ok(self.cur@, self.n_imports)
        &&& forall|k: int|
            0 <= k < self.outer@.len() ==> glue_seq_ok(#[trigger] self.outer@[k]@, self.n_imports)
    }

    /// The fields that never change while a body is built.
    pub open spec fn same_meta(&self, other: &Bindgen) -> bool {
        &&& self.lift_lower == other.lift_lower
        &&& self.n_outer_params == other.n_outer_params
        &&& self.n_imports == other.n_imports
    }

    /// Begin a glue body. `n_js_args` is the number of script-level
    /// arguments in scope: the function's arity when lowering arguments,
    /// zero when lifting them.
    pub fn new(lift_lower: LiftLower, n_imports: u32, n_outer_params: u32, n_js_args: u32) -> (r:
        Bindgen)
        requires
            n_imports + SMW_COUNT <= u32::MAX,
            n_outer_params <= u32::MAX,
        ensures
            r.lift_lower == lift_lower,
            r.n_outer_params == n_outer_params,
            r.n_imports == n_imports,
            r.locals@ =~= Seq::<ValTy>::empty(),
            r.js_count == (if lift_lower is LowerArgsLiftResults {
                n_js_args
            } else {
                0
            }),
            r.outer@ =~= Seq::<Vec<Instr>>::empty(),
            r.cur@ == spec_prelude(lift_lower, n_imports),
            r.block_results@ =~= Seq::<Vec<Operand>>::empty(),
            r.iter_elems@ =~= Seq::<u32>::empty(),
            r.iter_base_pointers@ =~= Seq::<u32>::empty(),
            r.to_free@ =~= Seq::<(u32, u32, u32)>::empty(),
            r.scratch == 0,
            r.inv(),
            r.blocks_ok(),
    {
        let js_count: u32 = match lift_lower {
            LiftLower::LowerArgsLiftResults => n_js_args,
            LiftLower::LiftArgsLowerResults => 0,
        };
        let mut cur: Vec<Instr> = Vec::new();
        if matches!(lift_lower, LiftLower::LowerArgsLiftResults) {
            cur.push(Instr::LocalGet(1));
            cur.push(Instr::LocalGet(2));
            cur.push(Instr::Call(n_imports + SMW_FILL_OPERANDS));
            assert(cur@ =~= spec_prelude(lift_lower, n_imports));
        }
        let r = Bindgen {
            lift_lower,
            n_outer_params,
            n_imports,
            locals: Vec::new(),
            js_count,
            outer: Vec::new(),
            cur: Vec::new(),
            block_results: Vec::new(),
            iter_elems: Vec::new(),
            iter_base_pointers: Vec::new(),
            to_free: Vec::new(),
            scratch: 0,
        };
        let mut r = r;
        r.cur = cur;
        r
    }

    /// Allocate a fresh wasm local of type `ty` and return its index.
    pub fn new_local(&mut self, ty: ValTy) -> (idx: u32)
        requires
            old(self).room(1, 0),
        ensures
            idx == old(self).next_local(),
            final(self).locals@ == old(self).locals@.push(ty),
            final(self).next_local() == idx + 1,
            final(self).same_meta(old(self)),
            final(self).js_count == old(self).js_count,
            final(self).outer == old(self).outer,
            final(self).cur == old(self).cur,
            final(self).block_results == old(self).block_results,
            final(self).iter_elems == old(self).iter_elems,
            final(self).iter_base_pointers == old(self).iter_base_pointers,
            final(self).to_free == old(self).to_free,
            final(self).scratch == old(self).scratch,
    {
        let idx = self.n_outer_params + self.locals.len() as u32;
        self.locals.push(ty);
        idx
    }

    /// Allocate the next engine operand-vector slot.
    pub fn next_js(&mut self) -> (js: u32)
        requires
            old(self).room(0, 1),
        ensures
            js == old(self).js_count,
            final(self).js_count == old(self).js_count + 1,
            final(self).same_meta(old(self)),
            final(self).locals == old(self).locals,
            final(self).outer == old(self).outer,
            final(self).cur == old(self).cur,
            final(self).block_results == old(self).block_results,
            final(self).iter_elems == old(self).iter_elems,
            final(self).iter_base_pointers == old(self).iter_base_pointers,
            final(self).to_free == old(self).to_free,
            final(self).scratch == old(self).scratch,
    {
        let js = self.js_count;
        self.js_count = self.js_count + 1;
        js
    }

    /// Fields that only the list instructions and the free-list may touch:
    /// everything but the current block, the locals and the slot counter.
    pub open spec fn same_aux(&self, other: &Bindgen) -> bool {
        &&& self.same_meta(other)
        &&& self.outer == other.outer
        &&& self.block_results == other.block_results
        &&& self.iter_elems == other.iter_elems
        &&& self.iter_base_pointers == other.iter_base_pointers
        &&& self.to_free == other.to_free
        &&& self.scratch == other.scratch
    }

    /// Append one instruction to the current block.
    fn inst(&mut self, i: Instr)
        requires
            glue_insn_ok(i, old(self).n_imports),
        ensures
            final(self).cur@ == old(self).cur@.push(i),
            final(self).same_meta(old(self)),
            final(self).locals == old(self).locals,
            final(self).js_count == old(self).js_count,
            final(self).outer == old(self).outer,
            final(self).block_results == old(self).block_results,
            final(self).iter_elems == old(self).iter_elems,
            final(self).iter_base_pointers == old(self).iter_base_pointers,
            final(self).to_free == old(self).to_free,
            final(self).scratch == old(self).scratch,
    {
        self.cur.push(i);
    }
}

} // verus!

verus! {

/// The code appended by an `i32.load` translation.
pub open spec fn seq_i32_load(addr: u32, offset: u32, l: u32) -> Seq<Instr> {
    seq![Instr::LocalGet(addr), Instr::I32Load(offset), Instr::LocalSet(l)]
}

/// The code appended by an `i32.store` translation.
pub open spec fn seq_i32_store(addr: u32, val: u32, offset: u32) -> Seq<Instr> {
    seq![Instr::LocalGet(addr), Instr::LocalGet(val), Instr::I32Store(offset)]
}

/// The code that lowers operand-vector slot `js` into local `l`.
pub open spec fn seq_i32_from_u32(js: u32, n_imp: u32, l: u32) -> Seq<Instr> {
    seq![
        Instr::I32Const(#[verifier::truncate] (js as i32)),
        Instr::Call((n_imp + SMW_I32_FROM_U32) as u32),
        Instr::LocalSet(l),
    ]
}

/// The code that lifts local `w` into operand-vector slot `js`.
pub open spec fn seq_u32_from_i32(w: u32, js: u32, n_imp: u32) -> Seq<Instr> {
    seq![
        Instr::LocalGet(w),
        Instr::I32Const(#[verifier::truncate] (js as i32)),
        Instr::Call((n_imp + SMW_U32_FROM_I32) as u32),
    ]
}

/// The code that lowers the string in slot `js` through the scratch area
/// into a fresh pointer local and a fresh length local.
pub open spec fn seq_list_canon_lower(js: u32, n_imp: u32, ptr: u32, len: u32) -> Seq<Instr> {
    seq![
        Instr::GlobalGet(RET_PTR_GLOBAL),
        Instr::I32Const(#[verifier::truncate] (js as i32)),
        Instr::Call((n_imp + SMW_STRING_CANON_LOWER) as u32),
        Instr::GlobalGet(RET_PTR_GLOBAL),
        Instr::I32Load(0),
        Instr::LocalSet(ptr),
        Instr::GlobalGet(RET_PTR_GLOBAL),
        Instr::I32Load(4),
        Instr::LocalSet(len),
    ]
}

/// The code that releases one canonical-ABI allocation.
pub open spec fn seq_free_entry(e: (u32, u32, u32), n_imp: u32) -> Seq<Instr> {
    seq![
        Instr::LocalGet(e.0),
        Instr::LocalGet(e.1),
        Instr::I32Const(e.2 as i32),
        Instr::Call((n_imp + SMW_CANONICAL_ABI_FREE) as u32),
    ]
}

/// The code that lifts the pair `(ptr, len)` into slot `js`, releasing the
/// allocation afterwards when `free` is set.
pub open spec fn seq_list_canon_lift(
    ptr: u32,
    len: u32,
    js: u32,
    n_imp: u32,
    free: bool,
    align: u32,
) -> Seq<Instr> {
    seq![
        Instr::LocalGet(ptr),
        Instr::LocalGet(len),
        Instr::I32Const(#[verifier::truncate] (js as i32)),
        Instr::Call((n_imp + SMW_STRING_CANON_LIFT) as u32),
    ] + if free {
        seq_free_entry((ptr, len, align), n_imp)
    } else {
        Seq::empty()
    }
}

impl Bindgen {
    /// Consume a `GetArg` instruction: push the `nth` argument, a wasm
    /// parameter when lifting arguments and an operand-vector slot when
    /// lowering them. No code is emitted.
    pub fn get_arg(&self, nth: u32, operands: &mut Vec<Operand>)
        ensures
            final(operands)@ == old(operands)@.push(
                if self.lift_lower is LiftArgsLowerResults {
                    Operand::Wasm(nth)
                } else {
                    Operand::Js(nth)
                },
            ),
    {
        match self.lift_lower {
            LiftLower::LiftArgsLowerResults => operands.push(Operand::Wasm(nth)),
            LiftLower::LowerArgsLiftResults => operands.push(Operand::Js(nth)),
        }
    }

    /// Consume an `I32Load` instruction: pop an address local, load from the
    /// engine memory at `offset` past it into a fresh local, push that local.
    pub fn i32_load(&mut self, offset: u32, operands: &mut Vec<Operand>)
        requires
            old(self).room(1, 0),
            old(operands)@.len() > 0,
            old(operands)@.last() is Wasm,
        ensures
            old(self).blocks_ok() ==> final(self).blocks_ok(),
            final(self).same_aux(old(self)),
            final(self).js_count == old(self).js_count,
            final(self).locals@ == old(self).locals@.push(ValTy::I32),
            final(self).cur@ == old(self).cur@ + seq_i32_load(
                old(operands)@.last()->Wasm_0,
                offset,
                old(self).next_local(),
            ),
            final(operands)@ == old(operands)@.drop_last().push(
                Operand::Wasm(old(self).next_local()),
            ),
    {
        let addr = pop_wasm(operands);
        let local = self.new_local(ValTy::I32);
        self.inst(Instr::LocalGet(addr));
        self.inst(Instr::I32Load(offset));
        self.inst(Instr::LocalSet(local));
        operands.push(Operand::Wasm(local));
        assert(self.cur@ =~= old(self).cur@ + seq_i32_load(
            old(operands)@.last()->Wasm_0,
            offset,
            old(self).next_local(),
        ));
    }

    /// Consume an `I32Store` instruction: pop an address local and a value
    /// local, store the value into the engine memory at `offset` past the
    /// address.
    pub fn i32_store(&mut self, offset: u32, operands: &mut Vec<Operand>)
        requires
            old(operands)@.len() >= 2,
            old(operands)@.last() is Wasm,
            old(operands)@[old(operands)@.len() - 2] is Wasm,
        ensures
            old(self).blocks_ok() ==> final(self).blocks_ok(),
            final(self).same_aux(old(self)),
            final(self).js_count == old(self).js_count,
            final(self).locals == old(self).locals,
            final(self).cur@ == old(self).cur@ + seq_i32_store(
                old(operands)@.last()->Wasm_0,
                old(operands)@[old(operands)@.len() - 2]->Wasm_0,
                offset,
            ),
            final(operands)@ == old(operands)@.drop_last().drop_last(),
    {
        let addr = pop_wasm(operands);
        let val = pop_wasm(operands);
        self.inst(Instr::LocalGet(addr));
        self.inst(Instr::LocalGet(val));
        self.inst(Instr::I32Store(offset));
        assert(self.cur@ =~= old(self).cur@ + seq_i32_store(
            addr,
            val,
            offset,
        ));
    }

    /// Consume an `I32FromU32` instruction: pop an operand-vector slot and
    /// lower its unsigned integer into a fresh `i32` local.
    pub fn i32_from_u32(&mut self, operands: &mut Vec<Operand>)
        requires
            old(self).inv(),
            old(self).room(1, 0),
            old(operands)@.len() > 0,
            old(operands)@.last() is Js,
        ensures
            old(self).blocks_ok() ==> final(self).blocks_ok(),
            final(self).same_aux(old(self)),
            final(self).js_count == old(self).js_count,
            final(self).locals@ == old(self).locals@.push(ValTy::I32),
            final(self).cur@ == old(self).cur@ + seq_i32_from_u32(
                old(operands)@.last()->Js_0,
                old(self).n_imports,
                old(self).next_local(),
            ),
            final(operands)@ == old(operands)@.drop_last().push(
                Operand::Wasm(old(self).next_local()),
            ),
    {
        let js = pop_js(operands);
        let local = self.new_local(ValTy::I32);
        self.inst(Instr::I32Const(#[verifier::truncate] (js as i32)));
        self.inst(Instr::Call(self.n_imports + SMW_I32_FROM_U32));
        self.inst(Instr::LocalSet(local));
        operands.push(Operand::Wasm(local));
        assert(self.cur@ =~= old(self).cur@ + seq_i32_from_u32(
            js,
            old(self).n_imports,
            local,
        ));
    }

    /// Consume a `U32FromI32` instruction: pop a wasm local and lift its
    /// value into a fresh operand-vector slot.
    pub fn u32_from_i32(&mut self, operands: &mut Vec<Operand>)
        requires
            old(self).inv(),
            old(self).room(0, 1),
            old(operands)@.len() > 0,
            old(operands)@.last() is Wasm,
        ensures
            old(self).blocks_ok() ==> final(self).blocks_ok(),
            final(self).same_aux(old(self)),
            final(self).locals == old(self).locals,
            final(self).js_count == old(self).js_count + 1,
            final(self).cur@ == old(self).cur@ + seq_u32_from_i32(
                old(operands)@.last()->Wasm_0,
                old(self).js_count,
                old(self).n_imports,
            ),
            final(operands)@ == old(operands)@.drop_last().push(Operand::Js(old(self).js_count)),
    {
        let local = pop_wasm(operands);
        let js = self.next_js();
        self.inst(Instr::LocalGet(local));
        self.inst(Instr::I32Const(#[verifier::truncate] (js as i32)));
        self.inst(Instr::Call(self.n_imports + SMW_U32_FROM_I32));
        operands.push(Operand::Js(js));
        assert(self.cur@ =~= old(self).cur@ + seq_u32_from_i32(
            local,
            js,
            old(self).n_imports,
        ));
    }

    /// Consume a `ListCanonLower` instruction: pop the string's slot, lower
    /// it through the scratch area, and push the resulting pointer and
    /// length locals. When no reallocation function was given, the glue body
    /// owns the allocation and enqueues it for release after the call.
    pub fn list_canon_lower(
        &mut self,
        realloc: bool,
        elem_align: u32,
        operands: &mut Vec<Operand>,
    )
        requires
            old(self).inv(),
            old(self).room(2, 0),
            old(operands)@.len() > 0,
            old(operands)@.last() is Js,
        ensures
            old(self).blocks_ok() ==> final(self).blocks_ok(),
            final(self).same_meta(old(self)),
            final(self).outer == old(self).outer,
            final(self).block_results == old(self).block_results,
            final(self).iter_elems == old(self).iter_elems,
            final(self).iter_base_pointers == old(self).iter_base_pointers,
            final(self).js_count == old(self).js_count,
            final(self).locals@ == old(self).locals@.push(ValTy::I32).push(ValTy::I32),
            final(self).scratch == (if old(self).scratch >= 1 {
                old(self).scratch
            } else {
                1usize
            }),
            final(self).cur@ == old(self).cur@ + seq_list_canon_lower(
                old(operands)@.last()->Js_0,
                old(self).n_imports,
                old(self).next_local(),
                (old(self).next_local() + 1) as u32,
            ),
            final(self).to_free@ == (if realloc {
                old(self).to_free@
            } else {
                old(self).to_free@.push(
                    (old(self).next_local(), (old(self).next_local() + 1) as u32, elem_align),
                )
            }),
            final(operands)@ == old(operands)@.drop_last().push(
                Operand::Wasm(old(self).next_local()),
            ).push(Operand::Wasm((old(self).next_local() + 1) as u32)),
    {
        let js = pop_js(operands);
        let ptr = self.new_local(ValTy::I32);
        let len = self.new_local(ValTy::I32);
        if self.scratch < 1 {
            self.scratch = 1;
        }
        self.inst(Instr::GlobalGet(RET_PTR_GLOBAL));
        self.inst(Instr::I32Const(#[verifier::truncate] (js as i32)));
        self.inst(Instr::Call(self.n_imports + SMW_STRING_CANON_LOWER));
        self.inst(Instr::GlobalGet(RET_PTR_GLOBAL));
        self.inst(Instr::I32Load(0));
        self.inst(Instr::LocalSet(ptr));
        self.inst(Instr::GlobalGet(RET_PTR_GLOBAL));
        self.inst(Instr::I32Load(4));
        self.inst(Instr::LocalSet(len));
        if !realloc {
            self.to_free.push((ptr, len, elem_align));
        }
        operands.push(Operand::Wasm(ptr));
        operands.push(Operand::Wasm(len));
        assert(self.cur@ =~= old(self).cur@ + seq_list_canon_lower(
            js,
            old(self).n_imports,
            ptr,
            len,
        ));
    }

    /// Consume a `ListCanonLift` instruction: pop the length and pointer
    /// locals, lift the bytes they span into a fresh operand-vector slot,
    /// and release the allocation when `free` is set.
    pub fn list_canon_lift(&mut self, free: bool, elem_align: u32, operands: &mut Vec<Operand>)
        requires
            old(self).inv(),
            old(self).room(0, 1),
            old(operands)@.len() >= 2,
            old(operands)@.last() is Wasm,
            old(operands)@[old(operands)@.len() - 2] is Wasm,
        ensures
            old(self).blocks_ok() ==> final(self).blocks_ok(),
            final(self).same_aux(old(self)),
            final(self).locals == old(self).locals,
            final(self).js_count == old(self).js_count + 1,
            final(self).cur@ == old(self).cur@ + seq_list_canon_lift(
                old(operands)@[old(operands)@.len() - 2]->Wasm_0,
                old(operands)@.last()->Wasm_0,
                old(self).js_count,
                old(self).n_imports,
                free,
                elem_align,
            ),
            final(operands)@ == old(operands)@.drop_last().drop_last().push(
                Operand::Js(old(self).js_count),
            ),
    {
        let len = pop_wasm(operands);
        let ptr = pop_wasm(operands);
        let js = self.next_js();
        self.inst(Instr::LocalGet(ptr));
        self.inst(Instr::LocalGet(len));
        self.inst(Instr::I32Const(#[verifier::truncate] (js as i32)));
        self.inst(Instr::Call(self.n_imports + SMW_STRING_CANON_LIFT));
        if free {
            self.inst(Instr::LocalGet(ptr));
            self.inst(Instr::LocalGet(len));
            self.inst(Instr::I32Const(#[verifier::truncate] (elem_align as i32)));
            self.inst(Instr::Call(self.n_imports + SMW_CANONICAL_ABI_FREE));
        }
        operands.push(Operand::Js(js));
        assert(self.cur@ =~= old(self).cur@ + seq_list_canon_lift(
            ptr,
            len,
            js,
            old(self).n_imports,
            free,
            elem_align,
        ));
    }

    /// Consume an `IterElem` instruction: allocate a fresh operand-vector
    /// slot for the current iteration's element, record it, and push it.
    pub fn iter_elem(&mut self, operands: &mut Vec<Operand>)
        requires
            old(self).room(0, 1),
        ensures
            final(self).same_meta(old(self)),
            final(self).locals == old(self).locals,
            final(self).cur == old(self).cur,
            final(self).outer == old(self).outer,
            final(self).block_results == old(self).block_results,
            final(self).iter_base_pointers == old(self).iter_base_pointers,
            final(self).to_free == old(self).to_free,
            final(self).scratch == old(self).scratch,
            final(self).js_count == old(self).js_count + 1,
            final(self).iter_elems@ == old(self).iter_elems@.push(old(self).js_count),
            final(operands)@ == old(operands)@.push(Operand::Js(old(self).js_count)),
    {
        let js = self.next_js();
        self.iter_elems.push(js);
        operands.push(Operand::Js(js));
    }

    /// Consume an `IterBasePointer` instruction: allocate a fresh local for
    /// the current iteration's base pointer, record it, and push it.
    pub fn iter_base_pointer(&mut self, operands: &mut Vec<Operand>)
        requires
            old(self).room(1, 0),
        ensures
            final(self).same_meta(old(self)),
            final(self).js_count == old(self).js_count,
            final(self).cur == old(self).cur,
            final(self).outer == old(self).outer,
            final(self).block_results == old(self).block_results,
            final(self).iter_elems == old(self).iter_elems,
            final(self).to_free == old(self).to_free,
            final(self).scratch == old(self).scratch,
            final(self).locals@ == old(self).locals@.push(ValTy::I32),
            final(self).iter_base_pointers@ == old(self).iter_base_pointers@.push(
                old(self).next_local(),
            ),
            final(operands)@ == old(operands)@.push(Operand::Wasm(old(self).next_local())),
    {
        let local = self.new_local(ValTy::I32);
        self.iter_base_pointers.push(local);
        operands.push(Operand::Wasm(local));
    }

    /// Load the return-pointer scratch address into a fresh local and push
    /// that local. `amt` is the number of 8-byte scratch slots the caller
    /// will use; it must not exceed what the body has reserved.
    pub fn i64_return_pointer_area(&mut self, amt: usize, operands: &mut Vec<Operand>)
        requires
            old(self).room(1, 0),
            amt <= old(self).scratch,
        ensures
            old(self).blocks_ok() ==> final(self).blocks_ok(),
            final(self).same_aux(old(self)),
            final(self).js_count == old(self).js_count,
            final(self).locals@ == old(self).locals@.push(ValTy::I32),
            final(self).cur@ == old(self).cur@ + seq![
                Instr::GlobalGet(RET_PTR_GLOBAL),
                Instr::LocalSet(old(self).next_local()),
            ],
            final(operands)@ == old(operands)@.push(Operand::Wasm(old(self).next_local())),
    {
        let local = self.new_local(ValTy::I32);
        self.inst(Instr::GlobalGet(RET_PTR_GLOBAL));
        self.inst(Instr::LocalSet(local));
        operands.push(Operand::Wasm(local));
        assert(self.cur@ =~= old(self).cur@ + seq![
            Instr::GlobalGet(RET_PTR_GLOBAL),
            Instr::LocalSet(local),
        ]);
    }

    /// Open a nested block: the current block is suspended and a fresh,
    /// empty one becomes current.
    pub fn push_block(&mut self)
        ensures
            old(self).blocks_ok() ==> final(self).blocks_ok(),
            final(self).same_meta(old(self)),
            final(self).locals == old(self).locals,
            final(self).js_count == old(self).js_count,
            final(self).block_results == old(self).block_results,
            final(self).iter_elems == old(self).iter_elems,
            final(self).iter_base_pointers == old(self).iter_base_pointers,
            final(self).to_free == old(self).to_free,
            final(self).scratch == old(self).scratch,
            final(self).outer@ == old(self).outer@.push(old(self).cur),
            final(self).cur@ =~= Seq::<Instr>::empty(),
    {
        let mut fresh: Vec<Instr> = Vec::new();
        core::mem::swap(&mut self.cur, &mut fresh);
        self.outer.push(fresh);
    }

    /// Record the results of the innermost block. The block itself stays
    /// current until a list instruction consumes it.
    pub fn finish_block(&mut self, results: Vec<Operand>)
        ensures
            final(self).same_meta(old(self)),
            final(self).locals == old(self).locals,
            final(self).js_count == old(self).js_count,
            final(self).cur == old(self).cur,
            final(self).outer == old(self).outer,
            final(self).iter_elems == old(self).iter_elems,
            final(self).iter_base_pointers == old(self).iter_base_pointers,
            final(self).to_free == old(self).to_free,
            final(self).scratch == old(self).scratch,
            final(self).block_results@ == old(self).block_results@.push(results),
    {
        self.block_results.push(results);
    }
}

} // verus!

verus! {

/// `local.get` of each wasm operand, in sequence order.
pub open spec fn seq_local_gets(ops: Seq<Operand>) -> Seq<Instr>
    decreases ops.len(),
{
    if ops.len() == 0 {
        Seq::empty()
    } else {
        seq![Instr::LocalGet(ops[0]->Wasm_0)] + seq_local_gets(ops.drop_first())
    }
}

pub proof fn lemma_seq_local_gets_push(ops: Seq<Operand>, o: Operand)
    ensures
        seq_local_gets(ops.push(o)) =~= seq_local_gets(ops) + seq![Instr::LocalGet(o->Wasm_0)],
    decreases ops.len(),
{
    if ops.len() == 0 {
        assert(ops.push(o).drop_first() =~= Seq::<Operand>::empty());
        assert(ops.push(o)[0] == o);
        assert(seq_local_gets(ops.push(o)) == seq![Instr::LocalGet(o->Wasm_0)] + seq_local_gets(
            Seq::<Operand>::empty(),
        ));
        assert(seq![Instr::LocalGet(o->Wasm_0)] + Seq::<Instr>::empty() =~= Seq::<
            Instr,
        >::empty() + seq![Instr::LocalGet(o->Wasm_0)]);
    } else {
        assert(ops.push(o)[0] == ops[0]);
        assert(ops.push(o).drop_first() =~= ops.drop_first().push(o));
        lemma_seq_local_gets_push(ops.drop_first(), o);
        assert(seq_local_gets(ops.push(o)) == seq![Instr::LocalGet(ops[0]->Wasm_0)]
            + (seq_local_gets(ops.drop_first()) + seq![Instr::LocalGet(o->Wasm_0)]));
        assert(seq![Instr::LocalGet(ops[0]->Wasm_0)] + (seq_local_gets(ops.drop_first())
            + seq![Instr::LocalGet(o->Wasm_0)]) =~= (seq![Instr::LocalGet(ops[0]->Wasm_0)]
            + seq_local_gets(ops.drop_first())) + seq![Instr::LocalGet(o->Wasm_0)]);
    }
}

/// `local.set` of `n` fresh locals starting at `base`, topmost first.
pub open spec fn seq_local_sets_rev(base: u32, n: nat) -> Seq<Instr>
    decreases n,
{
    if n == 0 {
        Seq::empty()
    } else {
        seq![Instr::LocalSet((base + n - 1) as u32)] + seq_local_sets_rev(base, (n - 1) as nat)
    }
}

/// The code that releases every enqueued allocation, in queue order.
pub open spec fn seq_drain(entries: Seq<(u32, u32, u32)>, n_imp: u32) -> Seq<Instr>
    decreases entries.len(),
{
    if entries.len() == 0 {
        Seq::empty()
    } else {
        seq_free_entry(entries[0], n_imp) + seq_drain(entries.drop_first(), n_imp)
    }
}

pub proof fn lemma_seq_drain_push(entries: Seq<(u32, u32, u32)>, e: (u32, u32, u32), n_imp: u32)
    ensures
        seq_drain(entries.push(e), n_imp) =~= seq_drain(entries, n_imp) + seq_free_entry(e, n_imp),
    decreases entries.len(),
{
    if entries.len() == 0 {
        assert(entries.push(e).drop_first() =~= Seq::<(u32, u32, u32)>::empty());
        assert(entries.push(e)[0] == e);
        assert(seq_drain(entries.push(e), n_imp) == seq_free_entry(e, n_imp) + seq_drain(
            Seq::<(u32, u32, u32)>::empty(),
            n_imp,
        ));
        assert(seq_free_entry(e, n_imp) + Seq::<Instr>::empty() =~= Seq::<Instr>::empty()
            + seq_free_entry(e, n_imp));
    } else {
        assert(entries.push(e)[0] == entries[0]);
        assert(entries.push(e).drop_first() =~= entries.drop_first().push(e));
        lemma_seq_drain_push(entries.drop_first(), e, n_imp);
        assert(seq_drain(entries.push(e), n_imp) == seq_free_entry(entries[0], n_imp)
            + (seq_drain(entries.drop_first(), n_imp) + seq_free_entry(e, n_imp)));
        assert(seq_free_entry(entries[0], n_imp) + (seq_drain(entries.drop_first(), n_imp)
            + seq_free_entry(e, n_imp)) =~= (seq_free_entry(entries[0], n_imp) + seq_drain(
            entries.drop_first(),
            n_imp,
        )) + seq_free_entry(e, n_imp));
    }
}

/// The code that enqueues each script-value slot as a return value, in
/// sequence order.
pub open spec fn seq_push_return_values(ops: Seq<Operand>, n_imp: u32) -> Seq<Instr>
    decreases ops.len(),
{
    if ops.len() == 0 {
        Seq::empty()
    } else {
        seq![
            Instr::I32Const(ops[0]->Js_0 as i32),
            Instr::Call((n_imp + SMW_PUSH_RETURN_VALUE) as u32),
        ] + seq_push_return_values(ops.drop_first(), n_imp)
    }
}

pub proof fn lemma_seq_push_return_values_push(ops: Seq<Operand>, o: Operand, n_imp: u32)
    ensures
        seq_push_return_values(ops.push(o), n_imp) =~= seq_push_return_values(ops, n_imp) + seq![
            Instr::I32Const(o->Js_0 as i32),
            Instr::Call((n_imp + SMW_PUSH_RETURN_VALUE) as u32),
        ],
    decreases ops.len(),
{
    if ops.len() == 0 {
        assert(ops.push(o).drop_first() =~= Seq::<Operand>::empty());
        assert(ops.push(o)[0] == o);
        assert(seq_push_return_values(ops.push(o), n_imp) == seq![
            Instr::I32Const(o->Js_0 as i32),
            Instr::Call((n_imp + SMW_PUSH_RETURN_VALUE) as u32),
        ] + seq_push_return_values(Seq::<Operand>::empty(), n_imp));
        assert(seq![
            Instr::I32Const(o->Js_0 as i32),
            Instr::Call((n_imp + SMW_PUSH_RETURN_VALUE) as u32),
        ] + Seq::<Instr>::empty() =~= Seq::<Instr>::empty() + seq![
            Instr::I32Const(o->Js_0 as i32),
            Instr::Call((n_imp + SMW_PUSH_RETURN_VALUE) as u32),
        ]);
    } else {
        assert(ops.push(o)[0] == ops[0]);
        assert(ops.push(o).drop_first() =~= ops.drop_first().push(o));
        lemma_seq_push_return_values_push(ops.drop_first(), o, n_imp);
        assert(seq_push_return_values(ops.push(o), n_imp) == seq![
            Instr::I32Const(ops[0]->Js_0 as i32),
            Instr::Call((n_imp + SMW_PUSH_RETURN_VALUE) as u32),
        ] + (seq_push_return_values(ops.drop_first(), n_imp) + seq![
            Instr::I32Const(o->Js_0 as i32),
            Instr::Call((n_imp + SMW_PUSH_RETURN_VALUE) as u32),
        ]));
        assert(seq![
            Instr::I32Const(ops[0]->Js_0 as i32),
            Instr::Call((n_imp + SMW_PUSH_RETURN_VALUE) as u32),
        ] + (seq_push_return_values(ops.drop_first(), n_imp) + seq![
            Instr::I32Const(o->Js_0 as i32),
            Instr::Call((n_imp + SMW_PUSH_RETURN_VALUE) as u32),
        ]) =~= (seq![
            Instr::I32Const(ops[0]->Js_0 as i32),
            Instr::Call((n_imp + SMW_PUSH_RETURN_VALUE) as u32),
        ] + seq_push_return_values(ops.drop_first(), n_imp)) + seq![
            Instr::I32Const(o->Js_0 as i32),
            Instr::Call((n_imp + SMW_PUSH_RETURN_VALUE) as u32),
        ]);
    }
}

/// The code a `Return` emits when the body lowers script arguments: enqueue
/// each returned slot, write them into the caller's frame, clear the operand
/// vector, and return the scalar `1` (no script exception).
pub open spec fn seq_return_lower(ops: Seq<Operand>, n_imp: u32) -> Seq<Instr> {
    (if ops.len() > 0 {
        seq_push_return_values(ops, n_imp) + seq![
            Instr::LocalGet(1),
            Instr::LocalGet(2),
            Instr::Call((n_imp + SMW_FINISH_RETURNS) as u32),
        ]
    } else {
        Seq::empty()
    }) + seq![
        Instr::Call((n_imp + SMW_CLEAR_OPERANDS) as u32),
        Instr::I32Const(1),
        Instr::Ret,
    ]
}

/// The code a `Return` emits when the body lowers results: clear the operand
/// vector, push each result local, and return.
pub open spec fn seq_return_lift(ops: Seq<Operand>, n_imp: u32) -> Seq<Instr> {
    seq![Instr::Call((n_imp + SMW_CLEAR_OPERANDS) as u32)] + seq_local_gets(ops) + seq![Instr::Ret]
}

impl Bindgen {
    /// Consume a `Return` instruction: hand the topmost `amt` operands back
    /// to the caller, in the way the body's direction prescribes.
    pub fn emit_return(&mut self, amt: usize, operands: &mut Vec<Operand>)
        requires
            old(self).inv(),
            amt <= old(operands)@.len(),
            old(self).lift_lower is LowerArgsLiftResults ==> forall|k: int|
                old(operands)@.len() - amt <= k < old(operands)@.len() ==> old(operands)@[k] is Js,
            old(self).lift_lower is LiftArgsLowerResults ==> forall|k: int|
                old(operands)@.len() - amt <= k < old(operands)@.len() ==> old(
                    operands,
                )@[k] is Wasm,
        ensures
            old(self).blocks_ok() ==> final(self).blocks_ok(),
            final(self).same_aux(old(self)),
            final(self).locals == old(self).locals,
            final(self).js_count == old(self).js_count,
            final(self).cur@ == old(self).cur@ + (if old(self).lift_lower
                is LowerArgsLiftResults {
                seq_return_lower(
                    old(operands)@.skip(old(operands)@.len() - amt),
                    old(self).n_imports,
                )
            } else {
                seq_return_lift(
                    old(operands)@.skip(old(operands)@.len() - amt),
                    old(self).n_imports,
                )
            }),
            final(operands)@ == old(operands)@.take(old(operands)@.len() - amt),
    {
        let ghost ops = old(operands)@.skip(old(operands)@.len() - amt);
        let base = operands.len() - amt;
        match self.lift_lower {
            LiftLower::LowerArgsLiftResults => {
                if amt > 0 {
                    let mut k: usize = 0;
                    while k < amt
                        invariant
                            base + amt == old(operands)@.len(),
                            operands@ == old(operands)@,
                            k <= amt,
                            self.cur@ == old(self).cur@ + seq_push_return_values(
                                ops.take(k as int),
                                self.n_imports,
                            ),
                            self.same_aux(old(self)),
                            self.locals == old(self).locals,
                            self.js_count == old(self).js_count,
                            old(self).blocks_ok() ==> self.blocks_ok(),
                        decreases amt - k,
                    {
                        proof {
                            assert(ops.take(k + 1) =~= ops.take(k as int).push(ops[k as int]));
                            lemma_seq_push_return_values_push(
                                ops.take(k as int),
                                ops[k as int],
                                self.n_imports,
                            );
                            assert(ops[k as int] == old(operands)@[base + k]);
                        }
                        let val = operands[base + k].unwrap_js();
                        self.inst(Instr::I32Const(#[verifier::truncate] (val as i32)));
                        self.inst(Instr::Call(self.n_imports + SMW_PUSH_RETURN_VALUE));
                        assert(self.cur@ =~= old(self).cur@ + seq_push_return_values(
                            ops.take(k + 1),
                            self.n_imports,
                        ));
                        k += 1;
                    }
                    assert(ops.take(amt as int) =~= ops);
                    self.inst(Instr::LocalGet(1));
                    self.inst(Instr::LocalGet(2));
                    self.inst(Instr::Call(self.n_imports + SMW_FINISH_RETURNS));
                }
                self.inst(Instr::Call(self.n_imports + SMW_CLEAR_OPERANDS));
                self.inst(Instr::I32Const(1));
                self.inst(Instr::Ret);
                assert(self.cur@ =~= old(self).cur@ + seq_return_lower(ops, self.n_imports));
            },
            LiftLower::LiftArgsLowerResults => {
                self.inst(Instr::Call(self.n_imports + SMW_CLEAR_OPERANDS));
                let mut k: usize = 0;
                while k < amt
                    invariant
                        base + amt == old(operands)@.len(),
                        operands@ == old(operands)@,
                        k <= amt,
                        self.cur@ == old(self).cur@ + seq![
                            Instr::Call((self.n_imports + SMW_CLEAR_OPERANDS) as u32),
                        ] + seq_local_gets(ops.take(k as int)),
                        self.same_aux(old(self)),
                        self.locals == old(self).locals,
                        self.js_count == old(self).js_count,
                        old(self).blocks_ok() ==> self.blocks_ok(),
                    decreases amt - k,
                {
                    proof {
                        assert(ops.take(k + 1) =~= ops.take(k as int).push(ops[k as int]));
                        lemma_seq_local_gets_push(ops.take(k as int), ops[k as int]);
                        assert(ops[k as int] == old(operands)@[base + k]);
                    }
                    let local = operands[base + k].unwrap_wasm();
                    self.inst(Instr::LocalGet(local));
                    assert(self.cur@ =~= old(self).cur@ + seq![
                        Instr::Call((self.n_imports + SMW_CLEAR_OPERANDS) as u32),
                    ] + seq_local_gets(ops.take(k + 1)));
                    k += 1;
                }
                assert(ops.take(amt as int) =~= ops);
                self.inst(Instr::Ret);
                assert(self.cur@ =~= old(self).cur@ + seq_return_lift(ops, self.n_imports));
            },
        }
        operands.truncate(base);
        assert(final(operands)@ =~= old(operands)@.take(old(operands)@.len() - amt));
    }

    /// Consume a `CallWasm` instruction: pop the wire arguments, call the
    /// interface import registered for `(module, name)`, capture each result
    /// in a fresh local, and release every allocation enqueued for freeing.
    pub fn call_wasm(
        &mut self,
        imports: &ImportMap,
        module: &str,
        name: &str,
        n_params: usize,
        results: &Vec<ValTy>,
        operands: &mut Vec<Operand>,
    )
        requires
            old(self).inv(),
            old(self).room(results@.len() as int, 0),
            imports.spec_lookup(module@, name@) is Some,
            imports.indices_lt(old(self).n_imports),
            n_params <= old(operands)@.len(),
            forall|k: int|
                old(operands)@.len() - n_params <= k < old(operands)@.len() ==> old(
                    operands,
                )@[k] is Wasm,
        ensures
            old(self).blocks_ok() ==> final(self).blocks_ok(),
            final(self).same_meta(old(self)),
            final(self).outer == old(self).outer,
            final(self).block_results == old(self).block_results,
            final(self).iter_elems == old(self).iter_elems,
            final(self).iter_base_pointers == old(self).iter_base_pointers,
            final(self).scratch == old(self).scratch,
            final(self).js_count == old(self).js_count,
            final(self).locals@ == old(self).locals@ + results@,
            final(self).to_free@ =~= Seq::<(u32, u32, u32)>::empty(),
            final(self).cur@ == old(self).cur@ + seq_local_gets(
                old(operands)@.skip(old(operands)@.len() - n_params),
            ) + seq![Instr::Call(imports.spec_lookup(module@, name@)->Some_0)]
                + seq_local_sets_rev(old(self).next_local(), results@.len())
                + seq_drain(old(self).to_free@, old(self).n_imports),
            final(operands)@ == old(operands)@.take(old(operands)@.len() - n_params)
                + Seq::new(
                results@.len(),
                |k: int| Operand::Wasm((old(self).next_local() + k) as u32),
            ),
    {
        let ghost args = old(operands)@.skip(old(operands)@.len() - n_params);
        let base = operands.len() - n_params;

        let mut k: usize = 0;
        while k < n_params
            invariant
                base + n_params == old(operands)@.len(),
                operands@ == old(operands)@,
                k <= n_params,
                self.same_aux(old(self)),
                self.locals == old(self).locals,
                self.js_count == old(self).js_count,
                old(self).blocks_ok() ==> self.blocks_ok(),
                self.cur@ == old(self).cur@ + seq_local_gets(args.take(k as int)),
            decreases n_params - k,
        {
            proof {
                assert(args.take(k + 1) =~= args.take(k as int).push(args[k as int]));
                lemma_seq_local_gets_push(args.take(k as int), args[k as int]);
                assert(args[k as int] == old(operands)@[base + k]);
            }
            let local = operands[base + k].unwrap_wasm();
            self.inst(Instr::LocalGet(local));
            assert(self.cur@ =~= old(self).cur@ + seq_local_gets(args.take(k + 1)));
            k += 1;
        }
        assert(args.take(n_params as int) =~= args);

        let func_index = match imports.lookup(module, name) {
            Option::Some(idx) => idx,
            Option::None => {
                proof {
                    assert(false);
                }
                0
            },
        };
        proof {
            lemma_lookup_lt(imports, module@, name@, self.n_imports);
        }
        self.inst(Instr::Call(func_index));

        operands.truncate(base);
        let ghost mid_cur = self.cur@;
        let n_results = results.len();
        let res_base: u32 = self.n_outer_params + self.locals.len() as u32;
        assert(res_base == old(self).next_local());
        let mut k2: usize = 0;
        while k2 < n_results
            invariant
                k2 <= n_results,
                self.same_meta(old(self)),
                self.outer == old(self).outer,
                self.block_results == old(self).block_results,
                self.iter_elems == old(self).iter_elems,
                self.iter_base_pointers == old(self).iter_base_pointers,
                self.to_free == old(self).to_free,
                self.scratch == old(self).scratch,
                self.js_count == old(self).js_count,
                self.cur@ == mid_cur,
                self.locals@ == old(self).locals@ + results@.take(k2 as int),
                old(self).blocks_ok() ==> self.blocks_ok(),
            decreases n_results - k2,
        {
            let l = self.new_local(results[k2]);
            assert(self.locals@ =~= old(self).locals@ + results@.take(k2 + 1));
            k2 += 1;
        }
        assert(results@.take(n_results as int) =~= results@);

        let mut k3: usize = n_results;
        while k3 > 0
            invariant
                k3 <= n_results,
                self.same_meta(old(self)),
                self.outer == old(self).outer,
                self.block_results == old(self).block_results,
                self.iter_elems == old(self).iter_elems,
                self.iter_base_pointers == old(self).iter_base_pointers,
                self.to_free == old(self).to_free,
                self.scratch == old(self).scratch,
                self.js_count == old(self).js_count,
                self.locals@ == old(self).locals@ + results@,
                res_base + n_results <= u32::MAX,
                self.cur@ == mid_cur + seq_local_sets_rev(
                    (res_base + k3) as u32,
                    (n_results - k3) as nat,
                ),
                old(self).blocks_ok() ==> self.blocks_ok(),
            decreases k3,
        {
            k3 -= 1;
            self.inst(Instr::LocalSet(res_base + k3 as u32));
            proof {
                lemma_seq_local_sets_rev_step(
                    (res_base + k3) as u32,
                    (n_results - k3 - 1) as nat,
                );
            }
            assert(self.cur@ =~= mid_cur + seq_local_sets_rev(
                (res_base + k3) as u32,
                (n_results - k3) as nat,
            ));
        }
        let ghost sets_cur = self.cur@;
        assert(sets_cur == mid_cur + seq_local_sets_rev(res_base, n_results as nat));

        let mut k4: usize = 0;
        let n_free = self.to_free.len();
        let ghost frees = old(self).to_free@;
        while k4 < n_free
            invariant
                k4 <= n_free,
                n_free == frees.len(),
                self.same_meta(old(self)),
                self.outer == old(self).outer,
                self.block_results == old(self).block_results,
                self.iter_elems == old(self).iter_elems,
                self.iter_base_pointers == old(self).iter_base_pointers,
                self.to_free@ == frees,
                self.scratch == old(self).scratch,
                self.js_count == old(self).js_count,
                self.locals@ == old(self).locals@ + results@,
                self.cur@ == sets_cur + seq_drain(frees.take(k4 as int), self.n_imports),
                old(self).blocks_ok() ==> self.blocks_ok(),
            decreases n_free - k4,
        {
            proof {
                assert(frees.take(k4 + 1) =~= frees.take(k4 as int).push(frees[k4 as int]));
                lemma_seq_drain_push(frees.take(k4 as int), frees[k4 as int], self.n_imports);
            }
            let (ptr, len, alignment) = self.to_free[k4];
            self.inst(Instr::LocalGet(ptr));
            self.inst(Instr::LocalGet(len));
            self.inst(Instr::I32Const(#[verifier::truncate] (alignment as i32)));
            self.inst(Instr::Call(self.n_imports + SMW_CANONICAL_ABI_FREE));
            assert(self.cur@ =~= sets_cur + seq_drain(frees.take(k4 + 1), self.n_imports));
            k4 += 1;
        }
        assert(frees.take(n_free as int) =~= frees);
        self.to_free.clear();

        let mut k5: usize = 0;
        while k5 < n_results
            invariant
                k5 <= n_results,
                operands@ == old(operands)@.take(old(operands)@.len() - n_params) + Seq::new(
                    k5 as nat,
                    |k: int| Operand::Wasm((res_base + k) as u32),
                ),
                res_base + n_results <= u32::MAX,
            decreases n_results - k5,
        {
            operands.push(Operand::Wasm(res_base + k5 as u32));
            assert(operands@ =~= old(operands)@.take(old(operands)@.len() - n_params) + Seq::new(
                (k5 + 1) as nat,
                |k: int| Operand::Wasm((res_base + k) as u32),
            ));
            k5 += 1;
        }
    }
}

/// A registered import's index is below the interface-import count, so a
/// `call` of it stays inside the interface slice of the index space.
pub proof fn lemma_lookup_lt(imports: &ImportMap, module: Seq<char>, func: Seq<char>, n: u32)
    requires
        imports.spec_lookup(module, func) is Some,
        imports.indices_lt(n),
    ensures
        imports.spec_lookup(module, func)->Some_0 < n,
{
    let ms = imports@;
    let m = find_module_witness(ms, module);
    lemma_find_module_witness(ms, module);
    let mv = crate::imports_map::find_module(ms, module)->Some_0;
    lemma_find_func_witness(mv.funcs, func);
}

/// The index of the found module within the sequence.
pub open spec fn find_module_witness(ms: Seq<crate::imports_map::ModuleView>, name: Seq<char>) -> int {
    choose|i: int| 0 <= i < ms.len() && ms[i] == crate::imports_map::find_module(ms, name)->Some_0
}

pub proof fn lemma_find_module_witness(ms: Seq<crate::imports_map::ModuleView>, name: Seq<char>)
    requires
        crate::imports_map::find_module(ms, name) is Some,
    ensures
        exists|i: int|
            0 <= i < ms.len() && ms[i] == crate::imports_map::find_module(ms, name)->Some_0,
    decreases ms.len(),
{
    if ms[0].module_name == name {
        assert(ms[0] == crate::imports_map::find_module(ms, name)->Some_0);
    } else {
        lemma_find_module_witness(ms.drop_first(), name);
        let i = choose|i: int|
            0 <= i < ms.drop_first().len() && ms.drop_first()[i] == crate::imports_map::find_module(
                ms.drop_first(),
                name,
            )->Some_0;
        assert(ms[i + 1] == crate::imports_map::find_module(ms, name)->Some_0);
    }
}

pub proof fn lemma_find_func_witness(fs: Seq<crate::imports_map::EntryView>, name: Seq<char>)
    requires
        crate::imports_map::find_func(fs, name) is Some,
    ensures
        exists|j: int|
            0 <= j < fs.len() && fs[j] == crate::imports_map::find_func(fs, name)->Some_0,
    decreases fs.len(),
{
    if fs[0].func_name == name {
        assert(fs[0] == crate::imports_map::find_func(fs, name)->Some_0);
    } else {
        lemma_find_func_witness(fs.drop_first(), name);
        let j = choose|j: int|
            0 <= j < fs.drop_first().len() && fs.drop_first()[j] == crate::imports_map::find_func(
                fs.drop_first(),
                name,
            )->Some_0;
        assert(fs[j + 1] == crate::imports_map::find_func(fs, name)->Some_0);
    }
}

pub proof fn lemma_seq_local_sets_rev_step(b: u32, m: nat)
    requires
        b + m + 1 <= u32::MAX,
    ensures
        seq_local_sets_rev((b + 1) as u32, m) + seq![Instr::LocalSet(b)] =~= seq_local_sets_rev(
            b,
            m + 1,
        ),
    decreases m,
{
    if m == 0 {
        assert(seq_local_sets_rev((b + 1) as u32, 0) =~= Seq::<Instr>::empty());
        assert(seq_local_sets_rev(b, 1) == seq![Instr::LocalSet(b)] + seq_local_sets_rev(b, 0));
        assert(seq_local_sets_rev(b, 0) =~= Seq::<Instr>::empty());
    } else {
        lemma_seq_local_sets_rev_step(b, (m - 1) as nat);
        assert(seq_local_sets_rev((b + 1) as u32, m) + seq![Instr::LocalSet(b)] =~= seq![
            Instr::LocalSet((b + m) as u32),
        ] + (seq_local_sets_rev((b + 1) as u32, (m - 1) as nat) + seq![Instr::LocalSet(b)]));
    }
}

} // verus!

verus! {

/// The code that spreads the iterable in slot `iterable` into an engine
/// array, allocates engine memory for the lowered elements, and opens the
/// per-element loop, up to the point where the captured element block is
/// spliced in.
pub open spec fn seq_list_lower_pre(
    iterable: u32,
    n_imp: u32,
    length: u32,
    index: u32,
    ptr: u32,
    ibp: u32,
    elem_slot: u32,
    size: u32,
) -> Seq<Instr> {
    seq![
        Instr::I32Const(iterable as i32),
        Instr::Call((n_imp + SMW_SPREAD_INTO_ARRAY) as u32),
        Instr::LocalSet(length),
        Instr::LocalGet(length),
        Instr::I32Const(size as i32),
        Instr::I32Mul,
        Instr::Call((n_imp + SMW_MALLOC) as u32),
        Instr::LocalSet(ptr),
        Instr::I32Const(0),
        Instr::LocalSet(index),
        Instr::BlockStart,
        Instr::LoopStart,
        Instr::LocalGet(index),
        Instr::LocalGet(length),
        Instr::I32GeU,
        Instr::BrIf(1),
        Instr::I32Const(iterable as i32),
        Instr::LocalGet(index),
        Instr::I32Const(elem_slot as i32),
        Instr::Call((n_imp + SMW_GET_ARRAY_ELEMENT) as u32),
        Instr::LocalGet(index),
        Instr::I32Const(size as i32),
        Instr::I32Mul,
        Instr::LocalGet(ptr),
        Instr::I32Add,
        Instr::LocalSet(ibp),
    ]
}

/// The tail of the per-element lowering loop: step the index and jump back.
pub open spec fn seq_list_lower_post(index: u32) -> Seq<Instr> {
    seq![
        Instr::LocalGet(index),
        Instr::I32Const(1),
        Instr::I32Add,
        Instr::LocalSet(index),
        Instr::Br(0),
        Instr::End,
        Instr::End,
    ]
}

/// The code that creates the result array and opens the per-element lifting
/// loop, up to the point where the captured element block is spliced in.
pub open spec fn seq_list_lift_pre(
    result: u32,
    n_imp: u32,
    len: u32,
    index: u32,
    ptr: u32,
    ibp: u32,
    size: u32,
) -> Seq<Instr> {
    seq![
        Instr::I32Const(result as i32),
        Instr::Call((n_imp + SMW_NEW_ARRAY) as u32),
        Instr::BlockStart,
        Instr::I32Const(0),
        Instr::LocalSet(index),
        Instr::LoopStart,
        Instr::LocalGet(index),
        Instr::LocalGet(len),
        Instr::I32GeU,
        Instr::BrIf(1),
        Instr::LocalGet(index),
        Instr::I32Const(size as i32),
        Instr::I32Mul,
        Instr::LocalGet(ptr),
        Instr::I32Add,
        Instr::LocalSet(ibp),
    ]
}

/// The tail of the per-element lifting loop: append the lifted element to
/// the result array, step the index and jump back; then release the source
/// allocation when `free` is set.
pub open spec fn seq_list_lift_post(
    result: u32,
    elem_slot: u32,
    index: u32,
    n_imp: u32,
    free: bool,
    ptr: u32,
    len: u32,
    align: u32,
) -> Seq<Instr> {
    seq![
        Instr::I32Const(result as i32),
        Instr::I32Const(elem_slot as i32),
        Instr::Call((n_imp + SMW_ARRAY_PUSH) as u32),
        Instr::I32Const(1),
        Instr::LocalGet(index),
        Instr::I32Add,
        Instr::LocalSet(index),
        Instr::Br(0),
        Instr::End,
        Instr::End,
    ] + if free {
        seq_free_entry((ptr, len, align), n_imp)
    } else {
        Seq::empty()
    }
}

impl Bindgen {
    /// Consume a `ListLower` instruction: pop the iterable's slot, the
    /// captured element block and the iteration bookkeeping, and emit the
    /// loop that lowers each element into freshly allocated engine memory.
    /// When no reallocation function was given, the allocation is enqueued
    /// for release after the call. Pushes the pointer and length locals.
    #[verifier::rlimit(60)]
    pub fn list_lower(
        &mut self,
        realloc: bool,
        elem_size: u32,
        elem_align: u32,
        operands: &mut Vec<Operand>,
    )
        requires
            old(self).inv(),
            old(self).room(3, 0),
            old(operands)@.len() > 0,
            old(operands)@.last() is Js,
            old(self).outer@.len() > 0,
            old(self).block_results@.len() > 0,
            old(self).block_results@.last()@.len() == 0,
            old(self).iter_elems@.len() > 0,
            old(self).iter_base_pointers@.len() > 0,
        ensures
            old(self).blocks_ok() ==> final(self).blocks_ok(),
            final(self).same_meta(old(self)),
            final(self).js_count == old(self).js_count,
            final(self).scratch == old(self).scratch,
            final(self).locals@ == old(self).locals@ + seq![ValTy::I32, ValTy::I32, ValTy::I32],
            final(self).outer@ == old(self).outer@.drop_last(),
            final(self).block_results@ == old(self).block_results@.drop_last(),
            final(self).iter_elems@ == old(self).iter_elems@.drop_last(),
            final(self).iter_base_pointers@ == old(self).iter_base_pointers@.drop_last(),
            final(self).to_free@ == (if realloc {
                old(self).to_free@
            } else {
                old(self).to_free@.push(
                    ((old(self).next_local() + 2) as u32, old(self).next_local(), elem_align),
                )
            }),
            final(self).cur@ == old(self).outer@.last()@ + seq_list_lower_pre(
                old(operands)@.last()->Js_0,
                old(self).n_imports,
                old(self).next_local(),
                (old(self).next_local() + 1) as u32,
                (old(self).next_local() + 2) as u32,
                old(self).iter_base_pointers@.last(),
                old(self).iter_elems@.last(),
                elem_size,
            ) + old(self).cur@ + seq_list_lower_post((old(self).next_local() + 1) as u32),
            final(operands)@ == old(operands)@.drop_last().push(
                Operand::Wasm((old(self).next_local() + 2) as u32),
            ).push(Operand::Wasm(old(self).next_local())),
    {
        let iterable = pop_js(operands);
        let mut block: Vec<Instr> = match self.outer.pop() {
            Option::Some(b) => b,
            Option::None => {
                proof {
                    assert(false);
                }
                Vec::new()
            },
        };
        core::mem::swap(&mut self.cur, &mut block);
        let _results = match self.block_results.pop() {
            Option::Some(r) => r,
            Option::None => {
                proof {
                    assert(false);
                }
                Vec::new()
            },
        };
        let iter_elem = match self.iter_elems.pop() {
            Option::Some(e) => e,
            Option::None => {
                proof {
                    assert(false);
                }
                0
            },
        };
        let iter_base_pointer = match self.iter_base_pointers.pop() {
            Option::Some(e) => e,
            Option::None => {
                proof {
                    assert(false);
                }
                0
            },
        };

        let length = self.new_local(ValTy::I32);
        let index = self.new_local(ValTy::I32);
        let ptr = self.new_local(ValTy::I32);

        self.inst(Instr::I32Const(#[verifier::truncate] (iterable as i32)));
        self.inst(Instr::Call(self.n_imports + SMW_SPREAD_INTO_ARRAY));
        self.inst(Instr::LocalSet(length));
        self.inst(Instr::LocalGet(length));
        self.inst(Instr::I32Const(#[verifier::truncate] (elem_size as i32)));
        self.inst(Instr::I32Mul);
        self.inst(Instr::Call(self.n_imports + SMW_MALLOC));
        self.inst(Instr::LocalSet(ptr));
        self.inst(Instr::I32Const(0));
        self.inst(Instr::LocalSet(index));
        self.inst(Instr::BlockStart);
        self.inst(Instr::LoopStart);
        self.inst(Instr::LocalGet(index));
        self.inst(Instr::LocalGet(length));
        self.inst(Instr::I32GeU);
        self.inst(Instr::BrIf(1));
        self.inst(Instr::I32Const(#[verifier::truncate] (iterable as i32)));
        self.inst(Instr::LocalGet(index));
        self.inst(Instr::I32Const(#[verifier::truncate] (iter_elem as i32)));
        self.inst(Instr::Call(self.n_imports + SMW_GET_ARRAY_ELEMENT));
        self.inst(Instr::LocalGet(index));
        self.inst(Instr::I32Const(#[verifier::truncate] (elem_size as i32)));
        self.inst(Instr::I32Mul);
        self.inst(Instr::LocalGet(ptr));
        self.inst(Instr::I32Add);
        self.inst(Instr::LocalSet(iter_base_pointer));
        assert(self.cur@ =~= old(self).outer@.last()@ + seq_list_lower_pre(
            iterable,
            old(self).n_imports,
            length,
            index,
            ptr,
            iter_base_pointer,
            iter_elem,
            elem_size,
        ));

        let ghost spliced_block = old(self).cur@;
        self.cur.append(&mut block);

        self.inst(Instr::LocalGet(index));
        self.inst(Instr::I32Const(1));
        self.inst(Instr::I32Add);
        self.inst(Instr::LocalSet(index));
        self.inst(Instr::Br(0));
        self.inst(Instr::End);
        self.inst(Instr::End);
        assert(self.cur@ =~= old(self).outer@.last()@ + seq_list_lower_pre(
            iterable,
            old(self).n_imports,
            length,
            index,
            ptr,
            iter_base_pointer,
            iter_elem,
            elem_size,
        ) + spliced_block + seq_list_lower_post(index));

        if !realloc {
            self.to_free.push((ptr, length, elem_align));
        }
        operands.push(Operand::Wasm(ptr));
        operands.push(Operand::Wasm(length));
    }

    /// Consume a `ListLift` instruction: pop the length and pointer locals,
    /// the captured element block and the iteration base pointer, and emit
    /// the loop that lifts each element and appends it to a fresh script
    /// array, releasing the source allocation afterwards when `free` is set.
    /// Pushes the array's slot.
    #[verifier::rlimit(60)]
    pub fn list_lift(
        &mut self,
        free: bool,
        elem_size: u32,
        elem_align: u32,
        operands: &mut Vec<Operand>,
    )
        requires
            old(self).inv(),
            old(self).room(1, 1),
            old(operands)@.len() >= 2,
            old(operands)@.last() is Wasm,
            old(operands)@[old(operands)@.len() - 2] is Wasm,
            old(self).outer@.len() > 0,
            old(self).block_results@.len() > 0,
            old(self).block_results@.last()@.len() == 1,
            old(self).block_results@.last()@[0] is Js,
            old(self).iter_base_pointers@.len() > 0,
        ensures
            old(self).blocks_ok() ==> final(self).blocks_ok(),
            final(self).same_meta(old(self)),
            final(self).scratch == old(self).scratch,
            final(self).to_free == old(self).to_free,
            final(self).iter_elems == old(self).iter_elems,
            final(self).js_count == old(self).js_count + 1,
            final(self).locals@ == old(self).locals@.push(ValTy::I32),
            final(self).outer@ == old(self).outer@.drop_last(),
            final(self).block_results@ == old(self).block_results@.drop_last(),
            final(self).iter_base_pointers@ == old(self).iter_base_pointers@.drop_last(),
            final(self).cur@ == old(self).outer@.last()@ + seq_list_lift_pre(
                old(self).js_count,
                old(self).n_imports,
                old(operands)@.last()->Wasm_0,
                old(self).next_local(),
                old(operands)@[old(operands)@.len() - 2]->Wasm_0,
                old(self).iter_base_pointers@.last(),
                elem_size,
            ) + old(self).cur@ + seq_list_lift_post(
                old(self).js_count,
                old(self).block_results@.last()@[0]->Js_0,
                old(self).next_local(),
                old(self).n_imports,
                free,
                old(operands)@[old(operands)@.len() - 2]->Wasm_0,
                old(operands)@.last()->Wasm_0,
                elem_align,
            ),
            final(operands)@ == old(operands)@.drop_last().drop_last().push(
                Operand::Js(old(self).js_count),
            ),
    {
        let len = pop_wasm(operands);
        let ptr = pop_wasm(operands);
        let mut block: Vec<Instr> = match self.outer.pop() {
            Option::Some(b) => b,
            Option::None => {
                proof {
                    assert(false);
                }
                Vec::new()
            },
        };
        core::mem::swap(&mut self.cur, &mut block);
        let block_results = match self.block_results.pop() {
            Option::Some(r) => r,
            Option::None => {
                proof {
                    assert(false);
                }
                Vec::new()
            },
        };
        let elem_slot = block_results[0].unwrap_js();
        let iter_base_pointer = match self.iter_base_pointers.pop() {
            Option::Some(e) => e,
            Option::None => {
                proof {
                    assert(false);
                }
                0
            },
        };

        let index = self.new_local(ValTy::I32);
        let result = self.next_js();

        self.inst(Instr::I32Const(#[verifier::truncate] (result as i32)));
        self.inst(Instr::Call(self.n_imports + SMW_NEW_ARRAY));
        self.inst(Instr::BlockStart);
        self.inst(Instr::I32Const(0));
        self.inst(Instr::LocalSet(index));
        self.inst(Instr::LoopStart);
        self.inst(Instr::LocalGet(index));
        self.inst(Instr::LocalGet(len));
        self.inst(Instr::I32GeU);
        self.inst(Instr::BrIf(1));
        self.inst(Instr::LocalGet(index));
        self.inst(Instr::I32Const(#[verifier::truncate] (elem_size as i32)));
        self.inst(Instr::I32Mul);
        self.inst(Instr::LocalGet(ptr));
        self.inst(Instr::I32Add);
        self.inst(Instr::LocalSet(iter_base_pointer));
        assert(self.cur@ =~= old(self).outer@.last()@ + seq_list_lift_pre(
            result,
            old(self).n_imports,
            len,
            index,
            ptr,
            iter_base_pointer,
            elem_size,
        ));

        let ghost spliced_block = old(self).cur@;
        self.cur.append(&mut block);

        self.inst(Instr::I32Const(#[verifier::truncate] (result as i32)));
        self.inst(Instr::I32Const(#[verifier::truncate] (elem_slot as i32)));
        self.inst(Instr::Call(self.n_imports + SMW_ARRAY_PUSH));
        self.inst(Instr::I32Const(1));
        self.inst(Instr::LocalGet(index));
        self.inst(Instr::I32Add);
        self.inst(Instr::LocalSet(index));
        self.inst(Instr::Br(0));
        self.inst(Instr::End);
        self.inst(Instr::End);
        if free {
            self.inst(Instr::LocalGet(ptr));
            self.inst(Instr::LocalGet(len));
            self.inst(Instr::I32Const(#[verifier::truncate] (elem_align as i32)));
            self.inst(Instr::Call(self.n_imports + SMW_CANONICAL_ABI_FREE));
        }
        assert(self.cur@ =~= old(self).outer@.last()@ + seq_list_lift_pre(
            result,
            old(self).n_imports,
            len,
            index,
            ptr,
            iter_base_pointer,
            elem_size,
        ) + spliced_block + seq_list_lift_post(
            result,
            elem_slot,
            index,
            old(self).n_imports,
            free,
            ptr,
            len,
            elem_align,
        ));
        operands.push(Operand::Js(result));
    }

}

} // verus!

verus! {

/// The code that hands each script-value slot to the engine as a call
/// argument, in sequence order.
pub open spec fn seq_push_args(ops: Seq<Operand>, n_imp: u32) -> Seq<Instr>
    decreases ops.len(),
{
    if ops.len() == 0 {
        Seq::empty()
    } else {
        seq![
            Instr::I32Const(ops[0]->Js_0 as i32),
            Instr::Call((n_imp + SMW_PUSH_ARG) as u32),
        ] + seq_push_args(ops.drop_first(), n_imp)
    }
}

pub proof fn lemma_seq_push_args_push(ops: Seq<Operand>, o: Operand, n_imp: u32)
    ensures
        seq_push_args(ops.push(o), n_imp) =~= seq_push_args(ops, n_imp) + seq![
            Instr::I32Const(o->Js_0 as i32),
            Instr::Call((n_imp + SMW_PUSH_ARG) as u32),
        ],
    decreases ops.len(),
{
    if ops.len() == 0 {
        assert(ops.push(o).drop_first() =~= Seq::<Operand>::empty());
        assert(ops.push(o)[0] == o);
        assert(seq_push_args(ops.push(o), n_imp) == seq![
            Instr::I32Const(o->Js_0 as i32),
            Instr::Call((n_imp + SMW_PUSH_ARG) as u32),
        ] + seq_push_args(Seq::<Operand>::empty(), n_imp));
        assert(seq![
            Instr::I32Const(o->Js_0 as i32),
            Instr::Call((n_imp + SMW_PUSH_ARG) as u32),
        ] + Seq::<Instr>::empty() =~= Seq::<Instr>::empty() + seq![
            Instr::I32Const(o->Js_0 as i32),
            Instr::Call((n_imp + SMW_PUSH_ARG) as u32),
        ]);
    } else {
        assert(ops.push(o)[0] == ops[0]);
        assert(ops.push(o).drop_first() =~= ops.drop_first().push(o));
        lemma_seq_push_args_push(ops.drop_first(), o, n_imp);
        assert(seq_push_args(ops.push(o), n_imp) == seq![
            Instr::I32Const(ops[0]->Js_0 as i32),
            Instr::Call((n_imp + SMW_PUSH_ARG) as u32),
        ] + (seq_push_args(ops.drop_first(), n_imp) + seq![
            Instr::I32Const(o->Js_0 as i32),
            Instr::Call((n_imp + SMW_PUSH_ARG) as u32),
        ]));
        assert(seq![
            Instr::I32Const(ops[0]->Js_0 as i32),
            Instr::Call((n_imp + SMW_PUSH_ARG) as u32),
        ] + (seq_push_args(ops.drop_first(), n_imp) + seq![
            Instr::I32Const(o->Js_0 as i32),
            Instr::Call((n_imp + SMW_PUSH_ARG) as u32),
        ]) =~= (seq![
            Instr::I32Const(ops[0]->Js_0 as i32),
            Instr::Call((n_imp + SMW_PUSH_ARG) as u32),
        ] + seq_push_args(ops.drop_first(), n_imp)) + seq![
            Instr::I32Const(o->Js_0 as i32),
            Instr::Call((n_imp + SMW_PUSH_ARG) as u32),
        ]);
    }
}

/// The code that allocates engine memory for a function name and copies the
/// name's bytes over from the glue data memory.
pub open spec fn seq_ci_name(local: u32, name_len: u32, offset: u32, n_imp: u32) -> Seq<Instr> {
    seq![
        Instr::I32Const((name_len + 1) as i32),
        Instr::Call((n_imp + SMW_MALLOC) as u32),
        Instr::LocalSet(local),
        Instr::LocalGet(local),
        Instr::I32Const(offset as i32),
        Instr::I32Const(name_len as i32),
        Instr::MemoryCopyToEngine,
    ]
}

/// The engine call that invokes the named script function.
pub open spec fn seq_ci_call(
    local: u32,
    name_len: u32,
    n_results: u32,
    first_result: u32,
    n_imp: u32,
) -> Seq<Instr> {
    seq![
        Instr::LocalGet(local),
        Instr::I32Const(name_len as i32),
        Instr::I32Const(n_results as i32),
        Instr::I32Const(first_result as i32),
        Instr::Call((n_imp + SMW_CALL) as u32),
    ]
}

/// The result-slot argument passed when the script function returns
/// nothing: a sentinel that is never read.
pub const NO_RESULT_SLOT: u32 = 0xFFFF_FFFF;

impl Bindgen {
    /// Consume a `CallInterface` instruction: pop the script-value
    /// arguments, hand them to the engine, copy the function's name into
    /// engine memory (a fresh allocation per call), and invoke the named
    /// script function, with `n_results` fresh operand-vector slots for its
    /// results. Pushes those slots.
    #[verifier::rlimit(60)]
    pub fn call_interface(
        &mut self,
        name: &str,
        n_params: usize,
        n_results: usize,
        arena: &mut DataSegments,
        operands: &mut Vec<Operand>,
    )
        requires
            old(self).inv(),
            old(self).room(1, n_results as int),
            n_params <= old(operands)@.len(),
            forall|k: int|
                old(operands)@.len() - n_params <= k < old(operands)@.len() ==> old(
                    operands,
                )@[k] is Js,
            name.spec_bytes().len() + 1 <= u32::MAX,
            old(arena).bytes@.len() + name.spec_bytes().len() <= u32::MAX,
        ensures
            old(self).blocks_ok() ==> final(self).blocks_ok(),
            final(self).same_meta(old(self)),
            final(self).outer == old(self).outer,
            final(self).block_results == old(self).block_results,
            final(self).iter_elems == old(self).iter_elems,
            final(self).iter_base_pointers == old(self).iter_base_pointers,
            final(self).to_free == old(self).to_free,
            final(self).scratch == old(self).scratch,
            final(self).js_count == old(self).js_count + n_results,
            final(self).locals@ == old(self).locals@.push(ValTy::I32),
            final(arena).bytes@ == old(arena).bytes@ + name.spec_bytes(),
            final(self).cur@ == old(self).cur@ + seq_push_args(
                old(operands)@.skip(old(operands)@.len() - n_params),
                old(self).n_imports,
            ) + seq_ci_name(
                old(self).next_local(),
                name.spec_bytes().len() as u32,
                old(arena).bytes@.len() as u32,
                old(self).n_imports,
            ) + seq_ci_call(
                old(self).next_local(),
                name.spec_bytes().len() as u32,
                n_results as u32,
                if n_results == 0 {
                    NO_RESULT_SLOT
                } else {
                    old(self).js_count
                },
                old(self).n_imports,
            ),
            final(operands)@ == old(operands)@.take(old(operands)@.len() - n_params) + Seq::new(
                n_results as nat,
                |k: int| Operand::Js((old(self).js_count + k) as u32),
            ),
    {
        let ghost args = old(operands)@.skip(old(operands)@.len() - n_params);
        let base = operands.len() - n_params;

        let mut k: usize = 0;
        while k < n_params
            invariant
                base + n_params == old(operands)@.len(),
                operands@ == old(operands)@,
                k <= n_params,
                self.same_aux(old(self)),
                self.locals == old(self).locals,
                self.js_count == old(self).js_count,
                old(self).blocks_ok() ==> self.blocks_ok(),
                self.cur@ == old(self).cur@ + seq_push_args(args.take(k as int), self.n_imports),
            decreases n_params - k,
        {
            proof {
                assert(args.take(k + 1) =~= args.take(k as int).push(args[k as int]));
                lemma_seq_push_args_push(args.take(k as int), args[k as int], self.n_imports);
                assert(args[k as int] == old(operands)@[base + k]);
            }
            let js = operands[base + k].unwrap_js();
            self.inst(Instr::I32Const(#[verifier::truncate] (js as i32)));
            self.inst(Instr::Call(self.n_imports + SMW_PUSH_ARG));
            assert(self.cur@ =~= old(self).cur@ + seq_push_args(args.take(k + 1), self.n_imports));
            k += 1;
        }
        assert(args.take(n_params as int) =~= args);
        operands.truncate(base);

        let name_len = name.len() as u32;
        let func_name_local = self.new_local(ValTy::I32);
        self.inst(Instr::I32Const(#[verifier::truncate] ((name_len + 1) as i32)));
        self.inst(Instr::Call(self.n_imports + SMW_MALLOC));
        self.inst(Instr::LocalSet(func_name_local));

        let func_name_offset = arena.add(name.as_bytes());
        self.inst(Instr::LocalGet(func_name_local));
        self.inst(Instr::I32Const(#[verifier::truncate] (func_name_offset as i32)));
        self.inst(Instr::I32Const(#[verifier::truncate] (name_len as i32)));
        self.inst(Instr::MemoryCopyToEngine);

        let first_result: u32 = if n_results == 0 {
            NO_RESULT_SLOT
        } else {
            let first = self.js_count;
            let ghost pre_locals = self.locals@;
            let ghost pre_cur = self.cur@;
            let mut k2: usize = 0;
            while k2 < n_results
                invariant
                    k2 <= n_results,
                    first == old(self).js_count,
                    first + n_results <= u32::MAX,
                    self.same_aux(old(self)),
                    self.locals@ == pre_locals,
                    self.cur@ == pre_cur,
                    self.js_count == first + k2,
                    operands@ == old(operands)@.take(old(operands)@.len() - n_params) + Seq::new(
                        k2 as nat,
                        |k: int| Operand::Js((first + k) as u32),
                    ),
                decreases n_results - k2,
            {
                let js = self.next_js();
                operands.push(Operand::Js(js));
                assert(operands@ =~= old(operands)@.take(old(operands)@.len() - n_params)
                    + Seq::new((k2 + 1) as nat, |k: int| Operand::Js((first + k) as u32)));
                k2 += 1;
            }
            first
        };
        if n_results == 0 {
            assert(operands@ =~= old(operands)@.take(old(operands)@.len() - n_params) + Seq::new(
                n_results as nat,
                |k: int| Operand::Js((old(self).js_count + k) as u32),
            ));
        }

        self.inst(Instr::LocalGet(func_name_local));
        self.inst(Instr::I32Const(#[verifier::truncate] (name_len as i32)));
        self.inst(Instr::I32Const(#[verifier::truncate] (n_results as u32 as i32)));
        self.inst(Instr::I32Const(#[verifier::truncate] (first_result as i32)));
        self.inst(Instr::Call(self.n_imports + SMW_CALL));

        assert(self.cur@ =~= old(self).cur@ + seq_push_args(args, self.n_imports) + seq_ci_name(
            func_name_local,
            name_len,
            func_name_offset,
            self.n_imports,
        ) + seq_ci_call(
            func_name_local,
            name_len,
            n_results as u32,
            first_result,
            self.n_imports,
        ));
    }

    /// Close the body: the block structure must be balanced, and the single
    /// remaining block becomes the body, terminated by `end`.
    pub fn finish(self) -> (r: GlueBody)
        requires
            self.outer@.len() == 0,
        ensures
            r.locals == self.locals,
            r.insns@ == self.cur@ + seq![Instr::End],
            self.blocks_ok() ==> glue_seq_ok(r.insns@, self.n_imports),
    {
        let mut insns = self.cur;
        insns.push(Instr::End);
        proof {
            if self.blocks_ok() {
                lemma_glue_seq_ok_add(self.cur@, seq![Instr::End], self.n_imports);
            }
        }
        GlueBody { locals: self.locals, insns }
    }
}

} // verus!
