//! The instructions the synthesizer emits, as library data.
//!
//! Every glue body and the bootstrap are built as sequences of these
//! instructions; the binary encoding happens only at the very end. Loads and
//! stores always address the engine's memory (index 0) with byte alignment,
//! so only the static offset is recorded.

use vstd::prelude::*;

verus! {

/// The index of the single mutable global holding the return-pointer
/// scratch address.
pub const RET_PTR_GLOBAL: u32 = 0;

/// The memory index of the engine's linear memory.
pub const SM_MEMORY: u32 = 0;

/// The memory index of the glue module's own data memory.
pub const GLUE_MEMORY: u32 = 1;

/// A WebAssembly instruction, restricted to what the synthesizer emits.
#[derive(Clone, Copy, Debug, PartialEq, Eq, Structural)]
pub enum Instr {
    Unreachable,
    /// An empty-typed `block`.
    BlockStart,
    /// An empty-typed `loop`.
    LoopStart,
    /// An empty-typed `if`.
    IfStart,
    End,
    Br(u32),
    BrIf(u32),
    Ret,
    Call(u32),
    LocalGet(u32),
    LocalSet(u32),
    LocalTee(u32),
    GlobalGet(u32),
    GlobalSet(u32),
    /// `i32.load` from the engine memory at the given static offset.
    I32Load(u32),
    /// `i32.store` to the engine memory at the given static offset.
    I32Store(u32),
    /// `memory.copy` from the glue data memory into the engine memory.
    MemoryCopyToEngine,
    I32Const(i32),
    I32Eq,
    I32GeU,
    I32Add,
    I32Mul,
    RefNullFunc,
    RefFunc(u32),
    TableSet(u32),
    TableGrow(u32),
}

/// The number of direct calls of `target` in `s`.
pub open spec fn count_calls(s: Seq<Instr>, target: u32) -> nat
    decreases s.len(),
{
    if s.len() == 0 {
        0
    } else {
        count_calls(s.drop_last(), target) + if s.last() == (Instr::Call(target)) {
            1nat
        } else {
            0nat
        }
    }
}

pub proof fn lemma_count_calls_add(a: Seq<Instr>, b: Seq<Instr>, target: u32)
    ensures
        count_calls(a + b, target) == count_calls(a, target) + count_calls(b, target),
    decreases b.len(),
{
    if b.len() == 0 {
        assert(a + b =~= a);
    } else {
        assert((a + b).drop_last() =~= a + b.drop_last());
        assert((a + b).last() == b.last());
        lemma_count_calls_add(a, b.drop_last(), target);
    }
}

} // verus!
