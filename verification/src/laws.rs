//! The module-wide laws: statements that relate several functions of the
//! library, proved from the contracts in [`crate::gen`] and
//! [`crate::bindgen`].

use vstd::prelude::*;
use crate::bindgen::{seq_drain, seq_free_entry};
use crate::engine::{SMW_CANONICAL_ABI_FREE, SMW_COUNT};
use crate::gen::{module_total_funcs, module_wf, GlueModule};
use crate::instr::{count_calls, lemma_count_calls_add, Instr};

verus! {

/// Index-space partition: in a well-formed assembled module, every direct
/// call in the code section targets an index inside the module's function
/// index space, and glue bodies in particular stay inside the import slices
/// (interface imports and engine imports).
pub proof fn lemma_call_targets_partitioned(m: GlueModule, k: int, j: int, t: u32)
    requires
        module_wf(m),
        0 <= k < m.code@.len(),
        0 <= j < m.code@[k].insns@.len(),
        m.code@[k].insns@[j] == Instr::Call(t),
    ensures
        t < module_total_funcs(m),
        k < m.code@.len() - 1 ==> t < m.n_imports + SMW_COUNT,
        k == m.code@.len() - 1 ==> m.n_imports <= t < m.n_imports + SMW_COUNT,
{
    if k < m.code@.len() - 1 {
        assert(crate::bindgen::glue_insn_ok(m.code@[k].insns@[j], m.n_imports));
    } else {
        assert(m.code@.last() == m.code@[k]);
        assert(crate::gen::boot_insn_ok(m.code@[k].insns@[j], m.n_imports));
    }
}

/// Bootstrap exclusivity: no synthesized glue body ever calls the engine's
/// startup routine; only the bootstrap, the last body of the code section,
/// may reference it.
pub proof fn lemma_only_bootstrap_starts_engine(m: GlueModule, k: int, j: int)
    requires
        module_wf(m),
        0 <= k < m.code@.len() - 1,
        0 <= j < m.code@[k].insns@.len(),
    ensures
        m.code@[k].insns@[j] != Instr::Call(m.n_imports),
{
    assert(crate::bindgen::glue_insn_ok(m.code@[k].insns@[j], m.n_imports));
}

/// Pending-free law: the drain a glue body emits after its interface-import
/// call releases each enqueued allocation exactly once — four instructions
/// per entry, ending in one call of `canonical_abi_free` with that entry's
/// pointer, length and alignment — and contains exactly one free call per
/// entry, so nothing is freed twice.
pub proof fn lemma_pending_free_drained(entries: Seq<(u32, u32, u32)>, n_imp: u32)
    ensures
        seq_drain(entries, n_imp).len() == 4 * entries.len(),
        forall|i: int|
            0 <= i < entries.len() ==> seq_drain(entries, n_imp).subrange(4 * i, 4 * i + 4)
                == seq_free_entry(#[trigger] entries[i], n_imp),
        count_calls(seq_drain(entries, n_imp), (n_imp + SMW_CANONICAL_ABI_FREE) as u32)
            == entries.len(),
    decreases entries.len(),
{
    if entries.len() == 0 {
        assert(count_calls(seq_drain(entries, n_imp), (n_imp + SMW_CANONICAL_ABI_FREE) as u32)
            == 0);
    } else {
        lemma_pending_free_drained(entries.drop_first(), n_imp);
        let head = seq_free_entry(entries[0], n_imp);
        let rest = seq_drain(entries.drop_first(), n_imp);
        assert(seq_drain(entries, n_imp) == head + rest);
        lemma_count_calls_add(head, rest, (n_imp + SMW_CANONICAL_ABI_FREE) as u32);
        assert(count_calls(head, (n_imp + SMW_CANONICAL_ABI_FREE) as u32) == 1) by {
            assert(head.drop_last() =~= seq![
                Instr::LocalGet(entries[0].0),
                Instr::LocalGet(entries[0].1),
                Instr::I32Const(entries[0].2 as i32),
            ]);
            assert(head.last() == Instr::Call((n_imp + SMW_CANONICAL_ABI_FREE) as u32));
            assert(count_calls(head.drop_last(), (n_imp + SMW_CANONICAL_ABI_FREE) as u32) == 0)
                by {
                assert(forall|x: int|
                    0 <= x < head.drop_last().len() ==> head.drop_last()[x] != Instr::Call(
                        (n_imp + SMW_CANONICAL_ABI_FREE) as u32,
                    ));
                lemma_count_calls_none(
                    head.drop_last(),
                    (n_imp + SMW_CANONICAL_ABI_FREE) as u32,
                );
            }
        }
        assert forall|i: int|
            0 <= i < entries.len() implies seq_drain(entries, n_imp).subrange(4 * i, 4 * i + 4)
            == seq_free_entry(#[trigger] entries[i], n_imp) by {
            if i == 0 {
                assert(seq_drain(entries, n_imp).subrange(0, 4) =~= head);
            } else {
                assert(entries.drop_first()[i - 1] == entries[i]);
                assert(seq_drain(entries, n_imp).subrange(4 * i, 4 * i + 4) =~= rest.subrange(
                    4 * (i - 1),
                    4 * (i - 1) + 4,
                ));
            }
        }
    }
}

/// A sequence without a call of `t` counts no calls of `t`.
proof fn lemma_count_calls_none(s: Seq<Instr>, t: u32)
    requires
        forall|x: int| 0 <= x < s.len() ==> s[x] != Instr::Call(t),
    ensures
        count_calls(s, t) == 0,
    decreases s.len(),
{
    if s.len() > 0 {
        lemma_count_calls_none(s.drop_last(), t);
    }
}

} // verus!

verus! {

/// Return-pointer sizing: the scratch size fixed at preprocessing covers
/// the return-pointer need of every function of every interface, in both
/// directions. Registration and glue synthesis only ever raise the size, so
/// the bootstrap's allocation is at least this bound.
pub proof fn lemma_scratch_covers_preprocessing(
    imports: Seq<crate::types::Interface>,
    exports: Seq<crate::types::Interface>,
    i: int,
    j: int,
)
    requires
        0 <= i,
        0 <= j,
    ensures
        i < imports.len() && j < imports[i].functions@.len() ==> crate::gen::sig_retptr_len(
            crate::types::Direction::Import,
            imports[i].functions@[j],
        ) <= crate::gen::spec_scratch_size(imports, exports),
        i < exports.len() && j < exports[i].functions@.len() ==> crate::gen::sig_retptr_len(
            crate::types::Direction::Export,
            exports[i].functions@[j],
        ) <= crate::gen::spec_scratch_size(imports, exports),
{
    if i < imports.len() && j < imports[i].functions@.len() {
        crate::gen::lemma_max_retptr_covers(imports, crate::types::Direction::Import, i, j);
    }
    if i < exports.len() && j < exports[i].functions@.len() {
        crate::gen::lemma_max_retptr_covers(exports, crate::types::Direction::Export, i, j);
    }
}

} // verus!
