//! The instruction walker: drives the glue-body synthesizer over a
//! function's types in canonical-ABI order, lowering script values to wire
//! scalars and lifting wire scalars to script values, one type at a time.
//! The code each walk emits is pinned exactly: [`lower_code`] and
//! [`lift_code`] compose the per-instruction sequences of
//! [`crate::bindgen`] recursively over the type.

use vstd::prelude::*;
use crate::bindgen::{pop_wasm, Bindgen, Operand};
use crate::instr::Instr;
use crate::types::{align_of_ty, flatten_ty, size_of_ty, IdlType};

verus! {

/// The locals lowering one value allocates.
pub open spec fn ty_lower_lcost(t: IdlType) -> nat
    decreases t,
{
    match t {
        IdlType::U32 => 1,
        IdlType::Str => 2,
        IdlType::List(e) => 4 + ty_lower_lcost(*e),
    }
}

/// The operand-vector slots lowering one value uses.
pub open spec fn ty_lower_jcost(t: IdlType) -> nat
    decreases t,
{
    match t {
        IdlType::U32 => 0,
        IdlType::Str => 0,
        IdlType::List(e) => 1 + ty_lower_jcost(*e),
    }
}

/// The locals lifting one value allocates.
pub open spec fn ty_lift_lcost(t: IdlType) -> nat
    decreases t,
{
    match t {
        IdlType::U32 => 0,
        IdlType::Str => 0,
        IdlType::List(e) => 2 + flatten_ty(*e).len() + ty_lift_lcost(*e),
    }
}

/// The operand-vector slots lifting one value uses.
pub open spec fn ty_lift_jcost(t: IdlType) -> nat
    decreases t,
{
    match t {
        IdlType::U32 => 1,
        IdlType::Str => 1,
        IdlType::List(e) => 1 + ty_lift_jcost(*e),
    }
}

/// The wasm locals that hold a lowered value's wire scalars, in wire order,
/// when lowering starts with `l` as the next fresh local.
pub open spec fn lower_result_locals(t: IdlType, l: u32) -> Seq<u32>
    decreases t,
{
    match t {
        IdlType::U32 => seq![l],
        IdlType::Str => seq![l, (l + 1) as u32],
        IdlType::List(e) => {
            let nl = (l + ty_lower_lcost(*e) + 1) as u32;
            seq![(nl + 2) as u32, nl]
        },
    }
}

/// The pending-free entries lowering one value enqueues, when lowering
/// starts with `l` as the next fresh local. With a reallocation function
/// the callee owns the allocations and nothing is enqueued.
pub open spec fn lower_frees(t: IdlType, realloc: bool, l: u32) -> Seq<(u32, u32, u32)>
    decreases t,
{
    if realloc {
        Seq::empty()
    } else {
        match t {
            IdlType::U32 => Seq::empty(),
            IdlType::Str => seq![(l, (l + 1) as u32, 1u32)],
            IdlType::List(e) => {
                let nl = (l + ty_lower_lcost(*e) + 1) as u32;
                lower_frees(*e, realloc, l) + seq![
                    ((nl + 2) as u32, nl, crate::types::spec_align_of(*e)),
                ]
            },
        }
    }
}

/// The code lowering one value emits: `l` is the next fresh local, `j` the
/// next operand-vector slot, `src` the slot holding the value. A list opens
/// a block, lowers one element per turn of the loop and stores its scalars
/// at the iteration base pointer.
pub open spec fn lower_code(
    t: IdlType,
    realloc: bool,
    n_imp: u32,
    l: u32,
    j: u32,
    src: u32,
) -> Seq<Instr>
    decreases t,
{
    match t {
        IdlType::U32 => crate::bindgen::seq_i32_from_u32(src, n_imp, l),
        IdlType::Str => crate::bindgen::seq_list_canon_lower(src, n_imp, l, (l + 1) as u32),
        IdlType::List(e) => {
            let inner = lower_code(*e, realloc, n_imp, l, (j + 1) as u32, j);
            let ibp = (l + ty_lower_lcost(*e)) as u32;
            let nl = (ibp + 1) as u32;
            let vals = lower_result_locals(*e, l);
            let stores = if vals.len() == 1 {
                crate::bindgen::seq_i32_store(ibp, vals[0], 0)
            } else {
                crate::bindgen::seq_i32_store(ibp, vals[1], 4) + crate::bindgen::seq_i32_store(
                    ibp,
                    vals[0],
                    0,
                )
            };
            crate::bindgen::seq_list_lower_pre(
                src,
                n_imp,
                nl,
                (nl + 1) as u32,
                (nl + 2) as u32,
                ibp,
                j,
                crate::types::spec_size_of(*e),
            ) + inner + stores + crate::bindgen::seq_list_lower_post((nl + 1) as u32)
        },
    }
}

/// The operand-vector slot a lifted value lands in, when lifting starts
/// with `j` as the next slot.
pub open spec fn lift_result_slot(t: IdlType, j: u32) -> u32 {
    (j + ty_lift_jcost(t) - 1) as u32
}

/// The code lifting one value emits: `l` is the next fresh local, `j` the
/// next operand-vector slot, `srcs` the locals holding the value's wire
/// scalars. A list opens a block, loads one element's scalars from the
/// iteration base pointer per turn of the loop and lifts them.
pub open spec fn lift_code(
    t: IdlType,
    free: bool,
    n_imp: u32,
    l: u32,
    j: u32,
    srcs: Seq<u32>,
) -> Seq<Instr>
    decreases t,
{
    match t {
        IdlType::U32 => crate::bindgen::seq_u32_from_i32(srcs[0], j, n_imp),
        IdlType::Str => crate::bindgen::seq_list_canon_lift(srcs[0], srcs[1], j, n_imp, free, 1),
        IdlType::List(e) => {
            let w = flatten_ty(*e).len();
            let loads = if w == 1 {
                crate::bindgen::seq_i32_load(l, 0, (l + 1) as u32)
            } else {
                crate::bindgen::seq_i32_load(l, 0, (l + 1) as u32) + crate::bindgen::seq_i32_load(
                    l,
                    4,
                    (l + 2) as u32,
                )
            };
            let inner_srcs = if w == 1 {
                seq![(l + 1) as u32]
            } else {
                seq![(l + 1) as u32, (l + 2) as u32]
            };
            let inner = lift_code(*e, free, n_imp, (l + 1 + w) as u32, j, inner_srcs);
            let index = (l + 1 + w + ty_lift_lcost(*e)) as u32;
            let result = (j + ty_lift_jcost(*e)) as u32;
            crate::bindgen::seq_list_lift_pre(
                result,
                n_imp,
                srcs[1],
                index,
                srcs[0],
                l,
                crate::types::spec_size_of(*e),
            ) + (loads + inner) + crate::bindgen::seq_list_lift_post(
                result,
                lift_result_slot(*e, j),
                index,
                n_imp,
                free,
                srcs[0],
                srcs[1],
                crate::types::spec_align_of(*e),
            )
        },
    }
}

/// Lower the script value on top of the operand stack into its wire
/// scalars. Consumes one slot operand and pushes one wasm-local operand per
/// wire scalar of `t`; the appended code is exactly [`lower_code`]. When
/// `realloc` is false, every allocation made on the way is enqueued on the
/// pending-free list, exactly [`lower_frees`].
#[verifier::rlimit(100)]
pub fn lower_ty(bg: &mut Bindgen, t: &IdlType, realloc: bool, operands: &mut Vec<Operand>)
    requires
        old(bg).inv(),
        old(bg).room(ty_lower_lcost(*t) as int, ty_lower_jcost(*t) as int),
        old(operands)@.len() > 0,
        old(operands)@.last() is Js,
    ensures
        final(bg).inv(),
        old(bg).blocks_ok() ==> final(bg).blocks_ok(),
        final(bg).same_meta(old(bg)),
        final(bg).outer@ == old(bg).outer@,
        final(bg).block_results@ == old(bg).block_results@,
        final(bg).iter_elems@ == old(bg).iter_elems@,
        final(bg).iter_base_pointers@ == old(bg).iter_base_pointers@,
        final(bg).scratch >= old(bg).scratch,
        crate::types::mentions_str(*t) ==> final(bg).scratch >= 1,
        final(bg).locals@.len() == old(bg).locals@.len() + ty_lower_lcost(*t),
        final(bg).js_count == old(bg).js_count + ty_lower_jcost(*t),
        final(bg).cur@ == old(bg).cur@ + lower_code(
            *t,
            realloc,
            old(bg).n_imports,
            old(bg).next_local(),
            old(bg).js_count,
            old(operands)@.last()->Js_0,
        ),
        final(bg).to_free@ == old(bg).to_free@ + lower_frees(
            *t,
            realloc,
            old(bg).next_local(),
        ),
        final(operands)@ == old(operands)@.drop_last() + lower_result_locals(
            *t,
            old(bg).next_local(),
        ).map_values(|x: u32| Operand::Wasm(x)),
        final(operands)@.len() == old(operands)@.len() - 1 + flatten_ty(*t).len(),
        final(operands)@.take(old(operands)@.len() - 1) == old(operands)@.drop_last(),
        forall|k: int|
            old(operands)@.len() - 1 <= k < final(operands)@.len() ==> final(operands)@[k] is Wasm,
    decreases *t,
{
    let ghost ops0 = old(operands)@;
    let ghost l0 = old(bg).next_local();
    let ghost j0 = old(bg).js_count;
    let ghost src = old(operands)@.last()->Js_0;
    match t {
        IdlType::U32 => {
            bg.i32_from_u32(operands);
            assert(final(operands)@ =~= ops0.drop_last() + lower_result_locals(
                *t,
                l0,
            ).map_values(|x: u32| Operand::Wasm(x)));
            assert(final(operands)@.take(ops0.len() - 1) =~= ops0.drop_last());
            assert(bg.to_free@ =~= old(bg).to_free@ + lower_frees(*t, realloc, l0));
        },
        IdlType::Str => {
            bg.list_canon_lower(realloc, 1, operands);
            assert(final(operands)@ =~= ops0.drop_last() + lower_result_locals(
                *t,
                l0,
            ).map_values(|x: u32| Operand::Wasm(x)));
            assert(final(operands)@.take(ops0.len() - 1) =~= ops0.drop_last());
            assert(bg.to_free@ =~= old(bg).to_free@ + lower_frees(*t, realloc, l0));
        },
        IdlType::List(e) => {
            bg.push_block();
            bg.iter_elem(operands);
            let ghost ops1 = operands@;
            assert(ops1.drop_last() =~= ops0);
            lower_ty(bg, e, realloc, operands);
            let ghost inner_code = lower_code(**e, realloc, bg.n_imports, l0, (j0 + 1) as u32, j0);
            assert(bg.cur@ =~= inner_code);
            let ghost vals = lower_result_locals(**e, l0);
            let ghost ops2 = operands@;
            let ghost w = flatten_ty(**e).len();
            assert(ops2 =~= ops0 + vals.map_values(|x: u32| Operand::Wasm(x)));
            assert(ops2.len() == ops0.len() + w);
            assert(ops2.take(ops0.len() as int) =~= ops0);
            bg.iter_base_pointer(operands);
            let bp = pop_wasm(operands);
            let ghost ibp = (l0 + ty_lower_lcost(**e)) as u32;
            assert(bp == ibp);
            assert(operands@ =~= ops2);
            match &**e {
                IdlType::U32 => {
                    assert(vals.len() == 1 && ops2.last() == Operand::Wasm(vals[0]));
                    assert(ops2 =~= ops0.push(ops2[ops0.len() as int]));
                    operands.push(Operand::Wasm(bp));
                    bg.i32_store(0, operands);
                    assert(operands@ =~= ops0);
                    assert(bg.cur@ =~= inner_code + crate::bindgen::seq_i32_store(
                        ibp,
                        vals[0],
                        0,
                    ));
                },
                _ => {
                    assert(vals.len() == 2 && ops2.last() == Operand::Wasm(vals[1])
                        && ops2[ops2.len() - 2] == Operand::Wasm(vals[0]));
                    assert(ops2 =~= ops0.push(ops2[ops0.len() as int]).push(
                        ops2[ops0.len() as int + 1],
                    ));
                    operands.push(Operand::Wasm(bp));
                    bg.i32_store(4, operands);
                    assert(operands@ =~= ops0.push(ops2[ops0.len() as int]));
                    operands.push(Operand::Wasm(bp));
                    bg.i32_store(0, operands);
                    assert(operands@ =~= ops0);
                    assert(bg.cur@ =~= inner_code + (crate::bindgen::seq_i32_store(
                        ibp,
                        vals[1],
                        4,
                    ) + crate::bindgen::seq_i32_store(ibp, vals[0], 0)));
                },
            }
            let ghost block = bg.cur@;
            bg.finish_block(Vec::new());
            bg.list_lower(realloc, size_of_ty(e), align_of_ty(e), operands);
            proof {
                let nl = (ibp + 1) as u32;
                assert(bg.outer@ =~= old(bg).outer@) by {
                    assert(old(bg).outer@.push(old(bg).cur).drop_last() =~= old(bg).outer@);
                }
                assert(bg.block_results@ =~= old(bg).block_results@);
                assert(bg.iter_elems@ =~= old(bg).iter_elems@);
                assert(bg.iter_base_pointers@ =~= old(bg).iter_base_pointers@);
                assert(bg.cur@ =~= old(bg).cur@ + lower_code(*t, realloc, bg.n_imports, l0, j0, src))
                    by {
                    assert(bg.cur@ =~= old(bg).cur@ + crate::bindgen::seq_list_lower_pre(
                        src,
                        bg.n_imports,
                        nl,
                        (nl + 1) as u32,
                        (nl + 2) as u32,
                        ibp,
                        j0,
                        crate::types::spec_size_of(**e),
                    ) + block + crate::bindgen::seq_list_lower_post((nl + 1) as u32));
                }
                assert(bg.to_free@ =~= old(bg).to_free@ + lower_frees(*t, realloc, l0));
                assert(final(operands)@ =~= ops0.drop_last() + lower_result_locals(
                    *t,
                    l0,
                ).map_values(|x: u32| Operand::Wasm(x)));
                assert(final(operands)@.take(ops0.len() - 1) =~= ops0.drop_last());
            }
        },
    }
}

/// Lift the wire scalars of `t` from the top of the operand stack into one
/// script value. Consumes one wasm-local operand per wire scalar of `t` and
/// pushes the slot [`lift_result_slot`]; the appended code is exactly
/// [`lift_code`]. When `free` is set, the consumed canonical-ABI
/// allocations are released as they are lifted.
#[verifier::rlimit(100)]
pub fn lift_ty(bg: &mut Bindgen, t: &IdlType, free: bool, operands: &mut Vec<Operand>)
    requires
        old(bg).inv(),
        old(bg).room(ty_lift_lcost(*t) as int, ty_lift_jcost(*t) as int),
        old(operands)@.len() >= flatten_ty(*t).len(),
        forall|k: int|
            old(operands)@.len() - flatten_ty(*t).len() <= k < old(operands)@.len() ==> old(
                operands,
            )@[k] is Wasm,
    ensures
        final(bg).inv(),
        old(bg).blocks_ok() ==> final(bg).blocks_ok(),
        final(bg).same_meta(old(bg)),
        final(bg).outer@ == old(bg).outer@,
        final(bg).block_results@ == old(bg).block_results@,
        final(bg).iter_elems@ == old(bg).iter_elems@,
        final(bg).iter_base_pointers@ == old(bg).iter_base_pointers@,
        final(bg).scratch >= old(bg).scratch,
        final(bg).to_free@ == old(bg).to_free@,
        final(bg).locals@.len() == old(bg).locals@.len() + ty_lift_lcost(*t),
        final(bg).js_count == old(bg).js_count + ty_lift_jcost(*t),
        final(bg).cur@ == old(bg).cur@ + lift_code(
            *t,
            free,
            old(bg).n_imports,
            old(bg).next_local(),
            old(bg).js_count,
            Seq::new(
                flatten_ty(*t).len(),
                |k: int| old(operands)@[old(operands)@.len() - flatten_ty(*t).len() + k]->Wasm_0,
            ),
        ),
        final(operands)@ == old(operands)@.take(
            old(operands)@.len() - flatten_ty(*t).len(),
        ).push(Operand::Js(lift_result_slot(*t, old(bg).js_count))),
        final(operands)@.len() == old(operands)@.len() - flatten_ty(*t).len() + 1,
        final(operands)@.drop_last() == old(operands)@.take(
            old(operands)@.len() - flatten_ty(*t).len(),
        ),
        final(operands)@.last() is Js,
    decreases *t,
{
    let ghost ops0 = old(operands)@;
    let ghost l0 = old(bg).next_local();
    let ghost j0 = old(bg).js_count;
    let ghost w0 = flatten_ty(*t).len();
    let ghost srcs = Seq::new(w0, |k: int| ops0[ops0.len() - w0 + k]->Wasm_0);
    match t {
        IdlType::U32 => {
            assert(srcs[0] == ops0.last()->Wasm_0);
            bg.u32_from_i32(operands);
            assert(final(operands)@ =~= ops0.take(ops0.len() - 1).push(
                Operand::Js(lift_result_slot(*t, j0)),
            ));
            assert(final(operands)@.drop_last() =~= ops0.take(ops0.len() - 1));
        },
        IdlType::Str => {
            assert(srcs[0] == ops0[ops0.len() - 2]->Wasm_0 && srcs[1] == ops0.last()->Wasm_0);
            bg.list_canon_lift(free, 1, operands);
            assert(final(operands)@ =~= ops0.take(ops0.len() - 2).push(
                Operand::Js(lift_result_slot(*t, j0)),
            ));
            assert(final(operands)@.drop_last() =~= ops0.take(ops0.len() - 2));
        },
        IdlType::List(e) => {
            assert(srcs[0] == ops0[ops0.len() - 2]->Wasm_0 && srcs[1] == ops0.last()->Wasm_0);
            bg.push_block();
            bg.iter_base_pointer(operands);
            let bp = pop_wasm(operands);
            assert(bp == l0);
            assert(operands@ =~= ops0);
            let ghost w = flatten_ty(**e).len();
            match &**e {
                IdlType::U32 => {
                    operands.push(Operand::Wasm(bp));
                    bg.i32_load(0, operands);
                    assert(operands@ =~= ops0.push(Operand::Wasm((l0 + 1) as u32)));
                    assert(bg.cur@ =~= crate::bindgen::seq_i32_load(l0, 0, (l0 + 1) as u32));
                },
                _ => {
                    operands.push(Operand::Wasm(bp));
                    bg.i32_load(0, operands);
                    assert(operands@ =~= ops0.push(Operand::Wasm((l0 + 1) as u32)));
                    operands.push(Operand::Wasm(bp));
                    bg.i32_load(4, operands);
                    assert(operands@ =~= ops0.push(Operand::Wasm((l0 + 1) as u32)).push(
                        Operand::Wasm((l0 + 2) as u32),
                    ));
                    assert(bg.cur@ =~= crate::bindgen::seq_i32_load(l0, 0, (l0 + 1) as u32)
                        + crate::bindgen::seq_i32_load(l0, 4, (l0 + 2) as u32));
                },
            }
            let ghost loads = bg.cur@;
            let ghost ops1 = operands@;
            let ghost inner_srcs = if w == 1 {
                seq![(l0 + 1) as u32]
            } else {
                seq![(l0 + 1) as u32, (l0 + 2) as u32]
            };
            assert(ops1.len() == ops0.len() + w);
            assert(forall|k: int| ops0.len() <= k < ops1.len() ==> ops1[k] is Wasm);
            assert(ops1.take(ops1.len() - w) =~= ops0);
            assert(Seq::new(w, |k: int| ops1[ops1.len() - w + k]->Wasm_0) =~= inner_srcs);
            lift_ty(bg, e, free, operands);
            assert(bg.cur@ =~= loads + lift_code(
                **e,
                free,
                bg.n_imports,
                (l0 + 1 + w) as u32,
                j0,
                inner_srcs,
            ));
            assert(operands@.drop_last() == ops0);
            let elem = match operands.pop() {
                Option::Some(op) => op,
                Option::None => {
                    proof {
                        assert(false);
                    }
                    Operand::Js(0)
                },
            };
            assert(elem == Operand::Js(lift_result_slot(**e, j0)));
            assert(operands@ =~= ops0);
            let mut results: Vec<Operand> = Vec::new();
            results.push(elem);
            bg.finish_block(results);
            let ghost block = bg.cur@;
            bg.list_lift(free, size_of_ty(e), align_of_ty(e), operands);
            proof {
                let index = (l0 + 1 + w + ty_lift_lcost(**e)) as u32;
                let result = (j0 + ty_lift_jcost(**e)) as u32;
                assert(bg.outer@ =~= old(bg).outer@) by {
                    assert(old(bg).outer@.push(old(bg).cur).drop_last() =~= old(bg).outer@);
                }
                assert(bg.block_results@ =~= old(bg).block_results@);
                assert(bg.iter_elems@ =~= old(bg).iter_elems@);
                assert(bg.iter_base_pointers@ =~= old(bg).iter_base_pointers@);
                assert(bg.cur@ =~= old(bg).cur@ + lift_code(*t, free, bg.n_imports, l0, j0, srcs))
                    by {
                    assert(bg.cur@ =~= old(bg).cur@ + crate::bindgen::seq_list_lift_pre(
                        result,
                        bg.n_imports,
                        srcs[1],
                        index,
                        srcs[0],
                        l0,
                        crate::types::spec_size_of(**e),
                    ) + block + crate::bindgen::seq_list_lift_post(
                        result,
                        lift_result_slot(**e, j0),
                        index,
                        bg.n_imports,
                        free,
                        srcs[0],
                        srcs[1],
                        crate::types::spec_align_of(**e),
                    ));
                }
                assert(final(operands)@ =~= ops0.take(ops0.len() - 2).push(
                    Operand::Js(lift_result_slot(*t, j0)),
                ));
                assert(final(operands)@.drop_last() =~= ops0.take(ops0.len() - 2));
            }
        },
    }
}

} // verus!

verus! {

/// The summed locals for lowering a parameter list.
pub open spec fn tys_lower_lcost(ts: Seq<IdlType>) -> nat
    decreases ts.len(),
{
    if ts.len() == 0 {
        0
    } else {
        tys_lower_lcost(ts.drop_last()) + ty_lower_lcost(ts.last())
    }
}

/// The summed slots for lowering a parameter list.
pub open spec fn tys_lower_jcost(ts: Seq<IdlType>) -> nat
    decreases ts.len(),
{
    if ts.len() == 0 {
        0
    } else {
        tys_lower_jcost(ts.drop_last()) + ty_lower_jcost(ts.last())
    }
}

/// The summed locals for lifting a list of types.
pub open spec fn tys_lift_lcost(ts: Seq<IdlType>) -> nat
    decreases ts.len(),
{
    if ts.len() == 0 {
        0
    } else {
        tys_lift_lcost(ts.drop_last()) + ty_lift_lcost(ts.last())
    }
}

/// The summed slots for lifting a list of types.
pub open spec fn tys_lift_jcost(ts: Seq<IdlType>) -> nat
    decreases ts.len(),
{
    if ts.len() == 0 {
        0
    } else {
        tys_lift_jcost(ts.drop_last()) + ty_lift_jcost(ts.last())
    }
}

pub proof fn lemma_tys_lower_lcost_mono(ts: Seq<IdlType>, i: int)
    requires
        0 <= i <= ts.len(),
    ensures
        tys_lower_lcost(ts.take(i)) <= tys_lower_lcost(ts),
    decreases ts.len(),
{
    if i == ts.len() {
        assert(ts.take(i) =~= ts);
    } else {
        assert(ts.take(i) =~= ts.drop_last().take(i));
        lemma_tys_lower_lcost_mono(ts.drop_last(), i);
    }
}

pub proof fn lemma_tys_lower_jcost_mono(ts: Seq<IdlType>, i: int)
    requires
        0 <= i <= ts.len(),
    ensures
        tys_lower_jcost(ts.take(i)) <= tys_lower_jcost(ts),
    decreases ts.len(),
{
    if i == ts.len() {
        assert(ts.take(i) =~= ts);
    } else {
        assert(ts.take(i) =~= ts.drop_last().take(i));
        lemma_tys_lower_jcost_mono(ts.drop_last(), i);
    }
}

pub proof fn lemma_tys_lift_lcost_mono(ts: Seq<IdlType>, i: int)
    requires
        0 <= i <= ts.len(),
    ensures
        tys_lift_lcost(ts.take(i)) <= tys_lift_lcost(ts),
    decreases ts.len(),
{
    if i == ts.len() {
        assert(ts.take(i) =~= ts);
    } else {
        assert(ts.take(i) =~= ts.drop_last().take(i));
        lemma_tys_lift_lcost_mono(ts.drop_last(), i);
    }
}

pub proof fn lemma_tys_lift_jcost_mono(ts: Seq<IdlType>, i: int)
    requires
        0 <= i <= ts.len(),
    ensures
        tys_lift_jcost(ts.take(i)) <= tys_lift_jcost(ts),
    decreases ts.len(),
{
    if i == ts.len() {
        assert(ts.take(i) =~= ts);
    } else {
        assert(ts.take(i) =~= ts.drop_last().take(i));
        lemma_tys_lift_jcost_mono(ts.drop_last(), i);
    }
}

/// Every type flattens to at least one scalar.
pub proof fn lemma_flatten_ge_len(ts: Seq<crate::types::IdlType>)
    ensures
        flatten_ty_seq_len(ts) >= ts.len(),
    decreases ts.len(),
{
    if ts.len() > 0 {
        lemma_flatten_ge_len(ts.drop_first());
    }
}

/// The length of the concatenated flattening (a helper that mirrors
/// `flatten_tys` length-wise).
pub open spec fn flatten_ty_seq_len(ts: Seq<crate::types::IdlType>) -> nat {
    crate::types::flatten_tys(ts).len()
}

/// Flattened lengths only grow with the prefix.
pub proof fn lemma_flatten_tys_mono(ts: Seq<crate::types::IdlType>, i: int)
    requires
        0 <= i <= ts.len(),
    ensures
        crate::types::flatten_tys(ts.take(i)).len() <= crate::types::flatten_tys(ts).len(),
    decreases ts.len() - i,
{
    if i < ts.len() {
        assert(ts.take(i + 1) =~= ts.take(i).push(ts[i]));
        crate::types::lemma_flatten_tys_push(ts.take(i), ts[i]);
        lemma_flatten_tys_mono(ts, i + 1);
    } else {
        assert(ts.take(i) =~= ts);
    }
}

} // verus!
