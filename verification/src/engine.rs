//! The script engine's export descriptor: the fixed, ordered list of
//! functions the engine module must expose. The list's order fixes the
//! engine slice of the emitted module's function index space, so every
//! entry has a named offset here.

use vstd::prelude::*;
use crate::types::{SigView, ValTy, WasmSignature};

verus! {

pub const SMW_INITIALIZE: u32 = 0;

pub const SMW_CANONICAL_ABI_FREE: u32 = 1;

pub const SMW_CANONICAL_ABI_REALLOC: u32 = 2;

pub const SMW_INITIALIZE_ENGINE: u32 = 3;

pub const SMW_NEW_MODULE_BUILDER: u32 = 4;

pub const SMW_MODULE_BUILDER_ADD_EXPORT: u32 = 5;

pub const SMW_FINISH_MODULE_BUILDER: u32 = 6;

pub const SMW_EVAL_MODULE: u32 = 7;

pub const SMW_MALLOC: u32 = 8;

pub const SMW_FILL_OPERANDS: u32 = 9;

pub const SMW_CLEAR_OPERANDS: u32 = 10;

pub const SMW_PUSH_ARG: u32 = 11;

pub const SMW_CALL: u32 = 12;

pub const SMW_PUSH_RETURN_VALUE: u32 = 13;

pub const SMW_FINISH_RETURNS: u32 = 14;

pub const SMW_I32_FROM_U32: u32 = 15;

pub const SMW_U32_FROM_I32: u32 = 16;

pub const SMW_STRING_CANON_LOWER: u32 = 17;

pub const SMW_STRING_CANON_LIFT: u32 = 18;

pub const SMW_SPREAD_INTO_ARRAY: u32 = 19;

pub const SMW_GET_ARRAY_ELEMENT: u32 = 20;

pub const SMW_ARRAY_PUSH: u32 = 21;

pub const SMW_NEW_ARRAY: u32 = 22;

pub const SMW_DUMP_I32: u32 = 23;

/// The number of engine exports, and so the width of the engine slice of
/// the function index space.
pub const SMW_COUNT: u32 = 24;

/// The name of the `k`-th engine export.
pub open spec fn spec_smw_name(k: u32) -> Seq<char> {
    if k == 0 {
        "_initialize"@
    } else if k == 1 {
        "canonical_abi_free"@
    } else if k == 2 {
        "canonical_abi_realloc"@
    } else if k == 3 {
        "SMW_initialize_engine"@
    } else if k == 4 {
        "SMW_new_module_builder"@
    } else if k == 5 {
        "SMW_module_builder_add_export"@
    } else if k == 6 {
        "SMW_finish_module_builder"@
    } else if k == 7 {
        "SMW_eval_module"@
    } else if k == 8 {
        "SMW_malloc"@
    } else if k == 9 {
        "SMW_fill_operands"@
    } else if k == 10 {
        "SMW_clear_operands"@
    } else if k == 11 {
        "SMW_push_arg"@
    } else if k == 12 {
        "SMW_call"@
    } else if k == 13 {
        "SMW_push_return_value"@
    } else if k == 14 {
        "SMW_finish_returns"@
    } else if k == 15 {
        "SMW_i32_from_u32"@
    } else if k == 16 {
        "SMW_u32_from_i32"@
    } else if k == 17 {
        "SMW_string_canon_lower"@
    } else if k == 18 {
        "SMW_string_canon_lift"@
    } else if k == 19 {
        "SMW_spread_into_array"@
    } else if k == 20 {
        "SMW_get_array_element"@
    } else if k == 21 {
        "SMW_array_push"@
    } else if k == 22 {
        "SMW_new_array"@
    } else {
        "dump_i32"@
    }
}

/// The name of the `k`-th engine export.
pub fn smw_name(k: u32) -> (r: &'static str)
    requires
        k < SMW_COUNT,
    ensures
        r@ == spec_smw_name(k),
{
    if k == 0 {
        "_initialize"
    } else if k == 1 {
        "canonical_abi_free"
    } else if k == 2 {
        "canonical_abi_realloc"
    } else if k == 3 {
        "SMW_initialize_engine"
    } else if k == 4 {
        "SMW_new_module_builder"
    } else if k == 5 {
        "SMW_module_builder_add_export"
    } else if k == 6 {
        "SMW_finish_module_builder"
    } else if k == 7 {
        "SMW_eval_module"
    } else if k == 8 {
        "SMW_malloc"
    } else if k == 9 {
        "SMW_fill_operands"
    } else if k == 10 {
        "SMW_clear_operands"
    } else if k == 11 {
        "SMW_push_arg"
    } else if k == 12 {
        "SMW_call"
    } else if k == 13 {
        "SMW_push_return_value"
    } else if k == 14 {
        "SMW_finish_returns"
    } else if k == 15 {
        "SMW_i32_from_u32"
    } else if k == 16 {
        "SMW_u32_from_i32"
    } else if k == 17 {
        "SMW_string_canon_lower"
    } else if k == 18 {
        "SMW_string_canon_lift"
    } else if k == 19 {
        "SMW_spread_into_array"
    } else if k == 20 {
        "SMW_get_array_element"
    } else if k == 21 {
        "SMW_array_push"
    } else if k == 22 {
        "SMW_new_array"
    } else {
        "dump_i32"
    }
}

/// The number of `i32` parameters of the `k`-th engine export.
pub open spec fn spec_smw_n_params(k: u32) -> nat {
    if k == 0 {
        0
    } else if k == 1 {
        3
    } else if k == 2 {
        4
    } else if k == 3 {
        0
    } else if k == 4 {
        2
    } else if k == 5 {
        5
    } else if k == 6 {
        1
    } else if k == 7 {
        3
    } else if k == 8 {
        1
    } else if k == 9 {
        2
    } else if k == 10 {
        0
    } else if k == 11 {
        1
    } else if k == 12 {
        4
    } else if k == 13 {
        1
    } else if k == 14 {
        2
    } else if k == 15 {
        1
    } else if k == 16 {
        2
    } else if k == 17 {
        2
    } else if k == 18 {
        3
    } else if k == 19 {
        1
    } else if k == 20 {
        3
    } else if k == 21 {
        2
    } else if k == 22 {
        1
    } else {
        1
    }
}

/// The number of `i32` results of the `k`-th engine export.
pub open spec fn spec_smw_n_results(k: u32) -> nat {
    if k == 2 || k == 4 || k == 8 || k == 15 || k == 19 || k == 23 {
        1
    } else {
        0
    }
}

/// The wire signature of the `k`-th engine export: every parameter and
/// result is `i32`, and none uses the return-pointer area.
pub open spec fn spec_smw_sig(k: u32) -> SigView {
    SigView {
        params: Seq::new(spec_smw_n_params(k), |i: int| ValTy::I32),
        results: Seq::new(spec_smw_n_results(k), |i: int| ValTy::I32),
        retptr: Option::None,
    }
}

/// Build a vector of `n` `i32` scalar types.
fn i32s(n: usize) -> (r: Vec<ValTy>)
    ensures
        r@ =~= Seq::new(n as nat, |i: int| ValTy::I32),
{
    let mut r: Vec<ValTy> = Vec::new();
    let mut i: usize = 0;
    while i < n
        invariant
            i <= n,
            r@ =~= Seq::new(i as nat, |j: int| ValTy::I32),
        decreases n - i,
    {
        r.push(ValTy::I32);
        assert(r@ =~= Seq::new((i + 1) as nat, |j: int| ValTy::I32));
        i += 1;
    }
    r
}

/// The number of `i32` parameters of the `k`-th engine export.
pub fn smw_n_params(k: u32) -> (r: usize)
    requires
        k < SMW_COUNT,
    ensures
        r == spec_smw_n_params(k),
{
    if k == 0 {
        0
    } else if k == 1 {
        3
    } else if k == 2 {
        4
    } else if k == 3 {
        0
    } else if k == 4 {
        2
    } else if k == 5 {
        5
    } else if k == 6 {
        1
    } else if k == 7 {
        3
    } else if k == 8 {
        1
    } else if k == 9 {
        2
    } else if k == 10 {
        0
    } else if k == 11 {
        1
    } else if k == 12 {
        4
    } else if k == 13 {
        1
    } else if k == 14 {
        2
    } else if k == 15 {
        1
    } else if k == 16 {
        2
    } else if k == 17 {
        2
    } else if k == 18 {
        3
    } else if k == 19 {
        1
    } else if k == 20 {
        3
    } else if k == 21 {
        2
    } else if k == 22 {
        1
    } else {
        1
    }
}

/// The wire signature of the `k`-th engine export.
pub fn smw_sig(k: u32) -> (r: WasmSignature)
    requires
        k < SMW_COUNT,
    ensures
        r@ == spec_smw_sig(k),
{
    let np = smw_n_params(k);
    let nr: usize = if k == 2 || k == 4 || k == 8 || k == 15 || k == 19 || k == 23 {
        1
    } else {
        0
    };
    let r = WasmSignature { params: i32s(np), results: i32s(nr), retptr: Option::None };
    assert(r@.params =~= spec_smw_sig(k).params);
    assert(r@.results =~= spec_smw_sig(k).results);
    r
}

} // verus!
