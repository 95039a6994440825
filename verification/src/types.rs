//! The data model: wasm scalar types, wire signatures, and the supported
//! subset of the interface definition language.

use vstd::prelude::*;

verus! {

/// A WebAssembly scalar value type.
#[derive(Clone, Copy, Debug, PartialEq, Eq, Structural)]
pub enum ValTy {
    I32,
    I64,
    F32,
    F64,
}

/// The wire signature of a function under the canonical ABI.
///
/// When the flattened results do not fit the single direct return slot they
/// are transferred through a return-pointer area instead, and `retptr`
/// records their scalar types.
#[derive(Debug)]
pub struct WasmSignature {
    pub params: Vec<ValTy>,
    pub results: Vec<ValTy>,
    pub retptr: Option<Vec<ValTy>>,
}

/// The mathematical value of a [`WasmSignature`].
#[verifier::ext_equal]
pub ghost struct SigView {
    pub params: Seq<ValTy>,
    pub results: Seq<ValTy>,
    pub retptr: Option<Seq<ValTy>>,
}

impl View for WasmSignature {
    type V = SigView;

    open spec fn view(&self) -> SigView {
        SigView {
            params: self.params@,
            results: self.results@,
            retptr: match self.retptr {
                Option::Some(v) => Option::Some(v@),
                Option::None => Option::None,
            },
        }
    }
}

impl Clone for WasmSignature {
    fn clone(&self) -> (r: Self)
        ensures
            r@ == self@,
    {
        WasmSignature {
            params: self.params.clone(),
            results: self.results.clone(),
            retptr: match &self.retptr {
                Option::Some(v) => Option::Some(v.clone()),
                Option::None => Option::None,
            },
        }
    }
}

/// Decide whether two signatures have the same mathematical value.
pub fn sig_eq(a: &WasmSignature, b: &WasmSignature) -> (r: bool)
    ensures
        r == (a@ == b@),
{
    let pe = tys_eq(&a.params, &b.params);
    let re = tys_eq(&a.results, &b.results);
    let rp = match (&a.retptr, &b.retptr) {
        (Option::None, Option::None) => true,
        (Option::Some(x), Option::Some(y)) => tys_eq(x, y),
        _ => false,
    };
    pe && re && rp
}

/// Decide element-wise equality of two scalar-type vectors.
pub fn tys_eq(a: &Vec<ValTy>, b: &Vec<ValTy>) -> (r: bool)
    ensures
        r == (a@ == b@),
{
    if a.len() != b.len() {
        assert(a@ != b@);
        return false;
    }
    let mut i: usize = 0;
    while i < a.len()
        invariant
            i <= a.len(),
            a@.len() == b@.len(),
            forall|j: int| 0 <= j < i ==> a@[j] == b@[j],
        decreases a.len() - i,
    {
        if a[i] != b[i] {
            assert(a@ != b@);
            return false;
        }
        i += 1;
    }
    assert(a@ =~= b@);
    true
}

/// A type of the interface definition language, restricted to the supported
/// subset: unsigned 32-bit integers, strings, and lists over these.
#[derive(Debug)]
pub enum IdlType {
    U32,
    Str,
    List(Box<IdlType>),
}

/// A function of the interface definition language.
#[derive(Debug)]
pub struct IdlFunc {
    pub name: String,
    pub params: Vec<IdlType>,
    pub results: Vec<IdlType>,
}

/// A named interface: a group of functions imported or exported together.
#[derive(Debug)]
pub struct Interface {
    pub name: String,
    pub functions: Vec<IdlFunc>,
}

/// Whether a function is imported by the emitted module (implemented
/// outside, called from the script) or exported by it (implemented by the
/// script, called from outside).
#[derive(Clone, Copy, Debug, PartialEq, Eq, Structural)]
pub enum Direction {
    Import,
    Export,
}

/// The byte size of a type's canonical-ABI representation.
pub open spec fn spec_size_of(t: IdlType) -> u32 {
    match t {
        IdlType::U32 => 4,
        IdlType::Str => 8,
        IdlType::List(_) => 8,
    }
}

/// The byte alignment of a type's canonical-ABI representation.
pub open spec fn spec_align_of(t: IdlType) -> u32 {
    match t {
        IdlType::U32 => 4,
        IdlType::Str => 4,
        IdlType::List(_) => 4,
    }
}

/// The byte size of a type's canonical-ABI representation.
pub fn size_of_ty(t: &IdlType) -> (r: u32)
    ensures
        r == spec_size_of(*t),
{
    match t {
        IdlType::U32 => 4,
        IdlType::Str => 8,
        IdlType::List(_) => 8,
    }
}

/// The byte alignment of a type's canonical-ABI representation.
pub fn align_of_ty(t: &IdlType) -> (r: u32)
    ensures
        r == spec_align_of(*t),
{
    match t {
        IdlType::U32 => 4,
        IdlType::Str => 4,
        IdlType::List(_) => 4,
    }
}

/// Whether lowering a value of this type goes through the engine's string
/// canonical lowering, and so through the return-pointer scratch area.
pub open spec fn mentions_str(t: IdlType) -> bool
    decreases t,
{
    match t {
        IdlType::U32 => false,
        IdlType::Str => true,
        IdlType::List(e) => mentions_str(*e),
    }
}

/// The wasm scalars a single type flattens to on the wire: integers pass
/// directly, strings and lists pass as a (pointer, length) pair.
pub open spec fn flatten_ty(t: IdlType) -> Seq<ValTy> {
    match t {
        IdlType::U32 => seq![ValTy::I32],
        IdlType::Str => seq![ValTy::I32, ValTy::I32],
        IdlType::List(_) => seq![ValTy::I32, ValTy::I32],
    }
}

/// The concatenated flattening of a sequence of types.
pub open spec fn flatten_tys(ts: Seq<IdlType>) -> Seq<ValTy>
    decreases ts.len(),
{
    if ts.len() == 0 {
        Seq::empty()
    } else {
        flatten_ty(ts[0]) + flatten_tys(ts.drop_first())
    }
}

pub proof fn lemma_flatten_tys_push(ts: Seq<IdlType>, t: IdlType)
    ensures
        flatten_tys(ts.push(t)) == flatten_tys(ts) + flatten_ty(t),
    decreases ts.len(),
{
    if ts.len() == 0 {
        assert(ts.push(t).drop_first() =~= Seq::<IdlType>::empty());
        assert(ts.push(t)[0] == t);
        assert(flatten_tys(ts.push(t)) == flatten_ty(t) + flatten_tys(Seq::<IdlType>::empty()));
        assert(flatten_ty(t) + Seq::<ValTy>::empty() =~= Seq::<ValTy>::empty() + flatten_ty(t));
    } else {
        assert(ts.push(t).drop_first() =~= ts.drop_first().push(t));
        lemma_flatten_tys_push(ts.drop_first(), t);
        assert(ts.push(t)[0] == ts[0]);
        assert(flatten_tys(ts.push(t)) == flatten_ty(ts[0]) + (flatten_tys(ts.drop_first())
            + flatten_ty(t)));
        assert(flatten_ty(ts[0]) + (flatten_tys(ts.drop_first()) + flatten_ty(t)) =~= (flatten_ty(
            ts[0],
        ) + flatten_tys(ts.drop_first())) + flatten_ty(t));
    }
}

/// Flatten a sequence of types into wire scalars.
pub fn flatten_into(ts: &Vec<IdlType>) -> (r: Vec<ValTy>)
    ensures
        r@ == flatten_tys(ts@),
{
    let mut r: Vec<ValTy> = Vec::new();
    let mut i: usize = 0;
    while i < ts.len()
        invariant
            i <= ts.len(),
            r@ == flatten_tys(ts@.take(i as int)),
        decreases ts.len() - i,
    {
        proof {
            assert(ts@.take(i + 1).drop_last() =~= ts@.take(i as int));
            assert(ts@.take(i + 1) =~= ts@.take(i as int).push(ts@[i as int]));
            lemma_flatten_tys_push(ts@.take(i as int), ts@[i as int]);
        }
        match &ts[i] {
            IdlType::U32 => {
                r.push(ValTy::I32);
            },
            IdlType::Str => {
                r.push(ValTy::I32);
                r.push(ValTy::I32);
            },
            IdlType::List(_) => {
                r.push(ValTy::I32);
                r.push(ValTy::I32);
            },
        }
        assert(r@ =~= flatten_tys(ts@.take(i + 1)));
        i += 1;
    }
    assert(ts@.take(ts@.len() as int) =~= ts@);
    r
}

/// The wire signature the canonical ABI prescribes for `func` in direction
/// `dir`: parameters and results flattened to scalars; when more than one
/// result scalar is produced the results move through the return-pointer
/// area, an extra trailing `i32` parameter is added, and an export returns
/// the `i32` address of the area while an import returns nothing.
pub open spec fn spec_wasm_signature(dir: Direction, func: IdlFunc) -> SigView {
    let params = flatten_tys(func.params@);
    let results = flatten_tys(func.results@);
    if results.len() > 1 {
        SigView {
            params: params.push(ValTy::I32),
            results: if dir is Export {
                seq![ValTy::I32]
            } else {
                Seq::empty()
            },
            retptr: Option::Some(results),
        }
    } else {
        SigView { params, results, retptr: Option::None }
    }
}

/// Compute the canonical-ABI wire signature of `func` in direction `dir`.
pub fn wasm_signature(dir: Direction, func: &IdlFunc) -> (r: WasmSignature)
    ensures
        r@ == spec_wasm_signature(dir, *func),
{
    let mut params = flatten_into(&func.params);
    let mut results = flatten_into(&func.results);
    if results.len() > 1 {
        params.push(ValTy::I32);
        let retptr = Option::Some(results);
        let results: Vec<ValTy> = match dir {
            Direction::Export => {
                let mut v: Vec<ValTy> = Vec::new();
                v.push(ValTy::I32);
                v
            },
            Direction::Import => Vec::new(),
        };
        assert(results@ =~= spec_wasm_signature(dir, *func).results);
        WasmSignature { params, results, retptr }
    } else {
        WasmSignature { params, results, retptr: Option::None }
    }
}

} // verus!
