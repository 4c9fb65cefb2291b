//! How source-level scalar types and function signatures become C types, under
//! the two calling conventions.

use vstd::prelude::*;

use crate::ty::{interned, ty_below, CPTy, CTy, CTyKindV, Conv, IntTy, UintTy};
use crate::ModuleCtxt;

verus! {

/// A lowering this backend does not implement. It is reported rather than
/// guessed at.
#[derive(Clone, Copy, Debug, PartialEq, Eq, Structural)]
pub enum Unsupported {
    /// 128-bit integers.
    Int128,
    /// An argument passed by a cast to another type or indirectly.
    PassMode,
    /// A variadic signature.
    Variadic,
    /// Floating point.
    Float,
    /// A scalar pair, a vector or an empty array.
    Shape,
}

/// Scalar types of the source language, with pointee types already lowered.
#[derive(Clone, Copy, Debug, PartialEq, Eq, Structural)]
pub enum ScalarTy {
    Bool,
    /// A Unicode scalar value, held in 32 bits.
    Char,
    Int(IntTy),
    Uint(UintTy),
    /// A reference: always a C pointer.
    Ref(CTy),
    /// A raw pointer: a C pointer under the C convention, an address-sized
    /// integer under the internal one.
    RawPtr(CTy),
    /// C's `void`, as pointed to by `*mut c_void`.
    CVoid,
}

pub open spec fn int_cpty(t: IntTy) -> CPTy {
    match t {
        IntTy::Isize => CPTy::Isize,
        IntTy::I8 => CPTy::I8,
        IntTy::I16 => CPTy::I16,
        IntTy::I32 => CPTy::I32,
        _ => CPTy::I64,
    }
}

pub open spec fn uint_cpty(t: UintTy) -> CPTy {
    match t {
        UintTy::Usize => CPTy::Usize,
        UintTy::U8 => CPTy::U8,
        UintTy::U16 => CPTy::U16,
        UintTy::U32 => CPTy::U32,
        _ => CPTy::U64,
    }
}

/// The primitive C type of a scalar that needs no pointer type, if it is one.
pub open spec fn scalar_primitive(s: ScalarTy, conv: Conv) -> Option<CPTy> {
    match s {
        ScalarTy::Bool => Some(CPTy::Bool),
        ScalarTy::Char => Some(CPTy::I32),
        ScalarTy::Int(t) => Some(int_cpty(t)),
        ScalarTy::Uint(t) => Some(uint_cpty(t)),
        ScalarTy::RawPtr(_) => if conv == Conv::Rust {
            Some(CPTy::Isize)
        } else {
            None
        },
        ScalarTy::CVoid => Some(CPTy::Void),
        ScalarTy::Ref(_) => None,
    }
}

/// What `scalar_cty` promises: 128-bit integers are not supported; other
/// scalars get their primitive type, or an interned pointer to the pointee.
pub open spec fn scalar_cty_post(
    before: ModuleCtxt,
    s: ScalarTy,
    conv: Conv,
    r: Result<CTy, Unsupported>,
    after: ModuleCtxt,
) -> bool {
    &&& after.wf()
    &&& (s == ScalarTy::Int(IntTy::I128) || s == ScalarTy::Uint(UintTy::U128)) ==> r == Err::<
        CTy,
        Unsupported,
    >(Unsupported::Int128) && after == before
    &&& !(s == ScalarTy::Int(IntTy::I128) || s == ScalarTy::Uint(UintTy::U128)) ==> match
        scalar_primitive(s, conv) {
        Some(p) => r == Ok::<CTy, Unsupported>(CTy::primitive_spec(p)) && after == before,
        None => (r is Ok) && interned(
            before,
            CTyKindV::Pointer(
                match s {
                    ScalarTy::Ref(p) => p,
                    ScalarTy::RawPtr(p) => p,
                    _ => CTy::primitive_spec(CPTy::Void),
                },
            ),
            after,
            r->Ok_0,
        ),
    }
}

/// The C type of a scalar under a calling convention. Under the internal
/// convention raw pointers travel as `intptr_t`; under the C convention they,
/// like references, are C pointers to their pointee.
pub fn scalar_cty(mcx: &mut ModuleCtxt, s: ScalarTy, conv: Conv) -> (r: Result<CTy, Unsupported>)
    requires
        old(mcx).wf(),
        s matches ScalarTy::Ref(p) ==> ty_below(p, old(mcx).tys().len()),
        s matches ScalarTy::RawPtr(p) ==> ty_below(p, old(mcx).tys().len()),
    ensures
        scalar_cty_post(*old(mcx), s, conv, r, *final(mcx)),
{
    match s {
        ScalarTy::Bool => Ok(mcx.bool()),
        ScalarTy::Char => Ok(mcx.int_ty(IntTy::I32)),
        ScalarTy::Int(t) => {
            if t == IntTy::I128 {
                Err(Unsupported::Int128)
            } else {
                Ok(mcx.int_ty(t))
            }
        },
        ScalarTy::Uint(t) => {
            if t == UintTy::U128 {
                Err(Unsupported::Int128)
            } else {
                Ok(mcx.uint_ty(t))
            }
        },
        ScalarTy::Ref(p) => Ok(mcx.ptr(p)),
        ScalarTy::RawPtr(p) => {
            match conv {
                Conv::C => Ok(mcx.ptr(p)),
                Conv::Rust => Ok(mcx.int_ty(IntTy::Isize)),
            }
        },
        ScalarTy::CVoid => Ok(mcx.void()),
    }
}

/// How an argument is passed.
#[derive(Clone, Copy, Debug, PartialEq, Eq, Structural)]
pub enum PassMode {
    /// Not passed at all (a zero-sized value).
    Ignore,
    /// Passed as one value of this type.
    Direct(CTy),
    /// Passed as two values, of these types.
    Pair(CTy, CTy),
    /// Reinterpreted as another type.
    Cast,
    /// Passed through a pointer to a copy.
    Indirect,
}

/// The C parameter types of the first `n` arguments, or `None` if one of
/// them is passed in a way not implemented.
pub open spec fn param_tys(modes: Seq<PassMode>, n: nat) -> Option<Seq<CTy>>
    decreases n,
{
    if n == 0 || n > modes.len() {
        Some(Seq::empty())
    } else {
        match param_tys(modes, (n - 1) as nat) {
            Some(prev) => match modes[n - 1] {
                PassMode::Ignore => Some(prev),
                PassMode::Direct(t) => Some(prev.push(t)),
                PassMode::Pair(a, b) => Some(prev.push(a).push(b)),
                _ => None,
            },
            None => None,
        }
    }
}

/// Whether every type a pass mode names lies below `n` in the table.
pub open spec fn mode_below(m: PassMode, n: nat) -> bool {
    match m {
        PassMode::Direct(t) => ty_below(t, n),
        PassMode::Pair(a, b) => ty_below(a, n) && ty_below(b, n),
        _ => true,
    }
}

/// The function pointer type of a signature: ignored arguments are left out,
/// pairs give two parameters. Variadic signatures and arguments passed by
/// cast or indirectly are not supported.
pub fn fn_decl_backend_type(
    mcx: &mut ModuleCtxt,
    args: &Vec<PassMode>,
    ret: CTy,
    conv: Conv,
    c_variadic: bool,
) -> (r: Result<CTy, Unsupported>)
    requires
        old(mcx).wf(),
        ty_below(ret, old(mcx).tys().len()),
        forall|i: int| 0 <= i < args@.len() ==> mode_below(#[trigger] args@[i], old(mcx).tys().len()),
    ensures
        final(mcx).wf(),
        c_variadic ==> r == Err::<CTy, Unsupported>(Unsupported::Variadic) && *final(mcx)
            == *old(mcx),
        !c_variadic ==> match param_tys(args@, args@.len()) {
            Some(ts) => (r is Ok) && interned(
                *old(mcx),
                CTyKindV::FnPtr(ret, ts, conv),
                *final(mcx),
                r->Ok_0,
            ),
            None => r == Err::<CTy, Unsupported>(Unsupported::PassMode) && *final(mcx)
                == *old(mcx),
        },
{
    if c_variadic {
        return Err(Unsupported::Variadic);
    }
    let mut tys: Vec<CTy> = Vec::new();
    let mut i: usize = 0;
    while i < args.len()
        invariant
            i <= args@.len(),
            *mcx == *old(mcx),
            mcx.wf(),
            !c_variadic,
            param_tys(args@, i as nat) == Some(tys@),
            forall|k: int| 0 <= k < tys@.len() ==> ty_below(#[trigger] tys@[k], mcx.tys().len()),
            forall|k: int| 0 <= k < args@.len() ==> mode_below(#[trigger] args@[k], mcx.tys().len()),
        decreases args@.len() - i,
    {
        let ghost before = tys@;
        match args[i] {
            PassMode::Ignore => {},
            PassMode::Direct(t) => {
                tys.push(t);
            },
            PassMode::Pair(a, b) => {
                tys.push(a);
                tys.push(b);
            },
            _ => {
                proof {
                    lemma_param_tys_none(args@, (i + 1) as nat, args@.len());
                }
                return Err(Unsupported::PassMode);
            },
        }
        proof {
            assert(mode_below(args@[i as int], mcx.tys().len()));
        }
        i = i + 1;
    }
    Ok(mcx.fn_ptr(ret, tys, conv))
}

proof fn lemma_param_tys_none(modes: Seq<PassMode>, k: nat, n: nat)
    requires
        1 <= k <= n <= modes.len(),
        param_tys(modes, k) is None,
    ensures
        param_tys(modes, n) is None,
    decreases n - k,
{
    if k < n {
        lemma_param_tys_none(modes, k + 1, n);
    }
}

/// Integer sizes of scalar layouts.
#[derive(Clone, Copy, Debug, PartialEq, Eq, Structural)]
pub enum Integer {
    I8,
    I16,
    I32,
    I64,
    I128,
}

/// The primitive of one half of a scalar pair.
#[derive(Clone, Copy, Debug, PartialEq, Eq, Structural)]
pub enum Primitive {
    Int(Integer, bool),
    Float,
    Pointer,
}

/// The primitive C type of an integer of this size and signedness.
pub open spec fn integer_cpty(i: Integer, signed: bool) -> CPTy {
    match (i, signed) {
        (Integer::I8, true) => CPTy::I8,
        (Integer::I16, true) => CPTy::I16,
        (Integer::I32, true) => CPTy::I32,
        (Integer::I8, false) => CPTy::U8,
        (Integer::I16, false) => CPTy::U16,
        (Integer::I32, false) => CPTy::U32,
        (_, true) => CPTy::I64,
        (_, false) => CPTy::U64,
    }
}

/// The C type of one half of a scalar pair: an integer of its size and
/// signedness, or `void *` for a pointer. 128-bit integers and floats are not
/// supported.
pub fn pair_element_cty(mcx: &mut ModuleCtxt, p: Primitive) -> (r: Result<CTy, Unsupported>)
    requires
        old(mcx).wf(),
    ensures
        final(mcx).wf(),
        match p {
            Primitive::Int(Integer::I128, _) => r == Err::<CTy, Unsupported>(Unsupported::Int128)
                && *final(mcx) == *old(mcx),
            Primitive::Int(i, signed) => r == Ok::<CTy, Unsupported>(
                CTy::primitive_spec(integer_cpty(i, signed)),
            ) && *final(mcx) == *old(mcx),
            Primitive::Float => r == Err::<CTy, Unsupported>(Unsupported::Float) && *final(mcx)
                == *old(mcx),
            Primitive::Pointer => (r is Ok) && interned(
                *old(mcx),
                CTyKindV::Pointer(CTy::primitive_spec(CPTy::Void)),
                *final(mcx),
                r->Ok_0,
            ),
        },
{
    match p {
        Primitive::Int(i, signed) => {
            let t = match (i, signed) {
                (Integer::I8, true) => CPTy::I8,
                (Integer::I16, true) => CPTy::I16,
                (Integer::I32, true) => CPTy::I32,
                (Integer::I64, true) => CPTy::I64,
                (Integer::I8, false) => CPTy::U8,
                (Integer::I16, false) => CPTy::U16,
                (Integer::I32, false) => CPTy::U32,
                (Integer::I64, false) => CPTy::U64,
                (Integer::I128, _) => {
                    return Err(Unsupported::Int128);
                },
            };
            Ok(CTy::primitive(t))
        },
        Primitive::Float => Err(Unsupported::Float),
        Primitive::Pointer => {
            let v = mcx.void();
            Ok(mcx.ptr(v))
        },
    }
}

/// The shape of a value's layout, with what the C type depends on already
/// lowered.
#[derive(Clone, Copy, Debug, PartialEq, Eq, Structural)]
pub enum LayoutShape {
    /// No value exists.
    Uninhabited,
    /// A single scalar.
    Scalar(ScalarTy),
    /// Two scalars side by side.
    ScalarPair,
    /// A SIMD vector.
    Vector,
    /// An array of `count` elements of this C type.
    Array(CTy, usize),
    /// Any other aggregate.
    Aggregate,
}

/// The C type of a value of this layout under a calling convention.
/// Uninhabited values and aggregates other than arrays are `void`; pairs,
/// vectors and empty arrays are not supported.
pub fn layout_cty(mcx: &mut ModuleCtxt, shape: LayoutShape, conv: Conv) -> (r: Result<
    CTy,
    Unsupported,
>)
    requires
        old(mcx).wf(),
        shape matches LayoutShape::Scalar(ScalarTy::Ref(p)) ==> ty_below(p, old(mcx).tys().len()),
        shape matches LayoutShape::Scalar(ScalarTy::RawPtr(p)) ==> ty_below(p, old(mcx).tys().len()),
        shape matches LayoutShape::Array(e, _) ==> ty_below(e, old(mcx).tys().len()),
    ensures
        final(mcx).wf(),
        match shape {
            LayoutShape::Uninhabited | LayoutShape::Aggregate => r == Ok::<CTy, Unsupported>(
                CTy::primitive_spec(CPTy::Void),
            ) && *final(mcx) == *old(mcx),
            LayoutShape::ScalarPair | LayoutShape::Vector => r == Err::<CTy, Unsupported>(
                Unsupported::Shape,
            ) && *final(mcx) == *old(mcx),
            LayoutShape::Array(e, n) => if n == 0 {
                r == Err::<CTy, Unsupported>(Unsupported::Shape) && *final(mcx) == *old(mcx)
            } else {
                (r is Ok) && interned(*old(mcx), CTyKindV::Array(e, Some(n)), *final(mcx), r->Ok_0)
            },
            LayoutShape::Scalar(_) => true,
        },
        shape matches LayoutShape::Scalar(s) ==> scalar_cty_post(*old(mcx), s, conv, r, *final(mcx)),
{
    match shape {
        LayoutShape::Uninhabited => Ok(mcx.void()),
        LayoutShape::Scalar(s) => scalar_cty(mcx, s, conv),
        LayoutShape::ScalarPair => Err(Unsupported::Shape),
        LayoutShape::Vector => Err(Unsupported::Shape),
        LayoutShape::Array(e, n) => {
            if n == 0 {
                Err(Unsupported::Shape)
            } else {
                Ok(mcx.arr(e, Some(n)))
            }
        },
        LayoutShape::Aggregate => Ok(mcx.void()),
    }
}

} // verus!
