use vstd::prelude::*;

use crate::arena::{intern_post, Arena};
use crate::ModuleCtxt;

verus! {

/// A handle to a string owned by the module's arena.
#[derive(Clone, Copy, Debug, PartialEq, Eq, Structural, Hash)]
pub struct StrId {
    pub index: usize,
}

/// C primitive types.
#[derive(Clone, Copy, Debug, PartialEq, Eq, Structural, Hash)]
pub enum CPTy {
    Void,
    Bool,
    Char,
    Isize,
    I8,
    I16,
    I32,
    I64,
    Usize,
    U8,
    U16,
    U32,
    U64,
}

impl CPTy {
    pub open spec fn spec_is_signed(self) -> bool {
        self is Isize || self is I8 || self is I16 || self is I32 || self is I64
    }

    pub open spec fn spec_is_integer(self) -> bool {
        !(self is Void || self is Bool || self is Char)
    }

    /// The unsigned counterpart of a signed integer type; other types map to themselves.
    pub open spec fn spec_to_unsigned(self) -> CPTy {
        match self {
            CPTy::Isize => CPTy::Usize,
            CPTy::I8 => CPTy::U8,
            CPTy::I16 => CPTy::U16,
            CPTy::I32 => CPTy::U32,
            CPTy::I64 => CPTy::U64,
            _ => self,
        }
    }

    /// The name of the type in C.
    pub open spec fn spec_str(self) -> &'static str {
        match self {
            CPTy::Void => "void",
            CPTy::Bool => "bool",
            CPTy::Char => "char",
            CPTy::Isize => "intptr_t",
            CPTy::I8 => "int8_t",
            CPTy::I16 => "int16_t",
            CPTy::I32 => "int32_t",
            CPTy::I64 => "int64_t",
            CPTy::Usize => "uintptr_t",
            CPTy::U8 => "uint8_t",
            CPTy::U16 => "uint16_t",
            CPTy::U32 => "uint32_t",
            CPTy::U64 => "uint64_t",
        }
    }

    /// The `<stdint.h>` constant that names the largest value of an integer type.
    pub open spec fn spec_max_str(self) -> &'static str {
        match self {
            CPTy::Isize => "INTPTR_MAX",
            CPTy::I8 => "INT8_MAX",
            CPTy::I16 => "INT16_MAX",
            CPTy::I32 => "INT32_MAX",
            CPTy::I64 => "INT64_MAX",
            CPTy::Usize => "UINTPTR_MAX",
            CPTy::U8 => "UINT8_MAX",
            CPTy::U16 => "UINT16_MAX",
            CPTy::U32 => "UINT32_MAX",
            _ => "UINT64_MAX",
        }
    }

    /// Whether the type is a signed integer.
    #[verifier::when_used_as_spec(spec_is_signed)]
    pub fn is_signed(self) -> (r: bool)
        ensures
            r == self.spec_is_signed(),
    {
        matches!(self, CPTy::Isize | CPTy::I8 | CPTy::I16 | CPTy::I32 | CPTy::I64)
    }

    /// Whether the type is a signed or unsigned integer.
    #[verifier::when_used_as_spec(spec_is_integer)]
    pub fn is_integer(self) -> (r: bool)
        ensures
            r == self.spec_is_integer(),
    {
        !matches!(self, CPTy::Void | CPTy::Bool | CPTy::Char)
    }

    /// The unsigned version of a signed integer type.
    pub fn to_unsigned(self) -> (r: CPTy)
        requires
            self.spec_is_signed(),
        ensures
            r == self.spec_to_unsigned(),
            r.spec_is_integer(),
            !r.spec_is_signed(),
    {
        match self {
            CPTy::Isize => CPTy::Usize,
            CPTy::I8 => CPTy::U8,
            CPTy::I16 => CPTy::U16,
            CPTy::I32 => CPTy::U32,
            _ => CPTy::U64,
        }
    }

    /// The name of the type in C.
    pub fn to_str(self) -> (r: &'static str)
        ensures
            r == self.spec_str(),
    {
        match self {
            CPTy::Void => "void",
            CPTy::Bool => "bool",
            CPTy::Char => "char",
            CPTy::Isize => "intptr_t",
            CPTy::I8 => "int8_t",
            CPTy::I16 => "int16_t",
            CPTy::I32 => "int32_t",
            CPTy::I64 => "int64_t",
            CPTy::Usize => "uintptr_t",
            CPTy::U8 => "uint8_t",
            CPTy::U16 => "uint16_t",
            CPTy::U32 => "uint32_t",
            CPTy::U64 => "uint64_t",
        }
    }

    /// The `<stdint.h>` constant naming the maximum value of this integer type.
    pub fn max_value(self) -> (r: &'static str)
        requires
            self.spec_is_integer(),
        ensures
            r == self.spec_max_str(),
    {
        match self {
            CPTy::Isize => "INTPTR_MAX",
            CPTy::I8 => "INT8_MAX",
            CPTy::I16 => "INT16_MAX",
            CPTy::I32 => "INT32_MAX",
            CPTy::I64 => "INT64_MAX",
            CPTy::Usize => "UINTPTR_MAX",
            CPTy::U8 => "UINT8_MAX",
            CPTy::U16 => "UINT16_MAX",
            CPTy::U32 => "UINT32_MAX",
            _ => "UINT64_MAX",
        }
    }
}

/// Type qualifiers. They do not take part in interning.
#[derive(Clone, Copy, Debug, PartialEq, Eq, Structural, Hash)]
pub struct CTyQuals {
    pub is_const: bool,
    pub is_volatile: bool,
    pub is_restrict: bool,
}

impl CTyQuals {
    /// No qualifier.
    pub fn empty() -> (r: CTyQuals)
        ensures
            !r.is_const && !r.is_volatile && !r.is_restrict,
    {
        CTyQuals { is_const: false, is_volatile: false, is_restrict: false }
    }
}

/// The base of a C type: a primitive, or an index into the module's table of
/// interned compound types.
#[derive(Clone, Copy, Debug, PartialEq, Eq, Structural, Hash)]
pub enum CTyBase {
    Primitive(CPTy),
    Ref(usize),
}

/// A C type with its qualifiers.
#[derive(Clone, Copy, Debug, PartialEq, Eq, Structural, Hash)]
pub struct CTy {
    pub base: CTyBase,
    pub quals: CTyQuals,
}

/// Whether a type only refers to interned entries below `n`.
pub open spec fn ty_below(t: CTy, n: nat) -> bool {
    match t.base {
        CTyBase::Primitive(_) => true,
        CTyBase::Ref(i) => i < n,
    }
}

impl CTy {
    pub open spec fn primitive_spec(ty: CPTy) -> CTy {
        CTy {
            base: CTyBase::Primitive(ty),
            quals: CTyQuals { is_const: false, is_volatile: false, is_restrict: false },
        }
    }

    /// The unqualified primitive type.
    pub fn primitive(ty: CPTy) -> (r: CTy)
        ensures
            r == CTy::primitive_spec(ty),
    {
        CTy { base: CTyBase::Primitive(ty), quals: CTyQuals::empty() }
    }

    /// The same type with other qualifiers.
    pub fn with_quals(self, quals: CTyQuals) -> (r: CTy)
        ensures
            r.base == self.base,
            r.quals == quals,
    {
        CTy { base: self.base, quals }
    }
}

/// Calling conventions of function pointer types.
#[derive(Clone, Copy, Debug, PartialEq, Eq, Structural, Hash)]
pub enum Conv {
    /// Calls inside generated code: pointers travel as address-sized integers.
    Rust,
    /// Calls into externally linked functions: exact C types.
    C,
}

/// A function pointer type.
#[derive(Debug)]
pub struct CFnPtr {
    pub ret: CTy,
    pub args: Vec<CTy>,
    pub abi: Conv,
}

/// Compound types, interned by structure.
#[derive(Debug)]
#[allow(inconsistent_fields)]
pub enum CTyKind {
    Pointer(CTy),
    /// An array, of unspecified length when `None`.
    Array(CTy, Option<usize>),
    FnPtr(CFnPtr),
    Alias { name: StrId, base: CTy },
    Struct { name: Option<StrId>, fields: Vec<(CTy, StrId)> },
}

/// The structural description of a compound type.
pub enum CTyKindV {
    Pointer(CTy),
    Array(CTy, Option<usize>),
    FnPtr(CTy, Seq<CTy>, Conv),
    Alias(StrId, CTy),
    Struct(Option<StrId>, Seq<(CTy, StrId)>),
}

impl View for CTyKind {
    type V = CTyKindV;

    open spec fn view(&self) -> CTyKindV {
        match self {
            CTyKind::Pointer(t) => CTyKindV::Pointer(*t),
            CTyKind::Array(t, n) => CTyKindV::Array(*t, *n),
            CTyKind::FnPtr(f) => CTyKindV::FnPtr(f.ret, f.args@, f.abi),
            CTyKind::Alias { name, base } => CTyKindV::Alias(*name, *base),
            CTyKind::Struct { name, fields } => CTyKindV::Struct(*name, fields@),
        }
    }
}

/// Whether every type that a compound type mentions lies below `n` in the table.
pub open spec fn kind_below(k: CTyKindV, n: nat) -> bool {
    match k {
        CTyKindV::Pointer(t) => ty_below(t, n),
        CTyKindV::Array(t, _) => ty_below(t, n),
        CTyKindV::FnPtr(r, args, _) => ty_below(r, n) && forall|i: int|
            0 <= i < args.len() ==> ty_below(#[trigger] args[i], n),
        CTyKindV::Alias(_, b) => ty_below(b, n),
        CTyKindV::Struct(_, fields) => forall|i: int|
            0 <= i < fields.len() ==> ty_below(#[trigger] fields[i].0, n),
    }
}

fn same_tys(a: &Vec<CTy>, b: &Vec<CTy>) -> (r: bool)
    ensures
        r == (a@ == b@),
{
    if a.len() != b.len() {
        return false;
    }
    let mut i: usize = 0;
    while i < a.len()
        invariant
            a.len() == b.len(),
            i <= a.len(),
            forall|j: int| 0 <= j < i ==> a@[j] == b@[j],
        decreases a.len() - i,
    {
        if a[i] != b[i] {
            return false;
        }
        i = i + 1;
    }
    assert(a@ =~= b@);
    true
}

fn same_fields(a: &Vec<(CTy, StrId)>, b: &Vec<(CTy, StrId)>) -> (r: bool)
    ensures
        r == (a@ == b@),
{
    if a.len() != b.len() {
        return false;
    }
    let mut i: usize = 0;
    while i < a.len()
        invariant
            a.len() == b.len(),
            i <= a.len(),
            forall|j: int| 0 <= j < i ==> a@[j] == b@[j],
        decreases a.len() - i,
    {
        if a[i].0 != b[i].0 || a[i].1 != b[i].1 {
            return false;
        }
        i = i + 1;
    }
    assert(a@ =~= b@);
    true
}

impl CTyKind {
    /// Structural equality of two compound type descriptions.
    pub fn same_as(&self, other: &CTyKind) -> (r: bool)
        ensures
            r == (self@ == other@),
    {
        match (self, other) {
            (CTyKind::Pointer(a), CTyKind::Pointer(b)) => *a == *b,
            (CTyKind::Array(a, n), CTyKind::Array(b, m)) => *a == *b && *n == *m,
            (CTyKind::FnPtr(f), CTyKind::FnPtr(g)) => {
                f.ret == g.ret && f.abi == g.abi && same_tys(&f.args, &g.args)
            },
            (CTyKind::Alias { name: n1, base: b1 }, CTyKind::Alias { name: n2, base: b2 }) => {
                *n1 == *n2 && *b1 == *b2
            },
            (CTyKind::Struct { name: n1, fields: f1 }, CTyKind::Struct { name: n2, fields: f2 }) => {
                *n1 == *n2 && same_fields(f1, f2)
            },
            _ => false,
        }
    }
}

/// Signed integer types of the source language.
#[derive(Clone, Copy, Debug, PartialEq, Eq, Structural, Hash)]
pub enum IntTy {
    Isize,
    I8,
    I16,
    I32,
    I64,
    I128,
}

/// Unsigned integer types of the source language.
#[derive(Clone, Copy, Debug, PartialEq, Eq, Structural, Hash)]
pub enum UintTy {
    Usize,
    U8,
    U16,
    U32,
    U64,
    U128,
}

/// The position of a type in the interning order: primitives first, then
/// compound types by table index.
pub open spec fn ty_rank(t: CTy) -> nat {
    match t.base {
        CTyBase::Primitive(_) => 0,
        CTyBase::Ref(i) => i as nat + 1,
    }
}

/// The type with its aliases unfolded.
pub open spec fn resolve_spec(tys: Seq<CTyKindV>, t: CTy) -> CTy
    decreases ty_rank(t),
{
    match t.base {
        CTyBase::Ref(i) => if i < tys.len() {
            match tys[i as int] {
                CTyKindV::Alias(_, b) => if ty_rank(b) < ty_rank(t) {
                    resolve_spec(tys, b)
                } else {
                    t
                },
                _ => t,
            }
        } else {
            t
        },
        _ => t,
    }
}

/// The compound description of a type after unfolding aliases, if it has one.
pub open spec fn resolved_kind(tys: Seq<CTyKindV>, t: CTy) -> Option<CTyKindV> {
    match resolve_spec(tys, t).base {
        CTyBase::Ref(i) => if i < tys.len() {
            Some(tys[i as int])
        } else {
            None
        },
        _ => None,
    }
}

pub open spec fn spec_ty_is_signed(tys: Seq<CTyKindV>, t: CTy) -> bool {
    match resolve_spec(tys, t).base {
        CTyBase::Primitive(p) => p.spec_is_signed(),
        _ => false,
    }
}

pub open spec fn spec_ty_is_void(tys: Seq<CTyKindV>, t: CTy) -> bool {
    resolve_spec(tys, t).base == CTyBase::Primitive(CPTy::Void)
}

pub open spec fn spec_ty_is_ptr(tys: Seq<CTyKindV>, t: CTy) -> bool {
    match resolved_kind(tys, t) {
        Some(CTyKindV::Pointer(_)) => true,
        _ => false,
    }
}

impl CTy {
    /// Unfolds aliases.
    pub fn resolve(self, arena: &Arena) -> (r: CTy)
        ensures
            r == resolve_spec(arena.tys_view(), self),
    {
        let mut cur = self;
        loop
            invariant
                resolve_spec(arena.tys_view(), cur) == resolve_spec(arena.tys_view(), self),
            decreases ty_rank(cur),
        {
            match cur.base {
                CTyBase::Ref(i) => {
                    if i < arena.num_tys() {
                        match arena.get_ty(i) {
                            CTyKind::Alias { base, .. } => {
                                if (match base.base {
                                    CTyBase::Primitive(_) => true,
                                    CTyBase::Ref(j) => j < i,
                                }) {
                                    cur = *base;
                                } else {
                                    return cur;
                                }
                            },
                            _ => {
                                return cur;
                            },
                        }
                    } else {
                        return cur;
                    }
                },
                _ => {
                    return cur;
                },
            }
        }
    }

    /// Whether the type is void.
    pub fn is_void(self, arena: &Arena) -> (r: bool)
        ensures
            r == spec_ty_is_void(arena.tys_view(), self),
    {
        let t = self.resolve(arena);
        t.base == CTyBase::Primitive(CPTy::Void)
    }

    /// Whether the type is a signed integer.
    pub fn is_signed(self, arena: &Arena) -> (r: bool)
        ensures
            r == spec_ty_is_signed(arena.tys_view(), self),
    {
        match self.resolve(arena).base {
            CTyBase::Primitive(p) => p.is_signed(),
            _ => false,
        }
    }

    /// Whether the type is a pointer.
    pub fn is_ptr(self, arena: &Arena) -> (r: bool)
        ensures
            r == spec_ty_is_ptr(arena.tys_view(), self),
    {
        match self.resolve(arena).base {
            CTyBase::Ref(i) => {
                if i < arena.num_tys() {
                    matches!(arena.get_ty(i), CTyKind::Pointer(_))
                } else {
                    false
                }
            },
            _ => false,
        }
    }

    /// Whether the type is a struct.
    pub fn is_struct(self, arena: &Arena) -> (r: bool)
        ensures
            r == (resolved_kind(arena.tys_view(), self) matches Some(CTyKindV::Struct(_, _))),
    {
        match self.resolve(arena).base {
            CTyBase::Ref(i) => {
                if i < arena.num_tys() {
                    matches!(arena.get_ty(i), CTyKind::Struct { .. })
                } else {
                    false
                }
            },
            _ => false,
        }
    }

    /// The fields of the struct behind this type, if it is one.
    pub fn fields(self, arena: &Arena) -> (r: Option<&Vec<(CTy, StrId)>>)
        ensures
            match resolved_kind(arena.tys_view(), self) {
                Some(CTyKindV::Struct(_, fields)) => r matches Some(f) && f@ == fields,
                _ => r is None,
            },
    {
        match self.resolve(arena).base {
            CTyBase::Ref(i) => {
                if i < arena.num_tys() {
                    match arena.get_ty(i) {
                        CTyKind::Struct { fields, .. } => Some(fields),
                        _ => None,
                    }
                } else {
                    None
                }
            },
            _ => None,
        }
    }

    /// The type with `const` added when `cond` holds.
    pub fn to_const_if(self, cond: bool) -> (r: CTy)
        ensures
            r.base == self.base,
            r.quals == (CTyQuals { is_const: self.quals.is_const || cond, ..self.quals }),
    {
        CTy { base: self.base, quals: CTyQuals { is_const: self.quals.is_const || cond, ..self.quals } }
    }

    /// The type with `volatile` added when `cond` holds.
    pub fn to_volatile_if(self, cond: bool) -> (r: CTy)
        ensures
            r.base == self.base,
            r.quals == (CTyQuals { is_volatile: self.quals.is_volatile || cond, ..self.quals }),
    {
        CTy {
            base: self.base,
            quals: CTyQuals { is_volatile: self.quals.is_volatile || cond, ..self.quals },
        }
    }

    /// The type with `restrict` added when `cond` holds.
    pub fn to_restrict_if(self, cond: bool) -> (r: CTy)
        ensures
            r.base == self.base,
            r.quals == (CTyQuals { is_restrict: self.quals.is_restrict || cond, ..self.quals }),
    {
        CTy {
            base: self.base,
            quals: CTyQuals { is_restrict: self.quals.is_restrict || cond, ..self.quals },
        }
    }

    /// The function pointer type behind this type, if it is one.
    pub fn fn_ptr(self, arena: &Arena) -> (r: Option<&CFnPtr>)
        ensures
            match resolved_kind(arena.tys_view(), self) {
                Some(CTyKindV::FnPtr(ret, args, abi)) => r matches Some(f) && f.ret == ret && f.args@
                    == args && f.abi == abi,
                _ => r is None,
            },
    {
        match self.resolve(arena).base {
            CTyBase::Ref(i) => {
                if i < arena.num_tys() {
                    match arena.get_ty(i) {
                        CTyKind::FnPtr(f) => Some(f),
                        _ => None,
                    }
                } else {
                    None
                }
            },
            _ => None,
        }
    }
}

/// What an interning constructor of types promises: `r` is the unqualified
/// reference to the entry for `k`, and nothing but the type table changed.
pub open spec fn interned(before: ModuleCtxt, k: CTyKindV, after: ModuleCtxt, r: CTy) -> bool {
    &&& r.base is Ref
    &&& !r.quals.is_const && !r.quals.is_volatile && !r.quals.is_restrict
    &&& intern_post(before.tys(), k, after.tys(), r.base->Ref_0 as int)
    &&& after.wf()
    &&& after.strs() == before.strs()
    &&& after.0.module == before.0.module
    &&& after.next_global_spec() == before.next_global_spec()
}

impl ModuleCtxt {
    /// Interns a compound type.
    pub fn intern_ty(&mut self, k: CTyKind) -> (r: CTy)
        requires
            old(self).wf(),
            kind_below(k@, old(self).tys().len()),
        ensures
            interned(*old(self), k@, *final(self), r),
    {
        let i = self.0.arena.intern_ty(k);
        CTy { base: CTyBase::Ref(i), quals: CTyQuals::empty() }
    }

    /// The void type.
    pub fn void(&self) -> (r: CTy)
        ensures
            r == CTy::primitive_spec(CPTy::Void),
    {
        CTy::primitive(CPTy::Void)
    }

    /// The boolean type.
    pub fn bool(&self) -> (r: CTy)
        ensures
            r == CTy::primitive_spec(CPTy::Bool),
    {
        CTy::primitive(CPTy::Bool)
    }

    /// The character type.
    pub fn char(&self) -> (r: CTy)
        ensures
            r == CTy::primitive_spec(CPTy::Char),
    {
        CTy::primitive(CPTy::Char)
    }

    /// The C type of a signed integer type; 128-bit integers are not supported.
    pub fn int_ty(&self, t: IntTy) -> (r: CTy)
        requires
            t != IntTy::I128,
        ensures
            r == CTy::primitive_spec(
                match t {
                    IntTy::Isize => CPTy::Isize,
                    IntTy::I8 => CPTy::I8,
                    IntTy::I16 => CPTy::I16,
                    IntTy::I32 => CPTy::I32,
                    _ => CPTy::I64,
                },
            ),
    {
        CTy::primitive(
            match t {
                IntTy::Isize => CPTy::Isize,
                IntTy::I8 => CPTy::I8,
                IntTy::I16 => CPTy::I16,
                IntTy::I32 => CPTy::I32,
                _ => CPTy::I64,
            },
        )
    }

    /// The C type of an unsigned integer type; 128-bit integers are not supported.
    pub fn uint_ty(&self, t: UintTy) -> (r: CTy)
        requires
            t != UintTy::U128,
        ensures
            r == CTy::primitive_spec(
                match t {
                    UintTy::Usize => CPTy::Usize,
                    UintTy::U8 => CPTy::U8,
                    UintTy::U16 => CPTy::U16,
                    UintTy::U32 => CPTy::U32,
                    _ => CPTy::U64,
                },
            ),
    {
        CTy::primitive(
            match t {
                UintTy::Usize => CPTy::Usize,
                UintTy::U8 => CPTy::U8,
                UintTy::U16 => CPTy::U16,
                UintTy::U32 => CPTy::U32,
                _ => CPTy::U64,
            },
        )
    }

    /// A named alias of a type.
    pub fn alias(&mut self, name: StrId, base: CTy) -> (r: CTy)
        requires
            old(self).wf(),
            ty_below(base, old(self).tys().len()),
        ensures
            interned(*old(self), CTyKindV::Alias(name, base), *final(self), r),
    {
        self.intern_ty(CTyKind::Alias { name, base })
    }

    /// The pointer type to `ty`.
    pub fn ptr(&mut self, ty: CTy) -> (r: CTy)
        requires
            old(self).wf(),
            ty_below(ty, old(self).tys().len()),
        ensures
            interned(*old(self), CTyKindV::Pointer(ty), *final(self), r),
    {
        self.intern_ty(CTyKind::Pointer(ty))
    }

    /// The array type of `ty`, of length `n` when given.
    pub fn arr(&mut self, ty: CTy, n: Option<usize>) -> (r: CTy)
        requires
            old(self).wf(),
            ty_below(ty, old(self).tys().len()),
            n != Some(0usize),
        ensures
            interned(*old(self), CTyKindV::Array(ty, n), *final(self), r),
    {
        self.intern_ty(CTyKind::Array(ty, n))
    }

    /// The function pointer type.
    pub fn fn_ptr(&mut self, ret: CTy, args: Vec<CTy>, abi: Conv) -> (r: CTy)
        requires
            old(self).wf(),
            ty_below(ret, old(self).tys().len()),
            forall|i: int| 0 <= i < args@.len() ==> ty_below(#[trigger] args@[i], old(self).tys().len()),
        ensures
            interned(*old(self), CTyKindV::FnPtr(ret, args@, abi), *final(self), r),
    {
        self.intern_ty(CTyKind::FnPtr(CFnPtr { ret, args, abi }))
    }

    /// The struct type with these fields.
    pub fn struct_ty(&mut self, name: Option<StrId>, fields: Vec<(CTy, StrId)>) -> (r: CTy)
        requires
            old(self).wf(),
            forall|i: int|
                0 <= i < fields@.len() ==> ty_below(#[trigger] fields@[i].0, old(self).tys().len()),
        ensures
            interned(*old(self), CTyKindV::Struct(name, fields@), *final(self), r),
    {
        self.intern_ty(CTyKind::Struct { name, fields })
    }
}

} // verus!
