//! Module-level definitions made while lowering: constant data, the standard
//! includes, and function names.

use vstd::prelude::*;
use vstd::string::{StrSliceExecFns, StringExecFns};

use crate::arena::intern_post;
use crate::builder::{expr_list, Value};
use crate::expr::{CExprKind, CExprList, CValue};
use crate::func::{main_sig_ok, CFuncKind};
use crate::config::views;
use crate::pretty::{digit_char, nat_string, nat_text, str_at};
use crate::stmt::CDeclKind;
use crate::ty::{resolved_kind, CPTy, CTy, CTyBase, CTyKindV, CTyQuals, StrId};
use crate::ModuleCtxt;

verus! {

/// The initializer elements of a byte array.
pub open spec fn byte_exprs(bytes: Seq<u8>) -> Seq<CExprKind> {
    Seq::new(bytes.len(), |i: int| CExprKind::Value(CValue::Scalar(bytes[i] as i128)))
}

/// The element type of constant data: `char`, `const` unless mutable.
pub open spec fn data_char(mutable: bool) -> CTy {
    CTy {
        base: CTyBase::Primitive(CPTy::Char),
        quals: CTyQuals { is_const: !mutable, is_volatile: false, is_restrict: false },
    }
}

/// The headers every module includes: the standard ones the generated code
/// uses, and the runtime support header.
pub open spec fn standard_includes() -> Seq<&'static str> {
    seq!["stdlib.h", "stdint.h", "stddef.h", "stdbool.h", "rust_runtime.h"]
}

/// `s` with each `.` replaced by `_`.
pub open spec fn sanitized(s: Seq<char>) -> Seq<char> {
    Seq::new(s.len(), |i: int| if s[i] == '.' { '_' } else { s[i] })
}

/// A symbol name usable as a C identifier: each `.` becomes `_`.
pub fn sanitize_symbol(s: &str) -> (r: String)
    ensures
        r@ == sanitized(s@),
{
    let n = s.unicode_len();
    let mut r = String::new();
    let mut i: usize = 0;
    while i < n
        invariant
            n == s@.len(),
            i <= n,
            r@ == sanitized(s@).subrange(0, i as int),
        decreases n - i,
    {
        if s.get_char(i) == '.' {
            r.append("_");
            proof {
                reveal_strlit("_");
            }
        } else {
            r.append(s.substring_char(i, i + 1));
        }
        assert(r@ =~= sanitized(s@).subrange(0, i + 1));
        i = i + 1;
    }
    assert(sanitized(s@).subrange(0, n as int) =~= sanitized(s@));
    r
}

impl ModuleCtxt {
    /// Adds the standard includes to the module.
    pub fn push_standard_includes(&mut self)
        ensures
            final(self).0.module.includes@ == old(self).0.module.includes@ + standard_includes(),
            final(self).0.module.decls@ == old(self).0.module.decls@,
            final(self).0.module.funcs@ == old(self).0.module.funcs@,
            final(self).0.arena == old(self).0.arena,
            final(self).next_global_spec() == old(self).next_global_spec(),
    {
        let includes = ["stdlib.h", "stdint.h", "stddef.h", "stdbool.h", "rust_runtime.h"];
        assert(includes@ =~= standard_includes());
        self.module_mut().push_includes(&includes);
    }

    /// Declares constant data: a fresh module-level `char` array (`const`
    /// unless `mutable`) initialized with `bytes`. Returns the variable and
    /// its type.
    pub fn const_data(&mut self, bytes: &Vec<u8>, mutable: bool) -> (r: (CValue, CTy))
        requires
            old(self).wf(),
            old(self).next_global_spec() < usize::MAX,
        ensures
            final(self).wf(),
            r.0 == CValue::Global(old(self).next_global_spec() as usize),
            final(self).next_global_spec() == old(self).next_global_spec() + 1,
            final(self).strs() == old(self).strs(),
            r.1.base is Ref,
            intern_post(
                old(self).tys(),
                CTyKindV::Array(data_char(mutable), None),
                final(self).tys(),
                r.1.base->Ref_0 as int,
            ),
            final(self).0.module.includes@ == old(self).0.module.includes@,
            final(self).0.module.funcs@ == old(self).0.module.funcs@,
            final(self).0.module.decls@ == old(self).0.module.decls@.push(
                CDeclKind::Var {
                    name: r.0,
                    ty: r.1,
                    init: Some(Box::new(CExprKind::InitList { exprs: expr_list(byte_exprs(bytes@)) })),
                },
            ),
    {
        let var = self.next_global_var();
        let elem = CTy {
            base: CTyBase::Primitive(CPTy::Char),
            quals: CTyQuals { is_const: !mutable, is_volatile: false, is_restrict: false },
        };
        let ty = self.arr(elem, None);
        let ghost es = byte_exprs(bytes@);
        let mut list = CExprList::Nil;
        let mut j: usize = bytes.len();
        assert(es.subrange(j as int, es.len() as int) =~= Seq::<CExprKind>::empty());
        while j > 0
            invariant
                j <= bytes@.len(),
                es == byte_exprs(bytes@),
                list == expr_list(es.subrange(j as int, es.len() as int)),
            decreases j,
        {
            let e = CExprKind::Value(CValue::Scalar(bytes[j - 1] as i128));
            assert(es.subrange(j - 1, es.len() as int).drop_first() =~= es.subrange(
                j as int,
                es.len() as int,
            ));
            list = CExprList::Cons(Box::new(e), Box::new(list));
            j = j - 1;
        }
        assert(es.subrange(0, es.len() as int) =~= es);
        let decl = CDeclKind::Var {
            name: var,
            ty,
            init: Some(Box::new(CExprKind::InitList { exprs: list })),
        };
        self.module_mut().push_decl(decl);
        (var, ty)
    }
}

/// Whether two strings hold the same characters.
pub fn same_str(a: &str, b: &str) -> (r: bool)
    ensures
        r == (a@ == b@),
{
    let n = a.unicode_len();
    if n != b.unicode_len() {
        return false;
    }
    let mut i: usize = 0;
    while i < n
        invariant
            n == a@.len(),
            n == b@.len(),
            i <= n,
            forall|j: int| 0 <= j < i ==> a@[j] == b@[j],
        decreases n - i,
    {
        if a.get_char(i) != b.get_char(i) {
            return false;
        }
        i = i + 1;
    }
    assert(a@ =~= b@);
    true
}

/// The position of the first function named `sym`, if any.
pub open spec fn find_fn(fns: Seq<(StrId, CTy)>, strs: Seq<Seq<char>>, sym: Seq<char>) -> Option<int> {
    if exists|i: int| 0 <= i < fns.len() && str_at(strs, fns[i].0) == sym {
        Some(
            choose|i: int|
                0 <= i < fns.len() && str_at(strs, fns[i].0) == sym && forall|j: int|
                    0 <= j < i ==> str_at(strs, fns[j].0) != sym,
        )
    } else {
        None
    }
}

proof fn lemma_find_fn(fns: Seq<(StrId, CTy)>, strs: Seq<Seq<char>>, sym: Seq<char>, i: int)
    requires
        0 <= i < fns.len(),
        str_at(strs, fns[i].0) == sym,
        forall|j: int| 0 <= j < i ==> str_at(strs, fns[j].0) != sym,
    ensures
        find_fn(fns, strs, sym) == Some(i),
{
    let k = choose|k: int|
        0 <= k < fns.len() && str_at(strs, fns[k].0) == sym && forall|j: int|
            0 <= j < k ==> str_at(strs, fns[j].0) != sym;
    assert(0 <= k < fns.len() && str_at(strs, fns[k].0) == sym && forall|j: int|
        0 <= j < k ==> str_at(strs, fns[j].0) != sym);
    if k < i {
        assert(str_at(strs, fns[k].0) != sym);
    }
    if i < k {
        assert(str_at(strs, fns[i].0) != sym);
    }
}

fn find_fn_exec(fns: &Vec<(StrId, CTy)>, mcx: &ModuleCtxt, sym: &str) -> (r: Option<usize>)
    ensures
        r matches Some(k) ==> k < fns@.len() && find_fn(fns@, mcx.strs(), sym@) == Some(k as int),
        r is None ==> find_fn(fns@, mcx.strs(), sym@) is None,
{
    let mut i: usize = 0;
    while i < fns.len()
        invariant
            i <= fns@.len(),
            forall|j: int| 0 <= j < i ==> str_at(mcx.strs(), fns@[j].0) != sym@,
        decreases fns@.len() - i,
    {
        let id = fns[i].0;
        let found = if id.index < mcx.arena().num_strs() {
            same_str(mcx.arena().get_str(id), sym)
        } else {
            let e = sym.is_empty();
            assert(e ==> sym@ =~= Seq::<char>::empty());
            e
        };
        if found {
            proof {
                lemma_find_fn(fns@, mcx.strs(), sym@, i as int);
            }
            return Some(i);
        }
        i = i + 1;
    }
    None
}

/// The functions a module knows by symbol: those it defines and those it
/// only declares.
pub struct FnTable {
    defined: Vec<(StrId, CTy)>,
    declared: Vec<(StrId, CTy)>,
}

impl FnTable {
    pub closed spec fn defined(&self) -> Seq<(StrId, CTy)> {
        self.defined@
    }

    pub closed spec fn declared(&self) -> Seq<(StrId, CTy)> {
        self.declared@
    }

    /// No function yet.
    pub fn new() -> (r: FnTable)
        ensures
            r.defined() == Seq::<(StrId, CTy)>::empty(),
            r.declared() == Seq::<(StrId, CTy)>::empty(),
    {
        FnTable { defined: Vec::new(), declared: Vec::new() }
    }

    /// Starts the definition of the function with this symbol and function
    /// pointer type. Its C name is the symbol with each `.` replaced by `_`.
    pub fn predefine_fn(&mut self, mcx: &mut ModuleCtxt, symbol: &str, ty: CTy, is_main: bool) -> (r:
        CFuncKind)
        requires
            old(mcx).wf(),
            resolved_kind(old(mcx).tys(), ty) matches Some(CTyKindV::FnPtr(_, _, _)),
            is_main ==> main_sig_ok(
                old(mcx).tys(),
                resolved_kind(old(mcx).tys(), ty)->Some_0->FnPtr_0,
                resolved_kind(old(mcx).tys(), ty)->Some_0->FnPtr_1,
            ),
        ensures
            final(mcx).wf(),
            final(mcx).strs() == old(mcx).strs().push(sanitized(symbol@)),
            final(mcx).tys() == old(mcx).tys(),
            r.wf(),
            r@.name == (StrId { index: old(mcx).strs().len() as usize }),
            r@.ty == ty,
            r@.is_main == is_main,
            r@.ret == resolved_kind(old(mcx).tys(), ty)->Some_0->FnPtr_0,
            r@.param_tys == resolved_kind(old(mcx).tys(), ty)->Some_0->FnPtr_1,
            r@.next_local == r@.params.len(),
            r@.blocks.len() == 0,
            r@.allocs.len() == 0,
            final(self).defined() == old(self).defined().push((r@.name, ty)),
            final(self).declared() == old(self).declared(),
    {
        let name = sanitize_symbol(symbol);
        let id = mcx.alloc_str(name.as_str());
        let f = CFuncKind::new(id, ty, is_main, mcx.arena());
        self.defined.push((id, ty));
        f
    }

    /// The address of the function with this symbol: a function defined or
    /// already declared in the module is referred to as it is; any other is
    /// declared now, with a prototype of the function pointer type `ty`.
    pub fn get_fn_addr(&mut self, mcx: &mut ModuleCtxt, symbol: &str, ty: CTy) -> (r: Value)
        requires
            resolved_kind(old(mcx).tys(), ty) matches Some(CTyKindV::FnPtr(_, _, _)),
        ensures
            final(mcx).tys() == old(mcx).tys(),
            final(mcx).wf() == old(mcx).wf(),
            final(mcx).next_global_spec() == old(mcx).next_global_spec(),
            final(self).defined() == old(self).defined(),
            match find_fn(old(self).defined(), old(mcx).strs(), symbol@) {
                Some(i) => r == (Value::RValue {
                    cval: CValue::Func(old(self).defined()[i].0),
                    ty: old(self).defined()[i].1,
                }) && *final(mcx) == *old(mcx) && final(self).declared() == old(self).declared(),
                None => match find_fn(old(self).declared(), old(mcx).strs(), symbol@) {
                    Some(i) => r == (Value::RValue {
                        cval: CValue::Func(old(self).declared()[i].0),
                        ty: old(self).declared()[i].1,
                    }) && *final(mcx) == *old(mcx) && final(self).declared()
                        == old(self).declared(),
                    None => {
                        let id = StrId { index: old(mcx).strs().len() as usize };
                        &&& r == (Value::RValue { cval: CValue::Func(id), ty })
                        &&& final(mcx).strs() == old(mcx).strs().push(symbol@)
                        &&& final(mcx).0.module.decls@ == old(mcx).0.module.decls@.push(
                            CDeclKind::Func { name: id, ty },
                        )
                        &&& final(mcx).0.module.funcs@ == old(mcx).0.module.funcs@
                        &&& final(mcx).0.module.includes@ == old(mcx).0.module.includes@
                        &&& final(self).declared() == old(self).declared().push((id, ty))
                    },
                },
            },
    {
        match find_fn_exec(&self.defined, mcx, symbol) {
            Some(i) => {
                return Value::RValue { cval: CValue::Func(self.defined[i].0), ty: self.defined[i].1 };
            },
            None => {},
        }
        match find_fn_exec(&self.declared, mcx, symbol) {
            Some(i) => {
                return Value::RValue {
                    cval: CValue::Func(self.declared[i].0),
                    ty: self.declared[i].1,
                };
            },
            None => {},
        }
        let id = mcx.alloc_str(symbol);
        mcx.module_mut().push_decl(CDeclKind::Func { name: id, ty });
        self.declared.push((id, ty));
        Value::RValue { cval: CValue::Func(id), ty }
    }
}

/// The `k`-th alternative for a name that is taken: `name_k`.
pub open spec fn candidate(name: Seq<char>, k: nat) -> Seq<char> {
    name + "_"@ + nat_text(k)
}

/// The name the manager hands out for `name` when `taken` are in use: `name`
/// itself if it is free, else `name_k` for the least `k >= 1` that is free.
pub open spec fn unique_name_post(taken: Seq<Seq<char>>, name: Seq<char>, u: Seq<char>) -> bool {
    if !taken.contains(name) {
        u == name
    } else {
        exists|k: nat|
            #![trigger candidate(name, k)]
            k >= 1 && u == candidate(name, k) && !taken.contains(u) && forall|j: nat|
                1 <= j < k ==> taken.contains(#[trigger] candidate(name, j))
    }
}

proof fn lemma_nat_text_len(n: nat)
    ensures
        nat_text(n).len() >= 1,
        n >= 10 ==> nat_text(n).len() >= 2,
    decreases n,
{
    if n >= 10 {
        lemma_nat_text_len(n / 10);
    }
}

proof fn lemma_digit_char_injective(a: nat, b: nat)
    requires
        a < 10,
        b < 10,
        digit_char(a) == digit_char(b),
    ensures
        a == b,
{
}

proof fn lemma_nat_text_injective(a: nat, b: nat)
    requires
        nat_text(a) == nat_text(b),
    ensures
        a == b,
    decreases a,
{
    lemma_nat_text_len(a);
    lemma_nat_text_len(b);
    if a < 10 && b < 10 {
        assert(nat_text(a) == seq![digit_char(a)]);
        assert(nat_text(b) == seq![digit_char(b)]);
        assert(seq![digit_char(a)][0] == digit_char(a));
        assert(seq![digit_char(b)][0] == digit_char(b));
        lemma_digit_char_injective(a, b);
    } else if a >= 10 && b >= 10 {
        let ta = nat_text(a);
        let tb = nat_text(b);
        assert(ta.last() == tb.last());
        assert(ta.last() == digit_char(a % 10));
        assert(tb.last() == digit_char(b % 10));
        lemma_digit_char_injective(a % 10, b % 10);
        assert(ta.drop_last() =~= nat_text(a / 10));
        assert(tb.drop_last() =~= nat_text(b / 10));
        lemma_nat_text_injective(a / 10, b / 10);
        assert(a == 10 * (a / 10) + a % 10);
        assert(b == 10 * (b / 10) + b % 10);
    }
}

proof fn lemma_candidate_injective(name: Seq<char>, a: nat, b: nat)
    requires
        candidate(name, a) == candidate(name, b),
    ensures
        a == b,
{
    let p = name + "_"@;
    let ca = candidate(name, a);
    assert(nat_text(a) =~= ca.subrange(p.len() as int, ca.len() as int));
    assert(nat_text(b) =~= candidate(name, b).subrange(p.len() as int, ca.len() as int));
    lemma_nat_text_injective(a, b);
}

/// Distinct names all found in `taken` are no more than `taken` holds.
proof fn lemma_candidates_fit(taken: Seq<Seq<char>>, name: Seq<char>, m: nat)
    requires
        forall|j: nat| 1 <= j <= m ==> taken.contains(#[trigger] candidate(name, j)),
    ensures
        m <= taken.len(),
    decreases m,
{
    if m > 0 {
        let c = candidate(name, m);
        let i = choose|i: int| 0 <= i < taken.len() && taken[i] == c;
        let rest = taken.remove(i);
        assert forall|j: nat| 1 <= j <= m - 1 implies rest.contains(#[trigger] candidate(name, j)) by {
            let cj = candidate(name, j);
            let x = choose|x: int| 0 <= x < taken.len() && taken[x] == cj;
            if cj == c {
                lemma_candidate_injective(name, j, m);
            }
            assert(x != i);
            if x < i {
                assert(rest[x] == cj);
            } else {
                assert(rest[x - 1] == cj);
            }
        }
        lemma_candidates_fit(rest, name, (m - 1) as nat);
    }
}

fn contains_str(names: &Vec<String>, s: &str) -> (r: bool)
    ensures
        r == views(names@).contains(s@),
{
    let mut i: usize = 0;
    while i < names.len()
        invariant
            i <= names@.len(),
            forall|j: int| 0 <= j < i ==> names@[j]@ != s@,
        decreases names@.len() - i,
    {
        if same_str(names[i].as_str(), s) {
            assert(views(names@)[i as int] == s@);
            return true;
        }
        i = i + 1;
    }
    assert forall|j: int| 0 <= j < views(names@).len() implies views(names@)[j] != s@ by {
        assert(views(names@)[j] == names@[j]@);
    }
    false
}

/// Hands out names that are unique within a module.
pub struct NameManager {
    names: Vec<String>,
}

impl NameManager {
    /// The names handed out so far.
    pub closed spec fn taken(&self) -> Seq<Seq<char>> {
        views(self.names@)
    }

    /// A manager that has handed out no name.
    pub fn new() -> (r: NameManager)
        ensures
            r.taken() == Seq::<Seq<char>>::empty(),
    {
        let r = NameManager { names: Vec::new() };
        assert(r.taken() =~= Seq::<Seq<char>>::empty());
        r
    }

    /// A name not handed out before: `name` if it is free, else `name_1`,
    /// `name_2`, ..., whichever comes first that is free. The name is stored
    /// in the arena.
    pub fn intern(&mut self, name: &str, mcx: &mut ModuleCtxt) -> (r: StrId)
        requires
            old(self).taken().len() < usize::MAX,
        ensures
            unique_name_post(old(self).taken(), name@, final(self).taken().last()),
            final(self).taken() == old(self).taken().push(final(self).taken().last()),
            r.index == old(mcx).strs().len(),
            final(mcx).strs() == old(mcx).strs().push(final(self).taken().last()),
            final(mcx).tys() == old(mcx).tys(),
            final(mcx).wf() == old(mcx).wf(),
            final(mcx).0.module == old(mcx).0.module,
            final(mcx).next_global_spec() == old(mcx).next_global_spec(),
    {
        let ghost taken = self.taken();
        if !contains_str(&self.names, name) {
            let r = mcx.alloc_str(name);
            self.names.push(String::from_str(name));
            assert(self.taken() =~= taken.push(name@));
            return r;
        }
        let mut alt: usize = 1;
        loop
            invariant
                taken == self.taken(),
                taken == old(self).taken(),
                *mcx == *old(mcx),
                taken.contains(name@),
                1 <= alt <= taken.len() + 1,
                taken.len() < usize::MAX,
                forall|j: nat| 1 <= j < alt ==> taken.contains(#[trigger] candidate(name@, j)),
            decreases taken.len() + 1 - alt,
        {
            let mut c = String::from_str(name);
            c.append("_");
            let digits = nat_string(alt as u128);
            c.append(digits.as_str());
            assert(c@ == candidate(name@, alt as nat));
            if !contains_str(&self.names, c.as_str()) {
                let r = mcx.alloc_str(c.as_str());
                let ghost cv = c@;
                self.names.push(c);
                assert(self.taken() =~= taken.push(cv));
                assert(self.taken().last() == cv);
                assert(unique_name_post(taken, name@, cv)) by {
                    assert(alt as nat >= 1 && cv == candidate(name@, alt as nat));
                }
                return r;
            }
            proof {
                lemma_candidates_fit(taken, name@, alt as nat);
            }
            alt = alt + 1;
        }
    }
}

} // verus!
