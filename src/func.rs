use vstd::prelude::*;

use crate::arena::Arena;
use crate::expr::CValue;
use crate::stmt::CStmtKind;
use crate::ty::{resolved_kind, spec_ty_is_ptr, spec_ty_is_signed, CTy, CTyKindV, StrId};

verus! {

/// A stack slot declared before its type is known: `ty` is set once the slot is
/// realized, `fallback` (a byte array of the slot's size) is used otherwise.
#[derive(Clone, Copy, Debug, PartialEq, Eq, Structural)]
pub struct PendingAlloc {
    pub ty: Option<CTy>,
    pub fallback: CTy,
}

/// The type a pending allocation is declared with.
pub open spec fn alloc_decl_ty(a: PendingAlloc) -> CTy {
    match a.ty {
        Some(t) => t,
        None => a.fallback,
    }
}

/// Why a pending allocation could not be realized.
#[derive(Clone, Copy, Debug, PartialEq, Eq, Structural)]
pub enum AllocError {
    /// The value is not a pending allocation of this function.
    NotFound,
    /// The allocation was already realized with another type.
    Mismatch { declared: CTy, requested: CTy },
}

/// Whether the table holds each local at most once.
pub open spec fn keys_distinct(allocs: Seq<(usize, PendingAlloc)>) -> bool {
    forall|i: int, j: int|
        0 <= i < allocs.len() && 0 <= j < allocs.len() && i != j ==> allocs[i].0 != allocs[j].0
}

/// The position of a local's entry in the table.
pub open spec fn alloc_index(allocs: Seq<(usize, PendingAlloc)>, key: usize) -> Option<int> {
    if exists|i: int| 0 <= i < allocs.len() && allocs[i].0 == key {
        Some(choose|i: int| 0 <= i < allocs.len() && allocs[i].0 == key)
    } else {
        None
    }
}

/// The table after realizing local `key` with type `ty`, or why that fails.
pub open spec fn realize_spec(allocs: Seq<(usize, PendingAlloc)>, key: usize, ty: CTy) -> Result<
    Seq<(usize, PendingAlloc)>,
    AllocError,
> {
    match alloc_index(allocs, key) {
        None => Err(AllocError::NotFound),
        Some(i) => match allocs[i].1.ty {
            Some(t) => if t == ty {
                Ok(allocs)
            } else {
                Err(AllocError::Mismatch { declared: t, requested: ty })
            },
            None => Ok(allocs.update(i, (key, PendingAlloc { ty: Some(ty), fallback: allocs[i].1.fallback }))),
        },
    }
}

/// Whether `val` may be realized with `ty`: it is a pending allocation of the
/// table, not yet realized or realized with `ty` itself.
pub open spec fn realize_ok(allocs: Seq<(usize, PendingAlloc)>, val: CValue, ty: CTy) -> bool {
    match val {
        CValue::Local(k) => realize_spec(allocs, k, ty) is Ok,
        _ => false,
    }
}

/// The function after realizing `val` with `ty`, where `realize_ok` holds.
pub open spec fn realized(before: CFuncV, val: CValue, ty: CTy) -> CFuncV {
    CFuncV { allocs: realize_spec(before.allocs, val->Local_0, ty)->Ok_0, ..before }
}

proof fn lemma_alloc_index_unique(allocs: Seq<(usize, PendingAlloc)>, key: usize, i: int)
    requires
        keys_distinct(allocs),
        0 <= i < allocs.len(),
        allocs[i].0 == key,
    ensures
        alloc_index(allocs, key) == Some(i),
{
}

/// The pending-allocation protocol. Realizing a fresh allocation with `t1`
/// succeeds, and realizing it again with `t1` succeeds and changes nothing; with
/// another type `t2` it fails with a mismatch. Until it is realized, the
/// allocation is declared with its fallback type.
pub proof fn lemma_pending_alloc_protocol(
    allocs: Seq<(usize, PendingAlloc)>,
    i: int,
    t1: CTy,
    t2: CTy,
)
    requires
        keys_distinct(allocs),
        0 <= i < allocs.len(),
        allocs[i].1.ty is None,
    ensures
        alloc_decl_ty(allocs[i].1) == allocs[i].1.fallback,
        realize_spec(allocs, allocs[i].0, t1) is Ok,
        ({
            let a1 = realize_spec(allocs, allocs[i].0, t1)->Ok_0;
            &&& alloc_decl_ty(a1[i].1) == t1
            &&& realize_spec(a1, allocs[i].0, t1) == Ok::<Seq<(usize, PendingAlloc)>, AllocError>(a1)
            &&& t1 != t2 ==> realize_spec(a1, allocs[i].0, t2) == Err::<
                Seq<(usize, PendingAlloc)>,
                AllocError,
            >(AllocError::Mismatch { declared: t1, requested: t2 })
        }),
{
    let key = allocs[i].0;
    lemma_alloc_index_unique(allocs, key, i);
    let a1 = allocs.update(i, (key, PendingAlloc { ty: Some(t1), fallback: allocs[i].1.fallback }));
    assert(keys_distinct(a1)) by {
        assert forall|x: int, y: int|
            0 <= x < a1.len() && 0 <= y < a1.len() && x != y implies a1[x].0 != a1[y].0 by {
            assert(a1[x].0 == allocs[x].0);
            assert(a1[y].0 == allocs[y].0);
        }
    }
    lemma_alloc_index_unique(a1, key, i);
}

/// A basic block: a label followed by its statements.
#[derive(Debug)]
pub struct CBasicBlock {
    pub label: StrId,
    pub stmts: Vec<CStmtKind>,
}

/// A basic block as a label and a sequence of statements.
pub struct BlockV {
    pub label: StrId,
    pub stmts: Seq<CStmtKind>,
}

/// The model of a function under construction.
pub struct CFuncV {
    pub name: StrId,
    pub ty: CTy,
    pub params: Seq<CValue>,
    pub ret: CTy,
    pub param_tys: Seq<CTy>,
    pub is_main: bool,
    pub blocks: Seq<BlockV>,
    pub allocs: Seq<(usize, PendingAlloc)>,
    pub next_local: nat,
}

/// The function with statement `s` appended to block `b`.
pub open spec fn with_stmt(f: CFuncV, b: int, s: CStmtKind) -> CFuncV {
    CFuncV {
        blocks: f.blocks.update(b, BlockV { label: f.blocks[b].label, stmts: f.blocks[b].stmts.push(s) }),
        ..f
    }
}

/// The function with `n` more fresh locals used.
pub open spec fn with_locals(f: CFuncV, n: nat) -> CFuncV {
    CFuncV { next_local: f.next_local + n, ..f }
}

/// The requirements on `main`'s signature: it returns a signed integer and takes
/// no argument, or a signed integer and a pointer.
pub open spec fn main_sig_ok(tys: Seq<CTyKindV>, ret: CTy, args: Seq<CTy>) -> bool {
    &&& spec_ty_is_signed(tys, ret)
    &&& (args.len() == 0 || (args.len() == 2 && spec_ty_is_signed(tys, args[0])
        && spec_ty_is_ptr(tys, args[1])))
}

/// A function definition under construction.
#[derive(Debug)]
pub struct CFuncKind {
    pub name: StrId,
    pub ty: CTy,
    pub params: Vec<CValue>,
    ret: CTy,
    param_tys: Vec<CTy>,
    is_main: bool,
    body: Vec<CBasicBlock>,
    alloc: Vec<(usize, PendingAlloc)>,
    local_var_counter: usize,
}

impl View for CFuncKind {
    type V = CFuncV;

    closed spec fn view(&self) -> CFuncV {
        CFuncV {
            name: self.name,
            ty: self.ty,
            params: self.params@,
            ret: self.ret,
            param_tys: self.param_tys@,
            is_main: self.is_main,
            blocks: self.body@.map_values(|b: CBasicBlock| BlockV { label: b.label, stmts: b.stmts@ }),
            allocs: self.alloc@,
            next_local: self.local_var_counter as nat,
        }
    }
}

impl CFuncKind {
    /// Parameters are the first locals, the pending allocations name distinct
    /// locals already handed out.
    pub open spec fn wf(&self) -> bool {
        &&& self@.params.len() == self@.param_tys.len()
        &&& self@.params.len() <= self@.next_local
        &&& forall|i: int|
            0 <= i < self@.params.len() ==> #[trigger] self@.params[i] == CValue::Local(i as usize)
        &&& keys_distinct(self@.allocs)
        &&& forall|i: int| 0 <= i < self@.allocs.len() ==> (#[trigger] self@.allocs[i]).0 < self@.next_local
    }

    /// A function of type `ty`, which must be a function pointer type. Its
    /// parameters are the locals `_0 .. _n`.
    pub fn new(name: StrId, ty: CTy, is_main: bool, arena: &Arena) -> (r: CFuncKind)
        requires
            arena.wf(),
            resolved_kind(arena.tys_view(), ty) is Some,
            resolved_kind(arena.tys_view(), ty)->Some_0 is FnPtr,
            is_main ==> main_sig_ok(
                arena.tys_view(),
                resolved_kind(arena.tys_view(), ty)->Some_0->FnPtr_0,
                resolved_kind(arena.tys_view(), ty)->Some_0->FnPtr_1,
            ),
        ensures
            r.wf(),
            r@.name == name,
            r@.ty == ty,
            r@.is_main == is_main,
            r@.ret == resolved_kind(arena.tys_view(), ty)->Some_0->FnPtr_0,
            r@.param_tys == resolved_kind(arena.tys_view(), ty)->Some_0->FnPtr_1,
            r@.next_local == r@.params.len(),
            r@.blocks.len() == 0,
            r@.allocs.len() == 0,
    {
        let f = ty.fn_ptr(arena).unwrap();
        let n = f.args.len();
        let mut params: Vec<CValue> = Vec::new();
        let mut param_tys: Vec<CTy> = Vec::new();
        let mut i: usize = 0;
        while i < n
            invariant
                n == f.args@.len(),
                i <= n,
                params@.len() == i,
                param_tys@ == f.args@.subrange(0, i as int),
                forall|j: int| 0 <= j < i ==> #[trigger] params@[j] == CValue::Local(j as usize),
            decreases n - i,
        {
            params.push(CValue::Local(i));
            param_tys.push(f.args[i]);
            assert(f.args@.subrange(0, i + 1) =~= f.args@.subrange(0, i as int).push(f.args@[i as int]));
            i = i + 1;
        }
        assert(f.args@.subrange(0, n as int) =~= f.args@);
        let r = CFuncKind {
            name,
            ty,
            params,
            ret: f.ret,
            param_tys,
            is_main,
            body: Vec::new(),
            alloc: Vec::new(),
            local_var_counter: n,
        };
        assert(r@.blocks =~= Seq::<BlockV>::empty());
        r
    }

    /// The function's name.
    pub fn name_id(&self) -> (r: StrId)
        ensures
            r == self@.name,
    {
        self.name
    }

    /// The locals that hold the parameters.
    pub fn param_values(&self) -> (r: &Vec<CValue>)
        ensures
            r@ == self@.params,
    {
        &self.params
    }

    /// Whether this is the program's entry point.
    pub fn is_main(&self) -> (r: bool)
        ensures
            r == self@.is_main,
    {
        self.is_main
    }

    /// The return type.
    pub fn ret_ty(&self) -> (r: CTy)
        ensures
            r == self@.ret,
    {
        self.ret
    }

    /// The parameter types.
    pub fn param_tys(&self) -> (r: &Vec<CTy>)
        ensures
            r@ == self@.param_tys,
    {
        &self.param_tys
    }

    /// The basic blocks, in order.
    pub fn blocks(&self) -> (r: &Vec<CBasicBlock>)
        ensures
            r@.len() == self@.blocks.len(),
            forall|i: int|
                0 <= i < r@.len() ==> (#[trigger] r@[i]).label == self@.blocks[i].label
                    && r@[i].stmts@ == self@.blocks[i].stmts,
    {
        &self.body
    }

    /// The pending allocations, in order.
    pub fn allocs(&self) -> (r: &Vec<(usize, PendingAlloc)>)
        ensures
            r@ == self@.allocs,
    {
        &self.alloc
    }

    /// A fresh local variable.
    pub fn next_local_var(&mut self) -> (r: CValue)
        requires
            old(self).wf(),
            old(self)@.next_local < usize::MAX,
        ensures
            final(self).wf(),
            r == CValue::Local(old(self)@.next_local as usize),
            final(self)@ == with_locals(old(self)@, 1),
    {
        let val = CValue::Local(self.local_var_counter);
        self.local_var_counter = self.local_var_counter + 1;
        val
    }

    /// A fresh local whose type is settled later; until then it is declared
    /// with `fallback`.
    pub fn new_pending_alloc(&mut self, fallback: CTy) -> (r: CValue)
        requires
            old(self).wf(),
            old(self)@.next_local < usize::MAX,
        ensures
            final(self).wf(),
            r == CValue::Local(old(self)@.next_local as usize),
            final(self)@ == (CFuncV {
                allocs: old(self)@.allocs.push(
                    (old(self)@.next_local as usize, PendingAlloc { ty: None, fallback }),
                ),
                ..with_locals(old(self)@, 1)
            }),
    {
        let k = self.local_var_counter;
        let val = self.next_local_var();
        self.alloc.push((k, PendingAlloc { ty: None, fallback }));
        val
    }

    /// Whether `val` is a pending allocation that may be realized with `ty`:
    /// it has no type yet, or has `ty` already.
    pub fn can_realize(&self, val: CValue, ty: CTy) -> (r: bool)
        requires
            self.wf(),
        ensures
            r == realize_ok(self@.allocs, val, ty),
    {
        let k = match val {
            CValue::Local(k) => k,
            _ => {
                return false;
            },
        };
        let mut i: usize = 0;
        while i < self.alloc.len()
            invariant
                i <= self.alloc@.len(),
                self.wf(),
                val == CValue::Local(k),
                forall|j: int| 0 <= j < i ==> self.alloc@[j].0 != k,
            decreases self.alloc@.len() - i,
        {
            if self.alloc[i].0 == k {
                proof {
                    lemma_alloc_index_unique(self@.allocs, k, i as int);
                }
                return match self.alloc[i].1.ty {
                    Some(t) => t == ty,
                    None => true,
                };
            }
            i = i + 1;
        }
        false
    }

    /// Settles the type of a pending allocation. Realizing it again with the
    /// same type changes nothing. Realizing a value that is no pending
    /// allocation, or one realized with another type, is a confusion of types
    /// that callers must rule out (see `can_realize`).
    pub fn realize_alloc(&mut self, val: CValue, ty: CTy)
        requires
            old(self).wf(),
            realize_ok(old(self)@.allocs, val, ty),
        ensures
            final(self).wf(),
            final(self)@ == realized(old(self)@, val, ty),
    {
        let k = match val {
            CValue::Local(k) => k,
            _ => {
                return;
            },
        };
        let mut i: usize = 0;
        while i < self.alloc.len()
            invariant
                i <= self.alloc@.len(),
                self.wf(),
                self@ == old(self)@,
                val == CValue::Local(k),
                realize_ok(old(self)@.allocs, val, ty),
                forall|j: int| 0 <= j < i ==> self.alloc@[j].0 != k,
            decreases self.alloc@.len() - i,
        {
            if self.alloc[i].0 == k {
                proof {
                    lemma_alloc_index_unique(self@.allocs, k, i as int);
                }
                let entry = self.alloc[i].1;
                match entry.ty {
                    Some(_) => {
                        assert(self@ == (CFuncV { allocs: old(self)@.allocs, ..old(self)@ }));
                        return;
                    },
                    None => {
                        self.alloc.set(i, (k, PendingAlloc { ty: Some(ty), fallback: entry.fallback }));
                        assert(self@.allocs =~= old(self)@.allocs.update(
                            i as int,
                            (k, PendingAlloc { ty: Some(ty), fallback: entry.fallback }),
                        ));
                        assert(self@.blocks =~= old(self)@.blocks);
                        assert forall|x: int, y: int|
                            0 <= x < self@.allocs.len() && 0 <= y < self@.allocs.len() && x
                                != y implies self@.allocs[x].0 != self@.allocs[y].0 by {
                            assert(self@.allocs[x].0 == old(self)@.allocs[x].0);
                            assert(self@.allocs[y].0 == old(self)@.allocs[y].0);
                        }
                        assert forall|x: int| 0 <= x < self@.allocs.len() implies (
                        #[trigger] self@.allocs[x]).0 < self@.next_local by {
                            assert(self@.allocs[x].0 == old(self)@.allocs[x].0);
                        }
                        return;
                    },
                }
            }
            i = i + 1;
        }
        assert(alloc_index(old(self)@.allocs, k) is Some);
    }

    /// Appends a new empty block with this label and returns its index.
    pub fn new_bb(&mut self, label: StrId) -> (r: usize)
        requires
            old(self).wf(),
        ensures
            final(self).wf(),
            r == old(self)@.blocks.len(),
            final(self)@ == (CFuncV {
                blocks: old(self)@.blocks.push(BlockV { label, stmts: Seq::empty() }),
                ..old(self)@
            }),
    {
        let r = self.body.len();
        self.body.push(CBasicBlock { label, stmts: Vec::new() });
        assert(self@.blocks =~= old(self)@.blocks.push(BlockV { label, stmts: Seq::empty() }));
        r
    }

    /// Appends a statement to block `b`.
    pub fn push_stmt(&mut self, b: usize, stmt: CStmtKind)
        requires
            old(self).wf(),
            b < old(self)@.blocks.len(),
        ensures
            final(self).wf(),
            final(self)@ == with_stmt(old(self)@, b as int, stmt),
    {
        let ghost s = stmt;
        self.body[b].stmts.push(stmt);
        assert(self@.blocks =~= with_stmt(old(self)@, b as int, s).blocks);
    }
}

} // verus!
