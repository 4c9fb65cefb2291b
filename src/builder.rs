use vstd::prelude::*;

use crate::expr::{list3, list4, CExprKind, CExprList, CValue};
use crate::func::{
    realize_ok, realized, with_locals, with_stmt, BlockV, CFuncKind, CFuncV, PendingAlloc,
};
use crate::stmt::{var_stmt, CDeclKind, CStmtKind};
use crate::ty::{
    interned, resolved_kind, spec_ty_is_void, ty_below, CPTy, CTy, CTyBase, CTyKindV, Conv, StrId,
};
use crate::ModuleCtxt;

verus! {

/// A value produced by lowering: an rvalue with its C type, or an lvalue (a
/// stack slot whose type may still be pending).
#[derive(Clone, Copy, Debug, PartialEq, Eq, Structural)]
pub enum Value {
    RValue { cval: CValue, ty: CTy },
    LValue { cval: CValue },
}

impl Value {
    pub open spec fn spec_cval(self) -> CValue {
        match self {
            Value::RValue { cval, .. } => cval,
            Value::LValue { cval } => cval,
        }
    }

    /// The C value.
    pub fn cval(self) -> (r: CValue)
        ensures
            r == self.spec_cval(),
    {
        match self {
            Value::RValue { cval, .. } => cval,
            Value::LValue { cval } => cval,
        }
    }

    /// The C type of an rvalue.
    pub fn ty(self) -> (r: CTy)
        requires
            self is RValue,
        ensures
            r == self->RValue_ty,
    {
        match self {
            Value::RValue { ty, .. } => ty,
            Value::LValue { .. } => CTy::primitive(CPTy::Void),
        }
    }
}

/// The expression that reads a value.
pub open spec fn val_expr(v: Value) -> CExprKind {
    CExprKind::Value(v.spec_cval())
}

/// Arithmetic operations with overflow checking.
#[derive(Clone, Copy, Debug, PartialEq, Eq, Structural)]
pub enum OverflowOp {
    Add,
    Sub,
    Mul,
}

/// Integer comparisons.
#[derive(Clone, Copy, Debug, PartialEq, Eq, Structural)]
pub enum IntPredicate {
    IntEQ,
    IntNE,
    IntUGT,
    IntUGE,
    IntULT,
    IntULE,
    IntSGT,
    IntSGE,
    IntSLT,
    IntSLE,
}

/// The C operator of a comparison; the operands' types carry the signedness.
pub open spec fn pred_op(p: IntPredicate) -> &'static str {
    match p {
        IntPredicate::IntEQ => "==",
        IntPredicate::IntNE => "!=",
        IntPredicate::IntUGT => ">",
        IntPredicate::IntUGE => ">=",
        IntPredicate::IntULT => "<",
        IntPredicate::IntULE => "<=",
        IntPredicate::IntSGT => ">",
        IntPredicate::IntSGE => ">=",
        IntPredicate::IntSLT => "<",
        IntPredicate::IntSLE => "<=",
    }
}

/// The runtime helper that performs a checked operation on an integer type.
pub open spec fn ckd_helper(op: OverflowOp, t: CPTy) -> &'static str {
    match op {
        OverflowOp::Add => match t {
            CPTy::I8 => "__rust_ckd_add_i8",
            CPTy::I16 => "__rust_ckd_add_i16",
            CPTy::I32 => "__rust_ckd_add_i32",
            CPTy::I64 => "__rust_ckd_add_i64",
            CPTy::Isize => "__rust_ckd_add_intptr",
            CPTy::U8 => "__rust_ckd_add_u8",
            CPTy::U16 => "__rust_ckd_add_u16",
            CPTy::U32 => "__rust_ckd_add_u32",
            CPTy::U64 => "__rust_ckd_add_u64",
            _ => "__rust_ckd_add_uintptr",
        },
        OverflowOp::Sub => match t {
            CPTy::I8 => "__rust_ckd_sub_i8",
            CPTy::I16 => "__rust_ckd_sub_i16",
            CPTy::I32 => "__rust_ckd_sub_i32",
            CPTy::I64 => "__rust_ckd_sub_i64",
            CPTy::Isize => "__rust_ckd_sub_intptr",
            CPTy::U8 => "__rust_ckd_sub_u8",
            CPTy::U16 => "__rust_ckd_sub_u16",
            CPTy::U32 => "__rust_ckd_sub_u32",
            CPTy::U64 => "__rust_ckd_sub_u64",
            _ => "__rust_ckd_sub_uintptr",
        },
        OverflowOp::Mul => match t {
            CPTy::I8 => "__rust_ckd_mul_i8",
            CPTy::I16 => "__rust_ckd_mul_i16",
            CPTy::I32 => "__rust_ckd_mul_i32",
            CPTy::I64 => "__rust_ckd_mul_i64",
            CPTy::Isize => "__rust_ckd_mul_intptr",
            CPTy::U8 => "__rust_ckd_mul_u8",
            CPTy::U16 => "__rust_ckd_mul_u16",
            CPTy::U32 => "__rust_ckd_mul_u32",
            CPTy::U64 => "__rust_ckd_mul_u64",
            _ => "__rust_ckd_mul_uintptr",
        },
    }
}

/// The checked-arithmetic helpers are pairwise distinct: each operator and
/// integer type has a helper of its own.
pub proof fn lemma_ckd_helpers_distinct(op1: OverflowOp, t1: CPTy, op2: OverflowOp, t2: CPTy)
    requires
        t1.spec_is_integer(),
        t2.spec_is_integer(),
        ckd_helper(op1, t1)@ == ckd_helper(op2, t2)@,
    ensures
        op1 == op2,
        t1 == t2,
{
    reveal_strlit("__rust_ckd_add_i8");
    reveal_strlit("__rust_ckd_add_i16");
    reveal_strlit("__rust_ckd_add_i32");
    reveal_strlit("__rust_ckd_add_i64");
    reveal_strlit("__rust_ckd_add_intptr");
    reveal_strlit("__rust_ckd_add_u8");
    reveal_strlit("__rust_ckd_add_u16");
    reveal_strlit("__rust_ckd_add_u32");
    reveal_strlit("__rust_ckd_add_u64");
    reveal_strlit("__rust_ckd_add_uintptr");
    reveal_strlit("__rust_ckd_sub_i8");
    reveal_strlit("__rust_ckd_sub_i16");
    reveal_strlit("__rust_ckd_sub_i32");
    reveal_strlit("__rust_ckd_sub_i64");
    reveal_strlit("__rust_ckd_sub_intptr");
    reveal_strlit("__rust_ckd_sub_u8");
    reveal_strlit("__rust_ckd_sub_u16");
    reveal_strlit("__rust_ckd_sub_u32");
    reveal_strlit("__rust_ckd_sub_u64");
    reveal_strlit("__rust_ckd_sub_uintptr");
    reveal_strlit("__rust_ckd_mul_i8");
    reveal_strlit("__rust_ckd_mul_i16");
    reveal_strlit("__rust_ckd_mul_i32");
    reveal_strlit("__rust_ckd_mul_i64");
    reveal_strlit("__rust_ckd_mul_intptr");
    reveal_strlit("__rust_ckd_mul_u8");
    reveal_strlit("__rust_ckd_mul_u16");
    reveal_strlit("__rust_ckd_mul_u32");
    reveal_strlit("__rust_ckd_mul_u64");
    reveal_strlit("__rust_ckd_mul_uintptr");
    let a = ckd_helper(op1, t1)@;
    let b = ckd_helper(op2, t2)@;
    assert(a[11] == b[11]);
    assert(a.len() == b.len());
    assert(a[a.len() - 1] == b[b.len() - 1]);
    assert(a[15] == b[15]);
    assert(a[16] == b[16]);
}

/// The runtime helper for a checked operation. It is defined for every
/// operator and every integer type, signed or unsigned.
pub fn checked_helper(op: OverflowOp, t: CPTy) -> (r: &'static str)
    requires
        t.spec_is_integer(),
    ensures
        r == ckd_helper(op, t),
{
    match op {
        OverflowOp::Add => match t {
            CPTy::I8 => "__rust_ckd_add_i8",
            CPTy::I16 => "__rust_ckd_add_i16",
            CPTy::I32 => "__rust_ckd_add_i32",
            CPTy::I64 => "__rust_ckd_add_i64",
            CPTy::Isize => "__rust_ckd_add_intptr",
            CPTy::U8 => "__rust_ckd_add_u8",
            CPTy::U16 => "__rust_ckd_add_u16",
            CPTy::U32 => "__rust_ckd_add_u32",
            CPTy::U64 => "__rust_ckd_add_u64",
            _ => "__rust_ckd_add_uintptr",
        },
        OverflowOp::Sub => match t {
            CPTy::I8 => "__rust_ckd_sub_i8",
            CPTy::I16 => "__rust_ckd_sub_i16",
            CPTy::I32 => "__rust_ckd_sub_i32",
            CPTy::I64 => "__rust_ckd_sub_i64",
            CPTy::Isize => "__rust_ckd_sub_intptr",
            CPTy::U8 => "__rust_ckd_sub_u8",
            CPTy::U16 => "__rust_ckd_sub_u16",
            CPTy::U32 => "__rust_ckd_sub_u32",
            CPTy::U64 => "__rust_ckd_sub_u64",
            _ => "__rust_ckd_sub_uintptr",
        },
        OverflowOp::Mul => match t {
            CPTy::I8 => "__rust_ckd_mul_i8",
            CPTy::I16 => "__rust_ckd_mul_i16",
            CPTy::I32 => "__rust_ckd_mul_i32",
            CPTy::I64 => "__rust_ckd_mul_i64",
            CPTy::Isize => "__rust_ckd_mul_intptr",
            CPTy::U8 => "__rust_ckd_mul_u8",
            CPTy::U16 => "__rust_ckd_mul_u16",
            CPTy::U32 => "__rust_ckd_mul_u32",
            CPTy::U64 => "__rust_ckd_mul_u64",
            _ => "__rust_ckd_mul_uintptr",
        },
    }
}

/// The initializer of an integer cast to primitive `p`. A cast to an unsigned
/// type is a plain C cast. A cast to a signed type first casts to the unsigned
/// counterpart, then reinterprets through the `__rust_utos` runtime helper,
/// which C leaves no room to define otherwise.
pub open spec fn intcast_expr(p: CPTy, v: Value) -> CExprKind {
    if p.spec_is_signed() {
        CExprKind::Call {
            callee: Box::new(CExprKind::Raw("__rust_utos")),
            args: list4(
                CExprKind::Raw(p.spec_to_unsigned().spec_str()),
                CExprKind::Raw(p.spec_str()),
                CExprKind::Cast {
                    ty: CTy::primitive_spec(p.spec_to_unsigned()),
                    expr: Box::new(val_expr(v)),
                },
                CExprKind::Raw(p.spec_max_str()),
            ),
        }
    } else {
        CExprKind::Cast { ty: CTy::primitive_spec(p), expr: Box::new(val_expr(v)) }
    }
}

/// The function after declaring a fresh local of type `ty` in block `b`.
pub open spec fn decl_post(f: CFuncV, b: int, ty: CTy, init: Option<CExprKind>) -> CFuncV {
    with_stmt(with_locals(f, 1), b, var_stmt(CValue::Local(f.next_local as usize), ty, init))
}

/// Converting a value to type `t`: lvalues and values of type `t` pass
/// unchanged; other values are cast into a fresh local.
pub open spec fn pcast_spec(f: CFuncV, b: int, v: Value, t: CTy) -> (CFuncV, Value) {
    match v {
        Value::RValue { ty, .. } => if ty == t {
            (f, v)
        } else {
            (
                decl_post(f, b, t, Some(CExprKind::Cast { ty: t, expr: Box::new(val_expr(v)) })),
                Value::RValue { cval: CValue::Local(f.next_local as usize), ty: t },
            )
        },
        Value::LValue { .. } => (f, v),
    }
}

/// Converting the first `n` arguments to the parameter types, in order: the
/// function afterwards and the argument expressions.
pub open spec fn cast_args(f: CFuncV, b: int, args: Seq<Value>, tys: Seq<CTy>, n: nat) -> (
    CFuncV,
    Seq<CExprKind>,
)
    decreases n,
{
    if n == 0 {
        (f, Seq::empty())
    } else {
        let (f1, es) = cast_args(f, b, args, tys, (n - 1) as nat);
        let (f2, v) = pcast_spec(f1, b, args[n - 1], tys[n - 1]);
        (f2, es.push(val_expr(v)))
    }
}

/// The arguments of a call under a calling convention: the function after
/// any conversions, and the argument expressions. Under the C convention each
/// argument is converted to its parameter type; under the internal
/// convention the arguments are read as they are.
pub open spec fn call_args(f: CFuncV, b: int, args: Seq<Value>, tys: Seq<CTy>, abi: Conv) -> (
    CFuncV,
    Seq<CExprKind>,
) {
    match abi {
        Conv::C => cast_args(f, b, args, tys, args.len()),
        Conv::Rust => (f, args.map_values(|v: Value| val_expr(v))),
    }
}

/// The expression list holding `es` in order.
pub open spec fn expr_list(es: Seq<CExprKind>) -> CExprList
    decreases es.len(),
{
    if es.len() == 0 {
        CExprList::Nil
    } else {
        CExprList::Cons(Box::new(es[0]), Box::new(expr_list(es.drop_first())))
    }
}

proof fn lemma_cast_args_locals(f: CFuncV, b: int, args: Seq<Value>, tys: Seq<CTy>, n: nat)
    ensures
        cast_args(f, b, args, tys, n).0.next_local <= f.next_local + n,
        cast_args(f, b, args, tys, n).0.next_local >= f.next_local,
    decreases n,
{
    if n > 0 {
        lemma_cast_args_locals(f, b, args, tys, (n - 1) as nat);
    }
}

/// Two's complement: the value of the bit pattern `u` (`0 <= u < 2^bits`) read
/// as a signed integer of `bits` bits.
pub open spec fn reinterpret_signed(u: int, bits: nat) -> int {
    if u > pow2(bits) / 2 - 1 {
        u - pow2(bits)
    } else {
        u
    }
}

/// `2^n`.
pub open spec fn pow2(n: nat) -> int
    decreases n,
{
    if n == 0 {
        1
    } else {
        2 * pow2((n - 1) as nat)
    }
}

proof fn lemma_pow2_positive(n: nat)
    ensures
        pow2(n) >= 1,
    decreases n,
{
    if n > 0 {
        lemma_pow2_positive((n - 1) as nat);
    }
}

/// The two-step signed cast wraps around as two's complement does: casting `v`
/// to the unsigned type of `bits` bits (reduction modulo `2^bits`) and then
/// reinterpreting with the largest signed value `2^(bits-1) - 1` gives the one
/// value of the signed range that is congruent to `v` modulo `2^bits`.
pub proof fn lemma_two_step_cast_wraps(v: int, bits: nat)
    requires
        bits >= 1,
    ensures
        ({
            let s = reinterpret_signed(v % pow2(bits), bits);
            &&& -(pow2(bits) / 2) <= s < pow2(bits) / 2
            &&& (s - v) % pow2(bits) == 0
        }),
{
    let m = pow2(bits);
    lemma_pow2_positive((bits - 1) as nat);
    assert(m == 2 * pow2((bits - 1) as nat));
    let u = v % m;
    assert(0 <= u < m) by {
        vstd::arithmetic::div_mod::lemma_mod_bound(v, m);
    }
    vstd::arithmetic::div_mod::lemma_fundamental_div_mod(v, m);
    let q = v / m;
    assert(v == m * q + u);
    let s = reinterpret_signed(u, bits);
    if u > m / 2 - 1 {
        assert(s - v == m * (-1 - q)) by (nonlinear_arith)
            requires
                s == u - m,
                v == m * q + u,
        ;
        vstd::arithmetic::div_mod::lemma_mod_multiples_basic(-1 - q, m);
    } else {
        assert(s - v == m * (-q)) by (nonlinear_arith)
            requires
                s == u,
                v == m * q + u,
        ;
        vstd::arithmetic::div_mod::lemma_mod_multiples_basic(-q, m);
    }
}

/// Lowers the operations of one function, appending statements to its current
/// block.
pub struct Builder {
    pub func: CFuncKind,
    /// The index of the block statements are appended to.
    pub bb: usize,
}

impl Builder {
    pub open spec fn wf(&self) -> bool {
        &&& self.func.wf()
        &&& self.bb < self.func@.blocks.len()
    }

    /// Whether `k` more fresh locals can be handed out.
    pub open spec fn room(&self, k: nat) -> bool {
        self.func@.next_local + k < usize::MAX
    }

    /// The next fresh local.
    pub open spec fn fresh(&self) -> CValue {
        CValue::Local(self.func@.next_local as usize)
    }

    /// A builder that appends to block `bb` of `func`.
    pub fn build(func: CFuncKind, bb: usize) -> (r: Builder)
        requires
            func.wf(),
            bb < func@.blocks.len(),
        ensures
            r.wf(),
            r.func == func,
            r.bb == bb,
    {
        Builder { func, bb }
    }

    /// The function built so far.
    pub fn into_func(self) -> (r: CFuncKind)
        ensures
            r == self.func,
    {
        self.func
    }

    fn emit(&mut self, stmt: CStmtKind)
        requires
            old(self).wf(),
        ensures
            final(self).wf(),
            final(self).bb == old(self).bb,
            final(self).func@ == with_stmt(old(self).func@, old(self).bb as int, stmt),
    {
        self.func.push_stmt(self.bb, stmt);
    }

    /// Declares a fresh local of type `ty` with an optional initializer.
    fn declare(&mut self, ty: CTy, init: Option<CExprKind>) -> (r: CValue)
        requires
            old(self).wf(),
            old(self).room(1),
        ensures
            final(self).wf(),
            final(self).bb == old(self).bb,
            r == old(self).fresh(),
            final(self).func@ == decl_post(old(self).func@, old(self).bb as int, ty, init),
    {
        let ghost i = init;
        let v = self.func.next_local_var();
        let stmt = match init {
            Some(e) => CStmtKind::Decl(
                Box::new(CDeclKind::Var { name: v, ty, init: Some(Box::new(e)) }),
            ),
            None => CStmtKind::Decl(
                Box::new(CDeclKind::Var { name: v, ty, init: None }),
            ),
        };
        assert(stmt == var_stmt(v, ty, i));
        self.emit(stmt);
        v
    }

    /// Appends a new block labelled `name` and returns it.
    pub fn append_block(&mut self, mcx: &mut ModuleCtxt, name: &str) -> (r: usize)
        requires
            old(self).wf(),
        ensures
            final(self).wf(),
            final(self).bb == old(self).bb,
            r == old(self).func@.blocks.len(),
            final(mcx).strs() == old(mcx).strs().push(name@),
            final(mcx).tys() == old(mcx).tys(),
            final(mcx).wf() == old(mcx).wf(),
            final(self).func@ == (CFuncV {
                blocks: old(self).func@.blocks.push(
                    BlockV {
                        label: StrId { index: old(mcx).strs().len() as usize },
                        stmts: Seq::empty(),
                    },
                ),
                ..old(self).func@
            }),
    {
        let label = mcx.alloc_str(name);
        self.func.new_bb(label)
    }

    /// Makes block `bb` the one statements are appended to.
    pub fn switch_to_block(&mut self, bb: usize)
        requires
            old(self).wf(),
            bb < old(self).func@.blocks.len(),
        ensures
            final(self).wf(),
            final(self).bb == bb,
            final(self).func == old(self).func,
    {
        self.bb = bb;
    }

    /// `return;`
    pub fn ret_void(&mut self)
        requires
            old(self).wf(),
        ensures
            final(self).wf(),
            final(self).bb == old(self).bb,
            final(self).func@ == with_stmt(
                old(self).func@,
                old(self).bb as int,
                CStmtKind::Return(None),
            ),
    {
        self.emit(CStmtKind::Return(None));
    }

    /// `return v;`, with `v` converted to the return type first.
    pub fn ret(&mut self, v: Value)
        requires
            old(self).wf(),
            old(self).room(1),
        ensures
            final(self).wf(),
            final(self).bb == old(self).bb,
            ({
                let (f1, v1) = pcast_spec(
                    old(self).func@,
                    old(self).bb as int,
                    v,
                    old(self).func@.ret,
                );
                final(self).func@ == with_stmt(
                    f1,
                    old(self).bb as int,
                    CStmtKind::Return(Some(Box::new(val_expr(v1)))),
                )
            }),
    {
        let ret_ty = self.func.ret_ty();
        let v = self.pointercast(v, ret_ty);
        self.emit(CStmtKind::Return(Some(Box::new(CExprKind::Value(v.cval())))));
    }

    /// `goto` the label of block `dest`.
    pub fn br(&mut self, dest: usize)
        requires
            old(self).wf(),
            dest < old(self).func@.blocks.len(),
        ensures
            final(self).wf(),
            final(self).bb == old(self).bb,
            final(self).func@ == with_stmt(
                old(self).func@,
                old(self).bb as int,
                CStmtKind::Goto(old(self).func@.blocks[dest as int].label),
            ),
    {
        let label = self.func.blocks()[dest].label;
        self.emit(CStmtKind::Goto(label));
    }

    /// `if (cond) { goto then; } else { goto else; }`
    pub fn cond_br(&mut self, cond: Value, then_bb: usize, else_bb: usize)
        requires
            old(self).wf(),
            then_bb < old(self).func@.blocks.len(),
            else_bb < old(self).func@.blocks.len(),
        ensures
            final(self).wf(),
            final(self).bb == old(self).bb,
            final(self).func@ == with_stmt(
                old(self).func@,
                old(self).bb as int,
                CStmtKind::If {
                    cond: Box::new(val_expr(cond)),
                    then_br: Box::new(CStmtKind::Goto(old(self).func@.blocks[then_bb as int].label)),
                    else_br: Some(
                        Box::new(CStmtKind::Goto(old(self).func@.blocks[else_bb as int].label)),
                    ),
                },
            ),
    {
        let then_label = self.func.blocks()[then_bb].label;
        let else_label = self.func.blocks()[else_bb].label;
        self.emit(
            CStmtKind::If {
                cond: Box::new(CExprKind::Value(cond.cval())),
                then_br: Box::new(CStmtKind::Goto(then_label)),
                else_br: Some(Box::new(CStmtKind::Goto(else_label))),
            },
        );
    }

    /// A prefix operator on a value, bound to a fresh local of the same type.
    pub fn unary(&mut self, op: &'static str, v: Value) -> (r: Value)
        requires
            old(self).wf(),
            old(self).room(1),
            v is RValue,
        ensures
            final(self).wf(),
            final(self).bb == old(self).bb,
            r == (Value::RValue { cval: old(self).fresh(), ty: v->RValue_ty }),
            final(self).func@ == decl_post(
                old(self).func@,
                old(self).bb as int,
                v->RValue_ty,
                Some(CExprKind::Unary { op, expr: Box::new(val_expr(v)) }),
            ),
    {
        let ty = v.ty();
        let e = CExprKind::Unary { op, expr: Box::new(CExprKind::Value(v.cval())) };
        let r = self.declare(ty, Some(e));
        Value::RValue { cval: r, ty }
    }

    /// A binary arithmetic operator on two values of one type, bound to a fresh
    /// local of that type.
    pub fn binary_arith(&mut self, op: &'static str, lhs: Value, rhs: Value) -> (r: Value)
        requires
            old(self).wf(),
            old(self).room(1),
            lhs is RValue,
            rhs is RValue,
            lhs->RValue_ty == rhs->RValue_ty,
        ensures
            final(self).wf(),
            final(self).bb == old(self).bb,
            r == (Value::RValue { cval: old(self).fresh(), ty: lhs->RValue_ty }),
            final(self).func@ == decl_post(
                old(self).func@,
                old(self).bb as int,
                lhs->RValue_ty,
                Some(
                    CExprKind::Binary {
                        lhs: Box::new(val_expr(lhs)),
                        rhs: Box::new(val_expr(rhs)),
                        op,
                    },
                ),
            ),
    {
        let ty = lhs.ty();
        let e = CExprKind::Binary {
            lhs: Box::new(CExprKind::Value(lhs.cval())),
            rhs: Box::new(CExprKind::Value(rhs.cval())),
            op,
        };
        let r = self.declare(ty, Some(e));
        Value::RValue { cval: r, ty }
    }

    /// A comparison of two values of one type, bound to a fresh boolean local.
    pub fn binary_cmp(&mut self, op: &'static str, lhs: Value, rhs: Value) -> (r: Value)
        requires
            old(self).wf(),
            old(self).room(1),
            lhs is RValue,
            rhs is RValue,
            lhs->RValue_ty == rhs->RValue_ty,
        ensures
            final(self).wf(),
            final(self).bb == old(self).bb,
            r == (Value::RValue {
                cval: old(self).fresh(),
                ty: CTy::primitive_spec(CPTy::Bool),
            }),
            final(self).func@ == decl_post(
                old(self).func@,
                old(self).bb as int,
                CTy::primitive_spec(CPTy::Bool),
                Some(
                    CExprKind::Binary {
                        lhs: Box::new(val_expr(lhs)),
                        rhs: Box::new(val_expr(rhs)),
                        op,
                    },
                ),
            ),
    {
        let ty = CTy::primitive(CPTy::Bool);
        let e = CExprKind::Binary {
            lhs: Box::new(CExprKind::Value(lhs.cval())),
            rhs: Box::new(CExprKind::Value(rhs.cval())),
            op,
        };
        let r = self.declare(ty, Some(e));
        Value::RValue { cval: r, ty }
    }

    /// `lhs + rhs`
    pub fn add(&mut self, lhs: Value, rhs: Value) -> (r: Value)
        requires
            old(self).wf(),
            old(self).room(1),
            lhs is RValue,
            rhs is RValue,
            lhs->RValue_ty == rhs->RValue_ty,
        ensures
            final(self).wf(),
            final(self).bb == old(self).bb,
            r == (Value::RValue { cval: old(self).fresh(), ty: lhs->RValue_ty }),
            final(self).func@ == decl_post(
                old(self).func@,
                old(self).bb as int,
                lhs->RValue_ty,
                Some(
                    CExprKind::Binary {
                        lhs: Box::new(val_expr(lhs)),
                        rhs: Box::new(val_expr(rhs)),
                        op: "+",
                    },
                ),
            ),
    {
        self.binary_arith("+", lhs, rhs)
    }

    /// `lhs - rhs`
    pub fn sub(&mut self, lhs: Value, rhs: Value) -> (r: Value)
        requires
            old(self).wf(),
            old(self).room(1),
            lhs is RValue,
            rhs is RValue,
            lhs->RValue_ty == rhs->RValue_ty,
        ensures
            final(self).wf(),
            final(self).bb == old(self).bb,
            r == (Value::RValue { cval: old(self).fresh(), ty: lhs->RValue_ty }),
            final(self).func@ == decl_post(
                old(self).func@,
                old(self).bb as int,
                lhs->RValue_ty,
                Some(
                    CExprKind::Binary {
                        lhs: Box::new(val_expr(lhs)),
                        rhs: Box::new(val_expr(rhs)),
                        op: "-",
                    },
                ),
            ),
    {
        self.binary_arith("-", lhs, rhs)
    }

    /// `lhs * rhs`
    pub fn mul(&mut self, lhs: Value, rhs: Value) -> (r: Value)
        requires
            old(self).wf(),
            old(self).room(1),
            lhs is RValue,
            rhs is RValue,
            lhs->RValue_ty == rhs->RValue_ty,
        ensures
            final(self).wf(),
            final(self).bb == old(self).bb,
            r == (Value::RValue { cval: old(self).fresh(), ty: lhs->RValue_ty }),
            final(self).func@ == decl_post(
                old(self).func@,
                old(self).bb as int,
                lhs->RValue_ty,
                Some(
                    CExprKind::Binary {
                        lhs: Box::new(val_expr(lhs)),
                        rhs: Box::new(val_expr(rhs)),
                        op: "*",
                    },
                ),
            ),
    {
        self.binary_arith("*", lhs, rhs)
    }

    /// An integer comparison, bound to a fresh boolean local.
    pub fn icmp(&mut self, pred: IntPredicate, lhs: Value, rhs: Value) -> (r: Value)
        requires
            old(self).wf(),
            old(self).room(1),
            lhs is RValue,
            rhs is RValue,
            lhs->RValue_ty == rhs->RValue_ty,
        ensures
            final(self).wf(),
            final(self).bb == old(self).bb,
            r == (Value::RValue {
                cval: old(self).fresh(),
                ty: CTy::primitive_spec(CPTy::Bool),
            }),
            final(self).func@ == decl_post(
                old(self).func@,
                old(self).bb as int,
                CTy::primitive_spec(CPTy::Bool),
                Some(
                    CExprKind::Binary {
                        lhs: Box::new(val_expr(lhs)),
                        rhs: Box::new(val_expr(rhs)),
                        op: pred_op(pred),
                    },
                ),
            ),
    {
        let op = match pred {
            IntPredicate::IntEQ => "==",
            IntPredicate::IntNE => "!=",
            IntPredicate::IntUGT => ">",
            IntPredicate::IntUGE => ">=",
            IntPredicate::IntULT => "<",
            IntPredicate::IntULE => "<=",
            IntPredicate::IntSGT => ">",
            IntPredicate::IntSGE => ">=",
            IntPredicate::IntSLT => "<",
            IntPredicate::IntSLE => "<=",
        };
        self.binary_cmp(op, lhs, rhs)
    }

    /// Checked arithmetic: declares the result local, then a boolean local set
    /// by the runtime helper of the operator and type, which stores the result
    /// through the address it is given and reports overflow. Returns the result
    /// and the overflow flag.
    pub fn checked_binop(&mut self, oop: OverflowOp, ty: CPTy, lhs: Value, rhs: Value) -> (r: (
        Value,
        Value,
    ))
        requires
            old(self).wf(),
            old(self).room(2),
            ty.spec_is_integer(),
            lhs is RValue,
            rhs is RValue,
            lhs->RValue_ty == rhs->RValue_ty,
        ensures
            final(self).wf(),
            final(self).bb == old(self).bb,
            ({
                let n = old(self).func@.next_local;
                let res = CValue::Local(n as usize);
                let flag = CValue::Local((n + 1) as usize);
                &&& r.0 == (Value::RValue { cval: res, ty: lhs->RValue_ty })
                &&& r.1 == (Value::RValue { cval: flag, ty: CTy::primitive_spec(CPTy::Bool) })
                &&& final(self).func@ == decl_post(
                    decl_post(old(self).func@, old(self).bb as int, lhs->RValue_ty, None),
                    old(self).bb as int,
                    CTy::primitive_spec(CPTy::Bool),
                    Some(
                        CExprKind::Call {
                            callee: Box::new(CExprKind::Raw(ckd_helper(oop, ty))),
                            args: list3(
                                val_expr(lhs),
                                val_expr(rhs),
                                CExprKind::Unary {
                                    op: "&",
                                    expr: Box::new(CExprKind::Value(res)),
                                },
                            ),
                        },
                    ),
                )
            }),
    {
        let helper = checked_helper(oop, ty);
        let lty = lhs.ty();
        let ret = self.declare(lty, None);
        let bool_ty = CTy::primitive(CPTy::Bool);
        let args = CExprList::Cons(
            Box::new(CExprKind::Value(lhs.cval())),
            Box::new(
                CExprList::Cons(
                    Box::new(CExprKind::Value(rhs.cval())),
                    Box::new(
                        CExprList::Cons(
                            Box::new(
                                CExprKind::Unary {
                                    op: "&",
                                    expr: Box::new(CExprKind::Value(ret)),
                                },
                            ),
                            Box::new(CExprList::Nil),
                        ),
                    ),
                ),
            ),
        );
        let call = CExprKind::Call { callee: Box::new(CExprKind::Raw(helper)), args };
        let overflow = self.declare(bool_ty, Some(call));
        (Value::RValue { cval: ret, ty: lty }, Value::RValue { cval: overflow, ty: bool_ty })
    }

    /// An integer cast (`as`) to the primitive type `dest_ty`, bound to a fresh
    /// local. See `intcast_expr` for the two forms.
    pub fn intcast(&mut self, val: Value, dest_ty: CTy, is_signed: bool) -> (r: Value)
        requires
            old(self).wf(),
            old(self).room(1),
            dest_ty.base is Primitive,
        ensures
            final(self).wf(),
            final(self).bb == old(self).bb,
            r == (Value::RValue { cval: old(self).fresh(), ty: dest_ty }),
            final(self).func@ == decl_post(
                old(self).func@,
                old(self).bb as int,
                dest_ty,
                Some(intcast_expr(dest_ty.base->Primitive_0, val)),
            ),
    {
        let dest = match dest_ty.base {
            CTyBase::Primitive(p) => p,
            CTyBase::Ref(_) => CPTy::Void,
        };
        let cast = if dest.is_signed() {
            let unsigned = dest.to_unsigned();
            let c = CExprKind::Cast {
                ty: CTy::primitive(unsigned),
                expr: Box::new(CExprKind::Value(val.cval())),
            };
            let args = CExprList::Cons(
                Box::new(CExprKind::Raw(unsigned.to_str())),
                Box::new(
                    CExprList::Cons(
                        Box::new(CExprKind::Raw(dest.to_str())),
                        Box::new(
                            CExprList::Cons(
                                Box::new(c),
                                Box::new(
                                    CExprList::Cons(
                                        Box::new(CExprKind::Raw(dest.max_value())),
                                        Box::new(CExprList::Nil),
                                    ),
                                ),
                            ),
                        ),
                    ),
                ),
            );
            CExprKind::Call { callee: Box::new(CExprKind::Raw("__rust_utos")), args }
        } else {
            CExprKind::Cast { ty: CTy::primitive(dest), expr: Box::new(CExprKind::Value(val.cval())) }
        };
        let r = self.declare(dest_ty, Some(cast));
        Value::RValue { cval: r, ty: dest_ty }
    }

    /// Converts a value to `dest_ty`: lvalues and values already of that type
    /// are returned as they are; others are cast into a fresh local.
    pub fn pointercast(&mut self, val: Value, dest_ty: CTy) -> (r: Value)
        requires
            old(self).wf(),
            old(self).room(1),
        ensures
            final(self).wf(),
            final(self).bb == old(self).bb,
            (final(self).func@, r) == pcast_spec(
                old(self).func@,
                old(self).bb as int,
                val,
                dest_ty,
            ),
    {
        match val {
            Value::LValue { .. } => val,
            Value::RValue { ty, cval } => {
                if ty == dest_ty {
                    val
                } else {
                    let e = CExprKind::Cast { ty: dest_ty, expr: Box::new(CExprKind::Value(cval)) };
                    let r = self.declare(dest_ty, Some(e));
                    Value::RValue { cval: r, ty: dest_ty }
                }
            },
        }
    }

    /// A pointer converted to the integer type `dest_ty`.
    pub fn ptrtoint(&mut self, val: Value, dest_ty: CTy) -> (r: Value)
        requires
            old(self).wf(),
            old(self).room(1),
            dest_ty.base is Primitive,
        ensures
            final(self).wf(),
            final(self).bb == old(self).bb,
            r == (Value::RValue { cval: old(self).fresh(), ty: dest_ty }),
            final(self).func@ == decl_post(
                old(self).func@,
                old(self).bb as int,
                dest_ty,
                Some(intcast_expr(dest_ty.base->Primitive_0, val)),
            ),
    {
        self.intcast(val, dest_ty, false)
    }

    /// The `index`-th parameter with its type.
    pub fn get_param(&self, index: usize) -> (r: Value)
        requires
            self.wf(),
            index < self.func@.params.len(),
        ensures
            r == (Value::RValue {
                cval: CValue::Local(index),
                ty: self.func@.param_tys[index as int],
            }),
    {
        Value::RValue { cval: CValue::Local(index), ty: self.func.param_tys()[index] }
    }

    /// Reads through a pointer into a fresh local of type `ty`; an lvalue is
    /// read directly.
    pub fn load(&mut self, ty: CTy, ptr_or_lval: Value) -> (r: Value)
        requires
            old(self).wf(),
            old(self).room(1),
        ensures
            final(self).wf(),
            final(self).bb == old(self).bb,
            match ptr_or_lval {
                Value::LValue { .. } => r == ptr_or_lval && final(self).func == old(self).func,
                Value::RValue { cval, .. } => r == (Value::RValue {
                    cval: old(self).fresh(),
                    ty,
                }) && final(self).func@ == decl_post(
                    old(self).func@,
                    old(self).bb as int,
                    ty,
                    Some(CExprKind::Unary { op: "*", expr: Box::new(CExprKind::Value(cval)) }),
                ),
            },
    {
        match ptr_or_lval {
            Value::LValue { .. } => ptr_or_lval,
            Value::RValue { cval, .. } => {
                let e = CExprKind::Unary { op: "*", expr: Box::new(CExprKind::Value(cval)) };
                let r = self.declare(ty, Some(e));
                Value::RValue { cval: r, ty }
            },
        }
    }

    /// Stores `val` into an lvalue, or through a pointer.
    pub fn store(&mut self, val: Value, ptr_or_lval: Value)
        requires
            old(self).wf(),
        ensures
            final(self).wf(),
            final(self).bb == old(self).bb,
            final(self).func@ == with_stmt(
                old(self).func@,
                old(self).bb as int,
                CStmtKind::Expr(
                    Box::new(
                        CExprKind::Binary {
                            lhs: Box::new(
                                match ptr_or_lval {
                                    Value::LValue { cval } => CExprKind::Value(cval),
                                    Value::RValue { cval, .. } => CExprKind::Unary {
                                        op: "*",
                                        expr: Box::new(CExprKind::Value(cval)),
                                    },
                                },
                            ),
                            rhs: Box::new(val_expr(val)),
                            op: "=",
                        },
                    ),
                ),
            ),
    {
        let lval = match ptr_or_lval {
            Value::LValue { cval } => CExprKind::Value(cval),
            Value::RValue { cval, .. } => CExprKind::Unary {
                op: "*",
                expr: Box::new(CExprKind::Value(cval)),
            },
        };
        let assign = CExprKind::Binary {
            lhs: Box::new(lval),
            rhs: Box::new(CExprKind::Value(val.cval())),
            op: "=",
        };
        self.emit(CStmtKind::Expr(Box::new(assign)));
    }

    /// A stack slot of `size` bytes whose type is settled later; until then it
    /// is declared as `char[size]`.
    pub fn alloca(&mut self, mcx: &mut ModuleCtxt, size: usize) -> (r: Value)
        requires
            old(self).wf(),
            old(self).room(1),
            old(mcx).wf(),
            size > 0,
        ensures
            final(self).wf(),
            final(self).bb == old(self).bb,
            r == (Value::LValue { cval: old(self).fresh() }),
            ({
                let fb = final(self).func@.allocs.last().1.fallback;
                &&& interned(
                    *old(mcx),
                    CTyKindV::Array(CTy::primitive_spec(CPTy::Char), Some(size)),
                    *final(mcx),
                    fb,
                )
                &&& final(self).func@ == (CFuncV {
                    allocs: old(self).func@.allocs.push(
                        (
                            old(self).func@.next_local as usize,
                            PendingAlloc { ty: None, fallback: fb },
                        ),
                    ),
                    ..with_locals(old(self).func@, 1)
                })
            }),
    {
        let ch = mcx.char();
        let fallback = mcx.arr(ch, Some(size));
        let v = self.func.new_pending_alloc(fallback);
        Value::LValue { cval: v }
    }

    /// Settles the type of a place: a pending allocation is realized with `ty`
    /// (which must not contradict an earlier realization, see
    /// `CFuncKind::can_realize`); a pointer is converted to a pointer to `ty`.
    pub fn realize(&mut self, mcx: &mut ModuleCtxt, place: Value, ty: CTy) -> (r: Value)
        requires
            old(self).wf(),
            old(self).room(1),
            old(mcx).wf(),
            ty_below(ty, old(mcx).tys().len()),
            place matches Value::LValue { cval } ==> realize_ok(old(self).func@.allocs, cval, ty),
        ensures
            final(self).wf(),
            final(self).bb == old(self).bb,
            final(mcx).wf(),
            match place {
                Value::LValue { cval } => {
                    &&& *final(mcx) == *old(mcx)
                    &&& r == place
                    &&& final(self).func@ == realized(old(self).func@, cval, ty)
                },
                Value::RValue { .. } => exists|p: CTy|
                    interned(*old(mcx), CTyKindV::Pointer(ty), *final(mcx), p) && (
                    final(self).func@,
                    r,
                ) == pcast_spec(old(self).func@, old(self).bb as int, place, p),
            },
    {
        match place {
            Value::LValue { cval } => {
                self.func.realize_alloc(cval, ty);
                place
            },
            Value::RValue { .. } => {
                let p = mcx.ptr(ty);
                self.pointercast(place, p)
            },
        }
    }

    /// The address of element `index` of the array of `ty` that `ptr` points to.
    pub fn inbounds_gep(&mut self, mcx: &mut ModuleCtxt, ty: CTy, ptr: Value, index: Value) -> (r:
        Value)
        requires
            old(self).wf(),
            old(self).room(2),
            old(mcx).wf(),
            ty_below(ty, old(mcx).tys().len()),
        ensures
            final(self).wf(),
            final(self).bb == old(self).bb,
            ({
                let n = old(self).func@.next_local;
                let pty = r->RValue_ty;
                &&& interned(*old(mcx), CTyKindV::Pointer(ty), *final(mcx), pty)
                &&& r == (Value::RValue { cval: CValue::Local((n + 1) as usize), ty: pty })
                &&& final(self).func@ == decl_post(
                    decl_post(
                        old(self).func@,
                        old(self).bb as int,
                        pty,
                        Some(CExprKind::Cast { ty: pty, expr: Box::new(val_expr(ptr)) }),
                    ),
                    old(self).bb as int,
                    pty,
                    Some(
                        CExprKind::Unary {
                            op: "&",
                            expr: Box::new(
                                CExprKind::Index {
                                    expr: Box::new(CExprKind::Value(CValue::Local(n as usize))),
                                    index: Box::new(val_expr(index)),
                                },
                            ),
                        },
                    ),
                )
            }),
    {
        let ptr_ty = mcx.ptr(ty);
        let arr = self.declare(
            ptr_ty,
            Some(CExprKind::Cast { ty: ptr_ty, expr: Box::new(CExprKind::Value(ptr.cval())) }),
        );
        let e = CExprKind::Unary {
            op: "&",
            expr: Box::new(
                CExprKind::Index {
                    expr: Box::new(CExprKind::Value(arr)),
                    index: Box::new(CExprKind::Value(index.cval())),
                },
            ),
        };
        let ret = self.declare(ptr_ty, Some(e));
        Value::RValue { cval: ret, ty: ptr_ty }
    }

    /// Stores `elem` into each of the first `count` elements of `dest`, with a
    /// `for` loop over a fresh index local.
    pub fn write_operand_repeatedly(&mut self, elem: Value, count: u64, dest: Value)
        requires
            old(self).wf(),
            old(self).room(1),
        ensures
            final(self).wf(),
            final(self).bb == old(self).bb,
            ({
                let i = old(self).fresh();
                final(self).func@ == with_stmt(
                    with_locals(old(self).func@, 1),
                    old(self).bb as int,
                    CStmtKind::For {
                        init: Box::new(
                            var_stmt(
                                i,
                                CTy::primitive_spec(CPTy::Usize),
                                Some(CExprKind::Value(CValue::Scalar(0))),
                            ),
                        ),
                        cond: Box::new(
                            CExprKind::Binary {
                                lhs: Box::new(CExprKind::Value(i)),
                                rhs: Box::new(CExprKind::Value(CValue::Scalar(count as i128))),
                                op: "<",
                            },
                        ),
                        next: Box::new(
                            CStmtKind::Expr(
                                Box::new(
                                    CExprKind::Unary {
                                        op: "++",
                                        expr: Box::new(CExprKind::Value(i)),
                                    },
                                ),
                            ),
                        ),
                        body: Box::new(
                            CStmtKind::Expr(
                                Box::new(
                                    CExprKind::Binary {
                                        lhs: Box::new(
                                            CExprKind::Index {
                                                expr: Box::new(val_expr(dest)),
                                                index: Box::new(CExprKind::Value(i)),
                                            },
                                        ),
                                        rhs: Box::new(val_expr(elem)),
                                        op: "=",
                                    },
                                ),
                            ),
                        ),
                    },
                )
            }),
    {
        let i = self.func.next_local_var();
        let init = CStmtKind::Decl(
            Box::new(
                CDeclKind::Var {
                    name: i,
                    ty: CTy::primitive(CPTy::Usize),
                    init: Some(Box::new(CExprKind::Value(CValue::Scalar(0)))),
                },
            ),
        );
        let cond = CExprKind::Binary {
            lhs: Box::new(CExprKind::Value(i)),
            rhs: Box::new(CExprKind::Value(CValue::Scalar(count as i128))),
            op: "<",
        };
        let next = CStmtKind::Expr(
            Box::new(CExprKind::Unary { op: "++", expr: Box::new(CExprKind::Value(i)) }),
        );
        let body = CStmtKind::Expr(
            Box::new(
                CExprKind::Binary {
                    lhs: Box::new(
                        CExprKind::Index {
                            expr: Box::new(CExprKind::Value(dest.cval())),
                            index: Box::new(CExprKind::Value(i)),
                        },
                    ),
                    rhs: Box::new(CExprKind::Value(elem.cval())),
                    op: "=",
                },
            ),
        );
        self.emit(
            CStmtKind::For {
                init: Box::new(init),
                cond: Box::new(cond),
                next: Box::new(next),
                body: Box::new(body),
            },
        );
    }

    /// A call of `llfn` through the function pointer type `llty`, with one
    /// argument per declared parameter. Under the C convention each argument
    /// is first converted to the declared parameter type, so that a call into
    /// externally linked code gets exact C types; under the internal
    /// convention arguments are passed unmodified. A call returning void
    /// becomes an expression statement; otherwise its result is bound to a
    /// fresh local.
    pub fn call(&mut self, mcx: &ModuleCtxt, llty: CTy, llfn: Value, args: &Vec<Value>) -> (r: Value)
        requires
            old(self).wf(),
            llfn.spec_cval() is Func,
            resolved_kind(mcx.tys(), llty) matches Some(CTyKindV::FnPtr(_, _, _)),
            args@.len() == resolved_kind(mcx.tys(), llty)->Some_0->FnPtr_1.len(),
            old(self).room(args@.len() + 1),
        ensures
            final(self).wf(),
            final(self).bb == old(self).bb,
            ({
                let k = resolved_kind(mcx.tys(), llty)->Some_0;
                let ret = k->FnPtr_0;
                let (f1, es) = call_args(
                    old(self).func@,
                    old(self).bb as int,
                    args@,
                    k->FnPtr_1,
                    k->FnPtr_2,
                );
                let call = CExprKind::Call {
                    callee: Box::new(val_expr(llfn)),
                    args: expr_list(es),
                };
                if spec_ty_is_void(mcx.tys(), ret) {
                    &&& r == (Value::RValue { cval: CValue::Null, ty: ret })
                    &&& final(self).func@ == with_stmt(
                        f1,
                        old(self).bb as int,
                        CStmtKind::Expr(Box::new(call)),
                    )
                } else {
                    &&& r == (Value::RValue {
                        cval: CValue::Local(f1.next_local as usize),
                        ty: ret,
                    })
                    &&& final(self).func@ == decl_post(f1, old(self).bb as int, ret, Some(call))
                }
            }),
    {
        let f = llty.fn_ptr(mcx.arena()).unwrap();
        let ghost ptys = f.args@;
        let n = args.len();
        let mut exprs: Vec<CExprKind> = Vec::new();
        let mut i: usize = 0;
        match f.abi {
            Conv::C => {
                while i < n
                    invariant
                        i <= n,
                        n == args@.len(),
                        n == ptys.len(),
                        ptys == f.args@,
                        self.wf(),
                        self.bb == old(self).bb,
                        (self.func@, exprs@) == cast_args(
                            old(self).func@,
                            old(self).bb as int,
                            args@,
                            ptys,
                            i as nat,
                        ),
                        old(self).room(args@.len() + 1),
                        self.func@.next_local <= old(self).func@.next_local + i,
                    decreases n - i,
                {
                    let v = self.pointercast(args[i], f.args[i]);
                    exprs.push(CExprKind::Value(v.cval()));
                    proof {
                        lemma_cast_args_locals(
                            old(self).func@,
                            old(self).bb as int,
                            args@,
                            ptys,
                            (i + 1) as nat,
                        );
                    }
                    i = i + 1;
                }
            },
            Conv::Rust => {
                while i < n
                    invariant
                        i <= n,
                        n == args@.len(),
                        exprs@ == args@.subrange(0, i as int).map_values(|v: Value| val_expr(v)),
                    decreases n - i,
                {
                    exprs.push(CExprKind::Value(args[i].cval()));
                    assert(exprs@ =~= args@.subrange(0, i + 1).map_values(|v: Value| val_expr(v)));
                    i = i + 1;
                }
                assert(args@.subrange(0, n as int) =~= args@);
            },
        }
        let ghost es = exprs@;
        let mut list = CExprList::Nil;
        let mut j: usize = exprs.len();
        while j > 0
            invariant
                j <= es.len(),
                exprs@ == es.subrange(0, j as int),
                list == expr_list(es.subrange(j as int, es.len() as int)),
            decreases j,
        {
            let e = exprs.pop().unwrap();
            assert(es.subrange(j - 1, es.len() as int).drop_first() =~= es.subrange(
                j as int,
                es.len() as int,
            ));
            list = CExprList::Cons(Box::new(e), Box::new(list));
            assert(exprs@ =~= es.subrange(0, j - 1));
            j = j - 1;
        }
        assert(es.subrange(0, es.len() as int) =~= es);
        let call = CExprKind::Call { callee: Box::new(CExprKind::Value(llfn.cval())), args: list };
        let ret = f.ret;
        if ret.is_void(mcx.arena()) {
            self.emit(CStmtKind::Expr(Box::new(call)));
            Value::RValue { cval: CValue::Null, ty: ret }
        } else {
            let r = self.declare(ret, Some(call));
            Value::RValue { cval: r, ty: ret }
        }
    }

    /// Reads a place of type `ty`: the place is realized with `ty`, then
    /// loaded. A pending allocation is read directly; a pointer is converted
    /// to a pointer to `ty` and read through into a fresh local.
    pub fn load_operand(&mut self, mcx: &mut ModuleCtxt, place: Value, ty: CTy) -> (r: Value)
        requires
            old(self).wf(),
            old(self).room(2),
            old(mcx).wf(),
            ty_below(ty, old(mcx).tys().len()),
            place matches Value::LValue { cval } ==> realize_ok(old(self).func@.allocs, cval, ty),
        ensures
            final(self).wf(),
            final(self).bb == old(self).bb,
            final(mcx).wf(),
            match place {
                Value::LValue { cval } => {
                    &&& *final(mcx) == *old(mcx)
                    &&& r == place
                    &&& final(self).func@ == realized(old(self).func@, cval, ty)
                },
                Value::RValue { .. } => exists|p: CTy|
                    {
                        let (f1, v1) = pcast_spec(old(self).func@, old(self).bb as int, place, p);
                        &&& #[trigger] interned(*old(mcx), CTyKindV::Pointer(ty), *final(mcx), p)
                        &&& r == (Value::RValue {
                            cval: CValue::Local(f1.next_local as usize),
                            ty,
                        })
                        &&& final(self).func@ == decl_post(
                            f1,
                            old(self).bb as int,
                            ty,
                            Some(
                                CExprKind::Unary {
                                    op: "*",
                                    expr: Box::new(CExprKind::Value(v1.spec_cval())),
                                },
                            ),
                        )
                    },
            },
    {
        let v = self.realize(mcx, place, ty);
        self.load(ty, v)
    }
}

} // verus!
