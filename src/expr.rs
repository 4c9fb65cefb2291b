use vstd::prelude::*;

use crate::ty::{CTy, StrId};
use crate::ModuleCtxt;

verus! {

/// Values of C variables, parameters and scalars.
#[derive(Clone, Copy, Debug, PartialEq, Eq, Structural, Hash)]
pub enum CValue {
    Null,
    Scalar(i128),
    Local(usize),
    Global(usize),
    Func(StrId),
}

impl CValue {
    /// Whether the value names a function.
    pub fn is_func(&self) -> (r: bool)
        ensures
            r == (self is Func),
    {
        matches!(self, CValue::Func(_))
    }
}

/// C expressions.
#[derive(Debug)]
pub enum CExprKind {
    Raw(&'static str),
    Value(CValue),
    Unary { op: &'static str, expr: Box<CExprKind> },
    Binary { lhs: Box<CExprKind>, rhs: Box<CExprKind>, op: &'static str },
    Index { expr: Box<CExprKind>, index: Box<CExprKind> },
    Cast { ty: CTy, expr: Box<CExprKind> },
    Call { callee: Box<CExprKind>, args: CExprList },
    Member { expr: Box<CExprKind>, arrow: bool, field: StrId },
    InitList { exprs: CExprList },
}

/// A list of expressions, such as the arguments of a call.
#[derive(Debug)]
pub enum CExprList {
    Nil,
    Cons(Box<CExprKind>, Box<CExprList>),
}

/// The list `[a]`.
pub open spec fn list1(a: CExprKind) -> CExprList {
    CExprList::Cons(Box::new(a), Box::new(CExprList::Nil))
}

/// The list `[a, b, c]`.
pub open spec fn list3(a: CExprKind, b: CExprKind, c: CExprKind) -> CExprList {
    CExprList::Cons(
        Box::new(a),
        Box::new(CExprList::Cons(Box::new(b), Box::new(list1(c)))),
    )
}

/// The list `[a, b, c, d]`.
pub open spec fn list4(a: CExprKind, b: CExprKind, c: CExprKind, d: CExprKind) -> CExprList {
    CExprList::Cons(Box::new(a), Box::new(list3(b, c, d)))
}

impl ModuleCtxt {
    /// The next module-level variable; each call gives a fresh one.
    pub fn next_global_var(&mut self) -> (r: CValue)
        requires
            old(self).next_global_spec() < usize::MAX,
        ensures
            r == CValue::Global(old(self).next_global_spec() as usize),
            final(self).next_global_spec() == old(self).next_global_spec() + 1,
            final(self).0.arena == old(self).0.arena,
            final(self).0.module == old(self).0.module,
    {
        let var = CValue::Global(self.0.global_var_counter);
        self.0.global_var_counter = self.0.global_var_counter + 1;
        var
    }

    /// A reference to the function of that name.
    pub fn fn_ref(&self, name: StrId) -> (r: CValue)
        ensures
            r == CValue::Func(name),
    {
        CValue::Func(name)
    }

    /// An integer constant.
    pub fn scalar(&self, scalar: i128) -> (r: CValue)
        ensures
            r == CValue::Scalar(scalar),
    {
        CValue::Scalar(scalar)
    }

    /// Text written out as it is.
    pub fn raw(&self, raw: &'static str) -> (r: CExprKind)
        ensures
            r == CExprKind::Raw(raw),
    {
        CExprKind::Raw(raw)
    }

    /// The expression that reads a value.
    pub fn value(&self, value: CValue) -> (r: CExprKind)
        ensures
            r == CExprKind::Value(value),
    {
        CExprKind::Value(value)
    }

    /// A prefix operator applied to an expression.
    pub fn unary(&self, op: &'static str, expr: CExprKind) -> (r: CExprKind)
        ensures
            r == (CExprKind::Unary { op, expr: Box::new(expr) }),
    {
        CExprKind::Unary { op, expr: Box::new(expr) }
    }

    /// A binary operator applied to two expressions.
    pub fn binary(&self, lhs: CExprKind, rhs: CExprKind, op: &'static str) -> (r: CExprKind)
        ensures
            r == (CExprKind::Binary { lhs: Box::new(lhs), rhs: Box::new(rhs), op }),
    {
        CExprKind::Binary { lhs: Box::new(lhs), rhs: Box::new(rhs), op }
    }

    /// An indexing expression `expr[index]`.
    pub fn index(&self, expr: CExprKind, index: CExprKind) -> (r: CExprKind)
        ensures
            r == (CExprKind::Index { expr: Box::new(expr), index: Box::new(index) }),
    {
        CExprKind::Index { expr: Box::new(expr), index: Box::new(index) }
    }

    /// An assignment `lhs = rhs`.
    pub fn assign(&self, lhs: CExprKind, rhs: CExprKind) -> (r: CExprKind)
        ensures
            r == (CExprKind::Binary { lhs: Box::new(lhs), rhs: Box::new(rhs), op: "=" }),
    {
        self.binary(lhs, rhs, "=")
    }

    /// A cast of an expression to a type.
    pub fn cast(&self, ty: CTy, expr: CExprKind) -> (r: CExprKind)
        ensures
            r == (CExprKind::Cast { ty, expr: Box::new(expr) }),
    {
        CExprKind::Cast { ty, expr: Box::new(expr) }
    }

    /// A call.
    pub fn call(&self, callee: CExprKind, args: CExprList) -> (r: CExprKind)
        ensures
            r == (CExprKind::Call { callee: Box::new(callee), args }),
    {
        CExprKind::Call { callee: Box::new(callee), args }
    }

    /// A member access `expr.field`.
    pub fn member(&self, expr: CExprKind, field: StrId) -> (r: CExprKind)
        ensures
            r == (CExprKind::Member { expr: Box::new(expr), arrow: false, field }),
    {
        CExprKind::Member { expr: Box::new(expr), arrow: false, field }
    }

    /// An initializer list `{a, b, ...}`.
    pub fn init_list(&self, exprs: CExprList) -> (r: CExprKind)
        ensures
            r == (CExprKind::InitList { exprs }),
    {
        CExprKind::InitList { exprs }
    }
}

} // verus!
