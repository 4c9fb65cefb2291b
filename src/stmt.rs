use vstd::prelude::*;

use crate::expr::{CExprKind, CValue};
use crate::ty::{CTy, StrId};
use crate::ModuleCtxt;

verus! {

/// C declarations.
#[derive(Debug)]
#[allow(inconsistent_fields)]
pub enum CDeclKind {
    /// A variable, optionally initialized.
    Var { name: CValue, ty: CTy, init: Option<Box<CExprKind>> },
    /// A function prototype; `ty` is its function pointer type.
    Func { name: StrId, ty: CTy },
}

/// C statements.
#[derive(Debug)]
pub enum CStmtKind {
    If { cond: Box<CExprKind>, then_br: Box<CStmtKind>, else_br: Option<Box<CStmtKind>> },
    For { init: Box<CStmtKind>, cond: Box<CExprKind>, next: Box<CStmtKind>, body: Box<CStmtKind> },
    Return(Option<Box<CExprKind>>),
    Decl(Box<CDeclKind>),
    Expr(Box<CExprKind>),
    Goto(StrId),
}

/// The statement declaring `name` of type `ty` with an optional initializer.
pub open spec fn var_stmt(name: CValue, ty: CTy, init: Option<CExprKind>) -> CStmtKind {
    CStmtKind::Decl(
        Box::new(
            CDeclKind::Var {
                name,
                ty,
                init: match init {
                    Some(e) => Some(Box::new(e)),
                    None => None,
                },
            },
        ),
    )
}

impl ModuleCtxt {
    /// A variable declaration.
    pub fn var(&self, name: CValue, ty: CTy, init: Option<CExprKind>) -> (r: CDeclKind)
        ensures
            var_stmt(name, ty, init) == CStmtKind::Decl(Box::new(r)),
    {
        let init = match init {
            Some(e) => Some(Box::new(e)),
            None => None,
        };
        CDeclKind::Var { name, ty, init }
    }

    /// A function prototype.
    pub fn func(&self, name: StrId, ty: CTy) -> (r: CDeclKind)
        ensures
            r == (CDeclKind::Func { name, ty }),
    {
        CDeclKind::Func { name, ty }
    }

    /// A conditional statement.
    pub fn if_stmt(&self, cond: CExprKind, then_br: CStmtKind, else_br: Option<CStmtKind>) -> (r:
        CStmtKind)
        ensures
            r == (CStmtKind::If {
                cond: Box::new(cond),
                then_br: Box::new(then_br),
                else_br: match else_br {
                    Some(s) => Some(Box::new(s)),
                    None => None,
                },
            }),
    {
        let else_br = match else_br {
            Some(s) => Some(Box::new(s)),
            None => None,
        };
        CStmtKind::If { cond: Box::new(cond), then_br: Box::new(then_br), else_br }
    }

    /// A `for` loop.
    pub fn for_stmt(&self, init: CStmtKind, cond: CExprKind, next: CStmtKind, body: CStmtKind) -> (r:
        CStmtKind)
        ensures
            r == (CStmtKind::For {
                init: Box::new(init),
                cond: Box::new(cond),
                next: Box::new(next),
                body: Box::new(body),
            }),
    {
        CStmtKind::For {
            init: Box::new(init),
            cond: Box::new(cond),
            next: Box::new(next),
            body: Box::new(body),
        }
    }

    /// A return statement.
    pub fn ret(&self, expr: Option<CExprKind>) -> (r: CStmtKind)
        ensures
            r == CStmtKind::Return(
                match expr {
                    Some(e) => Some(Box::new(e)),
                    None => None,
                },
            ),
    {
        match expr {
            Some(e) => CStmtKind::Return(Some(Box::new(e))),
            None => CStmtKind::Return(None),
        }
    }

    /// A declaration statement.
    pub fn decl(&self, decl: CDeclKind) -> (r: CStmtKind)
        ensures
            r == CStmtKind::Decl(Box::new(decl)),
    {
        CStmtKind::Decl(Box::new(decl))
    }

    /// An expression statement.
    pub fn expr(&self, expr: CExprKind) -> (r: CStmtKind)
        ensures
            r == CStmtKind::Expr(Box::new(expr)),
    {
        CStmtKind::Expr(Box::new(expr))
    }

    /// A jump to a label.
    pub fn goto(&self, label: StrId) -> (r: CStmtKind)
        ensures
            r == CStmtKind::Goto(label),
    {
        CStmtKind::Goto(label)
    }
}

} // verus!
