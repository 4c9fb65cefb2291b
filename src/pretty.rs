//! Rendering a module as C source text.
//!
//! Each `*_text` spec function states the text of one kind of node; the
//! matching `*_string` function builds exactly that text, and `Printer`
//! appends it. Expressions
//! and statements print on one line; a function prints one pending allocation
//! or statement per line, indented by two spaces, with block labels at the
//! margin.

use vstd::prelude::*;
use vstd::string::StringExecFns;

use crate::arena::Arena;
use crate::expr::{CExprKind, CExprList, CValue};
use crate::func::{alloc_decl_ty, BlockV, CFuncKind, CFuncV, PendingAlloc};
use crate::module::Module;
use crate::stmt::{CDeclKind, CStmtKind};
use crate::ty::{resolved_kind, ty_rank, CTy, CTyBase, CTyKind, CTyKindV, CTyQuals, StrId};

verus! {

/// The string behind a handle; empty for a handle the arena does not hold.
pub open spec fn str_at(strs: Seq<Seq<char>>, id: StrId) -> Seq<char> {
    if id.index < strs.len() {
        strs[id.index as int]
    } else {
        Seq::empty()
    }
}

pub open spec fn digit_char(d: nat) -> char {
    if d == 0 {
        '0'
    } else if d == 1 {
        '1'
    } else if d == 2 {
        '2'
    } else if d == 3 {
        '3'
    } else if d == 4 {
        '4'
    } else if d == 5 {
        '5'
    } else if d == 6 {
        '6'
    } else if d == 7 {
        '7'
    } else if d == 8 {
        '8'
    } else {
        '9'
    }
}

/// The decimal digits of `n`.
pub open spec fn nat_text(n: nat) -> Seq<char>
    decreases n,
{
    if n < 10 {
        seq![digit_char(n)]
    } else {
        nat_text(n / 10) + seq![digit_char(n % 10)]
    }
}

/// The decimal text of an integer, with a leading `-` when negative.
pub open spec fn int_text(i: int) -> Seq<char> {
    if i < 0 {
        seq!['-'] + nat_text((-i) as nat)
    } else {
        nat_text(i as nat)
    }
}

/// How a value is named: `NULL`, a literal, `_n` for locals, `_gn` for
/// module-level variables, or the function's name.
pub open spec fn value_text(strs: Seq<Seq<char>>, v: CValue) -> Seq<char> {
    match v {
        CValue::Null => "NULL"@,
        CValue::Scalar(i) => int_text(i as int),
        CValue::Local(i) => "_"@ + nat_text(i as nat),
        CValue::Global(i) => "_g"@ + nat_text(i as nat),
        CValue::Func(id) => str_at(strs, id),
    }
}

/// The qualifiers of a type, each followed by a space.
pub open spec fn quals_text(q: CTyQuals) -> Seq<char> {
    (if q.is_const {
        "const "@
    } else {
        Seq::empty()
    }) + (if q.is_volatile {
        "volatile "@
    } else {
        Seq::empty()
    }) + (if q.is_restrict {
        "restrict "@
    } else {
        Seq::empty()
    })
}

/// `d` preceded by a space, or nothing when `d` is empty.
pub open spec fn spaced(d: Seq<char>) -> Seq<char> {
    if d.len() == 0 {
        Seq::empty()
    } else {
        " "@ + d
    }
}

/// The length part of an array declarator.
pub open spec fn len_text(n: Option<usize>) -> Seq<char> {
    match n {
        Some(k) => nat_text(k as nat),
        None => Seq::empty(),
    }
}

/// Whether a type is directly an array type.
pub open spec fn is_array(tys: Seq<CTyKindV>, t: CTy) -> bool {
    match t.base {
        CTyBase::Ref(i) => i < tys.len() && tys[i as int] is Array,
        _ => false,
    }
}

/// The declaration of `d` with type `t`, in C's "declaration follows use"
/// form: pointers add a `*` prefix (parenthesized before an array suffix),
/// arrays add a `[n]` suffix, function pointers add `(*...)(args)`, and the
/// base type with its qualifiers comes first. With an empty `d` this is the
/// type name alone.
pub open spec fn decl_text(tys: Seq<CTyKindV>, strs: Seq<Seq<char>>, t: CTy, d: Seq<char>) -> Seq<
    char,
>
    decreases ty_rank(t), 1nat, 0nat,
{
    match t.base {
        CTyBase::Primitive(p) => quals_text(t.quals) + p.spec_str()@ + spaced(d),
        CTyBase::Ref(i) => if i < tys.len() {
            match tys[i as int] {
                CTyKindV::Pointer(inner) => if ty_rank(inner) < ty_rank(t) {
                    if is_array(tys, inner) {
                        decl_text(tys, strs, inner, "(*"@ + quals_text(t.quals) + d + ")"@)
                    } else {
                        decl_text(tys, strs, inner, "*"@ + quals_text(t.quals) + d)
                    }
                } else {
                    Seq::empty()
                },
                CTyKindV::Array(inner, n) => if ty_rank(inner) < ty_rank(t) {
                    decl_text(tys, strs, inner, d + "["@ + len_text(n) + "]"@)
                } else {
                    Seq::empty()
                },
                CTyKindV::FnPtr(ret, args, _) => if ty_rank(ret) < ty_rank(t) {
                    decl_text(
                        tys,
                        strs,
                        ret,
                        "(*"@ + d + ")("@ + args_text(tys, strs, args, ty_rank(t), args.len()) + ")"@,
                    )
                } else {
                    Seq::empty()
                },
                CTyKindV::Alias(name, _) => quals_text(t.quals) + str_at(strs, name) + spaced(d),
                CTyKindV::Struct(name, fields) => quals_text(t.quals) + struct_head(strs, name)
                    + fields_text(tys, strs, fields, ty_rank(t), fields.len()) + "}"@ + spaced(d),
            }
        } else {
            Seq::empty()
        },
    }
}

/// `struct name { ` or `struct { `.
pub open spec fn struct_head(strs: Seq<Seq<char>>, name: Option<StrId>) -> Seq<char> {
    match name {
        Some(n) => "struct "@ + str_at(strs, n) + " { "@,
        None => "struct { "@,
    }
}

/// The first `n` argument types, separated by `, `; types at or above `bound`
/// in the interning order are not printed.
pub open spec fn args_text(
    tys: Seq<CTyKindV>,
    strs: Seq<Seq<char>>,
    args: Seq<CTy>,
    bound: nat,
    n: nat,
) -> Seq<char>
    decreases bound, 0nat, n,
{
    if n == 0 || n > args.len() {
        Seq::empty()
    } else {
        let a = args[n - 1];
        let at = if ty_rank(a) < bound {
            decl_text(tys, strs, a, Seq::empty())
        } else {
            Seq::empty()
        };
        if n == 1 {
            at
        } else {
            args_text(tys, strs, args, bound, (n - 1) as nat) + ", "@ + at
        }
    }
}

/// The first `n` fields of a struct, each declared and followed by `; `.
pub open spec fn fields_text(
    tys: Seq<CTyKindV>,
    strs: Seq<Seq<char>>,
    fields: Seq<(CTy, StrId)>,
    bound: nat,
    n: nat,
) -> Seq<char>
    decreases bound, 0nat, n,
{
    if n == 0 || n > fields.len() {
        Seq::empty()
    } else {
        let f = fields[n - 1];
        let ft = if ty_rank(f.0) < bound {
            decl_text(tys, strs, f.0, str_at(strs, f.1))
        } else {
            Seq::empty()
        };
        fields_text(tys, strs, fields, bound, (n - 1) as nat) + ft + "; "@
    }
}

/// `s` in parentheses unless it stands at the outermost level.
pub open spec fn paren(s: Seq<char>, outer: bool) -> Seq<char> {
    if outer {
        s
    } else {
        "("@ + s + ")"@
    }
}

/// The text of an expression. Operators and casts are parenthesized unless
/// they stand at the outermost level of a statement.
pub open spec fn expr_text(tys: Seq<CTyKindV>, strs: Seq<Seq<char>>, e: CExprKind, outer: bool) -> Seq<
    char,
>
    decreases e,
{
    match e {
        CExprKind::Raw(r) => r@,
        CExprKind::Value(v) => value_text(strs, v),
        CExprKind::Unary { op, expr } => paren(op@ + expr_text(tys, strs, *expr, false), outer),
        CExprKind::Binary { lhs, rhs, op } => paren(
            expr_text(tys, strs, *lhs, false) + " "@ + op@ + " "@ + expr_text(tys, strs, *rhs, false),
            outer,
        ),
        CExprKind::Index { expr, index } => expr_text(tys, strs, *expr, false) + "["@ + expr_text(
            tys,
            strs,
            *index,
            true,
        ) + "]"@,
        CExprKind::Cast { ty, expr } => paren(
            "("@ + decl_text(tys, strs, ty, Seq::empty()) + ") "@ + expr_text(tys, strs, *expr, false),
            outer,
        ),
        CExprKind::Call { callee, args } => expr_text(tys, strs, *callee, false) + "("@ + list_text(
            tys,
            strs,
            args,
        ) + ")"@,
        CExprKind::Member { expr, arrow, field } => expr_text(tys, strs, *expr, false) + (if arrow {
            "->"@
        } else {
            "."@
        }) + str_at(strs, field),
        CExprKind::InitList { exprs } => "{"@ + list_text(tys, strs, exprs) + "}"@,
    }
}

/// Expressions separated by `, `.
pub open spec fn list_text(tys: Seq<CTyKindV>, strs: Seq<Seq<char>>, l: CExprList) -> Seq<char>
    decreases l,
{
    match l {
        CExprList::Nil => Seq::empty(),
        CExprList::Cons(e, rest) => match *rest {
            CExprList::Nil => expr_text(tys, strs, *e, true),
            _ => expr_text(tys, strs, *e, true) + ", "@ + list_text(tys, strs, *rest),
        },
    }
}

pub open spec fn semi(trailing: bool) -> Seq<char> {
    if trailing {
        ";"@
    } else {
        Seq::empty()
    }
}

/// A function signature `ret name(params)`; parameters are named `_0, _1, ...`
/// when `named`.
pub open spec fn sig_text(
    tys: Seq<CTyKindV>,
    strs: Seq<Seq<char>>,
    ret: CTy,
    name: Seq<char>,
    params: Seq<CTy>,
    named: bool,
) -> Seq<char> {
    decl_text(tys, strs, ret, Seq::empty()) + " "@ + name + "("@ + params_text(
        tys,
        strs,
        params,
        named,
        params.len(),
    ) + ")"@
}

/// The first `n` parameters, separated by `, `.
pub open spec fn params_text(
    tys: Seq<CTyKindV>,
    strs: Seq<Seq<char>>,
    params: Seq<CTy>,
    named: bool,
    n: nat,
) -> Seq<char>
    decreases n,
{
    if n == 0 || n > params.len() {
        Seq::empty()
    } else {
        let d = if named {
            "_"@ + nat_text((n - 1) as nat)
        } else {
            Seq::empty()
        };
        let pt = decl_text(tys, strs, params[n - 1], d);
        if n == 1 {
            pt
        } else {
            params_text(tys, strs, params, named, (n - 1) as nat) + ", "@ + pt
        }
    }
}

/// The text of a declaration. An initializer is printed in parentheses when it
/// is an operator expression.
pub open spec fn cdecl_text(tys: Seq<CTyKindV>, strs: Seq<Seq<char>>, d: CDeclKind, trailing: bool) -> Seq<
    char,
> {
    match d {
        CDeclKind::Var { name, ty, init } => match init {
            Some(e) => decl_text(tys, strs, ty, value_text(strs, name)) + " = "@ + expr_text(
                tys,
                strs,
                *e,
                false,
            ) + semi(trailing),
            None => decl_text(tys, strs, ty, value_text(strs, name)) + semi(trailing),
        },
        CDeclKind::Func { name, ty } => match resolved_kind(tys, ty) {
            Some(CTyKindV::FnPtr(ret, args, _)) => sig_text(tys, strs, ret, str_at(strs, name), args, false)
                + semi(trailing),
            _ => Seq::empty(),
        },
    }
}

/// The text of a statement, on one line. Branches and loop bodies are braced.
pub open spec fn stmt_text(tys: Seq<CTyKindV>, strs: Seq<Seq<char>>, s: CStmtKind, trailing: bool) -> Seq<
    char,
>
    decreases s,
{
    match s {
        CStmtKind::If { cond, then_br, else_br } => match else_br {
            Some(e) => "if ("@ + expr_text(tys, strs, *cond, true) + ") { "@ + stmt_text(
                tys,
                strs,
                *then_br,
                true,
            ) + " } else { "@ + stmt_text(tys, strs, *e, true) + " }"@,
            None => "if ("@ + expr_text(tys, strs, *cond, true) + ") { "@ + stmt_text(
                tys,
                strs,
                *then_br,
                true,
            ) + " }"@,
        },
        CStmtKind::For { init, cond, next, body } => "for ("@ + stmt_text(tys, strs, *init, false)
            + "; "@ + expr_text(tys, strs, *cond, true) + "; "@ + stmt_text(tys, strs, *next, false)
            + ") { "@ + stmt_text(tys, strs, *body, true) + " }"@,
        CStmtKind::Return(e) => match e {
            Some(x) => "return "@ + expr_text(tys, strs, *x, true) + semi(trailing),
            None => "return"@ + semi(trailing),
        },
        CStmtKind::Decl(d) => cdecl_text(tys, strs, *d, trailing),
        CStmtKind::Expr(e) => expr_text(tys, strs, *e, true) + semi(trailing),
        CStmtKind::Goto(l) => "goto "@ + str_at(strs, l) + semi(trailing),
    }
}

/// The signature of a function: `int main(...)` for the entry point, else its
/// return type, name and named parameters.
pub open spec fn func_sig_text(tys: Seq<CTyKindV>, strs: Seq<Seq<char>>, f: CFuncV) -> Seq<char> {
    if f.is_main {
        if f.params.len() >= 2 {
            "int main(int "@ + value_text(strs, f.params[0]) + ", char** "@ + value_text(
                strs,
                f.params[1],
            ) + ")"@
        } else {
            "int main()"@
        }
    } else {
        sig_text(tys, strs, f.ret, str_at(strs, f.name), f.param_tys, true)
    }
}

/// The first `n` pending allocations, one declaration per line.
pub open spec fn allocs_text(
    tys: Seq<CTyKindV>,
    strs: Seq<Seq<char>>,
    allocs: Seq<(usize, PendingAlloc)>,
    n: nat,
) -> Seq<char>
    decreases n,
{
    if n == 0 || n > allocs.len() {
        Seq::empty()
    } else {
        let a = allocs[n - 1];
        allocs_text(tys, strs, allocs, (n - 1) as nat) + "\n  "@ + decl_text(
            tys,
            strs,
            alloc_decl_ty(a.1),
            "_"@ + nat_text(a.0 as nat),
        ) + ";"@
    }
}

/// The first `n` statements of a block, one per line.
pub open spec fn stmts_text(
    tys: Seq<CTyKindV>,
    strs: Seq<Seq<char>>,
    stmts: Seq<CStmtKind>,
    n: nat,
) -> Seq<char>
    decreases n,
{
    if n == 0 || n > stmts.len() {
        Seq::empty()
    } else {
        stmts_text(tys, strs, stmts, (n - 1) as nat) + "\n  "@ + stmt_text(tys, strs, stmts[n - 1], true)
    }
}

/// The first `n` blocks: each label on its own line, then its statements.
pub open spec fn blocks_text(tys: Seq<CTyKindV>, strs: Seq<Seq<char>>, blocks: Seq<BlockV>, n: nat) -> Seq<
    char,
>
    decreases n,
{
    if n == 0 || n > blocks.len() {
        Seq::empty()
    } else {
        let b = blocks[n - 1];
        blocks_text(tys, strs, blocks, (n - 1) as nat) + "\n"@ + str_at(strs, b.label) + ":;"@
            + stmts_text(tys, strs, b.stmts, b.stmts.len())
    }
}

/// A function definition: signature, the pending allocations (declared with
/// their realized type, or their fallback), then the blocks.
pub open spec fn func_text(tys: Seq<CTyKindV>, strs: Seq<Seq<char>>, f: CFuncV) -> Seq<char> {
    func_sig_text(tys, strs, f) + " {"@ + allocs_text(tys, strs, f.allocs, f.allocs.len())
        + blocks_text(tys, strs, f.blocks, f.blocks.len()) + "\n}"@
}

/// The first `n` includes, one per line.
pub open spec fn includes_text(includes: Seq<&'static str>, n: nat) -> Seq<char>
    decreases n,
{
    if n == 0 || n > includes.len() {
        Seq::empty()
    } else {
        includes_text(includes, (n - 1) as nat) + "#include <"@ + includes[n - 1]@ + ">\n"@
    }
}

/// The first `n` top-level declarations, one per line.
pub open spec fn decls_text(tys: Seq<CTyKindV>, strs: Seq<Seq<char>>, decls: Seq<CDeclKind>, n: nat) -> Seq<
    char,
>
    decreases n,
{
    if n == 0 || n > decls.len() {
        Seq::empty()
    } else {
        decls_text(tys, strs, decls, (n - 1) as nat) + cdecl_text(tys, strs, decls[n - 1], true)
            + "\n"@
    }
}

/// The prototypes of the first `n` functions, one per line.
pub open spec fn protos_text(tys: Seq<CTyKindV>, strs: Seq<Seq<char>>, funcs: Seq<CFuncV>, n: nat) -> Seq<
    char,
>
    decreases n,
{
    if n == 0 || n > funcs.len() {
        Seq::empty()
    } else {
        protos_text(tys, strs, funcs, (n - 1) as nat) + func_sig_text(tys, strs, funcs[n - 1]) + ";\n"@
    }
}

/// The definitions of the first `n` functions, each after a blank line.
pub open spec fn bodies_text(tys: Seq<CTyKindV>, strs: Seq<Seq<char>>, funcs: Seq<CFuncV>, n: nat) -> Seq<
    char,
>
    decreases n,
{
    if n == 0 || n > funcs.len() {
        Seq::empty()
    } else {
        bodies_text(tys, strs, funcs, (n - 1) as nat) + "\n"@ + func_text(tys, strs, funcs[n - 1])
            + "\n"@
    }
}

/// A module: includes, then the interface (declarations and function
/// prototypes, so that functions may call each other in any order), then the
/// function definitions.
pub open spec fn module_text(
    tys: Seq<CTyKindV>,
    strs: Seq<Seq<char>>,
    includes: Seq<&'static str>,
    decls: Seq<CDeclKind>,
    funcs: Seq<CFuncV>,
) -> Seq<char> {
    includes_text(includes, includes.len()) + "\n/* rustc_codegen_c: interface */\n"@ + decls_text(
        tys,
        strs,
        decls,
        decls.len(),
    ) + protos_text(tys, strs, funcs, funcs.len()) + "\n/* rustc_codegen_c: implementation */\n"@
        + bodies_text(tys, strs, funcs, funcs.len())
}

fn digit_str(d: u128) -> (r: &'static str)
    requires
        d < 10,
    ensures
        r@ == seq![digit_char(d as nat)],
{
    proof {
        reveal_strlit("0");
        reveal_strlit("1");
        reveal_strlit("2");
        reveal_strlit("3");
        reveal_strlit("4");
        reveal_strlit("5");
        reveal_strlit("6");
        reveal_strlit("7");
        reveal_strlit("8");
        reveal_strlit("9");
    }
    let r = if d == 0 {
        "0"
    } else if d == 1 {
        "1"
    } else if d == 2 {
        "2"
    } else if d == 3 {
        "3"
    } else if d == 4 {
        "4"
    } else if d == 5 {
        "5"
    } else if d == 6 {
        "6"
    } else if d == 7 {
        "7"
    } else if d == 8 {
        "8"
    } else {
        "9"
    };
    assert(r@ =~= seq![digit_char(d as nat)]);
    r
}

/// The decimal digits of `n`.
pub fn nat_string(n: u128) -> (r: String)
    ensures
        r@ == nat_text(n as nat),
    decreases n,
{
    if n < 10 {
        String::from_str(digit_str(n))
    } else {
        let mut r = nat_string(n / 10);
        r.append(digit_str(n % 10));
        r
    }
}

/// The decimal text of an integer.
pub fn int_string(i: i128) -> (r: String)
    ensures
        r@ == int_text(i as int),
{
    if i < 0 {
        let m: u128 = (-(i + 1)) as u128 + 1;
        let mut r = String::from_str("-");
        let digits = nat_string(m);
        r.append(digits.as_str());
        proof {
            reveal_strlit("-");
        }
        assert(r@ =~= int_text(i as int));
        r
    } else {
        nat_string(i as u128)
    }
}

/// `prefix` followed by the decimal digits of `n`.
fn numbered(prefix: &str, n: usize) -> (r: String)
    ensures
        r@ == prefix@ + nat_text(n as nat),
{
    let mut r = String::from_str(prefix);
    let digits = nat_string(n as u128);
    r.append(digits.as_str());
    r
}

/// How a value is named in C.
pub fn value_string(arena: &Arena, v: CValue) -> (r: String)
    ensures
        r@ == value_text(arena.strs_view(), v),
{
    match v {
        CValue::Null => String::from_str("NULL"),
        CValue::Scalar(i) => int_string(i),
        CValue::Local(i) => numbered("_", i),
        CValue::Global(i) => numbered("_g", i),
        CValue::Func(id) => str_string(arena, id),
    }
}

fn str_string(arena: &Arena, id: StrId) -> (r: String)
    ensures
        r@ == str_at(arena.strs_view(), id),
{
    if id.index < arena.num_strs() {
        String::from_str(arena.get_str(id))
    } else {
        String::new()
    }
}

fn quals_string(q: CTyQuals) -> (r: String)
    ensures
        r@ == quals_text(q),
{
    let mut r = String::new();
    if q.is_const {
        r.append("const ");
    }
    if q.is_volatile {
        r.append("volatile ");
    }
    if q.is_restrict {
        r.append("restrict ");
    }
    assert(r@ =~= quals_text(q));
    r
}

/// Appends `d` preceded by a space, unless `d` is empty.
fn append_spaced(r: &mut String, d: &str)
    ensures
        final(r)@ == old(r)@ + spaced(d@),
{
    if !d.is_empty() {
        r.append(" ");
    }
    r.append(d);
    assert(final(r)@ =~= old(r)@ + spaced(d@));
}

fn is_array_ty(arena: &Arena, t: CTy) -> (r: bool)
    ensures
        r == is_array(arena.tys_view(), t),
{
    match t.base {
        CTyBase::Ref(i) => i < arena.num_tys() && matches!(arena.get_ty(i), CTyKind::Array(..)),
        _ => false,
    }
}

/// Whether `t` comes before entry `i + 1` in the interning order.
fn rank_at_most(t: CTy, i: usize) -> (r: bool)
    ensures
        r == (ty_rank(t) < i + 1),
{
    match t.base {
        CTyBase::Primitive(_) => true,
        CTyBase::Ref(j) => j < i,
    }
}

/// The declaration of `d` with type `t`; the type name alone when `d` is empty.
pub fn decl_string(arena: &Arena, t: CTy, d: String) -> (r: String)
    ensures
        r@ == decl_text(arena.tys_view(), arena.strs_view(), t, d@),
    decreases ty_rank(t),
{
    let ghost tys = arena.tys_view();
    let ghost strs = arena.strs_view();
    match t.base {
        CTyBase::Primitive(p) => {
            let mut r = quals_string(t.quals);
            r.append(p.to_str());
            append_spaced(&mut r, d.as_str());
            r
        },
        CTyBase::Ref(i) => {
            if i >= arena.num_tys() {
                return String::new();
            }
            match arena.get_ty(i) {
                CTyKind::Pointer(inner) => {
                    let inner = *inner;
                    if !rank_at_most(inner, i) {
                        return String::new();
                    }
                    let mut d2 = if is_array_ty(arena, inner) {
                        String::from_str("(*")
                    } else {
                        String::from_str("*")
                    };
                    let q = quals_string(t.quals);
                    d2.append(q.as_str());
                    d2.append(d.as_str());
                    if is_array_ty(arena, inner) {
                        d2.append(")");
                    }
                    decl_string(arena, inner, d2)
                },
                CTyKind::Array(inner, n) => {
                    let inner = *inner;
                    if !rank_at_most(inner, i) {
                        return String::new();
                    }
                    let mut d2 = d;
                    d2.append("[");
                    match n {
                        Some(k) => {
                            let ks = nat_string(*k as u128);
                            d2.append(ks.as_str());
                        },
                        None => {},
                    }
                    d2.append("]");
                    assert(d2@ =~= d@ + "["@ + len_text(*n) + "]"@);
                    decl_string(arena, inner, d2)
                },
                CTyKind::FnPtr(f) => {
                    if !rank_at_most(f.ret, i) {
                        return String::new();
                    }
                    let mut args = String::new();
                    let mut j: usize = 0;
                    while j < f.args.len()
                        invariant
                            j <= f.args@.len(),
                            i < tys.len(),
                            tys[i as int] == CTyKindV::FnPtr(f.ret, f.args@, f.abi),
                            args@ == args_text(tys, strs, f.args@, (i + 1) as nat, j as nat),
                            tys == arena.tys_view(),
                            strs == arena.strs_view(),
                            t.base == CTyBase::Ref(i),
                        decreases f.args@.len() - j,
                    {
                        let a = f.args[j];
                        let at = if rank_at_most(a, i) {
                            decl_string(arena, a, String::new())
                        } else {
                            String::new()
                        };
                        if j > 0 {
                            args.append(", ");
                        }
                        args.append(at.as_str());
                        assert(args@ =~= args_text(tys, strs, f.args@, (i + 1) as nat, (j + 1) as nat));
                        j = j + 1;
                    }
                    let mut d2 = String::from_str("(*");
                    d2.append(d.as_str());
                    d2.append(")(");
                    d2.append(args.as_str());
                    d2.append(")");
                    decl_string(arena, f.ret, d2)
                },
                CTyKind::Alias { name, .. } => {
                    let mut r = quals_string(t.quals);
                    let n = str_string(arena, *name);
                    r.append(n.as_str());
                    append_spaced(&mut r, d.as_str());
                    r
                },
                CTyKind::Struct { name, fields } => {
                    let mut r = quals_string(t.quals);
                    match name {
                        Some(n) => {
                            r.append("struct ");
                            let ns = str_string(arena, *n);
                            r.append(ns.as_str());
                            r.append(" { ");
                        },
                        None => {
                            r.append("struct { ");
                        },
                    }
                    let ghost head = r@;
                    assert(head =~= quals_text(t.quals) + struct_head(strs, *name));
                    let mut j: usize = 0;
                    while j < fields.len()
                        invariant
                            j <= fields@.len(),
                            i < tys.len(),
                            tys[i as int] == CTyKindV::Struct(*name, fields@),
                            r@ == head + fields_text(tys, strs, fields@, (i + 1) as nat, j as nat),
                            tys == arena.tys_view(),
                            strs == arena.strs_view(),
                            t.base == CTyBase::Ref(i),
                        decreases fields@.len() - j,
                    {
                        let ft = if rank_at_most(fields[j].0, i) {
                            let fname = str_string(arena, fields[j].1);
                            decl_string(arena, fields[j].0, fname)
                        } else {
                            String::new()
                        };
                        r.append(ft.as_str());
                        r.append("; ");
                        assert(r@ =~= head + fields_text(tys, strs, fields@, (i + 1) as nat, (j + 1) as nat));
                        j = j + 1;
                    }
                    r.append("}");
                    append_spaced(&mut r, d.as_str());
                    r
                },
            }
        },
    }
}

fn paren_string(s: String, outer: bool) -> (r: String)
    ensures
        r@ == paren(s@, outer),
{
    if outer {
        s
    } else {
        let mut r = String::from_str("(");
        r.append(s.as_str());
        r.append(")");
        r
    }
}

/// The text of an expression.
pub fn expr_string(arena: &Arena, e: &CExprKind, outer: bool) -> (r: String)
    ensures
        r@ == expr_text(arena.tys_view(), arena.strs_view(), *e, outer),
    decreases e,
{
    match e {
        CExprKind::Raw(raw) => String::from_str(raw),
        CExprKind::Value(v) => value_string(arena, *v),
        CExprKind::Unary { op, expr } => {
            let mut r = String::from_str(op);
            let inner = expr_string(arena, expr, false);
            r.append(inner.as_str());
            paren_string(r, outer)
        },
        CExprKind::Binary { lhs, rhs, op } => {
            let mut r = expr_string(arena, lhs, false);
            r.append(" ");
            r.append(op);
            r.append(" ");
            let rs = expr_string(arena, rhs, false);
            r.append(rs.as_str());
            paren_string(r, outer)
        },
        CExprKind::Index { expr, index } => {
            let mut r = expr_string(arena, expr, false);
            r.append("[");
            let is = expr_string(arena, index, true);
            r.append(is.as_str());
            r.append("]");
            r
        },
        CExprKind::Cast { ty, expr } => {
            let mut r = String::from_str("(");
            let ts = decl_string(arena, *ty, String::new());
            r.append(ts.as_str());
            r.append(") ");
            let es = expr_string(arena, expr, false);
            r.append(es.as_str());
            paren_string(r, outer)
        },
        CExprKind::Call { callee, args } => {
            let mut r = expr_string(arena, callee, false);
            r.append("(");
            let ls = list_string(arena, args);
            r.append(ls.as_str());
            r.append(")");
            r
        },
        CExprKind::Member { expr, arrow, field } => {
            let mut r = expr_string(arena, expr, false);
            if *arrow {
                r.append("->");
            } else {
                r.append(".");
            }
            let fs = str_string(arena, *field);
            r.append(fs.as_str());
            r
        },
        CExprKind::InitList { exprs } => {
            let mut r = String::from_str("{");
            let ls = list_string(arena, exprs);
            r.append(ls.as_str());
            r.append("}");
            r
        },
    }
}

/// Expressions separated by `, `.
pub fn list_string(arena: &Arena, l: &CExprList) -> (r: String)
    ensures
        r@ == list_text(arena.tys_view(), arena.strs_view(), *l),
    decreases l,
{
    match l {
        CExprList::Nil => String::new(),
        CExprList::Cons(e, rest) => {
            let mut r = expr_string(arena, e, true);
            match &**rest {
                CExprList::Nil => r,
                _ => {
                    r.append(", ");
                    let rs = list_string(arena, rest);
                    r.append(rs.as_str());
                    r
                },
            }
        },
    }
}

fn append_semi(r: &mut String, trailing: bool)
    ensures
        final(r)@ == old(r)@ + semi(trailing),
{
    if trailing {
        r.append(";");
    } else {
        assert(old(r)@ + semi(trailing) =~= old(r)@);
    }
}

/// The first parameters of a signature, separated by `, `.
fn params_string(arena: &Arena, params: &Vec<CTy>, named: bool) -> (r: String)
    ensures
        r@ == params_text(arena.tys_view(), arena.strs_view(), params@, named, params@.len()),
{
    let ghost tys = arena.tys_view();
    let ghost strs = arena.strs_view();
    let mut r = String::new();
    let mut j: usize = 0;
    while j < params.len()
        invariant
            j <= params@.len(),
            r@ == params_text(tys, strs, params@, named, j as nat),
            tys == arena.tys_view(),
            strs == arena.strs_view(),
        decreases params@.len() - j,
    {
        let d = if named {
            numbered("_", j)
        } else {
            String::new()
        };
        let pt = decl_string(arena, params[j], d);
        if j > 0 {
            r.append(", ");
        }
        r.append(pt.as_str());
        assert(r@ =~= params_text(tys, strs, params@, named, (j + 1) as nat));
        j = j + 1;
    }
    r
}

/// A signature `ret name(params)`.
fn sig_string(arena: &Arena, ret: CTy, name: &str, params: &Vec<CTy>, named: bool) -> (r: String)
    ensures
        r@ == sig_text(arena.tys_view(), arena.strs_view(), ret, name@, params@, named),
{
    let mut r = decl_string(arena, ret, String::new());
    r.append(" ");
    r.append(name);
    r.append("(");
    let ps = params_string(arena, params, named);
    r.append(ps.as_str());
    r.append(")");
    r
}

/// The text of a declaration.
pub fn cdecl_string(arena: &Arena, d: &CDeclKind, trailing: bool) -> (r: String)
    ensures
        r@ == cdecl_text(arena.tys_view(), arena.strs_view(), *d, trailing),
{
    match d {
        CDeclKind::Var { name, ty, init } => {
            let n = value_string(arena, *name);
            let mut r = decl_string(arena, *ty, n);
            match init {
                Some(e) => {
                    r.append(" = ");
                    let es = expr_string(arena, e, false);
                    r.append(es.as_str());
                },
                None => {},
            }
            append_semi(&mut r, trailing);
            r
        },
        CDeclKind::Func { name, ty } => {
            match ty.fn_ptr(arena) {
                Some(f) => {
                    let n = str_string(arena, *name);
                    let mut r = sig_string(arena, f.ret, n.as_str(), &f.args, false);
                    append_semi(&mut r, trailing);
                    r
                },
                None => String::new(),
            }
        },
    }
}

/// The text of a statement.
pub fn stmt_string(arena: &Arena, s: &CStmtKind, trailing: bool) -> (r: String)
    ensures
        r@ == stmt_text(arena.tys_view(), arena.strs_view(), *s, trailing),
    decreases s,
{
    match s {
        CStmtKind::If { cond, then_br, else_br } => {
            let mut r = String::from_str("if (");
            let cs = expr_string(arena, cond, true);
            r.append(cs.as_str());
            r.append(") { ");
            let ts = stmt_string(arena, then_br, true);
            r.append(ts.as_str());
            match else_br {
                Some(e) => {
                    r.append(" } else { ");
                    let es = stmt_string(arena, e, true);
                    r.append(es.as_str());
                    r.append(" }");
                },
                None => {
                    r.append(" }");
                },
            }
            r
        },
        CStmtKind::For { init, cond, next, body } => {
            let mut r = String::from_str("for (");
            let is = stmt_string(arena, init, false);
            r.append(is.as_str());
            r.append("; ");
            let cs = expr_string(arena, cond, true);
            r.append(cs.as_str());
            r.append("; ");
            let ns = stmt_string(arena, next, false);
            r.append(ns.as_str());
            r.append(") { ");
            let bs = stmt_string(arena, body, true);
            r.append(bs.as_str());
            r.append(" }");
            r
        },
        CStmtKind::Return(e) => {
            let mut r = String::from_str("return");
            match e {
                Some(x) => {
                    let mut r2 = String::from_str("return ");
                    let xs = expr_string(arena, x, true);
                    r2.append(xs.as_str());
                    append_semi(&mut r2, trailing);
                    r2
                },
                None => {
                    append_semi(&mut r, trailing);
                    r
                },
            }
        },
        CStmtKind::Decl(d) => cdecl_string(arena, d, trailing),
        CStmtKind::Expr(e) => {
            let mut r = expr_string(arena, e, true);
            append_semi(&mut r, trailing);
            r
        },
        CStmtKind::Goto(l) => {
            let mut r = String::from_str("goto ");
            let ls = str_string(arena, *l);
            r.append(ls.as_str());
            append_semi(&mut r, trailing);
            r
        },
    }
}

/// The signature of a function.
pub fn func_sig_string(arena: &Arena, f: &CFuncKind) -> (r: String)
    ensures
        r@ == func_sig_text(arena.tys_view(), arena.strs_view(), f@),
{
    if f.is_main() {
        let params = f.param_values();
        if params.len() >= 2 {
            let mut r = String::from_str("int main(int ");
            let p0 = value_string(arena, params[0]);
            r.append(p0.as_str());
            r.append(", char** ");
            let p1 = value_string(arena, params[1]);
            r.append(p1.as_str());
            r.append(")");
            r
        } else {
            String::from_str("int main()")
        }
    } else {
        let n = str_string(arena, f.name_id());
        sig_string(arena, f.ret_ty(), n.as_str(), f.param_tys(), true)
    }
}

/// The definition of a function.
pub fn func_string(arena: &Arena, f: &CFuncKind) -> (r: String)
    ensures
        r@ == func_text(arena.tys_view(), arena.strs_view(), f@),
{
    let ghost tys = arena.tys_view();
    let ghost strs = arena.strs_view();
    let mut r = func_sig_string(arena, f);
    r.append(" {");
    let ghost head = r@;
    let allocs = f.allocs();
    let mut i: usize = 0;
    while i < allocs.len()
        invariant
            i <= allocs@.len(),
            allocs@ == f@.allocs,
            r@ == head + allocs_text(tys, strs, f@.allocs, i as nat),
            tys == arena.tys_view(),
            strs == arena.strs_view(),
        decreases allocs@.len() - i,
    {
        let (key, a) = allocs[i];
        let ty = match a.ty {
            Some(t) => t,
            None => a.fallback,
        };
        let name = numbered("_", key);
        let ds = decl_string(arena, ty, name);
        r.append("\n  ");
        r.append(ds.as_str());
        r.append(";");
        assert(r@ =~= head + allocs_text(tys, strs, f@.allocs, (i + 1) as nat));
        i = i + 1;
    }
    let ghost head2 = r@;
    let blocks = f.blocks();
    let mut b: usize = 0;
    while b < blocks.len()
        invariant
            b <= blocks@.len(),
            blocks@.len() == f@.blocks.len(),
            forall|k: int|
                0 <= k < blocks@.len() ==> (#[trigger] blocks@[k]).label == f@.blocks[k].label
                    && blocks@[k].stmts@ == f@.blocks[k].stmts,
            r@ == head2 + blocks_text(tys, strs, f@.blocks, b as nat),
            tys == arena.tys_view(),
            strs == arena.strs_view(),
        decreases blocks@.len() - b,
    {
        let blk = &blocks[b];
        let ghost before = r@;
        r.append("\n");
        let ls = str_string(arena, blk.label);
        r.append(ls.as_str());
        r.append(":;");
        let ghost head3 = r@;
        let mut k: usize = 0;
        while k < blk.stmts.len()
            invariant
                k <= blk.stmts@.len(),
                r@ == head3 + stmts_text(tys, strs, blk.stmts@, k as nat),
                tys == arena.tys_view(),
                strs == arena.strs_view(),
            decreases blk.stmts@.len() - k,
        {
            r.append("\n  ");
            let ss = stmt_string(arena, &blk.stmts[k], true);
            r.append(ss.as_str());
            assert(r@ =~= head3 + stmts_text(tys, strs, blk.stmts@, (k + 1) as nat));
            k = k + 1;
        }
        assert(r@ =~= head2 + blocks_text(tys, strs, f@.blocks, (b + 1) as nat));
        b = b + 1;
    }
    r.append("\n}");
    assert(r@ =~= func_text(tys, strs, f@));
    r
}

/// The text of a whole module.
pub fn module_string(arena: &Arena, m: &Module) -> (r: String)
    ensures
        r@ == module_text(
            arena.tys_view(),
            arena.strs_view(),
            m.includes@,
            m.decls@,
            m.funcs@.map_values(|f: CFuncKind| f@),
        ),
{
    let ghost tys = arena.tys_view();
    let ghost strs = arena.strs_view();
    let ghost funcs = m.funcs@.map_values(|f: CFuncKind| f@);
    let mut r = String::new();
    let mut i: usize = 0;
    while i < m.includes.len()
        invariant
            i <= m.includes@.len(),
            r@ == includes_text(m.includes@, i as nat),
        decreases m.includes@.len() - i,
    {
        r.append("#include <");
        r.append(m.includes[i]);
        r.append(">\n");
        assert(r@ =~= includes_text(m.includes@, (i + 1) as nat));
        i = i + 1;
    }
    r.append("\n/* rustc_codegen_c: interface */\n");
    let ghost h1 = r@;
    let mut i: usize = 0;
    while i < m.decls.len()
        invariant
            i <= m.decls@.len(),
            r@ == h1 + decls_text(tys, strs, m.decls@, i as nat),
            tys == arena.tys_view(),
            strs == arena.strs_view(),
        decreases m.decls@.len() - i,
    {
        let ds = cdecl_string(arena, &m.decls[i], true);
        r.append(ds.as_str());
        r.append("\n");
        assert(r@ =~= h1 + decls_text(tys, strs, m.decls@, (i + 1) as nat));
        i = i + 1;
    }
    let ghost h2 = r@;
    let mut i: usize = 0;
    while i < m.funcs.len()
        invariant
            i <= m.funcs@.len(),
            funcs == m.funcs@.map_values(|f: CFuncKind| f@),
            r@ == h2 + protos_text(tys, strs, funcs, i as nat),
            tys == arena.tys_view(),
            strs == arena.strs_view(),
        decreases m.funcs@.len() - i,
    {
        let ss = func_sig_string(arena, &m.funcs[i]);
        r.append(ss.as_str());
        r.append(";\n");
        assert(funcs[i as int] == m.funcs@[i as int]@);
        assert(r@ =~= h2 + protos_text(tys, strs, funcs, (i + 1) as nat));
        i = i + 1;
    }
    r.append("\n/* rustc_codegen_c: implementation */\n");
    let ghost h3 = r@;
    let mut i: usize = 0;
    while i < m.funcs.len()
        invariant
            i <= m.funcs@.len(),
            funcs == m.funcs@.map_values(|f: CFuncKind| f@),
            r@ == h3 + bodies_text(tys, strs, funcs, i as nat),
            tys == arena.tys_view(),
            strs == arena.strs_view(),
        decreases m.funcs@.len() - i,
    {
        r.append("\n");
        let fs = func_string(arena, &m.funcs[i]);
        r.append(fs.as_str());
        r.append("\n");
        assert(funcs[i as int] == m.funcs@[i as int]@);
        assert(r@ =~= h3 + bodies_text(tys, strs, funcs, (i + 1) as nat));
        i = i + 1;
    }
    assert(r@ =~= module_text(tys, strs, m.includes@, m.decls@, funcs));
    r
}

/// Accumulates C source text.
pub struct Printer {
    out: String,
}

impl Printer {
    /// The text printed so far.
    pub closed spec fn text(&self) -> Seq<char> {
        self.out@
    }

    /// A printer with no text yet.
    pub fn new() -> (r: Printer)
        ensures
            r.text() == Seq::<char>::empty(),
    {
        Printer { out: String::new() }
    }

    /// The text printed.
    pub fn finish(self) -> (r: String)
        ensures
            r@ == self.text(),
    {
        self.out
    }

    /// Prints a value's name.
    pub fn print_value(&mut self, arena: &Arena, v: CValue)
        ensures
            final(self).text() == old(self).text() + value_text(arena.strs_view(), v),
    {
        let s = value_string(arena, v);
        self.out.append(s.as_str());
    }

    /// Prints a declaration of `val` with type `ty`, or the type alone.
    pub fn print_ty_decl(&mut self, arena: &Arena, ty: CTy, val: Option<&str>)
        ensures
            final(self).text() == old(self).text() + decl_text(
                arena.tys_view(),
                arena.strs_view(),
                ty,
                match val {
                    Some(v) => v@,
                    None => Seq::empty(),
                },
            ),
    {
        let d = match val {
            Some(v) => String::from_str(v),
            None => String::new(),
        };
        let s = decl_string(arena, ty, d);
        self.out.append(s.as_str());
    }

    /// Prints an expression.
    pub fn print_expr(&mut self, arena: &Arena, e: &CExprKind, outer: bool)
        ensures
            final(self).text() == old(self).text() + expr_text(
                arena.tys_view(),
                arena.strs_view(),
                *e,
                outer,
            ),
    {
        let s = expr_string(arena, e, outer);
        self.out.append(s.as_str());
    }

    /// Prints a declaration.
    pub fn print_decl(&mut self, arena: &Arena, d: &CDeclKind, trailing_semicolon: bool)
        ensures
            final(self).text() == old(self).text() + cdecl_text(
                arena.tys_view(),
                arena.strs_view(),
                *d,
                trailing_semicolon,
            ),
    {
        let s = cdecl_string(arena, d, trailing_semicolon);
        self.out.append(s.as_str());
    }

    /// Prints a statement.
    pub fn print_stmt(&mut self, arena: &Arena, stmt: &CStmtKind, trailing_semicolon: bool)
        ensures
            final(self).text() == old(self).text() + stmt_text(
                arena.tys_view(),
                arena.strs_view(),
                *stmt,
                trailing_semicolon,
            ),
    {
        let s = stmt_string(arena, stmt, trailing_semicolon);
        self.out.append(s.as_str());
    }

    /// Prints a function prototype.
    pub fn print_func_decl(&mut self, arena: &Arena, f: &CFuncKind)
        ensures
            final(self).text() == old(self).text() + func_sig_text(
                arena.tys_view(),
                arena.strs_view(),
                f@,
            ) + ";"@,
    {
        let s = func_sig_string(arena, f);
        self.out.append(s.as_str());
        self.out.append(";");
    }

    /// Prints a function definition.
    pub fn print_func(&mut self, arena: &Arena, f: &CFuncKind)
        ensures
            final(self).text() == old(self).text() + func_text(arena.tys_view(), arena.strs_view(), f@),
    {
        let s = func_string(arena, f);
        self.out.append(s.as_str());
    }

    /// Prints a module.
    pub fn print_module(&mut self, arena: &Arena, module: &Module)
        ensures
            final(self).text() == old(self).text() + module_text(
                arena.tys_view(),
                arena.strs_view(),
                module.includes@,
                module.decls@,
                module.funcs@.map_values(|f: CFuncKind| f@),
            ),
    {
        let s = module_string(arena, module);
        self.out.append(s.as_str());
    }
}

} // verus!
