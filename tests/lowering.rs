use rustc_codegen_c::builder::{checked_helper, Builder, IntPredicate, OverflowOp, Value};
use rustc_codegen_c::expr::CValue;
use rustc_codegen_c::func::CFuncKind;
use rustc_codegen_c::stmt::{CDeclKind, CStmtKind};
use rustc_codegen_c::ty::{CPTy, CTy, Conv, IntTy, UintTy};
use rustc_codegen_c::ModuleCtxt;

fn function(mcx: &mut ModuleCtxt, name: &str, ret: CTy, args: Vec<CTy>) -> Builder {
    let fty = mcx.fn_ptr(ret, args, Conv::Rust);
    let name = mcx.alloc_str(name);
    let mut f = CFuncKind::new(name, fty, false, mcx.arena());
    let start = mcx.alloc_str("start");
    let bb = f.new_bb(start);
    Builder::build(f, bb)
}

fn finish(mcx: &mut ModuleCtxt, b: Builder) -> String {
    let f = b.into_func();
    let mut p = rustc_codegen_c::pretty::Printer::new();
    p.print_func(mcx.arena(), &f);
    mcx.module_mut().push_func(f);
    p.finish()
}

#[test]
fn arithmetic_chain_declares_two_locals() {
    let mut mcx = ModuleCtxt::new();
    let i32t = mcx.int_ty(IntTy::I32);
    let mut b = function(&mut mcx, "test_add", i32t, vec![i32t, i32t, i32t]);
    let x = b.get_param(0);
    let y = b.get_param(1);
    let z = b.get_param(2);
    let s = b.add(x, y);
    let t = b.add(s, z);
    assert_eq!(s, Value::RValue { cval: CValue::Local(3), ty: i32t });
    assert_eq!(t, Value::RValue { cval: CValue::Local(4), ty: i32t });
    b.ret(t);
    let text = finish(&mut mcx, b);
    assert_eq!(
        text,
        "int32_t test_add(int32_t _0, int32_t _1, int32_t _2) {\n\
         start:;\n  \
         int32_t _3 = (_0 + _1);\n  \
         int32_t _4 = (_3 + _2);\n  \
         return _4;\n\
         }"
    );
}

#[test]
fn sub_and_mul_chains() {
    let mut mcx = ModuleCtxt::new();
    let i32t = mcx.int_ty(IntTy::I32);
    let mut b = function(&mut mcx, "test_sub_mul", i32t, vec![i32t, i32t, i32t]);
    let x = b.get_param(0);
    let y = b.get_param(1);
    let z = b.get_param(2);
    let s = b.sub(x, y);
    let t = b.mul(s, z);
    b.ret(t);
    let text = finish(&mut mcx, b);
    assert!(text.contains("int32_t _3 = (_0 - _1);\n  int32_t _4 = (_3 * _2);"));
}

#[test]
fn conditional_branch_uses_labels_once() {
    let mut mcx = ModuleCtxt::new();
    let i32t = mcx.int_ty(IntTy::I32);
    let mut b = function(&mut mcx, "test_cond", i32t, vec![i32t, i32t]);
    let then_bb = b.append_block(&mut mcx, "bb1");
    let else_bb = b.append_block(&mut mcx, "bb2");
    let x = b.get_param(0);
    let y = b.get_param(1);
    let c = b.icmp(IntPredicate::IntEQ, x, y);
    assert_eq!(c, Value::RValue { cval: CValue::Local(2), ty: CTy::primitive(CPTy::Bool) });
    b.cond_br(c, then_bb, else_bb);
    b.switch_to_block(then_bb);
    b.ret(x);
    b.switch_to_block(else_bb);
    b.ret(y);
    let text = finish(&mut mcx, b);
    assert_eq!(
        text,
        "int32_t test_cond(int32_t _0, int32_t _1) {\n\
         start:;\n  \
         bool _2 = (_0 == _1);\n  \
         if (_2) { goto bb1; } else { goto bb2; }\n\
         bb1:;\n  \
         return _0;\n\
         bb2:;\n  \
         return _1;\n\
         }"
    );
    assert_eq!(text.matches("\nbb1:;").count(), 1);
    assert_eq!(text.matches("\nbb2:;").count(), 1);
}

#[test]
fn comparisons_map_to_c_operators() {
    let preds = [
        (IntPredicate::IntEQ, "=="),
        (IntPredicate::IntNE, "!="),
        (IntPredicate::IntUGT, ">"),
        (IntPredicate::IntUGE, ">="),
        (IntPredicate::IntULT, "<"),
        (IntPredicate::IntULE, "<="),
        (IntPredicate::IntSGT, ">"),
        (IntPredicate::IntSGE, ">="),
        (IntPredicate::IntSLT, "<"),
        (IntPredicate::IntSLE, "<="),
    ];
    for (pred, op) in preds {
        let mut mcx = ModuleCtxt::new();
        let u8t = mcx.uint_ty(UintTy::U8);
        let mut b = function(&mut mcx, "f", u8t, vec![u8t, u8t]);
        let x = b.get_param(0);
        let y = b.get_param(1);
        let c = b.icmp(pred, x, y);
        let _ = c;
        let text = finish(&mut mcx, b);
        assert!(text.contains(&format!("bool _2 = (_0 {} _1);", op)), "{}", text);
    }
}

#[test]
fn checked_helpers_cover_every_integer_type() {
    let tys = [
        (CPTy::I8, "i8"),
        (CPTy::I16, "i16"),
        (CPTy::I32, "i32"),
        (CPTy::I64, "i64"),
        (CPTy::Isize, "intptr"),
        (CPTy::U8, "u8"),
        (CPTy::U16, "u16"),
        (CPTy::U32, "u32"),
        (CPTy::U64, "u64"),
        (CPTy::Usize, "uintptr"),
    ];
    let ops = [(OverflowOp::Add, "add"), (OverflowOp::Sub, "sub"), (OverflowOp::Mul, "mul")];
    let mut seen = std::collections::HashSet::new();
    for (op, op_name) in ops {
        for (ty, ty_name) in tys {
            let name = checked_helper(op, ty);
            assert_eq!(name, format!("__rust_ckd_{}_{}", op_name, ty_name));
            seen.insert(name);
        }
    }
    assert_eq!(seen.len(), 30);
}

#[test]
fn checked_binop_declares_result_and_flag() {
    let mut mcx = ModuleCtxt::new();
    let i64t = mcx.int_ty(IntTy::I64);
    let mut b = function(&mut mcx, "f", i64t, vec![i64t, i64t]);
    let x = b.get_param(0);
    let y = b.get_param(1);
    let (r, o) = b.checked_binop(OverflowOp::Mul, CPTy::I64, x, y);
    assert_eq!(r, Value::RValue { cval: CValue::Local(2), ty: i64t });
    assert_eq!(o, Value::RValue { cval: CValue::Local(3), ty: CTy::primitive(CPTy::Bool) });
    b.ret(r);
    let text = finish(&mut mcx, b);
    assert!(text.contains(
        "  int64_t _2;\n  bool _3 = __rust_ckd_mul_i64(_0, _1, &_2);\n  return _2;"
    ));
}

#[test]
fn signed_cast_goes_through_unsigned() {
    let mut mcx = ModuleCtxt::new();
    let i32t = mcx.int_ty(IntTy::I32);
    let u32t = mcx.uint_ty(UintTy::U32);
    let mut b = function(&mut mcx, "f", i32t, vec![]);
    let v = Value::RValue { cval: mcx.scalar(4294967295), ty: u32t };
    let r = b.intcast(v, i32t, false);
    b.ret(r);
    let text = finish(&mut mcx, b);
    assert!(text.contains(
        "int32_t _0 = __rust_utos(uint32_t, int32_t, (uint32_t) 4294967295, INT32_MAX);"
    ));
    // The helper's reinterpretation: 4294967295 read as a 32-bit signed value.
    let u: i64 = 4294967295 % (1i64 << 32);
    let s = if u > (1i64 << 31) - 1 { u - (1i64 << 32) } else { u };
    assert_eq!(s, -1);
    assert_eq!(s, 4294967295u32 as i32 as i64);
}

#[test]
fn unsigned_cast_is_plain() {
    let mut mcx = ModuleCtxt::new();
    let i32t = mcx.int_ty(IntTy::I32);
    let u8t = mcx.uint_ty(UintTy::U8);
    let mut b = function(&mut mcx, "f", u8t, vec![i32t]);
    let x = b.get_param(0);
    let r = b.intcast(x, u8t, true);
    b.ret(r);
    let text = finish(&mut mcx, b);
    assert!(text.contains("uint8_t _1 = ((uint8_t) _0);"), "{}", text);
}

#[test]
fn isize_cast_uses_intptr_names() {
    let mut mcx = ModuleCtxt::new();
    let isz = mcx.int_ty(IntTy::Isize);
    let u64t = mcx.uint_ty(UintTy::U64);
    let mut b = function(&mut mcx, "f", isz, vec![u64t]);
    let x = b.get_param(0);
    let r = b.intcast(x, isz, false);
    b.ret(r);
    let text = finish(&mut mcx, b);
    assert!(text.contains("intptr_t _1 = __rust_utos(uintptr_t, intptr_t, (uintptr_t) _0, INTPTR_MAX);"));
}

#[test]
fn pending_allocation_protocol() {
    let mut mcx = ModuleCtxt::new();
    let i32t = mcx.int_ty(IntTy::I32);
    let u32t = mcx.uint_ty(UintTy::U32);
    let mut b = function(&mut mcx, "f", i32t, vec![]);
    let slot = b.alloca(&mut mcx, 4);
    assert_eq!(slot, Value::LValue { cval: CValue::Local(0) });
    assert!(b.func.can_realize(slot.cval(), i32t));
    assert!(b.func.can_realize(slot.cval(), u32t));
    assert_eq!(b.realize(&mut mcx, slot, i32t), slot);
    assert!(b.func.can_realize(slot.cval(), i32t));
    assert_eq!(b.realize(&mut mcx, slot, i32t), slot);
    assert!(!b.func.can_realize(slot.cval(), u32t));
    let other = b.alloca(&mut mcx, 8);
    let v = b.load(i32t, slot);
    assert_eq!(v, slot);
    b.ret(Value::RValue { cval: CValue::Local(0), ty: i32t });
    let _ = other;
    let text = finish(&mut mcx, b);
    assert!(text.contains("{\n  int32_t _0;\n  char _1[8];\nstart:;"), "{}", text);
}

#[test]
fn realizing_an_unknown_local_fails() {
    let mut mcx = ModuleCtxt::new();
    let i32t = mcx.int_ty(IntTy::I32);
    let mut b = function(&mut mcx, "f", i32t, vec![i32t]);
    assert!(!b.func.can_realize(CValue::Local(0), i32t));
    assert!(!b.func.can_realize(CValue::Null, i32t));
    let slot = b.alloca(&mut mcx, 4);
    assert!(!b.func.can_realize(CValue::Local(2), i32t));
    assert!(b.func.can_realize(slot.cval(), i32t));
}

#[test]
fn pointer_place_is_cast_on_realize() {
    let mut mcx = ModuleCtxt::new();
    let i32t = mcx.int_ty(IntTy::I32);
    let isz = mcx.int_ty(IntTy::Isize);
    let mut b = function(&mut mcx, "f", i32t, vec![isz]);
    let p = b.get_param(0);
    let r = b.realize(&mut mcx, p, i32t);
    let pi32 = mcx.ptr(i32t);
    assert_eq!(r, Value::RValue { cval: CValue::Local(1), ty: pi32 });
    let v = b.load(i32t, r);
    b.ret(v);
    let text = finish(&mut mcx, b);
    assert!(text.contains("int32_t *_1 = ((int32_t *) _0);\n  int32_t _2 = (*_1);"), "{}", text);
}

#[test]
fn calls_cast_arguments_and_bind_results() {
    let mut mcx = ModuleCtxt::new();
    let i32t = mcx.int_ty(IntTy::I32);
    let isz = mcx.int_ty(IntTy::Isize);
    let ch = mcx.char();
    let pch = mcx.ptr(ch);
    let void = mcx.void();
    let puts_ty = mcx.fn_ptr(i32t, vec![pch], Conv::C);
    let free_ty = mcx.fn_ptr(void, vec![pch], Conv::C);
    let puts = mcx.alloc_str("puts");
    let free = mcx.alloc_str("free");
    let mut b = function(&mut mcx, "f", i32t, vec![isz]);
    let p = b.get_param(0);
    let r = b.call(&mcx, puts_ty, Value::RValue { cval: CValue::Func(puts), ty: puts_ty }, &vec![p]);
    assert_eq!(r, Value::RValue { cval: CValue::Local(2), ty: i32t });
    let n = b.call(&mcx, free_ty, Value::RValue { cval: CValue::Func(free), ty: free_ty }, &vec![p]);
    assert_eq!(n, Value::RValue { cval: CValue::Null, ty: void });
    b.ret(r);
    let text = finish(&mut mcx, b);
    assert!(text.contains(
        "  char *_1 = ((char *) _0);\n  int32_t _2 = puts(_1);\n  char *_3 = ((char *) _0);\n  free(_3);\n  return _2;"
    ), "{}", text);
}

#[test]
fn internal_calls_pass_arguments_unmodified() {
    let mut mcx = ModuleCtxt::new();
    let i32t = mcx.int_ty(IntTy::I32);
    let u32t = mcx.uint_ty(UintTy::U32);
    let gty = mcx.fn_ptr(i32t, vec![i32t], Conv::Rust);
    let g = mcx.alloc_str("g");
    let mut b = function(&mut mcx, "f", i32t, vec![u32t]);
    let p = b.get_param(0);
    let r = b.call(&mcx, gty, Value::RValue { cval: CValue::Func(g), ty: gty }, &vec![p]);
    assert_eq!(r, Value::RValue { cval: CValue::Local(1), ty: i32t });
    b.ret(r);
    let text = finish(&mut mcx, b);
    assert!(text.contains("start:;\n  int32_t _1 = g(_0);\n  return _1;"), "{}", text);
}

#[test]
fn store_gep_and_fill() {
    let mut mcx = ModuleCtxt::new();
    let u8t = mcx.uint_ty(UintTy::U8);
    let isz = mcx.int_ty(IntTy::Isize);
    let void = mcx.void();
    let mut b = function(&mut mcx, "f", void, vec![isz, u8t]);
    let p = b.get_param(0);
    let v = b.get_param(1);
    let e = b.inbounds_gep(&mut mcx, u8t, p, v);
    b.store(v, e);
    b.write_operand_repeatedly(v, 16, p);
    b.ret_void();
    let text = finish(&mut mcx, b);
    assert!(text.contains("uint8_t *_2 = ((uint8_t *) _0);"), "{}", text);
    assert!(text.contains("uint8_t *_3 = (&_2[_1]);"), "{}", text);
    assert!(text.contains("(*_3) = _1;"), "{}", text);
    assert!(text.contains("for (uintptr_t _4 = 0; _4 < 16; ++_4) { _0[_4] = _1; }"), "{}", text);
    assert!(text.ends_with("return;\n}"), "{}", text);
}

#[test]
fn statements_are_recorded_in_blocks() {
    let mut mcx = ModuleCtxt::new();
    let i32t = mcx.int_ty(IntTy::I32);
    let mut b = function(&mut mcx, "f", i32t, vec![i32t]);
    let x = b.get_param(0);
    let y = b.unary("-", x);
    b.ret(y);
    let f = b.into_func();
    let blocks = f.blocks();
    assert_eq!(blocks.len(), 1);
    assert_eq!(blocks[0].stmts.len(), 2);
    match &blocks[0].stmts[0] {
        CStmtKind::Decl(d) => match &**d {
            CDeclKind::Var { name, ty, .. } => {
                assert_eq!(*name, CValue::Local(1));
                assert_eq!(*ty, i32t);
            }
            _ => panic!("expected a variable"),
        },
        _ => panic!("expected a declaration"),
    }
}
