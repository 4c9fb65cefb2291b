use rustc_codegen_c::c_module::{CPrimitiveType, CValue as FlatValue};
use rustc_codegen_c::expr::CValue;
use rustc_codegen_c::pretty::{decl_string, int_string, nat_string, value_string};
use rustc_codegen_c::slab::{Id, Slab};
use rustc_codegen_c::ty::{CPTy, CTy, CTyBase, CTyQuals, Conv, IntTy, UintTy};
use rustc_codegen_c::ModuleCtxt;

#[test]
fn interning_reuses_equal_types() {
    let mut mcx = ModuleCtxt::new();
    let i32t = mcx.int_ty(IntTy::I32);
    let u32t = mcx.uint_ty(UintTy::U32);
    let a = mcx.ptr(i32t);
    let b = mcx.ptr(i32t);
    let c = mcx.ptr(u32t);
    assert_eq!(a, b);
    assert_ne!(a, c);
    let f1 = mcx.fn_ptr(i32t, vec![a, u32t], Conv::Rust);
    let f2 = mcx.fn_ptr(i32t, vec![b, u32t], Conv::Rust);
    let f3 = mcx.fn_ptr(i32t, vec![b, u32t], Conv::C);
    assert_eq!(f1, f2);
    assert_ne!(f1, f3);
    let n = mcx.alloc_str("pair");
    let x = mcx.alloc_str("x");
    let s1 = mcx.struct_ty(Some(n), vec![(i32t, x)]);
    let s2 = mcx.struct_ty(Some(n), vec![(i32t, x)]);
    assert_eq!(s1, s2);
    assert_eq!(mcx.arena().num_tys(), 5);
}

#[test]
fn primitive_names() {
    assert_eq!(CPTy::I32.to_str(), "int32_t");
    assert_eq!(CPTy::Usize.to_str(), "uintptr_t");
    assert_eq!(CPTy::Bool.to_str(), "bool");
    assert_eq!(CPTy::I8.max_value(), "INT8_MAX");
    assert_eq!(CPTy::Isize.max_value(), "INTPTR_MAX");
    assert_eq!(CPTy::U64.max_value(), "UINT64_MAX");
    assert!(CPTy::I64.is_signed());
    assert!(!CPTy::U64.is_signed());
    assert!(!CPTy::Char.is_signed());
    assert_eq!(CPTy::I16.to_unsigned(), CPTy::U16);
    assert_eq!(CPTy::Isize.to_unsigned(), CPTy::Usize);
    assert!(CPTy::U8.is_integer());
    assert!(!CPTy::Void.is_integer());
}

#[test]
fn flat_primitive_types() {
    assert!(CPrimitiveType::I8.is_signed());
    assert!(!CPrimitiveType::Usize.is_signed());
    assert_eq!(CPrimitiveType::I64.to_unsigned(), CPrimitiveType::U64);
    assert_eq!(CPrimitiveType::Isize.to_str(), "ssize_t");
    assert_eq!(CPrimitiveType::U16.max_value(), "UINT16_MAX");
    assert_eq!(FlatValue::Local(7).to_text(), "_7");
    assert_eq!(FlatValue::Scalar(-12).to_text(), "-12");
}

#[test]
fn numbers_print_in_decimal() {
    assert_eq!(nat_string(0), "0");
    assert_eq!(nat_string(1234567890), "1234567890");
    assert_eq!(int_string(-1), "-1");
    assert_eq!(int_string(i128::MIN), i128::MIN.to_string());
    assert_eq!(int_string(i128::MAX), i128::MAX.to_string());
}

#[test]
fn values_print_by_kind() {
    let mut mcx = ModuleCtxt::new();
    let f = mcx.alloc_str("main");
    let g0 = mcx.next_global_var();
    let g1 = mcx.next_global_var();
    assert_eq!(g0, CValue::Global(0));
    assert_eq!(g1, CValue::Global(1));
    let a = mcx.arena();
    assert_eq!(value_string(a, CValue::Null), "NULL");
    assert_eq!(value_string(a, CValue::Scalar(42)), "42");
    assert_eq!(value_string(a, CValue::Local(3)), "_3");
    assert_eq!(value_string(a, g1), "_g1");
    assert_eq!(value_string(a, mcx.fn_ref(f)), "main");
    assert!(mcx.fn_ref(f).is_func());
    assert!(!mcx.scalar(1).is_func());
}

#[test]
fn declarators_follow_use() {
    let mut mcx = ModuleCtxt::new();
    let i32t = mcx.int_ty(IntTy::I32);
    let ch = mcx.char();
    let p = mcx.ptr(i32t);
    let pp = mcx.ptr(p);
    let arr = mcx.arr(i32t, Some(4));
    let parr = mcx.ptr(arr);
    let arrp = mcx.arr(p, None);
    let fnp = mcx.fn_ptr(i32t, vec![p, ch], Conv::C);
    let name = mcx.alloc_str("pair");
    let fx = mcx.alloc_str("x");
    let fy = mcx.alloc_str("y");
    let st = mcx.struct_ty(Some(name), vec![(i32t, fx), (p, fy)]);
    let alias_name = mcx.alloc_str("word_t");
    let al = mcx.alias(alias_name, i32t);
    let cst = CTy {
        base: CTyBase::Primitive(CPTy::Char),
        quals: CTyQuals { is_const: true, is_volatile: false, is_restrict: false },
    };
    let a = mcx.arena();
    let d = |t| decl_string(a, t, String::from("v"));
    assert_eq!(d(i32t), "int32_t v");
    assert_eq!(d(p), "int32_t *v");
    assert_eq!(d(pp), "int32_t **v");
    assert_eq!(d(arr), "int32_t v[4]");
    assert_eq!(d(parr), "int32_t (*v)[4]");
    assert_eq!(d(arrp), "int32_t *v[]");
    assert_eq!(d(fnp), "int32_t (*v)(int32_t *, char)");
    assert_eq!(d(st), "struct pair { int32_t x; int32_t *y; } v");
    assert_eq!(d(al), "word_t v");
    assert_eq!(d(cst), "const char v");
    assert_eq!(decl_string(a, p, String::new()), "int32_t *");
}

#[test]
fn slab_hands_out_positions() {
    let mut s: Slab<&str> = Slab::new();
    let a = s.insert("a");
    let b = s.insert("b");
    assert_eq!(a.index(), 0);
    assert_eq!(b.index(), 1);
    assert_eq!(s.get(b), Some(&"b"));
    assert_eq!(s.get(Id::new(2)), None);
    assert_eq!(s.iter(), &["a", "b"]);
}
