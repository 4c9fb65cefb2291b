use rustc_codegen_c::abi::{
    fn_decl_backend_type, layout_cty, pair_element_cty, scalar_cty, Integer, LayoutShape, PassMode,
    Primitive, ScalarTy, Unsupported,
};
use rustc_codegen_c::builder::{Builder, Value};
use rustc_codegen_c::func::CFuncKind;
use rustc_codegen_c::context::{sanitize_symbol, FnTable, NameManager};
use rustc_codegen_c::expr::CValue;
use rustc_codegen_c::pretty::decl_string;
use rustc_codegen_c::ty::{CPTy, CTy, Conv, IntTy, UintTy};
use rustc_codegen_c::ModuleCtxt;

#[test]
fn constant_data_is_a_global_byte_array() {
    let mut mcx = ModuleCtxt::new();
    mcx.push_standard_includes();
    let (v, ty) = mcx.const_data(&vec![104, 105, 0], false);
    assert_eq!(v, CValue::Global(0));
    let (w, ty2) = mcx.const_data(&vec![1], true);
    assert_eq!(w, CValue::Global(1));
    assert_ne!(ty, ty2);
    let text = mcx.to_text();
    assert!(text.starts_with(
        "#include <stdlib.h>\n#include <stdint.h>\n#include <stddef.h>\n#include <stdbool.h>\n#include <rust_runtime.h>\n"
    ));
    assert!(text.contains("const char _g0[] = {104, 105, 0};\nchar _g1[] = {1};\n"), "{}", text);
}

#[test]
fn symbols_become_identifiers() {
    assert_eq!(sanitize_symbol("_ZN4core3fmt5write17h.llvm.123"), "_ZN4core3fmt5write17h_llvm_123");
    assert_eq!(sanitize_symbol("main"), "main");
    assert_eq!(sanitize_symbol(""), "");
}

#[test]
fn functions_are_declared_once() {
    let mut mcx = ModuleCtxt::new();
    let i32t = mcx.int_ty(IntTy::I32);
    let fty = mcx.fn_ptr(i32t, vec![i32t], Conv::C);
    let mut fns = FnTable::new();
    let f = fns.predefine_fn(&mut mcx, "my.fn", fty, false);
    assert_eq!(mcx.arena().get_str(f.name_id()), "my_fn");
    let a = fns.get_fn_addr(&mut mcx, "abs", fty);
    let b = fns.get_fn_addr(&mut mcx, "abs", fty);
    assert_eq!(a, b);
    assert_eq!(mcx.module().decls.len(), 1);
    let d = fns.get_fn_addr(&mut mcx, "my_fn", fty);
    assert_eq!(d, Value::RValue { cval: CValue::Func(f.name_id()), ty: fty });
    assert_eq!(mcx.module().decls.len(), 1);
    assert!(mcx.to_text().contains("int32_t abs(int32_t);\n"));
}

#[test]
fn main_signature_is_fixed() {
    let mut mcx = ModuleCtxt::new();
    let i32t = mcx.int_ty(IntTy::I32);
    let ch = mcx.char();
    let pch = mcx.ptr(ch);
    let ppch = mcx.ptr(pch);
    let fty = mcx.fn_ptr(i32t, vec![i32t, ppch], Conv::C);
    let mut fns = FnTable::new();
    let f = fns.predefine_fn(&mut mcx, "main", fty, true);
    let mut p = rustc_codegen_c::pretty::Printer::new();
    p.print_func_decl(mcx.arena(), &f);
    assert_eq!(p.finish(), "int main(int _0, char** _1);");
}

#[test]
fn scalars_follow_the_calling_convention() {
    let mut mcx = ModuleCtxt::new();
    let i8t = mcx.int_ty(IntTy::I8);
    assert_eq!(scalar_cty(&mut mcx, ScalarTy::Bool, Conv::Rust), Ok(CTy::primitive(CPTy::Bool)));
    assert_eq!(scalar_cty(&mut mcx, ScalarTy::Char, Conv::Rust), Ok(CTy::primitive(CPTy::I32)));
    assert_eq!(
        scalar_cty(&mut mcx, ScalarTy::Uint(UintTy::U16), Conv::C),
        Ok(CTy::primitive(CPTy::U16))
    );
    assert_eq!(
        scalar_cty(&mut mcx, ScalarTy::RawPtr(i8t), Conv::Rust),
        Ok(CTy::primitive(CPTy::Isize))
    );
    let p = scalar_cty(&mut mcx, ScalarTy::RawPtr(i8t), Conv::C).unwrap();
    assert_eq!(p, mcx.ptr(i8t));
    let r = scalar_cty(&mut mcx, ScalarTy::Ref(i8t), Conv::Rust).unwrap();
    assert_eq!(r, p);
    assert_eq!(scalar_cty(&mut mcx, ScalarTy::CVoid, Conv::C), Ok(CTy::primitive(CPTy::Void)));
    assert_eq!(
        scalar_cty(&mut mcx, ScalarTy::Int(IntTy::I128), Conv::C),
        Err(Unsupported::Int128)
    );
    assert_eq!(
        scalar_cty(&mut mcx, ScalarTy::Uint(UintTy::U128), Conv::C),
        Err(Unsupported::Int128)
    );
}

#[test]
fn signatures_skip_ignored_and_split_pairs() {
    let mut mcx = ModuleCtxt::new();
    let i32t = mcx.int_ty(IntTy::I32);
    let u8t = mcx.uint_ty(UintTy::U8);
    let isz = mcx.int_ty(IntTy::Isize);
    let modes = vec![PassMode::Direct(i32t), PassMode::Ignore, PassMode::Pair(isz, u8t)];
    let f = fn_decl_backend_type(&mut mcx, &modes, i32t, Conv::Rust, false).unwrap();
    assert_eq!(f, mcx.fn_ptr(i32t, vec![i32t, isz, u8t], Conv::Rust));
    assert_eq!(
        decl_string(mcx.arena(), f, String::from("g")),
        "int32_t (*g)(int32_t, intptr_t, uint8_t)"
    );
    assert_eq!(
        fn_decl_backend_type(&mut mcx, &vec![PassMode::Indirect], i32t, Conv::Rust, false),
        Err(Unsupported::PassMode)
    );
    assert_eq!(
        fn_decl_backend_type(&mut mcx, &vec![PassMode::Cast], i32t, Conv::Rust, false),
        Err(Unsupported::PassMode)
    );
    assert_eq!(
        fn_decl_backend_type(&mut mcx, &vec![], i32t, Conv::C, true),
        Err(Unsupported::Variadic)
    );
}

#[test]
fn pair_elements_and_layouts() {
    let mut mcx = ModuleCtxt::new();
    assert_eq!(
        pair_element_cty(&mut mcx, Primitive::Int(Integer::I16, true)),
        Ok(CTy::primitive(CPTy::I16))
    );
    assert_eq!(
        pair_element_cty(&mut mcx, Primitive::Int(Integer::I64, false)),
        Ok(CTy::primitive(CPTy::U64))
    );
    assert_eq!(
        pair_element_cty(&mut mcx, Primitive::Int(Integer::I128, false)),
        Err(Unsupported::Int128)
    );
    assert_eq!(pair_element_cty(&mut mcx, Primitive::Float), Err(Unsupported::Float));
    let vp = pair_element_cty(&mut mcx, Primitive::Pointer).unwrap();
    assert_eq!(decl_string(mcx.arena(), vp, String::new()), "void *");
    let i32t = mcx.int_ty(IntTy::I32);
    let a = layout_cty(&mut mcx, LayoutShape::Array(i32t, 3), Conv::Rust).unwrap();
    assert_eq!(decl_string(mcx.arena(), a, String::from("x")), "int32_t x[3]");
    assert_eq!(layout_cty(&mut mcx, LayoutShape::Array(i32t, 0), Conv::Rust), Err(Unsupported::Shape));
    assert_eq!(layout_cty(&mut mcx, LayoutShape::Uninhabited, Conv::Rust), Ok(CTy::primitive(CPTy::Void)));
    assert_eq!(layout_cty(&mut mcx, LayoutShape::Aggregate, Conv::Rust), Ok(CTy::primitive(CPTy::Void)));
    assert_eq!(layout_cty(&mut mcx, LayoutShape::ScalarPair, Conv::Rust), Err(Unsupported::Shape));
    assert_eq!(layout_cty(&mut mcx, LayoutShape::Vector, Conv::C), Err(Unsupported::Shape));
    assert_eq!(
        layout_cty(&mut mcx, LayoutShape::Scalar(ScalarTy::Char), Conv::C),
        Ok(CTy::primitive(CPTy::I32))
    );
}

#[test]
fn operands_are_realized_then_loaded() {
    let mut mcx = ModuleCtxt::new();
    let i32t = mcx.int_ty(IntTy::I32);
    let u8t = mcx.uint_ty(UintTy::U8);
    let isz = mcx.int_ty(IntTy::Isize);
    let fty = mcx.fn_ptr(i32t, vec![isz], Conv::Rust);
    let name = mcx.alloc_str("f");
    let mut f = CFuncKind::new(name, fty, false, mcx.arena());
    let l = mcx.alloc_str("start");
    let bb = f.new_bb(l);
    let mut b = Builder::build(f, bb);
    let slot = b.alloca(&mut mcx, 4);
    assert_eq!(b.load_operand(&mut mcx, slot, i32t), slot);
    assert!(!b.func.can_realize(slot.cval(), u8t));
    let p = b.get_param(0);
    let v = b.load_operand(&mut mcx, p, u8t);
    assert_eq!(v, Value::RValue { cval: CValue::Local(3), ty: u8t });
}

#[test]
fn names_are_made_unique() {
    let mut mcx = ModuleCtxt::new();
    let mut names = NameManager::new();
    let a = names.intern("tmp", &mut mcx);
    let b = names.intern("tmp", &mut mcx);
    let c = names.intern("tmp", &mut mcx);
    let d = names.intern("tmp_1", &mut mcx);
    let e = names.intern("x", &mut mcx);
    let arena = mcx.arena();
    assert_eq!(arena.get_str(a), "tmp");
    assert_eq!(arena.get_str(b), "tmp_1");
    assert_eq!(arena.get_str(c), "tmp_2");
    assert_eq!(arena.get_str(d), "tmp_1_1");
    assert_eq!(arena.get_str(e), "x");
}

#[test]
fn struct_queries_and_qualifiers() {
    let mut mcx = ModuleCtxt::new();
    let i32t = mcx.int_ty(IntTy::I32);
    let x = mcx.alloc_str("x");
    let st = mcx.struct_ty(None, vec![(i32t, x)]);
    let an = mcx.alloc_str("s_t");
    let al = mcx.alias(an, st);
    assert!(st.is_struct(mcx.arena()));
    assert!(al.is_struct(mcx.arena()));
    assert!(!i32t.is_struct(mcx.arena()));
    assert_eq!(al.fields(mcx.arena()).unwrap(), &vec![(i32t, x)]);
    assert!(i32t.fields(mcx.arena()).is_none());
    let c = i32t.to_const_if(true).to_volatile_if(false).to_restrict_if(true);
    assert!(c.quals.is_const && !c.quals.is_volatile && c.quals.is_restrict);
    assert_eq!(i32t.to_const_if(false), i32t);
    assert_eq!(decl_string(mcx.arena(), i32t.to_const_if(true), String::from("k")), "const int32_t k");
}

#[test]
fn fresh_arena_starts_globals_at_zero() {
    let mut mcx = ModuleCtxt(rustc_codegen_c::ModuleArena::new());
    assert_eq!(mcx.next_global_var(), CValue::Global(0));
    assert_eq!(mcx.next_global_var(), CValue::Global(1));
}
