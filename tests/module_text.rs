use rustc_codegen_c::builder::Builder;
use rustc_codegen_c::expr::CValue;
use rustc_codegen_c::func::CFuncKind;
use rustc_codegen_c::ty::{Conv, IntTy};
use rustc_codegen_c::ModuleCtxt;

#[test]
fn module_prints_interface_then_implementation() {
    let mut mcx = ModuleCtxt::new();
    mcx.module_mut().push_includes(&["stdint.h", "stdbool.h"]);
    let i32t = mcx.int_ty(IntTy::I32);
    let ch = mcx.char();
    let data_ty = mcx.arr(ch, None);
    let g = mcx.next_global_var();
    let b0 = mcx.scalar(104);
    let b1 = mcx.scalar(105);
    let init = mcx.init_list(rustc_codegen_c::expr::CExprList::Cons(
        Box::new(mcx.value(b0)),
        Box::new(rustc_codegen_c::expr::CExprList::Cons(
            Box::new(mcx.value(b1)),
            Box::new(rustc_codegen_c::expr::CExprList::Nil),
        )),
    ));
    let decl = mcx.var(g, data_ty, Some(init));
    mcx.module_mut().push_decl(decl);
    let ext_ty = mcx.fn_ptr(i32t, vec![i32t], Conv::C);
    let ext = mcx.alloc_str("abs");
    let proto = mcx.func(ext, ext_ty);
    mcx.module_mut().push_decl(proto);

    let main_ty = mcx.fn_ptr(i32t, vec![], Conv::Rust);
    let main = mcx.alloc_str("main");
    let mut f = CFuncKind::new(main, main_ty, true, mcx.arena());
    let start = mcx.alloc_str("start");
    let bb = f.new_bb(start);
    let mut b = Builder::build(f, bb);
    let zero = mcx.scalar(42);
    b.ret(rustc_codegen_c::builder::Value::RValue { cval: zero, ty: i32t });
    let f = b.into_func();
    mcx.module_mut().push_func(f);

    assert_eq!(
        mcx.to_text(),
        "#include <stdint.h>\n\
         #include <stdbool.h>\n\
         \n\
         /* rustc_codegen_c: interface */\n\
         char _g0[] = {104, 105};\n\
         int32_t abs(int32_t);\n\
         int main();\n\
         \n\
         /* rustc_codegen_c: implementation */\n\
         \n\
         int main() {\n\
         start:;\n  \
         return 42;\n\
         }\n"
    );
    assert_eq!(g, CValue::Global(0));
}
