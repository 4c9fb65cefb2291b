use vstd::prelude::*;

use crate::func::CFuncKind;

use crate::stmt::CDeclKind;

verus! {

/// A C translation unit: includes, top-level declarations, then functions.
pub struct Module {
    pub includes: Vec<&'static str>,
    pub decls: Vec<CDeclKind>,
    pub funcs: Vec<CFuncKind>,
}

impl Module {
    /// An empty module.
    pub fn new() -> (r: Module)
        ensures
            r.includes@ == Seq::<&'static str>::empty(),
            r.decls@.len() == 0,
            r.funcs@.len() == 0,
    {
        Module { includes: Vec::new(), decls: Vec::new(), funcs: Vec::new() }
    }

    /// Appends headers to include, in order.
    pub fn push_includes(&mut self, includes: &[&'static str])
        ensures
            final(self).includes@ == old(self).includes@ + includes@,
            final(self).decls@ == old(self).decls@,
            final(self).funcs@ == old(self).funcs@,
    {
        let mut i: usize = 0;
        while i < includes.len()
            invariant
                i <= includes@.len(),
                self.includes@ == old(self).includes@ + includes@.subrange(0, i as int),
                self.decls@ == old(self).decls@,
                self.funcs@ == old(self).funcs@,
            decreases includes@.len() - i,
        {
            self.includes.push(includes[i]);
            assert(includes@.subrange(0, i + 1) =~= includes@.subrange(0, i as int).push(includes@[i as int]));
            i = i + 1;
        }
        assert(includes@.subrange(0, includes@.len() as int) =~= includes@);
    }

    /// Appends a top-level declaration.
    pub fn push_decl(&mut self, decl: CDeclKind)
        ensures
            final(self).decls@ == old(self).decls@.push(decl),
            final(self).includes@ == old(self).includes@,
            final(self).funcs@ == old(self).funcs@,
    {
        self.decls.push(decl);
    }

    /// Appends a function definition.
    pub fn push_func(&mut self, func: CFuncKind)
        ensures
            final(self).funcs@ == old(self).funcs@.push(func),
            final(self).includes@ == old(self).includes@,
            final(self).decls@ == old(self).decls@,
    {
        self.funcs.push(func);
    }
}

} // verus!
