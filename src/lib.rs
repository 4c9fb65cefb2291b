//! A C backend core: an arena-owned C syntax tree with structurally interned
//! types, the rules that lower typed SSA operations into it, and a printer that
//! renders a module as C source text.

use vstd::prelude::*;

pub mod abi;
pub mod arena;
pub mod bootstrap;
pub mod builder;
pub mod c_module;
pub mod config;
pub mod context;
pub mod expr;
pub mod func;
pub mod module;
pub mod pretty;
pub mod slab;
pub mod stmt;
pub mod ty;

use crate::arena::Arena;
use crate::module::Module;
use crate::ty::{CTyKindV, StrId};

verus! {

/// Serialized module data for link-time optimization, which this backend
/// does not perform.
pub struct ModuleBuffer;

/// Serialized summary data for thin link-time optimization, which this
/// backend does not perform.
pub struct ThinBuffer;

/// Everything one translation unit owns while it is lowered and printed.
pub struct ModuleArena {
    pub arena: Arena,
    pub module: Module,
    /// The index of the next fresh module-level variable.
    pub global_var_counter: usize,
}

impl ModuleArena {
    /// An empty arena and module.
    pub fn new() -> (r: ModuleArena)
        ensures
            r.arena.wf(),
            r.arena.strs_view() == Seq::<Seq<char>>::empty(),
            r.arena.tys_view() == Seq::<CTyKindV>::empty(),
            r.module.includes@ == Seq::<&'static str>::empty(),
            r.module.decls@.len() == 0,
            r.module.funcs@.len() == 0,
            r.global_var_counter == 0,
    {
        ModuleArena { arena: Arena::new(), module: Module::new(), global_var_counter: 0 }
    }
}

/// The context through which a module is built.
pub struct ModuleCtxt(pub ModuleArena);

impl ModuleCtxt {
    /// The next fresh module-level variable index.
    pub open spec fn next_global_spec(&self) -> nat {
        self.0.global_var_counter as nat
    }

    pub open spec fn wf(&self) -> bool {
        self.0.arena.wf()
    }

    /// The interned compound types.
    pub open spec fn tys(&self) -> Seq<CTyKindV> {
        self.0.arena.tys_view()
    }

    /// The strings owned by the arena.
    pub open spec fn strs(&self) -> Seq<Seq<char>> {
        self.0.arena.strs_view()
    }

    /// A context over a fresh arena and an empty module.
    pub fn new() -> (r: ModuleCtxt)
        ensures
            r.wf(),
            r.tys() == Seq::<CTyKindV>::empty(),
            r.strs() == Seq::<Seq<char>>::empty(),
            r.next_global_spec() == 0,
            r.0.module.includes@ == Seq::<&'static str>::empty(),
            r.0.module.decls@.len() == 0,
            r.0.module.funcs@.len() == 0,
    {
        ModuleCtxt(ModuleArena::new())
    }

    /// The arena that owns the module's strings and types.
    pub fn arena(&self) -> (r: &Arena)
        ensures
            r == &self.0.arena,
    {
        &self.0.arena
    }

    /// The module being built.
    pub fn module(&self) -> (r: &Module)
        ensures
            r == &self.0.module,
    {
        &self.0.module
    }

    /// The module being built, for changes.
    pub fn module_mut(&mut self) -> (r: &mut Module)
        ensures
            *r == old(self).0.module,
            final(self).0.module == *final(r),
            final(self).0.arena == old(self).0.arena,
            final(self).next_global_spec() == old(self).next_global_spec(),
    {
        &mut self.0.module
    }

    /// The module rendered as C source text.
    pub fn to_text(&self) -> (r: String)
        ensures
            r@ == crate::pretty::module_text(
                self.tys(),
                self.strs(),
                self.0.module.includes@,
                self.0.module.decls@,
                self.0.module.funcs@.map_values(|f: crate::func::CFuncKind| f@),
            ),
    {
        crate::pretty::module_string(&self.0.arena, &self.0.module)
    }

    /// Stores a copy of a string in the arena.
    pub fn alloc_str(&mut self, s: &str) -> (r: StrId)
        ensures
            r.index == old(self).strs().len(),
            final(self).strs() == old(self).strs().push(s@),
            final(self).tys() == old(self).tys(),
            final(self).wf() == old(self).wf(),
            final(self).0.module == old(self).0.module,
            final(self).next_global_spec() == old(self).next_global_spec(),
    {
        self.0.arena.alloc_str(s)
    }
}

} // verus!
