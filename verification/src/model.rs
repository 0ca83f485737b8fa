//! The declaration-tree model: the facts the translation reads from one
//! node of the externally parsed C++ header, as plain values. The parser
//! session owns the real tree; one conversion pass hands the core these
//! values and nothing of the tree is retained.
use vstd::prelude::*;
use crate::types::CppType;

verus! {

/// One parameter descriptor: an optional display name (a missing name is
/// cosmetic for bindings, fatal for glue) and the canonical type.
#[derive(Debug)]
pub struct Param {
    pub name: Option<String>,
    pub ty: CppType,
}

/// A node of the declaration tree, one case per declaration kind the
/// translation handles; everything else is `Other` and contributes no
/// items.
#[derive(Debug)]
pub enum Entity {
    TranslationUnit { children: Vec<Entity> },
    Namespace { name: String, comment: Option<String>, children: Vec<Entity> },
    Function {
        name: String,
        mangled: Option<String>,
        is_inline: bool,
        result: Option<CppType>,
        params: Vec<Param>,
        comment: Option<String>,
    },
    Class { name: String, comment: Option<String>, children: Vec<Entity> },
    Field { name: String, is_public: bool, ty: CppType },
    Constructor { name: String, mangled: Option<String>, params: Vec<Param>, comment: Option<String> },
    Destructor { mangled_names: Vec<String>, comment: Option<String> },
    Method {
        name: String,
        mangled: Option<String>,
        is_static: bool,
        result: Option<CppType>,
        params: Vec<Param>,
        comment: Option<String>,
    },
    Other,
}

/// The append-only path of enclosing namespace names, threaded down the
/// recursion; copied, never mutated in place, when entering a namespace,
/// so sibling branches never see each other's qualification.
#[derive(Debug)]
pub struct Context {
    pub ns: Vec<String>,
}

impl Context {
    /// The empty context at the translation unit root.
    pub fn root() -> (r: Context)
        ensures
            r.ns@.len() == 0,
    {
        Context { ns: Vec::new() }
    }

    /// A copy of this context with one more namespace name appended; the
    /// receiver is untouched.
    pub fn child(&self, name: &String) -> (r: Context)
        ensures
            r.ns.deep_view() == self.ns.deep_view().push(name@),
    {
        let mut ns: Vec<String> = Vec::new();
        let mut i: usize = 0;
        while i < self.ns.len()
            invariant
                i <= self.ns@.len(),
                ns.deep_view() == self.ns.deep_view().take(i as int),
            decreases self.ns@.len() - i,
        {
            let ghost prev = ns.deep_view();
            let s = self.ns[i].clone();
            let ghost sv = s@;
            ns.push(s);
            proof {
                assert(ns.deep_view() =~= prev.push(sv));
                assert(self.ns.deep_view().take(i + 1) =~= prev.push(sv));
            }
            i += 1;
        }
        let ghost prev = ns.deep_view();
        let s2 = name.clone();
        ns.push(s2);
        proof {
            assert(prev =~= self.ns.deep_view().take(self.ns@.len() as int));
            assert(prev =~= self.ns.deep_view());
            assert(ns.deep_view() =~= self.ns.deep_view().push(name@));
        }
        Context { ns }
    }
}

} // verus!
