//! The binding context: a scope-local symbol table mapping names to
//! Luau types.
//!
//! One context lives per function scope; entering a nested scope forks
//! an independent copy whose later changes are discarded, so bindings
//! never leak to a parent or sibling scope.  Rebinding a name silently
//! overwrites the earlier entry (last write wins); no conflict checking
//! is performed, by design.

use vstd::prelude::*;

use crate::luau::{LuauType, TypeV};

verus! {

/// Scope-local symbol table; its model is a `Map` from name to type.
pub struct Context {
    bindings: Vec<(String, LuauType)>,
}

/// The map described by a journal of bindings: later entries win.
pub open spec fn bindings_map(s: Seq<(String, LuauType)>) -> Map<Seq<char>, TypeV>
    decreases s,
{
    if s.len() == 0 {
        Map::<Seq<char>, TypeV>::empty()
    } else {
        bindings_map(s.drop_last()).insert(s.last().0@, s.last().1@)
    }
}

impl View for Context {
    type V = Map<Seq<char>, TypeV>;

    closed spec fn view(&self) -> Map<Seq<char>, TypeV> {
        bindings_map(self.bindings@)
    }
}

/// Entries at positions `i..` all differ from `k`, so the journal's map
/// agrees at `k` with the map of the prefix before `i`.
proof fn lemma_bindings_map_skip_suffix(s: Seq<(String, LuauType)>, i: int, k: Seq<char>)
    requires
        0 <= i <= s.len(),
        forall|j: int| i <= j < s.len() ==> #[trigger] s[j].0@ != k,
    ensures
        bindings_map(s).contains_key(k) == bindings_map(s.subrange(0, i)).contains_key(k),
        bindings_map(s).contains_key(k) ==> bindings_map(s)[k] == bindings_map(s.subrange(0, i))[k],
    decreases s.len() - i,
{
    if i == s.len() {
        assert(s.subrange(0, i) =~= s);
    } else {
        lemma_bindings_map_skip_suffix(s, i + 1, k);
        assert(s.subrange(0, i + 1).drop_last() =~= s.subrange(0, i));
        assert(s.subrange(0, i + 1).last() == s[i]);
    }
}

/// Equality of two string slices, decided over their views.
pub fn str_eq(a: &str, b: &str) -> (r: bool)
    ensures
        r == (a@ == b@),
{
    let x = a.to_owned();
    let y = b.to_owned();
    x == y
}

impl Context {
    /// An empty context.
    pub fn new() -> (r: Context)
        ensures
            r@ == Map::<Seq<char>, TypeV>::empty(),
    {
        Context { bindings: Vec::new() }
    }

    /// Insert-or-overwrite: the new entry wins over any earlier one.
    pub fn add_binding(&mut self, name: &str, typ: LuauType)
        ensures
            final(self)@ == old(self)@.insert(name@, typ@),
    {
        let ghost before = self.bindings@;
        self.bindings.push((name.to_owned(), typ));
        proof {
            assert(self.bindings@.drop_last() =~= before);
        }
    }

    /// The type bound to `name`, or `None` if `name` was never bound here.
    pub fn get_binding(&self, name: &str) -> (r: Option<&LuauType>)
        ensures
            match r {
                Option::Some(t) => self@.contains_key(name@) && t@ == self@[name@],
                Option::None => !self@.contains_key(name@),
            },
    {
        let mut i: usize = self.bindings.len();
        while i > 0
            invariant
                i <= self.bindings.len(),
                forall|j: int|
                    i <= j < self.bindings@.len() ==> #[trigger] self.bindings@[j].0@ != name@,
            decreases i,
        {
            i = i - 1;
            if str_eq(self.bindings[i].0.as_str(), name) {
                proof {
                    lemma_bindings_map_skip_suffix(self.bindings@, i + 1, name@);
                    assert(self.bindings@.subrange(0, i + 1).drop_last() =~= self.bindings@.subrange(
                        0,
                        i as int,
                    ));
                    assert(self.bindings@.subrange(0, i + 1).last() == self.bindings@[i as int]);
                }
                return Option::Some(&self.bindings[i].1);
            }
        }
        proof {
            lemma_bindings_map_skip_suffix(self.bindings@, 0, name@);
            assert(self.bindings@.subrange(0, 0) =~= Seq::<(String, LuauType)>::empty());
        }
        Option::None
    }

    /// An independent copy for a nested scope; later changes to the copy
    /// are invisible here.
    pub fn fork(&self) -> (r: Context)
        ensures
            r@ == self@,
    {
        let mut out: Vec<(String, LuauType)> = Vec::new();
        let mut i: usize = 0;
        while i < self.bindings.len()
            invariant
                i <= self.bindings.len(),
                out@ =~= self.bindings@.subrange(0, i as int),
            decreases self.bindings.len() - i,
        {
            let name_copy = self.bindings[i].0.clone();
            let typ_copy = self.bindings[i].1.dup();
            out.push((name_copy, typ_copy));
            proof {
                assert(out@ =~= self.bindings@.subrange(0, i + 1));
            }
            i = i + 1;
        }
        proof {
            assert(out@ =~= self.bindings@);
        }
        Context { bindings: out }
    }
}

} // verus!
