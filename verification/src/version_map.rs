//! The `module => version-range` maps of the metadata.

use vstd::prelude::*;

use crate::dependency;
use crate::dependency::{Dependency, DependencyView};
use crate::text;

verus! {

/// A `module => version-range` map, kept in order of the module names.
///
/// No module occurs twice, and walking the entries visits the modules in
/// ascending order.
#[derive(Debug, PartialEq, Eq)]
pub struct VersionMap {
    entries: Vec<Dependency>,
}

impl View for VersionMap {
    type V = Map<Seq<char>, Seq<char>>;

    closed spec fn view(&self) -> Map<Seq<char>, Seq<char>> {
        dependency::as_map(self.entries.deep_view())
    }
}

impl DeepView for VersionMap {
    type V = Map<Seq<char>, Seq<char>>;

    open spec fn deep_view(&self) -> Map<Seq<char>, Seq<char>> {
        self@
    }
}

impl Default for VersionMap {
    /// An empty map.
    fn default() -> (r: Self)
        ensures
            r@ == Map::<Seq<char>, Seq<char>>::empty(),
    {
        VersionMap::new()
    }
}

impl Clone for VersionMap {
    fn clone(&self) -> (r: VersionMap)
        ensures
            r@ == self@,
    {
        proof {
            use_type_invariant(self);
        }
        VersionMap { entries: dependency::clone_list(&self.entries) }
    }
}

impl VersionMap {
    #[verifier::type_invariant]
    spec fn in_order(self) -> bool {
        dependency::sorted(self.entries.deep_view())
    }

    /// An empty map.
    pub fn new() -> (r: VersionMap)
        ensures
            r@ == Map::<Seq<char>, Seq<char>>::empty(),
    {
        let r = VersionMap { entries: Vec::new() };
        assert(r@ =~= Map::<Seq<char>, Seq<char>>::empty());
        r
    }

    /// Set the version range of `module`, replacing the one it had if it was there
    /// already.
    pub fn insert(&mut self, module: String, version: String)
        ensures
            final(self)@ == old(self)@.insert(module@, version@),
    {
        proof {
            use_type_invariant(&*self);
        }
        let ghost before = self.entries.deep_view();
        let mut entries: Vec<Dependency> = Vec::new();
        std::mem::swap(&mut entries, &mut self.entries);
        let n: usize = entries.len();
        let mut at: usize = 0;
        while at < n && text::text_precedes(entries[at].module.as_str(), module.as_str())
            invariant
                n == entries@.len(),
                entries.deep_view() == before,
                at <= n,
                forall|i: int|
                    0 <= i < at ==> text::precedes(#[trigger] before[i].module, module@),
            decreases n - at,
        {
            assert(before[at as int] == entries@[at as int].deep_view());
            at = at + 1;
        }
        let ghost added = DependencyView { module: module@, version: version@ };
        let present: bool = at < n && text::same_text(
            entries[at].module.as_str(),
            module.as_str(),
        );
        if at < n {
            assert(before[at as int] == entries@[at as int].deep_view());
        }
        if present {
            entries[at] = Dependency { module, version };
            proof {
                assert(entries.deep_view() =~= before.update(at as int, added));
                lemma_update(before, at as int, added);
            }
        } else {
            proof {
                if at < n {
                    text::law_precedes_total(before[at as int].module, added.module);
                }
                dependency::lemma_insert(before, at as int, added);
            }
            entries.insert(at, Dependency { module, version });
            assert(entries.deep_view() =~= before.insert(at as int, added));
        }
        self.entries = entries;
    }

    /// The entries, sorted by module name.
    pub fn entries(&self) -> (r: &Vec<Dependency>)
        ensures
            dependency::is_listing(r.deep_view(), self@),
    {
        proof {
            use_type_invariant(self);
        }
        &self.entries
    }

    /// The entries, in order, taken out of the map.
    pub(crate) fn into_entries(self) -> (r: Vec<Dependency>)
        ensures
            dependency::is_listing(r.deep_view(), self@),
    {
        proof {
            use_type_invariant(&self);
        }
        self.entries
    }
}

/// Replacing the version range of a listed module keeps the order and updates the
/// map.
proof fn lemma_update(list: Seq<DependencyView>, at: int, added: DependencyView)
    requires
        dependency::sorted(list),
        0 <= at < list.len(),
        list[at].module == added.module,
    ensures
        dependency::sorted(list.update(at, added)),
        dependency::as_map(list.update(at, added)) == dependency::as_map(list).insert(
            added.module,
            added.version,
        ),
{
    let changed = list.update(at, added);
    assert forall|i: int, j: int| 0 <= i < j < changed.len() implies #[trigger] text::precedes(
        changed[i].module,
        changed[j].module,
    ) by {
        assert(text::precedes(list[i].module, list[j].module));
    }
    let want = dependency::as_map(list).insert(added.module, added.version);
    assert forall|module: Seq<char>| #[trigger]
        dependency::as_map(changed).contains_key(module) == want.contains_key(module) by {
        if dependency::as_map(changed).contains_key(module) {
            let i = dependency::lemma_as_map_index(changed, module);
            assert(list[i].module == module);
        }
        if dependency::as_map(list).contains_key(module) {
            let i = dependency::lemma_as_map_index(list, module);
            assert(changed[i].module == module);
        }
        assert(changed[at].module == added.module);
    }
    assert forall|module: Seq<char>| #[trigger]
        dependency::as_map(changed).contains_key(module) implies dependency::as_map(
        changed,
    )[module] == want[module] by {
        let i = dependency::lemma_as_map_index(changed, module);
        dependency::lemma_as_map_at(changed, i);
        dependency::lemma_as_map_at(list, i);
        if module == added.module {
            dependency::lemma_sorted_distinct(changed, i, at);
        }
    }
    assert(dependency::as_map(changed) =~= want);
}

} // verus!
