//! A single prerequisite, and lists of prerequisites sorted by module name.

use vstd::prelude::*;

use crate::text;

verus! {

/// A single prerequisite: a module name and the version range required.
#[derive(Debug, PartialEq, Eq)]
pub struct Dependency {
    /// Module (package) name, e.g. `ExtUtils::MakeMaker`.
    pub module: String,
    /// Required version range, e.g. `"0"` (any version) or `">= 6.58"`.
    pub version: String,
}

/// What a [`Dependency`] says.
pub struct DependencyView {
    /// The module name.
    pub module: Seq<char>,
    /// The version range.
    pub version: Seq<char>,
}

impl DeepView for Dependency {
    type V = DependencyView;

    open spec fn deep_view(&self) -> DependencyView {
        DependencyView { module: self.module@, version: self.version@ }
    }
}

impl Clone for Dependency {
    fn clone(&self) -> (r: Dependency)
        ensures
            r.deep_view() == self.deep_view(),
    {
        Dependency { module: self.module.clone(), version: self.version.clone() }
    }
}

/// The same dependencies once more.
pub(crate) fn clone_list(list: &Vec<Dependency>) -> (r: Vec<Dependency>)
    ensures
        r.deep_view() == list.deep_view(),
{
    let mut r: Vec<Dependency> = Vec::new();
    for i in 0..list.len()
        invariant
            r@.len() == i,
            forall|j: int| 0 <= j < i ==> #[trigger] r@[j].deep_view() == list@[j].deep_view(),
    {
        r.push(list[i].clone());
    }
    assert(r.deep_view() =~= list.deep_view());
    r
}

/// Whether `list` has an entry for `module`.
pub open spec fn lists(list: Seq<DependencyView>, module: Seq<char>) -> bool {
    exists|i: int| 0 <= i < list.len() && #[trigger] list[i].module == module
}

/// The `module => version-range` map that `list` spells out.
pub open spec fn as_map(list: Seq<DependencyView>) -> Map<Seq<char>, Seq<char>> {
    Map::new(
        |module: Seq<char>| lists(list, module),
        |module: Seq<char>|
            list[choose|i: int| 0 <= i < list.len() && #[trigger] list[i].module == module].version,
    )
}

/// Whether the module names of `list` are in strictly ascending order.
pub open spec fn sorted(list: Seq<DependencyView>) -> bool {
    forall|i: int, j: int|
        0 <= i < j < list.len() ==> #[trigger] text::precedes(list[i].module, list[j].module)
}

/// Whether `list` is `map` written down in order: each entry once, sorted by
/// module name.
pub open spec fn is_listing(list: Seq<DependencyView>, map: Map<Seq<char>, Seq<char>>) -> bool {
    &&& sorted(list)
    &&& as_map(list) == map
}

/// The list that [`is_listing`] describes; see [`law_listing_is_unique`].
pub open spec fn listing(map: Map<Seq<char>, Seq<char>>) -> Seq<DependencyView> {
    choose|list: Seq<DependencyView>| is_listing(list, map)
}

/// A sorted list holds no module twice.
pub(crate) proof fn lemma_sorted_distinct(list: Seq<DependencyView>, i: int, j: int)
    requires
        sorted(list),
        0 <= i < list.len(),
        0 <= j < list.len(),
        list[i].module == list[j].module,
    ensures
        i == j,
{
    text::law_precedes_irreflexive(list[i].module);
    if i < j {
        assert(text::precedes(list[i].module, list[j].module));
    }
    if j < i {
        assert(text::precedes(list[j].module, list[i].module));
    }
}

/// The map of a sorted list sends each listed module to its version range.
pub(crate) proof fn lemma_as_map_at(list: Seq<DependencyView>, i: int)
    requires
        sorted(list),
        0 <= i < list.len(),
    ensures
        as_map(list).contains_key(list[i].module),
        as_map(list)[list[i].module] == list[i].version,
{
    let module = list[i].module;
    assert(lists(list, module));
    let k = choose|k: int| 0 <= k < list.len() && #[trigger] list[k].module == module;
    lemma_sorted_distinct(list, i, k);
}

/// A module of the map stands somewhere in the list.
pub(crate) proof fn lemma_as_map_index(list: Seq<DependencyView>, module: Seq<char>) -> (i: int)
    requires
        as_map(list).contains_key(module),
    ensures
        0 <= i < list.len(),
        list[i].module == module,
        as_map(list)[module] == list[i].version,
{
    choose|i: int| 0 <= i < list.len() && #[trigger] list[i].module == module
}

/// Appending an entry for a module that sorts behind all others adds it to the map.
pub(crate) proof fn lemma_as_map_push(list: Seq<DependencyView>, last: DependencyView)
    requires
        sorted(list.push(last)),
    ensures
        as_map(list.push(last)) == as_map(list).insert(last.module, last.version),
{
    let longer = list.push(last);
    lemma_sorted_prefix(longer, list.len() as int);
    assert(longer.take(list.len() as int) =~= list);
    assert(as_map(longer) =~= as_map(list).insert(last.module, last.version)) by {
        assert forall|module: Seq<char>| #[trigger]
            as_map(longer).contains_key(module) == as_map(list).insert(
                last.module,
                last.version,
            ).contains_key(module) by {
            if as_map(longer).contains_key(module) {
                let i = lemma_as_map_index(longer, module);
                if i < list.len() {
                    assert(list[i].module == module);
                }
            }
            if as_map(list).contains_key(module) {
                let i = lemma_as_map_index(list, module);
                assert(longer[i].module == module);
            }
            assert(longer[list.len() as int].module == last.module);
        }
        assert forall|module: Seq<char>| #[trigger]
            as_map(longer).contains_key(module) implies as_map(longer)[module] == as_map(
            list,
        ).insert(last.module, last.version)[module] by {
            let i = lemma_as_map_index(longer, module);
            if i < list.len() {
                assert(longer[i] == list[i]);
                lemma_as_map_at(list, i);
                assert(text::precedes(longer[i].module, longer[list.len() as int].module));
                text::law_precedes_irreflexive(module);
            }
        }
    }
}

/// The first entries of a sorted list are sorted.
pub(crate) proof fn lemma_sorted_prefix(list: Seq<DependencyView>, n: int)
    requires
        sorted(list),
        0 <= n <= list.len(),
    ensures
        sorted(list.take(n)),
{
    let short = list.take(n);
    assert forall|i: int, j: int| 0 <= i < j < short.len() implies #[trigger] text::precedes(
        short[i].module,
        short[j].module,
    ) by {
        assert(text::precedes(list[i].module, list[j].module));
    }
}

/// Leaving the last entry off a sorted list removes its module from the map.
proof fn lemma_as_map_drop_last(list: Seq<DependencyView>)
    requires
        sorted(list),
        list.len() > 0,
    ensures
        sorted(list.drop_last()),
        as_map(list.drop_last()) == as_map(list).remove(list.last().module),
{
    let short = list.drop_last();
    lemma_sorted_prefix(list, list.len() - 1);
    assert(list.take(list.len() - 1) =~= short);
    assert(short.push(list.last()) =~= list);
    lemma_as_map_push(short, list.last());
    assert(!as_map(short).contains_key(list.last().module)) by {
        if as_map(short).contains_key(list.last().module) {
            let i = lemma_as_map_index(short, list.last().module);
            lemma_sorted_distinct(list, i, list.len() - 1);
        }
    }
    assert(as_map(short) =~= as_map(list).remove(list.last().module));
}

/// Putting a new module where it belongs keeps the order and adds it to the map.
pub(crate) proof fn lemma_insert(list: Seq<DependencyView>, at: int, added: DependencyView)
    requires
        sorted(list),
        0 <= at <= list.len(),
        forall|i: int| 0 <= i < at ==> text::precedes(#[trigger] list[i].module, added.module),
        at < list.len() ==> text::precedes(added.module, list[at].module),
    ensures
        sorted(list.insert(at, added)),
        as_map(list.insert(at, added)) == as_map(list).insert(
            added.module,
            added.version,
        ),
{
    let longer = list.insert(at, added);
    assert forall|i: int, j: int| 0 <= i < j < longer.len() implies #[trigger] text::precedes(
        longer[i].module,
        longer[j].module,
    ) by {
        let a = if i < at { i } else { i - 1 };
        let b = if j < at { j } else { j - 1 };
        if i != at && j != at {
            assert(text::precedes(list[a].module, list[b].module));
        } else if i == at && b > at {
            assert(text::precedes(list[at].module, list[b].module));
            text::law_precedes_transitive(added.module, list[at].module, list[b].module);
        } else if j == at {
            assert(text::precedes(list[i].module, added.module));
        }
    }
    let want = as_map(list).insert(added.module, added.version);
    assert forall|module: Seq<char>| #[trigger]
        as_map(longer).contains_key(module) == want.contains_key(module) by {
        if as_map(longer).contains_key(module) {
            let i = lemma_as_map_index(longer, module);
            if i < at {
                assert(list[i].module == module);
            } else if i > at {
                assert(list[i - 1].module == module);
            }
        }
        if as_map(list).contains_key(module) {
            let i = lemma_as_map_index(list, module);
            if i < at {
                assert(longer[i].module == module);
            } else {
                assert(longer[i + 1].module == module);
            }
        }
        assert(longer[at].module == added.module);
    }
    assert forall|module: Seq<char>| #[trigger]
        as_map(longer).contains_key(module) implies as_map(
        longer,
    )[module] == want[module] by {
        let i = lemma_as_map_index(longer, module);
        if module == added.module {
            lemma_sorted_distinct(longer, i, at);
        } else {
            let k = if i < at { i } else { i - 1 };
            assert(longer[i] == list[k]);
            lemma_as_map_at(list, k);
        }
    }
    assert(as_map(longer) =~= want);
}

/// Where a new module belongs in a sorted list.
proof fn lemma_place(list: Seq<DependencyView>, module: Seq<char>) -> (at: int)
    requires
        sorted(list),
        !lists(list, module),
    ensures
        0 <= at <= list.len(),
        forall|i: int| 0 <= i < at ==> text::precedes(#[trigger] list[i].module, module),
        at < list.len() ==> text::precedes(module, list[at].module),
    decreases list.len(),
{
    if list.len() == 0 {
        0
    } else {
        let last = list.len() - 1;
        let short = list.take(last);
        assert(list[last].module != module);
        text::law_precedes_total(list[last].module, module);
        if text::precedes(list[last].module, module) {
            assert forall|i: int| 0 <= i < list.len() implies text::precedes(
                #[trigger] list[i].module,
                module,
            ) by {
                if i < last {
                    assert(text::precedes(list[i].module, list[last].module));
                    text::law_precedes_transitive(list[i].module, list[last].module, module);
                }
            }
            list.len() as int
        } else {
            lemma_sorted_prefix(list, last);
            assert(!lists(short, module)) by {
                if lists(short, module) {
                    let i = choose|i: int|
                        0 <= i < short.len() && #[trigger] short[i].module == module;
                    assert(list[i].module == module);
                }
            }
            let at = lemma_place(short, module);
            assert forall|i: int| 0 <= i < at implies text::precedes(
                #[trigger] list[i].module,
                module,
            ) by {
                assert(short[i] == list[i]);
            }
            at
        }
    }
}

/// Every finite map has a sorted list, which is its [`listing`].
pub proof fn law_finite_map_has_a_listing(map: Map<Seq<char>, Seq<char>>)
    requires
        map.dom().finite(),
    ensures
        is_listing(listing(map), map),
    decreases map.dom().len(),
{
    if map.dom().len() == 0 {
        let list = Seq::<DependencyView>::empty();
        assert(as_map(list) =~= map);
        assert(is_listing(list, map));
    } else {
        let module = map.dom().choose();
        let others = map.remove(module);
        law_finite_map_has_a_listing(others);
        let list = listing(others);
        let added = DependencyView { module, version: map[module] };
        assert(!as_map(list).contains_key(module));
        let at = lemma_place(list, module);
        lemma_insert(list, at, added);
        assert(others.insert(module, map[module]) =~= map);
        assert(is_listing(list.insert(at, added), map));
    }
}

/// A map has one sorted list: two lists of the same entries, both sorted by
/// module name, are equal.
pub proof fn law_listing_is_unique(
    a: Seq<DependencyView>,
    b: Seq<DependencyView>,
    map: Map<Seq<char>, Seq<char>>,
)
    requires
        is_listing(a, map),
        is_listing(b, map),
    ensures
        a == b,
    decreases a.len(),
{
    if a.len() == 0 {
        if b.len() > 0 {
            lemma_as_map_at(b, 0);
            let i = lemma_as_map_index(a, b[0].module);
        }
        assert(a =~= b);
    } else {
        lemma_as_map_at(a, a.len() - 1);
        let j = lemma_as_map_index(b, a.last().module);
        lemma_as_map_at(b, b.len() - 1);
        let i = lemma_as_map_index(a, b.last().module);
        assert(a.last().module == b.last().module) by {
            if j != b.len() - 1 {
                assert(text::precedes(b[j].module, b[b.len() - 1].module));
                if i < a.len() - 1 {
                    assert(text::precedes(a[i].module, a[a.len() - 1].module));
                    text::law_precedes_transitive(
                        a[i].module,
                        a.last().module,
                        b.last().module,
                    );
                }
                text::law_precedes_irreflexive(b.last().module);
            }
        }
        assert(a.last() == b.last());
        lemma_as_map_drop_last(a);
        lemma_as_map_drop_last(b);
        law_listing_is_unique(a.drop_last(), b.drop_last(), map.remove(a.last().module));
        assert(a =~= a.drop_last().push(a.last()));
        assert(b =~= b.drop_last().push(b.last()));
    }
}

/// The listing of a map has every entry of the map, and no other, and no module
/// twice.
pub proof fn law_listing_has_each_entry_once(
    list: Seq<DependencyView>,
    map: Map<Seq<char>, Seq<char>>,
)
    requires
        is_listing(list, map),
    ensures
        forall|i: int|
            0 <= i < list.len() ==> map.contains_key(#[trigger] list[i].module)
                && map[list[i].module] == list[i].version,
        forall|module: Seq<char>| #[trigger] map.contains_key(module) ==> lists(list, module),
        forall|i: int, j: int|
            0 <= i < list.len() && 0 <= j < list.len() && #[trigger] list[i].module
                == #[trigger] list[j].module ==> i == j,
{
    assert forall|i: int| 0 <= i < list.len() implies map.contains_key(#[trigger] list[i].module)
        && map[list[i].module] == list[i].version by {
        lemma_as_map_at(list, i);
    }
    assert forall|i: int, j: int|
        0 <= i < list.len() && 0 <= j < list.len() && #[trigger] list[i].module
            == #[trigger] list[j].module implies i == j by {
        lemma_sorted_distinct(list, i, j);
    }
}

/// The listing of a map has a dependency exactly if the map sends its module to its
/// version range.
pub proof fn law_listing_has_what_the_map_has(
    list: Seq<DependencyView>,
    map: Map<Seq<char>, Seq<char>>,
    entry: DependencyView,
)
    requires
        is_listing(list, map),
    ensures
        list.contains(entry) <==> map.contains_key(entry.module) && map[entry.module]
            == entry.version,
{
    law_listing_has_each_entry_once(list, map);
    if map.contains_key(entry.module) && map[entry.module] == entry.version {
        let i = lemma_as_map_index(list, entry.module);
        assert(list[i] == entry);
    }
    if list.contains(entry) {
        let i = choose|i: int| 0 <= i < list.len() && list[i] == entry;
        assert(map.contains_key(list[i].module));
    }
}

/// In the listing of a map an earlier module name is a proper beginning of a later one,
/// or has the lower code point where the two first differ.
pub proof fn law_listing_is_in_order(
    list: Seq<DependencyView>,
    map: Map<Seq<char>, Seq<char>>,
    i: int,
    j: int,
)
    requires
        is_listing(list, map),
        0 <= i < j < list.len(),
    ensures
        exists|k: int|
            {
                &&& 0 <= k <= list[i].module.len()
                &&& k < list[j].module.len()
                &&& #[trigger] list[i].module.take(k) == list[j].module.take(k)
                &&& k == list[i].module.len() || (list[i].module[k] as int) < (
                list[j].module[k] as int)
            },
{
    assert(text::precedes(list[i].module, list[j].module));
    text::law_precedes_is_the_order_of_code_points(list[i].module, list[j].module);
}

/// A list that writes a map down in order is the listing of that map.
pub(crate) proof fn lemma_is_the_listing(
    list: Seq<DependencyView>,
    map: Map<Seq<char>, Seq<char>>,
)
    requires
        is_listing(list, map),
    ensures
        list == listing(map),
        is_listing(listing(map), map),
{
    law_listing_is_unique(list, listing(map), map);
}

} // verus!
