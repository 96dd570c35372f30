//! Dropping from a manifest's dependency tables the dependencies that the
//! analyzer reports as unused.

use crate::manifest::{document_model, entry, entry_mut, item_model, retain_kept};
use crate::tree::{keys_of, lemma_first_index, lemma_put_shows, position, Entry, Node};
use crate::template::parsers::{OutcomeUnusedDeps, UnusedNames};
use crate::text::texts;
use toml_edit::{DocumentMut, Item};
use vstd::prelude::*;

verus! {

/// The manifest with the table shown under `category` stripped of the
/// entries called as one of `unused`. Where nothing is shown under
/// `category`, or what is shown is no table, the manifest is as it was.
pub open spec fn pruned_category(root: Node, category: Seq<char>, unused: Set<Seq<char>>) -> Node {
    match root.shown(category) {
        Some(table) => root.put(category, table.without(unused)),
        None => root,
    }
}

/// The manifest with each of the three dependency tables stripped of its
/// unused entries.
pub open spec fn pruned(root: Node, unused: UnusedNames) -> Node {
    pruned_category(
        pruned_category(
            pruned_category(root, "dependencies"@, unused.normal),
            "dev-dependencies"@,
            unused.development,
        ),
        "build-dependencies"@,
        unused.build,
    )
}

/// Pruning changes nothing in a manifest that shows no table under any of
/// the three dependency keys, whatever the analyzer reported.
pub proof fn lemma_prune_without_tables(root: Node, unused: UnusedNames)
    requires
        !(root.shown("dependencies"@) matches Some(table) && table is Table),
        !(root.shown("dev-dependencies"@) matches Some(table) && table is Table),
        !(root.shown("build-dependencies"@) matches Some(table) && table is Table),
    ensures
        pruned(root, unused) == root,
{
    lemma_prune_category_without_table(root, "dependencies"@, unused.normal);
    lemma_prune_category_without_table(root, "dev-dependencies"@, unused.development);
    lemma_prune_category_without_table(root, "build-dependencies"@, unused.build);
}

/// Pruning a category changes nothing where the manifest shows no table
/// under it.
pub proof fn lemma_prune_category_without_table(
    root: Node,
    category: Seq<char>,
    unused: Set<Seq<char>>,
)
    requires
        !(root.shown(category) matches Some(table) && table is Table),
    ensures
        pruned_category(root, category, unused) == root,
{
    if root.shown(category) is Some {
        let entries = root.entries();
        let place = position(entries, category);
        lemma_first_index(keys_of(entries), category);
        assert(entries.update(place, entries[place].with_value(entries[place].value))
            =~= entries);
    }
}

/// Pruning a category that the manifest shows as a table puts the pruned
/// table in its place, and leaves what is shown under any other key.
pub proof fn lemma_prune_category_shows(
    root: Node,
    category: Seq<char>,
    unused: Set<Seq<char>>,
    other: Seq<char>,
)
    requires
        root.shown(category) matches Some(table) && table is Table,
    ensures
        pruned_category(root, category, unused).shown(category) == Some(
            root.shown(category)->0.without(unused),
        ),
        other != category ==> pruned_category(root, category, unused).shown(other) == root.shown(
            other,
        ),
        keys_of(pruned_category(root, category, unused).entries()) == keys_of(root.entries()),
{
    let table = root.shown(category)->0;
    lemma_put_shows(root, category, table.without(unused), category);
    lemma_put_shows(root, category, table.without(unused), other);
}

/// `first` stands in `entries` at a place before one where `second`
/// stands.
pub open spec fn stands_before(entries: Seq<Entry>, first: Entry, second: Entry) -> bool {
    exists|a: int, b: int|
        0 <= a < b < entries.len() && entries[a] == first && entries[b] == second
}

/// The pruned table is the table without the entries named as unused, and
/// with no other change: no entry that is left is named as unused, every
/// entry that is not named is left, and the entries that are left stand in
/// the order in which they stood. The table's own decoration stays.
pub proof fn lemma_pruned_table(table: Node, unused: Set<Seq<char>>)
    requires
        table is Table,
    ensures
        table.without(unused) is Table,
        table.without(unused)->Table_decor == table->Table_decor,
        table.without(unused)->Table_implicit == table->Table_implicit,
        forall|i: int|
            0 <= i < table.without(unused).entries().len() ==> !unused.contains(
                (#[trigger] table.without(unused).entries()[i]).key,
            ) && table.entries().contains(table.without(unused).entries()[i]),
        forall|j: int|
            0 <= j < table.entries().len() && !unused.contains((#[trigger] table.entries()[j]).key)
                ==> table.without(unused).entries().contains(table.entries()[j]),
        forall|i: int, j: int|
            0 <= i < j < table.without(unused).entries().len() ==> stands_before(
                table.entries(),
                #[trigger] table.without(unused).entries()[i],
                #[trigger] table.without(unused).entries()[j],
            ),
{
    let keep = |entry: Entry| !unused.contains(entry.key);
    let all = table.entries();
    let kept = all.filter(keep);
    assert(table.without(unused).entries() == kept);
    broadcast use vstd::seq_lib::group_filter_ensures;
    assert forall|i: int| 0 <= i < kept.len() implies !unused.contains((#[trigger] kept[i]).key)
        && all.contains(kept[i]) by {
        assert(keep(kept[i]));
        all.lemma_filter_contains_rev(keep, kept[i]);
    }
    assert forall|j: int| 0 <= j < all.len() && !unused.contains((#[trigger] all[j]).key)
        implies kept.contains(all[j]) by {
        assert(keep(all[j]));
    }
    lemma_filter_keeps_order(all, keep);
}

/// What passes a filter stands in the order in which it stood.
pub proof fn lemma_filter_keeps_order(entries: Seq<Entry>, keep: spec_fn(Entry) -> bool)
    ensures
        forall|i: int, j: int|
            0 <= i < j < entries.filter(keep).len() ==> stands_before(
                entries,
                #[trigger] entries.filter(keep)[i],
                #[trigger] entries.filter(keep)[j],
            ),
    decreases entries.len(),
{
    reveal(Seq::filter);
    let kept = entries.filter(keep);
    if entries.len() > 0 {
        let front = entries.drop_last();
        let before = front.filter(keep);
        lemma_filter_keeps_order(front, keep);
        assert forall|i: int, j: int| 0 <= i < j < kept.len() implies stands_before(
            entries,
            #[trigger] kept[i],
            #[trigger] kept[j],
        ) by {
            if j < before.len() {
                assert(kept[i] == before[i] && kept[j] == before[j]);
                assert(stands_before(front, before[i], before[j]));
                let (a, b) = choose|a: int, b: int|
                    0 <= a < b < front.len() && front[a] == before[i] && front[b] == before[j];
                assert(0 <= a < b < entries.len() && entries[a] == kept[i] && entries[b]
                    == kept[j]);
            } else {
                assert(kept == before.push(entries.last()));
                assert(kept[i] == before[i]);
                front.lemma_filter_contains_rev(keep, before[i]);
                let a = choose|a: int| 0 <= a < front.len() && front[a] == before[i];
                let b = entries.len() - 1;
                assert(0 <= a < b < entries.len() && entries[a] == kept[i] && entries[b]
                    == kept[j]);
            }
        }
    }
}

/// Prunes the table under `category`, if the manifest shows one.
pub fn prune_category(root: &mut Item, category: &str, unused: &Vec<String>)
    ensures
        item_model(*final(root)) == pruned_category(
            item_model(*old(root)),
            category@,
            texts(unused@).to_set(),
        ),
{
    if entry(root, category).is_some() {
        proof {
            lemma_first_index(keys_of(item_model(*root).entries()), category@);
        }
        let table = entry_mut(root, category);
        retain_kept(table, unused);
    }
}

/// Removes from `dependencies`, `dev-dependencies` and `build-dependencies`
/// the entries that `unused` names for each. A table that the manifest does
/// not have is not made.
pub fn prune(manifest: &mut DocumentMut, unused: &OutcomeUnusedDeps)
    ensures
        document_model(*final(manifest)) == pruned(document_model(*old(manifest)), unused@),
{
    let root = manifest.as_item_mut();
    prune_category(root, "dependencies", &unused.normal);
    prune_category(root, "dev-dependencies", &unused.development);
    prune_category(root, "build-dependencies", &unused.build);
}

} // verus!
