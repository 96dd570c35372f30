//! Removing the formatting that a parsed manifest carries along: the
//! whitespace and comments around keys, values and table headers.

use crate::manifest::{
    clear_decor, clear_key_decor, document_model, element_mut, entry, entry_mut, item_model,
    listed_keys, set_array_trailing, set_preamble,
};
use crate::tree::{
    has_key, keys_of, lemma_filter_keeps_keys_apart, lemma_first_index, lemma_shown_keys,
    position, shown_keys, Decoration, Entry, Node,
};
use crate::text::texts;
use toml_edit::{DocumentMut, Item};
use vstd::prelude::*;

verus! {

/// A node without decoration: its own is gone, and so is that of every key
/// and value below it. An array ends right after its last element, and an
/// empty inline table holds nothing between its braces. Keys, values and
/// their order stay. An entry without a value is not touched.
pub open spec fn stripped(node: Node) -> Node
    decreases node,
{
    match node {
        Node::Absent => Node::Absent,
        Node::Value { decor, scalar } => Node::Value { decor: Decoration::plain(), scalar },
        Node::Array { decor, trailing, trailing_comma, items } => Node::Array {
            decor: Decoration::plain(),
            trailing: Seq::empty(),
            trailing_comma: false,
            items: stripped_items(items),
        },
        Node::InlineTable { decor, preamble, entries } => Node::InlineTable {
            decor: Decoration::plain(),
            preamble: Seq::empty(),
            entries: stripped_entries(entries),
        },
        Node::Table { decor, implicit, entries } => Node::Table {
            decor: Decoration::plain(),
            implicit,
            entries: stripped_entries(entries),
        },
        Node::TableArray { items } => Node::TableArray { items: stripped_items(items) },
    }
}

/// Each element without decoration.
pub open spec fn stripped_items(items: Seq<Node>) -> Seq<Node>
    decreases items,
{
    Seq::new(
        items.len(),
        |i: int|
            if 0 <= i < items.len() {
                stripped(items[i])
            } else {
                Node::Absent
            },
    )
}

/// Each entry that holds a value without decoration, on its key and below.
pub open spec fn stripped_entries(entries: Seq<Entry>) -> Seq<Entry>
    decreases entries,
{
    Seq::new(
        entries.len(),
        |i: int|
            if 0 <= i < entries.len() && !(entries[i].value is Absent) {
                Entry {
                    key: entries[i].key,
                    leaf: Decoration::plain(),
                    dotted: Decoration::plain(),
                    value: stripped(entries[i].value),
                }
            } else {
                entries[i]
            },
    )
}

/// No decoration is left on the node or below it, but for entries without a
/// value.
pub open spec fn is_plain(node: Node) -> bool {
    stripped(node) == node
}

/// The node without decoration of its own: what is below it stays as it is.
pub open spec fn bare_node(node: Node) -> Node {
    node.with_plain_decor().with_trailing(Seq::empty(), false).with_preamble(Seq::empty())
}

/// The entries of which those under one of the keys `done` are stripped.
pub open spec fn stripped_under(entries: Seq<Entry>, done: Seq<Seq<char>>) -> Seq<Entry> {
    Seq::new(
        entries.len(),
        |i: int|
            if done.contains(entries[i].key) {
                stripped_entries(entries)[i]
            } else {
                entries[i]
            },
    )
}

/// The elements of which the first `count` are stripped.
pub open spec fn stripped_before(items: Seq<Node>, count: int) -> Seq<Node> {
    Seq::new(
        items.len(),
        |i: int|
            if i < count {
                stripped_items(items)[i]
            } else {
                items[i]
            },
    )
}

/// Removes the decoration from an item and from all that it holds.
pub fn strip_item(item: &mut Item)
    ensures
        item_model(*final(item)) == stripped(item_model(*old(item))),
    decreases item_model(*old(item)),
{
    let ghost before = item_model(*item);
    let ghost entries = before.entries();
    let ghost items = before.items();

    // the item's own formatting
    clear_decor(item);
    set_array_trailing(item, "", false);
    set_preamble(item, "");
    let ghost bare = bare_node(before);
    proof {
        reveal_strlit("");
        assert(""@ =~= Seq::<char>::empty());
        assert(item_model(*item) == bare);
    }

    // the entries of a table, key by key
    let keys = listed_keys(item);
    proof {
        if before is Table {
            lemma_filter_keeps_keys_apart(entries, |entry: Entry| !(entry.value is Absent));
        }
        assert(stripped_under(entries, texts(keys@).take(0)) =~= entries);
    }
    let mut k: usize = 0;
    while k < keys.len()
        invariant
            k <= keys.len(),
            before == item_model(*old(item)),
            entries == before.entries(),
            bare == bare_node(before),
            texts(keys@) == before.listed_keys(),
            texts(keys@).no_duplicates(),
            keys_of(entries).no_duplicates(),
            item_model(*item) == bare.with_entries(
                stripped_under(entries, texts(keys@).take(k as int)),
            ),
        decreases keys.len() - k,
    {
        let key = keys[k].as_str();
        let ghost place = position(entries, key@);
        let ghost current = stripped_under(entries, texts(keys@).take(k as int));
        proof {
            assert(texts(keys@)[k as int] == key@);
            lemma_listed_key(before, k as int);
            lemma_next_key(entries, texts(keys@), k as int);
            assert(keys_of(current) =~= keys_of(entries));
            assert(item_model(*item).entries() == current);
        }
        if entry(item, key).is_some() {
            clear_key_decor(item, key);
            proof {
                let cleared = current.update(place, current[place].with_plain_key());
                assert(keys_of(cleared) =~= keys_of(entries));
                assert(item_model(*item).entries() == cleared);
            }
            let child = entry_mut(item, key);
            proof {
                assert(item_model(*child) == entries[place].value);
                assert(decreases_to!(before => entries));
                assert(decreases_to!(entries => entries[place]));
                assert(decreases_to!(entries[place] => entries[place].value));
            }
            strip_item(child);
            proof {
                assert(item_model(*item).entries() =~= current.update(
                    place,
                    stripped_entries(entries)[place],
                ));
            }
        } else {
            proof {
                assert(current.update(place, stripped_entries(entries)[place]) =~= current);
            }
        }
        k = k + 1;
    }
    let ghost tabled = item_model(*item);
    proof {
        assert(texts(keys@).take(keys.len() as int) =~= texts(keys@));
        lemma_all_keys_done(before);
        assert(tabled == bare.with_entries(stripped_entries(entries)));
        assert(stripped_before(items, 0) =~= items);
    }

    // the elements of an array, one by one
    let mut i: usize = 0;
    loop
        invariant
            before == item_model(*old(item)),
            items == before.items(),
            tabled == bare_node(before).with_entries(stripped_entries(before.entries())),
            i <= items.len(),
            item_model(*item) == tabled.with_items(stripped_before(items, i as int)),
        decreases items.len() - i,
    {
        proof {
            assert(tabled.items() == items);
            assert(item_model(*item).items() == stripped_before(items, i as int));
        }
        match element_mut(item, i) {
            Some(child) => {
                proof {
                    assert(item_model(*child) == items[i as int]);
                    assert(decreases_to!(before => items));
                    assert(decreases_to!(items => items[i as int]));
                }
                strip_item(child);
                proof {
                    assert(stripped_before(items, i as int).update(
                        i as int,
                        stripped(items[i as int]),
                    ) =~= stripped_before(items, i + 1));
                }
                i = i + 1;
            },
            None => {
                proof {
                    assert(stripped_before(items, i as int) =~= stripped_items(items));
                    lemma_stripped_by_parts(before);
                }
                return;
            },
        }
    }
}

/// A key that a walk yields stands in the table.
proof fn lemma_listed_key(node: Node, at: int)
    requires
        0 <= at < node.listed_keys().len(),
    ensures
        node.is_table_like(),
        has_key(node.entries(), node.listed_keys()[at]),
{
    let entries = node.entries();
    let key = node.listed_keys()[at];
    if !node.is_table_like() {
        assert(node.listed_keys() == Seq::<Seq<char>>::empty());
    }
    lemma_first_index(keys_of(entries), key);
    if node is Table {
        lemma_shown_keys(entries, key);
        assert(shown_keys(entries).contains(key));
        let i = choose|i: int|
            0 <= i < entries.len() && #[trigger] entries[i].key == key && !(entries[i].value
                is Absent);
        assert(keys_of(entries)[i] == key);
    } else {
        assert(keys_of(entries)[at] == key);
    }
}

/// Stripping under one more key changes the one entry that stands under it,
/// which was not stripped before.
proof fn lemma_next_key(entries: Seq<Entry>, keys: Seq<Seq<char>>, next: int)
    requires
        0 <= next < keys.len(),
        keys.no_duplicates(),
        keys_of(entries).no_duplicates(),
        has_key(entries, keys[next]),
    ensures
        0 <= position(entries, keys[next]) < entries.len(),
        entries[position(entries, keys[next])].key == keys[next],
        stripped_under(entries, keys.take(next))[position(entries, keys[next])]
            == entries[position(entries, keys[next])],
        stripped_under(entries, keys.take(next + 1)) == stripped_under(
            entries,
            keys.take(next),
        ).update(
            position(entries, keys[next]),
            stripped_entries(entries)[position(entries, keys[next])],
        ),
{
    let key = keys[next];
    let place = position(entries, key);
    let done = keys.take(next);
    lemma_first_index(keys_of(entries), key);
    assert(keys_of(entries)[place] == key);
    assert(!done.contains(key)) by {
        if done.contains(key) {
            let j = choose|j: int| 0 <= j < done.len() && done[j] == key;
            assert(keys[j] == keys[next]);
        }
    }
    assert forall|i: int| 0 <= i < entries.len() implies stripped_under(
        entries,
        keys.take(next + 1),
    )[i] == stripped_under(entries, done).update(place, stripped_entries(entries)[place])[i] by {
        lemma_take_next(keys, next, entries[i].key);
        if i != place {
            assert(keys_of(entries)[i] != keys_of(entries)[place]);
        }
    }
    assert(stripped_under(entries, keys.take(next + 1)) =~= stripped_under(entries, done).update(
        place,
        stripped_entries(entries)[place],
    ));
}

/// The keys before place `next`, and the key at it, are the keys before
/// place `next + 1`.
proof fn lemma_take_next(keys: Seq<Seq<char>>, next: int, key: Seq<char>)
    requires
        0 <= next < keys.len(),
    ensures
        keys.take(next + 1).contains(key) <==> keys.take(next).contains(key) || keys[next] == key,
{
    let longer = keys.take(next + 1);
    let shorter = keys.take(next);
    if longer.contains(key) {
        let j = choose|j: int| 0 <= j < longer.len() && longer[j] == key;
        if j < next {
            assert(shorter[j] == key);
        }
    }
    if shorter.contains(key) {
        let j = choose|j: int| 0 <= j < shorter.len() && shorter[j] == key;
        assert(longer[j] == key);
    }
    if keys[next] == key {
        assert(longer[next] == key);
    }
}

/// Once the entries under every listed key are stripped, all entries are.
proof fn lemma_all_keys_done(node: Node)
    ensures
        stripped_under(node.entries(), node.listed_keys()) == stripped_entries(node.entries()),
{
    let entries = node.entries();
    assert forall|i: int| 0 <= i < entries.len() implies stripped_under(
        entries,
        node.listed_keys(),
    )[i] == stripped_entries(entries)[i] by {
        if !(entries[i].value is Absent) {
            if node is Table {
                lemma_shown_keys(entries, entries[i].key);
            } else {
                assert(keys_of(entries)[i] == entries[i].key);
            }
        }
    }
    assert(stripped_under(entries, node.listed_keys()) =~= stripped_entries(entries));
}

/// A node is stripped by stripping its own decoration, its entries and its
/// elements.
proof fn lemma_stripped_by_parts(node: Node)
    ensures
        stripped(node) == bare_node(node).with_entries(stripped_entries(node.entries())).with_items(
            stripped_items(node.items()),
        ),
{
}

/// Stripping is idempotent: a stripped node has nothing left to strip, so
/// stripping it again gives the same node.
pub proof fn lemma_strip_is_idempotent(node: Node)
    ensures
        stripped(stripped(node)) == stripped(node),
        is_plain(stripped(node)),
    decreases node,
{
    match node {
        Node::Array { items, .. } => {
            lemma_strip_items_is_idempotent(items);
        },
        Node::TableArray { items } => {
            lemma_strip_items_is_idempotent(items);
        },
        Node::InlineTable { entries, .. } => {
            lemma_strip_entries_is_idempotent(entries);
        },
        Node::Table { entries, .. } => {
            lemma_strip_entries_is_idempotent(entries);
        },
        _ => {},
    }
}

/// Stripping a list of elements is idempotent.
pub proof fn lemma_strip_items_is_idempotent(items: Seq<Node>)
    ensures
        stripped_items(stripped_items(items)) == stripped_items(items),
    decreases items,
{
    assert forall|i: int| 0 <= i < items.len() implies stripped_items(stripped_items(items))[i]
        == stripped_items(items)[i] by {
        lemma_strip_is_idempotent(items[i]);
    }
    assert(stripped_items(stripped_items(items)) =~= stripped_items(items));
}

/// Stripping a list of entries is idempotent.
pub proof fn lemma_strip_entries_is_idempotent(entries: Seq<Entry>)
    ensures
        stripped_entries(stripped_entries(entries)) == stripped_entries(entries),
    decreases entries,
{
    assert forall|i: int| 0 <= i < entries.len() implies stripped_entries(
        stripped_entries(entries),
    )[i] == stripped_entries(entries)[i] by {
        lemma_strip_is_idempotent(entries[i].value);
        lemma_strip_keeps_kind(entries[i].value);
    }
    assert(stripped_entries(stripped_entries(entries)) =~= stripped_entries(entries));
}

/// Stripping changes no node into one of another kind, and keeps keys,
/// scalars and lengths.
pub proof fn lemma_strip_keeps_kind(node: Node)
    ensures
        stripped(node) is Absent <==> node is Absent,
        stripped(node) is Value <==> node is Value,
        stripped(node) is Array <==> node is Array,
        stripped(node) is InlineTable <==> node is InlineTable,
        stripped(node) is Table <==> node is Table,
        stripped(node) is TableArray <==> node is TableArray,
        node matches Node::Value { scalar, .. } ==> stripped(node) == Node::scalar(scalar),
        keys_of(stripped(node).entries()) == keys_of(node.entries()),
        stripped(node).items().len() == node.items().len(),
{
    assert(keys_of(stripped(node).entries()) =~= keys_of(node.entries()));
}

/// Removes the decoration from every key, value and table header of a
/// manifest.
pub fn strip_decor(manifest: &mut DocumentMut)
    ensures
        document_model(*final(manifest)) == stripped(document_model(*old(manifest))),
{
    let root = manifest.as_item_mut();
    strip_item(root);
}

} // verus!
