//! The tree that a manifest holds: tables, arrays and scalars, each with the
//! formatting that the manifest's text gave it. This is the mathematical
//! model in which the contracts of the crate speak of manifests.

use vstd::prelude::*;

verus! {

/// The whitespace and comments before and after a key, a value or a table
/// header. Where a side is missing, the default is written.
pub struct Decoration {
    pub prefix: Option<Seq<char>>,
    pub suffix: Option<Seq<char>>,
}

impl Decoration {
    /// No decoration on either side.
    pub open spec fn plain() -> Decoration {
        Decoration { prefix: None, suffix: None }
    }
}

/// A value that holds no other value. A float and a date stand as TOML
/// writes them by default.
pub enum Scalar {
    Text(Seq<char>),
    Integer(int),
    Boolean(bool),
    Float(Seq<char>),
    Datetime(Seq<char>),
}

/// A key with its value. `leaf` decorates the key as a whole, `dotted` the
/// key where it stands between dots.
pub struct Entry {
    pub key: Seq<char>,
    pub leaf: Decoration,
    pub dotted: Decoration,
    pub value: Node,
}

/// What a `toml_edit::Item` holds. A table keeps its entries in the order in
/// which they were declared, and may keep an entry whose value is `Absent`:
/// such an entry holds its place and is shown nowhere. An array's `trailing`
/// is what stands between its last element and the closing bracket, an
/// inline table's `preamble` what stands between its braces while it is
/// empty.
pub enum Node {
    Absent,
    Value { decor: Decoration, scalar: Scalar },
    Array { decor: Decoration, trailing: Seq<char>, trailing_comma: bool, items: Seq<Node> },
    InlineTable { decor: Decoration, preamble: Seq<char>, entries: Seq<Entry> },
    Table { decor: Decoration, implicit: bool, entries: Seq<Entry> },
    TableArray { items: Seq<Node> },
}

/// The keys of a table's entries, in order.
pub open spec fn keys_of(entries: Seq<Entry>) -> Seq<Seq<char>> {
    Seq::new(entries.len(), |i: int| entries[i].key)
}

/// The place of `key` where it first stands in `keys`; the length of `keys`
/// where it does not.
pub open spec fn first_index(keys: Seq<Seq<char>>, key: Seq<char>) -> int
    decreases keys.len(),
{
    if keys.len() == 0 {
        0
    } else if keys[0] == key {
        0
    } else {
        1 + first_index(keys.drop_first(), key)
    }
}

/// The place of the first entry under `key`; the number of entries where
/// there is none.
pub open spec fn position(entries: Seq<Entry>, key: Seq<char>) -> int {
    first_index(keys_of(entries), key)
}

/// Some entry stands under `key`.
pub open spec fn has_key(entries: Seq<Entry>, key: Seq<char>) -> bool {
    position(entries, key) < entries.len()
}

/// The keys of the entries that hold a value, in order.
pub open spec fn shown_keys(entries: Seq<Entry>) -> Seq<Seq<char>> {
    keys_of(entries.filter(|entry: Entry| !(entry.value is Absent)))
}

impl Entry {
    /// An entry as a fresh assignment makes it.
    pub open spec fn plain(key: Seq<char>, value: Node) -> Entry {
        Entry { key, leaf: Decoration::plain(), dotted: Decoration::plain(), value }
    }

    pub open spec fn with_value(self, value: Node) -> Entry {
        Entry { key: self.key, leaf: self.leaf, dotted: self.dotted, value }
    }

    pub open spec fn with_plain_key(self) -> Entry {
        Entry {
            key: self.key,
            leaf: Decoration::plain(),
            dotted: Decoration::plain(),
            value: self.value,
        }
    }
}

impl Node {
    /// A table with no entry and no decoration, as `toml_edit` makes one.
    pub open spec fn empty_table() -> Node {
        Node::Table { decor: Decoration::plain(), implicit: false, entries: Seq::empty() }
    }

    /// A scalar with no decoration.
    pub open spec fn scalar(scalar: Scalar) -> Node {
        Node::Value { decor: Decoration::plain(), scalar }
    }

    pub open spec fn is_table_like(self) -> bool {
        self is Table || self is InlineTable
    }

    /// The entries of a table or an inline table; none for any other node.
    pub open spec fn entries(self) -> Seq<Entry> {
        match self {
            Node::Table { entries, .. } => entries,
            Node::InlineTable { entries, .. } => entries,
            _ => Seq::empty(),
        }
    }

    /// The elements of an array or an array of tables; none for any other
    /// node.
    pub open spec fn items(self) -> Seq<Node> {
        match self {
            Node::Array { items, .. } => items,
            Node::TableArray { items } => items,
            _ => Seq::empty(),
        }
    }

    /// The same node with other entries.
    pub open spec fn with_entries(self, entries: Seq<Entry>) -> Node {
        match self {
            Node::Table { decor, implicit, .. } => Node::Table { decor, implicit, entries },
            Node::InlineTable { decor, preamble, .. } => Node::InlineTable {
                decor,
                preamble,
                entries,
            },
            _ => self,
        }
    }

    /// The same node with other elements.
    pub open spec fn with_items(self, items: Seq<Node>) -> Node {
        match self {
            Node::Array { decor, trailing, trailing_comma, .. } => Node::Array {
                decor,
                trailing,
                trailing_comma,
                items,
            },
            Node::TableArray { .. } => Node::TableArray { items },
            _ => self,
        }
    }

    /// The same node without decoration of its own.
    pub open spec fn with_plain_decor(self) -> Node {
        match self {
            Node::Value { scalar, .. } => Node::Value { decor: Decoration::plain(), scalar },
            Node::Array { trailing, trailing_comma, items, .. } => Node::Array {
                decor: Decoration::plain(),
                trailing,
                trailing_comma,
                items,
            },
            Node::InlineTable { preamble, entries, .. } => Node::InlineTable {
                decor: Decoration::plain(),
                preamble,
                entries,
            },
            Node::Table { implicit, entries, .. } => Node::Table {
                decor: Decoration::plain(),
                implicit,
                entries,
            },
            _ => self,
        }
    }

    /// The same array with another end; any other node as it is.
    pub open spec fn with_trailing(self, trailing: Seq<char>, trailing_comma: bool) -> Node {
        match self {
            Node::Array { decor, items, .. } => Node::Array {
                decor,
                trailing,
                trailing_comma,
                items,
            },
            _ => self,
        }
    }

    /// The same inline table with another preamble; any other node as it is.
    pub open spec fn with_preamble(self, preamble: Seq<char>) -> Node {
        match self {
            Node::InlineTable { decor, entries, .. } => Node::InlineTable {
                decor,
                preamble,
                entries,
            },
            _ => self,
        }
    }

    /// The same table, implicit or not; any other node as it is.
    pub open spec fn with_implicit(self, implicit: bool) -> Node {
        match self {
            Node::Table { decor, entries, .. } => Node::Table { decor, implicit, entries },
            _ => self,
        }
    }

    /// The value shown under `key`: that of the first entry under it, where
    /// the node is a table or an inline table and the value is not `Absent`.
    pub open spec fn shown(self, key: Seq<char>) -> Option<Node> {
        if has_key(self.entries(), key) && !(self.entries()[position(
            self.entries(),
            key,
        )].value is Absent) {
            Some(self.entries()[position(self.entries(), key)].value)
        } else {
            None
        }
    }

    /// The same node with `value` under `key`: in the place of the entry
    /// that stands under `key`, or in a new entry after the others.
    pub open spec fn put(self, key: Seq<char>, value: Node) -> Node {
        if has_key(self.entries(), key) {
            self.with_entries(
                self.entries().update(
                    position(self.entries(), key),
                    self.entries()[position(self.entries(), key)].with_value(value),
                ),
            )
        } else {
            self.with_entries(self.entries().push(Entry::plain(key, value)))
        }
    }

    /// The keys that a walk over the node yields: of a table those that show
    /// a value, of an inline table all.
    pub open spec fn listed_keys(self) -> Seq<Seq<char>> {
        match self {
            Node::Table { entries, .. } => shown_keys(entries),
            Node::InlineTable { entries, .. } => keys_of(entries),
            _ => Seq::empty(),
        }
    }

    /// `keys` is what a walk over the node yields. The entries of a table
    /// stand under keys that differ from each other.
    pub open spec fn walk_yields(self, keys: Seq<Seq<char>>) -> bool {
        &&& keys == self.listed_keys()
        &&& keys_of(self.entries()).no_duplicates()
    }

    /// The same node with the key decoration removed from the entry under
    /// `key`, if there is one.
    pub open spec fn with_plain_key(self, key: Seq<char>) -> Node {
        if has_key(self.entries(), key) {
            self.with_entries(
                self.entries().update(
                    position(self.entries(), key),
                    self.entries()[position(self.entries(), key)].with_plain_key(),
                ),
            )
        } else {
            self
        }
    }

    /// The same table without the entries whose key is one of `names`; any
    /// other node as it is.
    pub open spec fn without(self, names: Set<Seq<char>>) -> Node {
        match self {
            Node::Table { decor, implicit, entries } => Node::Table {
                decor,
                implicit,
                entries: entries.filter(|entry: Entry| !names.contains(entry.key)),
            },
            _ => self,
        }
    }
}

/// `first_index` finds the first place of a key, and only a place that
/// holds it.
pub proof fn lemma_first_index(keys: Seq<Seq<char>>, key: Seq<char>)
    ensures
        0 <= first_index(keys, key) <= keys.len(),
        first_index(keys, key) < keys.len() ==> keys[first_index(keys, key)] == key,
        forall|i: int| 0 <= i < first_index(keys, key) ==> keys[i] != key,
        first_index(keys, key) < keys.len() <==> keys.contains(key),
    decreases keys.len(),
{
    if keys.len() > 0 && keys[0] != key {
        let rest = keys.drop_first();
        lemma_first_index(rest, key);
        assert forall|i: int| 0 <= i < first_index(keys, key) implies keys[i] != key by {
            if i > 0 {
                assert(keys[i] == rest[i - 1]);
            }
        }
        if keys.contains(key) {
            let i = choose|i: int| 0 <= i < keys.len() && keys[i] == key;
            assert(rest[i - 1] == key);
        }
        if first_index(rest, key) < rest.len() {
            assert(keys[first_index(rest, key) + 1] == key);
        }
    } else if keys.len() > 0 {
        assert(keys[0] == key);
    }
}

/// Where a key is first found once another key is added at the end.
pub proof fn lemma_first_index_push(keys: Seq<Seq<char>>, added: Seq<char>, key: Seq<char>)
    ensures
        first_index(keys, key) < keys.len() ==> first_index(keys.push(added), key)
            == first_index(keys, key),
        !(first_index(keys, key) < keys.len()) && added == key ==> first_index(
            keys.push(added),
            key,
        ) == keys.len(),
        !(first_index(keys, key) < keys.len()) && added != key ==> first_index(
            keys.push(added),
            key,
        ) == keys.len() + 1,
    decreases keys.len(),
{
    lemma_first_index(keys, key);
    if keys.len() == 0 {
        assert(keys.push(added).drop_first() =~= keys);
    } else if keys[0] != key {
        assert(keys.push(added).drop_first() =~= keys.drop_first().push(added));
        lemma_first_index_push(keys.drop_first(), added, key);
    }
}

/// What a table shows after an assignment: the new value under the
/// assigned key, and under every other key what it showed before. The keys
/// stay in their order, and a new key comes last.
pub proof fn lemma_put_shows(node: Node, key: Seq<char>, value: Node, other: Seq<char>)
    requires
        node.is_table_like(),
    ensures
        node.put(key, value).is_table_like(),
        node.put(key, value) is Table <==> node is Table,
        other == key ==> node.put(key, value).shown(other) == if value is Absent {
            None
        } else {
            Some(value)
        },
        other != key ==> node.put(key, value).shown(other) == node.shown(other),
        keys_of(node.put(key, value).entries()) == if has_key(node.entries(), key) {
            keys_of(node.entries())
        } else {
            keys_of(node.entries()).push(key)
        },
{
    let entries = node.entries();
    let after = node.put(key, value).entries();
    lemma_first_index(keys_of(entries), key);
    lemma_first_index(keys_of(entries), other);
    if has_key(entries, key) {
        assert(keys_of(after) =~= keys_of(entries));
    } else {
        assert(keys_of(after) =~= keys_of(entries).push(key));
        lemma_first_index_push(keys_of(entries), key, other);
    }
}

/// The entries that pass a filter stand under keys that differ, where all
/// entries do.
pub proof fn lemma_filter_keeps_keys_apart(entries: Seq<Entry>, keep: spec_fn(Entry) -> bool)
    requires
        keys_of(entries).no_duplicates(),
    ensures
        keys_of(entries.filter(keep)).no_duplicates(),
    decreases entries.len(),
{
    reveal(Seq::filter);
    if entries.len() > 0 {
        let front = entries.drop_last();
        assert forall|i: int, j: int|
            0 <= i < front.len() && 0 <= j < front.len() && i != j implies keys_of(front)[i]
            != keys_of(front)[j] by {
            assert(keys_of(entries)[i] == keys_of(front)[i]);
            assert(keys_of(entries)[j] == keys_of(front)[j]);
        }
        lemma_filter_keeps_keys_apart(front, keep);
        if keep(entries.last()) {
            let kept = front.filter(keep);
            let all = kept.push(entries.last());
            assert(entries.filter(keep) == all);
            assert forall|i: int, j: int|
                0 <= i < all.len() && 0 <= j < all.len() && i != j implies keys_of(all)[i]
                != keys_of(all)[j] by {
                if i < kept.len() && j < kept.len() {
                    assert(keys_of(kept)[i] != keys_of(kept)[j]);
                } else {
                    let inner = if i < kept.len() { i } else { j };
                    front.lemma_filter_contains_rev(keep, kept[inner]);
                    let source = choose|k: int| 0 <= k < front.len() && front[k] == kept[inner];
                    assert(keys_of(entries)[source] == kept[inner].key);
                    assert(keys_of(entries)[entries.len() - 1] == entries.last().key);
                }
            }
        }
    }
}

/// A key is shown by a table exactly where one of its entries stands under
/// it with a value.
pub proof fn lemma_shown_keys(entries: Seq<Entry>, key: Seq<char>)
    ensures
        shown_keys(entries).contains(key) <==> exists|i: int|
            0 <= i < entries.len() && #[trigger] entries[i].key == key && !(entries[i].value
                is Absent),
{
    let keep = |entry: Entry| !(entry.value is Absent);
    let kept = entries.filter(keep);
    broadcast use vstd::seq_lib::group_filter_ensures;
    if shown_keys(entries).contains(key) {
        let j = choose|j: int| 0 <= j < keys_of(kept).len() && keys_of(kept)[j] == key;
        assert(keep(kept[j]));
        entries.lemma_filter_contains_rev(keep, kept[j]);
        let i = choose|i: int| 0 <= i < entries.len() && entries[i] == kept[j];
        assert(entries[i].key == key && !(entries[i].value is Absent));
    }
    if exists|i: int|
        0 <= i < entries.len() && #[trigger] entries[i].key == key && !(entries[i].value
            is Absent) {
        let i = choose|i: int|
            0 <= i < entries.len() && #[trigger] entries[i].key == key && !(entries[i].value
                is Absent);
        assert(keep(entries[i]));
        assert(kept.contains(entries[i]));
        let j = choose|j: int| 0 <= j < kept.len() && kept[j] == entries[i];
        assert(keys_of(kept)[j] == key);
    }
}

} // verus!
