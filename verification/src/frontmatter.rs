//! The manifest that is embedded in a new script.

use crate::manifest::{
    boolean_value, document_model, entry, integer_value, item_model, set_entry, set_implicit,
    text_value,
};
use crate::tree::{lemma_put_shows, Node, Scalar};
use toml_edit::{DocumentMut, Item};
use vstd::prelude::*;

verus! {

/// The `package` table: the edition, and nothing else.
pub open spec fn package_table() -> Node {
    Node::empty_table().put("edition"@, Node::scalar(Scalar::Text("2021"@)))
}

/// The `dev` profile that builds like a release: six settings, always the
/// same.
pub open spec fn dev_profile() -> Node {
    Node::empty_table().put("opt-level"@, Node::scalar(Scalar::Integer(3))).put(
        "debug"@,
        Node::scalar(Scalar::Boolean(false)),
    ).put("debug-assertions"@, Node::scalar(Scalar::Boolean(false))).put(
        "overflow-checks"@,
        Node::scalar(Scalar::Boolean(false)),
    ).put("incremental"@, Node::scalar(Scalar::Boolean(false))).put(
        "codegen-units"@,
        Node::scalar(Scalar::Integer(16)),
    )
}

/// The `profile` table: written only through its `dev` table.
pub open spec fn profile_table() -> Node {
    Node::empty_table().with_implicit(true).put("dev"@, dev_profile())
}

/// `to` with what `from` shows under `key`, if it shows anything there.
pub open spec fn copied(to: Node, from: Node, key: Seq<char>) -> Node {
    match from.shown(key) {
        Some(value) => to.put(key, value),
        None => to,
    }
}

/// The embedded manifest. It holds the package table; then each dependency
/// table that the template's manifest shows, or an empty `dependencies`
/// table where there is no template; then, on request, the profile table.
pub open spec fn merged_manifest(release_profile: bool, template: Option<Node>) -> Node {
    let packaged = Node::empty_table().put("package"@, package_table());
    let filled = match template {
        Some(source) => copied(
            copied(copied(packaged, source, "dependencies"@), source, "dev-dependencies"@),
            source,
            "build-dependencies"@,
        ),
        None => packaged.put("dependencies"@, Node::empty_table()),
    };
    if release_profile {
        filled.put("profile"@, profile_table())
    } else {
        filled
    }
}

/// The five keys of an embedded manifest differ from each other.
pub proof fn lemma_keys_differ()
    ensures
        "package"@ != "dependencies"@,
        "package"@ != "dev-dependencies"@,
        "package"@ != "build-dependencies"@,
        "package"@ != "profile"@,
        "dependencies"@ != "dev-dependencies"@,
        "dependencies"@ != "build-dependencies"@,
        "dependencies"@ != "profile"@,
        "dev-dependencies"@ != "build-dependencies"@,
        "dev-dependencies"@ != "profile"@,
        "build-dependencies"@ != "profile"@,
{
    reveal_strlit("package");
    reveal_strlit("dependencies");
    reveal_strlit("dev-dependencies");
    reveal_strlit("build-dependencies");
    reveal_strlit("profile");
    assert("package"@[1] != "profile"@[1]);
    assert("dependencies"@.len() == 12);
    assert("dev-dependencies"@.len() == 16);
    assert("build-dependencies"@.len() == 18);
}

/// What a table shows after a copy: under the copied key what the source
/// shows there, if it shows anything, and else what the table showed; under
/// every other key what the table showed.
pub proof fn lemma_copied_shows(to: Node, from: Node, key: Seq<char>, other: Seq<char>)
    requires
        to.is_table_like(),
    ensures
        copied(to, from, key).is_table_like(),
        copied(to, from, key) is Table <==> to is Table,
        other == key ==> copied(to, from, key).shown(other) == if from.shown(key) is Some {
            from.shown(key)
        } else {
            to.shown(key)
        },
        other != key ==> copied(to, from, key).shown(other) == to.shown(other),
{
    if from.shown(key) is Some {
        lemma_put_shows(to, key, from.shown(key)->0, other);
    }
}

/// What an embedded manifest holds. It is a table that always shows the
/// package table, whose edition is 2021. With a template it shows each
/// dependency table exactly as the template's manifest shows it, and none
/// that the template's manifest does not show. Without a template it shows
/// an empty `dependencies` table and no other dependency table. It shows the
/// profile table if and only if the profile was asked for.
pub proof fn lemma_merged_manifest(release_profile: bool, template: Option<Node>)
    ensures
        merged_manifest(release_profile, template) is Table,
        merged_manifest(release_profile, template).shown("package"@) == Some(package_table()),
        package_table().shown("edition"@) == Some(Node::scalar(Scalar::Text("2021"@))),
        template matches Some(source) ==> {
            &&& merged_manifest(release_profile, template).shown("dependencies"@) == source.shown(
                "dependencies"@,
            )
            &&& merged_manifest(release_profile, template).shown("dev-dependencies"@)
                == source.shown("dev-dependencies"@)
            &&& merged_manifest(release_profile, template).shown("build-dependencies"@)
                == source.shown("build-dependencies"@)
        },
        template is None ==> {
            &&& merged_manifest(release_profile, template).shown("dependencies"@) == Some(
                Node::empty_table(),
            )
            &&& merged_manifest(release_profile, template).shown("dev-dependencies"@) is None
            &&& merged_manifest(release_profile, template).shown("build-dependencies"@) is None
        },
        merged_manifest(release_profile, template).shown("profile"@) == if release_profile {
            Some(profile_table())
        } else {
            None
        },
        profile_table().shown("dev"@) == Some(dev_profile()),
{
    lemma_keys_differ();
    let package = "package"@;
    let normal = "dependencies"@;
    let development = "dev-dependencies"@;
    let build = "build-dependencies"@;
    let profile = "profile"@;
    let empty = Node::empty_table();
    lemma_put_shows(empty, "edition"@, Node::scalar(Scalar::Text("2021"@)), "edition"@);
    lemma_put_shows(empty.with_implicit(true), "dev"@, dev_profile(), "dev"@);
    let packaged = empty.put(package, package_table());
    lemma_put_shows(empty, package, package_table(), package);
    lemma_put_shows(empty, package, package_table(), normal);
    lemma_put_shows(empty, package, package_table(), development);
    lemma_put_shows(empty, package, package_table(), build);
    lemma_put_shows(empty, package, package_table(), profile);
    let filled = match template {
        Some(source) => {
            let first = copied(packaged, source, normal);
            lemma_copied_shows(packaged, source, normal, package);
            lemma_copied_shows(packaged, source, normal, normal);
            lemma_copied_shows(packaged, source, normal, development);
            lemma_copied_shows(packaged, source, normal, build);
            lemma_copied_shows(packaged, source, normal, profile);
            let second = copied(first, source, development);
            lemma_copied_shows(first, source, development, package);
            lemma_copied_shows(first, source, development, normal);
            lemma_copied_shows(first, source, development, development);
            lemma_copied_shows(first, source, development, build);
            lemma_copied_shows(first, source, development, profile);
            let third = copied(second, source, build);
            lemma_copied_shows(second, source, build, package);
            lemma_copied_shows(second, source, build, normal);
            lemma_copied_shows(second, source, build, development);
            lemma_copied_shows(second, source, build, build);
            lemma_copied_shows(second, source, build, profile);
            third
        },
        None => {
            lemma_put_shows(packaged, normal, empty, package);
            lemma_put_shows(packaged, normal, empty, normal);
            lemma_put_shows(packaged, normal, empty, development);
            lemma_put_shows(packaged, normal, empty, build);
            lemma_put_shows(packaged, normal, empty, profile);
            packaged.put(normal, empty)
        },
    };
    if release_profile {
        lemma_put_shows(filled, profile, profile_table(), package);
        lemma_put_shows(filled, profile, profile_table(), normal);
        lemma_put_shows(filled, profile, profile_table(), development);
        lemma_put_shows(filled, profile, profile_table(), build);
        lemma_put_shows(filled, profile, profile_table(), profile);
    }
}

/// Copies what `from` shows under `key` to `to`, under the same key.
pub fn clone_if_exists(from: &DocumentMut, to: &mut DocumentMut, key: &str)
    requires
        document_model(*old(to)).is_table_like(),
    ensures
        document_model(*final(to)) == copied(
            document_model(*old(to)),
            document_model(*from),
            key@,
        ),
{
    if let Some(item) = entry(from.as_item(), key) {
        set_entry(to.as_item_mut(), key, item.clone());
    }
}

/// The `dev` profile, as an item.
fn dev_profile_item() -> (dev: Item)
    ensures
        item_model(dev) == dev_profile(),
{
    let mut dev = toml_edit::table();
    set_entry(&mut dev, "opt-level", integer_value(3));
    set_entry(&mut dev, "debug", boolean_value(false));
    set_entry(&mut dev, "debug-assertions", boolean_value(false));
    set_entry(&mut dev, "overflow-checks", boolean_value(false));
    set_entry(&mut dev, "incremental", boolean_value(false));
    set_entry(&mut dev, "codegen-units", integer_value(16));
    dev
}

/// Builds the manifest that is embedded in the script. Of the template's
/// manifest only the dependency tables are used.
pub fn frontmatter_toml(release_profile: bool, template_manifest: Option<DocumentMut>) -> (root:
    DocumentMut)
    ensures
        document_model(root) == merged_manifest(
            release_profile,
            match template_manifest {
                Some(manifest) => Some(document_model(manifest)),
                None => None,
            },
        ),
{
    let mut root = DocumentMut::new();

    let mut package = toml_edit::table();
    set_entry(&mut package, "edition", text_value("2021"));
    set_entry(root.as_item_mut(), "package", package);

    if let Some(manifest) = template_manifest {
        clone_if_exists(&manifest, &mut root, "dependencies");
        clone_if_exists(&manifest, &mut root, "dev-dependencies");
        clone_if_exists(&manifest, &mut root, "build-dependencies");
    } else {
        set_entry(root.as_item_mut(), "dependencies", toml_edit::table());
    }

    if release_profile {
        let mut profile = toml_edit::table();
        set_implicit(&mut profile, true);
        set_entry(&mut profile, "dev", dev_profile_item());
        set_entry(root.as_item_mut(), "profile", profile);
    }
    root
}

} // verus!
