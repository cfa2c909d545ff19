//! JSON manifests, read through `serde_json`.
//!
//! A parsed document is carried as an opaque `serde_json::Value`. What the
//! classifier needs from one is handed out as plain values: the keys of an
//! object-valued field and whether a nested member is a string.

use vstd::prelude::*;
use crate::text::texts;

verus! {

/// A parsed JSON document, `serde_json::Value`. Its inside is not visible to
/// the verifier.
#[verifier::external_type_specification]
#[verifier::external_body]
pub struct ExJsonValue(serde_json::Value);

/// What `serde_json::from_str::<Value>` makes of a text: the document, or
/// nothing where the text is not one well-formed JSON value.
pub uninterp spec fn json_parse(text: Seq<char>) -> Option<serde_json::Value>;

/// The keys of the object stored under `field` of a document, in the order
/// the document's map yields them; nothing where `doc[field]` is not an
/// object.
pub uninterp spec fn json_object_keys(doc: serde_json::Value, field: Seq<char>) -> Option<
    Seq<Seq<char>>,
>;

/// Whether `doc[field][key]` is a JSON string.
pub uninterp spec fn json_string_member(
    doc: serde_json::Value,
    field: Seq<char>,
    key: Seq<char>,
) -> bool;

/// The texts of an optional list of strings.
pub open spec fn opt_texts(list: Option<Vec<String>>) -> Option<Seq<Seq<char>>> {
    match list {
        Some(v) => Some(texts(v@)),
        None => None,
    }
}

/// `serde_json::from_str` at type `Value`. A text that is not valid JSON
/// gives an error, which becomes `None`; the call does not panic. The parse
/// depends on the text alone and is named by [`json_parse`].
#[verifier::external_body]
pub(crate) fn parse_json(text: &str) -> (r: Option<serde_json::Value>)
    ensures
        r == json_parse(text@),
{
    serde_json::from_str::<serde_json::Value>(text).ok()
}

/// `Value::index` with a string key, `Value::as_object` and `Map::keys`:
/// indexing gives `Null` for a missing key or a non-object document,
/// `as_object` gives the map only for an object, and `keys` hands out every
/// key of that map. Named by [`json_object_keys`].
#[verifier::external_body]
pub(crate) fn object_keys(doc: &serde_json::Value, field: &str) -> (r: Option<Vec<String>>)
    ensures
        opt_texts(r) == json_object_keys(*doc, field@),
{
    match doc[field].as_object() {
        Some(members) => Some(members.keys().cloned().collect()),
        None => None,
    }
}

/// `Value::index` twice and `Value::is_string`: indexing never panics and
/// gives `Null` where a step does not exist, and `Null` is not a string.
/// Named by [`json_string_member`].
#[verifier::external_body]
pub(crate) fn string_member(doc: &serde_json::Value, field: &str, key: &str) -> (r: bool)
    ensures
        r == json_string_member(*doc, field@, key@),
{
    doc[field][key].is_string()
}

/// What the classifier reads from a `package.json`.
#[derive(Debug)]
pub struct NodeManifest {
    /// Keys of the `dependencies` object; empty where it is not an object.
    pub dependencies: Vec<String>,
    /// Keys of the `devDependencies` object; empty where it is not an object.
    pub dev_dependencies: Vec<String>,
    /// Whether `typescript` is declared, with a string version, in either.
    pub typescript: bool,
}

/// The mathematical content of a [`NodeManifest`].
pub struct NodeManifestView {
    pub dependencies: Seq<Seq<char>>,
    pub dev_dependencies: Seq<Seq<char>>,
    pub typescript: bool,
}

impl View for NodeManifest {
    type V = NodeManifestView;

    open spec fn view(&self) -> NodeManifestView {
        NodeManifestView {
            dependencies: texts(self.dependencies@),
            dev_dependencies: texts(self.dev_dependencies@),
            typescript: self.typescript,
        }
    }
}

/// The view of an optional manifest.
pub open spec fn opt_manifest(m: Option<NodeManifest>) -> Option<NodeManifestView> {
    match m {
        Some(m) => Some(m@),
        None => None,
    }
}

/// A key list, or the empty list where there is none.
pub open spec fn keys_or_empty(keys: Option<Seq<Seq<char>>>) -> Seq<Seq<char>> {
    match keys {
        Some(k) => k,
        None => Seq::empty(),
    }
}

/// What a parsed `package.json` declares.
pub open spec fn node_manifest_in(doc: serde_json::Value) -> NodeManifestView {
    NodeManifestView {
        dependencies: keys_or_empty(json_object_keys(doc, "dependencies"@)),
        dev_dependencies: keys_or_empty(json_object_keys(doc, "devDependencies"@)),
        typescript: json_string_member(doc, "dependencies"@, "typescript"@) || json_string_member(
            doc,
            "devDependencies"@,
            "typescript"@,
        ),
    }
}

/// What the text of a `package.json` declares; nothing where there is no
/// text or it is not valid JSON.
pub open spec fn node_manifest_of(text: Option<Seq<char>>) -> Option<NodeManifestView> {
    match text {
        Some(t) => match json_parse(t) {
            Some(doc) => Some(node_manifest_in(doc)),
            None => None,
        },
        None => None,
    }
}

/// The keys that a parsed `composer.json` lists under `require`.
pub open spec fn composer_require_in(doc: serde_json::Value) -> Seq<Seq<char>> {
    keys_or_empty(json_object_keys(doc, "require"@))
}

/// The `require` keys of the text of a `composer.json`; nothing where there
/// is no text or it is not valid JSON.
pub open spec fn composer_require_of(text: Option<Seq<char>>) -> Option<Seq<Seq<char>>> {
    match text {
        Some(t) => match json_parse(t) {
            Some(doc) => Some(composer_require_in(doc)),
            None => None,
        },
        None => None,
    }
}

/// The keys of an object-valued field, or no keys where the field is
/// missing or holds something else.
pub fn section_keys(doc: &serde_json::Value, field: &str) -> (r: Vec<String>)
    ensures
        texts(r@) == keys_or_empty(json_object_keys(*doc, field@)),
{
    match object_keys(doc, field) {
        Some(keys) => keys,
        None => {
            let empty: Vec<String> = Vec::new();
            assert(texts(empty@) =~= Seq::<Seq<char>>::empty());
            empty
        },
    }
}

impl NodeManifest {
    /// Reads the dependency sections of a parsed `package.json`.
    pub fn from_document(doc: &serde_json::Value) -> (r: NodeManifest)
        ensures
            r@ == node_manifest_in(*doc),
    {
        let typescript = string_member(doc, "dependencies", "typescript") || string_member(
            doc,
            "devDependencies",
            "typescript",
        );
        NodeManifest {
            dependencies: section_keys(doc, "dependencies"),
            dev_dependencies: section_keys(doc, "devDependencies"),
            typescript,
        }
    }

    /// Parses the text of a `package.json`. A missing or malformed text
    /// gives `None`.
    pub fn read(text: Option<&String>) -> (r: Option<NodeManifest>)
        ensures
            opt_manifest(r) == node_manifest_of(
                match text {
                    Some(t) => Some(t@),
                    None => None,
                },
            ),
    {
        match text {
            Some(t) => match parse_json(t.as_str()) {
                Some(doc) => Some(NodeManifest::from_document(&doc)),
                None => None,
            },
            None => None,
        }
    }
}

/// Parses the text of a `composer.json` and lists the keys under `require`.
/// A missing or malformed text gives `None`.
pub fn read_composer_require(text: Option<&String>) -> (r: Option<Vec<String>>)
    ensures
        opt_texts(r) == composer_require_of(
            match text {
                Some(t) => Some(t@),
                None => None,
            },
        ),
{
    match text {
        Some(t) => match parse_json(t.as_str()) {
            Some(doc) => Some(section_keys(&doc, "require")),
            None => None,
        },
        None => None,
    }
}

} // verus!
