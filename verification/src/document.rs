//! Reading the identifier out of an SBOM document.
//!
//! A document is JSON text. The one thing read from it is the package URL of
//! the component it describes, the string at `metadata.component.purl`. With
//! the hash of the text it makes up what the index keeps of the document.

use crate::digest::content_hash;
use crate::digest::content_hash_of;
use vstd::prelude::*;

verus! {

/// A parsed JSON document, opaque to the verifier.
#[verifier::external_type_specification]
#[verifier::external_body]
pub struct ExValue(serde_json::Value);

/// The strings of a document, each under the names of the object members that
/// lead to it from the root. A document that is itself a string holds it under
/// the empty path; what lies inside an array is not reached.
pub uninterp spec fn json_strings(doc: serde_json::Value) -> Map<Seq<Seq<char>>, Seq<char>>;

/// What `serde_json::from_slice` makes of a text: the strings of the document
/// it parses to, or `None` where it rejects the text.
pub uninterp spec fn json_parse(text: Seq<u8>) -> Option<Map<Seq<Seq<char>>, Seq<char>>>;

/// The strings found below the member `name`, by the rest of their paths.
pub open spec fn strings_under(
    strings: Map<Seq<Seq<char>>, Seq<char>>,
    name: Seq<char>,
) -> Map<Seq<Seq<char>>, Seq<char>> {
    Map::new(
        |rest: Seq<Seq<char>>| strings.contains_key(seq![name] + rest),
        |rest: Seq<Seq<char>>| strings[seq![name] + rest],
    )
}

/// The member names that lead to a document's package URL.
pub open spec fn purl_path() -> Seq<Seq<char>> {
    seq!["metadata"@, "component"@, "purl"@]
}

/// The string found under a path, if there is one.
pub open spec fn string_at(
    strings: Map<Seq<Seq<char>>, Seq<char>>,
    path: Seq<Seq<char>>,
) -> Option<Seq<char>> {
    if strings.contains_key(path) {
        Some(strings[path])
    } else {
        None
    }
}

/// The package URL among the strings of a document, if it has one.
pub open spec fn purl_in(strings: Map<Seq<Seq<char>>, Seq<char>>) -> Option<Seq<char>> {
    string_at(strings, purl_path())
}

/// The package URL of a document given as text: `None` where the text is not
/// JSON or holds no string at the path.
pub open spec fn document_purl(text: Seq<u8>) -> Option<Seq<char>> {
    match json_parse(text) {
        Some(strings) => purl_in(strings),
        None => None,
    }
}

/// Calls `serde_json::from_slice` for a `serde_json::Value` and drops the
/// error of a text that it rejects. Parsing depends on the text alone, so the
/// outcome is named [`json_parse`].
#[verifier::external_body]
fn parse(text: &[u8]) -> (r: Option<serde_json::Value>)
    ensures
        match r {
            Some(doc) => json_parse(text@) == Some(json_strings(doc)),
            None => json_parse(text@) is None,
        },
{
    serde_json::from_slice::<serde_json::Value>(text).ok()
}

/// Indexes a `serde_json::Value` by a member name. That operator hands out the
/// member of that name where the value is an object that has one, and a null
/// value otherwise; it does not panic. So the result holds the strings that
/// the value holds below `name`, and no others.
#[verifier::external_body]
fn member<'a>(doc: &'a serde_json::Value, name: &str) -> (r: &'a serde_json::Value)
    ensures
        json_strings(*r) == strings_under(json_strings(*doc), name@),
{
    &doc[name]
}

/// Calls `serde_json::Value::as_str`: the text of a value that is a string,
/// `None` for every other value.
#[verifier::external_body]
fn as_text<'a>(doc: &'a serde_json::Value) -> (r: Option<&'a str>)
    ensures
        match r {
            Some(s) => string_at(json_strings(*doc), Seq::empty()) == Some(s@),
            None => string_at(json_strings(*doc), Seq::empty()) is None,
        },
{
    doc.as_str()
}

/// Whether an optional string holds the given characters.
pub open spec fn holds(found: Option<String>, expected: Option<Seq<char>>) -> bool {
    match found {
        Some(s) => expected == Some(s@),
        None => expected is None,
    }
}

/// Reads the package URL out of a parsed document.
pub fn purl_of(doc: &serde_json::Value) -> (r: Option<String>)
    ensures
        holds(r, purl_in(json_strings(*doc))),
{
    let metadata = member(doc, "metadata");
    let component = member(metadata, "component");
    let purl = member(component, "purl");
    proof {
        let path = seq!["metadata"@] + (seq!["component"@] + (seq!["purl"@] + Seq::empty()));
        assert(path =~= purl_path());
    }
    match as_text(purl) {
        Some(s) => Some(s.to_owned()),
        None => None,
    }
}

/// Reads the package URL out of a document given as text.
pub fn extract_purl(text: &[u8]) -> (r: Option<String>)
    ensures
        holds(r, document_purl(text@)),
{
    match parse(text) {
        Some(doc) => purl_of(&doc),
        None => None,
    }
}

/// What identifies a document in the index: the package URL that it names and
/// the hash of its text.
#[derive(Clone, Debug, PartialEq, Eq)]
pub struct Identity {
    pub identifier: String,
    pub hash: String,
}

/// An [`Identity`] as specifications see it.
pub struct IdentityView {
    pub identifier: Seq<char>,
    pub hash: Seq<char>,
}

impl View for Identity {
    type V = IdentityView;

    open spec fn view(&self) -> IdentityView {
        IdentityView { identifier: self.identifier@, hash: self.hash@ }
    }
}

/// An optional [`Identity`] as specifications see it.
pub open spec fn view_of(identity: Option<Identity>) -> Option<IdentityView> {
    match identity {
        Some(found) => Some(found@),
        None => None,
    }
}

/// The identity of a document given as text: its package URL and its content
/// hash, or `None` where it has no package URL.
pub open spec fn identity_of(text: Seq<u8>) -> Option<IdentityView> {
    match document_purl(text) {
        Some(identifier) => Some(IdentityView { identifier, hash: content_hash_of(text) }),
        None => None,
    }
}

/// Identifies a document. The text is hashed only where it names a package
/// URL.
pub fn identify(text: &[u8]) -> (r: Option<Identity>)
    ensures
        view_of(r) == identity_of(text@),
{
    match extract_purl(text) {
        Some(identifier) => Some(Identity { identifier, hash: content_hash(text) }),
        None => None,
    }
}

} // verus!
