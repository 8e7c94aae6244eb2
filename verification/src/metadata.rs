//! The bundle's property-list metadata.

use vstd::prelude::*;
use crate::identity::PluginIdentity;

verus! {

/// One string-valued entry of a property list's top-level dictionary.
#[derive(Clone, Debug, PartialEq, Eq)]
pub struct PlistEntry {
    pub key: String,
    pub value: String,
}

impl View for PlistEntry {
    type V = (Seq<char>, Seq<char>);

    open spec fn view(&self) -> (Seq<char>, Seq<char>) {
        (self.key@, self.value@)
    }
}

/// Views of a sequence of entries, element by element.
pub open spec fn entries_view(v: Seq<PlistEntry>) -> Seq<(Seq<char>, Seq<char>)> {
    Seq::new(v.len(), |i: int| v[i]@)
}

/// The XML document that the plist writer produces for a dictionary filled
/// with these entries in this order; `None` where the writer reports an error.
pub uninterp spec fn plist_xml(entries: Seq<(Seq<char>, Seq<char>)>) -> Option<Seq<u8>>;

/// The key under which a bundle declares its identifier.
pub open spec fn identifier_key() -> Seq<char> {
    "CFBundleIdentifier"@
}

/// The entries of a plugin bundle's metadata: the fixed package type and
/// signature, then the identifier as given.
pub open spec fn info_entries(identifier: Seq<char>) -> Seq<(Seq<char>, Seq<char>)> {
    seq![
        ("CFBundlePackageType"@, "eFKT"@),
        ("CFBundleSignature"@, "FXTC"@),
        (identifier_key(), identifier),
    ]
}

/// Trusted: `plist::Dictionary::insert` for each entry in turn, then
/// `plist::Value::to_writer_xml` into a byte vector. The document depends on
/// the entries alone and is the named one; nothing is claimed of its text.
#[verifier::external_body]
pub(crate) fn write_plist_xml(entries: &Vec<PlistEntry>) -> (r: Option<Vec<u8>>)
    ensures
        r is Some <==> plist_xml(entries_view(entries@)) is Some,
        r is Some ==> r->0@ == plist_xml(entries_view(entries@))->0,
{
    let mut dict = plist::Dictionary::new();
    for e in entries.iter() {
        dict.insert(e.key.clone(), plist::Value::String(e.value.clone()));
    }
    let mut out: Vec<u8> = Vec::new();
    match plist::Value::Dictionary(dict).to_writer_xml(&mut out) {
        Ok(()) => Some(out),
        Err(_) => None,
    }
}

fn entry(key: &str, value: &str) -> (r: PlistEntry)
    ensures
        r@ == (key@, value@),
{
    PlistEntry { key: String::from_str(key), value: String::from_str(value) }
}

/// The metadata entries of the bundle for `identity`.
pub fn info_dictionary(identity: &PluginIdentity) -> (r: Vec<PlistEntry>)
    ensures
        entries_view(r@) == info_entries(identity.identifier()),
{
    let mut r: Vec<PlistEntry> = Vec::new();
    r.push(entry("CFBundlePackageType", "eFKT"));
    r.push(entry("CFBundleSignature", "FXTC"));
    r.push(entry("CFBundleIdentifier", identity.bundle_identifier()));
    assert(entries_view(r@) =~= info_entries(identity.identifier()));
    r
}

/// The bundle's metadata document for `identity`, where the writer yields one.
pub fn info_plist(identity: &PluginIdentity) -> (r: Option<Vec<u8>>)
    ensures
        r is Some <==> plist_xml(info_entries(identity.identifier())) is Some,
        r is Some ==> r->0@ == plist_xml(info_entries(identity.identifier()))->0,
{
    let entries = info_dictionary(identity);
    write_plist_xml(&entries)
}

/// The metadata holds the identity's bundle identifier exactly as given,
/// under the identifier key and under no other, and no other entry uses
/// that key.
pub proof fn identifier_is_written_unchanged(identity: PluginIdentity)
    ensures
        forall|i: int|
            0 <= i < info_entries(identity.identifier()).len() ==> (
            #[trigger] info_entries(identity.identifier())[i].0 == identifier_key() <==> i == 2),
        info_entries(identity.identifier())[2].1 == identity.identifier(),
{
    reveal_strlit("CFBundlePackageType");
    reveal_strlit("CFBundleSignature");
    reveal_strlit("CFBundleIdentifier");
    assert("CFBundlePackageType"@[8] != "CFBundleIdentifier"@[8]);
    assert("CFBundleSignature"@[8] != "CFBundleIdentifier"@[8]);
}

} // verus!
