//! The reduction of a list response to plain records.
//!
//! The JSON work — parsing the document and walking its `files` array —
//! belongs to `serde_json` and happens behind one trusted wrapper. What a
//! given response text reduces to is pinned by the name [`records_of`], so
//! the catalog can state over it exactly when a load succeeds; the manifest
//! parser in [`crate::site_info`] then fixes, record by record, what each
//! entry holds.

use vstd::prelude::*;

verus! {

/// One element of the list endpoint's `files` array, reduced to the five
/// members the manifest schema reads.
///
/// Each field is `Some` exactly when the member is present in the JSON
/// object with the required type (`size` additionally only when the number
/// is a non-negative integer); a missing member and one of the wrong type
/// are not told apart, since the parser rejects both alike.
#[derive(Debug)]
pub struct RawRecord {
    /// The `path` member: the entry's path, without a leading separator.
    pub path: Option<String>,
    /// The `is_directory` member: the variant discriminator.
    pub is_directory: Option<bool>,
    /// The `updated_at` member: the modification date, RFC 2822 formatted.
    pub updated_at: Option<String>,
    /// The `sha1_hash` member: the file's content hash, hex-rendered.
    pub sha1_hash: Option<String>,
    /// The `size` member: the file's size in bytes.
    pub size: Option<u64>,
}

/// What a list response reduces to: `Some` exactly when the text is valid
/// JSON whose `files` member is an array, and then one record per array
/// element, in order, each field filled as [`RawRecord`] describes. The
/// mapping is serde_json's JSON grammar and takes pages to state, so the
/// result carries only a name; it is a function of the text alone.
pub uninterp spec fn records_of(text: Seq<char>) -> Option<Seq<RawRecord>>;

/// Relies on `serde_json::from_str::<Value>` (the JSON parse; malformed
/// input returns an error, here `None`) and on `Value::get`,
/// `Value::as_array`, `Value::as_str`, `Value::as_bool` and `Value::as_u64`
/// (each `Some` exactly for the member kind it names): the body only moves
/// members of the parsed document, one for one, into plain records.
#[verifier::external_body]
pub fn records_of_document(text: &str) -> (res: Option<Vec<RawRecord>>)
    ensures
        res is Some <==> records_of(text@) is Some,
        res matches Some(records) ==> records@ == records_of(text@).unwrap(),
{
    let document = serde_json::from_str::<serde_json::Value>(text).ok()?;
    let elements = document.get("files")?.as_array()?;
    Some(elements.iter().map(|element| RawRecord {
        path: element.get("path").and_then(|m| m.as_str()).map(String::from),
        is_directory: element.get("is_directory").and_then(|m| m.as_bool()),
        updated_at: element.get("updated_at").and_then(|m| m.as_str()).map(String::from),
        sha1_hash: element.get("sha1_hash").and_then(|m| m.as_str()).map(String::from),
        size: element.get("size").and_then(|m| m.as_u64()),
    }).collect())
}

} // verus!
