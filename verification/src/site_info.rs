//! The site catalog: the file list of one remote site, parsed into native
//! datatypes, with lookup by path and content-hash comparison.
//!
//! Neocities thoughtfully report a SHA-1 hash for every file in their list
//! responses, so a publisher can decide whether a local file needs uploading
//! by comparing hashes instead of transferring file contents. The catalog
//! caches one parsed list response; every comparison afterwards is local.
//!
//! Items are not stored recursively, but as one flat list, and every stored
//! path begins with `/`. The HTTP transport stays outside this crate: the
//! catalog takes the outcome of the list request — the response text, or the
//! error the transport reported — as an argument.

use vstd::prelude::*;
use vstd::string::StringExecFns;
use crate::NeocitiesError;
use crate::json::RawRecord;
use crate::json::records_of;
use crate::hashing::sha1_hex_of;

pub use crate::hashing::hash_of_bytes;
pub use crate::hashing::hash_of_string;

verus! {

/// The result of chrono's RFC 2822 parse, reduced to a Unix timestamp:
/// `Some` exactly on the strings chrono accepts as RFC 2822 dates. Which
/// strings those are takes pages to state, so the result only carries a
/// name; it is a function of the string alone.
pub uninterp spec fn rfc2822_of(s: Seq<char>) -> Option<i64>;

/// Relies on `chrono::DateTime::parse_from_rfc2822`, reducing the parsed
/// date to a plain value with `DateTime::timestamp` (seconds since the Unix
/// epoch, in UTC).
#[verifier::external_body]
fn parse_rfc2822(s: &str) -> (res: Option<i64>)
    ensures
        res == rfc2822_of(s@),
{
    match chrono::DateTime::parse_from_rfc2822(s) {
        Ok(date) => Some(date.timestamp()),
        Err(_) => None,
    }
}

/// Represents a file on the site.
#[derive(Debug)]
pub struct File {
    /// Path of the file, from root (eg `/index.html`).
    pub path: String,
    /// Time the file was last modified: seconds since the Unix epoch, UTC.
    pub modified: i64,
    /// The sha1 hash of the file, as 40 lowercase hex digits.
    pub sha1_hash: String,
    /// The size of the file, in bytes.
    pub size: u64,
}

/// Represents a directory on the site.
#[derive(Debug)]
pub struct Dir {
    /// Path of the directory, from root (eg `/blog`).
    pub path: String,
    /// Time the directory was last modified: seconds since the Unix epoch, UTC.
    pub modified: i64,
}

/// Represents an item on the site.
#[derive(Debug)]
pub enum SiteItem {
    File(File),
    Dir(Dir),
}

impl SiteItem {
    /// The stored path of the item, whichever variant it is.
    pub open spec fn path_spec(&self) -> Seq<char> {
        match self {
            SiteItem::File(f) => f.path@,
            SiteItem::Dir(d) => d.path@,
        }
    }

    /// The stored content hash, for a file; a directory has none.
    pub open spec fn file_hash(&self) -> Option<Seq<char>> {
        match self {
            SiteItem::File(f) => Some(f.sha1_hash@),
            SiteItem::Dir(_) => None,
        }
    }

    pub fn get_path(&self) -> (res: &str)
        ensures
            res@ == self.path_spec(),
    {
        match self {
            SiteItem::Dir(d) => d.path.as_str(),
            SiteItem::File(f) => f.path.as_str(),
        }
    }
}

/// Whether a raw record carries everything a file entry requires: a path, a
/// parseable date, a hash and a size.
pub open spec fn file_record_ok(r: RawRecord) -> bool {
    &&& r.path is Some
    &&& r.updated_at is Some
    &&& rfc2822_of(r.updated_at.unwrap()@) is Some
    &&& r.sha1_hash is Some
    &&& r.size is Some
}

/// Whether a raw record carries everything a directory entry requires: a
/// path and a parseable date.
pub open spec fn dir_record_ok(r: RawRecord) -> bool {
    &&& r.path is Some
    &&& r.updated_at is Some
    &&& rfc2822_of(r.updated_at.unwrap()@) is Some
}

/// Whether a raw record parses at all: it must carry the discriminator, and
/// the fields its variant requires.
pub open spec fn record_ok(r: RawRecord) -> bool {
    &&& r.is_directory is Some
    &&& if r.is_directory.unwrap() {
        dir_record_ok(r)
    } else {
        file_record_ok(r)
    }
}

/// How a parsed file relates to its raw record: the stored path is the raw
/// one with `/` prepended, and date, hash and size are carried over.
pub open spec fn file_matches(f: File, r: RawRecord) -> bool {
    &&& f.path@ == seq!['/'] + r.path.unwrap()@
    &&& Some(f.modified) == rfc2822_of(r.updated_at.unwrap()@)
    &&& f.sha1_hash@ == r.sha1_hash.unwrap()@
    &&& f.size == r.size.unwrap()
}

/// How a parsed directory relates to its raw record.
pub open spec fn dir_matches(d: Dir, r: RawRecord) -> bool {
    &&& d.path@ == seq!['/'] + r.path.unwrap()@
    &&& Some(d.modified) == rfc2822_of(r.updated_at.unwrap()@)
}

/// How a parsed item relates to its raw record: the variant follows the
/// record's discriminator, the fields follow the variant's rule.
pub open spec fn entry_matches(item: SiteItem, r: RawRecord) -> bool {
    match item {
        SiteItem::File(f) => r.is_directory == Some(false) && file_matches(f, r),
        SiteItem::Dir(d) => r.is_directory == Some(true) && dir_matches(d, r),
    }
}

/// Prepend the root separator to a raw path, as the stored form of every
/// catalog path. The server returns paths without a leading `/`.
fn rooted_path(raw: &String) -> (res: String)
    ensures
        res@ == seq!['/'] + raw@,
{
    let mut path = String::from_str("/");
    proof {
        reveal_strlit("/");
        assert(path@ =~= seq!['/']);
    }
    path.append(raw.as_str());
    path
}

impl File {
    fn from_record(r: &RawRecord) -> (res: Result<File, NeocitiesError>)
        ensures
            match res {
                Ok(f) => file_record_ok(*r) && file_matches(f, *r),
                Err(e) => !file_record_ok(*r) && e matches NeocitiesError::ListParseError,
            },
    {
        let raw_path = match &r.path {
            Some(p) => p,
            None => {
                return Err(NeocitiesError::ListParseError);
            },
        };
        let updated_at = match &r.updated_at {
            Some(u) => u,
            None => {
                return Err(NeocitiesError::ListParseError);
            },
        };
        let modified = match parse_rfc2822(updated_at.as_str()) {
            Some(t) => t,
            None => {
                return Err(NeocitiesError::ListParseError);
            },
        };
        let sha1_hash = match &r.sha1_hash {
            Some(h) => h.clone(),
            None => {
                return Err(NeocitiesError::ListParseError);
            },
        };
        let size = match &r.size {
            Some(s) => *s,
            None => {
                return Err(NeocitiesError::ListParseError);
            },
        };
        Ok(File { path: rooted_path(raw_path), modified, sha1_hash, size })
    }
}

impl Dir {
    fn from_record(r: &RawRecord) -> (res: Result<Dir, NeocitiesError>)
        ensures
            match res {
                Ok(d) => dir_record_ok(*r) && dir_matches(d, *r),
                Err(e) => !dir_record_ok(*r) && e matches NeocitiesError::ListParseError,
            },
    {
        let raw_path = match &r.path {
            Some(p) => p,
            None => {
                return Err(NeocitiesError::ListParseError);
            },
        };
        let updated_at = match &r.updated_at {
            Some(u) => u,
            None => {
                return Err(NeocitiesError::ListParseError);
            },
        };
        let modified = match parse_rfc2822(updated_at.as_str()) {
            Some(t) => t,
            None => {
                return Err(NeocitiesError::ListParseError);
            },
        };
        Ok(Dir { path: rooted_path(raw_path), modified })
    }
}

impl SiteItem {
    /// Parse one raw record of the `files` array into a typed entry.
    ///
    /// A missing member, one of the wrong type, and an unparseable date all
    /// fail with [`NeocitiesError::ListParseError`]; no partial entry is
    /// produced, and nothing is defaulted.
    pub fn from_record(r: &RawRecord) -> (res: Result<SiteItem, NeocitiesError>)
        ensures
            match res {
                Ok(item) => record_ok(*r) && entry_matches(item, *r),
                Err(e) => !record_ok(*r) && e matches NeocitiesError::ListParseError,
            },
    {
        match &r.is_directory {
            None => Err(NeocitiesError::ListParseError),
            Some(true) => match Dir::from_record(r) {
                Ok(d) => Ok(SiteItem::Dir(d)),
                Err(e) => Err(e),
            },
            Some(false) => match File::from_record(r) {
                Ok(f) => Ok(SiteItem::File(f)),
                Err(e) => Err(e),
            },
        }
    }
}

/// Whether every record of a `files` array parses.
pub open spec fn records_ok(records: Seq<RawRecord>) -> bool {
    forall|i: int| 0 <= i < records.len() ==> record_ok(#[trigger] records[i])
}

/// How a parsed catalog relates to the raw array it was loaded from: one
/// entry per record, in order, each as [`entry_matches`] demands.
pub open spec fn catalog_matches(items: Seq<SiteItem>, records: Seq<RawRecord>) -> bool {
    &&& items.len() == records.len()
    &&& forall|i: int| 0 <= i < records.len() ==> entry_matches(#[trigger] items[i], records[i])
}

/// Parse a whole `files` array, failing fast on the first malformed record.
fn parse_records(records: &Vec<RawRecord>) -> (res: Result<Vec<SiteItem>, NeocitiesError>)
    ensures
        match res {
            Ok(items) => records_ok(records@) && catalog_matches(items@, records@),
            Err(e) => !records_ok(records@) && e matches NeocitiesError::ListParseError,
        },
{
    let mut items: Vec<SiteItem> = Vec::new();
    let mut i: usize = 0;
    while i < records.len()
        invariant
            i <= records@.len(),
            items@.len() == i,
            forall|j: int| 0 <= j < i ==> record_ok(#[trigger] records@[j]) && entry_matches(
                items@[j],
                records@[j],
            ),
        decreases records@.len() - i,
    {
        match SiteItem::from_record(&records[i]) {
            Ok(item) => items.push(item),
            Err(e) => {
                assert(!record_ok(records@[i as int]));
                return Err(e);
            },
        }
        i = i + 1;
    }
    Ok(items)
}

/// Whether some entry of the catalog has the given path.
pub open spec fn contains_path(items: Seq<SiteItem>, path: Seq<char>) -> bool {
    exists|j: int| 0 <= j < items.len() && (#[trigger] items[j].path_spec()) == path
}

/// Whether position `j` holds the entry a lookup of `path` returns: its path
/// matches, and no earlier entry's does.
pub open spec fn item_at(items: Seq<SiteItem>, j: int, path: Seq<char>) -> bool {
    &&& 0 <= j < items.len()
    &&& items[j].path_spec() == path
    &&& forall|k: int| 0 <= k < j ==> (#[trigger] items[k].path_spec()) != path
}

/// Whether a lookup of `path` finds a file: the first entry with that path
/// exists and is the file variant.
pub open spec fn file_at_path(items: Seq<SiteItem>, path: Seq<char>) -> bool {
    exists|j: int| #[trigger] item_at(items, j, path) && items[j] is File
}

/// Whether a lookup of `path` finds a directory.
pub open spec fn dir_at_path(items: Seq<SiteItem>, path: Seq<char>) -> bool {
    exists|j: int| #[trigger] item_at(items, j, path) && items[j] is Dir
}

/// At most one position holds the first entry for a path.
pub proof fn lemma_item_at_unique(items: Seq<SiteItem>, j1: int, j2: int, path: Seq<char>)
    requires
        item_at(items, j1, path),
        item_at(items, j2, path),
    ensures
        j1 == j2,
{
    if j1 != j2 {
        let lo = if j1 < j2 {
            j1
        } else {
            j2
        };
        assert(items[lo].path_spec() == path);
        assert(items[lo].path_spec() != path);
    }
}

/// A struct containing the file list of the site, parsed into native
/// (non-JSON) datatypes. Items are not stored recursively, but as one big
/// list.
///
/// All paths begin with `/`, so make sure you take account of that when
/// checking for files. The HTTP client stays outside this struct: pass each
/// list request's outcome into [`SiteInfo::new`] or [`SiteInfo::refresh`].
#[derive(Debug)]
pub struct SiteInfo {
    /// All the files and directories on the site.
    pub items: Vec<SiteItem>,
}

impl SiteInfo {
    /// Every stored path begins with the root separator.
    pub open spec fn well_formed(&self) -> bool {
        forall|i: int|
            0 <= i < self.items@.len() ==> (#[trigger] self.items@[i].path_spec()).len() >= 1
                && self.items@[i].path_spec()[0] == '/'
    }

    /// Create a new `SiteInfo` from the outcome of one list-all request:
    /// the response text of the list endpoint, or the error the transport
    /// reported.
    ///
    /// A transport error is handed back unchanged. Given a response text,
    /// the catalog is built exactly when the text reduces to a `files`
    /// array whose records are all well formed, and then matches those
    /// records entry for entry; any other text fails with
    /// [`NeocitiesError::ListParseError`].
    pub fn new(list: Result<String, NeocitiesError>) -> (res: Result<SiteInfo, NeocitiesError>)
        ensures
            list matches Err(e) ==> res matches Err(e2) && e2 == e,
            list matches Ok(text) ==> match res {
                Ok(info) => records_of(text@) is Some && records_ok(records_of(text@).unwrap())
                    && catalog_matches(info.items@, records_of(text@).unwrap())
                    && info.well_formed(),
                Err(e) => !(records_of(text@) is Some && records_ok(records_of(text@).unwrap()))
                    && (e matches NeocitiesError::ListParseError),
            },
    {
        let mut info = SiteInfo { items: Vec::new() };
        match info.refresh(list) {
            Ok(_) => Ok(info),
            Err(e) => Err(e),
        }
    }

    /// Replace the whole catalog with a freshly parsed `files` array, or
    /// leave it untouched: on any parse failure the previous items survive
    /// unchanged, so callers can keep using stale-but-valid data.
    pub fn refresh_from_records(&mut self, records: &Vec<RawRecord>) -> (res: Result<
        (),
        NeocitiesError,
    >)
        ensures
            match res {
                Ok(_) => records_ok(records@) && catalog_matches(final(self).items@, records@)
                    && final(self).well_formed(),
                Err(e) => !records_ok(records@) && (e matches NeocitiesError::ListParseError)
                    && *final(self) == *old(self),
            },
    {
        match parse_records(records) {
            Ok(items) => {
                self.items = items;
                proof {
                    assert forall|i: int| 0 <= i < self.items@.len() implies (
                    #[trigger] self.items@[i].path_spec()).len() >= 1 && self.items@[i].path_spec()[0]
                        == '/' by {
                        assert(entry_matches(self.items@[i], records@[i]));
                    }
                }
                Ok(())
            },
            Err(e) => Err(e),
        }
    }

    /// Refreshes the information from the outcome of a new list-all
    /// request: either the response text, or the error the transport
    /// reported, which is handed back unchanged.
    ///
    /// Given a response text, the refresh succeeds exactly when the text
    /// reduces to a `files` array whose records are all well formed, and
    /// then the new items match those records entry for entry; any other
    /// text fails with [`NeocitiesError::ListParseError`]. The replacement
    /// is all-or-nothing: on any failure — transport or parse — the
    /// previously loaded items are left fully intact.
    pub fn refresh(&mut self, list: Result<String, NeocitiesError>) -> (res: Result<
        (),
        NeocitiesError,
    >)
        ensures
            res is Err ==> *final(self) == *old(self),
            list matches Err(e) ==> res matches Err(e2) && e2 == e,
            list matches Ok(text) ==> match res {
                Ok(_) => records_of(text@) is Some && records_ok(records_of(text@).unwrap())
                    && catalog_matches(final(self).items@, records_of(text@).unwrap())
                    && final(self).well_formed(),
                Err(e) => !(records_of(text@) is Some && records_ok(records_of(text@).unwrap()))
                    && (e matches NeocitiesError::ListParseError),
            },
    {
        let text = match list {
            Ok(t) => t,
            Err(e) => {
                return Err(e);
            },
        };
        let records = match crate::json::records_of_document(text.as_str()) {
            Some(r) => r,
            None => {
                return Err(NeocitiesError::ListParseError);
            },
        };
        self.refresh_from_records(&records)
    }

    /// Build a catalog directly from an already-extracted `files` array.
    ///
    /// Succeeds exactly when every record is well formed, and then holds one
    /// entry per record, in order; fails with
    /// [`NeocitiesError::ListParseError`] — and produces no catalog — as
    /// soon as one record is malformed.
    pub fn from_records(records: &Vec<RawRecord>) -> (res: Result<SiteInfo, NeocitiesError>)
        ensures
            match res {
                Ok(info) => records_ok(records@) && catalog_matches(info.items@, records@)
                    && info.well_formed(),
                Err(e) => !records_ok(records@) && e matches NeocitiesError::ListParseError,
            },
    {
        let mut info = SiteInfo { items: Vec::new() };
        match info.refresh_from_records(records) {
            Ok(_) => Ok(info),
            Err(e) => Err(e),
        }
    }
}

impl SiteItem {
    /// The stored path as the owned string, for comparisons.
    fn path_string(&self) -> (res: &String)
        ensures
            res@ == self.path_spec(),
    {
        match self {
            SiteItem::File(f) => &f.path,
            SiteItem::Dir(d) => &d.path,
        }
    }
}

impl SiteInfo {
    /// Get a reference to an item on the site, if it exists: the first entry
    /// whose path exactly matches (case-sensitive, including the leading
    /// `/`). Paths are unique on the remote site, so which match is returned
    /// is irrelevant in practice.
    pub fn get_item(&self, path: &str) -> (res: Option<&SiteItem>)
        ensures
            res matches Some(item) ==> exists|j: int|
                #[trigger] item_at(self.items@, j, path@) && *item == self.items@[j],
            (res is Some) == contains_path(self.items@, path@),
    {
        let wanted: String = path.to_owned();
        let mut i: usize = 0;
        while i < self.items.len()
            invariant
                i <= self.items@.len(),
                wanted@ == path@,
                forall|k: int| 0 <= k < i ==> (#[trigger] self.items@[k].path_spec()) != path@,
            decreases self.items@.len() - i,
        {
            let item = &self.items[i];
            if *item.path_string() == wanted {
                proof {
                    assert(item_at(self.items@, i as int, path@));
                }
                return Some(item);
            }
            i = i + 1;
        }
        None
    }

    /// Get a reference to a file on the site, if it exists. Returns `None`
    /// both when the path is absent and when it names a directory.
    pub fn get_file(&self, path: &str) -> (res: Option<&File>)
        ensures
            res matches Some(f) ==> exists|j: int|
                #[trigger] item_at(self.items@, j, path@) && self.items@[j] == SiteItem::File(*f),
            (res is Some) == file_at_path(self.items@, path@),
    {
        match self.get_item(path) {
            Some(item) => match item {
                SiteItem::File(f) => {
                    proof {
                        let j = choose|j: int|
                            #[trigger] item_at(self.items@, j, path@) && *item == self.items@[j];
                        assert(item_at(self.items@, j, path@) && self.items@[j] is File);
                    }
                    Some(f)
                },
                SiteItem::Dir(_) => {
                    proof {
                        let j = choose|j: int|
                            #[trigger] item_at(self.items@, j, path@) && *item == self.items@[j];
                        assert forall|j2: int| #[trigger] item_at(self.items@, j2, path@) implies !(
                        self.items@[j2] is File) by {
                            lemma_item_at_unique(self.items@, j, j2, path@);
                        }
                    }
                    None
                },
            },
            None => {
                proof {
                    if file_at_path(self.items@, path@) {
                        let j = choose|j: int|
                            #[trigger] item_at(self.items@, j, path@) && self.items@[j] is File;
                        assert(0 <= j < self.items@.len() && self.items@[j].path_spec() == path@);
                    }
                }
                None
            },
        }
    }

    /// Get a reference to a directory on the site, if it exists. Returns
    /// `None` both when the path is absent and when it names a file.
    pub fn get_dir(&self, path: &str) -> (res: Option<&Dir>)
        ensures
            res matches Some(d) ==> exists|j: int|
                #[trigger] item_at(self.items@, j, path@) && self.items@[j] == SiteItem::Dir(*d),
            (res is Some) == dir_at_path(self.items@, path@),
    {
        match self.get_item(path) {
            Some(item) => match item {
                SiteItem::Dir(d) => {
                    proof {
                        let j = choose|j: int|
                            #[trigger] item_at(self.items@, j, path@) && *item == self.items@[j];
                        assert(item_at(self.items@, j, path@) && self.items@[j] is Dir);
                    }
                    Some(d)
                },
                SiteItem::File(_) => {
                    proof {
                        let j = choose|j: int|
                            #[trigger] item_at(self.items@, j, path@) && *item == self.items@[j];
                        assert forall|j2: int| #[trigger] item_at(self.items@, j2, path@) implies !(
                        self.items@[j2] is Dir) by {
                            lemma_item_at_unique(self.items@, j, j2, path@);
                        }
                    }
                    None
                },
            },
            None => {
                proof {
                    if dir_at_path(self.items@, path@) {
                        let j = choose|j: int|
                            #[trigger] item_at(self.items@, j, path@) && self.items@[j] is Dir;
                        assert(0 <= j < self.items@.len() && self.items@[j].path_spec() == path@);
                    }
                }
                None
            },
        }
    }

    /// Whether any entry — file or directory — exists at the path.
    pub fn item_exists_on_site(&self, path: &str) -> (res: bool)
        ensures
            res == contains_path(self.items@, path@),
    {
        self.get_item(path).is_some()
    }

    /// Whether a file exists at the path.
    pub fn file_exists_on_site(&self, path: &str) -> (res: bool)
        ensures
            res == file_at_path(self.items@, path@),
    {
        self.get_file(path).is_some()
    }

    /// Whether a directory exists at the path.
    pub fn dir_exists_on_site(&self, path: &str) -> (res: bool)
        ensures
            res == dir_at_path(self.items@, path@),
    {
        self.get_dir(path).is_some()
    }
}

/// Whether a byte sequence is unchanged with respect to the catalog: the
/// lookup of `path` finds a file whose stored hash equals the bytes' hash.
pub open spec fn bytes_unchanged_at(items: Seq<SiteItem>, path: Seq<char>, bytes: Seq<u8>) -> bool {
    exists|j: int|
        #[trigger] item_at(items, j, path) && items[j].file_hash() == Some(sha1_hex_of(bytes))
}

impl SiteInfo {
    /// Compare the hash of a local byte sequence against the remote file at
    /// `remote_path`, to find out if the local and remote versions differ.
    ///
    /// Returns `false` exactly when the remote entry exists, is a file, and
    /// its stored hash equals the hash of `bytes`; `true` in every other
    /// case — entry absent, entry a directory, or hash mismatch.
    pub fn bytes_changed(&self, bytes: &[u8], remote_path: &str) -> (res: bool)
        ensures
            res == !bytes_unchanged_at(self.items@, remote_path@, bytes@),
    {
        match self.get_file(remote_path) {
            Some(f) => {
                let local_hash = hash_of_bytes(bytes);
                let unchanged = local_hash == f.sha1_hash;
                proof {
                    let j = choose|j: int|
                        #[trigger] item_at(self.items@, j, remote_path@) && self.items@[j]
                            == SiteItem::File(*f);
                    if unchanged {
                        assert(item_at(self.items@, j, remote_path@) && self.items@[j].file_hash()
                            == Some(sha1_hex_of(bytes@)));
                    } else {
                        assert forall|j2: int|
                            #[trigger] item_at(self.items@, j2, remote_path@) implies self.items@[
                        j2].file_hash() != Some(sha1_hex_of(bytes@)) by {
                            lemma_item_at_unique(self.items@, j, j2, remote_path@);
                        }
                    }
                }
                !unchanged
            },
            None => {
                proof {
                    if bytes_unchanged_at(self.items@, remote_path@, bytes@) {
                        let j = choose|j: int|
                            #[trigger] item_at(self.items@, j, remote_path@) && self.items@[
                        j].file_hash() == Some(sha1_hex_of(bytes@));
                        assert(item_at(self.items@, j, remote_path@) && self.items@[j] is File);
                    }
                }
                true
            },
        }
    }
}

/// Law: a catalog built from a well-formed `files` array holds an entry for
/// exactly the synthesized `/`-prefixed paths of that array — a lookup
/// finds a match for every path the source named, and none for any other
/// path. (That the entry count equals the array length is part of
/// [`catalog_matches`] itself.)
pub proof fn lemma_catalog_paths(items: Seq<SiteItem>, records: Seq<RawRecord>, path: Seq<char>)
    requires
        records_ok(records),
        catalog_matches(items, records),
    ensures
        contains_path(items, path) <==> exists|i: int|
            0 <= i < records.len() && path == seq!['/'] + (#[trigger] records[i]).path.unwrap()@,
{
    if contains_path(items, path) {
        let j = choose|j: int| 0 <= j < items.len() && (#[trigger] items[j].path_spec()) == path;
        assert(entry_matches(items[j], records[j]));
        assert(path == seq!['/'] + records[j].path.unwrap()@);
    }
    if exists|i: int|
        0 <= i < records.len() && path == seq!['/'] + (#[trigger] records[i]).path.unwrap()@ {
        let i = choose|i: int|
            0 <= i < records.len() && path == seq!['/'] + (#[trigger] records[i]).path.unwrap()@;
        assert(entry_matches(items[i], records[i]));
        assert((#[trigger] items[i].path_spec()) == path);
    }
}

/// Law: prepending the root separator is injective — a catalog built from
/// records whose raw paths are pairwise distinct has pairwise-distinct
/// stored paths. (Distinctness of the raw paths themselves is the remote
/// service's guarantee, not checked here.)
pub proof fn lemma_catalog_paths_distinct(items: Seq<SiteItem>, records: Seq<RawRecord>)
    requires
        records_ok(records),
        catalog_matches(items, records),
        forall|i: int, j: int|
            #![trigger records[i].path, records[j].path]
            0 <= i < j < records.len() ==> records[i].path.unwrap()@ != records[j].path.unwrap()@,
    ensures
        forall|i: int, j: int|
            #![trigger items[i].path_spec(), items[j].path_spec()]
            0 <= i < j < items.len() ==> items[i].path_spec() != items[j].path_spec(),
{
    assert forall|i: int, j: int|
        #![trigger items[i].path_spec(), items[j].path_spec()]
        0 <= i < j < items.len() implies items[i].path_spec() != items[j].path_spec() by {
        assert(entry_matches(items[i], records[i]));
        assert(entry_matches(items[j], records[j]));
        let x = records[i].path.unwrap()@;
        let y = records[j].path.unwrap()@;
        assert(x != y);
        if items[i].path_spec() == items[j].path_spec() {
            assert(seq!['/'] + x == seq!['/'] + y);
            assert(x.len() == y.len());
            assert forall|k: int| 0 <= k < x.len() implies x[k] == y[k] by {
                assert(x[k] == (seq!['/'] + x)[k + 1]);
                assert(y[k] == (seq!['/'] + y)[k + 1]);
            }
            assert(x =~= y);
        }
    }
}

} // verus!
