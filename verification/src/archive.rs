//! The trusted boundary to the `vach` archive crate.
//!
//! An opened [`Archive`] is opaque to verification, so its entry table is
//! given a name: [`archive_contents`] maps each stored key to the bytes its
//! entry decodes to. Every wrapper below states what the corresponding `vach`
//! call yields in terms of that name, and nothing else in the crate touches
//! `vach` directly.

use std::io::Cursor;
use std::sync::Arc;
use vach::archive::Archive;
use vstd::prelude::*;

verus! {

/// The byte source every archive handled by this crate reads from: a fully
/// in-memory buffer, shareable across threads.
pub type ArchiveSource = Cursor<Vec<u8>>;

#[verifier::external_type_specification]
#[verifier::external_body]
#[verifier::reject_recursive_types(T)]
pub struct ExArchive<T>(Archive<T>);

#[verifier::external_type_specification]
#[verifier::external_body]
#[verifier::reject_recursive_types(T)]
pub struct ExCursor<T>(Cursor<T>);

/// The entry table of an opened archive: each stored key, mapped to the bytes
/// its entry yields when fetched and decoded. The archive is immutable after
/// open, so this is a fixed function of the archive value.
pub uninterp spec fn archive_contents(a: Archive<ArchiveSource>) -> Map<Seq<char>, Seq<u8>>;

/// The stored keys whose fetch succeeds. The source is an immutable in-memory
/// buffer and decoding is deterministic, so whether a given entry decodes is
/// a fixed function of the archive value; an entry can fail to decode (for
/// one stored with a compression or encryption scheme this build lacks).
pub uninterp spec fn fetchable(a: Archive<ArchiveSource>) -> Set<Seq<char>>;

/// Whether the deterministic failure to fetch a stored key is an underlying
/// I/O failure, as opposed to any other archive-level failure.
pub uninterp spec fn fetch_fails_io(a: Archive<ArchiveSource>, key: Seq<char>) -> bool;

/// The text describing the deterministic failure to fetch a stored key.
pub uninterp spec fn fetch_failure_text(a: Archive<ArchiveSource>, key: Seq<char>) -> Seq<char>;

/// The entry table that parsing the given bytes yields, when the parse
/// succeeds: parsing an in-memory buffer is a function of the bytes alone.
pub uninterp spec fn parsed_archive(bytes: Seq<u8>) -> Option<Map<Seq<char>, Seq<u8>>>;

/// The views of a sequence of owned keys.
pub open spec fn entry_views(keys: Seq<String>) -> Seq<Seq<char>> {
    keys.map_values(|s: String| s@)
}

/// How a fetch against the archive fails, mirroring the classes of failure
/// that `vach` reports.
#[derive(Debug)]
pub(crate) enum FetchError {
    /// No entry with the requested key.
    Missing,
    /// An I/O failure from the underlying byte source, as text.
    Io(String),
    /// Any other archive-level failure (corruption, verification, decode),
    /// as text.
    Other(String),
}

/// Relies on `Archive::new`: parses the container header and entry table from
/// the buffer, failing on a malformed or incompatible source. The parse reads
/// nothing but the bytes, so it succeeds, and yields one entry table, as a
/// function of them.
#[verifier::external_body]
pub(crate) fn open_archive(bytes: Vec<u8>) -> (r: Result<Archive<ArchiveSource>, String>)
    ensures
        r is Ok ==> parsed_archive(bytes@) is Some,
        parsed_archive(bytes@) is Some ==> r is Ok,
        r matches Ok(a) ==> (parsed_archive(bytes@) matches Some(m) && archive_contents(a) == m),
{
    match Archive::new(Cursor::new(bytes)) {
        Ok(a) => Ok(a),
        Err(e) => Err(e.to_string()),
    }
}

/// Relies on `Archive::fetch`: a key absent from the entry table always
/// reports `MissingResourceError`; a present key yields its entry's decoded
/// bytes, or — deterministically, the source being an immutable in-memory
/// buffer — a failure of a fixed class with a fixed description.
#[verifier::external_body]
pub(crate) fn fetch_bytes(a: &Archive<ArchiveSource>, key: &str) -> (r: Result<
    Vec<u8>,
    FetchError,
>)
    ensures
        r matches Ok(d) ==> archive_contents(*a).dom().contains(key@) && fetchable(*a).contains(
            key@,
        ) && d@ == archive_contents(*a)[key@],
        archive_contents(*a).dom().contains(key@) && fetchable(*a).contains(key@) ==> r is Ok,
        !archive_contents(*a).dom().contains(key@) ==> r matches Err(FetchError::Missing),
        r matches Err(FetchError::Missing) ==> !archive_contents(*a).dom().contains(key@),
        r matches Err(FetchError::Io(m)) ==> archive_contents(*a).dom().contains(key@)
            && !fetchable(*a).contains(key@) && fetch_fails_io(*a, key@) && m@
            == fetch_failure_text(*a, key@),
        r matches Err(FetchError::Other(m)) ==> archive_contents(*a).dom().contains(key@)
            && !fetchable(*a).contains(key@) && !fetch_fails_io(*a, key@) && m@
            == fetch_failure_text(*a, key@),
{
    match a.fetch(key) {
        Ok(resource) => Ok(resource.data.into_vec()),
        Err(vach::archive::InternalError::MissingResourceError(_)) => Err(FetchError::Missing),
        Err(vach::archive::InternalError::IOError(e)) => Err(FetchError::Io(e.to_string())),
        Err(e) => Err(FetchError::Other(e.to_string())),
    }
}

/// Relies on `Archive::fetch_entry`: returns a copy of the registry entry
/// exactly when the key is stored.
#[verifier::external_body]
pub(crate) fn has_entry(a: &Archive<ArchiveSource>, key: &str) -> (r: bool)
    ensures
        r == archive_contents(*a).dom().contains(key@),
{
    a.fetch_entry(key).is_some()
}

/// Relies on `Archive::entries`: the returned map is keyed by exactly the
/// stored entry identifiers. The order of a walk over it is left open.
#[verifier::external_body]
pub(crate) fn list_keys(a: &Archive<ArchiveSource>) -> (r: Vec<String>)
    ensures
        entry_views(r@).no_duplicates(),
        entry_views(r@).to_set() == archive_contents(*a).dom(),
{
    a.entries().keys().map(|k| k.to_string()).collect()
}

/// Relies on `Arc::clone`: yields a second handle to the same archive value.
#[verifier::external_body]
pub(crate) fn share_archive(a: &Arc<Archive<ArchiveSource>>) -> (r: Arc<Archive<ArchiveSource>>)
    ensures
        r == *a,
{
    Arc::clone(a)
}

/// Relies on `str::starts_with` with a `&str` pattern: true exactly when the
/// pattern is a prefix of the string.
#[verifier::external_body]
pub(crate) fn str_starts_with(s: &str, prefix: &str) -> (r: bool)
    ensures
        r == prefix@.is_prefix_of(s@),
{
    s.starts_with(prefix)
}

} // verus!
