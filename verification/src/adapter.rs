//! The virtual-filesystem adapter: path resolution, directory synthesis and
//! error mapping over an opened archive.

use crate::archive::archive_contents;
use crate::archive::entry_views;
use crate::archive::fetch_bytes;
use crate::archive::fetch_failure_text;
use crate::archive::fetchable;
use crate::archive::parsed_archive;
use crate::archive::has_entry;
use crate::archive::list_keys;
use crate::archive::open_archive;
use crate::archive::share_archive;
use crate::archive::str_starts_with;
use crate::archive::ArchiveSource;
use crate::archive::FetchError;
use crate::error::FileType;
use crate::error::Metadata;
use crate::error::VfsError;
use std::sync::Arc;
use vach::archive::Archive;
use vstd::prelude::*;

verus! {

/// A read-only virtual filesystem over a single opened `vach` archive.
///
/// The archive is shared, not owned: cloning the adapter yields another
/// handle to the same underlying archive, with no copy of its contents.
/// All operations are pure reads, safely repeatable and concurrent.
#[derive(Debug)]
pub struct VachAssetIo {
    archive: Arc<Archive<ArchiveSource>>,
}

impl View for VachAssetIo {
    type V = Map<Seq<char>, Seq<u8>>;

    /// An adapter is abstractly the entry table it serves: each stored key,
    /// mapped to the bytes its entry decodes to.
    closed spec fn view(&self) -> Map<Seq<char>, Seq<u8>> {
        archive_contents(*self.archive)
    }
}

/// The predicate a key must meet to appear under a directory listing for
/// `prefix`.
pub open spec fn key_matches(prefix: Seq<char>) -> spec_fn(String) -> bool {
    |s: String| prefix.is_prefix_of(s@)
}

/// A path is a synthesized directory when no entry key equals it but at
/// least one entry key has it as a prefix.
pub open spec fn is_dir_path(m: Map<Seq<char>, Seq<u8>>, p: Seq<char>) -> bool {
    &&& !m.dom().contains(p)
    &&& exists|k: Seq<char>| #[trigger] m.dom().contains(k) && p.is_prefix_of(k)
}

impl VachAssetIo {
    /// The stored keys whose load is owed success: the entries that decode.
    /// A fixed subset of the entry table, since the archive never changes.
    pub closed spec fn fetchable_keys(&self) -> Set<Seq<char>> {
        fetchable(*self.archive)
    }

    /// The text a load of a stored but undecodable key reports.
    pub closed spec fn failure_text(&self, key: Seq<char>) -> Seq<char> {
        fetch_failure_text(*self.archive, key)
    }

    /// Wrap a pre-opened archive, for callers who already manage the
    /// underlying byte source. Cannot fail: the archive is already valid.
    pub fn new(archive: Archive<ArchiveSource>) -> (r: VachAssetIo)
        ensures
            r@ == archive_contents(archive),
            r.fetchable_keys() == fetchable(archive),
    {
        VachAssetIo { archive: Arc::new(archive) }
    }

    /// Open an archive from its raw bytes and wrap it: succeeds, with the
    /// entry table the bytes parse to, exactly when they parse as an archive;
    /// fails with [`VfsError::Open`] when the container fails validation.
    pub fn from_bytes(bytes: Vec<u8>) -> (r: Result<VachAssetIo, VfsError>)
        ensures
            (r is Ok) <==> (parsed_archive(bytes@) is Some),
            r matches Ok(io) ==> (parsed_archive(bytes@) matches Some(m) && io@ == m),
            r matches Err(e) ==> e is Open,
    {
        match open_archive(bytes) {
            Ok(archive) => Ok(VachAssetIo::new(archive)),
            Err(message) => Err(VfsError::Open(message)),
        }
    }

    /// Retrieve the bytes stored at a logical path.
    ///
    /// A stored key whose entry decodes is owed its exact bytes, unmodified.
    /// The not-found failure, carrying the requested path, comes exactly on
    /// the paths with no matching entry key. A stored key whose entry does
    /// not decode reports the failure's description as [`VfsError::Io`] —
    /// whether the cause was an underlying read error or any other
    /// archive-level failure, only its text survives this boundary.
    pub fn load_path(&self, path: &str) -> (r: Result<Vec<u8>, VfsError>)
        ensures
            self@.dom().contains(path@) && self.fetchable_keys().contains(path@) ==> (r matches
            Ok(d) && d@ == self@[path@]),
            r matches Ok(d) ==> self@.dom().contains(path@) && d@ == self@[path@],
            !self@.dom().contains(path@) ==> (r matches Err(e) && e matches VfsError::NotFound(p)
                && p@ == path@),
            r matches Err(e) && e is NotFound ==> !self@.dom().contains(path@),
            self@.dom().contains(path@) && !self.fetchable_keys().contains(path@) ==> (r matches
            Err(e) && e matches VfsError::Io(m) && m@ == self.failure_text(path@)),
            r matches Err(e) ==> e is NotFound || e is Io,
    {
        match fetch_bytes(&self.archive, path) {
            Ok(data) => Ok(data),
            Err(FetchError::Missing) => Err(VfsError::NotFound(path.to_owned())),
            Err(FetchError::Io(message)) => Err(VfsError::Io(message)),
            Err(FetchError::Other(message)) => Err(VfsError::Io(message)),
        }
    }

    /// List every entry anywhere under a directory prefix, flattened: each
    /// stored key that starts with `path`, in the order the archive's
    /// enumeration yields them. Never fails; an empty result stands for a
    /// prefix with no matches.
    pub fn read_directory(&self, path: &str) -> (r: Vec<String>)
        ensures
            entry_views(r@).no_duplicates(),
            forall|k: Seq<char>|
                #[trigger] entry_views(r@).contains(k) <==> self@.dom().contains(k)
                    && path@.is_prefix_of(k),
    {
        let keys = list_keys(&self.archive);
        let r = filter_by_prefix(&keys, path);
        proof {
            let p = key_matches(path@);
            let sp = (|k: Seq<char>| path@.is_prefix_of(k));
            vstd::seq_lib::lemma_filter_view_commute(keys@, p, sp);
            assert(entry_views(r@) =~= entry_views(keys@).filter(sp));
            lemma_filter_no_duplicates(entry_views(keys@), sp);
            let views = entry_views(keys@);
            assert forall|k: Seq<char>| entry_views(r@).contains(k) implies self@.dom().contains(
                k,
            ) && path@.is_prefix_of(k) by {
                views.lemma_filter_contains_rev(sp, k);
                let i = choose|i: int|
                    0 <= i < views.filter(sp).len() && views.filter(sp)[i] == k;
                views.lemma_filter_pred(sp, i);
            }
            assert forall|k: Seq<char>|
                self@.dom().contains(k) && path@.is_prefix_of(k) implies entry_views(
                r@,
            ).contains(k) by {
                assert(views.contains(k));
                let j = choose|j: int| 0 <= j < views.len() && views[j] == k;
                views.lemma_filter_contains(sp, j);
            }
        }
        r
    }

    /// Classify a logical path: an exact entry key is a file; otherwise a
    /// prefix of at least one entry key is a synthesized directory; otherwise
    /// the path is not found and the failure carries it.
    pub fn get_metadata(&self, path: &str) -> (r: Result<Metadata, VfsError>)
        ensures
            self@.dom().contains(path@) ==> (r matches Ok(m) && m.file_type is File),
            is_dir_path(self@, path@) ==> (r matches Ok(m) && m.file_type is Directory),
            !self@.dom().contains(path@) && !is_dir_path(self@, path@) ==> (r matches Err(e)
                && e matches VfsError::NotFound(p) && p@ == path@),
    {
        if has_entry(&self.archive, path) {
            Ok(Metadata::new(FileType::File))
        } else {
            let keys = list_keys(&self.archive);
            let mut i: usize = 0;
            while i < keys.len()
                invariant
                    i <= keys.len(),
                    entry_views(keys@).to_set() == self@.dom(),
                    !self@.dom().contains(path@),
                    forall|j: int|
                        0 <= j < i ==> !path@.is_prefix_of(#[trigger] entry_views(keys@)[j]),
                decreases keys.len() - i,
            {
                if str_starts_with(keys[i].as_str(), path) {
                    proof {
                        assert(entry_views(keys@)[i as int] == keys@[i as int]@);
                        assert(entry_views(keys@).contains(keys@[i as int]@));
                        assert(self@.dom().contains(keys@[i as int]@));
                    }
                    return Ok(Metadata::new(FileType::Directory));
                }
                i += 1;
            }
            proof {
                assert forall|k: Seq<char>| self@.dom().contains(k) implies !path@.is_prefix_of(
                    k,
                ) by {
                    assert(entry_views(keys@).contains(k));
                    let j = choose|j: int|
                        0 <= j < entry_views(keys@).len() && entry_views(keys@)[j] == k;
                    assert(!path@.is_prefix_of(entry_views(keys@)[j]));
                }
            }
            Err(VfsError::NotFound(path.to_owned()))
        }
    }

    /// Watching a single path is never supported: the archive is immutable,
    /// so no change will ever be observed. Fails unconditionally, carrying
    /// the path.
    pub fn watch_path_for_changes(&self, path: &str) -> (r: Result<(), VfsError>)
        ensures
            r matches Err(e) && e matches VfsError::Unsupported(p) && p@ == path@,
    {
        Err(VfsError::Unsupported(path.to_owned()))
    }

    /// Watching the whole archive is never supported either. Fails
    /// unconditionally with a fixed notice.
    pub fn watch_for_changes(&self) -> (r: Result<(), VfsError>)
        ensures
            r matches Err(e) && e matches VfsError::Unsupported(m) && m@
                == "<Vach Archives are read only, so there is no need to watch for changes. Save yourself the milliseconds>"@,
    {
        Err(
            VfsError::Unsupported(
                "<Vach Archives are read only, so there is no need to watch for changes. Save yourself the milliseconds>".to_owned(),
            ),
        )
    }
}

impl Clone for VachAssetIo {
    /// A clone is another handle to the same archive: it observes the
    /// identical entry table, the same set of loadable keys and the same
    /// failure texts, with no copy of the archive's contents.
    fn clone(&self) -> (r: Self)
        ensures
            r@ == self@,
            r.fetchable_keys() == self.fetchable_keys(),
            forall|k: Seq<char>| #[trigger] r.failure_text(k) == self.failure_text(k),
    {
        VachAssetIo { archive: share_archive(&self.archive) }
    }
}

/// Keep, in enumeration order, the keys that start with `prefix`.
pub fn filter_by_prefix(keys: &Vec<String>, prefix: &str) -> (r: Vec<String>)
    ensures
        r@ == keys@.filter(key_matches(prefix@)),
{
    let mut out: Vec<String> = Vec::new();
    let mut i: usize = 0;
    while i < keys.len()
        invariant
            i <= keys.len(),
            out@ == keys@.take(i as int).filter(key_matches(prefix@)),
        decreases keys.len() - i,
    {
        if str_starts_with(keys[i].as_str(), prefix) {
            out.push(keys[i].clone());
        }
        proof {
            broadcast use vstd::prelude::Seq::lemma_filter_push;

            assert(keys@.take(i as int + 1) =~= keys@.take(i as int).push(keys@[i as int]));
        }
        i += 1;
    }
    proof {
        assert(keys@.take(keys.len() as int) =~= keys@);
    }
    out
}

/// Filtering a sequence without duplicates yields a sequence without
/// duplicates.
proof fn lemma_filter_no_duplicates<A>(s: Seq<A>, pred: spec_fn(A) -> bool)
    requires
        s.no_duplicates(),
    ensures
        s.filter(pred).no_duplicates(),
    decreases s.len(),
{
    reveal(Seq::filter);
    if s.len() > 0 {
        let rest = s.drop_last();
        let last = s.last();
        assert(rest.no_duplicates());
        lemma_filter_no_duplicates(rest, pred);
        if pred(last) {
            let f = rest.filter(pred);
            assert(!f.contains(last)) by {
                if f.contains(last) {
                    rest.lemma_filter_contains_rev(pred, last);
                    let i = choose|i: int| 0 <= i < rest.len() && rest[i] == last;
                    assert(s[i] == s[s.len() - 1]);
                }
            }
            assert(s.filter(pred) == f.push(last));
            assert forall|i: int, j: int|
                0 <= i < f.push(last).len() && 0 <= j < f.push(last).len()
                    && i != j implies f.push(last)[i] != f.push(last)[j] by {
                if i < f.len() && j < f.len() {
                    assert(f[i] != f[j]);
                } else if i < f.len() {
                    assert(f.contains(f[i]));
                } else if j < f.len() {
                    assert(f.contains(f[j]));
                }
            }
        }
    }
}

/// The empty prefix selects every stored entry: listing a directory at the
/// archive root returns the whole entry table.
pub proof fn lemma_empty_prefix_selects_all(m: Map<Seq<char>, Seq<u8>>)
    ensures
        forall|k: Seq<char>| m.dom().contains(k) ==> Seq::<char>::empty().is_prefix_of(k),
{
    assert forall|k: Seq<char>| m.dom().contains(k) implies Seq::<char>::empty().is_prefix_of(
        k,
    ) by {
        assert(Seq::<char>::empty() =~= k.subrange(0, 0));
    }
}

/// A path is never both a stored file and a synthesized directory: an exact
/// entry key always classifies as a file, whatever other keys it prefixes.
pub proof fn lemma_classification_exclusive(m: Map<Seq<char>, Seq<u8>>, p: Seq<char>)
    ensures
        !(m.dom().contains(p) && is_dir_path(m, p)),
{
}

/// Two adapters over the same archive — an adapter and any clone of it —
/// classify every path alike and store the same bytes for every entry, so
/// loads of one path through either handle that succeed return identical
/// bytes.
pub proof fn lemma_clones_agree(a: VachAssetIo, b: VachAssetIo, p: Seq<char>)
    requires
        a@ == b@,
    ensures
        a@.dom().contains(p) == b@.dom().contains(p),
        is_dir_path(a@, p) == is_dir_path(b@, p),
        a@.dom().contains(p) ==> a@[p] == b@[p],
{
}

} // verus!
