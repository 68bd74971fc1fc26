//! The local storage traversal core: the storage session with its cycle
//! guard, the node abstraction, per-entry resolution, and the lazy entry
//! iterator.
//!
//! Paths are carried as byte strings (`Vec<u8>`), the operating system's
//! native representation of a path. Metadata, entry kinds and listings
//! enter the library as plain values; the caller performs the actual
//! system calls and feeds their results in.

use vstd::prelude::*;

verus! {

/// The kind of a directory entry, as the operating system's listing
/// reports it: a regular file, a directory, a symbolic link, or anything
/// else (socket, device, FIFO, ...).
#[derive(Clone, Copy, PartialEq, Eq, Structural, Debug)]
pub enum EntryType {
    File,
    Dir,
    Symlink,
    Other,
}

/// A metadata snapshot for one filesystem object, captured at resolution
/// time and never re-fetched afterwards.
#[derive(Clone, Copy, PartialEq, Eq, Structural, Debug)]
pub struct Metadata {
    /// The object is a regular file.
    pub is_file: bool,
    /// The object is a directory.
    pub is_dir: bool,
    /// Size in bytes.
    pub size: u64,
    /// Modification time, in seconds relative to the epoch.
    pub mtime: i64,
}

/// An error produced by the traversal core itself. Operating-system
/// errors (not found, permission denied, ...) are not represented here:
/// the caller that performs the system calls passes those through
/// unchanged.
#[derive(Debug)]
pub enum StorageError {
    /// The path or entry is neither a regular file, a directory, nor a
    /// symbolic link.
    UnsupportedEntryType { path: Vec<u8> },
    /// A symbolic link's canonical target has already been entered in
    /// this session. The reported path is the link's own (pre-resolution)
    /// path, for readability.
    SymlinkLoop { path: Vec<u8> },
}

/// Mathematical image of a [`StorageError`]: the kind and the offending
/// path as a byte sequence.
pub enum ErrorView {
    UnsupportedEntryType { path: Seq<u8> },
    SymlinkLoop { path: Seq<u8> },
}

impl View for StorageError {
    type V = ErrorView;

    open spec fn view(&self) -> ErrorView {
        match self {
            StorageError::UnsupportedEntryType { path } => (ErrorView::UnsupportedEntryType {
                path: path@,
            }),
            StorageError::SymlinkLoop { path } => (ErrorView::SymlinkLoop { path: path@ }),
        }
    }
}

/// A resolved filesystem node: a regular file with its captured
/// metadata, or a directory ready for listing.
pub enum LocalStorageNode {
    File(FileNode),
    Dir(DirNode),
}

/// A regular file: its path and the metadata snapshot captured when the
/// node was resolved.
pub struct FileNode {
    path: Vec<u8>,
    metadata: Metadata,
}

/// A directory, ready to be listed by the caller at the recorded path.
pub struct DirNode {
    path: Vec<u8>,
}

/// Mathematical image of a [`LocalStorageNode`].
pub enum NodeView {
    File { path: Seq<u8>, metadata: Metadata },
    Dir { path: Seq<u8> },
}

impl View for FileNode {
    type V = NodeView;

    closed spec fn view(&self) -> NodeView {
        NodeView::File { path: self.path@, metadata: self.metadata }
    }
}

impl View for DirNode {
    type V = NodeView;

    closed spec fn view(&self) -> NodeView {
        NodeView::Dir { path: self.path@ }
    }
}

impl View for LocalStorageNode {
    type V = NodeView;

    open spec fn view(&self) -> NodeView {
        match self {
            LocalStorageNode::File(f) => f@,
            LocalStorageNode::Dir(d) => d@,
        }
    }
}

impl FileNode {
    /// The file's path, as recorded when the node was resolved.
    pub fn path(&self) -> (p: &Vec<u8>)
        ensures
            self@ == (NodeView::File { path: p@, metadata: self.metadata_snapshot() }),
    {
        &self.path
    }

    /// The metadata snapshot captured when the node was resolved; it is
    /// never re-fetched, so it may be stale relative to the file on disk.
    pub fn metadata(&self) -> (m: Metadata)
        ensures
            m == self.metadata_snapshot(),
    {
        self.metadata
    }

    /// The captured metadata, as a specification-level accessor.
    pub closed spec fn metadata_snapshot(&self) -> Metadata {
        self.metadata
    }
}

impl DirNode {
    /// The directory's path: the caller lists it there to go on.
    pub fn path(&self) -> (p: &Vec<u8>)
        ensures
            self@ == (NodeView::Dir { path: p@ }),
    {
        &self.path
    }
}

/// Builds the error for an entry that is neither a directory nor a
/// regular file.
pub fn err_unknown_entry_type(path: Vec<u8>) -> (e: StorageError)
    ensures
        e@ == (ErrorView::UnsupportedEntryType { path: path@ }),
{
    StorageError::UnsupportedEntryType { path }
}

/// Builds the error for a symbolic link whose canonical target was
/// already entered in this session.
pub fn err_symlink_loop(path: Vec<u8>) -> (e: StorageError)
    ensures
        e@ == (ErrorView::SymlinkLoop { path: path@ }),
{
    StorageError::SymlinkLoop { path }
}

/// Copies a byte string.
fn clone_bytes(v: &Vec<u8>) -> (r: Vec<u8>)
    ensures
        r@ == v@,
{
    let mut r: Vec<u8> = Vec::new();
    let mut i: usize = 0;
    while i < v.len()
        invariant
            i <= v@.len(),
            r@ == v@.subrange(0, i as int),
        decreases v@.len() - i,
    {
        r.push(v[i]);
        proof {
            assert(r@ =~= v@.subrange(0, i + 1 as int));
        }
        i += 1;
    }
    proof {
        assert(r@ =~= v@);
    }
    r
}

/// Compares two byte strings for equality.
fn bytes_eq(a: &Vec<u8>, b: &Vec<u8>) -> (r: bool)
    ensures
        r <==> a@ == b@,
{
    if a.len() != b.len() {
        return false;
    }
    let mut i: usize = 0;
    while i < a.len()
        invariant
            i <= a@.len(),
            a@.len() == b@.len(),
            forall|j: int| 0 <= j < i ==> a@[j] == b@[j],
        decreases a@.len() - i,
    {
        if a[i] != b[i] {
            return false;
        }
        i += 1;
    }
    proof {
        assert(a@ =~= b@);
    }
    true
}

/// The storage session: the single entry point that classifies a path
/// into a node, and the owner of the cycle guard — the set of canonical
/// symlink targets already entered during this session's lifetime.
///
/// Its mathematical view is that set of targets, each a byte sequence.
pub struct LocalStorage {
    sym_pt: Vec<Vec<u8>>,
}

impl View for LocalStorage {
    type V = Set<Seq<u8>>;

    closed spec fn view(&self) -> Set<Seq<u8>> {
        Set::new(
            |p: Seq<u8>|
                exists|i: int| 0 <= i < self.sym_pt@.len() && self.sym_pt@[i]@ == p,
        )
    }
}

/// Classification of a path from its metadata snapshot: a regular file
/// keeps the path and the snapshot, a directory keeps the path, anything
/// else is refused as unsupported.
pub open spec fn classify(path: Seq<u8>, meta: Metadata) -> Result<NodeView, ErrorView> {
    if meta.is_file {
        Ok(NodeView::File { path, metadata: meta })
    } else if meta.is_dir {
        Ok(NodeView::Dir { path })
    } else {
        Err(ErrorView::UnsupportedEntryType { path })
    }
}

/// The view of a resolution result: nodes and errors replaced by their
/// mathematical images.
pub open spec fn node_result_view(r: Result<LocalStorageNode, StorageError>) -> Result<
    NodeView,
    ErrorView,
> {
    match r {
        Ok(n) => Ok(n@),
        Err(e) => Err(e@),
    }
}

impl LocalStorage {
    /// Creates a session with an empty cycle guard.
    pub fn new() -> (s: LocalStorage)
        ensures
            s@ == Set::<Seq<u8>>::empty(),
    {
        let s = LocalStorage { sym_pt: Vec::new() };
        proof {
            assert(s@ =~= Set::<Seq<u8>>::empty());
        }
        s
    }

    /// Whether a canonical target is already recorded in the cycle guard.
    fn contains_target(&self, canon: &Vec<u8>) -> (r: bool)
        ensures
            r <==> self@.contains(canon@),
    {
        let mut i: usize = 0;
        while i < self.sym_pt.len()
            invariant
                i <= self.sym_pt@.len(),
                forall|j: int| 0 <= j < i ==> self.sym_pt@[j]@ != canon@,
            decreases self.sym_pt@.len() - i,
        {
            if bytes_eq(&self.sym_pt[i], canon) {
                proof {
                    assert(self.sym_pt@[i as int]@ == canon@);
                }
                return true;
            }
            i += 1;
        }
        false
    }

    /// Records a symbolic link's canonical target in the cycle guard.
    /// Returns whether the target was new: `true` registers it, `false`
    /// means it was already entered during this session — a cycle.
    pub fn register_symlink_target(&mut self, canon: Vec<u8>) -> (fresh: bool)
        ensures
            fresh <==> !old(self)@.contains(canon@),
            final(self)@ == old(self)@.insert(canon@),
    {
        if self.contains_target(&canon) {
            proof {
                assert(self@.insert(canon@) =~= self@);
            }
            false
        } else {
            let ghost prev = self.sym_pt@;
            self.sym_pt.push(canon);
            proof {
                assert forall|p: Seq<u8>| self@.contains(p) implies old(
                    self,
                )@.insert(canon@).contains(p) by {
                    let i = choose|i: int|
                        0 <= i < self.sym_pt@.len() && self.sym_pt@[i]@ == p;
                    if i < prev.len() {
                        assert(prev[i]@ == p);
                    }
                }
                assert forall|p: Seq<u8>| old(self)@.insert(canon@).contains(p) implies self@.contains(
                    p,
                ) by {
                    if p == canon@ {
                        assert(self.sym_pt@[prev.len() as int]@ == p);
                    } else {
                        let i = choose|i: int| 0 <= i < prev.len() && prev[i]@ == p;
                        assert(self.sym_pt@[i]@ == p);
                    }
                }
                assert(final(self)@ =~= old(self)@.insert(canon@));
            }
            true
        }
    }

    /// Classifies a path from the metadata snapshot the caller captured
    /// for it (following symlinks): a regular file becomes a File node
    /// holding that snapshot, a directory becomes a Dir node bound to
    /// this session, anything else fails as unsupported.
    ///
    /// The cycle guard is left untouched: cycle tracking happens only
    /// when a symlink entry inside a directory listing is resolved, so
    /// opening the same non-symlink path twice through the session gives
    /// structurally equal results and never fails on account of the
    /// guard.
    pub fn open(&mut self, path: Vec<u8>, meta: Metadata) -> (r: Result<
        LocalStorageNode,
        StorageError,
    >)
        ensures
            *final(self) == *old(self),
            node_result_view(r) == classify(path@, meta),
    {
        if meta.is_file {
            Ok(LocalStorageNode::File(FileNode { path, metadata: meta }))
        } else if meta.is_dir {
            Ok(LocalStorageNode::Dir(DirNode { path }))
        } else {
            Err(err_unknown_entry_type(path))
        }
    }
}

/// One raw entry of a directory listing: its bare name, its full path,
/// and the type hint the listing reported — not yet resolved into a
/// node.
pub struct DirEntry {
    name: Vec<u8>,
    path: Vec<u8>,
    file_type: EntryType,
}

/// Mathematical image of a [`DirEntry`].
pub struct DirEntryView {
    pub name: Seq<u8>,
    pub path: Seq<u8>,
    pub file_type: EntryType,
}

impl View for DirEntry {
    type V = DirEntryView;

    closed spec fn view(&self) -> DirEntryView {
        DirEntryView { name: self.name@, path: self.path@, file_type: self.file_type }
    }
}

/// What resolving an entry still needs from the caller, or the finished
/// outcome when nothing more is needed.
pub enum LoadStep {
    /// The entry is a regular file: capture its metadata now, then
    /// finish with [`DirEntry::load_file`].
    StatFile,
    /// The entry is a symbolic link: canonicalize its path, then
    /// continue with [`DirEntry::enter_symlink`].
    Canonicalize,
    /// Resolution finished without any further call.
    Done(Result<LocalStorageNode, StorageError>),
}

impl DirEntry {
    /// Wraps one raw listing entry.
    pub fn new(name: Vec<u8>, path: Vec<u8>, file_type: EntryType) -> (e: DirEntry)
        ensures
            e@ == (DirEntryView { name: name@, path: path@, file_type }),
    {
        DirEntry { name, path, file_type }
    }

    /// The entry's raw file name component; no path resolution is
    /// performed.
    pub fn name(&self) -> (n: &Vec<u8>)
        ensures
            n@ == self@.name,
    {
        &self.name
    }

    /// The entry's full path inside the listed directory.
    pub fn path(&self) -> (p: &Vec<u8>)
        ensures
            p@ == self@.path,
    {
        &self.path
    }

    /// The type hint the listing reported for this entry.
    pub fn file_type(&self) -> (t: EntryType)
        ensures
            t == self@.file_type,
    {
        self.file_type
    }

    /// The first stage of resolving this entry, decided from the type
    /// hint alone (which spares a redundant metadata call when the
    /// listing already reports file-vs-directory):
    ///
    /// - a regular file asks the caller for a metadata snapshot;
    /// - a directory finishes at once as a Dir node — lazily, nothing is
    ///   listed yet;
    /// - a symbolic link asks the caller for the canonical target;
    /// - anything else finishes with `UnsupportedEntryType`.
    ///
    /// The session is not touched at this stage: in particular, an
    /// unsupported entry leaves the cycle guard unmodified.
    pub fn load_step(&self) -> (s: LoadStep)
        ensures
            self@.file_type == EntryType::File ==> s is StatFile,
            self@.file_type == EntryType::Symlink ==> s is Canonicalize,
            self@.file_type == EntryType::Dir ==> (s matches LoadStep::Done(r)
                && node_result_view(r) == Ok::<NodeView, ErrorView>(
                NodeView::Dir { path: self@.path },
            )),
            self@.file_type == EntryType::Other ==> (s matches LoadStep::Done(r)
                && node_result_view(r) == Err::<NodeView, ErrorView>(
                ErrorView::UnsupportedEntryType { path: self@.path },
            )),
    {
        match self.file_type {
            EntryType::File => LoadStep::StatFile,
            EntryType::Dir => LoadStep::Done(
                Ok(LocalStorageNode::Dir(DirNode { path: clone_bytes(&self.path) })),
            ),
            EntryType::Symlink => LoadStep::Canonicalize,
            EntryType::Other => LoadStep::Done(Err(err_unknown_entry_type(clone_bytes(&self.path)))),
        }
    }

    /// Finishes resolving a regular-file entry with the metadata
    /// snapshot the caller captured for it: a File node holding the
    /// entry's path and that snapshot.
    pub fn load_file(&self, meta: Metadata) -> (n: LocalStorageNode)
        ensures
            n@ == (NodeView::File { path: self@.path, metadata: meta }),
    {
        LocalStorageNode::File(FileNode { path: clone_bytes(&self.path), metadata: meta })
    }

    /// Continues resolving a symbolic-link entry once the caller has
    /// canonicalized its path: attempts to register the canonical target
    /// in the session's cycle guard.
    ///
    /// On the first visit of that target the registration succeeds and
    /// the caller goes on to resolve the entry's original — not the
    /// canonical — path through [`LocalStorage::open`], keeping the
    /// human-readable path in the resulting node. On a revisit the
    /// resolution fails with `SymlinkLoop`, reporting the entry's own
    /// path. Either way the target ends up recorded in the guard.
    pub fn enter_symlink(&self, store: &mut LocalStorage, canon: Vec<u8>) -> (r: Result<
        (),
        StorageError,
    >)
        ensures
            final(store)@ == old(store)@.insert(canon@),
            r is Ok <==> !old(store)@.contains(canon@),
            r matches Err(e) ==> e@ == (ErrorView::SymlinkLoop { path: self@.path }),
    {
        if store.register_symlink_target(canon) {
            Ok(())
        } else {
            Err(err_symlink_loop(clone_bytes(&self.path)))
        }
    }
}

/// A lazy, forward-only iterator over one directory's listing: it yields
/// each listed entry exactly once, in the order the operating system
/// reported them, and is not restartable.
///
/// Its mathematical view is the sequence of entries not yet yielded.
pub struct DirIter {
    entries: Vec<DirEntry>,
}

impl View for DirIter {
    type V = Seq<DirEntryView>;

    closed spec fn view(&self) -> Seq<DirEntryView> {
        self.entries@.map_values(|e: DirEntry| e@)
    }
}

impl DirIter {
    /// Builds the iterator over one directory's raw listing, taken in
    /// the exact order the operating system reported it — no sorting,
    /// no de-duplication, no omission.
    pub fn new(entries: Vec<DirEntry>) -> (it: DirIter)
        ensures
            it@ == entries@.map_values(|e: DirEntry| e@),
    {
        DirIter { entries }
    }

    /// How many entries are still to be yielded.
    pub fn remaining(&self) -> (n: usize)
        ensures
            n == self@.len(),
    {
        self.entries.len()
    }

    /// Pulls the next entry; `None` once the listing is exhausted.
    /// Every entry of the listing comes out exactly once, first to last.
    pub fn next(&mut self) -> (r: Option<DirEntry>)
        ensures
            old(self)@.len() == 0 ==> (r is None && *final(self) == *old(self)),
            old(self)@.len() > 0 ==> (r matches Some(e) && e@ == old(self)@[0] && final(self)@
                == old(self)@.drop_first()),
    {
        if self.entries.len() == 0 {
            None
        } else {
            let e = self.entries.remove(0);
            proof {
                assert(self.entries@.map_values(|e: DirEntry| e@) =~= old(
                    self,
                ).entries@.map_values(|e: DirEntry| e@).drop_first());
            }
            Some(e)
        }
    }
}

/// Law: registering a canonical target never removes anything from the
/// cycle guard — the guard only grows over a session's lifetime — and
/// the registered target is recorded whether it was fresh or not.
pub proof fn lemma_guard_grows(guard: Set<Seq<u8>>, canon: Seq<u8>)
    ensures
        guard.subset_of(guard.insert(canon)),
        guard.insert(canon).contains(canon),
{
}

/// Law (global cycle detection): once a symbolic link's canonical target
/// has been recorded in the guard, any later registration attempt of the
/// same target in that session is refused as a loop — however many other
/// targets were entered in between, and whether or not the later
/// occurrence is actually nested inside the first.
///
/// `later` is any guard state reachable after the registration that
/// produced `entered.insert(canon)`; since registrations only insert,
/// every such state contains it.
pub proof fn lemma_reentered_target_is_loop(
    entered: Set<Seq<u8>>,
    later: Set<Seq<u8>>,
    canon: Seq<u8>,
)
    requires
        entered.insert(canon).subset_of(later),
    ensures
        later.contains(canon),
{
    assert(entered.insert(canon).contains(canon));
}

/// Law (idempotence): classification is a function of the path and the
/// metadata snapshot alone. Two independent opens of the same path with
/// the same snapshot yield results with equal views, whatever the state
/// of either session's cycle guard — the guard applies only to symlink
/// targets, never to an opened path — and for a regular file or a
/// directory both succeed.
pub proof fn lemma_open_idempotent(
    r1: Result<LocalStorageNode, StorageError>,
    r2: Result<LocalStorageNode, StorageError>,
    path: Seq<u8>,
    meta: Metadata,
)
    requires
        node_result_view(r1) == classify(path, meta),
        node_result_view(r2) == classify(path, meta),
    ensures
        node_result_view(r1) == node_result_view(r2),
        meta.is_file || meta.is_dir ==> r1 is Ok && r2 is Ok,
{
}

} // verus!
