//! Tests for the local storage traversal core: classification, the
//! cycle guard, entry resolution and the entry iterator.

use local_store::local::{
    DirEntry, DirIter, EntryType, LoadStep, LocalStorage, LocalStorageNode, Metadata,
    StorageError, err_symlink_loop, err_unknown_entry_type,
};

fn meta_file(size: u64) -> Metadata {
    Metadata { is_file: true, is_dir: false, size, mtime: 0 }
}

fn meta_dir() -> Metadata {
    Metadata { is_file: false, is_dir: true, size: 0, mtime: 0 }
}

fn meta_other() -> Metadata {
    Metadata { is_file: false, is_dir: false, size: 0, mtime: 0 }
}

fn bytes(s: &str) -> Vec<u8> {
    s.as_bytes().to_vec()
}

#[test]
fn open_regular_file_captures_metadata() {
    let mut store = LocalStorage::new();
    let meta = Metadata { is_file: true, is_dir: false, size: 5, mtime: 1700000000 };
    match store.open(bytes("/r/a.txt"), meta) {
        Ok(LocalStorageNode::File(f)) => {
            assert_eq!(f.path(), &bytes("/r/a.txt"));
            assert_eq!(f.metadata(), meta);
        }
        _ => panic!("expected a File node"),
    }
}

#[test]
fn open_directory_keeps_path() {
    let mut store = LocalStorage::new();
    match store.open(bytes("/r"), meta_dir()) {
        Ok(LocalStorageNode::Dir(d)) => {
            assert_eq!(d.path(), &bytes("/r"));
        }
        _ => panic!("expected a Dir node"),
    }
}

#[test]
fn open_unsupported_type_fails() {
    let mut store = LocalStorage::new();
    match store.open(bytes("/dev/fifo"), meta_other()) {
        Err(StorageError::UnsupportedEntryType { path }) => {
            assert_eq!(path, bytes("/dev/fifo"));
        }
        _ => panic!("expected UnsupportedEntryType"),
    }
}

#[test]
fn open_twice_is_idempotent() {
    // The guard applies only to symlink targets: two independent opens
    // of the same non-symlink path give structurally equal nodes, and
    // the second never fails on account of cycle tracking.
    let mut store = LocalStorage::new();
    let meta = meta_file(7);
    let first = store.open(bytes("/r/a.txt"), meta);
    let second = store.open(bytes("/r/a.txt"), meta);
    match (first, second) {
        (Ok(LocalStorageNode::File(f1)), Ok(LocalStorageNode::File(f2))) => {
            assert_eq!(f1.path(), f2.path());
            assert_eq!(f1.metadata(), f2.metadata());
        }
        _ => panic!("both opens must yield File nodes"),
    }
}

#[test]
fn error_builders_keep_the_offending_path() {
    match err_unknown_entry_type(bytes("/p")) {
        StorageError::UnsupportedEntryType { path } => assert_eq!(path, bytes("/p")),
        _ => panic!("wrong error kind"),
    }
    match err_symlink_loop(bytes("/q")) {
        StorageError::SymlinkLoop { path } => assert_eq!(path, bytes("/q")),
        _ => panic!("wrong error kind"),
    }
}

#[test]
fn iterator_yields_every_listed_name_once_in_order() {
    let entries = vec![
        DirEntry::new(bytes("a.txt"), bytes("/r/a.txt"), EntryType::File),
        DirEntry::new(bytes("b.txt"), bytes("/r/b.txt"), EntryType::File),
        DirEntry::new(bytes("c"), bytes("/r/c"), EntryType::Symlink),
    ];
    let mut it = DirIter::new(entries);
    assert_eq!(it.remaining(), 3);
    let mut names: Vec<Vec<u8>> = Vec::new();
    while let Some(e) = it.next() {
        names.push(e.name().clone());
    }
    assert_eq!(names, vec![bytes("a.txt"), bytes("b.txt"), bytes("c")]);
    assert_eq!(it.remaining(), 0);
    assert!(it.next().is_none());
}

#[test]
fn load_step_classifies_by_type_hint() {
    let file = DirEntry::new(bytes("a.txt"), bytes("/r/a.txt"), EntryType::File);
    assert!(matches!(file.load_step(), LoadStep::StatFile));

    let dir = DirEntry::new(bytes("sub"), bytes("/r/sub"), EntryType::Dir);
    match dir.load_step() {
        LoadStep::Done(Ok(LocalStorageNode::Dir(d))) => assert_eq!(d.path(), &bytes("/r/sub")),
        _ => panic!("a directory entry resolves at once to a Dir node"),
    }

    let link = DirEntry::new(bytes("c"), bytes("/r/c"), EntryType::Symlink);
    assert!(matches!(link.load_step(), LoadStep::Canonicalize));
}

#[test]
fn load_file_captures_the_given_snapshot() {
    let entry = DirEntry::new(bytes("a.txt"), bytes("/r/a.txt"), EntryType::File);
    let meta = Metadata { is_file: true, is_dir: false, size: 5, mtime: 42 };
    match entry.load_file(meta) {
        LocalStorageNode::File(f) => {
            assert_eq!(f.path(), &bytes("/r/a.txt"));
            assert_eq!(f.metadata(), meta);
        }
        _ => panic!("expected a File node"),
    }
}

#[test]
fn unsupported_entry_fails_and_leaves_the_guard_alone() {
    let mut store = LocalStorage::new();
    let pipe = DirEntry::new(bytes("p"), bytes("/r/p"), EntryType::Other);
    match pipe.load_step() {
        LoadStep::Done(Err(StorageError::UnsupportedEntryType { path })) => {
            assert_eq!(path, bytes("/r/p"));
        }
        _ => panic!("expected UnsupportedEntryType"),
    }
    // The guard was not touched: the path's own canonical form is still
    // fresh afterwards.
    assert!(store.register_symlink_target(bytes("/r/p")));
}

#[test]
fn acyclic_symlink_resolves_to_its_target() {
    let mut store = LocalStorage::new();
    let link = DirEntry::new(bytes("s"), bytes("/r/s"), EntryType::Symlink);
    // First and only visit of the canonical target: registration
    // succeeds, and the original path is then opened as the target
    // itself resolves.
    assert!(link.enter_symlink(&mut store, bytes("/shared")).is_ok());
    match store.open(bytes("/r/s"), meta_dir()) {
        Ok(LocalStorageNode::Dir(d)) => assert_eq!(d.path(), &bytes("/r/s")),
        _ => panic!("the symlink resolves to what its target resolves to"),
    }
}

#[test]
fn symlink_chain_loops_on_reentry() {
    // A chain a -> b -> a: entering a's target, then b's target, then
    // re-entering a's target again is refused as a loop.
    let mut store = LocalStorage::new();
    let a = DirEntry::new(bytes("a"), bytes("/r/a"), EntryType::Symlink);
    let b = DirEntry::new(bytes("b"), bytes("/r/b"), EntryType::Symlink);
    assert!(a.enter_symlink(&mut store, bytes("/t/b")).is_ok());
    assert!(b.enter_symlink(&mut store, bytes("/t/a")).is_ok());
    match a.enter_symlink(&mut store, bytes("/t/b")) {
        Err(StorageError::SymlinkLoop { path }) => assert_eq!(path, bytes("/r/a")),
        _ => panic!("re-entering a registered target must loop"),
    }
}

#[test]
fn self_loop_directory_scenario() {
    // Directory /r holds a.txt ("hello"), b.txt ("world") and a symlink
    // c -> /r. Resolving the files succeeds with their snapshots; the
    // symlink registers /r on its first resolution, and resolving it
    // again in the same session fails with SymlinkLoop at /r/c.
    let mut store = LocalStorage::new();
    let listing = || {
        vec![
            DirEntry::new(bytes("a.txt"), bytes("/r/a.txt"), EntryType::File),
            DirEntry::new(bytes("b.txt"), bytes("/r/b.txt"), EntryType::File),
            DirEntry::new(bytes("c"), bytes("/r/c"), EntryType::Symlink),
        ]
    };

    let root = match store.open(bytes("/r"), meta_dir()) {
        Ok(LocalStorageNode::Dir(d)) => d,
        _ => panic!("/r is a directory"),
    };
    let mut it = DirIter::new(listing());
    assert_eq!(it.remaining(), 3);

    let a = it.next().unwrap();
    assert!(matches!(a.load_step(), LoadStep::StatFile));
    match a.load_file(meta_file(5)) {
        LocalStorageNode::File(f) => {
            assert_eq!(f.path(), &bytes("/r/a.txt"));
            assert_eq!(f.metadata().size, 5);
        }
        _ => panic!("a.txt is a file"),
    }

    let b = it.next().unwrap();
    match b.load_file(meta_file(5)) {
        LocalStorageNode::File(f) => assert_eq!(f.path(), &bytes("/r/b.txt")),
        _ => panic!("b.txt is a file"),
    }

    let c = it.next().unwrap();
    assert!(matches!(c.load_step(), LoadStep::Canonicalize));
    // First resolution: /r is a fresh target, so the link resolves to
    // the directory it points at, under its own readable path.
    assert!(c.enter_symlink(&mut store, root.path().clone()).is_ok());
    match store.open(bytes("/r/c"), meta_dir()) {
        Ok(LocalStorageNode::Dir(d)) => assert_eq!(d.path(), &bytes("/r/c")),
        _ => panic!("the link resolves to a directory"),
    }

    // A later pass over the same listing re-enters the cycle: now the
    // resolution fails, reporting the link's own path /r/c.
    let mut again = DirIter::new(listing());
    again.next();
    again.next();
    let c2 = again.next().unwrap();
    match c2.enter_symlink(&mut store, bytes("/r")) {
        Err(StorageError::SymlinkLoop { path }) => assert_eq!(path, bytes("/r/c")),
        _ => panic!("the second traversal of the cycle must loop"),
    }
}

#[test]
fn sibling_links_to_one_target_loop_on_the_second() {
    // /r/x/s and /r/y/s both point at /shared. The guard is global to
    // the session, not scoped to an ancestor chain: the first
    // occurrence resolves, the second is reported as a loop even though
    // the two links are siblings, not nested.
    let mut store = LocalStorage::new();
    let first = DirEntry::new(bytes("s"), bytes("/r/x/s"), EntryType::Symlink);
    let second = DirEntry::new(bytes("s"), bytes("/r/y/s"), EntryType::Symlink);

    assert!(first.enter_symlink(&mut store, bytes("/shared")).is_ok());
    match store.open(bytes("/r/x/s"), meta_dir()) {
        Ok(LocalStorageNode::Dir(_)) => {}
        _ => panic!("the first occurrence resolves"),
    }

    match second.enter_symlink(&mut store, bytes("/shared")) {
        Err(StorageError::SymlinkLoop { path }) => assert_eq!(path, bytes("/r/y/s")),
        _ => panic!("the second occurrence must loop"),
    }
}

#[test]
fn entry_accessors_expose_the_raw_listing_entry() {
    let e = DirEntry::new(bytes("a.txt"), bytes("/r/a.txt"), EntryType::File);
    assert_eq!(e.name(), &bytes("a.txt"));
    assert_eq!(e.path(), &bytes("/r/a.txt"));
    assert_eq!(e.file_type(), EntryType::File);
}
