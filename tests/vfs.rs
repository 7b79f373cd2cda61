use coldfusion_ls::file_id::FileId;
use coldfusion_ls::vfs::{Change, VirtualFS};
use coldfusion_ls::vfs_path::VirtualFsPath;

fn path(s: &str) -> VirtualFsPath {
    VirtualFsPath::new_real_path(s.to_string())
}

#[test]
fn deleting_a_missing_file_is_a_no_op() {
    let mut vfs = VirtualFS::default();
    assert!(!vfs.set_file_contents(path("/never"), None));
    assert!(vfs.take_changes().is_empty());
    assert_eq!(vfs.file_id(&path("/never")), None);
}

#[test]
fn deleting_twice_records_once() {
    let mut vfs = VirtualFS::new();
    assert!(vfs.set_file_contents(path("/a"), Some(b"x".to_vec())));
    assert!(vfs.set_file_contents(path("/a"), None));
    assert!(!vfs.set_file_contents(path("/a"), None));
    let changes = vfs.take_changes();
    assert_eq!(changes.len(), 2);
    assert_eq!(changes[1].change, Change::Delete);
}

#[test]
fn recreating_keeps_the_file_id() {
    let mut vfs = VirtualFS::new();
    vfs.set_file_contents(path("/a"), Some(b"1".to_vec()));
    let first = vfs.file_id(&path("/a")).unwrap();
    vfs.set_file_contents(path("/a"), None);
    assert_eq!(vfs.file_id(&path("/a")), None);
    vfs.set_file_contents(path("/a"), Some(b"2".to_vec()));
    let again = vfs.file_id(&path("/a")).unwrap();
    assert_eq!(first, again);
    let changes = vfs.take_changes();
    assert_eq!(changes.len(), 3);
    assert!(changes.iter().all(|c| c.file_id == first));
    assert_eq!(changes[0].change, Change::Create(b"1".to_vec()));
    assert_eq!(changes[1].change, Change::Delete);
    assert_eq!(changes[2].change, Change::Create(b"2".to_vec()));
}

#[test]
fn change_log_keeps_call_order_and_drains() {
    let mut vfs = VirtualFS::new();
    vfs.set_file_contents(path("/a"), Some(b"a".to_vec()));
    vfs.set_file_contents(path("/b"), Some(b"b".to_vec()));
    vfs.set_file_contents(path("/a"), Some(b"a2".to_vec()));
    let changes = vfs.take_changes();
    assert_eq!(changes.len(), 3);
    assert_eq!(changes[0].file_id, FileId(0));
    assert_eq!(changes[0].change, Change::Create(b"a".to_vec()));
    assert_eq!(changes[1].file_id, FileId(1));
    assert_eq!(changes[1].change, Change::Create(b"b".to_vec()));
    assert_eq!(changes[2].file_id, FileId(0));
    assert_eq!(changes[2].change, Change::Modify(b"a2".to_vec()));
    assert!(changes[2].file_exists());
    assert!(vfs.take_changes().is_empty());
}

#[test]
fn iter_lists_existing_files_by_id() {
    let mut vfs = VirtualFS::new();
    vfs.set_file_contents(path("/a"), Some(vec![]));
    vfs.set_file_contents(path("/b"), Some(vec![]));
    vfs.set_file_contents(path("/c"), Some(vec![]));
    vfs.set_file_contents(path("/b"), None);
    let listed: Vec<(FileId, VirtualFsPath)> =
        vfs.iter().into_iter().map(|(id, p)| (id, p.clone())).collect();
    assert_eq!(listed, vec![(FileId(0), path("/a")), (FileId(2), path("/c"))]);
    assert_eq!(vfs.file_path(FileId(1)), &path("/b"));
}

#[test]
fn deleted_change_does_not_exist() {
    let mut vfs = VirtualFS::new();
    vfs.set_file_contents(path("/a"), Some(vec![1]));
    vfs.set_file_contents(path("/a"), None);
    let changes = vfs.take_changes();
    assert!(changes[0].file_exists());
    assert!(!changes[1].file_exists());
}
