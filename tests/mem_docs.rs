use coldfusion_ls::mem_docs::{DocumentData, MemDocs};
use coldfusion_ls::vfs_path::{VirtualFsPath, VirtualFsPathRepr, VirtualPath};

#[test]
fn test_mem_docs() {
    let mut mem_docs = MemDocs::default();
    let path = VirtualFsPath(VirtualFsPathRepr::VirtualPath(VirtualPath(
        "test".to_string(),
    )));
    let data = DocumentData::new(0, vec![]);
    let _ = mem_docs.insert(path.clone(), data.clone());
    assert!(mem_docs.get(&path).is_some());
    assert_eq!(mem_docs.take_changes(), true);
    assert_eq!(mem_docs.take_changes(), false);
    let _ = mem_docs.remove(&path);
    assert!(mem_docs.get(&path).is_none());
    assert_eq!(mem_docs.take_changes(), true);
}

#[test]
fn duplicate_insert_is_reported_and_replaces() {
    let mut mem_docs = MemDocs::new();
    let path = VirtualFsPath::new_virtual_path("doc".to_string());
    assert_eq!(mem_docs.insert(path.clone(), DocumentData::new(1, b"one".to_vec())), Ok(()));
    assert_eq!(mem_docs.insert(path.clone(), DocumentData::new(2, b"two".to_vec())), Err(()));
    let doc = mem_docs.get(&path).unwrap();
    assert_eq!(doc.version, 2);
    assert_eq!(doc.data, b"two".to_vec());
}

#[test]
fn remove_missing_is_reported() {
    let mut mem_docs = MemDocs::new();
    let path = VirtualFsPath::new_virtual_path("doc".to_string());
    assert_eq!(mem_docs.remove(&path), Err(()));
    assert!(!mem_docs.contains(&path));
}

#[test]
fn update_keeps_flag_and_needs_open_document() {
    let mut mem_docs = MemDocs::new();
    let path = VirtualFsPath::new_virtual_path("doc".to_string());
    assert_eq!(mem_docs.update(path.clone(), DocumentData::new(5, vec![1])), Err(()));
    assert!(!mem_docs.contains(&path));
    let _ = mem_docs.insert(path.clone(), DocumentData::new(1, vec![0]));
    assert!(mem_docs.take_changes());
    assert_eq!(mem_docs.update(path.clone(), DocumentData::new(5, vec![1])), Ok(()));
    assert!(!mem_docs.take_changes());
    assert_eq!(mem_docs.get(&path).unwrap().version, 5);
}

#[test]
fn copy_does_not_see_later_changes() {
    let mut mem_docs = MemDocs::new();
    let path = VirtualFsPath::new_virtual_path("doc".to_string());
    let copy = mem_docs.duplicate();
    let _ = mem_docs.insert(path.clone(), DocumentData::new(1, vec![]));
    assert!(copy.get(&path).is_none());
    assert!(mem_docs.get(&path).is_some());
}
