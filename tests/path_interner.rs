use coldfusion_ls::path_interner::PathInterner;
use coldfusion_ls::vfs_path::VirtualFsPath;

#[test]
fn test_path_interner() {
    let mut interner = PathInterner::default();
    let id1 = interner.intern(VirtualFsPath::new_virtual_path("/foo".to_string()));
    let id2 = interner.intern(VirtualFsPath::new_virtual_path("/bar".to_string()));
    assert_ne!(id1, id2);
    assert_eq!(
        interner.lookup(id1),
        &VirtualFsPath::new_virtual_path("/foo".to_string())
    );
    assert_eq!(
        interner.lookup(id2),
        &VirtualFsPath::new_virtual_path("/bar".to_string())
    );
    assert_eq!(
        interner.get(&VirtualFsPath::new_virtual_path("/foo".to_string())),
        Some(id1)
    );
    assert_eq!(
        interner.get(&VirtualFsPath::new_virtual_path("/bar".to_string())),
        Some(id2)
    );
    assert_eq!(
        interner.get(&VirtualFsPath::new_virtual_path("/baz".to_string())),
        None
    );
}

#[test]
fn interning_twice_gives_the_same_id() {
    let mut interner = PathInterner::new();
    let a = interner.intern(VirtualFsPath::new_virtual_path("/a".to_string()));
    let again = interner.intern(VirtualFsPath::new_virtual_path("/a".to_string()));
    assert_eq!(a, again);
    assert_eq!(interner.len(), 1);
}

#[test]
fn ids_are_dense_in_insertion_order() {
    let mut interner = PathInterner::new();
    let a = interner.intern(VirtualFsPath::new_virtual_path("/a".to_string()));
    let b = interner.intern(VirtualFsPath::new_real_path("/a".to_string()));
    let c = interner.intern(VirtualFsPath::new_virtual_path("/c".to_string()));
    assert_eq!((a.index(), b.index(), c.index()), (0, 1, 2));
    assert_eq!(interner.lookup(b), &VirtualFsPath::new_real_path("/a".to_string()));
}

#[test]
fn get_allocates_nothing() {
    let mut interner = PathInterner::new();
    assert_eq!(interner.get(&VirtualFsPath::new_virtual_path("/x".to_string())), None);
    assert_eq!(interner.len(), 0);
    let x = interner.intern(VirtualFsPath::new_virtual_path("/x".to_string()));
    assert_eq!(x.index(), 0);
}
