use coldfusion_ls::file_id::FileId;

#[test]
fn test_file_id() {
    let file_id = FileId::from_raw(22);
    assert_eq!(file_id.index(), 22);
}

#[test]
fn test_file_id_eq() {
    let file_id1 = FileId::from_raw(22);
    let file_id2 = FileId::from_raw(22);
    assert_eq!(file_id1, file_id2);
}

#[test]
fn test_file_id_ne() {
    let file_id1 = FileId::from_raw(22);
    let file_id2 = FileId::from_raw(23);
    assert_ne!(file_id1, file_id2);
}

#[test]
fn test_file_id_ord() {
    let file_id1 = FileId::from_raw(22);
    let file_id2 = FileId::from_raw(23);
    assert!(file_id1 < file_id2);
}

#[test]
fn file_id_largest_raw_value() {
    let file_id = FileId::from_raw(FileId::MAX_FILE_ID);
    assert_eq!(file_id.index(), 0x7fff_ffff);
}
