use file_merger::merge::{merge_contents, FileToMerge};

fn loaded(path: &str, bytes: &[u8]) -> FileToMerge {
    let mut f = FileToMerge::new(String::from(path));
    f.set_content(bytes.to_vec());
    f
}

#[test]
fn merge_is_concatenation_in_selection_order() {
    let files = vec![loaded("a", b"A"), loaded("b", b"B"), loaded("c", b"C")];
    assert_eq!(merge_contents(&files), b"ABC".to_vec());
}

#[test]
fn merge_keeps_duplicates_and_order() {
    let files = vec![loaded("x", b"one"), loaded("y", b"-two-"), loaded("x", b"one")];
    assert_eq!(merge_contents(&files), b"one-two-one".to_vec());
}

#[test]
fn merge_of_single_empty_file_is_zero_bytes() {
    // other entries were loaded with nonzero content beforehand
    let _others = vec![loaded("big", b"plenty of bytes")];
    let files = vec![loaded("empty", b"")];
    assert_eq!(merge_contents(&files).len(), 0);
}

#[test]
fn merge_of_no_files_is_empty() {
    let files: Vec<FileToMerge> = Vec::new();
    assert_eq!(merge_contents(&files), Vec::<u8>::new());
}

#[test]
fn new_entry_has_empty_content_until_loaded() {
    let f = FileToMerge::new(String::from("p.txt"));
    assert_eq!(f.file_path, "p.txt");
    assert!(f.file_content.is_empty());
    let mut f = f;
    f.set_content(vec![1, 2, 3]);
    assert_eq!(f.file_path, "p.txt");
    assert_eq!(f.file_content, vec![1, 2, 3]);
}
