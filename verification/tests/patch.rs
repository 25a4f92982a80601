use fuseisk::patch::MutBytesExt;

#[test]
fn patch_replaces_at_every_offset_and_nowhere_else() {
    let from = b"/system/bin/init";
    let to = b"/data/magiskinit";
    let mut buf = vec![0x2eu8; 80];
    buf[10..26].copy_from_slice(from);
    buf[50..66].copy_from_slice(from);
    let before = buf.clone();
    let offsets = buf.patch(from, to);
    assert_eq!(offsets, vec![10, 50]);
    assert_eq!(&buf[10..26], to);
    assert_eq!(&buf[50..66], to);
    assert_eq!(&buf[..10], &before[..10]);
    assert_eq!(&buf[26..50], &before[26..50]);
    assert_eq!(&buf[66..], &before[66..]);
    assert_eq!(buf.len(), 80);
}

#[test]
fn patch_without_occurrence_changes_nothing() {
    let mut buf: Vec<u8> = (0u8..100).collect();
    let before = buf.clone();
    let offsets = buf.patch(b"needle", b"thread");
    assert!(offsets.is_empty());
    assert_eq!(buf, before);
}

#[test]
fn patch_takes_occurrences_that_do_not_overlap() {
    let mut buf = b"aaaaa".to_vec();
    let offsets = buf.patch(b"aa", b"bc");
    assert_eq!(offsets, vec![0, 2]);
    assert_eq!(buf, b"bcbca".to_vec());
}

#[test]
fn patch_finds_occurrences_in_the_buffer_as_it_was() {
    let mut buf = b"abab".to_vec();
    let offsets = buf.patch(b"ab", b"ba");
    assert_eq!(offsets, vec![0, 2]);
    assert_eq!(buf, b"baba".to_vec());
}

#[test]
fn patch_on_a_slice() {
    let mut buf = *b"xxfooxx";
    let offsets = buf[..].patch(b"foo", b"bar");
    assert_eq!(offsets, vec![2]);
    assert_eq!(&buf, b"xxbarxx");
}

#[test]
fn patch_at_both_ends() {
    let mut buf = b"abXab".to_vec();
    assert_eq!(buf.patch(b"ab", b"cd"), vec![0, 3]);
    assert_eq!(buf, b"cdXcd".to_vec());
}

#[test]
fn patch_with_empty_pattern_finds_every_index() {
    let mut buf = b"abc".to_vec();
    let offsets = buf.patch(b"", b"");
    assert_eq!(offsets, vec![0, 1, 2, 3]);
    assert_eq!(buf, b"abc".to_vec());
}

#[test]
fn patch_of_empty_buffer() {
    let mut buf: Vec<u8> = Vec::new();
    assert!(buf.patch(b"a", b"b").is_empty());
    assert!(buf.is_empty());
}

#[test]
fn patch_pattern_longer_than_buffer() {
    let mut buf = b"ab".to_vec();
    assert!(buf.patch(b"abc", b"xyz").is_empty());
    assert_eq!(buf, b"ab".to_vec());
}
