use kata_bridge::archive::{expand, ArchiveError};
use std::io::{Cursor, Write};
use zip::write::FileOptions;
use zip::{CompressionMethod, ZipWriter};

fn archive_of(entries: &[(&str, &[u8])], method: CompressionMethod) -> Vec<u8> {
    let mut writer = ZipWriter::new(Cursor::new(Vec::new()));
    for (name, contents) in entries {
        if name.ends_with('/') {
            writer.add_directory(*name, FileOptions::default()).unwrap();
            continue;
        }
        writer
            .start_file(*name, FileOptions::default().compression_method(method))
            .unwrap();
        writer.write_all(contents).unwrap();
    }
    writer.finish().unwrap().into_inner()
}

#[test]
fn expansion_keeps_names_and_contents() {
    let bytes = archive_of(
        &[("a.txt", b"alpha\n"), ("sub/b.txt", b"beta\x00\xff")],
        CompressionMethod::Stored,
    );
    let expansion = expand(bytes, "D");
    assert!(expansion.failure.is_none());
    let files = expansion.files;
    assert_eq!(files.len(), 2);
    assert_eq!(files[0].path, "D/a.txt");
    assert_eq!(files[0].contents, b"alpha\n".to_vec());
    assert!(!files[0].directory);
    assert_eq!(files[1].path, "D/sub/b.txt");
    assert_eq!(files[1].contents, b"beta\x00\xff".to_vec());
    assert!(!files[1].directory);
}

#[test]
fn directory_entries_are_marked() {
    let bytes = archive_of(
        &[("sub/", b""), ("sub/b.txt", b"beta")],
        CompressionMethod::Stored,
    );
    let expansion = expand(bytes, "D");
    assert!(expansion.failure.is_none());
    assert_eq!(expansion.files.len(), 2);
    assert!(expansion.files[0].directory);
    assert!(expansion.files[0].contents.is_empty());
    assert!(!expansion.files[1].directory);
    assert_eq!(expansion.files[1].path, "D/sub/b.txt");
}

#[test]
fn compressed_entries_are_expanded() {
    let big = vec![7u8; 10_000];
    let bytes = archive_of(&[("weights.bin", &big)], CompressionMethod::Deflated);
    let expansion = expand(bytes, "KataGo");
    assert!(expansion.failure.is_none());
    assert_eq!(expansion.files.len(), 1);
    assert_eq!(expansion.files[0].path, "KataGo/weights.bin");
    assert_eq!(expansion.files[0].contents, big);
}

#[test]
fn parent_components_are_dropped() {
    let bytes = archive_of(&[("../evil.txt", b"x")], CompressionMethod::Stored);
    let expansion = expand(bytes, "D");
    assert_eq!(expansion.files[0].path, "D/evil.txt");
}

#[test]
fn absolute_names_are_made_relative() {
    let bytes = archive_of(&[("/abs.txt", b"x")], CompressionMethod::Stored);
    let expansion = expand(bytes, "D");
    assert_eq!(expansion.files[0].path, "D/abs.txt");
}

#[test]
fn empty_archive_expands_to_nothing() {
    let bytes = archive_of(&[], CompressionMethod::Stored);
    let expansion = expand(bytes, "D");
    assert!(expansion.failure.is_none());
    assert_eq!(expansion.files.len(), 0);
}

#[test]
fn bytes_that_are_no_archive_fail_to_open() {
    let expansion = expand(b"not an archive".to_vec(), "D");
    assert!(matches!(expansion.failure, Some(ArchiveError::Open(_))));
    assert!(expansion.files.is_empty());
}

#[test]
fn damaged_entry_keeps_earlier_entries() {
    let mut bytes = archive_of(
        &[("a.txt", b"alpha-alpha"), ("b.txt", b"bravo-bravo")],
        CompressionMethod::Stored,
    );
    // Corrupt the stored contents of the second entry so its checksum fails.
    let at = bytes
        .windows(11)
        .position(|w| w == b"bravo-bravo")
        .unwrap();
    bytes[at] = b'X';
    let expansion = expand(bytes, "D");
    assert_eq!(expansion.files.len(), 1);
    assert_eq!(expansion.files[0].path, "D/a.txt");
    assert_eq!(expansion.files[0].contents, b"alpha-alpha".to_vec());
    assert!(matches!(expansion.failure, Some(ArchiveError::Entry(1, _))));
}
