use shc::archive::{entry_name, ArchiveError, ArchiveJob};
use shc::consts::ARCHIVE_SIZE_LIMIT;

const MB: u64 = 1024 * 1024;

#[test]
fn entry_names_are_relative() {
    assert_eq!(entry_name("/tmp/proj", "/tmp/proj/src/main.rs"), Some("src/main.rs".to_string()));
    assert_eq!(entry_name("/tmp/proj/", "/tmp/proj/a.txt"), Some("a.txt".to_string()));
    assert_eq!(entry_name("/tmp/proj", "/tmp/proj"), None);
    assert_eq!(entry_name("/tmp/proj", "/tmp/project/a.txt"), None);
    assert_eq!(entry_name("/tmp/proj", "/var/a.txt"), None);
}

#[test]
fn archive_under_cap_holds_every_file() {
    let mut job = ArchiveJob::new(100);
    assert_eq!(job.add_file("a".to_string(), 40), Ok(()));
    assert_eq!(job.add_file("b/c".to_string(), 60), Ok(()));
    assert_eq!(job.written, 100);
    assert_eq!(job.entries, vec!["a".to_string(), "b/c".to_string()]);
    assert!(!job.failed);
}

#[test]
fn archive_over_cap_fails() {
    let mut job = ArchiveJob::new(100);
    assert_eq!(job.add_file("a".to_string(), 60), Ok(()));
    assert_eq!(job.add_file("b".to_string(), 41), Err(ArchiveError::SizeLimitExceeded { limit: 100 }));
    assert!(job.failed);
}

#[test]
fn empty_directory_archive() {
    let job = ArchiveJob::new(ARCHIVE_SIZE_LIMIT);
    assert!(job.entries.is_empty());
    assert!(!job.failed);
    assert_eq!(ARCHIVE_SIZE_LIMIT, 30 * MB);
}

#[test]
fn forty_megabytes_under_a_thirty_megabyte_cap() {
    let mut job = ArchiveJob::new(30 * MB);
    let mut streamed = 0;
    let mut result = Ok(());
    for i in 0..4 {
        streamed += 10 * MB;
        result = job.add_file(format!("part{}", i), 10 * MB);
        if result.is_err() {
            break;
        }
    }
    assert_eq!(result, Err(ArchiveError::SizeLimitExceeded { limit: 30 * MB }));
    assert!(streamed >= 30 * MB);
    assert_eq!(job.entries.len(), 3);
}

#[test]
fn huge_file_does_not_overflow() {
    let mut job = ArchiveJob::new(u64::MAX);
    assert_eq!(job.add_file("a".to_string(), u64::MAX - 1), Ok(()));
    assert_eq!(job.add_file("b".to_string(), 2), Err(ArchiveError::SizeLimitExceeded { limit: u64::MAX }));
}
