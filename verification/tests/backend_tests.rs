use include_dir_backend::backend::IncludeDirBackend;
use include_dir_backend::error::IoErrorKind;
use include_dir_backend::file::SeekFrom;
use include_dir_backend::index::ResourceIndex;

fn sample_index() -> ResourceIndex {
    let mut idx = ResourceIndex::new();
    idx.push_file(
        "hello.txt".to_string(),
        b"hello world".to_vec(),
        Some(1_700_000_000),
    );
    idx.push_dir("images".to_string());
    idx.push_file("empty.bin".to_string(), Vec::new(), None);
    idx
}

#[test]
fn missing_path_open_and_metadata_fail_not_found() {
    let idx = sample_index();
    let backend = IncludeDirBackend::new(&idx);

    let open_err = backend.open(&"missing.txt".to_string()).unwrap_err();
    assert_eq!(open_err.kind(), IoErrorKind::NotFound);
    assert_eq!(open_err.message(), "missing.txt is not a file.");

    let meta_err = backend.metadata(&"missing.txt".to_string()).unwrap_err();
    assert_eq!(meta_err.kind(), IoErrorKind::NotFound);
    assert_eq!(meta_err.message(), "missing.txt not found.");
}

#[test]
fn directory_open_fails_but_metadata_succeeds() {
    let idx = sample_index();
    let backend = IncludeDirBackend::new(&idx);

    let open_err = backend.open(&"images".to_string()).unwrap_err();
    assert_eq!(open_err.kind(), IoErrorKind::NotFound);
    assert_eq!(open_err.message(), "images is not a file.");

    let meta = backend.metadata(&"images".to_string()).unwrap();
    assert!(meta.is_dir());
    assert_eq!(meta.len(), 0);
    let modified_err = meta.modified().unwrap_err();
    assert_eq!(modified_err.kind(), IoErrorKind::NotFound);
    assert_eq!(modified_err.message(), "cannot access metadata for images");
}

#[test]
fn repeated_reads_yield_whole_content_then_eof() {
    let idx = sample_index();
    let backend = IncludeDirBackend::new(&idx);
    let mut file = backend.open(&"hello.txt".to_string()).unwrap();

    let mut collected: Vec<u8> = Vec::new();
    loop {
        let chunk = file.read(3);
        if chunk.is_empty() {
            break;
        }
        collected.extend_from_slice(&chunk);
    }
    assert_eq!(collected, b"hello world".to_vec());
    assert_eq!(file.position(), 11);

    // End-of-stream is idempotent.
    assert!(file.read(3).is_empty());
    assert!(file.read(100).is_empty());
    assert_eq!(file.position(), 11);
}

#[test]
fn seek_absolute_then_read_yields_suffix() {
    let idx = sample_index();
    let backend = IncludeDirBackend::new(&idx);
    let mut file = backend.open(&"hello.txt".to_string()).unwrap();

    assert_eq!(file.seek(SeekFrom::Start(6)).unwrap(), 6);
    assert_eq!(file.read(100), b"world".to_vec());

    // Seeking past the end is legal; reads there yield nothing.
    assert_eq!(file.seek(SeekFrom::Start(50)).unwrap(), 50);
    assert_eq!(file.position(), 50);
    assert!(file.read(100).is_empty());
    assert_eq!(file.position(), 50);
}

#[test]
fn seek_from_end_lands_before_the_end_or_fails() {
    let idx = sample_index();
    let backend = IncludeDirBackend::new(&idx);
    let mut file = backend.open(&"hello.txt".to_string()).unwrap();

    assert_eq!(file.seek(SeekFrom::End(-5)).unwrap(), 6);
    assert_eq!(file.read(100), b"world".to_vec());
    assert_eq!(file.seek(SeekFrom::End(0)).unwrap(), 11);
    assert_eq!(file.seek(SeekFrom::End(-11)).unwrap(), 0);

    let err = file.seek(SeekFrom::End(-12)).unwrap_err();
    assert_eq!(err.kind(), IoErrorKind::InvalidSeek);
    assert_eq!(
        err.message(),
        "invalid seek to a negative or overflowing position"
    );
    // A failed seek leaves the cursor unchanged.
    assert_eq!(file.position(), 0);
}

#[test]
fn seek_from_current_is_reversible() {
    let idx = sample_index();
    let backend = IncludeDirBackend::new(&idx);
    let mut file = backend.open(&"hello.txt".to_string()).unwrap();

    assert_eq!(file.seek(SeekFrom::Start(4)).unwrap(), 4);
    assert_eq!(file.seek(SeekFrom::Current(5)).unwrap(), 9);
    assert_eq!(file.seek(SeekFrom::Current(-5)).unwrap(), 4);
    assert_eq!(file.position(), 4);

    let err = file.seek(SeekFrom::Current(-5)).unwrap_err();
    assert_eq!(err.kind(), IoErrorKind::InvalidSeek);
    assert_eq!(file.position(), 4);
}

#[test]
fn example_scenario() {
    let mut idx = ResourceIndex::new();
    idx.push_file("hello.txt".to_string(), b"hello world".to_vec(), None);
    idx.push_dir("images".to_string());
    let backend = IncludeDirBackend::new(&idx);

    let mut file = backend.open(&"hello.txt".to_string()).unwrap();
    let first = file.read(5);
    assert_eq!(first, b"hello".to_vec());
    assert_eq!(file.position(), 5);
    let second = file.read(100);
    assert_eq!(second, b" world".to_vec());
    assert_eq!(file.position(), 11);
    assert!(file.read(100).is_empty());

    let meta = backend.metadata(&"images".to_string()).unwrap();
    assert!(meta.is_dir());
    assert_eq!(meta.len(), 0);

    assert_eq!(
        backend.open(&"images".to_string()).unwrap_err().kind(),
        IoErrorKind::NotFound
    );
    assert_eq!(
        backend.metadata(&"missing.txt".to_string()).unwrap_err().kind(),
        IoErrorKind::NotFound
    );
}

#[test]
fn file_metadata_reflects_the_open_file() {
    let idx = sample_index();
    let backend = IncludeDirBackend::new(&idx);
    let file = backend.open(&"hello.txt".to_string()).unwrap();

    let meta = file.metadata().unwrap();
    assert!(!meta.is_dir());
    assert_eq!(meta.len(), 11);
    assert_eq!(meta.modified().unwrap(), 1_700_000_000);

    let backend_meta = backend.metadata(&"hello.txt".to_string()).unwrap();
    assert!(!backend_meta.is_dir());
    assert_eq!(backend_meta.len(), 11);
    assert_eq!(backend_meta.modified().unwrap(), 1_700_000_000);
}

#[test]
fn file_without_timestamp_has_no_modified_time() {
    let idx = sample_index();
    let backend = IncludeDirBackend::new(&idx);

    let meta = backend.metadata(&"empty.bin".to_string()).unwrap();
    assert!(!meta.is_dir());
    assert_eq!(meta.len(), 0);
    let err = meta.modified().unwrap_err();
    assert_eq!(err.kind(), IoErrorKind::NotFound);
    assert_eq!(err.message(), "cannot access metadata for empty.bin");
}

#[test]
fn empty_file_reads_nothing() {
    let idx = sample_index();
    let backend = IncludeDirBackend::new(&idx);
    let mut file = backend.open(&"empty.bin".to_string()).unwrap();

    assert!(file.read(10).is_empty());
    assert_eq!(file.position(), 0);
    assert_eq!(file.seek(SeekFrom::End(0)).unwrap(), 0);
    let err = file.seek(SeekFrom::End(-1)).unwrap_err();
    assert_eq!(err.kind(), IoErrorKind::InvalidSeek);
}

#[test]
fn earlier_entries_shadow_later_ones() {
    let mut idx = ResourceIndex::new();
    idx.push_file("a.txt".to_string(), b"first".to_vec(), None);
    idx.push_file("a.txt".to_string(), b"second".to_vec(), None);
    let backend = IncludeDirBackend::new(&idx);

    let mut file = backend.open(&"a.txt".to_string()).unwrap();
    assert_eq!(file.read(100), b"first".to_vec());
}

#[test]
fn read_with_zero_capacity_yields_nothing_and_stays_put() {
    let idx = sample_index();
    let backend = IncludeDirBackend::new(&idx);
    let mut file = backend.open(&"hello.txt".to_string()).unwrap();

    assert!(file.read(0).is_empty());
    assert_eq!(file.position(), 0);
    assert_eq!(file.read(5), b"hello".to_vec());
}
