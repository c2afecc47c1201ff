use amber::cache::{FileStatus, PreparsedFile, PretokenizedFile};
use amber::file_source::FileMeta;

fn tokens_cache(mtime: Option<i128>, len: u64, hash: &str, meta: FileMeta) -> PretokenizedFile<u8> {
    PretokenizedFile { tokens: vec![], mtime, len, amber_git_hash: hash.to_string(), file_meta: meta }
}

fn file(len: u64, mtime: Option<i128>) -> FileStatus {
    FileStatus { readable: true, is_file: true, len, mtime }
}

#[test]
fn cache_paths() {
    assert_eq!(
        PretokenizedFile::<u8>::get_path("src/main.ab", FileMeta::file(false), None),
        Some("src_main.ab.tk.c".to_string())
    );
    assert_eq!(
        PretokenizedFile::<u8>::get_path("std/array", FileMeta::stdlib(true), Some("/home/u/.cache/amber")),
        Some("/home/u/.cache/amber/std_array.ab.tk.c".to_string())
    );
    assert_eq!(PretokenizedFile::<u8>::get_path("std/array", FileMeta::stdlib(true), None), None);
    assert_eq!(
        PretokenizedFile::<u8>::get_path("c:/x.ab", FileMeta::file(false), None),
        Some("c__x.ab.tk.c".to_string())
    );
}

#[test]
fn token_cache_of_an_unchanged_file_is_valid() {
    let c = tokens_cache(Some(5), 10, "abc", FileMeta::file(false));
    assert!(c.validate(FileMeta::file(false), "abc", file(10, Some(5)), None));
    // An unreadable file does not invalidate the cache.
    let gone = FileStatus { readable: false, is_file: false, len: 0, mtime: None };
    assert!(c.validate(FileMeta::file(false), "abc", gone, None));
}

#[test]
fn token_cache_rejects_changes() {
    let c = tokens_cache(Some(5), 10, "abc", FileMeta::file(false));
    assert!(!c.validate(FileMeta::file(false), "xyz", file(10, Some(5)), None));
    assert!(!c.validate(FileMeta::file(false), "abc", file(11, Some(5)), None));
    assert!(!c.validate(FileMeta::file(false), "abc", file(10, Some(6)), None));
    let dir = FileStatus { readable: true, is_file: false, len: 10, mtime: Some(5) };
    assert!(!c.validate(FileMeta::file(false), "abc", dir, None));
    // A missing modification time on either side is not compared.
    assert!(c.validate(FileMeta::file(false), "abc", file(10, None), None));
}

#[test]
fn stream_caches_are_never_used() {
    let c = tokens_cache(None, 0, "abc", FileMeta::stream(false));
    assert!(!c.validate(FileMeta::stream(false), "abc", file(0, None), None));
}

#[test]
fn standard_library_caches_follow_the_module_length() {
    let c = tokens_cache(None, 120, "abc", FileMeta::stdlib(true));
    let nothing = FileStatus { readable: false, is_file: false, len: 0, mtime: None };
    assert!(c.validate(FileMeta::stdlib(true), "abc", nothing, Some(120)));
    let nothing = FileStatus { readable: false, is_file: false, len: 0, mtime: None };
    assert!(!c.validate(FileMeta::stdlib(true), "abc", nothing, Some(121)));
    let nothing = FileStatus { readable: false, is_file: false, len: 0, mtime: None };
    assert!(c.validate(FileMeta::stdlib(true), "abc", nothing, None));
    let timed = tokens_cache(Some(1), 120, "abc", FileMeta::stdlib(true));
    let nothing = FileStatus { readable: false, is_file: false, len: 0, mtime: None };
    assert!(!timed.validate(FileMeta::stdlib(true), "abc", nothing, Some(120)));
}

#[test]
fn parse_cache_validation() {
    let c = PreparsedFile { block: (), meta: (), mtime: 9, len: 3, amber_git_hash: "h".to_string() };
    assert!(c.validate(Some(9), 3, "h"));
    assert!(!c.validate(None, 3, "h"));
    assert!(!c.validate(Some(8), 3, "h"));
    assert!(!c.validate(Some(9), 4, "h"));
    assert!(!c.validate(Some(9), 3, "g"));
}
