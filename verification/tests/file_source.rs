use amber::file_source::{FileMeta, FileSource};

#[test]
fn only_streams_disable_the_cache() {
    assert!(!FileSource::File.cache_disabled());
    assert!(!FileSource::Stdlib.cache_disabled());
    assert!(FileSource::Stream.cache_disabled());
}

#[test]
fn file_meta_constructors() {
    let f = FileMeta::file(true);
    assert!(f.is_import);
    assert_eq!(f.source, FileSource::File);
    let s = FileMeta::stdlib(false);
    assert!(!s.is_import);
    assert_eq!(s.source, FileSource::Stdlib);
    let t = FileMeta::stream(true);
    assert!(t.is_import);
    assert_eq!(t.source, FileSource::Stream);
}

#[test]
fn default_file_meta_is_a_file_that_is_not_imported() {
    let d = FileMeta::default();
    assert!(!d.is_import);
    assert_eq!(d.source, FileSource::File);
    assert_eq!(FileSource::default(), FileSource::File);
}
