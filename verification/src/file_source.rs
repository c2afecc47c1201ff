use vstd::prelude::*;

verus! {

/// Where the source text of a compiled file comes from.
#[derive(Debug, Clone, Copy, PartialEq, Eq, Structural)]
pub enum FileSource {
    File,
    Stdlib,
    Stream,
}

impl FileSource {
    /// Whether token caching must be skipped for this kind of source.
    pub open spec fn spec_cache_disabled(self) -> bool {
        self is Stream
    }

    /// Streams (e.g. standard input) are never cached; files and the
    /// standard library are.
    pub fn cache_disabled(&self) -> (r: bool)
        ensures
            r == self.spec_cache_disabled(),
    {
        match self {
            FileSource::Stream => true,
            _ => false,
        }
    }
}

impl Default for FileSource {
    fn default() -> (r: Self)
        ensures
            r == FileSource::File,
    {
        FileSource::File
    }
}

/// What the compiler knows about a file it reads: whether it is imported by
/// another file, and where its text comes from.
#[derive(Debug, Clone, Copy, PartialEq, Eq, Structural)]
pub struct FileMeta {
    pub is_import: bool,
    pub source: FileSource,
}

impl FileMeta {
    pub fn file(is_import: bool) -> (r: Self)
        ensures
            r == (FileMeta { is_import, source: FileSource::File }),
    {
        Self { is_import, source: FileSource::File }
    }

    pub fn stdlib(is_import: bool) -> (r: Self)
        ensures
            r == (FileMeta { is_import, source: FileSource::Stdlib }),
    {
        Self { is_import, source: FileSource::Stdlib }
    }

    pub fn stream(is_import: bool) -> (r: Self)
        ensures
            r == (FileMeta { is_import, source: FileSource::Stream }),
    {
        Self { is_import, source: FileSource::Stream }
    }
}

impl Default for FileMeta {
    fn default() -> (r: Self)
        ensures
            r == (FileMeta { is_import: false, source: FileSource::File }),
    {
        Self { is_import: false, source: FileSource::default() }
    }
}

/// Of the three constructors only `stream` yields metadata whose token cache
/// is disabled, whatever `is_import` is.
pub proof fn law_only_streams_skip_cache(is_import: bool)
    ensures
        !(FileMeta { is_import, source: FileSource::File }).source.spec_cache_disabled(),
        !(FileMeta { is_import, source: FileSource::Stdlib }).source.spec_cache_disabled(),
        (FileMeta { is_import, source: FileSource::Stream }).source.spec_cache_disabled(),
{
}

} // verus!
