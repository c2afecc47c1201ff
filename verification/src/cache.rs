use vstd::prelude::*;
use crate::file_source::{FileMeta, FileSource};
use crate::text::{chars_of, string_of, same_text};

verus! {

/// The extension of token cache files.
pub open spec fn tokens_cache_ext() -> Seq<char> {
    "ab.tk.c"@
}

/// The path `base` with `name` pushed onto it, as `PathBuf::push` gives it
/// on Unix: an absolute `name` replaces `base`; otherwise `name` is added
/// after a `/`, unless `base` is empty or already ends with one.
pub open spec fn path_pushed(base: Seq<char>, name: Seq<char>) -> Seq<char> {
    if name.len() > 0 && name[0] == '/' {
        name
    } else if base.len() > 0 && base.last() != '/' {
        base + seq!['/'] + name
    } else {
        base + name
    }
}

/// The path with its extension replaced by `ext`, as
/// `PathBuf::set_extension` gives it.
pub uninterp spec fn path_with_extension(path: Seq<char>, ext: Seq<char>) -> Seq<char>;

/// `PathBuf::push` on `base` with `name`, read back as a string.  The
/// contract states the result by the Unix rules of [`path_pushed`].
#[verifier::external_body]
pub(crate) fn push_path(base: &str, name: &str) -> (r: String)
    ensures
        r@ == path_pushed(base@, name@),
{
    let mut p = std::path::PathBuf::from(base);
    p.push(name);
    p.to_string_lossy().into_owned()
}

/// `PathBuf::set_extension` on `path` with `ext`, read back as a string.
/// The contract only names the result, [`path_with_extension`] of the two
/// arguments (the file name's extension replaced by `ext`).  The std method
/// panics when the extension holds a path separator, so such an `ext` is
/// excluded.
#[verifier::external_body]
pub(crate) fn set_extension(path: &str, ext: &str) -> (r: String)
    requires
        !ext@.contains('/'),
    ensures
        r@ == path_with_extension(path@, ext@),
{
    let mut p = std::path::PathBuf::from(path);
    p.set_extension(ext);
    p.to_string_lossy().into_owned()
}

/// A file name made flat for the cache directory: `/` and `:` become `_`.
pub open spec fn flattened(c: char) -> char {
    if c == '/' || c == ':' {
        '_'
    } else {
        c
    }
}

pub open spec fn flat_name(filename: Seq<char>) -> Seq<char> {
    filename.map_values(|c: char| flattened(c))
}

/// Where the token cache of `filename` is kept: next to it (as a flattened
/// name) for files, in the home cache directory for the standard library.
pub open spec fn cache_path(filename: Seq<char>, source: FileSource, home_cache: Option<Seq<char>>) -> Option<Seq<char>> {
    match source {
        FileSource::Stdlib => match home_cache {
            Some(h) => Some(path_with_extension(path_pushed(h, flat_name(filename)), tokens_cache_ext())),
            None => None,
        },
        _ => Some(path_with_extension(flat_name(filename), tokens_cache_ext())),
    }
}

/// What is known of a source file now, to decide whether a cache of it is
/// still valid.
pub struct FileStatus {
    /// Whether the file could be opened and its metadata read.
    pub readable: bool,
    pub is_file: bool,
    pub len: u64,
    /// Its modification time (nanoseconds from the epoch), when available.
    pub mtime: Option<i128>,
}

/// The tokens of a source file saved to speed up later compilations, with
/// what identifies the version of the file and of the compiler.
pub struct PretokenizedFile<T> {
    pub tokens: Vec<T>,
    pub mtime: Option<i128>,
    pub len: u64,
    pub amber_git_hash: String,
    pub file_meta: FileMeta,
}

/// Whether a token cache may be used: not for streams, only from the same
/// compiler build, and only while the file (or standard library module)
/// has the recorded length and modification time.
pub open spec fn tokens_cache_valid(
    mtime: Option<i128>,
    len: u64,
    hash_matches: bool,
    source: FileSource,
    file: FileStatus,
    stdlib_len: Option<usize>,
) -> bool {
    if source.spec_cache_disabled() || !hash_matches {
        false
    } else {
        match source {
            FileSource::File => !(file.readable && (!file.is_file || file.len != len || (file.mtime is Some
                && mtime is Some && file.mtime != mtime))),
            _ => !(stdlib_len is Some && (stdlib_len->0 != len as usize || mtime is Some)),
        }
    }
}

impl<T> PretokenizedFile<T> {
    /// The path of the cache of `filename`, given the home cache directory
    /// (if there is one).  Streams are never cached.
    pub fn get_path(filename: &str, file_meta: FileMeta, home_cache: Option<&str>) -> (r: Option<String>)
        requires
            !(file_meta.source is Stream),
        ensures
            crate::text::opt_string_view(r) == cache_path(
                filename@,
                file_meta.source,
                crate::text::opt_text(home_cache),
            ),
    {
        let v = chars_of(filename);
        let mut flat: Vec<char> = Vec::new();
        let mut i: usize = 0;
        while i < v.len()
            invariant
                i <= v@.len(),
                flat@ == v@.subrange(0, i as int).map_values(|c: char| flattened(c)),
            decreases v@.len() - i,
        {
            let c = v[i];
            flat.push(if c == '/' || c == ':' { '_' } else { c });
            i = i + 1;
            assert(flat@ =~= v@.subrange(0, i as int).map_values(|c: char| flattened(c)));
        }
        assert(v@.subrange(0, v@.len() as int) =~= filename@);
        let name = string_of(flat.as_slice());
        proof {
            reveal_strlit("ab.tk.c");
        }
        match file_meta.source {
            FileSource::Stdlib => match home_cache {
                Some(h) => {
                    let p = push_path(h, name.as_str());
                    Some(set_extension(p.as_str(), "ab.tk.c"))
                },
                None => None,
            },
            _ => Some(set_extension(name.as_str(), "ab.tk.c")),
        }
    }

    /// Whether this cache may be used for `file_meta`'s file, given the
    /// current compiler's build hash, what is known of the file now, and
    /// the length of the standard library module of that name (if any).
    pub fn validate(&self, file_meta: FileMeta, git_hash: &str, file: FileStatus, stdlib_len: Option<usize>) -> (r: bool)
        requires
            self.file_meta == file_meta,
        ensures
            r == tokens_cache_valid(self.mtime, self.len, self.amber_git_hash@ == git_hash@, file_meta.source, file, stdlib_len),
    {
        if file_meta.source.cache_disabled() {
            return false;
        }
        if !same_text(self.amber_git_hash.as_str(), git_hash) {
            return false;
        }
        match file_meta.source {
            FileSource::File => {
                if file.readable {
                    if !file.is_file {
                        return false;
                    }
                    if file.len != self.len {
                        return false;
                    }
                    if let Some(mtime) = file.mtime {
                        if let Some(smtime) = self.mtime {
                            if mtime != smtime {
                                return false;
                            }
                        }
                    }
                }
            },
            _ => {
                if let Some(len) = stdlib_len {
                    if len != self.len as usize {
                        return false;
                    }
                    if self.mtime.is_some() {
                        return false;
                    }
                }
            },
        }
        true
    }
}

/// A parsed file saved to speed up later compilations.
pub struct PreparsedFile<B, M> {
    pub block: B,
    pub meta: M,
    pub mtime: i128,
    pub len: u64,
    pub amber_git_hash: String,
}

impl<B, M> PreparsedFile<B, M> {
    /// The cache is valid while the file keeps the recorded modification
    /// time and length, for the same compiler build; a file whose
    /// modification time cannot be read never validates it.
    pub fn validate(&self, modified: Option<i128>, len: u64, git_hash: &str) -> (r: bool)
        ensures
            r == (modified == Some(self.mtime) && len == self.len && self.amber_git_hash@ == git_hash@),
    {
        match modified {
            Some(v) => v == self.mtime && len == self.len && same_text(self.amber_git_hash.as_str(), git_hash),
            None => false,
        }
    }
}

/// A cache from another compiler build is never used.
pub proof fn law_foreign_build_rejected(
    mtime: Option<i128>,
    len: u64,
    source: FileSource,
    file: FileStatus,
    stdlib_len: Option<usize>,
)
    ensures
        !tokens_cache_valid(mtime, len, false, source, file, stdlib_len),
{
}

/// A file whose length changed invalidates its token cache.
pub proof fn law_changed_length_rejected(mtime: Option<i128>, len: u64, file: FileStatus, stdlib_len: Option<usize>)
    requires
        file.readable,
        file.len != len,
    ensures
        !tokens_cache_valid(mtime, len, true, FileSource::File, file, stdlib_len),
{
}

/// A stream's token cache is never used, whatever it records.
pub proof fn law_stream_cache_never_valid(
    mtime: Option<i128>,
    len: u64,
    hash_matches: bool,
    file: FileStatus,
    stdlib_len: Option<usize>,
)
    ensures
        !tokens_cache_valid(mtime, len, hash_matches, FileSource::Stream, file, stdlib_len),
{
}

} // verus!
